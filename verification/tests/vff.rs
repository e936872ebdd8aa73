use wiivff::{DumpAction, Directory, SupportedFAT, VFFError, FAT, VFF};

// Fixture geometry: volume 0x1400000 bytes, raw cluster size 0x20
// (effective 0x200), so 0xa000 clusters. The allocation table holds
// 0xa000 little-endian u16 entries (0x14000 bytes) at offset 0x20, the
// 0x1000-byte root directory region follows at 0x14020, and the data
// region starts at 0x15020 with cluster number 2.
const CLUSTER_SIZE: usize = 0x200;
const FAT_OFFSET: usize = 0x20;
const ROOT_OFFSET: usize = 0x14020;
const DATA_OFFSET: usize = 0x15020;

fn set_fat(img: &mut [u8], cluster: usize, value: u16) {
    let off = FAT_OFFSET + 2 * cluster;
    img[off] = (value & 0xff) as u8;
    img[off + 1] = (value >> 8) as u8;
}

fn cluster_off(cluster: usize) -> usize {
    DATA_OFFSET + CLUSTER_SIZE * (cluster - 2)
}

fn make_record(name: &[u8], ext: &[u8], attr: u8, start: u16, size: u32) -> [u8; 32] {
    let mut rec = [0u8; 32];
    rec[..8].copy_from_slice(&{
        let mut n = [b' '; 8];
        n[..name.len()].copy_from_slice(name);
        n
    });
    rec[8..11].copy_from_slice(&{
        let mut e = [b' '; 3];
        e[..ext.len()].copy_from_slice(ext);
        e
    });
    rec[11] = attr;
    rec[26] = (start & 0xff) as u8;
    rec[27] = (start >> 8) as u8;
    rec[28..32].copy_from_slice(&size.to_le_bytes());
    rec
}

fn put_record(img: &mut [u8], off: usize, rec: [u8; 32]) {
    img[off..off + 32].copy_from_slice(&rec);
}

fn dot_records(img: &mut [u8], cluster: usize) {
    let base = cluster_off(cluster);
    put_record(img, base, make_record(b".", b"", 0x10, cluster as u16, 0));
    put_record(img, base + 32, make_record(b"..", b"", 0x10, 0, 0));
}

fn reference_file_bytes() -> Vec<u8> {
    (0..0xca0).map(|i| (i % 251) as u8).collect()
}

fn empty_image() -> Vec<u8> {
    let mut img = vec![0u8; 0x1400000];
    img[0..4].copy_from_slice(b"VFF ");
    img[8..12].copy_from_slice(&0x0140_0000u32.to_be_bytes());
    img[12..14].copy_from_slice(&0x0020u16.to_be_bytes());
    img
}

/// A container with a 2-entry root: the zero-byte-sized file CDB~1.CON
/// (4 declared bytes, all zero) and a directory chain six levels deep
/// ending in one 0xca0-byte file.
fn build_fixture() -> Vec<u8> {
    let mut img = empty_image();

    // Root: one small file and the top of the directory chain.
    put_record(&mut img, ROOT_OFFSET, make_record(b"CDB~1", b"CON", 0x20, 2, 4));
    put_record(&mut img, ROOT_OFFSET + 32, make_record(b"2022", b"", 0x10, 3, 0));
    set_fat(&mut img, 2, 0xffff);

    // The nested directories, one cluster each: 2022/10/15/21/44/HAEA_#1/LOG.
    let names: [&[u8]; 6] = [b"10", b"15", b"21", b"44", b"HAEA_#1", b"LOG"];
    for (i, name) in names.iter().enumerate() {
        let parent = 3 + i;
        set_fat(&mut img, parent, 0xffff);
        dot_records(&mut img, parent);
        put_record(
            &mut img,
            cluster_off(parent) + 64,
            make_record(name, b"", 0x10, (parent + 1) as u16, 0),
        );
    }
    set_fat(&mut img, 9, 0xffff);
    dot_records(&mut img, 9);
    put_record(
        &mut img,
        cluster_off(9) + 64,
        make_record(b"2B06C4C3", b"000", 0x20, 10, 0xca0),
    );

    // The nested file's bytes across seven chained clusters.
    for c in 10..16 {
        set_fat(&mut img, c, (c + 1) as u16);
    }
    set_fat(&mut img, 16, 0xffff);
    let bytes = reference_file_bytes();
    img[cluster_off(10)..cluster_off(10) + bytes.len()].copy_from_slice(&bytes);

    img
}

#[test]
pub fn vff_header() {
    let (vff, _) = VFF::new(build_fixture()).unwrap();
    assert_eq!(vff.header.volume_size, 0x1400000);
    assert_eq!(vff.header.cluster_size, 0x200);
    assert_eq!(vff.header.cluster_count, 0xa000);
}

#[test]
pub fn ls_root_dir() {
    let (vff, root_dir) = VFF::new(build_fixture()).unwrap();
    let root_dir_contents = root_dir.ls(&vff, false).unwrap();
    assert_eq!(root_dir_contents.len(), 2);
    assert!(root_dir_contents.contains(&"/CDB~1.CON [0x0004]".to_owned()));
    assert!(root_dir_contents
        .contains(&"/2022/10/15/21/44/HAEA_#1/LOG/2B06C4C3.000 [0x0ca0]".to_owned()));
}

#[test]
pub fn check_file_size_vs_header() {
    let img = build_fixture();
    let expected_size = img.len() as u32;
    let (vff, _) = VFF::new(img).unwrap();
    assert_eq!(vff.header.volume_size, expected_size);
}

#[test]
pub fn dump_root() {
    let (vff, root_dir) = VFF::new(build_fixture()).unwrap();
    let temp_dir = "WiiVFF-tests".to_owned();
    let actions = root_dir.dump(&vff, temp_dir.clone(), false).unwrap();
    assert!(matches!(&actions[0], DumpAction::CreateDir(p) if *p == temp_dir));

    let mut cdb_file: Option<&Vec<u8>> = None;
    let mut playlog_file: Option<&Vec<u8>> = None;
    for action in &actions {
        if let DumpAction::WriteFile(path, bytes) = action {
            if path == "WiiVFF-tests/CDB~1.CON" {
                cdb_file = Some(bytes);
            }
            if path == "WiiVFF-tests/2022/10/15/21/44/HAEA_#1/LOG/2B06C4C3.000" {
                playlog_file = Some(bytes);
            }
        }
    }
    let cdb_file = cdb_file.unwrap();
    assert_eq!(cdb_file.len(), 0x4);
    assert_eq!(*cdb_file, vec![0; 4]);

    let file2_compare_data = reference_file_bytes();
    let playlog_file = playlog_file.unwrap();
    assert_eq!(playlog_file.len(), 0xca0);
    assert_eq!(*playlog_file, file2_compare_data);
}

#[test]
fn dump_creates_intermediate_directories() {
    let (vff, root_dir) = VFF::new(build_fixture()).unwrap();
    let actions = root_dir.dump(&vff, "out".to_owned(), false).unwrap();
    let dirs: Vec<&str> = actions
        .iter()
        .filter_map(|a| match a {
            DumpAction::CreateDir(p) => Some(p.as_str()),
            _ => None,
        })
        .collect();
    assert!(dirs.contains(&"out"));
    assert!(dirs.contains(&"out/2022/10/15/21/44/HAEA_#1"));
    assert!(dirs.contains(&"out/2022/10/15/21/44/HAEA_#1/LOG"));
}

#[test]
fn get_is_case_insensitive() {
    let (vff, root_dir) = VFF::new(build_fixture()).unwrap();
    let entry = root_dir.get(&vff, "cdb~1".to_owned(), false).unwrap();
    let file = entry.file().unwrap();
    assert_eq!(*file, vec![0u8; 4]);
    assert_eq!(entry.name(), "CDB~1");
}

#[test]
fn get_without_match_returns_no_content() {
    let (vff, root_dir) = VFF::new(build_fixture()).unwrap();
    let entry = root_dir.get(&vff, "MISSING".to_owned(), false).unwrap();
    assert!(entry.file().is_none());
    assert!(entry.dir().is_none());
}

#[test]
fn deleted_entries_surface_only_on_request() {
    let mut img = build_fixture();
    let mut name = [0u8; 8];
    name.copy_from_slice(b"xDELETE ");
    name[0] = 0xe5;
    set_fat(&mut img, 17, 0xffff);
    let mut rec = make_record(&name, b"TXT", 0x20, 17, 0x10);
    rec[0] = 0xe5;
    put_record(&mut img, ROOT_OFFSET + 64, rec);

    let (vff, root_dir) = VFF::new(img).unwrap();
    let hidden = root_dir.ls(&vff, false).unwrap();
    assert_eq!(hidden.len(), 2);
    assert!(hidden.iter().all(|line| !line.ends_with(" [DELETED]")));

    let shown = root_dir.ls(&vff, true).unwrap();
    assert_eq!(shown.len(), 3);
    let expected = format!("/{}DELETE.TXT [0x0010] [DELETED]", '\u{FFFD}');
    assert!(shown.contains(&expected));
}

#[test]
fn empty_directory_appears_as_bare_path() {
    let mut img = empty_image();
    put_record(&mut img, ROOT_OFFSET, make_record(b"EMPTY", b"", 0x10, 2, 0));
    set_fat(&mut img, 2, 0xffff);
    dot_records(&mut img, 2);
    let (vff, root_dir) = VFF::new(img).unwrap();
    let lines = root_dir.ls(&vff, false).unwrap();
    assert_eq!(lines, vec!["/EMPTY".to_owned()]);
}

#[test]
fn magic_mismatch_names_expected_and_found() {
    let mut img = build_fixture();
    img[0] = b'X';
    match VFF::new(img) {
        Err(VFFError::InvalidData { context, expected, found }) => {
            assert_eq!(context, "Check VFF Header: parsing file magic");
            assert_eq!(expected, "[86, 70, 70, 32]");
            assert_eq!(found, "[88, 70, 70, 32]");
        }
        other => panic!("expected a malformed-data error, got {:?}", other),
    }
}

#[test]
fn overflowing_cluster_size_is_rejected() {
    let mut img = build_fixture();
    img[12..14].copy_from_slice(&0x1000u16.to_be_bytes());
    match VFF::new(img) {
        Err(VFFError::InvalidData { found, .. }) => assert_eq!(found, "Overflow detected"),
        other => panic!("expected a malformed-data error, got {:?}", other),
    }
}

#[test]
fn zero_cluster_size_is_rejected() {
    let mut img = build_fixture();
    img[12..14].copy_from_slice(&0u16.to_be_bytes());
    match VFF::new(img) {
        Err(VFFError::InvalidData { expected, .. }) => assert_eq!(expected, "Cluster size != 0"),
        other => panic!("expected a malformed-data error, got {:?}", other),
    }
}

#[test]
fn fat32_cluster_counts_are_rejected() {
    let mut img = build_fixture();
    img[12..14].copy_from_slice(&0x0001u16.to_be_bytes());
    match VFF::new(img) {
        Err(VFFError::Other(msg)) => assert_eq!(msg, "FAT 32 is not supported"),
        other => panic!("expected an unsupported-layout error, got {:?}", other),
    }
}

#[test]
fn fat12_cluster_counts_are_rejected() {
    let mut img = build_fixture();
    img[8..12].copy_from_slice(&0x1000u32.to_be_bytes());
    match VFF::new(img) {
        Err(VFFError::Other(msg)) => assert_eq!(msg, "FAT12 is not supported"),
        other => panic!("expected an unsupported-layout error, got {:?}", other),
    }
}

#[test]
fn truncated_container_is_a_read_failure() {
    match VFF::new(vec![0u8; 4]) {
        Err(VFFError::IOErr(msg)) => assert_eq!(msg, "failed to fill whole buffer"),
        other => panic!("expected a read failure, got {:?}", other),
    }
}

fn fat16(clusters: Vec<u16>) -> FAT {
    FAT { fattype: SupportedFAT::FAT16, clusters }
}

#[test]
fn chain_ends_at_end_of_chain_marker() {
    let fat = fat16(vec![0, 0, 3, 0xfff8]);
    assert_eq!(fat.get_chain(2).unwrap(), vec![2, 3]);
    let fat_hi = fat16(vec![0, 0, 3, 0xffff]);
    assert_eq!(fat_hi.get_chain(2).unwrap(), vec![2, 3]);
}

#[test]
fn chain_reaching_lower_value_is_corrupt() {
    let fat = fat16(vec![0, 0, 0xfff7]);
    match fat.get_chain(2) {
        Err(VFFError::InvalidData { context, found, .. }) => {
            assert_eq!(context, "FAT chain parsing");
            assert_eq!(found, "False, the cluster reads: fff7");
        }
        other => panic!("expected a chain-corruption error, got {:?}", other),
    }
    let fat_gap = fat16(vec![0, 0, 0xfff0]);
    assert!(fat_gap.get_chain(2).is_err());
    let fat_free = fat16(vec![0, 0, 0]);
    assert!(fat_free.get_chain(2).is_err());
}

#[test]
fn chain_lookup_past_table_end_is_reported() {
    let fat = fat16(vec![0, 0, 5]);
    match fat.get_chain(2) {
        Err(VFFError::InvalidData { context, found, .. }) => {
            assert_eq!(context, "get_cluster FAT16");
            assert_eq!(
                found,
                "Cluster data wasn't long enough to index that far. Asked for: 5 Cluster len: 3"
            );
        }
        other => panic!("expected an out-of-range error, got {:?}", other),
    }
}

#[test]
fn cyclic_chain_is_an_error_not_a_hang() {
    let fat = fat16(vec![0, 0, 3, 2]);
    assert!(fat.get_chain(2).is_err());
}

#[test]
fn classification_boundaries() {
    let fat = fat16(vec![]);
    assert!(FAT::is_available(0));
    assert!(!FAT::is_available(1));
    assert!(fat.is_used(1));
    assert!(fat.is_used(0xffef));
    assert!(!fat.is_used(0xfff0));
    assert!(!fat.is_used(0));
    assert!(fat.is_bad(0xfff7));
    assert!(!fat.is_bad(0xfff6));
    assert!(fat.is_last(0xfff8));
    assert!(fat.is_last(0xffff));
    assert!(!fat.is_last(0xfff7));
}

#[test]
fn directory_region_must_be_record_aligned() {
    match Directory::new(vec![0u8; 33], String::new()) {
        Err(VFFError::InvalidData { found, .. }) => {
            assert_eq!(found, "Constructed with 33 (not multiple of 32");
        }
        other => panic!("expected a malformed-data error, got {:?}", other),
    }
}

#[test]
fn resolving_a_directory_yields_child_view() {
    let (vff, root_dir) = VFF::new(build_fixture()).unwrap();
    let nested = root_dir.get(&vff, "2022".to_owned(), false).unwrap();
    let dir2022 = nested.dir().unwrap();
    assert_eq!(dir2022.path, "/2022");
    let entries = dir2022.read(false).unwrap();
    // ".", ".." and the one nested directory survive the scan.
    assert_eq!(entries.len(), 3);
    assert_eq!(entries[2].nice_name(), "10");
}

#[test]
fn record_fields_decode_little_endian() {
    let mut raw = [0u8; 32];
    raw[..8].copy_from_slice(b"NAME    ");
    raw[8..11].copy_from_slice(b"EXT");
    raw[11] = 0x20;
    raw[26] = 0x34;
    raw[27] = 0x12;
    raw[28..32].copy_from_slice(&0xdeadbeefu32.to_le_bytes());
    let rec = wiivff::ParsedFATEntry::from_slice(&raw).unwrap();
    assert_eq!(rec.start, 0x1234);
    assert_eq!(rec.size, 0xdeadbeef);
    assert_eq!(rec.nice_name(), "NAME");
    assert_eq!(rec.nice_extension(), "EXT");
    assert_eq!(rec.nice_full_name(), "NAME.EXT");
}

#[test]
fn directory_full_name_is_bare_and_empty_extension_keeps_dot() {
    let dir_rec = wiivff::ParsedFATEntry::from_slice(&make_record(b"SUB", b"", 0x10, 2, 0)).unwrap();
    assert_eq!(dir_rec.nice_full_name(), "SUB");
    let file_rec =
        wiivff::ParsedFATEntry::from_slice(&make_record(b"FILE", b"", 0x20, 2, 0)).unwrap();
    assert_eq!(file_rec.nice_full_name(), "FILE.");
}

#[test]
fn lossy_name_decoding_replaces_invalid_bytes() {
    let mut raw = make_record(b"AAAAAAAA", b"BIN", 0x20, 2, 0);
    raw[0] = 0xe5;
    let rec = wiivff::ParsedFATEntry::from_slice(&raw).unwrap();
    assert_eq!(rec.nice_name(), format!("{}AAAAAAA", '\u{FFFD}'));
}

#[test]
fn read_chain_concatenates_and_read_cluster_slices() {
    let (vff, _) = VFF::new(build_fixture()).unwrap();
    let one = vff.read_cluster(10).unwrap();
    assert_eq!(one.len(), 0x200);
    assert_eq!(one[..], reference_file_bytes()[..0x200]);
    let whole = vff.read_chain(10).unwrap();
    assert_eq!(whole.len(), 7 * 0x200);
    assert_eq!(whole[..0xca0], reference_file_bytes()[..]);
    assert!(vff.read_cluster(1).is_err());
}
