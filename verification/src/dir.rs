//! An in-memory view over one directory's decoded byte region: enumerating
//! its 32-byte records and resolving a named entry into file bytes or a
//! child directory through the container handle.
use crate::entry::{
    spec_mark_deleted, spec_nice_name, spec_parse_entry, EntryV, ParsedFATEntry, A_DIR,
};
use crate::numfmt::{dec_digits_string, spec_dec_digits};
use crate::strutil::{eq_ignore_ascii_case, spec_eq_ignore_ascii_case};
use crate::vff::{spec_read_chain, VffV, VFF};
use crate::{ErrV, VFFError};
use vstd::arithmetic::div_mod::{lemma_fundamental_div_mod, lemma_mod_bound};
use vstd::prelude::*;
use vstd::slice::slice_subrange;
use vstd::string::StringExecFns;

verus! {

/// Spec-level mirror of a directory: its record region and its path label.
pub struct DirV {
    pub data: Seq<u8>,
    pub path: Seq<char>,
}

/// Spec-level mirror of resolved directory content.
pub enum ContentV {
    Dir(DirV),
    File(Seq<u8>),
    NoContent,
}

/// Spec-level mirror of a resolved directory entry.
pub struct DirEntryV {
    pub path: Seq<char>,
    pub name: Seq<char>,
    pub content: ContentV,
}

/// One directory's decoded byte region (a multiple of 32 bytes) and the
/// path label it is displayed under.
#[derive(Debug, Clone)]
pub struct Directory {
    pub data: Vec<u8>,
    pub path: String,
}

impl View for Directory {
    type V = DirV;

    open spec fn view(&self) -> DirV {
        DirV { data: self.data@, path: self.path@ }
    }
}

/// What a named entry resolves to: a child directory, a file's bytes, or
/// nothing when no entry matches.
#[derive(Debug, Clone)]
pub enum DirectoryContent {
    Dir(Directory),
    File(Vec<u8>),
    NoContent,
}

impl View for DirectoryContent {
    type V = ContentV;

    open spec fn view(&self) -> ContentV {
        match self {
            DirectoryContent::Dir(d) => ContentV::Dir(d@),
            DirectoryContent::File(f) => ContentV::File(f@),
            DirectoryContent::NoContent => ContentV::NoContent,
        }
    }
}

/// A resolved entry: the directory path it was found under, its display
/// name, and its content.
#[derive(Debug, Clone)]
pub struct DirectoryEntry {
    pub path: String,
    pub name: String,
    pub content: DirectoryContent,
}

impl View for DirectoryEntry {
    type V = DirEntryV;

    open spec fn view(&self) -> DirEntryV {
        DirEntryV { path: self.path@, name: self.name@, content: self.content@ }
    }
}

impl DirectoryEntry {
    pub fn make_dir_entry(path: String, name: String, dir: Directory) -> (r: Self)
        ensures
            r@ == (DirEntryV { path: path@, name: name@, content: ContentV::Dir(dir@) }),
    {
        DirectoryEntry { path, name, content: DirectoryContent::Dir(dir) }
    }

    pub fn make_file_entry(path: String, name: String, file: Vec<u8>) -> (r: Self)
        ensures
            r@ == (DirEntryV { path: path@, name: name@, content: ContentV::File(file@) }),
    {
        DirectoryEntry { path, name, content: DirectoryContent::File(file) }
    }

    pub fn make_empty_file_entry(path: String, name: String) -> (r: Self)
        ensures
            r@ == (DirEntryV {
                path: path@,
                name: name@,
                content: ContentV::File(Seq::<u8>::empty()),
            }),
    {
        let file: Vec<u8> = Vec::new();
        proof {
            assert(file@ =~= Seq::<u8>::empty());
        }
        Self::make_file_entry(path, name, file)
    }

    pub fn make_no_content(path: String) -> (r: Self)
        ensures
            r@ == (DirEntryV {
                path: path@,
                name: Seq::<char>::empty(),
                content: ContentV::NoContent,
            }),
    {
        DirectoryEntry { path, name: String::new(), content: DirectoryContent::NoContent }
    }

    pub fn path(&self) -> (r: &str)
        ensures
            r@ == self@.path,
    {
        self.path.as_str()
    }

    pub fn name(&self) -> (r: &str)
        ensures
            r@ == self@.name,
    {
        self.name.as_str()
    }

    pub fn file(&self) -> (r: Option<&Vec<u8>>)
        ensures
            match r {
                Some(f) => self@.content == ContentV::File(f@),
                None => !(self@.content is File),
            },
    {
        match &self.content {
            DirectoryContent::File(f) => Some(f),
            _ => None,
        }
    }

    pub fn dir(&self) -> (r: Option<&Directory>)
        ensures
            match r {
                Some(d) => self@.content == ContentV::Dir(d@),
                None => !(self@.content is Dir),
            },
    {
        match &self.content {
            DirectoryContent::Dir(d) => Some(d),
            _ => None,
        }
    }

    pub fn content(&self) -> (r: &DirectoryContent)
        ensures
            r@ == self@.content,
    {
        &self.content
    }
}

/// The records the scan of a directory region keeps: the region is read in
/// 32-byte strides; free slots (first name byte 0) are skipped, deleted
/// slots (first name byte 0xe5) are skipped unless deleted entries were
/// asked for, in which case they are kept and flagged; records with all
/// four low attribute bits set are reserved long-name stubs and always
/// skipped.
pub open spec fn spec_dir_entries(data: Seq<u8>, show_deleted: bool) -> Seq<EntryV>
    decreases data.len(),
{
    if data.len() < 32 {
        Seq::empty()
    } else {
        let e = spec_parse_entry(data.take(32));
        let rest = spec_dir_entries(data.skip(32), show_deleted);
        if e.name[0] == 0 {
            rest
        } else if e.name[0] == 0xe5 && !show_deleted {
            rest
        } else if e.attr & 0xf == 0xf {
            rest
        } else if e.name[0] == 0xe5 {
            seq![spec_mark_deleted(e)] + rest
        } else {
            seq![e] + rest
        }
    }
}

/// The views of a sequence of decoded records.
pub open spec fn views_of_entries(s: Seq<ParsedFATEntry>) -> Seq<EntryV> {
    s.map_values(|p: ParsedFATEntry| p@)
}

/// The message of the error for a region that is not a multiple of 32
/// bytes.
pub open spec fn spec_dir_len_msg(len: int) -> Seq<char> {
    "Constructed with "@ + spec_dec_digits(len as nat) + " (not multiple of 32"@
}

/// The error for a region that is not a multiple of 32 bytes.
pub open spec fn spec_dir_len_err(len: int) -> ErrV {
    ErrV::InvalidData {
        context: "Directory::new"@,
        expected: "Construct directory with a multiple of 32 bytes"@,
        found: spec_dir_len_msg(len),
    }
}

/// Whether an entry's displayed name matches a query name, ASCII
/// case-insensitively.
pub open spec fn spec_name_matches(e: EntryV, name: Seq<char>) -> bool {
    spec_eq_ignore_ascii_case(spec_nice_name(e.name), name)
}

/// `b` cut down to `size` bytes where it is longer; chains are
/// cluster-aligned and may exceed a file's declared size.
pub open spec fn spec_truncated(b: Seq<u8>, size: int) -> Seq<u8> {
    if size < b.len() {
        b.take(size)
    } else {
        b
    }
}

/// What one matched entry resolves to: a child directory built from its
/// whole chain, an empty file without touching the store, or file bytes
/// truncated to the declared size.
pub open spec fn spec_resolve(v: VffV, dir_path: Seq<char>, e: EntryV) -> Result<
    DirEntryV,
    ErrV,
> {
    let entry_name = spec_nice_name(e.name);
    if e.attr & A_DIR != 0 {
        match spec_read_chain(v, e.start as u32) {
            Ok(bytes) => {
                if bytes.len() % 32 == 0 {
                    Ok(
                        DirEntryV {
                            path: dir_path,
                            name: entry_name,
                            content: ContentV::Dir(
                                DirV { data: bytes, path: dir_path + "/"@ + entry_name },
                            ),
                        },
                    )
                } else {
                    Err(spec_dir_len_err(bytes.len() as int))
                }
            },
            Err(err) => Err(err),
        }
    } else if e.size == 0 {
        Ok(
            DirEntryV {
                path: dir_path,
                name: entry_name,
                content: ContentV::File(Seq::<u8>::empty()),
            },
        )
    } else {
        match spec_read_chain(v, e.start as u32) {
            Ok(bytes) => Ok(
                DirEntryV {
                    path: dir_path,
                    name: entry_name,
                    content: ContentV::File(spec_truncated(bytes, e.size as int)),
                },
            ),
            Err(err) => Err(err),
        }
    }
}

/// What resolving `name` against the entries from index `i` on yields: the
/// first case-insensitive match resolved, or a no-content entry when
/// nothing matches.
pub open spec fn spec_get(
    v: VffV,
    d: DirV,
    entries: Seq<EntryV>,
    name: Seq<char>,
    i: int,
) -> Result<DirEntryV, ErrV>
    decreases entries.len() - i,
{
    if i >= entries.len() {
        Ok(DirEntryV { path: d.path, name: Seq::<char>::empty(), content: ContentV::NoContent })
    } else if spec_name_matches(entries[i], name) {
        spec_resolve(v, d.path, entries[i])
    } else {
        spec_get(v, d, entries, name, i + 1)
    }
}

/// Whether an entry is not flagged deleted.
pub open spec fn spec_not_deleted(e: EntryV) -> bool {
    !e.deleted
}

/// Toggling deleted-entry visibility surfaces exactly the records whose
/// name begins with the deleted marker byte: the scan that hides them
/// yields the visible scan with its flagged entries filtered out, a
/// surfaced entry is flagged deleted exactly when its first name byte is
/// the marker, and no hidden-scan entry carries the marker.
pub proof fn lemma_deleted_visibility(data: Seq<u8>)
    ensures
        spec_dir_entries(data, false) == spec_dir_entries(data, true).filter(
            |e: EntryV| spec_not_deleted(e),
        ),
        forall|j: int|
            0 <= j < spec_dir_entries(data, true).len() ==> ((#[trigger] spec_dir_entries(
                data,
                true,
            )[j]).deleted <==> spec_dir_entries(data, true)[j].name[0] == 0xe5),
        forall|j: int|
            0 <= j < spec_dir_entries(data, false).len() ==> (#[trigger] spec_dir_entries(
                data,
                false,
            )[j]).name[0] != 0xe5 && !spec_dir_entries(data, false)[j].deleted,
    decreases data.len(),
{
    reveal(Seq::filter);
    let pred = |e: EntryV| spec_not_deleted(e);
    if data.len() < 32 {
        assert(Seq::<EntryV>::empty().filter(pred) =~= Seq::<EntryV>::empty());
    } else {
        lemma_deleted_visibility(data.skip(32));
        let e = spec_parse_entry(data.take(32));
        let rest_t = spec_dir_entries(data.skip(32), true);
        let rest_f = spec_dir_entries(data.skip(32), false);
        if e.name[0] == 0 || (e.attr & 0xf) == 0xf {
        } else if e.name[0] == 0xe5 {
            Seq::filter_distributes_over_add(seq![spec_mark_deleted(e)], rest_t, pred);
            assert(seq![spec_mark_deleted(e)].filter(pred) =~= Seq::<EntryV>::empty()) by {
                assert(seq![spec_mark_deleted(e)].drop_last() =~= Seq::<EntryV>::empty());
            };
            assert(Seq::<EntryV>::empty() + rest_t.filter(pred) =~= rest_t.filter(pred));
            assert(spec_dir_entries(data, true) =~= seq![spec_mark_deleted(e)] + rest_t);
        } else {
            Seq::filter_distributes_over_add(seq![e], rest_t, pred);
            assert(seq![e].filter(pred) =~= seq![e]) by {
                assert(seq![e].drop_last() =~= Seq::<EntryV>::empty());
            };
            assert(spec_dir_entries(data, true) =~= seq![e] + rest_t);
            assert(spec_dir_entries(data, false) =~= seq![e] + rest_f);
            assert(seq![e] + rest_f =~= seq![e] + rest_t.filter(pred));
        }
    }
}

impl Directory {
    /// Wraps a decoded byte region; a region that is not a multiple of 32
    /// bytes is malformed.
    pub fn new(data: Vec<u8>, path: String) -> (r: Result<Directory, VFFError>)
        ensures
            data@.len() % 32 == 0 ==> (r matches Ok(d) && d@ == (DirV {
                data: data@,
                path: path@,
            })),
            data@.len() % 32 != 0 ==> (r matches Err(e) && e@ == spec_dir_len_err(
                data@.len() as int,
            )),
    {
        let data_len = data.len();
        if data_len % 32 != 0 {
            let mut found = "Constructed with ".to_owned();
            let d = dec_digits_string(data_len as u64);
            found.append(d.as_str());
            found.append(" (not multiple of 32");
            proof {
                assert(found@ =~= spec_dir_len_msg(data_len as int));
            }
            return Err(
                VFFError::InvalidData {
                    context: "Directory::new".to_owned(),
                    expected: "Construct directory with a multiple of 32 bytes".to_owned(),
                    found,
                },
            );
        }
        Ok(Directory { data, path })
    }

    /// Scans the region in 32-byte strides and decodes the records that
    /// survive the free-slot, deleted-slot and reserved-stub filters, in
    /// on-disk order.
    pub fn read(&self, show_deleted: bool) -> (r: Result<Vec<ParsedFATEntry>, VFFError>)
        ensures
            r matches Ok(files) && views_of_entries(files@) == spec_dir_entries(
                self@.data,
                show_deleted,
            ),
    {
        let mut files: Vec<ParsedFATEntry> = Vec::new();
        let n: usize = self.data.len() / 32;
        let mut i: usize = 0;
        proof {
            assert(self.data@.skip(0) =~= self.data@);
            assert(views_of_entries(files@) + spec_dir_entries(self.data@, show_deleted)
                =~= spec_dir_entries(self.data@, show_deleted));
            assert(32 * (self.data@.len() as int / 32) <= self.data@.len() as int) by {
                lemma_fundamental_div_mod(self.data@.len() as int, 32);
                lemma_mod_bound(self.data@.len() as int, 32);
            };
        }
        while i < n
            invariant
                i <= n,
                n == self.data@.len() / 32,
                32 * (n as int) <= self.data@.len(),
                self.data@.len() <= usize::MAX,
                spec_dir_entries(self.data@, show_deleted) == views_of_entries(files@)
                    + spec_dir_entries(self.data@.skip(32 * i as int), show_deleted),
            decreases n - i,
        {
            let ghost suffix = self.data@.skip(32 * i as int);
            let base: usize = 32 * i;
            let chunk = slice_subrange(self.data.as_slice(), base, base + 32);
            proof {
                assert(chunk@ =~= suffix.take(32));
                assert(suffix.skip(32) =~= self.data@.skip(32 * (i + 1) as int));
            }
            let mut parsed = match ParsedFATEntry::from_slice(chunk) {
                Ok(p) => p,
                Err(e) => {
                    // a scan of a byte region cannot fail
                    proof {
                        assert(false);
                    }
                    return Err(e);
                },
            };
            let first = parsed.name[0];
            let skip_this = first == 0x00 || (first == 0xe5 && !show_deleted) || (parsed.attr & 0xf
                == 0xf);
            if !skip_this {
                if first == 0xe5 {
                    parsed.deleted = true;
                }
                let ghost prev = files@;
                files.push(parsed);
                proof {
                    assert(views_of_entries(files@) =~= views_of_entries(prev) + seq![parsed@]);
                    let rest = spec_dir_entries(self.data@.skip(32 * (i + 1) as int), show_deleted);
                    assert((views_of_entries(prev) + seq![parsed@]) + rest =~= views_of_entries(
                        prev,
                    ) + (seq![parsed@] + rest));
                }
            }
            i = i + 1;
        }
        proof {
            assert(spec_dir_entries(self.data@.skip(32 * i as int), show_deleted)
                =~= Seq::<EntryV>::empty());
            assert(views_of_entries(files@) + Seq::<EntryV>::empty() =~= views_of_entries(files@));
        }
        Ok(files)
    }

    /// Resolves `name` against this directory's entries, first match wins,
    /// comparing ASCII case-insensitively; no match is a no-content result
    /// rather than an error.
    pub fn get(&self, vff: &VFF, name: String, show_deleted: bool) -> (r: Result<
        DirectoryEntry,
        VFFError,
    >)
        ensures
            ({
                let entries = spec_dir_entries(self@.data, show_deleted);
                match r {
                    Ok(de) => spec_get(vff@, self@, entries, name@, 0) == Ok::<DirEntryV, ErrV>(
                        de@,
                    ),
                    Err(e) => spec_get(vff@, self@, entries, name@, 0) == Err::<DirEntryV, ErrV>(
                        e@,
                    ),
                }
            }),
    {
        let ghost sentries = spec_dir_entries(self@.data, show_deleted);
        let entries = match self.read(show_deleted) {
            Ok(f) => f,
            Err(e) => {
                proof {
                    assert(false);
                }
                return Err(e);
            },
        };
        let mut i: usize = 0;
        while i < entries.len()
            invariant
                i <= entries@.len(),
                views_of_entries(entries@) == sentries,
                sentries == spec_dir_entries(self@.data, show_deleted),
                spec_get(vff@, self@, sentries, name@, 0) == spec_get(
                    vff@,
                    self@,
                    sentries,
                    name@,
                    i as int,
                ),
            decreases entries@.len() - i,
        {
            let e = &entries[i];
            proof {
                assert(views_of_entries(entries@)[i as int] == e@);
            }
            let entry_name = e.nice_name();
            if eq_ignore_ascii_case(entry_name.as_str(), name.as_str()) {
                if e.attr & A_DIR != 0 {
                    let new_data = match vff.read_chain(e.start as u32) {
                        Ok(b) => b,
                        Err(err) => return Err(err),
                    };
                    let mut path = self.path.clone();
                    path.append("/");
                    path.append(entry_name.as_str());
                    let child = match Directory::new(new_data, path) {
                        Ok(d) => d,
                        Err(err) => return Err(err),
                    };
                    return Ok(DirectoryEntry::make_dir_entry(self.path.clone(), entry_name, child));
                } else if e.size == 0 {
                    return Ok(DirectoryEntry::make_empty_file_entry(self.path.clone(), entry_name));
                } else {
                    let mut raw = match vff.read_chain(e.start as u32) {
                        Ok(b) => b,
                        Err(err) => return Err(err),
                    };
                    let ghost rawfull = raw@;
                    raw.truncate(e.size as usize);
                    proof {
                        assert(raw@ =~= spec_truncated(rawfull, e.size as int));
                    }
                    return Ok(DirectoryEntry::make_file_entry(self.path.clone(), entry_name, raw));
                }
            }
            i = i + 1;
        }
        Ok(DirectoryEntry::make_no_content(self.path.clone()))
    }
}

} // verus!
