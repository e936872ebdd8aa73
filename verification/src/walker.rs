//! Depth-first traversal of a directory: either a flat listing of
//! descriptive lines, or a plan of directory-creation and file-write
//! actions for extraction; both modes share one recursive procedure.
use crate::dir::{
    spec_dir_entries, spec_get, views_of_entries, ContentV, DirV, Directory, DirectoryContent,
};
use crate::entry::{spec_nice_full_name, spec_nice_name, EntryV, A_DIR};
use crate::numfmt::{hex_0x04_string, spec_hex_0x04};
use crate::vff::{VffV, VFF};
use crate::{ErrV, VFFError};
use vstd::prelude::*;
use vstd::string::StringExecFns;

verus! {

/// The traversal depth budget: more levels than there are possible start
/// clusters can only arise from a cycle in the tree.
pub const WALK_FUEL: u32 = 0x10000;

/// Spec-level mirror of one extraction action.
pub enum ActV {
    CreateDir(Seq<char>),
    WriteFile(Seq<char>, Seq<u8>),
}

/// One step of an extraction plan: ensure a directory exists, or write a
/// file's bytes at a path. Replaying the steps in order reproduces the
/// container's tree on a host filesystem.
#[derive(Debug, Clone)]
pub enum DumpAction {
    CreateDir(String),
    WriteFile(String, Vec<u8>),
}

impl View for DumpAction {
    type V = ActV;

    open spec fn view(&self) -> ActV {
        match self {
            DumpAction::CreateDir(p) => ActV::CreateDir(p@),
            DumpAction::WriteFile(p, b) => ActV::WriteFile(p@, b@),
        }
    }
}

/// The views of a sequence of actions.
pub open spec fn views_of_actions(s: Seq<DumpAction>) -> Seq<ActV> {
    s.map_values(|a: DumpAction| a@)
}

/// The views of a sequence of listing lines.
pub open spec fn views_of_lines(s: Seq<String>) -> Seq<Seq<char>> {
    s.map_values(|x: String| x@)
}

/// The listing line of one file entry: its path, full name, bracketed
/// hexadecimal size, and a deletion marker where the record was deleted.
pub open spec fn spec_list_line(path: Seq<char>, e: EntryV) -> Seq<char> {
    path + "/"@ + spec_nice_full_name(e) + " ["@ + spec_hex_0x04(e.size as nat) + "]"@ + (
    if e.deleted {
        " [DELETED]"@
    } else {
        Seq::<char>::empty()
    })
}

/// The error for a directory-attributed entry whose resolution came back
/// as something other than a directory.
pub open spec fn spec_dir_content_err(found: Seq<char>) -> ErrV {
    ErrV::InvalidData {
        context: "Directory::ls get entry from read"@,
        expected:
            "Directory::get should return another Directory because the entry is marked as one in the FAT"@,
        found,
    }
}

/// The error for a file entry whose resolution came back without bytes
/// while extracting.
pub open spec fn spec_dump_file_err() -> ErrV {
    ErrV::InvalidData {
        context: "Directory::ls dumping file get"@,
        expected: "Directory::get returns file bytes"@,
        found: "None"@,
    }
}

/// The error for a traversal that descends deeper than the walk budget,
/// which only a cycle among directory chains can cause.
pub open spec fn spec_depth_err() -> ErrV {
    ErrV::InvalidData {
        context: "Directory tree traversal"@,
        expected: "The tree should not nest more deeply than the walk budget"@,
        found: "Depth budget exhausted"@,
    }
}

/// Whether an entry is a directory named `.` or `..`, which the walk skips
/// to avoid recursing through self and parent links.
pub open spec fn spec_is_dot_dir(e: EntryV) -> bool {
    e.attr & A_DIR != 0 && (spec_nice_name(e.name) == "."@ || spec_nice_name(e.name) == ".."@)
}

/// The walk over one directory's entries from index `i` on. `got` records
/// whether any entry of this directory has been taken as its own content;
/// a directory whose walk ends with `got` still false contributes its bare
/// path as a line, so empty directories stay observable. Directory entries
/// are resolved by name and walked with one unit of depth budget less;
/// file entries become a listing line, or a create-directory and
/// write-file action when a destination is given.
pub open spec fn spec_walk_entries(
    v: VffV,
    d: DirV,
    entries: Seq<EntryV>,
    i: int,
    got: bool,
    dest: Option<Seq<char>>,
    sd: bool,
    fuel: nat,
) -> Result<(Seq<Seq<char>>, Seq<ActV>), ErrV>
    decreases fuel, entries.len() - i,
{
    if i >= entries.len() {
        Ok(
            (
                if !got {
                    seq![d.path]
                } else {
                    Seq::<Seq<char>>::empty()
                },
                Seq::<ActV>::empty(),
            ),
        )
    } else {
        let e = entries[i];
        let nm = spec_nice_name(e.name);
        if e.attr & A_DIR != 0 {
            if nm == "."@ || nm == ".."@ {
                spec_walk_entries(v, d, entries, i + 1, got, dest, sd, fuel)
            } else {
                match spec_get(v, d, entries, nm, 0) {
                    Err(err) => Err(err),
                    Ok(de) => match de.content {
                        ContentV::Dir(sub) => {
                            if fuel == 0 {
                                Err(spec_depth_err())
                            } else {
                                let acts0: Seq<ActV> = match dest {
                                    Some(p) => seq![ActV::CreateDir(p)],
                                    None => Seq::<ActV>::empty(),
                                };
                                let new_dest: Option<Seq<char>> = match dest {
                                    Some(p) => Some(p + "/"@ + nm),
                                    None => None,
                                };
                                match spec_walk_entries(
                                    v,
                                    sub,
                                    spec_dir_entries(sub.data, sd),
                                    0,
                                    false,
                                    new_dest,
                                    sd,
                                    (fuel - 1) as nat,
                                ) {
                                    Err(err2) => Err(err2),
                                    Ok(rsub) => match spec_walk_entries(
                                        v,
                                        d,
                                        entries,
                                        i + 1,
                                        true,
                                        dest,
                                        sd,
                                        fuel,
                                    ) {
                                        Err(err3) => Err(err3),
                                        Ok(rrest) => Ok(
                                            (rsub.0 + rrest.0, acts0 + rsub.1 + rrest.1),
                                        ),
                                    },
                                }
                            }
                        },
                        ContentV::File(_) => Err(spec_dir_content_err("returned file contents"@)),
                        ContentV::NoContent => Err(spec_dir_content_err("returned nothing"@)),
                    },
                }
            }
        } else {
            match dest {
                Some(p) => match spec_get(v, d, entries, nm, 0) {
                    Err(err) => Err(err),
                    Ok(de) => match de.content {
                        ContentV::File(bytes) => match spec_walk_entries(
                            v,
                            d,
                            entries,
                            i + 1,
                            true,
                            dest,
                            sd,
                            fuel,
                        ) {
                            Err(err3) => Err(err3),
                            Ok(rrest) => Ok(
                                (
                                    rrest.0,
                                    seq![
                                        ActV::CreateDir(p),
                                        ActV::WriteFile(p + "/"@ + spec_nice_full_name(e), bytes),
                                    ] + rrest.1,
                                ),
                            ),
                        },
                        _ => Err(spec_dump_file_err()),
                    },
                },
                None => match spec_walk_entries(v, d, entries, i + 1, true, dest, sd, fuel) {
                    Err(err3) => Err(err3),
                    Ok(rrest) => Ok((seq![spec_list_line(d.path, e)] + rrest.0, rrest.1)),
                },
            }
        }
    }
}

/// The walk of one whole directory.
pub open spec fn spec_walk_dir(
    v: VffV,
    d: DirV,
    dest: Option<Seq<char>>,
    sd: bool,
    fuel: nat,
) -> Result<(Seq<Seq<char>>, Seq<ActV>), ErrV> {
    spec_walk_entries(v, d, spec_dir_entries(d.data, sd), 0, false, dest, sd, fuel)
}

/// The view of an optional destination path.
pub open spec fn spec_dest_view(dump: Option<String>) -> Option<Seq<char>> {
    match dump {
        Some(p) => Some(p@),
        None => None,
    }
}

impl Directory {
    /// The shared recursive procedure behind listing and extraction: walks
    /// this directory's entries in on-disk order, recursing into
    /// subdirectories with one unit of depth budget less, and yields the
    /// listing lines and the extraction actions in traversal order.
    #[verifier::rlimit(100)]
    pub fn do_operation_recursive(
        &self,
        vff: &VFF,
        dump: Option<String>,
        show_deleted: bool,
        fuel: u32,
    ) -> (r: Result<(Vec<String>, Vec<DumpAction>), VFFError>)
        ensures
            ({
                let w = spec_walk_dir(vff@, self@, spec_dest_view(dump), show_deleted, fuel as nat);
                match r {
                    Ok(out) => w == Ok::<(Seq<Seq<char>>, Seq<ActV>), ErrV>(
                        (views_of_lines(out.0@), views_of_actions(out.1@)),
                    ),
                    Err(e) => w == Err::<(Seq<Seq<char>>, Seq<ActV>), ErrV>(e@),
                }
            }),
        decreases fuel,
    {
        let ghost v = vff@;
        let ghost d = self@;
        let ghost se = spec_dir_entries(self@.data, show_deleted);
        let ghost dv = spec_dest_view(dump);
        let entries = match self.read(show_deleted) {
            Ok(f) => f,
            Err(e) => {
                proof {
                    assert(false);
                }
                return Err(e);
            },
        };
        let mut lines: Vec<String> = Vec::new();
        let mut acts: Vec<DumpAction> = Vec::new();
        let mut got: bool = false;
        let mut i: usize = 0;
        proof {
            match spec_walk_entries(v, d, se, 0, false, dv, show_deleted, fuel as nat) {
                Ok(rr) => {
                    assert(views_of_lines(lines@) + rr.0 =~= rr.0);
                    assert(views_of_actions(acts@) + rr.1 =~= rr.1);
                },
                Err(_) => {},
            }
        }
        while i < entries.len()
            invariant
                i <= entries@.len(),
                views_of_entries(entries@) == se,
                v == vff@,
                d == self@,
                se == spec_dir_entries(self@.data, show_deleted),
                dv == spec_dest_view(dump),
                match spec_walk_entries(v, d, se, i as int, got, dv, show_deleted, fuel as nat) {
                    Ok(rr) => spec_walk_entries(v, d, se, 0, false, dv, show_deleted, fuel as nat)
                        == Ok::<(Seq<Seq<char>>, Seq<ActV>), ErrV>(
                        (views_of_lines(lines@) + rr.0, views_of_actions(acts@) + rr.1),
                    ),
                    Err(e) => spec_walk_entries(v, d, se, 0, false, dv, show_deleted, fuel as nat)
                        == Err::<(Seq<Seq<char>>, Seq<ActV>), ErrV>(e),
                },
            decreases entries@.len() - i,
        {
            let e = &entries[i];
            proof {
                assert(views_of_entries(entries@)[i as int] == e@);
            }
            let entry_name = e.nice_name();
            if e.attr & A_DIR != 0 {
                let dot = ".".to_owned();
                let dotdot = "..".to_owned();
                if entry_name == dot || entry_name == dotdot {
                    // self and parent links are skipped, without counting as
                    // this directory's own content
                } else {
                    got = true;
                    let de = match self.get(vff, entry_name.clone(), show_deleted) {
                        Ok(de) => de,
                        Err(err) => return Err(err),
                    };
                    match de.content {
                        DirectoryContent::Dir(subdir) => {
                            if fuel == 0 {
                                return Err(
                                    VFFError::InvalidData {
                                        context: "Directory tree traversal".to_owned(),
                                        expected:
                                            "The tree should not nest more deeply than the walk budget".to_owned(),
                                        found: "Depth budget exhausted".to_owned(),
                                    },
                                );
                            }
                            let ghost acts_before = acts@;
                            let new_dump: Option<String> = match &dump {
                                Some(p) => {
                                    let mut t = p.clone();
                                    t.append("/");
                                    t.append(entry_name.as_str());
                                    acts.push(DumpAction::CreateDir(p.clone()));
                                    Some(t)
                                },
                                None => None,
                            };
                            let (mut sl, mut sa) = match subdir.do_operation_recursive(
                                vff,
                                new_dump,
                                show_deleted,
                                fuel - 1,
                            ) {
                                Ok(out) => out,
                                Err(err2) => return Err(err2),
                            };
                            let ghost lines_before = lines@;
                            let ghost acts_mid = acts@;
                            let ghost slv = sl@;
                            let ghost sav = sa@;
                            lines.append(&mut sl);
                            acts.append(&mut sa);
                            proof {
                                let ghost acts0: Seq<ActV> = match dv {
                                    Some(p) => seq![ActV::CreateDir(p)],
                                    None => Seq::<ActV>::empty(),
                                };
                                assert(views_of_actions(acts_mid) =~= views_of_actions(acts_before)
                                    + acts0);
                                assert(views_of_lines(lines@) =~= views_of_lines(lines_before)
                                    + views_of_lines(slv));
                                assert(views_of_actions(acts@) =~= views_of_actions(acts_mid)
                                    + views_of_actions(sav));
                                match spec_walk_entries(
                                    v,
                                    d,
                                    se,
                                    i + 1,
                                    true,
                                    dv,
                                    show_deleted,
                                    fuel as nat,
                                ) {
                                    Ok(rr) => {
                                        assert((views_of_lines(lines_before) + views_of_lines(slv))
                                            + rr.0 =~= views_of_lines(lines_before) + (
                                        views_of_lines(slv) + rr.0));
                                        assert(((views_of_actions(acts_before) + acts0)
                                            + views_of_actions(sav)) + rr.1 =~= views_of_actions(
                                            acts_before,
                                        ) + ((acts0 + views_of_actions(sav)) + rr.1));
                                    },
                                    Err(_) => {},
                                }
                            }
                        },
                        DirectoryContent::File(_) => {
                            return Err(
                                VFFError::InvalidData {
                                    context: "Directory::ls get entry from read".to_owned(),
                                    expected:
                                        "Directory::get should return another Directory because the entry is marked as one in the FAT".to_owned(),
                                    found: "returned file contents".to_owned(),
                                },
                            );
                        },
                        DirectoryContent::NoContent => {
                            return Err(
                                VFFError::InvalidData {
                                    context: "Directory::ls get entry from read".to_owned(),
                                    expected:
                                        "Directory::get should return another Directory because the entry is marked as one in the FAT".to_owned(),
                                    found: "returned nothing".to_owned(),
                                },
                            );
                        },
                    }
                }
            } else {
                got = true;
                match &dump {
                    Some(p) => {
                        let de = match self.get(vff, entry_name.clone(), show_deleted) {
                            Ok(de) => de,
                            Err(err) => return Err(err),
                        };
                        match de.content {
                            DirectoryContent::File(file_bytes) => {
                                let ghost acts_before = acts@;
                                acts.push(DumpAction::CreateDir(p.clone()));
                                let mut t = p.clone();
                                t.append("/");
                                let fname = e.nice_full_name();
                                t.append(fname.as_str());
                                acts.push(DumpAction::WriteFile(t, file_bytes));
                                proof {
                                    match spec_walk_entries(
                                        v,
                                        d,
                                        se,
                                        i + 1,
                                        true,
                                        dv,
                                        show_deleted,
                                        fuel as nat,
                                    ) {
                                        Ok(rr) => {
                                            assert(views_of_actions(acts@) =~= views_of_actions(
                                                acts_before,
                                            ) + seq![acts@[acts@.len() - 2]@, acts@[acts@.len() - 1]@]);
                                            assert((views_of_actions(acts_before) + seq![
                                                acts@[acts@.len() - 2]@,
                                                acts@[acts@.len() - 1]@,
                                            ]) + rr.1 =~= views_of_actions(acts_before) + (seq![
                                                acts@[acts@.len() - 2]@,
                                                acts@[acts@.len() - 1]@,
                                            ] + rr.1));
                                        },
                                        Err(_) => {},
                                    }
                                }
                            },
                            _ => {
                                return Err(
                                    VFFError::InvalidData {
                                        context: "Directory::ls dumping file get".to_owned(),
                                        expected: "Directory::get returns file bytes".to_owned(),
                                        found: "None".to_owned(),
                                    },
                                );
                            },
                        }
                    },
                    None => {
                        let mut line = self.path.clone();
                        line.append("/");
                        let fname = e.nice_full_name();
                        line.append(fname.as_str());
                        line.append(" [");
                        let h = hex_0x04_string(e.size);
                        line.append(h.as_str());
                        line.append("]");
                        if e.deleted {
                            line.append(" [DELETED]");
                        }
                        proof {
                            assert(line@ =~= spec_list_line(d.path, e@));
                        }
                        let ghost lines_before = lines@;
                        lines.push(line);
                        proof {
                            match spec_walk_entries(
                                v,
                                d,
                                se,
                                i + 1,
                                true,
                                dv,
                                show_deleted,
                                fuel as nat,
                            ) {
                                Ok(rr) => {
                                    assert(views_of_lines(lines@) =~= views_of_lines(lines_before)
                                        + seq![spec_list_line(d.path, e@)]);
                                    assert((views_of_lines(lines_before) + seq![
                                        spec_list_line(d.path, e@),
                                    ]) + rr.0 =~= views_of_lines(lines_before) + (seq![
                                        spec_list_line(d.path, e@),
                                    ] + rr.0));
                                },
                                Err(_) => {},
                            }
                        }
                    },
                }
            }
            i = i + 1;
        }
        if !got {
            let ghost lines_before = lines@;
            lines.push(self.path.clone());
            proof {
                assert(views_of_lines(lines@) =~= views_of_lines(lines_before) + seq![d.path]);
                assert(views_of_lines(lines_before) + (seq![d.path]
                    + Seq::<Seq<char>>::empty()) =~= views_of_lines(lines_before) + seq![d.path]);
            }
        }
        proof {
            match spec_walk_entries(v, d, se, i as int, got, dv, show_deleted, fuel as nat) {
                Ok(rr) => {
                    assert(views_of_lines(lines@) + Seq::<Seq<char>>::empty() =~= views_of_lines(
                        lines@,
                    ));
                    assert(views_of_actions(acts@) + Seq::<ActV>::empty() =~= views_of_actions(
                        acts@,
                    ));
                },
                Err(_) => {},
            }
        }
        Ok((lines, acts))
    }

    /// The flat listing of this directory's whole tree: one line per file,
    /// and a bare path line for each directory that contributes nothing
    /// else.
    pub fn ls(&self, vff: &VFF, include_deleted: bool) -> (r: Result<Vec<String>, VFFError>)
        ensures
            ({
                let w = spec_walk_dir(vff@, self@, None, include_deleted, WALK_FUEL as nat);
                match r {
                    Ok(lines) => w matches Ok(rr) && rr.0 == views_of_lines(lines@),
                    Err(e) => w == Err::<(Seq<Seq<char>>, Seq<ActV>), ErrV>(e@),
                }
            }),
    {
        match self.do_operation_recursive(vff, None, include_deleted, WALK_FUEL) {
            Ok((lines, _acts)) => Ok(lines),
            Err(e) => Err(e),
        }
    }

    /// The extraction plan for this directory's whole tree under a
    /// destination root: the root's creation, then the traversal's
    /// directory creations and file writes in order.
    pub fn dump(&self, vff: &VFF, dump_location: String, include_deleted: bool) -> (r: Result<
        Vec<DumpAction>,
        VFFError,
    >)
        ensures
            ({
                let w = spec_walk_dir(
                    vff@,
                    self@,
                    Some(dump_location@),
                    include_deleted,
                    WALK_FUEL as nat,
                );
                match r {
                    Ok(acts) => w matches Ok(rr) && views_of_actions(acts@) == seq![
                        ActV::CreateDir(dump_location@),
                    ] + rr.1,
                    Err(e) => w == Err::<(Seq<Seq<char>>, Seq<ActV>), ErrV>(e@),
                }
            }),
    {
        let mut acts: Vec<DumpAction> = Vec::new();
        acts.push(DumpAction::CreateDir(dump_location.clone()));
        let ghost acts0 = acts@;
        match self.do_operation_recursive(vff, Some(dump_location), include_deleted, WALK_FUEL) {
            Ok((_lines, mut wa)) => {
                let ghost wav = wa@;
                acts.append(&mut wa);
                proof {
                    assert(views_of_actions(acts@) =~= views_of_actions(acts0) + views_of_actions(
                        wav,
                    ));
                    assert(views_of_actions(acts0) =~= seq![
                        ActV::CreateDir(dump_location@),
                    ]);
                }
                Ok(acts)
            },
            Err(e) => Err(e),
        }
    }
}

/// A directory whose remaining entries are all `.` or `..` links, walked
/// with nothing yet taken as its own content, contributes exactly its own
/// bare path and no actions.
pub proof fn lemma_dot_only_entries_list_path(
    v: VffV,
    d: DirV,
    entries: Seq<EntryV>,
    i: int,
    dest: Option<Seq<char>>,
    sd: bool,
    fuel: nat,
)
    requires
        0 <= i <= entries.len(),
        forall|j: int| i <= j < entries.len() ==> #[trigger] spec_is_dot_dir(entries[j]),
    ensures
        spec_walk_entries(v, d, entries, i, false, dest, sd, fuel) == Ok::<
            (Seq<Seq<char>>, Seq<ActV>),
            ErrV,
        >((seq![d.path], Seq::<ActV>::empty())),
    decreases entries.len() - i,
{
    if i < entries.len() {
        assert(spec_is_dot_dir(entries[i]));
        lemma_dot_only_entries_list_path(v, d, entries, i + 1, dest, sd, fuel);
    }
}

/// A directory holding only `.` and `..` entries appears in a walk as a
/// single bare-path line, not as zero lines.
pub proof fn lemma_empty_directory_lists_path(
    v: VffV,
    d: DirV,
    dest: Option<Seq<char>>,
    sd: bool,
    fuel: nat,
)
    requires
        forall|j: int|
            0 <= j < spec_dir_entries(d.data, sd).len() ==> #[trigger] spec_is_dot_dir(
                spec_dir_entries(d.data, sd)[j],
            ),
    ensures
        spec_walk_dir(v, d, dest, sd, fuel) == Ok::<(Seq<Seq<char>>, Seq<ActV>), ErrV>(
            (seq![d.path], Seq::<ActV>::empty()),
        ),
{
    lemma_dot_only_entries_list_path(v, d, spec_dir_entries(d.data, sd), 0, dest, sd, fuel);
}

} // verus!
