//! Safe planning of an archive extraction: which entries of a release
//! archive are written, where, and which are skipped because their path
//! would resolve outside the extraction root.
//!
//! Entry names are the raw bytes stored in the archive, with `/` as the
//! separator. A name is safe when it is relative, holds no NUL byte, and
//! resolving its components (`..` steps up, `.` and empty components are
//! ignored) never leaves the extraction root. `foo/../bar` stays inside;
//! `../bar` and `foo/../../bar` do not.

use vstd::prelude::*;

verus! {

/// The byte `/`, the path separator inside archives.
pub const SLASH: u8 = 47;

/// The byte `.`.
pub const DOT: u8 = 46;

/// The byte NUL, never valid in a path.
pub const NUL: u8 = 0;

/// The component `..`, which resolves one directory up.
pub open spec fn comp_is_dotdot(comp: Seq<u8>) -> bool {
    comp.len() == 2 && comp[0] == DOT && comp[1] == DOT
}

/// A component that resolves to nothing: `.` or the empty component that
/// a doubled or trailing separator leaves behind.
pub open spec fn comp_is_stay(comp: Seq<u8>) -> bool {
    comp.len() == 0 || (comp.len() == 1 && comp[0] == DOT)
}

/// How one resolved path component moves the depth below the extraction
/// root: `..` steps up, `.` and the empty component stay, anything else
/// steps down into a directory.
pub open spec fn comp_delta(comp: Seq<u8>) -> int {
    if comp_is_dotdot(comp) {
        -1
    } else if comp_is_stay(comp) {
        0
    } else {
        1
    }
}

/// Scans `name` from byte `i` with `depth` components already entered and
/// `comp` the bytes of the component read so far: true when no NUL byte
/// occurs and the running depth never drops below the extraction root.
pub open spec fn scan_safe(name: Seq<u8>, i: int, depth: int, comp: Seq<u8>) -> bool
    decreases name.len() - i,
    when 0 <= i <= name.len()
{
    if i == name.len() {
        depth + comp_delta(comp) >= 0
    } else if name[i] == NUL {
        false
    } else if name[i] == SLASH {
        depth + comp_delta(comp) >= 0 && scan_safe(
            name,
            i + 1,
            depth + comp_delta(comp),
            Seq::empty(),
        )
    } else {
        scan_safe(name, i + 1, depth, comp.push(name[i]))
    }
}

/// A safe entry name: non-empty, relative, free of NUL bytes, and its
/// resolved path stays inside the extraction root.
pub open spec fn entry_safe(name: Seq<u8>) -> bool {
    name.len() > 0 && name[0] != SLASH && scan_safe(name, 0, 0, Seq::empty())
}

/// Decides `entry_safe` for a concrete entry name.
pub fn entry_path_is_safe(name: &Vec<u8>) -> (r: bool)
    ensures
        r == entry_safe(name@),
{
    let n = name.len();
    if n == 0 {
        return false;
    }
    if name[0] == SLASH {
        return false;
    }
    let mut i: usize = 0;
    let mut depth: usize = 0;
    let mut comp_start: usize = 0;
    proof {
        assert(name@.subrange(0, 0) =~= Seq::<u8>::empty());
    }
    while i < n
        invariant
            n == name@.len(),
            0 <= comp_start <= i <= n,
            depth <= comp_start,
            scan_safe(name@, 0, 0, Seq::empty()) == scan_safe(
                name@,
                i as int,
                depth as int,
                name@.subrange(comp_start as int, i as int),
            ),
        decreases n - i,
    {
        let ghost comp = name@.subrange(comp_start as int, i as int);
        let b = name[i];
        if b == NUL {
            return false;
        } else if b == SLASH {
            let len = i - comp_start;
            let is_dotdot = len == 2 && name[comp_start] == DOT && name[comp_start + 1] == DOT;
            let is_stay = len == 0 || (len == 1 && name[comp_start] == DOT);
            proof {
                let gi = i as int;
                assert(comp.len() == len);
                assert(is_dotdot == comp_is_dotdot(comp));
                assert(is_stay == comp_is_stay(comp));
                assert(name@.subrange(gi + 1, gi + 1) =~= Seq::<u8>::empty());
            }
            if is_dotdot {
                if depth == 0 {
                    return false;
                }
                depth = depth - 1;
            } else if !is_stay {
                depth = depth + 1;
            }
            comp_start = i + 1;
        } else {
            proof {
                let gi = i as int;
                assert(name@.subrange(comp_start as int, gi + 1) =~= comp.push(name@[gi]));
            }
        }
        i = i + 1;
    }
    let ghost comp = name@.subrange(comp_start as int, i as int);
    let len = i - comp_start;
    let is_dotdot = len == 2 && name[comp_start] == DOT && name[comp_start + 1] == DOT;
    proof {
        assert(comp.len() == len);
        assert(is_dotdot == comp_is_dotdot(comp));
    }
    if is_dotdot && depth == 0 {
        return false;
    }
    true
}

/// One entry as it sits in the archive: its raw name and its
/// uncompressed contents (empty for a directory entry).
#[derive(Debug, Clone, PartialEq, Eq)]
pub struct ArchiveEntry {
    pub name: Vec<u8>,
    pub data: Vec<u8>,
}

impl View for ArchiveEntry {
    type V = (Seq<u8>, Seq<u8>);

    open spec fn view(&self) -> (Seq<u8>, Seq<u8>) {
        (self.name@, self.data@)
    }
}

/// A directory entry: one whose name ends with the separator.
pub open spec fn is_dir_name(name: Seq<u8>) -> bool {
    name.len() > 0 && name[name.len() - 1] == SLASH
}

/// What extracting one entry writes under the extraction root: a
/// directory to create, or a file to write verbatim.
pub enum WriteModel {
    Dir { path: Seq<u8> },
    File { path: Seq<u8>, data: Seq<u8> },
}

/// The path a planned write goes to.
pub open spec fn write_path(w: WriteModel) -> Seq<u8> {
    match w {
        WriteModel::Dir { path } => path,
        WriteModel::File { path, .. } => path,
    }
}

/// The write an archive entry stands for, disregarding safety.
pub open spec fn write_of(e: (Seq<u8>, Seq<u8>)) -> WriteModel {
    if is_dir_name(e.0) {
        WriteModel::Dir { path: e.0 }
    } else {
        WriteModel::File { path: e.0, data: e.1 }
    }
}

/// The writes that extracting a sequence of entries performs, in archive
/// order: every safe entry becomes its write, every unsafe entry is
/// skipped.
pub open spec fn extraction_writes(es: Seq<(Seq<u8>, Seq<u8>)>) -> Seq<WriteModel>
    decreases es.len(),
{
    if es.len() == 0 {
        Seq::empty()
    } else {
        extraction_writes(es.drop_last()) + (if entry_safe(es.last().0) {
            seq![write_of(es.last())]
        } else {
            Seq::<WriteModel>::empty()
        })
    }
}

/// One planned write, executable form.
#[derive(Debug, Clone, PartialEq, Eq)]
pub enum ExtractWrite {
    Dir { path: Vec<u8> },
    File { path: Vec<u8>, data: Vec<u8> },
}

impl View for ExtractWrite {
    type V = WriteModel;

    open spec fn view(&self) -> WriteModel {
        match self {
            ExtractWrite::Dir { path } => WriteModel::Dir { path: path@ },
            ExtractWrite::File { path, data } => WriteModel::File { path: path@, data: data@ },
        }
    }
}

/// The entries of an archive as a sequence of (name, contents) pairs.
pub open spec fn entries_view(es: Seq<ArchiveEntry>) -> Seq<(Seq<u8>, Seq<u8>)> {
    es.map_values(|e: ArchiveEntry| e@)
}

/// The planned writes as a sequence of write models.
pub open spec fn writes_view(ws: Seq<ExtractWrite>) -> Seq<WriteModel> {
    ws.map_values(|w: ExtractWrite| w@)
}

/// Plans the extraction of the given entries: keeps every entry whose
/// path is safe, in order, as the write it stands for, and skips every
/// entry whose path would resolve outside the extraction root.
pub fn plan_extraction(entries: &Vec<ArchiveEntry>) -> (r: Vec<ExtractWrite>)
    ensures
        writes_view(r@) == extraction_writes(entries_view(entries@)),
{
    let ghost all = entries_view(entries@);
    let mut out: Vec<ExtractWrite> = Vec::new();
    let mut i: usize = 0;
    proof {
        assert(all.subrange(0, 0) =~= Seq::<(Seq<u8>, Seq<u8>)>::empty());
        assert(writes_view(out@) =~= extraction_writes(all.subrange(0, 0)));
    }
    while i < entries.len()
        invariant
            i <= entries.len(),
            all == entries_view(entries@),
            all.len() == entries@.len(),
            writes_view(out@) == extraction_writes(all.subrange(0, i as int)),
        decreases entries.len() - i,
    {
        let ghost gi = i as int;
        let entry = &entries[i];
        if entry_path_is_safe(&entry.name) {
            let name_len = entry.name.len();
            let is_dir = name_len > 0 && entry.name[name_len - 1] == SLASH;
            let w = if is_dir {
                ExtractWrite::Dir { path: entry.name.clone() }
            } else {
                ExtractWrite::File { path: entry.name.clone(), data: entry.data.clone() }
            };
            proof {
                assert(w@ == write_of(all[gi]));
            }
            out.push(w);
        }
        proof {
            let pre = all.subrange(0, gi);
            let post = all.subrange(0, gi + 1);
            assert(post.drop_last() =~= pre);
            assert(post.last() == all[gi]);
            assert(writes_view(out@) =~= extraction_writes(post));
        }
        i = i + 1;
    }
    proof {
        assert(all.subrange(0, entries@.len() as int) =~= all);
    }
    out
}

/// An entry whose path would resolve outside the extraction root is
/// skipped and nothing else: planning the extraction with the unsafe
/// entry and without it yields the very same writes, so the unsafe entry
/// is not written and does not abort the extraction of the remaining
/// entries.
pub proof fn lemma_unsafe_entry_skipped(es: Seq<(Seq<u8>, Seq<u8>)>, i: int)
    requires
        0 <= i < es.len(),
        !entry_safe(es[i].0),
    ensures
        extraction_writes(es) == extraction_writes(es.remove(i)),
    decreases es.len(),
{
    if i == es.len() - 1 {
        assert(es.remove(i) =~= es.drop_last());
        assert(extraction_writes(es) =~= extraction_writes(es.drop_last()));
    } else {
        lemma_unsafe_entry_skipped(es.drop_last(), i);
        assert(es.remove(i).drop_last() =~= es.drop_last().remove(i));
        assert(es.remove(i).last() == es.last());
        assert(extraction_writes(es.remove(i)) =~= extraction_writes(es));
    }
}

/// No planned write ever goes to an unsafe path: every write the
/// extraction performs stays inside the extraction root.
pub proof fn lemma_all_writes_safe(es: Seq<(Seq<u8>, Seq<u8>)>)
    ensures
        forall|j: int|
            0 <= j < extraction_writes(es).len() ==> entry_safe(
                write_path(#[trigger] extraction_writes(es)[j]),
            ),
    decreases es.len(),
{
    if es.len() > 0 {
        lemma_all_writes_safe(es.drop_last());
        let pre = extraction_writes(es.drop_last());
        let whole = extraction_writes(es);
        assert forall|j: int| 0 <= j < whole.len() implies entry_safe(
            write_path(whole[j]),
        ) by {
            if j < pre.len() {
                assert(whole[j] == pre[j]);
                assert(entry_safe(write_path(pre[j])));
            } else {
                assert(entry_safe(es.last().0));
                assert(whole[j] == write_of(es.last()));
            }
        }
    }
}

} // verus!

