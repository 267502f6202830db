//! Paths below the input and output roots, and the walk over a tree of
//! source files. Paths are texts whose components are parted by `/`. The
//! walk decides what is listed and read next; listing and reading are done
//! by the caller.

use crate::error::{EmptyResult, ErrorKind, SiteError};
use crate::text::{chars_of, find_last, last_index_of, lemma_last_index_of};
use vstd::prelude::*;

verus! {

/// The root of the written files.
pub const OUTPUT: &'static str = "output/";

/// The root of the source files.
pub const INPUT: &'static str = "input/";

/// The path starts at the root of the file system.
pub open spec fn is_absolute(path: Seq<char>) -> bool {
    path.len() > 0 && path[0] == '/'
}

/// `relative` below `base`: the two joined, with one `/` between them where
/// `base` does not end in one already.
pub open spec fn joined(base: Seq<char>, relative: Seq<char>) -> Seq<char> {
    if base.len() == 0 || base.last() == '/' {
        base + relative
    } else {
        base + seq!['/'] + relative
    }
}

/// The message of the error for a path that is absolute where a relative
/// one is asked for.
pub open spec fn not_relative(path: Seq<char>) -> Seq<char> {
    "Input path: "@ + path + " was not relative"@
}

/// The path of `relative_path` below `base_path`. An absolute path is
/// rejected with `IOError`.
pub fn create_path(base_path: &str, relative_path: &str) -> (r: Result<String, SiteError>)
    ensures
        match r {
            Ok(path) => !is_absolute(relative_path@) && path@ == joined(
                base_path@,
                relative_path@,
            ),
            Err(e) => is_absolute(relative_path@) && e.kind == ErrorKind::IOError && e.msg@
                == not_relative(relative_path@),
        },
{
    if relative_path.unicode_len() > 0 && relative_path.get_char(0) == '/' {
        let mut msg = String::from_str("Input path: ");
        msg.append(relative_path);
        msg.append(" was not relative");
        return Err(SiteError::new(ErrorKind::IOError, msg));
    }
    let base_len = base_path.unicode_len();
    let mut path = String::from_str(base_path);
    if base_len > 0 && base_path.get_char(base_len - 1) != '/' {
        proof {
            reveal_strlit("/");
        }
        path.append("/");
        assert(path@ =~= base_path@ + seq!['/']);
    }
    path.append(relative_path);
    Ok(path)
}

/// The path of a source file or directory, below the input root.
pub fn input_path(relative_path: &str) -> (r: Result<String, SiteError>)
    ensures
        match r {
            Ok(path) => !is_absolute(relative_path@) && path@ == joined(INPUT@, relative_path@),
            Err(e) => is_absolute(relative_path@) && e.kind == ErrorKind::IOError && e.msg@
                == not_relative(relative_path@),
        },
{
    create_path(INPUT, relative_path)
}

/// The path of a written file or directory, below the output root.
pub fn output_path(relative_path: &str) -> (r: Result<String, SiteError>)
    ensures
        match r {
            Ok(path) => !is_absolute(relative_path@) && path@ == joined(OUTPUT@, relative_path@),
            Err(e) => is_absolute(relative_path@) && e.kind == ErrorKind::IOError && e.msg@
                == not_relative(relative_path@),
        },
{
    create_path(OUTPUT, relative_path)
}

/// Whether an output directory can be used: what stands at its path, if
/// anything, must be a directory. Otherwise the error is an `IOError`.
pub fn check_output_dir(path: &str, exists: bool, is_dir: bool) -> (r: EmptyResult)
    ensures
        r is Err <==> exists && !is_dir,
        r matches Err(e) ==> e.kind == ErrorKind::IOError && e.msg@
            == "Initializaing directory: "@ + path@ + " is not a dir"@,
{
    if exists && !is_dir {
        let mut msg = String::from_str("Initializaing directory: ");
        msg.append(path);
        msg.append(" is not a dir");
        Err(SiteError::new(ErrorKind::IOError, msg))
    } else {
        Ok(())
    }
}

/// The last component of a path: what stands behind its last `/`.
pub open spec fn file_name(path: Seq<char>) -> Seq<char> {
    path.subrange(last_index_of(path, '/') + 1, path.len() as int)
}

/// A file name without its extension: what stands before its last `.`. A
/// name without a `.`, or with its only `.` in front, is its own stem.
pub open spec fn stem(name: Seq<char>) -> Seq<char> {
    if last_index_of(name, '.') <= 0 {
        name
    } else {
        name.subrange(0, last_index_of(name, '.'))
    }
}

/// The logical name of the file at `path`: the stem of its file name. A
/// path that ends in `/`, `.` or `..` names no file.
pub open spec fn logical_name(path: Seq<char>) -> Option<Seq<char>> {
    let name = file_name(path);
    if name.len() == 0 || name == seq!['.'] || name == seq!['.', '.'] {
        None
    } else {
        Some(stem(name))
    }
}

/// The logical name of the file at `path`, if it has one.
pub fn file_stem(path: &str) -> (r: Option<String>)
    ensures
        match r {
            Some(name) => logical_name(path@) == Some(name@),
            None => logical_name(path@) is None,
        },
{
    let chars = chars_of(path);
    assert(chars@.take(chars.len() as int) =~= chars@);
    proof {
        lemma_last_index_of(path@, '/');
    }
    let start: usize = match find_last(&chars, chars.len(), '/') {
        Some(i) => i + 1,
        None => 0,
    };
    let name = path.substring_char(start, chars.len());
    let name_chars = chars_of(name);
    assert(name_chars@.take(name_chars.len() as int) =~= name_chars@);
    let n = name_chars.len();
    if n == 0 {
        return None;
    }
    if n == 1 && name_chars[0] == '.' {
        assert(name@ =~= seq!['.']);
        return None;
    }
    if n == 2 && name_chars[0] == '.' && name_chars[1] == '.' {
        assert(name@ =~= seq!['.', '.']);
        return None;
    }
    assert(name@ != seq!['.']) by {
        if name@ == seq!['.'] {
            assert(seq!['.'].len() == 1);
            assert(seq!['.'][0] == '.');
        }
    }
    assert(name@ != seq!['.', '.']) by {
        if name@ == seq!['.', '.'] {
            assert(seq!['.', '.'].len() == 2);
            assert(seq!['.', '.'][0] == '.');
            assert(seq!['.', '.'][1] == '.');
        }
    }
    proof {
        lemma_last_index_of(name@, '.');
    }
    let stem_len: usize = match find_last(&name_chars, n, '.') {
        Some(dot) => if dot > 0 { dot } else { n },
        None => n,
    };
    let found = name.substring_char(0, stem_len).to_owned();
    assert(name@.subrange(0, n as int) =~= name@);
    Some(found)
}

/// An entry of a directory: its path, and whether it is a directory
/// itself.
#[derive(Debug)]
pub struct DirEntry {
    pub path: String,
    pub is_dir: bool,
}

/// A `DirEntry` with its path as a sequence of characters.
pub struct DirEntryView {
    pub path: Seq<char>,
    pub is_dir: bool,
}

impl View for DirEntry {
    type V = DirEntryView;

    open spec fn view(&self) -> DirEntryView {
        DirEntryView { path: self.path@, is_dir: self.is_dir }
    }
}

/// The views of a sequence of entries, in the same order.
pub open spec fn entry_views(entries: Seq<DirEntry>) -> Seq<DirEntryView> {
    Seq::new(entries.len(), |i: int| entries[i]@)
}

/// What the caller of a walk does next.
#[derive(Debug)]
pub enum WalkStep {
    /// List the directory at this path, and hand its entries to `entered`.
    List(String),
    /// Read the file at `path`, and handle its content under `name`.
    Read { name: String, path: String },
    /// Nothing is left to visit.
    Done,
}

/// A `WalkStep` with its texts as sequences of characters.
pub enum WalkStepView {
    List(Seq<char>),
    Read { name: Seq<char>, path: Seq<char> },
    Done,
}

impl View for WalkStep {
    type V = WalkStepView;

    open spec fn view(&self) -> WalkStepView {
        match self {
            WalkStep::List(path) => WalkStepView::List(path@),
            WalkStep::Read { name, path } => WalkStepView::Read { name: name@, path: path@ },
            WalkStep::Done => WalkStepView::Done,
        }
    }
}

/// The entry is visited: it is a directory, or a file with a logical name.
/// A file without one is passed over.
pub open spec fn is_visited(entry: DirEntryView) -> bool {
    entry.is_dir || logical_name(entry.path) is Some
}

/// The position, at `from` or behind it, of the first entry that is
/// visited; the length of `entries` where none is.
pub open spec fn next_visited(entries: Seq<DirEntryView>, from: int) -> int
    decreases entries.len() - from,
{
    if from < 0 || from >= entries.len() {
        entries.len() as int
    } else if is_visited(entries[from]) {
        from
    } else {
        next_visited(entries, from + 1)
    }
}

/// The step that visits an entry.
pub open spec fn visit(entry: DirEntryView) -> WalkStepView {
    if entry.is_dir {
        WalkStepView::List(entry.path)
    } else {
        WalkStepView::Read { name: logical_name(entry.path)->0, path: entry.path }
    }
}

/// The entries that wait behind the next step.
pub open spec fn rest_after_step(pending: Seq<DirEntryView>) -> Seq<DirEntryView> {
    if next_visited(pending, 0) < pending.len() {
        pending.skip(next_visited(pending, 0) + 1)
    } else {
        Seq::empty()
    }
}

/// The next step of a walk with these entries waiting.
pub open spec fn step_of(pending: Seq<DirEntryView>) -> WalkStepView {
    if next_visited(pending, 0) < pending.len() {
        visit(pending[next_visited(pending, 0)])
    } else {
        WalkStepView::Done
    }
}

/// The position that `next_visited` gives lies within the sequence, and
/// no entry from `from` up to it is visited.
pub proof fn lemma_next_visited(entries: Seq<DirEntryView>, from: int)
    requires
        0 <= from <= entries.len(),
    ensures
        from <= next_visited(entries, from) <= entries.len(),
        next_visited(entries, from) < entries.len() ==> is_visited(
            entries[next_visited(entries, from)],
        ),
        forall|i: int| from <= i < next_visited(entries, from) ==> !is_visited(entries[i]),
    decreases entries.len() - from,
{
    if from < entries.len() && !is_visited(entries[from]) {
        lemma_next_visited(entries, from + 1);
    }
}

/// A walk over a tree of files, depth first: the entries that wait to be
/// visited, in the order of their visit.
#[derive(Debug)]
pub struct Walk {
    pending: Vec<DirEntry>,
}

impl View for Walk {
    type V = Seq<DirEntryView>;

    closed spec fn view(&self) -> Seq<DirEntryView> {
        entry_views(self.pending@)
    }
}

impl Walk {
    /// A walk that starts at the directory `root`.
    pub fn new(root: String) -> (walk: Walk)
        ensures
            walk@ == seq![DirEntryView { path: root@, is_dir: true }],
    {
        let mut pending: Vec<DirEntry> = Vec::new();
        pending.push(DirEntry { path: root, is_dir: true });
        let walk = Walk { pending };
        assert(walk@ =~= seq![DirEntryView { path: root@, is_dir: true }]);
        walk
    }

    /// The next step. Files without a logical name are passed over; the
    /// first entry that is visited leaves the walk and decides the step.
    pub fn next(&mut self) -> (step: WalkStep)
        ensures
            step@ == step_of(old(self)@),
            final(self)@ == rest_after_step(old(self)@),
    {
        let ghost before = self@;
        assert(before.len() == self.pending.len());
        let mut passed: usize = 0;
        while self.pending.len() > 0
            invariant
                before == old(self)@,
                before.len() <= usize::MAX,
                self@ == before.skip(passed as int),
                passed <= before.len(),
                next_visited(before, 0) == next_visited(before, passed as int),
            decreases self.pending.len(),
        {
            let ghost waiting = self.pending@;
            let entry = self.pending.remove(0);
            proof {
                assert(entry_views(waiting) == before.skip(passed as int));
                assert(entry_views(waiting)[0] == waiting[0]@);
                assert(before.skip(passed as int)[0] == before[passed as int]);
                assert(entry@ == before[passed as int]);
                assert forall|i: int| 0 <= i < self@.len() implies self@[i] == before.skip(
                    passed + 1,
                )[i] by {
                    assert(self.pending@[i] == waiting[i + 1]);
                    assert(entry_views(waiting)[i + 1] == waiting[i + 1]@);
                    assert(before.skip(passed as int)[i + 1] == before[passed + 1 + i]);
                }
                assert(self@ =~= before.skip(passed + 1));
            }
            if entry.is_dir {
                return WalkStep::List(entry.path);
            }
            match file_stem(entry.path.as_str()) {
                Some(name) => {
                    return WalkStep::Read { name, path: entry.path };
                },
                None => {},
            }
            passed = passed + 1;
        }
        assert(self@ =~= Seq::<DirEntryView>::empty());
        WalkStep::Done
    }

    /// Takes in the entries of the directory that the last step asked to
    /// list. They are visited before the entries that waited already.
    pub fn entered(&mut self, listing: Vec<DirEntry>)
        ensures
            final(self)@ == entry_views(listing@) + old(self)@,
    {
        let mut pending = listing;
        pending.append(&mut self.pending);
        self.pending = pending;
        assert(self@ =~= entry_views(listing@) + old(self)@);
    }
}

/// Starts the walk over the source files below `relative_dir`, a directory
/// below the input root. An absolute path is rejected with `IOError`.
pub fn read_dir(relative_dir: &str) -> (r: Result<Walk, SiteError>)
    ensures
        match r {
            Ok(walk) => !is_absolute(relative_dir@) && walk@ == seq![
                DirEntryView { path: joined(INPUT@, relative_dir@), is_dir: true },
            ],
            Err(e) => is_absolute(relative_dir@) && e.kind == ErrorKind::IOError && e.msg@
                == not_relative(relative_dir@),
        },
{
    match create_path(INPUT, relative_dir) {
        Ok(root) => Ok(Walk::new(root)),
        Err(e) => Err(e),
    }
}

} // verus!
