use vstd::prelude::*;

use nix::sys::inotify::WatchDescriptor;

verus! {

/// An inotify watch handle, as issued by `Inotify::add_watch`.
#[verifier::external_type_specification]
#[verifier::external_body]
pub struct ExWatchDescriptor(WatchDescriptor);

/// Relies on the `PartialEq` that nix derives for `WatchDescriptor`: it
/// compares the one field, the kernel's watch number, so two handles are
/// equal exactly when they are the same value.
pub assume_specification[ <WatchDescriptor as PartialEq>::eq ](
    a: &WatchDescriptor,
    b: &WatchDescriptor,
) -> (r: bool)
    ensures
        r == (*a == *b),
;

/// Kernel bit of an inotify event: a file opened for writing was closed.
pub const IN_CLOSE_WRITE: u32 = 0x0000_0008;

/// Kernel bit of an inotify event: an entry was deleted from the directory.
pub const IN_DELETE: u32 = 0x0000_0200;

/// Kernel bit of an inotify event: the subject of the event is a directory.
pub const IN_ISDIR: u32 = 0x4000_0000;

/// The watched subdirectories of a configuration tree.
#[derive(Clone, Copy, Debug, PartialEq, Eq, Structural)]
pub enum Subdir {
    Instances,
    Servers,
}

/// The directory name of a watched subdirectory.
pub open spec fn subdir_text(s: Subdir) -> Seq<char> {
    match s {
        Subdir::Instances => "instances"@,
        Subdir::Servers => "servers"@,
    }
}

impl Subdir {
    /// The directory name of this subdirectory.
    pub fn name(&self) -> (r: &'static str)
        ensures
            r@ == subdir_text(*self),
    {
        match self {
            Subdir::Instances => "instances",
            Subdir::Servers => "servers",
        }
    }
}

/// A file inside one of the watched subdirectories, relative to the root of
/// a configuration tree.
#[derive(Debug)]
pub struct RelPath {
    pub subdir: Subdir,
    pub name: String,
}

/// The text of a relative path: `<subdir>/<name>`.
pub open spec fn rel_text(subdir: Subdir, name: Seq<char>) -> Seq<char> {
    subdir_text(subdir) + seq!['/'] + name
}

/// `base`, a separator and `tail`.
pub open spec fn joined(base: Seq<char>, tail: Seq<char>) -> Seq<char> {
    base + seq!['/'] + tail
}

/// Joins two path fragments with one separator.
pub fn join(base: &str, tail: &str) -> (r: String)
    ensures
        r@ == joined(base@, tail@),
{
    let mut s = String::from_str(base);
    s.append("/");
    s.append(tail);
    proof {
        reveal_strlit("/");
    }
    s
}

impl RelPath {
    /// The path as text, `<subdir>/<name>`.
    pub fn to_text(&self) -> (r: String)
        ensures
            r@ == rel_text(self.subdir, self.name@),
    {
        join(self.subdir.name(), self.name.as_str())
    }
}

/// What a watch event asks of the mirror.
#[derive(Debug)]
pub enum Event {
    /// The file was written (closed after a write) into the shared tree.
    MovedTo(RelPath),
    /// The file was deleted from the shared tree.
    Delete(RelPath),
}

impl Event {
    /// The file the event is about.
    pub fn path(&self) -> (r: &RelPath)
        ensures
            r == match self {
                Event::MovedTo(p) => p,
                Event::Delete(p) => p,
            },
    {
        match self {
            Event::MovedTo(p) => p,
            Event::Delete(p) => p,
        }
    }
}

/// The outcome of translating one raw watch event.
#[derive(Debug)]
pub enum Translation {
    /// A file-level change to mirror.
    Mirror(Event),
    /// A directory-level event: nothing is mirrored and nothing reloads.
    Ignore,
    /// The event breaks what the watch layer guarantees (unknown handle,
    /// no file name, or a mask other than close-after-write or delete).
    Violation,
}

/// Whether `bit` is set in `mask`.
pub open spec fn has_bit(mask: u32, bit: u32) -> bool {
    mask & bit != 0
}

/// What a raw event with the given resolved subdirectory, mask and name
/// means: close-after-write wins over delete, directory events are ignored,
/// and everything else violates the watch layer's guarantees.
pub open spec fn classification(subdir: Option<Subdir>, mask: u32, name: Option<Seq<char>>) -> Option<Option<(bool, Subdir, Seq<char>)>> {
    match (subdir, name) {
        (Some(s), Some(n)) => if has_bit(mask, IN_CLOSE_WRITE) {
            if has_bit(mask, IN_ISDIR) { Some(None) } else { Some(Some((true, s, n))) }
        } else if has_bit(mask, IN_DELETE) {
            if has_bit(mask, IN_ISDIR) { Some(None) } else { Some(Some((false, s, n))) }
        } else {
            None
        },
        _ => None,
    }
}

/// Whether translation `t` is what `classification` gives.
pub open spec fn translation_matches(t: Translation, c: Option<Option<(bool, Subdir, Seq<char>)>>) -> bool {
    match c {
        None => t is Violation,
        Some(None) => t is Ignore,
        Some(Some((created, s, n))) => match t {
            Translation::Mirror(Event::MovedTo(p)) => created && p.subdir == s && p.name@ == n,
            Translation::Mirror(Event::Delete(p)) => !created && p.subdir == s && p.name@ == n,
            _ => false,
        },
    }
}

/// The view of an optional file name.
pub open spec fn name_view(name: Option<String>) -> Option<Seq<char>> {
    match name {
        Some(n) => Some(n@),
        None => None,
    }
}

/// Translates a raw event whose watch handle resolved to `subdir` (or to no
/// watched subdirectory) into what the mirror must do.
pub fn classify(subdir: Option<Subdir>, mask: u32, name: Option<String>) -> (r: Translation)
    ensures
        translation_matches(r, classification(subdir, mask, name_view(name))),
{
    match (subdir, name) {
        (Some(s), Some(n)) => {
            let p = RelPath { subdir: s, name: n };
            if mask & IN_CLOSE_WRITE != 0 {
                if mask & IN_ISDIR != 0 {
                    Translation::Ignore
                } else {
                    Translation::Mirror(Event::MovedTo(p))
                }
            } else if mask & IN_DELETE != 0 {
                if mask & IN_ISDIR != 0 {
                    Translation::Ignore
                } else {
                    Translation::Mirror(Event::Delete(p))
                }
            } else {
                Translation::Violation
            }
        },
        _ => Translation::Violation,
    }
}


/// The map from entries (handle, subdirectory) to handle to subdirectory: a
/// later entry for the same handle replaces an earlier one.
pub open spec fn entries_map(s: Seq<(WatchDescriptor, Subdir)>) -> Map<WatchDescriptor, Subdir>
    decreases s.len(),
{
    if s.len() == 0 {
        Map::empty()
    } else {
        entries_map(s.drop_last()).insert(s.last().0, s.last().1)
    }
}

proof fn lemma_entries_map_last(s: Seq<(WatchDescriptor, Subdir)>, i: int, k: WatchDescriptor)
    requires
        0 <= i < s.len(),
        s[i].0 == k,
        forall|j: int| i < j < s.len() ==> s[j].0 != k,
    ensures
        entries_map(s).contains_key(k),
        entries_map(s)[k] == s[i].1,
    decreases s.len(),
{
    if i < s.len() - 1 {
        lemma_entries_map_last(s.drop_last(), i, k);
    }
}

proof fn lemma_entries_map_absent(s: Seq<(WatchDescriptor, Subdir)>, k: WatchDescriptor)
    requires
        forall|j: int| 0 <= j < s.len() ==> s[j].0 != k,
    ensures
        !entries_map(s).contains_key(k),
    decreases s.len(),
{
    if s.len() > 0 {
        lemma_entries_map_absent(s.drop_last(), k);
    }
}

/// The table from watch handles to the watched subdirectory each one
/// observes. It is filled once, when the watches are set up.
pub struct WatchTable {
    entries: Vec<(WatchDescriptor, Subdir)>,
}

impl View for WatchTable {
    type V = Map<WatchDescriptor, Subdir>;

    closed spec fn view(&self) -> Map<WatchDescriptor, Subdir> {
        entries_map(self.entries@)
    }
}

impl WatchTable {
    /// An empty table.
    pub fn new() -> (r: WatchTable)
        ensures
            r@ == Map::<WatchDescriptor, Subdir>::empty(),
    {
        WatchTable { entries: Vec::new() }
    }

    /// Records that `wd` observes `subdir`, replacing what `wd` observed
    /// before.
    pub fn insert(&mut self, wd: WatchDescriptor, subdir: Subdir)
        ensures
            final(self)@ == old(self)@.insert(wd, subdir),
    {
        self.entries.push((wd, subdir));
        proof {
            assert(self.entries@.drop_last() == old(self).entries@);
        }
    }

    /// The subdirectory that `wd` observes, if it is in the table.
    pub fn get(&self, wd: &WatchDescriptor) -> (r: Option<Subdir>)
        ensures
            r == (if self@.contains_key(*wd) { Some(self@[*wd]) } else { None::<Subdir> }),
    {
        let mut i: usize = self.entries.len();
        while i > 0
            invariant
                i <= self.entries@.len(),
                forall|j: int| i <= j < self.entries@.len() ==> self.entries@[j].0 != *wd,
            decreases i,
        {
            i = i - 1;
            let e = &self.entries[i];
            if e.0 == *wd {
                proof {
                    lemma_entries_map_last(self.entries@, i as int, *wd);
                }
                return Some(e.1);
            }
        }
        proof {
            lemma_entries_map_absent(self.entries@, *wd);
        }
        None
    }

    /// Translates a raw watch event into what the mirror must do: the handle
    /// is resolved through the table, then the event is classified.
    pub fn translate(&self, wd: &WatchDescriptor, mask: u32, name: Option<String>) -> (r: Translation)
        ensures
            translation_matches(
                r,
                classification(
                    if self@.contains_key(*wd) { Some(self@[*wd]) } else { None },
                    mask,
                    name_view(name),
                ),
            ),
    {
        let subdir = self.get(wd);
        classify(subdir, mask, name)
    }
}

} // verus!
