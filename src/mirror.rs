use vstd::prelude::*;

use crate::watch::{join, joined, rel_text, subdir_text, Event, RelPath, Subdir};

verus! {

/// Root of the private configuration tree, which the proxy reads.
pub const PRIVATE_CONF_PATH: &'static str = "/etc/nginx/conf.d/floxy";

/// Root of the shared configuration tree, which others write.
pub const SHARED_CONF_PATH: &'static str = "/tmp/floxy/conf.d";

/// Where the file `rel` lives under the tree rooted at `root`.
pub open spec fn path_under(root: Seq<char>, rel: RelPath) -> Seq<char> {
    joined(root, rel_text(rel.subdir, rel.name@))
}

/// Where the file `rel` lives in the shared tree.
pub open spec fn shared_file(rel: RelPath) -> Seq<char> {
    path_under(SHARED_CONF_PATH@, rel)
}

/// Where the file `rel` lives in the private tree.
pub open spec fn private_file(rel: RelPath) -> Seq<char> {
    path_under(PRIVATE_CONF_PATH@, rel)
}

/// The path of `rel` in the shared tree.
pub fn shared_path(rel: &RelPath) -> (r: String)
    ensures
        r@ == shared_file(*rel),
{
    let t = rel.to_text();
    join(SHARED_CONF_PATH, t.as_str())
}

/// The path of `rel` in the private tree.
pub fn private_path(rel: &RelPath) -> (r: String)
    ensures
        r@ == private_file(*rel),
{
    let t = rel.to_text();
    join(PRIVATE_CONF_PATH, t.as_str())
}

/// A file operation on paths, as a mathematical value.
pub enum FileOp {
    /// Copy the file at the first path over the second path.
    CopyOp(Seq<char>, Seq<char>),
    /// Remove the file at the path.
    RemoveOp(Seq<char>),
}

/// The file operation that mirrors one event into the private tree.
#[derive(Debug)]
pub enum MirrorAction {
    /// Copy `from` over `to`, replacing any file at `to`.
    Copy { from: String, to: String },
    /// Remove the file at `path`.
    Remove { path: String },
}

impl View for MirrorAction {
    type V = FileOp;

    open spec fn view(&self) -> FileOp {
        match self {
            MirrorAction::Copy { from, to } => FileOp::CopyOp(from@, to@),
            MirrorAction::Remove { path } => FileOp::RemoveOp(path@),
        }
    }
}

/// The operation that mirrors `e`: a written file is copied from the shared
/// to the private tree, a deleted one is removed from the private tree.
pub open spec fn mirror_op(e: Event) -> FileOp {
    match e {
        Event::MovedTo(rel) => FileOp::CopyOp(shared_file(rel), private_file(rel)),
        Event::Delete(rel) => FileOp::RemoveOp(private_file(rel)),
    }
}

/// Plans the file operation that mirrors one event.
pub fn plan_mirror(e: &Event) -> (r: MirrorAction)
    ensures
        r@ == mirror_op(*e),
{
    match e {
        Event::MovedTo(rel) => MirrorAction::Copy { from: shared_path(rel), to: private_path(rel) },
        Event::Delete(rel) => MirrorAction::Remove { path: private_path(rel) },
    }
}

/// The files on disk after `op` succeeded on the files `fs` (path to
/// content).
pub open spec fn performed(fs: Map<Seq<char>, Seq<u8>>, op: FileOp) -> Map<Seq<char>, Seq<u8>> {
    match op {
        FileOp::CopyOp(from, to) => fs.insert(to, fs[from]),
        FileOp::RemoveOp(path) => fs.remove(path),
    }
}

/// The watched subdirectories of the tree rooted at `root`.
pub open spec fn subdirs_of(root: Seq<char>) -> Seq<Seq<char>> {
    seq![joined(root, subdir_text(Subdir::Instances)), joined(root, subdir_text(Subdir::Servers))]
}

/// The watched subdirectories of the tree rooted at `root`, in a fixed
/// order.
pub fn conf_subdirs(root: &str) -> (r: Vec<String>)
    ensures
        r@.map_values(|p: String| p@) == subdirs_of(root@),
{
    let mut v: Vec<String> = Vec::new();
    v.push(join(root, Subdir::Instances.name()));
    v.push(join(root, Subdir::Servers.name()));
    assert(v@.map_values(|p: String| p@) =~= subdirs_of(root@));
    v
}

/// The directories that must exist in the shared tree. They are created if
/// absent and never wiped, so shared content survives restarts.
pub fn create_shared_conf_dirs() -> (r: Vec<String>)
    ensures
        r@.map_values(|p: String| p@) == subdirs_of(SHARED_CONF_PATH@),
{
    conf_subdirs(SHARED_CONF_PATH)
}

/// How the private tree is reset at startup: the root is removed with all
/// it holds, then the watched subdirectories are created afresh.
#[derive(Debug)]
pub struct PrivateReset {
    pub remove: String,
    pub create: Vec<String>,
}

/// The reset of the private tree, which always starts clean.
pub fn create_private_conf_dirs() -> (r: PrivateReset)
    ensures
        r.remove@ == PRIVATE_CONF_PATH@,
        r.create@.map_values(|p: String| p@) == subdirs_of(PRIVATE_CONF_PATH@),
{
    PrivateReset { remove: String::from_str(PRIVATE_CONF_PATH), create: conf_subdirs(PRIVATE_CONF_PATH) }
}

/// One step of the recursive copy of a tree: what to do with the entry
/// `name` of the directory `from`, copied into the directory `to`.
#[derive(Debug)]
pub enum CopyStep {
    /// Create the directory `to` and copy the directory `from` into it.
    Descend { from: String, to: String },
    /// Copy the file `from` over `to`.
    CopyFile { from: String, to: String },
}

/// Decides how the entry `name` of `from` is copied into `to`.
pub fn copy_step(from: &str, to: &str, name: &str, is_dir: bool) -> (r: CopyStep)
    ensures
        is_dir ==> (r matches CopyStep::Descend { from: f, to: t } && f@ == joined(from@, name@) && t@ == joined(to@, name@)),
        !is_dir ==> (r matches CopyStep::CopyFile { from: f, to: t } && f@ == joined(from@, name@) && t@ == joined(to@, name@)),
{
    let f = join(from, name);
    let t = join(to, name);
    if is_dir {
        CopyStep::Descend { from: f, to: t }
    } else {
        CopyStep::CopyFile { from: f, to: t }
    }
}


/// An entry of a configuration tree.
pub enum Node {
    File(Seq<u8>),
    Dir,
}

/// `tree` (relative path to entry) with the watched subdirectories present.
pub open spec fn with_subdirs(tree: Map<Seq<char>, Node>) -> Map<Seq<char>, Node> {
    tree.insert(subdir_text(Subdir::Instances), Node::Dir).insert(subdir_text(Subdir::Servers), Node::Dir)
}

/// The shared and private trees after startup: the shared tree gains its
/// watched subdirectories if absent and keeps all it holds; the private tree
/// is wiped, given its subdirectories, and then receives a copy of every
/// entry of the shared tree.
pub open spec fn bootstrapped(shared: Map<Seq<char>, Node>, private: Map<Seq<char>, Node>) -> (Map<Seq<char>, Node>, Map<Seq<char>, Node>) {
    let s = with_subdirs(shared);
    (s, with_subdirs(Map::empty()).union_prefer_right(s))
}

/// Startup is idempotent: running it again on the trees it produced changes
/// neither, and on trees that are already in sync it leaves the private
/// tree's content as it is. The copy overwrites; it never adds.
pub proof fn lemma_bootstrap_idempotent(shared: Map<Seq<char>, Node>, private: Map<Seq<char>, Node>)
    ensures
        bootstrapped(shared, private).1 == bootstrapped(shared, private).0,
        bootstrapped(bootstrapped(shared, private).0, bootstrapped(shared, private).1) == bootstrapped(shared, private),
        private == with_subdirs(shared) ==> bootstrapped(shared, private).1 == private,
{
    let s = with_subdirs(shared);
    assert(with_subdirs(Map::empty()).union_prefer_right(s) =~= s);
    assert(with_subdirs(s) =~= s);
    assert(with_subdirs(Map::empty()).union_prefer_right(with_subdirs(s)) =~= s);
}

} // verus!
