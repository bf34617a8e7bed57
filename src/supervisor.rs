use vstd::prelude::*;

use nix::sys::inotify::WatchDescriptor;

use crate::mirror::{mirror_op, performed, plan_mirror, private_file, shared_file, MirrorAction};
use crate::signals::{after_signal, iteration_for, termination_signal, Iteration};
use crate::watch::{
    classification, has_bit, name_view, translation_matches, Event, Translation, WatchTable,
    IN_CLOSE_WRITE, IN_DELETE, IN_ISDIR,
};

verus! {

/// What the main loop does with one raw watch event.
#[derive(Debug)]
pub enum Dispatch {
    /// Perform `action`; if it succeeds, run the reload protocol for `event`.
    Apply { event: Event, action: MirrorAction },
    /// Nothing to mirror, nothing to reload.
    Ignore,
    /// The event breaks the watch layer's guarantees: the supervisor stops.
    Violation,
}

/// Whether `d` is the dispatch for translation `t`.
pub open spec fn dispatch_matches(d: Dispatch, t: Translation) -> bool {
    match t {
        Translation::Mirror(e) => match d {
            Dispatch::Apply { event, action } => event == e && action@ == mirror_op(e),
            _ => false,
        },
        Translation::Ignore => d is Ignore,
        Translation::Violation => d is Violation,
    }
}

/// Turns one raw watch event into the work it calls for: the file operation
/// that mirrors it, or nothing, or a fatal violation.
pub fn dispatch(table: &WatchTable, wd: &WatchDescriptor, mask: u32, name: Option<String>) -> (r: Dispatch)
    ensures
        exists|t: Translation|
            translation_matches(
                t,
                classification(
                    if table@.contains_key(*wd) { Some(table@[*wd]) } else { None },
                    mask,
                    name_view(name),
                ),
            ) && #[trigger] dispatch_matches(r, t),
{
    let t = table.translate(wd, mask, name);
    match t {
        Translation::Mirror(e) => {
            let action = plan_mirror(&e);
            let r = Dispatch::Apply { event: e, action };
            assert(dispatch_matches(r, Translation::Mirror(e)));
            r
        },
        Translation::Ignore => {
            assert(dispatch_matches(Dispatch::Ignore, t));
            Dispatch::Ignore
        },
        Translation::Violation => {
            assert(dispatch_matches(Dispatch::Violation, t));
            Dispatch::Violation
        },
    }
}

/// Whether a wait that ended with `polled` (the number of ready handles, or
/// the error number of a failed or interrupted wait) left events to read.
pub open spec fn has_events(polled: Result<i32, i32>) -> bool {
    match polled {
        Ok(n) => n > 0,
        Err(_) => false,
    }
}

/// Decides whether to read the watch handle after a wait: only a wait that
/// reported ready handles is followed by a read; an empty or failed wait
/// ends the iteration.
pub fn should_read_events(polled: Result<i32, i32>) -> (r: bool)
    ensures
        r == has_events(polled),
{
    match polled {
        Ok(n) => n > 0,
        Err(_) => false,
    }
}

/// A file written into a watched shared subdirectory is mirrored: the event
/// becomes a copy, after which the private path holds the shared file's
/// exact content.
pub proof fn lemma_written_file_is_mirrored(
    t: Translation,
    table: Map<WatchDescriptor, crate::watch::Subdir>,
    wd: WatchDescriptor,
    mask: u32,
    name: Seq<char>,
    fs: Map<Seq<char>, Seq<u8>>,
)
    requires
        table.contains_key(wd),
        has_bit(mask, IN_CLOSE_WRITE),
        !has_bit(mask, IN_ISDIR),
        translation_matches(t, classification(Some(table[wd]), mask, Some(name))),
    ensures
        match t {
            Translation::Mirror(e) => match e {
                Event::MovedTo(p) => p.subdir == table[wd] && p.name@ == name
                    && mirror_op(e) == crate::mirror::FileOp::CopyOp(shared_file(p), private_file(p))
                    && performed(fs, mirror_op(e)).contains_key(private_file(p))
                    && performed(fs, mirror_op(e))[private_file(p)] == fs[shared_file(p)],
                Event::Delete(_) => false,
            },
            _ => false,
        },
{
}

/// A file deleted from a watched shared subdirectory is mirrored: the event
/// becomes a removal, after which no file is left at the private path.
pub proof fn lemma_deleted_file_is_mirrored(
    t: Translation,
    table: Map<WatchDescriptor, crate::watch::Subdir>,
    wd: WatchDescriptor,
    mask: u32,
    name: Seq<char>,
    fs: Map<Seq<char>, Seq<u8>>,
)
    requires
        table.contains_key(wd),
        !has_bit(mask, IN_CLOSE_WRITE),
        has_bit(mask, IN_DELETE),
        !has_bit(mask, IN_ISDIR),
        translation_matches(t, classification(Some(table[wd]), mask, Some(name))),
    ensures
        match t {
            Translation::Mirror(e) => match e {
                Event::Delete(p) => p.subdir == table[wd] && p.name@ == name
                    && mirror_op(e) == crate::mirror::FileOp::RemoveOp(private_file(p))
                    && !performed(fs, mirror_op(e)).contains_key(private_file(p)),
                Event::MovedTo(_) => false,
            },
            _ => false,
        },
{
}

/// An event about a directory never becomes a mirror operation, so it never
/// starts the reload protocol either.
pub proof fn lemma_directory_events_do_nothing(
    d: Dispatch,
    t: Translation,
    subdir: Option<crate::watch::Subdir>,
    mask: u32,
    name: Option<Seq<char>>,
)
    requires
        has_bit(mask, IN_ISDIR),
        translation_matches(t, classification(subdir, mask, name)),
        dispatch_matches(d, t),
    ensures
        !(t is Mirror),
        !(d is Apply),
        (has_bit(mask, IN_CLOSE_WRITE) || has_bit(mask, IN_DELETE)) && subdir is Some && name is Some
            ==> d is Ignore,
{
}

/// A termination signal delivered while the loop waits ends the loop: the
/// interrupted wait reads no events, so nothing is mirrored or reloaded, and
/// the next iteration shuts down, forwarding the first signal received.
pub proof fn lemma_signal_during_wait_stops_loop(current: i32, signum: i32, errno: i32)
    requires
        termination_signal(signum),
    ensures
        !has_events(Err(errno)),
        !has_events(Ok(0)),
        iteration_for(after_signal(current, signum)) == (Iteration::Shutdown {
            signum: if current == 0 { signum } else { current },
        }),
        current == 0 ==> iteration_for(after_signal(current, signum)) == (Iteration::Shutdown { signum }),
{
}

} // verus!
