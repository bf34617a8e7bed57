use floxy_entrypoint::watch::{IN_CLOSE_WRITE, IN_DELETE};
use floxy_entrypoint::{dispatch, Dispatch, Event, MirrorAction, Subdir, WatchTable};
use nix::sys::inotify::{AddWatchFlags, InitFlags, Inotify};

#[test]
fn table_resolves_handles_and_dispatches() {
    let ino = Inotify::init(InitFlags::IN_CLOEXEC).unwrap();
    let a = ino.add_watch("/tmp", AddWatchFlags::IN_DELETE).unwrap();
    let b = ino.add_watch("/", AddWatchFlags::IN_DELETE).unwrap();
    let mut table = WatchTable::new();
    assert_eq!(table.get(&a), None);
    table.insert(a, Subdir::Instances);
    table.insert(b, Subdir::Servers);
    assert_eq!(table.get(&a), Some(Subdir::Instances));
    assert_eq!(table.get(&b), Some(Subdir::Servers));
    table.insert(a, Subdir::Servers);
    assert_eq!(table.get(&a), Some(Subdir::Servers));

    match dispatch(&table, &b, IN_DELETE, Some("b.conf".to_string())) {
        Dispatch::Apply { event: Event::Delete(p), action: MirrorAction::Remove { path } } => {
            assert_eq!(p.subdir, Subdir::Servers);
            assert_eq!(path, "/etc/nginx/conf.d/floxy/servers/b.conf");
        }
        other => panic!("expected a removal, got {:?}", other),
    }
    let t = table.translate(&a, IN_CLOSE_WRITE, Some("a.conf".to_string()));
    assert!(matches!(t, floxy_entrypoint::Translation::Mirror(Event::MovedTo(_))));

    let empty = WatchTable::new();
    assert!(matches!(dispatch(&empty, &a, IN_CLOSE_WRITE, Some("a.conf".to_string())), Dispatch::Violation));
}
