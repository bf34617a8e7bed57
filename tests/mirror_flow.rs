use floxy_entrypoint::mirror::{conf_subdirs, private_path, shared_path};
use floxy_entrypoint::watch::{join, IN_CLOSE_WRITE, IN_DELETE, IN_ISDIR};
use floxy_entrypoint::{
    after_mirror, after_reload, after_test, classify, copy_step, create_private_conf_dirs,
    create_shared_conf_dirs, plan_mirror, CopyStep, Event, MirrorAction, ReloadAction,
    ReloadOutcome, RelPath, Subdir, Translation, Verb,
};

fn expect_event(t: Translation) -> Event {
    match t {
        Translation::Mirror(e) => e,
        other => panic!("expected a file event, got {:?}", other),
    }
}

#[test]
fn written_file_is_copied_then_tested_then_reloaded() {
    let e = expect_event(classify(Some(Subdir::Instances), IN_CLOSE_WRITE, Some("a.conf".to_string())));
    assert_eq!(e.path().to_text(), "instances/a.conf");
    assert!(matches!(e, Event::MovedTo(_)));
    match plan_mirror(&e) {
        MirrorAction::Copy { from, to } => {
            assert_eq!(from, "/tmp/floxy/conf.d/instances/a.conf");
            assert_eq!(to, "/etc/nginx/conf.d/floxy/instances/a.conf");
        }
        other => panic!("expected a copy, got {:?}", other),
    }
    assert_eq!(after_mirror(true), ReloadAction::Run(Verb::TestConfig));
    assert_eq!(after_test(true), ReloadAction::Run(Verb::Reload));
    assert_eq!(after_reload(true), ReloadOutcome::Reloaded);
}

#[test]
fn deleted_file_is_removed_then_reloaded() {
    let e = expect_event(classify(Some(Subdir::Servers), IN_DELETE, Some("b.conf".to_string())));
    assert!(matches!(e, Event::Delete(_)));
    match plan_mirror(&e) {
        MirrorAction::Remove { path } => assert_eq!(path, "/etc/nginx/conf.d/floxy/servers/b.conf"),
        other => panic!("expected a removal, got {:?}", other),
    }
    assert_eq!(after_mirror(true), ReloadAction::Run(Verb::TestConfig));
}

#[test]
fn failed_test_never_reloads() {
    let e = expect_event(classify(Some(Subdir::Instances), IN_CLOSE_WRITE, Some("a.conf".to_string())));
    assert!(matches!(plan_mirror(&e), MirrorAction::Copy { .. }));
    assert_eq!(after_mirror(true), ReloadAction::Run(Verb::TestConfig));
    assert_eq!(after_test(false), ReloadAction::Finish(ReloadOutcome::TestFailed));
}

#[test]
fn failed_mirror_skips_the_protocol() {
    assert_eq!(after_mirror(false), ReloadAction::Finish(ReloadOutcome::NotMirrored));
}

#[test]
fn failed_reload_is_reported() {
    assert_eq!(after_reload(false), ReloadOutcome::ReloadFailed);
}

#[test]
fn directory_events_are_ignored() {
    let created = classify(Some(Subdir::Instances), IN_CLOSE_WRITE | IN_ISDIR, Some("sub".to_string()));
    assert!(matches!(created, Translation::Ignore));
    let deleted = classify(Some(Subdir::Servers), IN_DELETE | IN_ISDIR, Some("sub".to_string()));
    assert!(matches!(deleted, Translation::Ignore));
}

#[test]
fn unexpected_masks_are_violations() {
    assert!(matches!(classify(Some(Subdir::Instances), 0x100, Some("x".to_string())), Translation::Violation));
    assert!(matches!(classify(Some(Subdir::Instances), IN_ISDIR, Some("x".to_string())), Translation::Violation));
    assert!(matches!(classify(None, IN_DELETE, Some("x".to_string())), Translation::Violation));
    assert!(matches!(classify(Some(Subdir::Servers), IN_DELETE, None), Translation::Violation));
}

#[test]
fn close_write_wins_over_delete() {
    let e = expect_event(classify(Some(Subdir::Servers), IN_CLOSE_WRITE | IN_DELETE, Some("c.conf".to_string())));
    assert!(matches!(e, Event::MovedTo(_)));
}

#[test]
fn paths_map_between_trees() {
    let rel = RelPath { subdir: Subdir::Servers, name: "x.conf".to_string() };
    assert_eq!(shared_path(&rel), "/tmp/floxy/conf.d/servers/x.conf");
    assert_eq!(private_path(&rel), "/etc/nginx/conf.d/floxy/servers/x.conf");
    assert_eq!(join("a", "b"), "a/b");
    assert_eq!(join("", ""), "/");
}

#[test]
fn conf_dirs_are_the_two_subdirectories() {
    assert_eq!(create_shared_conf_dirs(), vec!["/tmp/floxy/conf.d/instances", "/tmp/floxy/conf.d/servers"]);
    let reset = create_private_conf_dirs();
    assert_eq!(reset.remove, "/etc/nginx/conf.d/floxy");
    assert_eq!(reset.create, vec!["/etc/nginx/conf.d/floxy/instances", "/etc/nginx/conf.d/floxy/servers"]);
    assert_eq!(conf_subdirs("/r"), vec!["/r/instances", "/r/servers"]);
}

#[test]
fn copy_steps_follow_entry_kind() {
    match copy_step("/s", "/p", "instances", true) {
        CopyStep::Descend { from, to } => {
            assert_eq!(from, "/s/instances");
            assert_eq!(to, "/p/instances");
        }
        other => panic!("expected a descent, got {:?}", other),
    }
    match copy_step("/s/instances", "/p/instances", "a.conf", false) {
        CopyStep::CopyFile { from, to } => {
            assert_eq!(from, "/s/instances/a.conf");
            assert_eq!(to, "/p/instances/a.conf");
        }
        other => panic!("expected a file copy, got {:?}", other),
    }
}

#[test]
fn verb_arguments() {
    assert_eq!(Verb::Start.args(), vec!["-c", "/etc/nginx/nginx.conf", "-e", "/dev/stderr", "-g", "daemon off;"]);
    assert_eq!(Verb::TestConfig.args(), vec!["-c", "/etc/nginx/nginx.conf", "-e", "/dev/stderr", "-t"]);
    assert_eq!(Verb::Reload.args(), vec!["-c", "/etc/nginx/nginx.conf", "-e", "/dev/stderr", "-s", "reload"]);
}
