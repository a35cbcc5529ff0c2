use bndl::watch::{
    check_to_ignore_watch_event, check_to_ignore_watch_path, plan_watch_rebuilds, supervisor_step,
    FsEventKind, SupervisorAction, SupervisorEvent, SupervisorState,
};

#[test]
fn a_pure_metadata_change_triggers_no_rebuild() {
    assert!(check_to_ignore_watch_event(FsEventKind::ModifyMetadataAny));
    assert!(check_to_ignore_watch_event(FsEventKind::ModifyMetadataOther));
    let plan = plan_watch_rebuilds(
        FsEventKind::ModifyMetadataAny,
        &vec![b"/app/src/a.ts".to_vec()],
        b"/app",
        b"dist",
        b"tsconfig.json",
    );
    assert!(plan.is_empty());
}

#[test]
fn only_modifications_and_creations_pass_the_event_filter() {
    assert!(!check_to_ignore_watch_event(FsEventKind::Create));
    assert!(!check_to_ignore_watch_event(FsEventKind::ModifyData));
    assert!(!check_to_ignore_watch_event(FsEventKind::ModifyOther));
    assert!(check_to_ignore_watch_event(FsEventKind::Remove));
    assert!(check_to_ignore_watch_event(FsEventKind::Access));
    assert!(check_to_ignore_watch_event(FsEventKind::Other));
}

#[test]
fn paths_under_the_output_directory_trigger_no_rebuild() {
    assert!(check_to_ignore_watch_path(b"/app/dist/a.js", b"/app", b"dist"));
    assert!(check_to_ignore_watch_path(b"/app/node_modules/x/y.js", b"/app", b"dist"));
    assert!(check_to_ignore_watch_path(b"/app/.turbo/cache", b"/app", b"dist"));
    assert!(!check_to_ignore_watch_path(b"/app/src/a.ts", b"/app", b"dist"));
    let plan = plan_watch_rebuilds(
        FsEventKind::ModifyData,
        &vec![b"/app/dist/a.js".to_vec()],
        b"/app",
        b"dist",
        b"tsconfig.json",
    );
    assert!(plan.is_empty());
}

#[test]
fn a_source_change_triggers_exactly_one_scoped_rebuild() {
    let plan = plan_watch_rebuilds(
        FsEventKind::ModifyData,
        &vec![b"/app/src/a.ts".to_vec()],
        b"/app",
        b"dist",
        b"tsconfig.json",
    );
    assert_eq!(plan.len(), 1);
    assert_eq!(plan[0].input_path, b"/app/src/a.ts".to_vec());
    assert_eq!(plan[0].out_dir, b"dist".to_vec());
    assert_eq!(plan[0].config_path, b"tsconfig.json".to_vec());
    assert!(!plan[0].clean);
    assert!(!plan[0].bundle);
}

#[test]
fn mixed_paths_keep_only_the_qualifying_ones() {
    let plan = plan_watch_rebuilds(
        FsEventKind::Create,
        &vec![
            b"/app/src/a.ts".to_vec(),
            b"/app/dist/a.js".to_vec(),
            b"/app/src/b.ts".to_vec(),
        ],
        b"/app",
        b"dist",
        b"tsconfig.json",
    );
    assert_eq!(plan.len(), 2);
    assert_eq!(plan[0].input_path, b"/app/src/a.ts".to_vec());
    assert_eq!(plan[1].input_path, b"/app/src/b.ts".to_vec());
}

#[test]
fn the_supervisor_spawns_restarts_and_shuts_down() {
    assert_eq!(
        supervisor_step(SupervisorState::Stopped, SupervisorEvent::Start),
        (SupervisorState::Running, SupervisorAction::Spawn)
    );
    assert_eq!(
        supervisor_step(SupervisorState::Running, SupervisorEvent::RebuildSucceeded),
        (SupervisorState::Running, SupervisorAction::Restart)
    );
    assert_eq!(
        supervisor_step(SupervisorState::Running, SupervisorEvent::Interrupt),
        (SupervisorState::Stopped, SupervisorAction::KillAndExit)
    );
    assert_eq!(
        supervisor_step(SupervisorState::Stopped, SupervisorEvent::Interrupt),
        (SupervisorState::Stopped, SupervisorAction::Exit)
    );
    assert_eq!(
        supervisor_step(SupervisorState::Stopped, SupervisorEvent::RebuildSucceeded),
        (SupervisorState::Stopped, SupervisorAction::Stay)
    );
}
