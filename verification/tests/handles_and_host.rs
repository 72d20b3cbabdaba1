use gdextras::controller::{SceneLoadController, TickReport};
use gdextras::errors::LoadError;
use gdextras::host::SceneHost;
use gdextras::loader::{LoadStep, Loader};
use gdextras::resources::{LoadFault, ResourceEntry, ResourceKind, ResourceSystem};

fn scene(path: &str, total_stages: u32) -> ResourceEntry {
    ResourceEntry {
        path: path.to_string(),
        kind: ResourceKind::PackedScene,
        total_stages,
        fault: None,
        instantiable: true,
    }
}

#[test]
fn at_most_one_handle_over_many_requests() {
    let mut sys = ResourceSystem::new();
    for name in ["a", "b", "c", "d", "e"] {
        sys.register(scene(name, 3));
    }
    let mut c = SceneLoadController::new();

    assert_eq!(sys.live_handle_count(), 0);
    for name in ["a", "b", "c", "d", "e"] {
        assert!(c.begin_load(&mut sys, name.to_string()).is_ok());
        assert_eq!(sys.live_handle_count(), 1);
    }
}

#[test]
fn handle_released_on_successful_swap() {
    let mut sys = ResourceSystem::new();
    sys.register(scene("a", 1));
    let mut host = SceneHost::new();
    let mut c = SceneLoadController::new();

    assert!(c.begin_load(&mut sys, "a".to_string()).is_ok());
    assert_eq!(sys.live_handle_count(), 1);
    c.tick(&mut sys, &mut host);
    assert_eq!(c.tick(&mut sys, &mut host), TickReport::Swapped);
    assert_eq!(sys.live_handle_count(), 0);
}

#[test]
fn handle_released_on_load_failure() {
    let mut sys = ResourceSystem::new();
    sys.register(ResourceEntry {
        path: "bad".to_string(),
        kind: ResourceKind::PackedScene,
        total_stages: 2,
        fault: Some(LoadFault { at_stage: 1, error: LoadError::Corrupt }),
        instantiable: true,
    });
    let mut host = SceneHost::new();
    let mut c = SceneLoadController::new();

    assert!(c.begin_load(&mut sys, "bad".to_string()).is_ok());
    assert_eq!(sys.live_handle_count(), 1);
    assert_eq!(c.tick(&mut sys, &mut host), TickReport::LoadFailed(LoadError::Corrupt));
    assert_eq!(sys.live_handle_count(), 0);
}

#[test]
fn handle_released_on_supersession() {
    let mut sys = ResourceSystem::new();
    sys.register(scene("a", 3));
    sys.register(scene("b", 3));
    let mut c = SceneLoadController::new();

    assert!(c.begin_load(&mut sys, "a".to_string()).is_ok());
    assert_eq!(sys.live_handle_count(), 1);
    assert!(c.begin_load(&mut sys, "b".to_string()).is_ok());
    assert_eq!(sys.live_handle_count(), 1);
}

#[test]
fn handle_released_on_teardown_while_loading() {
    let mut sys = ResourceSystem::new();
    sys.register(scene("a", 3));
    let mut c = SceneLoadController::new();

    assert!(c.begin_load(&mut sys, "a".to_string()).is_ok());
    assert_eq!(sys.live_handle_count(), 1);
    c.shutdown(&mut sys);
    assert_eq!(sys.live_handle_count(), 0);
}

#[test]
fn superseding_with_bad_path_still_releases() {
    let mut sys = ResourceSystem::new();
    sys.register(scene("a", 3));
    let mut c = SceneLoadController::new();

    assert!(c.begin_load(&mut sys, "a".to_string()).is_ok());
    assert_eq!(sys.live_handle_count(), 1);
    // the old load is cancelled even though the new request fails
    assert_eq!(c.begin_load(&mut sys, "missing".to_string()), Err(LoadError::NotFound));
    assert!(!c.is_loading());
    assert_eq!(c.requested_path().clone(), None);
    assert_eq!(sys.live_handle_count(), 0);
}

#[test]
fn loader_polls_through_every_stage() {
    let mut sys = ResourceSystem::new();
    sys.register(scene("a", 2));
    let path = "a".to_string();
    let mut loader = Loader::new(&mut sys, &path).unwrap();
    assert_eq!(sys.live_handle_count(), 1);

    match loader.poll() {
        LoadStep::InProgress { current_stage, total_stages } => {
            assert_eq!((current_stage, total_stages), (1, 2));
        }
        _ => panic!("expected progress"),
    }
    match loader.poll() {
        LoadStep::InProgress { current_stage, total_stages } => {
            assert_eq!((current_stage, total_stages), (2, 2));
        }
        _ => panic!("expected progress"),
    }
    match loader.poll() {
        LoadStep::Complete(res) => {
            let node = res.instantiate().unwrap();
            assert_eq!(node.path(), "a");
        }
        _ => panic!("expected completion"),
    }
    loader.release(&mut sys);
    assert_eq!(sys.live_handle_count(), 0);
}

#[test]
fn loader_reports_scripted_fault_once() {
    let mut sys = ResourceSystem::new();
    sys.register(ResourceEntry {
        path: "bad".to_string(),
        kind: ResourceKind::PackedScene,
        total_stages: 3,
        fault: Some(LoadFault { at_stage: 2, error: LoadError::Io }),
        instantiable: true,
    });
    let path = "bad".to_string();
    let mut loader = Loader::new(&mut sys, &path).unwrap();

    match loader.poll() {
        LoadStep::InProgress { current_stage, total_stages } => {
            assert_eq!((current_stage, total_stages), (1, 3));
        }
        _ => panic!("expected progress"),
    }
    match loader.poll() {
        LoadStep::Failed(e) => assert_eq!(e, LoadError::Io),
        _ => panic!("expected failure"),
    }
    loader.release(&mut sys);
    assert_eq!(sys.live_handle_count(), 0);
}

#[test]
fn swap_queues_old_scene_for_deferred_destruction() {
    let mut sys = ResourceSystem::new();
    sys.register(scene("first", 1));
    sys.register(scene("second", 1));
    let mut host = SceneHost::new();
    let mut c = SceneLoadController::new();

    assert!(c.begin_load(&mut sys, "first".to_string()).is_ok());
    c.tick(&mut sys, &mut host);
    assert_eq!(c.tick(&mut sys, &mut host), TickReport::Swapped);
    // the host started empty, so the first swap detached nothing
    assert_eq!(host.pending_destroy_count(), 0);

    assert!(c.begin_load(&mut sys, "second".to_string()).is_ok());
    c.tick(&mut sys, &mut host);
    assert_eq!(c.tick(&mut sys, &mut host), TickReport::Swapped);

    // the old scene is queued, not destroyed mid-tick
    assert_eq!(host.pending_destroy_count(), 1);
    assert_eq!(
        host.current_scene().as_ref().map(|n| n.path().clone()),
        Some("second".to_string())
    );

    // the embedder drains the queue between ticks
    assert_eq!(host.sweep_pending(), 1);
    assert_eq!(host.pending_destroy_count(), 0);
    assert_eq!(
        host.current_scene().as_ref().map(|n| n.path().clone()),
        Some("second".to_string())
    );
}

#[test]
fn requested_path_tracks_the_inflight_load() {
    let mut sys = ResourceSystem::new();
    sys.register(scene("a", 1));
    let mut host = SceneHost::new();
    let mut c = SceneLoadController::new();

    assert_eq!(c.requested_path().clone(), None);
    assert!(c.begin_load(&mut sys, "a".to_string()).is_ok());
    assert_eq!(c.requested_path().clone(), Some("a".to_string()));
    c.tick(&mut sys, &mut host);
    c.tick(&mut sys, &mut host);
    // cleared on return to idle
    assert_eq!(c.requested_path().clone(), None);
}

#[test]
fn instantiation_failure_from_empty_host_attaches_nothing() {
    let mut sys = ResourceSystem::new();
    sys.register(ResourceEntry {
        path: "broken".to_string(),
        kind: ResourceKind::PackedScene,
        total_stages: 0,
        fault: None,
        instantiable: false,
    });
    let mut host = SceneHost::new();
    let mut c = SceneLoadController::new();

    assert!(c.begin_load(&mut sys, "broken".to_string()).is_ok());
    let report = c.tick(&mut sys, &mut host);
    assert_eq!(
        report,
        TickReport::InstantiationFailed(gdextras::errors::InstantiateError::MissingDependency)
    );
    assert!(host.current_scene().is_none());
    assert_eq!(host.pending_destroy_count(), 0);
}
