use juky4::kernel::classifier::ProjectType;
use juky4::kernel::execution::manager::ExecutionManager;
use juky4::kernel::execution::session::SessionStatus;
use juky4::kernel::runtime::selector::RuntimeBackend;

#[test]
fn creates_session_with_unique_id() {
    let mut manager = ExecutionManager::new();
    let id1 = manager.create_session("/tmp/fake-repo-1", "");
    let id2 = manager.create_session("/tmp/fake-repo-2", "");

    assert_ne!(id1, id2);
    assert!(manager.get_session(&id1).is_some());
    assert!(manager.get_session(&id2).is_some());
}

#[test]
fn allocates_sequential_ports() {
    let mut manager = ExecutionManager::new();
    assert_eq!(manager.allocate_port(), 3000);
    assert_eq!(manager.allocate_port(), 3001);
    assert_eq!(manager.allocate_port(), 3002);
}

#[test]
fn list_sessions_returns_all() {
    let mut manager = ExecutionManager::new();
    manager.create_session("/tmp/a", "");
    manager.create_session("/tmp/b", "");
    manager.create_session("/tmp/c", "");

    assert_eq!(manager.list_sessions().len(), 3);
}

#[test]
fn session_ids_are_hyphenated_v4_uuids() {
    let mut manager = ExecutionManager::new();
    let id = manager.create_session("/tmp/a", "");
    assert_eq!(id.len(), 36);
    for (i, c) in id.chars().enumerate() {
        if i == 8 || i == 13 || i == 18 || i == 23 {
            assert_eq!(c, '-');
        } else {
            assert!(c.is_ascii_digit() || ('a'..='f').contains(&c));
        }
    }
    assert_eq!(id.chars().nth(14), Some('4'));
}

#[test]
fn created_session_is_classified_and_fresh() {
    let mut manager = ExecutionManager::new();
    let id = manager.create_session("/srv/shop", r#"{"dependencies":{"pglite":"0.2.0"}}"#);
    let s = manager.get_session(&id).expect("session should exist");
    assert_eq!(s.session_id, id);
    assert_eq!(s.repo_path, "/srv/shop");
    assert_eq!(s.project_type, ProjectType::PGLiteApp);
    assert_eq!(s.runtime, RuntimeBackend::Pglite);
    assert_eq!(s.status, SessionStatus::Created);
    assert!(s.pid.is_none() && s.port.is_none() && s.logs.is_empty());
}

#[test]
fn unknown_session_is_not_found() {
    let mut manager = ExecutionManager::new();
    assert!(manager.get_session("nope").is_none());
    assert_eq!(manager.stop_session("nope"), Err("session not found".to_string()));
    assert_eq!(manager.install_finished("nope", true), Err("session not found".to_string()));
    assert_eq!(manager.spawn_finished("nope", Ok(1)), Err("session not found".to_string()));
}

#[test]
fn start_of_unknown_session_still_uses_a_port() {
    let mut manager = ExecutionManager::new();
    assert_eq!(manager.start_session("nope"), Err("session not found".to_string()));
    assert_eq!(manager.next_port(), 3001);
}

#[test]
fn full_start_of_next_session() {
    let mut manager = ExecutionManager::new();
    let id = manager.create_session("/srv/web", r#"{"dependencies":{"next":"14.0.0"}}"#);

    assert_eq!(manager.start_session(&id), Ok("npm install".to_string()));
    {
        let s = manager.get_session(&id).unwrap();
        assert_eq!(s.port, Some(3000));
        assert_eq!(s.status, SessionStatus::Installing);
        assert_eq!(
            s.logs,
            vec![
                "status transition: Created -> Installing".to_string(),
                "running: npm install".to_string()
            ]
        );
    }

    assert_eq!(manager.install_finished(&id, true), Ok("PORT=3000 npm run dev".to_string()));
    assert_eq!(
        manager.get_session(&id).unwrap().logs.last().map(|s| s.as_str()),
        Some("starting: PORT=3000 npm run dev")
    );

    assert_eq!(manager.spawn_finished(&id, Ok(4242)), Ok(()));
    let s = manager.get_session(&id).unwrap();
    assert_eq!(s.pid, Some(4242));
    assert_eq!(s.status, SessionStatus::Running);
    assert_eq!(s.url(), Some("http://localhost:3000".to_string()));
    assert_eq!(manager.running_count(), 1);
}

#[test]
fn pglite_session_is_started_without_port_override() {
    let mut manager = ExecutionManager::new();
    let id = manager.create_session("/srv/db", r#"{"dependencies":{"pglite":"0.2.0"}}"#);
    assert_eq!(manager.start_session(&id), Ok("npm install".to_string()));
    assert_eq!(manager.install_finished(&id, true), Ok("node server.js".to_string()));
}

#[test]
fn unknown_project_on_node_is_started_without_port_override() {
    let mut manager = ExecutionManager::new();
    let id = manager.create_session("/srv/x", "");
    assert_eq!(manager.start_session(&id), Ok("echo 'unknown project'".to_string()));
    assert_eq!(manager.install_finished(&id, true), Ok("exit 1".to_string()));
}

#[test]
fn failed_install_fails_the_session() {
    let mut manager = ExecutionManager::new();
    let id = manager.create_session("/srv/web", r#"{"dependencies":{"react-scripts":"5.0.1"}}"#);
    manager.start_session(&id).unwrap();
    assert_eq!(manager.install_finished(&id, false), Err("install failed".to_string()));
    let s = manager.get_session(&id).unwrap();
    assert_eq!(s.status, SessionStatus::Failed);
    assert_eq!(s.logs.last().unwrap(), "status transition: Installing -> Failed");
}

#[test]
fn failed_spawn_fails_the_session() {
    let mut manager = ExecutionManager::new();
    let id = manager.create_session("/srv/web", r#"{"dependencies":{"react-scripts":"5.0.1"}}"#);
    manager.start_session(&id).unwrap();
    assert_eq!(manager.install_finished(&id, true), Ok("PORT=3000 npm start".to_string()));
    assert_eq!(
        manager.spawn_finished(&id, Err("no such file".to_string())),
        Err("spawn failed: no such file".to_string())
    );
    let s = manager.get_session(&id).unwrap();
    assert_eq!(s.status, SessionStatus::Failed);
    assert!(s.pid.is_none());
    assert_eq!(manager.running_count(), 0);
}

#[test]
fn each_start_gets_a_new_port() {
    let mut manager = ExecutionManager::new();
    let a = manager.create_session("/a", "");
    let b = manager.create_session("/b", "");
    manager.start_session(&a).unwrap();
    manager.start_session(&b).unwrap();
    manager.start_session(&a).unwrap();
    assert_eq!(manager.get_session(&b).unwrap().port, Some(3001));
    assert_eq!(manager.get_session(&a).unwrap().port, Some(3002));
    assert_eq!(manager.next_port(), 3003);
}

#[test]
fn stop_session_stops_and_forgets_the_process() {
    let mut manager = ExecutionManager::new();
    let id = manager.create_session("/srv/web", "");
    manager.start_session(&id).unwrap();
    manager.install_finished(&id, true).unwrap();
    manager.spawn_finished(&id, Ok(7)).unwrap();
    assert_eq!(manager.stop_session(&id), Ok(()));
    let s = manager.get_session(&id).unwrap();
    assert_eq!(s.status, SessionStatus::Stopped);
    assert!(s.pid.is_none());
    assert_eq!(s.logs.last().unwrap(), "status transition: Running -> Stopped");
}

#[test]
fn cleanup_stops_every_session() {
    let mut manager = ExecutionManager::new();
    let ids: Vec<String> = (0..3).map(|i| manager.create_session(&format!("/r{}", i), "")).collect();
    for id in &ids {
        manager.start_session(id).unwrap();
        manager.install_finished(id, true).unwrap();
        manager.spawn_finished(id, Ok(100)).unwrap();
    }
    assert_eq!(manager.running_count(), 3);
    manager.cleanup();
    assert_eq!(manager.running_count(), 0);
    assert_eq!(manager.list_sessions().len(), 3);
    for s in manager.list_sessions() {
        assert_eq!(s.status, SessionStatus::Stopped);
        assert!(s.pid.is_none());
    }
}

#[test]
fn default_manager_is_empty() {
    let manager = ExecutionManager::default();
    assert_eq!(manager.list_sessions().len(), 0);
    assert_eq!(manager.next_port(), 3000);
    assert_eq!(manager.running_count(), 0);
}

#[test]
fn steps_out_of_order_leave_the_session_unchanged() {
    let mut manager = ExecutionManager::new();
    let id = manager.create_session("/srv/web", r#"{"dependencies":{"next":"14.0.0"}}"#);
    assert_eq!(manager.spawn_finished(&id, Ok(5)), Err("session is not installing".to_string()));
    assert_eq!(manager.install_finished(&id, true), Err("session is not installing".to_string()));
    let s = manager.get_session(&id).unwrap();
    assert_eq!(s.status, SessionStatus::Created);
    assert!(s.pid.is_none() && s.port.is_none() && s.logs.is_empty());
    assert_eq!(manager.running_count(), 0);
}

#[test]
fn spawn_after_failed_install_is_refused() {
    let mut manager = ExecutionManager::new();
    let id = manager.create_session("/srv/web", "");
    manager.start_session(&id).unwrap();
    manager.install_finished(&id, false).unwrap_err();
    assert_eq!(manager.spawn_finished(&id, Ok(9)), Err("session is not installing".to_string()));
    assert_eq!(manager.get_session(&id).unwrap().status, SessionStatus::Failed);
}

#[test]
fn create_with_given_id_adds_then_replaces() {
    let mut manager = ExecutionManager::new();
    manager.create_session_with_id("fixed".to_string(), "/one", "");
    manager.create_session_with_id("other".to_string(), "/two", "");
    manager.start_session("fixed").unwrap();
    assert_eq!(manager.list_sessions().len(), 2);

    manager.create_session_with_id("fixed".to_string(), "/three", r#"{"next":"1"}"#);
    assert_eq!(manager.list_sessions().len(), 2);
    let s = manager.get_session("fixed").unwrap();
    assert_eq!(s.repo_path, "/three");
    assert_eq!(s.project_type, ProjectType::NextJs);
    assert_eq!(s.status, SessionStatus::Created);
    assert!(s.port.is_none() && s.logs.is_empty());
    assert_eq!(manager.get_session("other").unwrap().repo_path, "/two");
}

#[test]
fn restarting_a_running_session_keeps_its_process_until_spawned_again() {
    let mut manager = ExecutionManager::new();
    let id = manager.create_session("/srv/web", "");
    manager.start_session(&id).unwrap();
    manager.install_finished(&id, true).unwrap();
    manager.spawn_finished(&id, Ok(11)).unwrap();
    manager.start_session(&id).unwrap();
    let s = manager.get_session(&id).unwrap();
    assert_eq!(s.status, SessionStatus::Installing);
    assert_eq!(s.pid, Some(11));
    assert_eq!(s.port, Some(3001));
}

#[test]
fn spawn_before_install_reported_is_refused() {
    let mut manager = ExecutionManager::new();
    let id = manager.create_session("/srv/web", r#"{"dependencies":{"next":"14.0.0"}}"#);
    manager.start_session(&id).unwrap();
    assert_eq!(manager.spawn_finished(&id, Ok(5)), Err("install has not finished".to_string()));
    let s = manager.get_session(&id).unwrap();
    assert_eq!(s.status, SessionStatus::Installing);
    assert!(s.pid.is_none());
    assert_eq!(s.logs.len(), 2);
    assert_eq!(manager.running_count(), 0);
}

#[test]
fn restart_requires_a_new_install_report() {
    let mut manager = ExecutionManager::new();
    let id = manager.create_session("/srv/web", "");
    manager.start_session(&id).unwrap();
    manager.install_finished(&id, true).unwrap();
    manager.start_session(&id).unwrap();
    assert_eq!(manager.spawn_finished(&id, Ok(5)), Err("install has not finished".to_string()));
    manager.install_finished(&id, true).unwrap();
    assert_eq!(manager.spawn_finished(&id, Ok(5)), Ok(()));
    assert_eq!(manager.spawn_finished(&id, Ok(6)), Err("session is not installing".to_string()));
}
