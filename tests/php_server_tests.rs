use php_runtime::error::Error;
use php_runtime::models::StartServerRequest;
use php_runtime::php_server::{LaunchPlan, PhpServerManager};
use php_runtime::port::PortSearch;

fn request(project: &str, port: Option<u16>) -> StartServerRequest {
    StartServerRequest {
        project_path: project.to_string(),
        port,
        host: None,
        php_version: None,
        document_root: None,
    }
}

fn start(manager: &mut PhpServerManager, project: &str, port: u16, pid: u32) -> String {
    let target = PhpServerManager::launch_target(&request(project, Some(port)));
    let plan = manager.check_start(target, true, false, true, false).unwrap();
    let id = manager
        .register(&plan, Some(pid), "1700000000".to_string(), "8.3.0".to_string())
        .unwrap();
    manager.confirm_start(id, true).unwrap()
}

#[test]
fn test_php_server_manager_creation() {
    let _manager = PhpServerManager::new();
}

#[test]
fn test_server_status_for_nonexistent_server() {
    let manager = PhpServerManager::new();
    let status = manager.get_server_status("nonexistent-server-id", &vec![]).unwrap();
    assert!(!status.is_running);
    assert!(status.pid.is_none());
    assert!(status.port.is_none());
    assert!(status.host.is_none());
    assert!(status.document_root.is_none());
    assert!(status.started_at.is_none());
}

#[test]
fn test_list_running_servers_empty() {
    let manager = PhpServerManager::new();
    assert_eq!(manager.list_running_servers(&vec![]).len(), 0);
}

#[test]
fn test_stop_nonexistent_server() {
    let mut manager = PhpServerManager::new();
    let result = manager.stop_server("nonexistent-server-id");
    assert!(result.is_err());
    assert!(matches!(result, Err(Error::NotFound(id)) if id == "nonexistent-server-id"));
}

#[test]
fn test_stop_all_servers_empty() {
    let mut manager = PhpServerManager::new();
    assert!(manager.stop_all_servers().is_ok());
}

#[test]
fn launch_target_defaults() {
    let target = PhpServerManager::launch_target(&request("/srv/site", None));
    assert_eq!(target.host, "127.0.0.1");
    assert_eq!(target.port, 8000);
    assert_eq!(target.document_root, "/srv/site");
    assert_eq!(target.working_dir, "/srv/site");

    let explicit = StartServerRequest {
        project_path: "/path/to/project".to_string(),
        port: Some(8080),
        host: Some("0.0.0.0".to_string()),
        php_version: Some("8.2.15".to_string()),
        document_root: Some("/path/to/project/public".to_string()),
    };
    let target = PhpServerManager::launch_target(&explicit);
    assert_eq!(target.host, "0.0.0.0");
    assert_eq!(target.port, 8080);
    assert_eq!(target.document_root, "/path/to/project/public");
}

#[test]
fn start_checks_fail_in_order() {
    let manager = PhpServerManager::new();
    let target = || PhpServerManager::launch_target(&request("/srv/site", Some(8123)));
    assert!(matches!(manager.check_start(target(), false, true, false, false), Err(Error::PhpBinaryNotFound)));
    assert!(matches!(manager.check_start(target(), true, true, false, false), Err(Error::PortUnavailable(8123))));
    assert!(matches!(
        manager.check_start(target(), true, false, false, false),
        Err(Error::MissingDocumentRoot(d)) if d == "/srv/site"
    ));
    let plan = manager.check_start(target(), true, false, true, true).unwrap();
    assert_eq!(plan.router_script.as_deref(), Some("server.php"));
    let plan = manager.check_start(target(), true, false, true, false).unwrap();
    assert!(plan.router_script.is_none());
    assert_eq!(PhpServerManager::detect_router_script(true).as_deref(), Some("server.php"));
}

#[test]
fn start_then_status_then_stop() {
    let mut manager = PhpServerManager::new();
    let id = start(&mut manager, "/srv/site", 8100, 4242);
    assert_eq!(id.len(), 36);

    let status = manager.get_server_status(&id, &vec![4242]).unwrap();
    assert!(status.is_running);
    assert_eq!(status.pid, Some(4242));
    assert_eq!(status.port, Some(8100));
    assert_eq!(status.host.as_deref(), Some("127.0.0.1"));
    assert_eq!(status.document_root.as_deref(), Some("/srv/site"));
    assert_eq!(status.started_at.as_deref(), Some("1700000000"));

    let dead = manager.get_server_status(&id, &vec![]).unwrap();
    assert!(!dead.is_running);
    assert_eq!(dead.port, Some(8100));

    assert_eq!(manager.tracked_pids(), vec![4242]);
    assert!(manager.stop_server(&id).is_ok());
    let after = manager.get_server_status(&id, &vec![4242]).unwrap();
    assert!(!after.is_running);
    assert!(after.port.is_none());
    assert!(after.host.is_none());
    assert!(matches!(manager.stop_server(&id), Err(Error::NotFound(_))));
}

#[test]
fn three_starts_get_distinct_ids_and_ports() {
    let mut manager = PhpServerManager::new();
    let a = start(&mut manager, "/srv/a", 8201, 11);
    let b = start(&mut manager, "/srv/b", 8202, 12);
    let c = start(&mut manager, "/srv/c", 8203, 13);
    assert!(a != b && b != c && a != c);
    let listed = manager.list_running_servers(&vec![11, 12, 13]);
    assert_eq!(listed.len(), 3);
    let mut ports: Vec<u16> = listed.iter().map(|(_, s)| s.port.unwrap()).collect();
    ports.sort();
    assert_eq!(ports, vec![8201, 8202, 8203]);
    assert!(listed.iter().all(|(_, s)| s.is_running));
}

#[test]
fn tracked_port_is_refused() {
    let mut manager = PhpServerManager::new();
    start(&mut manager, "/srv/a", 8300, 21);
    let target = PhpServerManager::launch_target(&request("/srv/b", Some(8300)));
    assert!(matches!(manager.check_start(target, true, false, true, false), Err(Error::PortUnavailable(8300))));
    let plan = LaunchPlan {
        host: "127.0.0.1".to_string(),
        port: 8300,
        document_root: "/srv/b".to_string(),
        working_dir: "/srv/b".to_string(),
        router_script: None,
    };
    assert!(matches!(
        manager.register(&plan, Some(22), "0".to_string(), "8.3.0".to_string()),
        Err(Error::PortUnavailable(8300))
    ));
    assert!(manager.is_port_in_use(8300, false));
    assert!(!manager.is_port_in_use(8301, false));
    assert!(manager.is_port_in_use(8301, true));
}

#[test]
fn process_that_died_is_dropped() {
    let mut manager = PhpServerManager::new();
    let target = PhpServerManager::launch_target(&request("/srv/a", Some(8400)));
    let plan = manager.check_start(target, true, false, true, false).unwrap();
    let id = manager.register(&plan, Some(31), "0".to_string(), "8.3.0".to_string()).unwrap();
    assert!(matches!(manager.confirm_start(id.clone(), false), Err(Error::ProcessDiedEarly)));
    assert!(manager.get_server_status(&id, &vec![31]).unwrap().port.is_none());
    assert!(!manager.is_port_in_use(8400, false));
}

#[test]
fn stop_all_empties_the_listing() {
    let mut manager = PhpServerManager::new();
    start(&mut manager, "/srv/a", 8501, 41);
    start(&mut manager, "/srv/b", 8502, 42);
    assert_eq!(manager.list_running_servers(&vec![]).len(), 2);
    assert!(manager.stop_all_servers().is_ok());
    assert!(manager.list_running_servers(&vec![41, 42]).is_empty());
    assert!(manager.tracked_pids().is_empty());
}

fn search(manager: &PhpServerManager, start: u16, busy: impl Fn(u16) -> bool) -> Result<u16, Error> {
    let mut s = PortSearch::new(start);
    loop {
        let bound = busy(s.current());
        if let Some(r) = manager.find_available_port_step(&mut s, bound) {
            return r;
        }
    }
}

#[test]
fn test_find_available_port() {
    let manager = PhpServerManager::new();
    let port = search(&manager, 8000, |_| false).unwrap();
    assert_eq!(port, 8000);
    // Not reserved: asking again gives the same port.
    assert_eq!(search(&manager, 8000, |_| false).unwrap(), 8000);
}

#[test]
fn port_search_skips_busy_and_tracked() {
    let mut manager = PhpServerManager::new();
    start(&mut manager, "/srv/a", 9001, 51);
    assert_eq!(search(&manager, 9000, |p| p == 9000 || p == 9002).unwrap(), 9003);
}

#[test]
fn port_search_wraps_once_then_fails() {
    let manager = PhpServerManager::new();
    assert_eq!(search(&manager, 65533, |p| p >= 65533).unwrap(), 8000);
    assert_eq!(search(&manager, 65534, |p| p == 65534 || p == 8000).unwrap(), 8001);
    assert_eq!(search(&manager, 9000, |p| p >= 8000 && p != 8500).unwrap(), 8500);
    assert!(matches!(search(&manager, 65535, |_| true), Err(Error::PortsExhausted(65535))));
    assert!(matches!(search(&manager, 100, |p| p >= 100), Err(Error::PortsExhausted(100))));
    let mut s = PortSearch::new(65534);
    assert_eq!(s.current(), 65534);
    assert!(s.advance());
    assert_eq!(s.current(), 8000);
    assert!(s.advance());
    assert_eq!(s.current(), 8001);
}

fn plan(port: u16) -> LaunchPlan {
    LaunchPlan {
        host: "127.0.0.1".to_string(),
        port,
        document_root: "/srv/x".to_string(),
        working_dir: "/srv/x".to_string(),
        router_script: None,
    }
}

#[test]
fn register_with_id_refuses_a_reused_id() {
    let mut manager = PhpServerManager::new();
    let id = manager
        .register_with_id("fixed-id".to_string(), &plan(8600), Some(1), "0".to_string(), "8.3.0".to_string())
        .unwrap();
    assert_eq!(id, "fixed-id");
    assert!(manager.stop_server("fixed-id").is_ok());
    // Stopped, yet the identifier stays issued and is never handed out again.
    assert!(matches!(
        manager.register_with_id("fixed-id".to_string(), &plan(8601), Some(2), "0".to_string(), "8.3.0".to_string()),
        Err(Error::PhpServer(_))
    ));
    assert!(manager.list_running_servers(&vec![]).is_empty());
    let other = manager
        .register_with_id("other-id".to_string(), &plan(8601), Some(2), "0".to_string(), "8.3.0".to_string())
        .unwrap();
    assert_eq!(other, "other-id");
    assert!(matches!(
        manager.register_with_id("third-id".to_string(), &plan(8601), Some(3), "0".to_string(), "8.3.0".to_string()),
        Err(Error::PortUnavailable(8601))
    ));
}

#[test]
fn first_registration_on_a_free_port_succeeds() {
    let mut manager = PhpServerManager::new();
    let id = manager.register(&plan(8700), Some(7), "0".to_string(), "8.3.0".to_string()).unwrap();
    assert_eq!(id.len(), 36);
    let status = manager.get_server_status(&id, &vec![7]).unwrap();
    assert!(status.is_running);
    assert_eq!(status.port, Some(8700));
}
