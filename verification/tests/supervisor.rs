use portguard_systray::{
    Action, Config, ConfigRecord, Event, ManagerError, Pending, PortguardManager, ProcessHandle,
    Status,
};

const ID_A: u128 = 0xa1a2a3a4_b1b2_41c2_91d2_d3d4d5d6d7d8;
const ID_B: u128 = 0x550e8400_e29b_41d4_a716_446655440000;

fn handle(pid: u32) -> ProcessHandle {
    ProcessHandle { pid }
}

fn two_clients() -> PortguardManager {
    let mut manager = PortguardManager::new(Config::new());
    manager.add_client_with_id(ID_A, "/bin/a".to_string());
    manager.add_client_with_id(ID_B, "/bin/b".to_string());
    manager
}

fn running_a() -> PortguardManager {
    let mut manager = two_clients();
    assert_eq!(manager.select_client(ID_A), Ok(Action::Nothing));
    assert_eq!(manager.start_background(), Ok(Action::Spawn("/bin/a".to_string())));
    assert_eq!(manager.on_event(Event::Spawned(handle(11))), Ok(Action::Nothing));
    manager
}

fn sorted_clients(manager: &PortguardManager) -> Vec<(u128, String)> {
    let mut list = manager.list_clients();
    list.sort();
    list
}

#[test]
fn fresh_manager_has_nothing_selected() {
    let manager = PortguardManager::new(Config::new());
    assert_eq!(manager.status(), Status::Unselected);
    assert_eq!(manager.child(), None);
    assert_eq!(manager.pending(), Pending::Idle);
    assert!(manager.list_clients().is_empty());
    assert_eq!(manager.config().last_selected(), None);
}

#[test]
fn adding_two_clients_gives_two_identifiers() {
    let mut manager = PortguardManager::new(Config::new());
    let a = manager.add_client("/bin/a".to_string());
    let b = manager.add_client("/bin/b".to_string());
    assert_ne!(a, b);
    assert_eq!(manager.status(), Status::Unselected);
    let mut expected = vec![(a, "/bin/a".to_string()), (b, "/bin/b".to_string())];
    expected.sort();
    assert_eq!(sorted_clients(&manager), expected);
}

#[test]
fn new_identifiers_are_random_uuids() {
    let mut manager = PortguardManager::new(Config::new());
    let id = manager.add_client("/bin/a".to_string());
    assert_eq!((id >> 76) & 0xf, 4);
    assert_eq!((id >> 62) & 0x3, 2);
    assert_eq!(manager.config().path_of(id), Some("/bin/a".to_string()));
}

#[test]
fn adding_under_a_known_identifier_replaces_the_path() {
    let mut manager = two_clients();
    manager.add_client_with_id(ID_A, "/opt/a".to_string());
    assert_eq!(
        sorted_clients(&manager),
        vec![(ID_B, "/bin/b".to_string()), (ID_A, "/opt/a".to_string())]
    );
}

#[test]
fn select_from_unselected_stops_on_the_client() {
    let mut manager = two_clients();
    assert_eq!(manager.select_client(ID_A), Ok(Action::Nothing));
    assert_eq!(manager.status(), Status::Stopped(ID_A));
    assert_eq!(manager.config().last_selected(), Some(ID_A));
    assert_eq!(manager.child(), None);
}

#[test]
fn select_from_stopped_moves_the_selection() {
    let mut manager = two_clients();
    assert_eq!(manager.select_client(ID_A), Ok(Action::Nothing));
    assert_eq!(manager.select_client(ID_A), Ok(Action::Nothing));
    assert_eq!(manager.status(), Status::Stopped(ID_A));
    assert_eq!(manager.select_client(ID_B), Ok(Action::Nothing));
    assert_eq!(manager.status(), Status::Stopped(ID_B));
    assert_eq!(manager.config().last_selected(), Some(ID_B));
}

#[test]
fn select_accepts_an_unregistered_identifier() {
    let mut manager = two_clients();
    assert!(manager.can_select(7));
    assert_eq!(manager.select_client(7), Ok(Action::Nothing));
    assert_eq!(manager.status(), Status::Stopped(7));
    assert_eq!(manager.config().last_selected(), Some(7));
    assert!(!manager.can_start());
}

#[test]
fn start_then_stop() {
    let mut manager = two_clients();
    assert_eq!(manager.select_client(ID_A), Ok(Action::Nothing));
    assert!(manager.can_start());
    assert_eq!(manager.start_background(), Ok(Action::Spawn("/bin/a".to_string())));
    assert_eq!(manager.pending(), Pending::Starting { select: false });
    assert_eq!(manager.status(), Status::Stopped(ID_A));
    assert_eq!(manager.child(), None);
    assert_eq!(manager.on_event(Event::Spawned(handle(11))), Ok(Action::Nothing));
    assert_eq!(manager.status(), Status::Running(ID_A));
    assert_eq!(manager.child(), Some(handle(11)));
    assert_eq!(manager.pending(), Pending::Idle);

    assert_eq!(manager.stop_background(), Ok(Action::Kill(handle(11))));
    assert_eq!(manager.pending(), Pending::Stopping { next: None });
    assert_eq!(manager.status(), Status::Running(ID_A));
    assert_eq!(manager.child(), Some(handle(11)));
    assert_eq!(manager.on_event(Event::Killed), Ok(Action::Nothing));
    assert_eq!(manager.status(), Status::Stopped(ID_A));
    assert_eq!(manager.child(), None);
    assert_eq!(manager.pending(), Pending::Idle);
}

#[test]
fn start_that_fails_leaves_the_client_stopped() {
    let mut manager = two_clients();
    assert_eq!(manager.select_client(ID_A), Ok(Action::Nothing));
    assert_eq!(manager.start_background(), Ok(Action::Spawn("/bin/a".to_string())));
    assert_eq!(
        manager.on_event(Event::SpawnFailed("No such file or directory".to_string())),
        Err(ManagerError::Spawn("No such file or directory".to_string()))
    );
    assert_eq!(manager.status(), Status::Stopped(ID_A));
    assert_eq!(manager.child(), None);
    assert_eq!(manager.pending(), Pending::Idle);
}

#[test]
fn start_is_refused_unless_a_client_is_stopped() {
    let mut manager = two_clients();
    assert_eq!(manager.start_background(), Err(ManagerError::OtherIsRunning));
    assert_eq!(manager.status(), Status::Unselected);
    assert_eq!(manager.pending(), Pending::Idle);

    let mut manager = running_a();
    assert_eq!(manager.start_background(), Err(ManagerError::OtherIsRunning));
    assert_eq!(manager.status(), Status::Running(ID_A));
    assert_eq!(manager.child(), Some(handle(11)));
    assert_eq!(manager.pending(), Pending::Idle);
}

#[test]
fn stop_when_stopped_succeeds_twice_without_change() {
    let mut manager = two_clients();
    assert_eq!(manager.stop_background(), Ok(Action::Nothing));
    assert_eq!(manager.stop_background(), Ok(Action::Nothing));
    assert_eq!(manager.status(), Status::Unselected);

    assert_eq!(manager.select_client(ID_A), Ok(Action::Nothing));
    assert_eq!(manager.stop_background(), Ok(Action::Nothing));
    assert_eq!(manager.stop_background(), Ok(Action::Nothing));
    assert_eq!(manager.status(), Status::Stopped(ID_A));
    assert_eq!(manager.child(), None);
    assert_eq!(manager.pending(), Pending::Idle);
    assert_eq!(manager.config().last_selected(), Some(ID_A));
    assert_eq!(
        sorted_clients(&manager),
        vec![(ID_B, "/bin/b".to_string()), (ID_A, "/bin/a".to_string())]
    );
}

#[test]
fn stop_that_fails_keeps_the_process() {
    let mut manager = running_a();
    assert_eq!(manager.stop_background(), Ok(Action::Kill(handle(11))));
    assert_eq!(
        manager.on_event(Event::KillFailed("No such process".to_string())),
        Err(ManagerError::Kill("No such process".to_string()))
    );
    assert_eq!(manager.status(), Status::Running(ID_A));
    assert_eq!(manager.child(), Some(handle(11)));
    assert_eq!(manager.pending(), Pending::Idle);
    assert_eq!(manager.stop_background(), Ok(Action::Kill(handle(11))));
    assert_eq!(manager.on_event(Event::Killed), Ok(Action::Nothing));
    assert_eq!(manager.status(), Status::Stopped(ID_A));
}

#[test]
fn select_of_the_running_client_changes_nothing() {
    let mut manager = running_a();
    assert_eq!(manager.select_client(ID_A), Ok(Action::Nothing));
    assert_eq!(manager.status(), Status::Running(ID_A));
    assert_eq!(manager.child(), Some(handle(11)));
    assert_eq!(manager.config().last_selected(), Some(ID_A));
}

#[test]
fn switchover_to_a_client_that_starts() {
    let mut manager = running_a();
    assert!(manager.can_select(ID_B));
    assert_eq!(manager.select_client(ID_B), Ok(Action::Kill(handle(11))));
    assert_eq!(manager.pending(), Pending::Stopping { next: Some(ID_B) });
    assert_eq!(manager.config().last_selected(), Some(ID_A));
    assert_eq!(manager.on_event(Event::Killed), Ok(Action::Spawn("/bin/b".to_string())));
    assert_eq!(manager.status(), Status::Stopped(ID_B));
    assert_eq!(manager.child(), None);
    assert_eq!(manager.pending(), Pending::Starting { select: true });
    assert_eq!(manager.on_event(Event::Spawned(handle(12))), Ok(Action::Nothing));
    assert_eq!(manager.status(), Status::Running(ID_B));
    assert_eq!(manager.child(), Some(handle(12)));
    assert_eq!(manager.pending(), Pending::Idle);
    assert_eq!(manager.config().last_selected(), Some(ID_B));
}

#[test]
fn switchover_to_a_client_that_fails_to_start() {
    let mut manager = running_a();
    assert_eq!(manager.select_client(ID_B), Ok(Action::Kill(handle(11))));
    assert_eq!(manager.on_event(Event::Killed), Ok(Action::Spawn("/bin/b".to_string())));
    assert_eq!(
        manager.on_event(Event::SpawnFailed("Permission denied".to_string())),
        Err(ManagerError::Spawn("Permission denied".to_string()))
    );
    assert_eq!(manager.status(), Status::Stopped(ID_B));
    assert_eq!(manager.child(), None);
    assert_eq!(manager.pending(), Pending::Idle);
    assert_eq!(manager.config().last_selected(), Some(ID_A));
}

#[test]
fn switchover_whose_termination_fails_changes_nothing() {
    let mut manager = running_a();
    assert_eq!(manager.select_client(ID_B), Ok(Action::Kill(handle(11))));
    assert_eq!(
        manager.on_event(Event::KillFailed("Operation not permitted".to_string())),
        Err(ManagerError::Kill("Operation not permitted".to_string()))
    );
    assert_eq!(manager.status(), Status::Running(ID_A));
    assert_eq!(manager.child(), Some(handle(11)));
    assert_eq!(manager.pending(), Pending::Idle);
    assert_eq!(manager.config().last_selected(), Some(ID_A));
}

#[test]
fn switchover_needs_a_registered_client() {
    let manager = running_a();
    assert!(!manager.can_select(7));
    assert!(manager.can_select(ID_A));
    assert!(manager.can_select(ID_B));
}

#[test]
fn removing_the_running_client_is_refused() {
    let mut manager = running_a();
    assert_eq!(manager.remove_client(ID_A), Err(ManagerError::ClientIsRunning));
    assert_eq!(manager.status(), Status::Running(ID_A));
    assert_eq!(manager.child(), Some(handle(11)));
    assert_eq!(manager.config().last_selected(), Some(ID_A));
    assert_eq!(
        sorted_clients(&manager),
        vec![(ID_B, "/bin/b".to_string()), (ID_A, "/bin/a".to_string())]
    );
}

#[test]
fn removing_another_client_while_one_runs() {
    let mut manager = running_a();
    assert_eq!(manager.remove_client(ID_B), Ok(()));
    assert_eq!(manager.status(), Status::Running(ID_A));
    assert_eq!(manager.child(), Some(handle(11)));
    assert_eq!(manager.config().last_selected(), Some(ID_A));
    assert_eq!(sorted_clients(&manager), vec![(ID_A, "/bin/a".to_string())]);
}

#[test]
fn removing_the_stopped_active_client_unselects() {
    let mut manager = two_clients();
    assert_eq!(manager.select_client(ID_A), Ok(Action::Nothing));
    assert_eq!(manager.remove_client(ID_A), Ok(()));
    assert_eq!(manager.status(), Status::Unselected);
    assert_eq!(manager.config().last_selected(), None);
    assert_eq!(sorted_clients(&manager), vec![(ID_B, "/bin/b".to_string())]);
}

#[test]
fn removing_another_client_while_one_is_stopped() {
    let mut manager = two_clients();
    assert_eq!(manager.select_client(ID_A), Ok(Action::Nothing));
    assert_eq!(manager.remove_client(ID_B), Ok(()));
    assert_eq!(manager.status(), Status::Stopped(ID_A));
    assert_eq!(manager.config().last_selected(), Some(ID_A));
    assert_eq!(sorted_clients(&manager), vec![(ID_A, "/bin/a".to_string())]);
}

#[test]
fn removing_with_nothing_selected() {
    let mut manager = two_clients();
    assert_eq!(manager.remove_client(ID_A), Ok(()));
    assert_eq!(manager.remove_client(7), Ok(()));
    assert_eq!(manager.status(), Status::Unselected);
    assert_eq!(sorted_clients(&manager), vec![(ID_B, "/bin/b".to_string())]);
}

#[test]
fn removing_the_last_selected_client_clears_the_record() {
    let mut manager = running_a();
    assert_eq!(manager.select_client(ID_B), Ok(Action::Kill(handle(11))));
    assert_eq!(manager.on_event(Event::Killed), Ok(Action::Spawn("/bin/b".to_string())));
    assert_eq!(
        manager.on_event(Event::SpawnFailed("Permission denied".to_string())),
        Err(ManagerError::Spawn("Permission denied".to_string()))
    );
    assert_eq!(manager.status(), Status::Stopped(ID_B));
    assert_eq!(manager.config().last_selected(), Some(ID_A));
    assert_eq!(manager.remove_client(ID_A), Ok(()));
    assert_eq!(manager.status(), Status::Stopped(ID_B));
    assert_eq!(manager.config().last_selected(), None);
}

#[test]
fn operations_wait_for_the_report() {
    let mut manager = two_clients();
    assert_eq!(manager.select_client(ID_A), Ok(Action::Nothing));
    assert_eq!(manager.start_background(), Ok(Action::Spawn("/bin/a".to_string())));
    assert_eq!(manager.start_background(), Err(ManagerError::Busy));
    assert_eq!(manager.stop_background(), Err(ManagerError::Busy));
    assert_eq!(manager.select_client(ID_B), Err(ManagerError::Busy));
    assert_eq!(manager.remove_client(ID_B), Err(ManagerError::Busy));
    assert_eq!(manager.init(), Action::Nothing);
    assert_eq!(manager.status(), Status::Stopped(ID_A));
    assert_eq!(manager.pending(), Pending::Starting { select: false });
    assert_eq!(manager.list_clients().len(), 2);
    let added = manager.add_client("/bin/c".to_string());
    assert_eq!(manager.config().path_of(added), Some("/bin/c".to_string()));
    assert_eq!(manager.pending(), Pending::Starting { select: false });
    assert_eq!(manager.on_event(Event::Spawned(handle(5))), Ok(Action::Nothing));
    assert_eq!(manager.status(), Status::Running(ID_A));
}

#[test]
fn reports_that_answer_nothing_are_refused() {
    let mut manager = two_clients();
    assert_eq!(manager.on_event(Event::Spawned(handle(1))), Err(ManagerError::Unexpected));
    assert_eq!(manager.on_event(Event::Killed), Err(ManagerError::Unexpected));
    assert_eq!(
        manager.on_event(Event::SpawnFailed("x".to_string())),
        Err(ManagerError::Unexpected)
    );
    assert_eq!(manager.on_event(Event::KillFailed("x".to_string())), Err(ManagerError::Unexpected));
    assert_eq!(manager.status(), Status::Unselected);
    assert_eq!(manager.child(), None);

    let mut manager = running_a();
    assert_eq!(manager.stop_background(), Ok(Action::Kill(handle(11))));
    assert_eq!(manager.on_event(Event::Spawned(handle(2))), Err(ManagerError::Unexpected));
    assert_eq!(manager.status(), Status::Running(ID_A));
    assert_eq!(manager.child(), Some(handle(11)));
    assert_eq!(manager.pending(), Pending::Stopping { next: None });

    let mut manager = two_clients();
    assert_eq!(manager.select_client(ID_A), Ok(Action::Nothing));
    assert_eq!(manager.start_background(), Ok(Action::Spawn("/bin/a".to_string())));
    assert_eq!(manager.on_event(Event::Killed), Err(ManagerError::Unexpected));
    assert_eq!(manager.pending(), Pending::Starting { select: false });
    assert_eq!(manager.status(), Status::Stopped(ID_A));
}

#[test]
fn handle_is_held_exactly_while_running() {
    let mut manager = two_clients();
    let held = |m: &PortguardManager| m.child().is_some();
    let running = |m: &PortguardManager| matches!(m.status(), Status::Running(_));
    assert_eq!(held(&manager), running(&manager));
    assert_eq!(manager.select_client(ID_A), Ok(Action::Nothing));
    assert_eq!(held(&manager), running(&manager));
    assert_eq!(manager.start_background(), Ok(Action::Spawn("/bin/a".to_string())));
    assert_eq!(held(&manager), running(&manager));
    assert_eq!(manager.on_event(Event::Spawned(handle(3))), Ok(Action::Nothing));
    assert_eq!(held(&manager), running(&manager));
    assert!(held(&manager));
    assert_eq!(manager.select_client(ID_B), Ok(Action::Kill(handle(3))));
    assert_eq!(held(&manager), running(&manager));
    assert_eq!(manager.on_event(Event::Killed), Ok(Action::Spawn("/bin/b".to_string())));
    assert_eq!(held(&manager), running(&manager));
    assert!(!held(&manager));
    assert_eq!(manager.on_event(Event::Spawned(handle(4))), Ok(Action::Nothing));
    assert_eq!(held(&manager), running(&manager));
    assert_eq!(manager.child(), Some(handle(4)));
    assert_eq!(manager.stop_background(), Ok(Action::Kill(handle(4))));
    assert_eq!(manager.on_event(Event::Killed), Ok(Action::Nothing));
    assert_eq!(held(&manager), running(&manager));
    assert!(!held(&manager));
}

#[test]
fn a_launch_is_asked_for_only_while_no_process_is_held() {
    let mut manager = running_a();
    assert_eq!(manager.start_background(), Err(ManagerError::OtherIsRunning));
    assert_eq!(manager.child(), Some(handle(11)));
    assert_eq!(manager.select_client(ID_B), Ok(Action::Kill(handle(11))));
    assert_eq!(manager.child(), Some(handle(11)));
    assert_eq!(manager.on_event(Event::Spawned(handle(12))), Err(ManagerError::Unexpected));
    assert_eq!(manager.child(), Some(handle(11)));
    assert_eq!(manager.on_event(Event::Killed), Ok(Action::Spawn("/bin/b".to_string())));
    assert_eq!(manager.child(), None);
    assert_eq!(manager.on_event(Event::Spawned(handle(12))), Ok(Action::Nothing));
    assert_eq!(manager.child(), Some(handle(12)));
    assert_eq!(manager.on_event(Event::Spawned(handle(13))), Err(ManagerError::Unexpected));
    assert_eq!(manager.child(), Some(handle(12)));
}

#[test]
fn init_starts_over_from_a_stopped_client() {
    let mut manager = running_a();
    assert!(manager.can_init());
    assert_eq!(manager.init(), Action::Spawn("/bin/a".to_string()));
    assert_eq!(manager.status(), Status::Stopped(ID_A));
    assert_eq!(manager.child(), None);
    assert_eq!(manager.pending(), Pending::Starting { select: false });
}

#[test]
fn init_without_a_last_selection_does_nothing() {
    let mut manager = two_clients();
    assert!(manager.can_init());
    assert_eq!(manager.init(), Action::Nothing);
    assert_eq!(manager.status(), Status::Unselected);
    assert_eq!(manager.pending(), Pending::Idle);
}

#[test]
fn restart_resumes_the_last_selection() {
    let mut first = two_clients();
    assert_eq!(first.select_client(ID_A), Ok(Action::Nothing));
    let saved = ConfigRecord::of(first.config());
    assert_eq!(saved.last_selected, Some("a1a2a3a4-b1b2-41c2-91d2-d3d4d5d6d7d8".to_string()));

    let mut second = PortguardManager::new(saved.read().unwrap());
    assert_eq!(second.status(), Status::Unselected);
    assert!(second.can_init());
    assert_eq!(second.init(), Action::Spawn("/bin/a".to_string()));
    assert_eq!(second.status(), Status::Stopped(ID_A));
    assert_eq!(second.on_event(Event::Spawned(handle(21))), Ok(Action::Nothing));
    assert_eq!(second.status(), Status::Running(ID_A));
    assert_eq!(second.child(), Some(handle(21)));
    assert_eq!(second.config().last_selected(), Some(ID_A));
}

#[test]
fn restart_survives_a_client_that_no_longer_starts() {
    let entries = vec![(ID_A, "/gone/a".to_string())];
    let mut manager = PortguardManager::new(Config::from_entries(&entries, Some(ID_A)));
    assert_eq!(manager.init(), Action::Spawn("/gone/a".to_string()));
    assert_eq!(
        manager.on_event(Event::SpawnFailed("No such file or directory".to_string())),
        Err(ManagerError::Spawn("No such file or directory".to_string()))
    );
    assert_eq!(manager.status(), Status::Stopped(ID_A));
    assert_eq!(manager.child(), None);
    assert_eq!(manager.pending(), Pending::Idle);
}

#[test]
fn init_needs_the_last_selection_to_be_registered() {
    let entries = vec![(ID_A, "/bin/a".to_string())];
    let manager = PortguardManager::new(Config::from_entries(&entries, Some(ID_B)));
    assert!(!manager.can_init());
}

#[test]
fn error_messages() {
    assert_eq!(ManagerError::ClientIsRunning.message(), "Client is Running");
    assert_eq!(ManagerError::OtherIsRunning.message(), "Other Is Running");
    assert_eq!(ManagerError::Busy.message(), "Another operation is in progress");
    assert_eq!(ManagerError::Unexpected.message(), "No operation awaits this report");
    assert_eq!(ManagerError::Spawn("No such file".to_string()).message(), "No such file");
    assert_eq!(ManagerError::Kill("No such process".to_string()).message(), "No such process");
}

#[test]
fn active_client_of_a_status() {
    assert_eq!(Status::Running(ID_A).active_client(), Some(ID_A));
    assert_eq!(Status::Stopped(ID_B).active_client(), Some(ID_B));
    assert_eq!(Status::Unselected.active_client(), None);
}
