use minidumper_child::client::{start, ConnectPhase};
use minidumper_child::server::{DumpArtifact, DumpStep, LoopAction, exit_code};
use minidumper_child::session::SessionId;
use minidumper_child::{
    MinidumperChild, SpawnPlan, DEFAULT_CLIENT_CONNECT_TIMEOUT, DEFAULT_CRASHES_DIR_NAME,
    DEFAULT_SERVER_ARG, DEFAULT_SERVER_STALE_TIMEOUT,
};
use std::cell::RefCell;
use std::path::{Path, PathBuf};
use std::rc::Rc;

type Child = MinidumperChild<u8, u16>;

fn args(list: &[&str]) -> Vec<String> {
    list.iter().map(|arg| arg.to_string()).collect()
}

#[test]
fn defaults_are_as_documented() {
    assert_eq!(DEFAULT_SERVER_STALE_TIMEOUT, 5000);
    assert_eq!(DEFAULT_CLIENT_CONNECT_TIMEOUT, 3000);
    assert_eq!(DEFAULT_SERVER_ARG, "--crash-reporter-server");
    assert_eq!(DEFAULT_CRASHES_DIR_NAME, "Crashes");
}

#[test]
fn new_child_has_the_defaults() {
    let child = Child::new();
    assert_eq!(child.crashes_dir(), None);
    assert_eq!(child.server_stale_timeout(), 5000);
    assert_eq!(child.client_connect_timeout(), 3000);
    assert_eq!(child.server_arg(), "--crash-reporter-server");
    assert!(!child.has_callback());
}

#[test]
fn default_child_equals_new_child() {
    let child = Child::default();
    assert_eq!(child.crashes_dir(), None);
    assert_eq!(child.server_stale_timeout(), 5000);
    assert_eq!(child.client_connect_timeout(), 3000);
    assert_eq!(child.server_arg(), "--crash-reporter-server");
    assert!(!child.has_callback());
}

#[test]
fn setters_change_one_setting_each() {
    let child = Child::new().with_crashes_dir(PathBuf::from("/var/crashes"));
    assert_eq!(child.crashes_dir(), Some(&PathBuf::from("/var/crashes")));
    assert_eq!(child.server_stale_timeout(), 5000);
    let child = child.with_server_stale_timeout(100);
    assert_eq!(child.server_stale_timeout(), 100);
    assert_eq!(child.client_connect_timeout(), 3000);
    let child = child.with_client_connect_timeout(250);
    assert_eq!(child.client_connect_timeout(), 250);
    assert_eq!(child.server_stale_timeout(), 100);
    let child = child.with_server_arg("--watchdog".to_string());
    assert_eq!(child.server_arg(), "--watchdog");
    assert_eq!(child.crashes_dir(), Some(&PathBuf::from("/var/crashes")));
    assert_eq!(child.client_connect_timeout(), 250);
    assert!(!child.has_callback());
}

#[test]
fn either_callback_makes_the_child_ready() {
    assert!(Child::new().on_minidump(1).has_callback());
    assert!(Child::new().on_message(2).has_callback());
    assert!(Child::new().on_minidump(1).on_message(2).has_callback());
}

#[test]
fn child_without_callback_is_not_ready_to_spawn() {
    let child = Child::new()
        .with_crashes_dir(PathBuf::from("dir"))
        .with_server_stale_timeout(1)
        .with_client_connect_timeout(2)
        .with_server_arg("--x".to_string());
    assert!(!child.has_callback());
}

#[test]
fn application_plans_to_launch_its_supervisor() {
    let child = Child::new().on_minidump(1);
    let id = SessionId(0xa1a2a3a4b1b2c1c2d1d2d3d4d5d6d7d8);
    let launch = match child.spawn_in_session(&args(&["app", "--verbose"]), id) {
        SpawnPlan::Monitor(launch) => launch,
        SpawnPlan::Supervise(_) => panic!("no argument is marked"),
    };
    assert_eq!(launch.socket_name, "temp-socket-a1a2a3a4b1b2c1c2d1d2d3d4d5d6d7d8");
    assert_eq!(
        launch.server_argument,
        "--crash-reporter-server=temp-socket-a1a2a3a4b1b2c1c2d1d2d3d4d5d6d7d8"
    );
    assert_eq!(launch.connect_timeout, 3000);
    assert_eq!(launch.server_poll, 2500);
}

#[test]
fn launch_follows_the_settings() {
    let child = Child::new()
        .on_message(2)
        .with_server_arg("--watchdog".to_string())
        .with_client_connect_timeout(120)
        .with_server_stale_timeout(9);
    let launch = match child.spawn_in_session(&args(&[]), SessionId(0x1f)) {
        SpawnPlan::Monitor(launch) => launch,
        SpawnPlan::Supervise(_) => panic!("there are no arguments"),
    };
    assert_eq!(launch.socket_name, "temp-socket-0000000000000000000000000000001f");
    assert_eq!(launch.server_argument, "--watchdog=temp-socket-0000000000000000000000000000001f");
    assert_eq!(launch.connect_timeout, 120);
    assert_eq!(launch.server_poll, 4);
}

#[test]
fn spawn_draws_a_fresh_session() {
    let plan_of = || match Child::new().on_minidump(1).spawn(&args(&["app"])) {
        SpawnPlan::Monitor(launch) => launch,
        SpawnPlan::Supervise(_) => panic!("no argument is marked"),
    };
    let first = plan_of();
    let second = plan_of();
    assert_ne!(first.socket_name, second.socket_name);
    assert!(first.socket_name.starts_with("temp-socket-"));
    assert_eq!(first.socket_name.len(), 44);
    assert_eq!(first.server_argument, format!("--crash-reporter-server={}", first.socket_name));
    assert_eq!(first.connect_timeout, 3000);
    assert_eq!(first.server_poll, 2500);
}

#[test]
fn marked_process_plans_to_supervise() {
    let child = Child::new()
        .on_minidump(1)
        .on_message(2)
        .with_crashes_dir(PathBuf::from("dir"))
        .with_server_stale_timeout(700);
    let supervisor = match child.spawn(&args(&["app", "--crash-reporter-server=temp-socket-5"])) {
        SpawnPlan::Supervise(supervisor) => supervisor,
        SpawnPlan::Monitor(_) => panic!("an argument is marked"),
    };
    assert_eq!(supervisor.socket_name, "temp-socket-5");
    assert_eq!(supervisor.stale_timeout, Some(700));
    assert_eq!(supervisor.handler.crashes_dir, Some(PathBuf::from("dir")));
    assert_eq!(supervisor.handler.on_minidump, Some(1));
    assert_eq!(supervisor.handler.on_message, Some(2));
}

#[test]
fn supervisor_plan_does_not_depend_on_the_session() {
    let list = args(&["app", "--crash-reporter-server=temp-socket-5"]);
    for id in [SessionId(0), SessionId(u128::MAX)] {
        match Child::new().on_minidump(1).spawn_in_session(&list, id) {
            SpawnPlan::Supervise(supervisor) => assert_eq!(supervisor.socket_name, "temp-socket-5"),
            SpawnPlan::Monitor(_) => panic!("an argument is marked"),
        }
    }
}

#[test]
fn supervisor_joins_the_session_of_its_application() {
    let settings = || Child::new().on_minidump(1).with_server_arg("--watchdog".to_string());
    let launch = match settings().spawn(&args(&["/usr/bin/app", "--flag"])) {
        SpawnPlan::Monitor(launch) => launch,
        SpawnPlan::Supervise(_) => panic!("no argument is marked"),
    };
    let started_with = vec!["/usr/bin/app".to_string(), launch.server_argument.clone()];
    assert!(settings().is_crash_reporter_process(&started_with));
    match settings().spawn(&started_with) {
        SpawnPlan::Supervise(supervisor) => assert_eq!(supervisor.socket_name, launch.socket_name),
        SpawnPlan::Monitor(_) => panic!("the argument is marked"),
    }
}

#[test]
fn crash_is_dumped_from_end_to_end() {
    type OnMinidump = Box<dyn Fn(Vec<u8>, &Path)>;
    let received = Rc::new(RefCell::new(Vec::new()));
    let settings = || {
        let log = received.clone();
        let on_minidump: OnMinidump =
            Box::new(move |bytes, path| log.borrow_mut().push((bytes, path.to_path_buf())));
        MinidumperChild::<OnMinidump, u8>::new().on_minidump(on_minidump)
    };

    // The application starts its supervisor and connects at the first attempt.
    let launch = match settings().spawn(&args(&["app"])) {
        SpawnPlan::Monitor(launch) => launch,
        SpawnPlan::Supervise(_) => panic!("no argument is marked"),
    };
    let monitor = start(&launch.socket_name, launch.connect_timeout, 77, launch.server_poll);
    let (connector, _) = monitor.connector.step(true);
    assert_eq!(connector.phase, ConnectPhase::Connected);

    // The supervisor comes up on the same channel.
    let supervisor = match settings().spawn(&vec!["app".to_string(), launch.server_argument]) {
        SpawnPlan::Supervise(supervisor) => supervisor,
        SpawnPlan::Monitor(_) => panic!("the argument is marked"),
    };
    assert_eq!(supervisor.socket_name, monitor.socket_name);

    // The application faults: the dump is written, delivered and removed.
    let file = supervisor.handler.create_minidump_file();
    let path = PathBuf::from("Crashes").join(&file.file_name);
    let mut dump = b"MDMP".to_vec();
    dump.extend_from_slice(&[0x93, 0xa7, 0, 0]);
    let artifact = DumpArtifact { path: path.clone(), contents: Some(dump.clone()) };
    let completion = match supervisor.handler.on_minidump_created(Ok(artifact)) {
        DumpStep::Complete(completion) => completion,
        DumpStep::ReadBack { .. } => panic!("the bytes are in memory"),
    };
    let delivery = completion.delivery.expect("a callback is registered");
    assert_eq!(&delivery.bytes[..4], b"MDMP");
    (delivery.callback)(delivery.bytes, &completion.remove);
    assert_eq!(completion.remove, path);
    assert_eq!(completion.action, LoopAction::Exit);
    assert_eq!(*received.borrow(), vec![(dump, path)]);
    assert_eq!(exit_code(true), 0);
}
