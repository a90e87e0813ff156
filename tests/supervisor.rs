use automan::banner::{startup_banner, LogLevel};
use automan::config::{AppConfig, MatrixConfig};
use automan::errors::OOBError;
use automan::setup_matrix;
use automan::supervisor::{
    plan_registration, registration_for, JoinEvent, SlotList, Supervisor, SupervisorAction,
    TaskId,
};
use automan::MAX_THREADS;

#[test]
fn registration_policy_by_occupancy() {
    assert_eq!(registration_for(0), Ok(Some(TaskId::Discord)));
    assert_eq!(registration_for(1), Ok(Some(TaskId::Matrix)));
    assert_eq!(registration_for(2), Ok(None));
    assert_eq!(registration_for(MAX_THREADS), Err(OOBError));
    assert_eq!(registration_for(7), Err(OOBError));
}

#[test]
fn two_tasks_register_in_order() {
    assert_eq!(MAX_THREADS, 3);
    let mut slots = SlotList::new();
    assert_eq!(slots.len(), 0);
    assert_eq!(slots.register(), Ok(()));
    assert_eq!(slots.len(), 1);
    assert_eq!(slots.get(0), TaskId::Discord);
    assert_eq!(slots.register(), Ok(()));
    assert_eq!(slots.len(), 2);
    assert_eq!(slots.get(1), TaskId::Matrix);
    let planned = plan_registration().unwrap();
    assert_eq!(planned.len(), 2);
    assert_eq!(planned.get(0), TaskId::Discord);
    assert_eq!(planned.get(1), TaskId::Matrix);
}

#[test]
fn third_registration_is_a_silent_no_op() {
    let mut slots = plan_registration().unwrap();
    assert_eq!(slots.register(), Ok(()));
    assert_eq!(slots.len(), 2);
    assert_eq!(slots.get(0), TaskId::Discord);
    assert_eq!(slots.get(1), TaskId::Matrix);
}

#[test]
fn full_list_refuses_and_is_unchanged() {
    let mut slots =
        SlotList::from_slots(vec![TaskId::Discord, TaskId::Matrix, TaskId::Matrix]).unwrap();
    assert_eq!(slots.register(), Err(OOBError));
    assert_eq!(slots.len(), 3);
    assert_eq!(slots.get(0), TaskId::Discord);
    assert_eq!(slots.get(1), TaskId::Matrix);
    assert_eq!(slots.get(2), TaskId::Matrix);
}

#[test]
fn over_capacity_list_is_refused() {
    let r = SlotList::from_slots(vec![TaskId::Discord; 4]);
    assert!(matches!(r, Err(OOBError)));
}

#[test]
fn both_tasks_succeed() {
    let mut sup = Supervisor::new(plan_registration().unwrap());
    assert_eq!(sup.step(JoinEvent::Started), SupervisorAction::Await(TaskId::Discord));
    assert_eq!(sup.step(JoinEvent::Joined), SupervisorAction::Await(TaskId::Matrix));
    assert_eq!(sup.step(JoinEvent::Joined), SupervisorAction::Succeed);
    assert_eq!(sup.step(JoinEvent::Joined), SupervisorAction::Succeed);
}

#[test]
fn first_join_failure_ends_the_wait() {
    let mut sup = Supervisor::new(plan_registration().unwrap());
    assert_eq!(sup.step(JoinEvent::Started), SupervisorAction::Await(TaskId::Discord));
    let failed = sup.step(JoinEvent::JoinFailed);
    match failed {
        SupervisorAction::Fail(e) => assert_eq!(
            e.to_string(),
            "error occurred while attempting to join thread"
        ),
        other => panic!("unexpected action {:?}", other),
    }
    assert!(matches!(sup.step(JoinEvent::Joined), SupervisorAction::Fail(_)));
}

#[test]
fn second_join_failure_fails_too() {
    let mut sup = Supervisor::new(plan_registration().unwrap());
    assert_eq!(sup.step(JoinEvent::Started), SupervisorAction::Await(TaskId::Discord));
    assert_eq!(sup.step(JoinEvent::Joined), SupervisorAction::Await(TaskId::Matrix));
    assert!(matches!(sup.step(JoinEvent::JoinFailed), SupervisorAction::Fail(_)));
}

#[test]
fn empty_slot_list_succeeds_at_once() {
    let mut sup = Supervisor::new(SlotList::new());
    assert_eq!(sup.step(JoinEvent::Started), SupervisorAction::Succeed);
}

#[test]
fn banner_lines_in_order() {
    let config = AppConfig::new(String::from("817894435299262516"));
    let lines = startup_banner(&config.id());
    let expected = [
        (LogLevel::Info, "Application: MONITOR"),
        (LogLevel::Info, "Version: v0.1.0"),
        (LogLevel::Info, "Support: AUTOMAN-0.0.1"),
        (LogLevel::Info, "Application ID: 817894435299262516"),
        (LogLevel::Warn, "---"),
        (
            LogLevel::Warn,
            "PLEASE NOTE THAT THIS IS A VERY EARLY PRE-RELEASE VERSION OF THE PROGRAM.",
        ),
        (
            LogLevel::Warn,
            "ALMOST EVERYTHING IN THIS APPLICATION IS SUBJECT TO CHANGE IN THE FUTURE.",
        ),
        (LogLevel::Warn, "---"),
    ];
    assert_eq!(lines.len(), expected.len());
    for (line, (level, text)) in lines.iter().zip(expected.iter()) {
        assert_eq!(line.level, *level);
        assert_eq!(line.text, *text);
    }
}

#[test]
fn matrix_setup_keeps_the_account() {
    let config = MatrixConfig {
        user_id: String::from("@monitor:example.org"),
    };
    let bot = setup_matrix(&config).unwrap();
    assert_eq!(bot.user_id(), "@monitor:example.org");
}
