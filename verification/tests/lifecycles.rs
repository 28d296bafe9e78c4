use rust_clipboard_uploader::lifecycle::{
    acquire_instance, attach_context, hear_message, is_show_message, launch_action,
    no_answer_text, no_requests, request_show, rotates_log, show_bytes, socket_name, take_show_request, wake_ui, Launch, LaunchAction, LaunchEvent,
    MAX_KNOCKS, MAX_LOG_BYTES,
};

#[test]
fn a_request_waits_for_the_window() {
    let mut requests = no_requests();
    assert_eq!(wake_ui(&requests), None);
    assert_eq!(request_show(&mut requests), None);
    assert_eq!(attach_context(&mut requests, 3), Some(3));
    assert_eq!(wake_ui(&requests), Some(3));
    assert!(take_show_request(&mut requests));
    assert!(!take_show_request(&mut requests));
    assert_eq!(request_show(&mut requests), Some(3));
    assert_eq!(request_show(&mut requests), Some(3));
    assert!(take_show_request(&mut requests));
    assert!(!take_show_request(&mut requests));
}

#[test]
fn a_window_without_requests_sleeps() {
    let mut requests = no_requests();
    assert_eq!(attach_context(&mut requests, 0), None);
    assert!(!take_show_request(&mut requests));
}

#[test]
fn the_first_window_stays_the_one_to_wake() {
    let mut requests = no_requests();
    assert_eq!(attach_context(&mut requests, 0), None);
    assert_eq!(attach_context(&mut requests, 1), None);
    assert_eq!(request_show(&mut requests), Some(0));
    assert_eq!(attach_context(&mut requests, 2), Some(0));
    assert_eq!(wake_ui(&requests), Some(0));
    assert!(take_show_request(&mut requests));
}

#[test]
fn stages_lead_to_actions() {
    assert_eq!(launch_action(Launch::Locking), LaunchAction::TryLock);
    assert_eq!(launch_action(Launch::Knocking(7)), LaunchAction::Knock);
    assert_eq!(launch_action(Launch::Serving), LaunchAction::Serve);
    assert_eq!(launch_action(Launch::HandedOver), LaunchAction::Leave);
    assert_eq!(launch_action(Launch::LockFailed), LaunchAction::FailLock);
    assert_eq!(launch_action(Launch::NoAnswer), LaunchAction::FailAnswer);
}

#[test]
fn a_second_start_never_serves_beside_the_first() {
    let first = acquire_instance(Launch::Locking, LaunchEvent::Locked);
    assert_eq!(launch_action(first), LaunchAction::Serve);
    let second = acquire_instance(Launch::Locking, LaunchEvent::LockBusy);
    let answered = acquire_instance(second, LaunchEvent::Answered);
    assert_eq!(launch_action(answered), LaunchAction::Leave);
    assert_eq!(acquire_instance(first, LaunchEvent::LockBusy), first);
}

#[test]
fn the_first_process_serves() {
    assert_eq!(acquire_instance(Launch::Locking, LaunchEvent::Locked), Launch::Serving);
    assert_eq!(acquire_instance(Launch::Locking, LaunchEvent::LockError), Launch::LockFailed);
    assert_eq!(acquire_instance(Launch::Serving, LaunchEvent::LockBusy), Launch::Serving);
}

#[test]
fn the_second_process_knocks_twenty_times() {
    let mut state = acquire_instance(Launch::Locking, LaunchEvent::LockBusy);
    for n in 0..MAX_KNOCKS {
        assert_eq!(state, Launch::Knocking(n));
        assert_eq!(acquire_instance(state, LaunchEvent::Answered), Launch::HandedOver);
        state = acquire_instance(state, LaunchEvent::Unanswered);
    }
    assert_eq!(MAX_KNOCKS, 20);
    assert_eq!(state, Launch::NoAnswer);
    assert_eq!(acquire_instance(state, LaunchEvent::Locked), Launch::NoAnswer);
}

#[test]
fn the_socket_has_a_name() {
    assert_eq!(socket_name(0), "rcu-0000000000000000.sock");
    assert_eq!(socket_name(0xdeadbeef), "rcu-00000000deadbeef.sock");
    assert_eq!(socket_name(u64::MAX), "rcu-ffffffffffffffff.sock");
}

#[test]
fn one_message_shows_the_window() {
    assert!(is_show_message(b"show"));
    assert!(!is_show_message(b"shoW"));
    assert!(!is_show_message(b"sho"));
    assert!(!is_show_message(b"shows"));
}

#[test]
fn long_logs_are_set_aside() {
    assert!(!rotates_log(None));
    assert!(!rotates_log(Some(MAX_LOG_BYTES)));
    assert!(rotates_log(Some(5 * 1024 * 1024 + 1)));
}

#[test]
fn a_knock_raises_the_request() {
    assert_eq!(show_bytes(), b"show".to_vec());
    let mut requests = no_requests();
    assert_eq!(hear_message(&mut requests, b"hide"), None);
    assert!(!take_show_request(&mut requests));
    assert_eq!(hear_message(&mut requests, &show_bytes()), None);
    assert_eq!(attach_context(&mut requests, 4), Some(4));
    assert!(take_show_request(&mut requests));
    assert_eq!(hear_message(&mut requests, &show_bytes()), Some(4));
    assert_eq!(hear_message(&mut requests, b"show!"), None);
    assert!(take_show_request(&mut requests));
}

#[test]
fn a_second_process_says_that_nobody_answers() {
    assert_eq!(no_answer_text(), "应用已经运行，但暂时无法恢复窗口。请从菜单栏打开应用。");
}
