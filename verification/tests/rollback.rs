use firecracker_sdk::fstack::{FStack, FStackAction};

#[test]
fn rollback_runs_in_reverse_registration_order() {
    let mut stack = FStack::new();
    stack.push_action(FStackAction::RemoveFile("a".to_string()));
    stack.push_action(FStackAction::RemoveFile("b".to_string()));
    stack.push_action(FStackAction::RemoveFile("c".to_string()));

    let actions = stack.drain();
    assert_eq!(
        actions,
        vec![
            FStackAction::RemoveFile("c".to_string()),
            FStackAction::RemoveFile("b".to_string()),
            FStackAction::RemoveFile("a".to_string()),
        ]
    );
}

#[test]
fn rollback_surrenders_each_action_exactly_once() {
    let mut stack = FStack::new();
    stack.push_action(FStackAction::TerminateProcess(1));
    stack.push_action(FStackAction::RemoveDirectory("/jail".to_string()));

    let first = stack.drain();
    assert_eq!(first.len(), 2);
    let second = stack.drain();
    assert_eq!(second.len(), 0);
}

#[test]
fn mixed_actions_keep_their_order() {
    let mut stack = FStack::new();
    stack.push_action(FStackAction::TerminateProcess(500));
    stack.push_action(FStackAction::RemoveDirectory("/jail/root".to_string()));
    stack.push_action(FStackAction::RemoveFile("/run/api.socket".to_string()));
    stack.push_action(FStackAction::TerminateProcess(123));

    let actions = stack.drain();
    assert_eq!(
        actions,
        vec![
            FStackAction::TerminateProcess(123),
            FStackAction::RemoveFile("/run/api.socket".to_string()),
            FStackAction::RemoveDirectory("/jail/root".to_string()),
            FStackAction::TerminateProcess(500),
        ]
    );
}

#[test]
fn cancel_discards_all_pending_actions() {
    let mut stack = FStack::new();
    stack.push_action(FStackAction::RemoveFile("a".to_string()));
    stack.push_action(FStackAction::TerminateProcess(7));
    // Cancelling consumes the stack: nothing can be surrendered for
    // execution afterwards.
    stack.cancel();
}
