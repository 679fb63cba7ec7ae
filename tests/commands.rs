use observer_core::commands::{
    add_toggle_command, broadcast_command, command_message, get_commands, post_commands,
    CommandState, CommandsRequest,
};

fn pending(bus: &CommandState) -> Vec<(String, String)> {
    let mut v = bus.list_pending();
    v.sort();
    v
}

#[test]
fn issue_then_list_then_acknowledge() {
    let mut bus = CommandState::new();
    bus.issue("agent-1".to_string(), "toggle".to_string());
    assert_eq!(pending(&bus), vec![("agent-1".to_string(), "toggle".to_string())]);
    bus.acknowledge(&vec!["agent-1".to_string()]);
    assert!(pending(&bus).is_empty());
}

#[test]
fn issue_replaces_the_action_of_a_target() {
    let mut bus = CommandState::new();
    bus.issue("a".to_string(), "start".to_string());
    bus.issue("b".to_string(), "toggle".to_string());
    bus.issue("a".to_string(), "stop".to_string());
    assert_eq!(
        pending(&bus),
        vec![
            ("a".to_string(), "stop".to_string()),
            ("b".to_string(), "toggle".to_string())
        ]
    );
}

#[test]
fn acknowledging_unknown_or_twice_is_harmless() {
    let mut bus = CommandState::new();
    bus.issue("a".to_string(), "toggle".to_string());
    bus.acknowledge(&vec!["zzz".to_string()]);
    assert_eq!(pending(&bus).len(), 1);
    bus.acknowledge(&vec!["a".to_string(), "a".to_string()]);
    bus.acknowledge(&vec!["a".to_string()]);
    assert!(pending(&bus).is_empty());
}

#[test]
fn acknowledge_only_named_targets() {
    let mut bus = CommandState::new();
    bus.issue("a".to_string(), "toggle".to_string());
    bus.issue("b".to_string(), "toggle".to_string());
    bus.issue("c".to_string(), "toggle".to_string());
    post_commands(&mut bus, &CommandsRequest { completed: vec!["a".to_string(), "c".to_string()] });
    let r = get_commands(&bus);
    assert_eq!(r.commands, vec![("b".to_string(), "toggle".to_string())]);
}

#[test]
fn subscriber_before_issue_gets_exactly_one_event() {
    let mut bus = CommandState::new();
    let mut rx = bus.subscribe();
    bus.issue("agent-7".to_string(), "toggle".to_string());
    let ev = rx.try_recv().unwrap();
    assert_eq!(ev.message_type, "command");
    assert_eq!(ev.agent_id, "agent-7");
    assert_eq!(ev.action, "toggle");
    assert!(rx.try_recv().is_err());
}

#[test]
fn subscriber_after_issue_gets_nothing() {
    let mut bus = CommandState::new();
    bus.issue("agent-7".to_string(), "toggle".to_string());
    let mut rx = bus.subscribe();
    assert!(rx.try_recv().is_err());
    bus.issue("agent-8".to_string(), "toggle".to_string());
    assert_eq!(rx.try_recv().unwrap().agent_id, "agent-8");
}

#[test]
fn every_subscriber_gets_its_own_copy() {
    let mut bus = CommandState::new();
    let mut a = bus.subscribe();
    let mut b = bus.subscribe();
    add_toggle_command(&mut bus, "x".to_string());
    assert_eq!(a.try_recv().unwrap().agent_id, "x");
    assert_eq!(b.try_recv().unwrap().agent_id, "x");
    assert_eq!(pending(&bus), vec![("x".to_string(), "toggle".to_string())]);
}

#[test]
fn publish_without_subscribers_is_a_no_op() {
    let bus = CommandState::new();
    assert_eq!(broadcast_command(&bus, "a".to_string(), "toggle".to_string()), 0);
    assert!(bus.list_pending().is_empty());
    let _rx = bus.subscribe();
    assert_eq!(broadcast_command(&bus, "a".to_string(), "toggle".to_string()), 1);
    assert!(bus.list_pending().is_empty());
}

#[test]
fn command_message_is_of_kind_command() {
    let m = command_message("t".to_string(), "go".to_string());
    assert_eq!(m.message_type, "command");
    assert_eq!(m.agent_id, "t");
    assert_eq!(m.action, "go");
}
