use hyprland_activewindow::listener::{step, ListenerState, Reaction, Signal};
use hyprland_activewindow::model::Monitor;
use hyprland_activewindow::startup::{accepts_target, requested_monitor, unknown_monitor_message};

fn args(items: &[&str]) -> Vec<String> {
    items.iter().map(|s| s.to_string()).collect()
}

fn monitor(name: &str, active_workspace: i32) -> Monitor {
    Monitor { name: name.to_string(), active_workspace }
}

#[test]
fn one_argument_names_the_monitor() {
    assert_eq!(requested_monitor(&args(&["prog", "eDP-1"])), Some("eDP-1".to_string()));
    assert_eq!(requested_monitor(&args(&["prog", "_"])), Some("_".to_string()));
    assert_eq!(requested_monitor(&args(&["prog", ""])), Some(String::new()));
    assert_eq!(requested_monitor(&args(&["prog", "-help"])), Some("-help".to_string()));
}

#[test]
fn help_or_wrong_count_asks_for_usage() {
    assert_eq!(requested_monitor(&args(&[])), None);
    assert_eq!(requested_monitor(&args(&["prog"])), None);
    assert_eq!(requested_monitor(&args(&["prog", "-h"])), None);
    assert_eq!(requested_monitor(&args(&["prog", "--help"])), None);
    assert_eq!(requested_monitor(&args(&["prog", "eDP-1", "DP-2"])), None);
}

#[test]
fn unknown_monitor_is_rejected_at_startup() {
    let monitors = vec![monitor("eDP-1", 1), monitor("DP-2", 2)];
    assert!(!accepts_target(&"HDMI-A-1".to_string(), &monitors));
    assert!(!accepts_target(&"edp-1".to_string(), &monitors));
    assert!(!accepts_target(&"".to_string(), &monitors));
    assert!(!accepts_target(&"eDP-1".to_string(), &Vec::new()));
}

#[test]
fn known_monitor_and_wildcard_are_accepted() {
    let monitors = vec![monitor("eDP-1", 1), monitor("DP-2", 2)];
    assert!(accepts_target(&"eDP-1".to_string(), &monitors));
    assert!(accepts_target(&"DP-2".to_string(), &monitors));
    assert!(accepts_target(&"_".to_string(), &monitors));
    assert!(accepts_target(&"_".to_string(), &Vec::new()));
}

#[test]
fn unknown_monitor_message_names_the_target() {
    assert_eq!(unknown_monitor_message("DP-9"), "Unable to find monitor DP-9");
    assert_eq!(unknown_monitor_message(""), "Unable to find monitor ");
}

#[test]
fn start_subscribes_once() {
    assert_eq!(
        step(ListenerState::Idle, Signal::Start),
        (ListenerState::Listening, Reaction::Subscribe)
    );
    assert_eq!(
        step(ListenerState::Listening, Signal::Start),
        (ListenerState::Listening, Reaction::Ignore)
    );
    assert_eq!(
        step(ListenerState::Stopped, Signal::Start),
        (ListenerState::Stopped, Reaction::Ignore)
    );
}

#[test]
fn each_trigger_emits_while_listening() {
    let triggers = [
        Signal::ActiveWindowChanged,
        Signal::WindowClosed,
        Signal::WorkspaceChanged,
        Signal::WindowMoved,
    ];
    for signal in triggers {
        assert_eq!(
            step(ListenerState::Listening, signal),
            (ListenerState::Listening, Reaction::Emit)
        );
        assert_eq!(step(ListenerState::Idle, signal), (ListenerState::Idle, Reaction::Ignore));
        assert_eq!(
            step(ListenerState::Stopped, signal),
            (ListenerState::Stopped, Reaction::Ignore)
        );
    }
}

#[test]
fn transport_failure_stops_for_good() {
    assert_eq!(
        step(ListenerState::Listening, Signal::TransportFailed),
        (ListenerState::Stopped, Reaction::Terminate)
    );
    assert_eq!(
        step(ListenerState::Stopped, Signal::TransportFailed),
        (ListenerState::Stopped, Reaction::Ignore)
    );
    assert_eq!(
        step(ListenerState::Idle, Signal::TransportFailed),
        (ListenerState::Idle, Reaction::Ignore)
    );
}

#[test]
fn events_are_handled_in_arrival_order() {
    let signals = [
        Signal::Start,
        Signal::WorkspaceChanged,
        Signal::WindowMoved,
        Signal::TransportFailed,
        Signal::ActiveWindowChanged,
    ];
    let mut state = ListenerState::Idle;
    let mut reactions = Vec::new();
    for signal in signals {
        let (next, reaction) = step(state, signal);
        state = next;
        reactions.push(reaction);
    }
    assert_eq!(state, ListenerState::Stopped);
    assert_eq!(
        reactions,
        vec![
            Reaction::Subscribe,
            Reaction::Emit,
            Reaction::Emit,
            Reaction::Terminate,
            Reaction::Ignore
        ]
    );
}
