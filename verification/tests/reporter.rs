use hyprland_activewindow::model::{Client, Monitor, MonitorCustom, Workspace};
use hyprland_activewindow::printer::WindowPrinter;
use hyprland_activewindow::report::{
    encode_record, format_records, format_title, frame_array, frame_record,
};
use hyprland_activewindow::resolve::ResolveError;

fn monitor(name: &str, active_workspace: i32) -> Monitor {
    Monitor { name: name.to_string(), active_workspace }
}

fn workspace(id: i32, last_window: &str, last_window_title: &str) -> Workspace {
    Workspace {
        id,
        last_window: last_window.to_string(),
        last_window_title: last_window_title.to_string(),
    }
}

fn client(address: &str, title: &str, initial_title: &str) -> Client {
    Client {
        address: address.to_string(),
        title: title.to_string(),
        initial_title: initial_title.to_string(),
    }
}

fn record(name: &str, title: &str, initial_title: &str) -> MonitorCustom {
    MonitorCustom {
        name: name.to_string(),
        title: title.to_string(),
        initial_title: initial_title.to_string(),
    }
}

#[test]
fn scenario_single_monitor_emits_title() {
    let monitors = vec![monitor("eDP-1", 1)];
    let workspaces = vec![workspace(1, "0x1", "Terminal")];
    let printer = WindowPrinter::new("eDP-1".to_string());
    assert!(!printer.reports_all());
    assert_eq!(printer.print(&monitors, &workspaces, &Vec::new()), Ok("Terminal\n".to_string()));
    assert_eq!(printer.print_single(&monitors, &workspaces), Ok("Terminal\n".to_string()));
}

#[test]
fn scenario_two_monitors_both_resolved() {
    let monitors = vec![monitor("eDP-1", 1), monitor("DP-2", 2)];
    let workspaces = vec![workspace(1, "0x1", "Terminal"), workspace(2, "0x2", "Browser")];
    let clients = vec![client("0x2", "Browser", "Firefox"), client("0x1", "Terminal", "kitty")];
    let printer = WindowPrinter::new("_".to_string());
    assert!(printer.reports_all());
    let line = printer.print(&monitors, &workspaces, &clients).unwrap();
    assert_eq!(
        line,
        "[{\"name\":\"eDP-1\",\"title\":\"Terminal\",\"initial_title\":\"kitty\"},\
         {\"name\":\"DP-2\",\"title\":\"Browser\",\"initial_title\":\"Firefox\"}]\n"
    );
    assert_eq!(printer.print_all(&monitors, &workspaces, &clients), line);
    let parsed: serde_json::Value = serde_json::from_str(&line).unwrap();
    let items = parsed.as_array().unwrap();
    assert_eq!(items.len(), 2);
    assert_eq!(items[0].get("name").and_then(|v| v.as_str()), Some("eDP-1"));
    assert_eq!(items[0].get("title").and_then(|v| v.as_str()), Some("Terminal"));
    assert_eq!(items[0].get("initial_title").and_then(|v| v.as_str()), Some("kitty"));
    assert_eq!(items[1].get("name").and_then(|v| v.as_str()), Some("DP-2"));
    assert_eq!(items[1].get("title").and_then(|v| v.as_str()), Some("Browser"));
    assert_eq!(items[1].get("initial_title").and_then(|v| v.as_str()), Some("Firefox"));
}

#[test]
fn scenario_closed_window_gives_fewer_records() {
    let monitors = vec![monitor("eDP-1", 1), monitor("DP-2", 2)];
    let workspaces = vec![workspace(1, "0x1", "Terminal"), workspace(2, "0x2", "Browser")];
    let clients = vec![client("0x2", "Browser", "Firefox")];
    let printer = WindowPrinter::new("_".to_string());
    let line = printer.print(&monitors, &workspaces, &clients).unwrap();
    assert_eq!(line, "[{\"name\":\"DP-2\",\"title\":\"Browser\",\"initial_title\":\"Firefox\"}]\n");
    let parsed: serde_json::Value = serde_json::from_str(&line).unwrap();
    assert!(parsed.as_array().unwrap().len() < monitors.len());
}

#[test]
fn scenario_next_emission_reflects_new_state() {
    let monitors = vec![monitor("eDP-1", 1)];
    let printer = WindowPrinter::new("eDP-1".to_string());
    let before = vec![workspace(1, "0x1", "Terminal")];
    assert_eq!(printer.print(&monitors, &before, &Vec::new()), Ok("Terminal\n".to_string()));
    let after = vec![workspace(1, "0x2", "Editor")];
    assert_eq!(printer.print(&monitors, &after, &Vec::new()), Ok("Editor\n".to_string()));

    let all = WindowPrinter::new("_".to_string());
    let clients_before = vec![client("0x1", "Terminal", "kitty")];
    let clients_after = vec![client("0x1", "Terminal", "kitty"), client("0x2", "Editor", "vim")];
    assert_eq!(
        all.print(&monitors, &before, &clients_before).unwrap(),
        "[{\"name\":\"eDP-1\",\"title\":\"Terminal\",\"initial_title\":\"kitty\"}]\n"
    );
    assert_eq!(
        all.print(&monitors, &after, &clients_after).unwrap(),
        "[{\"name\":\"eDP-1\",\"title\":\"Editor\",\"initial_title\":\"vim\"}]\n"
    );
}

#[test]
fn same_state_gives_same_line() {
    let monitors = vec![monitor("eDP-1", 1), monitor("DP-2", 2)];
    let workspaces = vec![workspace(1, "0x1", "Terminal"), workspace(2, "0x2", "Browser")];
    let clients = vec![client("0x2", "Browser", "Firefox"), client("0x1", "Terminal", "kitty")];
    let single = WindowPrinter::new("DP-2".to_string());
    assert_eq!(
        single.print(&monitors, &workspaces, &clients),
        single.print(&monitors, &workspaces, &clients)
    );
    let all = WindowPrinter::new("_".to_string());
    assert_eq!(
        all.print(&monitors, &workspaces, &clients),
        all.print(&monitors.clone(), &workspaces.clone(), &clients.clone())
    );
    let missing = WindowPrinter::new("DP-7".to_string());
    assert_eq!(
        missing.print(&monitors, &workspaces, &clients),
        missing.print(&monitors, &workspaces, &clients)
    );
}

#[test]
fn print_reports_resolution_errors() {
    let monitors = vec![monitor("eDP-1", 4)];
    let workspaces = vec![workspace(1, "0x1", "Terminal")];
    let clients = vec![client("0x1", "Terminal", "kitty")];
    assert_eq!(
        WindowPrinter::new("DP-2".to_string()).print(&monitors, &workspaces, &clients),
        Err(ResolveError::MonitorNotFound)
    );
    assert_eq!(
        WindowPrinter::new("eDP-1".to_string()).print(&monitors, &workspaces, &clients),
        Err(ResolveError::InconsistentState)
    );
    assert_eq!(
        WindowPrinter::new("_".to_string()).print(&monitors, &workspaces, &clients),
        Ok("[]\n".to_string())
    );
}

#[test]
fn empty_title_is_an_empty_line() {
    let monitors = vec![monitor("eDP-1", 1)];
    let workspaces = vec![workspace(1, "0x0", "")];
    let printer = WindowPrinter::new("eDP-1".to_string());
    assert_eq!(printer.print(&monitors, &workspaces, &Vec::new()), Ok("\n".to_string()));
    assert_eq!(format_title(""), "\n");
}

#[test]
fn title_is_written_raw() {
    assert_eq!(format_title("say \"hi\" \\ there"), "say \"hi\" \\ there\n");
    let monitors = vec![monitor("eDP-1", 1)];
    let workspaces = vec![workspace(1, "0x1", "a \"quoted\" title")];
    let printer = WindowPrinter::new("eDP-1".to_string());
    assert_eq!(
        printer.print(&monitors, &workspaces, &Vec::new()),
        Ok("a \"quoted\" title\n".to_string())
    );
}

#[test]
fn wildcard_is_exactly_one_underscore() {
    assert!(WindowPrinter::new("_".to_string()).reports_all());
    assert!(!WindowPrinter::new("__".to_string()).reports_all());
    assert!(!WindowPrinter::new("".to_string()).reports_all());
    assert!(!WindowPrinter::new("eDP-1".to_string()).reports_all());
}

#[test]
fn record_fields_are_json_strings() {
    assert_eq!(
        encode_record(&record("eDP-1", "Terminal", "kitty")),
        "{\"name\":\"eDP-1\",\"title\":\"Terminal\",\"initial_title\":\"kitty\"}"
    );
    assert_eq!(
        encode_record(&record("", "", "")),
        "{\"name\":\"\",\"title\":\"\",\"initial_title\":\"\"}"
    );
}

#[test]
fn record_fields_are_escaped() {
    let text = encode_record(&record("m\"1", "back\\slash\nnew\ttab", "\u{1}é"));
    assert_eq!(
        text,
        "{\"name\":\"m\\\"1\",\"title\":\"back\\\\slash\\nnew\\ttab\",\"initial_title\":\"\\u0001é\"}"
    );
    let parsed: serde_json::Value = serde_json::from_str(&text).unwrap();
    assert_eq!(parsed.get("name").and_then(|v| v.as_str()), Some("m\"1"));
    assert_eq!(parsed.get("title").and_then(|v| v.as_str()), Some("back\\slash\nnew\ttab"));
    assert_eq!(parsed.get("initial_title").and_then(|v| v.as_str()), Some("\u{1}é"));
}

#[test]
fn frame_record_places_values_in_key_order() {
    assert_eq!(frame_record("1", "2", "3"), "{\"name\":1,\"title\":2,\"initial_title\":3}");
    assert_eq!(frame_record("", "", ""), "{\"name\":,\"title\":,\"initial_title\":}");
}

#[test]
fn frame_array_separates_with_commas() {
    assert_eq!(frame_array(&Vec::new()), "[]");
    assert_eq!(frame_array(&vec!["a".to_string()]), "[a]");
    assert_eq!(frame_array(&vec!["a".to_string(), "b".to_string(), "c".to_string()]), "[a,b,c]");
    assert_eq!(frame_array(&vec!["".to_string(), "".to_string()]), "[,]");
}

#[test]
fn records_line_is_one_json_array() {
    assert_eq!(format_records(&Vec::new()), "[]\n");
    let records = vec![record("b", "t1", "i1"), record("a", "t2", "i2")];
    assert_eq!(
        format_records(&records),
        "[{\"name\":\"b\",\"title\":\"t1\",\"initial_title\":\"i1\"},\
         {\"name\":\"a\",\"title\":\"t2\",\"initial_title\":\"i2\"}]\n"
    );
}
