//! Plain-value snapshots of compositor state and their mathematical views.

use vstd::prelude::*;

verus! {

/// A monitor as seen in one snapshot: its name and the id of the workspace
/// currently shown on it.
#[derive(Clone, Debug)]
pub struct Monitor {
    pub name: String,
    pub active_workspace: i32,
}

/// A workspace as seen in one snapshot. `last_window` is the address of the
/// window that was focused last; `last_window_title` is that window's title
/// as the workspace record knows it.
#[derive(Clone, Debug)]
pub struct Workspace {
    pub id: i32,
    pub last_window: String,
    pub last_window_title: String,
}

/// A client (window) as seen in one snapshot.
#[derive(Clone, Debug)]
pub struct Client {
    pub address: String,
    pub title: String,
    pub initial_title: String,
}

/// One entry of the all-monitors report.
#[derive(Clone, Debug)]
pub struct MonitorCustom {
    pub name: String,
    pub title: String,
    pub initial_title: String,
}

pub struct MonitorView {
    pub name: Seq<char>,
    pub active_workspace: i32,
}

pub struct WorkspaceView {
    pub id: i32,
    pub last_window: Seq<char>,
    pub last_window_title: Seq<char>,
}

pub struct ClientView {
    pub address: Seq<char>,
    pub title: Seq<char>,
    pub initial_title: Seq<char>,
}

pub struct MonitorCustomView {
    pub name: Seq<char>,
    pub title: Seq<char>,
    pub initial_title: Seq<char>,
}

impl View for Monitor {
    type V = MonitorView;

    open spec fn view(&self) -> MonitorView {
        MonitorView { name: self.name@, active_workspace: self.active_workspace }
    }
}

impl View for Workspace {
    type V = WorkspaceView;

    open spec fn view(&self) -> WorkspaceView {
        WorkspaceView {
            id: self.id,
            last_window: self.last_window@,
            last_window_title: self.last_window_title@,
        }
    }
}

impl View for Client {
    type V = ClientView;

    open spec fn view(&self) -> ClientView {
        ClientView {
            address: self.address@,
            title: self.title@,
            initial_title: self.initial_title@,
        }
    }
}

impl View for MonitorCustom {
    type V = MonitorCustomView;

    open spec fn view(&self) -> MonitorCustomView {
        MonitorCustomView {
            name: self.name@,
            title: self.title@,
            initial_title: self.initial_title@,
        }
    }
}

/// The monitor snapshot as a sequence of views, in listing order.
pub open spec fn monitor_views(v: Seq<Monitor>) -> Seq<MonitorView> {
    Seq::new(v.len(), |i: int| v[i]@)
}

/// The workspace snapshot as a sequence of views, in listing order.
pub open spec fn workspace_views(v: Seq<Workspace>) -> Seq<WorkspaceView> {
    Seq::new(v.len(), |i: int| v[i]@)
}

/// The client snapshot as a sequence of views, in listing order.
pub open spec fn client_views(v: Seq<Client>) -> Seq<ClientView> {
    Seq::new(v.len(), |i: int| v[i]@)
}

/// A list of report entries as a sequence of views.
pub open spec fn record_views(v: Seq<MonitorCustom>) -> Seq<MonitorCustomView> {
    Seq::new(v.len(), |i: int| v[i]@)
}

} // verus!
