//! The reporter: a fixed target and the line it emits for a snapshot.

use vstd::prelude::*;
use crate::model::{
    Client, ClientView, Monitor, MonitorView, Workspace, WorkspaceView, client_views,
    monitor_views, workspace_views,
};
use crate::report::{format_records, format_title, records_line, title_line};
use crate::resolve::{ResolveError, aggregate, resolve_all, resolve_single, single_title};

verus! {

/// Whether `target` is the wildcard that stands for every monitor.
pub open spec fn is_wildcard(target: Seq<char>) -> bool {
    target == "_"@
}

/// The line emitted for `target` on a snapshot: for the wildcard the JSON
/// array of every monitor that resolves, which never fails; for a monitor
/// name the title on its active workspace, or the reason there is none.
pub open spec fn emission(
    target: Seq<char>,
    ms: Seq<MonitorView>,
    ws: Seq<WorkspaceView>,
    cs: Seq<ClientView>,
) -> Result<Seq<char>, ResolveError> {
    if is_wildcard(target) {
        Ok(records_line(aggregate(ms, ws, cs)))
    } else {
        match single_title(ms, ws, target) {
            Ok(title) => Ok(title_line(title)),
            Err(e) => Err(e),
        }
    }
}

/// Reports the active window of one monitor, or of all monitors. The target
/// is fixed at construction.
pub struct WindowPrinter {
    mon: String,
}

impl View for WindowPrinter {
    type V = Seq<char>;

    /// The target: a monitor name, or the wildcard.
    closed spec fn view(&self) -> Seq<char> {
        self.mon@
    }
}

impl WindowPrinter {
    /// The line this reporter emits on a snapshot.
    pub open spec fn emits(
        &self,
        monitors: Seq<Monitor>,
        workspaces: Seq<Workspace>,
        clients: Seq<Client>,
    ) -> Result<Seq<char>, ResolveError> {
        emission(
            self@,
            monitor_views(monitors),
            workspace_views(workspaces),
            client_views(clients),
        )
    }

    /// A reporter for the monitor called `mon`, or for all monitors where
    /// `mon` is `_`.
    pub fn new(mon: String) -> (printer: Self)
        ensures
            printer@ == mon@,
    {
        WindowPrinter { mon }
    }

    /// Whether this reporter covers all monitors, and so needs the client
    /// snapshot.
    pub fn reports_all(&self) -> (all: bool)
        ensures
            all == is_wildcard(self@),
    {
        let wildcard = String::from_str("_");
        self.mon == wildcard
    }

    /// The line to write for the given snapshots, newline included. Nothing
    /// is kept between calls: the line depends on the target and on the
    /// snapshots alone. With a monitor name as target `clients` is not read.
    pub fn print(
        &self,
        monitors: &Vec<Monitor>,
        workspaces: &Vec<Workspace>,
        clients: &Vec<Client>,
    ) -> (r: Result<String, ResolveError>)
        ensures
            match r {
                Ok(line) => self.emits(monitors@, workspaces@, clients@) == Ok::<
                    Seq<char>,
                    ResolveError,
                >(line@),
                Err(e) => self.emits(monitors@, workspaces@, clients@) == Err::<
                    Seq<char>,
                    ResolveError,
                >(e),
            },
    {
        if self.reports_all() {
            Ok(self.print_all(monitors, workspaces, clients))
        } else {
            self.print_single(monitors, workspaces)
        }
    }

    /// The line for the target taken as a monitor name: the last-window
    /// title of that monitor's active workspace, unquoted.
    pub fn print_single(&self, monitors: &Vec<Monitor>, workspaces: &Vec<Workspace>) -> (r: Result<
        String,
        ResolveError,
    >)
        ensures
            match r {
                Ok(line) => single_title(
                    monitor_views(monitors@),
                    workspace_views(workspaces@),
                    self@,
                ) matches Ok(title) && line@ == title_line(title),
                Err(e) => single_title(
                    monitor_views(monitors@),
                    workspace_views(workspaces@),
                    self@,
                ) == Err::<Seq<char>, ResolveError>(e),
            },
    {
        match resolve_single(monitors, workspaces, &self.mon) {
            Ok(title) => Ok(format_title(title.as_str())),
            Err(e) => Err(e),
        }
    }

    /// The line for all monitors: a JSON array with one object per monitor
    /// that resolves, in listing order.
    pub fn print_all(
        &self,
        monitors: &Vec<Monitor>,
        workspaces: &Vec<Workspace>,
        clients: &Vec<Client>,
    ) -> (line: String)
        ensures
            line@ == records_line(
                aggregate(
                    monitor_views(monitors@),
                    workspace_views(workspaces@),
                    client_views(clients@),
                ),
            ),
    {
        let records = resolve_all(monitors, workspaces, clients);
        format_records(&records)
    }
}

} // verus!
