//! The window resolver: monitor, then its active workspace, then the window
//! that was focused last on that workspace.

use vstd::prelude::*;
use crate::model::{
    Client, ClientView, Monitor, MonitorCustom, MonitorCustomView, MonitorView, Workspace,
    WorkspaceView, client_views, monitor_views, record_views, workspace_views,
};
use crate::search::{first_match, is_first_match, lemma_first_match_found, lemma_first_match_none};

verus! {

/// Why a single-monitor resolution produced no title.
#[derive(Clone, Copy, Debug, PartialEq, Eq, Structural)]
pub enum ResolveError {
    /// No monitor of the snapshot carries the requested name.
    MonitorNotFound,
    /// The monitor's active workspace is missing from the workspace snapshot.
    InconsistentState,
}

/// Position of the first monitor called `name`.
pub open spec fn monitor_position(ms: Seq<MonitorView>, name: Seq<char>) -> Option<int> {
    first_match(ms, |m: MonitorView| m.name == name)
}

/// Position of the first workspace with id `id`.
pub open spec fn workspace_position(ws: Seq<WorkspaceView>, id: i32) -> Option<int> {
    first_match(ws, |w: WorkspaceView| w.id == id)
}

/// Position of the first client at `address`.
pub open spec fn client_position(cs: Seq<ClientView>, address: Seq<char>) -> Option<int> {
    first_match(cs, |c: ClientView| c.address == address)
}

/// The title a single-monitor report shows for the monitor called `name`:
/// the last-window title recorded on that monitor's active workspace.
pub open spec fn single_title(
    ms: Seq<MonitorView>,
    ws: Seq<WorkspaceView>,
    name: Seq<char>,
) -> Result<Seq<char>, ResolveError> {
    match monitor_position(ms, name) {
        None => Err(ResolveError::MonitorNotFound),
        Some(i) => match workspace_position(ws, ms[i].active_workspace) {
            None => Err(ResolveError::InconsistentState),
            Some(j) => Ok(ws[j].last_window_title),
        },
    }
}

/// The report entry of monitor `m`, or `None` where its active workspace or
/// that workspace's last window is missing from the snapshots.
pub open spec fn record_for(
    m: MonitorView,
    ws: Seq<WorkspaceView>,
    cs: Seq<ClientView>,
) -> Option<MonitorCustomView> {
    match workspace_position(ws, m.active_workspace) {
        None => None,
        Some(j) => match client_position(cs, ws[j].last_window) {
            None => None,
            Some(k) => Some(
                MonitorCustomView {
                    name: m.name,
                    title: cs[k].title,
                    initial_title: cs[k].initial_title,
                },
            ),
        },
    }
}

/// The entries of the all-monitors report: one per monitor that resolves, in
/// the order of the monitor listing.
pub open spec fn aggregate(
    ms: Seq<MonitorView>,
    ws: Seq<WorkspaceView>,
    cs: Seq<ClientView>,
) -> Seq<MonitorCustomView>
    decreases ms.len(),
{
    if ms.len() == 0 {
        Seq::empty()
    } else {
        let earlier = aggregate(ms.drop_last(), ws, cs);
        match record_for(ms.last(), ws, cs) {
            Some(r) => earlier.push(r),
            None => earlier,
        }
    }
}

/// Finds the first monitor called `name`.
pub fn find_monitor(monitors: &Vec<Monitor>, name: &String) -> (found: Option<usize>)
    ensures
        match found {
            Some(i) => monitor_position(monitor_views(monitors@), name@) == Some(i as int),
            None => monitor_position(monitor_views(monitors@), name@) is None,
        },
{
    let ghost ms = monitor_views(monitors@);
    let ghost p = |m: MonitorView| m.name == name@;
    let mut i: usize = 0;
    while i < monitors.len()
        invariant
            i <= monitors.len(),
            ms == monitor_views(monitors@),
            p == (|m: MonitorView| m.name == name@),
            forall|j: int| 0 <= j < i ==> !p(#[trigger] ms[j]),
        decreases monitors.len() - i,
    {
        if monitors[i].name == *name {
            proof {
                assert(p(ms[i as int]));
                assert(is_first_match(ms, p, i as int));
                lemma_first_match_found(ms, p, i as int);
            }
            return Some(i);
        }
        i += 1;
    }
    proof {
        lemma_first_match_none(ms, p);
    }
    None
}

/// Finds the first workspace with id `id`.
pub fn find_workspace(workspaces: &Vec<Workspace>, id: i32) -> (found: Option<usize>)
    ensures
        match found {
            Some(j) => workspace_position(workspace_views(workspaces@), id) == Some(j as int),
            None => workspace_position(workspace_views(workspaces@), id) is None,
        },
{
    let ghost ws = workspace_views(workspaces@);
    let ghost p = |w: WorkspaceView| w.id == id;
    let mut j: usize = 0;
    while j < workspaces.len()
        invariant
            j <= workspaces.len(),
            ws == workspace_views(workspaces@),
            p == (|w: WorkspaceView| w.id == id),
            forall|k: int| 0 <= k < j ==> !p(#[trigger] ws[k]),
        decreases workspaces.len() - j,
    {
        if workspaces[j].id == id {
            proof {
                assert(p(ws[j as int]));
                assert(is_first_match(ws, p, j as int));
                lemma_first_match_found(ws, p, j as int);
            }
            return Some(j);
        }
        j += 1;
    }
    proof {
        lemma_first_match_none(ws, p);
    }
    None
}

/// Finds the first client at `address`.
pub fn find_client(clients: &Vec<Client>, address: &String) -> (found: Option<usize>)
    ensures
        match found {
            Some(k) => client_position(client_views(clients@), address@) == Some(k as int),
            None => client_position(client_views(clients@), address@) is None,
        },
{
    let ghost cs = client_views(clients@);
    let ghost p = |c: ClientView| c.address == address@;
    let mut k: usize = 0;
    while k < clients.len()
        invariant
            k <= clients.len(),
            cs == client_views(clients@),
            p == (|c: ClientView| c.address == address@),
            forall|n: int| 0 <= n < k ==> !p(#[trigger] cs[n]),
        decreases clients.len() - k,
    {
        if clients[k].address == *address {
            proof {
                assert(p(cs[k as int]));
                assert(is_first_match(cs, p, k as int));
                lemma_first_match_found(cs, p, k as int);
            }
            return Some(k);
        }
        k += 1;
    }
    proof {
        lemma_first_match_none(cs, p);
    }
    None
}

/// Resolves the title shown for the monitor called `name`. The client
/// snapshot is not consulted: the title is the one the workspace records.
pub fn resolve_single(monitors: &Vec<Monitor>, workspaces: &Vec<Workspace>, name: &String) -> (r:
    Result<String, ResolveError>)
    ensures
        match r {
            Ok(title) => single_title(
                monitor_views(monitors@),
                workspace_views(workspaces@),
                name@,
            ) == Ok::<Seq<char>, ResolveError>(title@),
            Err(e) => single_title(
                monitor_views(monitors@),
                workspace_views(workspaces@),
                name@,
            ) == Err::<Seq<char>, ResolveError>(e),
        },
{
    match find_monitor(monitors, name) {
        None => Err(ResolveError::MonitorNotFound),
        Some(i) => match find_workspace(workspaces, monitors[i].active_workspace) {
            None => Err(ResolveError::InconsistentState),
            Some(j) => Ok(workspaces[j].last_window_title.clone()),
        },
    }
}

/// Resolves the report entry of one monitor, or `None` where the snapshots
/// no longer hold its active workspace or that workspace's last window.
pub fn resolve_record(monitor: &Monitor, workspaces: &Vec<Workspace>, clients: &Vec<Client>) -> (r:
    Option<MonitorCustom>)
    ensures
        match r {
            Some(rec) => record_for(
                monitor@,
                workspace_views(workspaces@),
                client_views(clients@),
            ) == Some(rec@),
            None => record_for(monitor@, workspace_views(workspaces@), client_views(clients@))
                is None,
        },
{
    match find_workspace(workspaces, monitor.active_workspace) {
        None => None,
        Some(j) => match find_client(clients, &workspaces[j].last_window) {
            None => None,
            Some(k) => Some(
                MonitorCustom {
                    name: monitor.name.clone(),
                    title: clients[k].title.clone(),
                    initial_title: clients[k].initial_title.clone(),
                },
            ),
        },
    }
}

/// Resolves every monitor of the snapshot. A monitor that does not resolve
/// contributes nothing; the others keep the order of the monitor listing.
pub fn resolve_all(monitors: &Vec<Monitor>, workspaces: &Vec<Workspace>, clients: &Vec<Client>) -> (out:
    Vec<MonitorCustom>)
    ensures
        record_views(out@) == aggregate(
            monitor_views(monitors@),
            workspace_views(workspaces@),
            client_views(clients@),
        ),
{
    let ghost ms = monitor_views(monitors@);
    let ghost ws = workspace_views(workspaces@);
    let ghost cs = client_views(clients@);
    let mut out: Vec<MonitorCustom> = Vec::new();
    let mut i: usize = 0;
    assert(record_views(out@) =~= aggregate(ms.take(0), ws, cs));
    while i < monitors.len()
        invariant
            i <= monitors.len(),
            ms == monitor_views(monitors@),
            ws == workspace_views(workspaces@),
            cs == client_views(clients@),
            record_views(out@) == aggregate(ms.take(i as int), ws, cs),
        decreases monitors.len() - i,
    {
        let ghost before = record_views(out@);
        let resolved = resolve_record(&monitors[i], workspaces, clients);
        proof {
            assert(ms.take(i + 1).drop_last() =~= ms.take(i as int));
            assert(ms.take(i + 1).last() == monitors[i as int]@);
        }
        match resolved {
            Some(rec) => {
                out.push(rec);
                assert(record_views(out@) =~= before.push(rec@));
            },
            None => {},
        }
        i += 1;
    }
    assert(ms.take(i as int) =~= ms);
    out
}

} // verus!
