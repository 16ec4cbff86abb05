//! Laws that relate the resolver, the reporter and the start-up check.

use vstd::prelude::*;
use crate::listener::{ListenerState, Reaction, Signal, is_trigger, next_state, reaction};
use crate::model::{
    Client, ClientView, Monitor, MonitorCustomView, MonitorView, Workspace, WorkspaceView,
    client_views, monitor_views, workspace_views,
};
use crate::printer::{WindowPrinter, emission, is_wildcard};
use crate::resolve::{
    ResolveError, aggregate, monitor_position, record_for, single_title, workspace_position,
};
use crate::search::{lemma_first_match_exists, lemma_first_match_none};
use crate::startup::target_accepted;

verus! {

/// Whether some workspace of `ws` has id `id`.
pub open spec fn has_workspace(ws: Seq<WorkspaceView>, id: i32) -> bool {
    exists|j: int| 0 <= j < ws.len() && (#[trigger] ws[j]).id == id
}

/// Where a monitor carries the target's name and the active workspace of
/// every monitor is in the workspace snapshot, single-monitor resolution
/// succeeds, and its title is exactly the last-window title recorded on the
/// workspace that the named monitor shows.
pub proof fn lemma_single_title_of_consistent_snapshot(
    ms: Seq<MonitorView>,
    ws: Seq<WorkspaceView>,
    name: Seq<char>,
    i: int,
)
    requires
        0 <= i < ms.len(),
        ms[i].name == name,
        forall|k: int| 0 <= k < ms.len() ==> has_workspace(ws, (#[trigger] ms[k]).active_workspace),
    ensures
        ({
            &&& monitor_position(ms, name) matches Some(m)
            &&& 0 <= m <= i
            &&& ms[m].name == name
            &&& workspace_position(ws, ms[m].active_workspace) matches Some(w)
            &&& 0 <= w < ws.len()
            &&& ws[w].id == ms[m].active_workspace
            &&& single_title(ms, ws, name) == Ok::<Seq<char>, ResolveError>(
                ws[w].last_window_title,
            )
        }),
{
    let by_name = |m: MonitorView| m.name == name;
    assert(by_name(ms[i]));
    lemma_first_match_exists(ms, by_name, i);
    let m = monitor_position(ms, name)->0;
    let id = ms[m].active_workspace;
    assert(has_workspace(ws, id));
    let j = choose|j: int| 0 <= j < ws.len() && (#[trigger] ws[j]).id == id;
    let by_id = |w: WorkspaceView| w.id == id;
    assert(by_id(ws[j]));
    lemma_first_match_exists(ws, by_id, j);
}

/// The all-monitors entries never outnumber the monitors, and they keep the
/// order of the monitor listing: entry `k` is the entry of monitor
/// `origin[k]`, it carries that monitor's name, and `origin` is strictly
/// increasing.
pub proof fn lemma_aggregate_keeps_listing_order(
    ms: Seq<MonitorView>,
    ws: Seq<WorkspaceView>,
    cs: Seq<ClientView>,
) -> (origin: Seq<int>)
    ensures
        aggregate(ms, ws, cs).len() <= ms.len(),
        origin.len() == aggregate(ms, ws, cs).len(),
        forall|k: int|
            0 <= k < origin.len() ==> 0 <= #[trigger] origin[k] < ms.len() && record_for(
                ms[origin[k]],
                ws,
                cs,
            ) == Some(aggregate(ms, ws, cs)[k]) && aggregate(ms, ws, cs)[k].name
                == ms[origin[k]].name,
        forall|a: int, b: int| 0 <= a < b < origin.len() ==> origin[a] < origin[b],
    decreases ms.len(),
{
    if ms.len() == 0 {
        Seq::empty()
    } else {
        let earlier = lemma_aggregate_keeps_listing_order(ms.drop_last(), ws, cs);
        match record_for(ms.last(), ws, cs) {
            Some(r) => earlier.push(ms.len() - 1),
            None => earlier,
        }
    }
}

/// The entries of two listings laid end to end are the entries of the first
/// followed by those of the second.
pub proof fn lemma_aggregate_concat(
    a: Seq<MonitorView>,
    b: Seq<MonitorView>,
    ws: Seq<WorkspaceView>,
    cs: Seq<ClientView>,
)
    ensures
        aggregate(a + b, ws, cs) == aggregate(a, ws, cs) + aggregate(b, ws, cs),
    decreases b.len(),
{
    if b.len() == 0 {
        assert(a + b =~= a);
        assert(aggregate(a, ws, cs) + aggregate(b, ws, cs) =~= aggregate(a, ws, cs));
    } else {
        lemma_aggregate_concat(a, b.drop_last(), ws, cs);
        assert((a + b).drop_last() =~= a + b.drop_last());
        assert((a + b).last() == b.last());
        assert(aggregate(a + b, ws, cs) =~= aggregate(a, ws, cs) + aggregate(b, ws, cs));
    }
}

/// A monitor that does not resolve, because its active workspace or that
/// workspace's last window is missing from the snapshots, contributes no
/// entry: the entries are those of the listing without it, so every other
/// monitor is still reported.
pub proof fn lemma_unresolved_monitor_is_skipped(
    ms: Seq<MonitorView>,
    ws: Seq<WorkspaceView>,
    cs: Seq<ClientView>,
    i: int,
)
    requires
        0 <= i < ms.len(),
        record_for(ms[i], ws, cs) is None,
    ensures
        aggregate(ms, ws, cs) == aggregate(ms.remove(i), ws, cs),
{
    let before = ms.take(i);
    let one = seq![ms[i]];
    let after = ms.skip(i + 1);
    assert(ms =~= before + one + after);
    assert(ms.remove(i) =~= before + after);
    lemma_aggregate_concat(before + one, after, ws, cs);
    lemma_aggregate_concat(before, one, ws, cs);
    lemma_aggregate_concat(before, after, ws, cs);
    assert(one.drop_last() =~= Seq::<MonitorView>::empty());
    assert(aggregate(one.drop_last(), ws, cs) =~= Seq::<MonitorCustomView>::empty());
    assert(aggregate(one, ws, cs) =~= Seq::<MonitorCustomView>::empty());
    assert(aggregate(before, ws, cs) + aggregate(one, ws, cs) =~= aggregate(before, ws, cs));
}

/// A monitor that resolves contributes exactly its own entry, between the
/// entries of the monitors listed before it and those of the monitors listed
/// after it.
pub proof fn lemma_resolved_monitor_is_reported(
    ms: Seq<MonitorView>,
    ws: Seq<WorkspaceView>,
    cs: Seq<ClientView>,
    i: int,
)
    requires
        0 <= i < ms.len(),
        record_for(ms[i], ws, cs) is Some,
    ensures
        aggregate(ms, ws, cs) == aggregate(ms.take(i), ws, cs).push(
            record_for(ms[i], ws, cs)->0,
        ) + aggregate(ms.skip(i + 1), ws, cs),
{
    let upto = ms.take(i + 1);
    assert(ms =~= upto + ms.skip(i + 1));
    assert(upto.drop_last() =~= ms.take(i));
    assert(upto.last() == ms[i]);
    lemma_aggregate_concat(upto, ms.skip(i + 1), ws, cs);
}

/// With the wildcard as target a report is always produced, whatever the
/// snapshots hold.
pub proof fn lemma_wildcard_always_reports(
    target: Seq<char>,
    ms: Seq<MonitorView>,
    ws: Seq<WorkspaceView>,
    cs: Seq<ClientView>,
)
    requires
        is_wildcard(target),
    ensures
        emission(target, ms, ws, cs) is Ok,
{
}

/// Two reports on the same compositor state are identical: reporters with
/// the same target, given snapshots with the same contents, emit the same
/// line or fail in the same way.
pub proof fn lemma_same_state_same_emission(
    first: WindowPrinter,
    second: WindowPrinter,
    monitors1: Seq<Monitor>,
    workspaces1: Seq<Workspace>,
    clients1: Seq<Client>,
    monitors2: Seq<Monitor>,
    workspaces2: Seq<Workspace>,
    clients2: Seq<Client>,
)
    requires
        first@ == second@,
        monitor_views(monitors1) == monitor_views(monitors2),
        workspace_views(workspaces1) == workspace_views(workspaces2),
        client_views(clients1) == client_views(clients2),
    ensures
        first.emits(monitors1, workspaces1, clients1) == second.emits(
            monitors2,
            workspaces2,
            clients2,
        ),
{
}

/// A target that is not the wildcard and that no live monitor carries is
/// rejected at start-up.
pub proof fn lemma_unknown_target_is_rejected(target: Seq<char>, ms: Seq<MonitorView>)
    requires
        !is_wildcard(target),
        forall|i: int| 0 <= i < ms.len() ==> (#[trigger] ms[i]).name != target,
    ensures
        !target_accepted(target, ms),
{
    let by_name = |m: MonitorView| m.name == target;
    assert forall|i: int| 0 <= i < ms.len() implies !by_name(#[trigger] ms[i]) by {}
    lemma_first_match_none(ms, by_name);
}

/// A target that the start-up check accepts and that is not the wildcard
/// names a monitor of the snapshot, so resolving it does not fail with
/// `MonitorNotFound` on that snapshot.
pub proof fn lemma_accepted_target_is_found(
    target: Seq<char>,
    ms: Seq<MonitorView>,
    ws: Seq<WorkspaceView>,
)
    requires
        target_accepted(target, ms),
        !is_wildcard(target),
    ensures
        single_title(ms, ws, target) != Err::<Seq<char>, ResolveError>(
            ResolveError::MonitorNotFound,
        ),
{
}

/// Once stopped, the subscription loop stays stopped and reacts to nothing.
pub proof fn lemma_stopped_is_final(signal: Signal)
    ensures
        next_state(ListenerState::Stopped, signal) == ListenerState::Stopped,
        reaction(ListenerState::Stopped, signal) == Reaction::Ignore,
{
}

/// A line is emitted exactly for the four trigger classes while listening,
/// and emitting leaves the loop listening.
pub proof fn lemma_emit_exactly_on_triggers(state: ListenerState, signal: Signal)
    ensures
        reaction(state, signal) == Reaction::Emit <==> state == ListenerState::Listening
            && is_trigger(signal),
        reaction(state, signal) == Reaction::Emit ==> next_state(state, signal)
            == ListenerState::Listening,
{
}

} // verus!
