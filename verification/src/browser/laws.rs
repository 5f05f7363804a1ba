//! What holds of the browser across commands and results.

use vstd::prelude::*;

use crate::browser::actions::{NavigationAction, UpdateView};
use crate::browser::commands::{Carried, OutcomeView};
use crate::browser::dispatch::{BrowserCommand, CommandOutcome, HostCall};
use crate::browser::error::{BrowserError, ErrorCode, ErrorView};
use crate::browser::events::{
    CrossDocumentNavigationKind, EventView, NavigationCancellationReason, NavigationPhase,
};
use crate::browser::history::HistoryView;
use crate::browser::ids::{
    BrowsingContextId, DocumentId, NavigationId, RequestId, RuntimeContextId,
};
use crate::browser::limits::HostViewState;
use crate::browser::loading::CommitView;
use crate::browser::navigation::TerminalView;
use crate::browser::registry::{
    ContextView, CoreView, ExternalScriptLoadKey, LifecycleStage, ScriptWorkView, WorkView,
};
use crate::browser::scripts::{ExternalRun, ScriptRun};

verus! {

/// A result for a navigation that is not under way changes nothing, whatever
/// it brings.
pub proof fn late_results_change_nothing(
    v: CoreView,
    context_id: BrowsingContextId,
    navigation_id: NavigationId,
    loaded: Result<(), ErrorView>,
    from_url: Seq<char>,
    to_url: Seq<char>,
    status: u16,
    request_id: Option<RequestId>,
    error: ErrorView,
    work: WorkView,
    stage: LifecycleStage,
    actions: Seq<NavigationAction>,
    scripts: ScriptWorkView,
    run: ScriptRun,
    terminal: TerminalView,
    emit_state: bool,
)
    requires
        !v.is_current(context_id, navigation_id),
    ensures
        v.load_ended(context_id, navigation_id, loaded) == v,
        v.redirected(context_id, navigation_id, from_url, to_url, status) == v,
        v.commit_begun(context_id, navigation_id) == v,
        v.failed(context_id, navigation_id, request_id, error) == v,
        v.restored(context_id, navigation_id, work) == v,
        v.lifecycle_advanced(context_id, navigation_id, stage, actions) == v,
        v.script_ran(context_id, navigation_id, scripts, run) == v,
        v.external_found(context_id, navigation_id, scripts, from_url, loaded) == v,
        v.finished(context_id, navigation_id, terminal, emit_state) == v,
{
}

/// A document whose navigation is not under way is not committed.
pub proof fn late_commits_change_nothing(
    v: CoreView,
    plan: CommitView,
    outcome: Result<(), ErrorView>,
)
    requires
        !v.is_current(plan.context_id, plan.navigation_id),
    ensures
        v.commit_ended(plan, outcome) == v,
{
}

/// An external script that ran for a document, runtime or navigation that is
/// gone leaves no trace.
pub proof fn late_scripts_change_nothing(
    v: CoreView,
    key: ExternalScriptLoadKey,
    work: ScriptWorkView,
    effects: crate::browser::events::EffectsView,
    run: ExternalRun,
)
    requires
        !v.script_current(key),
    ensures
        v.external_ran(key, work, effects, run) == v,
        !v.script_awaited(key),
{
}

/// A navigation ends once: when it has ended, it is no longer under way, and
/// ending it again does nothing.
pub proof fn navigations_end_once(
    v: CoreView,
    context_id: BrowsingContextId,
    navigation_id: NavigationId,
    terminal: TerminalView,
    emit_state: bool,
    again: TerminalView,
    emit_again: bool,
)
    ensures
        ({
            let after = v.finished(context_id, navigation_id, terminal, emit_state);
            &&& !after.is_current(context_id, navigation_id)
            &&& after.finished(context_id, navigation_id, again, emit_again) == after
        }),
{
}

/// The end of a navigation is told by exactly one phase.
pub proof fn one_terminal_phase(
    v: CoreView,
    context_id: BrowsingContextId,
    navigation_id: NavigationId,
    terminal: TerminalView,
    emit_state: bool,
)
    requires
        v.is_current(context_id, navigation_id),
    ensures
        crate::browser::order::phases(v.finished(context_id, navigation_id, terminal, emit_state).events, navigation_id)
            == crate::browser::order::phases(v.events, navigation_id).push(terminal.phase()),
{
    let context = v.context(context_id);
    let active = context.active_navigation->Some_0;
    let events = context.end_events(context_id, active, terminal, emit_state);
    crate::browser::order::phases_concat(v.events, events, navigation_id);
    let stopped = if terminal is Cancelled {
        context.script_cancelled(context_id, active)
    } else {
        Seq::empty()
    };
    reveal_with_fuel(crate::browser::order::phases, 3);
    assert(crate::browser::order::phases(stopped, navigation_id) =~= Seq::<NavigationPhase>::empty()) by {
        if stopped.len() > 0 {
            assert(stopped.drop_last() =~= Seq::<EventView>::empty());
        }
    }
    let phase = seq![
        EventView::phase(context_id, context.frame_id, navigation_id, terminal.phase()),
    ];
    let end = match terminal {
        TerminalView::Settled => Seq::empty(),
        TerminalView::Failed { request_id, error } => seq![
            EventView::NavigationFailed {
                context_id,
                frame_id: context.frame_id,
                navigation_id,
                request_id,
                error,
            },
        ],
        TerminalView::Cancelled { reason } => seq![
            EventView::NavigationCancelled {
                context_id,
                frame_id: context.frame_id,
                navigation_id,
                request_id: Some(active.request_id),
                reason,
            },
        ],
    };
    let state = if emit_state {
        seq![
            EventView::BrowsingContextStateChanged {
                state: context.with_active(None).state(context_id),
            },
        ]
    } else {
        Seq::empty()
    };
    crate::browser::order::phases_concat(stopped, phase, navigation_id);
    crate::browser::order::phases_concat(stopped + phase, end, navigation_id);
    crate::browser::order::phases_concat(stopped + phase + end, state, navigation_id);
    assert(phase.drop_last() =~= Seq::<EventView>::empty());
    assert(crate::browser::order::phases(phase, navigation_id) =~= seq![terminal.phase()]);
    assert(crate::browser::order::phases(end, navigation_id) =~= Seq::<NavigationPhase>::empty()) by {
        if end.len() > 0 {
            assert(end.drop_last() =~= Seq::<EventView>::empty());
        }
    }
    assert(crate::browser::order::phases(state, navigation_id) =~= Seq::<NavigationPhase>::empty()) by {
        if state.len() > 0 {
            assert(state.drop_last() =~= Seq::<EventView>::empty());
        }
    }
    assert(crate::browser::order::phases(events, navigation_id) =~= seq![terminal.phase()]);
    assert(crate::browser::order::phases(v.events, navigation_id) + seq![terminal.phase()] =~= crate::browser::order::phases(
        v.events,
        navigation_id,
    ).push(terminal.phase()));
}

/// A new navigation takes the place of the one under way, which is told to be
/// cancelled, and its id is larger than any before it.
pub proof fn newer_navigations_win(
    v: CoreView,
    context_id: BrowsingContextId,
    url: Seq<char>,
    injected_html: Option<Seq<char>>,
    update: UpdateView,
    kind: CrossDocumentNavigationKind,
    predecessor: Option<NavigationId>,
    older: NavigationId,
)
    requires
        v.navigation_fault(context_id, url) is None,
        v.valid(),
        v.is_current(context_id, older),
    ensures
        ({
            let after = v.begun(context_id, url, injected_html, update, kind, predecessor);
            let newer = NavigationId { raw: v.ids.next_navigation };
            &&& older.raw < newer.raw
            &&& after.is_current(context_id, newer)
            &&& !after.is_current(context_id, older)
            &&& after.ids.next_navigation == 0 || after.ids.next_navigation > newer.raw
            &&& after.events.contains(
                EventView::NavigationCancelled {
                    context_id,
                    frame_id: v.context(context_id).frame_id,
                    navigation_id: older,
                    request_id: Some(v.context(context_id).active_navigation->Some_0.request_id),
                    reason: NavigationCancellationReason::Superseded,
                },
            )
            &&& v.events.is_prefix_of(after.events)
        }),
{
    let after = v.begun(context_id, url, injected_html, update, kind, predecessor);
    let context = v.context(context_id);
    let active = context.active_navigation->Some_0;
    let cancelled = TerminalView::Cancelled {
        reason: NavigationCancellationReason::Superseded,
    };
    let end = context.end_events(context_id, active, cancelled, false);
    let stopped = context.script_cancelled(context_id, active);
    let k = (v.events.len() + stopped.len() + 1) as int;
    assert(after.events[k] == (v.events + end)[k]);
    assert(after.events[k] == end[stopped.len() as int + 1]);
}

/// What happens in one context leaves every other context as it is.
pub proof fn contexts_are_isolated(
    v: CoreView,
    context_id: BrowsingContextId,
    other: BrowsingContextId,
    navigation_id: NavigationId,
    url: Seq<char>,
    injected_html: Option<Seq<char>>,
    update: UpdateView,
    kind: CrossDocumentNavigationKind,
    predecessor: Option<NavigationId>,
    loaded: Result<(), ErrorView>,
    plan: CommitView,
    scripts: ScriptWorkView,
    run: ScriptRun,
    stage: LifecycleStage,
    actions: Seq<NavigationAction>,
)
    requires
        v.has(other),
        other != context_id,
        plan.context_id == context_id,
    ensures
        v.begun(context_id, url, injected_html, update, kind, predecessor).context(other)
            == v.context(other),
        v.load_ended(context_id, navigation_id, loaded).context(other) == v.context(other),
        v.commit_begun(context_id, navigation_id).context(other) == v.context(other),
        v.commit_ended(plan, loaded).context(other) == v.context(other),
        v.script_ran(context_id, navigation_id, scripts, run).context(other) == v.context(other),
        v.lifecycle_advanced(context_id, navigation_id, stage, actions).context(other)
            == v.context(other),
        v.closed(context_id).has(other),
        v.closed(context_id).context(other) == v.context(other),
{
}

/// A closed context is reported as closed, not as unknown, and stays so
/// whatever contexts are made or closed later.
pub proof fn closed_contexts_stay_closed(
    v: CoreView,
    context_id: BrowsingContextId,
    other: BrowsingContextId,
)
    requires
        v.has(context_id),
        v.has(other),
        other != context_id,
    ensures
        !v.closed(context_id).has(context_id),
        v.closed(context_id).missing_context(context_id).code == ErrorCode::StaleContext,
        v.closed(context_id).closed(other).missing_context(context_id).code
            == ErrorCode::StaleContext,
        !v.closed(context_id).closed(other).has(context_id),
{
}

/// Ids that were taken for a new context are none of a closed one.
pub proof fn reserved_ids_are_fresh(v: CoreView, closed: u64)
    requires
        v.valid(),
        v.closed_contexts.contains(closed),
        v.reservation() is Ok,
    ensures
        v.reservation()->Ok_0.context_id.raw != closed,
        !v.has(v.reservation()->Ok_0.context_id),
{
    assert(crate::browser::registry::was_issued(closed, v.ids.next_context));
    if v.has(v.reservation()->Ok_0.context_id) {
        assert(v.contexts.contains_key(v.ids.next_context));
    }
}

/// Loading a page again keeps its history as it is.
pub proof fn reload_preserves_history(c: ContextView)
    requires
        c.history.valid(),
    ensures
        c.committed_history(UpdateView::Preserve(c.history), c.history.current().url) == c.history,
{
}

/// Going to another entry and arriving there changes only which entry is
/// current.
pub proof fn traversal_preserves_entries(c: ContextView, delta: int)
    requires
        c.history.valid(),
        c.history.can_go(delta),
    ensures
        ({
            let moved = c.history.moved(delta);
            c.committed_history(UpdateView::Preserve(moved), moved.current().url) == moved
        }),
{
}

/// The first page of a context takes the place of the blank one; every later
/// one is a new entry that can be gone back from.
pub proof fn first_page_replaces_the_blank_one(c: ContextView, url: Seq<char>)
    requires
        c.history.valid(),
    ensures
        ({
            let after = c.committed_history(UpdateView::Push, url);
            &&& after.valid()
            &&& after.current().url == url
            &&& if c.history.entries.len() == 1 && c.history.current().url == "about:blank"@ {
                after.entries.len() == 1
            } else {
                after.index == c.history.index + 1 && after.can_go(-1) && after.moved(
                    -1,
                ).current() == c.history.current()
            }
        }),
{
}

/// Actions of a script that fail a check are not carried out at all: no
/// navigation begins, no id is used, and the frontends hear nothing.
pub proof fn refused_actions_change_nothing(
    v: CoreView,
    context_id: BrowsingContextId,
    actions: Seq<NavigationAction>,
    predecessor: Option<NavigationId>,
)
    requires
        crate::browser::commands::too_many_actions(actions) || !v.has(context_id)
            || crate::browser::actions::actions_outcome(
            v.context(context_id).history,
            v.context(context_id).document_id,
            v.max_body_bytes,
            actions,
        ) is Err,
    ensures
        v.applied(context_id, actions, predecessor).error is Some,
        v.applied(context_id, actions, predecessor).browser == v,
        v.applied(context_id, actions, predecessor).outcomes.len() == 0,
{
}

/// Two navigations that a script asks for get ids in the order in which it
/// asked, and the second names the first as its predecessor.
pub proof fn action_ids_increase(
    v: CoreView,
    context_id: BrowsingContextId,
    first: Seq<char>,
    second: Seq<char>,
    update: UpdateView,
    predecessor: Option<NavigationId>,
)
    requires
        v.navigation_fault(context_id, first) is None,
        crate::browser::limits::url_ok(second),
        v.ids.next_navigation < u64::MAX,
        v.ids.next_request < u64::MAX,
    ensures
        ({
            let kind = CrossDocumentNavigationKind::Regular;
            let a = crate::browser::actions::PreparedView::CrossDocument {
                url: first,
                injected_html: None,
                history_update: update,
                kind,
            };
            let b = crate::browser::actions::PreparedView::CrossDocument {
                url: second,
                injected_html: None,
                history_update: update,
                kind,
            };
            let one = Carried::start(v, predecessor).step(context_id, a);
            let two = one.step(context_id, b);
            &&& one.error is None
            &&& one.predecessor == Some(NavigationId { raw: v.ids.next_navigation })
            &&& two.error is None
            &&& two.outcomes == seq![
                OutcomeView::CrossDocument {
                    navigation_id: NavigationId { raw: v.ids.next_navigation },
                    kind,
                },
                OutcomeView::CrossDocument {
                    navigation_id: NavigationId { raw: (v.ids.next_navigation + 1) as u64 },
                    kind,
                },
            ]
        }),
{
    let kind = CrossDocumentNavigationKind::Regular;
    let a = crate::browser::actions::PreparedView::CrossDocument {
        url: first,
        injected_html: None,
        history_update: update,
        kind,
    };
    let b = crate::browser::actions::PreparedView::CrossDocument {
        url: second,
        injected_html: None,
        history_update: update,
        kind,
    };
    let one = Carried::start(v, predecessor).step(context_id, a);
    let two = one.step(context_id, b);
    assert(one.browser.has(context_id));
    assert(two.outcomes =~= seq![
        OutcomeView::CrossDocument {
            navigation_id: NavigationId { raw: v.ids.next_navigation },
            kind,
        },
        OutcomeView::CrossDocument {
            navigation_id: NavigationId { raw: (v.ids.next_navigation + 1) as u64 },
            kind,
        },
    ]);
}

/// A host view is taken only once: the same report, or an older one, is stale.
pub proof fn host_views_are_taken_once(
    v: CoreView,
    context_id: BrowsingContextId,
    state: HostViewState,
    older: HostViewState,
)
    requires
        v.host_view_fault(context_id, state) is None,
        older.generation <= state.generation,
    ensures
        ({
            let after = v.with_context(
                context_id,
                ContextView { host_view: state, ..v.context(context_id) },
            );
            after.host_view_fault(context_id, older) is Some
        }),
{
}

/// The course of a navigation that nothing disturbs and whose page has no
/// scripts: the frontends hear of its phases in one order.
#[verifier::rlimit(60)]
pub proof fn undisturbed_navigation_phases(
    v: CoreView,
    context_id: BrowsingContextId,
    url: Seq<char>,
    injected_html: Option<Seq<char>>,
    update: UpdateView,
    kind: CrossDocumentNavigationKind,
    title: Option<Seq<char>>,
    run: ScriptRun,
)
    requires
        v.valid(),
        update.valid(),
        v.navigation_fault(context_id, url) is None,
        v.commit_fault() is None,
        v.context(context_id).active_navigation is None,
        v.pending_navigation_work.len() == 0,
        run.item is None,
        run.effects_after(crate::browser::events::EffectsView::none()).is_empty(),
        crate::browser::order::phases(v.events, NavigationId { raw: v.ids.next_navigation }).len() == 0,
    ensures
        ({
            let n = NavigationId { raw: v.ids.next_navigation };
            let begun = v.begun(context_id, url, injected_html, update, kind, None);
            let parsing = begun.load_ended(context_id, n, Ok(())).work_taken();
            let plan = parsing.commit_plan(context_id, n, url, title);
            let running = parsing.commit_begun(context_id, n).commit_ended(plan, Ok(())).work_taken();
            let scripts = ScriptWorkView {
                preload_scripts: Seq::empty(),
                new_document_scripts: Seq::empty(),
                bypass_csp: v.context(context_id).config.bypass_csp,
                actions: Seq::empty(),
            };
            let actions = run.actions_after(Seq::empty());
            let loaded = running.script_ran(context_id, n, scripts, run).work_taken();
            let first = loaded.lifecycle_advanced(
                context_id,
                n,
                LifecycleStage::DomContentLoaded,
                actions,
            ).work_taken();
            let second = first.lifecycle_advanced(
                context_id,
                n,
                LifecycleStage::Load,
                actions,
            ).work_taken();
            let settled = second.lifecycle_advanced(
                context_id,
                n,
                LifecycleStage::Settle,
                actions,
            );
            &&& crate::browser::order::phases(settled.events, n) == seq![
                NavigationPhase::Intent,
                NavigationPhase::Policy,
                NavigationPhase::Request,
                NavigationPhase::Response,
                NavigationPhase::Commit,
                NavigationPhase::Parse,
                NavigationPhase::ScriptsAndSubresources,
                NavigationPhase::DomContentLoaded,
                NavigationPhase::Load,
                NavigationPhase::Settled,
            ]
            &&& settled.context(context_id).active_navigation is None
            &&& settled.context(context_id).history.current().url == url
            &&& settled.pending_navigation_work.len() == 0
        }),
{
    let n = NavigationId { raw: v.ids.next_navigation };
    let begun = v.begun(context_id, url, injected_html, update, kind, None);
    let arrived = begun.load_ended(context_id, n, Ok(()));
    let parsing = arrived.work_taken();
    let plan = parsing.commit_plan(context_id, n, url, title);
    let ready = parsing.commit_begun(context_id, n);
    let committed = ready.commit_ended(plan, Ok(()));
    let running = committed.work_taken();
    let scripts = ScriptWorkView {
        preload_scripts: Seq::empty(),
        new_document_scripts: Seq::empty(),
        bypass_csp: v.context(context_id).config.bypass_csp,
        actions: Seq::empty(),
    };
    let actions = run.actions_after(Seq::empty());
    let ran = running.script_ran(context_id, n, scripts, run);
    let loaded = ran.work_taken();
    let dcl = loaded.lifecycle_advanced(context_id, n, LifecycleStage::DomContentLoaded, actions);
    let first = dcl.work_taken();
    let load = first.lifecycle_advanced(context_id, n, LifecycleStage::Load, actions);
    let second = load.work_taken();
    let settled = second.lifecycle_advanced(context_id, n, LifecycleStage::Settle, actions);
    began_phases(v, context_id, url, injected_html, update, kind);
    arrival_phases(begun, context_id, n);
    taken_work(arrived, context_id, n);
    commit_phases(parsing, context_id, n, url, title);
    taken_work(committed, context_id, n);
    script_phases(running, context_id, n, scripts, run);
    taken_work(ran, context_id, n);
    loading_phases(loaded, context_id, n, actions);
    taken_work(dcl, context_id, n);
    loading_phases(first, context_id, n, actions);
    taken_work(load, context_id, n);
    one_terminal_phase(second, context_id, n, TerminalView::Settled, true);
    arrival_url(v.context(context_id), update, url);
    assert(v.contexts.contains_key(context_id.raw));
    assert(parsing.context(context_id).committed_history(update, url) == v.context(
        context_id,
    ).committed_history(update, url));
    assert(settled.context(context_id).history == v.context(context_id).committed_history(
        update,
        url,
    ));
    assert(crate::browser::order::phases(settled.events, n) =~= seq![
        NavigationPhase::Intent,
        NavigationPhase::Policy,
        NavigationPhase::Request,
        NavigationPhase::Response,
        NavigationPhase::Commit,
        NavigationPhase::Parse,
        NavigationPhase::ScriptsAndSubresources,
        NavigationPhase::DomContentLoaded,
        NavigationPhase::Load,
        NavigationPhase::Settled,
    ]);
}

/// The current entry of a history after a navigation is where it came to.
pub proof fn arrival_url(c: ContextView, update: UpdateView, url: Seq<char>)
    requires
        c.history.valid(),
        update.valid(),
    ensures
        c.committed_history(update, url).valid(),
        c.committed_history(update, url).current().url == url,
{
}

/// Where a navigation stands: its work, the queue, the phases told of it and
/// the history of its page.
pub open spec fn stands(
    v: CoreView,
    context_id: BrowsingContextId,
    n: NavigationId,
    work: Option<WorkView>,
    queued: bool,
    told: Seq<NavigationPhase>,
    history: HistoryView,
) -> bool {
    &&& v.is_current(context_id, n)
    &&& v.context(context_id).active_navigation->Some_0.work == work
    &&& v.pending_navigation_work == if queued {
        seq![(context_id, n)]
    } else {
        Seq::empty()
    }
    &&& crate::browser::order::phases(v.events, n) == told
    &&& v.context(context_id).history == history
}

/// The phases of a navigation that begins.
proof fn began_phases(
    v: CoreView,
    context_id: BrowsingContextId,
    url: Seq<char>,
    injected_html: Option<Seq<char>>,
    update: UpdateView,
    kind: CrossDocumentNavigationKind,
)
    requires
        v.navigation_fault(context_id, url) is None,
        v.context(context_id).active_navigation is None,
        v.pending_navigation_work.len() == 0,
        crate::browser::order::phases(v.events, NavigationId { raw: v.ids.next_navigation }).len() == 0,
    ensures
        ({
            let n = NavigationId { raw: v.ids.next_navigation };
            let after = v.begun(context_id, url, injected_html, update, kind, None);
            &&& stands(
                after,
                context_id,
                n,
                None,
                false,
                seq![NavigationPhase::Intent, NavigationPhase::Policy, NavigationPhase::Request],
                v.context(context_id).history,
            )
            &&& after.ids.next_document == v.ids.next_document
            &&& after.ids.next_runtime == v.ids.next_runtime
            &&& after.runtime_slots == v.runtime_slots
            &&& after.context(context_id).active_navigation->Some_0.history_update == update
            &&& after.context(context_id).runtime_slot == v.context(context_id).runtime_slot
        }),
{
    let n = NavigationId { raw: v.ids.next_navigation };
    let after = v.begun(context_id, url, injected_html, update, kind, None);
    let added = after.events.subrange(v.events.len() as int, after.events.len() as int);
    assert(after.events =~= v.events + added);
    crate::browser::order::phases_concat(v.events, added, n);
    assert(added.len() == 6);
    reveal_with_fuel(crate::browser::order::phases, 7);
    assert(added.drop_last().drop_last().drop_last().drop_last().drop_last().drop_last()
        =~= Seq::<EventView>::empty());
    assert(crate::browser::order::phases(added, n) =~= seq![
        NavigationPhase::Intent,
        NavigationPhase::Policy,
        NavigationPhase::Request,
    ]);
    assert(crate::browser::order::phases(after.events, n) =~= crate::browser::order::phases(added, n));
    assert(v.pending_navigation_work =~= Seq::<(BrowsingContextId, NavigationId)>::empty());
}

/// The phases of a document that arrives.
proof fn arrival_phases(v: CoreView, context_id: BrowsingContextId, n: NavigationId)
    requires
        v.is_current(context_id, n),
        v.pending_navigation_work.len() == 0,
    ensures
        ({
            let after = v.load_ended(context_id, n, Ok(()));
            &&& stands(
                after,
                context_id,
                n,
                Some(WorkView::Parsing),
                true,
                crate::browser::order::phases(v.events, n) + seq![
                    NavigationPhase::Response,
                    NavigationPhase::Commit,
                    NavigationPhase::Parse,
                ],
                v.context(context_id).history,
            )
            &&& after.ids == v.ids
            &&& after.runtime_slots == v.runtime_slots
            &&& after.context(context_id).active_navigation->Some_0.history_update == v.context(
                context_id,
            ).active_navigation->Some_0.history_update
        }),
{
    let after = v.load_ended(context_id, n, Ok(()));
    let added = after.events.subrange(v.events.len() as int, after.events.len() as int);
    assert(after.events =~= v.events + added);
    crate::browser::order::phases_concat(v.events, added, n);
    assert(added.len() == 3);
    reveal_with_fuel(crate::browser::order::phases, 4);
    assert(added.drop_last().drop_last().drop_last() =~= Seq::<EventView>::empty());
    assert(crate::browser::order::phases(added, n) =~= seq![
        NavigationPhase::Response,
        NavigationPhase::Commit,
        NavigationPhase::Parse,
    ]);
    assert(after.pending_navigation_work =~= seq![(context_id, n)]);
}

/// Taking the only work off the queue leaves the rest of the navigation alone.
proof fn taken_work(v: CoreView, context_id: BrowsingContextId, n: NavigationId)
    requires
        v.is_current(context_id, n),
        v.pending_navigation_work == seq![(context_id, n)],
    ensures
        ({
            let after = v.work_taken();
            &&& stands(
                after,
                context_id,
                n,
                None,
                false,
                crate::browser::order::phases(v.events, n),
                v.context(context_id).history,
            )
            &&& after.ids == v.ids
            &&& after.runtime_slots == v.runtime_slots
            &&& after.context(context_id).active_navigation->Some_0.history_update == v.context(
                context_id,
            ).active_navigation->Some_0.history_update
        }),
{
    assert(v.work_taken().pending_navigation_work =~= Seq::<
        (BrowsingContextId, NavigationId),
    >::empty());
}

/// The phases of a document that takes the place of another.
proof fn commit_phases(
    v: CoreView,
    context_id: BrowsingContextId,
    n: NavigationId,
    url: Seq<char>,
    title: Option<Seq<char>>,
)
    requires
        v.is_current(context_id, n),
        v.pending_navigation_work.len() == 0,
        v.commit_fault() is None,
    ensures
        ({
            let plan = v.commit_plan(context_id, n, url, title);
            let after = v.commit_begun(context_id, n).commit_ended(plan, Ok(()));
            &&& after.is_current(context_id, n)
            &&& after.pending_navigation_work == seq![(context_id, n)]
            &&& crate::browser::order::phases(after.events, n) == crate::browser::order::phases(v.events, n).push(
                NavigationPhase::ScriptsAndSubresources,
            )
            &&& after.context(context_id).history == v.context(context_id).committed_history(
                v.context(context_id).active_navigation->Some_0.history_update,
                url,
            )
        }),
{
    let plan = v.commit_plan(context_id, n, url, title);
    let ready = v.commit_begun(context_id, n);
    let after = ready.commit_ended(plan, Ok(()));
    let added = after.events.subrange(v.events.len() as int, after.events.len() as int);
    assert(ready.is_current(context_id, n));
    assert(after.events =~= v.events + added);
    crate::browser::order::phases_concat(v.events, added, n);
    assert(added.len() == 5);
    reveal_with_fuel(crate::browser::order::phases, 6);
    assert(added.drop_last().drop_last().drop_last().drop_last().drop_last() =~= Seq::<
        EventView,
    >::empty());
    assert(crate::browser::order::phases(added, n) =~= seq![NavigationPhase::ScriptsAndSubresources]);
    assert(crate::browser::order::phases(v.events, n) + crate::browser::order::phases(added, n) =~= crate::browser::order::phases(v.events, n).push(
        NavigationPhase::ScriptsAndSubresources,
    ));
    assert(after.pending_navigation_work =~= seq![(context_id, n)]);
}

/// A page without scripts goes on without a word.
proof fn script_phases(
    v: CoreView,
    context_id: BrowsingContextId,
    n: NavigationId,
    scripts: ScriptWorkView,
    run: ScriptRun,
)
    requires
        v.is_current(context_id, n),
        v.context(context_id).active_navigation->Some_0.work is None,
        v.pending_navigation_work.len() == 0,
        run.effects_after(crate::browser::events::EffectsView::none()).is_empty(),
    ensures
        ({
            let after = v.script_ran(context_id, n, scripts, run);
            &&& after.is_current(context_id, n)
            &&& after.pending_navigation_work == seq![(context_id, n)]
            &&& crate::browser::order::phases(after.events, n) == crate::browser::order::phases(v.events, n)
            &&& after.context(context_id).history == v.context(context_id).history
        }),
{
    let after = v.script_ran(context_id, n, scripts, run);
    assert(after.pending_navigation_work =~= seq![(context_id, n)]);
}

/// The phases of a document that reports how far it has come.
proof fn loading_phases(
    v: CoreView,
    context_id: BrowsingContextId,
    n: NavigationId,
    actions: Seq<NavigationAction>,
)
    requires
        v.is_current(context_id, n),
        v.context(context_id).active_navigation->Some_0.work is None,
        v.pending_navigation_work.len() == 0,
    ensures
        ({
            let one = v.lifecycle_advanced(
                context_id,
                n,
                LifecycleStage::DomContentLoaded,
                actions,
            );
            let two = v.lifecycle_advanced(context_id, n, LifecycleStage::Load, actions);
            &&& one.is_current(context_id, n)
            &&& one.pending_navigation_work == seq![(context_id, n)]
            &&& crate::browser::order::phases(one.events, n) == crate::browser::order::phases(v.events, n).push(
                NavigationPhase::DomContentLoaded,
            )
            &&& one.context(context_id).history == v.context(context_id).history
            &&& two.is_current(context_id, n)
            &&& two.pending_navigation_work == seq![(context_id, n)]
            &&& crate::browser::order::phases(two.events, n) == crate::browser::order::phases(v.events, n).push(NavigationPhase::Load)
            &&& two.context(context_id).history == v.context(context_id).history
        }),
{
    reveal_with_fuel(crate::browser::order::phases, 3);
    let one = v.lifecycle_advanced(context_id, n, LifecycleStage::DomContentLoaded, actions);
    let two = v.lifecycle_advanced(context_id, n, LifecycleStage::Load, actions);
    let first = one.events.subrange(v.events.len() as int, one.events.len() as int);
    let second = two.events.subrange(v.events.len() as int, two.events.len() as int);
    assert(one.events =~= v.events + first);
    assert(two.events =~= v.events + second);
    crate::browser::order::phases_concat(v.events, first, n);
    crate::browser::order::phases_concat(v.events, second, n);
    assert(first.len() == 2 && second.len() == 2);
    assert(first.drop_last().drop_last() =~= Seq::<EventView>::empty());
    assert(second.drop_last().drop_last() =~= Seq::<EventView>::empty());
    assert(crate::browser::order::phases(first, n) =~= seq![NavigationPhase::DomContentLoaded]);
    assert(crate::browser::order::phases(second, n) =~= seq![NavigationPhase::Load]);
    assert(crate::browser::order::phases(v.events, n) + crate::browser::order::phases(first, n) =~= crate::browser::order::phases(v.events, n).push(
        NavigationPhase::DomContentLoaded,
    ));
    assert(crate::browser::order::phases(v.events, n) + crate::browser::order::phases(second, n) =~= crate::browser::order::phases(v.events, n).push(
        NavigationPhase::Load,
    ));
    assert(one.pending_navigation_work =~= seq![(context_id, n)]);
    assert(two.pending_navigation_work =~= seq![(context_id, n)]);
}

/// The context, the document and the runtime that a command with a script is
/// meant for.
pub open spec fn script_address(command: BrowserCommand) -> Option<
    (BrowsingContextId, DocumentId, RuntimeContextId),
> {
    match command {
        BrowserCommand::Evaluate { context_id, document_id, runtime_context_id, .. } => Some(
            (context_id, document_id, runtime_context_id),
        ),
        BrowserCommand::EvaluateForAutomation {
            context_id,
            document_id,
            runtime_context_id,
            ..
        } => Some((context_id, document_id, runtime_context_id)),
        BrowserCommand::DispatchMouseEvent {
            context_id,
            document_id,
            runtime_context_id,
            ..
        } => Some((context_id, document_id, runtime_context_id)),
        BrowserCommand::DispatchKeyEvent {
            context_id,
            document_id,
            runtime_context_id,
            ..
        } => Some((context_id, document_id, runtime_context_id)),
        BrowserCommand::DispatchTextInput {
            context_id,
            document_id,
            runtime_context_id,
            ..
        } => Some((context_id, document_id, runtime_context_id)),
        BrowserCommand::DispatchAccessibilityAction { request } => Some(
            (request.context_id, request.document_id, request.runtime_context_id),
        ),
        _ => None,
    }
}

/// A script that is meant for a document or a runtime that is no longer the one
/// of its context does not run, whether it was given or dispatches an input
/// event, and the command changes nothing.
pub proof fn scripts_run_in_the_current_runtime_only(
    v: CoreView,
    command: BrowserCommand,
    after: CoreView,
    r: Result<CommandOutcome, BrowserError>,
    context_id: BrowsingContextId,
    document_id: DocumentId,
    runtime_context_id: RuntimeContextId,
)
    requires
        v.carries_out(command, after, r),
        script_address(command) == Some((context_id, document_id, runtime_context_id)),
    ensures
        after == v,
        v.runtime_fault(context_id, document_id, runtime_context_id) is Some ==> !(r matches Ok(
            CommandOutcome::Host(_),
        )),
        r matches Ok(CommandOutcome::Host(call)) ==> (call matches HostCall::RunScript {
            context_id: context,
            runtime_slot,
            source,
            ..
        } && context == context_id && runtime_slot == v.context(context_id).runtime_slot
            && v.context(context_id).document_id == document_id && v.context(
            context_id,
        ).runtime_context_id == runtime_context_id && crate::text::byte_count(source@)
            <= crate::browser::limits::MAX_SCRIPT_BYTES),
{
}

} // verus!
