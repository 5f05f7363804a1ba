//! The order of the phases that frontends hear of.
//!
//! A navigation that is under way has not been told to have ended. Once it has
//! been, nothing more is told of it, however the browser goes on.

use vstd::prelude::*;

use crate::browser::actions::UpdateView;
use crate::browser::events::{CrossDocumentNavigationKind, EventView, NavigationPhase};
use crate::browser::ids::{BrowsingContextId, NavigationId};
use crate::browser::navigation::TerminalView;
use crate::browser::registry::CoreView;

verus! {

/// The phases that events report of a navigation.
pub open spec fn phases(events: Seq<EventView>, navigation_id: NavigationId) -> Seq<NavigationPhase>
    decreases events.len(),
{
    if events.len() == 0 {
        Seq::empty()
    } else {
        let before = phases(events.drop_last(), navigation_id);
        match events.last() {
            EventView::NavigationPhaseChanged { navigation_id: n, phase, .. } => if n
                == navigation_id {
                before.push(phase)
            } else {
                before
            },
            _ => before,
        }
    }
}

/// The phase ends a navigation.
pub open spec fn is_terminal(phase: NavigationPhase) -> bool {
    phase == NavigationPhase::Settled || phase == NavigationPhase::Failed || phase
        == NavigationPhase::Cancelled
}

/// No phase has ended the navigation.
pub open spec fn still_open(phases: Seq<NavigationPhase>) -> bool {
    forall|i: int| 0 <= i < phases.len() ==> !is_terminal(#[trigger] phases[i])
}

/// At most one phase has ended the navigation, and none came after it.
pub open spec fn ended_once(phases: Seq<NavigationPhase>) -> bool {
    forall|i: int| 0 <= i < phases.len() - 1 ==> !is_terminal(#[trigger] phases[i])
}

impl CoreView {
    /// What frontends are told of navigations is in order.
    ///
    /// - Each navigation has at most one terminal phase, and it is the last one.
    /// - A navigation that is under way has none yet.
    /// - Only navigations whose ids were handed out are told of, and no two
    ///   contexts share one.
    #[verifier::opaque]
    pub open spec fn orderly(self) -> bool {
        &&& forall|n: NavigationId| ended_once(#[trigger] phases(self.events, n))
        &&& forall|n: NavigationId| #[trigger]
            phases(self.events, n).len() > 0 ==> crate::browser::registry::was_issued(
                n.raw,
                self.ids.next_navigation,
            )
        &&& forall|id: u64| #[trigger]
            self.contexts.contains_key(id) ==> (self.contexts[id].active_navigation matches Some(a)
                ==> still_open(phases(self.events, a.navigation_id))
                && crate::browser::registry::was_issued(
                a.navigation_id.raw,
                self.ids.next_navigation,
            ))
        &&& forall|a: u64, b: u64|
            #![trigger self.contexts[a], self.contexts[b]]
            self.contexts.contains_key(a) && self.contexts.contains_key(b) && a != b
                && self.contexts[a].active_navigation is Some
                && self.contexts[b].active_navigation is Some
                ==> self.contexts[a].active_navigation->Some_0.navigation_id
                != self.contexts[b].active_navigation->Some_0.navigation_id
    }

    /// The event may be told without ending a navigation: it is no phase, or a
    /// phase on the way of a navigation that is under way.
    pub open spec fn may_tell(self, event: EventView) -> bool {
        match event {
            EventView::NavigationPhaseChanged { context_id, navigation_id, phase, .. } =>
            self.is_current(context_id, navigation_id) && !is_terminal(phase),
            _ => true,
        }
    }

    /// From here to `after` no navigation begins, and none is told to have ended:
    /// what is under way was under way before, in the same context.
    pub open spec fn goes_calmly_to(self, after: CoreView) -> bool {
        &&& self.events.len() <= after.events.len()
        &&& forall|i: int|
            0 <= i < self.events.len() ==> #[trigger] after.events[i] == self.events[i]
        &&& forall|i: int|
            self.events.len() <= i < after.events.len() ==> self.may_tell(#[trigger] after.events[i])
        &&& after.ids.next_navigation == self.ids.next_navigation || after.ids.next_navigation
            == crate::browser::ids::counter_after(self.ids.next_navigation)
        &&& forall|id: u64| #[trigger]
            after.contexts.contains_key(id) ==> (after.contexts[id].navigating() matches Some(n)
                ==> self.contexts.contains_key(id) && self.contexts[id].navigating() == Some(n))
    }
}

/// Phases of events in a row are those of the first, then of the rest.
pub proof fn phases_concat(a: Seq<EventView>, b: Seq<EventView>, navigation_id: NavigationId)
    ensures
        phases(a + b, navigation_id) == phases(a, navigation_id) + phases(b, navigation_id),
    decreases b.len(),
{
    if b.len() == 0 {
        assert(a + b =~= a);
        assert(phases(a, navigation_id) + phases(b, navigation_id) =~= phases(a, navigation_id));
    } else {
        assert((a + b).drop_last() =~= a + b.drop_last());
        assert((a + b).last() == b.last());
        phases_concat(a, b.drop_last(), navigation_id);
        assert(phases(a + b, navigation_id) =~= phases(a, navigation_id) + phases(
            b,
            navigation_id,
        ));
    }
}

/// Events that may be told bring no terminal phase, and a phase only of a
/// navigation that is under way.
proof fn told_phases(v: CoreView, events: Seq<EventView>, n: NavigationId)
    requires
        forall|i: int| 0 <= i < events.len() ==> v.may_tell(#[trigger] events[i]),
    ensures
        still_open(phases(events, n)),
        phases(events, n).len() > 0 ==> exists|c: BrowsingContextId| v.is_current(c, n),
    decreases events.len(),
{
    if events.len() > 0 {
        let rest = events.drop_last();
        assert forall|i: int| 0 <= i < rest.len() implies v.may_tell(#[trigger] rest[i]) by {
            assert(rest[i] == events[i]);
        }
        told_phases(v, rest, n);
        assert(v.may_tell(events[events.len() - 1]));
        if let EventView::NavigationPhaseChanged { context_id, navigation_id, .. } = events.last() {
            if navigation_id == n {
                assert(v.is_current(context_id, n));
            }
        }
    }
}

/// Events without a phase of a navigation bring none.
proof fn no_phases(events: Seq<EventView>, n: NavigationId)
    requires
        forall|i: int|
            0 <= i < events.len() ==> !(#[trigger] events[i] matches
                EventView::NavigationPhaseChanged { navigation_id, .. } && navigation_id == n),
    ensures
        phases(events, n) == Seq::<NavigationPhase>::empty(),
    decreases events.len(),
{
    if events.len() > 0 {
        let rest = events.drop_last();
        assert forall|i: int| 0 <= i < rest.len() implies !(#[trigger] rest[i] matches
            EventView::NavigationPhaseChanged { navigation_id, .. } && navigation_id == n) by {
            assert(rest[i] == events[i]);
        }
        no_phases(rest, n);
        assert(!(events[events.len() - 1] matches EventView::NavigationPhaseChanged {
            navigation_id,
            ..
        } && navigation_id == n));
    }
}

/// What goes on calmly stays in order.
pub broadcast proof fn calm_steps_keep_order(v: CoreView, after: CoreView)
    requires
        #[trigger] v.orderly(),
        v.goes_calmly_to(after),
    ensures
        #[trigger] after.orderly(),
{
    reveal(CoreView::orderly);
    let added = after.events.skip(v.events.len() as int);
    assert(after.events =~= v.events + added);
    assert forall|i: int| 0 <= i < added.len() implies v.may_tell(#[trigger] added[i]) by {
        assert(added[i] == after.events[v.events.len() + i]);
    }
    assert forall|n: NavigationId|
        ended_once(#[trigger] phases(after.events, n)) && (phases(after.events, n).len() > 0
            ==> crate::browser::registry::was_issued(n.raw, after.ids.next_navigation)) by {
        phases_concat(v.events, added, n);
        told_phases(v, added, n);
        let before = phases(v.events, n);
        let more = phases(added, n);
        assert(ended_once(before));
        if more.len() > 0 {
            let c = choose|c: BrowsingContextId| v.is_current(c, n);
            assert(v.contexts.contains_key(c.raw));
            assert(still_open(before));
        } else {
            assert(before + more =~= before);
        }
    }
    assert forall|id: u64| #[trigger] after.contexts.contains_key(id) implies (
    after.contexts[id].active_navigation matches Some(a) ==> still_open(
        phases(after.events, a.navigation_id),
    ) && crate::browser::registry::was_issued(a.navigation_id.raw, after.ids.next_navigation)) by {
        if let Some(a) = after.contexts[id].active_navigation {
            let n = a.navigation_id;
            assert(after.contexts[id].navigating() == Some(n));
            assert(v.contexts.contains_key(id));
            phases_concat(v.events, added, n);
            told_phases(v, added, n);
        }
    }
    assert forall|a: u64, b: u64|
        #![trigger after.contexts[a], after.contexts[b]]
        after.contexts.contains_key(a) && after.contexts.contains_key(b) && a != b
            && after.contexts[a].active_navigation is Some
            && after.contexts[b].active_navigation is Some implies after.contexts[a].active_navigation->Some_0.navigation_id
        != after.contexts[b].active_navigation->Some_0.navigation_id by {
        assert(after.contexts[a].navigating() is Some && after.contexts[b].navigating() is Some);
        assert(v.contexts[a].navigating() == after.contexts[a].navigating());
        assert(v.contexts[b].navigating() == after.contexts[b].navigating());
    }
}

/// The end of a navigation keeps the order.
pub broadcast proof fn ends_keep_order(
    v: CoreView,
    context_id: BrowsingContextId,
    navigation_id: NavigationId,
    terminal: TerminalView,
    emit_state: bool,
)
    requires
        v.orderly(),
    ensures
        #[trigger] v.finished(context_id, navigation_id, terminal, emit_state).orderly(),
{
    let after = v.finished(context_id, navigation_id, terminal, emit_state);
    if v.is_current(context_id, navigation_id) {
        reveal(CoreView::orderly);
        let context = v.context(context_id);
        let active = context.active_navigation->Some_0;
        let added = context.end_events(context_id, active, terminal, emit_state);
        end_phases(v, context_id, navigation_id, terminal, emit_state);
        assert(v.contexts.contains_key(context_id.raw));
        assert(after.events =~= v.events + added);
        assert forall|n: NavigationId|
            ended_once(#[trigger] phases(after.events, n)) && (phases(after.events, n).len() > 0
                ==> crate::browser::registry::was_issued(n.raw, after.ids.next_navigation)) by {
            phases_concat(v.events, added, n);
            let before = phases(v.events, n);
            assert(ended_once(before));
            if n == navigation_id {
                assert(still_open(before));
                assert(phases(after.events, n) =~= before.push(terminal.phase()));
            } else {
                no_phases(added, n);
                assert(phases(after.events, n) =~= before);
            }
        }
        assert forall|id: u64| #[trigger] after.contexts.contains_key(id) implies (
        after.contexts[id].active_navigation matches Some(a) ==> still_open(
            phases(after.events, a.navigation_id),
        ) && crate::browser::registry::was_issued(
            a.navigation_id.raw,
            after.ids.next_navigation,
        )) by {
            if let Some(a) = after.contexts[id].active_navigation {
                assert(id != context_id.raw);
                assert(v.contexts.contains_key(id));
                let n = a.navigation_id;
                assert(v.contexts[id].active_navigation->Some_0.navigation_id
                    != v.contexts[context_id.raw].active_navigation->Some_0.navigation_id);
                phases_concat(v.events, added, n);
                no_phases(added, n);
                assert(phases(after.events, n) =~= phases(v.events, n));
            }
        }
        assert forall|a: u64, b: u64|
            #![trigger after.contexts[a], after.contexts[b]]
            after.contexts.contains_key(a) && after.contexts.contains_key(b) && a != b
                && after.contexts[a].active_navigation is Some
                && after.contexts[b].active_navigation is Some implies after.contexts[a].active_navigation->Some_0.navigation_id
            != after.contexts[b].active_navigation->Some_0.navigation_id by {
            assert(after.contexts[a] == v.contexts[a] && after.contexts[b] == v.contexts[b]);
        }
    }
}

/// The end of a navigation is told by one phase, of that navigation alone.
proof fn end_phases(
    v: CoreView,
    context_id: BrowsingContextId,
    navigation_id: NavigationId,
    terminal: TerminalView,
    emit_state: bool,
)
    requires
        v.is_current(context_id, navigation_id),
    ensures
        ({
            let context = v.context(context_id);
            let active = context.active_navigation->Some_0;
            let added = context.end_events(context_id, active, terminal, emit_state);
            &&& phases(added, navigation_id) == seq![terminal.phase()]
            &&& forall|i: int|
                0 <= i < added.len() ==> (#[trigger] added[i] matches
                    EventView::NavigationPhaseChanged { navigation_id: n, .. } ==> n
                    == navigation_id)
        }),
{
    let context = v.context(context_id);
    let active = context.active_navigation->Some_0;
    let added = context.end_events(context_id, active, terminal, emit_state);
    let stopped = if terminal is Cancelled {
        context.script_cancelled(context_id, active)
    } else {
        Seq::empty()
    };
    let k = stopped.len() as int;
    let front = added.take(k + 1);
    let back = added.skip(k + 1);
    assert(added =~= front + back);
    assert(added[k] == EventView::phase(
        context_id,
        context.frame_id,
        navigation_id,
        terminal.phase(),
    ));
    phases_concat(front, back, navigation_id);
    no_phases(back, navigation_id);
    assert(front.drop_last() =~= stopped);
    no_phases(stopped, navigation_id);
    assert(front.last() == added[k]);
    assert(phases(front, navigation_id) =~= seq![terminal.phase()]);
    assert(phases(added, navigation_id) =~= seq![terminal.phase()]);
}

/// The beginning of a navigation keeps the order.
pub broadcast proof fn beginnings_keep_order(
    v: CoreView,
    context_id: BrowsingContextId,
    url: Seq<char>,
    injected_html: Option<Seq<char>>,
    update: UpdateView,
    kind: CrossDocumentNavigationKind,
    predecessor: Option<NavigationId>,
)
    requires
        v.orderly(),
    ensures
        #[trigger] v.begun(
            context_id,
            url,
            injected_html,
            update,
            kind,
            predecessor,
        ).orderly(),
{
    let after = v.begun(context_id, url, injected_html, update, kind, predecessor);
    if v.navigation_fault(context_id, url) is None {
        let counted = v.with_navigation_ids();
        calm_steps_keep_order(v, counted);
        let free = counted.cancelled(
            context_id,
            crate::browser::events::NavigationCancellationReason::Superseded,
            false,
        );
        if let Some(n) = counted.context(context_id).navigating() {
            ends_keep_order(
                counted,
                context_id,
                n,
                TerminalView::Cancelled {
                    reason: crate::browser::events::NavigationCancellationReason::Superseded,
                },
                false,
            );
        }
        let fresh = NavigationId { raw: v.ids.next_navigation };
        fresh_ids_are_untold(v, context_id, fresh);
        reveal(CoreView::orderly);
        let added = after.events.skip(free.events.len() as int);
        assert(after.events =~= free.events + added);
        assert forall|n: NavigationId|
            ended_once(#[trigger] phases(after.events, n)) && (phases(after.events, n).len() > 0
                ==> crate::browser::registry::was_issued(n.raw, after.ids.next_navigation)) by {
            phases_concat(free.events, added, n);
            begun_phases(added, n, fresh);
            assert(ended_once(phases(free.events, n)));
            if n == fresh {
                assert(phases(after.events, n) =~= phases(added, n));
            } else {
                assert(phases(after.events, n) =~= phases(free.events, n));
            }
        }
        assert forall|id: u64| #[trigger] after.contexts.contains_key(id) implies (
        after.contexts[id].active_navigation matches Some(a) ==> still_open(
            phases(after.events, a.navigation_id),
        ) && crate::browser::registry::was_issued(
            a.navigation_id.raw,
            after.ids.next_navigation,
        )) by {
            if let Some(a) = after.contexts[id].active_navigation {
                let n = a.navigation_id;
                phases_concat(free.events, added, n);
                begun_phases(added, n, fresh);
                if id != context_id.raw {
                    assert(free.contexts.contains_key(id));
                    assert(v.contexts.contains_key(id));
                    assert(n != fresh);
                    assert(phases(after.events, n) =~= phases(free.events, n));
                } else {
                    assert(n == fresh);
                    assert(phases(after.events, n) =~= phases(added, n));
                }
            }
        }
        assert forall|a: u64, b: u64|
            #![trigger after.contexts[a], after.contexts[b]]
            after.contexts.contains_key(a) && after.contexts.contains_key(b) && a != b
                && after.contexts[a].active_navigation is Some
                && after.contexts[b].active_navigation is Some implies after.contexts[a].active_navigation->Some_0.navigation_id
            != after.contexts[b].active_navigation->Some_0.navigation_id by {
            assert(v.contexts.contains_key(a) && v.contexts.contains_key(b));
            if a != context_id.raw {
                assert(after.contexts[a] == free.contexts[a]);
                assert(free.contexts[a] == v.contexts[a]);
            }
            if b != context_id.raw {
                assert(after.contexts[b] == free.contexts[b]);
                assert(free.contexts[b] == v.contexts[b]);
            }
        }
    } else {
        calm_steps_keep_order(v, after);
    }
}

/// Nothing is told yet of an id that is about to be handed out, not even once
/// the navigation under way has been cancelled for it.
proof fn fresh_ids_are_untold(v: CoreView, context_id: BrowsingContextId, fresh: NavigationId)
    requires
        v.orderly(),
        v.has(context_id),
        fresh.raw == v.ids.next_navigation,
        fresh.raw != 0,
    ensures
        phases(
            v.with_navigation_ids().cancelled(
                context_id,
                crate::browser::events::NavigationCancellationReason::Superseded,
                false,
            ).events,
            fresh,
        ) == Seq::<NavigationPhase>::empty(),
{
    reveal(CoreView::orderly);
    assert(phases(v.events, fresh) =~= Seq::<NavigationPhase>::empty());
    let counted = v.with_navigation_ids();
    if let Some(n) = counted.context(context_id).navigating() {
        let terminal = TerminalView::Cancelled {
            reason: crate::browser::events::NavigationCancellationReason::Superseded,
        };
        let context = v.context(context_id);
        let active = context.active_navigation->Some_0;
        let added = context.end_events(context_id, active, terminal, false);
        assert(v.contexts.contains_key(context_id.raw));
        end_phases(counted, context_id, n, terminal, false);
        phases_concat(v.events, added, fresh);
        no_phases(added, fresh);
    }
}

/// What is told of a navigation that begins is about it alone, and does not end
/// it.
proof fn begun_phases(events: Seq<EventView>, n: NavigationId, fresh: NavigationId)
    requires
        forall|i: int|
            0 <= i < events.len() ==> (#[trigger] events[i] matches
                EventView::NavigationPhaseChanged { navigation_id, phase, .. } ==> navigation_id
                == fresh && !is_terminal(phase)),
    ensures
        still_open(phases(events, n)),
        n != fresh ==> phases(events, n) == Seq::<NavigationPhase>::empty(),
    decreases events.len(),
{
    if events.len() > 0 {
        let rest = events.drop_last();
        assert forall|i: int| 0 <= i < rest.len() implies (#[trigger] rest[i] matches
            EventView::NavigationPhaseChanged { navigation_id, phase, .. } ==> navigation_id
            == fresh && !is_terminal(phase)) by {
            assert(rest[i] == events[i]);
        }
        begun_phases(rest, n, fresh);
        assert(events[events.len() - 1] matches EventView::NavigationPhaseChanged {
            navigation_id,
            phase,
            ..
        } ==> navigation_id == fresh && !is_terminal(phase));
    }
}

/// What keeps the order of the phases.
pub broadcast group group_order {
    calm_steps_keep_order,
    ends_keep_order,
    beginnings_keep_order,
}

/// A browser of which nothing was told and in which nothing is under way is in
/// order.
pub proof fn silence_is_orderly(v: CoreView)
    requires
        v.events.len() == 0,
        forall|id: u64| !v.contexts.contains_key(id),
    ensures
        v.orderly(),
{
    reveal(CoreView::orderly);
}

/// The frontends may take what they were told, all of it or the oldest part.
pub proof fn hearing_keeps_order(v: CoreView, taken: int)
    requires
        v.orderly(),
        0 <= taken <= v.events.len(),
    ensures
        (CoreView { events: v.events.skip(taken), ..v }).orderly(),
{
    reveal(CoreView::orderly);
    let left = v.events.skip(taken);
    let gone = v.events.take(taken);
    let after = CoreView { events: left, ..v };
    assert(v.events =~= gone + left);
    assert forall|n: NavigationId|
        ended_once(#[trigger] phases(after.events, n)) && (phases(after.events, n).len() > 0
            ==> phases(v.events, n).len() > 0) && (still_open(phases(v.events, n))
            ==> still_open(phases(after.events, n))) by {
        phases_concat(gone, left, n);
        let all = phases(v.events, n);
        let rest = phases(left, n);
        let k = phases(gone, n).len() as int;
        assert(ended_once(all));
        assert forall|i: int| 0 <= i < rest.len() implies #[trigger] rest[i] == all[k + i] by {}
    }
    assert forall|id: u64| #[trigger] after.contexts.contains_key(id) implies (
    after.contexts[id].active_navigation matches Some(a) ==> still_open(
        phases(after.events, a.navigation_id),
    ) && crate::browser::registry::was_issued(a.navigation_id.raw, after.ids.next_navigation)) by {
        if let Some(a) = after.contexts[id].active_navigation {
            assert(v.contexts.contains_key(id));
            assert(still_open(phases(v.events, a.navigation_id)));
            assert(ended_once(phases(after.events, a.navigation_id)));
        }
    }
}

/// In every state of the browser, what the frontends have yet to hear of a
/// navigation holds at most one terminal phase, with nothing behind it, and none
/// at all of a navigation that is under way.
pub proof fn navigations_are_told_to_end_once(
    v: CoreView,
    context_id: BrowsingContextId,
    navigation_id: NavigationId,
)
    requires
        v.valid(),
    ensures
        ended_once(phases(v.events, navigation_id)),
        v.is_current(context_id, navigation_id) ==> still_open(phases(v.events, navigation_id)),
{
    reveal(CoreView::orderly);
    assert(v.contexts.contains_key(context_id.raw) == v.has(context_id));
}

} // verus!
