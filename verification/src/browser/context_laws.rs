//! What holds of making, closing and showing browsing contexts.

use vstd::prelude::*;

use crate::browser::contexts::ContextReservation;
use crate::browser::error::ErrorCode;
use crate::browser::events::{EventView, QueueView};
use crate::browser::history::HistoryView;
use crate::browser::ids::BrowsingContextId;
use crate::browser::limits::HostViewState;
use crate::browser::registry::{ConfigView, CoreView, HostRequest};

verus! {

/// A new context shows `about:blank`, has nothing else in its history and nothing
/// under way, and is as large as it is on paper. It has the ids that were kept for
/// it and a runtime of its own, which no other context uses.
pub proof fn new_contexts_are_blank(
    v: CoreView,
    reservation: ContextReservation,
    config: ConfigView,
    host_view: HostViewState,
    title: Option<Seq<char>>,
)
    requires
        v.valid(),
        v.is_reserved(reservation),
    ensures
        ({
            let after = v.created(reservation, config, host_view, title);
            let context = after.context(reservation.context_id);
            &&& after.has(reservation.context_id)
            &&& context.frame_id == reservation.frame_id
            &&& context.document_id == reservation.document_id
            &&& context.runtime_context_id == reservation.runtime_context_id
            &&& context.active_navigation is None
            &&& context.title == title
            &&& context.config == config
            &&& context.host_view == host_view
            &&& context.history.entries.len() == 1
            &&& context.history.index == 0
            &&& context.history.current().url == "about:blank"@
            &&& context.history.current().state is None
            &&& context.page_zoom.magnitude() == vstd::arithmetic::power2::pow2(1074)
            &&& context.page_zoom.is_positive()
            &&& 0 <= context.runtime_slot < after.runtime_slots.len()
            &&& after.runtime_slots[context.runtime_slot]
            &&& forall|k: u64|
                k != reservation.context_id.raw && #[trigger] after.contexts.contains_key(k)
                    ==> after.contexts[k].runtime_slot != context.runtime_slot
        }),
{
    let after = v.created(reservation, config, host_view, title);
    let zoom = after.context(reservation.context_id).page_zoom;
    let unit = 0x10_0000_0000_0000int;
    assert(zoom.bits as int / unit == 1023 && zoom.bits as int % unit == 0);
    assert(zoom.exponent() == 1023);
    vstd::arithmetic::power2::lemma_pow2_adds(52, 1022);
    vstd::arithmetic::power2::lemma2_to64_rest();
    assert(vstd::arithmetic::power2::pow2(52) == unit);
    assert forall|k: u64|
        k != reservation.context_id.raw && #[trigger] after.contexts.contains_key(
            k,
        ) implies after.contexts[k].runtime_slot != after.context(
        reservation.context_id,
    ).runtime_slot by {
        assert(v.contexts.contains_key(k));
    }
}

/// A new context leaves the others as they are. It becomes the active one exactly
/// where no other is. That it was made is told, and whether it is active.
pub proof fn new_contexts_leave_the_others(
    v: CoreView,
    reservation: ContextReservation,
    config: ConfigView,
    host_view: HostViewState,
    title: Option<Seq<char>>,
)
    requires
        v.is_reserved(reservation),
    ensures
        ({
            let after = v.created(reservation, config, host_view, title);
            let id = reservation.context_id;
            let told = EventView::BrowsingContextCreated { state: after.context(id).state(id) };
            &&& forall|k: u64|
                #[trigger] v.contexts.contains_key(k) ==> after.contexts.contains_key(k)
                    && after.contexts[k] == v.contexts[k]
            &&& forall|k: u64|
                #[trigger] after.contexts.contains_key(k) ==> v.contexts.contains_key(k) || k
                    == id.raw
            &&& v.active_context is Some ==> {
                &&& after.active_context == v.active_context
                &&& after.events == v.events.push(told)
            }
            &&& v.active_context is None ==> {
                &&& after.active_context == Some(id)
                &&& after.events == v.events.push(told).push(
                    EventView::ActiveBrowsingContextChanged { context_id: Some(id) },
                )
            }
        }),
{
    let after = v.created(reservation, config, host_view, title);
    let id = reservation.context_id;
    let told = EventView::BrowsingContextCreated { state: after.context(id).state(id) };
    if v.active_context is None {
        assert(after.events =~= v.events.push(told).push(
            EventView::ActiveBrowsingContextChanged { context_id: Some(id) },
        ));
    } else {
        assert(after.events =~= v.events.push(told));
    }
}

/// A context may be made exactly where there are fewer than the limit and ids are
/// left; its ids are the next ones, and each of them is handed out once.
pub proof fn contexts_are_limited(v: CoreView)
    ensures
        v.reservation() is Ok <==> v.contexts.dom().len() < v.max_contexts && v.ids.next_context
            != 0 && v.ids.next_frame != 0 && v.ids.next_document != 0 && v.ids.next_runtime != 0,
        v.contexts.dom().len() >= v.max_contexts ==> (v.reservation() matches Err(e) && e.code
            == ErrorCode::ContextLimit) && v.reserved() == v,
        v.reservation() matches Ok(r) ==> {
            let after = v.reserved();
            &&& r.context_id.raw == v.ids.next_context
            &&& r.frame_id.raw == v.ids.next_frame
            &&& r.document_id.raw == v.ids.next_document
            &&& r.runtime_context_id.raw == v.ids.next_runtime
            &&& after.ids.next_context != r.context_id.raw
            &&& after.ids.next_frame != r.frame_id.raw
            &&& after.ids.next_document != r.document_id.raw
            &&& after.ids.next_runtime != r.runtime_context_id.raw
            &&& after.ids.next_navigation == v.ids.next_navigation
            &&& after.ids.next_request == v.ids.next_request
            &&& after.contexts == v.contexts
            &&& after.events == v.events
        },
{
}

/// A context that is closed is gone for good, its runtime is free, and the others are
/// as they were. Only
/// where it was the active one does another take its place: of those that are left,
/// the one that was made first. It is told last of all, after the end of the
/// context.
pub proof fn closed_contexts_are_gone(v: CoreView, context_id: BrowsingContextId)
    requires
        v.valid(),
        v.has(context_id),
    ensures
        ({
            let after = v.closed(context_id);
            let was_active = v.active_context == Some(context_id);
            &&& !after.has(context_id)
            &&& after.closed_contexts.contains(context_id.raw)
            &&& forall|k: u64|
                k != context_id.raw ==> (#[trigger] after.contexts.contains_key(k)
                    <==> v.contexts.contains_key(k)) && (v.contexts.contains_key(k)
                    ==> after.contexts[k] == v.contexts[k])
            &&& v.context(context_id).runtime_slot < after.runtime_slots.len()
                ==> !after.runtime_slots[v.context(context_id).runtime_slot]
            &&& !was_active ==> after.active_context == v.active_context
            &&& was_active ==> match after.active_context {
                Some(next) => after.has(next) && forall|k: u64|
                    #[trigger] after.contexts.contains_key(k) ==> next.raw <= k,
                None => forall|k: u64| !#[trigger] after.contexts.contains_key(k),
            }
            &&& after.events.len() > v.events.len()
            &&& was_active ==> after.events.last() == (EventView::ActiveBrowsingContextChanged {
                context_id: after.active_context,
            })
            &&& !was_active ==> after.events.last() == (EventView::BrowsingContextClosed {
                context_id,
            })
        }),
{
    let after = v.closed(context_id);
    let slot = v.context(context_id).runtime_slot;
    assert(v.contexts.contains_key(context_id.raw));
    crate::browser::contexts::pruning_keeps_what_is_used(v.runtime_slots.update(slot, false));
    if v.active_context == Some(context_id) {
        if exists|k: u64| #[trigger] after.contexts.contains_key(k) {
            crate::browser::contexts::some_context_is_first(after.contexts);
        }
    }
}

/// A browser that is closing down has nothing under way in any of the contexts it
/// goes through; each of them shows the page that it showed.
pub proof fn closing_down_stops_everything(v: CoreView, ids: Seq<u64>)
    requires
        forall|i: int| 0 <= i < ids.len() ==> v.contexts.contains_key(#[trigger] ids[i]),
    ensures
        ({
            let after = v.all_cancelled(ids);
            &&& forall|k: u64| #[trigger] after.contexts.contains_key(k) <==> v.contexts.contains_key(k)
            &&& forall|i: int|
                0 <= i < ids.len() ==> after.contexts[#[trigger] ids[i]].active_navigation is None
            &&& forall|k: u64| #[trigger]
                v.contexts.contains_key(k) ==> after.contexts[k].history == v.contexts[k].history
                    && after.contexts[k].document_id == v.contexts[k].document_id
                    && after.contexts[k].title == v.contexts[k].title
        }),
    decreases ids.len(),
{
    if ids.len() > 0 {
        let front = ids.drop_last();
        assert forall|i: int| 0 <= i < front.len() implies v.contexts.contains_key(
            #[trigger] front[i],
        ) by {
            assert(front[i] == ids[i]);
        }
        closing_down_stops_everything(v, front);
        let mid = v.all_cancelled(front);
        let after = v.all_cancelled(ids);
        assert(v.contexts.contains_key(ids[ids.len() - 1]));
        assert(mid.contexts.contains_key(ids.last()));
        assert forall|i: int| 0 <= i < ids.len() implies after.contexts[#[trigger] ids[i]].active_navigation
            is None by {
            if i < front.len() {
                assert(front[i] == ids[i]);
            }
        }
    }
}

/// Navigations that are dropped go without a word: nothing is told, no page changes,
/// and only loads that run are called off.
pub proof fn dropped_navigations_go_silently(v: CoreView, context_id: BrowsingContextId)
    requires
        v.has(context_id),
    ensures
        ({
            let after = v.dropped(context_id);
            &&& after.events == v.events
            &&& after.has(context_id)
            &&& after.context(context_id).active_navigation is None
            &&& after.context(context_id).history == v.context(context_id).history
            &&& after.context(context_id).document_id == v.context(context_id).document_id
            &&& match v.context(context_id).active_navigation {
                Some(active) => if active.loading {
                    after.requests == v.requests.push(
                        HostRequest::CancelLoad { context_id, navigation_id: active.navigation_id },
                    )
                } else {
                    after.requests == v.requests
                },
                None => after == v,
            }
            &&& forall|k: u64|
                k != context_id.raw ==> (#[trigger] after.contexts.contains_key(k)
                    <==> v.contexts.contains_key(k)) && (v.contexts.contains_key(k)
                    ==> after.contexts[k] == v.contexts[k])
        }),
{
}

/// A view is taken over exactly where its context is there, its parts are valid, and
/// it is newer than the one that the context has.
pub proof fn only_newer_views_count(
    v: CoreView,
    context_id: BrowsingContextId,
    state: HostViewState,
)
    ensures
        v.host_view_fault(context_id, state) is None <==> {
            &&& crate::browser::limits::viewport_ok(state.viewport)
            &&& crate::browser::limits::host_view_consistent(state)
            &&& v.has(context_id)
            &&& state.generation > v.context(context_id).host_view.generation
        },
        v.has(context_id) && crate::browser::limits::viewport_ok(state.viewport)
            && crate::browser::limits::host_view_consistent(state) && state.generation <= v.context(
            context_id,
        ).host_view.generation ==> (v.host_view_fault(context_id, state) matches Some(e) && e.code
            == ErrorCode::StaleHostView),
{
}

/// What a frontend sees of a history is each of its entries in order, with its URL and
/// title; those that a script put there are marked.
pub proof fn histories_are_shown_whole(h: HistoryView)
    ensures
        ({
            let items = crate::browser::contexts::history_items(h);
            &&& items.len() == h.entries.len()
            &&& forall|i: int|
                0 <= i < items.len() ==> {
                    &&& (#[trigger] items[i]).url == h.entries[i].url
                    &&& items[i].title == h.entries[i].title
                    &&& items[i].same_document <==> h.entries[i].state is Some
                }
        }),
{
}

/// An event that is pushed comes after those that wait. Where there is no room the
/// oldest one makes way and is counted as lost.
pub proof fn full_queues_lose_the_oldest(
    q: QueueView,
    event: crate::browser::events::BrowserEvent,
)
    requires
        q.bounded(),
    ensures
        ({
            let after = q.pushed(event);
            &&& after.capacity == q.capacity
            &&& after.events.last() == event
            &&& q.events.len() < q.capacity ==> after.events == q.events.push(event)
                && after.dropped == q.dropped
            &&& q.events.len() == q.capacity ==> after.events == q.events.skip(1).push(event)
                && (after.dropped == q.dropped + 1 || q.dropped == usize::MAX)
        }),
{
}

/// A new browser has no contexts and room for at least one, has told nothing, and hands
/// out each kind of id from one on.
pub proof fn new_browsers_are_empty(
    max_contexts: usize,
    max_body_bytes: u64,
    document_overrides: Seq<(String, String)>,
)
    ensures
        ({
            let v = CoreView::fresh(max_contexts, max_body_bytes, document_overrides);
            &&& forall|k: u64| !#[trigger] v.contexts.contains_key(k)
            &&& forall|k: u64| !#[trigger] v.closed_contexts.contains(k)
            &&& v.active_context is None
            &&& max_contexts > 0 ==> v.max_contexts == max_contexts
            &&& max_contexts == 0 ==> v.max_contexts == 1
            &&& v.max_body_bytes == max_body_bytes
            &&& v.document_overrides == document_overrides
            &&& v.events.len() == 0
            &&& v.requests.len() == 0
            &&& v.pending_load_starts.len() == 0
            &&& v.pending_navigation_work.len() == 0
            &&& v.runtime_slots.len() == 0
            &&& v.ids.next_context == 1
            &&& v.ids.next_frame == 1
            &&& v.ids.next_navigation == 1
            &&& v.ids.next_document == 1
            &&& v.ids.next_request == 1
            &&& v.ids.next_runtime == 1
        }),
{
}

} // verus!
