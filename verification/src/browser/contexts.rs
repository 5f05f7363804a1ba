//! The life of browsing contexts.

use vstd::prelude::*;

use crate::browser::error::{joined, BrowserError, ErrorCode, ErrorView};
use crate::browser::events::{
    BrowserEvent, BrowsingContextState, EventView, NavigationCancellationReason, StateView,
};
use crate::browser::history::{copy_optional, HistoryEntry, HistoryView, SessionHistory};
use crate::browser::ids::{
    BrowsingContextId, DocumentId, FrameId, IdAllocator, RuntimeContextId,
};
use crate::browser::limits::{validate_host_view, validate_page_zoom, Float64, HostViewState};
use crate::browser::registry::{
    context_state, BrowserCore, BrowsingContext, BrowsingContextConfig, ConfigView, ContextView,
    CoreView, HostRequest,
};
use crate::text::decimal;

verus! {

/// The bit pattern of 1.0.
pub const UNIT_ZOOM_BITS: u64 = 0x3FF0_0000_0000_0000;

/// The ids of a context that is about to be made.
#[derive(Clone, Copy, Debug, PartialEq, Eq, Structural)]
pub struct ContextReservation {
    pub context_id: BrowsingContextId,
    pub frame_id: FrameId,
    pub document_id: DocumentId,
    pub runtime_context_id: RuntimeContextId,
}

/// Every context as a frontend sees it.
pub struct BrowserSnapshot {
    pub active_context_id: Option<BrowsingContextId>,
    pub contexts: Vec<BrowsingContextState>,
}

/// The open pages, to be opened again later.
pub struct ProfileSessionState {
    pub tabs: Vec<String>,
    pub active_index: usize,
}

/// An entry of a history as a frontend sees it.
pub struct NavigationHistoryEntry {
    pub url: String,
    pub title: Option<String>,
    pub same_document: bool,
}

/// A [`NavigationHistoryEntry`] as a value.
pub struct HistoryItemView {
    pub url: Seq<char>,
    pub title: Option<Seq<char>>,
    pub same_document: bool,
}

impl View for NavigationHistoryEntry {
    type V = HistoryItemView;

    open spec fn view(&self) -> HistoryItemView {
        HistoryItemView {
            url: self.url@,
            title: crate::browser::history::optional_text(self.title),
            same_document: self.same_document,
        }
    }
}

/// A history as a frontend sees it.
pub struct NavigationHistorySnapshot {
    pub current_index: usize,
    pub entries: Vec<NavigationHistoryEntry>,
}

/// The runtimes that are left when those at the end that nobody uses are gone.
pub open spec fn pruned(slots: Seq<bool>) -> Seq<bool>
    decreases slots.len(),
{
    if slots.len() > 0 && !slots.last() {
        pruned(slots.drop_last())
    } else {
        slots
    }
}

/// Pruning removes only runtimes that nobody uses, and only at the end.
pub proof fn pruning_keeps_what_is_used(slots: Seq<bool>)
    ensures
        pruned(slots).len() <= slots.len(),
        pruned(slots) == slots.subrange(0, pruned(slots).len() as int),
        forall|i: int| pruned(slots).len() <= i < slots.len() ==> !slots[i],
        pruned(slots).len() > 0 ==> pruned(slots).last(),
    decreases slots.len(),
{
    if slots.len() > 0 && !slots.last() {
        pruning_keeps_what_is_used(slots.drop_last());
        assert(slots.drop_last().subrange(0, pruned(slots).len() as int) =~= slots.subrange(
            0,
            pruned(slots).len() as int,
        ));
        assert forall|i: int| pruned(slots).len() <= i < slots.len() implies !slots[i] by {
            if i < slots.len() - 1 {
                assert(slots.drop_last()[i] == slots[i]);
            }
        }
    } else {
        assert(slots.subrange(0, slots.len() as int) =~= slots);
    }
}

/// `id` is the smallest key of a map.
pub open spec fn is_first(contexts: Map<u64, ContextView>, id: u64) -> bool {
    contexts.contains_key(id) && forall|k: u64| #[trigger] contexts.contains_key(k) ==> id <= k
}

/// The context with the smallest id, if there is one.
pub open spec fn first_context(contexts: Map<u64, ContextView>) -> Option<BrowsingContextId> {
    if exists|id: u64| is_first(contexts, id) {
        Some(BrowsingContextId { raw: choose|id: u64| is_first(contexts, id) })
    } else {
        None
    }
}

impl CoreView {
    /// No more contexts may be made.
    pub open spec fn is_full(self) -> bool {
        self.contexts.dom().len() >= self.max_contexts
    }

    /// The ids after those of a new context are out, as far as there were any:
    /// they are taken in the order context, frame, document, runtime.
    pub open spec fn reserved_ids(ids: IdAllocator) -> IdAllocator {
        let context = IdAllocator {
            next_context: crate::browser::ids::counter_after(ids.next_context),
            ..ids
        };
        let frame = IdAllocator {
            next_frame: crate::browser::ids::counter_after(ids.next_frame),
            ..context
        };
        let document = IdAllocator {
            next_document: crate::browser::ids::counter_after(ids.next_document),
            ..frame
        };
        let runtime = IdAllocator {
            next_runtime: crate::browser::ids::counter_after(ids.next_runtime),
            ..document
        };
        if ids.next_context == 0 {
            context
        } else if ids.next_frame == 0 {
            frame
        } else if ids.next_document == 0 {
            document
        } else {
            runtime
        }
    }

    /// The ids of a new context, or why there are none.
    pub open spec fn reservation(self) -> Result<ContextReservation, ErrorView> {
        let ids = self.ids;
        if self.is_full() {
            Err(
                ErrorView::new(
                    ErrorCode::ContextLimit,
                    "browser context limit "@ + crate::text::decimal_text(self.max_contexts as nat)
                        + " reached"@,
                ),
            )
        } else if ids.next_context == 0 || ids.next_frame == 0 || ids.next_document == 0
            || ids.next_runtime == 0 {
            Err(ErrorView::exhausted_ids())
        } else {
            Ok(
                ContextReservation {
                    context_id: BrowsingContextId { raw: ids.next_context },
                    frame_id: FrameId { raw: ids.next_frame },
                    document_id: DocumentId { raw: ids.next_document },
                    runtime_context_id: RuntimeContextId { raw: ids.next_runtime },
                },
            )
        }
    }

    /// The browser after ids were taken for a new context.
    pub open spec fn reserved(self) -> CoreView {
        if self.is_full() {
            self
        } else {
            CoreView { ids: CoreView::reserved_ids(self.ids), ..self }
        }
    }

    /// The ids are out, and no context has them.
    pub open spec fn is_reserved(self, reservation: ContextReservation) -> bool {
        let id = reservation.context_id.raw;
        &&& crate::browser::registry::was_issued(id, self.ids.next_context)
        &&& !self.contexts.contains_key(id)
        &&& !self.closed_contexts.contains(id)
    }

    /// A new context, on a blank page.
    pub open spec fn blank_context(
        self,
        reservation: ContextReservation,
        config: ConfigView,
        host_view: HostViewState,
        title: Option<Seq<char>>,
    ) -> ContextView {
        ContextView {
            frame_id: reservation.frame_id,
            document_id: reservation.document_id,
            runtime_context_id: reservation.runtime_context_id,
            active_navigation: None,
            title,
            history: HistoryView::single(
                crate::browser::history::navigation_entry("about:blank"@),
            ),
            runtime_slot: self.runtime_slots.len() as int,
            config,
            host_view,
            page_zoom: Float64 { bits: UNIT_ZOOM_BITS },
        }
    }

    /// The browser after a context was made. The first one becomes active.
    pub open spec fn created(
        self,
        reservation: ContextReservation,
        config: ConfigView,
        host_view: HostViewState,
        title: Option<Seq<char>>,
    ) -> CoreView {
        let context = self.blank_context(reservation, config, host_view, title);
        let id = reservation.context_id;
        CoreView {
            contexts: self.contexts.insert(id.raw, context),
            runtime_slots: self.runtime_slots.push(true),
            active_context: match self.active_context {
                Some(active) => Some(active),
                None => Some(id),
            },
            events: self.events + seq![
                EventView::BrowsingContextCreated { state: context.state(id) },
            ] + if self.active_context is None {
                seq![EventView::ActiveBrowsingContextChanged { context_id: Some(id) }]
            } else {
                Seq::empty()
            },
            ..self
        }
    }

    /// The browser after a context was closed. Where it was the active one, the
    /// one with the smallest id takes its place.
    pub open spec fn closed(self, context_id: BrowsingContextId) -> CoreView {
        let free = self.cancelled(
            context_id,
            NavigationCancellationReason::ContextClosed,
            false,
        );
        let context = free.context(context_id);
        let contexts = free.contexts.remove(context_id.raw);
        let was_active = free.active_context == Some(context_id);
        let active_context = if was_active {
            first_context(contexts)
        } else {
            free.active_context
        };
        CoreView {
            contexts,
            runtime_slots: pruned(free.runtime_slots.update(context.runtime_slot, false)),
            closed_contexts: free.closed_contexts.insert(context_id.raw),
            active_context,
            events: free.events + seq![
                EventView::RuntimeContextDestroyed {
                    context_id,
                    frame_id: context.frame_id,
                    document_id: context.document_id,
                    runtime_context_id: context.runtime_context_id,
                },
                EventView::DocumentDiscarded {
                    context_id,
                    frame_id: context.frame_id,
                    document_id: context.document_id,
                    replaced_by: None,
                },
                EventView::BrowsingContextClosed { context_id },
            ] + if was_active {
                seq![EventView::ActiveBrowsingContextChanged { context_id: active_context }]
            } else {
                Seq::empty()
            },
            ..free
        }
    }

    /// The browser after the navigations of contexts were cancelled in turn.
    pub open spec fn all_cancelled(self, ids: Seq<u64>) -> CoreView
        decreases ids.len(),
    {
        if ids.len() == 0 {
            self
        } else {
            self.all_cancelled(ids.drop_last()).cancelled(
                BrowsingContextId { raw: ids.last() },
                NavigationCancellationReason::BrowserShutdown,
                true,
            )
        }
    }

    /// The browser after the navigation of a context was dropped without a word.
    pub open spec fn dropped(self, context_id: BrowsingContextId) -> CoreView {
        let context = self.context(context_id);
        match context.active_navigation {
            None => self,
            Some(active) => CoreView {
                requests: if active.loading {
                    self.requests.push(
                        HostRequest::CancelLoad {
                            context_id,
                            navigation_id: active.navigation_id,
                        },
                    )
                } else {
                    self.requests
                },
                ..self.with_context(context_id, context.with_active(None))
            },
        }
    }

    /// The browser after the navigations of contexts were dropped in turn.
    pub open spec fn all_dropped(self, ids: Seq<u64>) -> CoreView
        decreases ids.len(),
    {
        if ids.len() == 0 {
            self
        } else {
            self.all_dropped(ids.drop_last()).dropped(BrowsingContextId { raw: ids.last() })
        }
    }

    /// Why a host view update is refused.
    pub open spec fn host_view_fault(
        self,
        context_id: BrowsingContextId,
        state: HostViewState,
    ) -> Option<ErrorView> {
        if !crate::browser::limits::viewport_ok(state.viewport) {
            Some(
                ErrorView::new(
                    ErrorCode::InvalidArgument,
                    "viewport must be within 1x1 and 16384x16384"@,
                ),
            )
        } else if !crate::browser::limits::host_view_consistent(state) {
            Some(
                ErrorView::new(
                    ErrorCode::InvalidArgument,
                    "host view generation and scale factor must be valid"@,
                ),
            )
        } else if !self.has(context_id) {
            Some(self.missing_context(context_id))
        } else if state.generation <= self.context(context_id).host_view.generation {
            Some(
                ErrorView::new(
                    ErrorCode::StaleHostView,
                    "host view generation "@ + crate::text::decimal_text(state.generation as nat)
                        + " is not newer than "@ + crate::text::decimal_text(
                        self.context(context_id).host_view.generation as nat,
                    ),
                ),
            )
        } else {
            None
        }
    }

    /// The states of contexts in the order of `ids`.
    pub open spec fn states(self, ids: Seq<u64>) -> Seq<StateView> {
        Seq::new(
            ids.len(),
            |i: int| self.contexts[ids[i]].state(BrowsingContextId { raw: ids[i] }),
        )
    }

    /// The URLs of contexts in the order of `ids`.
    pub open spec fn urls(self, ids: Seq<u64>) -> Seq<Seq<char>> {
        Seq::new(ids.len(), |i: int| self.contexts[ids[i]].history.current().url)
    }
}

/// States as values.
pub open spec fn state_views(s: Seq<BrowsingContextState>) -> Seq<StateView> {
    Seq::new(s.len(), |i: int| s[i]@)
}

/// Texts as values.
pub open spec fn text_views(s: Seq<String>) -> Seq<Seq<char>> {
    Seq::new(s.len(), |i: int| s[i]@)
}

/// What a frontend sees of a history.
pub open spec fn history_items(h: HistoryView) -> Seq<HistoryItemView> {
    Seq::new(
        h.entries.len(),
        |i: int|
            HistoryItemView {
                url: h.entries[i].url,
                title: h.entries[i].title,
                same_document: h.entries[i].state is Some,
            },
    )
}

/// History items as values.
pub open spec fn item_views(s: Seq<NavigationHistoryEntry>) -> Seq<HistoryItemView> {
    Seq::new(s.len(), |i: int| s[i]@)
}

impl BrowserCore {
    /// Takes ids for a new context, if there is room for one.
    pub fn reserve_context(&mut self) -> (r: Result<ContextReservation, BrowserError>)
        requires
            old(self).wf(),
        ensures
            final(self).wf(),
            final(self)@ == old(self)@.reserved(),
            ErrorView::outcome(r) == old(self)@.reservation(),
            r matches Ok(reservation) ==> final(self)@.is_reserved(reservation),
    {
        broadcast use crate::browser::order::group_order;

        let ghost before = self@;
        assert(before.contexts.dom() =~= self.contexts@.dom());
        if self.contexts.len() >= self.max_contexts {
            let mut message = joined(
                "browser context limit ",
                decimal(self.max_contexts as u64).as_str(),
            );
            message.append(" reached");
            return Err(BrowserError::with_message(ErrorCode::ContextLimit, message));
        }
        let context_id = match self.ids.context() {
            Ok(id) => id,
            Err(e) => {
                assert(self@ =~= before.reserved());
                return Err(e);
            },
        };
        let frame_id = match self.ids.frame() {
            Ok(id) => id,
            Err(e) => {
                assert(self@ =~= before.reserved());
                return Err(e);
            },
        };
        let document_id = match self.ids.document() {
            Ok(id) => id,
            Err(e) => {
                assert(self@ =~= before.reserved());
                return Err(e);
            },
        };
        let runtime_context_id = match self.ids.runtime() {
            Ok(id) => id,
            Err(e) => {
                assert(self@ =~= before.reserved());
                return Err(e);
            },
        };
        assert(self@ =~= before.reserved());
        Ok(ContextReservation { context_id, frame_id, document_id, runtime_context_id })
    }

    /// Makes a context on a blank page, once the host has set up its runtime.
    pub fn create_context(
        &mut self,
        reservation: ContextReservation,
        config: BrowsingContextConfig,
        host_view: HostViewState,
        title: Option<String>,
    ) -> (r: BrowsingContextId)
        requires
            old(self).wf(),
            old(self)@.is_reserved(reservation),
        ensures
            final(self).wf(),
            final(self)@ == old(self)@.created(
                reservation,
                config@,
                host_view,
                crate::browser::history::optional_text(title),
            ),
            r == reservation.context_id,
    {
        broadcast use crate::browser::order::group_order;

        let ghost before = self@;
        let context_id = reservation.context_id;
        let runtime_slot: usize = self.runtime_slots.len();
        self.runtime_slots.push(true);
        let context = BrowsingContext {
            frame_id: reservation.frame_id,
            document_id: reservation.document_id,
            runtime_context_id: reservation.runtime_context_id,
            active_navigation: None,
            title,
            history: SessionHistory::new(HistoryEntry::navigation("about:blank".to_owned())),
            runtime_slot,
            config,
            host_view,
            page_zoom: Float64 { bits: UNIT_ZOOM_BITS },
        };
        let state = context_state(context_id, &context);
        self.put_context(context_id, context);
        self.emit(BrowserEvent::BrowsingContextCreated { state });
        if self.active_context.is_none() {
            self.active_context = Some(context_id);
            self.emit(BrowserEvent::ActiveBrowsingContextChanged { context_id: Some(context_id) });
        }
        assert(self@.events =~= before.created(
            reservation,
            config@,
            host_view,
            crate::browser::history::optional_text(title),
        ).events);
        assert(self@ =~= before.created(
            reservation,
            config@,
            host_view,
            crate::browser::history::optional_text(title),
        ));
        context_id
    }

    /// Drops the runtimes at the end that nobody uses.
    fn prune_runtime_slots(&mut self)
        ensures
            final(self)@ == (CoreView {
                runtime_slots: pruned(old(self)@.runtime_slots),
                ..old(self)@
            }),
    {
        let ghost before = self@;
        while self.runtime_slots.len() > 0 && !self.runtime_slots[self.runtime_slots.len() - 1]
            invariant
                pruned(self.runtime_slots@) == pruned(before.runtime_slots),
                self@ == (CoreView { runtime_slots: self.runtime_slots@, ..before }),
            decreases self.runtime_slots@.len(),
        {
            let ghost now = self.runtime_slots@;
            let _ = self.runtime_slots.pop();
            assert(self.runtime_slots@ =~= now.drop_last());
            assert(self@ =~= (CoreView { runtime_slots: self.runtime_slots@, ..before }));
        }
    }

    /// The context with the smallest id, if there is one.
    fn first_context(&self) -> (r: Option<BrowsingContextId>)
        ensures
            r == first_context(self@.contexts),
    {
        let ids = self.context_ids();
        let ghost contexts = self@.contexts;
        if ids.len() == 0 {
            assert forall|id: u64| !is_first(contexts, id) by {
                if contexts.contains_key(id) {
                    assert(contexts.dom().contains(id));
                    assert(ids@.contains(id));
                }
            }
            None
        } else {
            proof {
                let first = ids@[0];
                assert(contexts.dom().contains(first));
                assert forall|k: u64| #[trigger] contexts.contains_key(k) implies first <= k by {
                    assert(contexts.dom().contains(k));
                    assert(ids@.contains(k));
                    let i = choose|i: int| 0 <= i < ids@.len() && ids@[i] == k;
                    if i > 0 {
                        assert(ids@[0] < ids@[i]);
                    }
                }
                assert(is_first(contexts, first));
                let chosen = choose|id: u64| is_first(contexts, id);
                assert(is_first(contexts, chosen));
                assert(contexts.contains_key(chosen));
            }
            Some(BrowsingContextId { raw: ids[0] })
        }
    }

    /// Closes a context. Its navigation is cancelled, and its id is never used
    /// again.
    pub fn close_context(&mut self, context_id: BrowsingContextId) -> (r: Result<(), BrowserError>)
        requires
            old(self).wf(),
        ensures
            final(self).wf(),
            old(self)@.has(context_id) ==> r is Ok && final(self)@ == old(self)@.closed(context_id),
            !old(self)@.has(context_id) ==> r is Err && r->Err_0@ == old(self)@.missing_context(
                context_id,
            ) && final(self)@ == old(self)@,
    {
        broadcast use crate::browser::order::group_order;

        let ghost before = self@;
        match self.cancel_active_navigation(
            context_id,
            NavigationCancellationReason::ContextClosed,
            false,
        ) {
            Ok(_) => {},
            Err(e) => return Err(e),
        }
        let ghost free = self@;
        assert(free.valid());
        let context = self.take_context(context_id);
        let ghost gone = context@;
        self.runtime_slots.set(context.runtime_slot, false);
        self.emit(
            BrowserEvent::RuntimeContextDestroyed {
                context_id,
                frame_id: context.frame_id,
                document_id: context.document_id,
                runtime_context_id: context.runtime_context_id,
            },
        );
        self.emit(
            BrowserEvent::DocumentDiscarded {
                context_id,
                frame_id: context.frame_id,
                document_id: context.document_id,
                replaced_by: None,
            },
        );
        let _ = self.closed_contexts.insert(context_id.raw);
        self.emit(BrowserEvent::BrowsingContextClosed { context_id });
        let was_active = match self.active_context {
            Some(active) => active == context_id,
            None => false,
        };
        if was_active {
            let next = self.first_context();
            self.active_context = next;
            self.emit(BrowserEvent::ActiveBrowsingContextChanged { context_id: next });
        }
        let ghost unpruned = self@;
        self.prune_runtime_slots();
        assert(self@.events =~= before.closed(context_id).events);
        assert(self@ =~= before.closed(context_id));
        proof {
            pruning_keeps_what_is_used(unpruned.runtime_slots);
            let contexts = self@.contexts;
            assert forall|id: u64| #[trigger] contexts.contains_key(id) implies {
                let c = contexts[id];
                &&& c.valid()
                &&& 0 <= c.runtime_slot < self@.runtime_slots.len()
                &&& self@.runtime_slots[c.runtime_slot]
                &&& crate::browser::registry::was_issued(id, self@.ids.next_context)
                &&& !self@.closed_contexts.contains(id)
            } by {
                assert(free.contexts.contains_key(id));
                assert(free.contexts[id].runtime_slot != free.contexts[context_id.raw].runtime_slot);
                let slot = contexts[id].runtime_slot;
                assert(unpruned.runtime_slots[slot]);
            }
            if was_active {
                if exists|id: u64| contexts.contains_key(id) {
                    some_context_is_first(contexts);
                } else {
                    assert(forall|id: u64| !is_first(contexts, id));
                }
            }
        }
        Ok(())
    }

    /// Makes a context the active one.
    pub fn activate_context(&mut self, context_id: BrowsingContextId) -> (r: Result<
        (),
        BrowserError,
    >)
        requires
            old(self).wf(),
        ensures
            final(self).wf(),
            old(self)@.has(context_id) ==> r is Ok && final(self)@ == (CoreView {
                active_context: Some(context_id),
                ..old(self)@.telling(
                    seq![EventView::ActiveBrowsingContextChanged { context_id: Some(context_id) }],
                )
            }),
            !old(self)@.has(context_id) ==> r is Err && r->Err_0@ == old(self)@.missing_context(
                context_id,
            ) && final(self)@ == old(self)@,
    {
        broadcast use crate::browser::order::group_order;

        match self.ensure_context(context_id) {
            Ok(()) => {},
            Err(e) => return Err(e),
        }
        self.active_context = Some(context_id);
        self.emit(BrowserEvent::ActiveBrowsingContextChanged { context_id: Some(context_id) });
        Ok(())
    }

    /// Every context as a frontend sees it, in the order of their ids.
    pub fn browser_snapshot(&self) -> (r: BrowserSnapshot)
        requires
            self.wf(),
        ensures
            r.active_context_id == self@.active_context,
            exists|ids: Seq<u64>| #[trigger]
                crate::browser::registry::lists_in_order(ids, self@.contexts.dom()) && state_views(
                    r.contexts@,
                ) == self@.states(ids),
    {
        let ids = self.context_ids();
        let mut contexts: Vec<BrowsingContextState> = Vec::new();
        let mut i: usize = 0;
        while i < ids.len()
            invariant
                self.wf(),
                i <= ids@.len(),
                crate::browser::registry::lists_in_order(ids@, self@.contexts.dom()),
                state_views(contexts@) == self@.states(ids@).take(i as int),
            decreases ids@.len() - i,
        {
            let ghost done = state_views(contexts@);
            let context_id = BrowsingContextId { raw: ids[i] };
            assert(self@.contexts.dom().contains(ids@[i as int]));
            let state = context_state(context_id, self.contexts.get(&ids[i]).unwrap());
            contexts.push(state);
            i += 1;
            assert(state_views(contexts@) =~= done.push(state@));
            assert(self@.states(ids@).take(i as int) =~= self@.states(ids@).take(i - 1).push(
                self@.states(ids@)[i - 1],
            ));
        }
        assert(self@.states(ids@).take(ids@.len() as int) =~= self@.states(ids@));
        BrowserSnapshot { active_context_id: self.active_context, contexts }
    }

    /// The open pages in the order of their contexts' ids, and which of them is
    /// active.
    pub fn save_current_profile_session(&self) -> (r: ProfileSessionState)
        requires
            self.wf(),
        ensures
            exists|ids: Seq<u64>| #[trigger]
                crate::browser::registry::lists_in_order(ids, self@.contexts.dom()) && text_views(
                    r.tabs@,
                ) == self@.urls(ids) && match self@.active_context {
                    Some(active) => r.active_index < ids.len() && ids[r.active_index as int]
                        == active.raw,
                    None => r.active_index == 0,
                },
    {
        let ids = self.context_ids();
        let mut tabs: Vec<String> = Vec::new();
        let mut active_index: usize = 0;
        let mut i: usize = 0;
        while i < ids.len()
            invariant
                self.wf(),
                i <= ids@.len(),
                crate::browser::registry::lists_in_order(ids@, self@.contexts.dom()),
                text_views(tabs@) == self@.urls(ids@).take(i as int),
                match self@.active_context {
                    Some(active) => (exists|k: int| 0 <= k < i && ids@[k] == active.raw)
                        ==> active_index < i && ids@[active_index as int] == active.raw,
                    None => active_index == 0,
                },
            decreases ids@.len() - i,
        {
            let ghost done = text_views(tabs@);
            assert(self@.contexts.dom().contains(ids@[i as int]));
            let url = self.contexts.get(&ids[i]).unwrap().history.url().to_owned();
            tabs.push(url);
            if let Some(active) = self.active_context {
                if active.raw == ids[i] {
                    active_index = i;
                }
            }
            i += 1;
            assert(text_views(tabs@) =~= done.push(url@));
            assert(self@.urls(ids@).take(i as int) =~= self@.urls(ids@).take(i - 1).push(
                self@.urls(ids@)[i - 1],
            ));
        }
        assert(self@.urls(ids@).take(ids@.len() as int) =~= self@.urls(ids@));
        proof {
            if let Some(active) = self@.active_context {
                assert(self@.contexts.dom().contains(active.raw));
                assert(ids@.contains(active.raw));
            }
        }
        ProfileSessionState { tabs, active_index }
    }

    /// The runtimes whose network state is to be cleared with the profile: all
    /// that are in use, where cookies or the cache go.
    pub fn runtimes_to_clear(&self, cookies: bool, fetch_cache: bool) -> (r: Vec<usize>)
        ensures
            !cookies && !fetch_cache ==> r@.len() == 0,
            cookies || fetch_cache ==> {
                &&& forall|i: int|
                    0 <= i < r@.len() ==> 0 <= #[trigger] r@[i] < self@.runtime_slots.len()
                        && self@.runtime_slots[r@[i] as int]
                &&& forall|i: int, j: int| 0 <= i < j < r@.len() ==> r@[i] < r@[j]
                &&& forall|slot: usize|
                    slot < self@.runtime_slots.len() && self@.runtime_slots[slot as int]
                        ==> #[trigger] r@.contains(slot)
            },
    {
        let mut r: Vec<usize> = Vec::new();
        if !cookies && !fetch_cache {
            return r;
        }
        let mut i: usize = 0;
        while i < self.runtime_slots.len()
            invariant
                i <= self.runtime_slots@.len(),
                forall|k: int|
                    0 <= k < r@.len() ==> 0 <= #[trigger] r@[k] < i
                        && self.runtime_slots@[r@[k] as int],
                forall|a: int, b: int| 0 <= a < b < r@.len() ==> r@[a] < r@[b],
                forall|slot: usize|
                    slot < i && self.runtime_slots@[slot as int] ==> #[trigger] r@.contains(slot),
            decreases self.runtime_slots@.len() - i,
        {
            let ghost done = r@;
            if self.runtime_slots[i] {
                r.push(i);
                assert(r@[done.len() as int] == i);
                assert forall|slot: usize|
                    slot < i + 1 && self.runtime_slots@[slot as int] implies #[trigger] r@.contains(
                    slot,
                ) by {
                    if slot < i {
                        assert(done.contains(slot));
                        let k = choose|k: int| 0 <= k < done.len() && done[k] == slot;
                        assert(r@[k] == slot);
                    }
                }
            }
            i += 1;
        }
        r
    }

    /// Sets the configuration of a context, once the host has applied it.
    pub fn configure_context(
        &mut self,
        context_id: BrowsingContextId,
        config: BrowsingContextConfig,
    ) -> (r: Result<(), BrowserError>)
        requires
            old(self).wf(),
        ensures
            final(self).wf(),
            old(self)@.has(context_id) ==> r is Ok && final(self)@ == old(self)@.with_context(
                context_id,
                ContextView { config: config@, ..old(self)@.context(context_id) },
            ),
            !old(self)@.has(context_id) ==> r is Err && r->Err_0@ == old(self)@.missing_context(
                context_id,
            ) && final(self)@ == old(self)@,
    {
        broadcast use crate::browser::order::group_order;

        let ghost before = self@;
        match self.ensure_context(context_id) {
            Ok(()) => {},
            Err(e) => return Err(e),
        }
        let mut context = self.take_context(context_id);
        context.config = config;
        let ghost now = context@;
        self.put_context(context_id, context);
        assert(self@ =~= before.with_context(context_id, now));
        Ok(())
    }

    /// Takes what the host reports of a view, if it is newer than what it
    /// reported before.
    pub fn update_host_view_state(
        &mut self,
        context_id: BrowsingContextId,
        state: HostViewState,
    ) -> (r: Result<(), BrowserError>)
        requires
            old(self).wf(),
        ensures
            final(self).wf(),
            match old(self)@.host_view_fault(context_id, state) {
                Some(e) => r is Err && r->Err_0@ == e && final(self)@ == old(self)@,
                None => {
                    let context = old(self)@.context(context_id);
                    &&& r is Ok
                    &&& final(self)@ == old(self)@.with_context(
                        context_id,
                        ContextView { host_view: state, ..context },
                    )
                },
            },
    {
        broadcast use crate::browser::order::group_order;

        let ghost before = self@;
        match validate_host_view(&state) {
            Ok(()) => {},
            Err(e) => return Err(e),
        }
        let current_generation: u64 = match self.context(context_id) {
            Err(e) => return Err(e),
            Ok(context) => context.host_view.generation,
        };
        if state.generation <= current_generation {
            let mut message = joined("host view generation ", decimal(state.generation).as_str());
            message.append(" is not newer than ");
            message.append(decimal(current_generation).as_str());
            return Err(BrowserError::with_message(ErrorCode::StaleHostView, message));
        }
        let mut context = self.take_context(context_id);
        context.host_view = state;
        let ghost now = context@;
        self.put_context(context_id, context);
        assert(self@ =~= before.with_context(context_id, now));
        Ok(())
    }

    /// Sets the zoom of a page.
    pub fn set_page_zoom(&mut self, context_id: BrowsingContextId, zoom: Float64) -> (r: Result<
        (),
        BrowserError,
    >)
        requires
            old(self).wf(),
        ensures
            final(self).wf(),
            if !crate::browser::limits::zoom_ok(zoom) {
                &&& r is Err
                &&& r->Err_0@ == ErrorView::new(
                    ErrorCode::InvalidArgument,
                    "page zoom must be finite and between 0.25 and 5"@,
                )
                &&& final(self)@ == old(self)@
            } else if !old(self)@.has(context_id) {
                &&& r is Err
                &&& r->Err_0@ == old(self)@.missing_context(context_id)
                &&& final(self)@ == old(self)@
            } else {
                let context = old(self)@.context(context_id);
                &&& r is Ok
                &&& final(self)@ == old(self)@.with_context(
                    context_id,
                    ContextView { page_zoom: zoom, ..context },
                )
            },
    {
        broadcast use crate::browser::order::group_order;

        let ghost before = self@;
        match validate_page_zoom(zoom) {
            Ok(()) => {},
            Err(e) => return Err(e),
        }
        match self.ensure_context(context_id) {
            Ok(()) => {},
            Err(e) => return Err(e),
        }
        let mut context = self.take_context(context_id);
        context.page_zoom = zoom;
        let ghost now = context@;
        self.put_context(context_id, context);
        assert(self@ =~= before.with_context(context_id, now));
        Ok(())
    }

    /// Takes the title that a page has now.
    pub fn set_page_title(&mut self, context_id: BrowsingContextId, title: Option<String>) -> (r:
        Result<(), BrowserError>)
        requires
            old(self).wf(),
        ensures
            final(self).wf(),
            old(self)@.has(context_id) ==> r is Ok && final(self)@ == old(self)@.with_context(
                context_id,
                ContextView {
                    title: crate::browser::history::optional_text(title),
                    ..old(self)@.context(context_id)
                },
            ),
            !old(self)@.has(context_id) ==> r is Err && r->Err_0@ == old(self)@.missing_context(
                context_id,
            ) && final(self)@ == old(self)@,
    {
        broadcast use crate::browser::order::group_order;

        let ghost before = self@;
        match self.ensure_context(context_id) {
            Ok(()) => {},
            Err(e) => return Err(e),
        }
        let mut context = self.take_context(context_id);
        context.title = title;
        let ghost now = context@;
        self.put_context(context_id, context);
        assert(self@ =~= before.with_context(context_id, now));
        Ok(())
    }

    /// The history of a page as a frontend sees it.
    pub fn navigation_history(&self, context_id: BrowsingContextId) -> (r: Result<
        NavigationHistorySnapshot,
        BrowserError,
    >)
        ensures
            match r {
                Ok(snapshot) => self@.has(context_id) && snapshot.current_index == self@.context(
                    context_id,
                ).history.index && item_views(snapshot.entries@) == history_items(
                    self@.context(context_id).history,
                ),
                Err(e) => !self@.has(context_id) && e@ == self@.missing_context(context_id),
            },
    {
        let context = match self.context(context_id) {
            Ok(context) => context,
            Err(e) => return Err(e),
        };
        let history = &context.history;
        let ghost target = history_items(history@);
        let mut entries: Vec<NavigationHistoryEntry> = Vec::new();
        let mut i: usize = 0;
        while i < history.entries.len()
            invariant
                i <= history.entries@.len(),
                target == history_items(history@),
                item_views(entries@) == target.take(i as int),
            decreases history.entries@.len() - i,
        {
            let ghost done = item_views(entries@);
            let entry = &history.entries[i];
            let item = NavigationHistoryEntry {
                url: entry.url.clone(),
                title: copy_optional(&entry.title),
                same_document: entry.state.is_some(),
            };
            entries.push(item);
            assert(item@ == target[i as int]);
            i += 1;
            assert(item_views(entries@) =~= done.push(item@));
            assert(target.take(i as int) =~= target.take(i - 1).push(target[i - 1]));
        }
        assert(target.take(target.len() as int) =~= target);
        Ok(NavigationHistorySnapshot { current_index: history.index(), entries })
    }

    /// Forgets the history of a page but for where it is now.
    pub fn reset_navigation_history(&mut self, context_id: BrowsingContextId) -> (r: Result<
        (),
        BrowserError,
    >)
        requires
            old(self).wf(),
        ensures
            final(self).wf(),
            old(self)@.has(context_id) ==> r is Ok && final(self)@ == old(self)@.with_context(
                context_id,
                ContextView {
                    history: HistoryView::single(
                        crate::browser::history::navigation_entry(
                            old(self)@.context(context_id).history.current().url,
                        ),
                    ),
                    ..old(self)@.context(context_id)
                },
            ),
            !old(self)@.has(context_id) ==> r is Err && r->Err_0@ == old(self)@.missing_context(
                context_id,
            ) && final(self)@ == old(self)@,
    {
        broadcast use crate::browser::order::group_order;

        let ghost before = self@;
        match self.ensure_context(context_id) {
            Ok(()) => {},
            Err(e) => return Err(e),
        }
        let mut context = self.take_context(context_id);
        let url = context.history.url().to_owned();
        context.history = SessionHistory::new(HistoryEntry::navigation(url));
        let ghost now = context@;
        self.put_context(context_id, context);
        assert(self@ =~= before.with_context(context_id, now));
        Ok(())
    }

    /// Cancels every navigation, in the order of the contexts' ids.
    pub fn shutdown(&mut self)
        requires
            old(self).wf(),
        ensures
            final(self).wf(),
            exists|ids: Seq<u64>| #[trigger]
                crate::browser::registry::lists_in_order(ids, old(self)@.contexts.dom()) && final(self)@ == old(self)@.all_cancelled(ids),
    {
        broadcast use crate::browser::order::group_order;

        let ghost before = self@;
        let ids = self.context_ids();
        let mut i: usize = 0;
        assert(ids@.take(0) =~= Seq::<u64>::empty());
        while i < ids.len()
            invariant
                self.wf(),
                i <= ids@.len(),
                crate::browser::registry::lists_in_order(ids@, before.contexts.dom()),
                self@.contexts.dom() == before.contexts.dom(),
                self@ == before.all_cancelled(ids@.take(i as int)),
            decreases ids@.len() - i,
        {
            assert(before.contexts.dom().contains(ids@[i as int]));
            assert(self@.contexts.dom().contains(ids@[i as int]));
            let ghost now = self@;
            let _ = self.cancel_active_navigation(
                BrowsingContextId { raw: ids[i] },
                NavigationCancellationReason::BrowserShutdown,
                true,
            );
            assert(self@.contexts.dom() =~= now.contexts.dom());
            i += 1;
            assert(ids@.take(i as int).drop_last() =~= ids@.take(i - 1));
        }
        assert(ids@.take(ids@.len() as int) =~= ids@);
    }

    /// Drops the navigation of a context without a word.
    fn drop_navigation(&mut self, context_id: BrowsingContextId)
        requires
            old(self).wf(),
            old(self)@.has(context_id),
        ensures
            final(self).wf(),
            final(self)@ == old(self)@.dropped(context_id),
    {
        broadcast use crate::browser::order::group_order;

        let ghost before = self@;
        let mut context = self.take_context(context_id);
        let active = context.active_navigation.take();
        let ghost now = context@;
        self.put_context(context_id, context);
        assert(self@ =~= before.with_context(context_id, now));
        match active {
            None => {
                assert(self@ =~= before);
            },
            Some(active) => {
                if active.loading {
                    self.ask(
                        HostRequest::CancelLoad {
                            context_id,
                            navigation_id: active.navigation_id,
                        },
                    );
                }
                assert(self@ =~= before.dropped(context_id));
            },
        }
    }

    /// Drops every navigation without a word, in the order of the contexts'
    /// ids, and has their loads stopped.
    pub fn cancel_all_loads(&mut self)
        requires
            old(self).wf(),
        ensures
            final(self).wf(),
            exists|ids: Seq<u64>| #[trigger]
                crate::browser::registry::lists_in_order(ids, old(self)@.contexts.dom())
                    && final(self)@ == old(self)@.all_dropped(ids),
    {
        broadcast use crate::browser::order::group_order;

        let ghost before = self@;
        let ids = self.context_ids();
        let mut i: usize = 0;
        assert(ids@.take(0) =~= Seq::<u64>::empty());
        while i < ids.len()
            invariant
                self.wf(),
                i <= ids@.len(),
                crate::browser::registry::lists_in_order(ids@, before.contexts.dom()),
                self@.contexts.dom() == before.contexts.dom(),
                self@ == before.all_dropped(ids@.take(i as int)),
            decreases ids@.len() - i,
        {
            assert(before.contexts.dom().contains(ids@[i as int]));
            assert(self@.contexts.dom().contains(ids@[i as int]));
            let ghost now = self@;
            self.drop_navigation(BrowsingContextId { raw: ids[i] });
            assert(self@.contexts.dom() =~= now.contexts.dom());
            i += 1;
            assert(ids@.take(i as int).drop_last() =~= ids@.take(i - 1));
        }
        assert(ids@.take(ids@.len() as int) =~= ids@);
    }
}

/// Where there is a context, one has the smallest id.
pub proof fn some_context_is_first(contexts: Map<u64, ContextView>)
    requires
        exists|id: u64| contexts.contains_key(id),
    ensures
        exists|id: u64| is_first(contexts, id),
{
    let id = choose|id: u64| contexts.contains_key(id);
    least_below(contexts, id);
}

proof fn least_below(contexts: Map<u64, ContextView>, id: u64)
    requires
        contexts.contains_key(id),
    ensures
        exists|k: u64| is_first(contexts, k),
    decreases id,
{
    if exists|k: u64| contexts.contains_key(k) && k < id {
        let k = choose|k: u64| contexts.contains_key(k) && k < id;
        least_below(contexts, k);
    } else {
        assert(is_first(contexts, id));
    }
}

} // verus!
