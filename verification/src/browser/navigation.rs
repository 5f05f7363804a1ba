//! The course of a navigation.
//!
//! A navigation begins with a load, parses what arrived, commits the new
//! document, runs its scripts and settles. It can fail or be cancelled at any
//! point. Every step names the navigation it is for, and a step for a
//! navigation that is no longer the one under way changes nothing.

use vstd::prelude::*;

use crate::browser::actions::{HistoryUpdate, UpdateView};
use crate::browser::error::{BrowserError, ErrorCode, ErrorView};
use crate::browser::events::{
    BrowserEvent, BrowsingContextState, CrossDocumentNavigationKind, EffectsView, EventView,
    NavigationCancellationReason, NavigationPhase, NetworkView, RuntimeEffects,
    RuntimeNetworkEvent, StateView,
};
use crate::browser::history::HistoryView;
use crate::browser::ids::{BrowsingContextId, FrameId, IdAllocator, NavigationId, RequestId};
use crate::browser::limits::validate_navigation_url;
use crate::browser::registry::{
    context_state, ActiveNavigation, ActiveView, BrowserCore, ContextView, CoreView, HostRequest,
    LoadStart, LoadView, NavigationWork, WorkView,
};
use crate::browser::source::script_request;
use crate::text::{decimal, same_text};

verus! {

/// How a navigation ends.
pub enum NavigationTerminal {
    Settled,
    Failed { request_id: Option<RequestId>, error: BrowserError },
    Cancelled { reason: NavigationCancellationReason },
}

/// A [`NavigationTerminal`] as a value.
pub enum TerminalView {
    Settled,
    Failed { request_id: Option<RequestId>, error: ErrorView },
    Cancelled { reason: NavigationCancellationReason },
}

impl View for NavigationTerminal {
    type V = TerminalView;

    open spec fn view(&self) -> TerminalView {
        match *self {
            NavigationTerminal::Settled => TerminalView::Settled,
            NavigationTerminal::Failed { request_id, error } => TerminalView::Failed {
                request_id,
                error: error@,
            },
            NavigationTerminal::Cancelled { reason } => TerminalView::Cancelled { reason },
        }
    }
}

impl TerminalView {
    /// The phase that reports the end.
    pub open spec fn phase(self) -> NavigationPhase {
        match self {
            TerminalView::Settled => NavigationPhase::Settled,
            TerminalView::Failed { .. } => NavigationPhase::Failed,
            TerminalView::Cancelled { .. } => NavigationPhase::Cancelled,
        }
    }
}

impl ContextView {
    /// What the frontends hear of an external script whose load a cancellation
    /// stops.
    pub open spec fn script_cancelled(
        self,
        context_id: BrowsingContextId,
        active: ActiveView,
    ) -> Seq<EventView> {
        match active.pending_script {
            None => Seq::empty(),
            Some(pending) => {
                let request_id = crate::text::decimal_text(pending.key.request_id.raw as nat);
                seq![
                    EventView::RuntimeEffects {
                        context_id,
                        frame_id: self.frame_id,
                        document_id: self.document_id,
                        runtime_context_id: self.runtime_context_id,
                        url: self.history.current().url,
                        effects: EffectsView {
                            network: seq![
                                NetworkView::Request {
                                    request_id,
                                    url: pending.url,
                                    method: "GET"@,
                                },
                                NetworkView::Failure {
                                    request_id,
                                    url: pending.url,
                                    error_text: "external script load canceled"@,
                                    blocked_reason: Some("canceled"@),
                                },
                            ],
                            ..EffectsView::none()
                        },
                    },
                ]
            },
        }
    }

    /// What the frontends hear of the end of a navigation.
    pub open spec fn end_events(
        self,
        context_id: BrowsingContextId,
        active: ActiveView,
        terminal: TerminalView,
        emit_state: bool,
    ) -> Seq<EventView> {
        let stopped = if terminal is Cancelled {
            self.script_cancelled(context_id, active)
        } else {
            Seq::empty()
        };
        let phase = seq![
            EventView::phase(context_id, self.frame_id, active.navigation_id, terminal.phase()),
        ];
        let end = match terminal {
            TerminalView::Settled => Seq::empty(),
            TerminalView::Failed { request_id, error } => seq![
                EventView::NavigationFailed {
                    context_id,
                    frame_id: self.frame_id,
                    navigation_id: active.navigation_id,
                    request_id,
                    error,
                },
            ],
            TerminalView::Cancelled { reason } => seq![
                EventView::NavigationCancelled {
                    context_id,
                    frame_id: self.frame_id,
                    navigation_id: active.navigation_id,
                    request_id: Some(active.request_id),
                    reason,
                },
            ],
        };
        let state = if emit_state {
            seq![
                EventView::BrowsingContextStateChanged {
                    state: self.with_active(None).state(context_id),
                },
            ]
        } else {
            Seq::empty()
        };
        stopped + phase + end + state
    }

    /// The history once a navigation has come to `final_url`.
    ///
    /// A push replaces the blank page that a context starts with. A history
    /// that the navigation brings along stays, except where the document came
    /// from another URL than the entry names.
    pub open spec fn committed_history(
        self,
        update: UpdateView,
        final_url: Seq<char>,
    ) -> HistoryView {
        let entry = crate::browser::history::navigation_entry(final_url);
        match update {
            UpdateView::Push => if self.history.entries.len() == 1 && self.history.current().url
                == "about:blank"@ {
                self.history.replaced(entry)
            } else {
                self.history.pushed(entry)
            },
            UpdateView::Replace => self.history.replaced(entry),
            UpdateView::Preserve(history) => if history.current().url == final_url {
                history
            } else {
                history.replaced(entry)
            },
        }
    }
}

/// What the frontends hear of the beginning of a navigation.
pub open spec fn begin_events(
    context_id: BrowsingContextId,
    frame_id: FrameId,
    navigation_id: NavigationId,
    request_id: RequestId,
    predecessor_navigation_id: Option<NavigationId>,
    kind: CrossDocumentNavigationKind,
    url: Seq<char>,
    state: StateView,
) -> Seq<EventView> {
    seq![
        EventView::NavigationRequested {
            context_id,
            frame_id,
            navigation_id,
            predecessor_navigation_id,
            kind,
            url,
        },
        EventView::phase(context_id, frame_id, navigation_id, NavigationPhase::Intent),
        EventView::BrowsingContextStateChanged { state },
        EventView::phase(context_id, frame_id, navigation_id, NavigationPhase::Policy),
        EventView::NavigationStarted { context_id, frame_id, navigation_id, request_id, url },
        EventView::phase(context_id, frame_id, navigation_id, NavigationPhase::Request),
    ]
}

/// The document that stands in for what the server of `url` would send.
pub open spec fn overridden(overrides: Seq<(String, String)>, url: Seq<char>) -> Option<Seq<char>>
    decreases overrides.len(),
{
    if overrides.len() == 0 {
        None
    } else if overrides[0].0@ == url {
        Some(overrides[0].1@)
    } else {
        overridden(overrides.drop_first(), url)
    }
}

impl CoreView {
    /// `navigation_id` is under way in the context.
    pub open spec fn is_current(
        self,
        context_id: BrowsingContextId,
        navigation_id: NavigationId,
    ) -> bool {
        self.has(context_id) && self.context(context_id).is_at(navigation_id)
    }

    /// The browser after a navigation ended.
    pub open spec fn finished(
        self,
        context_id: BrowsingContextId,
        navigation_id: NavigationId,
        terminal: TerminalView,
        emit_state: bool,
    ) -> CoreView {
        if !self.is_current(context_id, navigation_id) {
            self
        } else {
            let context = self.context(context_id);
            let active = context.active_navigation->Some_0;
            CoreView {
                contexts: self.contexts.insert(context_id.raw, context.with_active(None)),
                requests: if terminal is Cancelled && active.loading {
                    self.requests.push(HostRequest::CancelLoad { context_id, navigation_id })
                } else {
                    self.requests
                },
                events: self.events + context.end_events(context_id, active, terminal, emit_state),
                ..self
            }
        }
    }

    /// The browser after a navigation failed.
    pub open spec fn failed(
        self,
        context_id: BrowsingContextId,
        navigation_id: NavigationId,
        request_id: Option<RequestId>,
        error: ErrorView,
    ) -> CoreView {
        self.finished(
            context_id,
            navigation_id,
            TerminalView::Failed { request_id, error },
            true,
        )
    }

    /// The browser after the navigation of a context was cancelled.
    pub open spec fn cancelled(
        self,
        context_id: BrowsingContextId,
        reason: NavigationCancellationReason,
        emit_state: bool,
    ) -> CoreView {
        match self.context(context_id).navigating() {
            Some(navigation_id) => self.finished(
                context_id,
                navigation_id,
                TerminalView::Cancelled { reason },
                emit_state,
            ),
            None => self,
        }
    }

    /// The browser after the ids of a navigation and its first request are out.
    pub open spec fn with_navigation_ids(self) -> CoreView {
        CoreView {
            ids: IdAllocator {
                next_navigation: crate::browser::ids::counter_after(self.ids.next_navigation),
                next_request: crate::browser::ids::counter_after(self.ids.next_request),
                ..self.ids
            },
            ..self
        }
    }

    /// Why a navigation cannot begin.
    pub open spec fn navigation_fault(
        self,
        context_id: BrowsingContextId,
        url: Seq<char>,
    ) -> Option<ErrorView> {
        if !self.has(context_id) {
            Some(self.missing_context(context_id))
        } else if !crate::browser::limits::url_ok(url) {
            Some(
                ErrorView::new(
                    ErrorCode::InvalidArgument,
                    "navigation URL exceeds the browser limit"@,
                ),
            )
        } else if self.ids.next_navigation == 0 || self.ids.next_request == 0 {
            Some(ErrorView::exhausted_ids())
        } else {
            None
        }
    }

    /// The browser after a navigation began, or after it could not.
    pub open spec fn begun(
        self,
        context_id: BrowsingContextId,
        url: Seq<char>,
        injected_html: Option<Seq<char>>,
        history_update: UpdateView,
        kind: CrossDocumentNavigationKind,
        predecessor_navigation_id: Option<NavigationId>,
    ) -> CoreView {
        if !self.has(context_id) || !crate::browser::limits::url_ok(url) {
            self
        } else if self.ids.next_navigation == 0 || self.ids.next_request == 0 {
            CoreView {
                ids: IdAllocator {
                    next_navigation: crate::browser::ids::counter_after(self.ids.next_navigation),
                    ..self.ids
                },
                ..self
            }
        } else {
            let navigation_id = NavigationId { raw: self.ids.next_navigation };
            let request_id = RequestId { raw: self.ids.next_request };
            let free = self.with_navigation_ids().cancelled(
                context_id,
                NavigationCancellationReason::Superseded,
                false,
            );
            let frame_id = self.context(context_id).frame_id;
            let context = free.context(context_id).with_active(
                Some(
                    ActiveView {
                        navigation_id,
                        request_id,
                        history_update,
                        work: None,
                        loading: true,
                        pending_script: None,
                    },
                ),
            );
            CoreView {
                pending_load_starts: self.pending_load_starts.push(
                    LoadView {
                        context_id,
                        navigation_id,
                        url,
                        injected_html: match injected_html {
                            Some(html) => Some(html),
                            None => overridden(self.document_overrides, url),
                        },
                    },
                ),
                ..free.with_context(context_id, context).telling(
                    begin_events(
                        context_id,
                        frame_id,
                        navigation_id,
                        request_id,
                        predecessor_navigation_id,
                        kind,
                        url,
                        context.state(context_id),
                    ),
                )
            }
        }
    }

    /// The browser with the work of a navigation put back, if it is still under
    /// way and has none.
    pub open spec fn restored(
        self,
        context_id: BrowsingContextId,
        navigation_id: NavigationId,
        work: WorkView,
    ) -> CoreView {
        if self.is_current(context_id, navigation_id) && self.context(
            context_id,
        ).active_navigation->Some_0.work is None {
            CoreView {
                pending_navigation_work: self.pending_navigation_work.push(
                    (context_id, navigation_id),
                ),
                ..self.with_context(context_id, self.context(context_id).with_work(Some(work)))
            }
        } else {
            self
        }
    }
}

/// Handing out the ids of a navigation keeps the browser valid.
proof fn counted_is_valid(v: CoreView)
    requires
        v.valid(),
    ensures
        v.with_navigation_ids().valid(),
{
    crate::browser::order::calm_steps_keep_order(v, v.with_navigation_ids());
}

/// The beginning of a navigation keeps the browser valid.
proof fn beginnings_are_valid(
    v: CoreView,
    context_id: BrowsingContextId,
    url: Seq<char>,
    injected_html: Option<Seq<char>>,
    update: UpdateView,
    kind: CrossDocumentNavigationKind,
    predecessor: Option<NavigationId>,
)
    requires
        v.valid(),
        update.valid(),
    ensures
        v.begun(context_id, url, injected_html, update, kind, predecessor).valid(),
{
    crate::browser::order::beginnings_keep_order(
        v,
        context_id,
        url,
        injected_html,
        update,
        kind,
        predecessor,
    );
}

impl BrowserCore {
    /// Ends a navigation. One that is not under way has ended before.
    pub fn finish_navigation(
        &mut self,
        context_id: BrowsingContextId,
        navigation_id: NavigationId,
        terminal: NavigationTerminal,
        emit_state: bool,
    ) -> (r: Result<bool, BrowserError>)
        requires
            old(self).wf(),
        ensures
            final(self).wf(),
            final(self)@ == old(self)@.finished(context_id, navigation_id, terminal@, emit_state),
            ErrorView::outcome(r) == if old(self)@.has(context_id) {
                Ok(old(self)@.is_current(context_id, navigation_id))
            } else {
                Err(old(self)@.missing_context(context_id))
            },
    {
        broadcast use crate::browser::order::group_order;

        let current = match self.context(context_id) {
            Err(e) => return Err(e),
            Ok(context) => match &context.active_navigation {
                Some(active) => active.navigation_id == navigation_id,
                None => false,
            },
        };
        if !current {
            return Ok(false);
        }
        let ghost before = self@;
        let mut context = self.take_context(context_id);
        let active = context.active_navigation.take().unwrap();
        let frame_id = context.frame_id;
        let document_id = context.document_id;
        let runtime_context_id = context.runtime_context_id;
        let document_url = context.history.url().to_owned();
        let state = context_state(context_id, &context);
        let active_request_id = active.request_id;
        let loading = active.loading;
        let pending = active.pending_script;
        self.put_context(context_id, context);
        let ghost gone = before.context(context_id).with_active(None);
        assert(self@ =~= before.with_context(context_id, gone));
        let ghost base = self@;
        let ghost events = before.context(context_id).end_events(
            context_id,
            before.context(context_id).active_navigation->Some_0,
            terminal@,
            emit_state,
        );
        if let NavigationTerminal::Cancelled { .. } = &terminal {
            if loading {
                self.ask(HostRequest::CancelLoad { context_id, navigation_id });
            }
            if let Some(pending) = pending {
                let request_id = decimal(pending.key.request_id.raw);
                let mut network: Vec<RuntimeNetworkEvent> = Vec::new();
                network.push(script_request(request_id.as_str(), pending.url.as_str()));
                network.push(
                    RuntimeNetworkEvent::Failure {
                        request_id: request_id.clone(),
                        url: pending.url.clone(),
                        error_text: "external script load canceled".to_owned(),
                        blocked_reason: Some("canceled".to_owned()),
                    },
                );
                let effects = RuntimeEffects::of_network(network);
                assert(effects@.network =~= seq![
                    NetworkView::Request { request_id: request_id@, url: pending.url@, method: "GET"@ },
                    NetworkView::Failure {
                        request_id: request_id@,
                        url: pending.url@,
                        error_text: "external script load canceled"@,
                        blocked_reason: Some("canceled"@),
                    },
                ]);
                self.emit(
                    BrowserEvent::RuntimeEffects {
                        context_id,
                        frame_id,
                        document_id,
                        runtime_context_id,
                        url: document_url,
                        effects,
                    },
                );
            }
        }
        let phase = match &terminal {
            NavigationTerminal::Settled => NavigationPhase::Settled,
            NavigationTerminal::Failed { .. } => NavigationPhase::Failed,
            NavigationTerminal::Cancelled { .. } => NavigationPhase::Cancelled,
        };
        self.emit_phase(context_id, frame_id, navigation_id, phase);
        match terminal {
            NavigationTerminal::Settled => {},
            NavigationTerminal::Failed { request_id, error } => {
                self.emit(
                    BrowserEvent::NavigationFailed {
                        context_id,
                        frame_id,
                        navigation_id,
                        request_id,
                        error,
                    },
                );
            },
            NavigationTerminal::Cancelled { reason } => {
                self.emit(
                    BrowserEvent::NavigationCancelled {
                        context_id,
                        frame_id,
                        navigation_id,
                        request_id: Some(active_request_id),
                        reason,
                    },
                );
            },
        }
        if emit_state {
            self.emit(BrowserEvent::BrowsingContextStateChanged { state });
        }
        assert(self@.events =~= before.events + events);
        assert(self@ =~= before.finished(context_id, navigation_id, terminal@, emit_state));
        Ok(true)
    }

    /// Ends a navigation as failed.
    pub fn fail_navigation(
        &mut self,
        context_id: BrowsingContextId,
        navigation_id: NavigationId,
        request_id: Option<RequestId>,
        error: BrowserError,
    )
        requires
            old(self).wf(),
        ensures
            final(self).wf(),
            final(self)@ == old(self)@.failed(context_id, navigation_id, request_id, error@),
    {
        broadcast use crate::browser::order::group_order;

        let _ = self.finish_navigation(
            context_id,
            navigation_id,
            NavigationTerminal::Failed { request_id, error },
            true,
        );
    }

    /// Cancels the navigation of a context, and says whether there was one.
    pub fn cancel_active_navigation(
        &mut self,
        context_id: BrowsingContextId,
        reason: NavigationCancellationReason,
        emit_state: bool,
    ) -> (r: Result<bool, BrowserError>)
        requires
            old(self).wf(),
        ensures
            final(self).wf(),
            old(self)@.has(context_id) ==> {
                &&& final(self)@ == old(self)@.cancelled(context_id, reason, emit_state)
                &&& r == Ok::<bool, BrowserError>(
                    old(self)@.context(context_id).active_navigation is Some,
                )
            },
            !old(self)@.has(context_id) ==> {
                &&& final(self)@ == old(self)@
                &&& r is Err
                &&& r->Err_0@ == old(self)@.missing_context(context_id)
            },
    {
        broadcast use crate::browser::order::group_order;

        let navigation_id = match self.context(context_id) {
            Err(e) => return Err(e),
            Ok(context) => match &context.active_navigation {
                Some(active) => active.navigation_id,
                None => return Ok(false),
            },
        };
        let _ = self.finish_navigation(
            context_id,
            navigation_id,
            NavigationTerminal::Cancelled { reason },
            emit_state,
        );
        Ok(true)
    }

    /// Stops the navigation of a context.
    pub fn stop(&mut self, context_id: BrowsingContextId) -> (r: Result<(), BrowserError>)
        requires
            old(self).wf(),
        ensures
            final(self).wf(),
            old(self)@.has(context_id) ==> r is Ok && final(self)@ == old(self)@.cancelled(
                context_id,
                NavigationCancellationReason::Stopped,
                true,
            ),
            !old(self)@.has(context_id) ==> r is Err && r->Err_0@ == old(self)@.missing_context(
                context_id,
            ) && final(self)@ == old(self)@,
    {
        broadcast use crate::browser::order::group_order;

        match self.cancel_active_navigation(
            context_id,
            NavigationCancellationReason::Stopped,
            true,
        ) {
            Ok(_) => Ok(()),
            Err(e) => Err(e),
        }
    }

    /// The document that stands in for what the server of `url` would send.
    fn document_override(&self, url: &str) -> (r: Option<String>)
        ensures
            crate::weburl::UrlView::optional(r) == overridden(self.document_overrides@, url@),
    {
        let mut i: usize = 0;
        let ghost all = self.document_overrides@;
        assert(all.skip(0) =~= all);
        while i < self.document_overrides.len()
            invariant
                i <= all.len(),
                all == self.document_overrides@,
                overridden(all, url@) == overridden(all.skip(i as int), url@),
            decreases all.len() - i,
        {
            assert(all.skip(i as int).drop_first() =~= all.skip(i + 1));
            if same_text(self.document_overrides[i].0.as_str(), url) {
                return Some(self.document_overrides[i].1.clone());
            }
            i += 1;
        }
        None
    }

    /// Reports that a navigation begins.
    fn tell_beginning(
        &mut self,
        context_id: BrowsingContextId,
        frame_id: FrameId,
        navigation_id: NavigationId,
        request_id: RequestId,
        predecessor_navigation_id: Option<NavigationId>,
        kind: CrossDocumentNavigationKind,
        url: &str,
        state: BrowsingContextState,
    )
        ensures
            final(self)@ == old(self)@.telling(
                begin_events(
                    context_id,
                    frame_id,
                    navigation_id,
                    request_id,
                    predecessor_navigation_id,
                    kind,
                    url@,
                    state@,
                ),
            ),
    {
        let ghost before = self@;
        let ghost shown = state@;
        self.emit(
            BrowserEvent::NavigationRequested {
                context_id,
                frame_id,
                navigation_id,
                predecessor_navigation_id,
                kind,
                url: url.to_owned(),
            },
        );
        self.emit_phase(context_id, frame_id, navigation_id, NavigationPhase::Intent);
        self.emit(BrowserEvent::BrowsingContextStateChanged { state });
        self.emit_phase(context_id, frame_id, navigation_id, NavigationPhase::Policy);
        self.emit(
            BrowserEvent::NavigationStarted {
                context_id,
                frame_id,
                navigation_id,
                request_id,
                url: url.to_owned(),
            },
        );
        self.emit_phase(context_id, frame_id, navigation_id, NavigationPhase::Request);
        assert(self@.events =~= before.telling(
            begin_events(
                context_id,
                frame_id,
                navigation_id,
                request_id,
                predecessor_navigation_id,
                kind,
                url@,
                shown,
            ),
        ).events);
    }

    /// Puts a navigation under way in a context that has none, and says which
    /// frame it is in and how the context is then.
    fn start_navigation(
        &mut self,
        context_id: BrowsingContextId,
        active: ActiveNavigation,
    ) -> (r: (FrameId, BrowsingContextState))
        requires
            old(self).wf(),
            old(self)@.has(context_id),
        ensures
            ({
                let context = old(self)@.context(context_id).with_active(Some(active@));
                &&& final(self)@ == old(self)@.with_context(context_id, context)
                &&& r.0 == context.frame_id
                &&& r.1@ == context.state(context_id)
            }),
    {
        let ghost before = self@;
        let mut context = self.take_context(context_id);
        let frame_id = context.frame_id;
        context.active_navigation = Some(active);
        let state = context_state(context_id, &context);
        let ghost now = context@;
        self.put_context(context_id, context);
        assert(self@ =~= before.with_context(context_id, now));
        (frame_id, state)
    }

    /// Begins a navigation to another document. The one that was under way is
    /// superseded.
    pub fn begin_navigation(
        &mut self,
        context_id: BrowsingContextId,
        url: String,
        injected_html: Option<String>,
        history_update: HistoryUpdate,
        kind: CrossDocumentNavigationKind,
        predecessor_navigation_id: Option<NavigationId>,
    ) -> (r: Result<NavigationId, BrowserError>)
        requires
            old(self).wf(),
            history_update@.valid(),
        ensures
            final(self).wf(),
            final(self)@ == old(self)@.begun(
                context_id,
                url@,
                crate::weburl::UrlView::optional(injected_html),
                history_update@,
                kind,
                predecessor_navigation_id,
            ),
            ErrorView::outcome(r) == match old(self)@.navigation_fault(context_id, url@) {
                Some(e) => Err(e),
                None => Ok(NavigationId { raw: old(self)@.ids.next_navigation }),
            },
    {
        let ghost before = self@;
        proof {
            beginnings_are_valid(
                before,
                context_id,
                url@,
                crate::weburl::UrlView::optional(injected_html),
                history_update@,
                kind,
                predecessor_navigation_id,
            );
        }
        match self.ensure_context(context_id) {
            Ok(()) => {},
            Err(e) => return Err(e),
        }
        match validate_navigation_url(url.as_str()) {
            Ok(()) => {},
            Err(e) => return Err(e),
        }
        let navigation_id = match self.ids.navigation() {
            Ok(id) => id,
            Err(e) => return Err(e),
        };
        let request_id = match self.ids.request() {
            Ok(id) => id,
            Err(e) => return Err(e),
        };
        assert(self@ =~= before.with_navigation_ids());
        proof {
            counted_is_valid(before);
        }
        let _ = self.cancel_active_navigation(
            context_id,
            NavigationCancellationReason::Superseded,
            false,
        );
        let active = ActiveNavigation {
            navigation_id,
            request_id,
            history_update,
            work: None,
            loading: true,
            pending_script: None,
        };
        let (frame_id, state) = self.start_navigation(context_id, active);
        self.tell_beginning(
            context_id,
            frame_id,
            navigation_id,
            request_id,
            predecessor_navigation_id,
            kind,
            url.as_str(),
            state,
        );
        let html = match injected_html {
            Some(html) => Some(html),
            None => self.document_override(url.as_str()),
        };
        let start = LoadStart { context_id, navigation_id, url, injected_html: html };
        let ghost starts = self.pending_load_starts@;
        self.pending_load_starts.push(start);
        assert(LoadView::all(self.pending_load_starts@) =~= LoadView::all(starts).push(start@));
        assert(self@ =~= before.begun(
            context_id,
            url@,
            crate::weburl::UrlView::optional(injected_html),
            history_update@,
            kind,
            predecessor_navigation_id,
        ));
        Ok(navigation_id)
    }

    /// Puts back the work of a navigation, if it is still under way and has
    /// none.
    pub fn restore_navigation_work(
        &mut self,
        context_id: BrowsingContextId,
        navigation_id: NavigationId,
        work: NavigationWork,
    )
        requires
            old(self).wf(),
        ensures
            final(self).wf(),
            final(self)@ == old(self)@.restored(context_id, navigation_id, work@),
    {
        broadcast use crate::browser::order::group_order;

        let ghost before = self@;
        let current = match self.contexts.get(&context_id.raw) {
            None => false,
            Some(context) => match &context.active_navigation {
                Some(active) => active.navigation_id == navigation_id && active.work.is_none(),
                None => false,
            },
        };
        if !current {
            return;
        }
        let mut context = self.take_context(context_id);
        let mut active = context.active_navigation.take().unwrap();
        active.work = Some(work);
        context.active_navigation = Some(active);
        let ghost now = context@;
        self.put_context(context_id, context);
        assert(now =~= before.context(context_id).with_work(Some(work@)));
        self.pending_navigation_work.push_back((context_id, navigation_id));
        assert(self@ =~= before.restored(context_id, navigation_id, work@));
    }
}

} // verus!
