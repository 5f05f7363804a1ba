//! What the browser tells its frontends, and the queue that carries it.

use std::collections::VecDeque;

use vstd::prelude::*;

use crate::browser::error::{joined, BrowserError, ErrorCode, ErrorView};
use crate::browser::ids::{
    BrowsingContextId, DocumentId, FrameId, NavigationId, RequestId, RuntimeContextId,
};
use crate::browser::limits::Float64;
use crate::text::decimal;

verus! {

/// How far a navigation has come.
#[derive(Clone, Copy, Debug, PartialEq, Eq, Structural)]
pub enum NavigationPhase {
    Intent,
    Policy,
    Request,
    Response,
    Commit,
    Parse,
    ScriptsAndSubresources,
    DomContentLoaded,
    Load,
    Settled,
    Failed,
    Cancelled,
}

/// Why a navigation was cancelled.
#[derive(Clone, Copy, Debug, PartialEq, Eq, Structural)]
pub enum NavigationCancellationReason {
    Superseded,
    Stopped,
    ContextClosed,
    BrowserShutdown,
}

/// What a navigation to another document does to the present one.
#[derive(Clone, Copy, Debug, PartialEq, Eq, Structural)]
pub enum CrossDocumentNavigationKind {
    Regular,
    ContentReplacement { replaced_document_id: DocumentId },
}

/// What a frontend sees of a browsing context.
pub struct BrowsingContextState {
    pub context_id: BrowsingContextId,
    pub main_frame_id: FrameId,
    pub document_id: DocumentId,
    pub runtime_context_id: Option<RuntimeContextId>,
    pub active_navigation_id: Option<NavigationId>,
    pub url: String,
    pub title: Option<String>,
    pub history_length: usize,
    pub history_index: usize,
    pub can_go_back: bool,
    pub can_go_forward: bool,
    pub is_loading: bool,
    /// How much of the page is loaded, in percent.
    pub load_progress: u8,
    pub page_zoom: Float64,
}

/// A [`BrowsingContextState`] as a value.
pub struct StateView {
    pub context_id: BrowsingContextId,
    pub main_frame_id: FrameId,
    pub document_id: DocumentId,
    pub runtime_context_id: Option<RuntimeContextId>,
    pub active_navigation_id: Option<NavigationId>,
    pub url: Seq<char>,
    pub title: Option<Seq<char>>,
    pub history_length: int,
    pub history_index: int,
    pub can_go_back: bool,
    pub can_go_forward: bool,
    pub is_loading: bool,
    pub load_progress: int,
    pub page_zoom: Float64,
}

impl View for BrowsingContextState {
    type V = StateView;

    open spec fn view(&self) -> StateView {
        StateView {
            context_id: self.context_id,
            main_frame_id: self.main_frame_id,
            document_id: self.document_id,
            runtime_context_id: self.runtime_context_id,
            active_navigation_id: self.active_navigation_id,
            url: self.url@,
            title: match self.title {
                Some(t) => Some(t@),
                None => None,
            },
            history_length: self.history_length as int,
            history_index: self.history_index as int,
            can_go_back: self.can_go_back,
            can_go_forward: self.can_go_forward,
            is_loading: self.is_loading,
            load_progress: self.load_progress as int,
            page_zoom: self.page_zoom,
        }
    }
}

/// A network event of a page, as a frontend sees it.
pub enum RuntimeNetworkEvent {
    Request { request_id: String, url: String, method: String },
    Redirect { request_id: String, from: String, to: String, status: u16 },
    Response { request_id: String, url: String, status: u16 },
    Failure {
        request_id: String,
        url: String,
        error_text: String,
        blocked_reason: Option<String>,
    },
}

/// A [`RuntimeNetworkEvent`] as a value.
pub enum NetworkView {
    Request { request_id: Seq<char>, url: Seq<char>, method: Seq<char> },
    Redirect { request_id: Seq<char>, from: Seq<char>, to: Seq<char>, status: u16 },
    Response { request_id: Seq<char>, url: Seq<char>, status: u16 },
    Failure {
        request_id: Seq<char>,
        url: Seq<char>,
        error_text: Seq<char>,
        blocked_reason: Option<Seq<char>>,
    },
}

impl View for RuntimeNetworkEvent {
    type V = NetworkView;

    open spec fn view(&self) -> NetworkView {
        match self {
            RuntimeNetworkEvent::Request { request_id, url, method } => NetworkView::Request {
                request_id: request_id@,
                url: url@,
                method: method@,
            },
            RuntimeNetworkEvent::Redirect { request_id, from, to, status } =>
            NetworkView::Redirect {
                request_id: request_id@,
                from: from@,
                to: to@,
                status: *status,
            },
            RuntimeNetworkEvent::Response { request_id, url, status } => NetworkView::Response {
                request_id: request_id@,
                url: url@,
                status: *status,
            },
            RuntimeNetworkEvent::Failure { request_id, url, error_text, blocked_reason } =>
            NetworkView::Failure {
                request_id: request_id@,
                url: url@,
                error_text: error_text@,
                blocked_reason: match blocked_reason {
                    Some(reason) => Some(reason@),
                    None => None,
                },
            },
        }
    }
}

/// The value of an argument to a console call.
pub enum RuntimeConsoleValue {
    Text(String),
    Number(Float64),
    Bool(bool),
    Null,
}

/// An argument to a console call.
pub struct RuntimeConsoleArg {
    pub type_label: String,
    pub subtype: Option<String>,
    pub value: Option<RuntimeConsoleValue>,
    pub unserializable_value: Option<String>,
    pub description: Option<String>,
}

/// A console call of a page.
pub struct RuntimeConsoleEvent {
    pub kind: String,
    pub args: Vec<RuntimeConsoleArg>,
}

/// A dialog that a page opened.
pub struct RuntimeDialogEvent {
    pub kind: String,
    pub message: String,
    pub default_prompt: Option<String>,
}

/// A call of a host binding.
pub struct RuntimeBindingEvent {
    pub name: String,
    pub payload: String,
}

/// A script that failed.
pub struct RuntimeExceptionEvent {
    pub error: BrowserError,
}

/// What running scripts brought about besides changes to the page.
pub struct RuntimeEffects {
    pub console: Vec<RuntimeConsoleEvent>,
    pub dialogs: Vec<RuntimeDialogEvent>,
    pub bindings: Vec<RuntimeBindingEvent>,
    pub network: Vec<RuntimeNetworkEvent>,
    pub exceptions: Vec<RuntimeExceptionEvent>,
}

/// [`RuntimeEffects`] as a value.
#[verifier::ext_equal]
pub struct EffectsView {
    pub console: Seq<RuntimeConsoleEvent>,
    pub dialogs: Seq<RuntimeDialogEvent>,
    pub bindings: Seq<RuntimeBindingEvent>,
    pub network: Seq<NetworkView>,
    pub exceptions: Seq<ErrorView>,
}

impl View for RuntimeEffects {
    type V = EffectsView;

    open spec fn view(&self) -> EffectsView {
        EffectsView {
            console: self.console@,
            dialogs: self.dialogs@,
            bindings: self.bindings@,
            network: NetworkView::all(self.network@),
            exceptions: EffectsView::errors(self.exceptions@),
        }
    }
}

impl NetworkView {
    /// Network events as values.
    pub open spec fn all(s: Seq<RuntimeNetworkEvent>) -> Seq<NetworkView> {
        Seq::new(s.len(), |i: int| s[i]@)
    }
}

impl EffectsView {
    /// The errors of failed scripts as values.
    pub open spec fn errors(s: Seq<RuntimeExceptionEvent>) -> Seq<ErrorView> {
        Seq::new(s.len(), |i: int| s[i].error@)
    }

    /// No effect at all.
    pub open spec fn none() -> EffectsView {
        EffectsView {
            console: Seq::empty(),
            dialogs: Seq::empty(),
            bindings: Seq::empty(),
            network: Seq::empty(),
            exceptions: Seq::empty(),
        }
    }

    /// The effects followed by others.
    pub open spec fn extended(self, other: EffectsView) -> EffectsView {
        EffectsView {
            console: self.console + other.console,
            dialogs: self.dialogs + other.dialogs,
            bindings: self.bindings + other.bindings,
            network: self.network + other.network,
            exceptions: self.exceptions + other.exceptions,
        }
    }

    /// The effects with one more failed script.
    pub open spec fn with_exception(self, error: ErrorView) -> EffectsView {
        EffectsView { exceptions: self.exceptions.push(error), ..self }
    }

    /// The effects with one more network event.
    pub open spec fn with_network(self, event: NetworkView) -> EffectsView {
        EffectsView { network: self.network.push(event), ..self }
    }

    /// Nothing happened.
    pub open spec fn is_empty(self) -> bool {
        &&& self.console.len() == 0
        &&& self.dialogs.len() == 0
        &&& self.bindings.len() == 0
        &&& self.network.len() == 0
        &&& self.exceptions.len() == 0
    }
}

impl RuntimeEffects {
    /// No effect at all.
    pub fn none() -> (r: RuntimeEffects)
        ensures
            r@ == EffectsView::none(),
    {
        let r = RuntimeEffects {
            console: Vec::new(),
            dialogs: Vec::new(),
            bindings: Vec::new(),
            network: Vec::new(),
            exceptions: Vec::new(),
        };
        assert(r@ =~= EffectsView::none());
        r
    }

    /// The effects that consist of these network events.
    pub fn of_network(network: Vec<RuntimeNetworkEvent>) -> (r: RuntimeEffects)
        ensures
            r@ == (EffectsView { network: NetworkView::all(network@), ..EffectsView::none() }),
    {
        let r = RuntimeEffects {
            console: Vec::new(),
            dialogs: Vec::new(),
            bindings: Vec::new(),
            network,
            exceptions: Vec::new(),
        };
        assert(r@ =~= (EffectsView { network: NetworkView::all(network@), ..EffectsView::none() }));
        r
    }

    /// Whether nothing happened.
    pub fn is_empty(&self) -> (r: bool)
        ensures
            r == self@.is_empty(),
    {
        self.console.len() == 0 && self.dialogs.len() == 0 && self.bindings.len() == 0
            && self.network.len() == 0 && self.exceptions.len() == 0
    }

    /// Adds a failed script.
    pub fn push_exception(&mut self, error: BrowserError)
        ensures
            final(self)@ == old(self)@.with_exception(error@),
    {
        let ghost before = self@;
        self.exceptions.push(RuntimeExceptionEvent { error });
        assert(self@ =~= before.with_exception(error@));
    }

    /// Adds a network event.
    pub fn push_network(&mut self, event: RuntimeNetworkEvent)
        ensures
            final(self)@ == old(self)@.with_network(event@),
    {
        let ghost before = self@;
        self.network.push(event);
        assert(self@ =~= before.with_network(event@));
    }

    /// Adds other effects behind these.
    pub fn extend(&mut self, other: RuntimeEffects)
        ensures
            final(self)@ == old(self)@.extended(other@),
    {
        let ghost before = self@;
        let mut other = other;
        let ghost added = other@;
        self.console.append(&mut other.console);
        self.dialogs.append(&mut other.dialogs);
        self.bindings.append(&mut other.bindings);
        self.network.append(&mut other.network);
        self.exceptions.append(&mut other.exceptions);
        assert(self@ =~= before.extended(added));
    }
}

/// Something that happened in the browser.
#[allow(inconsistent_fields)]
pub enum BrowserEvent {
    BrowsingContextCreated { state: BrowsingContextState },
    BrowsingContextClosed { context_id: BrowsingContextId },
    ActiveBrowsingContextChanged { context_id: Option<BrowsingContextId> },
    BrowsingContextStateChanged { state: BrowsingContextState },
    NavigationRequested {
        context_id: BrowsingContextId,
        frame_id: FrameId,
        navigation_id: NavigationId,
        predecessor_navigation_id: Option<NavigationId>,
        kind: CrossDocumentNavigationKind,
        url: String,
    },
    NavigationPhaseChanged {
        context_id: BrowsingContextId,
        frame_id: FrameId,
        navigation_id: NavigationId,
        phase: NavigationPhase,
    },
    NavigationStarted {
        context_id: BrowsingContextId,
        frame_id: FrameId,
        navigation_id: NavigationId,
        request_id: RequestId,
        url: String,
    },
    NavigationRedirected {
        context_id: BrowsingContextId,
        frame_id: FrameId,
        navigation_id: NavigationId,
        request_id: RequestId,
        next_request_id: RequestId,
        from_url: String,
        to_url: String,
        status: u16,
    },
    NavigationCommitted {
        context_id: BrowsingContextId,
        frame_id: FrameId,
        navigation_id: NavigationId,
        request_id: Option<RequestId>,
        document_id: DocumentId,
        runtime_context_id: Option<RuntimeContextId>,
        url: String,
    },
    NavigationFailed {
        context_id: BrowsingContextId,
        frame_id: FrameId,
        navigation_id: NavigationId,
        request_id: Option<RequestId>,
        error: BrowserError,
    },
    NavigationCancelled {
        context_id: BrowsingContextId,
        frame_id: FrameId,
        navigation_id: NavigationId,
        request_id: Option<RequestId>,
        reason: NavigationCancellationReason,
    },
    DocumentDiscarded {
        context_id: BrowsingContextId,
        frame_id: FrameId,
        document_id: DocumentId,
        replaced_by: Option<NavigationId>,
    },
    RuntimeContextCreated {
        context_id: BrowsingContextId,
        frame_id: FrameId,
        document_id: DocumentId,
        runtime_context_id: RuntimeContextId,
    },
    RuntimeContextDestroyed {
        context_id: BrowsingContextId,
        frame_id: FrameId,
        document_id: DocumentId,
        runtime_context_id: RuntimeContextId,
    },
    DomContentLoaded {
        context_id: BrowsingContextId,
        frame_id: FrameId,
        navigation_id: NavigationId,
        document_id: DocumentId,
    },
    DocumentLoadCompleted {
        context_id: BrowsingContextId,
        frame_id: FrameId,
        navigation_id: NavigationId,
        document_id: DocumentId,
    },
    RuntimeEffects {
        context_id: BrowsingContextId,
        frame_id: FrameId,
        document_id: DocumentId,
        runtime_context_id: RuntimeContextId,
        url: String,
        effects: RuntimeEffects,
    },
}

/// A [`BrowserEvent`] as a value.
#[allow(inconsistent_fields)]
pub enum EventView {
    BrowsingContextCreated { state: StateView },
    BrowsingContextClosed { context_id: BrowsingContextId },
    ActiveBrowsingContextChanged { context_id: Option<BrowsingContextId> },
    BrowsingContextStateChanged { state: StateView },
    NavigationRequested {
        context_id: BrowsingContextId,
        frame_id: FrameId,
        navigation_id: NavigationId,
        predecessor_navigation_id: Option<NavigationId>,
        kind: CrossDocumentNavigationKind,
        url: Seq<char>,
    },
    NavigationPhaseChanged {
        context_id: BrowsingContextId,
        frame_id: FrameId,
        navigation_id: NavigationId,
        phase: NavigationPhase,
    },
    NavigationStarted {
        context_id: BrowsingContextId,
        frame_id: FrameId,
        navigation_id: NavigationId,
        request_id: RequestId,
        url: Seq<char>,
    },
    NavigationRedirected {
        context_id: BrowsingContextId,
        frame_id: FrameId,
        navigation_id: NavigationId,
        request_id: RequestId,
        next_request_id: RequestId,
        from_url: Seq<char>,
        to_url: Seq<char>,
        status: u16,
    },
    NavigationCommitted {
        context_id: BrowsingContextId,
        frame_id: FrameId,
        navigation_id: NavigationId,
        request_id: Option<RequestId>,
        document_id: DocumentId,
        runtime_context_id: Option<RuntimeContextId>,
        url: Seq<char>,
    },
    NavigationFailed {
        context_id: BrowsingContextId,
        frame_id: FrameId,
        navigation_id: NavigationId,
        request_id: Option<RequestId>,
        error: ErrorView,
    },
    NavigationCancelled {
        context_id: BrowsingContextId,
        frame_id: FrameId,
        navigation_id: NavigationId,
        request_id: Option<RequestId>,
        reason: NavigationCancellationReason,
    },
    DocumentDiscarded {
        context_id: BrowsingContextId,
        frame_id: FrameId,
        document_id: DocumentId,
        replaced_by: Option<NavigationId>,
    },
    RuntimeContextCreated {
        context_id: BrowsingContextId,
        frame_id: FrameId,
        document_id: DocumentId,
        runtime_context_id: RuntimeContextId,
    },
    RuntimeContextDestroyed {
        context_id: BrowsingContextId,
        frame_id: FrameId,
        document_id: DocumentId,
        runtime_context_id: RuntimeContextId,
    },
    DomContentLoaded {
        context_id: BrowsingContextId,
        frame_id: FrameId,
        navigation_id: NavigationId,
        document_id: DocumentId,
    },
    DocumentLoadCompleted {
        context_id: BrowsingContextId,
        frame_id: FrameId,
        navigation_id: NavigationId,
        document_id: DocumentId,
    },
    RuntimeEffects {
        context_id: BrowsingContextId,
        frame_id: FrameId,
        document_id: DocumentId,
        runtime_context_id: RuntimeContextId,
        url: Seq<char>,
        effects: EffectsView,
    },
}

impl View for BrowserEvent {
    type V = EventView;

    open spec fn view(&self) -> EventView {
        match *self {
            BrowserEvent::BrowsingContextCreated { state } => EventView::BrowsingContextCreated {
                state: state@,
            },
            BrowserEvent::BrowsingContextClosed { context_id } =>
            EventView::BrowsingContextClosed { context_id },
            BrowserEvent::ActiveBrowsingContextChanged { context_id } =>
            EventView::ActiveBrowsingContextChanged { context_id },
            BrowserEvent::BrowsingContextStateChanged { state } =>
            EventView::BrowsingContextStateChanged { state: state@ },
            BrowserEvent::NavigationRequested {
                context_id,
                frame_id,
                navigation_id,
                predecessor_navigation_id,
                kind,
                url,
            } => EventView::NavigationRequested {
                context_id,
                frame_id,
                navigation_id,
                predecessor_navigation_id,
                kind,
                url: url@,
            },
            BrowserEvent::NavigationPhaseChanged { context_id, frame_id, navigation_id, phase } =>
            EventView::NavigationPhaseChanged { context_id, frame_id, navigation_id, phase },
            BrowserEvent::NavigationStarted {
                context_id,
                frame_id,
                navigation_id,
                request_id,
                url,
            } => EventView::NavigationStarted {
                context_id,
                frame_id,
                navigation_id,
                request_id,
                url: url@,
            },
            BrowserEvent::NavigationRedirected {
                context_id,
                frame_id,
                navigation_id,
                request_id,
                next_request_id,
                from_url,
                to_url,
                status,
            } => EventView::NavigationRedirected {
                context_id,
                frame_id,
                navigation_id,
                request_id,
                next_request_id,
                from_url: from_url@,
                to_url: to_url@,
                status,
            },
            BrowserEvent::NavigationCommitted {
                context_id,
                frame_id,
                navigation_id,
                request_id,
                document_id,
                runtime_context_id,
                url,
            } => EventView::NavigationCommitted {
                context_id,
                frame_id,
                navigation_id,
                request_id,
                document_id,
                runtime_context_id,
                url: url@,
            },
            BrowserEvent::NavigationFailed {
                context_id,
                frame_id,
                navigation_id,
                request_id,
                error,
            } => EventView::NavigationFailed {
                context_id,
                frame_id,
                navigation_id,
                request_id,
                error: error@,
            },
            BrowserEvent::NavigationCancelled {
                context_id,
                frame_id,
                navigation_id,
                request_id,
                reason,
            } => EventView::NavigationCancelled {
                context_id,
                frame_id,
                navigation_id,
                request_id,
                reason,
            },
            BrowserEvent::DocumentDiscarded { context_id, frame_id, document_id, replaced_by } =>
            EventView::DocumentDiscarded { context_id, frame_id, document_id, replaced_by },
            BrowserEvent::RuntimeContextCreated {
                context_id,
                frame_id,
                document_id,
                runtime_context_id,
            } => EventView::RuntimeContextCreated {
                context_id,
                frame_id,
                document_id,
                runtime_context_id,
            },
            BrowserEvent::RuntimeContextDestroyed {
                context_id,
                frame_id,
                document_id,
                runtime_context_id,
            } => EventView::RuntimeContextDestroyed {
                context_id,
                frame_id,
                document_id,
                runtime_context_id,
            },
            BrowserEvent::DomContentLoaded { context_id, frame_id, navigation_id, document_id } =>
            EventView::DomContentLoaded { context_id, frame_id, navigation_id, document_id },
            BrowserEvent::DocumentLoadCompleted {
                context_id,
                frame_id,
                navigation_id,
                document_id,
            } => EventView::DocumentLoadCompleted {
                context_id,
                frame_id,
                navigation_id,
                document_id,
            },
            BrowserEvent::RuntimeEffects {
                context_id,
                frame_id,
                document_id,
                runtime_context_id,
                url,
                effects,
            } => EventView::RuntimeEffects {
                context_id,
                frame_id,
                document_id,
                runtime_context_id,
                url: url@,
                effects: effects@,
            },
        }
    }
}

impl EventView {
    /// Events as values.
    pub open spec fn all(s: Seq<BrowserEvent>) -> Seq<EventView> {
        Seq::new(s.len(), |i: int| s[i]@)
    }

    /// A navigation has come to `phase`.
    pub open spec fn phase(
        context_id: BrowsingContextId,
        frame_id: FrameId,
        navigation_id: NavigationId,
        phase: NavigationPhase,
    ) -> EventView {
        EventView::NavigationPhaseChanged { context_id, frame_id, navigation_id, phase }
    }
}

/// The events on their way to a frontend.
///
/// The queue holds at most `capacity` of them. When one more comes, the oldest
/// goes and is counted.
pub struct EventQueue {
    pub capacity: usize,
    pub dropped: usize,
    pub events: VecDeque<BrowserEvent>,
}

/// An [`EventQueue`] as a value.
#[verifier::ext_equal]
pub struct QueueView {
    pub capacity: usize,
    pub dropped: usize,
    pub events: Seq<BrowserEvent>,
}

impl View for EventQueue {
    type V = QueueView;

    open spec fn view(&self) -> QueueView {
        QueueView { capacity: self.capacity, dropped: self.dropped, events: self.events@ }
    }
}

impl QueueView {
    /// The queue with room for `capacity` events and none in it.
    pub open spec fn empty(capacity: usize) -> QueueView {
        QueueView { capacity, dropped: 0, events: Seq::empty() }
    }

    /// The queue after `event` came.
    pub open spec fn pushed(self, event: BrowserEvent) -> QueueView {
        if self.events.len() == self.capacity {
            QueueView {
                capacity: self.capacity,
                dropped: if self.dropped == usize::MAX {
                    self.dropped
                } else {
                    (self.dropped + 1) as usize
                },
                events: if self.events.len() == 0 {
                    seq![event]
                } else {
                    self.events.drop_first().push(event)
                },
            }
        } else {
            QueueView { events: self.events.push(event), ..self }
        }
    }

    /// The queue after all of `events` came, in order.
    pub open spec fn pushed_all(self, events: Seq<BrowserEvent>) -> QueueView
        decreases events.len(),
    {
        if events.len() == 0 {
            self
        } else {
            self.pushed_all(events.drop_last()).pushed(events.last())
        }
    }

    /// The queue after a reader took what comes next: first the report of
    /// dropped events, then the oldest event.
    pub open spec fn popped(self) -> QueueView {
        if self.dropped > 0 {
            QueueView { dropped: 0, ..self }
        } else if self.events.len() > 0 {
            QueueView { events: self.events.drop_first(), ..self }
        } else {
            self
        }
    }

    /// The number of events is within the capacity.
    pub open spec fn bounded(self) -> bool {
        self.capacity > 0 && self.events.len() <= self.capacity
    }
}

impl EventQueue {
    /// The queue with room for `capacity` events and none in it.
    pub fn new(capacity: usize) -> (r: EventQueue)
        ensures
            r@ == QueueView::empty(capacity),
    {
        EventQueue { capacity, dropped: 0, events: VecDeque::new() }
    }

    /// Adds an event; from a full queue the oldest event goes.
    pub fn push(&mut self, event: BrowserEvent)
        ensures
            final(self)@ == old(self)@.pushed(event),
    {
        let ghost before = self@;
        if self.events.len() == self.capacity {
            let _ = self.events.pop_front();
            self.dropped = self.dropped.saturating_add(1);
        }
        self.events.push_back(event);
        assert(self@ =~= before.pushed(event));
    }

    /// Whether a reader would have to wait.
    pub fn is_idle(&self) -> (r: bool)
        ensures
            r == (self@.dropped == 0 && self@.events.len() == 0),
    {
        self.dropped == 0 && self.events.len() == 0
    }

    /// Takes the next event. Where events were dropped since the last read,
    /// the read reports how many instead.
    pub fn pop(&mut self) -> (r: Result<Option<BrowserEvent>, BrowserError>)
        ensures
            final(self)@ == old(self)@.popped(),
            ErrorView::outcome(r) == if old(self)@.dropped > 0 {
                Err(
                    ErrorView::new(
                        ErrorCode::EventLagged,
                        "browser event consumer lagged; dropped "@ + crate::text::decimal_text(
                            old(self)@.dropped as nat,
                        ) + " events"@,
                    ),
                )
            } else if old(self)@.events.len() > 0 {
                Ok(Some(old(self)@.events[0]))
            } else {
                Ok(None)
            },
    {
        if self.dropped > 0 {
            let dropped: usize = self.dropped;
            self.dropped = 0;
            let count = decimal(dropped as u64);
            let mut message = joined("browser event consumer lagged; dropped ", count.as_str());
            message.append(" events");
            return Err(BrowserError::with_message(ErrorCode::EventLagged, message));
        }
        Ok(self.events.pop_front())
    }
}

/// A queue with room never holds more events than it has room for.
pub proof fn queue_stays_bounded(q: QueueView, event: BrowserEvent)
    requires
        q.bounded(),
    ensures
        q.pushed(event).bounded(),
        q.popped().bounded(),
{
}

/// After any number of events the queue holds the latest of them, in the order
/// in which they came, and has counted the rest.
pub proof fn queue_keeps_the_latest(capacity: usize, events: Seq<BrowserEvent>)
    requires
        capacity > 0,
        events.len() <= usize::MAX,
    ensures
        ({
            let q = QueueView::empty(capacity).pushed_all(events);
            let kept = if events.len() <= capacity {
                events.len() as int
            } else {
                capacity as int
            };
            &&& q.capacity == capacity
            &&& q.events == events.subrange(events.len() - kept, events.len() as int)
            &&& q.dropped == events.len() - kept
        }),
    decreases events.len(),
{
    if events.len() > 0 {
        let before = events.drop_last();
        queue_keeps_the_latest(capacity, before);
        let q = QueueView::empty(capacity).pushed_all(before);
        let kept = if events.len() <= capacity {
            events.len() as int
        } else {
            capacity as int
        };
        assert(q.pushed(events.last()).events =~= events.subrange(
            events.len() - kept,
            events.len() as int,
        ));
    } else {
        assert(QueueView::empty(capacity).pushed_all(events).events =~= events.subrange(0, 0));
    }
}

/// A reader that keeps up gets every event, in the order in which they came.
pub proof fn queue_is_first_in_first_out(q: QueueView, event: BrowserEvent)
    requires
        q.bounded(),
        q.dropped == 0,
        0 < q.events.len() < q.capacity,
    ensures
        q.pushed(event).events[0] == q.events[0],
        q.pushed(event).popped() == q.popped().pushed(event),
{
    assert(q.pushed(event).popped() =~= q.popped().pushed(event));
}

} // verus!
