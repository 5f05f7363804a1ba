//! The commands that frontends give.
//!
//! A command is checked and carried out as far as the registry goes. What is
//! left for the host to do on a page, a runtime or the profile comes back as a
//! [`HostCall`]. A command whose script the host runs is answered once the
//! script has come to something.

use vstd::prelude::*;

use crate::browser::actions::{HistoryUpdate, UpdateView};
use crate::browser::commands::{
    AccessibilityActionDispatch, AutomationEvaluation, NavigationActionOutcome,
};
use crate::browser::contexts::{
    BrowserSnapshot, ContextReservation, NavigationHistorySnapshot, ProfileSessionState,
};
use crate::browser::effects::ScriptValue;
use crate::browser::error::{BrowserError, ErrorCode, ErrorView};
use crate::browser::events::{
    BrowsingContextState, CrossDocumentNavigationKind, EffectsView, EventView, NavigationCancellationReason,
    RuntimeEffects,
};
use crate::browser::history::HistoryView;
use crate::browser::ids::{BrowsingContextId, DocumentId, NavigationId, RuntimeContextId};
use crate::browser::input::{KeyEventData, MouseEventData, MouseNumbers, ScriptPurpose};
use crate::browser::limits::{
    validate_find_query, validate_injected_html, validate_lookup_id, validate_selector,
    validate_viewport, Float64, HostViewState, TextInputState,
};
use crate::browser::registry::{BrowserCore, BrowsingContextConfig, ContextView, CoreView};

verus! {

/// What of a profile is to be cleared.
#[derive(Clone, Copy, Debug, PartialEq, Eq, Structural)]
pub struct ProfileDataSelection {
    pub cookies: bool,
    pub fetch_cache: bool,
    pub history: bool,
    pub session: bool,
    pub web_storage: bool,
    pub downloads: bool,
    pub permissions: bool,
    pub security_state: bool,
}

/// Which text of a document is wanted.
#[derive(Clone, Copy, Debug, PartialEq, Eq, Structural)]
pub enum DocumentTextKind {
    Dom,
    TextContent,
    LayoutTree,
    Lines,
    PaintStats,
}

/// A question about a page.
pub enum PageQuery {
    FindText { query: String, case_sensitive: bool, forward: bool },
    Snapshot { viewport: (u32, u32) },
    AccessibilitySnapshot { viewport: (u32, u32) },
    QuerySelectorAll { selector: String, viewport: (u32, u32) },
    ComputedStyle { node_id: usize, viewport: (u32, u32) },
    DisplayListText { viewport: (u32, u32) },
    Diagnostics,
    DocumentText { viewport: (u32, u32), kind: DocumentTextKind },
    HitTest { viewport: (u32, u32), x: Float64, y: Float64 },
    FocusProjection { element_id: String },
    FormSubmission { form_id: String },
    /// The commands that paint the page.
    CapturePaint { viewport: (u32, u32) },
}

/// A command to the browser.
#[allow(inconsistent_fields)]
pub enum BrowserCommand {
    LoadProfileSession,
    SaveCurrentProfileSession,
    SaveProfileSession { session: ProfileSessionState },
    ClearProfileData { selection: ProfileDataSelection },
    CreateBrowsingContext,
    CloseBrowsingContext { context_id: BrowsingContextId },
    ActivateBrowsingContext { context_id: BrowsingContextId },
    Navigate { context_id: BrowsingContextId, url: String },
    NavigateHtml { context_id: BrowsingContextId, url: String, html: String },
    Reload { context_id: BrowsingContextId },
    Stop { context_id: BrowsingContextId },
    TraverseHistory { context_id: BrowsingContextId, delta: i32 },
    GetBrowsingContextState { context_id: BrowsingContextId },
    UpdateHostViewState { context_id: BrowsingContextId, state: HostViewState },
    SetPageZoom { context_id: BrowsingContextId, zoom: Float64 },
    GetBrowserSnapshot,
    ConfigureBrowsingContext { context_id: BrowsingContextId, config: BrowsingContextConfig },
    GetNavigationHistory { context_id: BrowsingContextId },
    ResetNavigationHistory { context_id: BrowsingContextId },
    Evaluate {
        context_id: BrowsingContextId,
        document_id: DocumentId,
        runtime_context_id: RuntimeContextId,
        source: String,
    },
    EvaluateForAutomation {
        context_id: BrowsingContextId,
        document_id: DocumentId,
        runtime_context_id: RuntimeContextId,
        source: String,
    },
    DispatchMouseEvent {
        context_id: BrowsingContextId,
        document_id: DocumentId,
        runtime_context_id: RuntimeContextId,
        node_id: usize,
        event_type: String,
        event: MouseEventData,
        /// The position of the event in the zoomed page.
        numbers: MouseNumbers,
        /// The node that takes wheel events which name none.
        default_target: Option<usize>,
    },
    DispatchKeyEvent {
        context_id: BrowsingContextId,
        document_id: DocumentId,
        runtime_context_id: RuntimeContextId,
        event_type: String,
        event: KeyEventData,
        /// Whether the focused element takes scroll keys itself.
        focus_consumes_scroll_keys: bool,
    },
    DispatchTextInput {
        context_id: BrowsingContextId,
        document_id: DocumentId,
        runtime_context_id: RuntimeContextId,
        state: TextInputState,
    },
    DispatchAccessibilityAction { request: AccessibilityActionDispatch },
    Query { context_id: BrowsingContextId, document_id: DocumentId, query: PageQuery },
}

/// What a command gave.
pub enum BrowserCommandResult {
    Accepted,
    /// There is a new context.
    BrowsingContextCreated { context_id: BrowsingContextId },
    NavigationAccepted { navigation_id: NavigationId },
    BrowsingContextState(BrowsingContextState),
    BrowserSnapshot(BrowserSnapshot),
    NavigationHistory(NavigationHistorySnapshot),
    /// A script came to a value.
    Evaluation { value: ScriptValue, navigation_actions: Vec<NavigationActionOutcome> },
    /// A script came to a value and had effects.
    AutomationEvaluation(AutomationEvaluation),
    /// An input event reached its page, or was for no node of it.
    InputDispatched(InputDispatchResult),
}

/// What an input event came to.
pub struct InputDispatchResult {
    pub effects: RuntimeEffects,
    pub navigation_actions: Vec<NavigationActionOutcome>,
}

/// What the host is to do for a command.
pub enum HostCall {
    LoadProfileSession,
    SaveProfileSession { session: ProfileSessionState },
    /// Clear the profile, and then the network state of these runtimes.
    ClearProfileData { selection: ProfileDataSelection, runtimes: Vec<usize> },
    /// Set up a runtime for a new context.
    CreateContext { reservation: ContextReservation },
    /// Apply a configuration to a runtime.
    ConfigureContext {
        context_id: BrowsingContextId,
        runtime_slot: usize,
        config: BrowsingContextConfig,
    },
    /// Tell a page of its view and its zoom, by a script that speaks of how far
    /// the page scrolls.
    ViewChanged {
        context_id: BrowsingContextId,
        document_id: DocumentId,
        runtime_context_id: RuntimeContextId,
        view: HostViewState,
        page_zoom: Float64,
        purpose: ScriptPurpose,
    },
    /// Run a script. The purpose goes with what the script comes to.
    RunScript {
        context_id: BrowsingContextId,
        runtime_slot: usize,
        source: String,
        purpose: ScriptPurpose,
    },
    /// Answer a question about a page.
    Query { context_id: BrowsingContextId, query: PageQuery },
}

/// What became of a command.
pub enum CommandOutcome {
    /// It is done.
    Done(BrowserCommandResult),
    /// The host is to do the rest.
    Host(HostCall),
}

/// What is wrong with a question before it comes to a page.
pub open spec fn query_fault(query: PageQuery) -> Option<Seq<char>> {
    let viewport = match query {
        PageQuery::Snapshot { viewport } => Some(viewport),
        PageQuery::AccessibilitySnapshot { viewport } => Some(viewport),
        PageQuery::QuerySelectorAll { viewport, .. } => Some(viewport),
        PageQuery::ComputedStyle { viewport, .. } => Some(viewport),
        PageQuery::DisplayListText { viewport } => Some(viewport),
        PageQuery::DocumentText { viewport, .. } => Some(viewport),
        PageQuery::HitTest { viewport, .. } => Some(viewport),
        PageQuery::CapturePaint { viewport } => Some(viewport),
        _ => None,
    };
    if viewport matches Some(v) && !crate::browser::limits::viewport_ok(v) {
        Some("viewport must be within 1x1 and 16384x16384"@)
    } else {
        match query {
            PageQuery::FindText { query, .. } => if crate::text::byte_count(query@)
                > crate::browser::limits::MAX_FIND_QUERY_BYTES {
                Some("find query exceeds the browser limit"@)
            } else {
                None
            },
            PageQuery::QuerySelectorAll { selector, .. } => if crate::text::byte_count(selector@)
                > crate::browser::limits::MAX_SELECTOR_BYTES {
                Some("selector exceeds the browser query limit"@)
            } else {
                None
            },
            PageQuery::HitTest { x, y, .. } => if !(x.is_finite() && y.is_finite()) {
                Some("hit-test coordinates must be finite"@)
            } else {
                None
            },
            PageQuery::FocusProjection { element_id } => if crate::text::byte_count(element_id@)
                > crate::browser::limits::MAX_SELECTOR_BYTES {
                Some("element id exceeds the browser query limit"@)
            } else {
                None
            },
            PageQuery::FormSubmission { form_id } => if crate::text::byte_count(form_id@)
                > crate::browser::limits::MAX_SELECTOR_BYTES {
                Some("element id exceeds the browser query limit"@)
            } else {
                None
            },
            _ => None,
        }
    }
}

/// Refuses a question that is outside the limits.
pub fn validate_query(query: &PageQuery) -> (r: Result<(), BrowserError>)
    ensures
        ErrorView::outcome(r) == match query_fault(*query) {
            Some(message) => Err(ErrorView::new(ErrorCode::InvalidArgument, message)),
            None => Ok(()),
        },
{
    match query {
        PageQuery::FindText { query, .. } => validate_find_query(query.as_str()),
        PageQuery::Snapshot { viewport } => validate_viewport(*viewport),
        PageQuery::AccessibilitySnapshot { viewport } => validate_viewport(*viewport),
        PageQuery::QuerySelectorAll { selector, viewport } => match validate_viewport(*viewport) {
            Ok(()) => validate_selector(selector.as_str()),
            Err(e) => Err(e),
        },
        PageQuery::ComputedStyle { viewport, .. } => validate_viewport(*viewport),
        PageQuery::DisplayListText { viewport } => validate_viewport(*viewport),
        PageQuery::Diagnostics => Ok(()),
        PageQuery::DocumentText { viewport, .. } => validate_viewport(*viewport),
        PageQuery::HitTest { viewport, x, y } => match validate_viewport(*viewport) {
            Ok(()) => if !x.finite() || !y.finite() {
                Err(BrowserError::invalid("hit-test coordinates must be finite"))
            } else {
                Ok(())
            },
            Err(e) => Err(e),
        },
        PageQuery::FocusProjection { element_id } => validate_lookup_id(element_id.as_str()),
        PageQuery::FormSubmission { form_id } => validate_lookup_id(form_id.as_str()),
        PageQuery::CapturePaint { viewport } => validate_viewport(*viewport),
    }
}

impl CoreView {
    /// A regular navigation, or the fault that stands against it.
    pub open spec fn navigates(
        self,
        after: CoreView,
        r: Result<CommandOutcome, BrowserError>,
        context_id: BrowsingContextId,
        url: Seq<char>,
        injected_html: Option<Seq<char>>,
        update: UpdateView,
    ) -> bool {
        &&& after == self.begun(
            context_id,
            url,
            injected_html,
            update,
            CrossDocumentNavigationKind::Regular,
            None,
        )
        &&& match self.navigation_fault(context_id, url) {
            Some(e) => r is Err && r->Err_0@ == e,
            None => r == Ok::<CommandOutcome, BrowserError>(
                CommandOutcome::Done(
                    BrowserCommandResult::NavigationAccepted {
                        navigation_id: NavigationId { raw: self.ids.next_navigation },
                    },
                ),
            ),
        }
    }

    /// Nothing changed, and the command was refused.
    pub open spec fn refuses(
        self,
        after: CoreView,
        r: Result<CommandOutcome, BrowserError>,
        error: ErrorView,
    ) -> bool {
        after == self && r is Err && r->Err_0@ == error
    }

    /// The command was accepted with nothing more to say.
    pub open spec fn accepts(
        self,
        after: CoreView,
        r: Result<CommandOutcome, BrowserError>,
        expected: CoreView,
    ) -> bool {
        after == expected && r == Ok::<CommandOutcome, BrowserError>(
            CommandOutcome::Done(BrowserCommandResult::Accepted),
        )
    }

    /// Nothing changed, and the host is to make this call.
    pub open spec fn hands_over(
        self,
        after: CoreView,
        r: Result<CommandOutcome, BrowserError>,
        call: HostCall,
    ) -> bool {
        after == self && r == Ok::<CommandOutcome, BrowserError>(CommandOutcome::Host(call))
    }

    /// A script runs in the runtime that its context has now, or the fault that
    /// stands against it.
    pub open spec fn evaluates(
        self,
        after: CoreView,
        r: Result<CommandOutcome, BrowserError>,
        context_id: BrowsingContextId,
        document_id: DocumentId,
        runtime_context_id: RuntimeContextId,
        script: Seq<char>,
        purpose: ScriptPurpose,
    ) -> bool {
        match self.evaluation_fault(context_id, document_id, runtime_context_id, script) {
            Some(e) => self.refuses(after, r, e),
            None => {
                &&& after == self
                &&& r matches Ok(CommandOutcome::Host(HostCall::RunScript {
                    context_id: context,
                    runtime_slot,
                    source,
                    purpose: given,
                })) && context == context_id && runtime_slot == self.context(
                    context_id,
                ).runtime_slot && source@ == script && given == purpose
            },
        }
    }

    /// What a command does: the state it leaves behind and what it gives.
    pub open spec fn carries_out(
        self,
        command: BrowserCommand,
        after: CoreView,
        r: Result<CommandOutcome, BrowserError>,
    ) -> bool {
        match command {
            BrowserCommand::LoadProfileSession => self.hands_over(
                after,
                r,
                HostCall::LoadProfileSession,
            ),
            BrowserCommand::SaveCurrentProfileSession => {
                &&& after == self
                &&& r matches Ok(CommandOutcome::Host(HostCall::SaveProfileSession { session }))
                &&& exists|ids: Seq<u64>| #[trigger]
                    crate::browser::registry::lists_in_order(ids, self.contexts.dom())
                        && crate::browser::contexts::text_views(session.tabs@) == self.urls(ids)
                        && match self.active_context {
                        Some(active) => session.active_index < ids.len()
                            && ids[session.active_index as int] == active.raw,
                        None => session.active_index == 0,
                    }
            },
            BrowserCommand::SaveProfileSession { session } => self.hands_over(
                after,
                r,
                HostCall::SaveProfileSession { session },
            ),
            BrowserCommand::ClearProfileData { selection } => {
                &&& after == self
                &&& r matches Ok(CommandOutcome::Host(HostCall::ClearProfileData {
                    selection: cleared,
                    runtimes,
                })) && cleared == selection && (forall|i: int, j: int|
                    0 <= i < j < runtimes@.len() ==> #[trigger] runtimes@[i]
                        < #[trigger] runtimes@[j]) && (forall|slot: usize|
                    (selection.cookies || selection.fetch_cache) && slot
                        < self.runtime_slots.len() && self.runtime_slots[slot as int]
                        <==> #[trigger] runtimes@.contains(slot))
            },
            BrowserCommand::CreateBrowsingContext => {
                &&& after == self.reserved()
                &&& match self.reservation() {
                    Err(e) => r is Err && r->Err_0@ == e,
                    Ok(reservation) => r == Ok::<CommandOutcome, BrowserError>(
                        CommandOutcome::Host(HostCall::CreateContext { reservation }),
                    ) && after.is_reserved(reservation),
                }
            },
            BrowserCommand::CloseBrowsingContext { context_id } => if self.has(context_id) {
                self.accepts(after, r, self.closed(context_id))
            } else {
                self.refuses(after, r, self.missing_context(context_id))
            },
            BrowserCommand::ActivateBrowsingContext { context_id } => if self.has(context_id) {
                self.accepts(
                    after,
                    r,
                    CoreView {
                        active_context: Some(context_id),
                        ..self.telling(
                            seq![
                                EventView::ActiveBrowsingContextChanged {
                                    context_id: Some(context_id),
                                },
                            ],
                        )
                    },
                )
            } else {
                self.refuses(after, r, self.missing_context(context_id))
            },
            BrowserCommand::Navigate { context_id, url } => self.navigates(
                after,
                r,
                context_id,
                url@,
                None,
                UpdateView::Push,
            ),
            BrowserCommand::NavigateHtml { context_id, url, html } => if crate::text::byte_count(
                html@,
            ) > self.max_body_bytes {
                self.refuses(
                    after,
                    r,
                    ErrorView::new(
                        ErrorCode::InvalidArgument,
                        "injected document exceeds the browser body limit"@,
                    ),
                )
            } else {
                self.navigates(after, r, context_id, url@, Some(html@), UpdateView::Push)
            },
            BrowserCommand::Reload { context_id } => if self.has(context_id) {
                let history = self.context(context_id).history;
                self.navigates(
                    after,
                    r,
                    context_id,
                    history.current().url,
                    None,
                    UpdateView::Preserve(history),
                )
            } else {
                self.refuses(after, r, self.missing_context(context_id))
            },
            BrowserCommand::Stop { context_id } => if self.has(context_id) {
                self.accepts(
                    after,
                    r,
                    self.cancelled(context_id, NavigationCancellationReason::Stopped, true),
                )
            } else {
                self.refuses(after, r, self.missing_context(context_id))
            },
            BrowserCommand::TraverseHistory { context_id, delta } => if !self.has(context_id) {
                self.refuses(after, r, self.missing_context(context_id))
            } else {
                let history = self.context(context_id).history;
                let moved = history.moved(delta as int);
                if !history.can_go(delta as int) {
                    self.accepts(after, r, self)
                } else {
                    self.navigates(
                        after,
                        r,
                        context_id,
                        moved.current().url,
                        None,
                        UpdateView::Preserve(moved),
                    )
                }
            },
            BrowserCommand::GetBrowsingContextState { context_id } => if self.has(context_id) {
                &&& after == self
                &&& r matches Ok(CommandOutcome::Done(BrowserCommandResult::BrowsingContextState(
                    state,
                ))) && state@ == self.context(context_id).state(context_id)
            } else {
                self.refuses(after, r, self.missing_context(context_id))
            },
            BrowserCommand::UpdateHostViewState { context_id, state } =>
            match self.host_view_fault(context_id, state) {
                Some(e) => self.refuses(after, r, e),
                None => {
                    let context = self.context(context_id);
                    &&& after == self.with_context(
                        context_id,
                        ContextView { host_view: state, ..context },
                    )
                    &&& r == Ok::<CommandOutcome, BrowserError>(
                        CommandOutcome::Host(
                            HostCall::ViewChanged {
                                context_id,
                                document_id: context.document_id,
                                runtime_context_id: context.runtime_context_id,
                                view: state,
                                page_zoom: context.page_zoom,
                                purpose: ScriptPurpose::View,
                            },
                        ),
                    )
                },
            },
            BrowserCommand::SetPageZoom { context_id, zoom } =>
            if !crate::browser::limits::zoom_ok(zoom) {
                self.refuses(
                    after,
                    r,
                    ErrorView::new(
                        ErrorCode::InvalidArgument,
                        "page zoom must be finite and between 0.25 and 5"@,
                    ),
                )
            } else if !self.has(context_id) {
                self.refuses(after, r, self.missing_context(context_id))
            } else {
                let context = self.context(context_id);
                &&& after == self.with_context(
                    context_id,
                    ContextView { page_zoom: zoom, ..context },
                )
                &&& r == Ok::<CommandOutcome, BrowserError>(
                    CommandOutcome::Host(
                        HostCall::ViewChanged {
                            context_id,
                            document_id: context.document_id,
                            runtime_context_id: context.runtime_context_id,
                            view: context.host_view,
                            page_zoom: zoom,
                            purpose: ScriptPurpose::Zoom,
                        },
                    ),
                )
            },
            BrowserCommand::GetBrowserSnapshot => {
                &&& after == self
                &&& r matches Ok(CommandOutcome::Done(BrowserCommandResult::BrowserSnapshot(
                    snapshot,
                ))) && snapshot.active_context_id == self.active_context && exists|ids: Seq<u64>|
                 #[trigger]
                    crate::browser::registry::lists_in_order(ids, self.contexts.dom())
                        && crate::browser::contexts::state_views(snapshot.contexts@)
                        == self.states(ids)
            },
            BrowserCommand::ConfigureBrowsingContext { context_id, config } =>
            if self.has(context_id) {
                self.hands_over(
                    after,
                    r,
                    HostCall::ConfigureContext {
                        context_id,
                        runtime_slot: self.context(context_id).runtime_slot as usize,
                        config,
                    },
                )
            } else {
                self.refuses(after, r, self.missing_context(context_id))
            },
            BrowserCommand::GetNavigationHistory { context_id } => if self.has(context_id) {
                let history = self.context(context_id).history;
                &&& after == self
                &&& r matches Ok(CommandOutcome::Done(BrowserCommandResult::NavigationHistory(
                    snapshot,
                ))) && snapshot.current_index == history.index
                    && crate::browser::contexts::item_views(snapshot.entries@)
                    == crate::browser::contexts::history_items(history)
            } else {
                self.refuses(after, r, self.missing_context(context_id))
            },
            BrowserCommand::ResetNavigationHistory { context_id } => if self.has(context_id) {
                let context = self.context(context_id);
                self.accepts(
                    after,
                    r,
                    self.with_context(
                        context_id,
                        ContextView {
                            history: HistoryView::single(
                                crate::browser::history::navigation_entry(
                                    context.history.current().url,
                                ),
                            ),
                            ..context
                        },
                    ),
                )
            } else {
                self.refuses(after, r, self.missing_context(context_id))
            },
            BrowserCommand::Evaluate { context_id, document_id, runtime_context_id, source } =>
            self.evaluates(
                after,
                r,
                context_id,
                document_id,
                runtime_context_id,
                source@,
                ScriptPurpose::Evaluation,
            ),
            BrowserCommand::EvaluateForAutomation {
                context_id,
                document_id,
                runtime_context_id,
                source,
            } => self.evaluates(
                after,
                r,
                context_id,
                document_id,
                runtime_context_id,
                source@,
                ScriptPurpose::AutomationEvaluation,
            ),
            BrowserCommand::DispatchMouseEvent {
                context_id,
                document_id,
                runtime_context_id,
                node_id,
                event_type,
                event,
                numbers,
                default_target,
            } => match self.mouse_fault(context_id, document_id, event.position) {
                Some(e) => self.refuses(after, r, e),
                None => match crate::browser::input::mouse_target(
                    event_type@,
                    node_id,
                    default_target,
                ) {
                    Some(node_id) => self.evaluates(
                        after,
                        r,
                        context_id,
                        document_id,
                        runtime_context_id,
                        crate::browser::input::mouse_script(node_id, event_type@, event, numbers),
                        ScriptPurpose::MouseEvent { node_id, event_type, event },
                    ),
                    None => {
                        &&& after == self
                        &&& r matches Ok(CommandOutcome::Done(
                            BrowserCommandResult::InputDispatched(result),
                        )) && result.effects@ == EffectsView::none()
                            && result.navigation_actions@.len() == 0
                    },
                },
            },
            BrowserCommand::DispatchKeyEvent {
                context_id,
                document_id,
                runtime_context_id,
                event_type,
                event,
                focus_consumes_scroll_keys,
            } => match self.key_fault(context_id, document_id) {
                Some(e) => self.refuses(after, r, e),
                None => self.evaluates(
                    after,
                    r,
                    context_id,
                    document_id,
                    runtime_context_id,
                    crate::browser::input::key_script(event_type@, event),
                    ScriptPurpose::KeyEvent {
                        event_type,
                        event,
                        scroll: crate::browser::input::key_scroll(
                            event_type@,
                            event,
                            focus_consumes_scroll_keys,
                        ),
                    },
                ),
            },
            BrowserCommand::DispatchTextInput {
                context_id,
                document_id,
                runtime_context_id,
                state,
            } => match self.text_fault(context_id, state) {
                Some(e) => self.refuses(after, r, e),
                None => self.evaluates(
                    after,
                    r,
                    context_id,
                    document_id,
                    runtime_context_id,
                    crate::browser::input::text_script(state),
                    ScriptPurpose::TextInput { state },
                ),
            },
            BrowserCommand::DispatchAccessibilityAction { request } =>
            match self.accessibility_fault(request) {
                Some(e) => self.refuses(after, r, e),
                None => self.evaluates(
                    after,
                    r,
                    request.context_id,
                    request.document_id,
                    request.runtime_context_id,
                    crate::browser::effects::action_script(
                        request.node_id,
                        crate::weburl::json_text(request.action@),
                        match request.value {
                            Some(v) => crate::weburl::json_text(v@),
                            None => "null"@,
                        },
                    ),
                    ScriptPurpose::AccessibilityAction,
                ),
            },
            BrowserCommand::Query { context_id, document_id, query } => match query_fault(query) {
                Some(message) => self.refuses(
                    after,
                    r,
                    ErrorView::new(ErrorCode::InvalidArgument, message),
                ),
                None => match self.document_fault(context_id, document_id) {
                    Some(e) => self.refuses(after, r, e),
                    None => self.hands_over(after, r, HostCall::Query { context_id, query }),
                },
            },
        }
    }
}

impl BrowserCore {
    /// Begins a regular navigation.
    pub fn navigate(
        &mut self,
        context_id: BrowsingContextId,
        url: String,
        injected_html: Option<String>,
        history_update: HistoryUpdate,
    ) -> (r: Result<CommandOutcome, BrowserError>)
        requires
            old(self).wf(),
            history_update@.valid(),
        ensures
            final(self).wf(),
            old(self)@.navigates(
                final(self)@,
                r,
                context_id,
                url@,
                crate::weburl::UrlView::optional(injected_html),
                history_update@,
            ),
    {
        broadcast use crate::browser::order::group_order;

        match self.begin_navigation(
            context_id,
            url,
            injected_html,
            history_update,
            CrossDocumentNavigationKind::Regular,
            None,
        ) {
            Ok(navigation_id) => Ok(
                CommandOutcome::Done(BrowserCommandResult::NavigationAccepted { navigation_id }),
            ),
            Err(e) => Err(e),
        }
    }

    /// Begins a navigation to a document that comes with the command.
    pub fn navigate_html(&mut self, context_id: BrowsingContextId, url: String, html: String) -> (r:
        Result<CommandOutcome, BrowserError>)
        requires
            old(self).wf(),
        ensures
            final(self).wf(),
            old(self)@.carries_out(
                BrowserCommand::NavigateHtml { context_id, url, html },
                final(self)@,
                r,
            ),
    {
        broadcast use crate::browser::order::group_order;

        match validate_injected_html(html.as_str(), self.max_body_bytes) {
            Ok(()) => {},
            Err(e) => return Err(e),
        }
        self.navigate(context_id, url, Some(html), HistoryUpdate::Push)
    }

    /// Loads the page again. Its history stays.
    fn reload(&mut self, context_id: BrowsingContextId) -> (r: Result<CommandOutcome, BrowserError>)
        requires
            old(self).wf(),
        ensures
            final(self).wf(),
            old(self)@.carries_out(BrowserCommand::Reload { context_id }, final(self)@, r),
    {
        broadcast use crate::browser::order::group_order;

        let (url, history) = match self.context(context_id) {
            Err(e) => return Err(e),
            Ok(context) => (context.history.url().to_owned(), context.history.copy()),
        };
        self.navigate(context_id, url, None, HistoryUpdate::Preserve(history))
    }

    /// Goes to another entry of the history. A move that leaves the history is
    /// accepted and does nothing.
    fn traverse_history(&mut self, context_id: BrowsingContextId, delta: i32) -> (r: Result<
        CommandOutcome,
        BrowserError,
    >)
        requires
            old(self).wf(),
        ensures
            final(self).wf(),
            old(self)@.carries_out(
                BrowserCommand::TraverseHistory { context_id, delta },
                final(self)@,
                r,
            ),
    {
        broadcast use crate::browser::order::group_order;

        let mut history = match self.context(context_id) {
            Err(e) => return Err(e),
            Ok(context) => context.history.copy(),
        };
        if !history.go(delta) {
            return Ok(CommandOutcome::Done(BrowserCommandResult::Accepted));
        }
        let url = history.url().to_owned();
        self.navigate(context_id, url, None, HistoryUpdate::Preserve(history))
    }

    /// Checks that a script may run, and hands it over.
    pub fn hand_over_script(
        &self,
        context_id: BrowsingContextId,
        document_id: DocumentId,
        runtime_context_id: RuntimeContextId,
        source: String,
        purpose: ScriptPurpose,
    ) -> (r: Result<CommandOutcome, BrowserError>)
        ensures
            self@.evaluates(
                self@,
                r,
                context_id,
                document_id,
                runtime_context_id,
                source@,
                purpose,
            ),
    {
        match self.begin_evaluation(context_id, document_id, runtime_context_id, source.as_str()) {
            Ok(runtime_slot) => Ok(
                CommandOutcome::Host(
                    HostCall::RunScript { context_id, runtime_slot, source, purpose },
                ),
            ),
            Err(e) => Err(e),
        }
    }

    /// Hands over that a page is to hear of its view and its zoom.
    fn view_changed(&self, context_id: BrowsingContextId, purpose: ScriptPurpose) -> (r: Result<
        CommandOutcome,
        BrowserError,
    >)
        requires
            self@.has(context_id),
        ensures
            r == Ok::<CommandOutcome, BrowserError>(
                CommandOutcome::Host(
                    HostCall::ViewChanged {
                        context_id,
                        document_id: self@.context(context_id).document_id,
                        runtime_context_id: self@.context(context_id).runtime_context_id,
                        view: self@.context(context_id).host_view,
                        page_zoom: self@.context(context_id).page_zoom,
                        purpose,
                    },
                ),
            ),
    {
        match self.context(context_id) {
            Ok(context) => Ok(
                CommandOutcome::Host(
                    HostCall::ViewChanged {
                        context_id,
                        document_id: context.document_id,
                        runtime_context_id: context.runtime_context_id,
                        view: context.host_view,
                        page_zoom: context.page_zoom,
                        purpose,
                    },
                ),
            ),
            Err(e) => Err(e),
        }
    }

    /// Checks a question about a page.
    fn query(&self, context_id: BrowsingContextId, document_id: DocumentId, query: PageQuery) -> (r:
        Result<CommandOutcome, BrowserError>)
        ensures
            self@.carries_out(
                BrowserCommand::Query { context_id, document_id, query },
                self@,
                r,
            ),
    {
        match validate_query(&query) {
            Ok(()) => {},
            Err(e) => return Err(e),
        }
        match self.context_for_document(context_id, document_id) {
            Ok(_) => Ok(CommandOutcome::Host(HostCall::Query { context_id, query })),
            Err(e) => Err(e),
        }
    }

    /// Checks an accessibility action.
    fn accessibility_action(&self, request: AccessibilityActionDispatch) -> (r: Result<
        CommandOutcome,
        BrowserError,
    >)
        ensures
            self@.carries_out(
                BrowserCommand::DispatchAccessibilityAction { request },
                self@,
                r,
            ),
    {
        let context_id = request.context_id;
        let document_id = request.document_id;
        let runtime_context_id = request.runtime_context_id;
        let source = match self.dispatch_accessibility_action(request) {
            Ok(source) => source,
            Err(e) => return Err(e),
        };
        self.hand_over_script(
            context_id,
            document_id,
            runtime_context_id,
            source,
            ScriptPurpose::AccessibilityAction,
        )
    }

    /// Carries out a command as far as the registry goes.
    #[verifier::rlimit(40)]
    pub fn dispatch(&mut self, command: BrowserCommand) -> (r: Result<CommandOutcome, BrowserError>)
        requires
            old(self).wf(),
        ensures
            final(self).wf(),
            old(self)@.carries_out(command, final(self)@, r),
    {
        broadcast use crate::browser::order::group_order;

        let accepted = Ok(CommandOutcome::Done(BrowserCommandResult::Accepted));
        match command {
            BrowserCommand::LoadProfileSession => Ok(
                CommandOutcome::Host(HostCall::LoadProfileSession),
            ),
            BrowserCommand::SaveCurrentProfileSession => {
                let session = self.save_current_profile_session();
                Ok(CommandOutcome::Host(HostCall::SaveProfileSession { session }))
            },
            BrowserCommand::SaveProfileSession { session } => Ok(
                CommandOutcome::Host(HostCall::SaveProfileSession { session }),
            ),
            BrowserCommand::ClearProfileData { selection } => {
                let runtimes = self.runtimes_to_clear(selection.cookies, selection.fetch_cache);
                Ok(CommandOutcome::Host(HostCall::ClearProfileData { selection, runtimes }))
            },
            BrowserCommand::CreateBrowsingContext => match self.reserve_context() {
                Ok(reservation) => Ok(CommandOutcome::Host(HostCall::CreateContext { reservation })),
                Err(e) => Err(e),
            },
            BrowserCommand::CloseBrowsingContext { context_id } => match self.close_context(
                context_id,
            ) {
                Ok(()) => accepted,
                Err(e) => Err(e),
            },
            BrowserCommand::ActivateBrowsingContext { context_id } => match self.activate_context(
                context_id,
            ) {
                Ok(()) => accepted,
                Err(e) => Err(e),
            },
            BrowserCommand::Navigate { context_id, url } => self.navigate(
                context_id,
                url,
                None,
                HistoryUpdate::Push,
            ),
            BrowserCommand::NavigateHtml { context_id, url, html } => self.navigate_html(
                context_id,
                url,
                html,
            ),
            BrowserCommand::Reload { context_id } => self.reload(context_id),
            BrowserCommand::Stop { context_id } => match self.stop(context_id) {
                Ok(()) => accepted,
                Err(e) => Err(e),
            },
            BrowserCommand::TraverseHistory { context_id, delta } => self.traverse_history(
                context_id,
                delta,
            ),
            BrowserCommand::GetBrowsingContextState { context_id } => match self.context_state(
                context_id,
            ) {
                Ok(state) => Ok(
                    CommandOutcome::Done(BrowserCommandResult::BrowsingContextState(state)),
                ),
                Err(e) => Err(e),
            },
            BrowserCommand::UpdateHostViewState { context_id, state } =>
            match self.update_host_view_state(context_id, state) {
                Ok(()) => self.view_changed(context_id, ScriptPurpose::View),
                Err(e) => Err(e),
            },
            BrowserCommand::SetPageZoom { context_id, zoom } => match self.set_page_zoom(
                context_id,
                zoom,
            ) {
                Ok(()) => self.view_changed(context_id, ScriptPurpose::Zoom),
                Err(e) => Err(e),
            },
            BrowserCommand::GetBrowserSnapshot => Ok(
                CommandOutcome::Done(BrowserCommandResult::BrowserSnapshot(self.browser_snapshot())),
            ),
            BrowserCommand::ConfigureBrowsingContext { context_id, config } => match self.context(
                context_id,
            ) {
                Ok(context) => Ok(
                    CommandOutcome::Host(
                        HostCall::ConfigureContext {
                            context_id,
                            runtime_slot: context.runtime_slot,
                            config,
                        },
                    ),
                ),
                Err(e) => Err(e),
            },
            BrowserCommand::GetNavigationHistory { context_id } => match self.navigation_history(
                context_id,
            ) {
                Ok(snapshot) => Ok(
                    CommandOutcome::Done(BrowserCommandResult::NavigationHistory(snapshot)),
                ),
                Err(e) => Err(e),
            },
            BrowserCommand::ResetNavigationHistory { context_id } =>
            match self.reset_navigation_history(context_id) {
                Ok(()) => accepted,
                Err(e) => Err(e),
            },
            BrowserCommand::Evaluate { context_id, document_id, runtime_context_id, source } =>
            self.hand_over_script(
                context_id,
                document_id,
                runtime_context_id,
                source,
                ScriptPurpose::Evaluation,
            ),
            BrowserCommand::EvaluateForAutomation {
                context_id,
                document_id,
                runtime_context_id,
                source,
            } => self.hand_over_script(
                context_id,
                document_id,
                runtime_context_id,
                source,
                ScriptPurpose::AutomationEvaluation,
            ),
            BrowserCommand::DispatchMouseEvent {
                context_id,
                document_id,
                runtime_context_id,
                node_id,
                event_type,
                event,
                numbers,
                default_target,
            } => self.dispatch_mouse_event(
                context_id,
                document_id,
                runtime_context_id,
                node_id,
                event_type,
                event,
                numbers,
                default_target,
            ),
            BrowserCommand::DispatchKeyEvent {
                context_id,
                document_id,
                runtime_context_id,
                event_type,
                event,
                focus_consumes_scroll_keys,
            } => self.dispatch_key_event(
                context_id,
                document_id,
                runtime_context_id,
                event_type,
                event,
                focus_consumes_scroll_keys,
            ),
            BrowserCommand::DispatchTextInput {
                context_id,
                document_id,
                runtime_context_id,
                state,
            } => self.dispatch_text_input(context_id, document_id, runtime_context_id, state),
            BrowserCommand::DispatchAccessibilityAction { request } => self.accessibility_action(
                request,
            ),
            BrowserCommand::Query { context_id, document_id, query } => self.query(
                context_id,
                document_id,
                query,
            ),
        }
    }
}

/// The error for an element that the page does not have.
pub fn element_missing(element_id: &str) -> (r: BrowserError)
    ensures
        r@ == ErrorView::new(
            ErrorCode::InvalidArgument,
            "no element with id '"@ + element_id@ + "'"@,
        ),
{
    let mut message = crate::browser::error::joined("no element with id '", element_id);
    message.append("'");
    BrowserError::with_message(ErrorCode::InvalidArgument, message)
}

} // verus!
