//! What scripts ask of the browser.
//!
//! A script runs only in the runtime that its context has now. It hands over
//! actions, which are carried out in order.

use vstd::prelude::*;

use crate::browser::actions::{
    action_fits, prepare_navigation_actions, NavigationAction, PreparedNavigationAction, PreparedView,
};
use crate::browser::effects::{accessibility_script, ScriptValue};
use crate::browser::error::{BrowserError, ErrorCode, ErrorView};
use crate::browser::events::{BrowserEvent, CrossDocumentNavigationKind, EventView, RuntimeEffects};
use crate::browser::history::SessionHistory;
use crate::browser::ids::{BrowsingContextId, DocumentId, NavigationId, RuntimeContextId};
use crate::browser::limits::{
    validate_script, validate_viewport, MAX_NAVIGATION_ACTIONS_PER_COMMAND,
};
use crate::browser::registry::{context_state, BrowserCore, ContextView, CoreView, HostRequest};
use crate::text::{byte_len, same_text};

verus! {

/// What became of an action of a script.
pub enum NavigationActionOutcome {
    CrossDocument { navigation_id: NavigationId, kind: CrossDocumentNavigationKind },
    SameDocument { url: String },
}

/// A [`NavigationActionOutcome`] as a value.
pub enum OutcomeView {
    CrossDocument { navigation_id: NavigationId, kind: CrossDocumentNavigationKind },
    SameDocument { url: Seq<char> },
}

impl View for NavigationActionOutcome {
    type V = OutcomeView;

    open spec fn view(&self) -> OutcomeView {
        match *self {
            NavigationActionOutcome::CrossDocument { navigation_id, kind } =>
            OutcomeView::CrossDocument { navigation_id, kind },
            NavigationActionOutcome::SameDocument { url } => OutcomeView::SameDocument {
                url: url@,
            },
        }
    }
}

impl OutcomeView {
    /// Outcomes as values.
    pub open spec fn all(s: Seq<NavigationActionOutcome>) -> Seq<OutcomeView> {
        Seq::new(s.len(), |i: int| s[i]@)
    }
}

/// How far the actions of a script have been carried out.
#[verifier::ext_equal]
pub struct Carried {
    pub browser: CoreView,
    pub outcomes: Seq<OutcomeView>,
    /// The navigation that the next one follows.
    pub predecessor: Option<NavigationId>,
    /// Why an action could not be carried out; the rest are then left alone.
    pub error: Option<ErrorView>,
}

impl Carried {
    /// One more action carried out.
    pub open spec fn step(self, context_id: BrowsingContextId, action: PreparedView) -> Carried {
        if self.error is Some {
            self
        } else {
            match action {
                PreparedView::CrossDocument { url, injected_html, history_update, kind } => {
                    let browser = self.browser.begun(
                        context_id,
                        url,
                        injected_html,
                        history_update,
                        kind,
                        self.predecessor,
                    );
                    match self.browser.navigation_fault(context_id, url) {
                        Some(e) => Carried { browser, error: Some(e), ..self },
                        None => {
                            let navigation_id = NavigationId {
                                raw: self.browser.ids.next_navigation,
                            };
                            Carried {
                                browser,
                                outcomes: self.outcomes.push(
                                    OutcomeView::CrossDocument { navigation_id, kind },
                                ),
                                predecessor: Some(navigation_id),
                                error: None,
                            }
                        },
                    }
                },
                PreparedView::SameDocument { history, url } => {
                    let context = ContextView {
                        history,
                        ..self.browser.context(context_id)
                    };
                    Carried {
                        browser: self.browser.with_context(context_id, context).asking(
                            HostRequest::SyncPageRealm {
                                context_id,
                                runtime_slot: context.runtime_slot as usize,
                            },
                        ).telling(
                            seq![
                                EventView::BrowsingContextStateChanged {
                                    state: context.state(context_id),
                                },
                            ],
                        ),
                        outcomes: self.outcomes.push(OutcomeView::SameDocument { url }),
                        ..self
                    }
                },
            }
        }
    }

    /// Actions carried out in order.
    pub open spec fn steps(
        self,
        context_id: BrowsingContextId,
        actions: Seq<PreparedView>,
    ) -> Carried
        decreases actions.len(),
    {
        if actions.len() == 0 {
            self
        } else {
            self.steps(context_id, actions.drop_last()).step(context_id, actions.last())
        }
    }

    /// Nothing carried out yet.
    pub open spec fn start(browser: CoreView, predecessor: Option<NavigationId>) -> Carried {
        Carried { browser, outcomes: Seq::empty(), predecessor, error: None }
    }
}

/// After an action that could not be carried out, the rest are left alone.
proof fn carried_error_sticks(
    c: Carried,
    context_id: BrowsingContextId,
    actions: Seq<PreparedView>,
    i: int,
)
    requires
        0 <= i <= actions.len(),
        c.steps(context_id, actions.take(i)).error is Some,
    ensures
        c.steps(context_id, actions) == c.steps(context_id, actions.take(i)),
    decreases actions.len(),
{
    if i < actions.len() {
        assert(actions.drop_last().take(i) =~= actions.take(i));
        carried_error_sticks(c, context_id, actions.drop_last(), i);
    } else {
        assert(actions.take(i) =~= actions);
    }
}

/// The command brought more actions than are carried out.
pub open spec fn too_many_actions(actions: Seq<NavigationAction>) -> bool {
    actions.len() > MAX_NAVIGATION_ACTIONS_PER_COMMAND || exists|i: int|
        0 <= i < actions.len() && #[trigger] actions[i] is Overflow
}

/// Where the data of a form among the actions goes into a URL, the URL can take
/// it.
pub open spec fn forms_fit(actions: Seq<NavigationAction>) -> bool {
    forall|i: int|
        0 <= i < actions.len() ==> crate::browser::actions::fitting_action(#[trigger] actions[i])
}

/// Whether every form among the actions can be submitted.
pub fn all_forms_fit(actions: &Vec<NavigationAction>) -> (r: bool)
    ensures
        r == forms_fit(actions@),
{
    let mut i: usize = 0;
    while i < actions.len()
        invariant
            i <= actions@.len(),
            forall|k: int|
                0 <= k < i ==> crate::browser::actions::fitting_action(#[trigger] actions@[k]),
        decreases actions@.len() - i,
    {
        if !action_fits(&actions[i]) {
            assert(!crate::browser::actions::fitting_action(actions@[i as int]));
            return false;
        }
        i += 1;
    }
    true
}

impl CoreView {
    /// What carrying out the actions of a script comes to: all of them are
    /// checked before the first is carried out.
    pub open spec fn applied(
        self,
        context_id: BrowsingContextId,
        actions: Seq<NavigationAction>,
        predecessor: Option<NavigationId>,
    ) -> Carried {
        let start = Carried::start(self, predecessor);
        if too_many_actions(actions) {
            Carried {
                error: Some(
                    ErrorView::new(
                        ErrorCode::InvalidArgument,
                        "command produced more than 64 navigation actions"@,
                    ),
                ),
                ..start
            }
        } else if !self.has(context_id) {
            Carried { error: Some(self.missing_context(context_id)), ..start }
        } else {
            let context = self.context(context_id);
            match crate::browser::actions::actions_outcome(
                context.history,
                context.document_id,
                self.max_body_bytes,
                actions,
            ) {
                Err(e) => Carried { error: Some(e), ..start },
                Ok((_, prepared)) => start.steps(context_id, prepared),
            }
        }
    }

    /// What a script that ran in a context comes to: the frontends hear of the
    /// page as it is now, and then the actions are carried out.
    pub open spec fn scripted(
        self,
        context_id: BrowsingContextId,
        actions: Seq<NavigationAction>,
    ) -> Carried {
        self.telling(
            seq![
                EventView::BrowsingContextStateChanged {
                    state: self.context(context_id).state(context_id),
                },
            ],
        ).applied(context_id, actions, None)
    }

    /// What stands against input for a context.
    pub open spec fn input_fault(self, context_id: BrowsingContextId) -> Option<ErrorView> {
        if !self.has(context_id) {
            Some(self.missing_context(context_id))
        } else if !self.context(context_id).host_view.accepts_input {
            Some(
                ErrorView::new(
                    ErrorCode::InvalidArgument,
                    "host view is not active for content input"@,
                ),
            )
        } else {
            None
        }
    }

    /// What stands against running a script in a runtime.
    pub open spec fn evaluation_fault(
        self,
        context_id: BrowsingContextId,
        document_id: DocumentId,
        runtime_context_id: RuntimeContextId,
        source: Seq<char>,
    ) -> Option<ErrorView> {
        if crate::text::byte_count(source) > crate::browser::limits::MAX_SCRIPT_BYTES {
            Some(
                ErrorView::new(
                    ErrorCode::InvalidArgument,
                    "script source exceeds the browser evaluation limit"@,
                ),
            )
        } else {
            self.runtime_fault(context_id, document_id, runtime_context_id)
        }
    }
}

/// What a script came to when a command ran it.
pub struct Evaluation {
    pub value: ScriptValue,
    pub effects: RuntimeEffects,
    pub actions: Vec<NavigationAction>,
}

/// What a command that runs a script gives back.
pub struct AutomationEvaluation {
    pub value: ScriptValue,
    pub effects: RuntimeEffects,
    pub navigation_actions: Vec<NavigationActionOutcome>,
}

impl BrowserCore {
    /// Whether a command brought more actions than are carried out.
    fn exceeds_action_limit(actions: &Vec<NavigationAction>) -> (r: bool)
        ensures
            r == too_many_actions(actions@),
    {
        if actions.len() > MAX_NAVIGATION_ACTIONS_PER_COMMAND {
            return true;
        }
        let mut i: usize = 0;
        while i < actions.len()
            invariant
                i <= actions@.len(),
                forall|k: int| 0 <= k < i ==> !(#[trigger] actions@[k] is Overflow),
            decreases actions@.len() - i,
        {
            if let NavigationAction::Overflow = &actions[i] {
                assert(actions@[i as int] is Overflow);
                return true;
            }
            i += 1;
        }
        false
    }

    /// Moves a page within its document.
    fn move_within_document(&mut self, context_id: BrowsingContextId, history: SessionHistory)
        requires
            old(self).wf(),
            old(self)@.has(context_id),
            history.wf(),
        ensures
            final(self).wf(),
            ({
                let context = ContextView { history: history@, ..old(self)@.context(context_id) };
                final(self)@ == old(self)@.with_context(context_id, context).asking(
                    HostRequest::SyncPageRealm {
                        context_id,
                        runtime_slot: context.runtime_slot as usize,
                    },
                ).telling(
                    seq![
                        EventView::BrowsingContextStateChanged { state: context.state(context_id) },
                    ],
                )
            }),
    {
        broadcast use crate::browser::order::group_order;

        let ghost before = self@;
        let mut context = self.take_context(context_id);
        context.history = history;
        let runtime_slot = context.runtime_slot;
        let state = context_state(context_id, &context);
        let ghost now = context@;
        self.put_context(context_id, context);
        assert(self@ =~= before.with_context(context_id, now));
        self.ask(HostRequest::SyncPageRealm { context_id, runtime_slot });
        self.emit(BrowserEvent::BrowsingContextStateChanged { state });
    }

    /// Carries out the actions of a script. All of them are checked first, and
    /// one that fails the check stops them all.
    pub fn apply_navigation_actions(
        &mut self,
        context_id: BrowsingContextId,
        actions: Vec<NavigationAction>,
        predecessor_navigation_id: Option<NavigationId>,
    ) -> (r: Result<Vec<NavigationActionOutcome>, BrowserError>)
        requires
            old(self).wf(),
            forms_fit(actions@),
        ensures
            final(self).wf(),
            old(self)@.has(context_id) ==> final(self)@.has(context_id),
            ({
                let carried = old(self)@.applied(context_id, actions@, predecessor_navigation_id);
                &&& final(self)@ == carried.browser
                &&& match carried.error {
                    Some(e) => r is Err && r->Err_0@ == e,
                    None => r is Ok && OutcomeView::all(r->Ok_0@) == carried.outcomes,
                }
            }),
    {
        broadcast use crate::browser::order::group_order;

        let ghost before = self@;
        if BrowserCore::exceeds_action_limit(&actions) {
            return Err(BrowserError::invalid("command produced more than 64 navigation actions"));
        }
        let ghost all = actions@;
        let prepared = match self.context(context_id) {
            Err(e) => return Err(e),
            Ok(context) => match prepare_navigation_actions(
                &context.history,
                context.document_id,
                self.max_body_bytes,
                actions,
            ) {
                Err(e) => return Err(e),
                Ok(prepared) => prepared,
            },
        };
        let ghost todo = prepared@;
        let ghost views = PreparedView::all(todo);
        let ghost start = Carried::start(before, predecessor_navigation_id);
        let mut predecessor = predecessor_navigation_id;
        let mut outcomes: Vec<NavigationActionOutcome> = Vec::new();
        assert(views.take(0) =~= Seq::<PreparedView>::empty());
        assert(OutcomeView::all(outcomes@) =~= Seq::<OutcomeView>::empty());
        for action in it: prepared
            invariant
                before == old(self)@,
                all == actions@,
                it.seq() == todo,
                views == PreparedView::all(todo),
                forall|i: int| 0 <= i < todo.len() ==> (#[trigger] todo[i])@.valid(),
                self.wf(),
                self@.has(context_id),
                before.has(context_id),
                before.applied(context_id, all, predecessor_navigation_id) == start.steps(
                    context_id,
                    views,
                ),
                start.steps(context_id, views.take(it.index())) == (Carried {
                    browser: self@,
                    outcomes: OutcomeView::all(outcomes@),
                    predecessor,
                    error: None,
                }),
        {
            let ghost k = it.index();
            let ghost now = self@;
            let ghost done = outcomes@;
            assert(views.take(k + 1).drop_last() =~= views.take(k));
            assert(views.take(k + 1).last() == action@);
            assert(todo[k]@.valid());
            match action {
                PreparedNavigationAction::CrossDocument {
                    url,
                    injected_html,
                    history_update,
                    kind,
                } => {
                    match self.begin_navigation(
                        context_id,
                        url,
                        injected_html,
                        history_update,
                        kind,
                        predecessor,
                    ) {
                        Err(e) => {
                            proof {
                                carried_error_sticks(start, context_id, views, k + 1);
                            }
                            return Err(e);
                        },
                        Ok(navigation_id) => {
                            let outcome = NavigationActionOutcome::CrossDocument {
                                navigation_id,
                                kind,
                            };
                            outcomes.push(outcome);
                            predecessor = Some(navigation_id);
                            assert(OutcomeView::all(outcomes@) =~= OutcomeView::all(done).push(
                                outcome@,
                            ));
                        },
                    }
                },
                PreparedNavigationAction::SameDocument { history, url } => {
                    self.move_within_document(context_id, history);
                    let outcome = NavigationActionOutcome::SameDocument { url };
                    outcomes.push(outcome);
                    assert(OutcomeView::all(outcomes@) =~= OutcomeView::all(done).push(outcome@));
                },
            }
        }
        assert(views.take(views.len() as int) =~= views);
        Ok(outcomes)
    }

    /// Checks that a script may run in a runtime, and says which runtime it is.
    pub fn begin_evaluation(
        &self,
        context_id: BrowsingContextId,
        document_id: DocumentId,
        runtime_context_id: RuntimeContextId,
        source: &str,
    ) -> (r: Result<usize, BrowserError>)
        ensures
            match self@.evaluation_fault(context_id, document_id, runtime_context_id, source@) {
                Some(e) => r is Err && r->Err_0@ == e,
                None => r is Ok && r->Ok_0 == self@.context(context_id).runtime_slot,
            },
    {
        match validate_script(source) {
            Ok(()) => {},
            Err(e) => return Err(e),
        }
        match self.context_for_document(context_id, document_id) {
            Err(e) => Err(e),
            Ok(context) => if context.runtime_context_id != runtime_context_id {
                Err(BrowserCore::stale_runtime(runtime_context_id, context_id))
            } else {
                Ok(context.runtime_slot)
            },
        }
    }

    /// Takes what a script came to. A script that failed leaves nothing behind;
    /// otherwise the frontends hear of the page as it is now, and what the
    /// script asked for is carried out.
    pub fn automation_evaluation(
        &mut self,
        context_id: BrowsingContextId,
        outcome: Result<Evaluation, BrowserError>,
    ) -> (r: Result<AutomationEvaluation, BrowserError>)
        requires
            old(self).wf(),
            outcome matches Ok(evaluation) ==> forms_fit(evaluation.actions@),
        ensures
            final(self).wf(),
            match outcome {
                Err(e) => r is Err && r->Err_0 == e && final(self)@ == old(self)@,
                Ok(evaluation) => if !old(self)@.has(context_id) {
                    &&& r is Err
                    &&& r->Err_0@ == old(self)@.missing_context(context_id)
                    &&& final(self)@ == old(self)@
                } else {
                    let carried = old(self)@.scripted(context_id, evaluation.actions@);
                    &&& final(self)@ == carried.browser
                    &&& final(self)@.has(context_id)
                    &&& match carried.error {
                        Some(e) => r is Err && r->Err_0@ == e,
                        None => r is Ok && r->Ok_0.value == evaluation.value && r->Ok_0.effects
                            == evaluation.effects && OutcomeView::all(
                            r->Ok_0.navigation_actions@,
                        ) == carried.outcomes,
                    }
                },
            },
    {
        broadcast use crate::browser::order::group_order;

        let evaluation = match outcome {
            Err(e) => return Err(e),
            Ok(evaluation) => evaluation,
        };
        let state = match self.context_state(context_id) {
            Err(e) => return Err(e),
            Ok(state) => state,
        };
        self.emit(BrowserEvent::BrowsingContextStateChanged { state });
        match self.apply_navigation_actions(context_id, evaluation.actions, None) {
            Err(e) => Err(e),
            Ok(navigation_actions) => Ok(
                AutomationEvaluation {
                    value: evaluation.value,
                    effects: evaluation.effects,
                    navigation_actions,
                },
            ),
        }
    }

    /// Refuses input for a context whose view does not take any.
    pub fn ensure_host_accepts_input(&self, context_id: BrowsingContextId) -> (r: Result<
        (),
        BrowserError,
    >)
        ensures
            ErrorView::outcome(r) == CoreView::unless(self@.input_fault(context_id)),
    {
        match self.context(context_id) {
            Err(e) => Err(e),
            Ok(context) => if context.host_view.accepts_input {
                Ok(())
            } else {
                Err(BrowserError::invalid("host view is not active for content input"))
            },
        }
    }

    /// Checks an accessibility action against the tree that the page has now,
    /// and gives the script that carries it out.
    pub fn dispatch_accessibility_action(&self, request: AccessibilityActionDispatch) -> (r: Result<
        String,
        BrowserError,
    >)
        ensures
            match self@.accessibility_fault(request) {
                Some(e) => r is Err && r->Err_0@ == e,
                None => r is Ok && r->Ok_0@ == crate::browser::effects::action_script(
                    request.node_id,
                    crate::weburl::json_text(request.action@),
                    match request.value {
                        Some(v) => crate::weburl::json_text(v@),
                        None => "null"@,
                    },
                ),
            },
    {
        match self.ensure_host_accepts_input(request.context_id) {
            Ok(()) => {},
            Err(e) => return Err(e),
        }
        match validate_viewport(request.viewport) {
            Ok(()) => {},
            Err(e) => return Err(e),
        }
        match self.ensure_runtime(
            request.context_id,
            request.document_id,
            request.runtime_context_id,
        ) {
            Ok(()) => {},
            Err(e) => return Err(e),
        }
        if request.tree_generation != request.source_generation {
            return Err(
                BrowserError::new(
                    ErrorCode::StaleAccessibility,
                    "accessibility source generation is no longer current",
                ),
            );
        }
        if !offers(&request.nodes, request.node_id, request.action.as_str()) {
            return Err(
                BrowserError::invalid("accessibility node does not advertise the requested action"),
            );
        }
        if let Some(value) = &request.value {
            if byte_len(value.as_str()) > request.max_value_bytes {
                return Err(BrowserError::invalid("accessibility value exceeds the browser limit"));
            }
        }
        let value = match &request.value {
            Some(v) => Some(v.as_str()),
            None => None,
        };
        accessibility_script(request.node_id, request.action.as_str(), value)
    }
}

/// A node of an accessibility tree and the actions it offers.
pub struct AccessibilityNode {
    pub id: usize,
    pub actions: Vec<String>,
}

/// An accessibility action, with the tree that the page has now.
pub struct AccessibilityActionDispatch {
    pub context_id: BrowsingContextId,
    pub document_id: DocumentId,
    pub runtime_context_id: RuntimeContextId,
    pub viewport: (u32, u32),
    /// The generation of the tree that the action was chosen from.
    pub source_generation: u64,
    /// The generation of the tree now.
    pub tree_generation: u64,
    pub nodes: Vec<AccessibilityNode>,
    pub node_id: usize,
    /// The name of the action.
    pub action: String,
    /// The value to set, for the action that sets one.
    pub value: Option<String>,
    /// The longest value, in bytes.
    pub max_value_bytes: usize,
}

/// A node of the tree offers the action.
pub open spec fn is_offered(
    nodes: Seq<AccessibilityNode>,
    node_id: usize,
    action: Seq<char>,
) -> bool {
    exists|i: int, j: int|
        0 <= i < nodes.len() && (#[trigger] nodes[i]).id == node_id && 0 <= j < nodes[i].actions@.len()
            && (#[trigger] nodes[i].actions@[j])@ == action
}

/// Whether a node of the tree offers the action.
fn offers(nodes: &Vec<AccessibilityNode>, node_id: usize, action: &str) -> (r: bool)
    ensures
        r == is_offered(nodes@, node_id, action@),
{
    let mut i: usize = 0;
    while i < nodes.len()
        invariant
            i <= nodes@.len(),
            forall|a: int, b: int|
                0 <= a < i && (#[trigger] nodes@[a]).id == node_id && 0 <= b
                    < nodes@[a].actions@.len() ==> (#[trigger] nodes@[a].actions@[b])@ != action@,
        decreases nodes@.len() - i,
    {
        if nodes[i].id == node_id {
            let mut j: usize = 0;
            while j < nodes[i].actions.len()
                invariant
                    i < nodes@.len(),
                    nodes@[i as int].id == node_id,
                    j <= nodes@[i as int].actions@.len(),
                    forall|b: int|
                        0 <= b < j ==> (#[trigger] nodes@[i as int].actions@[b])@ != action@,
                decreases nodes@[i as int].actions@.len() - j,
            {
                if same_text(nodes[i].actions[j].as_str(), action) {
                    assert(nodes@[i as int].id == node_id && nodes@[i as int].actions@[j as int]@
                        == action@);
                    return true;
                }
                j += 1;
            }
        }
        i += 1;
    }
    false
}

impl CoreView {
    /// What stands against an accessibility action.
    pub open spec fn accessibility_fault(
        self,
        request: AccessibilityActionDispatch,
    ) -> Option<ErrorView> {
        match self.input_fault(request.context_id) {
            Some(e) => Some(e),
            None => if !crate::browser::limits::viewport_ok(request.viewport) {
                Some(
                    ErrorView::new(
                        ErrorCode::InvalidArgument,
                        "viewport must be within 1x1 and 16384x16384"@,
                    ),
                )
            } else {
                match self.runtime_fault(
                    request.context_id,
                    request.document_id,
                    request.runtime_context_id,
                ) {
                    Some(e) => Some(e),
                    None => if request.tree_generation != request.source_generation {
                        Some(
                            ErrorView::new(
                                ErrorCode::StaleAccessibility,
                                "accessibility source generation is no longer current"@,
                            ),
                        )
                    } else if !is_offered(request.nodes@, request.node_id, request.action@) {
                        Some(
                            ErrorView::new(
                                ErrorCode::InvalidArgument,
                                "accessibility node does not advertise the requested action"@,
                            ),
                        )
                    } else if request.value matches Some(v) && crate::text::byte_count(v@)
                        > request.max_value_bytes {
                        Some(
                            ErrorView::new(
                                ErrorCode::InvalidArgument,
                                "accessibility value exceeds the browser limit"@,
                            ),
                        )
                    } else {
                        None
                    },
                }
            },
        }
    }
}

} // verus!
