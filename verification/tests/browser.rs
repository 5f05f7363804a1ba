use std::collections::VecDeque;

use vixen_engine::browser::actions::{FormLookups, FormSubmission, NavigationAction};
use vixen_engine::browser::commands::{
    AccessibilityActionDispatch, AccessibilityNode, Evaluation, NavigationActionOutcome,
};
use vixen_engine::browser::contexts::NavigationHistorySnapshot;
use vixen_engine::browser::dispatch::{
    BrowserCommand, BrowserCommandResult, CommandOutcome, HostCall, InputDispatchResult, PageQuery,
};
use vixen_engine::browser::effects::ScriptValue;
use vixen_engine::browser::error::{BrowserError, ErrorCode};
use vixen_engine::browser::events::{
    BrowserEvent, BrowsingContextState, EventQueue, NavigationCancellationReason, NavigationPhase,
    RuntimeEffects, RuntimeNetworkEvent,
};
use vixen_engine::browser::ids::{BrowsingContextId, DocumentId, NavigationId, RuntimeContextId};
use vixen_engine::browser::input::{
    Completed, KeyEventData, MouseEventData, MouseNumbers, MousePosition, PageScroll,
    ScriptPurpose,
};
use vixen_engine::browser::limits::{
    Float64, HostLifecycle, HostViewState, KeyboardScroll, Modifiers, TextInputState,
    TextSelection, MAX_NAVIGATION_ACTIONS_PER_COMMAND, MAX_URL_BYTES,
};
use vixen_engine::browser::loading::{ParseStep, ParsedPage, SourceAcceptance};
use vixen_engine::browser::registry::{
    BrowserCore, BrowsingContextConfig, ExternalScriptLoadKey, HostRequest, NavigationWork,
};
use vixen_engine::browser::scripts::{ExternalRun, ExternalScriptStep, ScriptRun, WorkStep};
use vixen_engine::browser::source::{
    admit_file_length, file_source, LoadedExternalScript, LoadedSource, NetworkEvent,
    ScriptResponse,
};

/// What a script of a page does when it runs.
enum Script {
    Title(&'static str),
    Throws(ErrorCode, &'static str),
    External(&'static str),
}

/// A host that loads documents and runs scripts at once, as the tests say.
struct Bench {
    core: BrowserCore,
    title: &'static str,
    url: String,
    chunks: usize,
    scripts: VecDeque<Script>,
    ran: Vec<String>,
}

fn config() -> BrowsingContextConfig {
    BrowsingContextConfig {
        preload_scripts: Vec::new(),
        new_document_scripts: Vec::new(),
        bypass_csp: false,
        cache_disabled: false,
        extra_http_headers: Vec::new(),
        permission_grants: Vec::new(),
    }
}

fn view(generation: u64, viewport: (u32, u32)) -> HostViewState {
    HostViewState {
        generation,
        viewport,
        scale_factor: Float64 { bits: 1.0f64.to_bits() },
        focused: true,
        visible: true,
        lifecycle: HostLifecycle::Resumed,
        accepts_input: true,
    }
}

fn quiet(item: Option<Result<(), BrowserError>>) -> ScriptRun {
    ScriptRun { item, effects: Ok(RuntimeEffects::none()), actions: Ok(Vec::new()) }
}

impl Bench {
    fn new() -> Bench {
        Bench::with_body_limit(1 << 20)
    }

    fn with_body_limit(max_body_bytes: u64) -> Bench {
        Bench {
            core: BrowserCore::new(64, max_body_bytes, Vec::new()),
            title: "",
            url: String::new(),
            chunks: 1,
            scripts: VecDeque::new(),
            ran: Vec::new(),
        }
    }

    fn create(&mut self) -> BrowsingContextId {
        match self.core.dispatch(BrowserCommand::CreateBrowsingContext).unwrap() {
            CommandOutcome::Host(HostCall::CreateContext { reservation }) => {
                self.core.create_context(reservation, config(), view(0, (800, 600)), None)
            }
            _ => panic!("unexpected create result"),
        }
    }

    fn drain(&mut self) -> Vec<BrowserEvent> {
        self.core.events.drain(..).collect()
    }

    fn state(&mut self, context_id: BrowsingContextId) -> BrowsingContextState {
        match self.core.dispatch(BrowserCommand::GetBrowsingContextState { context_id }).unwrap() {
            CommandOutcome::Done(BrowserCommandResult::BrowsingContextState(state)) => state,
            _ => panic!("unexpected state result"),
        }
    }

    fn history(&mut self, context_id: BrowsingContextId) -> NavigationHistorySnapshot {
        match self.core.dispatch(BrowserCommand::GetNavigationHistory { context_id }).unwrap() {
            CommandOutcome::Done(BrowserCommandResult::NavigationHistory(history)) => history,
            _ => panic!("unexpected history result"),
        }
    }

    fn history_urls(&mut self, context_id: BrowsingContextId) -> Vec<String> {
        self.history(context_id).entries.into_iter().map(|entry| entry.url).collect()
    }

    fn accepted(&mut self, command: BrowserCommand) -> NavigationId {
        match self.core.dispatch(command).unwrap() {
            CommandOutcome::Done(BrowserCommandResult::NavigationAccepted { navigation_id }) => {
                navigation_id
            }
            _ => panic!("unexpected navigation result"),
        }
    }

    fn begin(&mut self, context_id: BrowsingContextId, url: &str) -> NavigationId {
        self.accepted(BrowserCommand::Navigate { context_id, url: url.to_owned() })
    }

    fn source(&mut self, context_id: BrowsingContextId, navigation_id: NavigationId, url: &str) {
        self.core.start_pending_loads();
        self.url = url.to_owned();
        let step = self.core.complete_navigation(
            context_id,
            navigation_id,
            Ok(LoadedSource::bare(url.to_owned(), "<!doctype html>".to_owned())),
        );
        assert!(matches!(step, SourceAcceptance::Parse(_)));
    }

    fn advance(&mut self) -> bool {
        match self.core.advance_navigation_work() {
            WorkStep::Idle => return false,
            WorkStep::Stale | WorkStep::Advanced => {}
            WorkStep::Parse { context_id, navigation_id, request_id } => {
                self.chunks -= 1;
                let step = if self.chunks > 0 {
                    ParseStep::More
                } else {
                    self.chunks = 1;
                    let title = Some(self.title.to_owned());
                    ParseStep::Complete(ParsedPage { url: self.url.clone(), title })
                };
                let plan = self.core.parse_advanced(context_id, navigation_id, request_id, step);
                if let Some(plan) = plan {
                    self.core.commit_parsed_navigation(plan, Ok(()));
                }
            }
            WorkStep::RunScript { context_id, navigation_id, source, work } => {
                self.ran.push(source);
                self.core.finish_script(context_id, navigation_id, work, quiet(Some(Ok(()))));
            }
            WorkStep::AskAuthor { context_id, navigation_id, work } => {
                match self.scripts.pop_front() {
                    None => {
                        self.core.finish_script(context_id, navigation_id, work, quiet(None));
                    }
                    Some(Script::Title(title)) => {
                        self.core.set_page_title(context_id, Some(title.to_owned())).unwrap();
                        self.core.finish_script(context_id, navigation_id, work, quiet(Some(Ok(()))));
                    }
                    Some(Script::Throws(code, message)) => {
                        let error = BrowserError::new(code, message);
                        self.core.finish_script(
                            context_id,
                            navigation_id,
                            work,
                            quiet(Some(Err(error))),
                        );
                    }
                    Some(Script::External(url)) => {
                        self.core.external_script_found(
                            context_id,
                            navigation_id,
                            work,
                            url.to_owned(),
                            Ok(()),
                        );
                    }
                }
            }
            WorkStep::Settled { context_id, navigation_id, actions } => {
                self.core
                    .apply_navigation_actions(context_id, actions, Some(navigation_id))
                    .unwrap();
            }
        }
        true
    }

    fn drive(&mut self, context_id: BrowsingContextId, navigation_id: NavigationId) {
        while self.core.is_current(context_id, navigation_id) {
            assert!(self.advance());
        }
    }

    fn drive_to_scripts(&mut self, context_id: BrowsingContextId) {
        loop {
            let context = self.core.context(context_id).unwrap();
            let work = &context.active_navigation.as_ref().unwrap().work;
            if matches!(work, Some(NavigationWork::Scripts(_))) {
                return;
            }
            assert!(self.advance());
        }
    }

    fn navigate(
        &mut self,
        context_id: BrowsingContextId,
        url: &str,
        title: &'static str,
    ) -> NavigationId {
        let navigation_id = self.begin(context_id, url);
        self.title = title;
        self.source(context_id, navigation_id, url);
        self.drive(context_id, navigation_id);
        navigation_id
    }

    fn pending_key(&self, context_id: BrowsingContextId) -> Option<ExternalScriptLoadKey> {
        let context = self.core.context(context_id).unwrap();
        context.active_navigation.as_ref()?.pending_script.as_ref().map(|pending| pending.key)
    }

    fn stop(&mut self, context_id: BrowsingContextId) {
        assert!(matches!(
            self.core.dispatch(BrowserCommand::Stop { context_id }).unwrap(),
            CommandOutcome::Done(BrowserCommandResult::Accepted)
        ));
    }

    fn late_source(
        &mut self,
        context_id: BrowsingContextId,
        navigation_id: NavigationId,
        url: &str,
    ) {
        let step = self.core.complete_navigation(
            context_id,
            navigation_id,
            Ok(LoadedSource::bare(url.to_owned(), "<!doctype html>".to_owned())),
        );
        assert!(matches!(step, SourceAcceptance::Stale));
    }
}

fn error_of<T>(result: Result<T, BrowserError>) -> BrowserError {
    match result {
        Ok(_) => panic!("expected an error"),
        Err(error) => error,
    }
}

fn phases_for(events: &[BrowserEvent], navigation_id: NavigationId) -> Vec<NavigationPhase> {
    events
        .iter()
        .filter_map(|event| match event {
            BrowserEvent::NavigationPhaseChanged { navigation_id: id, phase, .. }
                if *id == navigation_id =>
            {
                Some(*phase)
            }
            _ => None,
        })
        .collect()
}

fn assert_exactly_one_terminal_phase(events: &[BrowserEvent], navigation_id: NavigationId) {
    let terminal = phases_for(events, navigation_id)
        .into_iter()
        .filter(|phase| {
            matches!(
                phase,
                NavigationPhase::Settled | NavigationPhase::Failed | NavigationPhase::Cancelled
            )
        })
        .count();
    assert_eq!(terminal, 1);
}

fn assert_navigation_cancelled(
    events: &[BrowserEvent],
    navigation_id: NavigationId,
    reason: NavigationCancellationReason,
) {
    assert!(events.iter().any(|event| matches!(
        event,
        BrowserEvent::NavigationCancelled { navigation_id: id, reason: why, .. }
            if *id == navigation_id && *why == reason
    )));
    assert_exactly_one_terminal_phase(events, navigation_id);
    assert_eq!(phases_for(events, navigation_id).last(), Some(&NavigationPhase::Cancelled));
}

fn assert_no_lifecycle_success(events: &[BrowserEvent], navigation_id: NavigationId) {
    assert!(!events.iter().any(|event| matches!(
        event,
        BrowserEvent::DomContentLoaded { navigation_id: id, .. }
            | BrowserEvent::DocumentLoadCompleted { navigation_id: id, .. }
            | BrowserEvent::NavigationFailed { navigation_id: id, .. }
            if *id == navigation_id
    )));
}

fn assert_no_terminal_success(events: &[BrowserEvent], navigation_id: NavigationId) {
    assert_no_lifecycle_success(events, navigation_id);
    assert!(!events.iter().any(|event| matches!(
        event,
        BrowserEvent::NavigationCommitted { navigation_id: id, .. } if *id == navigation_id
    )));
}

fn success_phases() -> Vec<NavigationPhase> {
    vec![
        NavigationPhase::Intent,
        NavigationPhase::Policy,
        NavigationPhase::Request,
        NavigationPhase::Response,
        NavigationPhase::Commit,
        NavigationPhase::Parse,
        NavigationPhase::ScriptsAndSubresources,
        NavigationPhase::DomContentLoaded,
        NavigationPhase::Load,
        NavigationPhase::Settled,
    ]
}

fn parse_cancelled_phases() -> Vec<NavigationPhase> {
    vec![
        NavigationPhase::Intent,
        NavigationPhase::Policy,
        NavigationPhase::Request,
        NavigationPhase::Response,
        NavigationPhase::Commit,
        NavigationPhase::Parse,
        NavigationPhase::Cancelled,
    ]
}

fn assign(url: &str) -> NavigationAction {
    NavigationAction::Navigate { url: url.to_owned(), replace: false }
}

fn evaluation(value: &str, actions: Vec<NavigationAction>) -> Result<Evaluation, BrowserError> {
    Ok(Evaluation {
        value: ScriptValue::Text(value.to_owned()),
        effects: RuntimeEffects::none(),
        actions,
    })
}

fn evaluate_command(state: &BrowsingContextState, source: &str) -> BrowserCommand {
    BrowserCommand::EvaluateForAutomation {
        context_id: state.context_id,
        document_id: state.document_id,
        runtime_context_id: state.runtime_context_id.unwrap(),
        source: source.to_owned(),
    }
}

fn cross_document_ids(outcomes: &[NavigationActionOutcome]) -> Vec<NavigationId> {
    outcomes
        .iter()
        .filter_map(|outcome| match outcome {
            NavigationActionOutcome::CrossDocument { navigation_id, .. } => Some(*navigation_id),
            NavigationActionOutcome::SameDocument { .. } => None,
        })
        .collect()
}

fn plain() -> Modifiers {
    Modifiers { ctrl_key: false, shift_key: false, alt_key: false, meta_key: false }
}

fn still() -> MouseEventData {
    let zero = Float64 { bits: 0 };
    let one = Float64 { bits: 1.0f64.to_bits() };
    MouseEventData {
        position: MousePosition { x: one, y: one, delta_x: zero, delta_y: zero },
        button: 0,
        buttons: 0,
        detail: 1,
        related_node_id: None,
        bubbles: true,
        modifiers: plain(),
    }
}

fn numbers() -> MouseNumbers {
    MouseNumbers {
        x: "1.0".to_owned(),
        y: "1.0".to_owned(),
        delta_x: "0.0".to_owned(),
        delta_y: "0.0".to_owned(),
    }
}

fn script_of(outcome: Result<CommandOutcome, BrowserError>) -> (String, ScriptPurpose) {
    match outcome.unwrap() {
        CommandOutcome::Host(HostCall::RunScript { source, purpose, .. }) => (source, purpose),
        _ => panic!("expected a script"),
    }
}

fn input_result(completed: Result<Completed, BrowserError>) -> InputDispatchResult {
    match completed.unwrap().result {
        BrowserCommandResult::InputDispatched(result) => result,
        _ => panic!("unexpected input result"),
    }
}

fn came_to(value: bool, actions: Vec<NavigationAction>) -> Result<Evaluation, BrowserError> {
    Ok(Evaluation { value: ScriptValue::Bool(value), effects: RuntimeEffects::none(), actions })
}

#[test]
fn runtime_and_input_results_report_exact_navigation_ids() {
    let mut bench = Bench::new();
    let context_id = bench.create();
    bench.navigate(context_id, "https://same.test/a", "A");
    let current = bench.state(context_id);

    let source = "location.assign('https://same.test/b'); location.assign('https://same.test/next'); 'queued'";
    let (handed, purpose) = script_of(bench.core.dispatch(evaluate_command(&current, source)));
    assert_eq!(handed, source);
    let queued = vec![assign("https://same.test/b"), assign("https://same.test/next")];
    let completed = bench.core.complete_script(context_id, purpose, evaluation("queued", queued));
    let result = match completed.unwrap().result {
        BrowserCommandResult::AutomationEvaluation(result) => result,
        _ => panic!("unexpected automation evaluation result"),
    };
    assert!(matches!(&result.value, ScriptValue::Text(text) if text == "queued"));
    let navigation_ids = cross_document_ids(&result.navigation_actions);
    assert_eq!(navigation_ids.len(), 2);
    assert!(navigation_ids[0] < navigation_ids[1]);
    bench.stop(context_id);

    bench.navigate(context_id, "https://same.test/input", "Input");
    let current = bench.state(context_id);
    let pushed = vec![NavigationAction::HistoryPush {
        url: "https://same.test/input-state".to_owned(),
        state_json: "{\"step\":1}".to_owned(),
        title: String::new(),
    }];
    let result =
        bench.core.automation_evaluation(context_id, evaluation("same", pushed)).unwrap();
    assert!(matches!(
        result.navigation_actions.as_slice(),
        [NavigationActionOutcome::SameDocument { url }] if url == "https://same.test/input-state"
    ));

    let click = |node_id: usize| BrowserCommand::DispatchMouseEvent {
        context_id,
        document_id: current.document_id,
        runtime_context_id: current.runtime_context_id.unwrap(),
        node_id,
        event_type: "click".to_owned(),
        event: still(),
        numbers: numbers(),
        default_target: None,
    };
    let (_, purpose) = script_of(bench.core.dispatch(click(7)));
    assert!(matches!(purpose, ScriptPurpose::MouseEvent { node_id: 7, .. }));
    let replaced = vec![NavigationAction::HistoryReplace {
        url: "https://same.test/input-click".to_owned(),
        state_json: "{\"step\":2}".to_owned(),
        title: String::new(),
    }];
    let result = input_result(bench.core.complete_script(context_id, purpose, came_to(true, replaced)));
    assert!(matches!(
        result.navigation_actions.as_slice(),
        [NavigationActionOutcome::SameDocument { url }] if url == "https://same.test/input-click"
    ));

    let (_, purpose) = script_of(bench.core.dispatch(click(8)));
    let next = came_to(true, vec![assign("https://same.test/next")]);
    let result = input_result(bench.core.complete_script(context_id, purpose, next));
    let input_navigation_ids = cross_document_ids(&result.navigation_actions);
    assert_eq!(input_navigation_ids.len(), 1);
    assert!(input_navigation_ids[0] > navigation_ids[1]);
}

#[test]
fn failed_and_oversized_evaluations_drain_actions_without_allocating_navigation_ids() {
    let mut bench = Bench::new();
    let context_id = bench.create();
    let first_navigation_id = bench.navigate(context_id, "https://same.test/a", "A");
    let current = bench.state(context_id);

    let source = "location.assign('https://same.test/b'); throw new Error('boom')";
    assert!(bench.core.dispatch(evaluate_command(&current, source)).is_ok());
    let boom = Err(BrowserError::new(ErrorCode::ScriptEval, "boom"));
    let error = error_of(bench.core.automation_evaluation(context_id, boom));
    assert_eq!(error.code, ErrorCode::ScriptEval);

    let oversized = (0..=MAX_NAVIGATION_ACTIONS_PER_COMMAND)
        .map(|_| assign("https://same.test/b"))
        .collect::<Vec<_>>();
    let error =
        error_of(bench.core.automation_evaluation(context_id, evaluation("", oversized)));
    assert_eq!(error.code, ErrorCode::InvalidArgument);
    assert!(error.message.contains("more than 64 navigation actions"));

    let invalid_late_action = vec![
        assign("https://same.test/b"),
        NavigationAction::HistoryPush {
            url: format!("https://same.test/{}", "x".repeat(MAX_URL_BYTES)),
            state_json: "null".to_owned(),
            title: String::new(),
        },
    ];
    let error = error_of(
        bench.core.automation_evaluation(context_id, evaluation("", invalid_late_action)),
    );
    assert_eq!(error.code, ErrorCode::InvalidArgument);
    assert_eq!(bench.state(context_id).url, current.url);

    let clean =
        bench.core.automation_evaluation(context_id, evaluation("clean", Vec::new())).unwrap();
    assert!(clean.navigation_actions.is_empty());

    let next_navigation_id = bench.navigate(context_id, "https://same.test/next", "Next");
    assert_eq!(next_navigation_id.raw, first_navigation_id.raw + 1);
}

#[test]
fn accessibility_snapshot_validates_viewport_and_exact_document_generation() {
    let mut bench = Bench::new();
    let context_id = bench.create();
    bench.navigate(context_id, "https://same.test/input", "Input");
    let current = bench.state(context_id);
    let snapshot = |viewport: (u32, u32)| BrowserCommand::Query {
        context_id,
        document_id: current.document_id,
        query: PageQuery::AccessibilitySnapshot { viewport },
    };

    match bench.core.dispatch(snapshot((800, 600))).unwrap() {
        CommandOutcome::Host(HostCall::Query {
            context_id: asked,
            query: PageQuery::AccessibilitySnapshot { viewport },
        }) => {
            assert_eq!(asked, context_id);
            assert_eq!(viewport, (800, 600));
        }
        _ => panic!("unexpected accessibility result"),
    }
    let invalid = error_of(bench.core.dispatch(snapshot((0, 600))));
    assert_eq!(invalid.code, ErrorCode::InvalidArgument);

    bench.navigate(context_id, "https://same.test/b", "B");
    let stale = error_of(bench.core.dispatch(snapshot((800, 600))));
    assert_eq!(stale.code, ErrorCode::StaleDocument);
}

fn key_command(
    state: &BrowsingContextState,
    key: &str,
    focus_consumes_scroll_keys: bool,
) -> BrowserCommand {
    BrowserCommand::DispatchKeyEvent {
        context_id: state.context_id,
        document_id: state.document_id,
        runtime_context_id: state.runtime_context_id.unwrap(),
        event_type: "keyDown".to_owned(),
        event: KeyEventData {
            key: key.to_owned(),
            code: String::new(),
            text: String::new(),
            apply_text: false,
            modifiers: plain(),
            repeat: false,
            location: 0,
        },
        focus_consumes_scroll_keys,
    }
}

#[test]
fn host_view_generation_drives_live_focus_visibility_and_input_policy() {
    let mut bench = Bench::new();
    let context_id = bench.create();
    bench.navigate(context_id, "https://same.test/input", "Input");
    let current = bench.state(context_id);

    let hidden = HostViewState {
        generation: 1,
        viewport: (640, 360),
        scale_factor: Float64 { bits: 2.0f64.to_bits() },
        focused: false,
        visible: false,
        lifecycle: HostLifecycle::Hidden,
        accepts_input: false,
    };
    match bench.core.dispatch(BrowserCommand::UpdateHostViewState { context_id, state: hidden }) {
        Ok(CommandOutcome::Host(HostCall::ViewChanged { document_id, .. })) => {
            assert_eq!(document_id, current.document_id)
        }
        _ => panic!("unexpected host view result"),
    }
    let blocked = error_of(bench.core.dispatch(key_command(&current, "a", false)));
    assert_eq!(blocked.code, ErrorCode::InvalidArgument);
    let stale = error_of(
        bench.core.dispatch(BrowserCommand::UpdateHostViewState { context_id, state: hidden }),
    );
    assert_eq!(stale.code, ErrorCode::StaleHostView);

    let resumed = HostViewState {
        generation: 2,
        focused: true,
        visible: true,
        lifecycle: HostLifecycle::Resumed,
        accepts_input: true,
        ..hidden
    };
    assert!(bench
        .core
        .dispatch(BrowserCommand::UpdateHostViewState { context_id, state: resumed })
        .is_ok());
    assert!(bench.core.dispatch(key_command(&current, "a", false)).is_ok());
}

/// A page of a viewport's width that only scrolls.
struct Scrolled {
    context_id: BrowsingContextId,
    y: f64,
    viewport: (u32, u32),
}

impl Scrolled {
    fn key(&mut self, bench: &mut Bench, command: BrowserCommand, uncancelled: bool) {
        let context_id = self.context_id;
        let (_, purpose) = script_of(bench.core.dispatch(command));
        let outcome = came_to(uncancelled, Vec::new());
        let completed = bench.core.complete_script(context_id, purpose, outcome).unwrap();
        let height = f64::from(self.viewport.1);
        match completed.scroll {
            PageScroll::Key(KeyboardScroll::PageDown) => self.y += height * 0.875,
            PageScroll::Key(KeyboardScroll::PageUp) => self.y -= height * 0.875,
            PageScroll::Key(KeyboardScroll::Top) => self.y = 0.0,
            PageScroll::Key(KeyboardScroll::Bottom) => self.y = 1.0e9,
            PageScroll::Stays => {}
            _ => panic!("unexpected scroll"),
        }
    }
}

#[test]
fn uncancelled_navigation_keys_scroll_the_root_document() {
    let mut bench = Bench::new();
    let context_id = bench.create();
    bench.navigate(context_id, "https://same.test/scroll", "Scroll");
    let current = bench.state(context_id);
    let viewport = (200, 100);
    assert!(bench
        .core
        .dispatch(BrowserCommand::UpdateHostViewState { context_id, state: view(1, viewport) })
        .is_ok());

    let mut page = Scrolled { context_id, y: 0.0, viewport };
    page.key(&mut bench, key_command(&current, "PageDown", false), true);
    assert_eq!(page.y, 87.5);
    page.key(&mut bench, key_command(&current, "PageUp", false), false);
    assert_eq!(page.y, 87.5);
    page.key(&mut bench, key_command(&current, "Home", false), true);
    assert_eq!(page.y, 0.0);
    page.key(&mut bench, key_command(&current, "End", true), true);
    assert_eq!(page.y, 0.0);
}

fn text_command(
    state: &BrowsingContextState,
    text: &str,
    selection: u32,
    composing: Option<(u32, u32)>,
) -> BrowserCommand {
    BrowserCommand::DispatchTextInput {
        context_id: state.context_id,
        document_id: state.document_id,
        runtime_context_id: state.runtime_context_id.unwrap(),
        state: TextInputState {
            text: text.to_owned(),
            selection: TextSelection { base_offset: selection, extent_offset: selection },
            composing: composing
                .map(|(base_offset, extent_offset)| TextSelection { base_offset, extent_offset }),
        },
    }
}

fn text_taken(bench: &mut Bench, command: BrowserCommand) -> String {
    let context_id = match &command {
        BrowserCommand::DispatchTextInput { context_id, .. } => *context_id,
        _ => panic!("expected a text input"),
    };
    let (source, purpose) = script_of(bench.core.dispatch(command));
    input_result(bench.core.complete_script(context_id, purpose, came_to(true, Vec::new())));
    source
}

#[test]
fn text_input_commits_bounded_ime_composition_to_the_focused_control() {
    let mut bench = Bench::new();
    let context_id = bench.create();
    bench.navigate(context_id, "https://same.test/input", "Input");
    let current = bench.state(context_id);

    let field = text_taken(&mut bench, text_command(&current, "に", 1, Some((0, 1))));
    assert!(field.contains(
        "({\"text\":\"に\",\"selectionBase\":1,\"selectionExtent\":1,\
         \"composingBase\":0,\"composingExtent\":1})"
    ));
    let field = text_taken(&mut bench, text_command(&current, "に", 1, None));
    assert!(field.contains(
        "({\"text\":\"に\",\"selectionBase\":1,\"selectionExtent\":1,\
         \"composingBase\":null,\"composingExtent\":null})"
    ));

    let error = error_of(bench.core.dispatch(text_command(&current, "x", 2, None)));
    assert_eq!(error.code, ErrorCode::InvalidArgument);
}

#[test]
fn text_input_commits_ime_state_to_a_focused_contenteditable_host() {
    let mut bench = Bench::new();
    let context_id = bench.create();
    bench.navigate(context_id, "https://same.test/input", "Input");
    let current = bench.state(context_id);

    let text = "draft🦊";
    let editor = text_taken(&mut bench, text_command(&current, text, 7, Some((5, 7))));
    assert!(editor.contains(
        "({\"text\":\"draft🦊\",\"selectionBase\":7,\"selectionExtent\":7,\
         \"composingBase\":5,\"composingExtent\":7})"
    ));
    let error = error_of(bench.core.dispatch(text_command(&current, text, 8, None)));
    assert_eq!(error.code, ErrorCode::InvalidArgument);
}

fn accessible(
    state: &BrowsingContextState,
    generations: (u64, u64),
    node_id: usize,
    action: &str,
    value: Option<&str>,
) -> BrowserCommand {
    let node = |id: usize, actions: &[&str]| AccessibilityNode {
        id,
        actions: actions.iter().map(|action| (*action).to_owned()).collect(),
    };
    BrowserCommand::DispatchAccessibilityAction {
        request: AccessibilityActionDispatch {
            context_id: state.context_id,
            document_id: state.document_id,
            runtime_context_id: state.runtime_context_id.unwrap(),
            viewport: (800, 600),
            source_generation: generations.0,
            tree_generation: generations.1,
            nodes: vec![
                node(3, &["focus"]),
                node(4, &["focus", "set_value"]),
                node(5, &["focus", "increase", "decrease"]),
            ],
            node_id,
            action: action.to_owned(),
            value: value.map(str::to_owned),
            max_value_bytes: 1024,
        },
    }
}

#[test]
fn accessibility_focus_action_is_capability_and_generation_checked() {
    let mut bench = Bench::new();
    let context_id = bench.create();
    bench.navigate(context_id, "https://same.test/input", "Input");
    let current = bench.state(context_id);
    let script = |outcome: Result<CommandOutcome, BrowserError>| match script_of(outcome) {
        (source, ScriptPurpose::AccessibilityAction) => source,
        _ => panic!("unexpected accessibility result"),
    };

    let focus = script(bench.core.dispatch(accessible(&current, (1, 1), 3, "focus", None)));
    assert!(focus.contains("3"));
    let stale = error_of(bench.core.dispatch(accessible(&current, (1, 2), 3, "focus", None)));
    assert_eq!(stale.code, ErrorCode::StaleAccessibility);

    let set = script(bench.core.dispatch(accessible(&current, (2, 2), 4, "set_value", Some("Ada"))));
    assert!(set.contains("\"Ada\""));
    let increase = script(bench.core.dispatch(accessible(&current, (3, 3), 5, "increase", None)));
    assert_ne!(increase, focus);

    let incapable =
        error_of(bench.core.dispatch(accessible(&current, (3, 3), 3, "increase", None)));
    assert_eq!(incapable.code, ErrorCode::InvalidArgument);
    let missing = error_of(bench.core.dispatch(accessible(&current, (3, 3), 9, "focus", None)));
    assert_eq!(missing.code, ErrorCode::InvalidArgument);
}

#[test]
fn two_contexts_share_profile_storage_and_isolate_session_state() {
    let mut bench = Bench::new();
    let context_a = bench.create();
    let context_b = bench.create();
    bench.navigate(context_a, "https://same.test/a", "A");
    bench.navigate(context_b, "https://same.test/b", "B");

    let state_a = bench.state(context_a);
    let state_b = bench.state(context_b);
    assert_ne!(state_a.document_id, state_b.document_id);
    assert_ne!(state_a.runtime_context_id, state_b.runtime_context_id);

    bench.navigate(context_a, "https://same.test/next", "Next");
    let next_a = bench.state(context_a);
    let unchanged_b = bench.state(context_b);
    assert_ne!(next_a.document_id, state_a.document_id);
    assert_ne!(next_a.runtime_context_id, state_a.runtime_context_id);
    assert!(next_a.can_go_back);
    assert_eq!(next_a.history_length, state_a.history_length + 1);
    assert_eq!(unchanged_b.document_id, state_b.document_id);
    assert_eq!(unchanged_b.history_length, state_b.history_length);

    let stale = error_of(bench.core.dispatch(evaluate_command(&state_a, "1")));
    assert_eq!(stale.code, ErrorCode::StaleDocument);

    let close = BrowserCommand::CloseBrowsingContext { context_id: context_a };
    assert!(bench.core.dispatch(close).is_ok());
    let closed = error_of(
        bench.core.dispatch(BrowserCommand::GetBrowsingContextState { context_id: context_a }),
    );
    assert_eq!(closed.code, ErrorCode::StaleContext);
    assert_eq!(bench.state(context_b).document_id, state_b.document_id);
}

#[test]
fn bounded_event_queue_reports_lag_instead_of_blocking() {
    let mut bench = Bench::new();
    bench.create();
    let mut queue = EventQueue::new(1);
    assert!(queue.is_idle());
    for event in bench.drain() {
        queue.push(event);
    }
    let error = error_of(queue.pop());
    assert_eq!(error.code, ErrorCode::EventLagged);
    assert!(queue.pop().unwrap().is_some());
    assert!(queue.pop().unwrap().is_none());
}

#[test]
fn navigation_emits_ordered_phase_sequence() {
    let mut bench = Bench::new();
    let context_id = bench.create();
    bench.drain();
    let navigation_id = bench.navigate(context_id, "https://same.test/a", "A");
    let events = bench.drain();
    assert_eq!(phases_for(&events, navigation_id), success_phases());

    let phase_event = |wanted: NavigationPhase| {
        events
            .iter()
            .position(|event| matches!(
                event,
                BrowserEvent::NavigationPhaseChanged { phase, .. } if *phase == wanted
            ))
            .unwrap()
    };
    let committed_event = events
        .iter()
        .position(|event| matches!(event, BrowserEvent::NavigationCommitted { .. }))
        .unwrap();
    assert!(phase_event(NavigationPhase::Parse) < committed_event);
    assert!(committed_event < phase_event(NavigationPhase::ScriptsAndSubresources));
    assert_exactly_one_terminal_phase(&events, navigation_id);
}

#[test]
fn oversized_file_navigation_fails_without_committing() {
    let mut bench = Bench::with_body_limit(32);
    let context_id = bench.create();
    bench.drain();
    let initial = bench.state(context_id);

    let url = "file:///tmp/oversized.html";
    let navigation_id = bench.begin(context_id, url);
    let read = match admit_file_length(64, 32) {
        Ok(_) => panic!("a file of 64 bytes was admitted"),
        Err(error) => Err(error),
    };
    let result = file_source(url.to_owned(), "/tmp/oversized.html", read, 32);
    let step = bench.core.complete_navigation(context_id, navigation_id, result);
    assert!(matches!(step, SourceAcceptance::Failed));

    let events = bench.drain();
    assert!(events.iter().any(|event| matches!(
        event,
        BrowserEvent::NavigationFailed { error, .. }
            if error.code == ErrorCode::NavigationLoad && error.message.contains("exceeds 32 bytes")
    )));
    assert_exactly_one_terminal_phase(&events, navigation_id);
    let after = bench.state(context_id);
    assert_eq!(after.document_id, initial.document_id);
    assert_eq!(after.runtime_context_id, initial.runtime_context_id);
    assert_eq!(after.url, initial.url);
    assert_eq!(after.active_navigation_id, None);
}

#[test]
fn stop_during_parse_cancels_without_commit() {
    let mut bench = Bench::new();
    let context_id = bench.create();
    let initial = bench.state(context_id);
    let initial_history = bench.history_urls(context_id);
    bench.drain();

    let url = "https://same.test/parser-stop";
    let navigation_id = bench.begin(context_id, url);
    bench.chunks = 3;
    bench.source(context_id, navigation_id, url);
    assert!(bench.advance());
    assert_eq!(bench.state(context_id).active_navigation_id, Some(navigation_id));
    bench.stop(context_id);
    bench.advance();

    let events = bench.drain();
    let stopped = bench.state(context_id);
    assert_eq!(phases_for(&events, navigation_id), parse_cancelled_phases());
    assert_navigation_cancelled(&events, navigation_id, NavigationCancellationReason::Stopped);
    assert_no_terminal_success(&events, navigation_id);
    assert_eq!(stopped.document_id, initial.document_id);
    assert_eq!(stopped.runtime_context_id, initial.runtime_context_id);
    assert_eq!(bench.history_urls(context_id), initial_history);
}

#[test]
fn reload_during_parse_supersedes_parser_and_preserves_history() {
    let mut bench = Bench::new();
    let context_id = bench.create();
    bench.navigate(context_id, "https://same.test/a", "A");
    let stable = bench.state(context_id);
    let stable_history = bench.history_urls(context_id);
    bench.drain();

    let url = "https://same.test/parser-reload";
    let parser_navigation = bench.begin(context_id, url);
    bench.chunks = 3;
    bench.source(context_id, parser_navigation, url);
    assert!(bench.advance());
    let reload_navigation = bench.accepted(BrowserCommand::Reload { context_id });
    bench.chunks = 1;
    bench.source(context_id, reload_navigation, "https://same.test/a");
    bench.drive(context_id, reload_navigation);

    let events = bench.drain();
    let reloaded = bench.state(context_id);
    assert_eq!(phases_for(&events, parser_navigation), parse_cancelled_phases());
    assert_navigation_cancelled(
        &events,
        parser_navigation,
        NavigationCancellationReason::Superseded,
    );
    assert_no_terminal_success(&events, parser_navigation);
    assert_eq!(phases_for(&events, reload_navigation), success_phases());
    assert_ne!(reloaded.document_id, stable.document_id);
    assert_ne!(reloaded.runtime_context_id, stable.runtime_context_id);
    assert_eq!(reloaded.url, "https://same.test/a");
    assert_eq!(reloaded.title.as_deref(), Some("A"));
    assert_eq!(bench.history_urls(context_id), stable_history);
}

#[test]
fn history_traversal_during_parse_supersedes_parser() {
    let mut bench = Bench::new();
    let context_id = bench.create();
    bench.navigate(context_id, "https://same.test/a", "A");
    bench.navigate(context_id, "https://same.test/b", "B");
    let before = bench.state(context_id);
    assert_eq!(before.history_length, 2);
    assert_eq!(before.history_index, 1);
    bench.drain();

    let url = "https://same.test/parser-history";
    let parser_navigation = bench.begin(context_id, url);
    bench.chunks = 3;
    bench.source(context_id, parser_navigation, url);
    assert!(bench.advance());
    let history_navigation =
        bench.accepted(BrowserCommand::TraverseHistory { context_id, delta: -1 });
    bench.chunks = 1;
    bench.title = "A";
    bench.source(context_id, history_navigation, "https://same.test/a");
    bench.drive(context_id, history_navigation);

    let events = bench.drain();
    let traversed = bench.state(context_id);
    assert_eq!(phases_for(&events, parser_navigation), parse_cancelled_phases());
    assert_navigation_cancelled(
        &events,
        parser_navigation,
        NavigationCancellationReason::Superseded,
    );
    assert_no_terminal_success(&events, parser_navigation);
    assert_eq!(phases_for(&events, history_navigation), success_phases());
    assert_eq!(traversed.url, "https://same.test/a");
    assert_eq!(traversed.title.as_deref(), Some("A"));
    assert_eq!(traversed.history_length, 2);
    assert_eq!(traversed.history_index, 0);
    assert!(traversed.can_go_forward);
    assert_eq!(
        bench.history_urls(context_id),
        vec!["https://same.test/a".to_owned(), "https://same.test/b".to_owned()]
    );
}

fn redirect(from: &str, to: &str) -> NetworkEvent {
    NetworkEvent::Redirect { from: from.to_owned(), to: to.to_owned(), status: 302 }
}

#[test]
fn redirect_navigation_emits_redirect_event_and_commits_final_url() {
    let mut bench = Bench::new();
    let context_id = bench.create();
    bench.drain();
    let from = "http://same.test/redirect";
    let to = "http://same.test/final";
    let navigation_id = bench.begin(context_id, from);
    bench.core.start_pending_loads();
    bench.core.progress_navigation(context_id, navigation_id, redirect(from, to));
    let mut events = bench.drain();
    assert!(!phases_for(&events, navigation_id).contains(&NavigationPhase::Response));

    bench.title = "Redirected";
    bench.source(context_id, navigation_id, to);
    bench.drive(context_id, navigation_id);
    events.extend(bench.drain());
    let state = bench.state(context_id);
    assert_eq!(state.url, to);
    assert_eq!(state.title.as_deref(), Some("Redirected"));
    assert_eq!(bench.history_urls(context_id)[0], to);
    let redirects = events
        .iter()
        .filter(|event| matches!(
            event,
            BrowserEvent::NavigationRedirected { from_url, to_url, status: 302, .. }
                if from_url == from && to_url == to
        ))
        .count();
    assert_eq!(redirects, 1);
    assert_eq!(phases_for(&events, navigation_id)[3], NavigationPhase::Response);
}

#[test]
fn newer_navigation_wins_when_superseded_source_responds_late() {
    let mut bench = Bench::new();
    let context_id = bench.create();
    bench.drain();
    let initial = bench.state(context_id);

    let navigation_a = bench.begin(context_id, "http://same.test/a");
    bench.core.start_pending_loads();
    let loading_a = bench.state(context_id);
    assert_eq!(loading_a.document_id, initial.document_id);
    assert_eq!(loading_a.active_navigation_id, Some(navigation_a));
    let navigation_b = bench.navigate(context_id, "http://same.test/b", "B");
    assert!(bench.core.requests.iter().any(|request| matches!(
        request,
        HostRequest::CancelLoad { navigation_id, .. } if *navigation_id == navigation_a
    )));
    let mut events = bench.drain();
    let committed = bench.state(context_id);
    assert_eq!(committed.title.as_deref(), Some("B"));
    assert_eq!(committed.active_navigation_id, None);

    let stale = redirect("http://same.test/a", "http://same.test/stale-redirect");
    bench.core.progress_navigation(context_id, navigation_a, stale);
    bench.late_source(context_id, navigation_a, "http://same.test/a");
    let late = bench.drain();
    assert!(late.is_empty());
    let after_late_a = bench.state(context_id);
    assert_eq!(after_late_a.document_id, committed.document_id);
    assert_eq!(after_late_a.title.as_deref(), Some("B"));

    bench.navigate(context_id, "http://same.test/probe", "Probe");
    events.extend(bench.drain());
    assert_navigation_cancelled(&events, navigation_a, NavigationCancellationReason::Superseded);
    assert_no_terminal_success(&events, navigation_a);
    assert_eq!(phases_for(&events, navigation_b).last(), Some(&NavigationPhase::Settled));
}

#[test]
fn reload_supersedes_active_navigation_and_rejects_late_completion() {
    let mut bench = Bench::new();
    let context_id = bench.create();
    bench.navigate(context_id, "https://same.test/a", "A");
    let stable = bench.state(context_id);
    let stable_history = bench.history_urls(context_id);
    bench.drain();

    let slow_navigation = bench.begin(context_id, "http://same.test/slow");
    bench.core.start_pending_loads();
    assert_eq!(bench.state(context_id).active_navigation_id, Some(slow_navigation));
    let reload_navigation = bench.accepted(BrowserCommand::Reload { context_id });
    bench.source(context_id, reload_navigation, "https://same.test/a");
    bench.drive(context_id, reload_navigation);
    let reloaded = bench.state(context_id);
    assert_eq!(reloaded.url, "https://same.test/a");
    assert_eq!(reloaded.active_navigation_id, None);
    assert_eq!(bench.history_urls(context_id), stable_history);

    bench.late_source(context_id, slow_navigation, "http://same.test/slow");
    let events = bench.drain();
    let after_late = bench.state(context_id);
    assert_eq!(after_late.document_id, reloaded.document_id);
    assert_eq!(after_late.title.as_deref(), Some("A"));
    assert_eq!(bench.history_urls(context_id), stable_history);
    assert_navigation_cancelled(
        &events,
        slow_navigation,
        NavigationCancellationReason::Superseded,
    );
    assert_no_terminal_success(&events, slow_navigation);
    assert_ne!(stable.document_id, reloaded.document_id);
}

#[test]
fn history_traversal_supersedes_active_navigation_and_rejects_late_completion() {
    let mut bench = Bench::new();
    let context_id = bench.create();
    bench.navigate(context_id, "https://same.test/a", "A");
    bench.navigate(context_id, "https://same.test/b", "B");
    let before = bench.state(context_id);
    assert_eq!(before.history_length, 2);
    assert_eq!(before.history_index, 1);
    assert!(before.can_go_back);
    bench.drain();

    let slow_navigation = bench.begin(context_id, "http://same.test/c");
    bench.core.start_pending_loads();
    let history_navigation =
        bench.accepted(BrowserCommand::TraverseHistory { context_id, delta: -1 });
    bench.title = "A";
    bench.source(context_id, history_navigation, "https://same.test/a");
    bench.drive(context_id, history_navigation);
    let after_traverse = bench.state(context_id);
    assert_eq!(after_traverse.url, "https://same.test/a");
    assert_eq!(after_traverse.history_length, 2);
    assert_eq!(after_traverse.history_index, 0);
    assert!(after_traverse.can_go_forward);

    bench.late_source(context_id, slow_navigation, "http://same.test/c");
    let events = bench.drain();
    let after_late = bench.state(context_id);
    assert_eq!(after_late.document_id, after_traverse.document_id);
    assert_eq!(after_late.history_index, 0);
    assert_navigation_cancelled(
        &events,
        slow_navigation,
        NavigationCancellationReason::Superseded,
    );
    assert_no_terminal_success(&events, slow_navigation);
}

#[test]
fn configured_and_author_scripts_advance_in_order() {
    let mut bench = Bench::new();
    let context_id = bench.create();
    let mut scripts = config();
    scripts.preload_scripts = vec!["document.title = 'preload'".to_owned()];
    scripts.new_document_scripts = vec!["document.title += ':new-document'".to_owned()];
    match bench
        .core
        .dispatch(BrowserCommand::ConfigureBrowsingContext { context_id, config: scripts })
        .unwrap()
    {
        CommandOutcome::Host(HostCall::ConfigureContext { config, .. }) => {
            bench.core.configure_context(context_id, config).unwrap();
        }
        _ => panic!("unexpected configuration result"),
    }
    bench.drain();

    bench.scripts.push_back(Script::Title("author"));
    let navigation_id = bench.begin(context_id, "https://same.test/script-order");
    bench.title = "initial";
    bench.source(context_id, navigation_id, "https://same.test/script-order");
    bench.drive_to_scripts(context_id);
    assert!(bench.ran.is_empty());
    assert!(bench.advance());
    assert_eq!(bench.ran, vec!["document.title = 'preload'".to_owned()]);
    assert!(bench.advance());
    assert_eq!(bench.ran[1], "document.title += ':new-document'");
    assert_eq!(bench.state(context_id).title.as_deref(), Some("initial"));
    assert!(bench.advance());
    assert_eq!(bench.state(context_id).title.as_deref(), Some("author"));
    bench.drive(context_id, navigation_id);
    let events = bench.drain();
    assert_eq!(phases_for(&events, navigation_id), success_phases());
}

fn script_response(url: &str, source: &str) -> LoadedExternalScript {
    LoadedExternalScript::Http {
        response: ScriptResponse {
            status: 200,
            final_url: url.to_owned(),
            body: source.to_owned(),
            events: Vec::new(),
            redirects: 0,
        },
        requested_urls: vec![url.to_owned()],
    }
}

const SCRIPT_URL: &str = "http://same.test/ordered.js";

/// A context whose navigation waits for an external script.
fn waiting(bench: &mut Bench, title: &'static str) -> (BrowsingContextId, NavigationId) {
    let context_id = bench.create();
    bench.drain();
    let navigation_id = bench.begin(context_id, "http://same.test/page");
    bench.title = title;
    bench.scripts.push_back(Script::External(SCRIPT_URL));
    bench.source(context_id, navigation_id, "http://same.test/page");
    bench.drive_to_scripts(context_id);
    assert!(bench.advance());
    (context_id, navigation_id)
}

#[test]
fn gated_external_script_executes_in_order_and_navigation_settles() {
    let mut bench = Bench::new();
    let (context_id, navigation_id) = waiting(&mut bench, "initial");
    let pending = bench.state(context_id);
    assert_eq!(pending.active_navigation_id, Some(navigation_id));
    assert_eq!(pending.title.as_deref(), Some("initial"));
    let key = bench.pending_key(context_id).unwrap();
    assert!(bench.core.requests.iter().any(|request| matches!(
        request,
        HostRequest::StartScriptLoad { key: started } if *started == key
    )));
    bench.scripts.push_back(Script::Title("after"));
    assert!(!bench.advance());

    let source = "globalThis.order += ':external'; document.title = 'external'";
    let step =
        bench.core.complete_external_script(key, Ok(script_response(SCRIPT_URL, source)), true, true);
    match step {
        ExternalScriptStep::Run { source: ran, requested_urls, effects, work } => {
            assert_eq!(ran, source);
            assert_eq!(requested_urls, vec![SCRIPT_URL.to_owned()]);
            bench.core.set_page_title(context_id, Some("external".to_owned())).unwrap();
            bench.core.finish_external_script(
                key,
                work,
                effects,
                ExternalRun::Ran(quiet(Some(Ok(())))),
            );
        }
        _ => panic!("the script did not run"),
    }
    assert_eq!(bench.state(context_id).title.as_deref(), Some("external"));
    bench.drive(context_id, navigation_id);
    assert_eq!(bench.state(context_id).title.as_deref(), Some("after"));
    let events = bench.drain();
    assert_exactly_one_terminal_phase(&events, navigation_id);
}

#[test]
fn redirected_external_script_rechecks_final_url_against_csp() {
    let mut bench = Bench::new();
    let (context_id, navigation_id) = waiting(&mut bench, "initial");
    let key = bench.pending_key(context_id).unwrap();
    let step = bench.core.complete_external_script(
        key,
        Ok(script_response("http://same.test/blocked.js", "globalThis.redirectedScriptRan = true")),
        false,
        true,
    );
    assert!(matches!(step, ExternalScriptStep::Skipped));
    bench.drive(context_id, navigation_id);
    assert_eq!(bench.state(context_id).title.as_deref(), Some("initial"));
    assert_exactly_one_terminal_phase(&bench.drain(), navigation_id);
}

#[test]
fn stop_cancels_pending_external_script_and_rejects_late_response() {
    let mut bench = Bench::new();
    let (context_id, navigation_id) = waiting(&mut bench, "committed");
    let key = bench.pending_key(context_id).unwrap();
    bench.stop(context_id);
    let events = bench.drain();
    let late = bench.core.complete_external_script(
        key,
        Ok(script_response(SCRIPT_URL, "globalThis.stoppedExternal = true")),
        true,
        true,
    );
    assert!(matches!(late, ExternalScriptStep::Stale));
    assert!(bench.drain().is_empty());
    assert_eq!(bench.state(context_id).active_navigation_id, None);
    assert_navigation_cancelled(&events, navigation_id, NavigationCancellationReason::Stopped);
    assert!(events.iter().any(|event| matches!(
        event,
        BrowserEvent::RuntimeEffects { effects, .. }
            if matches!(effects.network.as_slice(), [
                RuntimeNetworkEvent::Request { request_id, url, method },
                RuntimeNetworkEvent::Failure {
                    request_id: failed_id,
                    url: failed_url,
                    blocked_reason: Some(reason),
                    ..
                },
            ] if request_id == failed_id
                && url == failed_url
                && url == SCRIPT_URL
                && method == "GET"
                && reason == "canceled")
    )));
    assert_no_lifecycle_success(&events, navigation_id);
}

#[test]
fn external_script_completion_rejects_stale_document_and_runtime() {
    let mut bench = Bench::new();
    let (context_id, navigation_id) = waiting(&mut bench, "pending");
    let key = bench.pending_key(context_id).unwrap();
    let other_document = ExternalScriptLoadKey {
        document_id: DocumentId { raw: key.document_id.raw + 1 },
        ..key
    };
    let other_runtime = ExternalScriptLoadKey {
        runtime_context_id: RuntimeContextId { raw: key.runtime_context_id.raw + 1 },
        ..key
    };
    for stale in [other_document, other_runtime] {
        let source = "document.title = 'stale-document'";
        let step = bench.core.complete_external_script(
            stale,
            Ok(script_response(SCRIPT_URL, source)),
            true,
            true,
        );
        assert!(matches!(step, ExternalScriptStep::Stale));
    }
    assert_eq!(bench.state(context_id).title.as_deref(), Some("pending"));
    assert!(bench.pending_key(context_id).is_some());

    let source = "document.title = 'valid'";
    let step =
        bench.core.complete_external_script(key, Ok(script_response(SCRIPT_URL, source)), true, true);
    match step {
        ExternalScriptStep::Run { effects, work, .. } => {
            bench.core.set_page_title(context_id, Some("valid".to_owned())).unwrap();
            let run = ExternalRun::Ran(quiet(Some(Ok(()))));
            bench.core.finish_external_script(key, work, effects, run);
        }
        _ => panic!("the script did not run"),
    }
    bench.drive(context_id, navigation_id);
    assert_eq!(bench.state(context_id).title.as_deref(), Some("valid"));
    assert_exactly_one_terminal_phase(&bench.drain(), navigation_id);
}

#[test]
fn superseded_navigation_rejects_injected_external_script_completion() {
    let mut bench = Bench::new();
    let (context_id, _) = waiting(&mut bench, "old");
    let key = bench.pending_key(context_id).unwrap();
    let replacement = bench.begin(context_id, "https://same.test/replacement");
    assert_eq!(bench.core.context(context_id).unwrap().document_id, key.document_id);
    assert_eq!(bench.core.context(context_id).unwrap().runtime_context_id, key.runtime_context_id);
    bench.drain();
    let step = bench.core.complete_external_script(
        key,
        Ok(script_response(SCRIPT_URL, "document.title = 'obsolete'")),
        true,
        true,
    );
    assert!(matches!(step, ExternalScriptStep::Stale));
    assert_eq!(bench.state(context_id).title.as_deref(), Some("old"));
    assert!(bench.drain().is_empty());

    bench.title = "Replacement";
    bench.source(context_id, replacement, "https://same.test/replacement");
    bench.drive(context_id, replacement);
    assert_eq!(bench.state(context_id).title.as_deref(), Some("Replacement"));
}

#[test]
fn stop_between_author_scripts_preserves_completed_mutation() {
    let mut bench = Bench::new();
    let context_id = bench.create();
    bench.drain();
    let navigation_id = bench.begin(context_id, "https://same.test/script-stop");
    bench.scripts.push_back(Script::Title("first"));
    bench.scripts.push_back(Script::Title("second"));
    bench.source(context_id, navigation_id, "https://same.test/script-stop");
    bench.drive_to_scripts(context_id);
    assert!(bench.advance());
    assert_eq!(bench.state(context_id).title.as_deref(), Some("first"));
    bench.stop(context_id);
    bench.advance();

    let events = bench.drain();
    assert_eq!(bench.state(context_id).title.as_deref(), Some("first"));
    assert_eq!(
        phases_for(&events, navigation_id),
        vec![
            NavigationPhase::Intent,
            NavigationPhase::Policy,
            NavigationPhase::Request,
            NavigationPhase::Response,
            NavigationPhase::Commit,
            NavigationPhase::Parse,
            NavigationPhase::ScriptsAndSubresources,
            NavigationPhase::Cancelled,
        ]
    );
    assert_navigation_cancelled(&events, navigation_id, NavigationCancellationReason::Stopped);
    assert_no_lifecycle_success(&events, navigation_id);
}

#[test]
fn author_exception_is_runtime_effect_and_later_script_runs() {
    let mut bench = Bench::new();
    let context_id = bench.create();
    bench.drain();
    bench.scripts.push_back(Script::Throws(ErrorCode::ScriptEval, "author boom"));
    bench.scripts.push_back(Script::Title("after-error"));
    let navigation_id = bench.navigate(context_id, "https://same.test/script-error", "initial");
    let events = bench.drain();
    let state = bench.state(context_id);
    let exceptions = events
        .iter()
        .filter_map(|event| match event {
            BrowserEvent::RuntimeEffects { context_id: id, document_id, effects, .. }
                if *id == context_id && *document_id == state.document_id =>
            {
                Some(effects.exceptions.as_slice())
            }
            _ => None,
        })
        .flatten()
        .collect::<Vec<_>>();
    assert_eq!(state.title.as_deref(), Some("after-error"));
    assert_eq!(exceptions.len(), 1);
    assert_eq!(exceptions[0].error.code, ErrorCode::ScriptEval);
    assert!(exceptions[0].error.message.contains("author boom"));
    assert_eq!(phases_for(&events, navigation_id), success_phases());
}

#[test]
fn author_timeout_is_runtime_effect_and_later_script_runs() {
    let mut bench = Bench::new();
    let context_id = bench.create();
    bench.drain();
    bench.scripts.push_back(Script::Throws(ErrorCode::ScriptTimeout, "too long"));
    bench.scripts.push_back(Script::Title("after-timeout"));
    let navigation_id = bench.navigate(context_id, "https://same.test/script-timeout", "initial");
    let events = bench.drain();
    assert_eq!(bench.state(context_id).title.as_deref(), Some("after-timeout"));
    assert!(events.iter().any(|event| matches!(
        event,
        BrowserEvent::RuntimeEffects { effects, .. }
            if effects.exceptions.iter().any(|e| e.error.code == ErrorCode::ScriptTimeout)
    )));
    assert_exactly_one_terminal_phase(&events, navigation_id);
}

#[test]
fn stop_after_dom_content_loaded_suppresses_load_and_settle() {
    let mut bench = Bench::new();
    let context_id = bench.create();
    bench.drain();
    let navigation_id = bench.begin(context_id, "https://same.test/lifecycle-stop");
    bench.source(context_id, navigation_id, "https://same.test/lifecycle-stop");
    bench.drive_to_scripts(context_id);
    assert!(bench.advance());
    assert!(bench.advance());
    bench.stop(context_id);
    bench.advance();
    let events = bench.drain();
    assert_eq!(
        phases_for(&events, navigation_id),
        vec![
            NavigationPhase::Intent,
            NavigationPhase::Policy,
            NavigationPhase::Request,
            NavigationPhase::Response,
            NavigationPhase::Commit,
            NavigationPhase::Parse,
            NavigationPhase::ScriptsAndSubresources,
            NavigationPhase::DomContentLoaded,
            NavigationPhase::Cancelled,
        ]
    );
    assert!(events.iter().any(|event| matches!(event, BrowserEvent::DomContentLoaded { .. })));
    assert!(!events
        .iter()
        .any(|event| matches!(event, BrowserEvent::DocumentLoadCompleted { .. })));
    assert_navigation_cancelled(&events, navigation_id, NavigationCancellationReason::Stopped);
}

#[test]
fn redirect_stop_rejects_late_redirect_completion() {
    let mut bench = Bench::new();
    let context_id = bench.create();
    bench.drain();
    let initial = bench.state(context_id);
    let initial_history = bench.history_urls(context_id);
    let from = "http://same.test/redirect-stop";
    let to = "http://same.test/redirect-final";
    let navigation_id = bench.begin(context_id, from);
    bench.core.start_pending_loads();
    bench.core.progress_navigation(context_id, navigation_id, redirect(from, to));
    let mut events = bench.drain();
    let latest_request_id = events
        .iter()
        .find_map(|event| match event {
            BrowserEvent::NavigationRedirected { next_request_id, .. } => Some(*next_request_id),
            _ => None,
        })
        .unwrap();
    bench.stop(context_id);
    bench.late_source(context_id, navigation_id, to);
    events.extend(bench.drain());
    let after_late = bench.state(context_id);
    assert_eq!(after_late.document_id, initial.document_id);
    assert_eq!(after_late.url, initial.url);
    assert_eq!(bench.history_urls(context_id), initial_history);
    assert_navigation_cancelled(&events, navigation_id, NavigationCancellationReason::Stopped);
    assert_no_terminal_success(&events, navigation_id);
    assert!(events.iter().any(|event| matches!(
        event,
        BrowserEvent::NavigationCancelled { request_id: Some(request_id), .. }
            if *request_id == latest_request_id
    )));
}

#[test]
fn stop_keeps_late_source_completion_from_committing_or_emitting_terminal_load_events() {
    let mut bench = Bench::new();
    let context_id = bench.create();
    bench.drain();
    let initial = bench.state(context_id);
    let navigation_id = bench.begin(context_id, "http://same.test/stopped");
    bench.core.start_pending_loads();
    bench.stop(context_id);
    let stopped = bench.state(context_id);
    assert_eq!(stopped.active_navigation_id, None);
    assert_eq!(stopped.document_id, initial.document_id);
    bench.late_source(context_id, navigation_id, "http://same.test/stopped");
    bench.navigate(context_id, "http://same.test/probe", "Probe");
    let events = bench.drain();
    assert_navigation_cancelled(&events, navigation_id, NavigationCancellationReason::Stopped);
    assert_no_terminal_success(&events, navigation_id);
    assert_eq!(bench.history_urls(context_id), vec!["http://same.test/probe".to_owned()]);
}

#[test]
fn submitted_forms_carry_their_fields_in_the_query() {
    let mut bench = Bench::new();
    let context_id = bench.create();
    bench.navigate(context_id, "https://same.test/form", "Form");
    let submit = NavigationAction::FormSubmit {
        form_id: "search".to_owned(),
        form_node_id: 4,
        action: "/find".to_owned(),
        method: "get".to_owned(),
        lookups: FormLookups {
            by_node: Ok(FormSubmission {
                action: "https://same.test/find#top".to_owned(),
                method: "get".to_owned(),
                body: b"q=a+b".to_vec(),
            }),
            by_id: Err("unused".to_owned()),
            resolved_action: None,
        },
    };
    let outcomes =
        bench.core.apply_navigation_actions(context_id, vec![submit], None).unwrap();
    assert_eq!(cross_document_ids(&outcomes).len(), 1);
    let loads = bench.core.start_pending_loads();
    assert_eq!(loads.len(), 1);
    assert_eq!(loads[0].url, "https://same.test/find?q=a+b#top");
}

#[test]
fn supersede_cancels_pending_external_script_and_rejects_late_response() {
    let mut bench = Bench::new();
    let (context_id, navigation_id) = waiting(&mut bench, "old");
    let key = bench.pending_key(context_id).unwrap();
    let replacement = bench.navigate(context_id, "https://same.test/b", "B");
    let events = bench.drain();
    let late = bench.core.complete_external_script(
        key,
        Ok(script_response(SCRIPT_URL, "localStorage.setItem('supersededExternal', 'ran')")),
        true,
        true,
    );
    assert!(matches!(late, ExternalScriptStep::Stale));
    assert!(bench.drain().is_empty());
    assert_eq!(bench.state(context_id).title.as_deref(), Some("B"));
    assert_navigation_cancelled(&events, navigation_id, NavigationCancellationReason::Superseded);
    assert_no_lifecycle_success(&events, navigation_id);
    assert_exactly_one_terminal_phase(&events, replacement);
}

#[test]
fn stopped_navigation_rejects_injected_external_script_completion() {
    let mut bench = Bench::new();
    let (context_id, _) = waiting(&mut bench, "pending");
    let key = bench.pending_key(context_id).unwrap();
    bench.stop(context_id);
    bench.drain();
    let step = bench.core.complete_external_script(
        key,
        Ok(script_response(SCRIPT_URL, "document.title = 'obsolete'")),
        true,
        true,
    );
    assert!(matches!(step, ExternalScriptStep::Stale));
    assert_eq!(bench.state(context_id).title.as_deref(), Some("pending"));
    assert!(!bench
        .drain()
        .iter()
        .any(|event| matches!(event, BrowserEvent::RuntimeEffects { .. })));
}

#[test]
fn supersede_between_author_scripts_suppresses_unstarted_item() {
    let mut bench = Bench::new();
    let context_id = bench.create();
    bench.drain();
    let navigation_id = bench.begin(context_id, "https://same.test/script-supersede");
    bench.scripts.push_back(Script::Title("completed"));
    bench.scripts.push_back(Script::Title("unstarted"));
    bench.source(context_id, navigation_id, "https://same.test/script-supersede");
    bench.drive_to_scripts(context_id);
    assert!(bench.advance());
    assert_eq!(bench.state(context_id).title.as_deref(), Some("completed"));

    let replacement = bench.begin(context_id, "https://same.test/replacement");
    bench.scripts.clear();
    bench.title = "Replacement";
    bench.source(context_id, replacement, "https://same.test/replacement");
    bench.drive(context_id, replacement);
    let events = bench.drain();
    assert_eq!(bench.state(context_id).title.as_deref(), Some("Replacement"));
    assert_navigation_cancelled(&events, navigation_id, NavigationCancellationReason::Superseded);
    assert_no_lifecycle_success(&events, navigation_id);
    assert_exactly_one_terminal_phase(&events, replacement);
}

#[test]
fn scripts_from_nowhere_are_blocked() {
    let mut bench = Bench::new();
    let (context_id, _) = waiting(&mut bench, "pending");
    let key = bench.pending_key(context_id).unwrap();
    bench.drain();
    let arrived = Ok(script_response("nowhere", "document.title = 'ran'"));
    let step = bench.core.external_script_arrived(key, arrived, true, true);
    assert!(matches!(step, ExternalScriptStep::Skipped));
    assert!(bench.drain().iter().any(|event| matches!(
        event,
        BrowserEvent::RuntimeEffects { effects, .. }
            if matches!(effects.network.last(), Some(RuntimeNetworkEvent::Failure {
                blocked_reason: Some(reason), ..
            }) if reason == "csp")
    )));

    let mut bench = Bench::new();
    let (context_id, _) = waiting(&mut bench, "pending");
    let key = bench.pending_key(context_id).unwrap();
    let arrived = Ok(script_response(SCRIPT_URL, "document.title = 'ran'"));
    let step = bench.core.external_script_arrived(key, arrived, true, true);
    assert!(matches!(step, ExternalScriptStep::Run { .. }));
}
