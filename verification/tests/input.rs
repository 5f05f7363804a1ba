use vixen_engine::browser::actions::{
    action_fits, ensure_same_origin_history_url, FormLookups, FormSubmission, NavigationAction,
};
use vixen_engine::browser::commands::{
    all_forms_fit, AccessibilityActionDispatch, AccessibilityNode, Evaluation,
    NavigationActionOutcome,
};
use vixen_engine::browser::dispatch::{
    BrowserCommand, BrowserCommandResult, CommandOutcome, HostCall, ProfileDataSelection,
};
use vixen_engine::browser::effects::ScriptValue;
use vixen_engine::browser::error::{BrowserError, ErrorCode};
use vixen_engine::browser::events::{BrowserEvent, BrowsingContextState, RuntimeEffects};
use vixen_engine::browser::ids::{BrowsingContextId, DocumentId, RuntimeContextId};
use vixen_engine::browser::input::{
    key_event_source, mouse_event_source, text_input_source, KeyEventData, MouseEventData,
    MouseNumbers, MousePosition, PageScroll, ScriptPurpose,
};
use vixen_engine::browser::limits::{
    Float64, HostLifecycle, HostViewState, KeyboardScroll, Modifiers, TextInputState,
    TextSelection, MAX_SCRIPT_BYTES,
};
use vixen_engine::browser::registry::{BrowserCore, BrowsingContextConfig};

fn double(value: f64) -> Float64 {
    Float64 { bits: value.to_bits() }
}

fn view(generation: u64) -> HostViewState {
    HostViewState {
        generation,
        viewport: (800, 600),
        scale_factor: double(1.0),
        focused: true,
        visible: true,
        lifecycle: HostLifecycle::Resumed,
        accepts_input: true,
    }
}

fn config() -> BrowsingContextConfig {
    BrowsingContextConfig {
        preload_scripts: Vec::new(),
        new_document_scripts: Vec::new(),
        bypass_csp: false,
        cache_disabled: false,
        extra_http_headers: Vec::new(),
        permission_grants: Vec::new(),
    }
}

fn open() -> (BrowserCore, BrowsingContextState) {
    let mut core = BrowserCore::new(4, 1 << 20, Vec::new());
    let reservation = core.reserve_context().unwrap();
    let context_id = core.create_context(reservation, config(), view(0), None);
    core.events.clear();
    let state = core.context_state(context_id).unwrap();
    (core, state)
}

fn plain() -> Modifiers {
    Modifiers { ctrl_key: false, shift_key: false, alt_key: false, meta_key: false }
}

fn mouse_data(modifiers: Modifiers) -> MouseEventData {
    MouseEventData {
        position: MousePosition {
            x: double(10.0),
            y: double(20.0),
            delta_x: double(0.0),
            delta_y: double(30.0),
        },
        button: -1,
        buttons: 4,
        detail: 2,
        related_node_id: Some(9),
        bubbles: true,
        modifiers,
    }
}

fn numbers() -> MouseNumbers {
    MouseNumbers {
        x: "5.0".to_owned(),
        y: "10.0".to_owned(),
        delta_x: "0.0".to_owned(),
        delta_y: "15.0".to_owned(),
    }
}

fn key_data(key: &str) -> KeyEventData {
    KeyEventData {
        key: key.to_owned(),
        code: "KeyA".to_owned(),
        text: "a".to_owned(),
        apply_text: true,
        modifiers: Modifiers { shift_key: true, ..plain() },
        repeat: false,
        location: 1,
    }
}

fn text_data(text: &str) -> TextInputState {
    TextInputState {
        text: text.to_owned(),
        selection: TextSelection { base_offset: 0, extent_offset: 1 },
        composing: None,
    }
}

/// Who an input is for.
#[derive(Clone, Copy)]
struct Address {
    context_id: BrowsingContextId,
    document_id: DocumentId,
    runtime_context_id: RuntimeContextId,
}

fn address(state: &BrowsingContextState) -> Address {
    Address {
        context_id: state.context_id,
        document_id: state.document_id,
        runtime_context_id: state.runtime_context_id.unwrap(),
    }
}

fn mouse(to: Address, event_type: &str, node_id: usize, modifiers: Modifiers) -> BrowserCommand {
    BrowserCommand::DispatchMouseEvent {
        context_id: to.context_id,
        document_id: to.document_id,
        runtime_context_id: to.runtime_context_id,
        node_id,
        event_type: event_type.to_owned(),
        event: mouse_data(modifiers),
        numbers: numbers(),
        default_target: Some(3),
    }
}

fn key(to: Address, key: &str) -> BrowserCommand {
    BrowserCommand::DispatchKeyEvent {
        context_id: to.context_id,
        document_id: to.document_id,
        runtime_context_id: to.runtime_context_id,
        event_type: "keydown".to_owned(),
        event: key_data(key),
        focus_consumes_scroll_keys: false,
    }
}

fn text(to: Address) -> BrowserCommand {
    BrowserCommand::DispatchTextInput {
        context_id: to.context_id,
        document_id: to.document_id,
        runtime_context_id: to.runtime_context_id,
        state: text_data("a"),
    }
}

fn accessible(to: Address) -> BrowserCommand {
    BrowserCommand::DispatchAccessibilityAction {
        request: AccessibilityActionDispatch {
            context_id: to.context_id,
            document_id: to.document_id,
            runtime_context_id: to.runtime_context_id,
            viewport: (800, 600),
            source_generation: 1,
            tree_generation: 1,
            nodes: vec![AccessibilityNode { id: 3, actions: vec!["focus".to_owned()] }],
            node_id: 3,
            action: "focus".to_owned(),
            value: None,
            max_value_bytes: 64,
        },
    }
}

fn came_to(value: ScriptValue, actions: Vec<NavigationAction>) -> Result<Evaluation, BrowserError> {
    Ok(Evaluation { value, effects: RuntimeEffects::none(), actions })
}

fn error_of<T>(r: Result<T, BrowserError>) -> BrowserError {
    match r {
        Ok(_) => panic!("expected an error"),
        Err(e) => e,
    }
}

fn handed_over(core: &mut BrowserCore, command: BrowserCommand) -> (usize, String, ScriptPurpose) {
    match core.dispatch(command).unwrap() {
        CommandOutcome::Host(HostCall::RunScript { runtime_slot, source, purpose, .. }) => {
            (runtime_slot, source, purpose)
        }
        _ => panic!("expected a script"),
    }
}

#[test]
fn mouse_events_need_the_current_document_and_runtime() {
    let (mut core, state) = open();
    let to = address(&state);
    let stale = Address { document_id: DocumentId { raw: to.document_id.raw + 1 }, ..to };
    let error = error_of(core.dispatch(mouse(stale, "click", 7, plain())));
    assert_eq!(error.code, ErrorCode::StaleDocument);
    let runtime_context_id = RuntimeContextId { raw: to.runtime_context_id.raw + 1 };
    let stale = Address { runtime_context_id, ..to };
    let error = error_of(core.dispatch(mouse(stale, "click", 7, plain())));
    assert_eq!(error.code, ErrorCode::StaleRuntime);
    assert_eq!(
        error.message,
        format!(
            "runtime {} is no longer active in context {}",
            runtime_context_id.raw, to.context_id.raw
        )
    );
    // An event for no node runs no script and asks for no runtime.
    assert!(matches!(
        core.dispatch(mouse(stale, "click", 0, plain())).unwrap(),
        CommandOutcome::Done(BrowserCommandResult::InputDispatched(_))
    ));
    let error = error_of(core.dispatch(mouse(stale, "wheel", 0, plain())));
    assert_eq!(error.code, ErrorCode::StaleRuntime);
    assert!(core.dispatch(mouse(to, "click", 7, plain())).is_ok());
}

#[test]
fn key_events_need_the_current_document_and_runtime() {
    let (mut core, state) = open();
    let to = address(&state);
    let stale = Address { document_id: DocumentId { raw: to.document_id.raw + 1 }, ..to };
    assert_eq!(error_of(core.dispatch(key(stale, "a"))).code, ErrorCode::StaleDocument);
    let runtime_context_id = RuntimeContextId { raw: to.runtime_context_id.raw + 1 };
    let stale = Address { runtime_context_id, ..to };
    assert_eq!(error_of(core.dispatch(key(stale, "a"))).code, ErrorCode::StaleRuntime);
    assert!(core.dispatch(key(to, "a")).is_ok());
}

#[test]
fn text_inputs_need_the_current_document_and_runtime() {
    let (mut core, state) = open();
    let to = address(&state);
    let stale = Address { document_id: DocumentId { raw: to.document_id.raw + 1 }, ..to };
    assert_eq!(error_of(core.dispatch(text(stale))).code, ErrorCode::StaleDocument);
    let runtime_context_id = RuntimeContextId { raw: to.runtime_context_id.raw + 1 };
    let stale = Address { runtime_context_id, ..to };
    assert_eq!(error_of(core.dispatch(text(stale))).code, ErrorCode::StaleRuntime);
    assert!(core.dispatch(text(to)).is_ok());
}

#[test]
fn accessibility_actions_need_the_current_document_and_runtime() {
    let (mut core, state) = open();
    let to = address(&state);
    let stale = Address { document_id: DocumentId { raw: to.document_id.raw + 1 }, ..to };
    assert_eq!(error_of(core.dispatch(accessible(stale))).code, ErrorCode::StaleDocument);
    let runtime_context_id = RuntimeContextId { raw: to.runtime_context_id.raw + 1 };
    let stale = Address { runtime_context_id, ..to };
    assert_eq!(error_of(core.dispatch(accessible(stale))).code, ErrorCode::StaleRuntime);
    assert!(core.dispatch(accessible(to)).is_ok());
}

#[test]
fn input_scripts_stay_within_the_script_limit() {
    let (mut core, state) = open();
    let to = address(&state);
    let long = "x".repeat(MAX_SCRIPT_BYTES);
    let runtime_context_id = RuntimeContextId { raw: to.runtime_context_id.raw + 1 };
    for to in [to, Address { runtime_context_id, ..to }] {
        for command in [key(to, &long), mouse(to, &long, 7, plain())] {
            let error = error_of(core.dispatch(command));
            assert_eq!(error.code, ErrorCode::InvalidArgument);
            assert_eq!(error.message, "script source exceeds the browser evaluation limit");
        }
    }
}

#[test]
fn scripts_spell_out_their_events() {
    assert_eq!(
        mouse_event_source(7, "mouse\"down", &mouse_data(plain()), &numbers()).unwrap(),
        "globalThis.__vixenDispatchMouseEvent ? globalThis.__vixenDispatchMouseEvent(7, \
         \"mouse\\\"down\", {\"bubbles\":true,\"clientX\":5.0,\"clientY\":10.0,\"screenX\":5.0,\
         \"screenY\":10.0,\"button\":-1,\"buttons\":4,\"detail\":2,\"relatedNodeId\":9,\
         \"ctrlKey\":false,\"shiftKey\":false,\"altKey\":false,\"metaKey\":false,\"deltaX\":0.0,\
         \"deltaY\":15.0,\"deltaZ\":0,\"deltaMode\":0}) : false"
    );
    assert_eq!(
        key_event_source("keydown", &key_data("\n")).unwrap(),
        "globalThis.__vixenDispatchKeyEvent ? globalThis.__vixenDispatchKeyEvent(\"keydown\", \
         {\"key\":\"\\n\",\"code\":\"KeyA\",\"location\":1,\"ctrlKey\":false,\"shiftKey\":true,\
         \"altKey\":false,\"metaKey\":false,\"repeat\":false,\"isComposing\":false,\
         \"text\":\"a\",\"inputText\":\"a\",\"applyText\":true}) : false"
    );
    assert_eq!(
        text_input_source(&text_data("a\\b")).unwrap(),
        "globalThis.__vixenApplyTextInputState ? \
         globalThis.__vixenApplyTextInputState({\"text\":\"a\\\\b\",\"selectionBase\":0,\
         \"selectionExtent\":1,\"composingBase\":null,\"composingExtent\":null}) : false"
    );
}

#[test]
fn events_are_handed_over_as_given() {
    let (mut core, state) = open();
    let to = address(&state);
    let (slot, source, purpose) = handed_over(&mut core, mouse(to, "wheel", 0, plain()));
    assert_eq!(slot, 0);
    assert_eq!(source, mouse_event_source(3, "wheel", &mouse_data(plain()), &numbers()).unwrap());
    match purpose {
        ScriptPurpose::MouseEvent { node_id, event_type, event } => {
            assert_eq!((node_id, event_type.as_str()), (3, "wheel"));
            assert_eq!(event, mouse_data(plain()));
        }
        _ => panic!("unexpected purpose"),
    }
    let (_, source, purpose) = handed_over(&mut core, key(to, "PageDown"));
    assert_eq!(source, key_event_source("keydown", &key_data("PageDown")).unwrap());
    match purpose {
        ScriptPurpose::KeyEvent { event_type, event, scroll } => {
            assert_eq!(event_type, "keydown");
            assert_eq!(event.key, "PageDown");
            assert_eq!(event.modifiers, key_data("PageDown").modifiers);
            assert_eq!(scroll, Some(KeyboardScroll::PageDown));
        }
        _ => panic!("unexpected purpose"),
    }
    let (_, source, purpose) = handed_over(&mut core, text(to));
    assert_eq!(source, text_input_source(&text_data("a")).unwrap());
    assert!(matches!(purpose, ScriptPurpose::TextInput { state } if state.text == "a"));
}

#[test]
fn wheels_scroll_unless_a_script_or_a_key_prevents_it() {
    let (mut core, state) = open();
    let to = address(&state);
    let mut scroll = |event_type: &str, modifiers: Modifiers, value: ScriptValue| {
        let (_, _, purpose) = handed_over(&mut core, mouse(to, event_type, 7, modifiers));
        let completed = core.complete_script(to.context_id, purpose, came_to(value, Vec::new()));
        completed.unwrap().scroll
    };
    let by = PageScroll::Wheel { delta_x: double(0.0), delta_y: double(30.0) };
    let ctrl = Modifiers { ctrl_key: true, ..plain() };
    let meta = Modifiers { meta_key: true, ..plain() };
    assert_eq!(scroll("wheel", plain(), ScriptValue::Bool(true)), by);
    assert_eq!(scroll("wheel", plain(), ScriptValue::Bool(false)), PageScroll::Stays);
    assert_eq!(scroll("wheel", ctrl, ScriptValue::Bool(true)), PageScroll::Stays);
    assert_eq!(scroll("wheel", meta, ScriptValue::Bool(true)), PageScroll::Stays);
    assert_eq!(scroll("click", plain(), ScriptValue::Bool(true)), PageScroll::Stays);
}

#[test]
fn text_input_that_no_control_took_is_refused() {
    let (mut core, state) = open();
    let to = address(&state);
    let (_, _, purpose) = handed_over(&mut core, text(to));
    let error = error_of(core.complete_script(
        to.context_id,
        purpose,
        came_to(ScriptValue::Bool(false), Vec::new()),
    ));
    assert_eq!(error.code, ErrorCode::InvalidArgument);
    assert_eq!(error.message, "text input requires a focused writable native text control");
    // The frontends heard of the page all the same.
    assert!(matches!(
        core.events.as_slice(),
        [BrowserEvent::BrowsingContextStateChanged { .. }]
    ));
}

#[test]
fn each_script_is_answered_by_its_purpose() {
    let (mut core, state) = open();
    let to = address(&state);
    let complete = |core: &mut BrowserCore, purpose: ScriptPurpose| {
        let value = ScriptValue::Int32(7);
        core.complete_script(to.context_id, purpose, came_to(value, Vec::new())).unwrap().result
    };
    let evaluate = BrowserCommand::Evaluate {
        context_id: to.context_id,
        document_id: to.document_id,
        runtime_context_id: to.runtime_context_id,
        source: "3 + 4".to_owned(),
    };
    let (_, source, purpose) = handed_over(&mut core, evaluate);
    assert_eq!(source, "3 + 4");
    match complete(&mut core, purpose) {
        BrowserCommandResult::Evaluation { value, navigation_actions } => {
            assert!(matches!(value, ScriptValue::Int32(7)));
            assert!(navigation_actions.is_empty());
        }
        _ => panic!("unexpected answer"),
    }
    assert!(matches!(
        complete(&mut core, ScriptPurpose::AutomationEvaluation),
        BrowserCommandResult::AutomationEvaluation(a) if matches!(a.value, ScriptValue::Int32(7))
    ));
    let (_, _, purpose) = handed_over(&mut core, accessible(to));
    assert!(matches!(complete(&mut core, purpose), BrowserCommandResult::InputDispatched(_)));

    let zoom = double(2.0);
    let command = BrowserCommand::SetPageZoom { context_id: to.context_id, zoom };
    let purpose = match core.dispatch(command).unwrap() {
        CommandOutcome::Host(HostCall::ViewChanged { page_zoom, view: shown, purpose, .. }) => {
            assert_eq!(page_zoom, zoom);
            assert_eq!(shown.viewport, (800, 600));
            purpose
        }
        _ => panic!("unexpected zoom result"),
    };
    match complete(&mut core, purpose) {
        BrowserCommandResult::BrowsingContextState(state) => assert_eq!(state.page_zoom, zoom),
        _ => panic!("unexpected answer"),
    }
    let command = BrowserCommand::UpdateHostViewState { context_id: to.context_id, state: view(5) };
    match core.dispatch(command).unwrap() {
        CommandOutcome::Host(HostCall::ViewChanged { page_zoom, view: shown, purpose, .. }) => {
            assert_eq!((page_zoom, shown.generation), (zoom, 5));
            assert!(matches!(
                complete(&mut core, purpose),
                BrowserCommandResult::InputDispatched(_)
            ));
        }
        _ => panic!("unexpected view result"),
    }
}

#[test]
fn failed_scripts_and_refused_actions_are_the_answer() {
    let (mut core, state) = open();
    let to = address(&state);
    let (_, _, purpose) = handed_over(&mut core, key(to, "PageDown"));
    let boom = Err(BrowserError::new(ErrorCode::ScriptEval, "boom"));
    let error = error_of(core.complete_script(to.context_id, purpose, boom));
    assert_eq!(error.message, "boom");
    assert!(core.events.is_empty());

    let (_, _, purpose) = handed_over(&mut core, text(to));
    let actions = vec![NavigationAction::Overflow];
    let error = error_of(core.complete_script(
        to.context_id,
        purpose,
        came_to(ScriptValue::Null, actions),
    ));
    assert_eq!(error.message, "command produced more than 64 navigation actions");

    let (_, _, purpose) = handed_over(&mut core, key(to, "a"));
    let url = "https://a.test/next".to_owned();
    let actions = vec![NavigationAction::Navigate { url, replace: false }];
    let completed = core
        .complete_script(to.context_id, purpose, came_to(ScriptValue::Bool(true), actions))
        .unwrap();
    assert_eq!(completed.scroll, PageScroll::Stays);
    match completed.result {
        BrowserCommandResult::InputDispatched(result) => assert!(matches!(
            result.navigation_actions.as_slice(),
            [NavigationActionOutcome::CrossDocument { .. }]
        )),
        _ => panic!("unexpected answer"),
    }

    let (_, _, purpose) = handed_over(&mut core, key(to, "a"));
    core.close_context(to.context_id).unwrap();
    let error = error_of(core.complete_script(
        to.context_id,
        purpose,
        came_to(ScriptValue::Bool(true), Vec::new()),
    ));
    assert_eq!(error.code, ErrorCode::StaleContext);
}

#[test]
fn only_forms_in_a_query_are_bounded() {
    let submission = |method: &str, bytes: usize| FormSubmission {
        action: format!("https://a.test/{}", "x".repeat(0x400_0000)),
        method: method.to_owned(),
        body: vec![b'a'; bytes],
    };
    let form = |method: &str, bytes: usize, form_id: &str| NavigationAction::FormSubmit {
        form_id: form_id.to_owned(),
        form_node_id: 0,
        action: "https://a.test/f".to_owned(),
        method: "get".to_owned(),
        lookups: FormLookups {
            by_node: Ok(submission("get", 1)),
            by_id: Ok(submission(method, bytes)),
            resolved_action: None,
        },
    };
    assert!(!action_fits(&form("get", 1, "f")));
    assert!(!action_fits(&form("", 1, "f")));
    assert!(action_fits(&form("get", 0, "f")));
    assert!(action_fits(&form("POST", 1, "f")));
    assert!(action_fits(&form("Dialog", 1, "f")));
    assert!(action_fits(&form("get", 1, "")));
    assert!(all_forms_fit(&vec![form("post", 1, "f"), NavigationAction::Overflow]));
    assert!(!all_forms_fit(&vec![NavigationAction::Overflow, form("get", 1, "f")]));
}

#[test]
fn nested_blob_urls_have_the_innermost_origin() {
    let nested = |depth: usize| format!("{}https://a.test/x", "blob:".repeat(depth));
    for depth in [0, 1, 40, 400] {
        assert!(ensure_same_origin_history_url(&nested(depth), "https://a.test/y").is_ok());
        assert_eq!(
            error_of(ensure_same_origin_history_url(&nested(depth), "https://b.test/y")).message,
            "history state URL must be same-origin"
        );
    }
    assert!(ensure_same_origin_history_url(&nested(4100), "https://a.test/y").is_ok());
    for text in ["blob:blob:nowhere", "blob:", "blob:data:,x"] {
        assert_eq!(
            error_of(ensure_same_origin_history_url(text, text)).message,
            "history state URL must be same-origin"
        );
    }
}

#[test]
fn runtimes_are_cleared_in_order() {
    let mut core = BrowserCore::new(4, 1024, Vec::new());
    for _ in 0..3 {
        let reservation = core.reserve_context().unwrap();
        core.create_context(reservation, config(), view(0), None);
    }
    core.close_context(BrowsingContextId { raw: 2 }).unwrap();
    let selection = ProfileDataSelection {
        cookies: false,
        fetch_cache: true,
        history: false,
        session: false,
        web_storage: false,
        downloads: false,
        permissions: false,
        security_state: false,
    };
    match core.dispatch(BrowserCommand::ClearProfileData { selection }).unwrap() {
        CommandOutcome::Host(HostCall::ClearProfileData { runtimes, .. }) => {
            assert_eq!(runtimes, vec![0, 2]);
        }
        _ => panic!("unexpected result"),
    }
}
