use vixen_engine::browser::actions::{
    admit_history_url, append_form_query, append_navigation_actions_bounded,
    ensure_same_origin_history_url, join_form_query, prepare_navigation_actions,
    resolve_form_submission, FormLookups, FormSubmission, NavigationAction,
    PreparedNavigationAction,
};
use vixen_engine::browser::commands::NavigationActionOutcome;
use vixen_engine::browser::dispatch::{
    element_missing, validate_query, BrowserCommand, BrowserCommandResult, CommandOutcome,
    HostCall, PageQuery, ProfileDataSelection,
};
use vixen_engine::browser::effects::{
    accessibility_script, drain_runtime_effects, form_submission_info, json_string, script_value,
    FormEntry, FormEntryValue, FormEntryValueInfo, FormSubmissionSnapshot, JsBindingEvent,
    JsConsoleArg, JsConsoleEvent, JsConsoleValue, JsDialogEvent, JsNetworkEvent, JsValue,
    ScriptValue,
};
use vixen_engine::browser::error::{
    command_send_error, engine_error, event_queue_poisoned, profile_error, visit_error,
    BrowserError, ErrorCode,
};
use vixen_engine::browser::events::{
    BrowserEvent, CrossDocumentNavigationKind, EventQueue, NavigationCancellationReason,
    RuntimeConsoleValue, RuntimeNetworkEvent,
};
use vixen_engine::browser::history::{HistoryEntry, SessionHistory};
use vixen_engine::browser::ids::{
    next_process_id, next_typed_id, BrowsingContextId, DocumentId, IdAllocator, RequestId,
};
use vixen_engine::browser::input::{
    text_input_taken, wheel_scrolls, MouseEventData, MouseNumbers, MousePosition, ScriptPurpose,
};
use vixen_engine::browser::limits::{
    keyboard_scroll_delta, validate_find_query, validate_host_view, validate_injected_html,
    validate_lookup_id, validate_navigation_url, validate_page_zoom, validate_script,
    validate_selector, validate_text_input_state, validate_viewport, Float64, HostLifecycle,
    HostViewState, KeyboardScroll, Modifiers, TextInputState, TextSelection, MAX_FIND_QUERY_BYTES,
    MAX_NAVIGATION_ACTIONS_PER_COMMAND, MAX_SCRIPT_BYTES, MAX_SELECTOR_BYTES, MAX_TEXT_INPUT_BYTES,
    MAX_URL_BYTES,
};
use vixen_engine::browser::registry::{BrowserCore, BrowsingContextConfig};
use vixen_engine::browser::source::{
    admit_file_bytes, admit_file_length, data_source, external_script_network_events,
    file_path_missing, file_read_limit, file_source, http_source, is_followable_redirect,
    load_external_script, load_source, plan_external_script, plan_parsed_source, script_file,
    BoundedFileReadError,
    ExternalScriptLoadFailure, HopResponse, HopStep, LoadedExternalScript, NetworkEvent,
    ScriptFetch, ScriptPlan, SourcePlan,
};
use vixen_engine::weburl::UrlParts;

fn double(value: f64) -> Float64 {
    Float64 { bits: value.to_bits() }
}

fn error_of<T>(result: Result<T, BrowserError>) -> BrowserError {
    match result {
        Ok(_) => panic!("expected an error"),
        Err(error) => error,
    }
}

fn message_of<T>(result: Result<T, BrowserError>) -> String {
    error_of(result).message
}

fn failure_of<T>(result: Result<T, ExternalScriptLoadFailure>) -> ExternalScriptLoadFailure {
    match result {
        Ok(_) => panic!("expected a failure"),
        Err(failure) => failure,
    }
}

fn config() -> BrowsingContextConfig {
    BrowsingContextConfig {
        preload_scripts: Vec::new(),
        new_document_scripts: Vec::new(),
        bypass_csp: false,
        cache_disabled: false,
        extra_http_headers: Vec::new(),
        permission_grants: Vec::new(),
    }
}

fn view(generation: u64) -> HostViewState {
    HostViewState {
        generation,
        viewport: (800, 600),
        scale_factor: double(1.0),
        focused: true,
        visible: true,
        lifecycle: HostLifecycle::Resumed,
        accepts_input: true,
    }
}

fn create(core: &mut BrowserCore) -> BrowsingContextId {
    let reservation = core.reserve_context().unwrap();
    core.create_context(reservation, config(), view(0), None)
}

#[test]
fn ids_count_up_and_run_out() {
    let mut counter: u64 = 1;
    assert_eq!(next_typed_id(&mut counter).unwrap(), 1);
    assert_eq!(next_typed_id(&mut counter).unwrap(), 2);
    let mut last = u64::MAX;
    assert_eq!(next_typed_id(&mut last).unwrap(), u64::MAX);
    for _ in 0..3 {
        let error = error_of(next_typed_id(&mut last));
        assert_eq!(error.code, ErrorCode::IdExhausted);
        assert_eq!(error.message, "browser id space is exhausted");
    }

    let mut process: u64 = 1;
    assert_eq!(next_process_id(&mut process).unwrap(), 1);
    assert_eq!(process, 2);
    process = u64::MAX;
    assert_eq!(message_of(next_process_id(&mut process)), "process browser id space is exhausted");
    assert_eq!(process, u64::MAX);
    process = 0;
    assert_eq!(
        message_of(next_process_id(&mut process)),
        "process browser id allocation produced zero"
    );

    let mut ids = IdAllocator::new();
    assert_eq!(ids.context().unwrap().raw, 1);
    assert_eq!(ids.navigation().unwrap().raw, 1);
    assert_eq!(ids.navigation().unwrap().raw, 2);
    assert_eq!(ids.frame().unwrap().raw, 1);
    assert_eq!(ids.document().unwrap().raw, 1);
    assert_eq!(ids.request().unwrap().raw, 1);
    assert_eq!(ids.runtime().unwrap().raw, 1);
}

#[test]
fn errors_carry_their_codes() {
    assert_eq!(command_send_error(true).code, ErrorCode::CommandQueueFull);
    assert_eq!(command_send_error(false).message, "browser core is closed");
    assert_eq!(event_queue_poisoned().message, "browser event queue is poisoned");
    let profile = profile_error("disk");
    assert_eq!(profile.code, ErrorCode::Profile);
    assert_eq!(profile.message, "profile operation failed: disk");
    let visit = visit_error("disk");
    assert_eq!(visit.code, ErrorCode::NavigationLoad);
    assert_eq!(visit.message, "profile history write failed: disk");
    assert_eq!(engine_error("boom").code, ErrorCode::NavigationLoad);
    assert_eq!(engine_error("boom").copy().message, "boom");
    assert_eq!(element_missing("go").message, "no element with id 'go'");
}

#[test]
fn viewports_and_zooms_are_bounded() {
    assert!(validate_viewport((1, 16_384)).is_ok());
    for viewport in [(0, 600), (800, 0), (16_385, 1), (1, 16_385)] {
        assert_eq!(
            message_of(validate_viewport(viewport)),
            "viewport must be within 1x1 and 16384x16384"
        );
    }
    for zoom in [0.25, 1.0, 5.0] {
        assert!(validate_page_zoom(double(zoom)).is_ok());
    }
    for zoom in [0.249, 5.001, -1.0, 0.0, f64::NAN, f64::INFINITY, f64::NEG_INFINITY] {
        assert_eq!(
            message_of(validate_page_zoom(double(zoom))),
            "page zoom must be finite and between 0.25 and 5"
        );
    }
    assert!(validate_host_view(&view(1)).is_ok());
    for scale in [0.1, 16.0] {
        assert!(validate_host_view(&HostViewState { scale_factor: double(scale), ..view(1) }).is_ok());
    }
    for scale in [0.099, 16.1, f64::NAN] {
        let state = HostViewState { scale_factor: double(scale), ..view(1) };
        assert_eq!(
            message_of(validate_host_view(&state)),
            "host view generation and scale factor must be valid"
        );
    }
    assert!(validate_host_view(&view(0)).is_err());
}

#[test]
fn texts_are_bounded_by_their_bytes() {
    assert!(validate_script(&"x".repeat(MAX_SCRIPT_BYTES)).is_ok());
    assert!(validate_script(&"x".repeat(MAX_SCRIPT_BYTES + 1)).is_err());
    assert!(validate_selector(&"x".repeat(MAX_SELECTOR_BYTES)).is_ok());
    assert!(validate_selector(&"x".repeat(MAX_SELECTOR_BYTES + 1)).is_err());
    assert!(validate_lookup_id(&"x".repeat(MAX_SELECTOR_BYTES + 1)).is_err());
    assert!(validate_find_query(&"é".repeat(MAX_FIND_QUERY_BYTES / 2)).is_ok());
    assert!(validate_find_query(&"é".repeat(MAX_FIND_QUERY_BYTES / 2 + 1)).is_err());
    assert!(validate_navigation_url(&"x".repeat(MAX_URL_BYTES)).is_ok());
    assert_eq!(
        message_of(validate_navigation_url(&"x".repeat(MAX_URL_BYTES + 1))),
        "navigation URL exceeds the browser limit"
    );
    assert!(validate_injected_html("1234", 4).is_ok());
    assert_eq!(
        message_of(validate_injected_html("12345", 4)),
        "injected document exceeds the browser body limit"
    );
}

#[test]
fn text_input_ranges_lie_within_the_text() {
    let at = |base_offset: u32, extent_offset: u32| TextSelection { base_offset, extent_offset };
    let state = |text: &str, selection: TextSelection, composing: Option<TextSelection>| {
        TextInputState { text: text.to_owned(), selection, composing }
    };
    assert!(validate_text_input_state(&state("🦊", at(2, 2), Some(at(0, 2)))).is_ok());
    assert_eq!(
        message_of(validate_text_input_state(&state("🦊", at(3, 0), None))),
        "text input selection exceeds the value"
    );
    assert_eq!(
        message_of(validate_text_input_state(&state("abc", at(0, 0), Some(at(0, 4))))),
        "text input composing range is invalid"
    );
    let long = "x".repeat(MAX_TEXT_INPUT_BYTES + 1);
    assert_eq!(
        message_of(validate_text_input_state(&state(&long, at(0, 0), None))),
        "text input value exceeds the browser limit"
    );
    assert!(text_input_taken(&ScriptValue::Bool(true)).is_ok());
    assert_eq!(
        message_of(text_input_taken(&ScriptValue::Null)),
        "text input requires a focused writable native text control"
    );
}

#[test]
fn keys_scroll_unless_something_takes_them() {
    let plain = Modifiers { ctrl_key: false, shift_key: false, alt_key: false, meta_key: false };
    let shift = Modifiers { shift_key: true, ..plain };
    let ctrl = Modifiers { ctrl_key: true, ..plain };
    let scroll = |key: &str, modifiers: Modifiers| {
        keyboard_scroll_delta("keydown", key, modifiers, false)
    };
    assert_eq!(scroll("ArrowLeft", plain), Some(KeyboardScroll::LineLeft));
    assert_eq!(scroll("ArrowRight", plain), Some(KeyboardScroll::LineRight));
    assert_eq!(scroll("ArrowUp", plain), Some(KeyboardScroll::LineUp));
    assert_eq!(scroll("ArrowDown", plain), Some(KeyboardScroll::LineDown));
    assert_eq!(scroll("PageUp", plain), Some(KeyboardScroll::PageUp));
    assert_eq!(scroll("Home", plain), Some(KeyboardScroll::Top));
    assert_eq!(scroll("End", plain), Some(KeyboardScroll::Bottom));
    assert_eq!(scroll(" ", plain), Some(KeyboardScroll::PageDown));
    assert_eq!(scroll(" ", shift), Some(KeyboardScroll::PageUp));
    assert_eq!(scroll("a", plain), None);
    assert_eq!(scroll("PageDown", ctrl), None);
    assert_eq!(keyboard_scroll_delta("keyUp", "PageDown", plain, false), None);
    assert_eq!(keyboard_scroll_delta("keyDown", "PageDown", plain, true), None);

    assert!(wheel_scrolls("wheel", false, false, &ScriptValue::Bool(true)));
    assert!(!wheel_scrolls("wheel", true, false, &ScriptValue::Bool(true)));
    assert!(!wheel_scrolls("wheel", false, false, &ScriptValue::Bool(false)));
    assert!(!wheel_scrolls("click", false, false, &ScriptValue::Bool(true)));
}

fn closed(raw: u64) -> BrowserEvent {
    BrowserEvent::BrowsingContextClosed { context_id: BrowsingContextId { raw } }
}

fn closed_id(event: &BrowserEvent) -> u64 {
    match event {
        BrowserEvent::BrowsingContextClosed { context_id } => context_id.raw,
        _ => panic!("unexpected event"),
    }
}

#[test]
fn the_event_queue_keeps_the_latest_in_order() {
    let mut queue = EventQueue::new(2);
    for raw in 1..=5 {
        queue.push(closed(raw));
        assert!(queue.events.len() <= 2);
    }
    assert!(!queue.is_idle());
    let lag = error_of(queue.pop());
    assert_eq!(lag.code, ErrorCode::EventLagged);
    assert!(lag.message.contains("3"));
    assert_eq!(closed_id(&queue.pop().unwrap().unwrap()), 4);
    assert_eq!(closed_id(&queue.pop().unwrap().unwrap()), 5);
    assert!(queue.pop().unwrap().is_none());
    assert!(queue.is_idle());
}

fn entry(url: &str) -> HistoryEntry {
    HistoryEntry::navigation(url.to_owned())
}

#[test]
fn histories_move_and_forget_what_lies_ahead() {
    let mut history = SessionHistory::new(entry("a"));
    history.push(entry("b"));
    history.push(entry("c"));
    assert!(history.can_go_back() && !history.can_go_forward());
    assert!(history.go(-2));
    assert_eq!(history.url(), "a");
    assert!(!history.go(-1));
    assert_eq!(history.index(), 0);
    assert!(history.go(1));
    history.replace(entry("B"));
    assert_eq!(history.length(), 3);
    history.push(entry("d"));
    assert_eq!(history.length(), 3);
    assert!(!history.go(1));
    assert!(history.go(-1));
    assert_eq!(history.url(), "B");
}

#[test]
fn history_urls_stay_within_the_origin() {
    assert!(ensure_same_origin_history_url("https://a.test/x", "https://a.test/y").is_ok());
    assert!(ensure_same_origin_history_url("file:///tmp/a", "file:///tmp/b").is_ok());
    assert_eq!(
        message_of(ensure_same_origin_history_url("https://a.test/x", "https://b.test/x")),
        "history state URL must be same-origin"
    );
    assert_eq!(
        message_of(ensure_same_origin_history_url("https://a.test/x", "http://a.test/x")),
        "history state URL must be same-origin"
    );
    assert!(message_of(ensure_same_origin_history_url("nowhere", "https://a.test/"))
        .starts_with("invalid current URL: "));
    assert!(message_of(ensure_same_origin_history_url("https://a.test/", "nowhere"))
        .starts_with("invalid history URL: "));
    let missing: Result<UrlParts, String> = Err("why".to_owned());
    assert_eq!(message_of(admit_history_url(&missing, &missing, true)), "invalid current URL: why");
}

#[test]
fn form_data_goes_into_the_query() {
    assert_eq!(append_form_query("https://a.test/f", b"").unwrap(), "https://a.test/f");
    assert_eq!(append_form_query("https://a.test/f", b"q=1").unwrap(), "https://a.test/f?q=1");
    assert_eq!(
        append_form_query("https://a.test/f?p=0#top", b"q=1").unwrap(),
        "https://a.test/f?p=0&q=1#top"
    );
    assert_eq!(append_form_query("https://a.test/f?", b"q=1").unwrap(), "https://a.test/f?q=1");
    assert_eq!(
        append_form_query("https://a.test/f", b"q=\xff").unwrap(),
        "https://a.test/f?q=%EF%BF%BD"
    );
    assert!(message_of(append_form_query("nowhere", b"q=1")).starts_with("invalid form action URL: "));
    assert_eq!(join_form_query(&Some("p=0".to_owned()), "q=1"), "p=0&q=1");
    assert_eq!(join_form_query(&None, "q=1"), "q=1");
}

fn lookups(by_node: Result<FormSubmission, String>, by_id: Result<FormSubmission, String>) -> FormLookups {
    FormLookups { by_node, by_id, resolved_action: Some("https://a.test/resolved".to_owned()) }
}

fn form(method: &str) -> Result<FormSubmission, String> {
    Ok(FormSubmission {
        action: "https://a.test/form".to_owned(),
        method: method.to_owned(),
        body: b"q=1".to_vec(),
    })
}

#[test]
fn form_submissions_resolve_to_urls() {
    let missing = || Err("gone".to_owned());
    let resolve = |id: &str, node: usize, method: &str, found: FormLookups| {
        resolve_form_submission(id.to_owned(), node, "/act".to_owned(), method.to_owned(), found)
    };
    assert_eq!(
        resolve("f", 3, "get", lookups(form("GET"), missing())).unwrap().as_deref(),
        Some("https://a.test/form?q=1")
    );
    assert_eq!(
        resolve("f", 3, "get", lookups(form("post"), missing())).unwrap().as_deref(),
        Some("https://a.test/form")
    );
    assert!(resolve("f", 3, "get", lookups(form("Dialog"), missing())).unwrap().is_none());
    assert_eq!(
        resolve("f", 3, "get", lookups(missing(), form("post"))).unwrap().as_deref(),
        Some("https://a.test/resolved?q=1")
    );
    assert_eq!(
        resolve("f", 0, "get", lookups(missing(), form("get"))).unwrap().as_deref(),
        Some("https://a.test/form?q=1")
    );
    assert_eq!(
        resolve("", 0, "get", lookups(missing(), missing())).unwrap().as_deref(),
        Some("https://a.test/resolved")
    );
    assert!(resolve("", 3, "get", lookups(missing(), missing())).is_err());
}

fn assign(url: &str) -> NavigationAction {
    NavigationAction::Navigate { url: url.to_owned(), replace: false }
}

#[test]
fn one_action_more_than_the_limit_is_kept() {
    let mut queued = Vec::new();
    let many = |count: usize| (0..count).map(|_| assign("https://a.test/")).collect::<Vec<_>>();
    append_navigation_actions_bounded(&mut queued, many(MAX_NAVIGATION_ACTIONS_PER_COMMAND));
    assert_eq!(queued.len(), 64);
    append_navigation_actions_bounded(&mut queued, many(3));
    assert_eq!(queued.len(), 65);
    append_navigation_actions_bounded(&mut queued, many(3));
    assert_eq!(queued.len(), 65);
}

#[test]
fn actions_are_prepared_against_the_history_so_far() {
    let history = SessionHistory::new(entry("https://a.test/one"));
    let document_id = DocumentId { raw: 9 };
    let actions = vec![
        NavigationAction::HistoryPush {
            url: "https://a.test/two".to_owned(),
            state_json: "1".to_owned(),
            title: String::new(),
        },
        NavigationAction::HistoryTraverse { delta: 5 },
        NavigationAction::SetContent { html: "<p>".to_owned() },
    ];
    let prepared = prepare_navigation_actions(&history, document_id, 100, actions).unwrap();
    assert_eq!(prepared.len(), 2);
    assert!(matches!(
        &prepared[0],
        PreparedNavigationAction::SameDocument { history, url }
            if url == "https://a.test/two" && history.length() == 2
    ));
    assert!(matches!(
        &prepared[1],
        PreparedNavigationAction::CrossDocument { injected_html: Some(html), kind, url, .. }
            if html == "<p>" && url == "https://a.test/two"
                && *kind == CrossDocumentNavigationKind::ContentReplacement {
                    replaced_document_id: document_id,
                }
    ));
    let foreign = vec![NavigationAction::HistoryReplace {
        url: "https://b.test/".to_owned(),
        state_json: "1".to_owned(),
        title: String::new(),
    }];
    assert!(prepare_navigation_actions(&history, document_id, 100, foreign).is_err());
}

#[test]
fn sources_are_planned_by_their_schemes() {
    let plan = |url: &str| load_source(url.to_owned(), None);
    assert!(matches!(
        plan("about:blank").unwrap(),
        SourcePlan::Ready(source)
            if source.final_url == "about:blank" && source.html == "<!doctype html><title></title>"
    ));
    assert!(matches!(
        plan("about:vixen").unwrap(),
        SourcePlan::Ready(source)
            if source.html == "<!doctype html><title>Vixen</title><h1>Vixen</h1>"
    ));
    match plan("data:text/plain,a\tb\nc").unwrap() {
        SourcePlan::Data { written, final_url } => {
            assert_eq!(written, "data:text/plain,a\tb\nc");
            assert_eq!(final_url, "data:text/plain,abc");
        }
        _ => panic!("unexpected plan"),
    }
    assert!(matches!(plan("file:///tmp/x").unwrap(), SourcePlan::File { .. }));
    assert!(matches!(
        plan("HTTPS://A.test").unwrap(),
        SourcePlan::Http { url } if url == "https://a.test/"
    ));
    assert_eq!(message_of(plan("ftp://a.test/")), "unsupported navigation URL scheme: ftp");
    assert!(message_of(plan("nowhere")).starts_with("invalid navigation URL: "));
    assert!(matches!(
        load_source("nowhere".to_owned(), Some("<p>".to_owned())).unwrap(),
        SourcePlan::Ready(source) if source.html == "<p>" && source.final_url == "nowhere"
    ));
    assert_eq!(
        message_of(plan_parsed_source("x".to_owned(), Err("why".to_owned()))),
        "invalid navigation URL: why"
    );
}

#[test]
fn loaded_bytes_become_text() {
    let data =
        data_source("data:,x".to_owned(), Ok((b"a\xffb".to_vec(), "text/plain".to_owned()))).unwrap();
    assert_eq!(data.html, "a\u{fffd}b");
    assert_eq!(data.headers, vec![("content-type".to_owned(), "text/plain".to_owned())]);
    assert_eq!(message_of(data_source("data:".to_owned(), Err("bad".to_owned()))), "bad");

    let read = |bytes: &[u8]| file_source("file:///x".to_owned(), "/x", Ok(bytes.to_vec()), 8);
    assert_eq!(read("é".as_bytes()).unwrap().html, "é");
    assert_eq!(message_of(read(b"\xff")), "failed to read /x: stream did not contain valid UTF-8");
    let failed = |error: BoundedFileReadError| {
        message_of(file_source("file:///x".to_owned(), "/x", Err(error), 8))
    };
    assert_eq!(failed(BoundedFileReadError::TooLarge), "navigation file body exceeds 8 bytes at /x");
    assert_eq!(
        failed(BoundedFileReadError::Inspect("no".to_owned())),
        "failed to read /x: no"
    );
    assert_eq!(file_path_missing().message, "file URL has no local path");

    assert!(matches!(admit_file_length(8, 8), Ok(8)));
    assert!(matches!(admit_file_length(9, 8), Err(BoundedFileReadError::TooLarge)));
    assert_eq!(file_read_limit(8), 9);
    assert_eq!(file_read_limit(u64::MAX), u64::MAX);
    assert!(admit_file_bytes(vec![0; 8], 8).is_ok());
    assert!(matches!(admit_file_bytes(vec![0; 9], 8), Err(BoundedFileReadError::TooLarge)));
    assert_eq!(
        message_of(http_source(Err("timeout".to_owned()))),
        "navigation fetch failed: timeout"
    );
}

fn fetch(url: &str, max_redirects: usize) -> ScriptFetch {
    match load_external_script(url.to_owned(), "https", max_redirects) {
        Ok(ScriptPlan::Http(fetch)) => {
            fetch.enter(None).ok().unwrap().cookies_merged(Ok(())).ok().unwrap()
        }
        _ => panic!("unexpected plan"),
    }
}

fn hop(status: u16, location: Option<&str>) -> HopResponse {
    HopResponse {
        status,
        final_url: "https://a.test/s.js".to_owned(),
        body: "go()".to_owned(),
        events: vec![
            NetworkEvent::RequestStart {
                url: "https://a.test/s.js".to_owned(),
                method: "GET".to_owned(),
            },
            NetworkEvent::Response { url: "https://a.test/s.js".to_owned(), status },
        ],
        location: location.map(str::to_owned),
    }
}

#[test]
fn script_fetches_follow_redirects_within_limits() {
    for status in [301, 302, 303, 307, 308] {
        assert!(is_followable_redirect(status));
    }
    for status in [200, 300, 304, 305, 306, 309, 404] {
        assert!(!is_followable_redirect(status));
    }
    let start = "https://a.test/s.js";
    match fetch(start, 2).received(hop(200, None)) {
        Ok(HopStep::Loaded(LoadedExternalScript::Http { response, requested_urls })) => {
            assert_eq!(response.body, "go()");
            assert_eq!(response.events.len(), 2);
            assert_eq!(requested_urls, vec![start.to_owned()]);
        }
        _ => panic!("the script did not load"),
    }
    let (moved, next) = match fetch(start, 1).received(hop(302, Some("t.js"))) {
        Ok(HopStep::Redirect { fetch, next, status: 302 }) => (fetch, next),
        _ => panic!("the redirect was not seen"),
    };
    assert_eq!(next, "https://a.test/t.js");
    let moved = moved.follow(next, 302, Ok(()), None).ok().unwrap();
    assert!(matches!(
        moved.events.as_slice(),
        [NetworkEvent::RequestStart { .. }, NetworkEvent::Redirect { to, status: 302, .. }]
            if to == "https://a.test/t.js"
    ));
    let moved = moved.enter(None).ok().unwrap().cookies_merged(Ok(())).ok().unwrap();
    let too_many = failure_of(moved.received(hop(302, Some("u.js"))));
    assert_eq!(
        too_many.error.message,
        "external script fetch failed: too many redirects (>1) fetching https://a.test/t.js"
    );
    let back = failure_of(fetch(start, 5).received(hop(302, Some("s.js"))));
    assert_eq!(
        back.error.message,
        "external script fetch failed: redirect loop detected at https://a.test/s.js"
    );
    let nowhere = failure_of(fetch(start, 5).received(hop(302, None)));
    assert_eq!(
        nowhere.error.message,
        "external script fetch failed: invalid redirect target from https://a.test/s.js"
    );
}

#[test]
fn script_fetches_list_what_they_requested() {
    let mut fetch = fetch("https://a.test/s.js", 3);
    for target in ["t.js", "u.js", "/v.js"] {
        let (moved, next) = match fetch.received(hop(307, Some(target))) {
            Ok(HopStep::Redirect { fetch, next, .. }) => (fetch, next),
            _ => panic!("the redirect was not seen"),
        };
        let moved = moved.follow(next, 307, Ok(()), None).ok().unwrap();
        fetch = moved.enter(None).ok().unwrap().cookies_merged(Ok(())).ok().unwrap();
    }
    match fetch.received(hop(200, None)) {
        Ok(HopStep::Loaded(LoadedExternalScript::Http { response, requested_urls })) => {
            assert_eq!(response.redirects, 3);
            assert_eq!(
                requested_urls,
                ["s.js", "t.js", "u.js", "v.js"].map(|name| format!("https://a.test/{name}"))
            );
        }
        _ => panic!("the script did not load"),
    }
}

#[test]
fn script_fetches_obey_policies() {
    let start = "https://a.test/s.js";
    let blocked = match load_external_script(start.to_owned(), "http", 2) {
        Ok(ScriptPlan::Http(fetch)) => failure_of(fetch.enter(Some("mixed-content".to_owned()))),
        _ => panic!("unexpected plan"),
    };
    assert_eq!(blocked.blocked_reason, "mixed-content");
    assert_eq!(
        blocked.error.message,
        "external script blocked by mixed-content: https://a.test/s.js"
    );
    let refused = failure_of(fetch(start, 2).follow(
        "https://b.test/".to_owned(),
        302,
        Err("private".to_owned()),
        None,
    ));
    assert_eq!(
        refused.error.message,
        "external script fetch failed: URL rejected by policy: private"
    );
    let csp = failure_of(fetch(start, 2).follow(
        "https://b.test/".to_owned(),
        302,
        Ok(()),
        Some("csp".to_owned()),
    ));
    assert_eq!(csp.blocked_reason, "csp");
    let lost = fetch(start, 2).failed("reset", Vec::new());
    assert_eq!(lost.error.message, "external script fetch failed: reset");
    let cookies = fetch(start, 2).cookies_merged(Err(profile_error("locked")));
    assert_eq!(failure_of(cookies).error.code, ErrorCode::Profile);

    let scheme = failure_of(load_external_script("ftp://a".to_owned(), "ftp", 2));
    assert_eq!(scheme.error.message, "unsupported external script URL scheme: ftp");
    assert!(matches!(
        load_external_script("file:///s.js".to_owned(), "file", 2),
        Ok(ScriptPlan::File)
    ));
    assert!(matches!(
        plan_external_script("HTTPS://A.test", 2),
        Some(Ok(ScriptPlan::Http(fetch))) if fetch.current == "https://a.test/"
    ));
    assert!(matches!(plan_external_script("file:///s.js", 2), Some(Ok(ScriptPlan::File))));
    assert!(plan_external_script("nowhere", 2).is_none());
}

#[test]
fn script_files_are_read_as_text() {
    let url = || "file:///s.js".to_owned();
    match script_file(url(), Some("/s.js"), Ok(b"a\xff".to_vec()), 8) {
        Ok(LoadedExternalScript::File { source, .. }) => assert_eq!(source, "a\u{fffd}"),
        _ => panic!("the script did not load"),
    }
    let large = failure_of(script_file(url(), Some("/s.js"), Err(BoundedFileReadError::TooLarge), 8));
    assert_eq!(large.error.message, "external script body exceeds 8 bytes at /s.js");
    let open = BoundedFileReadError::Open("no".to_owned());
    let open = failure_of(script_file(url(), Some("/s.js"), Err(open), 8));
    assert_eq!(open.error.message, "failed to open external script /s.js: no");
    let pathless = failure_of(script_file(url(), None, Ok(Vec::new()), 8));
    assert_eq!(pathless.error.message, "external script file URL has no local path");
}

#[test]
fn script_exchanges_are_told_to_the_frontend() {
    let id = RequestId { raw: 12 };
    let file = Ok(LoadedExternalScript::File {
        final_url: "file:///s.js".to_owned(),
        source: String::new(),
    });
    let told = external_script_network_events(id, "file:///s.js", &file);
    assert!(matches!(
        told.as_slice(),
        [
            RuntimeNetworkEvent::Request { request_id, method, .. },
            RuntimeNetworkEvent::Response { status: 200, .. },
        ] if request_id == "12" && method == "GET"
    ));
    let failed = Err(fetch("https://a.test/s.js", 2).failed("reset", Vec::new()));
    let told = external_script_network_events(id, "https://a.test/s.js", &failed);
    assert!(matches!(
        told.as_slice(),
        [
            RuntimeNetworkEvent::Request { .. },
            RuntimeNetworkEvent::Failure { blocked_reason: Some(reason), error_text, .. },
        ] if reason == "load" && error_text == "external script fetch failed: reset"
    ));
}

#[test]
fn script_results_are_handed_over_whole() {
    assert!(matches!(script_value(JsValue::Int32(-3)), ScriptValue::Int32(-3)));
    assert!(matches!(script_value(JsValue::Object), ScriptValue::Object));
    assert!(matches!(script_value(JsValue::Text("a".to_owned())), ScriptValue::Text(t) if t == "a"));
    assert!(script_value(JsValue::Bool(true)).is_true());
    assert!(!script_value(JsValue::Undefined).is_true());
    let effects = drain_runtime_effects(
        vec![JsConsoleEvent {
            kind: "log".to_owned(),
            args: vec![JsConsoleArg {
                type_label: "number".to_owned(),
                subtype: None,
                value: Some(JsConsoleValue::Number(double(2.5))),
                unserializable_value: None,
                description: Some("2.5".to_owned()),
            }],
        }],
        vec![JsDialogEvent {
            kind: "prompt".to_owned(),
            message: "name?".to_owned(),
            default_prompt: Some("Ada".to_owned()),
        }],
        vec![JsBindingEvent { name: "send".to_owned(), payload: "{}".to_owned() }],
        vec![JsNetworkEvent::Response {
            request_id: "1".to_owned(),
            url: "https://a.test/".to_owned(),
            status: 204,
        }],
    );
    assert!(!effects.is_empty());
    assert_eq!(effects.console[0].kind, "log");
    assert!(matches!(
        &effects.console[0].args[0].value,
        Some(RuntimeConsoleValue::Number(number)) if *number == double(2.5)
    ));
    assert_eq!(effects.dialogs[0].default_prompt.as_deref(), Some("Ada"));
    assert_eq!(effects.bindings[0].payload, "{}");
    assert!(matches!(&effects.network[0], RuntimeNetworkEvent::Response { status: 204, .. }));
    assert!(effects.exceptions.is_empty());

    let info = form_submission_info(FormSubmissionSnapshot {
        form: 7u8,
        action: "/a".to_owned(),
        method: "post".to_owned(),
        enctype: "multipart/form-data".to_owned(),
        content_type: "text/plain".to_owned(),
        entries: vec![
            FormEntry { name: "a".to_owned(), value: FormEntryValue::Text("1".to_owned()) },
            FormEntry {
                name: "b".to_owned(),
                value: FormEntryValue::File {
                    filename: "f".to_owned(),
                    content_type: "text/css".to_owned(),
                    body: vec![1, 2],
                },
            },
        ],
        body: vec![3],
    });
    assert_eq!(info.form, 7);
    assert_eq!(info.entries.len(), 2);
    assert!(matches!(&info.entries[0].value, FormEntryValueInfo::Text(v) if v == "1"));
    assert!(matches!(&info.entries[1].value, FormEntryValueInfo::File { body, .. } if body.len() == 2));
}

#[test]
fn strings_are_escaped_for_scripts() {
    assert_eq!(
        json_string("a\"b\\c\n\t\r\u{8}\u{c}\u{1}\u{7f}é").unwrap(),
        "\"a\\\"b\\\\c\\n\\t\\r\\b\\f\\u0001\u{7f}é\""
    );
    assert_eq!(
        accessibility_script(5, "set_value", Some("A\"da")).unwrap(),
        "globalThis.__vixenDispatchAccessibilityAction ? \
         globalThis.__vixenDispatchAccessibilityAction(5, \"set_value\", \"A\\\"da\") : false"
    );
    assert!(accessibility_script(5, "focus", None).unwrap().contains("(5, \"focus\", null)"));
}

#[test]
fn contexts_are_made_and_closed_once() {
    let mut core = BrowserCore::new(2, 1024, Vec::new());
    let first = create(&mut core);
    let second = create(&mut core);
    let full = error_of(core.reserve_context());
    assert_eq!(full.code, ErrorCode::ContextLimit);
    assert_eq!(full.message, "browser context limit 2 reached");
    assert_eq!(core.browser_snapshot().active_context_id, Some(first));
    assert_eq!(core.context_ids(), vec![first.raw, second.raw]);

    core.activate_context(second).unwrap();
    assert_eq!(core.browser_snapshot().active_context_id, Some(second));
    core.close_context(second).unwrap();
    assert_eq!(core.browser_snapshot().active_context_id, Some(first));
    let stale = error_of(core.close_context(second));
    assert_eq!(stale.code, ErrorCode::StaleContext);
    assert_eq!(stale.message, "browsing context 2 is closed");
    let unknown = error_of(core.context_state(BrowsingContextId { raw: 99 }));
    assert_eq!(unknown.code, ErrorCode::UnknownContext);
    assert_eq!(unknown.message, "browsing context 99 is unknown");
    let third = create(&mut core);
    assert_eq!(third.raw, 3);
}

#[test]
fn stale_documents_and_runtimes_are_refused() {
    let mut core = BrowserCore::new(2, 1024, Vec::new());
    let context_id = create(&mut core);
    let state = core.context_state(context_id).unwrap();
    let other = DocumentId { raw: 77 };
    let document = error_of(core.context_for_document(context_id, other));
    assert_eq!(document.code, ErrorCode::StaleDocument);
    assert_eq!(document.message, "document 77 is no longer active in context 1");
    let runtime = vixen_engine::browser::ids::RuntimeContextId { raw: 78 };
    let error = error_of(core.ensure_runtime(context_id, state.document_id, runtime));
    assert_eq!(error.code, ErrorCode::StaleRuntime);
    assert_eq!(error.message, "runtime 78 is no longer active in context 1");
}

#[test]
fn host_views_are_taken_in_order() {
    let mut core = BrowserCore::new(2, 1024, Vec::new());
    let context_id = create(&mut core);
    assert!(core.update_host_view_state(context_id, view(3)).is_ok());
    let stale = error_of(core.update_host_view_state(context_id, view(3)));
    assert_eq!(stale.code, ErrorCode::StaleHostView);
    assert_eq!(stale.message, "host view generation 3 is not newer than 3");
    assert!(core.set_page_zoom(context_id, double(2.0)).is_ok());
    assert_eq!(core.context_state(context_id).unwrap().page_zoom, double(2.0));
    assert!(core.set_page_zoom(context_id, double(6.0)).is_err());
    assert_eq!(core.context_state(context_id).unwrap().page_zoom, double(2.0));
}

#[test]
fn history_snapshots_mark_states_of_one_document() {
    let mut core = BrowserCore::new(2, 1024, Vec::new());
    let context_id = create(&mut core);
    let navigate = NavigationAction::HistoryReplace {
        url: "about:blank".to_owned(),
        state_json: "{}".to_owned(),
        title: "Blank".to_owned(),
    };
    let refused = core.apply_navigation_actions(context_id, vec![navigate], None);
    assert_eq!(message_of(refused), "history state URL must be same-origin");
    let history = core.navigation_history(context_id).unwrap();
    assert_eq!(history.current_index, 0);
    assert_eq!(history.entries[0].url, "about:blank");
    assert!(!history.entries[0].same_document);
    core.reset_navigation_history(context_id).unwrap();
    assert_eq!(core.navigation_history(context_id).unwrap().entries.len(), 1);
    let outcomes = core
        .apply_navigation_actions(context_id, vec![NavigationAction::HistoryTraverse { delta: 1 }], None)
        .unwrap();
    assert!(outcomes.is_empty());
    let replaced = core
        .apply_navigation_actions(
            context_id,
            vec![NavigationAction::SetContent { html: "<p>".to_owned() }],
            None,
        )
        .unwrap();
    assert!(matches!(
        replaced.as_slice(),
        [NavigationActionOutcome::CrossDocument { .. }]
    ));
}

#[test]
fn documents_may_be_given_in_advance() {
    let overrides = vec![("https://a.test/".to_owned(), "<p>".to_owned())];
    let mut core = BrowserCore::new(2, 1024, overrides);
    let context_id = create(&mut core);
    let url = "https://a.test/".to_owned();
    assert!(core.dispatch(BrowserCommand::Navigate { context_id, url }).is_ok());
    let loads = core.start_pending_loads();
    assert_eq!(loads[0].injected_html.as_deref(), Some("<p>"));
    assert!(core.start_pending_loads().is_empty());
    let html = "x".repeat(1025);
    let url = "https://b.test/".to_owned();
    let large = core.dispatch(BrowserCommand::NavigateHtml { context_id, url, html });
    assert_eq!(message_of(large), "injected document exceeds the browser body limit");
}

#[test]
fn page_queries_are_validated() {
    assert!(validate_query(&PageQuery::Diagnostics).is_ok());
    let hit = |x: f64| PageQuery::HitTest { viewport: (8, 6), x: double(x), y: double(0.0) };
    assert!(validate_query(&hit(1.0)).is_ok());
    assert_eq!(message_of(validate_query(&hit(f64::NAN))), "hit-test coordinates must be finite");
    let selector = "x".repeat(MAX_SELECTOR_BYTES + 1);
    let query = PageQuery::QuerySelectorAll { selector, viewport: (8, 6) };
    assert_eq!(message_of(validate_query(&query)), "selector exceeds the browser query limit");

    let mut core = BrowserCore::new(2, 1024, Vec::new());
    let context_id = create(&mut core);
    let state = core.context_state(context_id).unwrap();
    let position = |x: f64| MousePosition {
        x: double(x),
        y: double(0.0),
        delta_x: double(0.0),
        delta_y: double(0.0),
    };
    let mouse = |event_type: &str, x: f64, default_target: Option<usize>| {
        BrowserCommand::DispatchMouseEvent {
            context_id,
            document_id: state.document_id,
            runtime_context_id: state.runtime_context_id.unwrap(),
            node_id: 0,
            event_type: event_type.to_owned(),
            event: MouseEventData {
                position: position(x),
                button: 0,
                buttons: 0,
                detail: 0,
                related_node_id: None,
                bubbles: true,
                modifiers: Modifiers {
                    ctrl_key: false,
                    shift_key: false,
                    alt_key: false,
                    meta_key: false,
                },
            },
            numbers: MouseNumbers {
                x: "1.0".to_owned(),
                y: "0.0".to_owned(),
                delta_x: "0.0".to_owned(),
                delta_y: "0.0".to_owned(),
            },
            default_target,
        }
    };
    assert_eq!(
        message_of(core.dispatch(mouse("click", f64::INFINITY, None))),
        "mouse event coordinates and deltas must be finite"
    );
    assert!(matches!(
        core.dispatch(mouse("wheel", 1.0, Some(4))).unwrap(),
        CommandOutcome::Host(HostCall::RunScript {
            purpose: ScriptPurpose::MouseEvent { node_id: 4, .. },
            ..
        })
    ));
    match core.dispatch(mouse("wheel", 1.0, None)).unwrap() {
        CommandOutcome::Done(BrowserCommandResult::InputDispatched(result)) => {
            assert!(result.navigation_actions.is_empty());
            assert!(result.effects.network.is_empty());
        }
        _ => panic!("unexpected input result"),
    }
}

#[test]
fn profiles_keep_what_the_tabs_show() {
    let mut core = BrowserCore::new(3, 1024, Vec::new());
    let first = create(&mut core);
    let second = create(&mut core);
    core.activate_context(second).unwrap();
    let session = core.save_current_profile_session();
    assert_eq!(session.tabs, vec!["about:blank".to_owned(), "about:blank".to_owned()]);
    assert_eq!(session.active_index, 1);
    assert!(core.runtimes_to_clear(false, false).is_empty());
    assert_eq!(core.runtimes_to_clear(true, false).len(), 2);
    let selection = ProfileDataSelection {
        cookies: true,
        fetch_cache: false,
        history: false,
        session: false,
        web_storage: false,
        downloads: false,
        permissions: false,
        security_state: false,
    };
    assert!(matches!(
        core.dispatch(BrowserCommand::ClearProfileData { selection }).unwrap(),
        CommandOutcome::Host(HostCall::ClearProfileData { runtimes, .. }) if runtimes.len() == 2
    ));

    let url = "https://a.test/".to_owned();
    assert!(core.dispatch(BrowserCommand::Navigate { context_id: first, url }).is_ok());
    core.events.clear();
    core.shutdown();
    assert!(core.events.iter().any(|event| matches!(
        event,
        BrowserEvent::NavigationCancelled {
            reason: NavigationCancellationReason::BrowserShutdown,
            ..
        }
    )));
}
