//! Input events, and what becomes of the scripts that hand them to a page.
//!
//! An event is checked, and a script that dispatches it is put together. Once
//! the host has run the script, what it came to decides the answer and whether
//! the page scrolls.

use vstd::prelude::*;

use crate::browser::commands::{AutomationEvaluation, Evaluation, OutcomeView};
use crate::browser::dispatch::{
    BrowserCommand, BrowserCommandResult, CommandOutcome, InputDispatchResult,
};
use crate::browser::effects::{json_string, ScriptValue};
use crate::browser::error::{joined, BrowserError, ErrorCode, ErrorView};
use crate::browser::events::RuntimeEffects;
use crate::browser::ids::{BrowsingContextId, DocumentId, RuntimeContextId};
use crate::browser::limits::{
    keyboard_scroll_delta, validate_text_input_state, Float64, KeyboardScroll, Modifiers,
    TextInputState,
};
use crate::browser::registry::{BrowserCore, CoreView};
use crate::text::{decimal, same_text};

verus! {

/// Where a mouse event happened, and how far a wheel turned.
#[derive(Clone, Copy, Debug, PartialEq, Eq, Structural)]
pub struct MousePosition {
    pub x: Float64,
    pub y: Float64,
    pub delta_x: Float64,
    pub delta_y: Float64,
}

/// A mouse event as the frontend reports it.
#[derive(Clone, Copy, Debug, PartialEq, Eq, Structural)]
pub struct MouseEventData {
    pub position: MousePosition,
    pub button: i16,
    pub buttons: u16,
    pub detail: u32,
    pub related_node_id: Option<usize>,
    pub bubbles: bool,
    pub modifiers: Modifiers,
}

/// The position of a mouse event in the pixels of the zoomed page, each number
/// as JSON writes it.
pub struct MouseNumbers {
    pub x: String,
    pub y: String,
    pub delta_x: String,
    pub delta_y: String,
}

/// A key event as the frontend reports it.
pub struct KeyEventData {
    pub key: String,
    pub code: String,
    pub text: String,
    /// Whether the text is to be typed.
    pub apply_text: bool,
    pub modifiers: Modifiers,
    pub repeat: bool,
    pub location: u32,
}

/// Why a script runs. It decides what the command is answered with.
pub enum ScriptPurpose {
    /// A frontend wants its value.
    Evaluation,
    /// A frontend wants its value and its effects.
    AutomationEvaluation,
    /// The view of the page changed.
    View,
    /// The zoom of the page changed.
    Zoom,
    /// It dispatches a mouse event at a node.
    MouseEvent { node_id: usize, event_type: String, event: MouseEventData },
    /// It dispatches a key event, which may scroll the page.
    KeyEvent { event_type: String, event: KeyEventData, scroll: Option<KeyboardScroll> },
    /// It applies a text input.
    TextInput { state: TextInputState },
    /// It carries out an accessibility action.
    AccessibilityAction,
}

/// How the root of a page scrolls once a script has run.
#[derive(Clone, Copy, Debug, PartialEq, Eq, Structural)]
pub enum PageScroll {
    Stays,
    /// By a turn of the wheel, in the pixels of the view.
    Wheel { delta_x: Float64, delta_y: Float64 },
    Key(KeyboardScroll),
}

/// What a command came to whose script has run.
pub struct Completed {
    pub result: BrowserCommandResult,
    pub scroll: PageScroll,
}

/// A flag as JSON writes it.
pub open spec fn flag_text(b: bool) -> Seq<char> {
    if b {
        "true"@
    } else {
        "false"@
    }
}

/// A flag as JSON writes it.
fn flag(b: bool) -> (r: &'static str)
    ensures
        r@ == flag_text(b),
{
    if b {
        "true"
    } else {
        "false"
    }
}

/// An integer in decimal.
fn integer(n: i16) -> (r: String)
    ensures
        r@ == crate::text::integer_text(n as int),
{
    if n < 0 {
        let magnitude: i32 = -(n as i32);
        joined("-", decimal(magnitude as u64).as_str())
    } else {
        decimal(n as u64)
    }
}

/// A number that may be missing, as JSON writes it.
pub open spec fn optional_text(n: Option<u64>) -> Seq<char> {
    match n {
        Some(n) => crate::text::decimal_text(n as nat),
        None => "null"@,
    }
}

/// A number that may be missing, as JSON writes it.
fn optional(n: Option<u64>) -> (r: String)
    ensures
        r@ == optional_text(n),
{
    match n {
        Some(n) => decimal(n),
        None => "null".to_owned(),
    }
}

/// The modifier keys as members of a JSON object.
pub open spec fn modifiers_text(modifiers: Modifiers) -> Seq<char> {
    ",\"ctrlKey\":"@ + flag_text(modifiers.ctrl_key) + ",\"shiftKey\":"@ + flag_text(
        modifiers.shift_key,
    ) + ",\"altKey\":"@ + flag_text(modifiers.alt_key) + ",\"metaKey\":"@ + flag_text(
        modifiers.meta_key,
    )
}

/// The modifier keys as members of a JSON object.
fn modifiers_members(modifiers: Modifiers) -> (r: String)
    ensures
        r@ == modifiers_text(modifiers),
{
    let mut r = joined(",\"ctrlKey\":", flag(modifiers.ctrl_key));
    r.append(",\"shiftKey\":");
    r.append(flag(modifiers.shift_key));
    r.append(",\"altKey\":");
    r.append(flag(modifiers.alt_key));
    r.append(",\"metaKey\":");
    r.append(flag(modifiers.meta_key));
    r
}

/// The script that dispatches a mouse event at a node.
pub open spec fn mouse_script(
    node_id: usize,
    event_type: Seq<char>,
    event: MouseEventData,
    numbers: MouseNumbers,
) -> Seq<char> {
    "globalThis.__vixenDispatchMouseEvent ? globalThis.__vixenDispatchMouseEvent("@
        + crate::text::decimal_text(node_id as nat) + ", "@ + crate::weburl::json_text(event_type)
        + ", {\"bubbles\":"@ + flag_text(event.bubbles) + ",\"clientX\":"@ + numbers.x@
        + ",\"clientY\":"@ + numbers.y@ + ",\"screenX\":"@ + numbers.x@ + ",\"screenY\":"@
        + numbers.y@ + ",\"button\":"@ + crate::text::integer_text(event.button as int) + ",\"buttons\":"@
        + crate::text::decimal_text(event.buttons as nat) + ",\"detail\":"@
        + crate::text::decimal_text(event.detail as nat) + ",\"relatedNodeId\":"@ + optional_text(
        match event.related_node_id {
            Some(n) => Some(n as u64),
            None => None,
        },
    ) + modifiers_text(event.modifiers) + ",\"deltaX\":"@ + numbers.delta_x@ + ",\"deltaY\":"@
        + numbers.delta_y@ + ",\"deltaZ\":0,\"deltaMode\":0}) : false"@
}

/// The script that dispatches a mouse event at a node.
pub fn mouse_event_source(
    node_id: usize,
    event_type: &str,
    event: &MouseEventData,
    numbers: &MouseNumbers,
) -> (r: Result<String, BrowserError>)
    ensures
        r is Ok,
        r->Ok_0@ == mouse_script(node_id, event_type@, *event, *numbers),
{
    let event_type = match json_string(event_type) {
        Ok(text) => text,
        Err(e) => return Err(e),
    };
    let mut r = joined(
        "globalThis.__vixenDispatchMouseEvent ? globalThis.__vixenDispatchMouseEvent(",
        decimal(node_id as u64).as_str(),
    );
    r.append(", ");
    r.append(event_type.as_str());
    r.append(", {\"bubbles\":");
    r.append(flag(event.bubbles));
    r.append(",\"clientX\":");
    r.append(numbers.x.as_str());
    r.append(",\"clientY\":");
    r.append(numbers.y.as_str());
    r.append(",\"screenX\":");
    r.append(numbers.x.as_str());
    r.append(",\"screenY\":");
    r.append(numbers.y.as_str());
    r.append(",\"button\":");
    r.append(integer(event.button).as_str());
    r.append(",\"buttons\":");
    r.append(decimal(event.buttons as u64).as_str());
    r.append(",\"detail\":");
    r.append(decimal(event.detail as u64).as_str());
    r.append(",\"relatedNodeId\":");
    let related = match event.related_node_id {
        Some(n) => Some(n as u64),
        None => None,
    };
    r.append(optional(related).as_str());
    r.append(modifiers_members(event.modifiers).as_str());
    r.append(",\"deltaX\":");
    r.append(numbers.delta_x.as_str());
    r.append(",\"deltaY\":");
    r.append(numbers.delta_y.as_str());
    r.append(",\"deltaZ\":0,\"deltaMode\":0}) : false");
    Ok(r)
}

/// The script that dispatches a key event.
pub open spec fn key_script(event_type: Seq<char>, event: KeyEventData) -> Seq<char> {
    "globalThis.__vixenDispatchKeyEvent ? globalThis.__vixenDispatchKeyEvent("@
        + crate::weburl::json_text(event_type) + ", {\"key\":"@ + crate::weburl::json_text(
        event.key@,
    ) + ",\"code\":"@ + crate::weburl::json_text(event.code@) + ",\"location\":"@
        + crate::text::decimal_text(event.location as nat) + modifiers_text(event.modifiers)
        + ",\"repeat\":"@ + flag_text(event.repeat) + ",\"isComposing\":false,\"text\":"@
        + crate::weburl::json_text(event.text@) + ",\"inputText\":"@ + crate::weburl::json_text(
        event.text@,
    ) + ",\"applyText\":"@ + flag_text(event.apply_text) + "}) : false"@
}

/// The script that dispatches a key event.
pub fn key_event_source(event_type: &str, event: &KeyEventData) -> (r: Result<String, BrowserError>)
    ensures
        r is Ok,
        r->Ok_0@ == key_script(event_type@, *event),
{
    let event_type = match json_string(event_type) {
        Ok(text) => text,
        Err(e) => return Err(e),
    };
    let key = match json_string(event.key.as_str()) {
        Ok(text) => text,
        Err(e) => return Err(e),
    };
    let code = match json_string(event.code.as_str()) {
        Ok(text) => text,
        Err(e) => return Err(e),
    };
    let text = match json_string(event.text.as_str()) {
        Ok(text) => text,
        Err(e) => return Err(e),
    };
    let mut r = joined(
        "globalThis.__vixenDispatchKeyEvent ? globalThis.__vixenDispatchKeyEvent(",
        event_type.as_str(),
    );
    r.append(", {\"key\":");
    r.append(key.as_str());
    r.append(",\"code\":");
    r.append(code.as_str());
    r.append(",\"location\":");
    r.append(decimal(event.location as u64).as_str());
    r.append(modifiers_members(event.modifiers).as_str());
    r.append(",\"repeat\":");
    r.append(flag(event.repeat));
    r.append(",\"isComposing\":false,\"text\":");
    r.append(text.as_str());
    r.append(",\"inputText\":");
    r.append(text.as_str());
    r.append(",\"applyText\":");
    r.append(flag(event.apply_text));
    r.append("}) : false");
    Ok(r)
}

/// The script that applies a text input.
pub open spec fn text_script(state: TextInputState) -> Seq<char> {
    let (base, extent) = match state.composing {
        Some(range) => (Some(range.base_offset as u64), Some(range.extent_offset as u64)),
        None => (None, None),
    };
    "globalThis.__vixenApplyTextInputState ? globalThis.__vixenApplyTextInputState({\"text\":"@
        + crate::weburl::json_text(state.text@) + ",\"selectionBase\":"@
        + crate::text::decimal_text(state.selection.base_offset as nat) + ",\"selectionExtent\":"@
        + crate::text::decimal_text(state.selection.extent_offset as nat)
        + ",\"composingBase\":"@ + optional_text(base) + ",\"composingExtent\":"@ + optional_text(
        extent,
    ) + "}) : false"@
}

/// The script that applies a text input.
pub fn text_input_source(state: &TextInputState) -> (r: Result<String, BrowserError>)
    ensures
        r is Ok,
        r->Ok_0@ == text_script(*state),
{
    let text = match json_string(state.text.as_str()) {
        Ok(text) => text,
        Err(e) => return Err(e),
    };
    let (base, extent) = match &state.composing {
        Some(range) => (Some(range.base_offset as u64), Some(range.extent_offset as u64)),
        None => (None, None),
    };
    let mut r = joined(
        "globalThis.__vixenApplyTextInputState ? globalThis.__vixenApplyTextInputState({\"text\":",
        text.as_str(),
    );
    r.append(",\"selectionBase\":");
    r.append(decimal(state.selection.base_offset as u64).as_str());
    r.append(",\"selectionExtent\":");
    r.append(decimal(state.selection.extent_offset as u64).as_str());
    r.append(",\"composingBase\":");
    r.append(optional(base).as_str());
    r.append(",\"composingExtent\":");
    r.append(optional(extent).as_str());
    r.append("}) : false");
    Ok(r)
}

/// The node that a mouse event is for: a wheel event that names no node goes to
/// the page's default target.
pub open spec fn mouse_target(
    event_type: Seq<char>,
    node_id: usize,
    default_target: Option<usize>,
) -> Option<usize> {
    let node: usize = if event_type == "wheel"@ && node_id == 0 {
        match default_target {
            Some(node) => node,
            None => 0,
        }
    } else {
        node_id
    };
    if node == 0 {
        None
    } else {
        Some(node)
    }
}

/// How a key event would scroll the page.
pub open spec fn key_scroll(
    event_type: Seq<char>,
    event: KeyEventData,
    focus_consumes_scroll_keys: bool,
) -> Option<KeyboardScroll> {
    if crate::browser::limits::key_may_scroll(
        event_type,
        event.modifiers,
        focus_consumes_scroll_keys,
    ) {
        crate::browser::limits::scroll_of_key(event.key@, event.modifiers.shift_key)
    } else {
        None
    }
}

/// Whether a wheel event scrolls the page: no zoom key is held, and the script
/// did not prevent it.
pub fn wheel_scrolls(event_type: &str, ctrl_key: bool, meta_key: bool, value: &ScriptValue) -> (r:
    bool)
    ensures
        r == (event_type@ == "wheel"@ && !ctrl_key && !meta_key && *value == ScriptValue::Bool(
            true,
        )),
{
    same_text(event_type, "wheel") && !ctrl_key && !meta_key && value.is_true()
}

/// How a key event scrolls the page once its scripts have run: not at all where
/// one of them prevented it.
pub fn key_scrolls(scroll: Option<KeyboardScroll>, value: &ScriptValue) -> (r: Option<
    KeyboardScroll,
>)
    ensures
        r == if *value == ScriptValue::Bool(true) {
            scroll
        } else {
            None
        },
{
    if value.is_true() {
        scroll
    } else {
        None
    }
}

/// Refuses a text input that no control took.
pub fn text_input_taken(value: &ScriptValue) -> (r: Result<(), BrowserError>)
    ensures
        ErrorView::outcome(r) == ErrorView::admits(
            *value == ScriptValue::Bool(true),
            "text input requires a focused writable native text control"@,
        ),
{
    if value.is_true() {
        Ok(())
    } else {
        Err(BrowserError::invalid("text input requires a focused writable native text control"))
    }
}

impl ScriptPurpose {
    /// How the page scrolls once the script has come to a value.
    pub open spec fn scroll(self, value: ScriptValue) -> PageScroll {
        match self {
            ScriptPurpose::MouseEvent { event_type, event, .. } => if event_type@ == "wheel"@
                && !event.modifiers.ctrl_key && !event.modifiers.meta_key && value
                == ScriptValue::Bool(true) {
                PageScroll::Wheel {
                    delta_x: event.position.delta_x,
                    delta_y: event.position.delta_y,
                }
            } else {
                PageScroll::Stays
            },
            ScriptPurpose::KeyEvent { scroll: Some(scroll), .. } => if value == ScriptValue::Bool(
                true,
            ) {
                PageScroll::Key(scroll)
            } else {
                PageScroll::Stays
            },
            _ => PageScroll::Stays,
        }
    }

    /// What the command is answered with once the script has come to a value
    /// and its actions have been carried out.
    pub open spec fn answers(
        self,
        browser: CoreView,
        context_id: BrowsingContextId,
        evaluation: Evaluation,
        outcomes: Seq<OutcomeView>,
        r: Result<Completed, BrowserError>,
    ) -> bool {
        match self {
            ScriptPurpose::TextInput { .. } if evaluation.value != ScriptValue::Bool(true) => {
                &&& r is Err
                &&& r->Err_0@ == ErrorView::new(
                    ErrorCode::InvalidArgument,
                    "text input requires a focused writable native text control"@,
                )
            },
            _ => {
                &&& r is Ok
                &&& r->Ok_0.scroll == self.scroll(evaluation.value)
                &&& match self {
                    ScriptPurpose::Evaluation => r->Ok_0.result
                        matches BrowserCommandResult::Evaluation { value, navigation_actions }
                        && value == evaluation.value && OutcomeView::all(navigation_actions@)
                        == outcomes,
                    ScriptPurpose::AutomationEvaluation => r->Ok_0.result
                        matches BrowserCommandResult::AutomationEvaluation(a) && a.value
                        == evaluation.value && a.effects == evaluation.effects && OutcomeView::all(
                        a.navigation_actions@,
                    ) == outcomes,
                    ScriptPurpose::Zoom => r->Ok_0.result
                        matches BrowserCommandResult::BrowsingContextState(state) && state@
                        == browser.context(context_id).state(context_id),
                    _ => r->Ok_0.result matches BrowserCommandResult::InputDispatched(result)
                        && result.effects == evaluation.effects && OutcomeView::all(
                        result.navigation_actions@,
                    ) == outcomes,
                }
            },
        }
    }
}

impl CoreView {
    /// What stands against a mouse event before its node is known.
    pub open spec fn mouse_fault(
        self,
        context_id: BrowsingContextId,
        document_id: DocumentId,
        position: MousePosition,
    ) -> Option<ErrorView> {
        match self.input_fault(context_id) {
            Some(e) => Some(e),
            None => if !(position.x.is_finite() && position.y.is_finite()
                && position.delta_x.is_finite() && position.delta_y.is_finite()) {
                Some(
                    ErrorView::new(
                        ErrorCode::InvalidArgument,
                        "mouse event coordinates and deltas must be finite"@,
                    ),
                )
            } else {
                self.document_fault(context_id, document_id)
            },
        }
    }

    /// What stands against a key event before its script is put together.
    pub open spec fn key_fault(
        self,
        context_id: BrowsingContextId,
        document_id: DocumentId,
    ) -> Option<ErrorView> {
        match self.input_fault(context_id) {
            Some(e) => Some(e),
            None => self.document_fault(context_id, document_id),
        }
    }

    /// What stands against a text input before its script is put together.
    pub open spec fn text_fault(
        self,
        context_id: BrowsingContextId,
        state: TextInputState,
    ) -> Option<ErrorView> {
        match self.input_fault(context_id) {
            Some(e) => Some(e),
            None => match crate::browser::limits::text_input_fault(
                state.text@,
                state.selection,
                state.composing,
            ) {
                Some(message) => Some(ErrorView::new(ErrorCode::InvalidArgument, message)),
                None => None,
            },
        }
    }
}

impl BrowserCore {
    /// Checks a mouse event and puts the script together that dispatches it. An
    /// event that is for no node does nothing.
    pub fn dispatch_mouse_event(
        &self,
        context_id: BrowsingContextId,
        document_id: DocumentId,
        runtime_context_id: RuntimeContextId,
        node_id: usize,
        event_type: String,
        event: MouseEventData,
        numbers: MouseNumbers,
        default_target: Option<usize>,
    ) -> (r: Result<CommandOutcome, BrowserError>)
        ensures
            self@.carries_out(
                BrowserCommand::DispatchMouseEvent {
                    context_id,
                    document_id,
                    runtime_context_id,
                    node_id,
                    event_type,
                    event,
                    numbers,
                    default_target,
                },
                self@,
                r,
            ),
    {
        match self.ensure_host_accepts_input(context_id) {
            Ok(()) => {},
            Err(e) => return Err(e),
        }
        if !event.position.x.finite() || !event.position.y.finite()
            || !event.position.delta_x.finite() || !event.position.delta_y.finite() {
            return Err(BrowserError::invalid("mouse event coordinates and deltas must be finite"));
        }
        match self.context_for_document(context_id, document_id) {
            Err(e) => return Err(e),
            Ok(_) => {},
        }
        let node_id: usize = if node_id == 0 && same_text(event_type.as_str(), "wheel") {
            match default_target {
                Some(node) => node,
                None => 0,
            }
        } else {
            node_id
        };
        if node_id == 0 {
            let result = InputDispatchResult {
                effects: RuntimeEffects::none(),
                navigation_actions: Vec::new(),
            };
            return Ok(CommandOutcome::Done(BrowserCommandResult::InputDispatched(result)));
        }
        let source = match mouse_event_source(node_id, event_type.as_str(), &event, &numbers) {
            Ok(source) => source,
            Err(e) => return Err(e),
        };
        let purpose = ScriptPurpose::MouseEvent { node_id, event_type, event };
        self.hand_over_script(context_id, document_id, runtime_context_id, source, purpose)
    }

    /// Checks a key event, puts the script together that dispatches it, and
    /// says how it scrolls the page unless a script prevents it.
    pub fn dispatch_key_event(
        &self,
        context_id: BrowsingContextId,
        document_id: DocumentId,
        runtime_context_id: RuntimeContextId,
        event_type: String,
        event: KeyEventData,
        focus_consumes_scroll_keys: bool,
    ) -> (r: Result<CommandOutcome, BrowserError>)
        ensures
            self@.carries_out(
                BrowserCommand::DispatchKeyEvent {
                    context_id,
                    document_id,
                    runtime_context_id,
                    event_type,
                    event,
                    focus_consumes_scroll_keys,
                },
                self@,
                r,
            ),
    {
        match self.ensure_host_accepts_input(context_id) {
            Ok(()) => {},
            Err(e) => return Err(e),
        }
        match self.context_for_document(context_id, document_id) {
            Err(e) => return Err(e),
            Ok(_) => {},
        }
        let scroll = keyboard_scroll_delta(
            event_type.as_str(),
            event.key.as_str(),
            event.modifiers,
            focus_consumes_scroll_keys,
        );
        let source = match key_event_source(event_type.as_str(), &event) {
            Ok(source) => source,
            Err(e) => return Err(e),
        };
        let purpose = ScriptPurpose::KeyEvent { event_type, event, scroll };
        self.hand_over_script(context_id, document_id, runtime_context_id, source, purpose)
    }

    /// Checks a text input and puts the script together that applies it.
    pub fn dispatch_text_input(
        &self,
        context_id: BrowsingContextId,
        document_id: DocumentId,
        runtime_context_id: RuntimeContextId,
        state: TextInputState,
    ) -> (r: Result<CommandOutcome, BrowserError>)
        ensures
            self@.carries_out(
                BrowserCommand::DispatchTextInput {
                    context_id,
                    document_id,
                    runtime_context_id,
                    state,
                },
                self@,
                r,
            ),
    {
        match self.ensure_host_accepts_input(context_id) {
            Ok(()) => {},
            Err(e) => return Err(e),
        }
        match validate_text_input_state(&state) {
            Ok(()) => {},
            Err(e) => return Err(e),
        }
        let source = match text_input_source(&state) {
            Ok(source) => source,
            Err(e) => return Err(e),
        };
        let purpose = ScriptPurpose::TextInput { state };
        self.hand_over_script(context_id, document_id, runtime_context_id, source, purpose)
    }

    /// Takes what a script came to that the host ran for a command, and says
    /// what the command is answered with and whether the page scrolls.
    pub fn complete_script(
        &mut self,
        context_id: BrowsingContextId,
        purpose: ScriptPurpose,
        outcome: Result<Evaluation, BrowserError>,
    ) -> (r: Result<Completed, BrowserError>)
        requires
            old(self).wf(),
            outcome matches Ok(evaluation) ==> crate::browser::commands::forms_fit(
                evaluation.actions@,
            ),
        ensures
            final(self).wf(),
            match outcome {
                Err(e) => r is Err && r->Err_0 == e && final(self)@ == old(self)@,
                Ok(evaluation) => if !old(self)@.has(context_id) {
                    &&& r is Err
                    &&& r->Err_0@ == old(self)@.missing_context(context_id)
                    &&& final(self)@ == old(self)@
                } else {
                    let carried = old(self)@.scripted(context_id, evaluation.actions@);
                    &&& final(self)@ == carried.browser
                    &&& match carried.error {
                        Some(e) => r is Err && r->Err_0@ == e,
                        None => purpose.answers(
                            carried.browser,
                            context_id,
                            evaluation,
                            carried.outcomes,
                            r,
                        ),
                    }
                },
            },
    {
        broadcast use crate::browser::order::group_order;

        let AutomationEvaluation { value, effects, navigation_actions } =
            match self.automation_evaluation(context_id, outcome) {
            Ok(evaluation) => evaluation,
            Err(e) => return Err(e),
        };
        let mut scroll = PageScroll::Stays;
        let result = match &purpose {
            ScriptPurpose::Evaluation => {
                BrowserCommandResult::Evaluation { value, navigation_actions }
            },
            ScriptPurpose::AutomationEvaluation => BrowserCommandResult::AutomationEvaluation(
                AutomationEvaluation { value, effects, navigation_actions },
            ),
            ScriptPurpose::Zoom => match self.context_state(context_id) {
                Ok(state) => BrowserCommandResult::BrowsingContextState(state),
                Err(e) => return Err(e),
            },
            ScriptPurpose::MouseEvent { event_type, event, .. } => {
                if wheel_scrolls(
                    event_type.as_str(),
                    event.modifiers.ctrl_key,
                    event.modifiers.meta_key,
                    &value,
                ) {
                    scroll = PageScroll::Wheel {
                        delta_x: event.position.delta_x,
                        delta_y: event.position.delta_y,
                    };
                }
                BrowserCommandResult::InputDispatched(
                    InputDispatchResult { effects, navigation_actions },
                )
            },
            ScriptPurpose::KeyEvent { scroll: key, .. } => {
                if let Some(key) = key_scrolls(*key, &value) {
                    scroll = PageScroll::Key(key);
                }
                BrowserCommandResult::InputDispatched(
                    InputDispatchResult { effects, navigation_actions },
                )
            },
            ScriptPurpose::TextInput { .. } => {
                match text_input_taken(&value) {
                    Ok(()) => {},
                    Err(e) => return Err(e),
                }
                BrowserCommandResult::InputDispatched(
                    InputDispatchResult { effects, navigation_actions },
                )
            },
            ScriptPurpose::View | ScriptPurpose::AccessibilityAction => {
                BrowserCommandResult::InputDispatched(
                    InputDispatchResult { effects, navigation_actions },
                )
            },
        };
        Ok(Completed { result, scroll })
    }
}

} // verus!
