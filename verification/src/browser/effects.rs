//! What scripts and forms hand over, as frontends see it.

use vstd::prelude::*;

use crate::browser::error::{joined, BrowserError, ErrorCode};
use crate::browser::events::{
    RuntimeBindingEvent, RuntimeConsoleArg, RuntimeConsoleEvent, RuntimeConsoleValue,
    RuntimeDialogEvent, RuntimeEffects, RuntimeNetworkEvent,
};
use crate::browser::limits::Float64;
use crate::text::decimal;
use crate::weburl::json_encode;

verus! {

/// A value that a script came to.
pub enum JsValue {
    Int32(i32),
    Number(Float64),
    Text(String),
    Bool(bool),
    Null,
    Undefined,
    Object,
}

/// A value that a script came to, as a frontend sees it.
pub enum ScriptValue {
    Int32(i32),
    Number(Float64),
    Text(String),
    Bool(bool),
    Null,
    Undefined,
    Object,
}

/// A script value as a frontend sees it.
pub open spec fn seen_value(value: JsValue) -> ScriptValue {
    match value {
        JsValue::Int32(v) => ScriptValue::Int32(v),
        JsValue::Number(v) => ScriptValue::Number(v),
        JsValue::Text(v) => ScriptValue::Text(v),
        JsValue::Bool(v) => ScriptValue::Bool(v),
        JsValue::Null => ScriptValue::Null,
        JsValue::Undefined => ScriptValue::Undefined,
        JsValue::Object => ScriptValue::Object,
    }
}

/// A script value as a frontend sees it.
pub fn script_value(value: JsValue) -> (r: ScriptValue)
    ensures
        r == seen_value(value),
{
    match value {
        JsValue::Int32(v) => ScriptValue::Int32(v),
        JsValue::Number(v) => ScriptValue::Number(v),
        JsValue::Text(v) => ScriptValue::Text(v),
        JsValue::Bool(v) => ScriptValue::Bool(v),
        JsValue::Null => ScriptValue::Null,
        JsValue::Undefined => ScriptValue::Undefined,
        JsValue::Object => ScriptValue::Object,
    }
}

impl ScriptValue {
    /// Whether the value is the boolean `true`.
    pub fn is_true(&self) -> (r: bool)
        ensures
            r == (*self == ScriptValue::Bool(true)),
    {
        match self {
            ScriptValue::Bool(b) => *b,
            _ => false,
        }
    }
}

/// The value of an argument to a console call, as a runtime hands it over.
pub enum JsConsoleValue {
    Text(String),
    Number(Float64),
    Bool(bool),
    Null,
}

/// An argument to a console call, as a runtime hands it over.
pub struct JsConsoleArg {
    pub type_label: String,
    pub subtype: Option<String>,
    pub value: Option<JsConsoleValue>,
    pub unserializable_value: Option<String>,
    pub description: Option<String>,
}

/// A console call, as a runtime hands it over.
pub struct JsConsoleEvent {
    pub kind: String,
    pub args: Vec<JsConsoleArg>,
}

/// A dialog, as a runtime hands it over.
pub struct JsDialogEvent {
    pub kind: String,
    pub message: String,
    pub default_prompt: Option<String>,
}

/// A call of a host binding, as a runtime hands it over.
pub struct JsBindingEvent {
    pub name: String,
    pub payload: String,
}

/// A network event, as a runtime hands it over.
pub enum JsNetworkEvent {
    Request { request_id: String, url: String, method: String },
    Redirect { request_id: String, from: String, to: String, status: u16 },
    Response { request_id: String, url: String, status: u16 },
    Failure {
        request_id: String,
        url: String,
        error_text: String,
        blocked_reason: Option<String>,
    },
}

/// A console argument as a frontend sees it.
pub open spec fn seen_arg(arg: JsConsoleArg) -> RuntimeConsoleArg {
    RuntimeConsoleArg {
        type_label: arg.type_label,
        subtype: arg.subtype,
        value: match arg.value {
            Some(JsConsoleValue::Text(v)) => Some(RuntimeConsoleValue::Text(v)),
            Some(JsConsoleValue::Number(v)) => Some(RuntimeConsoleValue::Number(v)),
            Some(JsConsoleValue::Bool(v)) => Some(RuntimeConsoleValue::Bool(v)),
            Some(JsConsoleValue::Null) => Some(RuntimeConsoleValue::Null),
            None => None,
        },
        unserializable_value: arg.unserializable_value,
        description: arg.description,
    }
}

/// A console call is seen with its kind and all its arguments, in order.
pub open spec fn same_console(event: JsConsoleEvent, seen: RuntimeConsoleEvent) -> bool {
    &&& seen.kind == event.kind
    &&& seen.args@ == Seq::new(event.args@.len(), |i: int| seen_arg(event.args@[i]))
}

/// A network event as a frontend sees it.
pub open spec fn seen_network(event: JsNetworkEvent) -> RuntimeNetworkEvent {
    match event {
        JsNetworkEvent::Request { request_id, url, method } => RuntimeNetworkEvent::Request {
            request_id,
            url,
            method,
        },
        JsNetworkEvent::Redirect { request_id, from, to, status } =>
        RuntimeNetworkEvent::Redirect { request_id, from, to, status },
        JsNetworkEvent::Response { request_id, url, status } => RuntimeNetworkEvent::Response {
            request_id,
            url,
            status,
        },
        JsNetworkEvent::Failure { request_id, url, error_text, blocked_reason } =>
        RuntimeNetworkEvent::Failure { request_id, url, error_text, blocked_reason },
    }
}

/// A console argument as a frontend sees it.
fn show_arg(arg: JsConsoleArg) -> (r: RuntimeConsoleArg)
    ensures
        r == seen_arg(arg),
{
    RuntimeConsoleArg {
        type_label: arg.type_label,
        subtype: arg.subtype,
        value: match arg.value {
            Some(JsConsoleValue::Text(v)) => Some(RuntimeConsoleValue::Text(v)),
            Some(JsConsoleValue::Number(v)) => Some(RuntimeConsoleValue::Number(v)),
            Some(JsConsoleValue::Bool(v)) => Some(RuntimeConsoleValue::Bool(v)),
            Some(JsConsoleValue::Null) => Some(RuntimeConsoleValue::Null),
            None => None,
        },
        unserializable_value: arg.unserializable_value,
        description: arg.description,
    }
}

/// A console call as a frontend sees it.
fn show_console(event: JsConsoleEvent) -> (r: RuntimeConsoleEvent)
    ensures
        same_console(event, r),
{
    let ghost all = event.args@;
    let mut args: Vec<RuntimeConsoleArg> = Vec::new();
    for arg in it: event.args
        invariant
            it.seq() == all,
            args@ == Seq::new(it.index() as nat, |i: int| seen_arg(all[i])),
    {
        args.push(show_arg(arg));
        assert(args@ =~= Seq::new((it.index() + 1) as nat, |i: int| seen_arg(all[i])));
    }
    RuntimeConsoleEvent { kind: event.kind, args }
}

/// A network event as a frontend sees it.
fn show_network(event: JsNetworkEvent) -> (r: RuntimeNetworkEvent)
    ensures
        r == seen_network(event),
{
    match event {
        JsNetworkEvent::Request { request_id, url, method } => RuntimeNetworkEvent::Request {
            request_id,
            url,
            method,
        },
        JsNetworkEvent::Redirect { request_id, from, to, status } =>
        RuntimeNetworkEvent::Redirect { request_id, from, to, status },
        JsNetworkEvent::Response { request_id, url, status } => RuntimeNetworkEvent::Response {
            request_id,
            url,
            status,
        },
        JsNetworkEvent::Failure { request_id, url, error_text, blocked_reason } =>
        RuntimeNetworkEvent::Failure { request_id, url, error_text, blocked_reason },
    }
}

/// What a runtime handed over, as frontends see it: every event of every kind,
/// in order, and no failed script.
pub fn drain_runtime_effects(
    console: Vec<JsConsoleEvent>,
    dialogs: Vec<JsDialogEvent>,
    bindings: Vec<JsBindingEvent>,
    network: Vec<JsNetworkEvent>,
) -> (r: RuntimeEffects)
    ensures
        r.console@.len() == console@.len(),
        forall|i: int|
            0 <= i < console@.len() ==> same_console(#[trigger] console@[i], r.console@[i]),
        r.dialogs@ == Seq::new(
            dialogs@.len(),
            |i: int|
                RuntimeDialogEvent {
                    kind: dialogs@[i].kind,
                    message: dialogs@[i].message,
                    default_prompt: dialogs@[i].default_prompt,
                },
        ),
        r.bindings@ == Seq::new(
            bindings@.len(),
            |i: int|
                RuntimeBindingEvent { name: bindings@[i].name, payload: bindings@[i].payload },
        ),
        r.network@ == Seq::new(network@.len(), |i: int| seen_network(network@[i])),
        r.exceptions@.len() == 0,
{
    let ghost all_console = console@;
    let ghost all_dialogs = dialogs@;
    let ghost all_bindings = bindings@;
    let ghost all_network = network@;
    let mut r = RuntimeEffects {
        console: Vec::new(),
        dialogs: Vec::new(),
        bindings: Vec::new(),
        network: Vec::new(),
        exceptions: Vec::new(),
    };
    let mut seen_console: Vec<RuntimeConsoleEvent> = Vec::new();
    for event in it: console
        invariant
            it.seq() == all_console,
            seen_console@.len() == it.index(),
            forall|i: int|
                0 <= i < it.index() ==> same_console(#[trigger] all_console[i], seen_console@[i]),
    {
        seen_console.push(show_console(event));
    }
    let mut seen_dialogs: Vec<RuntimeDialogEvent> = Vec::new();
    for event in it: dialogs
        invariant
            it.seq() == all_dialogs,
            seen_dialogs@ == Seq::new(
                it.index() as nat,
                |i: int|
                    RuntimeDialogEvent {
                        kind: all_dialogs[i].kind,
                        message: all_dialogs[i].message,
                        default_prompt: all_dialogs[i].default_prompt,
                    },
            ),
    {
        seen_dialogs.push(
            RuntimeDialogEvent {
                kind: event.kind,
                message: event.message,
                default_prompt: event.default_prompt,
            },
        );
        assert(seen_dialogs@ =~= Seq::new(
            (it.index() + 1) as nat,
            |i: int|
                RuntimeDialogEvent {
                    kind: all_dialogs[i].kind,
                    message: all_dialogs[i].message,
                    default_prompt: all_dialogs[i].default_prompt,
                },
        ));
    }
    let mut seen_bindings: Vec<RuntimeBindingEvent> = Vec::new();
    for event in it: bindings
        invariant
            it.seq() == all_bindings,
            seen_bindings@ == Seq::new(
                it.index() as nat,
                |i: int|
                    RuntimeBindingEvent {
                        name: all_bindings[i].name,
                        payload: all_bindings[i].payload,
                    },
            ),
    {
        seen_bindings.push(RuntimeBindingEvent { name: event.name, payload: event.payload });
        assert(seen_bindings@ =~= Seq::new(
            (it.index() + 1) as nat,
            |i: int|
                RuntimeBindingEvent {
                    name: all_bindings[i].name,
                    payload: all_bindings[i].payload,
                },
        ));
    }
    let mut heard: Vec<RuntimeNetworkEvent> = Vec::new();
    for event in it: network
        invariant
            it.seq() == all_network,
            heard@ == Seq::new(it.index() as nat, |i: int| seen_network(all_network[i])),
    {
        heard.push(show_network(event));
        assert(heard@ =~= Seq::new(
            (it.index() + 1) as nat,
            |i: int| seen_network(all_network[i]),
        ));
    }
    r.console = seen_console;
    r.dialogs = seen_dialogs;
    r.bindings = seen_bindings;
    r.network = heard;
    r
}

/// The value of a form entry.
pub enum FormEntryValue {
    Text(String),
    File { filename: String, content_type: String, body: Vec<u8> },
}

/// An entry of a form.
pub struct FormEntry {
    pub name: String,
    pub value: FormEntryValue,
}

/// What a form would submit, as the page hands it over. `F` tells which form
/// it is.
pub struct FormSubmissionSnapshot<F> {
    pub form: F,
    pub action: String,
    pub method: String,
    pub enctype: String,
    pub content_type: String,
    pub entries: Vec<FormEntry>,
    pub body: Vec<u8>,
}

/// The value of a form entry, as a frontend sees it.
pub enum FormEntryValueInfo {
    Text(String),
    File { filename: String, content_type: String, body: Vec<u8> },
}

/// An entry of a form, as a frontend sees it.
pub struct FormEntryInfo {
    pub name: String,
    pub value: FormEntryValueInfo,
}

/// What a form would submit, as a frontend sees it.
pub struct FormSubmissionInfo<F> {
    pub form: F,
    pub action: String,
    pub method: String,
    pub enctype: String,
    pub content_type: String,
    pub entries: Vec<FormEntryInfo>,
    pub body: Vec<u8>,
}

/// A form entry as a frontend sees it.
pub open spec fn seen_entry(entry: FormEntry) -> FormEntryInfo {
    FormEntryInfo {
        name: entry.name,
        value: match entry.value {
            FormEntryValue::Text(v) => FormEntryValueInfo::Text(v),
            FormEntryValue::File { filename, content_type, body } => FormEntryValueInfo::File {
                filename,
                content_type,
                body,
            },
        },
    }
}

/// What a form would submit, as a frontend sees it: every entry, in order.
pub fn form_submission_info<F>(snapshot: FormSubmissionSnapshot<F>) -> (r: FormSubmissionInfo<F>)
    ensures
        r.form == snapshot.form,
        r.action == snapshot.action,
        r.method == snapshot.method,
        r.enctype == snapshot.enctype,
        r.content_type == snapshot.content_type,
        r.entries@ == Seq::new(
            snapshot.entries@.len(),
            |i: int| seen_entry(snapshot.entries@[i]),
        ),
        r.body == snapshot.body,
{
    let ghost all = snapshot.entries@;
    let mut entries: Vec<FormEntryInfo> = Vec::new();
    for entry in it: snapshot.entries
        invariant
            it.seq() == all,
            entries@ == Seq::new(it.index() as nat, |i: int| seen_entry(all[i])),
    {
        let value = match entry.value {
            FormEntryValue::Text(v) => FormEntryValueInfo::Text(v),
            FormEntryValue::File { filename, content_type, body } => FormEntryValueInfo::File {
                filename,
                content_type,
                body,
            },
        };
        entries.push(FormEntryInfo { name: entry.name, value });
        assert(entries@ =~= Seq::new((it.index() + 1) as nat, |i: int| seen_entry(all[i])));
    }
    FormSubmissionInfo {
        form: snapshot.form,
        action: snapshot.action,
        method: snapshot.method,
        enctype: snapshot.enctype,
        content_type: snapshot.content_type,
        entries,
        body: snapshot.body,
    }
}

/// `value` as a JSON string.
pub fn json_string(value: &str) -> (r: Result<String, BrowserError>)
    ensures
        r is Ok,
        r->Ok_0@ == crate::weburl::json_text(value@),
{
    match json_encode(value) {
        Ok(text) => Ok(text),
        Err(error) => Err(
            BrowserError::with_message(
                ErrorCode::InvalidArgument,
                joined("failed to encode script input: ", error.as_str()),
            ),
        ),
    }
}

/// The script that carries out an accessibility action on a node.
pub open spec fn action_script(node_id: usize, action: Seq<char>, value: Seq<char>) -> Seq<char> {
    "globalThis.__vixenDispatchAccessibilityAction ? globalThis.__vixenDispatchAccessibilityAction("@
        + crate::text::decimal_text(node_id as nat) + ", "@ + action + ", "@ + value
        + ") : false"@
}

/// The script that carries out an accessibility action: the action by its
/// name, and the value to set, if there is one.
pub fn accessibility_script(node_id: usize, action: &str, value: Option<&str>) -> (r: Result<
    String,
    BrowserError,
>)
    ensures
        r is Ok,
        r->Ok_0@ == action_script(
            node_id,
            crate::weburl::json_text(action@),
            match value {
                Some(v) => crate::weburl::json_text(v@),
                None => "null"@,
            },
        ),
{
    let value = match value {
        Some(v) => match json_string(v) {
            Ok(text) => text,
            Err(e) => return Err(e),
        },
        None => "null".to_owned(),
    };
    let action = match json_string(action) {
        Ok(text) => text,
        Err(e) => return Err(e),
    };
    let mut r = joined(
        "globalThis.__vixenDispatchAccessibilityAction ? globalThis.__vixenDispatchAccessibilityAction(",
        decimal(node_id as u64).as_str(),
    );
    r.append(", ");
    r.append(action.as_str());
    r.append(", ");
    r.append(value.as_str());
    r.append(") : false");
    Ok(r)
}

} // verus!
