//! What holds of a navigation on its way, and of what is told of it.

use vstd::prelude::*;

use crate::browser::actions::{NavigationAction, UpdateView};
use crate::browser::effects::{
    FormEntry, FormEntryValue, FormEntryValueInfo, JsConsoleArg, JsConsoleValue, JsNetworkEvent,
    JsValue, ScriptValue,
};
use crate::browser::error::ErrorCode;
use crate::browser::events::{
    CrossDocumentNavigationKind, EventView, NavigationCancellationReason, NavigationPhase,
    NetworkView, RuntimeConsoleValue, RuntimeNetworkEvent,
};
use crate::browser::ids::{BrowsingContextId, DocumentId, NavigationId, RuntimeContextId};
use crate::browser::navigation::TerminalView;
use crate::browser::registry::{CoreView, HostRequest, LifecycleStage, WorkView};

verus! {

/// A context that is not there was closed or never was, and the error says which. A
/// document or a runtime that is not the one of its context is stale; the context is
/// looked at first, the runtime last.
pub proof fn faults_say_what_is_wrong(
    v: CoreView,
    context_id: BrowsingContextId,
    document_id: DocumentId,
    runtime_context_id: RuntimeContextId,
)
    ensures
        ({
            let missing = v.missing_context(context_id);
            let fault = v.runtime_fault(context_id, document_id, runtime_context_id);
            let context = v.context(context_id);
            &&& v.closed_contexts.contains(context_id.raw) ==> missing.code
                == ErrorCode::StaleContext
            &&& !v.closed_contexts.contains(context_id.raw) ==> missing.code
                == ErrorCode::UnknownContext
            &&& v.document_fault(context_id, document_id) is None <==> v.has(context_id)
                && context.document_id == document_id
            &&& fault is None <==> v.has(context_id) && context.document_id == document_id
                && context.runtime_context_id == runtime_context_id
            &&& !v.has(context_id) ==> fault == Some(missing)
            &&& v.has(context_id) && context.document_id != document_id ==> fault is Some
                && fault->Some_0.code == ErrorCode::StaleDocument
            &&& v.has(context_id) && context.document_id == document_id
                && context.runtime_context_id != runtime_context_id ==> fault is Some
                && fault->Some_0.code == ErrorCode::StaleRuntime
        }),
{
}

/// The work of navigations is done in the order in which it came. Taking the next
/// piece tells nobody anything and touches no other context.
pub proof fn work_is_done_in_turn(
    v: CoreView,
    context_id: BrowsingContextId,
    n: NavigationId,
    rest: Seq<(BrowsingContextId, NavigationId)>,
)
    requires
        v.pending_navigation_work == seq![(context_id, n)] + rest,
    ensures
        ({
            let after = v.work_taken();
            &&& after.pending_navigation_work == rest
            &&& after.events == v.events
            &&& after.requests == v.requests
            &&& v.is_current(context_id, n) ==> {
                &&& after.is_current(context_id, n)
                &&& after.context(context_id).active_navigation->Some_0.work is None
                &&& after.context(context_id).history == v.context(context_id).history
                &&& after.context(context_id).document_id == v.context(context_id).document_id
            }
            &&& !v.is_current(context_id, n) ==> after.contexts == v.contexts
            &&& forall|k: u64|
                k != context_id.raw && #[trigger] v.contexts.contains_key(k)
                    ==> after.contexts.contains_key(k) && after.contexts[k] == v.contexts[k]
        }),
{
    assert(v.pending_navigation_work.drop_first() =~= rest);
}

/// Work that is put back goes to the end of the line, and only where its navigation
/// is under way and has no other work.
pub proof fn work_goes_to_the_end_of_the_line(
    v: CoreView,
    context_id: BrowsingContextId,
    n: NavigationId,
    work: WorkView,
)
    ensures
        ({
            let after = v.restored(context_id, n, work);
            let due = v.is_current(context_id, n) && v.context(
                context_id,
            ).active_navigation->Some_0.work is None;
            &&& !due ==> after == v
            &&& due ==> {
                &&& after.is_current(context_id, n)
                &&& after.context(context_id).active_navigation->Some_0.work == Some(work)
                &&& after.pending_navigation_work == v.pending_navigation_work.push(
                    (context_id, n),
                )
            }
            &&& after.events == v.events
        }),
{
}

/// A document that arrived is parsed next. Nothing of the page in place changes, and
/// the load is over.
pub proof fn documents_are_parsed_when_they_arrive(
    v: CoreView,
    context_id: BrowsingContextId,
    n: NavigationId,
)
    requires
        v.is_current(context_id, n),
    ensures
        ({
            let after = v.load_ended(context_id, n, Ok(()));
            let active = after.context(context_id).active_navigation->Some_0;
            let frame_id = v.context(context_id).frame_id;
            &&& after.is_current(context_id, n)
            &&& active.work == Some(WorkView::Parsing)
            &&& !active.loading
            &&& active.request_id == v.context(context_id).active_navigation->Some_0.request_id
            &&& active.history_update == v.context(
                context_id,
            ).active_navigation->Some_0.history_update
            &&& after.pending_navigation_work == v.pending_navigation_work.push((context_id, n))
            &&& crate::browser::journeys::stays_put(v, after, context_id)
            &&& after.events == v.events.push(
                EventView::phase(context_id, frame_id, n, NavigationPhase::Response),
            ).push(EventView::phase(context_id, frame_id, n, NavigationPhase::Commit)).push(
                EventView::phase(context_id, frame_id, n, NavigationPhase::Parse),
            )
        }),
{
    let after = v.load_ended(context_id, n, Ok(()));
    let frame_id = v.context(context_id).frame_id;
    assert(after.events =~= v.events.push(
        EventView::phase(context_id, frame_id, n, NavigationPhase::Response),
    ).push(EventView::phase(context_id, frame_id, n, NavigationPhase::Commit)).push(
        EventView::phase(context_id, frame_id, n, NavigationPhase::Parse),
    ));
}

/// A page can be put in place where ids are left and fewer than 512 runtimes are
/// there.
pub proof fn pages_need_ids_and_a_runtime(v: CoreView)
    ensures
        v.commit_fault() is None <==> v.ids.next_document != 0 && v.ids.next_runtime != 0
            && v.runtime_slots.len() < 512,
        v.ids.next_document != 0 && v.ids.next_runtime != 0 && v.runtime_slots.len() >= 512 ==> (
        v.commit_fault() matches Some(e) && e.code == ErrorCode::ContextLimit),
{
}

/// The scripts of a new page are due next: those that its context is configured
/// with, and nothing has been asked for yet.
pub proof fn new_pages_run_the_configured_scripts(
    v: CoreView,
    context_id: BrowsingContextId,
    n: NavigationId,
    url: Seq<char>,
    title: Option<Seq<char>>,
)
    requires
        v.is_current(context_id, n),
        v.commit_fault() is None,
    ensures
        ({
            let plan = v.commit_plan(context_id, n, url, title);
            let after = v.commit_begun(context_id, n).commit_ended(plan, Ok(()));
            let config = v.context(context_id).config;
            &&& after.context(context_id).active_navigation->Some_0.work matches Some(
                WorkView::Scripts(work),
            )
            &&& work.preload_scripts == config.preload_scripts
            &&& work.new_document_scripts == config.new_document_scripts
            &&& work.bypass_csp == config.bypass_csp
            &&& work.actions.len() == 0
            &&& after.pending_navigation_work == v.pending_navigation_work.push((context_id, n))
        }),
{
}

/// A document is first complete, then loaded, then settled. At each stage its phase is
/// told and then the event itself, and what the scripts asked for is kept until the
/// end. A settled navigation is over.
pub proof fn documents_go_through_their_stages(
    v: CoreView,
    context_id: BrowsingContextId,
    n: NavigationId,
    actions: Seq<NavigationAction>,
)
    requires
        v.is_current(context_id, n),
        v.context(context_id).active_navigation->Some_0.work is None,
    ensures
        ({
            let page = v.context(context_id);
            let (frame_id, document_id) = (page.frame_id, page.document_id);
            let complete = v.lifecycle_advanced(
                context_id,
                n,
                LifecycleStage::DomContentLoaded,
                actions,
            );
            let loaded = v.lifecycle_advanced(context_id, n, LifecycleStage::Load, actions);
            let settled = v.lifecycle_advanced(context_id, n, LifecycleStage::Settle, actions);
            &&& complete.context(context_id).active_navigation->Some_0.work == Some(
                WorkView::Lifecycle { stage: LifecycleStage::Load, actions },
            )
            &&& complete.events == v.events.push(
                EventView::phase(context_id, frame_id, n, NavigationPhase::DomContentLoaded),
            ).push(
                EventView::DomContentLoaded {
                    context_id,
                    frame_id,
                    navigation_id: n,
                    document_id,
                },
            )
            &&& loaded.context(context_id).active_navigation->Some_0.work == Some(
                WorkView::Lifecycle { stage: LifecycleStage::Settle, actions },
            )
            &&& loaded.events == v.events.push(
                EventView::phase(context_id, frame_id, n, NavigationPhase::Load),
            ).push(
                EventView::DocumentLoadCompleted {
                    context_id,
                    frame_id,
                    navigation_id: n,
                    document_id,
                },
            )
            &&& settled.context(context_id).active_navigation is None
            &&& settled.events.len() == v.events.len() + 2
            &&& settled.events[v.events.len() as int] == EventView::phase(
                context_id,
                frame_id,
                n,
                NavigationPhase::Settled,
            )
            &&& settled.events.last() == (EventView::BrowsingContextStateChanged {
                state: settled.context(context_id).state(context_id),
            })
        }),
{
    let page = v.context(context_id);
    let (frame_id, document_id) = (page.frame_id, page.document_id);
    assert(v.lifecycle_advanced(
        context_id,
        n,
        LifecycleStage::DomContentLoaded,
        actions,
    ).events =~= v.events.push(
        EventView::phase(context_id, frame_id, n, NavigationPhase::DomContentLoaded),
    ).push(
        EventView::DomContentLoaded { context_id, frame_id, navigation_id: n, document_id },
    ));
    assert(v.lifecycle_advanced(context_id, n, LifecycleStage::Load, actions).events
        =~= v.events.push(EventView::phase(context_id, frame_id, n, NavigationPhase::Load)).push(
        EventView::DocumentLoadCompleted { context_id, frame_id, navigation_id: n, document_id },
    ));
}

/// How a navigation ended is told: that it failed, with its request and the error, or
/// that it was cancelled, with the reason. A load that still runs is called off when
/// its navigation is cancelled. The state of the context comes last, if it is told.
pub proof fn endings_are_told(
    v: CoreView,
    context_id: BrowsingContextId,
    n: NavigationId,
    terminal: TerminalView,
    emit_state: bool,
)
    requires
        v.is_current(context_id, n),
    ensures
        ({
            let after = v.finished(context_id, n, terminal, emit_state);
            let active = v.context(context_id).active_navigation->Some_0;
            let frame_id = v.context(context_id).frame_id;
            let end = if emit_state {
                (after.events.len() - 2) as int
            } else {
                (after.events.len() - 1) as int
            };
            &&& after.context(context_id).active_navigation is None
            &&& crate::browser::journeys::stays_put(v, after, context_id)
            &&& v.events.is_prefix_of(after.events)
            &&& emit_state ==> after.events.last() == (EventView::BrowsingContextStateChanged {
                state: after.context(context_id).state(context_id),
            })
            &&& match terminal {
                TerminalView::Settled => after.events[end] == EventView::phase(
                    context_id,
                    frame_id,
                    n,
                    NavigationPhase::Settled,
                ),
                TerminalView::Failed { request_id, error } => after.events[end] == (
                EventView::NavigationFailed {
                    context_id,
                    frame_id,
                    navigation_id: n,
                    request_id,
                    error,
                }) && after.events[end - 1] == EventView::phase(
                    context_id,
                    frame_id,
                    n,
                    NavigationPhase::Failed,
                ),
                TerminalView::Cancelled { reason } => after.events[end] == (
                EventView::NavigationCancelled {
                    context_id,
                    frame_id,
                    navigation_id: n,
                    request_id: Some(active.request_id),
                    reason,
                }) && after.events[end - 1] == EventView::phase(
                    context_id,
                    frame_id,
                    n,
                    NavigationPhase::Cancelled,
                ),
            }
            &&& terminal is Cancelled && active.loading ==> after.requests == v.requests.push(
                HostRequest::CancelLoad { context_id, navigation_id: n },
            )
            &&& !(terminal is Cancelled && active.loading) ==> after.requests == v.requests
        }),
{
}

/// A cancelled navigation that waited for a script says so: that the script was asked
/// for, and that its load was called off.
pub proof fn cancelled_scripts_are_told(
    v: CoreView,
    context_id: BrowsingContextId,
    n: NavigationId,
    reason: NavigationCancellationReason,
)
    requires
        v.is_current(context_id, n),
        v.context(context_id).active_navigation->Some_0.pending_script is Some,
    ensures
        ({
            let after = v.cancelled(context_id, reason, true);
            let pending = v.context(context_id).active_navigation->Some_0.pending_script->Some_0;
            let id = crate::text::decimal_text(pending.key.request_id.raw as nat);
            &&& after.events[v.events.len() as int] matches EventView::RuntimeEffects {
                context_id: c,
                document_id,
                effects,
                ..
            }
            &&& c == context_id
            &&& document_id == v.context(context_id).document_id
            &&& effects.network.len() == 2
            &&& effects.network[0] == (NetworkView::Request {
                request_id: id,
                url: pending.url,
                method: "GET"@,
            })
            &&& effects.network[1] matches NetworkView::Failure {
                request_id,
                url,
                blocked_reason,
                ..
            }
            &&& request_id == id
            &&& url == pending.url
            &&& blocked_reason == Some("canceled"@)
        }),
{
}

/// A navigation that begins is told: what it is and where it goes, that it was asked
/// for, the state of its context, that it may go on, that it started, and that its
/// request is out. What was under way before is cancelled as superseded.
pub proof fn beginnings_are_told(
    v: CoreView,
    context_id: BrowsingContextId,
    url: Seq<char>,
    html: Option<Seq<char>>,
    update: UpdateView,
    kind: CrossDocumentNavigationKind,
    predecessor: Option<NavigationId>,
)
    requires
        v.navigation_fault(context_id, url) is None,
    ensures
        ({
            let after = v.begun(context_id, url, html, update, kind, predecessor);
            let n = NavigationId { raw: v.ids.next_navigation };
            let frame_id = v.context(context_id).frame_id;
            let k = (after.events.len() - 6) as int;
            &&& k >= v.events.len()
            &&& v.events.is_prefix_of(after.events)
            &&& after.events[k] == (EventView::NavigationRequested {
                context_id,
                frame_id,
                navigation_id: n,
                predecessor_navigation_id: predecessor,
                kind,
                url,
            })
            &&& after.events[k + 1] == EventView::phase(
                context_id,
                frame_id,
                n,
                NavigationPhase::Intent,
            )
            &&& after.events[k + 2] == (EventView::BrowsingContextStateChanged {
                state: after.context(context_id).state(context_id),
            })
            &&& after.events[k + 3] == EventView::phase(
                context_id,
                frame_id,
                n,
                NavigationPhase::Policy,
            )
            &&& after.events[k + 4] == (EventView::NavigationStarted {
                context_id,
                frame_id,
                navigation_id: n,
                request_id: after.context(context_id).active_navigation->Some_0.request_id,
                url,
            })
            &&& after.events[k + 5] == EventView::phase(
                context_id,
                frame_id,
                n,
                NavigationPhase::Request,
            )
            &&& match v.context(context_id).active_navigation {
                None => k == v.events.len(),
                Some(active) => after.events[k - 1] == (EventView::NavigationCancelled {
                    context_id,
                    frame_id,
                    navigation_id: active.navigation_id,
                    request_id: Some(active.request_id),
                    reason: NavigationCancellationReason::Superseded,
                }),
            }
        }),
{
}

/// Of the documents that stand in for a URL the first one counts; a document that
/// comes with the navigation goes before all of them.
pub proof fn the_first_stand_in_counts(overrides: Seq<(String, String)>, url: Seq<char>, i: int)
    requires
        0 <= i <= overrides.len(),
        forall|j: int| 0 <= j < i ==> (#[trigger] overrides[j]).0@ != url,
        i < overrides.len() ==> overrides[i].0@ == url,
    ensures
        crate::browser::navigation::overridden(overrides, url) == if i < overrides.len() {
            Some(overrides[i].1@)
        } else {
            None
        },
    decreases overrides.len(),
{
    if i > 0 {
        assert(overrides[0].0@ != url);
        let rest = overrides.drop_first();
        assert forall|j: int| 0 <= j < i - 1 implies (#[trigger] rest[j]).0@ != url by {
            assert(rest[j] == overrides[j + 1]);
        }
        if i < overrides.len() {
            assert(rest[i - 1] == overrides[i]);
        }
        the_first_stand_in_counts(rest, url, i - 1);
    }
}

/// A document that is to be loaded is the one that comes with the navigation, or else
/// the one that stands in for its URL.
pub proof fn loads_know_their_documents(
    v: CoreView,
    context_id: BrowsingContextId,
    url: Seq<char>,
    html: Option<Seq<char>>,
    update: UpdateView,
    kind: CrossDocumentNavigationKind,
    predecessor: Option<NavigationId>,
    i: int,
)
    requires
        v.navigation_fault(context_id, url) is None,
        0 <= i <= v.document_overrides.len(),
        forall|j: int| 0 <= j < i ==> (#[trigger] v.document_overrides[j]).0@ != url,
        i < v.document_overrides.len() ==> v.document_overrides[i].0@ == url,
    ensures
        ({
            let load = v.begun(
                context_id,
                url,
                html,
                update,
                kind,
                predecessor,
            ).pending_load_starts.last();
            &&& html is Some ==> load.injected_html == html
            &&& html is None && i < v.document_overrides.len() ==> load.injected_html == Some(
                v.document_overrides[i].1@,
            )
            &&& html is None && i == v.document_overrides.len() ==> load.injected_html is None
        }),
{
    the_first_stand_in_counts(v.document_overrides, url, i);
}

/// A value of a script is shown with its kind and, where it has one, its content.
pub proof fn values_keep_their_kind(value: JsValue)
    ensures
        ({
            let r = crate::browser::effects::seen_value(value);
            &&& value is Int32 <==> r is Int32
            &&& value is Number <==> r is Number
            &&& value is Text <==> r is Text
            &&& value is Bool <==> r is Bool
            &&& value is Null <==> r is Null
            &&& value is Undefined <==> r is Undefined
            &&& value is Object <==> r is Object
            &&& value is Int32 ==> r == ScriptValue::Int32(value->Int32_0)
            &&& value is Number ==> r == ScriptValue::Number(value->Number_0)
            &&& value is Text ==> r == ScriptValue::Text(value->Text_0)
            &&& value is Bool ==> r == ScriptValue::Bool(value->Bool_0)
        }),
{
}

/// An argument of a console call is shown with all its parts, and its value with its
/// kind.
pub proof fn console_arguments_keep_their_parts(arg: JsConsoleArg)
    ensures
        ({
            let r = crate::browser::effects::seen_arg(arg);
            &&& r.type_label == arg.type_label
            &&& r.subtype == arg.subtype
            &&& r.description == arg.description
            &&& r.unserializable_value == arg.unserializable_value
            &&& r.value is Some <==> arg.value is Some
            &&& arg.value is Some ==> match (arg.value->Some_0, r.value->Some_0) {
                (JsConsoleValue::Text(a), RuntimeConsoleValue::Text(b)) => a == b,
                (JsConsoleValue::Number(a), RuntimeConsoleValue::Number(b)) => a == b,
                (JsConsoleValue::Bool(a), RuntimeConsoleValue::Bool(b)) => a == b,
                (JsConsoleValue::Null, RuntimeConsoleValue::Null) => true,
                _ => false,
            }
        }),
{
}

/// A step on the network is shown as what it was, with all its parts.
pub proof fn network_steps_keep_their_parts(event: JsNetworkEvent)
    ensures
        match (event, crate::browser::effects::seen_network(event)) {
            (
                JsNetworkEvent::Request { request_id: a, url: b, method: c },
                RuntimeNetworkEvent::Request { request_id, url, method },
            ) => request_id == a && url == b && method == c,
            (
                JsNetworkEvent::Redirect { request_id: a, from: b, to: c, status: d },
                RuntimeNetworkEvent::Redirect { request_id, from, to, status },
            ) => request_id == a && from == b && to == c && status == d,
            (
                JsNetworkEvent::Response { request_id: a, url: b, status: c },
                RuntimeNetworkEvent::Response { request_id, url, status },
            ) => request_id == a && url == b && status == c,
            (
                JsNetworkEvent::Failure { request_id: a, url: b, error_text: c, blocked_reason: d },
                RuntimeNetworkEvent::Failure { request_id, url, error_text, blocked_reason },
            ) => request_id == a && url == b && error_text == c && blocked_reason == d,
            _ => false,
        },
{
}

/// An entry of a form is shown with its name, and as the text or the file that it is.
pub proof fn form_entries_keep_their_parts(entry: FormEntry)
    ensures
        ({
            let r = crate::browser::effects::seen_entry(entry);
            &&& r.name == entry.name
            &&& match (entry.value, r.value) {
                (FormEntryValue::Text(a), FormEntryValueInfo::Text(b)) => a == b,
                (
                    FormEntryValue::File { filename: a, content_type: b, body: c },
                    FormEntryValueInfo::File { filename, content_type, body },
                ) => filename == a && content_type == b && body == c,
                _ => false,
            }
        }),
{
}

} // verus!
