//! What holds of documents, scripts and redirects on their way in.

use vstd::prelude::*;

use crate::browser::error::{ErrorCode, ErrorView};
use crate::browser::events::{EffectsView, EventView, NetworkView};
use crate::browser::ids::{BrowsingContextId, NavigationId, RequestId};
use crate::browser::registry::{
    CoreView, ExternalScriptLoadKey, HostRequest, LifecycleStage, ScriptWorkView, WorkView,
};
use crate::browser::scripts::{ExternalRun, ExternalScriptStep, ScriptRun};
use crate::browser::source::{
    ExchangeView, ExternalScriptLoadFailure, FetchView, LoadedExternalScript, PlanView, ScriptPlan,
};
use crate::weburl::UrlView;

verus! {

/// The scheme of a URL says where its document is: `about:blank` and `about:vixen`
/// are at hand, `data` URLs hold it, `file` URLs name a file, and `http` and `https`
/// URLs a server. No other URL has a document.
pub proof fn schemes_say_where_documents_are(written: Seq<char>, url: UrlView)
    ensures
        ({
            let plan = crate::browser::source::source_plan(written, Ok(url));
            let about = url.scheme == "about"@ && (url.path == "blank"@ || url.path == "vixen"@);
            &&& plan is Ok <==> about || url.scheme == "data"@ || url.scheme == "file"@
                || url.scheme == "http"@ || url.scheme == "https"@
            &&& plan matches Err(e) ==> e.code == ErrorCode::InvalidArgument
            &&& about ==> (plan matches Ok(PlanView::Ready(source)) && source.final_url == url.text
                && source.headers.len() == 0)
            &&& url.scheme == "data"@ ==> plan == Ok::<PlanView, ErrorView>(
                PlanView::Data { written, final_url: url.text },
            )
            &&& url.scheme == "file"@ ==> plan == Ok::<PlanView, ErrorView>(
                PlanView::File { final_url: url.text },
            )
            &&& url.scheme == "http"@ || url.scheme == "https"@ ==> plan == Ok::<
                PlanView,
                ErrorView,
            >(PlanView::Http { url: url.text })
        }),
        forall|e: Seq<char>|
            #![trigger crate::browser::source::source_plan(written, Err(e))]
            crate::browser::source::source_plan(written, Err(e)) is Err,
{
    reveal_strlit("about");
    reveal_strlit("data");
    reveal_strlit("file");
    reveal_strlit("http");
    reveal_strlit("https");
    assert("about"@.len() == 5);
    assert("data"@.len() == 4);
    assert("file"@.len() == 4);
    assert("http"@.len() == 4);
    assert("https"@.len() == 5);
    assert("about"@[0] == 'a' && "https"@[0] == 'h');
    assert("data"@[0] == 'd' && "file"@[0] == 'f');
    assert("data"@[0] == 'd' && "http"@[0] == 'h');
    assert("file"@[0] == 'f' && "http"@[0] == 'h');
}

/// A reply sends a load elsewhere exactly when its status is 301, 302, 303, 307 or
/// 308: of the statuses from 300 to 308, all but 300, 304, 305 and 306.
pub proof fn five_statuses_redirect(status: u16)
    ensures
        crate::browser::source::followable(status) <==> 300 < status <= 308 && !(304 <= status
            <= 306),
{
}

/// A load follows a redirect exactly where it has followed fewer than it may, the
/// reply names a URL, and that URL was not visited before; it follows it to the
/// place that the reply names, seen from where the load is.
pub proof fn redirects_lead_to_new_places(f: FetchView, location: Option<Seq<char>>)
    ensures
        ({
            let next = match location {
                Some(l) => crate::weburl::joined_url(f.current, l),
                None => None,
            };
            &&& f.redirect_target(location) is Ok <==> f.redirects < f.max_redirects
                && next is Some && !f.visited.contains(next->Some_0)
            &&& f.redirect_target(location) is Ok ==> f.redirect_target(location)->Ok_0
                == next->Some_0
            &&& f.redirect_target(location) is Err ==> {
                let failure = f.redirect_target(location)->Err_0;
                &&& failure.error.code == ErrorCode::NavigationLoad
                &&& failure.events == f.events
            }
        }),
{
}

/// A redirect that every policy allows moves the load on by one step. In what is
/// told of the load it takes the place of the bare reply, if that was the last thing
/// told. One that a policy forbids ends the load, at the URL it led to.
pub proof fn redirects_move_a_load_on(
    f: FetchView,
    told: Seq<ExchangeView>,
    next: Seq<char>,
    status: u16,
    policy: Result<(), Seq<char>>,
    blocked_reason: Option<Seq<char>>,
)
    requires
        f.events == told.push(ExchangeView::Response { url: f.current, status }),
    ensures
        ({
            let r = f.followed(next, status, policy, blocked_reason);
            let step = ExchangeView::Redirect { from: f.current, to: next, status };
            &&& r is Ok <==> policy is Ok && blocked_reason is None
            &&& r is Ok ==> {
                &&& r->Ok_0.current == next
                &&& r->Ok_0.redirects == f.redirects + 1
                &&& r->Ok_0.events == told.push(step)
                &&& r->Ok_0.visited == f.visited
                &&& r->Ok_0.requested_urls == f.requested_urls
                &&& r->Ok_0.max_redirects == f.max_redirects
            }
            &&& r is Err ==> r->Err_0.url == next && r->Err_0.error.code
                == ErrorCode::NavigationLoad
            &&& r is Err && policy is Err ==> r->Err_0.events == f.events
                && r->Err_0.blocked_reason == "load"@
            &&& r is Err && policy is Ok ==> r->Err_0.events == told.push(step)
                && blocked_reason == Some(r->Err_0.blocked_reason)
        }),
{
    assert(f.events.drop_last() =~= told);
}

/// Where nothing was told of the bare reply, the redirect is told after all that was.
pub proof fn redirects_are_told_last(f: FetchView, next: Seq<char>, status: u16)
    requires
        f.events.len() > 0 ==> f.events.last() != (ExchangeView::Response {
            url: f.current,
            status,
        }),
    ensures
        f.redirect_events(next, status) == f.events.push(
            ExchangeView::Redirect { from: f.current, to: next, status },
        ),
{
}

/// Every step of an exchange is told once and in order, under the id of its request,
/// with the URLs and the status it had.
pub proof fn exchanges_are_told_in_order(
    request_id: Seq<char>,
    before: Seq<ExchangeView>,
    event: ExchangeView,
)
    ensures
        ({
            let told = crate::browser::source::all_heard(request_id, before.push(event));
            &&& told.len() == before.len() + 1
            &&& told.drop_last() == crate::browser::source::all_heard(request_id, before)
            &&& match (event, told.last()) {
                (
                    ExchangeView::RequestStart { url, method },
                    NetworkView::Request { request_id: id, url: u, method: m },
                ) => id == request_id && u == url && m == method,
                (
                    ExchangeView::Redirect { from, to, status },
                    NetworkView::Redirect { request_id: id, from: f, to: t, status: s },
                ) => id == request_id && f == from && t == to && s == status,
                (
                    ExchangeView::Response { url, status },
                    NetworkView::Response { request_id: id, url: u, status: s },
                ) => id == request_id && u == url && s == status,
                _ => false,
            }
        }),
{
    assert(crate::browser::source::all_heard(request_id, before.push(event)).drop_last()
        =~= crate::browser::source::all_heard(request_id, before));
}

/// A load that failed is told of to its end: what was heard of it, or at least that
/// it was asked for, and then the failure.
pub proof fn failed_loads_are_told_to_the_end(
    request_id: Seq<char>,
    request_url: Seq<char>,
    failure: ExternalScriptLoadFailure,
)
    ensures
        ({
            let told = crate::browser::source::script_network(
                request_id,
                request_url,
                Err(failure),
            );
            let heard = crate::browser::source::all_heard(request_id, failure@.events);
            &&& told.last() == (NetworkView::Failure {
                request_id,
                url: failure@.url,
                error_text: failure@.error.message,
                blocked_reason: Some(failure@.blocked_reason),
            })
            &&& heard.len() > 0 ==> told.drop_last() == heard
            &&& heard.len() == 0 ==> told.drop_last() == seq![
                NetworkView::Request { request_id, url: request_url, method: "GET"@ },
            ]
        }),
{
    let told = crate::browser::source::script_network(request_id, request_url, Err(failure));
    let heard = crate::browser::source::all_heard(request_id, failure@.events);
    if heard.len() > 0 {
        assert(told.drop_last() =~= heard);
    } else {
        assert(told.drop_last() =~= seq![
            NetworkView::Request { request_id, url: request_url, method: "GET"@ },
        ]);
    }
}

/// An external script that a page waits for runs exactly where it loaded, the
/// content security policy allows it and, if it came from a server, the reply may be
/// used. What runs is what was loaded. A script that nobody waits for changes
/// nothing.
pub proof fn allowed_scripts_run(
    v: CoreView,
    after: CoreView,
    r: ExternalScriptStep,
    key: ExternalScriptLoadKey,
    result: Result<LoadedExternalScript, ExternalScriptLoadFailure>,
    csp_allows: bool,
    response_allows: bool,
)
    requires
        v.script_taken(after, r, key, result, csp_allows, response_allows),
    ensures
        !v.script_awaited(key) ==> r is Stale && after == v,
        v.script_awaited(key) ==> {
            &&& r is Run || r is Skipped
            &&& r is Run <==> match result {
                Ok(LoadedExternalScript::File { .. }) => csp_allows,
                Ok(LoadedExternalScript::Http { .. }) => csp_allows && response_allows,
                Err(_) => false,
            }
            &&& after.context(key.context_id).document_id == v.context(key.context_id).document_id
            &&& after.context(key.context_id).history == v.context(key.context_id).history
            &&& after.context(key.context_id).active_navigation is Some
            &&& !after.context(key.context_id).active_navigation->Some_0.loading
            &&& after.context(key.context_id).active_navigation->Some_0.pending_script is None
        },
        r is Run ==> {
            &&& after.events == v.events
            &&& match result {
                Ok(LoadedExternalScript::File { source, .. }) => r->source == source
                    && r->requested_urls@.len() == 0,
                Ok(LoadedExternalScript::Http { response, requested_urls }) => r->source
                    == response.body && r->requested_urls == requested_urls,
                Err(_) => false,
            }
        },
{
}

/// The refusal to run a script that loaded is told after its exchange, with the
/// reason: the content security policy before all else.
pub proof fn refusals_are_told(
    request_id: RequestId,
    request_url: Seq<char>,
    script: LoadedExternalScript,
    csp_allows: bool,
    response_allows: bool,
)
    ensures
        ({
            let id = crate::text::decimal_text(request_id.raw as nat);
            let heard = crate::browser::source::script_network(id, request_url, Ok(script));
            let told = crate::browser::scripts::script_load_effects(
                request_id,
                request_url,
                Ok(script),
                csp_allows,
                response_allows,
            );
            let url = match script {
                LoadedExternalScript::File { final_url, .. } => final_url@,
                LoadedExternalScript::Http { response, .. } => response.final_url@,
            };
            let refused = |reason: Seq<char>|
                heard.push(
                    NetworkView::Failure {
                        request_id: id,
                        url,
                        error_text: "external script blocked"@,
                        blocked_reason: Some(reason),
                    },
                );
            &&& !csp_allows ==> told.network == refused("csp"@)
            &&& csp_allows && !response_allows && script is Http ==> told.network == refused(
                "response-policy"@,
            )
            &&& csp_allows && (response_allows || script is File) ==> told.network == heard
            &&& told.exceptions.len() == 0
            &&& told.console.len() == 0
        }),
{
}

/// A run is told of in order: that the script failed, what it brought about, and that
/// what it asked for could not be had. Nothing that was there before is lost.
pub proof fn runs_are_told_in_order(run: ScriptRun, before: EffectsView)
    ensures
        ({
            let after = run.effects_after(before);
            let failed = match run.item {
                Some(Err(e)) => seq![e@],
                _ => Seq::empty(),
            };
            let unheard = match run.actions {
                Err(e) => seq![e@],
                Ok(_) => Seq::empty(),
            };
            match run.effects {
                Ok(effects) => {
                    &&& after.exceptions == before.exceptions + failed + effects@.exceptions
                        + unheard
                    &&& after.network == before.network + effects@.network
                    &&& after.console == before.console + effects@.console
                    &&& after.dialogs == before.dialogs + effects@.dialogs
                    &&& after.bindings == before.bindings + effects@.bindings
                },
                Err(e) => {
                    &&& after.exceptions == before.exceptions + failed + seq![e@] + unheard
                    &&& after.network == before.network
                    &&& after.console == before.console
                    &&& after.dialogs == before.dialogs
                    &&& after.bindings == before.bindings
                },
            }
        }),
{
    let after = run.effects_after(before);
    let failed = match run.item {
        Some(Err(e)) => seq![e@],
        _ => Seq::empty(),
    };
    let unheard = match run.actions {
        Err(e) => seq![e@],
        Ok(_) => Seq::empty(),
    };
    match run.effects {
        Ok(effects) => {
            assert(after.exceptions =~= before.exceptions + failed + effects@.exceptions + unheard);
        },
        Err(e) => {
            assert(after.exceptions =~= before.exceptions + failed + seq![e@] + unheard);
        },
    }
}

/// After a script of the page the next one is due, and after the last one the event
/// that the document is complete. What the scripts asked for is kept. The effects of
/// a run are told in one event, of the document they happened in, unless there are
/// none.
pub proof fn scripts_run_one_after_another(
    v: CoreView,
    context_id: BrowsingContextId,
    navigation_id: NavigationId,
    work: ScriptWorkView,
    run: ScriptRun,
)
    requires
        v.is_current(context_id, navigation_id),
        v.context(context_id).active_navigation->Some_0.work is None,
    ensures
        ({
            let after = v.script_ran(context_id, navigation_id, work, run);
            let next = after.context(context_id).active_navigation->Some_0.work;
            let effects = run.effects_after(EffectsView::none());
            let context = v.context(context_id);
            &&& next is Some
            &&& run.item is Some ==> (next->Some_0 matches WorkView::Scripts(w) && w.actions
                == run.actions_after(work.actions))
            &&& run.item is None ==> next->Some_0 == (WorkView::Lifecycle {
                stage: LifecycleStage::DomContentLoaded,
                actions: run.actions_after(work.actions),
            })
            &&& after.pending_navigation_work == v.pending_navigation_work.push(
                (context_id, navigation_id),
            )
            &&& effects.is_empty() ==> after.events == v.events
            &&& !effects.is_empty() ==> after.events == v.events.push(
                EventView::RuntimeEffects {
                    context_id,
                    frame_id: context.frame_id,
                    document_id: context.document_id,
                    runtime_context_id: context.runtime_context_id,
                    url: context.history.current().url,
                    effects,
                },
            )
            &&& after.context(context_id).history == context.history
            &&& forall|k: u64|
                k != context_id.raw ==> after.contexts.contains_key(k) == v.contexts.contains_key(k)
                    && #[trigger] after.contexts[k] == v.contexts[k]
        }),
{
}

/// An external script adds to what came with its load. Where its cookies could not be
/// kept it did not run, and that is told. Either way the next script is due.
pub proof fn external_scripts_run_in_turn(
    v: CoreView,
    key: ExternalScriptLoadKey,
    work: ScriptWorkView,
    effects: EffectsView,
    run: ExternalRun,
)
    requires
        v.script_current(key),
        v.context(key.context_id).active_navigation->Some_0.work is None,
    ensures
        ({
            let after = v.external_ran(key, work, effects, run);
            let next = after.context(key.context_id).active_navigation->Some_0.work;
            &&& next matches Some(WorkView::Scripts(w)) && match run {
                ExternalRun::CookiesFailed(_) => w.actions == work.actions,
                ExternalRun::Ran(r) => w.actions == r.actions_after(work.actions),
            }
            &&& match run {
                ExternalRun::Ran(_) => true,
                ExternalRun::CookiesFailed(e) => {
                    &&& after.events.len() == v.events.len() + 1
                    &&& after.events.last() matches EventView::RuntimeEffects { effects: told, .. }
                    &&& told.exceptions == effects.exceptions.push(e@)
                    &&& told.network == effects.network
                },
            }
        }),
{
}

/// A script belongs to the page in place where its navigation is under way and its
/// document and its runtime are those of its context; a navigation waits for it where
/// it also asked for that very script.
pub proof fn scripts_belong_to_their_page(v: CoreView, key: ExternalScriptLoadKey)
    ensures
        v.script_current(key) <==> {
            &&& v.has(key.context_id)
            &&& v.context(key.context_id).active_navigation is Some
            &&& v.context(key.context_id).active_navigation->Some_0.navigation_id
                == key.navigation_id
            &&& v.context(key.context_id).document_id == key.document_id
            &&& v.context(key.context_id).runtime_context_id == key.runtime_context_id
        },
        v.script_awaited(key) <==> {
            &&& v.script_current(key)
            &&& v.context(key.context_id).active_navigation->Some_0.pending_script is Some
            &&& v.context(key.context_id).active_navigation->Some_0.pending_script->Some_0.key
                == key
        },
{
}

/// A script that a page needs is asked for under ids of its own, and the navigation
/// waits for it; the work that is left waits with it.
pub proof fn needed_scripts_are_asked_for(
    v: CoreView,
    context_id: BrowsingContextId,
    n: NavigationId,
    work: ScriptWorkView,
    url: Seq<char>,
)
    requires
        v.is_current(context_id, n),
        v.ids.next_request != 0,
    ensures
        ({
            let after = v.external_found(context_id, n, work, url, Ok(()));
            let active = after.context(context_id).active_navigation->Some_0;
            &&& active.loading
            &&& active.pending_script matches Some(pending)
            &&& pending.url == url
            &&& pending.work == work
            &&& pending.key.context_id == context_id
            &&& pending.key.navigation_id == n
            &&& pending.key.document_id == v.context(context_id).document_id
            &&& pending.key.runtime_context_id == v.context(context_id).runtime_context_id
            &&& pending.key.request_id.raw == v.ids.next_request
            &&& after.ids.next_request != v.ids.next_request
            &&& after.requests == v.requests.push(
                HostRequest::StartScriptLoad { key: pending.key },
            )
            &&& after.script_awaited(pending.key)
            &&& after.events == v.events
        }),
{
}

/// A script for which no request can be made is told of as an error and left out.
pub proof fn scripts_without_a_request_are_left_out(
    v: CoreView,
    context_id: BrowsingContextId,
    n: NavigationId,
    work: ScriptWorkView,
    url: Seq<char>,
    e: ErrorView,
)
    requires
        v.is_current(context_id, n),
        v.context(context_id).active_navigation->Some_0.work is None,
    ensures
        ({
            let after = v.external_found(context_id, n, work, url, Err(e));
            &&& after.events.len() == v.events.len() + 1
            &&& after.events.last() matches EventView::RuntimeEffects { effects, .. }
            &&& effects.exceptions == seq![e]
            &&& after.requests == v.requests
            &&& after.context(context_id).active_navigation->Some_0.work == Some(
                WorkView::Scripts(work),
            )
        }),
{
    assert(Seq::<ErrorView>::empty().push(e) =~= seq![e]);
}

/// The scheme of its URL says where an external script is: `file` URLs name a file, and
/// `http` and `https` URLs a server, which nothing has been asked yet. No other URL has
/// a script.
pub proof fn schemes_say_where_scripts_are(
    r: Result<ScriptPlan, ExternalScriptLoadFailure>,
    url: Seq<char>,
    scheme: Seq<char>,
    max_redirects: usize,
)
    requires
        crate::browser::source::is_script_plan(r, url, scheme, max_redirects),
    ensures
        r is Ok <==> scheme == "file"@ || scheme == "http"@ || scheme == "https"@,
        r is Ok ==> (r->Ok_0 is File <==> scheme == "file"@),
        r matches Ok(ScriptPlan::Http(fetch)) ==> {
            &&& fetch@.current == url
            &&& fetch@.redirects == 0
            &&& fetch@.max_redirects == max_redirects
            &&& fetch@.visited.len() == 0
            &&& fetch@.requested_urls.len() == 0
            &&& fetch@.events.len() == 0
        },
        r matches Err(failure) ==> {
            &&& failure@.error.code == ErrorCode::InvalidArgument
            &&& failure@.url == url
            &&& failure@.events.len() == 0
        },
{
    reveal_strlit("file");
    reveal_strlit("http");
    reveal_strlit("https");
    assert("file"@[0] == 'f' && "http"@[0] == 'h');
    assert("file"@.len() == 4 && "https"@.len() == 5);
}

} // verus!
