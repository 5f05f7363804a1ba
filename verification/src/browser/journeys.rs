//! What navigations come to, from the request to the history they leave behind.

use vstd::prelude::*;

use crate::browser::actions::{NavigationAction, UpdateView};
use crate::browser::commands::OutcomeView;
use crate::browser::dispatch::{BrowserCommand, BrowserCommandResult, CommandOutcome};
use crate::browser::error::{BrowserError, ErrorCode, ErrorView};
use crate::browser::events::{
    CrossDocumentNavigationKind, EventView, NavigationCancellationReason, NavigationPhase,
};
use crate::browser::history::{HistoryEntryView, HistoryView};
use crate::browser::ids::{
    BrowsingContextId, DocumentId, NavigationId, RequestId, RuntimeContextId,
};
use crate::browser::limits::Float64;
use crate::browser::navigation::TerminalView;
use crate::browser::registry::{ContextView, CoreView, HostRequest};

verus! {

/// One entry more than before: right behind the entry that was current, and
/// current itself. What was ahead is gone, and what was behind is as it was.
pub open spec fn grew_by(before: HistoryView, after: HistoryView, entry: HistoryEntryView) -> bool {
    &&& after.index == before.index + 1
    &&& after.entries.len() == after.index + 1
    &&& after.entries[after.index] == entry
    &&& forall|i: int| 0 <= i <= before.index ==> #[trigger] after.entries[i] == before.entries[i]
}

/// As many entries as before, and the same one current; only that one is
/// another.
pub open spec fn turned_into(
    before: HistoryView,
    after: HistoryView,
    entry: HistoryEntryView,
) -> bool {
    &&& after.index == before.index
    &&& after.entries.len() == before.entries.len()
    &&& after.entries[after.index] == entry
    &&& forall|i: int|
        0 <= i < before.entries.len() && i != before.index ==> #[trigger] after.entries[i]
            == before.entries[i]
}

/// The history that a context has when its document has arrived at `final_url`
/// and taken the place of the one before it.
pub open spec fn history_on_arrival(
    v: CoreView,
    context_id: BrowsingContextId,
    n: NavigationId,
    final_url: Seq<char>,
    title: Option<Seq<char>>,
) -> HistoryView {
    let loaded = v.load_ended(context_id, n, Ok(()));
    let plan = loaded.commit_plan(context_id, n, final_url, title);
    loaded.commit_begun(context_id, n).commit_ended(plan, Ok(())).context(context_id).history
}

/// A page that a navigation made: its URL, without a title or a state of its
/// own.
pub open spec fn page_at(url: Seq<char>) -> HistoryEntryView {
    HistoryEntryView { url, title: None, state: None }
}

/// The history holds nothing but the blank page that a context starts with.
pub open spec fn is_blank(h: HistoryView) -> bool {
    h.entries.len() == 1 && h.entries[0].url == "about:blank"@
}

/// One navigation that a script asks for begins, and only that.
proof fn one_navigation_begins(
    v: CoreView,
    context_id: BrowsingContextId,
    action: NavigationAction,
    predecessor: Option<NavigationId>,
    url: Seq<char>,
    injected_html: Option<Seq<char>>,
    update: UpdateView,
    kind: CrossDocumentNavigationKind,
)
    requires
        v.navigation_fault(context_id, url) is None,
        !(action is Overflow),
        crate::browser::actions::action_step(
            v.context(context_id).history,
            v.context(context_id).document_id,
            v.max_body_bytes,
            action,
        ) == Ok::<_, ErrorView>(
            (
                v.context(context_id).history,
                seq![
                    crate::browser::actions::PreparedView::CrossDocument {
                        url,
                        injected_html,
                        history_update: update,
                        kind,
                    },
                ],
            ),
        ),
    ensures
        ({
            let carried = v.applied(context_id, seq![action], predecessor);
            let n = NavigationId { raw: v.ids.next_navigation };
            &&& carried.error is None
            &&& carried.outcomes == seq![OutcomeView::CrossDocument { navigation_id: n, kind }]
            &&& carried.browser == v.begun(
                context_id,
                url,
                injected_html,
                update,
                kind,
                predecessor,
            )
        }),
{
    let context = v.context(context_id);
    let actions = seq![action];
    let prepared = crate::browser::actions::PreparedView::CrossDocument {
        url,
        injected_html,
        history_update: update,
        kind,
    };
    reveal_with_fuel(crate::browser::actions::actions_outcome, 2);
    assert(actions.drop_last() =~= Seq::<NavigationAction>::empty());
    assert(Seq::<crate::browser::actions::PreparedView>::empty() + seq![prepared] =~= seq![
        prepared,
    ]);
    assert(crate::browser::actions::actions_outcome(
        context.history,
        context.document_id,
        v.max_body_bytes,
        actions,
    ) == Ok::<_, ErrorView>((context.history, seq![prepared])));
    assert(!crate::browser::commands::too_many_actions(actions)) by {
        assert(actions[0] == action);
    }
    reveal_with_fuel(crate::browser::commands::Carried::steps, 2);
    assert(seq![prepared].drop_last() =~= Seq::<crate::browser::actions::PreparedView>::empty());
    let start = crate::browser::commands::Carried::start(v, predecessor);
    let kindly = OutcomeView::CrossDocument {
        navigation_id: NavigationId { raw: v.ids.next_navigation },
        kind,
    };
    assert(start.outcomes.push(kindly) =~= seq![kindly]);
}

/// What the history becomes when a navigation with this update arrives.
proof fn arrival_history(
    v: CoreView,
    context_id: BrowsingContextId,
    n: NavigationId,
    update: UpdateView,
    final_url: Seq<char>,
    title: Option<Seq<char>>,
)
    requires
        v.is_current(context_id, n),
        v.context(context_id).active_navigation->Some_0.history_update == update,
        v.commit_fault() is None,
    ensures
        history_on_arrival(v, context_id, n, final_url, title) == v.context(
            context_id,
        ).committed_history(update, final_url),
{
    let loaded = v.load_ended(context_id, n, Ok(()));
    assert(loaded.is_current(context_id, n));
    assert(loaded.commit_begun(context_id, n).is_current(context_id, n));
}

/// An action of a script that comes to one navigation sets out, and when the page
/// arrives the history is what the navigation makes of it.
pub proof fn scripted_arrivals(
    v: CoreView,
    context_id: BrowsingContextId,
    action: NavigationAction,
    predecessor: Option<NavigationId>,
    url: Seq<char>,
    html: Option<Seq<char>>,
    update: UpdateView,
    kind: CrossDocumentNavigationKind,
    final_url: Seq<char>,
    title: Option<Seq<char>>,
)
    requires
        v.navigation_fault(context_id, url) is None,
        v.commit_fault() is None,
        !(action is Overflow),
        crate::browser::actions::action_step(
            v.context(context_id).history,
            v.context(context_id).document_id,
            v.max_body_bytes,
            action,
        ) == Ok::<_, ErrorView>(
            (
                v.context(context_id).history,
                seq![
                    crate::browser::actions::PreparedView::CrossDocument {
                        url,
                        injected_html: html,
                        history_update: update,
                        kind,
                    },
                ],
            ),
        ),
    ensures
        ({
            let carried = v.applied(context_id, seq![action], predecessor);
            let n = NavigationId { raw: v.ids.next_navigation };
            &&& carried.error is None
            &&& carried.outcomes == seq![OutcomeView::CrossDocument { navigation_id: n, kind }]
            &&& sets_out(v, carried.browser, context_id, n, url, html)
            &&& history_on_arrival(carried.browser, context_id, n, final_url, title) == v.context(
                context_id,
            ).committed_history(update, final_url)
        }),
{
    one_navigation_begins(v, context_id, action, predecessor, url, html, update, kind);
    beginnings_set_out(v, context_id, url, html, update, kind, predecessor);
    let begun = v.begun(context_id, url, html, update, kind, predecessor);
    arrival_history(
        begun,
        context_id,
        NavigationId { raw: v.ids.next_navigation },
        update,
        final_url,
        title,
    );
}

/// A script navigates: nothing of the history changes until the page arrives.
/// Then, where the script asked to replace, the history is as long as it was
/// with the same entry current, and only that entry is another: the page that
/// arrived. Where it did not, the page is one more entry right behind the one
/// that was current, except that the blank page a context starts with makes
/// room for it.
pub proof fn script_navigations_replace_or_add(
    v: CoreView,
    context_id: BrowsingContextId,
    url: String,
    replace: bool,
    predecessor: Option<NavigationId>,
    final_url: Seq<char>,
    title: Option<Seq<char>>,
)
    requires
        v.valid(),
        v.navigation_fault(context_id, url@) is None,
        v.commit_fault() is None,
    ensures
        ({
            let carried = v.applied(
                context_id,
                seq![NavigationAction::Navigate { url, replace }],
                predecessor,
            );
            let n = NavigationId { raw: v.ids.next_navigation };
            let before = v.context(context_id).history;
            let after = history_on_arrival(carried.browser, context_id, n, final_url, title);
            &&& carried.error is None
            &&& carried.outcomes.len() == 1
            &&& carried.browser.is_current(context_id, n)
            &&& carried.browser.context(context_id).history == before
            &&& carried.browser.context(context_id).document_id == v.context(
                context_id,
            ).document_id
            &&& carried.browser.pending_load_starts.last().url == url@
            &&& carried.browser.pending_load_starts.last().navigation_id == n
            &&& carried.browser.pending_load_starts.last().context_id == context_id
            &&& if replace || is_blank(before) {
                turned_into(before, after, page_at(final_url))
            } else {
                grew_by(before, after, page_at(final_url))
            }
        }),
{
    let update = if replace {
        UpdateView::Replace
    } else {
        UpdateView::Push
    };
    let kind = CrossDocumentNavigationKind::Regular;
    let action = NavigationAction::Navigate { url, replace };
    one_navigation_begins(v, context_id, action, predecessor, url@, None, update, kind);
    let begun = v.begun(context_id, url@, None, update, kind, predecessor);
    let n = NavigationId { raw: v.ids.next_navigation };
    assert(v.contexts.contains_key(context_id.raw));
    assert(begun.is_current(context_id, n));
    arrival_history(begun, context_id, n, update, final_url, title);
}

/// The browser asked for the load of `url` for a navigation in a context that is
/// now under way, and for no other. Until it arrives, the page stays as it is.
pub open spec fn sets_out(
    v: CoreView,
    after: CoreView,
    context_id: BrowsingContextId,
    n: NavigationId,
    url: Seq<char>,
    html: Option<Seq<char>>,
) -> bool {
    &&& n == (NavigationId { raw: v.ids.next_navigation })
    &&& after.is_current(context_id, n)
    &&& after.pending_load_starts.len() == v.pending_load_starts.len() + 1
    &&& v.pending_load_starts.is_prefix_of(after.pending_load_starts)
    &&& after.pending_load_starts.last().context_id == context_id
    &&& after.pending_load_starts.last().navigation_id == n
    &&& after.pending_load_starts.last().url == url
    &&& html is Some ==> after.pending_load_starts.last().injected_html == html
    &&& stays_put(v, after, context_id)
    &&& forall|other: BrowsingContextId|
        other != context_id && v.has(other) ==> after.has(other) && #[trigger] after.context(other)
            == v.context(other)
}

/// The page of a context is the same: its document, its runtime, its title and
/// its history.
pub open spec fn stays_put(v: CoreView, after: CoreView, context_id: BrowsingContextId) -> bool {
    &&& after.context(context_id).document_id == v.context(context_id).document_id
    &&& after.context(context_id).runtime_context_id == v.context(context_id).runtime_context_id
    &&& after.context(context_id).runtime_slot == v.context(context_id).runtime_slot
    &&& after.context(context_id).title == v.context(context_id).title
    &&& after.context(context_id).history == v.context(context_id).history
    &&& after.context(context_id).page_zoom == v.context(context_id).page_zoom
    &&& after.context(context_id).host_view == v.context(context_id).host_view
    &&& after.context(context_id).config == v.context(context_id).config
    &&& after.context(context_id).frame_id == v.context(context_id).frame_id
}

/// A navigation that begins sets out.
proof fn beginnings_set_out(
    v: CoreView,
    context_id: BrowsingContextId,
    url: Seq<char>,
    html: Option<Seq<char>>,
    update: UpdateView,
    kind: CrossDocumentNavigationKind,
    predecessor: Option<NavigationId>,
)
    requires
        v.navigation_fault(context_id, url) is None,
    ensures
        ({
            let after = v.begun(context_id, url, html, update, kind, predecessor);
            let n = NavigationId { raw: v.ids.next_navigation };
            &&& sets_out(v, after, context_id, n, url, html)
            &&& after.context(context_id).active_navigation->Some_0.history_update == update
            &&& after.ids.next_document == v.ids.next_document
            &&& after.ids.next_runtime == v.ids.next_runtime
            &&& after.runtime_slots == v.runtime_slots
        }),
{
}

/// A command to navigate, with a document of its own or without, loads the URL it
/// names. When the page arrives it is one more entry of the history, right behind
/// the one that was current; the blank page that a context starts with makes room
/// for it.
pub proof fn commanded_navigations_add_an_entry(
    v: CoreView,
    context_id: BrowsingContextId,
    url: String,
    html: Option<String>,
    after: CoreView,
    r: Result<CommandOutcome, BrowserError>,
    final_url: Seq<char>,
    title: Option<Seq<char>>,
)
    requires
        v.valid(),
        v.navigation_fault(context_id, url@) is None,
        v.commit_fault() is None,
        v.carries_out(
            match html {
                Some(html) => BrowserCommand::NavigateHtml { context_id, url, html },
                None => BrowserCommand::Navigate { context_id, url },
            },
            after,
            r,
        ),
        html matches Some(html) ==> crate::text::byte_count(html@) <= v.max_body_bytes,
    ensures
        ({
            let n = NavigationId { raw: v.ids.next_navigation };
            let before = v.context(context_id).history;
            let history = history_on_arrival(after, context_id, n, final_url, title);
            &&& r == Ok::<CommandOutcome, BrowserError>(
                CommandOutcome::Done(BrowserCommandResult::NavigationAccepted { navigation_id: n }),
            )
            &&& sets_out(
                v,
                after,
                context_id,
                n,
                url@,
                match html {
                    Some(html) => Some(html@),
                    None => None,
                },
            )
            &&& if is_blank(before) {
                turned_into(before, history, page_at(final_url))
            } else {
                grew_by(before, history, page_at(final_url))
            }
        }),
{
    let n = NavigationId { raw: v.ids.next_navigation };
    let injected = match html {
        Some(html) => Some(html@),
        None => None,
    };
    let update = UpdateView::Push;
    beginnings_set_out(
        v,
        context_id,
        url@,
        injected,
        update,
        CrossDocumentNavigationKind::Regular,
        None,
    );
    assert(v.contexts.contains_key(context_id.raw));
    arrival_history(after, context_id, n, update, final_url, title);
}

/// A document that is larger than the browser allows is refused, and nothing
/// changes.
pub proof fn large_documents_are_refused(
    v: CoreView,
    context_id: BrowsingContextId,
    url: String,
    html: String,
    after: CoreView,
    r: Result<CommandOutcome, BrowserError>,
)
    requires
        v.carries_out(BrowserCommand::NavigateHtml { context_id, url, html }, after, r),
        crate::text::byte_count(html@) > v.max_body_bytes,
    ensures
        after == v,
        r matches Err(e) && e@.code == ErrorCode::InvalidArgument,
{
}

/// To reload loads the URL of the current entry again. Where the page arrives
/// there, the history is as it was; where it arrives elsewhere, only the current
/// entry is another.
pub proof fn reloads_keep_the_history(
    v: CoreView,
    context_id: BrowsingContextId,
    after: CoreView,
    r: Result<CommandOutcome, BrowserError>,
    final_url: Seq<char>,
    title: Option<Seq<char>>,
)
    requires
        v.valid(),
        v.has(context_id),
        v.navigation_fault(context_id, v.context(context_id).history.current().url) is None,
        v.commit_fault() is None,
        v.carries_out(BrowserCommand::Reload { context_id }, after, r),
    ensures
        ({
            let n = NavigationId { raw: v.ids.next_navigation };
            let before = v.context(context_id).history;
            let history = history_on_arrival(after, context_id, n, final_url, title);
            &&& r is Ok
            &&& sets_out(v, after, context_id, n, before.entries[before.index].url, None)
            &&& if final_url == before.entries[before.index].url {
                history == before
            } else {
                turned_into(before, history, page_at(final_url))
            }
        }),
{
    let n = NavigationId { raw: v.ids.next_navigation };
    let before = v.context(context_id).history;
    let update = UpdateView::Preserve(before);
    beginnings_set_out(
        v,
        context_id,
        before.current().url,
        None,
        update,
        CrossDocumentNavigationKind::Regular,
        None,
    );
    assert(v.contexts.contains_key(context_id.raw));
    arrival_history(after, context_id, n, update, final_url, title);
}

/// To go back or forward by some entries loads the URL of the entry there. When
/// the page arrives, that entry is current, and no other entry has changed. Where
/// there is no such entry, nothing happens.
pub proof fn traversals_move_through_the_history(
    v: CoreView,
    context_id: BrowsingContextId,
    delta: i32,
    after: CoreView,
    r: Result<CommandOutcome, BrowserError>,
    final_url: Seq<char>,
    title: Option<Seq<char>>,
)
    requires
        v.valid(),
        v.has(context_id),
        v.ids.next_navigation != 0,
        v.ids.next_request != 0,
        v.commit_fault() is None,
        v.carries_out(BrowserCommand::TraverseHistory { context_id, delta }, after, r),
    ensures
        ({
            let n = NavigationId { raw: v.ids.next_navigation };
            let before = v.context(context_id).history;
            let place = before.index + delta;
            let history = history_on_arrival(after, context_id, n, final_url, title);
            if 0 <= place < before.entries.len() {
                crate::browser::limits::url_ok(before.entries[place].url) ==> {
                    &&& r is Ok
                    &&& sets_out(v, after, context_id, n, before.entries[place].url, None)
                    &&& history.index == place
                    &&& history.entries.len() == before.entries.len()
                    &&& history.entries[place].url == final_url
                    &&& final_url == before.entries[place].url ==> history.entries
                        == before.entries
                    &&& forall|i: int|
                        0 <= i < before.entries.len() && i != place
                            ==> #[trigger] history.entries[i] == before.entries[i]
                }
            } else {
                after == v && r == Ok::<CommandOutcome, BrowserError>(
                    CommandOutcome::Done(BrowserCommandResult::Accepted),
                )
            }
        }),
{
    let n = NavigationId { raw: v.ids.next_navigation };
    let before = v.context(context_id).history;
    let place = before.index + delta;
    assert(v.contexts.contains_key(context_id.raw));
    if 0 <= place < before.entries.len() && crate::browser::limits::url_ok(
        before.entries[place].url,
    ) {
        let moved = before.moved(delta as int);
        let update = UpdateView::Preserve(moved);
        beginnings_set_out(
            v,
            context_id,
            moved.current().url,
            None,
            update,
            CrossDocumentNavigationKind::Regular,
            None,
        );
        arrival_history(after, context_id, n, update, final_url, title);
    }
}

/// To stop ends what is under way in a context and leaves the page as it is. The
/// host is asked to cancel a load that is not over.
pub proof fn stopping_keeps_the_page(
    v: CoreView,
    context_id: BrowsingContextId,
    after: CoreView,
    r: Result<CommandOutcome, BrowserError>,
)
    requires
        v.has(context_id),
        v.carries_out(BrowserCommand::Stop { context_id }, after, r),
    ensures
        r is Ok,
        after.has(context_id),
        after.context(context_id).active_navigation is None,
        stays_put(v, after, context_id),
        v.context(context_id).active_navigation is None ==> after == v,
        v.context(context_id).active_navigation matches Some(active) ==> {
            &&& after.events.contains(
                EventView::NavigationCancelled {
                    context_id,
                    frame_id: v.context(context_id).frame_id,
                    navigation_id: active.navigation_id,
                    request_id: Some(active.request_id),
                    reason: NavigationCancellationReason::Stopped,
                },
            )
            &&& after.requests == if active.loading {
                v.requests.push(
                    HostRequest::CancelLoad { context_id, navigation_id: active.navigation_id },
                )
            } else {
                v.requests
            }
        },
{
    if let Some(active) = v.context(context_id).active_navigation {
        let context = v.context(context_id);
        let end = context.end_events(
            context_id,
            active,
            TerminalView::Cancelled { reason: NavigationCancellationReason::Stopped },
            true,
        );
        let stopped = context.script_cancelled(context_id, active);
        let k = (v.events.len() + stopped.len() + 1) as int;
        assert(after.events[k] == end[stopped.len() as int + 1]);
    }
}

/// A navigation that fails leaves the page as it is, and the frontends hear of
/// the error.
pub proof fn failures_keep_the_page(
    v: CoreView,
    context_id: BrowsingContextId,
    n: NavigationId,
    error: ErrorView,
)
    requires
        v.is_current(context_id, n),
    ensures
        ({
            let after = v.load_ended(context_id, n, Err(error));
            &&& after.context(context_id).active_navigation is None
            &&& stays_put(v, after, context_id)
            &&& v.events.is_prefix_of(after.events)
            &&& after.events.contains(
                EventView::NavigationFailed {
                    context_id,
                    frame_id: v.context(context_id).frame_id,
                    navigation_id: n,
                    request_id: Some(
                        v.context(context_id).active_navigation->Some_0.request_id,
                    ),
                    error,
                },
            )
        }),
{
    let after = v.load_ended(context_id, n, Err(error));
    let k = (v.events.len() + 1) as int;
    assert(after.events[k] is NavigationFailed);
}

/// A redirect changes only the request that is under way: the next one has an id
/// of its own. The frontends hear where it came from, where it goes and why.
pub proof fn redirects_change_the_request(
    v: CoreView,
    context_id: BrowsingContextId,
    n: NavigationId,
    from_url: Seq<char>,
    to_url: Seq<char>,
    status: u16,
)
    requires
        v.is_current(context_id, n),
        v.ids.next_request != 0,
    ensures
        ({
            let after = v.redirected(context_id, n, from_url, to_url, status);
            let frame_id = v.context(context_id).frame_id;
            let old_request = v.context(context_id).active_navigation->Some_0.request_id;
            let next_request_id = RequestId { raw: v.ids.next_request };
            &&& after.is_current(context_id, n)
            &&& stays_put(v, after, context_id)
            &&& after.context(context_id).active_navigation->Some_0.request_id == next_request_id
            &&& after.context(context_id).active_navigation->Some_0.history_update == v.context(
                context_id,
            ).active_navigation->Some_0.history_update
            &&& after.events == v.events.push(
                EventView::NavigationRedirected {
                    context_id,
                    frame_id,
                    navigation_id: n,
                    request_id: old_request,
                    next_request_id,
                    from_url,
                    to_url,
                    status,
                },
            )
        }),
{
    let after = v.redirected(context_id, n, from_url, to_url, status);
    assert(after.events =~= v.events.push(after.events.last()));
}

/// When a page takes the place of another, its context has the document, the
/// runtime, the title and the history of the new page. The ids are fresh, the
/// runtime of the old page is free, and the frontends hear that the old document
/// is gone and which one, from which URL, is there.
pub proof fn commits_put_the_new_page_in_place(
    v: CoreView,
    context_id: BrowsingContextId,
    n: NavigationId,
    url: Seq<char>,
    title: Option<Seq<char>>,
)
    requires
        v.valid(),
        v.is_current(context_id, n),
        v.commit_fault() is None,
    ensures
        ({
            let plan = v.commit_plan(context_id, n, url, title);
            let after = v.commit_begun(context_id, n).commit_ended(plan, Ok(()));
            let old_page = v.context(context_id);
            let page = after.context(context_id);
            let document_id = DocumentId { raw: v.ids.next_document };
            let runtime_context_id = RuntimeContextId { raw: v.ids.next_runtime };
            &&& page.document_id == document_id
            &&& page.runtime_context_id == runtime_context_id
            &&& page.title == title
            &&& page.history.entries[page.history.index].url == url
            &&& page.page_zoom == old_page.page_zoom
            &&& page.host_view == old_page.host_view
            &&& page.config == old_page.config
            &&& page.frame_id == old_page.frame_id
            &&& page.runtime_slot == v.runtime_slots.len()
            &&& after.runtime_slots.len() == v.runtime_slots.len() + 1
            &&& after.runtime_slots[page.runtime_slot]
            &&& !after.runtime_slots[old_page.runtime_slot]
            &&& after.ids.next_document != v.ids.next_document
            &&& after.ids.next_runtime != v.ids.next_runtime
            &&& after.is_current(context_id, n)
            &&& after.events == v.events + seq![
                EventView::RuntimeContextDestroyed {
                    context_id,
                    frame_id: old_page.frame_id,
                    document_id: old_page.document_id,
                    runtime_context_id: old_page.runtime_context_id,
                },
                EventView::DocumentDiscarded {
                    context_id,
                    frame_id: old_page.frame_id,
                    document_id: old_page.document_id,
                    replaced_by: Some(n),
                },
                EventView::NavigationCommitted {
                    context_id,
                    frame_id: old_page.frame_id,
                    navigation_id: n,
                    request_id: Some(old_page.active_navigation->Some_0.request_id),
                    document_id,
                    runtime_context_id: Some(runtime_context_id),
                    url,
                },
                EventView::RuntimeContextCreated {
                    context_id,
                    frame_id: old_page.frame_id,
                    document_id,
                    runtime_context_id,
                },
                EventView::phase(
                    context_id,
                    old_page.frame_id,
                    n,
                    NavigationPhase::ScriptsAndSubresources,
                ),
            ]
        }),
{
    assert(v.contexts.contains_key(context_id.raw));
    let ready = v.commit_begun(context_id, n);
    assert(ready.is_current(context_id, n));
}

/// A frontend sees the page that its context is on: the URL of the current entry,
/// where that entry stands, whether there is one behind it or ahead of it, and
/// whether something is loading.
pub proof fn states_tell_of_the_page(c: ContextView, context_id: BrowsingContextId)
    requires
        c.history.valid(),
    ensures
        ({
            let s = c.state(context_id);
            &&& s.context_id == context_id
            &&& s.document_id == c.document_id
            &&& s.main_frame_id == c.frame_id
            &&& s.runtime_context_id == Some(c.runtime_context_id)
            &&& s.title == c.title
            &&& s.page_zoom == c.page_zoom
            &&& s.url == c.history.entries[c.history.index].url
            &&& s.history_length == c.history.entries.len()
            &&& s.history_index == c.history.index
            &&& s.can_go_back <==> c.history.index > 0
            &&& s.can_go_forward <==> c.history.index + 1 < c.history.entries.len()
            &&& s.is_loading <==> c.active_navigation is Some
            &&& s.load_progress == 100 <==> c.active_navigation is None
            &&& s.load_progress < 100 <==> c.active_navigation is Some
            &&& match c.active_navigation {
                Some(active) => s.active_navigation_id == Some(active.navigation_id),
                None => s.active_navigation_id is None,
            }
        }),
{
}

/// What is asked about a context is answered from it, and changes nothing: its
/// state, and its history with the entries in their order.
pub proof fn answers_come_from_the_context(
    v: CoreView,
    context_id: BrowsingContextId,
    after: CoreView,
    r: Result<CommandOutcome, BrowserError>,
    later: CoreView,
    q: Result<CommandOutcome, BrowserError>,
    i: int,
)
    requires
        v.has(context_id),
        v.context(context_id).history.valid(),
        v.carries_out(BrowserCommand::GetBrowsingContextState { context_id }, after, r),
        v.carries_out(BrowserCommand::GetNavigationHistory { context_id }, later, q),
        0 <= i < v.context(context_id).history.entries.len(),
    ensures
        after == v,
        later == v,
        r matches Ok(CommandOutcome::Done(BrowserCommandResult::BrowsingContextState(state)))
            && state.url@ == v.context(context_id).history.current().url && state.context_id
            == context_id && state.history_index == v.context(context_id).history.index,
        q matches Ok(CommandOutcome::Done(BrowserCommandResult::NavigationHistory(snapshot)))
            && snapshot.current_index == v.context(context_id).history.index
            && snapshot.entries@.len() == v.context(context_id).history.entries.len() && ({
            let entry = v.context(context_id).history.entries[i];
            &&& snapshot.entries@[i].url@ == entry.url
            &&& crate::browser::history::optional_text(snapshot.entries@[i].title) == entry.title
            &&& snapshot.entries@[i].same_document <==> entry.state is Some
        }),
{
    let h = v.context(context_id).history;
    if let Ok(CommandOutcome::Done(BrowserCommandResult::NavigationHistory(snapshot))) = q {
        let views = crate::browser::contexts::item_views(snapshot.entries@);
        assert(views == crate::browser::contexts::history_items(h));
        assert(views.len() == snapshot.entries@.len());
        assert(views[i] == snapshot.entries@[i]@);
    }
}

/// To forget the history leaves the current page alone in it; to change the zoom
/// or the view changes that alone; to activate a context makes it the active one.
pub proof fn small_commands_change_one_thing(
    v: CoreView,
    context_id: BrowsingContextId,
    zoom: Float64,
    forgotten: CoreView,
    r: Result<CommandOutcome, BrowserError>,
    zoomed: CoreView,
    q: Result<CommandOutcome, BrowserError>,
    activated: CoreView,
    p: Result<CommandOutcome, BrowserError>,
)
    requires
        v.has(context_id),
        crate::browser::limits::zoom_ok(zoom),
        v.carries_out(BrowserCommand::ResetNavigationHistory { context_id }, forgotten, r),
        v.carries_out(BrowserCommand::SetPageZoom { context_id, zoom }, zoomed, q),
        v.carries_out(BrowserCommand::ActivateBrowsingContext { context_id }, activated, p),
    ensures
        r is Ok,
        q is Ok,
        p is Ok,
        forgotten == v.with_context(
            context_id,
            ContextView { history: forgotten.context(context_id).history, ..v.context(context_id) },
        ),
        forgotten.context(context_id).history.entries == seq![
            page_at(v.context(context_id).history.current().url),
        ],
        forgotten.context(context_id).history.index == 0,
        zoomed == v.with_context(
            context_id,
            ContextView { page_zoom: zoom, ..v.context(context_id) },
        ),
        activated.active_context == Some(context_id),
        activated.contexts == v.contexts,
        activated.events == v.events.push(
            EventView::ActiveBrowsingContextChanged { context_id: Some(context_id) },
        ),
{
    assert(activated.events =~= v.events.push(
        EventView::ActiveBrowsingContextChanged { context_id: Some(context_id) },
    ));
}

} // verus!
