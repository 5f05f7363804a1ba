//! What becomes of the things that scripts ask for.

use vstd::prelude::*;

use crate::browser::actions::{NavigationAction, PreparedView, SubmissionView, UpdateView};
use crate::browser::commands::{Carried, OutcomeView};
use crate::browser::error::{ErrorCode, ErrorView};
use crate::browser::events::CrossDocumentNavigationKind;
use crate::browser::history::{HistoryEntryView, HistoryView};
use crate::browser::ids::{BrowsingContextId, DocumentId, NavigationId};
use crate::browser::registry::{CoreView, HostRequest};

verus! {

/// One action whose history and outcome are these comes to these alone.
proof fn one_action(
    history: HistoryView,
    document_id: DocumentId,
    max_body_bytes: u64,
    action: NavigationAction,
)
    ensures
        crate::browser::actions::actions_outcome(
            history,
            document_id,
            max_body_bytes,
            seq![action],
        ) == crate::browser::actions::action_step(history, document_id, max_body_bytes, action),
{
    reveal_with_fuel(crate::browser::actions::actions_outcome, 2);
    assert(seq![action].drop_last() =~= Seq::<NavigationAction>::empty());
    if let Ok((after, more)) = crate::browser::actions::action_step(
        history,
        document_id,
        max_body_bytes,
        action,
    ) {
        assert(Seq::<PreparedView>::empty() + more =~= more);
    }
}

/// What one action that can be prepared comes to.
proof fn one_wish(
    v: CoreView,
    context_id: BrowsingContextId,
    action: NavigationAction,
    predecessor: Option<NavigationId>,
)
    requires
        v.has(context_id),
        !(action is Overflow),
    ensures
        v.applied(context_id, seq![action], predecessor) == match
            crate::browser::actions::action_step(
            v.context(context_id).history,
            v.context(context_id).document_id,
            v.max_body_bytes,
            action,
        ) {
            Err(e) => Carried { error: Some(e), ..Carried::start(v, predecessor) },
            Ok((_, prepared)) => Carried::start(v, predecessor).steps(context_id, prepared),
        },
{
    let context = v.context(context_id);
    one_action(context.history, context.document_id, v.max_body_bytes, action);
    assert(!crate::browser::commands::too_many_actions(seq![action])) by {
        assert(seq![action][0] == action);
    }
}

/// One step of one prepared action.
proof fn one_step(c: Carried, context_id: BrowsingContextId, prepared: PreparedView)
    ensures
        c.steps(context_id, seq![prepared]) == c.step(context_id, prepared),
        c.steps(context_id, Seq::empty()) == c,
{
    reveal_with_fuel(Carried::steps, 2);
    assert(seq![prepared].drop_last() =~= Seq::<PreparedView>::empty());
}

/// A script changes the history of its page without leaving the document: the new
/// entry has the URL and the state that the script gave, and its title where that
/// is not empty. To push adds the entry right behind the current one; to replace
/// puts it in the place of the current one. Nothing is loaded, the document stays,
/// and the host is told to bring the page up to date.
pub proof fn scripts_change_the_history_in_place(
    v: CoreView,
    context_id: BrowsingContextId,
    url: String,
    state_json: String,
    title: String,
    replace: bool,
    predecessor: Option<NavigationId>,
)
    requires
        v.valid(),
        v.has(context_id),
        crate::browser::limits::url_ok(url@),
        crate::browser::actions::history_text_fault(
            v.context(context_id).history.current().url,
            url@,
        ) is None,
    ensures
        ({
            let action = if replace {
                NavigationAction::HistoryReplace { url, state_json, title }
            } else {
                NavigationAction::HistoryPush { url, state_json, title }
            };
            let carried = v.applied(context_id, seq![action], predecessor);
            let after = carried.browser;
            let entry = HistoryEntryView {
                url: url@,
                title: if title@.len() > 0 {
                    Some(title@)
                } else {
                    None
                },
                state: Some(state_json@),
            };
            let (old_history, history) = (
                v.context(context_id).history,
                after.context(context_id).history,
            );
            &&& carried.error is None
            &&& carried.outcomes == seq![OutcomeView::SameDocument { url: url@ }]
            &&& if replace {
                crate::browser::journeys::turned_into(old_history, history, entry)
            } else {
                crate::browser::journeys::grew_by(old_history, history, entry)
            }
            &&& after.context(context_id).document_id == v.context(context_id).document_id
            &&& after.context(context_id).active_navigation == v.context(
                context_id,
            ).active_navigation
            &&& after.pending_load_starts == v.pending_load_starts
            &&& after.ids == v.ids
            &&& after.requests == v.requests.push(
                HostRequest::SyncPageRealm {
                    context_id,
                    runtime_slot: v.context(context_id).runtime_slot as usize,
                },
            )
        }),
{
    let action = if replace {
        NavigationAction::HistoryReplace { url, state_json, title }
    } else {
        NavigationAction::HistoryPush { url, state_json, title }
    };
    assert(v.contexts.contains_key(context_id.raw));
    one_wish(v, context_id, action, predecessor);
    let h = v.context(context_id).history;
    let after = crate::browser::actions::history_state(
        h,
        url@,
        state_json@,
        title@,
        replace,
    )->Ok_0;
    let prepared = PreparedView::SameDocument { history: after, url: after.current().url };
    let start = Carried::start(v, predecessor);
    one_step(start, context_id, prepared);
    assert(start.outcomes.push(OutcomeView::SameDocument { url: url@ }) =~= seq![
        OutcomeView::SameDocument { url: url@ },
    ]);
}

/// A script may not put a URL in the history that is too long or that its page may
/// not show: the action is refused, and nothing changes.
pub proof fn foreign_history_is_refused(
    v: CoreView,
    context_id: BrowsingContextId,
    url: String,
    state_json: String,
    title: String,
    replace: bool,
    predecessor: Option<NavigationId>,
)
    requires
        v.has(context_id),
        !crate::browser::limits::url_ok(url@) || crate::browser::actions::history_text_fault(
            v.context(context_id).history.current().url,
            url@,
        ) is Some,
    ensures
        ({
            let action = if replace {
                NavigationAction::HistoryReplace { url, state_json, title }
            } else {
                NavigationAction::HistoryPush { url, state_json, title }
            };
            let carried = v.applied(context_id, seq![action], predecessor);
            &&& carried.browser == v
            &&& carried.outcomes.len() == 0
            &&& carried.error matches Some(e) && e.code == ErrorCode::InvalidArgument
        }),
{
    let action = if replace {
        NavigationAction::HistoryReplace { url, state_json, title }
    } else {
        NavigationAction::HistoryPush { url, state_json, title }
    };
    one_wish(v, context_id, action, predecessor);
}

/// A page may show a URL in its history exactly where both are URLs and either
/// both are files or they are of one origin.
pub proof fn pages_show_their_own_origin(current: Seq<char>, next: Seq<char>)
    ensures
        crate::browser::actions::history_text_fault(current, next) is None <==> ({
            &&& crate::weburl::parsed_url(current) matches Ok(a)
            &&& crate::weburl::parsed_url(next) matches Ok(b)
            &&& (a.scheme == "file"@ && b.scheme == "file"@) || crate::weburl::one_origin(
                current,
                next,
            )
        }),
{
}

/// A script goes through the history. Where there is no entry, nothing happens. An
/// entry that a script made is shown at once, in the same document: only which
/// entry is current changes. Any other entry is loaded, and becomes current when
/// it arrives.
pub proof fn scripts_go_through_the_history(
    v: CoreView,
    context_id: BrowsingContextId,
    delta: i32,
    predecessor: Option<NavigationId>,
    title: Option<Seq<char>>,
)
    requires
        v.valid(),
        v.has(context_id),
        v.ids.next_navigation != 0,
        v.ids.next_request != 0,
        v.commit_fault() is None,
    ensures
        ({
            let carried = v.applied(
                context_id,
                seq![NavigationAction::HistoryTraverse { delta }],
                predecessor,
            );
            let n = NavigationId { raw: v.ids.next_navigation };
            let before = v.context(context_id).history;
            let place = before.index + delta;
            let moved = HistoryView { entries: before.entries, index: place };
            if !(0 <= place < before.entries.len()) {
                carried.browser == v && carried.error is None && carried.outcomes.len() == 0
            } else if before.entries[place].state is Some {
                &&& carried.error is None
                &&& carried.browser.context(context_id).history == moved
                &&& carried.browser.pending_load_starts == v.pending_load_starts
                &&& carried.browser.context(context_id).document_id == v.context(
                    context_id,
                ).document_id
                &&& delta == 0 ==> carried.browser == v
            } else {
                let url = before.entries[place].url;
                crate::browser::limits::url_ok(url) ==> {
                    &&& carried.error is None
                    &&& crate::browser::journeys::sets_out(
                        v,
                        carried.browser,
                        context_id,
                        n,
                        url,
                        None,
                    )
                    &&& crate::browser::journeys::history_on_arrival(
                        carried.browser,
                        context_id,
                        n,
                        url,
                        title,
                    ) == moved
                }
            }
        }),
{
    let action = NavigationAction::HistoryTraverse { delta };
    let before = v.context(context_id).history;
    let place = before.index + delta;
    let after = before.moved(delta as int);
    let start = Carried::start(v, predecessor);
    assert(v.contexts.contains_key(context_id.raw));
    one_wish(v, context_id, action, predecessor);
    let none = PreparedView::SameDocument { history: after, url: after.current().url };
    one_step(start, context_id, none);
    if 0 <= place < before.entries.len() && before.entries[place].state is None
        && crate::browser::limits::url_ok(before.entries[place].url) {
        let url = before.entries[place].url;
        crate::browser::journeys::scripted_arrivals(
            v,
            context_id,
            action,
            predecessor,
            url,
            None,
            UpdateView::Preserve(after),
            CrossDocumentNavigationKind::Regular,
            url,
            title,
        );
    }
}

/// A script replaces the content of its page: the document it gave is loaded at
/// the URL that the page has, and when it arrives there the history is as it was.
/// One that is too large is refused.
pub proof fn replaced_content_keeps_the_history(
    v: CoreView,
    context_id: BrowsingContextId,
    html: String,
    predecessor: Option<NavigationId>,
    title: Option<Seq<char>>,
)
    requires
        v.valid(),
        v.navigation_fault(context_id, v.context(context_id).history.current().url) is None,
        v.commit_fault() is None,
    ensures
        ({
            let carried = v.applied(
                context_id,
                seq![NavigationAction::SetContent { html }],
                predecessor,
            );
            let n = NavigationId { raw: v.ids.next_navigation };
            let before = v.context(context_id).history;
            let url = before.entries[before.index].url;
            if crate::text::byte_count(html@) <= v.max_body_bytes {
                &&& carried.error is None
                &&& crate::browser::journeys::sets_out(
                    v,
                    carried.browser,
                    context_id,
                    n,
                    url,
                    Some(html@),
                )
                &&& crate::browser::journeys::history_on_arrival(
                    carried.browser,
                    context_id,
                    n,
                    url,
                    title,
                ) == before
            } else {
                carried.browser == v && carried.error is Some
            }
        }),
{
    let action = NavigationAction::SetContent { html };
    let context = v.context(context_id);
    assert(v.contexts.contains_key(context_id.raw));
    one_wish(v, context_id, action, predecessor);
    if crate::text::byte_count(html@) <= v.max_body_bytes {
        crate::browser::journeys::scripted_arrivals(
            v,
            context_id,
            action,
            predecessor,
            context.history.current().url,
            Some(html@),
            UpdateView::Preserve(context.history),
            CrossDocumentNavigationKind::ContentReplacement {
                replaced_document_id: context.document_id,
            },
            context.history.current().url,
            title,
        );
    }
}

/// The method of a submission decides where its data goes. A dialog goes nowhere.
/// With `post` the data does not go into the URL. With any other method, the URL
/// is the action alone where there is no data, and otherwise the action with the
/// data in its query, behind what is there already.
pub proof fn methods_decide_where_data_goes(
    s: SubmissionView,
    action: Seq<char>,
    method: Seq<char>,
    resolved: Option<String>,
)
    ensures
        ({
            let verb = crate::text::lowered(s.method);
            let r = crate::browser::actions::form_navigation(Some(s), action, method, resolved);
            let fits = crate::browser::limits::url_ok(s.action);
            &&& verb == "dialog"@ ==> r == Ok::<Option<Seq<char>>, ErrorView>(None)
            &&& verb == "post"@ && fits ==> r == Ok::<Option<Seq<char>>, ErrorView>(Some(s.action))
            &&& verb != "dialog"@ && verb != "post"@ && s.body.len() == 0 && fits ==> r == Ok::<
                Option<Seq<char>>,
                ErrorView,
            >(Some(s.action))
            &&& verb != "dialog"@ && verb != "post"@ && s.body.len() > 0 ==> match
                crate::weburl::parsed_url(s.action) {
                Err(_) => r is Err,
                Ok(parts) => {
                    let data = crate::weburl::lossy_text(s.body);
                    let query = match parts.query {
                        Some(q) => if q.len() > 0 {
                            q + "&"@ + data
                        } else {
                            data
                        },
                        None => data,
                    };
                    let url = crate::weburl::url_with_query(s.action, query)->Some_0;
                    if crate::browser::limits::url_ok(url) {
                        r == Ok::<Option<Seq<char>>, ErrorView>(Some(url))
                    } else {
                        r is Err
                    }
                },
            }
            &&& verb != "dialog"@ && (verb == "post"@ || s.body.len() == 0) && !fits ==> r is Err
        }),
{
    reveal_strlit("dialog");
    reveal_strlit("post");
    assert("dialog"@.len() != "post"@.len());
}

/// The form that a script submits: the one found by its node, where the script
/// names a node, before the one found by its id. One that is found only by its
/// id, although a node was named, goes where and how the script says, with the
/// data of the form. A script that names no form submits none.
pub proof fn nodes_come_before_ids(
    form_id: Seq<char>,
    form_node_id: usize,
    action: Seq<char>,
    method: Seq<char>,
    lookups: crate::browser::actions::FormLookups,
)
    ensures
        ({
            let r = crate::browser::actions::chosen_submission(
                form_id,
                form_node_id,
                action,
                method,
                lookups,
            );
            &&& form_node_id != 0 && lookups.by_node is Ok ==> r == Ok::<
                Option<SubmissionView>,
                Seq<char>,
            >(Some(lookups.by_node->Ok_0@))
            &&& form_node_id == 0 && form_id.len() > 0 && lookups.by_id is Ok ==> r == Ok::<
                Option<SubmissionView>,
                Seq<char>,
            >(Some(lookups.by_id->Ok_0@))
            &&& form_node_id == 0 && form_id.len() == 0 ==> r == Ok::<
                Option<SubmissionView>,
                Seq<char>,
            >(None)
            &&& form_node_id != 0 && lookups.by_node is Err && form_id.len() > 0
                && lookups.by_id is Ok ==> (r matches Ok(Some(t)) && t.body
                == lookups.by_id->Ok_0.body@ && t.method == method && t.action == match lookups.resolved_action {
                Some(url) => url@,
                None => action,
            })
            &&& (form_node_id != 0 || form_id.len() > 0) && lookups.by_node is Err
                && lookups.by_id is Err ==> r is Err
        }),
{
}

/// A form that is submitted by its node and goes somewhere is a navigation like
/// any other: its page is one more entry of the history.
pub proof fn submissions_add_an_entry(
    v: CoreView,
    context_id: BrowsingContextId,
    action: NavigationAction,
    url: Seq<char>,
    predecessor: Option<NavigationId>,
    final_url: Seq<char>,
    title: Option<Seq<char>>,
)
    requires
        v.valid(),
        v.navigation_fault(context_id, url) is None,
        v.commit_fault() is None,
        action matches NavigationAction::FormSubmit { form_id, form_node_id, action, method, lookups }
            && (crate::browser::actions::chosen_submission(
            form_id@,
            form_node_id,
            action@,
            method@,
            lookups,
        ) matches Ok(submission) && crate::browser::actions::form_navigation(
            submission,
            action@,
            method@,
            lookups.resolved_action,
        ) == Ok::<Option<Seq<char>>, ErrorView>(Some(url))),
    ensures
        ({
            let carried = v.applied(context_id, seq![action], predecessor);
            let n = NavigationId { raw: v.ids.next_navigation };
            let before = v.context(context_id).history;
            let history = crate::browser::journeys::history_on_arrival(
                carried.browser,
                context_id,
                n,
                final_url,
                title,
            );
            &&& carried.error is None
            &&& crate::browser::journeys::sets_out(
                v,
                carried.browser,
                context_id,
                n,
                url,
                None,
            )
            &&& if crate::browser::journeys::is_blank(before) {
                crate::browser::journeys::turned_into(
                    before,
                    history,
                    crate::browser::journeys::page_at(final_url),
                )
            } else {
                crate::browser::journeys::grew_by(
                    before,
                    history,
                    crate::browser::journeys::page_at(final_url),
                )
            }
        }),
{
    assert(v.contexts.contains_key(context_id.raw));
    crate::browser::journeys::scripted_arrivals(
        v,
        context_id,
        action,
        predecessor,
        url,
        None,
        UpdateView::Push,
        CrossDocumentNavigationKind::Regular,
        final_url,
        title,
    );
}

/// Actions see what those before them did: what some actions and then some more
/// come to is what the later ones come to against the history that the earlier
/// ones left, behind what the earlier ones came to. A failure of either is the
/// failure of all.
pub proof fn later_actions_see_earlier_ones(
    history: HistoryView,
    document_id: DocumentId,
    max_body_bytes: u64,
    first: Seq<NavigationAction>,
    second: Seq<NavigationAction>,
)
    ensures
        crate::browser::actions::actions_outcome(
            history,
            document_id,
            max_body_bytes,
            first + second,
        ) == match crate::browser::actions::actions_outcome(
            history,
            document_id,
            max_body_bytes,
            first,
        ) {
            Err(e) => Err::<(HistoryView, Seq<PreparedView>), ErrorView>(e),
            Ok((between, prepared)) => match crate::browser::actions::actions_outcome(
                between,
                document_id,
                max_body_bytes,
                second,
            ) {
                Err(e) => Err(e),
                Ok((after, more)) => Ok((after, prepared + more)),
            },
        },
    decreases second.len(),
{
    if second.len() == 0 {
        assert(first + second =~= first);
        if let Ok((between, prepared)) = crate::browser::actions::actions_outcome(
            history,
            document_id,
            max_body_bytes,
            first,
        ) {
            assert(prepared + Seq::<PreparedView>::empty() =~= prepared);
        }
    } else {
        let d = second.drop_last();
        assert((first + second).drop_last() =~= first + d);
        later_actions_see_earlier_ones(history, document_id, max_body_bytes, first, d);
        if let Ok((between, prepared)) = crate::browser::actions::actions_outcome(
            history,
            document_id,
            max_body_bytes,
            first,
        ) {
            if let Ok((after, more)) = crate::browser::actions::actions_outcome(
                between,
                document_id,
                max_body_bytes,
                d,
            ) {
                if let Ok((last, extra)) = crate::browser::actions::action_step(
                    after,
                    document_id,
                    max_body_bytes,
                    second.last(),
                ) {
                    assert(prepared + more + extra =~= prepared + (more + extra));
                }
            }
        }
    }
}

/// Actions are queued in the order in which they come, behind those that are
/// queued already, and none is lost while there is room.
pub proof fn queued_actions_keep_their_order(
    queued: Seq<NavigationAction>,
    actions: Seq<NavigationAction>,
)
    ensures
        ({
            let after = crate::browser::actions::bounded_actions(queued, actions);
            let limit = crate::browser::limits::MAX_NAVIGATION_ACTIONS_PER_COMMAND;
            &&& after.is_prefix_of(queued + actions)
            &&& queued.len() + actions.len() <= limit ==> after == queued + actions
            &&& queued.len() + actions.len() > limit ==> after.len() > limit
        }),
{
    let after = crate::browser::actions::bounded_actions(queued, actions);
    assert(after =~= (queued + actions).take(after.len() as int));
    if queued.len() + actions.len() <= crate::browser::limits::MAX_NAVIGATION_ACTIONS_PER_COMMAND {
        assert(after =~= queued + actions);
    }
}

} // verus!
