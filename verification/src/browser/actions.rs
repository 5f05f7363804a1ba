//! Navigations that scripts ask for.
//!
//! A script queues actions; when it is done they are checked as a whole
//! against the page's history and turned into navigations. Either all of them
//! are carried out or none is.

use vstd::prelude::*;

use crate::browser::error::{joined, BrowserError, ErrorCode, ErrorView};
use crate::browser::events::CrossDocumentNavigationKind;
use crate::browser::history::{HistoryEntry, HistoryEntryView, HistoryView, SessionHistory};
use crate::browser::ids::DocumentId;
use crate::browser::limits::{
    validate_injected_html, validate_navigation_url, MAX_NAVIGATION_ACTIONS_PER_COMMAND,
};
use crate::text::{byte_len, chars_of, lower, same_text, spells};
use crate::weburl::{
    parse_url, share_origin, utf8_lossy, with_query, UrlParts, UrlView, MAX_URL_OFFSET,
};

verus! {

/// What a form would submit.
pub struct FormSubmission {
    pub action: String,
    pub method: String,
    pub body: Vec<u8>,
}

/// A [`FormSubmission`] as a value.
pub struct SubmissionView {
    pub action: Seq<char>,
    pub method: Seq<char>,
    pub body: Seq<u8>,
}

impl View for FormSubmission {
    type V = SubmissionView;

    open spec fn view(&self) -> SubmissionView {
        SubmissionView { action: self.action@, method: self.method@, body: self.body@ }
    }
}

/// What the page says of a form that a script submits.
pub struct FormLookups {
    /// The submission of the form found by its node.
    pub by_node: Result<FormSubmission, String>,
    /// The submission of the form found by its id.
    pub by_id: Result<FormSubmission, String>,
    /// The action of the script resolved against the page.
    pub resolved_action: Option<String>,
}

/// Something that a script wants to happen to the page.
pub enum NavigationAction {
    Navigate { url: String, replace: bool },
    SetContent { html: String },
    FormSubmit {
        form_id: String,
        form_node_id: usize,
        action: String,
        method: String,
        lookups: FormLookups,
    },
    HistoryPush { url: String, state_json: String, title: String },
    HistoryReplace { url: String, state_json: String, title: String },
    HistoryTraverse { delta: i32 },
    /// More actions were queued than are kept.
    Overflow,
}

/// How a navigation changes the session history when it commits.
pub enum HistoryUpdate {
    Push,
    Replace,
    Preserve(SessionHistory),
}

/// A [`HistoryUpdate`] as a value.
pub enum UpdateView {
    Push,
    Replace,
    Preserve(HistoryView),
}

impl View for HistoryUpdate {
    type V = UpdateView;

    open spec fn view(&self) -> UpdateView {
        match self {
            HistoryUpdate::Push => UpdateView::Push,
            HistoryUpdate::Replace => UpdateView::Replace,
            HistoryUpdate::Preserve(history) => UpdateView::Preserve(history@),
        }
    }
}

impl UpdateView {
    /// A history that is kept has a current entry.
    pub open spec fn valid(self) -> bool {
        self matches UpdateView::Preserve(history) ==> history.valid()
    }
}

impl HistoryUpdate {
    /// A copy of the update.
    pub fn copy(&self) -> (r: HistoryUpdate)
        ensures
            r@ == self@,
    {
        match self {
            HistoryUpdate::Push => HistoryUpdate::Push,
            HistoryUpdate::Replace => HistoryUpdate::Replace,
            HistoryUpdate::Preserve(history) => HistoryUpdate::Preserve(history.copy()),
        }
    }
}

/// An action that has passed every check.
pub enum PreparedNavigationAction {
    CrossDocument {
        url: String,
        injected_html: Option<String>,
        history_update: HistoryUpdate,
        kind: CrossDocumentNavigationKind,
    },
    SameDocument { history: SessionHistory, url: String },
}

/// A [`PreparedNavigationAction`] as a value.
pub enum PreparedView {
    CrossDocument {
        url: Seq<char>,
        injected_html: Option<Seq<char>>,
        history_update: UpdateView,
        kind: CrossDocumentNavigationKind,
    },
    SameDocument { history: HistoryView, url: Seq<char> },
}

impl View for PreparedNavigationAction {
    type V = PreparedView;

    open spec fn view(&self) -> PreparedView {
        match self {
            PreparedNavigationAction::CrossDocument { url, injected_html, history_update, kind } =>
            PreparedView::CrossDocument {
                url: url@,
                injected_html: match injected_html {
                    Some(html) => Some(html@),
                    None => None,
                },
                history_update: history_update@,
                kind: *kind,
            },
            PreparedNavigationAction::SameDocument { history, url } =>
            PreparedView::SameDocument { history: history@, url: url@ },
        }
    }
}

impl PreparedView {
    /// Prepared actions as values.
    pub open spec fn all(s: Seq<PreparedNavigationAction>) -> Seq<PreparedView> {
        Seq::new(s.len(), |i: int| s[i]@)
    }

    /// Every history in the action has a current entry.
    pub open spec fn valid(self) -> bool {
        match self {
            PreparedView::CrossDocument { history_update, .. } => history_update.valid(),
            PreparedView::SameDocument { history, .. } => history.valid(),
        }
    }
}

/// What queued actions become when `actions` follow: one more than the limit is
/// kept, so that an overflow shows.
pub open spec fn bounded_actions(
    queued: Seq<NavigationAction>,
    actions: Seq<NavigationAction>,
) -> Seq<NavigationAction> {
    if queued.len() > MAX_NAVIGATION_ACTIONS_PER_COMMAND {
        queued
    } else {
        let room = MAX_NAVIGATION_ACTIONS_PER_COMMAND + 1 - queued.len();
        if actions.len() <= room {
            queued + actions
        } else {
            queued + actions.subrange(0, room)
        }
    }
}

/// Adds actions to those queued, up to one more than the limit.
pub fn append_navigation_actions_bounded(
    queued: &mut Vec<NavigationAction>,
    actions: Vec<NavigationAction>,
)
    ensures
        final(queued)@ == bounded_actions(old(queued)@, actions@),
{
    if queued.len() > MAX_NAVIGATION_ACTIONS_PER_COMMAND {
        return;
    }
    let ghost before = queued@;
    let ghost added = actions@;
    let room: usize = MAX_NAVIGATION_ACTIONS_PER_COMMAND + 1 - queued.len();
    let mut actions = actions;
    if actions.len() > room {
        actions.truncate(room);
    }
    queued.append(&mut actions);
    assert(queued@ =~= bounded_actions(before, added));
}

/// The queue of actions never grows beyond one more than the limit.
pub proof fn queued_actions_stay_bounded(
    queued: Seq<NavigationAction>,
    actions: Seq<NavigationAction>,
)
    requires
        queued.len() <= MAX_NAVIGATION_ACTIONS_PER_COMMAND + 1,
    ensures
        bounded_actions(queued, actions).len() <= MAX_NAVIGATION_ACTIONS_PER_COMMAND + 1,
        queued.is_prefix_of(bounded_actions(queued, actions)),
{
}

/// Whether a script may put `next` in the history of a page at `current`: both
/// parse, and they are both files or of one origin.
pub open spec fn history_url_fault(
    current: Result<UrlView, Seq<char>>,
    next: Result<UrlView, Seq<char>>,
    one_origin: bool,
) -> Option<Seq<char>> {
    match current {
        Err(e) => Some("invalid current URL: "@ + e),
        Ok(current) => match next {
            Err(e) => Some("invalid history URL: "@ + e),
            Ok(next) => if (current.scheme == "file"@ && next.scheme == "file"@) || one_origin {
                None
            } else {
                Some("history state URL must be same-origin"@)
            },
        },
    }
}

/// Decides by two parsed URLs, and by whether they are of one origin, whether
/// the second may stand in the history of a page at the first.
pub fn admit_history_url(
    current: &Result<UrlParts, String>,
    next: &Result<UrlParts, String>,
    one_origin: bool,
) -> (r: Result<(), BrowserError>)
    ensures
        ErrorView::outcome(r) == match history_url_fault(
            UrlView::outcome(*current),
            UrlView::outcome(*next),
            one_origin,
        ) {
            Some(message) => Err(ErrorView::new(ErrorCode::InvalidArgument, message)),
            None => Ok(()),
        },
{
    match current {
        Err(e) => Err(
            BrowserError::with_message(
                ErrorCode::InvalidArgument,
                joined("invalid current URL: ", e.as_str()),
            ),
        ),
        Ok(current) => match next {
            Err(e) => Err(
                BrowserError::with_message(
                    ErrorCode::InvalidArgument,
                    joined("invalid history URL: ", e.as_str()),
                ),
            ),
            Ok(next) => {
                let files = same_text(current.scheme.as_str(), "file") && same_text(
                    next.scheme.as_str(),
                    "file",
                );
                if files || one_origin {
                    Ok(())
                } else {
                    Err(BrowserError::invalid("history state URL must be same-origin"))
                }
            },
        },
    }
}

/// What is wrong with putting `next` in the history of a page at `current`.
pub open spec fn history_text_fault(current: Seq<char>, next: Seq<char>) -> Option<Seq<char>> {
    history_url_fault(
        crate::weburl::parsed_url(current),
        crate::weburl::parsed_url(next),
        crate::weburl::one_origin(current, next),
    )
}

/// Refuses a URL that a script may not put in the history of a page at
/// `current`.
pub fn ensure_same_origin_history_url(current: &str, next: &str) -> (r: Result<(), BrowserError>)
    ensures
        ErrorView::outcome(r) == match history_text_fault(current@, next@) {
            Some(message) => Err(ErrorView::new(ErrorCode::InvalidArgument, message)),
            None => Ok(()),
        },
{
    let parsed_current = parse_url(current);
    let parsed_next = parse_url(next);
    let one_origin = share_origin(current, next);
    admit_history_url(&parsed_current, &parsed_next, one_origin)
}

/// The entry that a script makes: its title counts only where there is one.
pub open spec fn state_entry(
    url: Seq<char>,
    state_json: Seq<char>,
    title: Seq<char>,
) -> HistoryEntryView {
    HistoryEntryView {
        url,
        title: if title.len() > 0 {
            Some(title)
        } else {
            None
        },
        state: Some(state_json),
    }
}

/// The history after a script pushed or replaced an entry, or why it may not.
pub open spec fn history_state(
    history: HistoryView,
    url: Seq<char>,
    state_json: Seq<char>,
    title: Seq<char>,
    replace: bool,
) -> Result<HistoryView, ErrorView> {
    if !crate::browser::limits::url_ok(url) {
        Err(
            ErrorView::new(
                ErrorCode::InvalidArgument,
                "navigation URL exceeds the browser limit"@,
            ),
        )
    } else {
        match history_text_fault(history.current().url, url) {
            Some(message) => Err(ErrorView::new(ErrorCode::InvalidArgument, message)),
            None => Ok(
                if replace {
                    history.replaced(state_entry(url, state_json, title))
                } else {
                    history.pushed(state_entry(url, state_json, title))
                },
            ),
        }
    }
}

/// Pushes or replaces a history entry for a script.
pub fn prepare_history_state(
    history: &mut SessionHistory,
    url: String,
    state_json: String,
    title: String,
    replace: bool,
) -> (r: Result<(), BrowserError>)
    requires
        old(history).wf(),
    ensures
        final(history).wf(),
        match history_state(old(history)@, url@, state_json@, title@, replace) {
            Ok(after) => r is Ok && final(history)@ == after,
            Err(e) => r is Err && r->Err_0@ == e && final(history)@ == old(history)@,
        },
{
    match validate_navigation_url(url.as_str()) {
        Ok(()) => {},
        Err(e) => return Err(e),
    }
    match ensure_same_origin_history_url(history.url(), url.as_str()) {
        Ok(()) => {},
        Err(e) => return Err(e),
    }
    let mut entry = HistoryEntry::push_state(url, state_json);
    if !title.as_str().is_empty() {
        entry.title = Some(title);
    }
    if replace {
        history.replace(entry);
    } else {
        history.push(entry);
    }
    Ok(())
}

/// The query of a form submission: what the URL has, then the form's data.
pub open spec fn form_query(existing: Option<Seq<char>>, body: Seq<char>) -> Seq<char> {
    match existing {
        Some(query) => if query.len() > 0 {
            query + "&"@ + body
        } else {
            body
        },
        None => body,
    }
}

/// Joins the query that a URL has with the data of a form.
pub fn join_form_query(existing: &Option<String>, body: &str) -> (r: String)
    ensures
        r@ == form_query(UrlView::optional(*existing), body@),
{
    match existing {
        Some(query) => if !query.as_str().is_empty() {
            let mut r = joined(query.as_str(), "&");
            r.append(body);
            r
        } else {
            body.to_owned()
        },
        None => body.to_owned(),
    }
}

/// Where a form submission by query goes: to the action itself where there is
/// no data, and to the action with the data in its query otherwise.
pub open spec fn form_target(action: Seq<char>, body: Seq<u8>) -> Result<Seq<char>, ErrorView> {
    if body.len() == 0 {
        Ok(action)
    } else {
        match crate::weburl::parsed_url(action) {
            Err(e) => Err(
                ErrorView::new(ErrorCode::InvalidArgument, "invalid form action URL: "@ + e),
            ),
            Ok(parts) => Ok(
                crate::weburl::url_with_query(
                    action,
                    form_query(parts.query, crate::weburl::lossy_text(body)),
                )->Some_0,
            ),
        }
    }
}

/// An action whose query can take the data of a form: the query that the action
/// has is at most three times as long as the action, and so is the text of the
/// data. Without data the query stays as it is.
pub open spec fn form_fits(action: Seq<char>, body: Seq<u8>) -> bool {
    body.len() == 0 || 73 * crate::text::byte_count(action) + 9 * body.len() + 12
        <= crate::weburl::MAX_URL_OFFSET
}

/// Adds the data of a form to the query of its action.
pub fn append_form_query(action: &str, body: &[u8]) -> (r: Result<String, BrowserError>)
    requires
        form_fits(action@, body@),
    ensures
        match form_target(action@, body@) {
            Ok(url) => r is Ok && r->Ok_0@ == url,
            Err(e) => r is Err && r->Err_0@ == e,
        },
{
    if body.len() == 0 {
        return Ok(action.to_owned());
    }
    let parts = match parse_url(action) {
        Ok(parts) => parts,
        Err(e) => return Err(
            BrowserError::with_message(
                ErrorCode::InvalidArgument,
                joined("invalid form action URL: ", e.as_str()),
            ),
        ),
    };
    let text = utf8_lossy(body);
    let query = join_form_query(&parts.query, text.as_str());
    proof {
        reveal_strlit("&");
        if let Some(existing) = parts.query {
            crate::text::byte_count_of_concat(existing@ + "&"@, text@);
            crate::text::byte_count_of_concat(existing@, "&"@);
            assert(crate::text::byte_count("&"@) <= 4) by {
                reveal_with_fuel(vstd::utf8::encode_utf8, 2);
            }
        }
    }
    match with_query(action, query.as_str()) {
        Some(url) => Ok(url),
        None => Err(BrowserError::invalid("invalid form action URL: ")),
    }
}

/// The submission that a script's request comes to: the form found by its node,
/// else the one found by its id with the script's own action and method, else
/// none; or the page's words on why there is none.
pub open spec fn chosen_submission(
    form_id: Seq<char>,
    form_node_id: usize,
    action: Seq<char>,
    method: Seq<char>,
    lookups: FormLookups,
) -> Result<Option<SubmissionView>, Seq<char>> {
    if form_node_id != 0 {
        match lookups.by_node {
            Ok(submission) => Ok(Some(submission@)),
            Err(message) => if form_id.len() > 0 {
                match lookups.by_id {
                    Ok(submission) => Ok(
                        Some(
                            SubmissionView {
                                action: script_action(action, lookups.resolved_action),
                                method,
                                body: submission.body@,
                            },
                        ),
                    ),
                    Err(message) => Err(message@),
                }
            } else {
                Err(message@)
            },
        }
    } else if form_id.len() > 0 {
        match lookups.by_id {
            Ok(submission) => Ok(Some(submission@)),
            Err(message) => Err(message@),
        }
    } else {
        Ok(None)
    }
}

/// The action of a script, resolved where the page could.
pub open spec fn script_action(action: Seq<char>, resolved: Option<String>) -> Seq<char> {
    match resolved {
        Some(url) => url@,
        None => action,
    }
}

/// Where a script's form submission navigates to; `None` where a dialog form
/// navigates nowhere.
pub open spec fn form_navigation(
    submission: Option<SubmissionView>,
    action: Seq<char>,
    method: Seq<char>,
    resolved: Option<String>,
) -> Result<Option<Seq<char>>, ErrorView> {
    let target = match submission {
        Some(s) => s.action,
        None => script_action(action, resolved),
    };
    let verb = crate::text::lowered(
        match submission {
            Some(s) => s.method,
            None => method,
        },
    );
    if verb == "dialog"@ {
        Ok(None)
    } else {
        let url = if verb == "post"@ {
            Ok(target)
        } else {
            match submission {
                Some(s) => form_target(target, s.body),
                None => Ok(target),
            }
        };
        match url {
            Err(e) => Err(e),
            Ok(url) => if crate::browser::limits::url_ok(url) {
                Ok(Some(url))
            } else {
                Err(
                    ErrorView::new(
                        ErrorCode::InvalidArgument,
                        "navigation URL exceeds the browser limit"@,
                    ),
                )
            },
        }
    }
}

/// The form that a script submits is not one whose data goes into a URL, or the
/// URL can take it.
pub open spec fn submission_fits(
    form_id: Seq<char>,
    form_node_id: usize,
    action: Seq<char>,
    method: Seq<char>,
    lookups: FormLookups,
) -> bool {
    chosen_submission(form_id, form_node_id, action, method, lookups) matches Ok(Some(s)) ==> {
        let verb = crate::text::lowered(s.method);
        verb == "dialog"@ || verb == "post"@ || form_fits(s.action, s.body)
    }
}

/// Whether an action, submitted with a method, can take the data of a form.
fn takes_body(action: &str, method: &str, body: &Vec<u8>) -> (r: bool)
    ensures
        r == ({
            let verb = crate::text::lowered(method@);
            verb == "dialog"@ || verb == "post"@ || form_fits(action@, body@)
        }),
{
    let verb = lower(chars_of(method).as_slice());
    let room: u128 = 73 * byte_len(action) as u128 + 9 * body.len() as u128 + 12;
    spells(verb.as_slice(), "dialog") || spells(verb.as_slice(), "post") || body.len() == 0 || room
        <= MAX_URL_OFFSET as u128
}

/// Whether the form of an action can be submitted; an action without a form
/// always can.
pub fn action_fits(action: &NavigationAction) -> (r: bool)
    ensures
        r == fitting_action(*action),
{
    match action {
        NavigationAction::FormSubmit { form_id, form_node_id, action, method, lookups } => {
            if *form_node_id != 0 {
                match &lookups.by_node {
                    Ok(s) => takes_body(s.action.as_str(), s.method.as_str(), &s.body),
                    Err(_) => if form_id.as_str().is_empty() {
                        true
                    } else {
                        match &lookups.by_id {
                            Ok(s) => match &lookups.resolved_action {
                                Some(url) => takes_body(url.as_str(), method.as_str(), &s.body),
                                None => takes_body(action.as_str(), method.as_str(), &s.body),
                            },
                            Err(_) => true,
                        }
                    },
                }
            } else if form_id.as_str().is_empty() {
                true
            } else {
                match &lookups.by_id {
                    Ok(s) => takes_body(s.action.as_str(), s.method.as_str(), &s.body),
                    Err(_) => true,
                }
            }
        },
        _ => true,
    }
}

/// An action whose form, if it has one, can be submitted.
pub open spec fn fitting_action(action: NavigationAction) -> bool {
    action matches NavigationAction::FormSubmit { form_id, form_node_id, action, method, lookups }
        ==> submission_fits(form_id@, form_node_id, action@, method@, lookups)
}

/// The URL that a script's form submission navigates to.
pub fn resolve_form_submission(
    form_id: String,
    form_node_id: usize,
    action: String,
    method: String,
    lookups: FormLookups,
) -> (r: Result<Option<String>, BrowserError>)
    requires
        submission_fits(form_id@, form_node_id, action@, method@, lookups),
    ensures
        match chosen_submission(form_id@, form_node_id, action@, method@, lookups) {
            Err(message) => r is Err && r->Err_0@ == ErrorView::new(
                ErrorCode::InvalidArgument,
                message,
            ),
            Ok(submission) => match form_navigation(
                submission,
                action@,
                method@,
                lookups.resolved_action,
            ) {
                Err(e) => r is Err && r->Err_0@ == e,
                Ok(url) => r is Ok && UrlView::optional(r->Ok_0) == url,
            },
        },
{
    let own_action = match &lookups.resolved_action {
        Some(url) => url.clone(),
        None => action.clone(),
    };
    let submission: Option<FormSubmission> = if form_node_id != 0 {
        match lookups.by_node {
            Ok(submission) => Some(submission),
            Err(message) => if !form_id.as_str().is_empty() {
                match lookups.by_id {
                    Ok(submission) => Some(
                        FormSubmission {
                            action: own_action.clone(),
                            method: method.clone(),
                            body: submission.body,
                        },
                    ),
                    Err(message) => return Err(
                        BrowserError::with_message(ErrorCode::InvalidArgument, message),
                    ),
                }
            } else {
                return Err(BrowserError::with_message(ErrorCode::InvalidArgument, message));
            },
        }
    } else if !form_id.as_str().is_empty() {
        match lookups.by_id {
            Ok(submission) => Some(submission),
            Err(message) => return Err(
                BrowserError::with_message(ErrorCode::InvalidArgument, message),
            ),
        }
    } else {
        None
    };
    let verb = match &submission {
        Some(s) => lower(chars_of(s.method.as_str()).as_slice()),
        None => lower(chars_of(method.as_str()).as_slice()),
    };
    if spells(verb.as_slice(), "dialog") {
        return Ok(None);
    }
    let post = spells(verb.as_slice(), "post");
    let url = match submission {
        Some(s) => if post {
            s.action
        } else {
            match append_form_query(s.action.as_str(), s.body.as_slice()) {
                Ok(url) => url,
                Err(e) => return Err(e),
            }
        },
        None => own_action,
    };
    match validate_navigation_url(url.as_str()) {
        Ok(()) => Ok(Some(url)),
        Err(e) => Err(e),
    }
}

/// What one action comes to: the history as it stands afterwards, and the
/// navigation, if there is one.
pub open spec fn action_step(
    history: HistoryView,
    document_id: DocumentId,
    max_body_bytes: u64,
    action: NavigationAction,
) -> Result<(HistoryView, Seq<PreparedView>), ErrorView> {
    let too_long = ErrorView::new(
        ErrorCode::InvalidArgument,
        "navigation URL exceeds the browser limit"@,
    );
    match action {
        NavigationAction::Navigate { url, replace } => if crate::browser::limits::url_ok(url@) {
            Ok(
                (
                    history,
                    seq![
                        PreparedView::CrossDocument {
                            url: url@,
                            injected_html: None,
                            history_update: if replace {
                                UpdateView::Replace
                            } else {
                                UpdateView::Push
                            },
                            kind: CrossDocumentNavigationKind::Regular,
                        },
                    ],
                ),
            )
        } else {
            Err(too_long)
        },
        NavigationAction::SetContent { html } => if crate::text::byte_count(html@)
            <= max_body_bytes {
            Ok(
                (
                    history,
                    seq![
                        PreparedView::CrossDocument {
                            url: history.current().url,
                            injected_html: Some(html@),
                            history_update: UpdateView::Preserve(history),
                            kind: CrossDocumentNavigationKind::ContentReplacement {
                                replaced_document_id: document_id,
                            },
                        },
                    ],
                ),
            )
        } else {
            Err(
                ErrorView::new(
                    ErrorCode::InvalidArgument,
                    "injected document exceeds the browser body limit"@,
                ),
            )
        },
        NavigationAction::FormSubmit { form_id, form_node_id, action, method, lookups } =>
        match chosen_submission(form_id@, form_node_id, action@, method@, lookups) {
            Err(message) => Err(ErrorView::new(ErrorCode::InvalidArgument, message)),
            Ok(submission) => match form_navigation(
                submission,
                action@,
                method@,
                lookups.resolved_action,
            ) {
                Err(e) => Err(e),
                Ok(None) => Ok((history, Seq::empty())),
                Ok(Some(url)) => Ok(
                    (
                        history,
                        seq![
                            PreparedView::CrossDocument {
                                url,
                                injected_html: None,
                                history_update: UpdateView::Push,
                                kind: CrossDocumentNavigationKind::Regular,
                            },
                        ],
                    ),
                ),
            },
        },
        NavigationAction::HistoryPush { url, state_json, title } => match history_state(
            history,
            url@,
            state_json@,
            title@,
            false,
        ) {
            Err(e) => Err(e),
            Ok(after) => Ok(
                (
                    after,
                    seq![PreparedView::SameDocument { history: after, url: after.current().url }],
                ),
            ),
        },
        NavigationAction::HistoryReplace { url, state_json, title } => match history_state(
            history,
            url@,
            state_json@,
            title@,
            true,
        ) {
            Err(e) => Err(e),
            Ok(after) => Ok(
                (
                    after,
                    seq![PreparedView::SameDocument { history: after, url: after.current().url }],
                ),
            ),
        },
        NavigationAction::HistoryTraverse { delta } => {
            let after = history.moved(delta as int);
            if !history.can_go(delta as int) {
                Ok((history, Seq::empty()))
            } else if after.current().state is Some {
                if delta == 0 {
                    Ok((history, Seq::empty()))
                } else {
                    Ok(
                        (
                            after,
                            seq![
                                PreparedView::SameDocument {
                                    history: after,
                                    url: after.current().url,
                                },
                            ],
                        ),
                    )
                }
            } else if !crate::browser::limits::url_ok(after.current().url) {
                Err(too_long)
            } else {
                Ok(
                    (
                        history,
                        seq![
                            PreparedView::CrossDocument {
                                url: after.current().url,
                                injected_html: None,
                                history_update: UpdateView::Preserve(after),
                                kind: CrossDocumentNavigationKind::Regular,
                            },
                        ],
                    ),
                )
            }
        },
        NavigationAction::Overflow => Ok((history, Seq::empty())),
    }
}

/// What actions come to in order, each against the history that those before
/// it left behind. The first that fails stops the rest.
pub open spec fn actions_outcome(
    history: HistoryView,
    document_id: DocumentId,
    max_body_bytes: u64,
    actions: Seq<NavigationAction>,
) -> Result<(HistoryView, Seq<PreparedView>), ErrorView>
    decreases actions.len(),
{
    if actions.len() == 0 {
        Ok((history, Seq::empty()))
    } else {
        match actions_outcome(history, document_id, max_body_bytes, actions.drop_last()) {
            Err(e) => Err(e),
            Ok((before, prepared)) => match action_step(
                before,
                document_id,
                max_body_bytes,
                actions.last(),
            ) {
                Err(e) => Err(e),
                Ok((after, more)) => Ok((after, prepared + more)),
            },
        }
    }
}

/// Once an action has failed, those behind it change nothing.
pub proof fn failed_actions_stop_the_rest(
    history: HistoryView,
    document_id: DocumentId,
    max_body_bytes: u64,
    actions: Seq<NavigationAction>,
    i: int,
)
    requires
        0 <= i <= actions.len(),
        actions_outcome(history, document_id, max_body_bytes, actions.take(i)) is Err,
    ensures
        actions_outcome(history, document_id, max_body_bytes, actions) == actions_outcome(
            history,
            document_id,
            max_body_bytes,
            actions.take(i),
        ),
    decreases actions.len(),
{
    if i < actions.len() {
        assert(actions.drop_last().take(i) =~= actions.take(i));
        failed_actions_stop_the_rest(
            history,
            document_id,
            max_body_bytes,
            actions.drop_last(),
            i,
        );
    } else {
        assert(actions.take(i) =~= actions);
    }
}

/// The actions can be prepared: none of them reports an overflow, and where the
/// data of a form goes into a URL, the URL can take it.
pub open spec fn actions_preparable(actions: Seq<NavigationAction>) -> bool {
    forall|i: int|
        0 <= i < actions.len() ==> !(#[trigger] actions[i] is Overflow) && fitting_action(
            actions[i],
        )
}

/// Checks every action of a script and says what navigations they come to. The
/// actions see each other's changes to the history; the page sees none yet.
pub fn prepare_navigation_actions(
    history: &SessionHistory,
    document_id: DocumentId,
    max_body_bytes: u64,
    actions: Vec<NavigationAction>,
) -> (r: Result<Vec<PreparedNavigationAction>, BrowserError>)
    requires
        history.wf(),
        actions_preparable(actions@),
    ensures
        match actions_outcome(history@, document_id, max_body_bytes, actions@) {
            Err(e) => r is Err && r->Err_0@ == e,
            Ok((_, prepared)) => r is Ok && PreparedView::all(r->Ok_0@) == prepared,
        },
        r matches Ok(prepared) ==> forall|i: int|
            0 <= i < prepared@.len() ==> (#[trigger] prepared@[i])@.valid(),
{
    let ghost all = actions@;
    let mut simulated_history = history.copy();
    let mut prepared: Vec<PreparedNavigationAction> = Vec::new();
    assert(PreparedView::all(prepared@) =~= Seq::<PreparedView>::empty());
    for action in it: actions
        invariant
            it.seq() == all,
            actions_preparable(all),
            simulated_history.wf(),
            history.wf(),
            actions_outcome(history@, document_id, max_body_bytes, all.take(it.index()))
                == Ok::<(HistoryView, Seq<PreparedView>), ErrorView>(
                (simulated_history@, PreparedView::all(prepared@)),
            ),
            forall|i: int|
                0 <= i < prepared@.len() ==> (#[trigger] prepared@[i])@.valid(),
    {
        let ghost k = it.index();
        let ghost before = simulated_history@;
        let ghost done = prepared@;
        assert(action == all[k]);
        assert(all.take(k + 1).drop_last() =~= all.take(k));
        proof {
            if action_step(before, document_id, max_body_bytes, action) is Err {
                failed_actions_stop_the_rest(
                    history@,
                    document_id,
                    max_body_bytes,
                    all,
                    k + 1,
                );
            }
        }
        match prepare_action(&mut simulated_history, document_id, max_body_bytes, action) {
            Err(e) => return Err(e),
            Ok(None) => {
                assert(PreparedView::all(prepared@) =~= PreparedView::all(done) + Seq::<
                    PreparedView,
                >::empty());
            },
            Ok(Some(next)) => {
                prepared.push(next);
                assert(PreparedView::all(prepared@) =~= PreparedView::all(done) + seq![next@]);
            },
        }
    }
    assert(all.take(all.len() as int) =~= all);
    Ok(prepared)
}

/// A navigation, if there is one, as a sequence.
pub open spec fn prepared_seq(p: Option<PreparedNavigationAction>) -> Seq<PreparedView> {
    match p {
        Some(p) => seq![p@],
        None => Seq::empty(),
    }
}

/// Checks one action against the simulated history and moves that history on.
pub fn prepare_action(
    history: &mut SessionHistory,
    document_id: DocumentId,
    max_body_bytes: u64,
    action: NavigationAction,
) -> (r: Result<Option<PreparedNavigationAction>, BrowserError>)
    requires
        old(history).wf(),
        !(action is Overflow),
        fitting_action(action),
    ensures
        final(history).wf(),
        match action_step(old(history)@, document_id, max_body_bytes, action) {
            Err(e) => r is Err && r->Err_0@ == e && final(history)@ == old(history)@,
            Ok((after, prepared)) => r is Ok && final(history)@ == after && prepared_seq(r->Ok_0)
                == prepared,
        },
        r matches Ok(Some(p)) ==> p@.valid(),
{
    match action {
        NavigationAction::Navigate { url, replace } => {
            match validate_navigation_url(url.as_str()) {
                Ok(()) => {},
                Err(e) => return Err(e),
            }
            Ok(
                Some(
                    PreparedNavigationAction::CrossDocument {
                        url,
                        injected_html: None,
                        history_update: if replace {
                            HistoryUpdate::Replace
                        } else {
                            HistoryUpdate::Push
                        },
                        kind: CrossDocumentNavigationKind::Regular,
                    },
                ),
            )
        },
        NavigationAction::SetContent { html } => {
            match validate_injected_html(html.as_str(), max_body_bytes) {
                Ok(()) => {},
                Err(e) => return Err(e),
            }
            Ok(
                Some(
                    PreparedNavigationAction::CrossDocument {
                        url: history.url().to_owned(),
                        injected_html: Some(html),
                        history_update: HistoryUpdate::Preserve(history.copy()),
                        kind: CrossDocumentNavigationKind::ContentReplacement {
                            replaced_document_id: document_id,
                        },
                    },
                ),
            )
        },
        NavigationAction::FormSubmit { form_id, form_node_id, action, method, lookups } => {
            match resolve_form_submission(form_id, form_node_id, action, method, lookups) {
                Err(e) => Err(e),
                Ok(None) => Ok(None),
                Ok(Some(url)) => Ok(
                    Some(
                        PreparedNavigationAction::CrossDocument {
                            url,
                            injected_html: None,
                            history_update: HistoryUpdate::Push,
                            kind: CrossDocumentNavigationKind::Regular,
                        },
                    ),
                ),
            }
        },
        NavigationAction::HistoryPush { url, state_json, title } => {
            match prepare_history_state(history, url, state_json, title, false) {
                Ok(()) => {},
                Err(e) => return Err(e),
            }
            Ok(
                Some(
                    PreparedNavigationAction::SameDocument {
                        url: history.url().to_owned(),
                        history: history.copy(),
                    },
                ),
            )
        },
        NavigationAction::HistoryReplace { url, state_json, title } => {
            match prepare_history_state(history, url, state_json, title, true) {
                Ok(()) => {},
                Err(e) => return Err(e),
            }
            Ok(
                Some(
                    PreparedNavigationAction::SameDocument {
                        url: history.url().to_owned(),
                        history: history.copy(),
                    },
                ),
            )
        },
        NavigationAction::HistoryTraverse { delta } => {
            let mut moved = history.copy();
            if !moved.go(delta) {
                return Ok(None);
            }
            let url = moved.url().to_owned();
            if moved.entries[moved.index].state.is_some() {
                if moved.index != history.index {
                    *history = moved.copy();
                    Ok(Some(PreparedNavigationAction::SameDocument { history: moved, url }))
                } else {
                    Ok(None)
                }
            } else {
                match validate_navigation_url(url.as_str()) {
                    Ok(()) => {},
                    Err(e) => return Err(e),
                }
                Ok(
                    Some(
                        PreparedNavigationAction::CrossDocument {
                            url,
                            injected_html: None,
                            history_update: HistoryUpdate::Preserve(moved),
                            kind: CrossDocumentNavigationKind::Regular,
                        },
                    ),
                )
            }
        },
        NavigationAction::Overflow => Ok(None),
    }
}

} // verus!
