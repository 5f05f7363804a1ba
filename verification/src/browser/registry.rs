//! The state of the browser and its registry of contexts.

use std::collections::{BTreeMap, BTreeSet, VecDeque};

use vstd::prelude::*;

use crate::browser::actions::{HistoryUpdate, NavigationAction, UpdateView};
use crate::browser::error::{joined, BrowserError, ErrorCode, ErrorView};
use crate::browser::events::{
    BrowserEvent, BrowsingContextState, EventView, NavigationPhase, StateView,
};
use crate::browser::history::{copy_optional, HistoryView, SessionHistory};
use crate::browser::ids::{
    BrowsingContextId, DocumentId, FrameId, IdAllocator, NavigationId, RequestId, RuntimeContextId,
};
use crate::browser::limits::{Float64, HostViewState};
use crate::text::decimal;

verus! {

/// Permissions that a frontend grants to an origin.
pub struct PermissionGrant {
    pub origin: String,
    pub permissions: Vec<String>,
}

/// What a frontend sets for a context.
pub struct BrowsingContextConfig {
    pub preload_scripts: Vec<String>,
    pub new_document_scripts: Vec<String>,
    pub bypass_csp: bool,
    pub cache_disabled: bool,
    pub extra_http_headers: Vec<(String, String)>,
    pub permission_grants: Vec<PermissionGrant>,
}

/// A [`BrowsingContextConfig`] as a value.
#[verifier::ext_equal]
pub struct ConfigView {
    pub preload_scripts: Seq<String>,
    pub new_document_scripts: Seq<String>,
    pub bypass_csp: bool,
    pub cache_disabled: bool,
    pub extra_http_headers: Seq<(String, String)>,
    pub permission_grants: Seq<PermissionGrant>,
}

impl View for BrowsingContextConfig {
    type V = ConfigView;

    open spec fn view(&self) -> ConfigView {
        ConfigView {
            preload_scripts: self.preload_scripts@,
            new_document_scripts: self.new_document_scripts@,
            bypass_csp: self.bypass_csp,
            cache_disabled: self.cache_disabled,
            extra_http_headers: self.extra_http_headers@,
            permission_grants: self.permission_grants@,
        }
    }
}

/// What a loaded document does next on its way to being settled.
#[derive(Clone, Copy, Debug, PartialEq, Eq, Structural)]
pub enum LifecycleStage {
    DomContentLoaded,
    Load,
    Settle,
}

/// The scripts that a new document still has to run.
pub struct NavigationScriptWork {
    pub preload_scripts: VecDeque<String>,
    pub new_document_scripts: VecDeque<String>,
    pub bypass_csp: bool,
    pub actions: Vec<NavigationAction>,
}

/// A [`NavigationScriptWork`] as a value.
#[verifier::ext_equal]
pub struct ScriptWorkView {
    pub preload_scripts: Seq<String>,
    pub new_document_scripts: Seq<String>,
    pub bypass_csp: bool,
    pub actions: Seq<NavigationAction>,
}

impl View for NavigationScriptWork {
    type V = ScriptWorkView;

    open spec fn view(&self) -> ScriptWorkView {
        ScriptWorkView {
            preload_scripts: self.preload_scripts@,
            new_document_scripts: self.new_document_scripts@,
            bypass_csp: self.bypass_csp,
            actions: self.actions@,
        }
    }
}

/// What a navigation has to do next.
pub enum NavigationWork {
    /// Parse some more of the document.
    Parsing,
    /// Run the next script.
    Scripts(NavigationScriptWork),
    /// Report how far the document has come.
    Lifecycle { stage: LifecycleStage, actions: Vec<NavigationAction> },
}

/// A [`NavigationWork`] as a value.
#[verifier::ext_equal]
pub enum WorkView {
    Parsing,
    Scripts(ScriptWorkView),
    Lifecycle { stage: LifecycleStage, actions: Seq<NavigationAction> },
}

impl View for NavigationWork {
    type V = WorkView;

    open spec fn view(&self) -> WorkView {
        match self {
            NavigationWork::Parsing => WorkView::Parsing,
            NavigationWork::Scripts(work) => WorkView::Scripts(work@),
            NavigationWork::Lifecycle { stage, actions } => WorkView::Lifecycle {
                stage: *stage,
                actions: actions@,
            },
        }
    }
}

/// The ids under which an external script loads.
#[derive(Clone, Copy, Debug, PartialEq, Eq, Structural)]
pub struct ExternalScriptLoadKey {
    pub context_id: BrowsingContextId,
    pub navigation_id: NavigationId,
    pub document_id: DocumentId,
    pub runtime_context_id: RuntimeContextId,
    pub request_id: RequestId,
}

/// An external script that a navigation waits for.
pub struct PendingExternalScript {
    pub key: ExternalScriptLoadKey,
    pub url: String,
    pub work: NavigationScriptWork,
}

/// A [`PendingExternalScript`] as a value.
#[verifier::ext_equal]
pub struct PendingView {
    pub key: ExternalScriptLoadKey,
    pub url: Seq<char>,
    pub work: ScriptWorkView,
}

impl View for PendingExternalScript {
    type V = PendingView;

    open spec fn view(&self) -> PendingView {
        PendingView { key: self.key, url: self.url@, work: self.work@ }
    }
}

/// A navigation under way.
pub struct ActiveNavigation {
    pub navigation_id: NavigationId,
    pub request_id: RequestId,
    pub history_update: HistoryUpdate,
    pub work: Option<NavigationWork>,
    /// Whether a load runs for the navigation, which a cancellation stops.
    pub loading: bool,
    pub pending_script: Option<PendingExternalScript>,
}

/// An [`ActiveNavigation`] as a value.
#[verifier::ext_equal]
pub struct ActiveView {
    pub navigation_id: NavigationId,
    pub request_id: RequestId,
    pub history_update: UpdateView,
    pub work: Option<WorkView>,
    pub loading: bool,
    pub pending_script: Option<PendingView>,
}

impl View for ActiveNavigation {
    type V = ActiveView;

    open spec fn view(&self) -> ActiveView {
        ActiveView {
            navigation_id: self.navigation_id,
            request_id: self.request_id,
            history_update: self.history_update@,
            work: match self.work {
                Some(work) => Some(work@),
                None => None,
            },
            loading: self.loading,
            pending_script: match self.pending_script {
                Some(pending) => Some(pending@),
                None => None,
            },
        }
    }
}

/// One browsing context: a page, its runtime and its navigation.
///
/// The URL of the page is that of the current entry of its history.
pub struct BrowsingContext {
    pub frame_id: FrameId,
    pub document_id: DocumentId,
    pub runtime_context_id: RuntimeContextId,
    pub active_navigation: Option<ActiveNavigation>,
    pub title: Option<String>,
    pub history: SessionHistory,
    pub runtime_slot: usize,
    pub config: BrowsingContextConfig,
    pub host_view: HostViewState,
    pub page_zoom: Float64,
}

/// A [`BrowsingContext`] as a value.
#[verifier::ext_equal]
pub struct ContextView {
    pub frame_id: FrameId,
    pub document_id: DocumentId,
    pub runtime_context_id: RuntimeContextId,
    pub active_navigation: Option<ActiveView>,
    pub title: Option<Seq<char>>,
    pub history: HistoryView,
    pub runtime_slot: int,
    pub config: ConfigView,
    pub host_view: HostViewState,
    pub page_zoom: Float64,
}

impl View for BrowsingContext {
    type V = ContextView;

    open spec fn view(&self) -> ContextView {
        ContextView {
            frame_id: self.frame_id,
            document_id: self.document_id,
            runtime_context_id: self.runtime_context_id,
            active_navigation: match self.active_navigation {
                Some(active) => Some(active@),
                None => None,
            },
            title: match self.title {
                Some(title) => Some(title@),
                None => None,
            },
            history: self.history@,
            runtime_slot: self.runtime_slot as int,
            config: self.config@,
            host_view: self.host_view,
            page_zoom: self.page_zoom,
        }
    }
}

impl ContextView {
    /// The id of the navigation under way.
    pub open spec fn navigating(self) -> Option<NavigationId> {
        match self.active_navigation {
            Some(active) => Some(active.navigation_id),
            None => None,
        }
    }

    /// `navigation_id` is the navigation under way.
    pub open spec fn is_at(self, navigation_id: NavigationId) -> bool {
        self.active_navigation matches Some(active) && active.navigation_id == navigation_id
    }

    /// What a frontend sees of the context.
    pub open spec fn state(self, context_id: BrowsingContextId) -> StateView {
        StateView {
            context_id,
            main_frame_id: self.frame_id,
            document_id: self.document_id,
            runtime_context_id: Some(self.runtime_context_id),
            active_navigation_id: self.navigating(),
            url: self.history.current().url,
            title: self.title,
            history_length: self.history.entries.len() as int,
            history_index: self.history.index,
            can_go_back: self.history.can_go(-1),
            can_go_forward: self.history.can_go(1),
            is_loading: self.active_navigation is Some,
            load_progress: if self.active_navigation is Some {
                10
            } else {
                100
            },
            page_zoom: self.page_zoom,
        }
    }

    /// The histories of the context have current entries.
    pub open spec fn valid(self) -> bool {
        &&& self.history.valid()
        &&& self.active_navigation matches Some(active) ==> active.history_update.valid()
    }

    /// The context with another navigation under way.
    pub open spec fn with_active(self, active: Option<ActiveView>) -> ContextView {
        ContextView { active_navigation: active, ..self }
    }

    /// The context with other work for the navigation under way.
    pub open spec fn with_work(self, work: Option<WorkView>) -> ContextView {
        match self.active_navigation {
            Some(active) => self.with_active(Some(ActiveView { work, ..active })),
            None => self,
        }
    }
}

/// What a frontend sees of a context.
pub fn context_state(context_id: BrowsingContextId, context: &BrowsingContext) -> (r:
    BrowsingContextState)
    requires
        context.history.wf(),
    ensures
        r@ == context@.state(context_id),
{
    let active_navigation_id = match &context.active_navigation {
        Some(active) => Some(active.navigation_id),
        None => None,
    };
    let is_loading = active_navigation_id.is_some();
    BrowsingContextState {
        context_id,
        main_frame_id: context.frame_id,
        document_id: context.document_id,
        runtime_context_id: Some(context.runtime_context_id),
        active_navigation_id,
        url: context.history.url().to_owned(),
        title: copy_optional(&context.title),
        history_length: context.history.length(),
        history_index: context.history.index(),
        can_go_back: context.history.can_go_back(),
        can_go_forward: context.history.can_go_forward(),
        is_loading,
        load_progress: if is_loading {
            10
        } else {
            100
        },
        page_zoom: context.page_zoom,
    }
}

/// Something that the host is to do.
#[derive(Clone, Copy, Debug, PartialEq, Eq, Structural)]
pub enum HostRequest {
    /// Stop the load that runs for a navigation.
    CancelLoad { context_id: BrowsingContextId, navigation_id: NavigationId },
    /// Load an external script.
    StartScriptLoad { key: ExternalScriptLoadKey },
    /// Tell a runtime that the page has moved within its document.
    SyncPageRealm { context_id: BrowsingContextId, runtime_slot: usize },
}

/// The load of a document that is to start.
pub struct LoadStart {
    pub context_id: BrowsingContextId,
    pub navigation_id: NavigationId,
    pub url: String,
    pub injected_html: Option<String>,
}

/// A [`LoadStart`] as a value.
pub struct LoadView {
    pub context_id: BrowsingContextId,
    pub navigation_id: NavigationId,
    pub url: Seq<char>,
    pub injected_html: Option<Seq<char>>,
}

impl View for LoadStart {
    type V = LoadView;

    open spec fn view(&self) -> LoadView {
        LoadView {
            context_id: self.context_id,
            navigation_id: self.navigation_id,
            url: self.url@,
            injected_html: match self.injected_html {
                Some(html) => Some(html@),
                None => None,
            },
        }
    }
}

impl LoadView {
    /// Loads as values.
    pub open spec fn all(s: Seq<LoadStart>) -> Seq<LoadView> {
        Seq::new(s.len(), |i: int| s[i]@)
    }
}

/// The browser: its contexts and what they are about to do.
pub struct BrowserCore {
    pub ids: IdAllocator,
    pub contexts: BTreeMap<u64, BrowsingContext>,
    /// For each script runtime, in the order of creation, whether a context
    /// still uses it.
    pub runtime_slots: Vec<bool>,
    pub closed_contexts: BTreeSet<u64>,
    pub active_context: Option<BrowsingContextId>,
    pub max_contexts: usize,
    pub max_body_bytes: u64,
    /// Documents that stand in for what a server would send, by their URLs.
    pub document_overrides: Vec<(String, String)>,
    pub pending_load_starts: Vec<LoadStart>,
    pub pending_navigation_work: VecDeque<(BrowsingContextId, NavigationId)>,
    /// What the frontends are to hear, in order.
    pub events: Vec<BrowserEvent>,
    /// What the host is to do, in order.
    pub requests: Vec<HostRequest>,
}

/// A [`BrowserCore`] as a value.
#[verifier::ext_equal]
pub struct CoreView {
    pub ids: IdAllocator,
    pub contexts: Map<u64, ContextView>,
    pub runtime_slots: Seq<bool>,
    pub closed_contexts: Set<u64>,
    pub active_context: Option<BrowsingContextId>,
    pub max_contexts: usize,
    pub max_body_bytes: u64,
    pub document_overrides: Seq<(String, String)>,
    pub pending_load_starts: Seq<LoadView>,
    pub pending_navigation_work: Seq<(BrowsingContextId, NavigationId)>,
    pub events: Seq<EventView>,
    pub requests: Seq<HostRequest>,
}

impl View for BrowserCore {
    type V = CoreView;

    open spec fn view(&self) -> CoreView {
        CoreView {
            ids: self.ids,
            contexts: self.contexts@.map_values(|c: BrowsingContext| c@),
            runtime_slots: self.runtime_slots@,
            closed_contexts: self.closed_contexts@,
            active_context: self.active_context,
            max_contexts: self.max_contexts,
            max_body_bytes: self.max_body_bytes,
            document_overrides: self.document_overrides@,
            pending_load_starts: LoadView::all(self.pending_load_starts@),
            pending_navigation_work: self.pending_navigation_work@,
            events: EventView::all(self.events@),
            requests: self.requests@,
        }
    }
}

/// An id that was handed out before the counter came to `next`.
pub open spec fn was_issued(id: u64, next: u64) -> bool {
    id != 0 && (next == 0 || id < next)
}

impl CoreView {
    /// The browser before any context exists.
    pub open spec fn fresh(
        max_contexts: usize,
        max_body_bytes: u64,
        document_overrides: Seq<(String, String)>,
    ) -> CoreView {
        CoreView {
            ids: IdAllocator::fresh(),
            contexts: Map::empty(),
            runtime_slots: Seq::empty(),
            closed_contexts: Set::empty(),
            active_context: None,
            max_contexts: if max_contexts == 0 {
                1
            } else {
                max_contexts
            },
            max_body_bytes,
            document_overrides,
            pending_load_starts: Seq::empty(),
            pending_navigation_work: Seq::empty(),
            events: Seq::empty(),
            requests: Seq::empty(),
        }
    }

    /// What holds of the browser at all times.
    ///
    /// - Each context uses a runtime of its own that is in use, and the last
    ///   runtime is in use.
    /// - A context is active exactly where there is one.
    /// - A closed context is gone for good, and ids are used once.
    /// - A navigation that is under way has an id that was handed out.
    /// - What is told of navigations is in order: each ends once, and nothing is
    ///   told of it afterwards.
    pub open spec fn valid(self) -> bool {
        &&& self.max_contexts >= 1
        &&& forall|id: u64| #[trigger]
            self.contexts.contains_key(id) ==> {
                let c = self.contexts[id];
                &&& c.valid()
                &&& 0 <= c.runtime_slot < self.runtime_slots.len()
                &&& self.runtime_slots[c.runtime_slot]
                &&& was_issued(id, self.ids.next_context)
                &&& c.active_navigation matches Some(active) ==> was_issued(
                    active.navigation_id.raw,
                    self.ids.next_navigation,
                )
                &&& !self.closed_contexts.contains(id)
            }
        &&& forall|a: u64, b: u64|
            #![trigger self.contexts[a], self.contexts[b]]
            self.contexts.contains_key(a) && self.contexts.contains_key(b) && a != b
                ==> self.contexts[a].runtime_slot != self.contexts[b].runtime_slot
        &&& forall|id: u64| #[trigger]
            self.closed_contexts.contains(id) ==> was_issued(id, self.ids.next_context)
        &&& match self.active_context {
            Some(active) => self.contexts.contains_key(active.raw),
            None => forall|id: u64| !self.contexts.contains_key(id),
        }
        &&& self.runtime_slots.len() > 0 ==> self.runtime_slots.last()
        &&& self.orderly()
    }

    /// The error for a context that is not there: it was closed, or it never
    /// existed.
    pub open spec fn missing_context(self, context_id: BrowsingContextId) -> ErrorView {
        let closed = self.closed_contexts.contains(context_id.raw);
        ErrorView::new(
            if closed {
                ErrorCode::StaleContext
            } else {
                ErrorCode::UnknownContext
            },
            "browsing context "@ + crate::text::decimal_text(context_id.raw as nat) + " is "@ + if closed {
                "closed"@
            } else {
                "unknown"@
            },
        )
    }

    /// The context is there.
    pub open spec fn has(self, context_id: BrowsingContextId) -> bool {
        self.contexts.contains_key(context_id.raw)
    }

    /// The context by its id.
    pub open spec fn context(self, context_id: BrowsingContextId) -> ContextView {
        self.contexts[context_id.raw]
    }

    /// The browser with a context changed.
    pub open spec fn with_context(
        self,
        context_id: BrowsingContextId,
        context: ContextView,
    ) -> CoreView {
        CoreView { contexts: self.contexts.insert(context_id.raw, context), ..self }
    }

    /// The browser after more events.
    pub open spec fn telling(self, events: Seq<EventView>) -> CoreView {
        CoreView { events: self.events + events, ..self }
    }

    /// The browser after one more request to the host.
    pub open spec fn asking(self, request: HostRequest) -> CoreView {
        CoreView { requests: self.requests.push(request), ..self }
    }

    /// The error for a document that is no longer the one of its context.
    pub open spec fn stale_document(
        document_id: DocumentId,
        context_id: BrowsingContextId,
    ) -> ErrorView {
        ErrorView::new(
            ErrorCode::StaleDocument,
            "document "@ + crate::text::decimal_text(document_id.raw as nat)
                + " is no longer active in context "@ + crate::text::decimal_text(
                context_id.raw as nat,
            ),
        )
    }

    /// The error for a runtime that is no longer the one of its context.
    pub open spec fn stale_runtime(
        runtime_context_id: RuntimeContextId,
        context_id: BrowsingContextId,
    ) -> ErrorView {
        ErrorView::new(
            ErrorCode::StaleRuntime,
            "runtime "@ + crate::text::decimal_text(runtime_context_id.raw as nat)
                + " is no longer active in context "@ + crate::text::decimal_text(
                context_id.raw as nat,
            ),
        )
    }

    /// What stands against using a document of a context.
    pub open spec fn document_fault(
        self,
        context_id: BrowsingContextId,
        document_id: DocumentId,
    ) -> Option<ErrorView> {
        if !self.has(context_id) {
            Some(self.missing_context(context_id))
        } else if self.context(context_id).document_id != document_id {
            Some(CoreView::stale_document(document_id, context_id))
        } else {
            None
        }
    }

    /// What stands against using a runtime of a context.
    pub open spec fn runtime_fault(
        self,
        context_id: BrowsingContextId,
        document_id: DocumentId,
        runtime_context_id: RuntimeContextId,
    ) -> Option<ErrorView> {
        match self.document_fault(context_id, document_id) {
            Some(e) => Some(e),
            None => if self.context(context_id).runtime_context_id != runtime_context_id {
                Some(CoreView::stale_runtime(runtime_context_id, context_id))
            } else {
                None
            },
        }
    }

    /// Success, or the fault.
    pub open spec fn unless(fault: Option<ErrorView>) -> Result<(), ErrorView> {
        match fault {
            Some(e) => Err(e),
            None => Ok(()),
        }
    }
}

/// `ids` lists the keys of a map in increasing order.
pub open spec fn lists_in_order(ids: Seq<u64>, keys: Set<u64>) -> bool {
    &&& forall|i: int, j: int| 0 <= i < j < ids.len() ==> ids[i] < ids[j]
    &&& forall|i: int| 0 <= i < ids.len() ==> keys.contains(#[trigger] ids[i])
    &&& forall|k: u64| #[trigger] keys.contains(k) ==> ids.contains(k)
}

/// There is one way to list keys in increasing order.
pub proof fn one_increasing_order(a: Seq<u64>, b: Seq<u64>, keys: Set<u64>)
    requires
        lists_in_order(a, keys),
        lists_in_order(b, keys),
    ensures
        a == b,
    decreases a.len(),
{
    if a.len() == 0 {
        if b.len() > 0 {
            assert(keys.contains(b[0]));
            assert(a.contains(b[0]));
        }
        assert(a =~= b);
    } else {
        let la = a.last();
        assert(keys.contains(a[a.len() - 1]));
        assert(b.contains(la));
        let lb = b.last();
        assert(keys.contains(b[b.len() - 1]));
        assert(a.contains(lb));
        let i = choose|i: int| 0 <= i < a.len() && a[i] == lb;
        let j = choose|j: int| 0 <= j < b.len() && b[j] == la;
        assert(la == lb) by {
            if i < a.len() - 1 {
                assert(lb < la);
            }
            if j < b.len() - 1 {
                assert(la < lb);
            }
        }
        let rest = keys.remove(la);
        assert forall|k: u64| #[trigger] rest.contains(k) implies a.drop_last().contains(k) by {
            assert(a.contains(k));
            let n = choose|n: int| 0 <= n < a.len() && a[n] == k;
            assert(a.drop_last()[n] == k);
        }
        assert forall|k: u64| #[trigger] rest.contains(k) implies b.drop_last().contains(k) by {
            assert(b.contains(k));
            let n = choose|n: int| 0 <= n < b.len() && b[n] == k;
            assert(b.drop_last()[n] == k);
        }
        one_increasing_order(a.drop_last(), b.drop_last(), rest);
        assert(a =~= a.drop_last().push(la));
        assert(b =~= b.drop_last().push(lb));
    }
}

/// The keys of a map come in increasing order.
proof fn keys_increase(s: Seq<&u64>)
    requires
        vstd::std_specs::btree::increasing_seq(s),
    ensures
        forall|i: int, j: int| 0 <= i < j < s.len() ==> *s[i] < *s[j],
{
    broadcast use vstd::laws_cmp::group_laws_cmp;

    assert(vstd::laws_cmp::obeys_cmp::<u64>());
    assert(vstd::laws_cmp::obeys_cmp::<&u64>());
    vstd::std_specs::btree::axiom_increasing_seq_meaning(s);
    assert forall|i: int, j: int| 0 <= i < j < s.len() implies *s[i] < *s[j] by {
        let a = *s[i];
        let b = *s[j];
        assert(vstd::std_specs::cmp::OrdSpec::cmp_spec(&s[i], &s[j]) is Less);
        assert(vstd::std_specs::cmp::OrdSpec::cmp_spec(&a, &b) is Less);
    }
}

impl BrowserCore {
    /// What holds of the browser at all times.
    pub open spec fn wf(&self) -> bool {
        self@.valid()
    }

    /// The browser before any context exists. There is room for at least one.
    pub fn new(
        max_contexts: usize,
        max_body_bytes: u64,
        document_overrides: Vec<(String, String)>,
    ) -> (r: BrowserCore)
        ensures
            r.wf(),
            r@ == CoreView::fresh(max_contexts, max_body_bytes, document_overrides@),
    {
        let r = BrowserCore {
            ids: IdAllocator::new(),
            contexts: BTreeMap::new(),
            runtime_slots: Vec::new(),
            closed_contexts: BTreeSet::new(),
            active_context: None,
            max_contexts: if max_contexts == 0 {
                1
            } else {
                max_contexts
            },
            max_body_bytes,
            document_overrides,
            pending_load_starts: Vec::new(),
            pending_navigation_work: VecDeque::new(),
            events: Vec::new(),
            requests: Vec::new(),
        };
        assert(r@ =~= CoreView::fresh(max_contexts, max_body_bytes, document_overrides@));
        proof {
            crate::browser::order::silence_is_orderly(r@);
        }
        r
    }

    /// Refuses a context that is not there.
    pub fn ensure_context(&self, context_id: BrowsingContextId) -> (r: Result<(), BrowserError>)
        ensures
            ErrorView::outcome(r) == if self@.has(context_id) {
                Ok(())
            } else {
                Err(self@.missing_context(context_id))
            },
    {
        if self.contexts.contains_key(&context_id.raw) {
            return Ok(());
        }
        let closed = self.closed_contexts.contains(&context_id.raw);
        let mut message = joined("browsing context ", decimal(context_id.raw).as_str());
        message.append(" is ");
        if closed {
            message.append("closed");
            Err(BrowserError::with_message(ErrorCode::StaleContext, message))
        } else {
            message.append("unknown");
            Err(BrowserError::with_message(ErrorCode::UnknownContext, message))
        }
    }

    /// The context, if it is there.
    pub fn context(&self, context_id: BrowsingContextId) -> (r: Result<
        &BrowsingContext,
        BrowserError,
    >)
        ensures
            match r {
                Ok(context) => self@.has(context_id) && context@ == self@.context(context_id),
                Err(e) => !self@.has(context_id) && e@ == self@.missing_context(context_id),
            },
    {
        match self.contexts.get(&context_id.raw) {
            Some(context) => Ok(context),
            None => match self.ensure_context(context_id) {
                Ok(()) => {
                    let missing = self.contexts.get(&context_id.raw);
                    Ok(missing.unwrap())
                },
                Err(e) => Err(e),
            },
        }
    }

    /// The error for a document that is no longer the one of its context.
    pub fn stale_document(document_id: DocumentId, context_id: BrowsingContextId) -> (r:
        BrowserError)
        ensures
            r@ == CoreView::stale_document(document_id, context_id),
    {
        let mut message = joined("document ", decimal(document_id.raw).as_str());
        message.append(" is no longer active in context ");
        message.append(decimal(context_id.raw).as_str());
        BrowserError::with_message(ErrorCode::StaleDocument, message)
    }

    /// The error for a runtime that is no longer the one of its context.
    pub fn stale_runtime(
        runtime_context_id: RuntimeContextId,
        context_id: BrowsingContextId,
    ) -> (r: BrowserError)
        ensures
            r@ == CoreView::stale_runtime(runtime_context_id, context_id),
    {
        let mut message = joined("runtime ", decimal(runtime_context_id.raw).as_str());
        message.append(" is no longer active in context ");
        message.append(decimal(context_id.raw).as_str());
        BrowserError::with_message(ErrorCode::StaleRuntime, message)
    }

    /// The context, if it is there and still shows the document.
    pub fn context_for_document(
        &self,
        context_id: BrowsingContextId,
        document_id: DocumentId,
    ) -> (r: Result<&BrowsingContext, BrowserError>)
        ensures
            match self@.document_fault(context_id, document_id) {
                Some(e) => r is Err && r->Err_0@ == e,
                None => r is Ok && r->Ok_0@ == self@.context(context_id),
            },
    {
        match self.context(context_id) {
            Err(e) => Err(e),
            Ok(context) => if context.document_id != document_id {
                Err(BrowserCore::stale_document(document_id, context_id))
            } else {
                Ok(context)
            },
        }
    }

    /// Refuses a runtime that is not the one of its document and context.
    pub fn ensure_runtime(
        &self,
        context_id: BrowsingContextId,
        document_id: DocumentId,
        runtime_context_id: RuntimeContextId,
    ) -> (r: Result<(), BrowserError>)
        ensures
            ErrorView::outcome(r) == CoreView::unless(
                self@.runtime_fault(context_id, document_id, runtime_context_id),
            ),
    {
        match self.context_for_document(context_id, document_id) {
            Err(e) => Err(e),
            Ok(context) => if context.runtime_context_id != runtime_context_id {
                Err(BrowserCore::stale_runtime(runtime_context_id, context_id))
            } else {
                Ok(())
            },
        }
    }

    /// What a frontend sees of a context.
    pub fn context_state(&self, context_id: BrowsingContextId) -> (r: Result<
        BrowsingContextState,
        BrowserError,
    >)
        requires
            self.wf(),
        ensures
            match r {
                Ok(state) => self@.has(context_id) && state@ == self@.context(context_id).state(
                    context_id,
                ),
                Err(e) => !self@.has(context_id) && e@ == self@.missing_context(context_id),
            },
    {
        match self.context(context_id) {
            Ok(context) => Ok(context_state(context_id, context)),
            Err(e) => Err(e),
        }
    }

    /// Adds an event for the frontends.
    pub(crate) fn emit(&mut self, event: BrowserEvent)
        ensures
            final(self)@ == old(self)@.telling(seq![event@]),
    {
        let ghost before = self@;
        self.events.push(event);
        assert(self@.events =~= before.events + seq![event@]);
        assert(self@ =~= before.telling(seq![event@]));
    }

    /// Reports that a navigation has come to `phase`.
    pub(crate) fn emit_phase(
        &mut self,
        context_id: BrowsingContextId,
        frame_id: FrameId,
        navigation_id: NavigationId,
        phase: NavigationPhase,
    )
        ensures
            final(self)@ == old(self)@.telling(
                seq![EventView::phase(context_id, frame_id, navigation_id, phase)],
            ),
    {
        self.emit(
            BrowserEvent::NavigationPhaseChanged { context_id, frame_id, navigation_id, phase },
        );
    }

    /// Adds a request to the host.
    pub(crate) fn ask(&mut self, request: HostRequest)
        ensures
            final(self)@ == old(self)@.asking(request),
    {
        let ghost before = self@;
        self.requests.push(request);
        assert(self@ =~= before.asking(request));
    }

    /// Takes a context out of the registry.
    pub(crate) fn take_context(&mut self, context_id: BrowsingContextId) -> (r: BrowsingContext)
        requires
            old(self)@.has(context_id),
        ensures
            r@ == old(self)@.context(context_id),
            final(self)@ == (CoreView {
                contexts: old(self)@.contexts.remove(context_id.raw),
                ..old(self)@
            }),
    {
        let ghost before = self@;
        let taken = self.contexts.remove(&context_id.raw);
        let r = taken.unwrap();
        assert(self@ =~= (CoreView { contexts: before.contexts.remove(context_id.raw), ..before }));
        r
    }

    /// Puts a context into the registry.
    pub(crate) fn put_context(&mut self, context_id: BrowsingContextId, context: BrowsingContext)
        ensures
            final(self)@ == old(self)@.with_context(context_id, context@),
    {
        let ghost before = self@;
        let _ = self.contexts.insert(context_id.raw, context);
        assert(self@ =~= before.with_context(context_id, context@));
    }

    /// The ids of all contexts, in increasing order.
    pub fn context_ids(&self) -> (r: Vec<u64>)
        ensures
            lists_in_order(r@, self@.contexts.dom()),
    {
        let mut r: Vec<u64> = Vec::new();
        for id in it: self.contexts.keys()
            invariant
                r@ == it.seq().unref().take(it.index()),
        {
            r.push(*id);
            assert(r@ =~= it.seq().unref().take(it.index() + 1));
        }
        proof {
            let keys = vstd::std_specs::iter::IteratorSpec::remaining(&self.contexts.keys());
            keys_increase(keys);
            assert(r@ =~= keys.unref());
            assert(self@.contexts.dom() =~= self.contexts@.dom());
            assert forall|i: int| 0 <= i < r@.len() implies self@.contexts.dom().contains(
                #[trigger] r@[i],
            ) by {
                assert(keys.unref().to_set().contains(r@[i]));
            }
            assert forall|k: u64| #[trigger] self@.contexts.dom().contains(k) implies r@.contains(
                k,
            ) by {
                assert(keys.unref().to_set().contains(k));
            }
        }
        r
    }
}

} // verus!
