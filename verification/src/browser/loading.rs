//! From the reply of a server to a settled document.

use vstd::prelude::*;

use crate::browser::actions::{HistoryUpdate, NavigationAction};
use crate::browser::error::{BrowserError, ErrorCode, ErrorView};
use crate::browser::events::{BrowserEvent, EventView, NavigationPhase};
use crate::browser::history::{HistoryEntry, HistoryView, SessionHistory};
use crate::browser::ids::{
    BrowsingContextId, DocumentId, IdAllocator, NavigationId, RequestId, RuntimeContextId,
};
use crate::browser::limits::MAX_RUNTIME_SLOTS;
use crate::browser::navigation::{NavigationTerminal, TerminalView};
use crate::browser::registry::{
    ActiveView, BrowserCore, ContextView, CoreView, LifecycleStage, LoadStart, LoadView,
    NavigationScriptWork, NavigationWork, ScriptWorkView, WorkView,
};
use crate::browser::source::{LoadedSource, NetworkEvent};
use crate::text::same_text;

verus! {

/// What became of a document that arrived.
pub enum SourceAcceptance {
    /// Nobody waits for it any more. What came with it does not count.
    Stale,
    /// The load failed, and with it the navigation.
    Failed,
    /// The document is to be parsed.
    Parse(LoadedSource),
}

/// A page that is parsed.
pub struct ParsedPage {
    pub url: String,
    pub title: Option<String>,
}

/// What one step of parsing came to.
pub enum ParseStep {
    /// There is more to parse.
    More,
    /// The page is complete.
    Complete(ParsedPage),
    /// The document cannot be parsed.
    Failed(String),
}

/// A document that is about to take the place of another.
pub struct CommitPlan {
    pub context_id: BrowsingContextId,
    pub navigation_id: NavigationId,
    pub request_id: RequestId,
    pub document_id: DocumentId,
    pub runtime_context_id: RuntimeContextId,
    pub url: String,
    pub title: Option<String>,
    pub history: SessionHistory,
}

/// A [`CommitPlan`] as a value.
#[verifier::ext_equal]
pub struct CommitView {
    pub context_id: BrowsingContextId,
    pub navigation_id: NavigationId,
    pub request_id: RequestId,
    pub document_id: DocumentId,
    pub runtime_context_id: RuntimeContextId,
    pub url: Seq<char>,
    pub title: Option<Seq<char>>,
    pub history: HistoryView,
}

impl View for CommitPlan {
    type V = CommitView;

    open spec fn view(&self) -> CommitView {
        CommitView {
            context_id: self.context_id,
            navigation_id: self.navigation_id,
            request_id: self.request_id,
            document_id: self.document_id,
            runtime_context_id: self.runtime_context_id,
            url: self.url@,
            title: crate::browser::history::optional_text(self.title),
            history: self.history@,
        }
    }
}

impl CoreView {
    /// The browser after the load of a document ended.
    pub open spec fn load_ended(
        self,
        context_id: BrowsingContextId,
        navigation_id: NavigationId,
        result: Result<(), ErrorView>,
    ) -> CoreView {
        if !self.is_current(context_id, navigation_id) {
            self
        } else {
            let context = self.context(context_id);
            let active = context.active_navigation->Some_0;
            let idle = ActiveView { loading: false, ..active };
            match result {
                Err(e) => self.with_context(context_id, context.with_active(Some(idle))).failed(
                    context_id,
                    navigation_id,
                    Some(active.request_id),
                    e,
                ),
                Ok(()) => CoreView {
                    pending_navigation_work: self.pending_navigation_work.push(
                        (context_id, navigation_id),
                    ),
                    ..self.with_context(
                        context_id,
                        context.with_active(
                            Some(ActiveView { work: Some(WorkView::Parsing), ..idle }),
                        ),
                    ).telling(
                        seq![
                            EventView::phase(
                                context_id,
                                context.frame_id,
                                navigation_id,
                                NavigationPhase::Response,
                            ),
                            EventView::phase(
                                context_id,
                                context.frame_id,
                                navigation_id,
                                NavigationPhase::Commit,
                            ),
                            EventView::phase(
                                context_id,
                                context.frame_id,
                                navigation_id,
                                NavigationPhase::Parse,
                            ),
                        ],
                    )
                },
            }
        }
    }

    /// The browser after the load of a document was redirected.
    pub open spec fn redirected(
        self,
        context_id: BrowsingContextId,
        navigation_id: NavigationId,
        from_url: Seq<char>,
        to_url: Seq<char>,
        status: u16,
    ) -> CoreView {
        if !self.is_current(context_id, navigation_id) {
            self
        } else {
            let context = self.context(context_id);
            let active = context.active_navigation->Some_0;
            if self.ids.next_request == 0 {
                self.failed(
                    context_id,
                    navigation_id,
                    Some(active.request_id),
                    ErrorView::exhausted_ids(),
                )
            } else {
                let next_request_id = RequestId { raw: self.ids.next_request };
                CoreView {
                    ids: IdAllocator {
                        next_request: crate::browser::ids::counter_after(self.ids.next_request),
                        ..self.ids
                    },
                    ..self.with_context(
                        context_id,
                        context.with_active(
                            Some(ActiveView { request_id: next_request_id, ..active }),
                        ),
                    ).telling(
                        seq![
                            EventView::NavigationRedirected {
                                context_id,
                                frame_id: context.frame_id,
                                navigation_id,
                                request_id: active.request_id,
                                next_request_id,
                                from_url,
                                to_url,
                                status,
                            },
                        ],
                    )
                }
            }
        }
    }

    /// The browser after the ids of a document and its runtime are out, as far
    /// as there were any.
    pub open spec fn with_document_ids(self) -> CoreView {
        CoreView {
            ids: IdAllocator {
                next_document: crate::browser::ids::counter_after(self.ids.next_document),
                next_runtime: if self.ids.next_document == 0 {
                    self.ids.next_runtime
                } else {
                    crate::browser::ids::counter_after(self.ids.next_runtime)
                },
                ..self.ids
            },
            ..self
        }
    }

    /// Why a parsed page cannot take the place of the present document.
    pub open spec fn commit_fault(self) -> Option<ErrorView> {
        if self.ids.next_document == 0 || self.ids.next_runtime == 0 {
            Some(ErrorView::exhausted_ids())
        } else if self.runtime_slots.len() >= MAX_RUNTIME_SLOTS {
            Some(
                ErrorView::new(
                    ErrorCode::ContextLimit,
                    "browser runtime-generation limit reached"@,
                ),
            )
        } else {
            None
        }
    }

    /// The browser after a parsed page got its ids, or could not.
    pub open spec fn commit_begun(
        self,
        context_id: BrowsingContextId,
        navigation_id: NavigationId,
    ) -> CoreView {
        if !self.is_current(context_id, navigation_id) {
            self
        } else {
            match self.commit_fault() {
                Some(e) => self.with_document_ids().failed(
                    context_id,
                    navigation_id,
                    Some(self.context(context_id).active_navigation->Some_0.request_id),
                    e,
                ),
                None => self.with_document_ids(),
            }
        }
    }

    /// The plan for a page that gets its ids.
    pub open spec fn commit_plan(
        self,
        context_id: BrowsingContextId,
        navigation_id: NavigationId,
        url: Seq<char>,
        title: Option<Seq<char>>,
    ) -> CommitView {
        let context = self.context(context_id);
        let active = context.active_navigation->Some_0;
        CommitView {
            context_id,
            navigation_id,
            request_id: active.request_id,
            document_id: DocumentId { raw: self.ids.next_document },
            runtime_context_id: RuntimeContextId { raw: self.ids.next_runtime },
            url,
            title,
            history: context.committed_history(active.history_update, url),
        }
    }

    /// The browser after the document of a plan took the place of another.
    pub open spec fn committed(self, plan: CommitView) -> CoreView {
        let context = self.context(plan.context_id);
        let active = context.active_navigation->Some_0;
        let context_id = plan.context_id;
        let frame_id = context.frame_id;
        let scripts = WorkView::Scripts(
            ScriptWorkView {
                preload_scripts: context.config.preload_scripts,
                new_document_scripts: context.config.new_document_scripts,
                bypass_csp: context.config.bypass_csp,
                actions: Seq::empty(),
            },
        );
        CoreView {
            contexts: self.contexts.insert(
                context_id.raw,
                ContextView {
                    document_id: plan.document_id,
                    runtime_context_id: plan.runtime_context_id,
                    title: plan.title,
                    history: plan.history,
                    runtime_slot: self.runtime_slots.len() as int,
                    active_navigation: Some(ActiveView { work: Some(scripts), ..active }),
                    ..context
                },
            ),
            runtime_slots: self.runtime_slots.push(true).update(context.runtime_slot, false),
            pending_navigation_work: self.pending_navigation_work.push(
                (context_id, plan.navigation_id),
            ),
            events: self.events + seq![
                EventView::RuntimeContextDestroyed {
                    context_id,
                    frame_id,
                    document_id: context.document_id,
                    runtime_context_id: context.runtime_context_id,
                },
                EventView::DocumentDiscarded {
                    context_id,
                    frame_id,
                    document_id: context.document_id,
                    replaced_by: Some(plan.navigation_id),
                },
                EventView::NavigationCommitted {
                    context_id,
                    frame_id,
                    navigation_id: plan.navigation_id,
                    request_id: Some(plan.request_id),
                    document_id: plan.document_id,
                    runtime_context_id: Some(plan.runtime_context_id),
                    url: plan.url,
                },
                EventView::RuntimeContextCreated {
                    context_id,
                    frame_id,
                    document_id: plan.document_id,
                    runtime_context_id: plan.runtime_context_id,
                },
                EventView::phase(
                    context_id,
                    frame_id,
                    plan.navigation_id,
                    NavigationPhase::ScriptsAndSubresources,
                ),
            ],
            ..self
        }
    }

    /// The browser after the host tried to set up the document of a plan.
    pub open spec fn commit_ended(self, plan: CommitView, outcome: Result<(), ErrorView>) -> CoreView {
        if !self.is_current(plan.context_id, plan.navigation_id) {
            self
        } else {
            match outcome {
                Err(e) => self.failed(
                    plan.context_id,
                    plan.navigation_id,
                    Some(plan.request_id),
                    e,
                ),
                Ok(()) => self.committed(plan),
            }
        }
    }

    /// The browser after a document reported how far it has come.
    pub open spec fn lifecycle_advanced(
        self,
        context_id: BrowsingContextId,
        navigation_id: NavigationId,
        stage: LifecycleStage,
        actions: Seq<NavigationAction>,
    ) -> CoreView {
        let context = self.context(context_id);
        if !self.is_current(context_id, navigation_id) {
            self
        } else {
            match stage {
                LifecycleStage::DomContentLoaded => self.telling(
                    seq![
                        EventView::phase(
                            context_id,
                            context.frame_id,
                            navigation_id,
                            NavigationPhase::DomContentLoaded,
                        ),
                        EventView::DomContentLoaded {
                            context_id,
                            frame_id: context.frame_id,
                            navigation_id,
                            document_id: context.document_id,
                        },
                    ],
                ).restored(
                    context_id,
                    navigation_id,
                    WorkView::Lifecycle { stage: LifecycleStage::Load, actions },
                ),
                LifecycleStage::Load => self.telling(
                    seq![
                        EventView::phase(
                            context_id,
                            context.frame_id,
                            navigation_id,
                            NavigationPhase::Load,
                        ),
                        EventView::DocumentLoadCompleted {
                            context_id,
                            frame_id: context.frame_id,
                            navigation_id,
                            document_id: context.document_id,
                        },
                    ],
                ).restored(
                    context_id,
                    navigation_id,
                    WorkView::Lifecycle { stage: LifecycleStage::Settle, actions },
                ),
                LifecycleStage::Settle => self.finished(
                    context_id,
                    navigation_id,
                    TerminalView::Settled,
                    true,
                ),
            }
        }
    }

    /// The browser after the next work was taken off the queue.
    pub open spec fn work_taken(self) -> CoreView {
        if self.pending_navigation_work.len() == 0 {
            self
        } else {
            let (context_id, navigation_id) = self.pending_navigation_work[0];
            let rest = CoreView {
                pending_navigation_work: self.pending_navigation_work.drop_first(),
                ..self
            };
            if self.is_current(context_id, navigation_id) {
                rest.with_context(context_id, self.context(context_id).with_work(None))
            } else {
                rest
            }
        }
    }
}

/// The next work of the navigation that is first in line.
pub enum NextWork {
    /// No navigation has work.
    Idle,
    /// The navigation is no longer under way, or its work is being done.
    Stale,
    /// The navigation has this work.
    Work {
        context_id: BrowsingContextId,
        navigation_id: NavigationId,
        request_id: RequestId,
        work: NavigationWork,
    },
}

impl BrowserCore {
    /// Takes the result of loading a document. A result for another navigation
    /// than the one under way is stale.
    pub fn complete_navigation(
        &mut self,
        context_id: BrowsingContextId,
        navigation_id: NavigationId,
        result: Result<LoadedSource, BrowserError>,
    ) -> (r: SourceAcceptance)
        requires
            old(self).wf(),
        ensures
            final(self).wf(),
            final(self)@ == old(self)@.load_ended(
                context_id,
                navigation_id,
                match result {
                    Ok(_) => Ok(()),
                    Err(e) => Err(e@),
                },
            ),
            r == if !old(self)@.is_current(context_id, navigation_id) {
                SourceAcceptance::Stale
            } else {
                match result {
                    Ok(source) => SourceAcceptance::Parse(source),
                    Err(_) => SourceAcceptance::Failed,
                }
            },
    {
        broadcast use crate::browser::order::group_order;

        let ghost before = self@;
        let current = match self.contexts.get(&context_id.raw) {
            None => false,
            Some(context) => match &context.active_navigation {
                Some(active) => active.navigation_id == navigation_id,
                None => false,
            },
        };
        if !current {
            return SourceAcceptance::Stale;
        }
        let mut context = self.take_context(context_id);
        let mut active = context.active_navigation.take().unwrap();
        let frame_id = context.frame_id;
        let request_id = active.request_id;
        active.loading = false;
        match result {
            Err(error) => {
                context.active_navigation = Some(active);
                let ghost now = context@;
                self.put_context(context_id, context);
                assert(self@ =~= before.with_context(context_id, now));
                self.fail_navigation(context_id, navigation_id, Some(request_id), error);
                SourceAcceptance::Failed
            },
            Ok(source) => {
                active.work = Some(NavigationWork::Parsing);
                context.active_navigation = Some(active);
                self.put_context(context_id, context);
                self.emit_phase(context_id, frame_id, navigation_id, NavigationPhase::Response);
                self.emit_phase(context_id, frame_id, navigation_id, NavigationPhase::Commit);
                self.emit_phase(context_id, frame_id, navigation_id, NavigationPhase::Parse);
                self.pending_navigation_work.push_back((context_id, navigation_id));
                assert(self@ =~= before.load_ended(context_id, navigation_id, Ok(())));
                SourceAcceptance::Parse(source)
            },
        }
    }

    /// Takes a step of loading a document. A redirect gets a request id of its
    /// own; the other steps are told by the phases already.
    pub fn progress_navigation(
        &mut self,
        context_id: BrowsingContextId,
        navigation_id: NavigationId,
        event: NetworkEvent,
    )
        requires
            old(self).wf(),
        ensures
            final(self).wf(),
            final(self)@ == match event {
                NetworkEvent::Redirect { from, to, status } => old(self)@.redirected(
                    context_id,
                    navigation_id,
                    from@,
                    to@,
                    status,
                ),
                _ => old(self)@,
            },
    {
        broadcast use crate::browser::order::group_order;

        let ghost before = self@;
        let current = match self.contexts.get(&context_id.raw) {
            None => false,
            Some(context) => match &context.active_navigation {
                Some(active) => active.navigation_id == navigation_id,
                None => false,
            },
        };
        if !current {
            return;
        }
        let (from, to, status) = match event {
            NetworkEvent::Redirect { from, to, status } => (from, to, status),
            _ => return,
        };
        let ghost context = before.context(context_id);
        let ghost active = context.active_navigation->Some_0;
        let request_id = match self.contexts.get(&context_id.raw) {
            Some(context) => match &context.active_navigation {
                Some(active) => active.request_id,
                None => return,
            },
            None => return,
        };
        let next_request_id = match self.ids.request() {
            Ok(id) => id,
            Err(error) => {
                assert(self@ =~= before);
                self.fail_navigation(context_id, navigation_id, Some(request_id), error);
                return;
            },
        };
        let mut context = self.take_context(context_id);
        let mut active = context.active_navigation.take().unwrap();
        let frame_id = context.frame_id;
        active.request_id = next_request_id;
        context.active_navigation = Some(active);
        self.put_context(context_id, context);
        self.emit(
            BrowserEvent::NavigationRedirected {
                context_id,
                frame_id,
                navigation_id,
                request_id,
                next_request_id,
                from_url: from,
                to_url: to,
                status,
            },
        );
        assert(self@ =~= before.redirected(context_id, navigation_id, from@, to@, status));
    }

    /// Whether some navigation has work.
    pub fn has_navigation_work(&self) -> (r: bool)
        ensures
            r == (self@.pending_navigation_work.len() > 0),
    {
        self.pending_navigation_work.len() > 0
    }

    /// Takes the next work off the queue. Navigations take turns.
    pub fn take_navigation_work(&mut self) -> (r: NextWork)
        requires
            old(self).wf(),
        ensures
            final(self).wf(),
            final(self)@ == old(self)@.work_taken(),
            old(self)@.pending_navigation_work.len() == 0 <==> r is Idle,
            old(self)@.pending_navigation_work.len() > 0 ==> {
                let (context_id, navigation_id) = old(self)@.pending_navigation_work[0];
                let active = old(self)@.context(context_id).active_navigation->Some_0;
                if old(self)@.is_current(context_id, navigation_id) && active.work is Some {
                    r matches NextWork::Work {
                        context_id: c,
                        navigation_id: n,
                        request_id: q,
                        work,
                    } && c == context_id && n == navigation_id && q == active.request_id && work@
                        == active.work->Some_0
                } else {
                    r is Stale
                }
            },
    {
        broadcast use crate::browser::order::group_order;

        let ghost before = self@;
        let (context_id, navigation_id) = match self.pending_navigation_work.pop_front() {
            None => return NextWork::Idle,
            Some(next) => next,
        };
        let ghost rest = CoreView {
            pending_navigation_work: before.pending_navigation_work.drop_first(),
            ..before
        };
        assert(self@.pending_navigation_work =~= before.pending_navigation_work.drop_first());
        assert(self@ =~= rest);
        let current = match self.contexts.get(&context_id.raw) {
            None => false,
            Some(context) => match &context.active_navigation {
                Some(active) => active.navigation_id == navigation_id,
                None => false,
            },
        };
        if !current {
            return NextWork::Stale;
        }
        let mut context = self.take_context(context_id);
        let mut active = context.active_navigation.take().unwrap();
        let request_id = active.request_id;
        let work = active.work.take();
        context.active_navigation = Some(active);
        let ghost now = context@;
        self.put_context(context_id, context);
        assert(now =~= before.context(context_id).with_work(None));
        assert(self@ =~= before.work_taken());
        match work {
            None => NextWork::Stale,
            Some(work) => NextWork::Work { context_id, navigation_id, request_id, work },
        }
    }

    /// The history once a navigation has come to `final_url`.
    fn commit_history(&self, context_id: BrowsingContextId, final_url: &str) -> (r: SessionHistory)
        requires
            self.wf(),
            self@.has(context_id),
            self@.context(context_id).active_navigation is Some,
        ensures
            r.wf(),
            r@ == self@.context(context_id).committed_history(
                self@.context(context_id).active_navigation->Some_0.history_update,
                final_url@,
            ),
    {
        let context = self.contexts.get(&context_id.raw).unwrap();
        let active = context.active_navigation.as_ref().unwrap();
        let entry = HistoryEntry::navigation(final_url.to_owned());
        match &active.history_update {
            HistoryUpdate::Push => {
                let mut history = context.history.copy();
                if history.length() == 1 && same_text(history.url(), "about:blank") {
                    history.replace(entry);
                } else {
                    history.push(entry);
                }
                history
            },
            HistoryUpdate::Replace => {
                let mut history = context.history.copy();
                history.replace(entry);
                history
            },
            HistoryUpdate::Preserve(kept) => {
                let mut history = kept.copy();
                if !same_text(history.url(), final_url) {
                    history.replace(entry);
                }
                history
            },
        }
    }

    /// Gives a parsed page its ids and says what it will do to the history.
    /// Without ids, or with too many runtimes alive, the navigation fails.
    pub fn begin_commit(
        &mut self,
        context_id: BrowsingContextId,
        navigation_id: NavigationId,
        page: ParsedPage,
    ) -> (r: Option<CommitPlan>)
        requires
            old(self).wf(),
        ensures
            final(self).wf(),
            final(self)@ == old(self)@.commit_begun(context_id, navigation_id),
            r is Some <==> old(self)@.is_current(context_id, navigation_id) && old(self)@.commit_fault() is None,
            r matches Some(plan) ==> plan@ == old(self)@.commit_plan(
                context_id,
                navigation_id,
                page.url@,
                crate::browser::history::optional_text(page.title),
            ) && plan.history.wf(),
    {
        broadcast use crate::browser::order::group_order;

        let ghost before = self@;
        let current = match self.contexts.get(&context_id.raw) {
            None => false,
            Some(context) => match &context.active_navigation {
                Some(active) => active.navigation_id == navigation_id,
                None => false,
            },
        };
        if !current {
            return None;
        }
        let history = self.commit_history(context_id, page.url.as_str());
        let request_id = match self.contexts.get(&context_id.raw) {
            Some(context) => match &context.active_navigation {
                Some(active) => active.request_id,
                None => return None,
            },
            None => return None,
        };
        let document_id = match self.ids.document() {
            Ok(id) => id,
            Err(error) => {
                assert(self@ =~= before.with_document_ids());
                self.fail_navigation(context_id, navigation_id, Some(request_id), error);
                return None;
            },
        };
        let runtime_context_id = match self.ids.runtime() {
            Ok(id) => id,
            Err(error) => {
                assert(self@ =~= before.with_document_ids());
                self.fail_navigation(context_id, navigation_id, Some(request_id), error);
                return None;
            },
        };
        assert(self@ =~= before.with_document_ids());
        if self.runtime_slots.len() >= MAX_RUNTIME_SLOTS {
            self.fail_navigation(
                context_id,
                navigation_id,
                Some(request_id),
                BrowserError::new(
                    ErrorCode::ContextLimit,
                    "browser runtime-generation limit reached",
                ),
            );
            return None;
        }
        Some(
            CommitPlan {
                context_id,
                navigation_id,
                request_id,
                document_id,
                runtime_context_id,
                url: page.url,
                title: page.title,
                history,
            },
        )
    }

    /// Puts the document of a plan in the place of the present one, once the
    /// host has set up its runtime and noted the visit. Where the host could
    /// not, the navigation fails.
    pub fn commit_parsed_navigation(&mut self, plan: CommitPlan, outcome: Result<(), BrowserError>)
        requires
            old(self).wf(),
            plan.history.wf(),
        ensures
            final(self).wf(),
            final(self)@ == old(self)@.commit_ended(plan@, ErrorView::outcome(outcome)),
    {
        broadcast use crate::browser::order::group_order;

        let ghost before = self@;
        let context_id = plan.context_id;
        let navigation_id = plan.navigation_id;
        let current = match self.contexts.get(&context_id.raw) {
            None => false,
            Some(context) => match &context.active_navigation {
                Some(active) => active.navigation_id == navigation_id,
                None => false,
            },
        };
        if !current {
            return;
        }
        match outcome {
            Err(error) => {
                self.fail_navigation(context_id, navigation_id, Some(plan.request_id), error);
                return;
            },
            Ok(()) => {},
        }
        let mut context = self.take_context(context_id);
        let mut active = context.active_navigation.take().unwrap();
        let frame_id = context.frame_id;
        let old_document_id = context.document_id;
        let old_runtime_context_id = context.runtime_context_id;
        let old_runtime_slot = context.runtime_slot;
        let runtime_slot: usize = self.runtime_slots.len();
        self.runtime_slots.push(true);
        self.runtime_slots.set(old_runtime_slot, false);
        self.emit(
            BrowserEvent::RuntimeContextDestroyed {
                context_id,
                frame_id,
                document_id: old_document_id,
                runtime_context_id: old_runtime_context_id,
            },
        );
        self.emit(
            BrowserEvent::DocumentDiscarded {
                context_id,
                frame_id,
                document_id: old_document_id,
                replaced_by: Some(navigation_id),
            },
        );
        let work = script_work(
            &context.config.preload_scripts,
            &context.config.new_document_scripts,
            context.config.bypass_csp,
        );
        active.work = Some(NavigationWork::Scripts(work));
        context.active_navigation = Some(active);
        context.document_id = plan.document_id;
        context.runtime_context_id = plan.runtime_context_id;
        context.runtime_slot = runtime_slot;
        context.title = plan.title;
        context.history = plan.history;
        self.put_context(context_id, context);
        self.emit(
            BrowserEvent::NavigationCommitted {
                context_id,
                frame_id,
                navigation_id,
                request_id: Some(plan.request_id),
                document_id: plan.document_id,
                runtime_context_id: Some(plan.runtime_context_id),
                url: plan.url,
            },
        );
        self.emit(
            BrowserEvent::RuntimeContextCreated {
                context_id,
                frame_id,
                document_id: plan.document_id,
                runtime_context_id: plan.runtime_context_id,
            },
        );
        self.emit_phase(
            context_id,
            frame_id,
            navigation_id,
            NavigationPhase::ScriptsAndSubresources,
        );
        self.pending_navigation_work.push_back((context_id, navigation_id));
        assert(self@ =~= before.committed(plan@));
    }

    /// Takes one step of parsing.
    pub fn parse_advanced(
        &mut self,
        context_id: BrowsingContextId,
        navigation_id: NavigationId,
        request_id: RequestId,
        step: ParseStep,
    ) -> (r: Option<CommitPlan>)
        requires
            old(self).wf(),
        ensures
            final(self).wf(),
            match step {
                ParseStep::More => r is None && final(self)@ == old(self)@.restored(
                    context_id,
                    navigation_id,
                    WorkView::Parsing,
                ),
                ParseStep::Failed(message) => r is None && final(self)@ == old(self)@.failed(
                    context_id,
                    navigation_id,
                    Some(request_id),
                    ErrorView::new(ErrorCode::NavigationLoad, message@),
                ),
                ParseStep::Complete(page) => {
                    &&& final(self)@ == old(self)@.commit_begun(context_id, navigation_id)
                    &&& r is Some <==> old(self)@.is_current(context_id, navigation_id) && old(self)@.commit_fault() is None
                    &&& r matches Some(plan) ==> plan@ == old(self)@.commit_plan(
                        context_id,
                        navigation_id,
                        page.url@,
                        crate::browser::history::optional_text(page.title),
                    ) && plan.history.wf()
                },
            },
    {
        broadcast use crate::browser::order::group_order;

        match step {
            ParseStep::More => {
                self.restore_navigation_work(context_id, navigation_id, NavigationWork::Parsing);
                None
            },
            ParseStep::Failed(message) => {
                self.fail_navigation(
                    context_id,
                    navigation_id,
                    Some(request_id),
                    BrowserError::with_message(ErrorCode::NavigationLoad, message),
                );
                None
            },
            ParseStep::Complete(page) => self.begin_commit(context_id, navigation_id, page),
        }
    }

    /// Reports how far a document has come. Once it is settled, the actions of
    /// its scripts come back to be carried out.
    pub fn advance_lifecycle(
        &mut self,
        context_id: BrowsingContextId,
        navigation_id: NavigationId,
        stage: LifecycleStage,
        actions: Vec<NavigationAction>,
    ) -> (r: Option<Vec<NavigationAction>>)
        requires
            old(self).wf(),
        ensures
            final(self).wf(),
            final(self)@ == old(self)@.lifecycle_advanced(
                context_id,
                navigation_id,
                stage,
                actions@,
            ),
            r == if old(self)@.is_current(context_id, navigation_id) && stage
                == LifecycleStage::Settle {
                Some(actions)
            } else {
                None
            },
    {
        broadcast use crate::browser::order::group_order;

        let ghost before = self@;
        let (current, frame_id, document_id) = match self.contexts.get(&context_id.raw) {
            None => return None,
            Some(context) => (
                match &context.active_navigation {
                    Some(active) => active.navigation_id == navigation_id,
                    None => false,
                },
                context.frame_id,
                context.document_id,
            ),
        };
        if !current {
            return None;
        }
        match stage {
            LifecycleStage::DomContentLoaded => {
                self.emit_phase(
                    context_id,
                    frame_id,
                    navigation_id,
                    NavigationPhase::DomContentLoaded,
                );
                self.emit(
                    BrowserEvent::DomContentLoaded {
                        context_id,
                        frame_id,
                        navigation_id,
                        document_id,
                    },
                );
                assert(self@ =~= before.telling(
                    seq![
                        EventView::phase(
                            context_id,
                            frame_id,
                            navigation_id,
                            NavigationPhase::DomContentLoaded,
                        ),
                        EventView::DomContentLoaded {
                            context_id,
                            frame_id,
                            navigation_id,
                            document_id,
                        },
                    ],
                ));
                self.restore_navigation_work(
                    context_id,
                    navigation_id,
                    NavigationWork::Lifecycle { stage: LifecycleStage::Load, actions },
                );
                None
            },
            LifecycleStage::Load => {
                self.emit_phase(context_id, frame_id, navigation_id, NavigationPhase::Load);
                self.emit(
                    BrowserEvent::DocumentLoadCompleted {
                        context_id,
                        frame_id,
                        navigation_id,
                        document_id,
                    },
                );
                assert(self@ =~= before.telling(
                    seq![
                        EventView::phase(
                            context_id,
                            frame_id,
                            navigation_id,
                            NavigationPhase::Load,
                        ),
                        EventView::DocumentLoadCompleted {
                            context_id,
                            frame_id,
                            navigation_id,
                            document_id,
                        },
                    ],
                ));
                self.restore_navigation_work(
                    context_id,
                    navigation_id,
                    NavigationWork::Lifecycle { stage: LifecycleStage::Settle, actions },
                );
                None
            },
            LifecycleStage::Settle => {
                let _ = self.finish_navigation(
                    context_id,
                    navigation_id,
                    NavigationTerminal::Settled,
                    true,
                );
                Some(actions)
            },
        }
    }

    /// Hands over the loads that are to start.
    pub fn start_pending_loads(&mut self) -> (r: Vec<LoadStart>)
        requires
            old(self).wf(),
        ensures
            final(self).wf(),
            final(self)@ == (CoreView { pending_load_starts: Seq::empty(), ..old(self)@ }),
            LoadView::all(r@) == old(self)@.pending_load_starts,
    {
        broadcast use crate::browser::order::group_order;

        let ghost before = self@;
        let mut r: Vec<LoadStart> = Vec::new();
        r.append(&mut self.pending_load_starts);
        assert(LoadView::all(r@) =~= before.pending_load_starts);
        assert(self@ =~= (CoreView { pending_load_starts: Seq::empty(), ..before }));
        r
    }
}

/// The scripts of a new document, in the order in which they run.
fn script_work(
    preload_scripts: &Vec<String>,
    new_document_scripts: &Vec<String>,
    bypass_csp: bool,
) -> (r: NavigationScriptWork)
    ensures
        r@ == (ScriptWorkView {
            preload_scripts: preload_scripts@,
            new_document_scripts: new_document_scripts@,
            bypass_csp,
            actions: Seq::empty(),
        }),
{
    let r = NavigationScriptWork {
        preload_scripts: queue_of(preload_scripts),
        new_document_scripts: queue_of(new_document_scripts),
        bypass_csp,
        actions: Vec::new(),
    };
    assert(r@ =~= (ScriptWorkView {
        preload_scripts: preload_scripts@,
        new_document_scripts: new_document_scripts@,
        bypass_csp,
        actions: Seq::empty(),
    }));
    r
}

/// A queue with copies of `texts`, in order.
fn queue_of(texts: &Vec<String>) -> (r: std::collections::VecDeque<String>)
    ensures
        r@ == texts@,
{
    let mut r: std::collections::VecDeque<String> = std::collections::VecDeque::new();
    let mut i: usize = 0;
    while i < texts.len()
        invariant
            i <= texts@.len(),
            r@ == texts@.take(i as int),
        decreases texts@.len() - i,
    {
        r.push_back(texts[i].clone());
        i += 1;
        assert(r@ =~= texts@.take(i as int));
    }
    assert(texts@.take(texts@.len() as int) =~= texts@);
    r
}

} // verus!
