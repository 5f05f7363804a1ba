//! The scripts of a new document.
//!
//! Scripts that the frontend configured run first, then those of the page, one
//! at a time. A script that fails is reported and the next one runs. An
//! external script is loaded while the navigation waits.

use vstd::prelude::*;

use crate::browser::actions::{append_navigation_actions_bounded, NavigationAction};
use crate::browser::error::{BrowserError, ErrorView};
use crate::browser::events::{
    BrowserEvent, EffectsView, EventView, NetworkView, RuntimeEffects, RuntimeNetworkEvent,
};
use crate::browser::ids::{BrowsingContextId, IdAllocator, NavigationId, RequestId};
use crate::browser::loading::NextWork;
use crate::browser::registry::{
    ActiveView, BrowserCore, CoreView, ExternalScriptLoadKey, HostRequest, LifecycleStage,
    NavigationScriptWork, NavigationWork, PendingExternalScript, PendingView, ScriptWorkView,
    WorkView,
};
use crate::browser::source::{
    external_script_network_events, ExternalScriptLoadFailure, LoadedExternalScript,
};
use crate::text::decimal;
use crate::weburl::parse_url;

verus! {

/// What the host is to do for a navigation next.
pub enum WorkStep {
    /// No navigation has work.
    Idle,
    /// The work was for a navigation that is no longer under way.
    Stale,
    /// The work is done.
    Advanced,
    /// Parse some more of the document.
    Parse { context_id: BrowsingContextId, navigation_id: NavigationId, request_id: RequestId },
    /// Run a script that the frontend configured.
    RunScript {
        context_id: BrowsingContextId,
        navigation_id: NavigationId,
        source: String,
        work: NavigationScriptWork,
    },
    /// Find the next script of the page.
    AskAuthor {
        context_id: BrowsingContextId,
        navigation_id: NavigationId,
        work: NavigationScriptWork,
    },
    /// The document is settled; carry out what its scripts asked for.
    Settled {
        context_id: BrowsingContextId,
        navigation_id: NavigationId,
        actions: Vec<NavigationAction>,
    },
}

/// What running one script came to.
pub struct ScriptRun {
    /// How the script ended; `None` where there was none left to run.
    pub item: Option<Result<(), BrowserError>>,
    /// What the script brought about.
    pub effects: Result<RuntimeEffects, BrowserError>,
    /// What the script asked for.
    pub actions: Result<Vec<NavigationAction>, BrowserError>,
}

impl ScriptRun {
    /// The effects of a run, behind those that were there before. What failed
    /// is among them.
    pub open spec fn effects_after(&self, before: EffectsView) -> EffectsView {
        let ran = match self.item {
            Some(Err(e)) => before.with_exception(e@),
            _ => before,
        };
        let seen = match self.effects {
            Ok(effects) => ran.extended(effects@),
            Err(e) => ran.with_exception(e@),
        };
        match self.actions {
            Ok(_) => seen,
            Err(e) => seen.with_exception(e@),
        }
    }

    /// The actions queued after a run.
    pub open spec fn actions_after(&self, queued: Seq<NavigationAction>) -> Seq<NavigationAction> {
        match self.actions {
            Ok(actions) => crate::browser::actions::bounded_actions(queued, actions@),
            Err(_) => queued,
        }
    }

    /// Adds the effects and the actions of a run to those that were there.
    fn collect(self, effects: &mut RuntimeEffects, queued: &mut Vec<NavigationAction>)
        ensures
            final(effects)@ == self.effects_after(old(effects)@),
            final(queued)@ == self.actions_after(old(queued)@),
    {
        if let Some(Err(error)) = self.item {
            effects.push_exception(error);
        }
        match self.effects {
            Ok(more) => effects.extend(more),
            Err(error) => effects.push_exception(error),
        }
        match self.actions {
            Ok(actions) => append_navigation_actions_bounded(queued, actions),
            Err(error) => effects.push_exception(error),
        }
    }
}

/// What running an external script came to.
pub enum ExternalRun {
    /// The cookies that came with the script could not be kept, so it did not
    /// run.
    CookiesFailed(BrowserError),
    /// The script ran.
    Ran(ScriptRun),
}

/// What becomes of an external script that arrived.
pub enum ExternalScriptStep {
    /// Nobody waits for it any more.
    Stale,
    /// It does not run.
    Skipped,
    /// It runs, once its cookies are kept.
    Run {
        source: String,
        requested_urls: Vec<String>,
        effects: RuntimeEffects,
        work: NavigationScriptWork,
    },
}

/// What stands against running a script that loaded: the URL and the reason.
pub open spec fn script_blocked(
    result: Result<LoadedExternalScript, ExternalScriptLoadFailure>,
    csp_allows: bool,
    response_allows: bool,
) -> Option<(Seq<char>, Seq<char>)> {
    match result {
        Ok(LoadedExternalScript::File { final_url, .. }) => if csp_allows {
            None
        } else {
            Some((final_url@, "csp"@))
        },
        Ok(LoadedExternalScript::Http { response, .. }) => if !csp_allows {
            Some((response.final_url@, "csp"@))
        } else if !response_allows {
            Some((response.final_url@, "response-policy"@))
        } else {
            None
        },
        Err(_) => None,
    }
}

/// The script did not come from a server, or its final URL is one.
pub open spec fn has_final_url(
    result: Result<LoadedExternalScript, ExternalScriptLoadFailure>,
) -> bool {
    result matches Ok(LoadedExternalScript::Http { response, .. })
        ==> crate::weburl::parsed_url(response.final_url@) is Ok
}

/// The effects of loading a script: the exchange, and the refusal to run it.
pub open spec fn script_load_effects(
    request_id: RequestId,
    request_url: Seq<char>,
    result: Result<LoadedExternalScript, ExternalScriptLoadFailure>,
    csp_allows: bool,
    response_allows: bool,
) -> EffectsView {
    let id = crate::text::decimal_text(request_id.raw as nat);
    let heard = EffectsView {
        network: crate::browser::source::script_network(id, request_url, result),
        ..EffectsView::none()
    };
    match script_blocked(result, csp_allows, response_allows) {
        None => heard,
        Some((url, reason)) => heard.with_network(
            NetworkView::Failure {
                request_id: id,
                url,
                error_text: "external script blocked"@,
                blocked_reason: Some(reason),
            },
        ),
    }
}

impl CoreView {
    /// The browser becomes `after` and answers with `r` when the external
    /// script of `key` arrives. One that nobody waits for changes nothing; one
    /// that may run waits for the host; any other is told of and skipped.
    pub open spec fn script_taken(
        self,
        after: CoreView,
        r: ExternalScriptStep,
        key: ExternalScriptLoadKey,
        result: Result<LoadedExternalScript, ExternalScriptLoadFailure>,
        csp_allows: bool,
        response_allows: bool,
    ) -> bool {
        if !self.script_awaited(key) {
            r is Stale && after == self
        } else {
            let pending = self.context(
                key.context_id,
            ).active_navigation->Some_0.pending_script->Some_0;
            let loaded = script_load_effects(
                key.request_id,
                pending.url,
                result,
                csp_allows,
                response_allows,
            );
            if result is Ok && script_blocked(result, csp_allows, response_allows) is None {
                &&& after == self.script_here(key)
                &&& r matches ExternalScriptStep::Run {
                    source,
                    requested_urls,
                    effects,
                    work,
                } && effects@ == loaded && work@ == pending.work && match result->Ok_0 {
                    LoadedExternalScript::File { source: s, .. } => source == s
                        && requested_urls@.len() == 0,
                    LoadedExternalScript::Http { response, requested_urls: urls } => source
                        == response.body && requested_urls == urls,
                }
            } else {
                &&& r is Skipped
                &&& after == self.external_skipped(key, loaded, pending.work)
            }
        }
    }

    /// The browser after the frontends heard of effects, if there were any.
    pub open spec fn telling_effects(
        self,
        context_id: BrowsingContextId,
        effects: EffectsView,
    ) -> CoreView {
        let context = self.context(context_id);
        if effects.is_empty() {
            self
        } else {
            self.telling(
                seq![
                    EventView::RuntimeEffects {
                        context_id,
                        frame_id: context.frame_id,
                        document_id: context.document_id,
                        runtime_context_id: context.runtime_context_id,
                        url: context.history.current().url,
                        effects,
                    },
                ],
            )
        }
    }

    /// The browser after one script of a navigation ran.
    pub open spec fn script_ran(
        self,
        context_id: BrowsingContextId,
        navigation_id: NavigationId,
        work: ScriptWorkView,
        run: ScriptRun,
    ) -> CoreView {
        if !self.is_current(context_id, navigation_id) {
            self
        } else {
            let actions = run.actions_after(work.actions);
            self.telling_effects(context_id, run.effects_after(EffectsView::none())).restored(
                context_id,
                navigation_id,
                if run.item is Some {
                    WorkView::Scripts(ScriptWorkView { actions, ..work })
                } else {
                    WorkView::Lifecycle { stage: LifecycleStage::DomContentLoaded, actions }
                },
            )
        }
    }

    /// The browser after a script could not be prepared.
    pub open spec fn script_unprepared(
        self,
        context_id: BrowsingContextId,
        navigation_id: NavigationId,
        work: ScriptWorkView,
        error: ErrorView,
    ) -> CoreView {
        self.telling_effects(context_id, EffectsView::none().with_exception(error)).restored(
            context_id,
            navigation_id,
            WorkView::Scripts(work),
        )
    }

    /// The ids under which the next external script of a context loads.
    pub open spec fn script_key(
        self,
        context_id: BrowsingContextId,
        navigation_id: NavigationId,
    ) -> ExternalScriptLoadKey {
        ExternalScriptLoadKey {
            context_id,
            navigation_id,
            document_id: self.context(context_id).document_id,
            runtime_context_id: self.context(context_id).runtime_context_id,
            request_id: RequestId { raw: self.ids.next_request },
        }
    }

    /// The browser after an external script of a page was found.
    pub open spec fn external_found(
        self,
        context_id: BrowsingContextId,
        navigation_id: NavigationId,
        work: ScriptWorkView,
        url: Seq<char>,
        cookies: Result<(), ErrorView>,
    ) -> CoreView {
        let context = self.context(context_id);
        let active = context.active_navigation->Some_0;
        if !self.is_current(context_id, navigation_id) {
            self
        } else {
            match cookies {
                Err(e) => self.script_unprepared(context_id, navigation_id, work, e),
                Ok(()) => if self.ids.next_request == 0 {
                    self.script_unprepared(
                        context_id,
                        navigation_id,
                        work,
                        ErrorView::exhausted_ids(),
                    )
                } else {
                    let key = self.script_key(context_id, navigation_id);
                    CoreView {
                        ids: IdAllocator {
                            next_request: crate::browser::ids::counter_after(
                                self.ids.next_request,
                            ),
                            ..self.ids
                        },
                        requests: self.requests.push(HostRequest::StartScriptLoad { key }),
                        ..self.with_context(
                            context_id,
                            context.with_active(
                                Some(
                                    ActiveView {
                                        loading: true,
                                        pending_script: Some(PendingView { key, url, work }),
                                        ..active
                                    },
                                ),
                            ),
                        )
                    }
                },
            }
        }
    }

    /// The document and the runtime of a script are still those of its context,
    /// and its navigation is under way.
    pub open spec fn script_current(self, key: ExternalScriptLoadKey) -> bool {
        &&& self.is_current(key.context_id, key.navigation_id)
        &&& self.context(key.context_id).document_id == key.document_id
        &&& self.context(key.context_id).runtime_context_id == key.runtime_context_id
    }

    /// A navigation waits for exactly this script.
    pub open spec fn script_awaited(self, key: ExternalScriptLoadKey) -> bool {
        &&& self.script_current(key)
        &&& self.context(key.context_id).active_navigation->Some_0.pending_script matches Some(
            pending,
        ) && pending.key == key
    }

    /// The browser once the script that a navigation waited for is here.
    pub open spec fn script_here(self, key: ExternalScriptLoadKey) -> CoreView {
        let context = self.context(key.context_id);
        let active = context.active_navigation->Some_0;
        self.with_context(
            key.context_id,
            context.with_active(
                Some(ActiveView { loading: false, pending_script: None, ..active }),
            ),
        )
    }

    /// The browser after an external script arrived that does not run.
    pub open spec fn external_skipped(
        self,
        key: ExternalScriptLoadKey,
        effects: EffectsView,
        work: ScriptWorkView,
    ) -> CoreView {
        self.script_here(key).telling_effects(key.context_id, effects).restored(
            key.context_id,
            key.navigation_id,
            WorkView::Scripts(work),
        )
    }

    /// The browser after an external script ran, or after its cookies could not
    /// be kept.
    pub open spec fn external_ran(
        self,
        key: ExternalScriptLoadKey,
        work: ScriptWorkView,
        effects: EffectsView,
        run: ExternalRun,
    ) -> CoreView {
        if !self.script_current(key) {
            self
        } else {
            let (after, actions) = match run {
                ExternalRun::CookiesFailed(e) => (effects.with_exception(e@), work.actions),
                ExternalRun::Ran(run) => (
                    run.effects_after(effects),
                    run.actions_after(work.actions),
                ),
            };
            self.telling_effects(key.context_id, after).restored(
                key.context_id,
                key.navigation_id,
                WorkView::Scripts(ScriptWorkView { actions, ..work }),
            )
        }
    }
}

impl BrowserCore {
    /// Whether a navigation is under way.
    pub fn is_current(&self, context_id: BrowsingContextId, navigation_id: NavigationId) -> (r: bool)
        ensures
            r == self@.is_current(context_id, navigation_id),
    {
        match self.contexts.get(&context_id.raw) {
            None => false,
            Some(context) => match &context.active_navigation {
                Some(active) => active.navigation_id == navigation_id,
                None => false,
            },
        }
    }

    /// Tells the frontends of effects, if there are any.
    fn emit_effects(&mut self, context_id: BrowsingContextId, effects: RuntimeEffects)
        requires
            old(self).wf(),
            old(self)@.has(context_id),
        ensures
            final(self).wf(),
            final(self)@ == old(self)@.telling_effects(context_id, effects@),
    {
        broadcast use crate::browser::order::group_order;

        if effects.is_empty() {
            return;
        }
        let (frame_id, document_id, runtime_context_id, url) = match self.contexts.get(
            &context_id.raw,
        ) {
            None => return,
            Some(context) => (
                context.frame_id,
                context.document_id,
                context.runtime_context_id,
                context.history.url().to_owned(),
            ),
        };
        self.emit(
            BrowserEvent::RuntimeEffects {
                context_id,
                frame_id,
                document_id,
                runtime_context_id,
                url,
                effects,
            },
        );
    }

    /// The next script of a new document: those that run before the page's own
    /// come in the order in which they were configured.
    pub fn advance_script_work(
        &self,
        context_id: BrowsingContextId,
        navigation_id: NavigationId,
        work: NavigationScriptWork,
    ) -> (r: WorkStep)
        ensures
            if !self@.is_current(context_id, navigation_id) {
                r is Stale
            } else if work@.preload_scripts.len() > 0 {
                r matches WorkStep::RunScript { context_id: c, navigation_id: n, source, work: w }
                    && c == context_id && n == navigation_id && source == work@.preload_scripts[0]
                    && w@ == (ScriptWorkView {
                    preload_scripts: work@.preload_scripts.drop_first(),
                    ..work@
                })
            } else if work@.new_document_scripts.len() > 0 {
                r matches WorkStep::RunScript { context_id: c, navigation_id: n, source, work: w }
                    && c == context_id && n == navigation_id && source
                    == work@.new_document_scripts[0] && w@ == (ScriptWorkView {
                    new_document_scripts: work@.new_document_scripts.drop_first(),
                    ..work@
                })
            } else {
                r matches WorkStep::AskAuthor { context_id: c, navigation_id: n, work: w } && c
                    == context_id && n == navigation_id && w@ == work@
            },
    {
        if !self.is_current(context_id, navigation_id) {
            return WorkStep::Stale;
        }
        let mut work = work;
        let ghost before = work@;
        if let Some(source) = work.preload_scripts.pop_front() {
            assert(work@ =~= (ScriptWorkView {
                preload_scripts: before.preload_scripts.drop_first(),
                ..before
            }));
            return WorkStep::RunScript { context_id, navigation_id, source, work };
        }
        if let Some(source) = work.new_document_scripts.pop_front() {
            assert(work@ =~= (ScriptWorkView {
                new_document_scripts: before.new_document_scripts.drop_first(),
                ..before
            }));
            return WorkStep::RunScript { context_id, navigation_id, source, work };
        }
        assert(work@ =~= before);
        WorkStep::AskAuthor { context_id, navigation_id, work }
    }

    /// Takes the next work off the queue and does what needs no host.
    pub fn advance_navigation_work(&mut self) -> (r: WorkStep)
        requires
            old(self).wf(),
        ensures
            final(self).wf(),
            old(self)@.pending_navigation_work.len() == 0 ==> r is Idle && final(self)@ == old(self)@,
            old(self)@.pending_navigation_work.len() > 0 ==> {
                let (context_id, navigation_id) = old(self)@.pending_navigation_work[0];
                let active = old(self)@.context(context_id).active_navigation->Some_0;
                let taken = old(self)@.work_taken();
                if !old(self)@.is_current(context_id, navigation_id) || active.work is None {
                    r is Stale && final(self)@ == taken
                } else {
                    match active.work->Some_0 {
                        WorkView::Parsing => {
                            &&& r == (WorkStep::Parse {
                                context_id,
                                navigation_id,
                                request_id: active.request_id,
                            })
                            &&& final(self)@ == taken
                        },
                        WorkView::Scripts(work) => {
                            &&& final(self)@ == taken
                            &&& if work.preload_scripts.len() > 0 {
                                r matches WorkStep::RunScript {
                                    context_id: c,
                                    navigation_id: n,
                                    source,
                                    work: w,
                                } && c == context_id && n == navigation_id && source
                                    == work.preload_scripts[0] && w@ == (ScriptWorkView {
                                    preload_scripts: work.preload_scripts.drop_first(),
                                    ..work
                                })
                            } else if work.new_document_scripts.len() > 0 {
                                r matches WorkStep::RunScript {
                                    context_id: c,
                                    navigation_id: n,
                                    source,
                                    work: w,
                                } && c == context_id && n == navigation_id && source
                                    == work.new_document_scripts[0] && w@ == (ScriptWorkView {
                                    new_document_scripts: work.new_document_scripts.drop_first(),
                                    ..work
                                })
                            } else {
                                r matches WorkStep::AskAuthor {
                                    context_id: c,
                                    navigation_id: n,
                                    work: w,
                                } && c == context_id && n == navigation_id && w@ == work
                            }
                        },
                        WorkView::Lifecycle { stage, actions } => {
                            &&& final(self)@ == taken.lifecycle_advanced(
                                context_id,
                                navigation_id,
                                stage,
                                actions,
                            )
                            &&& if stage == LifecycleStage::Settle {
                                r matches WorkStep::Settled {
                                    context_id: c,
                                    navigation_id: n,
                                    actions: a,
                                } && c == context_id && n == navigation_id && a@ == actions
                            } else {
                                r is Advanced
                            }
                        },
                    }
                }
            },
    {
        broadcast use crate::browser::order::group_order;

        match self.take_navigation_work() {
            NextWork::Idle => WorkStep::Idle,
            NextWork::Stale => WorkStep::Stale,
            NextWork::Work { context_id, navigation_id, request_id, work } => match work {
                NavigationWork::Parsing => WorkStep::Parse {
                    context_id,
                    navigation_id,
                    request_id,
                },
                NavigationWork::Scripts(scripts) => self.advance_script_work(
                    context_id,
                    navigation_id,
                    scripts,
                ),
                NavigationWork::Lifecycle { stage, actions } => match self.advance_lifecycle(
                    context_id,
                    navigation_id,
                    stage,
                    actions,
                ) {
                    Some(actions) => WorkStep::Settled { context_id, navigation_id, actions },
                    None => WorkStep::Advanced,
                },
            },
        }
    }

    /// Takes the run of one script, or the word that none is left. In the
    /// latter case the document goes on to report that it is loaded.
    pub fn finish_script(
        &mut self,
        context_id: BrowsingContextId,
        navigation_id: NavigationId,
        work: NavigationScriptWork,
        run: ScriptRun,
    )
        requires
            old(self).wf(),
        ensures
            final(self).wf(),
            final(self)@ == old(self)@.script_ran(context_id, navigation_id, work@, run),
    {
        broadcast use crate::browser::order::group_order;

        if !self.is_current(context_id, navigation_id) {
            return;
        }
        let advanced = run.item.is_some();
        let mut work = work;
        let ghost queued = work@;
        let mut effects = RuntimeEffects::none();
        run.collect(&mut effects, &mut work.actions);
        self.emit_effects(context_id, effects);
        assert(work@ =~= (ScriptWorkView { actions: run.actions_after(queued.actions), ..queued }));
        let next = if advanced {
            NavigationWork::Scripts(work)
        } else {
            NavigationWork::Lifecycle {
                stage: LifecycleStage::DomContentLoaded,
                actions: work.actions,
            }
        };
        self.restore_navigation_work(context_id, navigation_id, next);
    }

    /// Has the navigation wait for an external script.
    fn start_external_script_load(
        &mut self,
        key: ExternalScriptLoadKey,
        url: String,
        work: NavigationScriptWork,
    )
        requires
            old(self).wf(),
            old(self)@.is_current(key.context_id, key.navigation_id),
        ensures
            final(self).wf(),
            ({
                let context = old(self)@.context(key.context_id);
                final(self)@ == old(self)@.with_context(
                    key.context_id,
                    context.with_active(
                        Some(
                            ActiveView {
                                loading: true,
                                pending_script: Some(
                                    PendingView { key, url: url@, work: work@ },
                                ),
                                ..context.active_navigation->Some_0
                            },
                        ),
                    ),
                ).asking(HostRequest::StartScriptLoad { key })
            }),
    {
        broadcast use crate::browser::order::group_order;

        let ghost before = self@;
        let mut context = self.take_context(key.context_id);
        let mut active = context.active_navigation.take().unwrap();
        active.loading = true;
        active.pending_script = Some(PendingExternalScript { key, url, work });
        context.active_navigation = Some(active);
        let ghost now = context@;
        self.put_context(key.context_id, context);
        assert(self@ =~= before.with_context(key.context_id, now));
        self.ask(HostRequest::StartScriptLoad { key });
    }

    /// Takes an external script that the page asks for. It gets a request id
    /// and is loaded; where its cookies cannot be had, or no id is left, that is
    /// reported and the next script is due.
    pub fn external_script_found(
        &mut self,
        context_id: BrowsingContextId,
        navigation_id: NavigationId,
        work: NavigationScriptWork,
        url: String,
        cookies: Result<(), BrowserError>,
    )
        requires
            old(self).wf(),
        ensures
            final(self).wf(),
            final(self)@ == old(self)@.external_found(
                context_id,
                navigation_id,
                work@,
                url@,
                ErrorView::outcome(cookies),
            ),
    {
        broadcast use crate::browser::order::group_order;

        let ghost before = self@;
        if !self.is_current(context_id, navigation_id) {
            return;
        }
        let fault = match cookies {
            Err(error) => Err(error),
            Ok(()) => self.ids.request(),
        };
        let request_id = match fault {
            Err(error) => {
                assert(self@ =~= before);
                let mut effects = RuntimeEffects::none();
                effects.push_exception(error);
                self.emit_effects(context_id, effects);
                self.restore_navigation_work(
                    context_id,
                    navigation_id,
                    NavigationWork::Scripts(work),
                );
                return;
            },
            Ok(request_id) => request_id,
        };
        let (document_id, runtime_context_id) = match self.contexts.get(&context_id.raw) {
            None => return,
            Some(context) => (context.document_id, context.runtime_context_id),
        };
        let key = ExternalScriptLoadKey {
            context_id,
            navigation_id,
            document_id,
            runtime_context_id,
            request_id,
        };
        self.start_external_script_load(key, url, work);
        assert(self@ =~= before.external_found(context_id, navigation_id, work@, url@, Ok(())));
    }

    /// Takes an external script that arrived, as
    /// [`BrowserCore::complete_external_script`] does. One whose final URL is
    /// no URL is refused by every policy.
    pub fn external_script_arrived(
        &mut self,
        key: ExternalScriptLoadKey,
        result: Result<LoadedExternalScript, ExternalScriptLoadFailure>,
        csp_allows: bool,
        response_allows: bool,
    ) -> (r: ExternalScriptStep)
        requires
            old(self).wf(),
        ensures
            final(self).wf(),
            old(self)@.script_taken(
                final(self)@,
                r,
                key,
                result,
                csp_allows && has_final_url(result),
                response_allows,
            ),
    {
        broadcast use crate::browser::order::group_order;

        let known = match &result {
            Ok(LoadedExternalScript::Http { response, .. }) => parse_url(
                response.final_url.as_str(),
            ).is_ok(),
            _ => true,
        };
        self.complete_external_script(key, result, csp_allows && known, response_allows)
    }

    /// Takes an external script that arrived. It counts only for the
    /// navigation, document and runtime that wait for it. Whether it may run,
    /// the page's policy and the reply decide.
    pub fn complete_external_script(
        &mut self,
        key: ExternalScriptLoadKey,
        result: Result<LoadedExternalScript, ExternalScriptLoadFailure>,
        csp_allows: bool,
        response_allows: bool,
    ) -> (r: ExternalScriptStep)
        requires
            old(self).wf(),
        ensures
            final(self).wf(),
            old(self)@.script_taken(
                final(self)@,
                r,
                key,
                result,
                csp_allows,
                response_allows,
            ),
    {
        broadcast use crate::browser::order::group_order;

        let ghost before = self@;
        let awaited = match self.contexts.get(&key.context_id.raw) {
            None => false,
            Some(context) => context.document_id == key.document_id && context.runtime_context_id
                == key.runtime_context_id && match &context.active_navigation {
                None => false,
                Some(active) => active.navigation_id == key.navigation_id
                    && match &active.pending_script {
                    None => false,
                    Some(pending) => pending.key == key,
                },
            },
        };
        if !awaited {
            return ExternalScriptStep::Stale;
        }
        let mut context = self.take_context(key.context_id);
        let mut active = context.active_navigation.take().unwrap();
        let pending = active.pending_script.take().unwrap();
        active.loading = false;
        context.active_navigation = Some(active);
        let ghost now = context@;
        self.put_context(key.context_id, context);
        assert(self@ =~= before.with_context(key.context_id, now));
        assert(self@ =~= before.script_here(key));
        let network = external_script_network_events(key.request_id, pending.url.as_str(), &result);
        let mut effects = RuntimeEffects::of_network(network);
        let mut source: Option<String> = None;
        let mut requested_urls: Vec<String> = Vec::new();
        let mut blocked: Option<(String, &str)> = None;
        match result {
            Ok(LoadedExternalScript::File { final_url, source: text }) => {
                if csp_allows {
                    source = Some(text);
                } else {
                    blocked = Some((final_url, "csp"));
                }
            },
            Ok(LoadedExternalScript::Http { response, requested_urls: urls }) => {
                requested_urls = urls;
                if !csp_allows {
                    blocked = Some((response.final_url, "csp"));
                } else if !response_allows {
                    blocked = Some((response.final_url, "response-policy"));
                } else {
                    source = Some(response.body);
                }
            },
            Err(_) => {},
        }
        if let Some((url, reason)) = blocked {
            effects.push_network(
                RuntimeNetworkEvent::Failure {
                    request_id: decimal(key.request_id.raw),
                    url,
                    error_text: "external script blocked".to_owned(),
                    blocked_reason: Some(reason.to_owned()),
                },
            );
        }
        match source {
            Some(source) => ExternalScriptStep::Run {
                source,
                requested_urls,
                effects,
                work: pending.work,
            },
            None => {
                self.emit_effects(key.context_id, effects);
                self.restore_navigation_work(
                    key.context_id,
                    key.navigation_id,
                    NavigationWork::Scripts(pending.work),
                );
                ExternalScriptStep::Skipped
            },
        }
    }

    /// Takes the run of an external script.
    pub fn finish_external_script(
        &mut self,
        key: ExternalScriptLoadKey,
        work: NavigationScriptWork,
        effects: RuntimeEffects,
        run: ExternalRun,
    )
        requires
            old(self).wf(),
        ensures
            final(self).wf(),
            final(self)@ == old(self)@.external_ran(key, work@, effects@, run),
    {
        broadcast use crate::browser::order::group_order;

        let current = match self.contexts.get(&key.context_id.raw) {
            None => false,
            Some(context) => context.document_id == key.document_id && context.runtime_context_id
                == key.runtime_context_id && match &context.active_navigation {
                None => false,
                Some(active) => active.navigation_id == key.navigation_id,
            },
        };
        if !current {
            return;
        }
        let mut work = work;
        let mut effects = effects;
        let ghost queued = work@;
        match run {
            ExternalRun::CookiesFailed(error) => effects.push_exception(error),
            ExternalRun::Ran(run) => {
                run.collect(&mut effects, &mut work.actions);
                assert(work@ =~= (ScriptWorkView {
                    actions: run.actions_after(queued.actions),
                    ..queued
                }));
            },
        }
        self.emit_effects(key.context_id, effects);
        self.restore_navigation_work(
            key.context_id,
            key.navigation_id,
            NavigationWork::Scripts(work),
        );
    }
}

} // verus!
