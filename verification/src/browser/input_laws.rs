//! What holds of input and of the limits on it.

use vstd::prelude::*;

use crate::browser::commands::{Evaluation, OutcomeView};
use crate::browser::contexts::ProfileSessionState;
use crate::browser::dispatch::{
    BrowserCommand, BrowserCommandResult, CommandOutcome, HostCall, PageQuery,
};
use crate::browser::effects::ScriptValue;
use crate::browser::error::{BrowserError, ErrorCode};
use crate::browser::ids::{BrowsingContextId, DocumentId};
use crate::browser::input::{
    Completed, KeyEventData, MouseEventData, MousePosition, PageScroll, ScriptPurpose,
};
use crate::browser::limits::{
    Float64, HostLifecycle, HostViewState, KeyboardScroll, TextInputState, TextSelection,
};
use crate::browser::registry::CoreView;

verus! {

/// Each key scrolls the way it says: the arrows by a line, the page keys by most of
/// a page, `Home` to the top and `End` to the bottom. The space bar scrolls a page
/// down, and with the shift key a page up. No other key scrolls.
pub proof fn keys_scroll_their_way(key: Seq<char>, shift: bool)
    ensures
        ({
            let r = crate::browser::limits::scroll_of_key(key, shift);
            &&& r == Some(KeyboardScroll::LineLeft) <==> key == "ArrowLeft"@
            &&& r == Some(KeyboardScroll::LineRight) <==> key == "ArrowRight"@
            &&& r == Some(KeyboardScroll::LineUp) <==> key == "ArrowUp"@
            &&& r == Some(KeyboardScroll::LineDown) <==> key == "ArrowDown"@
            &&& r == Some(KeyboardScroll::PageUp) <==> key == "PageUp"@ || (key == " "@ && shift)
            &&& r == Some(KeyboardScroll::PageDown) <==> key == "PageDown"@ || (key == " "@
                && !shift)
            &&& r == Some(KeyboardScroll::Top) <==> key == "Home"@
            &&& r == Some(KeyboardScroll::Bottom) <==> key == "End"@
        }),
{
    reveal_strlit("ArrowLeft");
    reveal_strlit("ArrowRight");
    reveal_strlit("ArrowUp");
    reveal_strlit("ArrowDown");
    reveal_strlit("PageUp");
    reveal_strlit("PageDown");
    reveal_strlit("Home");
    reveal_strlit("End");
    reveal_strlit(" ");
    assert("ArrowLeft"@.len() == 9);
    assert("ArrowRight"@.len() == 10);
    assert("ArrowUp"@.len() == 7);
    assert("ArrowDown"@.len() == 9);
    assert("PageUp"@.len() == 6);
    assert("PageDown"@.len() == 8);
    assert("Home"@.len() == 4);
    assert("End"@.len() == 3);
    assert(" "@.len() == 1);
    assert("ArrowLeft"@[5] == 'L' && "ArrowDown"@[5] == 'D');
}

/// A key scrolls only when it is pressed, with no modifier but the shift key, and
/// where the focused element leaves scroll keys alone; then it scrolls as it
/// always does.
pub proof fn keys_scroll_when_they_are_free(
    event_type: Seq<char>,
    event: KeyEventData,
    focus_consumes_scroll_keys: bool,
)
    ensures
        ({
            let r = crate::browser::input::key_scroll(
                event_type,
                event,
                focus_consumes_scroll_keys,
            );
            let m = event.modifiers;
            let free = (event_type == "keyDown"@ || event_type == "keydown"@) && !m.ctrl_key
                && !m.alt_key && !m.meta_key && !focus_consumes_scroll_keys;
            &&& free ==> r == crate::browser::limits::scroll_of_key(event.key@, m.shift_key)
            &&& !free ==> r is None
        }),
{
}

/// A mouse event is for the node it names. A wheel event that names none is for the
/// default target of the page; any other event that names none is for no node.
pub proof fn mouse_events_have_their_node(
    event_type: Seq<char>,
    node_id: usize,
    default_target: Option<usize>,
)
    ensures
        ({
            let r = crate::browser::input::mouse_target(event_type, node_id, default_target);
            &&& node_id != 0 ==> r == Some(node_id)
            &&& node_id == 0 && event_type != "wheel"@ ==> r is None
            &&& node_id == 0 && event_type == "wheel"@ ==> match default_target {
                Some(node) => r == if node == 0 {
                    None
                } else {
                    Some(node)
                },
                None => r is None,
            }
        }),
{
}

/// A page scrolls only after an event that its scripts did not prevent: by the turn
/// of the wheel, while no key for zooming is held, or as the key says. Nothing else
/// scrolls it.
pub proof fn prevented_events_do_not_scroll(purpose: ScriptPurpose, value: ScriptValue)
    ensures
        value != ScriptValue::Bool(true) ==> purpose.scroll(value) == PageScroll::Stays,
        match purpose.scroll(value) {
            PageScroll::Stays => true,
            PageScroll::Wheel { delta_x, delta_y } => purpose matches ScriptPurpose::MouseEvent {
                event_type,
                event,
                ..
            } && event_type@ == "wheel"@ && !event.modifiers.ctrl_key && !event.modifiers.meta_key
                && delta_x == event.position.delta_x && delta_y == event.position.delta_y,
            PageScroll::Key(by) => purpose matches ScriptPurpose::KeyEvent { scroll, .. } && scroll
                == Some(by),
        },
{
}

/// An event that its scripts let through scrolls the page: a turn of the wheel by as
/// much as the wheel turned, and a key as it says.
pub proof fn free_events_scroll(
    node_id: usize,
    event_type: String,
    event: MouseEventData,
    key: KeyEventData,
    by: KeyboardScroll,
)
    ensures
        event_type@ == "wheel"@ && !event.modifiers.ctrl_key && !event.modifiers.meta_key ==> (
        ScriptPurpose::MouseEvent { node_id, event_type, event }).scroll(ScriptValue::Bool(true))
            == (PageScroll::Wheel {
            delta_x: event.position.delta_x,
            delta_y: event.position.delta_y,
        }),
        (ScriptPurpose::KeyEvent { event_type, event: key, scroll: Some(by) }).scroll(
            ScriptValue::Bool(true),
        ) == PageScroll::Key(by),
{
}

/// A command whose script has run is answered with what the script came to: its
/// value, its effects, and what became of the navigations it asked for. A text
/// input that no control took is refused.
pub proof fn scripts_answer_their_commands(
    purpose: ScriptPurpose,
    browser: CoreView,
    context_id: BrowsingContextId,
    evaluation: Evaluation,
    outcomes: Seq<OutcomeView>,
    r: Result<Completed, BrowserError>,
)
    requires
        purpose.answers(browser, context_id, evaluation, outcomes, r),
    ensures
        r is Err <==> purpose is TextInput && evaluation.value != ScriptValue::Bool(true),
        r matches Ok(done) ==> done.scroll == purpose.scroll(evaluation.value),
        purpose is Evaluation ==> (r matches Ok(done) && done.result
            matches BrowserCommandResult::Evaluation { value, navigation_actions } && value
            == evaluation.value && OutcomeView::all(navigation_actions@) == outcomes),
        purpose is AutomationEvaluation ==> (r matches Ok(done) && done.result
            matches BrowserCommandResult::AutomationEvaluation(a) && a.value == evaluation.value
            && a.effects == evaluation.effects),
        purpose is MouseEvent || purpose is KeyEvent || purpose is AccessibilityAction ==> (
        r matches Ok(done) && done.result matches BrowserCommandResult::InputDispatched(result)
            && result.effects == evaluation.effects),
{
}

/// Input is refused where the view of its context takes none, and nothing changes.
pub proof fn closed_views_take_no_input(
    v: CoreView,
    command: BrowserCommand,
    context_id: BrowsingContextId,
    after: CoreView,
    r: Result<CommandOutcome, BrowserError>,
)
    requires
        v.carries_out(command, after, r),
        v.has(context_id),
        !v.context(context_id).host_view.accepts_input,
        match command {
            BrowserCommand::DispatchMouseEvent { context_id: c, .. } => c == context_id,
            BrowserCommand::DispatchKeyEvent { context_id: c, .. } => c == context_id,
            BrowserCommand::DispatchTextInput { context_id: c, .. } => c == context_id,
            _ => false,
        },
    ensures
        after == v,
        r matches Err(e) && e@.code == ErrorCode::InvalidArgument,
{
}

/// The ranges of a text input lie within its text, counted in UTF-16, and a range
/// that is being composed does not run backwards. The text is at most 16384 bytes
/// long.
pub proof fn text_ranges_lie_in_their_text(
    text: Seq<char>,
    selection: TextSelection,
    composing: Option<TextSelection>,
)
    requires
        crate::text::utf16_count(text) <= u32::MAX,
    ensures
        crate::browser::limits::text_input_fault(text, selection, composing) is None <==> ({
            let units = crate::text::utf16_count(text);
            &&& crate::text::byte_count(text) <= 16_384
            &&& selection.base_offset <= units
            &&& selection.extent_offset <= units
            &&& match composing {
                Some(c) => c.base_offset <= c.extent_offset && c.extent_offset <= units,
                None => true,
            }
        }),
{
}

/// A text has as many UTF-16 units as its parts, one for each character of the basic
/// plane and two for any other.
pub proof fn utf16_units_add_up(a: Seq<char>, c: char)
    ensures
        crate::text::utf16_count(a.push(c)) == crate::text::utf16_count(a) + if (c as u32)
            <= 0xFFFF {
            1nat
        } else {
            2nat
        },
        crate::text::utf16_count(Seq::empty()) == 0,
{
    let s = a.push(c);
    assert(s.subrange(0, s.len() - 1) =~= a);
}

/// The limits on what a command may carry, in bytes: 16384 for a URL, 1048576 for a
/// script, 65536 for a selector or an id, and 4096 for a text to find. A viewport is
/// one to 16384 pixels wide and high.
pub proof fn commands_keep_to_their_limits(
    v: CoreView,
    context_id: BrowsingContextId,
    document_id: DocumentId,
    runtime_context_id: crate::browser::ids::RuntimeContextId,
    text: String,
    viewport: (u32, u32),
)
    ensures
        crate::browser::limits::url_ok(text@) <==> crate::text::byte_count(text@) <= 16_384,
        crate::text::byte_count(text@) > 1_048_576 ==> v.evaluation_fault(
            context_id,
            document_id,
            runtime_context_id,
            text@,
        ) is Some,
        crate::text::byte_count(text@) <= 1_048_576 ==> v.evaluation_fault(
            context_id,
            document_id,
            runtime_context_id,
            text@,
        ) == v.runtime_fault(context_id, document_id, runtime_context_id),
        crate::browser::dispatch::query_fault(
            PageQuery::FocusProjection { element_id: text },
        ) is None <==> crate::text::byte_count(text@) <= 65_536,
        crate::browser::dispatch::query_fault(
            PageQuery::FormSubmission { form_id: text },
        ) is None <==> crate::text::byte_count(text@) <= 65_536,
        crate::browser::limits::viewport_ok(viewport) <==> 1 <= viewport.0 <= 16_384 && 1
            <= viewport.1 <= 16_384,
        crate::browser::dispatch::query_fault(
            PageQuery::QuerySelectorAll { selector: text, viewport },
        ) is None <==> crate::browser::limits::viewport_ok(viewport) && crate::text::byte_count(
            text@,
        ) <= 65_536,
        crate::browser::dispatch::query_fault(PageQuery::Snapshot { viewport }) is None
            <==> crate::browser::limits::viewport_ok(viewport),
{
}

/// A page may be zoomed from a quarter to five times its size: in units of two to
/// the power -1074, of which one is 2 to the power 1074.
pub proof fn zooms_lie_between_a_quarter_and_five(zoom: Float64)
    ensures
        crate::browser::limits::zoom_ok(zoom) <==> zoom.is_finite() && zoom.is_positive()
            && vstd::arithmetic::power2::pow2(1074) <= 4 * zoom.magnitude() && zoom.magnitude() <= 5
            * vstd::arithmetic::power2::pow2(1074),
{
    let low = Float64 { bits: crate::browser::limits::MIN_PAGE_ZOOM_BITS };
    let high = Float64 { bits: crate::browser::limits::MAX_PAGE_ZOOM_BITS };
    let unit = 0x10_0000_0000_0000int;
    assert(low.bits as int / unit == 1021 && low.bits as int % unit == 0);
    assert(high.bits as int / unit == 1025 && high.bits as int % unit == 0x4_0000_0000_0000int);
    assert(low.exponent() == 1021);
    assert(high.exponent() == 1025);
    let p = vstd::arithmetic::power2::pow2(1020);
    let q = vstd::arithmetic::power2::pow2(1024);
    assert(low.magnitude() == unit * p);
    assert(high.magnitude() == (unit + 0x4_0000_0000_0000int) * q);
    vstd::arithmetic::power2::lemma_pow2_adds(54, 1020);
    vstd::arithmetic::power2::lemma_pow2_adds(50, 1024);
    vstd::arithmetic::power2::lemma2_to64();
    vstd::arithmetic::power2::lemma2_to64_rest();
    assert(vstd::arithmetic::power2::pow2(54) == 0x40_0000_0000_0000);
    assert(vstd::arithmetic::power2::pow2(50) == 0x4_0000_0000_0000);
    assert(4 * (unit * p) == 0x40_0000_0000_0000int * p) by (nonlinear_arith)
        requires
            unit == 0x10_0000_0000_0000int,
    ;
    assert((unit + 0x4_0000_0000_0000int) * q == 5 * (0x4_0000_0000_0000int * q))
        by (nonlinear_arith)
        requires
            unit == 0x10_0000_0000_0000int,
    ;
}

/// The parts of a view agree: it has been reported, only a view at work has the
/// focus, and one that is hidden, paused or detached is not seen.
pub proof fn views_agree_with_themselves(state: HostViewState)
    requires
        crate::browser::limits::host_view_consistent(state),
    ensures
        state.generation > 0,
        state.focused ==> state.lifecycle == HostLifecycle::Resumed,
        state.lifecycle == HostLifecycle::Hidden || state.lifecycle == HostLifecycle::Paused
            || state.lifecycle == HostLifecycle::Detached ==> !state.visible && !state.focused,
        state.scale_factor.is_finite() && state.scale_factor.is_positive(),
        !crate::browser::limits::host_view_consistent(HostViewState { generation: 0, ..state }),
        crate::browser::limits::host_view_consistent(
            HostViewState {
                lifecycle: HostLifecycle::Resumed,
                focused: true,
                visible: true,
                ..state
            },
        ),
        crate::browser::limits::host_view_consistent(
            HostViewState {
                lifecycle: HostLifecycle::Inactive,
                focused: false,
                visible: true,
                ..state
            },
        ),
{
}

/// A mouse event is taken where its context takes input, it is for the document in
/// place, and each of its numbers is finite.
pub proof fn mouse_events_need_finite_numbers(
    v: CoreView,
    context_id: BrowsingContextId,
    document_id: DocumentId,
    position: MousePosition,
)
    ensures
        v.mouse_fault(context_id, document_id, position) is None <==> {
            &&& v.has(context_id)
            &&& v.context(context_id).host_view.accepts_input
            &&& v.context(context_id).document_id == document_id
            &&& position.x.is_finite()
            &&& position.y.is_finite()
            &&& position.delta_x.is_finite()
            &&& position.delta_y.is_finite()
        },
{
}

/// A key event is taken where its context takes input and it is for the document in
/// place; a text input where its context takes input and its ranges lie in its text.
pub proof fn keys_and_texts_need_a_page_that_listens(
    v: CoreView,
    context_id: BrowsingContextId,
    document_id: DocumentId,
    state: TextInputState,
)
    ensures
        v.key_fault(context_id, document_id) is None <==> {
            &&& v.has(context_id)
            &&& v.context(context_id).host_view.accepts_input
            &&& v.context(context_id).document_id == document_id
        },
        v.text_fault(context_id, state) is None <==> {
            &&& v.has(context_id)
            &&& v.context(context_id).host_view.accepts_input
            &&& crate::browser::limits::text_input_fault(
                state.text@,
                state.selection,
                state.composing,
            ) is None
        },
{
}

/// A question about the document in place goes to the host as it is, and nothing
/// changes. One about another document is refused.
pub proof fn questions_go_to_the_host(
    v: CoreView,
    context_id: BrowsingContextId,
    document_id: DocumentId,
    query: PageQuery,
    after: CoreView,
    r: Result<CommandOutcome, BrowserError>,
)
    requires
        v.carries_out(BrowserCommand::Query { context_id, document_id, query }, after, r),
    ensures
        after == v,
        crate::browser::dispatch::query_fault(query) is None && v.has(context_id) && v.context(
            context_id,
        ).document_id == document_id ==> r == Ok::<CommandOutcome, BrowserError>(
            CommandOutcome::Host(HostCall::Query { context_id, query }),
        ),
        crate::browser::dispatch::query_fault(query) is None && v.has(context_id) && v.context(
            context_id,
        ).document_id != document_id ==> (r matches Err(e) && e@.code == ErrorCode::StaleDocument),
        crate::browser::dispatch::query_fault(query) is Some ==> (r matches Err(e) && e@.code
            == ErrorCode::InvalidArgument),
{
}

/// What a profile keeps is the host's business: to load it, and to save a session as
/// it is given.
pub proof fn profiles_go_to_the_host(
    v: CoreView,
    session: ProfileSessionState,
    loaded: CoreView,
    r: Result<CommandOutcome, BrowserError>,
    saved: CoreView,
    q: Result<CommandOutcome, BrowserError>,
)
    requires
        v.carries_out(BrowserCommand::LoadProfileSession, loaded, r),
        v.carries_out(BrowserCommand::SaveProfileSession { session }, saved, q),
    ensures
        loaded == v,
        saved == v,
        r == Ok::<CommandOutcome, BrowserError>(CommandOutcome::Host(HostCall::LoadProfileSession)),
        q == Ok::<CommandOutcome, BrowserError>(
            CommandOutcome::Host(HostCall::SaveProfileSession { session }),
        ),
{
}

/// The session that is saved has one tab for each context, in the order of their ids,
/// with the URL that it shows, and the active tab is that of the active context.
pub proof fn sessions_list_the_tabs(
    v: CoreView,
    after: CoreView,
    r: Result<CommandOutcome, BrowserError>,
)
    requires
        v.carries_out(BrowserCommand::SaveCurrentProfileSession, after, r),
    ensures
        after == v,
        r matches Ok(CommandOutcome::Host(HostCall::SaveProfileSession { session })) && {
            &&& v.active_context matches Some(active) ==> session.active_index
                < session.tabs@.len() && session.tabs@[session.active_index as int]@ == v.context(
                active,
            ).history.current().url
            &&& forall|k: u64| #[trigger]
                v.contexts.contains_key(k) ==> exists|i: int|
                    0 <= i < session.tabs@.len() && #[trigger] session.tabs@[i]@
                        == v.contexts[k].history.current().url
        },
{
    if let Ok(CommandOutcome::Host(HostCall::SaveProfileSession { session })) = r {
        let ids = choose|ids: Seq<u64>| #[trigger]
            crate::browser::registry::lists_in_order(ids, v.contexts.dom())
                && crate::browser::contexts::text_views(session.tabs@) == v.urls(ids)
                && match v.active_context {
                Some(active) => session.active_index < ids.len()
                    && ids[session.active_index as int] == active.raw,
                None => session.active_index == 0,
            };
        let tabs = crate::browser::contexts::text_views(session.tabs@);
        assert(tabs.len() == ids.len());
        if let Some(active) = v.active_context {
            assert(tabs[session.active_index as int] == v.urls(ids)[session.active_index as int]);
        }
        assert forall|k: u64| #[trigger] v.contexts.contains_key(k) implies exists|i: int|
            0 <= i < session.tabs@.len() && #[trigger] session.tabs@[i]@
                == v.contexts[k].history.current().url by {
            assert(v.contexts.dom().contains(k));
            assert(ids.contains(k));
            let i = choose|i: int| 0 <= i < ids.len() && ids[i] == k;
            assert(tabs[i] == v.urls(ids)[i]);
            assert(session.tabs@[i]@ == tabs[i]);
        }
    }
}

/// A number is finite where its bits, without the sign, come before those of infinity,
/// and it has a plus sign where its first bit is clear.
pub proof fn finite_numbers_come_before_infinity(x: Float64)
    ensures
        x.is_finite() <==> x.bits as int % 0x8000_0000_0000_0000int < 0x7FF0_0000_0000_0000int,
        x.is_positive() <==> x.bits as int / 0x8000_0000_0000_0000int == 0,
{
}

/// A navigation that cannot begin is refused: its context is not there, its URL is too
/// long, or no ids are left. No page changes.
pub proof fn impossible_navigations_are_refused(
    v: CoreView,
    context_id: BrowsingContextId,
    url: String,
    after: CoreView,
    r: Result<CommandOutcome, BrowserError>,
)
    requires
        v.carries_out(BrowserCommand::Navigate { context_id, url }, after, r),
    ensures
        r is Ok <==> v.has(context_id) && crate::text::byte_count(url@) <= 16_384
            && v.ids.next_navigation != 0 && v.ids.next_request != 0,
        r is Err ==> after.contexts == v.contexts && after.events == v.events,
        v.has(context_id) && crate::text::byte_count(url@) > 16_384 ==> (r matches Err(e)
            && e@.code == ErrorCode::InvalidArgument),
{
}

/// A view is scaled by at least a tenth and at most sixteen, in units of two to the power
/// -1074. A scale that is above a tenth by the width of a last digit, and not above
/// sixteen, is in order.
pub proof fn scales_lie_between_a_tenth_and_sixteen(state: HostViewState)
    ensures
        ({
            let one = vstd::arithmetic::power2::pow2(1074);
            let scale = state.scale_factor.magnitude();
            &&& crate::browser::limits::host_view_consistent(state) ==> one <= 10 * scale && scale
                <= 16 * one
            &&& state.generation > 0 && state.lifecycle == HostLifecycle::Resumed
                && state.scale_factor.is_finite() && state.scale_factor.is_positive() && one + 10
                * vstd::arithmetic::power2::pow2(1018) <= 10 * scale && scale <= 16 * one
                ==> crate::browser::limits::host_view_consistent(state)
        }),
{
    let low = Float64 { bits: crate::browser::limits::MIN_SCALE_FACTOR_BITS };
    let high = Float64 { bits: crate::browser::limits::MAX_SCALE_FACTOR_BITS };
    let unit = 0x10_0000_0000_0000int;
    let part = 0x9_9999_9999_999Aint;
    assert(low.bits as int / unit == 1019 && low.bits as int % unit == part);
    assert(high.bits as int / unit == 1027 && high.bits as int % unit == 0);
    assert(low.exponent() == 1019);
    assert(high.exponent() == 1027);
    let p = vstd::arithmetic::power2::pow2(1018);
    let q = vstd::arithmetic::power2::pow2(1026);
    assert(low.magnitude() == (unit + part) * p);
    assert(high.magnitude() == unit * q);
    vstd::arithmetic::power2::lemma_pow2_adds(56, 1018);
    vstd::arithmetic::power2::lemma_pow2_adds(48, 1026);
    vstd::arithmetic::power2::lemma2_to64();
    vstd::arithmetic::power2::lemma2_to64_rest();
    assert(vstd::arithmetic::power2::pow2(56) == 0x100_0000_0000_0000);
    assert(vstd::arithmetic::power2::pow2(48) == 0x1_0000_0000_0000);
    assert(10 * ((unit + part) * p) == 0x100_0000_0000_0000int * p + 4 * p) by (nonlinear_arith)
        requires
            unit == 0x10_0000_0000_0000int,
            part == 0x9_9999_9999_999Aint,
    ;
    assert(unit * q == 16 * (0x1_0000_0000_0000int * q)) by (nonlinear_arith)
        requires
            unit == 0x10_0000_0000_0000int,
    ;
}

} // verus!
