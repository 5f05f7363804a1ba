//! The limits on what a command may carry.

use vstd::prelude::*;

use crate::browser::error::{BrowserError, ErrorCode, ErrorView};
use crate::text::{byte_len, same_text, utf16_len};

verus! {

/// The longest script source, in bytes.
pub const MAX_SCRIPT_BYTES: usize = 1_048_576;

/// The longest selector or element id, in bytes.
pub const MAX_SELECTOR_BYTES: usize = 65_536;

/// The longest text to find, in bytes.
pub const MAX_FIND_QUERY_BYTES: usize = 4_096;

/// The longest value of a text input, in bytes.
pub const MAX_TEXT_INPUT_BYTES: usize = 16_384;

/// The longest URL to navigate to, in bytes.
pub const MAX_URL_BYTES: usize = 16_384;

/// The largest side of a viewport, in pixels.
pub const MAX_VIEWPORT_DIMENSION: u32 = 16_384;

/// The largest number of script runtimes alive at once.
pub const MAX_RUNTIME_SLOTS: usize = 512;

/// How many bytes the parser takes in one step.
pub const PARSER_WORK_BYTES: usize = 65_536;

/// The largest number of navigation actions of one command.
pub const MAX_NAVIGATION_ACTIONS_PER_COMMAND: usize = 64;

/// A double-precision number by its IEEE 754 bit pattern.
#[derive(Clone, Copy, Debug, PartialEq, Eq, Structural)]
pub struct Float64 {
    pub bits: u64,
}

/// The bit pattern of 0.25.
pub const MIN_PAGE_ZOOM_BITS: u64 = 0x3FD0_0000_0000_0000;

/// The bit pattern of 5.0.
pub const MAX_PAGE_ZOOM_BITS: u64 = 0x4014_0000_0000_0000;

/// The bit pattern of 0.1.
pub const MIN_SCALE_FACTOR_BITS: u64 = 0x3FB9_9999_9999_999A;

/// The bit pattern of 16.0.
pub const MAX_SCALE_FACTOR_BITS: u64 = 0x4030_0000_0000_0000;

/// The weight of the lowest exponent bit of a pattern.
pub const EXPONENT_UNIT: u64 = 0x10_0000_0000_0000;

impl Float64 {
    /// The biased exponent.
    pub open spec fn exponent(self) -> nat {
        (self.bits as nat / EXPONENT_UNIT as nat) % 2048
    }

    /// The number is neither infinite nor a NaN: its exponent is not the
    /// largest one.
    pub open spec fn is_finite(self) -> bool {
        self.exponent() != 2047
    }

    /// The sign bit is clear.
    pub open spec fn is_positive(self) -> bool {
        self.bits < 0x8000_0000_0000_0000
    }

    /// The magnitude of a finite number in units of 2 to the power -1074, the
    /// smallest positive number.
    pub open spec fn magnitude(self) -> nat {
        let fraction = self.bits as nat % EXPONENT_UNIT as nat;
        if self.exponent() == 0 {
            fraction
        } else {
            (fraction + EXPONENT_UNIT as nat) * vstd::arithmetic::power2::pow2(
                (self.exponent() - 1) as nat,
            )
        }
    }

    /// The number lies between two positive numbers, both included.
    pub open spec fn between(self, low: Float64, high: Float64) -> bool {
        &&& self.is_finite()
        &&& self.is_positive()
        &&& low.magnitude() <= self.magnitude() <= high.magnitude()
    }

    /// Whether the number is neither infinite nor a NaN.
    pub fn finite(&self) -> (r: bool)
        ensures
            r == self.is_finite(),
    {
        (self.bits / EXPONENT_UNIT) % 2048 != 2047
    }

    /// Whether the number lies between two positive numbers, both included.
    pub fn lies_between(&self, low: Float64, high: Float64) -> (r: bool)
        requires
            low.is_finite() && low.is_positive(),
            high.is_finite() && high.is_positive(),
        ensures
            r == self.between(low, high),
    {
        proof {
            if self.is_positive() && self.is_finite() {
                bits_order_magnitudes(low, *self);
                bits_order_magnitudes(*self, high);
            }
        }
        if self.bits < low.bits || self.bits > high.bits {
            return false;
        }
        assert(self.is_finite()) by {
            pattern_split(*self);
            pattern_split(high);
        }
        true
    }
}

/// A positive pattern is made of its exponent and its fraction.
proof fn pattern_split(x: Float64)
    requires
        x.is_positive(),
    ensures
        x.bits == x.exponent() * EXPONENT_UNIT + x.bits as nat % EXPONENT_UNIT as nat,
        0 <= x.exponent() < 2048,
        x.bits as nat / EXPONENT_UNIT as nat == x.exponent(),
{
}

/// Positive finite numbers are ordered as their bit patterns are.
pub proof fn bits_order_magnitudes(a: Float64, b: Float64)
    requires
        a.is_finite() && a.is_positive(),
        b.is_finite() && b.is_positive(),
    ensures
        a.bits <= b.bits <==> a.magnitude() <= b.magnitude(),
{
    if a.bits < b.bits {
        smaller_bits_smaller_magnitude(a, b);
    } else if b.bits < a.bits {
        smaller_bits_smaller_magnitude(b, a);
    }
}

proof fn smaller_bits_smaller_magnitude(a: Float64, b: Float64)
    requires
        a.is_positive(),
        b.is_positive(),
        a.bits < b.bits,
    ensures
        a.magnitude() < b.magnitude(),
{
    pattern_split(a);
    pattern_split(b);
    let unit = EXPONENT_UNIT as nat;
    let fa = a.bits as nat % unit;
    let fb = b.bits as nat % unit;
    let ea = a.exponent();
    let eb = b.exponent();
    assert(ea <= eb) by (nonlinear_arith)
        requires
            ea * unit + fa < eb * unit + fb,
            fa < unit,
            fb < unit,
            unit > 0,
    ;
    if ea == eb {
        assert(fa < fb);
        if ea > 0 {
            let p = vstd::arithmetic::power2::pow2((ea - 1) as nat);
            vstd::arithmetic::power2::lemma_pow2_pos((ea - 1) as nat);
            assert((fa + unit) * p < (fb + unit) * p) by (nonlinear_arith)
                requires
                    fa < fb,
                    p > 0,
            ;
        }
    } else {
        let pb = vstd::arithmetic::power2::pow2((eb - 1) as nat);
        vstd::arithmetic::power2::lemma_pow2_pos((eb - 1) as nat);
        if ea == 0 {
            assert((fb + unit) * pb >= unit) by (nonlinear_arith)
                requires
                    pb >= 1,
                    fb >= 0,
                    unit >= 0,
            ;
        } else {
            let pa = vstd::arithmetic::power2::pow2((ea - 1) as nat);
            vstd::arithmetic::power2::lemma_pow2_pos((ea - 1) as nat);
            pow2_doubles((ea - 1) as nat, (eb - 1) as nat);
            assert((fa + unit) * pa < (fb + unit) * pb) by (nonlinear_arith)
                requires
                    fa < unit,
                    fb >= 0,
                    pa > 0,
                    2 * pa <= pb,
            ;
        }
    }
}

/// A larger exponent of two at least doubles the power.
proof fn pow2_doubles(a: nat, b: nat)
    requires
        a < b,
    ensures
        2 * vstd::arithmetic::power2::pow2(a) <= vstd::arithmetic::power2::pow2(b),
{
    vstd::arithmetic::power2::lemma_pow2_unfold((a + 1) as nat);
    if a + 1 < b {
        vstd::arithmetic::power2::lemma_pow2_strictly_increases((a + 1) as nat, b);
    }
}

/// A viewport whose sides are within the limits.
pub open spec fn viewport_ok(viewport: (u32, u32)) -> bool {
    &&& 1 <= viewport.0 <= MAX_VIEWPORT_DIMENSION
    &&& 1 <= viewport.1 <= MAX_VIEWPORT_DIMENSION
}

/// Refuses a viewport with an empty or an oversized side.
pub fn validate_viewport(viewport: (u32, u32)) -> (r: Result<(), BrowserError>)
    ensures
        ErrorView::outcome(r) == ErrorView::admits(
            viewport_ok(viewport),
            "viewport must be within 1x1 and 16384x16384"@,
        ),
{
    if viewport.0 == 0 || viewport.1 == 0 || viewport.0 > MAX_VIEWPORT_DIMENSION || viewport.1
        > MAX_VIEWPORT_DIMENSION {
        return Err(BrowserError::invalid("viewport must be within 1x1 and 16384x16384"));
    }
    Ok(())
}

/// A range of UTF-16 offsets in a text.
#[derive(Clone, Copy, Debug, PartialEq, Eq, Structural)]
pub struct TextSelection {
    pub base_offset: u32,
    pub extent_offset: u32,
}

/// What an input method reports of the focused text control.
pub struct TextInputState {
    pub text: String,
    pub selection: TextSelection,
    pub composing: Option<TextSelection>,
}

/// What is wrong with a text input state; the first fault counts.
pub open spec fn text_input_fault(
    text: Seq<char>,
    selection: TextSelection,
    composing: Option<TextSelection>,
) -> Option<Seq<char>> {
    let units = crate::text::utf16_count(text);
    if crate::text::byte_count(text) > MAX_TEXT_INPUT_BYTES {
        Some("text input value exceeds the browser limit"@)
    } else if units > u32::MAX {
        Some("text input value exceeds the UTF-16 range limit"@)
    } else if selection.base_offset > units || selection.extent_offset > units {
        Some("text input selection exceeds the value"@)
    } else if composing matches Some(c) && (c.base_offset > c.extent_offset || c.extent_offset
        > units) {
        Some("text input composing range is invalid"@)
    } else {
        None
    }
}

/// Refuses a text input value that is too long, and ranges that leave it.
pub fn validate_text_input_state(state: &TextInputState) -> (r: Result<(), BrowserError>)
    ensures
        ErrorView::outcome(r) == match text_input_fault(
            state.text@,
            state.selection,
            state.composing,
        ) {
            Some(message) => Err(ErrorView::new(ErrorCode::InvalidArgument, message)),
            None => Ok(()),
        },
{
    if byte_len(state.text.as_str()) > MAX_TEXT_INPUT_BYTES {
        return Err(BrowserError::invalid("text input value exceeds the browser limit"));
    }
    let units: u128 = utf16_len(state.text.as_str());
    if units > u32::MAX as u128 {
        return Err(BrowserError::invalid("text input value exceeds the UTF-16 range limit"));
    }
    let units: u32 = units as u32;
    if state.selection.base_offset > units || state.selection.extent_offset > units {
        return Err(BrowserError::invalid("text input selection exceeds the value"));
    }
    if let Some(composing) = state.composing {
        if composing.base_offset > composing.extent_offset || composing.extent_offset > units {
            return Err(BrowserError::invalid("text input composing range is invalid"));
        }
    }
    Ok(())
}

/// Refuses an element id that is too long to look up.
pub fn validate_lookup_id(id: &str) -> (r: Result<(), BrowserError>)
    ensures
        ErrorView::outcome(r) == ErrorView::admits(
            crate::text::byte_count(id@) <= MAX_SELECTOR_BYTES,
            "element id exceeds the browser query limit"@,
        ),
{
    if byte_len(id) > MAX_SELECTOR_BYTES {
        return Err(BrowserError::invalid("element id exceeds the browser query limit"));
    }
    Ok(())
}

/// Refuses a selector that is too long.
pub fn validate_selector(selector: &str) -> (r: Result<(), BrowserError>)
    ensures
        ErrorView::outcome(r) == ErrorView::admits(
            crate::text::byte_count(selector@) <= MAX_SELECTOR_BYTES,
            "selector exceeds the browser query limit"@,
        ),
{
    if byte_len(selector) > MAX_SELECTOR_BYTES {
        return Err(BrowserError::invalid("selector exceeds the browser query limit"));
    }
    Ok(())
}

/// Refuses a text to find that is too long.
pub fn validate_find_query(query: &str) -> (r: Result<(), BrowserError>)
    ensures
        ErrorView::outcome(r) == ErrorView::admits(
            crate::text::byte_count(query@) <= MAX_FIND_QUERY_BYTES,
            "find query exceeds the browser limit"@,
        ),
{
    if byte_len(query) > MAX_FIND_QUERY_BYTES {
        return Err(BrowserError::invalid("find query exceeds the browser limit"));
    }
    Ok(())
}

/// Refuses a script source that is too long.
pub fn validate_script(source: &str) -> (r: Result<(), BrowserError>)
    ensures
        ErrorView::outcome(r) == ErrorView::admits(
            crate::text::byte_count(source@) <= MAX_SCRIPT_BYTES,
            "script source exceeds the browser evaluation limit"@,
        ),
{
    if byte_len(source) > MAX_SCRIPT_BYTES {
        return Err(BrowserError::invalid("script source exceeds the browser evaluation limit"));
    }
    Ok(())
}

/// A URL that is short enough to navigate to.
pub open spec fn url_ok(url: Seq<char>) -> bool {
    crate::text::byte_count(url) <= MAX_URL_BYTES
}

/// Refuses a URL that is too long to navigate to.
pub fn validate_navigation_url(url: &str) -> (r: Result<(), BrowserError>)
    ensures
        ErrorView::outcome(r) == ErrorView::admits(
            url_ok(url@),
            "navigation URL exceeds the browser limit"@,
        ),
{
    if byte_len(url) > MAX_URL_BYTES {
        Err(BrowserError::invalid("navigation URL exceeds the browser limit"))
    } else {
        Ok(())
    }
}

/// Refuses an injected document that is larger than a body may be.
pub fn validate_injected_html(html: &str, max_body_bytes: u64) -> (r: Result<(), BrowserError>)
    ensures
        ErrorView::outcome(r) == ErrorView::admits(
            crate::text::byte_count(html@) <= max_body_bytes,
            "injected document exceeds the browser body limit"@,
        ),
{
    if byte_len(html) as u64 > max_body_bytes {
        return Err(BrowserError::invalid("injected document exceeds the browser body limit"));
    }
    Ok(())
}

/// The page zoom lies between 0.25 and 5.
pub open spec fn zoom_ok(zoom: Float64) -> bool {
    zoom.between(Float64 { bits: MIN_PAGE_ZOOM_BITS }, Float64 { bits: MAX_PAGE_ZOOM_BITS })
}

/// Refuses a page zoom outside 0.25 to 5.
pub fn validate_page_zoom(zoom: Float64) -> (r: Result<(), BrowserError>)
    ensures
        ErrorView::outcome(r) == ErrorView::admits(
            zoom_ok(zoom),
            "page zoom must be finite and between 0.25 and 5"@,
        ),
{
    if !zoom.lies_between(
        Float64 { bits: MIN_PAGE_ZOOM_BITS },
        Float64 { bits: MAX_PAGE_ZOOM_BITS },
    ) {
        return Err(BrowserError::invalid("page zoom must be finite and between 0.25 and 5"));
    }
    Ok(())
}

/// Where the host's window stands in its life.
#[derive(Clone, Copy, Debug, PartialEq, Eq, Structural)]
pub enum HostLifecycle {
    Resumed,
    Inactive,
    Hidden,
    Paused,
    Detached,
}

/// What the host reports of the view that shows a context.
#[derive(Clone, Copy, Debug)]
pub struct HostViewState {
    pub generation: u64,
    pub viewport: (u32, u32),
    pub scale_factor: Float64,
    pub focused: bool,
    pub visible: bool,
    pub lifecycle: HostLifecycle,
    /// Whether the view takes input for its content.
    pub accepts_input: bool,
}

/// The parts of a host view agree with each other.
pub open spec fn host_view_consistent(state: HostViewState) -> bool {
    &&& state.generation != 0
    &&& state.scale_factor.between(
        Float64 { bits: MIN_SCALE_FACTOR_BITS },
        Float64 { bits: MAX_SCALE_FACTOR_BITS },
    )
    &&& state.focused ==> state.lifecycle == HostLifecycle::Resumed
    &&& state.visible ==> state.lifecycle != HostLifecycle::Hidden && state.lifecycle
        != HostLifecycle::Paused && state.lifecycle != HostLifecycle::Detached
}

/// Refuses a host view with a bad viewport, or whose generation, scale,
/// focus, visibility and lifecycle do not agree.
pub fn validate_host_view(state: &HostViewState) -> (r: Result<(), BrowserError>)
    ensures
        ErrorView::outcome(r) == if !viewport_ok(state.viewport) {
            ErrorView::admits(false, "viewport must be within 1x1 and 16384x16384"@)
        } else {
            ErrorView::admits(
                host_view_consistent(*state),
                "host view generation and scale factor must be valid"@,
            )
        },
{
    match validate_viewport(state.viewport) {
        Ok(()) => {},
        Err(e) => return Err(e),
    }
    let focus_fault = state.focused && state.lifecycle != HostLifecycle::Resumed;
    let sight_fault = state.visible && (state.lifecycle == HostLifecycle::Hidden || state.lifecycle
        == HostLifecycle::Paused || state.lifecycle == HostLifecycle::Detached);
    if state.generation == 0 || !state.scale_factor.lies_between(
        Float64 { bits: MIN_SCALE_FACTOR_BITS },
        Float64 { bits: MAX_SCALE_FACTOR_BITS },
    ) || focus_fault || sight_fault {
        return Err(BrowserError::invalid("host view generation and scale factor must be valid"));
    }
    Ok(())
}

/// How far a key scrolls the page, and in which direction.
#[derive(Clone, Copy, Debug, PartialEq, Eq, Structural)]
pub enum KeyboardScroll {
    /// One line to the left.
    LineLeft,
    /// One line to the right.
    LineRight,
    /// One line up.
    LineUp,
    /// One line down.
    LineDown,
    /// Most of a viewport up.
    PageUp,
    /// Most of a viewport down.
    PageDown,
    /// To the top of the page.
    Top,
    /// To the bottom of the page.
    Bottom,
}

/// The modifier keys of a key event.
#[derive(Clone, Copy, Debug, PartialEq, Eq, Structural)]
pub struct Modifiers {
    pub ctrl_key: bool,
    pub shift_key: bool,
    pub alt_key: bool,
    pub meta_key: bool,
}

/// What a key scrolls by when nothing stands against it.
pub open spec fn scroll_of_key(key: Seq<char>, shift: bool) -> Option<KeyboardScroll> {
    if key == "ArrowLeft"@ {
        Some(KeyboardScroll::LineLeft)
    } else if key == "ArrowRight"@ {
        Some(KeyboardScroll::LineRight)
    } else if key == "ArrowUp"@ {
        Some(KeyboardScroll::LineUp)
    } else if key == "ArrowDown"@ {
        Some(KeyboardScroll::LineDown)
    } else if key == "PageUp"@ {
        Some(KeyboardScroll::PageUp)
    } else if key == "PageDown"@ {
        Some(KeyboardScroll::PageDown)
    } else if key == "Home"@ {
        Some(KeyboardScroll::Top)
    } else if key == "End"@ {
        Some(KeyboardScroll::Bottom)
    } else if key == " "@ {
        Some(if shift { KeyboardScroll::PageUp } else { KeyboardScroll::PageDown })
    } else {
        None
    }
}

/// Whether a key event can scroll at all: it is a key press, only the shift key
/// may be held, and the focused element leaves scroll keys alone.
pub open spec fn key_may_scroll(
    event_type: Seq<char>,
    modifiers: Modifiers,
    focus_consumes_scroll_keys: bool,
) -> bool {
    &&& event_type == "keyDown"@ || event_type == "keydown"@
    &&& !modifiers.ctrl_key
    &&& !modifiers.alt_key
    &&& !modifiers.meta_key
    &&& !focus_consumes_scroll_keys
}

/// How a key event scrolls the page by default.
pub fn keyboard_scroll_delta(
    event_type: &str,
    key: &str,
    modifiers: Modifiers,
    focus_consumes_scroll_keys: bool,
) -> (r: Option<KeyboardScroll>)
    ensures
        r == if key_may_scroll(event_type@, modifiers, focus_consumes_scroll_keys) {
            scroll_of_key(key@, modifiers.shift_key)
        } else {
            None
        },
{
    let press = same_text(event_type, "keyDown") || same_text(event_type, "keydown");
    if !press || modifiers.ctrl_key || modifiers.alt_key || modifiers.meta_key
        || focus_consumes_scroll_keys {
        return None;
    }
    if same_text(key, "ArrowLeft") {
        Some(KeyboardScroll::LineLeft)
    } else if same_text(key, "ArrowRight") {
        Some(KeyboardScroll::LineRight)
    } else if same_text(key, "ArrowUp") {
        Some(KeyboardScroll::LineUp)
    } else if same_text(key, "ArrowDown") {
        Some(KeyboardScroll::LineDown)
    } else if same_text(key, "PageUp") {
        Some(KeyboardScroll::PageUp)
    } else if same_text(key, "PageDown") {
        Some(KeyboardScroll::PageDown)
    } else if same_text(key, "Home") {
        Some(KeyboardScroll::Top)
    } else if same_text(key, "End") {
        Some(KeyboardScroll::Bottom)
    } else if same_text(key, " ") {
        if modifiers.shift_key {
            Some(KeyboardScroll::PageUp)
        } else {
            Some(KeyboardScroll::PageDown)
        }
    } else {
        None
    }
}

} // verus!
