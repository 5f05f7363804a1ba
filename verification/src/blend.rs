//! Compositing operators and blend modes.

use vstd::prelude::*;

use crate::text::{keyword, spells};

verus! {

/// How a source is composited with its backdrop.
#[derive(Clone, Copy, Debug, PartialEq, Eq, Hash, Structural)]
pub enum CompositingOperator {
    Clear,
    Copy,
    Destination,
    SourceOver,
    DestinationOver,
    SourceIn,
    DestinationIn,
    SourceOut,
    DestinationOut,
    SourceAtop,
    DestinationAtop,
    Xor,
}

impl Default for CompositingOperator {
    fn default() -> (r: CompositingOperator)
        ensures
            r == CompositingOperator::SourceOver,
    {
        CompositingOperator::SourceOver
    }
}

/// What a colour is weighted with.
#[derive(Clone, Copy, Debug, PartialEq, Eq, Structural)]
pub enum Factor {
    Zero,
    One,
    /// The alpha of the source.
    SourceAlpha,
    /// One minus the alpha of the source.
    InverseSourceAlpha,
    /// The alpha of the backdrop.
    BackdropAlpha,
    /// One minus the alpha of the backdrop.
    InverseBackdropAlpha,
}

impl Factor {
    /// The factor with the source and the backdrop exchanged.
    pub open spec fn mirrored(self) -> Factor {
        match self {
            Factor::Zero => Factor::Zero,
            Factor::One => Factor::One,
            Factor::SourceAlpha => Factor::BackdropAlpha,
            Factor::InverseSourceAlpha => Factor::InverseBackdropAlpha,
            Factor::BackdropAlpha => Factor::SourceAlpha,
            Factor::InverseBackdropAlpha => Factor::InverseSourceAlpha,
        }
    }
}

impl CompositingOperator {
    /// The factors of the source and of the backdrop.
    pub open spec fn weights(self) -> (Factor, Factor) {
        match self {
            CompositingOperator::Clear => (Factor::Zero, Factor::Zero),
            CompositingOperator::Copy => (Factor::One, Factor::Zero),
            CompositingOperator::Destination => (Factor::Zero, Factor::One),
            CompositingOperator::SourceOver => (Factor::One, Factor::InverseSourceAlpha),
            CompositingOperator::DestinationOver => (Factor::InverseBackdropAlpha, Factor::One),
            CompositingOperator::SourceIn => (Factor::BackdropAlpha, Factor::Zero),
            CompositingOperator::DestinationIn => (Factor::Zero, Factor::SourceAlpha),
            CompositingOperator::SourceOut => (Factor::InverseBackdropAlpha, Factor::Zero),
            CompositingOperator::DestinationOut => (Factor::Zero, Factor::InverseSourceAlpha),
            CompositingOperator::SourceAtop => (
                Factor::BackdropAlpha,
                Factor::InverseSourceAlpha,
            ),
            CompositingOperator::DestinationAtop => (
                Factor::InverseBackdropAlpha,
                Factor::SourceAlpha,
            ),
            CompositingOperator::Xor => (
                Factor::InverseBackdropAlpha,
                Factor::InverseSourceAlpha,
            ),
        }
    }

    /// The factors of the source and of the backdrop.
    pub fn factors(self) -> (r: (Factor, Factor))
        ensures
            r == self.weights(),
    {
        match self {
            CompositingOperator::Clear => (Factor::Zero, Factor::Zero),
            CompositingOperator::Copy => (Factor::One, Factor::Zero),
            CompositingOperator::Destination => (Factor::Zero, Factor::One),
            CompositingOperator::SourceOver => (Factor::One, Factor::InverseSourceAlpha),
            CompositingOperator::DestinationOver => (Factor::InverseBackdropAlpha, Factor::One),
            CompositingOperator::SourceIn => (Factor::BackdropAlpha, Factor::Zero),
            CompositingOperator::DestinationIn => (Factor::Zero, Factor::SourceAlpha),
            CompositingOperator::SourceOut => (Factor::InverseBackdropAlpha, Factor::Zero),
            CompositingOperator::DestinationOut => (Factor::Zero, Factor::InverseSourceAlpha),
            CompositingOperator::SourceAtop => (
                Factor::BackdropAlpha,
                Factor::InverseSourceAlpha,
            ),
            CompositingOperator::DestinationAtop => (
                Factor::InverseBackdropAlpha,
                Factor::SourceAlpha,
            ),
            CompositingOperator::Xor => (
                Factor::InverseBackdropAlpha,
                Factor::InverseSourceAlpha,
            ),
        }
    }

    /// The operator that does the same with the source and the backdrop
    /// exchanged.
    pub open spec fn mirrored(self) -> CompositingOperator {
        match self {
            CompositingOperator::Clear => CompositingOperator::Clear,
            CompositingOperator::Copy => CompositingOperator::Destination,
            CompositingOperator::Destination => CompositingOperator::Copy,
            CompositingOperator::SourceOver => CompositingOperator::DestinationOver,
            CompositingOperator::DestinationOver => CompositingOperator::SourceOver,
            CompositingOperator::SourceIn => CompositingOperator::DestinationIn,
            CompositingOperator::DestinationIn => CompositingOperator::SourceIn,
            CompositingOperator::SourceOut => CompositingOperator::DestinationOut,
            CompositingOperator::DestinationOut => CompositingOperator::SourceOut,
            CompositingOperator::SourceAtop => CompositingOperator::DestinationAtop,
            CompositingOperator::DestinationAtop => CompositingOperator::SourceAtop,
            CompositingOperator::Xor => CompositingOperator::Xor,
        }
    }
}

/// Operators come in pairs: the one does to the source what the other does to
/// the backdrop.
pub proof fn operators_mirror_each_other(op: CompositingOperator)
    ensures
        op.mirrored().mirrored() == op,
        op.mirrored().weights() == (op.weights().1.mirrored(), op.weights().0.mirrored()),
{
}

/// How the colour of a source is mixed with that of its backdrop.
#[derive(Clone, Copy, Debug, PartialEq, Eq, Hash, Structural)]
pub enum BlendMode {
    Normal,
    Multiply,
    Screen,
    Overlay,
    Darken,
    Lighten,
    ColorDodge,
    ColorBurn,
    HardLight,
    SoftLight,
    Difference,
    Exclusion,
    Hue,
    Saturation,
    Color,
    Luminosity,
}

impl Default for BlendMode {
    fn default() -> (r: BlendMode)
        ensures
            r == BlendMode::Normal,
    {
        BlendMode::Normal
    }
}

impl BlendMode {
    /// The keyword of the mode.
    pub open spec fn name(self) -> Seq<char> {
        match self {
            BlendMode::Normal => "normal"@,
            BlendMode::Multiply => "multiply"@,
            BlendMode::Screen => "screen"@,
            BlendMode::Overlay => "overlay"@,
            BlendMode::Darken => "darken"@,
            BlendMode::Lighten => "lighten"@,
            BlendMode::ColorDodge => "color-dodge"@,
            BlendMode::ColorBurn => "color-burn"@,
            BlendMode::HardLight => "hard-light"@,
            BlendMode::SoftLight => "soft-light"@,
            BlendMode::Difference => "difference"@,
            BlendMode::Exclusion => "exclusion"@,
            BlendMode::Hue => "hue"@,
            BlendMode::Saturation => "saturation"@,
            BlendMode::Color => "color"@,
            BlendMode::Luminosity => "luminosity"@,
        }
    }

    /// The mode with the keyword `k`.
    pub open spec fn named(k: Seq<char>) -> Option<BlendMode> {
        if k == "normal"@ {
            Some(BlendMode::Normal)
        } else if k == "multiply"@ {
            Some(BlendMode::Multiply)
        } else if k == "screen"@ {
            Some(BlendMode::Screen)
        } else if k == "overlay"@ {
            Some(BlendMode::Overlay)
        } else if k == "darken"@ {
            Some(BlendMode::Darken)
        } else if k == "lighten"@ {
            Some(BlendMode::Lighten)
        } else if k == "color-dodge"@ {
            Some(BlendMode::ColorDodge)
        } else if k == "color-burn"@ {
            Some(BlendMode::ColorBurn)
        } else if k == "hard-light"@ {
            Some(BlendMode::HardLight)
        } else if k == "soft-light"@ {
            Some(BlendMode::SoftLight)
        } else if k == "difference"@ {
            Some(BlendMode::Difference)
        } else if k == "exclusion"@ {
            Some(BlendMode::Exclusion)
        } else if k == "hue"@ {
            Some(BlendMode::Hue)
        } else if k == "saturation"@ {
            Some(BlendMode::Saturation)
        } else if k == "color"@ {
            Some(BlendMode::Color)
        } else if k == "luminosity"@ {
            Some(BlendMode::Luminosity)
        } else {
            None
        }
    }

    /// Parses the keyword, in any case and with white space around it.
    pub fn parse(text: &str) -> (r: Option<BlendMode>)
        ensures
            r == BlendMode::named(crate::text::keyword_form(text@)),
    {
        let k = keyword(text);
        if spells(k.as_slice(), "normal") {
            Some(BlendMode::Normal)
        } else if spells(k.as_slice(), "multiply") {
            Some(BlendMode::Multiply)
        } else if spells(k.as_slice(), "screen") {
            Some(BlendMode::Screen)
        } else if spells(k.as_slice(), "overlay") {
            Some(BlendMode::Overlay)
        } else if spells(k.as_slice(), "darken") {
            Some(BlendMode::Darken)
        } else if spells(k.as_slice(), "lighten") {
            Some(BlendMode::Lighten)
        } else if spells(k.as_slice(), "color-dodge") {
            Some(BlendMode::ColorDodge)
        } else if spells(k.as_slice(), "color-burn") {
            Some(BlendMode::ColorBurn)
        } else if spells(k.as_slice(), "hard-light") {
            Some(BlendMode::HardLight)
        } else if spells(k.as_slice(), "soft-light") {
            Some(BlendMode::SoftLight)
        } else if spells(k.as_slice(), "difference") {
            Some(BlendMode::Difference)
        } else if spells(k.as_slice(), "exclusion") {
            Some(BlendMode::Exclusion)
        } else if spells(k.as_slice(), "hue") {
            Some(BlendMode::Hue)
        } else if spells(k.as_slice(), "saturation") {
            Some(BlendMode::Saturation)
        } else if spells(k.as_slice(), "color") {
            Some(BlendMode::Color)
        } else if spells(k.as_slice(), "luminosity") {
            Some(BlendMode::Luminosity)
        } else {
            None
        }
    }

    /// The keyword of the mode, in lower case.
    pub fn keyword(self) -> (r: &'static str)
        ensures
            r@ == self.name(),
    {
        match self {
            BlendMode::Normal => "normal",
            BlendMode::Multiply => "multiply",
            BlendMode::Screen => "screen",
            BlendMode::Overlay => "overlay",
            BlendMode::Darken => "darken",
            BlendMode::Lighten => "lighten",
            BlendMode::ColorDodge => "color-dodge",
            BlendMode::ColorBurn => "color-burn",
            BlendMode::HardLight => "hard-light",
            BlendMode::SoftLight => "soft-light",
            BlendMode::Difference => "difference",
            BlendMode::Exclusion => "exclusion",
            BlendMode::Hue => "hue",
            BlendMode::Saturation => "saturation",
            BlendMode::Color => "color",
            BlendMode::Luminosity => "luminosity",
        }
    }

    /// Each channel is mixed by itself.
    pub open spec fn separable(self) -> bool {
        !(self == BlendMode::Hue || self == BlendMode::Saturation || self == BlendMode::Color
            || self == BlendMode::Luminosity)
    }

    /// Whether each channel is mixed by itself.
    pub fn is_separable(self) -> (r: bool)
        ensures
            r == self.separable(),
    {
        !matches!(
            self,
            BlendMode::Hue | BlendMode::Saturation | BlendMode::Color | BlendMode::Luminosity
        )
    }
}

/// Every mode is found by its keyword.
pub proof fn keywords_name_their_modes(m: BlendMode)
    ensures
        BlendMode::named(crate::text::keyword_form(m.name())) == Some(m),
{
    reveal_strlit("normal");
    reveal_strlit("multiply");
    reveal_strlit("screen");
    reveal_strlit("overlay");
    reveal_strlit("darken");
    reveal_strlit("lighten");
    reveal_strlit("color-dodge");
    reveal_strlit("color-burn");
    reveal_strlit("hard-light");
    reveal_strlit("soft-light");
    reveal_strlit("difference");
    reveal_strlit("exclusion");
    reveal_strlit("hue");
    reveal_strlit("saturation");
    reveal_strlit("color");
    reveal_strlit("luminosity");
    crate::text::keyword_form_of_keyword(m.name());
    assert("normal"@.len() == 6 && "normal"@[0] == 'n');
    assert("multiply"@.len() == 8 && "multiply"@[0] == 'm');
    assert("screen"@.len() == 6 && "screen"@[0] == 's');
    assert("overlay"@.len() == 7 && "overlay"@[0] == 'o');
    assert("darken"@.len() == 6 && "darken"@[0] == 'd');
    assert("lighten"@.len() == 7 && "lighten"@[0] == 'l');
    assert("color-dodge"@.len() == 11 && "color-dodge"@[0] == 'c');
    assert("color-burn"@.len() == 10 && "color-burn"@[0] == 'c');
    assert("hard-light"@.len() == 10 && "hard-light"@[0] == 'h');
    assert("soft-light"@.len() == 10 && "soft-light"@[0] == 's');
    assert("difference"@.len() == 10 && "difference"@[0] == 'd');
    assert("exclusion"@.len() == 9 && "exclusion"@[0] == 'e');
    assert("hue"@.len() == 3 && "hue"@[0] == 'h');
    assert("saturation"@.len() == 10 && "saturation"@[0] == 's');
    assert("color"@.len() == 5 && "color"@[0] == 'c');
    assert("luminosity"@.len() == 10 && "luminosity"@[0] == 'l');
}

impl Factor {
    /// The weight that the factor is where the alphas are these.
    pub open spec fn weight(self, source: int, backdrop: int) -> int {
        match self {
            Factor::Zero => 0,
            Factor::One => 1,
            Factor::SourceAlpha => source,
            Factor::InverseSourceAlpha => 1 - source,
            Factor::BackdropAlpha => backdrop,
            Factor::InverseBackdropAlpha => 1 - backdrop,
        }
    }
}

impl CompositingOperator {
    /// The source shows where it covers a point.
    pub open spec fn shows_source(self, backdrop: bool) -> bool {
        self.weights().0.weight(
            1,
            if backdrop {
                1
            } else {
                0
            },
        ) == 1
    }

    /// The backdrop shows where it covers a point.
    pub open spec fn shows_backdrop(self, source: bool) -> bool {
        self.weights().1.weight(
            if source {
                1
            } else {
                0
            },
            1,
        ) == 1
    }
}

/// What an operator shows. Where the source lies alone, it shows by the operators
/// that keep it; where the backdrop lies alone, likewise. Where both lie, at most
/// one of them shows: the one that is over, in or atop the other.
pub proof fn operators_show_their_parts(op: CompositingOperator)
    ensures
        op.shows_source(false) <==> (op == CompositingOperator::Copy || op
            == CompositingOperator::SourceOver || op == CompositingOperator::DestinationOver || op
            == CompositingOperator::SourceOut || op == CompositingOperator::DestinationAtop || op
            == CompositingOperator::Xor),
        op.shows_backdrop(false) <==> (op == CompositingOperator::Destination || op
            == CompositingOperator::SourceOver || op == CompositingOperator::DestinationOver || op
            == CompositingOperator::DestinationOut || op == CompositingOperator::SourceAtop || op
            == CompositingOperator::Xor),
        op.shows_source(true) <==> (op == CompositingOperator::Copy || op
            == CompositingOperator::SourceOver || op == CompositingOperator::SourceIn || op
            == CompositingOperator::SourceAtop),
        op.shows_backdrop(true) <==> (op == CompositingOperator::Destination || op
            == CompositingOperator::DestinationOver || op == CompositingOperator::DestinationIn || op
            == CompositingOperator::DestinationAtop),
        !(op.shows_source(true) && op.shows_backdrop(true)),
{
}

/// An operator weighs the source by the alpha of the backdrop alone, and the
/// backdrop by that of the source alone.
pub proof fn parts_are_weighed_by_each_other(
    op: CompositingOperator,
    source: int,
    other: int,
    backdrop: int,
)
    ensures
        op.weights().0.weight(source, backdrop) == op.weights().0.weight(other, backdrop),
        op.weights().1.weight(backdrop, source) == op.weights().1.weight(backdrop, other),
{
}

/// Each mode has the keyword of its own, in any case and with white space around
/// it; what is none of them is no mode.
pub proof fn modes_have_their_keywords(s: Seq<char>)
    ensures
        ({
            let k = crate::text::lowered(crate::text::trimmed(s));
            let r = BlendMode::named(crate::text::keyword_form(s));
            &&& r == Some(BlendMode::Normal) <==> k == "normal"@
            &&& r == Some(BlendMode::Multiply) <==> k == "multiply"@
            &&& r == Some(BlendMode::Screen) <==> k == "screen"@
            &&& r == Some(BlendMode::Overlay) <==> k == "overlay"@
            &&& r == Some(BlendMode::Darken) <==> k == "darken"@
            &&& r == Some(BlendMode::Lighten) <==> k == "lighten"@
            &&& r == Some(BlendMode::ColorDodge) <==> k == "color-dodge"@
            &&& r == Some(BlendMode::ColorBurn) <==> k == "color-burn"@
            &&& r == Some(BlendMode::HardLight) <==> k == "hard-light"@
            &&& r == Some(BlendMode::SoftLight) <==> k == "soft-light"@
            &&& r == Some(BlendMode::Difference) <==> k == "difference"@
            &&& r == Some(BlendMode::Exclusion) <==> k == "exclusion"@
            &&& r == Some(BlendMode::Hue) <==> k == "hue"@
            &&& r == Some(BlendMode::Saturation) <==> k == "saturation"@
            &&& r == Some(BlendMode::Color) <==> k == "color"@
            &&& r == Some(BlendMode::Luminosity) <==> k == "luminosity"@
        }),
{
    reveal_strlit("normal");
    reveal_strlit("multiply");
    reveal_strlit("screen");
    reveal_strlit("overlay");
    reveal_strlit("darken");
    reveal_strlit("lighten");
    reveal_strlit("color-dodge");
    reveal_strlit("color-burn");
    reveal_strlit("hard-light");
    reveal_strlit("soft-light");
    reveal_strlit("difference");
    reveal_strlit("exclusion");
    reveal_strlit("hue");
    reveal_strlit("saturation");
    reveal_strlit("color");
    reveal_strlit("luminosity");
    assert("normal"@.len() == 6);
    assert("multiply"@.len() == 8);
    assert("screen"@.len() == 6);
    assert("overlay"@.len() == 7);
    assert("darken"@.len() == 6);
    assert("lighten"@.len() == 7);
    assert("color-dodge"@.len() == 11);
    assert("color-burn"@.len() == 10);
    assert("hard-light"@.len() == 10);
    assert("soft-light"@.len() == 10);
    assert("difference"@.len() == 10);
    assert("exclusion"@.len() == 9);
    assert("hue"@.len() == 3);
    assert("saturation"@.len() == 10);
    assert("color"@.len() == 5);
    assert("luminosity"@.len() == 10);
    assert("normal"@[0] == 'n' && "screen"@[0] == 's');
    assert("normal"@[0] == 'n' && "darken"@[0] == 'd');
    assert("screen"@[0] == 's' && "darken"@[0] == 'd');
    assert("overlay"@[0] == 'o' && "lighten"@[0] == 'l');
    assert("color-burn"@[0] == 'c' && "hard-light"@[0] == 'h');
    assert("color-burn"@[0] == 'c' && "soft-light"@[0] == 's');
    assert("color-burn"@[0] == 'c' && "difference"@[0] == 'd');
    assert("color-burn"@[0] == 'c' && "saturation"@[0] == 's');
    assert("color-burn"@[0] == 'c' && "luminosity"@[0] == 'l');
    assert("hard-light"@[0] == 'h' && "soft-light"@[0] == 's');
    assert("hard-light"@[0] == 'h' && "difference"@[0] == 'd');
    assert("hard-light"@[0] == 'h' && "saturation"@[0] == 's');
    assert("hard-light"@[0] == 'h' && "luminosity"@[0] == 'l');
    assert("soft-light"@[0] == 's' && "difference"@[0] == 'd');
    assert("soft-light"@[1] == 'o' && "saturation"@[1] == 'a');
    assert("soft-light"@[0] == 's' && "luminosity"@[0] == 'l');
    assert("difference"@[0] == 'd' && "saturation"@[0] == 's');
    assert("difference"@[0] == 'd' && "luminosity"@[0] == 'l');
    assert("saturation"@[0] == 's' && "luminosity"@[0] == 'l');
}

} // verus!
