//! CSS angles.

use vstd::prelude::*;

use crate::number::{count_number, read_literal, Literal, Precision};
use crate::text::{chars_of, part, spells, string_of, trim};

verus! {

/// The units of an angle: 360 degrees are two pi radians, 400 gradians and one
/// turn.
#[derive(Clone, Copy, Debug, PartialEq, Eq, Hash, Structural)]
pub enum AngleUnit {
    Deg,
    Rad,
    Grad,
    Turn,
}

/// An angle: a number and its unit.
#[derive(Clone, Debug, PartialEq, Eq)]
pub struct Angle {
    pub value: Literal,
    pub unit: AngleUnit,
}

/// An angle, with its number as it was written.
#[verifier::ext_equal]
pub struct AngleView {
    pub value: Seq<char>,
    pub unit: AngleUnit,
}

impl View for Angle {
    type V = AngleView;

    open spec fn view(&self) -> AngleView {
        AngleView { value: self.value@, unit: self.unit }
    }
}

/// Why a text is no angle.
#[derive(Clone, Debug, PartialEq, Eq)]
pub enum AngleParseError {
    Empty,
    InvalidNumber(String),
    /// An angle other than zero needs a unit.
    MissingUnit,
    UnknownUnit(String),
}

/// [`AngleParseError`] with its text as characters.
#[verifier::ext_equal]
pub enum AngleFault {
    Empty,
    InvalidNumber(Seq<char>),
    MissingUnit,
    UnknownUnit(Seq<char>),
}

impl View for AngleParseError {
    type V = AngleFault;

    open spec fn view(&self) -> AngleFault {
        match self {
            AngleParseError::Empty => AngleFault::Empty,
            AngleParseError::InvalidNumber(s) => AngleFault::InvalidNumber(s@),
            AngleParseError::MissingUnit => AngleFault::MissingUnit,
            AngleParseError::UnknownUnit(s) => AngleFault::UnknownUnit(s@),
        }
    }
}

impl AngleUnit {
    /// The suffix of the unit.
    pub open spec fn name(self) -> Seq<char> {
        match self {
            AngleUnit::Deg => "deg"@,
            AngleUnit::Rad => "rad"@,
            AngleUnit::Grad => "grad"@,
            AngleUnit::Turn => "turn"@,
        }
    }

    /// The suffix of the unit, in lower case.
    pub fn suffix(self) -> (r: &'static str)
        ensures
            r@ == self.name(),
    {
        match self {
            AngleUnit::Deg => "deg",
            AngleUnit::Rad => "rad",
            AngleUnit::Grad => "grad",
            AngleUnit::Turn => "turn",
        }
    }
}

/// The unit with the suffix `s`. Suffixes are in lower case.
pub open spec fn unit_outcome(s: Seq<char>) -> Result<AngleUnit, AngleFault> {
    if s == "deg"@ {
        Ok(AngleUnit::Deg)
    } else if s == "rad"@ {
        Ok(AngleUnit::Rad)
    } else if s == "grad"@ {
        Ok(AngleUnit::Grad)
    } else if s == "turn"@ {
        Ok(AngleUnit::Turn)
    } else {
        Err(AngleFault::UnknownUnit(s))
    }
}

/// Parses the suffix of a unit.
pub fn parse_unit(s: &[char]) -> (r: Result<AngleUnit, AngleParseError>)
    ensures
        crate::outcome::judged(r) == unit_outcome(s@),
{
    if spells(s, "deg") {
        Ok(AngleUnit::Deg)
    } else if spells(s, "rad") {
        Ok(AngleUnit::Rad)
    } else if spells(s, "grad") {
        Ok(AngleUnit::Grad)
    } else if spells(s, "turn") {
        Ok(AngleUnit::Turn)
    } else {
        Err(AngleParseError::UnknownUnit(string_of(s)))
    }
}

/// What the text `input` parses to as an angle: a number with a unit behind
/// it, or zero without one.
pub open spec fn angle_outcome(input: Seq<char>) -> Result<AngleView, AngleFault> {
    let s = crate::text::trimmed(input);
    let n = crate::number::number_length(s);
    let number = s.take(n as int);
    let unit = s.skip(n as int);
    if s.len() == 0 {
        Err(AngleFault::Empty)
    } else if n == crate::number::sign_length(s) {
        Err(AngleFault::InvalidNumber(s))
    } else {
        match Precision::Double.reading(number) {
            None => Err(AngleFault::InvalidNumber(number)),
            Some(x) => if unit.len() == 0 {
                if x.is_zero() {
                    Ok(AngleView { value: number, unit: AngleUnit::Deg })
                } else {
                    Err(AngleFault::MissingUnit)
                }
            } else {
                match unit_outcome(unit) {
                    Ok(u) => Ok(AngleView { value: number, unit: u }),
                    Err(e) => Err(e),
                }
            },
        }
    }
}

impl Angle {
    /// Parses an angle such as `45deg`; white space around it is dropped.
    pub fn parse(input: &str) -> (r: Result<Angle, AngleParseError>)
        ensures
            crate::outcome::viewed(r) == angle_outcome(input@),
    {
        let v = chars_of(input);
        let s = trim(v.as_slice());
        if s.len() == 0 {
            return Err(AngleParseError::Empty);
        }
        let n: usize = count_number(s.as_slice());
        let sign: usize = if s[0] == '+' || s[0] == '-' {
            1
        } else {
            0
        };
        if n == sign {
            return Err(AngleParseError::InvalidNumber(string_of(s.as_slice())));
        }
        let number = part(s.as_slice(), 0, n);
        let suffix = part(s.as_slice(), n, s.len());
        assert(number@ =~= s@.take(n as int));
        assert(suffix@ =~= s@.skip(n as int));
        match read_literal(number.as_slice(), Precision::Double) {
            None => Err(AngleParseError::InvalidNumber(string_of(number.as_slice()))),
            Some((value, x)) => if suffix.len() == 0 {
                if x.is_zero() {
                    Ok(Angle { value, unit: AngleUnit::Deg })
                } else {
                    Err(AngleParseError::MissingUnit)
                }
            } else {
                match parse_unit(suffix.as_slice()) {
                    Ok(unit) => Ok(Angle { value, unit }),
                    Err(e) => Err(e),
                }
            },
        }
    }
}

/// Every unit is found by its suffix.
pub proof fn suffixes_name_their_units(u: AngleUnit)
    ensures
        unit_outcome(u.name()) == Ok::<AngleUnit, AngleFault>(u),
{
    reveal_strlit("deg");
    reveal_strlit("rad");
    reveal_strlit("grad");
    reveal_strlit("turn");
    assert("deg"@[0] != "rad"@[0]);
    assert("grad"@.len() != "deg"@.len());
    assert("turn"@[0] != "grad"@[0]);
}

/// A number with the suffix of a unit behind it reads back as that number of
/// that unit.
pub proof fn angles_read_back(number: Seq<char>, u: AngleUnit)
    requires
        crate::number::number_length(number) == number.len(),
        crate::number::sign_length(number) < number.len(),
        Precision::Double.reading(number) is Some,
    ensures
        angle_outcome(number + u.name()) == Ok::<AngleView, AngleFault>(
            AngleView { value: number, unit: u },
        ),
{
    reveal_strlit("deg");
    reveal_strlit("rad");
    reveal_strlit("grad");
    reveal_strlit("turn");
    let t = u.name();
    let s = number + t;
    suffixes_name_their_units(u);
    crate::number::number_stops(number, t);
    assert(s.take(number.len() as int) =~= number);
    assert(s.skip(number.len() as int) =~= t);
    assert(s[s.len() - 1] == t[t.len() - 1]);
    assert(!crate::text::is_white_space(s[s.len() - 1]));
    number_begins_dark(number);
    assert(s[0] == number[0]);
    assert(crate::text::trim_start(s) == s);
    assert(crate::text::trim_end(s) == s);
}

/// No number begins with white space.
proof fn number_begins_dark(s: Seq<char>)
    requires
        crate::number::number_length(s) == s.len(),
        crate::number::sign_length(s) < s.len(),
    ensures
        !crate::text::is_white_space(s[0]),
{
    if !crate::number::signed(s) && crate::text::is_white_space(s[0]) {
        assert(s.skip(0) =~= s);
        assert(crate::number::digit_run(s) == 0);
    }
}

/// Each unit has the suffix of its own; what is none of them is no unit.
pub proof fn units_have_their_suffixes(s: Seq<char>)
    ensures
        ({
            let k = s;
            let r = unit_outcome(s);
            &&& r == Ok::<AngleUnit, AngleFault>(AngleUnit::Deg) <==> k == "deg"@
            &&& r == Ok::<AngleUnit, AngleFault>(AngleUnit::Rad) <==> k == "rad"@
            &&& r == Ok::<AngleUnit, AngleFault>(AngleUnit::Grad) <==> k == "grad"@
            &&& r == Ok::<AngleUnit, AngleFault>(AngleUnit::Turn) <==> k == "turn"@
        }),
{
    reveal_strlit("deg");
    reveal_strlit("rad");
    reveal_strlit("grad");
    reveal_strlit("turn");
    assert("deg"@.len() == 3);
    assert("rad"@.len() == 3);
    assert("grad"@.len() == 4);
    assert("turn"@.len() == 4);
    assert("deg"@[0] == 'd' && "rad"@[0] == 'r');
    assert("grad"@[0] == 'g' && "turn"@[0] == 't');
}

} // verus!
