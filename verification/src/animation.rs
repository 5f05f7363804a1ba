//! The decisions of the animation timing model.
//!
//! The times of an effect are compared elsewhere; what follows from the
//! comparisons is decided here: the phase, whether the effect has a progress,
//! and whether that progress runs backwards.

use vstd::prelude::*;

use crate::text::{keyword, spells};

verus! {

/// The phases, besides the active one, in which an effect applies a value.
#[derive(Clone, Copy, Debug, PartialEq, Eq, Hash, Structural)]
pub enum Fill {
    /// `none`: neither before nor after.
    Neither,
    /// `forwards`: the end value after the active phase.
    Forwards,
    /// `backwards`: the start value before the active phase.
    Backwards,
    /// `both`.
    Both,
}

impl Default for Fill {
    fn default() -> (r: Fill)
        ensures
            r == Fill::Neither,
    {
        Fill::Neither
    }
}

impl Fill {
    /// The keyword of the mode.
    pub open spec fn name(self) -> Seq<char> {
        match self {
            Fill::Neither => "none"@,
            Fill::Forwards => "forwards"@,
            Fill::Backwards => "backwards"@,
            Fill::Both => "both"@,
        }
    }

    /// The mode with the keyword `k`.
    pub open spec fn named(k: Seq<char>) -> Option<Fill> {
        if k == "none"@ {
            Some(Fill::Neither)
        } else if k == "forwards"@ {
            Some(Fill::Forwards)
        } else if k == "backwards"@ {
            Some(Fill::Backwards)
        } else if k == "both"@ {
            Some(Fill::Both)
        } else {
            None
        }
    }

    /// Parses the keyword, in any case and with white space around it.
    pub fn parse(s: &str) -> (r: Option<Fill>)
        ensures
            r == Fill::named(crate::text::keyword_form(s@)),
    {
        let k = keyword(s);
        if spells(k.as_slice(), "none") {
            Some(Fill::Neither)
        } else if spells(k.as_slice(), "forwards") {
            Some(Fill::Forwards)
        } else if spells(k.as_slice(), "backwards") {
            Some(Fill::Backwards)
        } else if spells(k.as_slice(), "both") {
            Some(Fill::Both)
        } else {
            None
        }
    }

    /// Whether a value applies before the active phase.
    pub fn applies_before(self) -> (r: bool)
        ensures
            r == (self == Fill::Backwards || self == Fill::Both),
    {
        matches!(self, Fill::Backwards | Fill::Both)
    }

    /// Whether a value applies after the active phase.
    pub fn applies_after(self) -> (r: bool)
        ensures
            r == (self == Fill::Forwards || self == Fill::Both),
    {
        matches!(self, Fill::Forwards | Fill::Both)
    }
}

/// The direction in which the iterations of an effect run.
#[derive(Clone, Copy, Debug, PartialEq, Eq, Hash, Structural)]
pub enum PlaybackDirection {
    /// Every iteration runs forwards.
    Normal,
    /// Every iteration runs backwards.
    Reverse,
    /// The first iteration runs forwards, the next backwards, and so on.
    Alternate,
    /// The first iteration runs backwards, the next forwards, and so on.
    AlternateReverse,
}

impl Default for PlaybackDirection {
    fn default() -> (r: PlaybackDirection)
        ensures
            r == PlaybackDirection::Normal,
    {
        PlaybackDirection::Normal
    }
}

impl PlaybackDirection {
    /// The keyword of the direction.
    pub open spec fn name(self) -> Seq<char> {
        match self {
            PlaybackDirection::Normal => "normal"@,
            PlaybackDirection::Reverse => "reverse"@,
            PlaybackDirection::Alternate => "alternate"@,
            PlaybackDirection::AlternateReverse => "alternate-reverse"@,
        }
    }

    /// The direction with the keyword `k`.
    pub open spec fn named(k: Seq<char>) -> Option<PlaybackDirection> {
        if k == "normal"@ {
            Some(PlaybackDirection::Normal)
        } else if k == "reverse"@ {
            Some(PlaybackDirection::Reverse)
        } else if k == "alternate"@ {
            Some(PlaybackDirection::Alternate)
        } else if k == "alternate-reverse"@ {
            Some(PlaybackDirection::AlternateReverse)
        } else {
            None
        }
    }

    /// Parses the keyword, in any case and with white space around it.
    pub fn parse(s: &str) -> (r: Option<PlaybackDirection>)
        ensures
            r == PlaybackDirection::named(crate::text::keyword_form(s@)),
    {
        let k = keyword(s);
        if spells(k.as_slice(), "normal") {
            Some(PlaybackDirection::Normal)
        } else if spells(k.as_slice(), "reverse") {
            Some(PlaybackDirection::Reverse)
        } else if spells(k.as_slice(), "alternate") {
            Some(PlaybackDirection::Alternate)
        } else if spells(k.as_slice(), "alternate-reverse") {
            Some(PlaybackDirection::AlternateReverse)
        } else {
            None
        }
    }

    /// The iteration runs backwards: its progress `p` counts as `1 - p`.
    pub open spec fn reversed(self, iteration: u64) -> bool {
        match self {
            PlaybackDirection::Normal => false,
            PlaybackDirection::Reverse => true,
            PlaybackDirection::Alternate => iteration % 2 == 1,
            PlaybackDirection::AlternateReverse => iteration % 2 == 0,
        }
    }

    /// Whether the iteration runs backwards.
    pub fn is_reversed(self, iteration: u64) -> (r: bool)
        ensures
            r == self.reversed(iteration),
    {
        match self {
            PlaybackDirection::Normal => false,
            PlaybackDirection::Reverse => true,
            PlaybackDirection::Alternate => iteration % 2 == 1,
            PlaybackDirection::AlternateReverse => iteration % 2 == 0,
        }
    }
}

/// The phase of an effect at some time.
#[derive(Clone, Copy, Debug, PartialEq, Eq, Hash, Structural)]
pub enum EffectPhase {
    Before,
    Active,
    After,
}

/// The phase at a time that is before the start or not, and has reached the
/// end or not. An effect that never ends is active from its start on.
pub fn phase(before_start: bool, endless: bool, reached_end: bool) -> (r: EffectPhase)
    ensures
        r == EffectPhase::Before <==> before_start,
        r == EffectPhase::After <==> !before_start && !endless && reached_end,
{
    if before_start {
        EffectPhase::Before
    } else if !endless && reached_end {
        EffectPhase::After
    } else {
        EffectPhase::Active
    }
}

/// Where in an iteration an effect is sampled.
#[derive(Clone, Copy, Debug, PartialEq, Eq, Structural)]
pub struct Sampling {
    /// At the start of the first iteration, rather than at the progress made.
    pub at_start: bool,
    /// The progress `p` counts as `1 - p`.
    pub reversed: bool,
}

/// Where an effect is sampled; `None` where it has no effect. Before its active
/// phase an effect is at its start, and only where the fill mode says so; after
/// it, it stays where it ended, and only where the fill mode says so.
pub open spec fn sampled(
    phase: EffectPhase,
    fill: Fill,
    direction: PlaybackDirection,
    iteration: u64,
) -> Option<Sampling> {
    match phase {
        EffectPhase::Before => if fill == Fill::Backwards || fill == Fill::Both {
            Some(Sampling { at_start: true, reversed: direction.reversed(0) })
        } else {
            None
        },
        EffectPhase::Active => Some(
            Sampling { at_start: false, reversed: direction.reversed(iteration) },
        ),
        EffectPhase::After => if fill == Fill::Forwards || fill == Fill::Both {
            Some(Sampling { at_start: false, reversed: direction.reversed(iteration) })
        } else {
            None
        },
    }
}

/// Decides where an effect is sampled in the iteration `iteration`.
pub fn compute_sampling(
    phase: EffectPhase,
    fill: Fill,
    direction: PlaybackDirection,
    iteration: u64,
) -> (r: Option<Sampling>)
    ensures
        r == sampled(phase, fill, direction, iteration),
{
    match phase {
        EffectPhase::Before => if fill.applies_before() {
            Some(Sampling { at_start: true, reversed: direction.is_reversed(0) })
        } else {
            None
        },
        EffectPhase::Active => Some(
            Sampling { at_start: false, reversed: direction.is_reversed(iteration) },
        ),
        EffectPhase::After => if fill.applies_after() {
            Some(Sampling { at_start: false, reversed: direction.is_reversed(iteration) })
        } else {
            None
        },
    }
}

/// Every fill mode is found by its keyword.
pub proof fn keywords_name_their_fills(f: Fill)
    ensures
        Fill::named(crate::text::keyword_form(f.name())) == Some(f),
{
    reveal_strlit("none");
    reveal_strlit("forwards");
    reveal_strlit("backwards");
    reveal_strlit("both");
    crate::text::keyword_form_of_keyword(f.name());
    assert("none"@.len() == 4 && "forwards"@.len() == 8 && "backwards"@.len() == 9
        && "both"@.len() == 4);
    assert("none"@[0] == 'n' && "both"@[0] == 'b');
}

/// Every direction is found by its keyword.
pub proof fn keywords_name_their_directions(d: PlaybackDirection)
    ensures
        PlaybackDirection::named(crate::text::keyword_form(d.name())) == Some(d),
{
    reveal_strlit("normal");
    reveal_strlit("reverse");
    reveal_strlit("alternate");
    reveal_strlit("alternate-reverse");
    crate::text::keyword_form_of_keyword(d.name());
    assert("normal"@.len() == 6 && "reverse"@.len() == 7 && "alternate"@.len() == 9
        && "alternate-reverse"@.len() == 17);
}

/// The alternating directions turn around with every iteration, and run
/// opposite to each other; the other two never turn.
pub proof fn alternating_directions_turn(iteration: u64)
    requires
        iteration < u64::MAX,
    ensures
        ({
            let next = (iteration + 1) as u64;
            &&& PlaybackDirection::Alternate.reversed(iteration)
                != PlaybackDirection::Alternate.reversed(next)
            &&& PlaybackDirection::AlternateReverse.reversed(iteration)
                != PlaybackDirection::AlternateReverse.reversed(next)
            &&& PlaybackDirection::Alternate.reversed(iteration)
                != PlaybackDirection::AlternateReverse.reversed(iteration)
            &&& PlaybackDirection::Normal.reversed(iteration)
                == PlaybackDirection::Normal.reversed(next)
            &&& PlaybackDirection::Reverse.reversed(iteration)
                == PlaybackDirection::Reverse.reversed(next)
        }),
{
}

/// Outside its active phase an effect without a fill mode has no effect, and
/// the mode `both` does what the two others do.
pub proof fn fills_reach_out(phase: EffectPhase, direction: PlaybackDirection, iteration: u64)
    ensures
        phase != EffectPhase::Active ==> sampled(phase, Fill::Neither, direction, iteration)
            is None,
        phase == EffectPhase::Before ==> sampled(phase, Fill::Both, direction, iteration)
            == sampled(phase, Fill::Backwards, direction, iteration),
        phase == EffectPhase::After ==> sampled(phase, Fill::Both, direction, iteration)
            == sampled(phase, Fill::Forwards, direction, iteration),
        sampled(EffectPhase::Active, Fill::Neither, direction, iteration) is Some,
{
}

/// Before its active phase an effect has a value exactly where the fill mode is
/// `backwards` or `both`, after it exactly where the mode is `forwards` or
/// `both`, and in the active phase whatever the mode.
pub proof fn fills_decide_where_a_value_applies(
    fill: Fill,
    direction: PlaybackDirection,
    iteration: u64,
)
    ensures
        sampled(EffectPhase::Before, fill, direction, iteration) is Some <==> (fill
            == Fill::Backwards || fill == Fill::Both),
        sampled(EffectPhase::After, fill, direction, iteration) is Some <==> (fill
            == Fill::Forwards || fill == Fill::Both),
        sampled(EffectPhase::Active, fill, direction, iteration) is Some,
{
}

/// Before its active phase an effect stands at the start of its first iteration,
/// in the direction in which that iteration begins. In the active phase it
/// stands at the progress made, and after it where it ended: as in the last
/// iteration of the active phase. Of the fill mode, only whether it applies
/// matters.
pub proof fn samples_continue_the_active_phase(
    phase: EffectPhase,
    fill: Fill,
    direction: PlaybackDirection,
    iteration: u64,
    other: Fill,
)
    ensures
        sampled(phase, fill, direction, iteration) matches Some(s) ==> {
            let active = sampled(EffectPhase::Active, other, direction, iteration);
            let first = sampled(EffectPhase::Active, other, direction, 0);
            match phase {
                EffectPhase::Before => s.at_start && first == Some(
                    Sampling { at_start: false, reversed: s.reversed },
                ),
                EffectPhase::Active => !s.at_start && active == Some(s),
                EffectPhase::After => !s.at_start && active == Some(s),
            }
        },
{
}

/// The direction says which iterations run backwards: with `normal` none, with
/// `reverse` all, with `alternate` every second one and not the first, and with
/// `alternate-reverse` the first and every second one.
pub proof fn directions_turn_iterations(fill: Fill, k: u64)
    requires
        2 * k + 1 <= u64::MAX,
    ensures
        ({
            let even = (2 * k) as u64;
            let odd = (2 * k + 1) as u64;
            let run = |d: PlaybackDirection, i: u64| sampled(EffectPhase::Active, fill, d, i);
            let forwards = Some(Sampling { at_start: false, reversed: false });
            let backwards = Some(Sampling { at_start: false, reversed: true });
            &&& run(PlaybackDirection::Normal, even) == forwards
            &&& run(PlaybackDirection::Normal, odd) == forwards
            &&& run(PlaybackDirection::Reverse, even) == backwards
            &&& run(PlaybackDirection::Reverse, odd) == backwards
            &&& run(PlaybackDirection::Alternate, even) == forwards
            &&& run(PlaybackDirection::Alternate, odd) == backwards
            &&& run(PlaybackDirection::AlternateReverse, even) == backwards
            &&& run(PlaybackDirection::AlternateReverse, odd) == forwards
        }),
{
}

/// Each fill mode has the keyword of its own, in any case and with white space
/// around it: what is such a keyword is that mode, and what is none of them is
/// no mode.
pub proof fn fills_have_their_keywords(s: Seq<char>)
    ensures
        ({
            let k = crate::text::lowered(crate::text::trimmed(s));
            let r = Fill::named(crate::text::keyword_form(s));
            &&& r == Some(Fill::Neither) <==> k == "none"@
            &&& r == Some(Fill::Forwards) <==> k == "forwards"@
            &&& r == Some(Fill::Backwards) <==> k == "backwards"@
            &&& r == Some(Fill::Both) <==> k == "both"@
        }),
{
    keywords_name_their_fills(Fill::Neither);
    reveal_strlit("none");
    reveal_strlit("forwards");
    reveal_strlit("backwards");
    reveal_strlit("both");
    assert("none"@[0] != "both"@[0]);
    assert("forwards"@.len() != "backwards"@.len());
}

/// Each direction has the keyword of its own, in any case and with white space
/// around it: what is such a keyword is that direction, and what is none of them
/// is no direction.
pub proof fn directions_have_their_keywords(s: Seq<char>)
    ensures
        ({
            let k = crate::text::lowered(crate::text::trimmed(s));
            let r = PlaybackDirection::named(crate::text::keyword_form(s));
            &&& r == Some(PlaybackDirection::Normal) <==> k == "normal"@
            &&& r == Some(PlaybackDirection::Reverse) <==> k == "reverse"@
            &&& r == Some(PlaybackDirection::Alternate) <==> k == "alternate"@
            &&& r == Some(PlaybackDirection::AlternateReverse) <==> k == "alternate-reverse"@
        }),
{
    reveal_strlit("normal");
    reveal_strlit("reverse");
    reveal_strlit("alternate");
    reveal_strlit("alternate-reverse");
    assert("normal"@.len() == 6 && "reverse"@.len() == 7 && "alternate"@.len() == 9
        && "alternate-reverse"@.len() == 17);
}

} // verus!
