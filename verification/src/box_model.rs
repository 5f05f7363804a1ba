//! The rules by which the lengths of a box that are left open are resolved.
//!
//! For a block in normal flow the margins, borders, paddings and the width add
//! up to the width of the containing block. Which of the open lengths takes up
//! the space that is left is decided here; the arithmetic is not.

use vstd::prelude::*;

verus! {

/// What a declared width covers.
#[derive(Clone, Copy, Debug, PartialEq, Eq, Structural)]
pub enum BoxSizing {
    /// The content.
    ContentBox,
    /// The content, the padding and the border.
    BorderBox,
}

impl Default for BoxSizing {
    fn default() -> (r: BoxSizing)
        ensures
            r == BoxSizing::ContentBox,
    {
        BoxSizing::ContentBox
    }
}

/// What the width of the content is. None of these is below zero.
#[derive(Clone, Copy, Debug, PartialEq, Eq, Structural)]
pub enum ContentWidth {
    /// What the other lengths leave of the containing block.
    Leftover,
    /// The declared width.
    Declared,
    /// The declared width without border and padding.
    DeclaredWithoutFrame,
}

/// Where the height of the content comes from.
#[derive(Clone, Copy, Debug, PartialEq, Eq, Structural)]
pub enum ContentHeight {
    /// The content decides; until then there is none.
    Open,
    /// The declared height.
    Declared,
    /// The declared height without border and padding.
    DeclaredWithoutFrame,
}

/// What becomes of the space that is left beside a box.
#[derive(Clone, Copy, Debug, PartialEq, Eq, Structural)]
pub enum SpareSpace {
    /// There is none, or no margin takes it.
    Dropped,
    /// The left margin takes it, also where it is negative.
    ToLeft,
    /// The right margin takes it, also where it is negative.
    ToRight,
    /// Both margins take half of it; where it is negative they are zero.
    Split,
}

/// How the open lengths of a box are resolved.
#[derive(Clone, Copy, Debug, PartialEq, Eq, Structural)]
pub struct Resolution {
    pub content: ContentWidth,
    pub height: ContentHeight,
    pub spare: SpareSpace,
}

/// How a box is resolved whose width, height and margins are open or not. An
/// open width takes all of the space, and open margins are then zero.
pub open spec fn resolution(
    sizing: BoxSizing,
    auto_width: bool,
    auto_height: bool,
    auto_left: bool,
    auto_right: bool,
) -> Resolution {
    Resolution {
        content: if auto_width {
            ContentWidth::Leftover
        } else if sizing == BoxSizing::BorderBox {
            ContentWidth::DeclaredWithoutFrame
        } else {
            ContentWidth::Declared
        },
        height: if auto_height {
            ContentHeight::Open
        } else if sizing == BoxSizing::BorderBox {
            ContentHeight::DeclaredWithoutFrame
        } else {
            ContentHeight::Declared
        },
        spare: if auto_width || (!auto_left && !auto_right) {
            SpareSpace::Dropped
        } else if auto_left && auto_right {
            SpareSpace::Split
        } else if auto_left {
            SpareSpace::ToLeft
        } else {
            SpareSpace::ToRight
        },
    }
}

/// Decides how a box is resolved.
pub fn plan_resolution(
    sizing: BoxSizing,
    auto_width: bool,
    auto_height: bool,
    auto_left: bool,
    auto_right: bool,
) -> (r: Resolution)
    ensures
        r == resolution(sizing, auto_width, auto_height, auto_left, auto_right),
{
    let content = if auto_width {
        ContentWidth::Leftover
    } else {
        match sizing {
            BoxSizing::BorderBox => ContentWidth::DeclaredWithoutFrame,
            BoxSizing::ContentBox => ContentWidth::Declared,
        }
    };
    let spare = if auto_width {
        SpareSpace::Dropped
    } else if auto_left && auto_right {
        SpareSpace::Split
    } else if auto_left {
        SpareSpace::ToLeft
    } else if auto_right {
        SpareSpace::ToRight
    } else {
        SpareSpace::Dropped
    };
    let height = if auto_height {
        ContentHeight::Open
    } else {
        match sizing {
            BoxSizing::BorderBox => ContentHeight::DeclaredWithoutFrame,
            BoxSizing::ContentBox => ContentHeight::Declared,
        }
    };
    Resolution { content, height, spare }
}

/// At most one length takes the space: where the width does, no margin does.
pub proof fn space_is_taken_once(
    sizing: BoxSizing,
    auto_width: bool,
    auto_height: bool,
    auto_left: bool,
    auto_right: bool,
)
    ensures
        ({
            let r = resolution(sizing, auto_width, auto_height, auto_left, auto_right);
            &&& r.content == ContentWidth::Leftover ==> r.spare == SpareSpace::Dropped
            &&& r.content == ContentWidth::Leftover <==> auto_width
        }),
{
}

/// The lengths of a box beside each other: the margins, the border and padding
/// on both sides together, and the content.
pub struct Widths {
    pub left: real,
    pub frame: real,
    pub content: real,
    pub right: real,
}

impl Widths {
    /// How much room the box takes.
    pub open spec fn total(self) -> real {
        self.left + self.frame + self.content + self.right
    }
}

/// The larger of a length and none.
pub open spec fn at_least_none(n: real) -> real {
    if n < (0 as real) {
        0 as real
    } else {
        n
    }
}

/// The lengths of a box that is resolved, in a container of this width. An open
/// margin counts as zero until it takes up space.
pub open spec fn resolved(
    r: Resolution,
    container: real,
    declared: real,
    frame: real,
    left: real,
    right: real,
) -> Widths {
    let content = at_least_none(
        match r.content {
            ContentWidth::Leftover => container - left - frame - right,
            ContentWidth::Declared => declared,
            ContentWidth::DeclaredWithoutFrame => declared - frame,
        },
    );
    let spare = container - left - frame - content - right;
    match r.spare {
        SpareSpace::Dropped => Widths { left, frame, content, right },
        SpareSpace::ToLeft => Widths { left: left + spare, frame, content, right },
        SpareSpace::ToRight => Widths { left, frame, content, right: right + spare },
        SpareSpace::Split => if spare < (0 as real) {
            Widths { left, frame, content, right }
        } else {
            Widths {
                left: left + spare / (2 as real),
                frame,
                content,
                right: right + spare / (2 as real),
            }
        },
    }
}

/// A box fills its container wherever a length is open. An open width takes what
/// the margins and the frame leave; margins that are open are then zero. With a
/// declared width, a single open margin takes the rest, on its own side and also
/// below zero; two open margins share it evenly, and are zero where there is no
/// rest. A margin that is not open stays as it is.
pub proof fn boxes_fill_their_container(
    sizing: BoxSizing,
    auto_width: bool,
    auto_height: bool,
    auto_left: bool,
    auto_right: bool,
    container: real,
    declared: real,
    frame: real,
    left: real,
    right: real,
)
    requires
        auto_left ==> left == (0 as real),
        auto_right ==> right == (0 as real),
    ensures
        ({
            let r = resolution(sizing, auto_width, auto_height, auto_left, auto_right);
            let w = resolved(r, container, declared, frame, left, right);
            let zero = 0 as real;
            &&& !auto_left ==> w.left == left
            &&& !auto_right ==> w.right == right
            &&& auto_width ==> w.left == left && w.right == right
            &&& auto_width && left + frame + right <= container ==> w.total() == container
            &&& !auto_width && auto_left != auto_right ==> w.total() == container
            &&& !auto_width && auto_left && auto_right ==> w.left == w.right && if frame + w.content
                <= container {
                w.total() == container
            } else {
                w.left == zero
            }
        }),
{
}

/// A declared width covers the content of a content box, and the content with its
/// border and padding of a border box; so does a declared height.
pub proof fn declared_lengths_cover_their_box(
    sizing: BoxSizing,
    auto_left: bool,
    auto_right: bool,
    container: real,
    declared: real,
    frame: real,
    left: real,
    right: real,
)
    requires
        (0 as real) <= frame <= declared,
    ensures
        ({
            let r = resolution(sizing, false, false, auto_left, auto_right);
            let w = resolved(r, container, declared, frame, left, right);
            &&& sizing == BoxSizing::ContentBox ==> w.content == declared && r.height
                == ContentHeight::Declared
            &&& sizing == BoxSizing::BorderBox ==> w.content + w.frame == declared && r.height
                == ContentHeight::DeclaredWithoutFrame
        }),
        resolution(sizing, false, true, auto_left, auto_right).height == ContentHeight::Open,
{
}

} // verus!
