//! Verified core of a browser engine: CSS value parsers and the browser's
//! context, navigation and scripting state machine.

pub mod angle;
pub mod animation;
pub mod bignat;
pub mod blend;
pub mod border_image;
pub mod box_model;
pub mod box_shadow;
pub mod browser;
pub mod calc;
pub mod clip_path;
pub mod color;
pub mod conic_gradient;
pub mod display_list;
pub mod number;
pub mod outcome;
pub mod scan;
pub mod sides;
pub mod text;
pub mod weburl;
