use vstd::prelude::*;

use crate::entity::{valid_scale, MAX_SCALE};

verus! {

/// The screens of a session.
#[derive(Clone, Copy, Debug, PartialEq, Eq, Structural)]
pub enum Screen {
    Title,
    Game,
    Death,
}

/// A square button. `pos` and `width` are in logical pixels; `hover` records
/// whether it is raised under the mouse.
#[derive(Clone, Copy, Debug, PartialEq, Eq)]
pub struct Button {
    pub pos: (i16, i16),
    pub width: i16,
    pub scale: i16,
    pub hover: bool,
}

/// How far a button rises under the mouse, in logical pixels.
pub const BUTTON_LIFT: i16 = 4;

/// Whether the pointer lies on the button, edges included. A pointer
/// coordinate comes as the pair of whole pixels at or below it and at or above
/// it: it is within `[lo, hi]` exactly when the first is at least `lo` and the
/// second at most `hi`.
pub open spec fn over_button(b: Button, mx: (i32, i32), my: (i32, i32), scale: int) -> bool {
    &&& b.pos.0 * scale <= mx.0 && mx.1 <= (b.pos.0 + b.width) * scale
    &&& b.pos.1 * scale <= my.0 && my.1 <= (b.pos.1 + b.width) * scale
}

fn scaled(v: i64, s: i64) -> (r: i64)
    requires
        -70000 <= v <= 70000,
        1 <= s <= 102,
    ensures
        r == v * s,
{
    assert(-70000 * 102 <= v * s <= 70000 * 102) by (nonlinear_arith)
        requires
            -70000 <= v <= 70000,
            1 <= s <= 102,
    ;
    v * s
}

impl Button {
    /// Raises the button when the mouse comes onto it and lowers it when the
    /// mouse leaves. `mx` and `my` are the pointer's coordinates as
    /// `over_button` takes them.
    pub fn hover(button: &mut Button, mx: (i32, i32), my: (i32, i32), scale: i16)
        requires
            valid_scale(scale),
            i16::MIN + BUTTON_LIFT * scale <= old(button).pos.1 <= i16::MAX - BUTTON_LIFT * scale,
        ensures
            *final(button) == if over_button(*old(button), mx, my, scale as int) {
                if old(button).hover {
                    *old(button)
                } else {
                    Button {
                        pos: (old(button).pos.0, (old(button).pos.1 - BUTTON_LIFT * scale) as i16),
                        hover: true,
                        ..*old(button)
                    }
                }
            } else if old(button).hover {
                Button {
                    pos: (old(button).pos.0, (old(button).pos.1 + BUTTON_LIFT * scale) as i16),
                    hover: false,
                    ..*old(button)
                }
            } else {
                *old(button)
            },
    {
        assert(MAX_SCALE == 102);
        let s: i64 = scale as i64;
        let left: i64 = scaled(button.pos.0 as i64, s);
        let right: i64 = scaled(button.pos.0 as i64 + button.width as i64, s);
        let top: i64 = scaled(button.pos.1 as i64, s);
        let bottom: i64 = scaled(button.pos.1 as i64 + button.width as i64, s);
        if mx.0 as i64 >= left && mx.1 as i64 <= right && my.0 as i64 >= top && my.1 as i64 <= bottom {
            if !button.hover {
                button.pos = (button.pos.0, button.pos.1 - BUTTON_LIFT * scale);
                button.hover = true;
            }
        } else if button.hover {
            button.pos = (button.pos.0, button.pos.1 + BUTTON_LIFT * scale);
            button.hover = false;
        }
    }
}

/// The on-screen controls.
#[derive(Clone, Copy, Debug, PartialEq, Eq)]
pub struct Gui {
    pub play: Button,
}

} // verus!
