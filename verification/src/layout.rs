use vstd::prelude::*;

verus! {

/// A rectangle of cells of the terminal.
#[derive(Clone, Copy, Debug, PartialEq, Eq, Structural)]
pub struct Rect {
    pub x: u16,
    pub y: u16,
    pub width: u16,
    pub height: u16,
}

/// A cell of the terminal.
#[derive(Clone, Copy, Debug, PartialEq, Eq, Structural)]
pub struct Position {
    pub x: u16,
    pub y: u16,
}

/// `a + b`, and the largest 16-bit number where that is beyond it.
pub open spec fn saturating_sum(a: u16, b: u16) -> u16 {
    if a + b > u16::MAX {
        u16::MAX
    } else {
        (a + b) as u16
    }
}

/// A rectangle at a place, as wide and high as asked for, as far as its
/// right and lower edge stay within 16 bits.
pub open spec fn rect_new_model(x: u16, y: u16, width: u16, height: u16) -> Rect {
    Rect {
        x,
        y,
        width: if width > u16::MAX - x {
            (u16::MAX - x) as u16
        } else {
            width
        },
        height: if height > u16::MAX - y {
            (u16::MAX - y) as u16
        } else {
            height
        },
    }
}

/// The rectangle that is left inside another when a margin is taken off on
/// each side; where the margins do not fit, the rectangle without any cell
/// at the terminal's first cell.
pub open spec fn rect_inner_model(area: Rect, horizontal: u16, vertical: u16) -> Rect {
    let across = saturating_sum(horizontal, horizontal);
    let down = saturating_sum(vertical, vertical);
    if area.width < across || area.height < down {
        Rect { x: 0, y: 0, width: 0, height: 0 }
    } else {
        Rect {
            x: saturating_sum(area.x, horizontal),
            y: saturating_sum(area.y, vertical),
            width: (area.width - across) as u16,
            height: (area.height - down) as u16,
        }
    }
}

/// Makes a rectangle with `ratatui::layout::Rect::new`. Trusted: width and
/// height are cut so that the right and lower edge stay within 16 bits, as
/// `rect_new_model` says.
#[verifier::external_body]
pub(crate) fn rect_new(x: u16, y: u16, width: u16, height: u16) -> (r: Rect)
    ensures
        r == rect_new_model(x, y, width, height),
{
    let made = ratatui::layout::Rect::new(x, y, width, height);
    Rect { x: made.x, y: made.y, width: made.width, height: made.height }
}

/// Takes a margin off a rectangle with `ratatui::layout::Rect::inner`.
/// Trusted: the result is as `rect_inner_model` says.
#[verifier::external_body]
pub(crate) fn rect_inner(area: Rect, horizontal: u16, vertical: u16) -> (r: Rect)
    ensures
        r == rect_inner_model(area, horizontal, vertical),
{
    let outer = ratatui::layout::Rect {
        x: area.x,
        y: area.y,
        width: area.width,
        height: area.height,
    };
    let inner = outer.inner(ratatui::layout::Margin { horizontal, vertical });
    Rect { x: inner.x, y: inner.y, width: inner.width, height: inner.height }
}

} // verus!
