//! Horizontal position of a layer that scrolls left and wraps at its width.
use vstd::prelude::*;
use crate::geometry::trunc_rem;

verus! {

/// Where a layer at `position` stands after one frame at `speed`: the
/// remainder of `position - speed` by the layer's width, with the sign of
/// `position - speed`. A layer drawn from a negative position needs one
/// more copy of its texture to cover the screen.
pub open spec fn scrolled(position: int, speed: int, width: int) -> int {
    trunc_rem(position - speed, width)
}

/// Advances a scrolling layer by one frame.
pub fn advance(position: i64, speed: i64, width: i64) -> (next: i64)
    requires
        width > 0,
    ensures
        next == scrolled(position as int, speed as int, width as int),
        -width < next < width,
{
    let moved: i128 = position as i128 - speed as i128;
    let wrapped: i128 = moved % (width as i128);
    wrapped as i64
}

/// A layer that stays within its width is moved by exactly its speed.
pub proof fn scroll_without_wrap(position: int, speed: int, width: int)
    requires
        width > 0,
        -width < position - speed < width,
    ensures
        scrolled(position, speed, width) == position - speed,
{
    let moved = position - speed;
    if moved >= 0 {
        vstd::arithmetic::div_mod::lemma_small_mod(moved as nat, width as nat);
    } else {
        vstd::arithmetic::div_mod::lemma_small_mod((-moved) as nat, width as nat);
    }
}

/// Scrolling keeps the position congruent to `position - speed` modulo
/// the width, and strictly inside `(-width, width)`.
pub proof fn scroll_wraps_by_width(position: int, speed: int, width: int)
    requires
        width > 0,
    ensures
        (scrolled(position, speed, width) - (position - speed)) % width == 0,
        -width < scrolled(position, speed, width) < width,
{
    let moved = position - speed;
    if moved >= 0 {
        vstd::arithmetic::div_mod::lemma_fundamental_div_mod(moved, width);
        vstd::arithmetic::div_mod::lemma_mod_multiples_basic(-(moved / width), width);
        assert(moved % width - moved == width * (-(moved / width))) by (nonlinear_arith)
            requires
                moved == width * (moved / width) + moved % width,
        ;
        assert((moved % width - moved) % width == 0) by {
            vstd::arithmetic::div_mod::lemma_mod_multiples_basic(-(moved / width), width);
            assert(width * (-(moved / width)) == (-(moved / width)) * width) by (nonlinear_arith);
        }
    } else {
        let m = -moved;
        vstd::arithmetic::div_mod::lemma_fundamental_div_mod(m, width);
        assert(-(m % width) - moved == (m / width) * width) by (nonlinear_arith)
            requires
                m == width * (m / width) + m % width,
                m == -moved,
        ;
        vstd::arithmetic::div_mod::lemma_mod_multiples_basic(m / width, width);
    }
}

} // verus!
