//! Wrap-around indexing for the focus stack.
//!
//! A focus stack is an ordered list of views, last position = most recently
//! focused (the top).  `topmost_position` selects the view `offset` steps
//! below the top, wrapping around modulo the stack size, so an increasing
//! offset cycles focus through every view.

use vstd::prelude::*;
use vstd::arithmetic::div_mod::lemma_mod_multiples_vanish;
use vstd::arithmetic::div_mod::lemma_small_mod;

verus! {

/// The position that `topmost(offset)` selects in a stack of `len` views:
/// `(len - 1 + offset) mod len`, counting positions from the bottom.
pub open spec fn top_index(len: nat, offset: nat) -> int
    recommends
        len > 0,
{
    (len - 1 + offset) % (len as int)
}

/// Selects the stack position of `topmost(offset)`, or `None` on an empty
/// stack.  `offset = 0` yields the top (the last position).
pub fn topmost_position(len: usize, offset: usize) -> (r: Option<usize>)
    requires
        len == 0 || offset <= usize::MAX - (len - 1),
    ensures
        len == 0 <==> r is None,
        len > 0 ==> r == Some((top_index(len as nat, offset as nat) as usize)),
        len > 0 ==> r->Some_0 < len,
{
    if len == 0 {
        None
    } else {
        Some((len - 1 + offset) % len)
    }
}

/// Wrap-around laws of the stack indexing: offset `0` selects the last
/// position, offset `len` wraps around to the same position, and offset
/// `len - 1` selects the second-to-last position when the stack holds at
/// least two views.
pub proof fn lemma_top_index_wraparound(len: nat)
    requires
        len > 0,
    ensures
        top_index(len, 0) == len - 1,
        top_index(len, len) == top_index(len, 0),
        len >= 2 ==> top_index(len, (len - 1) as nat) == len - 2,
{
    lemma_small_mod((len - 1) as nat, len);
    lemma_mod_multiples_vanish(1, len - 1, len as int);
    if len >= 2 {
        lemma_mod_multiples_vanish(1, len - 2, len as int);
        lemma_small_mod((len - 2) as nat, len);
    }
}

} // verus!
