//! Uniform-random choice over a finite candidate set.

use vstd::prelude::*;

use crate::cozy_helper::{available_moves, legal_of};
use crate::moves::Mv;
use cozy_chess::Board;
use rand::Rng;

verus! {

/// Relies on `rand`'s `thread_rng` and `gen_range`: a number drawn
/// uniformly from `0..max`. The range must be nonempty; `gen_range`
/// panics on an empty one.
#[verifier::external_body]
pub fn rand_num(max: usize) -> (r: usize)
    requires
        max > 0,
    ensures
        r < max,
{
    rand::thread_rng().gen_range(0..max)
}

/// Pick one element of `items` at random. Returns `None` exactly when
/// `items` is empty; otherwise the result is one of the elements.
pub fn rand_item<'l, T>(items: &'l Vec<T>) -> (r: Option<&'l T>)
    ensures
        match r {
            Some(it) => exists|i: int| 0 <= i < items@.len() && *it == items@[i],
            None => items@.len() == 0,
        },
{
    if items.is_empty() {
        None
    } else {
        Some(&items[rand_num(items.len())])
    }
}

/// Pick one legal move of `board` at random. Returns `None` exactly when
/// the position has no legal move.
pub fn random_move(board: &Board) -> (r: Option<Mv>)
    ensures
        match r {
            Some(m) => legal_of(*board).contains(m) && m.wf(),
            None => legal_of(*board).is_empty(),
        },
{
    let list = available_moves(board);
    match rand_item(&list) {
        Some(m) => {
            let mv = *m;
            proof {
                let i = choose|i: int| 0 <= i < list@.len() && mv == list@[i];
                assert(list@.contains(mv));
            }
            Some(mv)
        },
        None => None,
    }
}

} // verus!
