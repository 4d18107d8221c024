//! The built-in sprite shapes: the player's ship, the life marker, the two
//! animation frames of each fleet unit kind, and the bonus unit.

use vstd::prelude::*;

use crate::sprite::grid_h;
use crate::sprite::grid_w;
use crate::sprite::grid_wf;

verus! {

/// The player's ship, five cells square.
pub fn spaceship_sprite() -> (r: Vec<Vec<i32>>)
    ensures
        grid_wf(r@),
        grid_w(r@) == 5,
        grid_h(r@) == 5,
{
    vec![
        vec![0, 0, 1, 0, 0],
        vec![0, 1, 1, 1, 0],
        vec![1, 1, 1, 1, 1],
        vec![1, 1, 0, 1, 1],
        vec![1, 0, 0, 0, 1],
    ]
}

/// The life marker drawn beside the score, five cells square.
pub fn hearts_sprite() -> (r: Vec<Vec<i32>>)
    ensures
        grid_wf(r@),
        grid_w(r@) == 5,
        grid_h(r@) == 5,
{
    vec![
        vec![0, 1, 0, 1, 0],
        vec![1, 1, 1, 1, 1],
        vec![1, 1, 1, 1, 1],
        vec![0, 1, 1, 1, 0],
        vec![0, 0, 1, 0, 0],
    ]
}

/// First frame of the first fleet unit kind, seven cells by six.
pub fn alien_1_a_sprite() -> (r: Vec<Vec<i32>>)
    ensures
        grid_wf(r@),
        grid_w(r@) == 7,
        grid_h(r@) == 6,
{
    vec![
        vec![1, 1, 0, 0, 0, 1, 1],
        vec![0, 1, 1, 1, 1, 1, 0],
        vec![0, 1, 0, 0, 0, 1, 0],
        vec![1, 0, 0, 0, 0, 0, 1],
        vec![1, 0, 0, 0, 0, 0, 1],
        vec![0, 1, 0, 0, 0, 1, 0],
    ]
}

/// Second frame of the first fleet unit kind, seven cells by six.
pub fn alien_1_b_sprite() -> (r: Vec<Vec<i32>>)
    ensures
        grid_wf(r@),
        grid_w(r@) == 7,
        grid_h(r@) == 6,
{
    vec![
        vec![0, 1, 0, 0, 0, 1, 0],
        vec![1, 1, 1, 1, 1, 1, 1],
        vec![1, 1, 0, 0, 0, 1, 1],
        vec![0, 1, 1, 0, 1, 1, 0],
        vec![0, 1, 0, 1, 0, 1, 0],
        vec![1, 0, 0, 1, 0, 0, 1],
    ]
}

/// First frame of the second fleet unit kind, seven cells by six.
pub fn alien_2_a_sprite() -> (r: Vec<Vec<i32>>)
    ensures
        grid_wf(r@),
        grid_w(r@) == 7,
        grid_h(r@) == 6,
{
    vec![
        vec![1, 1, 0, 1, 0, 1, 1],
        vec![1, 1, 1, 1, 1, 1, 1],
        vec![1, 1, 1, 0, 1, 1, 1],
        vec![0, 1, 0, 0, 0, 1, 0],
        vec![0, 1, 0, 0, 0, 1, 0],
        vec![0, 0, 1, 0, 1, 0, 0],
    ]
}

/// Second frame of the second fleet unit kind, seven cells by six.
pub fn alien_2_b_sprite() -> (r: Vec<Vec<i32>>)
    ensures
        grid_wf(r@),
        grid_w(r@) == 7,
        grid_h(r@) == 6,
{
    vec![
        vec![1, 1, 0, 1, 0, 1, 1],
        vec![1, 1, 1, 1, 1, 1, 1],
        vec![1, 0, 1, 1, 1, 0, 1],
        vec![0, 1, 0, 1, 0, 1, 0],
        vec![0, 1, 0, 0, 0, 1, 0],
        vec![0, 1, 1, 0, 1, 1, 0],
    ]
}

/// The bonus ("mothership") unit, twelve cells by seven.
pub fn mothership_sprite() -> (r: Vec<Vec<i32>>)
    ensures
        grid_wf(r@),
        grid_w(r@) == 12,
        grid_h(r@) == 7,
{
    vec![
        vec![0, 0, 0, 1, 1, 1, 1, 1, 1, 0, 0, 0],
        vec![0, 1, 1, 1, 1, 1, 1, 1, 1, 1, 1, 0],
        vec![1, 1, 1, 1, 1, 1, 1, 1, 1, 1, 1, 1],
        vec![1, 1, 0, 1, 0, 1, 1, 0, 1, 0, 1, 1],
        vec![1, 1, 1, 1, 1, 1, 1, 1, 1, 1, 1, 1],
        vec![0, 1, 1, 1, 0, 1, 1, 0, 1, 1, 1, 0],
        vec![0, 0, 1, 0, 0, 0, 0, 0, 0, 1, 0, 0],
    ]
}

} // verus!
