//! The ball's random direction: a fair coin per axis.
use vstd::prelude::*;
use crate::geometry::{Vector2, MAX_SPEED};

verus! {

/// `magnitude` with the sign chosen by `positive`.
pub open spec fn oriented(magnitude: int, positive: bool) -> int {
    if positive {
        magnitude
    } else {
        -magnitude
    }
}

/// Relies on `rand::random::<bool>` (the thread-local generator, `Standard`
/// distribution): a coin flip, of which nothing is promised.
#[verifier::external_body]
fn flip_coin() -> bool {
    rand::random::<bool>()
}

/// Sets `vec` to `(±x, ±y)`, each sign given by its coin.
pub fn orient_vec(vec: &mut Vector2, x: i64, y: i64, x_positive: bool, y_positive: bool)
    requires
        0 <= x <= MAX_SPEED,
        0 <= y <= MAX_SPEED,
    ensures
        final(vec).x == oriented(x as int, x_positive),
        final(vec).y == oriented(y as int, y_positive),
        final(vec).bounded(),
{
    vec.x = if x_positive {
        x
    } else {
        -x
    };
    vec.y = if y_positive {
        y
    } else {
        -y
    };
}

/// Sets `vec` to `(±x, ±y)`, each sign drawn by an independent fair coin.
pub fn randomize_vec(vec: &mut Vector2, x: i64, y: i64)
    requires
        0 <= x <= MAX_SPEED,
        0 <= y <= MAX_SPEED,
    ensures
        final(vec).x == x || final(vec).x == -x,
        final(vec).y == y || final(vec).y == -y,
        final(vec).bounded(),
{
    let x_positive = flip_coin();
    let y_positive = flip_coin();
    orient_vec(vec, x, y, x_positive, y_positive);
}

} // verus!
