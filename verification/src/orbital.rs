//! Kinds of bodies of an orbital system.

use rand::Rng;
use vstd::prelude::*;

verus! {

/// Kind of a body.
#[derive(Debug, PartialEq, Eq, Copy, Clone, Structural)]
pub enum Kind {
    Artificial,
    Terrestrial,
    Giant,
    Star,
    Hole,
}

/// Kind of a body drawn at random from its index in the draw.
pub open spec fn kind_of_draw(n: int) -> Kind {
    if n == 1 {
        Kind::Terrestrial
    } else if n == 2 {
        Kind::Giant
    } else if n == 3 {
        Kind::Star
    } else if n == 4 {
        Kind::Hole
    } else {
        Kind::Artificial
    }
}

/// A number drawn uniformly in `0..bound` by the thread's random generator
/// (`rand::thread_rng().gen_range(0, bound)`); `gen_range` panics when the
/// range is empty.
#[verifier::external_body]
fn random_below(bound: u32) -> (n: u32)
    requires
        bound > 0,
    ensures
        n < bound,
{
    rand::thread_rng().gen_range(0, bound)
}

impl Kind {
    /// The kind of a number drawn, as `random` maps it.
    pub fn from_draw(n: u32) -> (k: Kind)
        ensures
            k == kind_of_draw(n as int),
    {
        match n {
            1 => Kind::Terrestrial,
            2 => Kind::Giant,
            3 => Kind::Star,
            4 => Kind::Hole,
            _ => Kind::Artificial,
        }
    }

    /// A kind drawn at random among the four first; the draw excludes its
    /// upper bound, so a hole is never drawn.
    pub fn random() -> (k: Kind)
        ensures
            k != Kind::Hole,
            exists|n: int| 0 <= n < 4 && k == kind_of_draw(n),
    {
        let n = random_below(4);
        Kind::from_draw(n)
    }
}

} // verus!
