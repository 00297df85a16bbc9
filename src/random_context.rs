use vstd::prelude::*;

verus! {

/// What fastrand's generator, seeded with `state`, draws from `min..max`, and its state after
/// the draw.
pub uninterp spec fn rng_draw_i32(state: u64, min: i32, max: i32) -> (i32, u64);

/// Relies on fastrand's `Rng::with_seed`, `Rng::i32` and `Rng::get_seed`: a generator is its
/// 64-bit state, and `i32(min..max)` returns a value in `min..max` (it panics on an empty
/// range, which `requires` leaves out).
#[verifier::external_body]
fn draw_i32(state: u64, min: i32, max: i32) -> (r: (i32, u64))
    requires
        min < max,
    ensures
        r == rng_draw_i32(state, min, max),
        min <= r.0 < max,
{
    let mut rng = fastrand::Rng::with_seed(state);
    let v = rng.i32(min..max);
    (v, rng.get_seed())
}

/// The generator shared by one program's random calls. Its whole state is one 64-bit
/// word, so it can be saved and restored with a snapshot.
#[derive(Debug, Clone, Copy, PartialEq, Eq, Structural)]
pub struct RandomContext {
    pub state: u64,
}

impl RandomContext {
    pub fn new(shared_seed: u64) -> (r: RandomContext)
        ensures
            r.state == shared_seed,
    {
        RandomContext { state: shared_seed }
    }

    /// Reseeds the generator; the same seed always gives the same sequence.
    pub fn set_seed(&mut self, seed: i64)
        ensures
            final(self).state == seed as u64,
    {
        self.state = seed as u64;
    }

    /// A value in `min..max` drawn from the current state, or `None`, with the state
    /// untouched, when the range is empty.
    pub fn random_int_range(&mut self, min: i32, max: i32) -> (r: Option<i32>)
        ensures
            min >= max ==> r is None && final(self).state == old(self).state,
            min < max ==> r == Some(rng_draw_i32(old(self).state, min, max).0)
                && final(self).state == rng_draw_i32(old(self).state, min, max).1,
            r matches Some(v) ==> min <= v < max,
    {
        if min >= max {
            return None;
        }
        let (v, next) = draw_i32(self.state, min, max);
        self.state = next;
        Some(v)
    }
}

} // verus!
