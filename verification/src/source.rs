//! Where the digits of a generated identifier come from.

use crate::digit::{all_digits, Digit};
use rand::distributions::Uniform;
use rand::rngs::ThreadRng;
use rand::Rng;
use vstd::prelude::*;

verus! {

/// A supply of decimal digits.
pub trait DigitSource {
    /// The digits that the source is known to yield next, in order. A source
    /// of chance foresees none.
    spec fn foreseen(&self) -> Seq<Digit>;

    /// The next digit. It is the first of the foreseen digits where there is
    /// one, and the rest stay foreseen as long as any are left.
    fn next_digit(&mut self) -> (d: Digit)
        ensures
            d <= 9,
            old(self).foreseen().len() > 0 ==> d == old(self).foreseen()[0],
            old(self).foreseen().len() > 1 ==> final(self).foreseen() == old(
                self,
            ).foreseen().drop_first(),
    ;
}

/// `rand::rngs::ThreadRng`, the handle to the generator that each thread
/// seeds from the operating system. Nothing is known of its state.
#[verifier::external_type_specification]
#[verifier::external_body]
pub struct ExThreadRng(ThreadRng);

/// `rand::thread_rng` hands out the calling thread's generator. Nothing is
/// claimed of it. The first call in a thread seeds the generator and panics
/// where the operating system gives no seed; a later reseed that fails is
/// passed over.
pub assume_specification[ rand::thread_rng ]() -> (rng: ThreadRng)
;

/// Draws one value with `Rng::sample` from the distribution that
/// `Uniform::new_inclusive(low, high)` makes. The distribution panics unless
/// `low <= high`, and samples nothing outside the closed range; which value
/// of the range comes is left to chance.
#[verifier::external_body]
fn sample_between(rng: &mut ThreadRng, low: Digit, high: Digit) -> (x: Digit)
    requires
        low <= high,
    ensures
        low <= x <= high,
{
    rng.sample(Uniform::new_inclusive(low, high))
}

/// Digits drawn uniformly and independently from the thread's generator.
pub struct ThreadDigits {
    rng: ThreadRng,
}

impl ThreadDigits {
    /// A source on the calling thread's generator.
    pub fn new() -> (source: Self)
        ensures
            source.foreseen().len() == 0,
    {
        ThreadDigits { rng: rand::thread_rng() }
    }
}

impl DigitSource for ThreadDigits {
    open spec fn foreseen(&self) -> Seq<Digit> {
        Seq::empty()
    }

    fn next_digit(&mut self) -> (d: Digit) {
        sample_between(&mut self.rng, 0, 9)
    }
}

/// A fixed run of digits, yielded in order and then again from its start.
pub struct Replay {
    digits: Vec<Digit>,
    next: usize,
}

impl Replay {
    /// What holds of every `Replay`.
    #[verifier::type_invariant]
    closed spec fn wf(self) -> bool {
        self.next < self.digits.len() && all_digits(self.digits@)
    }

    /// The whole run of digits that is replayed.
    pub closed spec fn run(&self) -> Seq<Digit> {
        self.digits@
    }

    /// A source that yields `digits` over and over, unless there is none to
    /// yield or one of them is no decimal digit.
    pub fn new(digits: Vec<Digit>) -> (r: Option<Self>)
        ensures
            r is Some <==> digits@.len() > 0 && all_digits(digits@),
            r matches Some(source) ==> source.run() == digits@ && source.foreseen() == digits@,
    {
        if digits.len() == 0 {
            return None;
        }
        let mut idx: usize = 0;
        while idx < digits.len()
            invariant
                idx <= digits.len(),
                forall|i: int| 0 <= i < idx ==> digits@[i] <= 9,
            decreases digits.len() - idx,
        {
            if digits[idx] > 9 {
                return None;
            }
            idx = idx + 1;
        }
        let source = Replay { digits, next: 0 };
        assert(source.digits@.skip(0) =~= source.digits@);
        Some(source)
    }
}

impl DigitSource for Replay {
    closed spec fn foreseen(&self) -> Seq<Digit> {
        self.digits@.skip(self.next as int)
    }

    /// Foresees what is left of the run, and the whole run again once its last
    /// digit has been yielded.
    fn next_digit(&mut self) -> (d: Digit)
        ensures
            final(self).run() == old(self).run(),
            old(self).foreseen().len() > 0,
            old(self).foreseen().len() == 1 ==> final(self).foreseen() == old(self).run(),
    {
        proof {
            use_type_invariant(&*self);
        }
        let d: Digit = self.digits[self.next];
        let following: usize = self.next + 1;
        if following < self.digits.len() {
            self.next = following;
            assert(self.digits@.skip(following as int) =~= old(self).digits@.skip(
                old(self).next as int,
            ).drop_first());
        } else {
            self.next = 0;
            assert(self.digits@.skip(0) =~= self.digits@);
        }
        d
    }
}

} // verus!
