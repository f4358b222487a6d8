use vstd::prelude::*;

use crate::all;
use crate::grammar::{Audience, Form, Mode, Polarity, Tense};

verus! {

/// A form with each axis drawn independently at random.
pub fn form() -> Form {
    Form { tense: tense(), audience: audience(), polarity: polarity(), mode: mode() }
}

/// A random tense.
pub fn tense() -> (t: Tense)
    ensures
        t == Tense::Present || t == Tense::Past,
{
    let r = random_pick(all::tenses());
    proof {
        assert(seq![Tense::Present, Tense::Past].contains(r));
    }
    r
}

/// A random register.
pub fn audience() -> (a: Audience)
    ensures
        a == Audience::Plain || a == Audience::Polite,
{
    let r = random_pick(all::audiences());
    proof {
        assert(seq![Audience::Plain, Audience::Polite].contains(r));
    }
    r
}

/// A random mode.
pub fn mode() -> (m: Mode)
    ensures
        m == Mode::Immediate || m == Mode::Potential,
{
    let r = random_pick(all::modes());
    proof {
        assert(seq![Mode::Immediate, Mode::Potential].contains(r));
    }
    r
}

/// A random polarity.
pub fn polarity() -> (p: Polarity)
    ensures
        p == Polarity::Affirmative || p == Polarity::Negative,
{
    let r = random_pick(all::polarities());
    proof {
        assert(seq![Polarity::Affirmative, Polarity::Negative].contains(r));
    }
    r
}

/// One element of `options`, chosen by a random byte reduced modulo the
/// length. The byte is unconstrained, so all that holds of the result is
/// membership.
fn random_pick<T: Copy>(options: Vec<T>) -> (r: T)
    requires
        options@.len() > 0,
    ensures
        options@.contains(r),
{
    let index: usize = (random_u8() as usize) % options.len();
    let r = options[index];
    proof {
        assert(options@[index as int] == r);
    }
    r
}

/// Relies on getrandom::getrandom: fills the buffer from the system entropy
/// source, or returns an error when that source is unavailable, in which case
/// this call aborts. Nothing is promised of the byte's value.
#[verifier::external_body]
fn random_u8() -> u8 {
    let mut buffer = [0u8; 1];
    getrandom::getrandom(&mut buffer).expect("Random number is required");
    buffer[0]
}

} // verus!
