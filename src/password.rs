//! The password generator: independent uniform draws from a character pool.
use vstd::prelude::*;
use rand::rngs::ThreadRng;
use crate::random::draw_below;
use crate::text::push_char;

verus! {

/// The characters of `pool` at the given positions, in order.
pub open spec fn picks(pool: Seq<char>, draws: Seq<usize>) -> Seq<char> {
    Seq::new(draws.len(), |i: int| pool[draws[i] as int])
}

/// The number of characters that a length setting asks for: none when negative.
pub open spec fn draw_count(length: int) -> int {
    if length < 0 { 0 } else { length }
}

/// Builds a password from drawn positions: character `i` is `chars[draws[i]]`.
pub fn pwd_from_draws(draws: &Vec<usize>, chars: &str) -> (r: String)
    requires
        forall|i: int| 0 <= i < draws@.len() ==> #[trigger] draws@[i] < chars@.len(),
    ensures
        r@ == picks(chars@, draws@),
{
    let mut password = String::new();
    for k in 0..draws.len()
        invariant
            forall|i: int| 0 <= i < draws@.len() ==> #[trigger] draws@[i] < chars@.len(),
            password@ == picks(chars@, draws@.subrange(0, k as int)),
    {
        let c = chars.get_char(draws[k]);
        push_char(&mut password, c);
        assert(password@ =~= picks(chars@, draws@.subrange(0, k + 1)));
    }
    assert(draws@ =~= draws@.subrange(0, draws@.len() as int));
    password
}

/// Draws `length` positions uniformly from `0..bound`, none when `length` is
/// not positive.
pub fn draw_positions(rng: &mut ThreadRng, length: isize, bound: usize) -> (r: Vec<usize>)
    requires
        length > 0 ==> bound > 0,
    ensures
        r@.len() == draw_count(length as int),
        forall|i: int| 0 <= i < r@.len() ==> #[trigger] r@[i] < bound,
{
    let mut draws: Vec<usize> = Vec::new();
    if length <= 0 {
        return draws;
    }
    let n = length as usize;
    for k in 0..n
        invariant
            bound > 0,
            draws@.len() == k,
            forall|i: int| 0 <= i < draws@.len() ==> #[trigger] draws@[i] < bound,
    {
        let d = draw_below(rng, bound);
        draws.push(d);
    }
    draws
}

/// Generates a password of `length` characters (none when `length` is not
/// positive), each drawn independently and uniformly from `chars`.
pub fn pwd_gen(rng: &mut ThreadRng, length: isize, chars: String) -> (r: String)
    requires
        length > 0 ==> chars@.len() > 0,
    ensures
        r@.len() == draw_count(length as int),
        forall|i: int| 0 <= i < r@.len() ==> chars@.contains(#[trigger] r@[i]),
{
    let char_range = chars.as_str().unicode_len();
    let draws = draw_positions(rng, length, char_range);
    let password = pwd_from_draws(&draws, chars.as_str());
    assert forall|i: int| 0 <= i < password@.len() implies chars@.contains(#[trigger] password@[i]) by {
        assert(chars@[draws@[i] as int] == password@[i]);
    }
    password
}

} // verus!
