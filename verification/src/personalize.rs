//! The visitor's personalized value shown on the home page: an adverb, an
//! adjective and a noun drawn at random and joined into one word.

use vstd::prelude::*;

verus! {

pub const ADVERB_COUNT: usize = 6;

pub const ADJECTIVE_COUNT: usize = 6;

pub const NOUN_COUNT: usize = 7;

/// The adverb at position `i` of the fixed list.
pub open spec fn adverb_text(i: int) -> Seq<char> {
    if i == 0 {
        "Very"@
    } else if i == 1 {
        "Oddly"@
    } else if i == 2 {
        "Unreasonably"@
    } else if i == 3 {
        "Questionably"@
    } else if i == 4 {
        "Suspiciously"@
    } else {
        "Quirky"@
    }
}

/// The adjective at position `i` of the fixed list.
pub open spec fn adjective_text(i: int) -> Seq<char> {
    if i == 0 {
        "Green"@
    } else if i == 1 {
        "Blue"@
    } else if i == 2 {
        "Clever"@
    } else if i == 3 {
        "Stunted"@
    } else if i == 4 {
        "Weak-Armed"@
    } else {
        "TriggerHappy"@
    }
}

/// The noun at position `i` of the fixed list.
pub open spec fn noun_text(i: int) -> Seq<char> {
    if i == 0 {
        "Monkey"@
    } else if i == 1 {
        "Kangaroo"@
    } else if i == 2 {
        "Velociraptor"@
    } else if i == 3 {
        "Carrot"@
    } else if i == 4 {
        "Caveman"@
    } else if i == 5 {
        "CakeEater"@
    } else {
        "DoubleDipper"@
    }
}

pub fn adverb(i: usize) -> (r: &'static str)
    requires
        i < ADVERB_COUNT,
    ensures
        r@ == adverb_text(i as int),
{
    match i {
        0 => "Very",
        1 => "Oddly",
        2 => "Unreasonably",
        3 => "Questionably",
        4 => "Suspiciously",
        _ => "Quirky",
    }
}

pub fn adjective(i: usize) -> (r: &'static str)
    requires
        i < ADJECTIVE_COUNT,
    ensures
        r@ == adjective_text(i as int),
{
    match i {
        0 => "Green",
        1 => "Blue",
        2 => "Clever",
        3 => "Stunted",
        4 => "Weak-Armed",
        _ => "TriggerHappy",
    }
}

pub fn noun(i: usize) -> (r: &'static str)
    requires
        i < NOUN_COUNT,
    ensures
        r@ == noun_text(i as int),
{
    match i {
        0 => "Monkey",
        1 => "Kangaroo",
        2 => "Velociraptor",
        3 => "Carrot",
        4 => "Caveman",
        5 => "CakeEater",
        _ => "DoubleDipper",
    }
}

/// Relies on `rand::random_range` over the thread's generator: a value drawn
/// from the range handed to it, here `0..n`, which is nonempty.
#[verifier::external_body]
fn random_below(n: usize) -> (r: usize)
    requires
        0 < n,
    ensures
        r < n,
{
    rand::random_range(0..n)
}

/// One value drawn from the fixed word lists: some adverb, some adjective
/// and some noun, in that order, joined without a separator.
pub fn personalized_value() -> (r: String)
    ensures
        exists|i: int, j: int, k: int|
            0 <= i < ADVERB_COUNT && 0 <= j < ADJECTIVE_COUNT && 0 <= k < NOUN_COUNT && r@
                == adverb_text(i) + adjective_text(j) + noun_text(k),
{
    let i = random_below(ADVERB_COUNT);
    let j = random_below(ADJECTIVE_COUNT);
    let k = random_below(NOUN_COUNT);
    let mut value = adverb(i).to_owned();
    value.append(adjective(j));
    value.append(noun(k));
    proof {
        assert(value@ == adverb_text(i as int) + adjective_text(j as int) + noun_text(k as int));
    }
    value
}

} // verus!
