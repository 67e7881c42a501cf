//! Custom IDs: the strings by which a reply finds the code that waits for it.

use rand::seq::SliceRandom;
use rand::thread_rng;
use vstd::prelude::*;

verus! {

/// How many random characters a generated custom ID ends in.
pub const CUSTOM_ID_LEN: usize = 6;

/// The characters that the random part of a custom ID is drawn from.
pub const CUSTOM_ID_CHARS: [char; 62] = [
    'a', 'b', 'c', 'd', 'e', 'f', 'g', 'h', 'i', 'j', 'k', 'l', 'm', 'n', 'o', 'p', 'q', 'r', 's',
    't', 'u', 'v', 'w', 'x', 'y', 'z', 'A', 'B', 'C', 'D', 'E', 'F', 'G', 'H', 'I', 'J', 'K', 'L',
    'M', 'N', 'O', 'P', 'Q', 'R', 'S', 'T', 'U', 'V', 'W', 'X', 'Y', 'Z', '0', '1', '2', '3', '4',
    '5', '6', '7', '8', '9',
];

/// An ASCII letter or digit.
pub open spec fn is_custom_id_char(c: char) -> bool {
    ||| 'a' as int <= c as int <= 'z' as int
    ||| 'A' as int <= c as int <= 'Z' as int
    ||| '0' as int <= c as int <= '9' as int
}

/// `picked` holds items of `from`, each from a place of its own.
pub open spec fn is_sample(from: Seq<char>, picked: Seq<char>) -> bool {
    exists|places: Seq<int>| #[trigger] is_sample_at(from, picked, places)
}

/// Item `i` of `picked` is the one at `places[i]` in `from`, and no place is used twice.
pub open spec fn is_sample_at(from: Seq<char>, picked: Seq<char>, places: Seq<int>) -> bool {
    &&& places.len() == picked.len()
    &&& places.no_duplicates()
    &&& forall|i: int|
        0 <= i < picked.len() ==> 0 <= #[trigger] places[i] < from.len() && picked[i]
            == from[places[i]]
}

/// Calls `rand`'s `SliceRandom::choose_multiple` with the generator of
/// `rand::thread_rng` and copies the chosen items out.
///
/// Believed of it: it picks `amount` items, or all of them where there are fewer, each
/// from a place of its own. Which items, and in what order, is left to chance. Nothing is
/// said of a system that has no randomness to offer, on which the generator panics.
#[verifier::external_body]
fn choose_multiple(from: &[char], amount: usize) -> (picked: Vec<char>)
    ensures
        picked@.len() == (if amount <= from@.len() { amount as nat } else { from@.len() }),
        is_sample(from@, picked@),
{
    from.choose_multiple(&mut thread_rng(), amount).cloned().collect()
}

/// `std`'s `String::push`: it appends one character.
pub assume_specification[ String::push ](s: &mut String, c: char)
    ensures
        final(s)@ == old(s)@.push(c),
;

/// The custom ID made of a context, a dash and some characters.
pub open spec fn custom_id(ctx: Seq<char>, picked: Seq<char>) -> Seq<char> {
    ctx + seq!['-'] + picked
}

/// The random part of a generated custom ID: letters and digits, none of them twice.
pub open spec fn is_random_part(picked: Seq<char>) -> bool {
    &&& picked.len() == CUSTOM_ID_LEN
    &&& picked.no_duplicates()
    &&& forall|i: int| 0 <= i < picked.len() ==> is_custom_id_char(#[trigger] picked[i])
}

/// `id` is a custom ID that may be generated for the context `ctx`.
pub open spec fn is_custom_id(ctx: Seq<char>, id: Seq<char>) -> bool {
    &&& id.len() == ctx.len() + 1 + CUSTOM_ID_LEN
    &&& is_random_part(id.skip(ctx.len() as int + 1))
    &&& id == custom_id(ctx, id.skip(ctx.len() as int + 1))
}

/// Puts the context and the chosen characters together.
pub fn custom_id_from(ctx: &str, picked: &[char]) -> (id: String)
    ensures
        id@ == custom_id(ctx@, picked@),
        id@ == ctx@ + seq!['-'] + picked@,
{
    let mut id = ctx.to_owned();
    id.push('-');
    let mut i: usize = 0;
    while i < picked.len()
        invariant
            i <= picked.len(),
            id@ == custom_id(ctx@, picked@.take(i as int)),
        decreases picked.len() - i,
    {
        id.push(picked[i]);
        proof {
            assert(picked@.take(i + 1) =~= picked@.take(i as int).push(picked@[i as int]));
        }
        i += 1;
    }
    proof {
        assert(picked@.take(i as int) =~= picked@);
    }
    id
}

proof fn lemma_sample_of_chars(picked: Seq<char>)
    requires
        picked.len() == CUSTOM_ID_LEN,
        is_sample(CUSTOM_ID_CHARS@, picked),
    ensures
        is_random_part(picked),
{
    let places = choose|places: Seq<int>| #[trigger] is_sample_at(CUSTOM_ID_CHARS@, picked, places);
    let chars = CUSTOM_ID_CHARS@;
    assert(chars.len() == 62);
    assert(forall|i: int| 0 <= i < 26 ==> #[trigger] chars[i] as int == 'a' as int + i);
    assert(forall|i: int| 26 <= i < 52 ==> #[trigger] chars[i] as int == 'A' as int + i - 26);
    assert(forall|i: int| 52 <= i < 62 ==> #[trigger] chars[i] as int == '0' as int + i - 52);
    assert forall|i: int, j: int|
        0 <= i < picked.len() && 0 <= j < picked.len() && i != j implies picked[i] != picked[j] by {
        assert(places[i] != places[j]);
    }
    assert forall|i: int| 0 <= i < picked.len() implies is_custom_id_char(#[trigger] picked[i]) by {
        assert(picked[i] == chars[places[i]]);
    }
}

/// A fresh custom ID for the context `ctx`: the context, a dash and random characters.
pub fn build_custom_id(ctx: &str) -> (id: String)
    ensures
        is_custom_id(ctx@, id@),
        (ctx@ + seq!['-']).is_prefix_of(id@),
        id@.len() == ctx@.len() + 1 + CUSTOM_ID_LEN,
{
    let chars = CUSTOM_ID_CHARS;
    let picked = choose_multiple(chars.as_slice(), CUSTOM_ID_LEN);
    let id = custom_id_from(ctx, picked.as_slice());
    proof {
        lemma_sample_of_chars(picked@);
        assert(id@.skip(ctx@.len() as int + 1) =~= picked@);
    }
    id
}

/// What stands before the first colon of a custom ID: the name of the listener it is
/// meant for. All of it where there is no colon.
pub open spec fn module_of(id: Seq<char>) -> Seq<char> {
    match id.index_of_first(':') {
        Some(i) => id.take(i),
        None => id,
    }
}

/// What stands behind the first colon of a custom ID. Nothing where there is no colon.
pub open spec fn arg_of(id: Seq<char>) -> Seq<char> {
    match id.index_of_first(':') {
        Some(i) => id.skip(i + 1),
        None => Seq::empty(),
    }
}

/// Splits a custom ID at its first colon.
pub fn split_custom_id(id: &str) -> (parts: (String, String))
    ensures
        parts.0@ == module_of(id@),
        parts.1@ == arg_of(id@),
        !parts.0@.contains(':'),
        !id@.contains(':') ==> parts.0@ == id@ && parts.1@.len() == 0,
        id@.contains(':') ==> id@ == parts.0@ + seq![':'] + parts.1@,
{
    let len = id.unicode_len();
    let mut colon: Option<usize> = None;
    let mut at: usize = 0;
    for c in it: id.chars()
        invariant
            len == id@.len(),
            it.seq() == id@,
            at == it.index(),
            match colon {
                Some(i) => i < at && id@[i as int] == ':' && forall|j: int| 0 <= j < i ==> id@[j] != ':',
                None => forall|j: int| 0 <= j < at ==> id@[j] != ':',
            },
    {
        if colon.is_none() && c == ':' {
            colon = Some(at);
        }
        at += 1;
    }
    proof {
        id@.index_of_first_ensures(':');
    }
    match colon {
        Some(i) => (
            id.substring_char(0, i).to_owned(),
            id.substring_char(i + 1, len).to_owned(),
        ),
        None => (id.to_owned(), String::new()),
    }
}

} // verus!
