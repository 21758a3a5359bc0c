//! Opaque tokens: fixed-length strings whose symbols are drawn uniformly from
//! a fixed alphabet.

use vstd::prelude::*;
use crate::rng::{gen_index, thread_rng};
use crate::text::push_char;

verus! {

/// Number of symbols in a session token.
pub const TOKEN_LENGTH: usize = 64;

/// Number of symbols in a pending-registration code.
pub const PENDING_CODE_LENGTH: usize = 10;

/// The 62 symbols a session token is drawn from.
pub open spec fn token_alphabet() -> Seq<char> {
    "ABCDEFGHIJKLMNOPQRSTUVWXYZabcdefghijklmnopqrstuvwxyz0123456789"@
}

/// The 73 symbols a pending-registration code is drawn from.
pub open spec fn pending_code_alphabet() -> Seq<char> {
    "ABCDEFGHIJKLMNOPQRSTUVWXYZabcdefghijklmnopqrstuvwxyz0123456789)(*&^%$#@!~"@
}

/// `text` has exactly `length` symbols and each of them occurs in `alphabet`.
pub open spec fn drawn_from(text: Seq<char>, alphabet: Seq<char>, length: nat) -> bool {
    &&& text.len() == length
    &&& forall|i: int| 0 <= i < text.len() ==> alphabet.contains(#[trigger] text[i])
}

/// The text that spells out `indices` in `alphabet`.
pub open spec fn spelled(alphabet: Seq<char>, indices: Seq<usize>) -> Seq<char> {
    Seq::new(indices.len(), |i: int| alphabet[indices[i] as int])
}

/// `text` is a well-formed session token.
pub open spec fn is_token(text: Seq<char>) -> bool {
    drawn_from(text, token_alphabet(), TOKEN_LENGTH as nat)
}

/// `text` is a well-formed pending-registration code.
pub open spec fn is_pending_code(text: Seq<char>) -> bool {
    drawn_from(text, pending_code_alphabet(), PENDING_CODE_LENGTH as nat)
}

/// Tokens exist: the symbol `A`, 64 times, is one.
pub proof fn lemma_token_exists()
    ensures
        exists|text: Seq<char>| is_token(text),
{
    reveal_strlit("ABCDEFGHIJKLMNOPQRSTUVWXYZabcdefghijklmnopqrstuvwxyz0123456789");
    let text = Seq::new(TOKEN_LENGTH as nat, |i: int| 'A');
    assert(token_alphabet()[0] == 'A');
    assert(is_token(text));
}

/// Spells out `indices` in `alphabet`, one symbol per index.
pub fn spell(alphabet: &str, indices: &Vec<usize>) -> (text: String)
    requires
        forall|i: int| 0 <= i < indices@.len() ==> (#[trigger] indices@[i]) < alphabet@.len(),
    ensures
        text@ == spelled(alphabet@, indices@),
        drawn_from(text@, alphabet@, indices@.len()),
{
    let mut text = String::new();
    let mut i: usize = 0;
    while i < indices.len()
        invariant
            i <= indices@.len(),
            forall|j: int| 0 <= j < indices@.len() ==> (#[trigger] indices@[j]) < alphabet@.len(),
            text@ == spelled(alphabet@, indices@.take(i as int)),
        decreases indices@.len() - i,
    {
        let symbol = alphabet.get_char(indices[i]);
        push_char(&mut text, symbol);
        proof {
            assert(indices@.take(i + 1) == indices@.take(i as int).push(indices@[i as int]));
            assert(text@ =~= spelled(alphabet@, indices@.take(i + 1)));
        }
        i = i + 1;
    }
    proof {
        assert(indices@.take(i as int) == indices@);
        assert forall|k: int| 0 <= k < text@.len() implies alphabet@.contains(#[trigger] text@[k]) by {
            assert(alphabet@[indices@[k] as int] == text@[k]);
        }
    }
    text
}

/// Draws `count` indices below `bound` from the thread-local generator.
pub fn draw_indices(count: usize, bound: usize) -> (indices: Vec<usize>)
    requires
        bound > 0,
    ensures
        indices@.len() == count,
        forall|i: int| 0 <= i < indices@.len() ==> (#[trigger] indices@[i]) < bound,
{
    let mut rng = thread_rng();
    let mut indices: Vec<usize> = Vec::new();
    let mut i: usize = 0;
    while i < count
        invariant
            bound > 0,
            i <= count,
            indices@.len() == i,
            forall|j: int| 0 <= j < indices@.len() ==> (#[trigger] indices@[j]) < bound,
        decreases count - i,
    {
        let index = gen_index(&mut rng, bound);
        indices.push(index);
        i = i + 1;
    }
    indices
}

/// A fresh session token: 64 symbols, each drawn from the 62 upper-case,
/// lower-case and digit symbols.
pub fn create_token() -> (token: String)
    ensures
        is_token(token@),
{
    let alphabet = "ABCDEFGHIJKLMNOPQRSTUVWXYZabcdefghijklmnopqrstuvwxyz0123456789";
    proof {
        reveal_strlit("ABCDEFGHIJKLMNOPQRSTUVWXYZabcdefghijklmnopqrstuvwxyz0123456789");
    }
    let indices = draw_indices(TOKEN_LENGTH, 62);
    spell(alphabet, &indices)
}

/// A fresh pending-registration code: 10 symbols, each drawn from the 73
/// symbols of the code alphabet.
pub fn generate_pending_code() -> (code: String)
    ensures
        is_pending_code(code@),
{
    let alphabet = "ABCDEFGHIJKLMNOPQRSTUVWXYZabcdefghijklmnopqrstuvwxyz0123456789)(*&^%$#@!~";
    proof {
        reveal_strlit("ABCDEFGHIJKLMNOPQRSTUVWXYZabcdefghijklmnopqrstuvwxyz0123456789)(*&^%$#@!~");
    }
    let indices = draw_indices(PENDING_CODE_LENGTH, 73);
    spell(alphabet, &indices)
}

} // verus!
