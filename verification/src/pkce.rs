//! PKCE (RFC 7636) code verifiers: a secret the client makes up before the
//! authorization request and shows again when it exchanges the code. The
//! verifier is drawn from std's randomly keyed `RandomState` hasher.

use vstd::prelude::*;
use std::collections::hash_map::RandomState;
use std::hash::BuildHasher;

verus! {

/// Length of the verifiers made here.
pub const VERIFIER_LEN: usize = 64;

/// Characters a code verifier may hold: ASCII letters and digits, `-`, `.`,
/// `_` and `~`.
pub open spec fn verifier_char(c: char) -> bool {
    ('A' <= c && c <= 'Z') || ('a' <= c && c <= 'z') || ('0' <= c && c <= '9') || c == '-' || c == '.'
        || c == '_' || c == '~'
}

/// A well-formed code verifier: 43 to 128 allowed characters.
pub open spec fn verifier_ok(v: Seq<char>) -> bool {
    &&& 43 <= v.len() <= 128
    &&& forall|i: int| 0 <= i < v.len() ==> verifier_char(#[trigger] v[i])
}

/// `RandomState::new` makes a hasher state with fresh random keys; nothing is
/// claimed of them.
pub assume_specification[ RandomState::new ]() -> RandomState;

/// Calls `BuildHasher::hash_one` of `state` on `round`. Nothing is claimed of
/// the result: it depends on the state's random keys.
#[verifier::external_body]
fn random_hash(state: &RandomState, round: u64) -> u64 {
    state.hash_one(round)
}

/// The character numbered `d` (below 64) of the alphabet verifiers are made
/// of: capital letters, small letters, digits, `-` and `_`.
pub open spec fn alphabet_char(d: int) -> char {
    if d < 26 {
        (65 + d) as char
    } else if d < 52 {
        (97 + d - 26) as char
    } else if d < 62 {
        (48 + d - 52) as char
    } else if d == 62 {
        '-'
    } else {
        '_'
    }
}

/// The characters taken from word `w`: one for each of its `k` lowest
/// 6-bit groups, the lowest first.
pub open spec fn word_chars(w: nat, k: nat) -> Seq<char>
    decreases k,
{
    if k == 0 {
        seq![]
    } else {
        seq![alphabet_char((w % 64) as int)] + word_chars(w / 64, (k - 1) as nat)
    }
}

/// The verifier made of `words`: eight characters from each word, in order.
pub open spec fn words_to_verifier(words: Seq<u64>) -> Seq<char>
    decreases words.len(),
{
    if words.len() == 0 {
        seq![]
    } else {
        words_to_verifier(words.drop_last()) + word_chars(words.last() as nat, 8)
    }
}

/// The characters of a word are `k` characters of the alphabet.
pub proof fn lemma_word_chars(w: nat, k: nat)
    ensures
        word_chars(w, k).len() == k,
        forall|i: int| 0 <= i < k ==> verifier_char(#[trigger] word_chars(w, k)[i]),
    decreases k,
{
    if k > 0 {
        lemma_word_chars(w / 64, (k - 1) as nat);
        let rest = word_chars(w / 64, (k - 1) as nat);
        let d = (w % 64) as int;
        assert(verifier_char(alphabet_char(d)));
        assert forall|i: int| 0 <= i < k implies verifier_char(#[trigger] word_chars(w, k)[i]) by {
            if i > 0 {
                assert(word_chars(w, k)[i] == rest[i - 1]);
            }
        }
    }
}

/// A verifier made of words has eight alphabet characters per word, so
/// eight words make a well-formed verifier of 64 characters.
pub proof fn lemma_words_to_verifier(words: Seq<u64>)
    ensures
        words_to_verifier(words).len() == 8 * words.len(),
        forall|i: int| 0 <= i < words_to_verifier(words).len() ==> verifier_char(#[trigger] words_to_verifier(words)[i]),
        words.len() == 8 ==> verifier_ok(words_to_verifier(words)),
    decreases words.len(),
{
    if words.len() > 0 {
        lemma_words_to_verifier(words.drop_last());
        lemma_word_chars(words.last() as nat, 8);
        let front = words_to_verifier(words.drop_last());
        let back = word_chars(words.last() as nat, 8);
        assert forall|i: int| 0 <= i < words_to_verifier(words).len() implies verifier_char(#[trigger] words_to_verifier(words)[i]) by {
            if i < front.len() {
                assert(words_to_verifier(words)[i] == front[i]);
            } else {
                assert(words_to_verifier(words)[i] == back[i - front.len()]);
            }
        }
    }
}

/// The alphabet character numbered `d`.
fn verifier_char_at(d: u64) -> (c: char)
    requires
        d < 64,
    ensures
        c == alphabet_char(d as int),
{
    let code: u8 = if d < 26 {
        65 + d as u8
    } else if d < 52 {
        97 + (d - 26) as u8
    } else if d < 62 {
        48 + (d - 52) as u8
    } else if d == 62 {
        45
    } else {
        95
    };
    code as char
}

/// The code verifier made of eight words: each word gives eight characters,
/// one for each of its six-bit groups from the lowest up.
pub fn verifier_from_words(words: &Vec<u64>) -> (v: String)
    requires
        words@.len() == 8,
    ensures
        v@ == words_to_verifier(words@),
        verifier_ok(v@),
        v@.len() == VERIFIER_LEN,
{
    let mut v = String::new();
    let mut round: usize = 0;
    while round < words.len()
        invariant
            words@.len() == 8,
            round <= 8,
            v@ == words_to_verifier(words@.take(round as int)),
        decreases 8 - round,
    {
        let ghost base = v@;
        let ghost w0 = words@[round as int] as nat;
        let mut word = words[round];
        let mut k: u64 = 0;
        while k < 8
            invariant
                k <= 8,
                v@ + word_chars(word as nat, (8 - k) as nat) == base + word_chars(w0, 8),
            decreases 8 - k,
        {
            let c = verifier_char_at(word % 64);
            let ghost before = v@;
            proof {
                assert(word_chars(word as nat, (8 - k) as nat) == seq![c] + word_chars(
                    (word / 64) as nat,
                    (8 - k - 1) as nat,
                ));
                assert(before.push(c) + word_chars((word / 64) as nat, (8 - k - 1) as nat) =~= before + (
                seq![c] + word_chars((word / 64) as nat, (8 - k - 1) as nat)));
            }
            v.push(c);
            word = word / 64;
            k = k + 1;
        }
        proof {
            assert(word_chars(word as nat, 0) =~= Seq::<char>::empty());
            assert(v@ =~= base + word_chars(w0, 8));
            assert(words@.take(round + 1).drop_last() =~= words@.take(round as int));
            assert(words@.take(round + 1).last() == words@[round as int]);
        }
        round = round + 1;
    }
    proof {
        assert(words@.take(8) =~= words@);
        lemma_words_to_verifier(words@);
    }
    v
}

/// A fresh random code verifier: eight words drawn from freshly keyed
/// hasher states, written out by `verifier_from_words`.
pub fn new_code_verifier() -> (v: String)
    ensures
        exists|words: Seq<u64>| words.len() == 8 && v@ == words_to_verifier(words),
        verifier_ok(v@),
        v@.len() == VERIFIER_LEN,
{
    let mut words: Vec<u64> = Vec::new();
    let mut round: u64 = 0;
    while round < 8
        invariant
            round <= 8,
            words@.len() == round,
        decreases 8 - round,
    {
        let state = RandomState::new();
        words.push(random_hash(&state, round));
        round = round + 1;
    }
    verifier_from_words(&words)
}

} // verus!
