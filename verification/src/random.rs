//! Random identifiers.

use vstd::prelude::*;

verus! {

/// Whether `c` is an ASCII letter or digit.
pub open spec fn is_alphanumeric(c: char) -> bool {
    ||| 'A' <= c <= 'Z'
    ||| 'a' <= c <= 'z'
    ||| '0' <= c <= '9'
}

/// The characters with the codes that `bytes` gives, in that order.
pub open spec fn chars_of(bytes: Seq<u8>) -> Seq<char> {
    Seq::new(bytes.len(), |i: int| bytes[i] as char)
}

// The handle to a thread's generator. Verus sees nothing inside it.
#[verifier::external_type_specification]
#[verifier::external_body]
pub struct ExThreadRng(rand::rngs::ThreadRng);

/// `rand::rng` hands out the generator of the calling thread.
pub assume_specification[ rand::rng ]() -> (rng: rand::rngs::ThreadRng)
;

/// `Rng::sample` with the distribution `Alphanumeric`: one of the codes of
/// the ASCII letters and digits, whichever the generator picks.
#[verifier::external_body]
fn sample_alphanumeric(rng: &mut rand::rngs::ThreadRng) -> (code: u8)
    ensures
        is_alphanumeric(code as char),
{
    rand::Rng::sample(rng, rand::distr::Alphanumeric)
}

/// The string whose characters have the given codes.
pub fn string_of_codes(codes: &[u8]) -> (s: String)
    ensures
        s@ == chars_of(codes@),
{
    let mut s = String::new();
    let mut i: usize = 0;
    while i < codes.len()
        invariant
            i <= codes.len(),
            s@ == chars_of(codes@.take(i as int)),
        decreases codes.len() - i,
    {
        s.push(codes[i] as char);
        i += 1;
        assert(s@ == chars_of(codes@.take(i as int)));
    }
    assert(codes@.take(i as int) == codes@);
    s
}

/// A string of `len` characters, each an ASCII letter or digit drawn from the
/// generator of the calling thread.
pub fn generate_random_string(len: usize) -> (s: String)
    ensures
        s@.len() == len,
        forall|i: int| 0 <= i < len ==> is_alphanumeric(#[trigger] s@[i]),
{
    let mut rng = rand::rng();
    let mut codes: Vec<u8> = Vec::new();
    while codes.len() < len
        invariant
            codes.len() <= len,
            forall|i: int| 0 <= i < codes.len() ==> is_alphanumeric(#[trigger] codes@[i] as char),
        decreases len - codes.len(),
    {
        let code = sample_alphanumeric(&mut rng);
        codes.push(code);
    }
    string_of_codes(codes.as_slice())
}

} // verus!
