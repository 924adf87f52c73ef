//! Deterministic mapping from a sequence number to a base-62 code.

use vstd::prelude::*;
use vstd::string::StrSliceExecFns;

verus! {

/// Added to every sequence number before conversion, so that each code has at
/// least four digits (it equals 62 to the third power).
pub const OFFSET: u64 = 238328;

/// The 62 digits, in order of value: `0-9`, `A-Z`, `a-z`.
pub open spec fn alphabet() -> Seq<char> {
    "0123456789ABCDEFGHIJKLMNOPQRSTUVWXYZabcdefghijklmnopqrstuvwxyz"@
}

/// The base-62 digits of `m`, most significant first, without leading zeros
/// (the empty sequence for zero).
pub open spec fn digits(m: nat) -> Seq<char>
    decreases m,
{
    if m == 0 {
        Seq::empty()
    } else {
        digits(m / 62).push(alphabet()[(m % 62) as int])
    }
}

/// The code of sequence number `n`.
pub open spec fn encode(n: nat) -> Seq<char> {
    digits((n + OFFSET) as nat)
}

/// Relies on `FromIterator<&char>` for `String`: the characters are kept in
/// order.
#[verifier::external_body]
fn string_from_chars(cs: &Vec<char>) -> (r: String)
    ensures
        r@ == cs@,
{
    cs.iter().collect()
}

/// The code of `num`: `num + OFFSET` written in base 62 over the alphabet, most
/// significant digit first.
pub fn to_base62(num: u64) -> (r: String)
    ensures
        r@ == encode(num as nat),
{
    let chars: &str = "0123456789ABCDEFGHIJKLMNOPQRSTUVWXYZabcdefghijklmnopqrstuvwxyz";
    proof {
        reveal_strlit("0123456789ABCDEFGHIJKLMNOPQRSTUVWXYZabcdefghijklmnopqrstuvwxyz");
    }
    assert(chars@.len() == 62);
    let base: u128 = 62;
    let mut n: u128 = num as u128 + OFFSET as u128;
    let mut out: Vec<char> = Vec::new();
    while n > 0
        invariant
            chars@ == alphabet(),
            alphabet().len() == 62,
            base == 62,
            digits((num + OFFSET) as nat) == digits(n as nat) + out@,
        decreases n,
    {
        let d: u128 = n % base;
        let c: char = chars.get_char(d as usize);
        proof {
            assert(digits(n as nat) == digits((n / base) as nat).push(c));
            assert(digits((n / base) as nat).push(c) + out@ =~= digits((n / base) as nat) + out@.insert(0, c));
        }
        out.insert(0, c);
        n = n / base;
    }
    assert(digits(0) + out@ =~= out@);
    string_from_chars(&out)
}

/// No digit of the alphabet occurs twice.
proof fn lemma_alphabet_distinct()
    ensures
        alphabet().len() == 62,
        alphabet().no_duplicates(),
{
    reveal_strlit("0123456789ABCDEFGHIJKLMNOPQRSTUVWXYZabcdefghijklmnopqrstuvwxyz");
}

/// Distinct numbers have distinct digit sequences.
proof fn lemma_digits_injective(a: nat, b: nat)
    requires
        digits(a) == digits(b),
    ensures
        a == b,
    decreases a,
{
    lemma_alphabet_distinct();
    if a != 0 && b != 0 {
        let da = digits(a);
        let db = digits(b);
        assert(da.drop_last() == digits(a / 62));
        assert(db.drop_last() == digits(b / 62));
        lemma_digits_injective(a / 62, b / 62);
        assert(da.last() == alphabet()[(a % 62) as int]);
        assert(db.last() == alphabet()[(b % 62) as int]);
        assert(a % 62 == b % 62);
    } else if a != 0 {
        assert(digits(a).len() > 0);
    } else if b != 0 {
        assert(digits(b).len() > 0);
    }
}

/// Every character of a digit sequence belongs to the alphabet.
proof fn lemma_digits_in_alphabet(m: nat)
    ensures
        forall|i: int| 0 <= i < digits(m).len() ==> alphabet().contains(#[trigger] digits(m)[i]),
    decreases m,
{
    lemma_alphabet_distinct();
    if m != 0 {
        lemma_digits_in_alphabet(m / 62);
        let d = (m % 62) as int;
        assert forall|i: int| 0 <= i < digits(m).len() implies alphabet().contains(
            #[trigger] digits(m)[i],
        ) by {
            if i < digits(m / 62).len() {
                assert(digits(m)[i] == digits(m / 62)[i]);
            } else {
                assert(digits(m)[i] == alphabet()[d]);
            }
        }
    }
}

/// The encoder is injective: two different sequence numbers never share a
/// code.
pub proof fn lemma_encode_injective(a: nat, b: nat)
    requires
        a < b,
    ensures
        encode(a) != encode(b),
{
    if encode(a) == encode(b) {
        lemma_digits_injective((a + OFFSET) as nat, (b + OFFSET) as nat);
    }
}

/// Every code has at least four characters, each taken from the alphabet.
pub proof fn lemma_encode_shape(n: nat)
    ensures
        encode(n).len() >= 4,
        forall|i: int| 0 <= i < encode(n).len() ==> alphabet().contains(#[trigger] encode(n)[i]),
{
    let m: nat = (n + OFFSET) as nat;
    assert(m / 62 / 62 / 62 >= 1);
    assert(digits(m / 62 / 62 / 62).len() >= 1);
    assert(digits(m / 62 / 62).len() >= 2);
    assert(digits(m / 62).len() >= 3);
    assert(digits(m).len() >= 4);
    lemma_digits_in_alphabet(m);
}

} // verus!
