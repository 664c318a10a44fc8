use vstd::prelude::*;

verus! {

/// The lowercase hexadecimal digit for a value in `0..16`.
pub open spec fn hex_digit(n: int) -> char {
    if n < 10 {
        (n + 48) as char
    } else {
        (n + 87) as char
    }
}

/// Lowercase hexadecimal text of a byte string: two digits per byte, the high
/// nibble first (the `{:02x}` rendering of each byte, concatenated).
pub open spec fn hex_text(bytes: Seq<u8>) -> Seq<char> {
    Seq::new(
        2 * bytes.len(),
        |i: int|
            if i % 2 == 0 {
                hex_digit((bytes[i / 2] / 16) as int)
            } else {
                hex_digit((bytes[i / 2] % 16) as int)
            },
    )
}

fn nibble_char(n: u8) -> (c: char)
    requires
        n < 16,
    ensures
        c == hex_digit(n as int),
{
    if n < 10 {
        (n + 48) as char
    } else {
        (n + 87) as char
    }
}

/// Renders a session token hash as lowercase hexadecimal text.
pub fn hash_to_hex(hash: &[u8]) -> (r: String)
    ensures
        r@ == hex_text(hash@),
{
    let mut out = String::new();
    let mut i: usize = 0;
    while i < hash.len()
        invariant
            i <= hash@.len(),
            out@ == hex_text(hash@.subrange(0, i as int)),
        decreases hash@.len() - i,
    {
        let b = hash[i];
        let hi = nibble_char(b / 16);
        let lo = nibble_char(b % 16);
        out.push(hi);
        out.push(lo);
        proof {
            assert(hex_text(hash@.subrange(0, i + 1)) =~= hex_text(hash@.subrange(0, i as int)).push(hi).push(lo));
        }
        i = i + 1;
    }
    proof {
        assert(hash@.subrange(0, hash@.len() as int) =~= hash@);
    }
    out
}

/// Two byte strings with the same hexadecimal text are equal: the text
/// identifies the hash it was made from.
pub proof fn hex_text_is_injective(a: Seq<u8>, b: Seq<u8>)
    requires
        hex_text(a) == hex_text(b),
    ensures
        a == b,
{
    assert(a.len() == b.len()) by {
        assert(hex_text(a).len() == 2 * a.len());
        assert(hex_text(b).len() == 2 * b.len());
    }
    assert forall|k: int| 0 <= k < a.len() implies a[k] == b[k] by {
        let hi_a = hex_text(a)[2 * k];
        let lo_a = hex_text(a)[2 * k + 1];
        assert(hi_a == hex_text(b)[2 * k]);
        assert(lo_a == hex_text(b)[2 * k + 1]);
        assert((2 * k) / 2 == k);
        assert((2 * k + 1) / 2 == k);
        assert((2 * k) % 2 == 0);
        assert((2 * k + 1) % 2 == 1);
        hex_digit_is_injective((a[k] / 16) as int, (b[k] / 16) as int);
        hex_digit_is_injective((a[k] % 16) as int, (b[k] % 16) as int);
    }
    assert(a =~= b);
}

proof fn hex_digit_is_injective(x: int, y: int)
    requires
        0 <= x < 16,
        0 <= y < 16,
        hex_digit(x) == hex_digit(y),
    ensures
        x == y,
{
}

} // verus!
