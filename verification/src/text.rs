use vstd::prelude::*;

verus! {

/// `String::push` appends one character at the end of the string, as its
/// documentation says ("Appends the given char to the end of this String").
pub assume_specification[ String::push ](s: &mut String, ch: char)
    ensures
        final(s)@ == old(s)@.push(ch),
;

/// Character-wise equality of two strings.
pub fn str_eq(a: &str, b: &str) -> (r: bool)
    ensures
        r == (a@ == b@),
{
    let n = a.unicode_len();
    if n != b.unicode_len() {
        return false;
    }
    let mut i: usize = 0;
    while i < n
        invariant
            n == a@.len(),
            n == b@.len(),
            i <= n,
            forall|k: int| 0 <= k < i ==> a@[k] == b@[k],
        decreases n - i,
    {
        if a.get_char(i) != b.get_char(i) {
            return false;
        }
        i = i + 1;
    }
    assert(a@ =~= b@);
    true
}

/// `needle` occurs in `hay` as a contiguous piece.
pub open spec fn occurs_in(hay: Seq<char>, needle: Seq<char>) -> bool {
    exists|i: int| 0 <= i && i + needle.len() <= hay.len() && #[trigger] hay.subrange(i, i + needle.len()) == needle
}

fn occurs_at(hay: &Vec<char>, needle: &Vec<char>, i: usize) -> (r: bool)
    requires
        i + needle@.len() <= hay@.len(),
    ensures
        r == (hay@.subrange(i as int, i + needle@.len()) == needle@),
{
    let hl = hay.len();
    let mut k: usize = 0;
    while k < needle.len()
        invariant
            hl == hay@.len(),
            i + needle@.len() <= hay@.len(),
            k <= needle@.len(),
            forall|j: int| 0 <= j < k ==> hay@[i + j] == needle@[j],
        decreases needle@.len() - k,
    {
        if hay[i + k] != needle[k] {
            assert(hay@.subrange(i as int, i + needle@.len())[k as int] != needle@[k as int]);
            return false;
        }
        k = k + 1;
    }
    assert(hay@.subrange(i as int, i + needle@.len()) =~= needle@);
    true
}

/// The characters of a string, in order.
pub fn chars_of(s: &str) -> (v: Vec<char>)
    ensures
        v@ == s@,
{
    let n = s.unicode_len();
    let mut v: Vec<char> = Vec::new();
    let mut i: usize = 0;
    while i < n
        invariant
            n == s@.len(),
            i <= n,
            v@ == s@.subrange(0, i as int),
        decreases n - i,
    {
        v.push(s.get_char(i));
        i = i + 1;
        assert(v@ =~= s@.subrange(0, i as int));
    }
    assert(s@.subrange(0, n as int) =~= s@);
    v
}

/// Whether `needle` occurs somewhere in `hay`.
pub fn contains_text(hay: &str, needle: &str) -> (r: bool)
    ensures
        r == occurs_in(hay@, needle@),
{
    let h = chars_of(hay);
    let nd = chars_of(needle);
    if nd.len() > h.len() {
        return false;
    }
    let last = h.len() - nd.len();
    let mut i: usize = 0;
    loop
        invariant
            h@ == hay@,
            nd@ == needle@,
            last + nd@.len() == h@.len(),
            i <= last,
            forall|j: int| 0 <= j < i ==> #[trigger] h@.subrange(j, j + nd@.len()) != nd@,
        ensures
            forall|j: int| 0 <= j <= last ==> #[trigger] h@.subrange(j, j + nd@.len()) != nd@,
        decreases last - i,
    {
        if occurs_at(&h, &nd, i) {
            return true;
        }
        if i == last {
            break;
        }
        i = i + 1;
    }
    assert forall|j: int| 0 <= j && j + needle@.len() <= hay@.len() implies #[trigger] hay@.subrange(j, j + needle@.len()) != needle@ by {
        assert(j <= last);
    }
    false
}

/// Decimal digit character for a value in `0..10`.
pub open spec fn digit_char(d: int) -> char {
    (d + 48) as char
}

/// Decimal text of a natural number, without sign or leading zeros.
pub open spec fn decimal(n: nat) -> Seq<char>
    decreases n,
{
    if n < 10 {
        seq![digit_char(n as int)]
    } else {
        decimal(n / 10).push(digit_char((n % 10) as int))
    }
}

/// Appends the decimal text of `n`.
pub fn push_decimal(out: &mut String, n: u64)
    ensures
        final(out)@ == old(out)@ + decimal(n as nat),
    decreases n,
{
    if n >= 10 {
        push_decimal(out, n / 10);
    }
    let d = (n % 10) as u8;
    out.push((d + 48) as char);
    proof {
        if n >= 10 {
            assert(decimal(n as nat) == decimal((n / 10) as nat).push(digit_char((n % 10) as int)));
        } else {
            assert(decimal(n as nat) == seq![digit_char(n as int)]);
        }
    }
    assert(out@ =~= old(out)@ + decimal(n as nat));
}

/// Whether a character is an ASCII decimal digit.
pub open spec fn is_digit(c: char) -> bool {
    '0' <= c && c <= '9'
}

/// Value of a string of decimal digits.
pub open spec fn digits_value(s: Seq<char>) -> nat
    decreases s.len(),
{
    if s.len() == 0 {
        0
    } else {
        digits_value(s.drop_last()) * 10 + ((s.last() as int - 48) as nat)
    }
}

/// The digits that follow an optional leading `+`.
pub open spec fn unsigned_digits(s: Seq<char>) -> Seq<char> {
    if s.len() > 0 && s[0] == '+' {
        s.drop_first()
    } else {
        s
    }
}

/// What `u64::from_str` gives: an optional `+`, then one or more ASCII
/// digits whose value fits in a `u64`; anything else is refused.
pub open spec fn parsed_u64(s: Seq<char>) -> Option<u64> {
    let d = unsigned_digits(s);
    if d.len() > 0 && (forall|i: int| 0 <= i < d.len() ==> is_digit(#[trigger] d[i])) && digits_value(d) <= u64::MAX {
        Some(digits_value(d) as u64)
    } else {
        None
    }
}

proof fn digits_value_grows(s: Seq<char>, k: int)
    requires
        0 <= k <= s.len(),
        forall|i: int| 0 <= i < s.len() ==> is_digit(#[trigger] s[i]),
    ensures
        digits_value(s.subrange(0, k)) <= digits_value(s),
    decreases s.len() - k,
{
    if k < s.len() {
        digits_value_grows(s, k + 1);
        let t = s.subrange(0, k + 1);
        assert(t.drop_last() =~= s.subrange(0, k));
    } else {
        assert(s.subrange(0, k) =~= s);
    }
}

/// Parses a decimal `u64` the way `str::parse::<u64>` does.
pub fn parse_u64(s: &str) -> (r: Option<u64>)
    ensures
        r == parsed_u64(s@),
{
    let all = chars_of(s);
    let start: usize = if all.len() > 0 && all[0] == '+' { 1 } else { 0 };
    let ghost d = unsigned_digits(s@);
    assert(d =~= all@.subrange(start as int, all@.len() as int));
    if start >= all.len() {
        assert(d.len() == 0);
        return None;
    }
    let mut value: u64 = 0;
    let mut i: usize = start;
    while i < all.len()
        invariant
            all@ == s@,
            d == unsigned_digits(s@),
            start <= i <= all@.len(),
            d == all@.subrange(start as int, all@.len() as int),
            forall|k: int| 0 <= k < i - start ==> is_digit(#[trigger] d[k]),
            value == digits_value(d.subrange(0, i - start)),
        decreases all@.len() - i,
    {
        let c = all[i];
        if !('0' <= c && c <= '9') {
            assert(d[i - start] == c);
            assert(!is_digit(d[i - start]));
            return None;
        }
        let step = (c as u64) - 48;
        let ghost prefix = d.subrange(0, i + 1 - start);
        assert(prefix.drop_last() =~= d.subrange(0, i - start));
        assert(prefix.last() == c);
        assert(digits_value(prefix) == digits_value(d.subrange(0, i - start)) * 10 + step);
        match value.checked_mul(10) {
            Some(m) => match m.checked_add(step) {
                Some(v) => {
                    value = v;
                },
                None => {
                    proof {
                        assert forall|k: int| 0 <= k < i + 1 - start implies is_digit(#[trigger] d[k]) by {}
                        if forall|k: int| 0 <= k < d.len() ==> is_digit(#[trigger] d[k]) {
                            digits_value_grows(d, i + 1 - start);
                        }
                    }
                    return None;
                },
            },
            None => {
                proof {
                    if forall|k: int| 0 <= k < d.len() ==> is_digit(#[trigger] d[k]) {
                        digits_value_grows(d, i + 1 - start);
                    }
                }
                return None;
            },
        }
        i = i + 1;
    }
    assert(d.subrange(0, d.len() as int) =~= d);
    Some(value)
}

} // verus!
