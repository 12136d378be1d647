//! Text building blocks: appending characters, lower-case hexadecimal,
//! zero-padded decimals and Unicode whitespace trimming.
use vstd::prelude::*;

verus! {

/// Appends one character to a `String`.
///
/// Trusted: calls `String::push`, which std documents as appending the given
/// `char` to the end of the string; the contract states exactly that.
#[verifier::external_body]
pub fn push_char(s: &mut String, c: char)
    ensures
        final(s)@ == old(s)@.push(c),
{
    s.push(c);
}

/// The lower-case hexadecimal digit of a value below 16.
pub open spec fn hex_digit(d: int) -> char {
    if d < 10 {
        (48 + d) as char
    } else {
        (87 + d) as char
    }
}

/// Lower-case hexadecimal text of a byte string, two digits per byte, high
/// nibble first.
pub open spec fn hex_lower(bytes: Seq<u8>) -> Seq<char>
    decreases bytes.len(),
{
    if bytes.len() == 0 {
        Seq::empty()
    } else {
        let b = bytes.last();
        hex_lower(bytes.drop_last()) + seq![hex_digit((b / 16) as int), hex_digit((b % 16) as int)]
    }
}

pub proof fn lemma_hex_lower_len(bytes: Seq<u8>)
    ensures
        hex_lower(bytes).len() == 2 * bytes.len(),
    decreases bytes.len(),
{
    if bytes.len() > 0 {
        lemma_hex_lower_len(bytes.drop_last());
    }
}

fn hex_digit_char(d: u8) -> (c: char)
    requires
        d < 16,
    ensures
        c == hex_digit(d as int),
{
    if d < 10 {
        (d + 48) as char
    } else {
        (d + 87) as char
    }
}

/// Renders `bytes` as lower-case hexadecimal, as `format!("{:02x}", b)` does for
/// each byte in turn.
pub fn to_hex_lower(bytes: &[u8]) -> (res: String)
    ensures
        res@ == hex_lower(bytes@),
{
    let mut res = String::new();
    let n = bytes.len();
    let mut i: usize = 0;
    while i < n
        invariant
            n == bytes@.len(),
            i <= n,
            res@ == hex_lower(bytes@.take(i as int)),
        decreases n - i,
    {
        let b = bytes[i];
        assert(bytes@.take(i + 1).drop_last() =~= bytes@.take(i as int));
        push_char(&mut res, hex_digit_char(b / 16));
        push_char(&mut res, hex_digit_char(b % 16));
        i = i + 1;
    }
    assert(bytes@.take(n as int) =~= bytes@);
    res
}

/// Decimal text of a natural number, without leading zeros.
pub open spec fn decimal(n: nat) -> Seq<char>
    decreases n,
{
    if n < 10 {
        seq![(48 + n) as char]
    } else {
        decimal(n / 10).push((48 + n % 10) as char)
    }
}

/// Decimal text of `n`, left-padded with `'0'` to at least `width` characters.
pub open spec fn zero_padded(n: nat, width: nat) -> Seq<char> {
    let digits = decimal(n);
    if digits.len() >= width {
        digits
    } else {
        Seq::new((width - digits.len()) as nat, |i: int| '0') + digits
    }
}

pub proof fn lemma_decimal_len_bounds(n: nat)
    ensures
        1 <= decimal(n).len() <= n + 1,
        n < 10 ==> decimal(n).len() == 1,
        10 <= n < 100 ==> decimal(n).len() == 2,
        100 <= n < 1000 ==> decimal(n).len() == 3,
        1000 <= n < 10000 ==> decimal(n).len() == 4,
    decreases n,
{
    if n >= 10 {
        lemma_decimal_len_bounds(n / 10);
    }
}

/// `10` to the power `k`.
pub open spec fn pow10(k: nat) -> nat
    decreases k,
{
    if k == 0 {
        1
    } else {
        10 * pow10((k - 1) as nat)
    }
}

/// A number below `10^k` has at most `k` decimal digits.
pub proof fn lemma_decimal_len_le(n: nat, k: nat)
    requires
        1 <= k,
        n < pow10(k),
    ensures
        decimal(n).len() <= k,
    decreases n,
{
    if n >= 10 {
        if k == 1 {
            assert(pow10(0) == 1);
        }
        let p = pow10((k - 1) as nat);
        assert(n < 10 * p);
        assert(n / 10 < p) by (nonlinear_arith)
            requires
                n < 10 * p,
        ;
        lemma_decimal_len_le(n / 10, (k - 1) as nat);
        assert(decimal(n) == decimal(n / 10).push((48 + n % 10) as char));
    } else {
        assert(decimal(n).len() == 1);
    }
}

fn digit_char(d: u64) -> (c: char)
    requires
        d < 10,
    ensures
        c == (48 + d) as char,
{
    (d as u8 + 48) as char
}

fn decimal_len(n: u64) -> (len: usize)
    ensures
        len == decimal(n as nat).len(),
    decreases n,
{
    proof {
        lemma_decimal_len_bounds(n as nat);
    }
    if n < 10 {
        1
    } else {
        proof {
            reveal_with_fuel(pow10, 21);
            assert(pow10(20) == 100000000000000000000nat);
            lemma_decimal_len_le(n as nat, 20);
        }
        decimal_len(n / 10) + 1
    }
}

/// Appends the decimal text of `n`.
pub fn push_decimal(s: &mut String, n: u64)
    ensures
        final(s)@ == old(s)@ + decimal(n as nat),
    decreases n,
{
    if n >= 10 {
        push_decimal(s, n / 10);
    }
    push_char(s, digit_char(n % 10));
    assert(final(s)@ =~= old(s)@ + decimal(n as nat));
}

/// Appends the decimal text of `n`, zero-padded to at least `width` characters.
pub fn push_zero_padded(s: &mut String, n: u64, width: usize)
    ensures
        final(s)@ == old(s)@ + zero_padded(n as nat, width as nat),
{
    let len = decimal_len(n);
    let ghost start = s@;
    if len < width {
        let mut k: usize = len;
        while k < width
            invariant
                len <= k <= width,
                len == decimal(n as nat).len(),
                s@ == start + Seq::new((k - len) as nat, |i: int| '0'),
            decreases width - k,
        {
            push_char(s, '0');
            k = k + 1;
            assert(s@ =~= start + Seq::new((k - len) as nat, |i: int| '0'));
        }
    } else {
        assert(s@ =~= start);
    }
    let ghost padded = s@;
    push_decimal(s, n);
    assert(s@ =~= start + zero_padded(n as nat, width as nat));
}

/// Whitespace as `char::is_whitespace` defines it: the characters with the
/// Unicode `White_Space` property.
pub open spec fn is_unicode_whitespace(c: char) -> bool {
    ||| c == ' '
    ||| ('\u{9}' <= c && c <= '\u{d}')
    ||| c == '\u{85}'
    ||| c == '\u{a0}'
    ||| c == '\u{1680}'
    ||| ('\u{2000}' <= c && c <= '\u{200a}')
    ||| c == '\u{2028}'
    ||| c == '\u{2029}'
    ||| c == '\u{202f}'
    ||| c == '\u{205f}'
    ||| c == '\u{3000}'
}

pub fn is_whitespace_char(c: char) -> (b: bool)
    ensures
        b == is_unicode_whitespace(c),
{
    c == ' ' || ('\u{9}' <= c && c <= '\u{d}') || c == '\u{85}' || c == '\u{a0}'
        || c == '\u{1680}' || ('\u{2000}' <= c && c <= '\u{200a}') || c == '\u{2028}'
        || c == '\u{2029}' || c == '\u{202f}' || c == '\u{205f}' || c == '\u{3000}'
}

/// Number of whitespace characters at the start of `s`.
pub open spec fn leading_ws(s: Seq<char>) -> nat
    decreases s.len(),
{
    if s.len() == 0 {
        0
    } else if is_unicode_whitespace(s[0]) {
        1 + leading_ws(s.drop_first())
    } else {
        0
    }
}

/// Number of whitespace characters at the end of `s`.
pub open spec fn trailing_ws(s: Seq<char>) -> nat
    decreases s.len(),
{
    if s.len() == 0 {
        0
    } else if is_unicode_whitespace(s.last()) {
        1 + trailing_ws(s.drop_last())
    } else {
        0
    }
}

/// `s` without its leading and trailing whitespace, as `str::trim` gives it.
pub open spec fn trim_ws(s: Seq<char>) -> Seq<char> {
    if leading_ws(s) >= s.len() {
        Seq::empty()
    } else {
        s.subrange(leading_ws(s) as int, s.len() - trailing_ws(s))
    }
}

proof fn lemma_leading_ws(s: Seq<char>, i: int)
    requires
        0 <= i <= s.len(),
        forall|j: int| 0 <= j < i ==> is_unicode_whitespace(#[trigger] s[j]),
        i < s.len() ==> !is_unicode_whitespace(s[i]),
    ensures
        leading_ws(s) == i,
    decreases i,
{
    if i > 0 {
        let t = s.drop_first();
        assert forall|j: int| 0 <= j < i - 1 implies is_unicode_whitespace(#[trigger] t[j]) by {
            assert(t[j] == s[j + 1]);
        }
        lemma_leading_ws(t, i - 1);
    }
}

proof fn lemma_trailing_ws(s: Seq<char>, k: int)
    requires
        0 <= k <= s.len(),
        forall|j: int| s.len() - k <= j < s.len() ==> is_unicode_whitespace(#[trigger] s[j]),
        k < s.len() ==> !is_unicode_whitespace(s[s.len() - k - 1]),
    ensures
        trailing_ws(s) == k,
    decreases k,
{
    if k > 0 {
        let t = s.drop_last();
        assert forall|j: int| t.len() - (k - 1) <= j < t.len() implies is_unicode_whitespace(
            #[trigger] t[j],
        ) by {
            assert(t[j] == s[j]);
        }
        lemma_trailing_ws(t, k - 1);
    }
}

/// Returns `s` with leading and trailing Unicode whitespace removed.
pub fn trim_whitespace(s: &str) -> (res: String)
    ensures
        res@ == trim_ws(s@),
{
    let n = s.unicode_len();
    let mut i: usize = 0;
    while i < n && is_whitespace_char(s.get_char(i))
        invariant
            n == s@.len(),
            i <= n,
            forall|j: int| 0 <= j < i ==> is_unicode_whitespace(#[trigger] s@[j]),
        decreases n - i,
    {
        i = i + 1;
    }
    proof {
        lemma_leading_ws(s@, i as int);
    }
    if i == n {
        return String::new();
    }
    let mut j: usize = n;
    while j > i + 1 && is_whitespace_char(s.get_char(j - 1))
        invariant
            n == s@.len(),
            i < j <= n,
            !is_unicode_whitespace(s@[i as int]),
            forall|m: int| j <= m < n ==> is_unicode_whitespace(#[trigger] s@[m]),
        decreases j,
    {
        j = j - 1;
    }
    let ghost k = n - j;
    proof {
        if j > i + 1 {
            assert(!is_unicode_whitespace(s@[j - 1]));
        }
        lemma_trailing_ws(s@, n - j);
    }
    s.substring_char(i, j).to_owned()
}

/// `h` with the `"Bearer "` scheme prefix removed, if it has it.
pub open spec fn strip_bearer(h: Seq<char>) -> Option<Seq<char>> {
    let prefix = seq!['B', 'e', 'a', 'r', 'e', 'r', ' '];
    if h.len() >= 7 && h.subrange(0, 7) == prefix {
        Some(h.subrange(7, h.len() as int))
    } else {
        None
    }
}

/// `str::strip_prefix(h, "Bearer ")`.
pub fn strip_bearer_prefix(h: &str) -> (res: Option<&str>)
    ensures
        match res {
            Some(r) => strip_bearer(h@) == Some(r@),
            None => strip_bearer(h@) is None,
        },
{
    let n = h.unicode_len();
    if n >= 7 && h.get_char(0) == 'B' && h.get_char(1) == 'e' && h.get_char(2) == 'a'
        && h.get_char(3) == 'r' && h.get_char(4) == 'e' && h.get_char(5) == 'r' && h.get_char(6)
        == ' ' {
        assert(h@.subrange(0, 7) =~= seq!['B', 'e', 'a', 'r', 'e', 'r', ' ']);
        Some(h.substring_char(7, n))
    } else {
        proof {
            if n >= 7 && h@.subrange(0, 7) == seq!['B', 'e', 'a', 'r', 'e', 'r', ' '] {
                assert(h@[0] == h@.subrange(0, 7)[0]);
                assert(h@[1] == h@.subrange(0, 7)[1]);
                assert(h@[2] == h@.subrange(0, 7)[2]);
                assert(h@[3] == h@.subrange(0, 7)[3]);
                assert(h@[4] == h@.subrange(0, 7)[4]);
                assert(h@[5] == h@.subrange(0, 7)[5]);
                assert(h@[6] == h@.subrange(0, 7)[6]);
            }
        }
        None
    }
}

} // verus!
