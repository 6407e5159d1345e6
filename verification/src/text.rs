//! Character-level text handling: splitting, comparing, decimal numbers and padding.
use vstd::prelude::*;
use vstd::string::*;

verus! {

// ---------------------------------------------------------------------------
// Specifications
// ---------------------------------------------------------------------------

/// `s.split_once(sep)` on a single-character separator: the text before the
/// first `sep` and the text after it.
pub open spec fn split_once(s: Seq<char>, sep: char) -> Option<(Seq<char>, Seq<char>)> {
    match s.index_of_first(sep) {
        Some(i) => Some((s.take(i), s.skip(i + 1))),
        None => None,
    }
}

/// `s.rsplit_once(sep)` on a single-character separator: the text before the
/// last `sep` and the text after it.
pub open spec fn rsplit_once(s: Seq<char>, sep: char) -> Option<(Seq<char>, Seq<char>)> {
    match s.index_of_last(sep) {
        Some(i) => Some((s.take(i), s.skip(i + 1))),
        None => None,
    }
}

/// `s.splitn(3, sep)` when it yields exactly three pieces.
pub open spec fn split_three(s: Seq<char>, sep: char) -> Option<(Seq<char>, Seq<char>, Seq<char>)> {
    match split_once(s, sep) {
        Some((a, rest)) => match split_once(rest, sep) {
            Some((b, c)) => Some((a, b, c)),
            None => None,
        },
        None => None,
    }
}

/// `s.strip_prefix(p)`.
pub open spec fn strip_prefix(s: Seq<char>, p: Seq<char>) -> Option<Seq<char>> {
    if p.len() <= s.len() && s.take(p.len() as int) == p {
        Some(s.skip(p.len() as int))
    } else {
        None
    }
}

pub open spec fn is_digit(c: char) -> bool {
    '0' <= c && c <= '9'
}

pub open spec fn all_digits(s: Seq<char>) -> bool {
    forall|i: int| 0 <= i < s.len() ==> #[trigger] is_digit(s[i])
}

pub open spec fn digit_value(c: char) -> int {
    c as int - '0' as int
}

/// The number written by a string of decimal digits.
pub open spec fn digits_value(s: Seq<char>) -> int
    decreases s.len(),
{
    if s.len() == 0 {
        0
    } else {
        digits_value(s.drop_last()) * 10 + digit_value(s.last())
    }
}

/// What `str::parse` gives for an unsigned integer type whose largest value is `max`.
pub open spec fn parse_unsigned(s: Seq<char>, max: int) -> Option<int> {
    let body = if s.len() > 0 && s[0] == '+' {
        s.drop_first()
    } else {
        s
    };
    if body.len() > 0 && all_digits(body) && digits_value(body) <= max {
        Some(digits_value(body))
    } else {
        None
    }
}

/// What `str::parse` gives for a signed integer type ranging over `min..=max`.
pub open spec fn parse_signed(s: Seq<char>, min: int, max: int) -> Option<int> {
    if s.len() > 0 && s[0] == '-' {
        let body = s.drop_first();
        if body.len() > 0 && all_digits(body) && -digits_value(body) >= min {
            Some(-digits_value(body))
        } else {
            None
        }
    } else {
        parse_unsigned(s, max)
    }
}

pub open spec fn digit_char(d: int) -> char {
    ('0' as int + d) as char
}

/// The decimal digits of a natural number, as `Display` writes them.
pub open spec fn decimal(n: nat) -> Seq<char>
    decreases n,
{
    if n < 10 {
        seq![digit_char(n as int)]
    } else {
        decimal(n / 10).push(digit_char((n % 10) as int))
    }
}

/// An integer as `Display` writes it.
pub open spec fn decimal_int(i: int) -> Seq<char> {
    if i < 0 {
        seq!['-'] + decimal((-i) as nat)
    } else {
        decimal(i as nat)
    }
}

/// An integer as `{:+}` writes it: always with its sign.
pub open spec fn decimal_signed(i: int) -> Seq<char> {
    if i < 0 {
        decimal_int(i)
    } else {
        seq!['+'] + decimal(i as nat)
    }
}

pub open spec fn spaces(n: int) -> Seq<char> {
    Seq::new(if n > 0 { n as nat } else { 0 }, |i: int| ' ')
}

/// `{:<w}`: the text followed by spaces up to width `w`.
pub open spec fn pad_right(s: Seq<char>, w: int) -> Seq<char> {
    s + spaces(w - s.len())
}

/// `{:>w}`: the text preceded by spaces up to width `w`.
pub open spec fn pad_left(s: Seq<char>, w: int) -> Seq<char> {
    spaces(w - s.len()) + s
}

// ---------------------------------------------------------------------------
// Strings and characters
// ---------------------------------------------------------------------------

/// Wrapper of `String::push`: appends one character.
#[verifier::external_body]
pub fn push_char(s: &mut String, c: char)
    ensures
        final(s)@ == old(s)@.push(c),
{
    s.push(c);
}

/// The characters of a string slice.
pub fn chars_of(s: &str) -> (v: Vec<char>)
    ensures
        v@ == s@,
{
    let n = s.unicode_len();
    let mut v: Vec<char> = Vec::new();
    let mut i: usize = 0;
    while i < n
        invariant
            n == s@.len(),
            i <= n,
            v@ == s@.take(i as int),
        decreases n - i,
    {
        v.push(s.get_char(i));
        i = i + 1;
        assert(v@ =~= s@.take(i as int));
    }
    assert(v@ =~= s@);
    v
}

/// Appends the characters of `cs` to `s`.
pub fn push_chars(s: &mut String, cs: &[char])
    ensures
        final(s)@ == old(s)@ + cs@,
{
    let mut i: usize = 0;
    while i < cs.len()
        invariant
            i <= cs@.len(),
            s@ == old(s)@ + cs@.take(i as int),
        decreases cs.len() - i,
    {
        push_char(s, cs[i]);
        i = i + 1;
        assert(s@ =~= old(s)@ + cs@.take(i as int));
    }
    assert(cs@.take(cs@.len() as int) =~= cs@);
}

/// A string holding the characters of `cs`.
pub fn string_of(cs: &[char]) -> (s: String)
    ensures
        s@ == cs@,
{
    let mut s = String::new();
    push_chars(&mut s, cs);
    assert(s@ =~= cs@);
    s
}

/// Appends a string slice.
pub fn push_str(s: &mut String, t: &str)
    ensures
        final(s)@ == old(s)@ + t@,
{
    s.append(t);
}

/// Whether the characters `a` spell exactly the string `b`.
pub fn chars_eq(a: &[char], b: &str) -> (r: bool)
    ensures
        r == (a@ == b@),
{
    let n = b.unicode_len();
    if a.len() != n {
        return false;
    }
    let mut i: usize = 0;
    while i < n
        invariant
            n == b@.len(),
            n == a@.len(),
            i <= n,
            forall|j: int| 0 <= j < i ==> a@[j] == b@[j],
        decreases n - i,
    {
        if a[i] != b.get_char(i) {
            return false;
        }
        i = i + 1;
    }
    assert(a@ =~= b@);
    true
}

/// The characters `cs[lo..hi]`.
pub fn slice_range(cs: &[char], lo: usize, hi: usize) -> (r: Vec<char>)
    requires
        lo <= hi <= cs@.len(),
    ensures
        r@ == cs@.subrange(lo as int, hi as int),
{
    let mut r: Vec<char> = Vec::new();
    let mut i = lo;
    while i < hi
        invariant
            lo <= i <= hi <= cs@.len(),
            r@ == cs@.subrange(lo as int, i as int),
        decreases hi - i,
    {
        r.push(cs[i]);
        i = i + 1;
        assert(r@ =~= cs@.subrange(lo as int, i as int));
    }
    r
}

/// Index of the first `c` in `cs`.
pub fn find_first(cs: &[char], c: char) -> (r: Option<usize>)
    ensures
        r matches Some(i) ==> i < cs@.len() && cs@[i as int] == c && cs@.index_of_first(c) == Some(i as int),
        r is None ==> cs@.index_of_first(c) is None,
{
    proof {
        cs@.index_of_first_ensures(c);
    }
    let mut i: usize = 0;
    while i < cs.len()
        invariant
            i <= cs@.len(),
            forall|j: int| 0 <= j < i ==> cs@[j] != c,
        decreases cs.len() - i,
    {
        if cs[i] == c {
            proof {
                cs@.index_of_first_ensures(c);
                assert(cs@.contains(c)) by {
                    assert(cs@[i as int] == c);
                }
                let k = cs@.index_of_first(c).unwrap();
                assert(!(k < i));
                assert(!(i < k));
            }
            return Some(i);
        }
        i = i + 1;
    }
    proof {
        if cs@.contains(c) {
            let k = choose|k: int| 0 <= k < cs@.len() && cs@[k] == c;
            assert(cs@[k] != c);
        }
    }
    None
}

/// Index of the last `c` in `cs`.
pub fn find_last(cs: &[char], c: char) -> (r: Option<usize>)
    ensures
        r matches Some(i) ==> i < cs@.len() && cs@[i as int] == c && cs@.index_of_last(c) == Some(i as int),
        r is None ==> cs@.index_of_last(c) is None,
{
    proof {
        cs@.index_of_last_ensures(c);
    }
    let mut i: usize = cs.len();
    while i > 0
        invariant
            i <= cs@.len(),
            forall|j: int| i <= j < cs@.len() ==> cs@[j] != c,
        decreases i,
    {
        if cs[i - 1] == c {
            proof {
                cs@.index_of_last_ensures(c);
                assert(cs@.contains(c)) by {
                    assert(cs@[i - 1] == c);
                }
                let k = cs@.index_of_last(c).unwrap();
                assert(!(k < i - 1));
                assert(!(i - 1 < k));
            }
            return Some(i - 1);
        }
        i = i - 1;
    }
    proof {
        if cs@.contains(c) {
            let k = choose|k: int| 0 <= k < cs@.len() && cs@[k] == c;
            assert(cs@[k] != c);
        }
    }
    None
}

/// `split_once` on characters.
pub fn split_once_chars(cs: &[char], sep: char) -> (r: Option<(Vec<char>, Vec<char>)>)
    ensures
        r matches Some((a, b)) ==> split_once(cs@, sep) == Some((a@, b@)),
        r is None ==> split_once(cs@, sep) is None,
{
    let n = cs.len();
    match find_first(cs, sep) {
        Some(i) => Some((slice_range(cs, 0, i), slice_range(cs, i + 1, n))),
        None => None,
    }
}

/// `rsplit_once` on characters.
pub fn rsplit_once_chars(cs: &[char], sep: char) -> (r: Option<(Vec<char>, Vec<char>)>)
    ensures
        r matches Some((a, b)) ==> rsplit_once(cs@, sep) == Some((a@, b@)),
        r is None ==> rsplit_once(cs@, sep) is None,
{
    let n = cs.len();
    match find_last(cs, sep) {
        Some(i) => Some((slice_range(cs, 0, i), slice_range(cs, i + 1, n))),
        None => None,
    }
}

/// `splitn(3, sep)` on characters, when it yields exactly three pieces.
pub fn split_three_chars(cs: &[char], sep: char) -> (r: Option<(Vec<char>, Vec<char>, Vec<char>)>)
    ensures
        r matches Some((a, b, c)) ==> split_three(cs@, sep) == Some((a@, b@, c@)),
        r is None ==> split_three(cs@, sep) is None,
{
    match split_once_chars(cs, sep) {
        Some((a, rest)) => match split_once_chars(&rest, sep) {
            Some((b, c)) => Some((a, b, c)),
            None => None,
        },
        None => None,
    }
}

/// `strip_prefix` on characters.
pub fn strip_prefix_chars(cs: &[char], p: &str) -> (r: Option<Vec<char>>)
    ensures
        r matches Some(rest) ==> strip_prefix(cs@, p@) == Some(rest@),
        r is None ==> strip_prefix(cs@, p@) is None,
{
    let n = p.unicode_len();
    if n > cs.len() {
        return None;
    }
    let head = slice_range(cs, 0, n);
    if chars_eq(&head, p) {
        Some(slice_range(cs, n, cs.len()))
    } else {
        None
    }
}

// ---------------------------------------------------------------------------
// Decimal numbers
// ---------------------------------------------------------------------------

proof fn lemma_digits_value_nonneg(s: Seq<char>)
    requires
        all_digits(s),
    ensures
        digits_value(s) >= 0,
    decreases s.len(),
{
    if s.len() > 0 {
        assert(is_digit(s[s.len() - 1]));
        lemma_digits_value_nonneg(s.drop_last());
    }
}

/// A string of digits is worth at least as much as any of its prefixes.
proof fn lemma_digits_value_prefix(s: Seq<char>, k: int)
    requires
        all_digits(s),
        0 <= k <= s.len(),
    ensures
        0 <= digits_value(s.take(k)) <= digits_value(s),
    decreases s.len(),
{
    lemma_digits_value_nonneg(s.take(k));
    if k == s.len() {
        assert(s.take(k) =~= s);
    } else {
        assert(s.drop_last().take(k) =~= s.take(k));
        lemma_digits_value_prefix(s.drop_last(), k);
        lemma_digits_value_nonneg(s.drop_last());
        assert(is_digit(s[s.len() - 1]));
    }
}

/// The decimal digits of `n` are digits, begin with a digit, and are worth `n`.
pub proof fn lemma_decimal(n: nat)
    ensures
        decimal(n).len() > 0,
        all_digits(decimal(n)),
        digits_value(decimal(n)) == n,
    decreases n,
{
    let d = (n % 10) as int;
    assert(digit_char(d) as int == '0' as int + d);
    assert(digit_value(digit_char(d)) == d);
    let s = decimal(n);
    if n < 10 {
        assert(s.drop_last() =~= Seq::<char>::empty());
        assert(digits_value(s) == digits_value(s.drop_last()) * 10 + digit_value(s.last()));
    } else {
        lemma_decimal(n / 10);
        assert(s.drop_last() =~= decimal(n / 10));
        assert(s.last() == digit_char(d));
        assert(n == (n / 10) * 10 + n % 10) by (nonlinear_arith);
        assert(digits_value(s) == digits_value(s.drop_last()) * 10 + digit_value(s.last()));
        assert forall|j: int| 0 <= j < s.len() implies #[trigger] is_digit(s[j]) by {
            if j < s.len() - 1 {
                assert(s[j] == decimal(n / 10)[j]);
            }
        }
    }
}

/// Parsing what `Display` writes for an unsigned number gives the number back.
pub proof fn lemma_parse_unsigned_decimal(n: nat, max: int)
    requires
        n <= max,
    ensures
        parse_unsigned(decimal(n), max) == Some(n as int),
{
    lemma_decimal(n);
    assert(is_digit(decimal(n)[0]));
}

/// Parsing what `Display` writes for a signed number gives the number back.
pub proof fn lemma_parse_signed_decimal(i: int, min: int, max: int)
    requires
        min <= i <= max,
    ensures
        parse_signed(decimal_int(i), min, max) == Some(i),
{
    if i < 0 {
        lemma_decimal((-i) as nat);
        let s = decimal_int(i);
        assert(s.drop_first() =~= decimal((-i) as nat));
    } else {
        lemma_decimal(i as nat);
        assert(is_digit(decimal(i as nat)[0]));
    }
}

/// The value of `cs` when it is a nonempty run of digits worth at most `max`.
fn parse_digits(cs: &[char], max: u64) -> (r: Option<u64>)
    ensures
        r matches Some(v) ==> cs@.len() > 0 && all_digits(cs@) && digits_value(cs@) == v && v <= max,
        r is None ==> !(cs@.len() > 0 && all_digits(cs@) && digits_value(cs@) <= max),
{
    let n = cs.len();
    if n == 0 {
        return None;
    }
    let mut acc: u64 = 0;
    let mut i: usize = 0;
    while i < n
        invariant
            n == cs@.len(),
            i <= n,
            all_digits(cs@.take(i as int)),
            digits_value(cs@.take(i as int)) == acc,
            acc <= max,
        decreases n - i,
    {
        let c = cs[i];
        if !('0' <= c && c <= '9') {
            proof {
                if all_digits(cs@) {
                    assert(is_digit(cs@[i as int]));
                }
            }
            return None;
        }
        let d: u8 = (c as u32 - '0' as u32) as u8;
        let next: u128 = acc as u128 * 10 + d as u128;
        proof {
            let t = cs@.take(i + 1);
            assert(t.drop_last() =~= cs@.take(i as int));
            assert(t.last() == c);
            assert forall|j: int| 0 <= j < t.len() implies #[trigger] is_digit(t[j]) by {
                if j < i {
                    assert(t[j] == cs@.take(i as int)[j]);
                }
            }
        }
        if next > max as u128 {
            proof {
                if all_digits(cs@) {
                    lemma_digits_value_prefix(cs@, i + 1);
                }
            }
            return None;
        }
        acc = next as u64;
        i = i + 1;
    }
    assert(cs@.take(n as int) =~= cs@);
    Some(acc)
}

/// `str::parse` for an unsigned type whose largest value is `max`.
pub fn parse_unsigned_chars(cs: &[char], max: u64) -> (r: Option<u64>)
    ensures
        r matches Some(v) ==> parse_unsigned(cs@, max as int) == Some(v as int),
        r is None ==> parse_unsigned(cs@, max as int) is None,
{
    let n = cs.len();
    if n > 0 && cs[0] == '+' {
        let body = slice_range(cs, 1, n);
        assert(body@ =~= cs@.drop_first());
        parse_digits(&body, max)
    } else {
        parse_digits(cs, max)
    }
}

/// `str::parse` for a signed type ranging over `min..=max`.
pub fn parse_signed_chars(cs: &[char], min: i64, max: i64) -> (r: Option<i64>)
    requires
        min < 0 <= max,
    ensures
        r matches Some(v) ==> parse_signed(cs@, min as int, max as int) == Some(v as int) && min <= v <= max,
        r is None ==> parse_signed(cs@, min as int, max as int) is None,
{
    let n = cs.len();
    if n > 0 && cs[0] == '-' {
        let body = slice_range(cs, 1, n);
        assert(body@ =~= cs@.drop_first());
        let bound: u64 = (-(min + 1)) as u64 + 1;
        match parse_digits(&body, bound) {
            Some(v) => {
                proof {
                    lemma_digits_value_nonneg(body@);
                }
                if v == 0 {
                    Some(0)
                } else {
                    Some(-((v - 1) as i64) - 1)
                }
            },
            None => None,
        }
    } else {
        match parse_unsigned_chars(cs, max as u64) {
            Some(v) => {
                proof {
                    let b = if cs@.len() > 0 && cs@[0] == '+' { cs@.drop_first() } else { cs@ };
                    lemma_digits_value_nonneg(b);
                }
                Some(v as i64)
            },
            None => None,
        }
    }
}

/// `str::parse::<u8>`.
pub fn parse_u8(cs: &[char]) -> (r: Option<u8>)
    ensures
        r matches Some(v) ==> parse_unsigned(cs@, u8::MAX as int) == Some(v as int),
        r is None ==> parse_unsigned(cs@, u8::MAX as int) is None,
{
    match parse_unsigned_chars(cs, 255) {
        Some(v) => Some(v as u8),
        None => None,
    }
}

/// `str::parse::<u64>`.
pub fn parse_u64(cs: &[char]) -> (r: Option<u64>)
    ensures
        r matches Some(v) ==> parse_unsigned(cs@, u64::MAX as int) == Some(v as int),
        r is None ==> parse_unsigned(cs@, u64::MAX as int) is None,
{
    parse_unsigned_chars(cs, u64::MAX)
}

/// `str::parse::<usize>`.
pub fn parse_usize(cs: &[char]) -> (r: Option<usize>)
    ensures
        r matches Some(v) ==> parse_unsigned(cs@, usize::MAX as int) == Some(v as int),
        r is None ==> parse_unsigned(cs@, usize::MAX as int) is None,
{
    match parse_unsigned_chars(cs, usize::MAX as u64) {
        Some(v) => Some(v as usize),
        None => None,
    }
}

/// `str::parse::<i32>`.
pub fn parse_i32(cs: &[char]) -> (r: Option<i32>)
    ensures
        r matches Some(v) ==> parse_signed(cs@, i32::MIN as int, i32::MAX as int) == Some(v as int),
        r is None ==> parse_signed(cs@, i32::MIN as int, i32::MAX as int) is None,
{
    match parse_signed_chars(cs, i32::MIN as i64, i32::MAX as i64) {
        Some(v) => Some(v as i32),
        None => None,
    }
}

/// `str::parse::<i64>`.
pub fn parse_i64(cs: &[char]) -> (r: Option<i64>)
    ensures
        r matches Some(v) ==> parse_signed(cs@, i64::MIN as int, i64::MAX as int) == Some(v as int),
        r is None ==> parse_signed(cs@, i64::MIN as int, i64::MAX as int) is None,
{
    parse_signed_chars(cs, i64::MIN, i64::MAX)
}

/// Appends the decimal digits of `n`.
pub fn push_decimal(s: &mut String, n: u64)
    ensures
        final(s)@ == old(s)@ + decimal(n as nat),
    decreases n,
{
    if n >= 10 {
        push_decimal(s, n / 10);
    }
    let d: u8 = (n % 10) as u8;
    let c: char = (48u8 + d) as char;
    assert(c == digit_char((n % 10) as int));
    push_char(s, c);
    proof {
        if n >= 10 {
            assert(decimal(n as nat) == decimal((n / 10) as nat).push(digit_char((n % 10) as int)));
        }
    }
    assert(s@ =~= old(s)@ + decimal(n as nat));
}

/// Appends an integer as `Display` writes it.
pub fn push_int(s: &mut String, i: i64)
    ensures
        final(s)@ == old(s)@ + decimal_int(i as int),
{
    if i < 0 {
        push_char(s, '-');
        let m: u64 = (-(i + 1)) as u64 + 1;
        push_decimal(s, m);
        assert(s@ =~= old(s)@ + decimal_int(i as int));
    } else {
        push_decimal(s, i as u64);
    }
}

/// Appends an integer as `{:+}` writes it.
pub fn push_signed(s: &mut String, i: i64)
    ensures
        final(s)@ == old(s)@ + decimal_signed(i as int),
{
    if i < 0 {
        push_int(s, i);
    } else {
        push_char(s, '+');
        push_decimal(s, i as u64);
        assert(s@ =~= old(s)@ + decimal_signed(i as int));
    }
}

/// Appends `n` spaces.
pub fn push_spaces(s: &mut String, n: usize)
    ensures
        final(s)@ == old(s)@ + spaces(n as int),
{
    let mut i: usize = 0;
    while i < n
        invariant
            i <= n,
            s@ == old(s)@ + spaces(i as int),
        decreases n - i,
    {
        push_char(s, ' ');
        i = i + 1;
        assert(s@ =~= old(s)@ + spaces(i as int));
    }
}

/// Appends `t` padded with spaces on the right to width `w` (`{:<w}`).
pub fn push_pad_right(s: &mut String, t: &str, w: usize)
    ensures
        final(s)@ == old(s)@ + pad_right(t@, w as int),
{
    let n = t.unicode_len();
    push_str(s, t);
    if n < w {
        push_spaces(s, w - n);
    } else {
        push_spaces(s, 0);
    }
    assert(s@ =~= old(s)@ + pad_right(t@, w as int));
}

/// Appends `t` padded with spaces on the left to width `w` (`{:>w}`).
pub fn push_pad_left(s: &mut String, t: &str, w: usize)
    ensures
        final(s)@ == old(s)@ + pad_left(t@, w as int),
{
    let n = t.unicode_len();
    if n < w {
        push_spaces(s, w - n);
    } else {
        push_spaces(s, 0);
    }
    push_str(s, t);
    assert(s@ =~= old(s)@ + pad_left(t@, w as int));
}

/// An integer as `Display` writes it.
pub fn int_string(i: i64) -> (r: String)
    ensures
        r@ == decimal_int(i as int),
{
    let mut r = String::new();
    push_int(&mut r, i);
    assert(r@ =~= decimal_int(i as int));
    r
}

} // verus!
