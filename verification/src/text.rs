use vstd::prelude::*;
use vstd::string::StringExecFns;

verus! {

/// Appends one character to a string.
///
/// Trusted: calls `String::push`, which std documents as appending the given
/// `char` to the end of the string.
#[verifier::external_body]
pub(crate) fn push_char(s: &mut String, c: char)
    ensures
        final(s)@ == old(s)@.push(c),
{
    s.push(c)
}

/// The character of the decimal digit `d` (for `d < 10`).
pub open spec fn digit_char(d: nat) -> char {
    (d + 48) as char
}

/// The decimal text of the natural number `n`, without leading zeros.
pub open spec fn decimal(n: nat) -> Seq<char>
    decreases n,
{
    if n < 10 {
        seq![digit_char(n)]
    } else {
        decimal(n / 10).push(digit_char(n % 10))
    }
}

/// The decimal text of the integer `n`: a `-` in front of negative numbers.
pub open spec fn signed_decimal(n: int) -> Seq<char> {
    if n < 0 {
        seq!['-'] + decimal((-n) as nat)
    } else {
        decimal(n as nat)
    }
}

/// Appends the decimal text of `n` to `s`.
pub fn push_decimal(s: &mut String, n: u64)
    ensures
        final(s)@ == old(s)@ + decimal(n as nat),
    decreases n,
{
    if n >= 10 {
        push_decimal(s, n / 10);
    }
    let d: u8 = (n % 10) as u8;
    push_char(s, (d + 48) as char);
    assert(old(s)@ + decimal(n as nat) =~= if n >= 10 {
        (old(s)@ + decimal((n / 10) as nat)).push(digit_char((n % 10) as nat))
    } else {
        old(s)@.push(digit_char(n as nat))
    });
}

/// Appends the decimal text of `n` to `s`, with a `-` in front of negative numbers.
pub fn push_signed_decimal(s: &mut String, n: i64)
    ensures
        final(s)@ == old(s)@ + signed_decimal(n as int),
{
    if n < 0 {
        push_char(s, '-');
        let magnitude: u64 = (-(n as i128)) as u64;
        push_decimal(s, magnitude);
        assert(final(s)@ =~= old(s)@ + signed_decimal(n as int));
    } else {
        push_decimal(s, n as u64);
    }
}

/// The lowercase hexadecimal digit of `v` (for `v < 16`).
pub open spec fn hex_digit(v: nat) -> char {
    if v < 10 {
        (v + 48) as char
    } else {
        (v + 87) as char
    }
}

/// How one character stands inside a JSON string literal: `"` and `\` and the
/// control characters below U+0020 are escaped, the short forms `\b \f \n \r \t`
/// where JSON has them and `\u00XX` (lowercase hex) otherwise; every other
/// character stands for itself.
pub open spec fn json_escape_char(c: char) -> Seq<char> {
    if c == '"' {
        seq!['\\', '"']
    } else if c == '\\' {
        seq!['\\', '\\']
    } else if c == '\u{8}' {
        seq!['\\', 'b']
    } else if c == '\u{c}' {
        seq!['\\', 'f']
    } else if c == '\n' {
        seq!['\\', 'n']
    } else if c == '\r' {
        seq!['\\', 'r']
    } else if c == '\t' {
        seq!['\\', 't']
    } else if (c as u32) < 0x20 {
        seq!['\\', 'u', '0', '0', hex_digit((c as u32 / 16) as nat), hex_digit((c as u32 % 16) as nat)]
    } else {
        seq![c]
    }
}

/// The escaped contents of a JSON string literal holding `s`.
pub open spec fn json_escape(s: Seq<char>) -> Seq<char>
    decreases s.len(),
{
    if s.len() == 0 {
        Seq::empty()
    } else {
        json_escape(s.drop_last()) + json_escape_char(s.last())
    }
}

/// The JSON string literal holding `s`, quotes included.
pub open spec fn json_string(s: Seq<char>) -> Seq<char> {
    seq!['"'] + json_escape(s) + seq!['"']
}

/// The JSON string literal holding `s`, quotes included.
///
/// Trusted: calls `serde_json::to_string` on the `&str`. Its source writes a
/// quote, then each character as `json_escape_char` says (the `ESCAPE` table: `"`
/// and `\` escaped, `\b \f \n \r \t` short forms, the other controls below
/// U+0020 as `\u00XX` with lowercase hex digits, all else as itself), then a
/// quote; writing into a `Vec` cannot fail, so the error arm is never taken.
#[verifier::external_body]
fn json_string_literal(s: &str) -> (r: String)
    ensures
        r@ == json_string(s@),
{
    match serde_json::to_string(s) {
        Ok(literal) => literal,
        Err(_) => String::new(),
    }
}

/// Appends the JSON string literal holding `s`, quotes included, to `out`.
pub fn push_json_string(out: &mut String, s: &str)
    ensures
        final(out)@ == old(out)@ + json_string(s@),
{
    let literal = json_string_literal(s);
    out.append(literal.as_str());
}


/// The value of a hexadecimal digit (either case), or `None`.
pub open spec fn hex_value(c: char) -> Option<int> {
    if '0' <= c && c <= '9' {
        Some(c as int - 48)
    } else if 'a' <= c && c <= 'f' {
        Some(c as int - 87)
    } else if 'A' <= c && c <= 'F' {
        Some(c as int - 55)
    } else {
        None
    }
}

/// `c` followed by the characters of `rest`, where there are any.
pub open spec fn prepend(c: char, rest: Option<Seq<char>>) -> Option<Seq<char>> {
    match rest {
        Some(r) => Some(seq![c] + r),
        None => None,
    }
}

/// The characters that the contents `t` of a JSON string literal stand for:
/// the two-character escapes, `\uXXXX` for a code point outside the surrogate
/// range, and any other character but `"`, `\` and the controls below U+0020
/// standing for itself. `None` where `t` is not such contents; a surrogate pair
/// written as two `\u` escapes is not read here.
pub open spec fn json_unescape(t: Seq<char>) -> Option<Seq<char>>
    decreases t.len(),
{
    if t.len() == 0 {
        Some(Seq::empty())
    } else if t[0] == '\\' {
        if t.len() < 2 {
            None
        } else if t[1] == '"' {
            prepend('"', json_unescape(t.skip(2)))
        } else if t[1] == '\\' {
            prepend('\\', json_unescape(t.skip(2)))
        } else if t[1] == '/' {
            prepend('/', json_unescape(t.skip(2)))
        } else if t[1] == 'b' {
            prepend('\u{8}', json_unescape(t.skip(2)))
        } else if t[1] == 'f' {
            prepend('\u{c}', json_unescape(t.skip(2)))
        } else if t[1] == 'n' {
            prepend('\n', json_unescape(t.skip(2)))
        } else if t[1] == 'r' {
            prepend('\r', json_unescape(t.skip(2)))
        } else if t[1] == 't' {
            prepend('\t', json_unescape(t.skip(2)))
        } else if t[1] == 'u' && t.len() >= 6 && hex_value(t[2]) is Some && hex_value(t[3]) is Some
            && hex_value(t[4]) is Some && hex_value(t[5]) is Some {
            let v = hex_value(t[2])->Some_0 * 4096 + hex_value(t[3])->Some_0 * 256 + hex_value(t[4])->Some_0
                * 16 + hex_value(t[5])->Some_0;
            if 0xD800 <= v && v <= 0xDFFF {
                None
            } else {
                prepend(v as char, json_unescape(t.skip(6)))
            }
        } else {
            None
        }
    } else if t[0] == '"' || (t[0] as u32) < 0x20 {
        None
    } else {
        prepend(t[0], json_unescape(t.skip(1)))
    }
}

proof fn lemma_json_escape_append(a: Seq<char>, b: Seq<char>)
    ensures
        json_escape(a + b) == json_escape(a) + json_escape(b),
    decreases b.len(),
{
    if b.len() == 0 {
        assert(a + b =~= a);
        assert(json_escape(a) + json_escape(b) =~= json_escape(a));
    } else {
        lemma_json_escape_append(a, b.drop_last());
        assert((a + b).drop_last() =~= a + b.drop_last());
        assert(json_escape(a + b) =~= json_escape(a) + json_escape(b));
    }
}

proof fn lemma_json_unescape_char(c: char, t: Seq<char>)
    ensures
        json_unescape(json_escape_char(c) + t) == prepend(c, json_unescape(t)),
{
    let e = json_escape_char(c);
    let u = e + t;
    if c == '"' || c == '\\' || c == '\u{8}' || c == '\u{c}' || c == '\n' || c == '\r' || c == '\t' {
        assert(u.skip(2) =~= t);
    } else if (c as u32) < 0x20 {
        let v = c as u32;
        let hi = v / 16;
        let lo = v % 16;
        assert(hex_value(hex_digit(hi as nat)) == Some(hi as int));
        assert(hex_value(hex_digit(lo as nat)) == Some(lo as int));
        assert(hex_value('0') == Some(0int));
        assert(u[2] == '0' && u[3] == '0' && u[4] == hex_digit(hi as nat) && u[5] == hex_digit(lo as nat));
        assert(hi * 16 + lo == v);
        assert(u.skip(6) =~= t);
        assert((v as int) as char == c);
    } else {
        assert(u.skip(1) =~= t);
    }
}

/// Reading a JSON string's contents back gives the text that was written:
/// the escaping of `json_escape` loses nothing.
pub proof fn law_json_escape_reads_back(s: Seq<char>)
    ensures
        json_unescape(json_escape(s)) == Some(s),
    decreases s.len(),
{
    if s.len() > 0 {
        let rest = s.skip(1);
        law_json_escape_reads_back(rest);
        assert(s =~= seq![s[0]] + rest);
        lemma_json_escape_append(seq![s[0]], rest);
        let first = seq![s[0]];
        assert(first.drop_last() =~= Seq::<char>::empty());
        assert(first.last() == s[0]);
        assert(json_escape(first.drop_last()) =~= Seq::<char>::empty());
        assert(json_escape(first) =~= json_escape_char(s[0]));
        lemma_json_unescape_char(s[0], json_escape(rest));
        assert(seq![s[0]] + rest =~= s);
    }
}

/// The characters of `s`, in order.
pub fn chars_of(s: &str) -> (r: Vec<char>)
    ensures
        r@ == s@,
{
    broadcast use vstd::string::group_string_axioms;

    let mut r: Vec<char> = Vec::new();
    for c in it: s.chars()
        invariant
            it.seq() == s@,
            r@ == s@.take(it.index() as int),
    {
        proof {
            assert(s@.take(it.index() + 1) =~= s@.take(it.index() as int).push(c));
        }
        r.push(c);
    }
    proof {
        assert(s@.take(s@.len() as int) =~= s@);
    }
    r
}

/// Why a text is not a decimal `i64`, as std's integer parsing reports it.
#[derive(PartialEq, Eq, Structural, Clone, Copy, Debug)]
pub enum IntErrorKind {
    /// The text is empty.
    Empty,
    /// A character is not a digit (or the text is a lone sign).
    InvalidDigit,
    /// The number is above `i64::MAX`.
    PosOverflow,
    /// The number is below `i64::MIN`.
    NegOverflow,
}

/// The display text std gives for an integer parse error of the given kind.
pub open spec fn int_error_text(kind: IntErrorKind) -> Seq<char> {
    match kind {
        IntErrorKind::Empty => "cannot parse integer from empty string"@,
        IntErrorKind::InvalidDigit => "invalid digit found in string"@,
        IntErrorKind::PosOverflow => "number too large to fit in target type"@,
        IntErrorKind::NegOverflow => "number too small to fit in target type"@,
    }
}

/// The display text of an integer parse error.
pub fn int_error_message(kind: IntErrorKind) -> (r: &'static str)
    ensures
        r@ == int_error_text(kind),
{
    match kind {
        IntErrorKind::Empty => "cannot parse integer from empty string",
        IntErrorKind::InvalidDigit => "invalid digit found in string",
        IntErrorKind::PosOverflow => "number too large to fit in target type",
        IntErrorKind::NegOverflow => "number too small to fit in target type",
    }
}

/// `c` is one of `0`..`9`.
pub open spec fn is_digit(c: char) -> bool {
    '0' <= c && c <= '9'
}

/// The value of the digits `ds` read from the left, negated when `negative`;
/// the first character (from the left) that is not a digit, or at which the
/// running value leaves the `i64` range, decides the error.
pub open spec fn digits_value(ds: Seq<char>, negative: bool) -> Result<int, IntErrorKind>
    decreases ds.len(),
{
    if ds.len() == 0 {
        Ok(0)
    } else {
        match digits_value(ds.drop_last(), negative) {
            Err(e) => Err(e),
            Ok(v) => {
                let c = ds.last();
                if !is_digit(c) {
                    Err(IntErrorKind::InvalidDigit)
                } else {
                    let d = c as int - 48;
                    let w = if negative { v * 10 - d } else { v * 10 + d };
                    if w > i64::MAX {
                        Err(IntErrorKind::PosOverflow)
                    } else if w < i64::MIN {
                        Err(IntErrorKind::NegOverflow)
                    } else {
                        Ok(w)
                    }
                }
            },
        }
    }
}

/// What `str::parse::<i64>` gives for the text `s`: an optional `+` or `-`
/// followed by decimal digits.
pub open spec fn parse_i64_spec(s: Seq<char>) -> Result<i64, IntErrorKind> {
    if s.len() == 0 {
        Err(IntErrorKind::Empty)
    } else if (s[0] == '+' || s[0] == '-') && s.len() == 1 {
        Err(IntErrorKind::InvalidDigit)
    } else {
        let negative = s[0] == '-';
        let ds = if s[0] == '+' || s[0] == '-' { s.skip(1) } else { s };
        match digits_value(ds, negative) {
            Ok(v) => Ok(v as i64),
            Err(e) => Err(e),
        }
    }
}

proof fn lemma_error_persists(ds: Seq<char>, k: int, negative: bool)
    requires
        0 <= k <= ds.len(),
        digits_value(ds.take(k), negative) is Err,
    ensures
        digits_value(ds, negative) == digits_value(ds.take(k), negative),
    decreases ds.len() - k,
{
    if k == ds.len() {
        assert(ds.take(k) =~= ds);
    } else {
        assert(ds.take(k + 1).drop_last() =~= ds.take(k));
        lemma_error_persists(ds, k + 1, negative);
    }
}

/// Parses `s` as a decimal `i64`, as `str::parse::<i64>` does.
pub fn parse_i64(s: &str) -> (r: Result<i64, IntErrorKind>)
    ensures
        r == parse_i64_spec(s@),
{
    let cs = chars_of(s);
    let n = cs.len();
    if n == 0 {
        return Err(IntErrorKind::Empty);
    }
    let first = cs[0];
    if (first == '+' || first == '-') && n == 1 {
        return Err(IntErrorKind::InvalidDigit);
    }
    let negative = first == '-';
    let start: usize = if first == '+' || first == '-' { 1 } else { 0 };
    let ghost ds = if first == '+' || first == '-' { s@.skip(1) } else { s@ };
    proof {
        assert(s@.skip(0) =~= s@);
    }
    let mut acc: i64 = 0;
    let mut i: usize = start;
    while i < n
        invariant
            cs@ == s@,
            n == cs@.len(),
            n >= 1,
            negative == (s@[0] == '-'),
            start == (if s@[0] == '+' || s@[0] == '-' { 1usize } else { 0usize }),
            !((s@[0] == '+' || s@[0] == '-') && n == 1),
            start <= i <= n,
            ds == s@.skip(start as int),
            ds == (if s@[0] == '+' || s@[0] == '-' { s@.skip(1) } else { s@ }),
            digits_value(ds.take(i - start), negative) == Ok::<int, IntErrorKind>(acc as int),
        decreases n - i,
    {
        let c = cs[i];
        proof {
            assert(ds.take(i - start + 1).drop_last() =~= ds.take(i - start));
            assert(ds.take(i - start + 1).last() == c);
        }
        if !('0' <= c && c <= '9') {
            proof {
                assert(digits_value(ds.take(i - start + 1), negative) == Err::<int, IntErrorKind>(IntErrorKind::InvalidDigit));
                lemma_error_persists(ds, (i - start + 1) as int, negative); }
            return Err(IntErrorKind::InvalidDigit);
        }
        let d: i128 = (c as u32 - 48) as i128;
        let w: i128 = if negative { acc as i128 * 10 - d } else { acc as i128 * 10 + d };
        if w > i64::MAX as i128 {
            proof { lemma_error_persists(ds, (i - start + 1) as int, negative); }
            return Err(IntErrorKind::PosOverflow);
        }
        if w < i64::MIN as i128 {
            proof { lemma_error_persists(ds, (i - start + 1) as int, negative); }
            return Err(IntErrorKind::NegOverflow);
        }
        acc = w as i64;
        i = i + 1;
    }
    proof {
        assert(ds.take(n - start) =~= ds);
        assert(ds =~= if s@[0] == '+' || s@[0] == '-' { s@.skip(1) } else { s@ });
    }
    Ok(acc)
}


proof fn lemma_decimal_shape(m: nat)
    ensures
        decimal(m).len() >= 1,
        is_digit(decimal(m)[0]),
        decimal(m)[0] != '+' && decimal(m)[0] != '-',
    decreases m,
{
    if m >= 10 {
        lemma_decimal_shape(m / 10);
    }
}

proof fn lemma_digits_value_of_decimal(m: nat, negative: bool)
    requires
        negative ==> m <= 0x8000_0000_0000_0000,
        !negative ==> m <= 0x7fff_ffff_ffff_ffff,
    ensures
        digits_value(decimal(m), negative) == Ok::<int, IntErrorKind>(
            if negative { -(m as int) } else { m as int },
        ),
    decreases m,
{
    let s = decimal(m);
    let d = m % 10;
    assert(digit_char(d) as int == d + 48);
    assert(is_digit(digit_char(d)));
    if m < 10 {
        assert(s.drop_last() =~= Seq::<char>::empty());
        assert(s.last() == digit_char(d));
        assert(digits_value(s.drop_last(), negative) == Ok::<int, IntErrorKind>(0));
    } else {
        lemma_digits_value_of_decimal(m / 10, negative);
        assert(s.drop_last() =~= decimal(m / 10));
        assert(s.last() == digit_char(d));
        assert((m / 10) * 10 + m % 10 == m) by (nonlinear_arith);
        let v: int = if negative { -((m / 10) as int) } else { (m / 10) as int };
        assert(digits_value(s.drop_last(), negative) == Ok::<int, IntErrorKind>(v));
        assert((if negative { v * 10 - d } else { v * 10 + d }) == (if negative { -(m as int) } else { m as int })) by (nonlinear_arith)
            requires
                v == (if negative { -((m / 10) as int) } else { (m / 10) as int }),
                (m / 10) * 10 + m % 10 == m,
                d == m % 10;
    }
}

/// Reading back the decimal text of any `i64` gives that `i64`: the text
/// written for an id parses to the same id.
pub proof fn law_parse_reads_back_decimal(n: i64)
    ensures
        parse_i64_spec(signed_decimal(n as int)) == Ok::<i64, IntErrorKind>(n),
{
    if n < 0 {
        let m = (-(n as int)) as nat;
        lemma_decimal_shape(m);
        lemma_digits_value_of_decimal(m, true);
        let s = signed_decimal(n as int);
        assert(s.skip(1) =~= decimal(m));
    } else {
        lemma_decimal_shape(n as nat);
        lemma_digits_value_of_decimal(n as nat, false);
    }
}

} // verus!
