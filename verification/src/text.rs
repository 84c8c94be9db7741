//! Text primitives: decimal rendering, padding, case folding and prefixes.

use vstd::prelude::*;

verus! {

/// The character of a decimal digit.
pub open spec fn digit_char(d: int) -> char {
    (48 + d) as char
}

/// Decimal rendering of a natural number, with no leading zeros.
pub open spec fn decimal(n: nat) -> Seq<char>
    decreases n,
{
    if n < 10 {
        seq![digit_char(n as int)]
    } else {
        decimal(n / 10).push(digit_char((n % 10) as int))
    }
}

/// Calls `String::push`, which appends the character to the end of the
/// string; the contract states exactly that.
#[verifier::external_body]
pub(crate) fn push_char(s: &mut String, c: char)
    ensures
        final(s)@ == old(s)@.push(c),
{
    s.push(c);
}

/// The characters of a string slice, in order.
pub fn chars_of(s: &str) -> (v: Vec<char>)
    ensures
        v@ == s@,
{
    let mut v: Vec<char> = Vec::new();
    for c in it: s.chars()
        invariant
            v@ == it.seq().take(it.index() as int),
            it.seq() == s@,
    {
        v.push(c);
    }
    v
}

/// Appends the decimal rendering of `n` to `out`.
fn push_decimal(out: &mut String, n: u32)
    ensures
        final(out)@ == old(out)@ + decimal(n as nat),
    decreases n,
{
    if n >= 10 {
        push_decimal(out, n / 10);
    }
    let d: u8 = (n % 10) as u8;
    push_char(out, (48u8 + d) as char);
}

/// The decimal rendering of an unsigned integer, as `u32::to_string` gives it.
pub fn u32_to_decimal(n: u32) -> (s: String)
    ensures
        s@ == decimal(n as nat),
{
    let mut s = String::new();
    push_decimal(&mut s, n);
    s
}

/// Decimal rendering of a signed integer: a minus sign before the magnitude
/// when the value is negative.
pub open spec fn signed_decimal(n: int) -> Seq<char> {
    if n < 0 {
        seq!['-'].add(decimal((-n) as nat))
    } else {
        decimal(n as nat)
    }
}

/// The decimal rendering of a signed integer, as `i32::to_string` gives it.
pub fn i32_to_decimal(n: i32) -> (s: String)
    ensures
        s@ == signed_decimal(n as int),
{
    let mut s = String::new();
    if n < 0 {
        push_char(&mut s, '-');
        let magnitude: u32 = if n == i32::MIN {
            2147483648u32
        } else {
            (-n) as u32
        };
        push_decimal(&mut s, magnitude);
    } else {
        push_decimal(&mut s, n as u32);
    }
    s
}

/// How `bool::to_string` renders a boolean.
pub open spec fn bool_text(b: bool) -> Seq<char> {
    if b {
        seq!['t', 'r', 'u', 'e']
    } else {
        seq!['f', 'a', 'l', 's', 'e']
    }
}

/// The text of a boolean, as `bool::to_string` gives it.
pub fn bool_to_text(b: bool) -> (s: String)
    ensures
        s@ == bool_text(b),
{
    let mut s = String::new();
    if b {
        push_char(&mut s, 't');
        push_char(&mut s, 'r');
        push_char(&mut s, 'u');
        push_char(&mut s, 'e');
    } else {
        push_char(&mut s, 'f');
        push_char(&mut s, 'a');
        push_char(&mut s, 'l');
        push_char(&mut s, 's');
        push_char(&mut s, 'e');
    }
    s
}

/// `n` spaces.
pub open spec fn spaces(n: nat) -> Seq<char> {
    Seq::new(n, |i: int| ' ')
}

/// Left-aligned padding to a minimum width counted in characters, as the
/// `{:<width$}` format specifier does it.
pub open spec fn pad_right(s: Seq<char>, width: nat) -> Seq<char> {
    if s.len() >= width {
        s
    } else {
        s + spaces((width - s.len()) as nat)
    }
}

/// Appends `s` padded with spaces on the right to at least `width` characters.
pub fn push_padded(out: &mut String, s: &str, width: usize)
    ensures
        final(out)@ == old(out)@ + pad_right(s@, width as nat),
{
    let chars = chars_of(s);
    out.append(s);
    let mut k: usize = chars.len();
    let ghost start = out@;
    while k < width
        invariant
            chars.len() <= k <= width || (chars.len() >= width && k == chars.len()),
            chars@ == s@,
            start == old(out)@ + s@,
            out@ == start + spaces((k - chars.len()) as nat),
        decreases width - k,
    {
        push_char(out, ' ');
        k = k + 1;
        assert(spaces((k - chars.len()) as nat) =~= spaces((k - 1 - chars.len()) as nat).push(' '));
    }
    assert(out@ =~= old(out)@ + pad_right(s@, width as nat));
}

/// What `str::to_lowercase` returns for a string: its lowercase mapping under
/// the Unicode tables of the standard library.
pub uninterp spec fn lowercase(s: Seq<char>) -> Seq<char>;

/// Calls `str::to_lowercase`. The contract states only that the result is the
/// lowercase mapping of the argument, a function of the argument alone; the
/// Unicode case tables themselves are not written out.
#[verifier::external_body]
pub(crate) fn to_lowercase(s: &str) -> (r: String)
    ensures
        r@ == lowercase(s@),
{
    s.to_lowercase()
}

/// Whether two strings are equal once both are mapped to lowercase.
pub open spec fn same_ignoring_case(a: Seq<char>, b: Seq<char>) -> bool {
    lowercase(a) == lowercase(b)
}

/// Compares two strings after mapping both to lowercase.
pub fn eq_ignore_case(a: &str, b: &str) -> (r: bool)
    ensures
        r == same_ignoring_case(a@, b@),
{
    let la = to_lowercase(a);
    let lb = to_lowercase(b);
    la == lb
}

/// Whether `p` is a prefix of `s`.
pub open spec fn has_prefix(s: Seq<char>, p: Seq<char>) -> bool {
    p.len() <= s.len() && s.subrange(0, p.len() as int) == p
}

/// Whether `t` is a suffix of `s`.
pub open spec fn has_suffix(s: Seq<char>, t: Seq<char>) -> bool {
    t.len() <= s.len() && s.subrange(s.len() - t.len(), s.len() as int) == t
}

/// Whether the characters of `s` begin with those of `p`.
pub fn starts_with(s: &str, p: &str) -> (r: bool)
    ensures
        r == has_prefix(s@, p@),
{
    let sc = chars_of(s);
    let pc = chars_of(p);
    if pc.len() > sc.len() {
        return false;
    }
    let mut i: usize = 0;
    while i < pc.len()
        invariant
            sc@ == s@,
            pc@ == p@,
            pc.len() <= sc.len(),
            i <= pc.len(),
            forall|j: int| 0 <= j < i ==> sc@[j] == pc@[j],
        decreases pc.len() - i,
    {
        if sc[i] != pc[i] {
            assert(s@.subrange(0, p@.len() as int)[i as int] != p@[i as int]);
            return false;
        }
        i = i + 1;
    }
    assert(s@.subrange(0, p@.len() as int) =~= p@);
    true
}

/// The string with every trailing `/` removed, as `trim_end_matches('/')` does.
pub open spec fn trim_trailing_slashes(s: Seq<char>) -> Seq<char>
    decreases s.len(),
{
    if s.len() > 0 && s.last() == '/' {
        trim_trailing_slashes(s.drop_last())
    } else {
        s
    }
}

/// Removes every trailing `/` from a string.
pub fn trim_end_slashes(s: &str) -> (r: String)
    ensures
        r@ == trim_trailing_slashes(s@),
{
    let chars = chars_of(s);
    let mut end: usize = chars.len();
    assert(s@.subrange(0, end as int) =~= s@);
    while end > 0 && chars[end - 1] == '/'
        invariant
            chars@ == s@,
            end <= chars.len(),
            trim_trailing_slashes(s@) == trim_trailing_slashes(s@.subrange(0, end as int)),
        decreases end,
    {
        assert(s@.subrange(0, end as int).drop_last() =~= s@.subrange(0, end - 1));
        end = end - 1;
    }
    let mut r = String::new();
    let mut i: usize = 0;
    while i < end
        invariant
            chars@ == s@,
            end <= chars.len(),
            i <= end,
            r@ == s@.subrange(0, i as int),
        decreases end - i,
    {
        push_char(&mut r, chars[i]);
        i = i + 1;
        assert(r@ =~= s@.subrange(0, i as int));
    }
    r
}

// ── Laws ─────────────────────────────────────────────────────────────

/// The decimal rendering of a number is a non-empty string of digits that
/// starts with `0` only for zero itself.
pub proof fn lemma_decimal_digits(n: nat)
    ensures
        decimal(n).len() >= 1,
        forall|i: int| 0 <= i < decimal(n).len() ==> '0' <= #[trigger] decimal(n)[i] <= '9',
        n > 0 ==> decimal(n)[0] != '0',
    decreases n,
{
    if n >= 10 {
        lemma_decimal_digits(n / 10);
        let d = decimal(n / 10);
        assert forall|i: int| 0 <= i < decimal(n).len() implies '0' <= #[trigger] decimal(n)[i] <= '9' by {
            if i < d.len() {
                assert(decimal(n)[i] == d[i]);
            }
        }
        assert(decimal(n)[0] == d[0]);
    }
}

/// Padding keeps the text in front and makes it exactly as long as the
/// width, unless the text is already longer; it then adds nothing.
pub proof fn lemma_pad_right(s: Seq<char>, width: nat)
    ensures
        pad_right(s, width).len() == if s.len() >= width { s.len() } else { width },
        pad_right(s, width).subrange(0, s.len() as int) == s,
        forall|i: int| s.len() <= i < pad_right(s, width).len() ==> #[trigger] pad_right(s, width)[i] == ' ',
{
    assert(pad_right(s, width).subrange(0, s.len() as int) =~= s);
}

/// A base URL with its trailing slashes removed ends in no slash, is a prefix
/// of the URL followed only by slashes, and trimming it again changes nothing.
pub proof fn lemma_trim_trailing_slashes(s: Seq<char>)
    ensures
        trim_trailing_slashes(s).len() <= s.len(),
        s.subrange(0, trim_trailing_slashes(s).len() as int) == trim_trailing_slashes(s),
        forall|i: int| trim_trailing_slashes(s).len() <= i < s.len() ==> #[trigger] s[i] == '/',
        trim_trailing_slashes(s).len() > 0 ==> trim_trailing_slashes(s).last() != '/',
        trim_trailing_slashes(trim_trailing_slashes(s)) == trim_trailing_slashes(s),
    decreases s.len(),
{
    if s.len() > 0 && s.last() == '/' {
        let r = s.drop_last();
        lemma_trim_trailing_slashes(r);
        let t = trim_trailing_slashes(r);
        assert(s.subrange(0, t.len() as int) =~= r.subrange(0, t.len() as int));
        assert forall|i: int| t.len() <= i < s.len() implies #[trigger] s[i] == '/' by {
            if i < r.len() {
                assert(s[i] == r[i]);
            }
        }
    } else {
        assert(s.subrange(0, s.len() as int) =~= s);
    }
}

} // verus!
