//! The value formatter: given one directive (a conversion kind and an
//! optional precision) and one value, produce the substituted text.
//!
//! The numeric treatment is deliberately textual surgery on the value's
//! coerced string — truncation and zero padding, never numeric rounding —
//! because callers rely on exactly that behaviour.

use crate::text::{chars_string, str_chars, subvec};
use crate::value::Value;
use vstd::prelude::*;

verus! {

/// A decimal digit.
pub open spec fn is_digit(c: char) -> bool {
    '0' as u32 <= c as u32 <= '9' as u32
}

/// The numeric value of one digit character.
pub open spec fn digit_val(c: char) -> nat {
    (c as u32 - '0' as u32) as nat
}

/// The numeric value of a digit string, most significant first.
pub open spec fn digits_val(t: Seq<char>) -> nat
    decreases t.len(),
{
    if t.len() == 0 {
        0
    } else {
        digits_val(t.drop_last()) * 10 + digit_val(t.last())
    }
}

pub open spec fn all_digits(t: Seq<char>) -> bool {
    forall|i: int| 0 <= i < t.len() ==> is_digit(#[trigger] t[i])
}

/// What a precision specifier parses to: the numeric value of a non-empty
/// all-digit string that fits a `usize`, and nothing otherwise.
pub open spec fn parse_prec(t: Seq<char>) -> Option<usize> {
    if t.len() > 0 && all_digits(t) && digits_val(t) <= usize::MAX {
        Option::Some(digits_val(t) as usize)
    } else {
        Option::None
    }
}

/// The index of the first `.` in `s`, or `s.len()` if there is none.
pub open spec fn first_dot(s: Seq<char>) -> int
    decreases s.len(),
{
    if s.len() == 0 {
        0
    } else if s[0] == '.' {
        0
    } else {
        1 + first_dot(s.drop_first())
    }
}

pub proof fn lemma_first_dot_bounds(s: Seq<char>)
    ensures
        0 <= first_dot(s) <= s.len(),
        first_dot(s) < s.len() ==> s[first_dot(s)] == '.',
        forall|j: int| 0 <= j < first_dot(s) ==> s[j] != '.',
    decreases s.len(),
{
    if s.len() == 0 {
    } else if s[0] == '.' {
    } else {
        lemma_first_dot_bounds(s.drop_first());
        assert forall|j: int| 0 <= j < first_dot(s) implies s[j] != '.' by {
            if j > 0 {
                assert(s[j] == s.drop_first()[j - 1]);
            }
        }
    }
}

/// If everything before `k` is not a dot, and `k` is a dot (or the end),
/// then `k` is the first dot position.
pub proof fn lemma_first_dot_at(s: Seq<char>, k: int)
    requires
        0 <= k <= s.len(),
        forall|j: int| 0 <= j < k ==> s[j] != '.',
        k < s.len() ==> s[k] == '.',
    ensures
        first_dot(s) == k,
    decreases s.len(),
{
    if s.len() == 0 {
    } else if s[0] == '.' {
        assert(k == 0);
    } else {
        assert(k >= 1);
        assert forall|j: int| 0 <= j < k - 1 implies s.drop_first()[j] != '.' by {
            assert(s.drop_first()[j] == s[j + 1]);
        }
        assert(k - 1 < s.drop_first().len() ==> s.drop_first()[k - 1] == '.');
        lemma_first_dot_at(s.drop_first(), k - 1);
    }
}

/// Left-pads with `'0'` until the length is at least `p`.
pub open spec fn zero_pad_left(t: Seq<char>, p: nat) -> Seq<char> {
    if t.len() >= p {
        t
    } else {
        Seq::new((p - t.len()) as nat, |i: int| '0') + t
    }
}

/// Fits a fractional part to exactly `p` characters: truncated if longer,
/// extended with trailing `'0'` if shorter.
pub open spec fn fit_frac(f: Seq<char>, p: nat) -> Seq<char> {
    if f.len() >= p {
        f.take(p as int)
    } else {
        f + Seq::new((p - f.len()) as nat, |i: int| '0')
    }
}

/// Appends a `.` if the text has none.
pub open spec fn ensure_dot(s: Seq<char>) -> Seq<char> {
    if first_dot(s) < s.len() {
        s
    } else {
        s.push('.')
    }
}

/// Integer rendering: everything from the first `.` on is cut off, then the
/// remainder is left-padded with zeros to the requested width.
pub open spec fn spec_render_int(s: Seq<char>, prec: Option<usize>) -> Seq<char> {
    let t = s.take(first_dot(s));
    match prec {
        Option::Some(p) => zero_pad_left(t, p as nat),
        Option::None => t,
    }
}

/// Float rendering for a positive precision `p`: a decimal point is
/// guaranteed, and the fractional part is cut or zero-extended to exactly
/// `p` digits.
pub open spec fn spec_render_float(s: Seq<char>, p: nat) -> Seq<char> {
    let t = ensure_dot(s);
    let d = first_dot(t);
    t.take(d + 1) + fit_frac(t.skip(d + 1), p)
}

/// What one directive substitutes for one value.
pub open spec fn spec_render(kind: char, prec: Option<usize>, v: Value) -> Seq<char> {
    if kind == 'd' || kind == 'i' {
        spec_render_int(v.display_seq(), prec)
    } else if kind == 'f' {
        match prec {
            Option::Some(p) => if p > 0 {
                spec_render_float(v.display_seq(), p as nat)
            } else {
                v.display_seq()
            },
            Option::None => v.display_seq(),
        }
    } else if kind == 'o' || kind == 'O' {
        v.structured_seq()
    } else {
        v.display_seq()
    }
}

/// The letters that terminate a directive.
pub open spec fn is_kind_char(c: char) -> bool {
    c == 's' || c == 'd' || c == 'i' || c == 'f' || c == 'o' || c == 'O'
}

/// The precision a full field code carries: the digits between its first
/// `.` and its final kind letter, if they parse.
pub open spec fn code_prec(code: Seq<char>) -> Option<usize> {
    let d = first_dot(code);
    if d + 1 <= code.len() - 1 {
        parse_prec(code.subrange(d + 1, code.len() - 1))
    } else {
        Option::None
    }
}

/// What a full field code (starting `%`, ending in a kind letter)
/// substitutes for a value. The code `%.0f` is special-cased to plain
/// integer rendering.
pub open spec fn spec_render_code(code: Seq<char>, v: Value) -> Seq<char> {
    if code == seq!['%', '.', '0', 'f'] {
        spec_render('i', Option::None, v)
    } else {
        spec_render(code.last(), code_prec(code), v)
    }
}

/// The value of a digit-string prefix never exceeds the value of the whole.
proof fn lemma_digits_val_prefix(t: Seq<char>, i: int)
    requires
        0 <= i <= t.len(),
    ensures
        digits_val(t.take(i)) <= digits_val(t),
    decreases t.len() - i,
{
    if i < t.len() {
        lemma_digits_val_prefix(t, i + 1);
        assert(t.take(i + 1).drop_last() =~= t.take(i));
        assert(digits_val(t.take(i + 1)) == digits_val(t.take(i)) * 10 + digit_val(
            t.take(i + 1).last(),
        ));
    } else {
        assert(t.take(i) =~= t);
    }
}

/// The index of the first `.` of `v`, or `v.len()` if there is none.
pub fn find_dot(v: &Vec<char>) -> (r: usize)
    ensures
        r == first_dot(v@),
{
    let mut i: usize = 0;
    while i < v.len()
        invariant
            i <= v@.len(),
            forall|j: int| 0 <= j < i ==> v@[j] != '.',
        decreases v@.len() - i,
    {
        if v[i] == '.' {
            proof {
                lemma_first_dot_at(v@, i as int);
            }
            return i;
        }
        i += 1;
    }
    proof {
        lemma_first_dot_at(v@, v@.len() as int);
    }
    i
}

/// Parses a precision specifier: a non-empty digit string that fits a
/// `usize`. Anything else — empty, a stray character, overflow — yields
/// nothing, and the directive then applies no padding.
pub fn parse_precision(t: &Vec<char>) -> (r: Option<usize>)
    ensures
        r == parse_prec(t@),
{
    if t.len() == 0 {
        return Option::None;
    }
    let mut acc: usize = 0;
    let mut i: usize = 0;
    while i < t.len()
        invariant
            i <= t@.len(),
            all_digits(t@.take(i as int)),
            acc == digits_val(t@.take(i as int)),
        decreases t@.len() - i,
    {
        let c = t[i];
        let u = c as u32;
        if u < '0' as u32 || u > '9' as u32 {
            assert(!is_digit(t@[i as int]));
            return Option::None;
        }
        let d = (u - '0' as u32) as usize;
        proof {
            assert(t@.take(i + 1).drop_last() =~= t@.take(i as int));
            assert(t@.take(i + 1).last() == t@[i as int]);
            assert(d as nat == digit_val(t@[i as int]));
            assert forall|j: int| 0 <= j < i + 1 implies is_digit(#[trigger] t@.take(i + 1)[j]) by {
                if j < i {
                    assert(t@.take(i as int)[j] == t@[j]);
                }
                assert(t@.take(i + 1)[j] == t@[j]);
            }
        }
        let next = match acc.checked_mul(10) {
            Option::Some(m) => m.checked_add(d),
            Option::None => Option::None,
        };
        match next {
            Option::Some(n) => {
                acc = n;
            },
            Option::None => {
                proof {
                    assert(digits_val(t@.take(i + 1)) > usize::MAX);
                    lemma_digits_val_prefix(t@, i + 1);
                }
                return Option::None;
            },
        }
        i += 1;
    }
    proof {
        assert(t@.take(t@.len() as int) =~= t@);
    }
    Option::Some(acc)
}

/// Integer rendering on the character level.
fn render_int_chars(s: &Vec<char>, precision: Option<usize>) -> (r: Vec<char>)
    ensures
        r@ == spec_render_int(s@, precision),
{
    let d = find_dot(s);
    proof {
        lemma_first_dot_bounds(s@);
    }
    let mut t = subvec(s, 0, d);
    assert(t@ =~= s@.take(first_dot(s@)));
    if let Option::Some(p) = precision {
        let ghost t0 = t@;
        assert(t@ =~= Seq::new(0, |i: int| '0') + t0);
        while t.len() < p
            invariant
                t@.len() == t0.len() || t0.len() < t@.len() <= p,
                t@ == Seq::new((t@.len() - t0.len()) as nat, |i: int| '0') + t0,
            decreases p - t.len(),
        {
            t.insert(0, '0');
            assert(t@ =~= Seq::new((t@.len() - t0.len()) as nat, |i: int| '0') + t0);
        }
        assert(t@ =~= zero_pad_left(t0, p as nat));
    }
    t
}

/// Float rendering on the character level, for a positive precision.
fn render_float_chars(s: &Vec<char>, p: usize) -> (r: Vec<char>)
    requires
        p > 0,
    ensures
        r@ == spec_render_float(s@, p as nat),
{
    let d = find_dot(s);
    proof {
        lemma_first_dot_bounds(s@);
    }
    let mut t = subvec(s, 0, s.len());
    assert(t@ =~= s@);
    if d == t.len() {
        t.push('.');
        proof {
            lemma_first_dot_at(t@, d as int);
        }
    }
    assert(t@ == ensure_dot(s@));
    assert(first_dot(t@) == d as int);
    let mut out = subvec(&t, 0, d + 1);
    let mut frac = subvec(&t, d + 1, t.len());
    assert(frac@ =~= t@.skip(d + 1));
    if frac.len() >= p {
        frac.truncate(p);
        assert(frac@ =~= fit_frac(t@.skip(d + 1), p as nat));
    } else {
        let ghost f0 = frac@;
        assert(frac@ =~= f0 + Seq::new(0, |i: int| '0'));
        while frac.len() < p
            invariant
                frac@.len() == f0.len() || f0.len() < frac@.len() <= p,
                frac@ == f0 + Seq::new((frac@.len() - f0.len()) as nat, |i: int| '0'),
            decreases p - frac.len(),
        {
            frac.push('0');
            assert(frac@ =~= f0 + Seq::new((frac@.len() - f0.len()) as nat, |i: int| '0'));
        }
        assert(frac@ =~= fit_frac(f0, p as nat));
    }
    out.append(&mut frac);
    assert(out@ =~= t@.take(d + 1) + fit_frac(t@.skip(d + 1), p as nat));
    out
}

/// The substituted text for one directive and one value, on the character
/// level.
pub fn render_chars(kind: char, precision: Option<usize>, value: &Value) -> (r: Vec<char>)
    ensures
        r@ == spec_render(kind, precision, *value),
{
    if kind == 'd' || kind == 'i' {
        let s = value.to_display_string();
        let cs = str_chars(s.as_str());
        render_int_chars(&cs, precision)
    } else if kind == 'f' {
        let p = match precision {
            Option::Some(p) => p,
            Option::None => 0,
        };
        if p > 0 {
            let s = value.to_display_string();
            let cs = str_chars(s.as_str());
            render_float_chars(&cs, p)
        } else {
            let s = value.to_display_string();
            str_chars(s.as_str())
        }
    } else if kind == 'o' || kind == 'O' {
        let s = value.to_structured_string();
        str_chars(s.as_str())
    } else {
        let s = value.to_display_string();
        str_chars(s.as_str())
    }
}

/// What one directive substitutes for one value; `render('i', None, v)` on
/// a value displaying as `3.7` yields `3`, `render('f', Some(2), v)` on a
/// value displaying as `1.1` yields `1.10`.
pub fn render(kind: char, precision: Option<usize>, value: &Value) -> (r: String)
    ensures
        r@ == spec_render(kind, precision, *value),
{
    let cs = render_chars(kind, precision, value);
    chars_string(&cs)
}

/// The substituted text for a full field code, on the character level.
pub fn render_code_chars(code: &Vec<char>, value: &Value) -> (r: Vec<char>)
    requires
        code@.len() >= 1,
    ensures
        r@ == spec_render_code(code@, *value),
{
    let is_zero_float = code.len() == 4 && code[0] == '%' && code[1] == '.' && code[2] == '0'
        && code[3] == 'f';
    if is_zero_float {
        assert(code@ =~= seq!['%', '.', '0', 'f']);
        return render_chars('i', Option::None, value);
    }
    proof {
        let spec_code = seq!['%', '.', '0', 'f'];
        if code@ == spec_code {
            assert(code@.len() == 4);
            assert(code@[0] == '%' && code@[1] == '.' && code@[2] == '0' && code@[3] == 'f');
        }
    }
    let kind = code[code.len() - 1];
    let d = find_dot(code);
    let precision: Option<usize> = if d < code.len() - 1 {
        let digits = subvec(code, d + 1, code.len() - 1);
        parse_precision(&digits)
    } else {
        proof {
            lemma_first_dot_bounds(code@);
        }
        Option::None
    };
    render_chars(kind, precision, value)
}

/// What one full field code substitutes for one value: the directive's kind
/// letter is its last character, its precision the digits after its `.`.
/// The code `%.0f` renders as `%i` does.
pub fn render_field(field: &str, value: &Value) -> (r: String)
    requires
        field@.len() >= 1,
    ensures
        r@ == spec_render_code(field@, *value),
{
    let code = str_chars(field);
    let cs = render_code_chars(&code, value);
    chars_string(&cs)
}

} // verus!
