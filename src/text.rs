//! Character-level helpers: conversions between strings and character vectors, the
//! UTF-8 width of text, and strings bounded by a byte length.
use vstd::prelude::*;

verus! {

/// Relies on `str::chars`: the characters of `s` in order.
#[verifier::external_body]
pub fn chars_of(s: &str) -> (r: Vec<char>)
    ensures
        r@ == s@,
{
    s.chars().collect()
}

/// Relies on `FromIterator<&char>` for `String`: the string of these characters in order.
#[verifier::external_body]
pub fn string_of(cs: &Vec<char>) -> (r: String)
    ensures
        r@ == cs@,
{
    cs.iter().collect()
}

/// How many bytes UTF-8 takes for `c`.
pub open spec fn char_width(c: char) -> nat {
    if (c as u32) < 0x80 {
        1
    } else if (c as u32) < 0x800 {
        2
    } else if (c as u32) < 0x10000 {
        3
    } else {
        4
    }
}

pub fn char_width_exec(c: char) -> (r: usize)
    ensures
        r == char_width(c),
{
    let v = c as u32;
    if v < 0x80 {
        1
    } else if v < 0x800 {
        2
    } else if v < 0x10000 {
        3
    } else {
        4
    }
}

/// How many bytes UTF-8 takes for `s`.
pub open spec fn utf8_len(s: Seq<char>) -> nat
    decreases s.len(),
{
    if s.len() == 0 {
        0
    } else {
        char_width(s[0]) + utf8_len(s.drop_first())
    }
}

/// The longest leading part of `s` that fits in `max` bytes: a character that would
/// be split is left out with everything after it.
pub open spec fn truncate_utf8(s: Seq<char>, max: nat) -> Seq<char>
    decreases s.len(),
{
    if s.len() == 0 || char_width(s[0]) > max {
        Seq::empty()
    } else {
        seq![s[0]] + truncate_utf8(s.drop_first(), (max - char_width(s[0])) as nat)
    }
}

/// Truncation keeps a leading part of the text, within the byte bound, and changes
/// nothing that already fits.
pub proof fn lemma_truncate_utf8(s: Seq<char>, max: nat)
    ensures
        utf8_len(truncate_utf8(s, max)) <= max,
        s.len() >= truncate_utf8(s, max).len(),
        truncate_utf8(s, max) == s.take(truncate_utf8(s, max).len() as int),
        utf8_len(s) <= max ==> truncate_utf8(s, max) == s,
    decreases s.len(),
{
    if s.len() == 0 || char_width(s[0]) > max {
        assert(s.take(0) =~= Seq::<char>::empty());
        assert(utf8_len(Seq::<char>::empty()) == 0);
    } else {
        let rest = truncate_utf8(s.drop_first(), (max - char_width(s[0])) as nat);
        lemma_truncate_utf8(s.drop_first(), (max - char_width(s[0])) as nat);
        let t = seq![s[0]] + rest;
        assert(t.drop_first() =~= rest);
        assert(t =~= s.take(t.len() as int));
    }
}

proof fn truncate_step(s: Seq<char>, i: int, budget: nat)
    requires
        0 <= i < s.len(),
        char_width(s[i]) <= budget,
    ensures
        truncate_utf8(s.skip(i), budget) == seq![s[i]] + truncate_utf8(
            s.skip(i + 1),
            (budget - char_width(s[i])) as nat,
        ),
{
    assert(s.skip(i).drop_first() =~= s.skip(i + 1));
}

/// The longest leading part of `s` that takes at most `max` bytes.
pub fn truncate_to_bytes(s: &str, max: usize) -> (r: String)
    ensures
        r@ == truncate_utf8(s@, max as nat),
{
    let cs = chars_of(s);
    let mut out: Vec<char> = Vec::new();
    let mut budget: usize = max;
    let mut i: usize = 0;
    assert(cs@.skip(0) =~= cs@);
    while i < cs.len()
        invariant
            i <= cs.len(),
            out@ + truncate_utf8(cs@.skip(i as int), budget as nat) == truncate_utf8(
                cs@,
                max as nat,
            ),
        ensures
            i < cs.len() ==> char_width(cs@[i as int]) > budget,
            out@ + truncate_utf8(cs@.skip(i as int), budget as nat) == truncate_utf8(
                cs@,
                max as nat,
            ),
        decreases cs.len() - i,
    {
        let w = char_width_exec(cs[i]);
        if w > budget {
            break;
        }
        proof {
            truncate_step(cs@, i as int, budget as nat);
        }
        assert(out@.push(cs@[i as int]) + truncate_utf8(
            cs@.skip(i + 1),
            (budget - w) as nat,
        ) =~= out@ + (seq![cs@[i as int]] + truncate_utf8(cs@.skip(i + 1), (budget - w) as nat)));
        out.push(cs[i]);
        budget = budget - w;
        i = i + 1;
    }
    if i == cs.len() {
        assert(cs@.skip(i as int) =~= Seq::<char>::empty());
    } else {
        assert(cs@.skip(i as int)[0] == cs@[i as int]);
    }
    assert(out@ + Seq::<char>::empty() =~= out@);
    string_of(&out)
}

/// A string of at most `MAX` bytes.
#[derive(Clone, Debug)]
pub struct BoundedString<const MAX: usize> {
    text: String,
}

impl<const MAX: usize> View for BoundedString<MAX> {
    type V = Seq<char>;

    closed spec fn view(&self) -> Seq<char> {
        self.text@
    }
}

impl<const MAX: usize> BoundedString<MAX> {
    pub closed spec fn wf(&self) -> bool {
        utf8_len(self.text@) <= MAX
    }

    pub fn as_str(&self) -> (r: &str)
        ensures
            r@ == self@,
    {
        self.text.as_str()
    }

    pub fn to_string(&self) -> (r: String)
        ensures
            r@ == self@,
    {
        self.text.clone()
    }
}

/// Bounds `s` to `MAX` bytes by keeping its longest leading part that fits; never
/// splits a character.
pub fn truncate_convert<const MAX: usize>(s: String) -> (r: BoundedString<MAX>)
    ensures
        r@ == truncate_utf8(s@, MAX as nat),
        r.wf(),
{
    proof {
        lemma_truncate_utf8(s@, MAX as nat);
    }
    BoundedString { text: truncate_to_bytes(s.as_str(), MAX) }
}

/// `s` with each `from` replaced by `to`.
pub open spec fn replace_char_spec(s: Seq<char>, from: char, to: Seq<char>) -> Seq<char>
    decreases s.len(),
{
    if s.len() == 0 {
        Seq::empty()
    } else if s.last() == from {
        replace_char_spec(s.drop_last(), from, to) + to
    } else {
        replace_char_spec(s.drop_last(), from, to).push(s.last())
    }
}

/// Replaces each `from` of `s` by `to`.
pub fn replace_char(s: &str, from: char, to: &str) -> (r: String)
    ensures
        r@ == replace_char_spec(s@, from, to@),
{
    let cs = chars_of(s);
    let mut out: Vec<char> = Vec::new();
    let mut i: usize = 0;
    while i < cs.len()
        invariant
            i <= cs@.len(),
            cs@ == s@,
            out@ == replace_char_spec(cs@.take(i as int), from, to@),
        decreases cs@.len() - i,
    {
        assert(cs@.take(i + 1).drop_last() =~= cs@.take(i as int));
        assert(cs@.take(i + 1).last() == cs@[i as int]);
        if cs[i] == from {
            let mut piece = chars_of(to);
            out.append(&mut piece);
        } else {
            out.push(cs[i]);
        }
        i = i + 1;
    }
    assert(cs@.take(i as int) =~= cs@);
    string_of(&out)
}

/// The decimal digit for `d`.
pub open spec fn digit_char(d: nat) -> char {
    if d == 0 {
        '0'
    } else if d == 1 {
        '1'
    } else if d == 2 {
        '2'
    } else if d == 3 {
        '3'
    } else if d == 4 {
        '4'
    } else if d == 5 {
        '5'
    } else if d == 6 {
        '6'
    } else if d == 7 {
        '7'
    } else if d == 8 {
        '8'
    } else {
        '9'
    }
}

/// The decimal text of `n`, without leading zeros.
pub open spec fn decimal_spec(n: nat) -> Seq<char>
    decreases n,
{
    if n < 10 {
        seq![digit_char(n)]
    } else {
        decimal_spec(n / 10).push(digit_char(n % 10))
    }
}

fn digit_exec(d: u64) -> (r: char)
    requires
        d < 10,
    ensures
        r == digit_char(d as nat),
{
    if d == 0 {
        '0'
    } else if d == 1 {
        '1'
    } else if d == 2 {
        '2'
    } else if d == 3 {
        '3'
    } else if d == 4 {
        '4'
    } else if d == 5 {
        '5'
    } else if d == 6 {
        '6'
    } else if d == 7 {
        '7'
    } else if d == 8 {
        '8'
    } else {
        '9'
    }
}

/// Appends the decimal text of `n` to `out`.
pub fn push_decimal(out: &mut Vec<char>, n: u64)
    ensures
        final(out)@ == old(out)@ + decimal_spec(n as nat),
    decreases n,
{
    if n >= 10 {
        push_decimal(out, n / 10);
    }
    out.push(digit_exec(n % 10));
    assert(final(out)@ =~= old(out)@ + decimal_spec(n as nat));
}

/// The decimal text of `n`.
pub fn decimal(n: u64) -> (r: String)
    ensures
        r@ == decimal_spec(n as nat),
{
    let mut out: Vec<char> = Vec::new();
    push_decimal(&mut out, n);
    assert(out@ =~= decimal_spec(n as nat));
    string_of(&out)
}

/// `c` with an ASCII capital letter made small.
pub open spec fn ascii_lower(c: char) -> char {
    if 'A' <= c && c <= 'Z' {
        ((c as u32) + 32) as char
    } else {
        c
    }
}

/// Whether `a` and `b` are equal when ASCII letters are compared without case.
pub open spec fn eq_ignore_ascii_case_spec(a: Seq<char>, b: Seq<char>) -> bool {
    a.len() == b.len() && forall|i: int| 0 <= i < a.len() ==> ascii_lower(#[trigger] a[i]) == ascii_lower(b[i])
}

fn ascii_lower_eq(x: char, y: char) -> (r: bool)
    ensures
        r == (ascii_lower(x) == ascii_lower(y)),
{
    let a = if 'A' <= x && x <= 'Z' { (x as u32) + 32 } else { x as u32 };
    let b = if 'A' <= y && y <= 'Z' { (y as u32) + 32 } else { y as u32 };
    proof {
        assert(ascii_lower(x) as u32 == a);
        assert(ascii_lower(y) as u32 == b);
    }
    a == b
}

/// Whether `a` and `b` are equal when ASCII letters are compared without case.
pub fn eq_ignore_ascii_case(a: &str, b: &str) -> (r: bool)
    ensures
        r == eq_ignore_ascii_case_spec(a@, b@),
{
    let xs = chars_of(a);
    let ys = chars_of(b);
    if xs.len() != ys.len() {
        return false;
    }
    let mut i: usize = 0;
    while i < xs.len()
        invariant
            i <= xs@.len(),
            xs@ == a@,
            ys@ == b@,
            xs@.len() == ys@.len(),
            forall|k: int| 0 <= k < i ==> ascii_lower(#[trigger] xs@[k]) == ascii_lower(ys@[k]),
        decreases xs@.len() - i,
    {
        if !ascii_lower_eq(xs[i], ys[i]) {
            return false;
        }
        i = i + 1;
    }
    true
}

/// Whether `s` begins with `p`.
pub fn starts_with(s: &str, p: &str) -> (r: bool)
    ensures
        r == (p@.len() <= s@.len() && s@.take(p@.len() as int) == p@),
{
    let xs = chars_of(s);
    let ys = chars_of(p);
    if ys.len() > xs.len() {
        return false;
    }
    let mut i: usize = 0;
    while i < ys.len()
        invariant
            i <= ys@.len(),
            ys@.len() <= xs@.len(),
            xs@ == s@,
            ys@ == p@,
            forall|k: int| 0 <= k < i ==> #[trigger] xs@[k] == ys@[k],
        decreases ys@.len() - i,
    {
        if xs[i] != ys[i] {
            assert(s@.take(p@.len() as int)[i as int] != p@[i as int]);
            return false;
        }
        i = i + 1;
    }
    assert(s@.take(p@.len() as int) =~= p@);
    true
}

/// Whether `p` occurs in `s`.
pub open spec fn has_substring(s: Seq<char>, p: Seq<char>) -> bool {
    exists|i: int| 0 <= i && i + p.len() <= s.len() && #[trigger] s.subrange(i, i + p.len()) == p
}

/// Whether `p` occurs in `s`.
pub fn contains_str(s: &str, p: &str) -> (r: bool)
    ensures
        r == has_substring(s@, p@),
{
    let xs = chars_of(s);
    let ys = chars_of(p);
    let n = xs.len();
    let m = ys.len();
    if m > n {
        assert(!has_substring(s@, p@));
        return false;
    }
    let mut i: usize = 0;
    while i <= n - m
        invariant
            n == xs@.len(),
            m == ys@.len(),
            m <= n,
            i <= n - m + 1,
            xs@ == s@,
            ys@ == p@,
            forall|k: int| 0 <= k < i ==> #[trigger] xs@.subrange(k, k + m) != ys@,
        decreases n - m + 1 - i,
    {
        let mut j: usize = 0;
        let mut same = true;
        while j < m
            invariant
                n == xs@.len(),
                m == ys@.len(),
                i + m <= n,
                j <= m,
                same == forall|k: int| 0 <= k < j ==> #[trigger] xs@[i + k] == ys@[k],
            decreases m - j,
        {
            if xs[i + j] != ys[j] {
                same = false;
            }
            j = j + 1;
        }
        if same {
            assert forall|k: int| 0 <= k < m implies #[trigger] xs@.subrange(i as int, i + m)[k]
                == ys@[k] by {
                assert(xs@[i + k] == ys@[k]);
            }
            assert(xs@.subrange(i as int, i + m) =~= ys@);
            return true;
        }
        assert(xs@.subrange(i as int, i + m) != ys@) by {
            let k = choose|k: int| 0 <= k < m && xs@[i + k] != ys@[k];
            assert(xs@.subrange(i as int, i + m)[k] == xs@[i + k]);
        }
        i = i + 1;
    }
    assert(!has_substring(s@, p@)) by {
        assert forall|k: int| 0 <= k && k + p@.len() <= s@.len() implies #[trigger] s@.subrange(
            k,
            k + p@.len(),
        ) != p@ by {
            assert(k < i);
        }
    }
    false
}

/// `parts` joined into one text, with `sep` between each two.
pub open spec fn join_spec(parts: Seq<Seq<char>>, sep: Seq<char>) -> Seq<char>
    decreases parts.len(),
{
    if parts.len() == 0 {
        Seq::empty()
    } else if parts.len() == 1 {
        parts[0]
    } else {
        join_spec(parts.drop_last(), sep) + sep + parts.last()
    }
}

/// `parts` joined into one string, with `sep` between each two.
pub fn join(parts: &Vec<String>, sep: &str) -> (r: String)
    ensures
        r@ == join_spec(parts.deep_view(), sep@),
{
    let ghost ps = parts.deep_view();
    let mut out: Vec<char> = Vec::new();
    let mut i: usize = 0;
    while i < parts.len()
        invariant
            i <= parts@.len(),
            ps == parts.deep_view(),
            out@ == join_spec(ps.take(i as int), sep@),
        decreases parts@.len() - i,
    {
        assert(ps.take(i + 1).drop_last() =~= ps.take(i as int));
        assert(ps.take(i + 1).last() == parts@[i as int]@);
        let mut piece = chars_of(parts[i].as_str());
        if i > 0 {
            let mut sp = chars_of(sep);
            out.append(&mut sp);
        } else {
            assert(out@ =~= Seq::<char>::empty());
        }
        out.append(&mut piece);
        i = i + 1;
        assert(out@ =~= join_spec(ps.take(i as int), sep@));
    }
    assert(ps.take(i as int) =~= ps);
    string_of(&out)
}

} // verus!
