//! Helpers of the utility commands: reading a hex colour code, repairing a patch saved
//! as UTF-16, and turning bracketed terms of a definition into links.
use vstd::prelude::*;
use crate::pattern::{Pattern, PatternKind, simple_replace_all};
use crate::text::{chars_of, replace_char, replace_char_spec};

verus! {

// ---------------------------------------------------------------- hex colours

/// Where the first occurrence of `p` in `s` at or after `i` starts.
pub open spec fn first_occurrence_from(s: Seq<char>, p: Seq<char>, i: int) -> Option<int>
    decreases s.len() + 1 - i,
{
    if i < 0 || i + p.len() > s.len() {
        None
    } else if s.subrange(i, i + p.len()) == p {
        Some(i)
    } else {
        first_occurrence_from(s, p, i + 1)
    }
}

/// `s` without the first occurrence of `p`, or `s` itself where `p` does not occur.
pub open spec fn remove_first(s: Seq<char>, p: Seq<char>) -> Seq<char> {
    match first_occurrence_from(s, p, 0) {
        Some(i) => s.take(i) + s.skip(i + p.len()),
        None => s,
    }
}

/// Each character of `s` written twice.
pub open spec fn doubled(s: Seq<char>) -> Seq<char>
    decreases s.len(),
{
    if s.len() == 0 {
        Seq::empty()
    } else {
        doubled(s.drop_last()) + seq![s.last(), s.last()]
    }
}

/// `s` padded on the right with zeros to six characters.
pub open spec fn pad_six(s: Seq<char>) -> Seq<char> {
    if s.len() >= 6 {
        s
    } else {
        s + Seq::new((6 - s.len()) as nat, |i: int| '0')
    }
}

/// The eight-digit form of a colour code with its `#` and `0x` markers taken off: a
/// longer code is cut to eight digits; a three- or four-digit shorthand has each digit
/// doubled; a code still shorter than eight digits is padded with zeros to six and
/// given a full alpha of `FF`.
pub open spec fn normalized_hex(code: Seq<char>) -> Seq<char> {
    let t = if code.len() > 8 {
        code.take(8)
    } else if code.len() == 3 || code.len() == 4 {
        doubled(code)
    } else {
        code
    };
    if t.len() < 8 {
        pad_six(t) + "FF"@
    } else {
        t
    }
}

/// The value of a hexadecimal digit.
pub open spec fn hex_digit(c: char) -> Option<u8> {
    if '0' <= c && c <= '9' {
        Some(((c as u32) - 48) as u8)
    } else if 'a' <= c && c <= 'f' {
        Some(((c as u32) - 87) as u8)
    } else if 'A' <= c && c <= 'F' {
        Some(((c as u32) - 55) as u8)
    } else {
        None
    }
}

/// The byte that two characters spell in hexadecimal; a leading `+` sign is allowed,
/// as in `u8::from_str_radix`.
pub open spec fn hex_byte(a: char, b: char) -> Option<u8> {
    if a == '+' {
        hex_digit(b)
    } else {
        match (hex_digit(a), hex_digit(b)) {
            (Some(x), Some(y)) => Some((x * 16 + y) as u8),
            _ => None,
        }
    }
}

/// Whether every character of `s` is ASCII.
pub open spec fn all_ascii(s: Seq<char>) -> bool {
    forall|i: int| 0 <= i < s.len() ==> #[trigger] s[i] < '\u{80}'
}

/// The red, green, blue and alpha bytes of a colour code, where it spells them.
pub open spec fn rgba_of(hex_color: Seq<char>) -> Option<Seq<u8>> {
    let code = remove_first(remove_first(hex_color, "#"@), "0x"@);
    let n = normalized_hex(code);
    if !all_ascii(code) {
        None
    } else {
        match (hex_byte(n[0], n[1]), hex_byte(n[2], n[3]), hex_byte(n[4], n[5]), hex_byte(n[6], n[7])) {
            (Some(r), Some(g), Some(b), Some(a)) => Some(seq![r, g, b, a]),
            _ => None,
        }
    }
}

/// Why a colour code could not be read.
#[derive(Clone, Copy, Debug, PartialEq, Eq, Structural)]
pub enum HexColourError {
    /// The code holds a character outside ASCII.
    NotAscii,
    /// A byte of the code is not two hexadecimal digits.
    InvalidDigit,
}

fn occurs_at(s: &Vec<char>, p: &Vec<char>, i: usize) -> (r: bool)
    requires
        i + p@.len() <= s@.len(),
    ensures
        r == (s@.subrange(i as int, i + p@.len()) == p@),
{
    let slen = s.len();
    let mut j: usize = 0;
    while j < p.len()
        invariant
            slen == s@.len(),
            i + p@.len() <= s@.len(),
            j <= p@.len(),
            forall|k: int| 0 <= k < j ==> #[trigger] s@[i + k] == p@[k],
        decreases p@.len() - j,
    {
        assert(i + j < s@.len());
        if s[i + j] != p[j] {
            assert(s@.subrange(i as int, i + p@.len())[j as int] != p@[j as int]);
            return false;
        }
        j = j + 1;
    }
    assert forall|k: int| 0 <= k < p@.len() implies #[trigger] s@.subrange(
        i as int,
        i + p@.len(),
    )[k] == p@[k] by {
        assert(s@[i + k] == p@[k]);
    }
    assert(s@.subrange(i as int, i + p@.len()) =~= p@);
    true
}

fn remove_first_exec(s: &Vec<char>, p: &Vec<char>) -> (r: Vec<char>)
    ensures
        r@ == remove_first(s@, p@),
{
    if p.len() > s.len() {
        return s.clone();
    }
    if p.len() == 0 {
        assert(s@.subrange(0, 0) =~= p@);
        assert(s@.take(0) + s@.skip(0) =~= s@);
        return s.clone();
    }
    let slen = s.len();
    let last = slen - p.len();
    let mut i: usize = 0;
    while i <= last
        invariant
            slen == s@.len(),
            last == s@.len() - p@.len(),
            1 <= p@.len() <= s@.len(),
            i <= last + 1,
            first_occurrence_from(s@, p@, 0) == first_occurrence_from(s@, p@, i as int),
        decreases last + 1 - i,
    {
        if occurs_at(s, p, i) {
            let mut out: Vec<char> = Vec::new();
            let mut k: usize = 0;
            while k < i
                invariant
                    k <= i,
                    i <= last,
                    last == s@.len() - p@.len(),
                    out@ == s@.take(k as int),
                decreases i - k,
            {
                out.push(s[k]);
                k = k + 1;
                assert(out@ =~= s@.take(k as int));
            }
            assert(i + p@.len() <= s@.len());
            let mut k: usize = i + p.len();
            while k < s.len()
                invariant
                    slen == s@.len(),
                    i + p@.len() <= k <= s@.len(),
                    out@ == s@.take(i as int) + s@.subrange(i + p@.len(), k as int),
                decreases s@.len() - k,
            {
                out.push(s[k]);
                k = k + 1;
                assert(out@ =~= s@.take(i as int) + s@.subrange(i + p@.len(), k as int));
            }
            assert(s@.subrange(i + p@.len(), k as int) =~= s@.skip(i + p@.len()));
            return out;
        }
        i = i + 1;
    }
    s.clone()
}

fn hex_digit_exec(c: char) -> (r: Option<u8>)
    ensures
        r == hex_digit(c),
{
    let v = c as u32;
    if '0' <= c && c <= '9' {
        Some((v - 48) as u8)
    } else if 'a' <= c && c <= 'f' {
        Some((v - 87) as u8)
    } else if 'A' <= c && c <= 'F' {
        Some((v - 55) as u8)
    } else {
        None
    }
}

fn hex_byte_exec(a: char, b: char) -> (r: Option<u8>)
    ensures
        r == hex_byte(a, b),
{
    if a == '+' {
        return hex_digit_exec(b);
    }
    match (hex_digit_exec(a), hex_digit_exec(b)) {
        (Some(x), Some(y)) => {
            assert(x < 16 && y < 16);
            Some(x * 16 + y)
        },
        _ => None,
    }
}

/// Reads a colour code such as `#FC0`, `0xFFCC00` or `ffcc0080` into its red, green,
/// blue and alpha bytes.
pub fn hex_to_rgba(hex_color: &str) -> (r: Result<[u8; 4], HexColourError>)
    ensures
        r is Ok <==> rgba_of(hex_color@) is Some,
        r matches Ok(v) ==> v@ == rgba_of(hex_color@)->Some_0,
        r matches Err(e) ==> (e is NotAscii <==> !all_ascii(
            remove_first(remove_first(hex_color@, "#"@), "0x"@),
        )),
{
    let all = chars_of(hex_color);
    let hash = chars_of("#");
    let zx = chars_of("0x");
    let first = remove_first_exec(&all, &hash);
    let code = remove_first_exec(&first, &zx);
    assert(code@ == remove_first(remove_first(hex_color@, "#"@), "0x"@));
    let mut i: usize = 0;
    while i < code.len()
        invariant
            i <= code@.len(),
            forall|k: int| 0 <= k < i ==> #[trigger] code@[k] < '\u{80}',
            code@ == remove_first(remove_first(hex_color@, "#"@), "0x"@),
        decreases code@.len() - i,
    {
        if code[i] >= '\u{80}' {
            assert(!all_ascii(code@)) by {
                assert(!(code@[i as int] < '\u{80}'));
            }
            return Err(HexColourError::NotAscii);
        }
        i = i + 1;
    }
    let mut t: Vec<char> = Vec::new();
    if code.len() > 8 {
        let mut k: usize = 0;
        while k < 8
            invariant
                k <= 8,
                code@.len() > 8,
                t@ == code@.take(k as int),
            decreases 8 - k,
        {
            t.push(code[k]);
            k = k + 1;
            assert(t@ =~= code@.take(k as int));
        }
    } else if code.len() == 3 || code.len() == 4 {
        let mut k: usize = 0;
        while k < code.len()
            invariant
                k <= code@.len(),
                t@ == doubled(code@.take(k as int)),
            decreases code@.len() - k,
        {
            assert(code@.take(k + 1).drop_last() =~= code@.take(k as int));
            t.push(code[k]);
            t.push(code[k]);
            k = k + 1;
            assert(t@ =~= doubled(code@.take(k as int)));
        }
        assert(code@.take(k as int) =~= code@);
    } else {
        t = code.clone();
    }
    let ghost tv = t@;
    if t.len() < 8 {
        while t.len() < 6
            invariant
                tv.len() < 8,
                tv.len() <= t@.len(),
                t@.len() <= 6 || t@ == tv,
                t@ =~= tv + Seq::new((t@.len() - tv.len()) as nat, |i: int| '0'),
            decreases 6 - t@.len(),
        {
            t.push('0');
            assert(t@ =~= tv + Seq::new((t@.len() - tv.len()) as nat, |i: int| '0'));
        }
        t.push('F');
        t.push('F');
        proof {
            reveal_strlit("FF");
            if tv.len() >= 6 {
                assert(t@ =~= tv + "FF"@);
            } else {
                assert(t@ =~= pad_six(tv) + "FF"@);
            }
        }
    }
    proof {
        reveal_strlit("#");
        reveal_strlit("0x");
        assert(t@ == normalized_hex(code@));
    }
    let r = hex_byte_exec(t[0], t[1]);
    let g = hex_byte_exec(t[2], t[3]);
    let b = hex_byte_exec(t[4], t[5]);
    let a = hex_byte_exec(t[6], t[7]);
    match (r, g, b, a) {
        (Some(r), Some(g), Some(b), Some(a)) => {
            let out = [r, g, b, a];
            assert(out@ =~= seq![r, g, b, a]);
            Ok(out)
        },
        _ => Err(HexColourError::InvalidDigit),
    }
}

// ---------------------------------------------------------------- patches

/// The 16-bit units that little-endian byte pairs spell.
pub open spec fn le_units(bytes: Seq<u8>) -> Seq<u16> {
    Seq::new(bytes.len() / 2, |i: int| (bytes[2 * i] as u16 + (bytes[2 * i + 1] as u16) * 256) as u16)
}

/// Reads the bytes in pairs as little-endian 16-bit units.
pub fn vec_u8_to_u16_le(vec_u8: Vec<u8>) -> (r: Vec<u16>)
    requires
        vec_u8@.len() % 2 == 0,
    ensures
        r@ == le_units(vec_u8@),
{
    let mut out: Vec<u16> = Vec::new();
    let mut i: usize = 0;
    while i < vec_u8.len() / 2
        invariant
            i <= vec_u8@.len() / 2,
            vec_u8@.len() % 2 == 0,
            out@ =~= le_units(vec_u8@).take(i as int),
        decreases vec_u8@.len() / 2 - i,
    {
        let lo = vec_u8[2 * i] as u16;
        let hi = vec_u8[2 * i + 1] as u16;
        out.push(lo + hi * 256);
        i = i + 1;
        assert(out@ =~= le_units(vec_u8@).take(i as int));
    }
    assert(le_units(vec_u8@).take(i as int) =~= le_units(vec_u8@));
    out
}

#[verifier::external_type_specification]
#[verifier::external_body]
pub struct ExFromUtf16Error(std::string::FromUtf16Error);

/// The text that UTF-16 units spell, where they are valid UTF-16.
pub uninterp spec fn utf16_text(units: Seq<u16>) -> Option<Seq<char>>;

/// Relies on `String::from_utf16`: it succeeds exactly on valid UTF-16, with its text.
#[verifier::external_body]
fn string_from_utf16(units: &Vec<u16>) -> (r: Result<String, std::string::FromUtf16Error>)
    ensures
        r is Ok <==> utf16_text(units@) is Some,
        r matches Ok(s) ==> utf16_text(units@) == Some(s@),
{
    String::from_utf16(units)
}

/// Why a patch could not be repaired.
#[derive(Debug)]
pub enum PatchError {
    /// The file has an odd number of bytes, so it is no UTF-16.
    OddLength,
    /// The file is not valid UTF-16.
    InvalidUtf16(std::string::FromUtf16Error),
}

/// Repairs a patch saved on Windows: reads it as little-endian UTF-16 and drops the
/// carriage returns.
pub fn fix_patch(patch_bytes: Vec<u8>) -> (r: Result<String, PatchError>)
    ensures
        patch_bytes@.len() % 2 != 0 ==> r matches Err(PatchError::OddLength),
        patch_bytes@.len() % 2 == 0 ==> (r is Ok <==> utf16_text(le_units(patch_bytes@)) is Some),
        r matches Ok(s) ==> s@ == replace_char_spec(
            utf16_text(le_units(patch_bytes@))->Some_0,
            '\r',
            ""@,
        ),
{
    if patch_bytes.len() % 2 != 0 {
        return Err(PatchError::OddLength);
    }
    let units = vec_u8_to_u16_le(patch_bytes);
    match string_from_utf16(&units) {
        Ok(text) => Ok(replace_char(text.as_str(), '\r', "")),
        Err(e) => Err(PatchError::InvalidUtf16(e)),
    }
}

// ---------------------------------------------------------------- definitions

/// What the definition command needs: the pattern of a bracketed term and the link
/// text that replaces it.
pub struct CommandData {
    pub urban_link_finder_regex: Pattern,
    pub urban_link_replacement: String,
}

impl CommandData {
    pub open spec fn wf(&self) -> bool {
        self.urban_link_finder_regex@.kind == PatternKind::Simple
    }
}

/// `text` with every bracketed term replaced by a link to its own definition.
pub fn inflate_links(command_data: &CommandData, text: &str) -> (r: String)
    requires
        command_data.wf(),
    ensures
        r@ == simple_replace_all(
            command_data.urban_link_finder_regex@.source,
            command_data.urban_link_finder_regex@.case_insensitive,
            text@,
            command_data.urban_link_replacement@,
        ),
{
    command_data.urban_link_finder_regex.replace_all(
        text,
        command_data.urban_link_replacement.as_str(),
    )
}

} // verus!
