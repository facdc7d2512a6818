//! Decisions and text of the event handlers: the summary of a message's attachments and
//! embeds, the image spam heuristic, the colour of an author's name, and an account age.
use vstd::prelude::*;
use chrono::{Datelike, Timelike};
use crate::text::{chars_of, contains_str, decimal, decimal_spec, has_substring, join, join_spec, string_of};

verus! {

/// The attachment and embed summary printed after a message: ` <a, b>` for the file
/// names and ` {k, l}` for the embed kinds, each left out where there are none.
pub fn attachments_embed_fmt(filenames: &Vec<String>, embed_kinds: &Vec<String>) -> (r: (
    Option<String>,
    Option<String>,
))
    ensures
        filenames@.len() == 0 <==> r.0 is None,
        r.0 matches Some(a) ==> a@ == " <"@ + join_spec(filenames.deep_view(), ", "@) + ">"@,
        embed_kinds@.len() == 0 <==> r.1 is None,
        r.1 matches Some(e) ==> e@ == " {"@ + join_spec(embed_kinds.deep_view(), ", "@) + "}"@,
{
    let attachments = if filenames.len() == 0 {
        None
    } else {
        let mut cs = chars_of(" <");
        let mut body = chars_of(join(filenames, ", ").as_str());
        cs.append(&mut body);
        cs.push('>');
        proof {
            reveal_strlit(">");
        }
        assert(cs@ =~= " <"@ + join_spec(filenames.deep_view(), ", "@) + ">"@);
        Some(string_of(&cs))
    };
    let embeds = if embed_kinds.len() == 0 {
        None
    } else {
        let mut cs = chars_of(" {");
        let mut body = chars_of(join(embed_kinds, ", ").as_str());
        cs.append(&mut body);
        cs.push('}');
        proof {
            reveal_strlit("}");
        }
        assert(cs@ =~= " {"@ + join_spec(embed_kinds.deep_view(), ", "@) + "}"@);
        Some(string_of(&cs))
    };
    (attachments, embeds)
}

/// How many attachments with a known content type are images, and how many are not.
pub open spec fn image_counts(types: Seq<Option<String>>) -> (nat, nat)
    decreases types.len(),
{
    if types.len() == 0 {
        (0, 0)
    } else {
        let (i, o) = image_counts(types.drop_last());
        match types.last() {
            Some(t) => if has_substring(t@, "image"@) {
                (i + 1, o)
            } else {
                (i, o + 1)
            },
            None => (i, o),
        }
    }
}

/// Whether a message looks like image spam: at least three image attachments and no
/// attachment of another known type.
pub fn image_spam_suspected(content_types: &Vec<Option<String>>) -> (r: bool)
    ensures
        r == (image_counts(content_types@).0 >= 3 && image_counts(content_types@).1 == 0),
{
    let mut images: usize = 0;
    let mut others: usize = 0;
    let mut i: usize = 0;
    while i < content_types.len()
        invariant
            i <= content_types@.len(),
            (images as nat, others as nat) == image_counts(content_types@.take(i as int)),
            images + others <= i,
        decreases content_types@.len() - i,
    {
        assert(content_types@.take(i + 1).drop_last() =~= content_types@.take(i as int));
        assert(content_types@.take(i + 1).last() == content_types@[i as int]);
        match &content_types[i] {
            Some(t) => {
                if contains_str(t.as_str(), "image") {
                    images = images + 1;
                } else {
                    others = others + 1;
                }
            },
            None => {},
        }
        i = i + 1;
    }
    assert(content_types@.take(i as int) =~= content_types@);
    images >= 3 && others == 0
}

/// A role of a guild member, as far as the colour of the name depends on it.
#[derive(Clone, Copy, Debug, PartialEq, Eq, Structural)]
pub struct RoleInfo {
    pub id: u64,
    pub position: u16,
    pub colour: u32,
}

/// Whether role `a` outranks role `b` for the colour of a name: a higher position, or
/// the same position and an identifier no larger.
pub open spec fn outranks(a: RoleInfo, b: RoleInfo) -> bool {
    a.position > b.position || (a.position == b.position && a.id <= b.id)
}

/// The index of the role that colours a name among `roles`: of the roles with a colour,
/// the one that outranks every other, the later of equals.
pub open spec fn highest_from(roles: Seq<RoleInfo>, n: int) -> Option<int>
    decreases n,
{
    if n <= 0 {
        None
    } else {
        let before = highest_from(roles, n - 1);
        let r = roles[n - 1];
        if r.colour == 0 {
            before
        } else {
            match before {
                Some(h) => if outranks(r, roles[h]) {
                    Some(n - 1)
                } else {
                    before
                },
                None => Some(n - 1),
            }
        }
    }
}

/// The role whose colour a member's name takes, if any role has a colour.
pub fn highest_coloured_role(roles: &Vec<RoleInfo>) -> (r: Option<usize>)
    ensures
        match r {
            Some(i) => highest_from(roles@, roles@.len() as int) == Some(i as int),
            None => highest_from(roles@, roles@.len() as int) is None,
        },
{
    let mut best: Option<usize> = None;
    let mut i: usize = 0;
    while i < roles.len()
        invariant
            i <= roles@.len(),
            match best {
                Some(b) => b < i && highest_from(roles@, i as int) == Some(b as int),
                None => highest_from(roles@, i as int) is None,
            },
        decreases roles@.len() - i,
    {
        let role = roles[i];
        if role.colour != 0 {
            match best {
                Some(b) => {
                    let h = roles[b];
                    if role.position > h.position || (role.position == h.position && role.id <= h.id) {
                        best = Some(i);
                    }
                },
                None => {
                    best = Some(i);
                },
            }
        }
        i = i + 1;
    }
    best
}

/// The terminal escape that colours the text after it with `colour`, as 24-bit RGB.
pub open spec fn ansi_colour_spec(colour: u32) -> Seq<char> {
    "\x1B[38;2;"@ + decimal_spec(((colour / 65536) % 256) as nat) + ";"@ + decimal_spec(
        ((colour / 256) % 256) as nat,
    ) + ";"@ + decimal_spec((colour % 256) as nat) + "m"@
}

/// The terminal escape that colours the text after it with `colour`.
pub fn ansi_colour(colour: u32) -> (r: String)
    ensures
        r@ == ansi_colour_spec(colour),
{
    let mut cs = chars_of("\x1B[38;2;");
    let mut red = chars_of(decimal(((colour / 65536) % 256) as u64).as_str());
    cs.append(&mut red);
    cs.push(';');
    let mut green = chars_of(decimal(((colour / 256) % 256) as u64).as_str());
    cs.append(&mut green);
    cs.push(';');
    let mut blue = chars_of(decimal((colour % 256) as u64).as_str());
    cs.append(&mut blue);
    cs.push('m');
    proof {
        reveal_strlit(";");
        reveal_strlit("m");
    }
    assert(cs@ =~= ansi_colour_spec(colour));
    string_of(&cs)
}

/// A span of time broken into calendar parts.
#[derive(Clone, Copy, Debug, PartialEq, Eq, Structural)]
pub struct DateParts {
    pub year: i32,
    pub month: u32,
    pub day: u32,
    pub hour: u32,
    pub minute: u32,
    pub second: u32,
}

/// `label` and the decimal text of `v`, as in `Days 3`.
pub open spec fn labelled(label: Seq<char>, v: nat) -> Seq<char> {
    label + " "@ + decimal_spec(v)
}

/// The labelled parts of `p` that are above zero, largest unit first.
pub open spec fn nonzero_parts(p: DateParts) -> Seq<Seq<char>> {
    let y = if p.year > 0 { seq![labelled("Years"@, p.year as nat)] } else { Seq::empty() };
    let mo = if p.month > 0 { seq![labelled("Months"@, p.month as nat)] } else { Seq::empty() };
    let d = if p.day > 0 { seq![labelled("Days"@, p.day as nat)] } else { Seq::empty() };
    let h = if p.hour > 0 { seq![labelled("Hours"@, p.hour as nat)] } else { Seq::empty() };
    let mi = if p.minute > 0 { seq![labelled("Minutes"@, p.minute as nat)] } else { Seq::empty() };
    let s = if p.second > 0 { seq![labelled("Seconds"@, p.second as nat)] } else { Seq::empty() };
    y + mo + d + h + mi + s
}

fn push_labelled(out: &mut Vec<String>, label: &str, v: u64)
    ensures
        final(out).deep_view() == old(out).deep_view().push(labelled(label@, v as nat)),
{
    let mut cs = chars_of(label);
    cs.push(' ');
    let mut digits = chars_of(decimal(v).as_str());
    cs.append(&mut digits);
    proof {
        reveal_strlit(" ");
    }
    assert(cs@ =~= labelled(label@, v as nat));
    let ghost before = out@;
    out.push(string_of(&cs));
    assert(out.deep_view() =~= before.map_values(|s: String| s@).push(labelled(label@, v as nat)));
}

/// The largest three nonzero parts of a span, as in `Years 1, Months 2, Days 3`.
pub fn truncate_datetime_string(datetime: DateParts) -> (r: String)
    ensures
        r@ == join_spec(
            if nonzero_parts(datetime).len() > 3 {
                nonzero_parts(datetime).take(3)
            } else {
                nonzero_parts(datetime)
            },
            ", "@,
        ),
{
    let mut parts: Vec<String> = Vec::new();
    let ghost p = datetime;
    if datetime.year > 0 {
        push_labelled(&mut parts, "Years", datetime.year as u64);
    }
    if datetime.month > 0 {
        push_labelled(&mut parts, "Months", datetime.month as u64);
    }
    if datetime.day > 0 {
        push_labelled(&mut parts, "Days", datetime.day as u64);
    }
    if datetime.hour > 0 {
        push_labelled(&mut parts, "Hours", datetime.hour as u64);
    }
    if datetime.minute > 0 {
        push_labelled(&mut parts, "Minutes", datetime.minute as u64);
    }
    if datetime.second > 0 {
        push_labelled(&mut parts, "Seconds", datetime.second as u64);
    }
    assert(parts.deep_view() =~= nonzero_parts(p));
    if parts.len() > 3 {
        parts.truncate(3);
        assert(parts.deep_view() =~= nonzero_parts(p).take(3));
    }
    join(&parts, ", ")
}

/// The UTC calendar date and time `secs` seconds after the Unix epoch, where it is in
/// range.
pub uninterp spec fn utc_calendar(secs: i64) -> Option<DateParts>;

/// `p` with its year changed to `year`, keeping month, day and time; `None` where that
/// date does not exist or is out of range.
pub uninterp spec fn year_shifted(p: DateParts, year: i32) -> Option<DateParts>;

/// Relies on `chrono::DateTime::from_timestamp`: the UTC date and time of a Unix
/// timestamp, where it is in range.
#[verifier::external_body]
fn calendar_of(secs: i64) -> (r: Option<DateParts>)
    ensures
        r == utc_calendar(secs),
{
    chrono::DateTime::from_timestamp(secs, 0).map(|t| DateParts {
        year: t.year(),
        month: t.month(),
        day: t.day(),
        hour: t.hour(),
        minute: t.minute(),
        second: t.second(),
    })
}

/// Relies on `chrono::Datelike::with_year` of `NaiveDate`: the same month and day in
/// another year, where that date exists.
#[verifier::external_body]
fn with_year(p: DateParts, year: i32) -> (r: Option<DateParts>)
    ensures
        r == year_shifted(p, year),
{
    chrono::NaiveDate::from_ymd_opt(p.year, p.month, p.day)
        .and_then(|d| d.with_year(year))
        .map(|d| DateParts { year: d.year(), month: d.month(), day: d.day(), ..p })
}

/// The age of an account created at `created` when it is `now`, both in Unix seconds:
/// the span read as a date after the epoch, its year counted from 1970, and shown by
/// its three largest parts.
pub open spec fn account_age(now: i64, created: i64) -> Option<Seq<char>> {
    let d = now - created;
    if d < i64::MIN || d > i64::MAX {
        None
    } else {
        match utc_calendar(d as i64) {
            Some(p) => if p.year - 1970 < i32::MIN {
                None
            } else {
                match year_shifted(p, (p.year - 1970) as i32) {
                    Some(q) => Some(
                        join_spec(
                            if nonzero_parts(q).len() > 3 {
                                nonzero_parts(q).take(3)
                            } else {
                                nonzero_parts(q)
                            },
                            ", "@,
                        ),
                    ),
                    None => None,
                }
            },
            None => None,
        }
    }
}

/// The age of an account created at `created` when it is `now`, as text.
pub fn get_member_joined_at(now: i64, created: i64) -> (r: Option<String>)
    ensures
        match r {
            Some(s) => account_age(now, created) == Some(s@),
            None => account_age(now, created) is None,
        },
{
    let d = now as i128 - created as i128;
    if d < i64::MIN as i128 || d > i64::MAX as i128 {
        return None;
    }
    let p = match calendar_of(d as i64) {
        Some(p) => p,
        None => {
            return None;
        },
    };
    if (p.year as i64) - 1970 < i32::MIN as i64 {
        return None;
    }
    match with_year(p, p.year - 1970) {
        Some(q) => Some(truncate_datetime_string(q)),
        None => None,
    }
}

} // verus!
