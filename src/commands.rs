//! Command names and the prefix that starts a text command.
use vstd::prelude::*;
use crate::text::{chars_of, starts_with, string_of};

verus! {

/// The prefix that always starts a command, whatever a guild configured.
pub const STOCK_PREFIX: &'static str = "m";

/// The command names as registered: each marked `dev-` in a development build, so that
/// its commands do not clash with those of the deployed bot.
pub fn commands(names: &Vec<String>, dev: bool) -> (r: Vec<String>)
    ensures
        r@.len() == names@.len(),
        forall|i: int|
            0 <= i < r@.len() ==> (#[trigger] r@[i])@ == (if dev {
                "dev-"@ + names@[i]@
            } else {
                names@[i]@
            }),
{
    let mut out: Vec<String> = Vec::new();
    let mut i: usize = 0;
    while i < names.len()
        invariant
            i <= names@.len(),
            out@.len() == i,
            forall|k: int|
                0 <= k < i ==> (#[trigger] out@[k])@ == (if dev {
                    "dev-"@ + names@[k]@
                } else {
                    names@[k]@
                }),
        decreases names@.len() - i,
    {
        if dev {
            let mut cs = chars_of("dev-");
            let mut rest = chars_of(names[i].as_str());
            cs.append(&mut rest);
            out.push(string_of(&cs));
        } else {
            out.push(names[i].clone());
        }
        i = i + 1;
    }
    out
}

/// `p` with the rest of `content` after it, where `content` begins with `p`.
pub open spec fn split_after(content: Seq<char>, p: Seq<char>) -> Option<(Seq<char>, Seq<char>)> {
    if p.len() <= content.len() && content.take(p.len() as int) == p {
        Some((p, content.skip(p.len() as int)))
    } else {
        None
    }
}

/// The text of an optional pair of strings.
pub open spec fn pair_view(o: Option<(String, String)>) -> Option<(Seq<char>, Seq<char>)> {
    match o {
        Some((a, b)) => Some((a@, b@)),
        None => None,
    }
}

fn split_at_prefix(content: &str, p: &str) -> (r: Option<(String, String)>)
    ensures
        pair_view(r) == split_after(content@, p@),
{
    if !starts_with(content, p) {
        return None;
    }
    let cs = chars_of(content);
    let n = chars_of(p).len();
    let mut rest: Vec<char> = Vec::new();
    let mut i: usize = n;
    while i < cs.len()
        invariant
            n <= i <= cs@.len(),
            rest@ == cs@.subrange(n as int, i as int),
        decreases cs@.len() - i,
    {
        rest.push(cs[i]);
        i = i + 1;
        assert(rest@ =~= cs@.subrange(n as int, i as int));
    }
    assert(cs@.subrange(n as int, cs@.len() as int) =~= content@.skip(n as int));
    Some((p.to_owned(), string_of(&rest)))
}

/// Splits a message into the command prefix and the rest. The guild's own prefix is
/// tried first, where it has one, then the stock prefix; `None` where neither starts
/// the message.
pub fn try_strip_prefix(content: &str, guild_prefix: Option<&str>) -> (r: Option<(String, String)>)
    ensures
        pair_view(r) == (match guild_prefix {
            Some(p) if split_after(content@, p@) is Some => split_after(content@, p@),
            _ => split_after(content@, STOCK_PREFIX@),
        }),
{
    match guild_prefix {
        Some(p) => {
            let found = split_at_prefix(content, p);
            if found.is_some() {
                return found;
            }
        },
        None => {},
    }
    split_at_prefix(content, STOCK_PREFIX)
}

} // verus!
