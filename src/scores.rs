//! Text shown for a stored osu! score: the game client it was set on, its mods, its
//! date, its rank and the length of its map.
use vstd::prelude::*;
use crate::text::{chars_of, decimal, decimal_spec, replace_char, replace_char_spec, string_of};

verus! {

/// A gameplay modifier of a score, by its acronym.
#[derive(Clone, Debug)]
pub struct Mod {
    pub acronym: String,
}

/// Hit counts of a score.
#[derive(Clone, Copy, Debug)]
pub struct Statistics {
    pub great: Option<i128>,
    pub ok: Option<i128>,
    pub meh: Option<i128>,
    pub miss: Option<i128>,
}

/// The largest hit counts a map allows.
#[derive(Clone, Copy, Debug)]
pub struct MaximumStatistics {
    pub great: Option<i128>,
    pub ignore_hit: Option<i128>,
    pub large_bonus: Option<i128>,
    pub small_bonus: Option<i128>,
    pub large_tick_hit: Option<i128>,
    pub slider_tail_hit: Option<i128>,
    pub legacy_combo_increase: Option<i128>,
}

/// The game modes, in the order of their stored numbers.
#[derive(Clone, Copy, Debug, PartialEq, Eq, Structural)]
pub enum ModeInt {
    Osu,
    Taiko,
    Catch,
    Mania,
}

/// Image addresses of a beatmap set.
#[derive(Clone, Debug)]
pub struct Covers {
    pub cover: String,
    pub cover_2x: String,
    pub card: String,
    pub card_2x: String,
    pub list: String,
    pub list_2x: String,
    pub slimcover: String,
    pub slimcover_2x: String,
}

/// Whether one of the mods is the classic mod, which marks a score set on the stable
/// client.
pub open spec fn has_classic(mods: Seq<Mod>) -> bool {
    exists|i: int| 0 <= i < mods.len() && (#[trigger] mods[i]).acronym@ == "CL"@
}

/// "Stable" where a score carries the classic mod, else "Lazer".
pub fn game_version(mods: &Vec<Mod>) -> (r: String)
    ensures
        r@ == (if has_classic(mods@) { "Stable"@ } else { "Lazer"@ }),
{
    let cl = "CL".to_owned();
    let mut i: usize = 0;
    while i < mods.len()
        invariant
            i <= mods@.len(),
            cl@ == "CL"@,
            forall|k: int| 0 <= k < i ==> (#[trigger] mods@[k]).acronym@ != "CL"@,
        decreases mods@.len() - i,
    {
        if mods[i].acronym == cl {
            return "Stable".to_owned();
        }
        i = i + 1;
    }
    "Lazer".to_owned()
}

/// The acronyms of `mods` run together, leaving out the classic mod.
pub open spec fn mods_text(mods: Seq<Mod>) -> Seq<char>
    decreases mods.len(),
{
    if mods.len() == 0 {
        Seq::empty()
    } else if mods.last().acronym@ == "CL"@ {
        mods_text(mods.drop_last())
    } else {
        mods_text(mods.drop_last()) + mods.last().acronym@
    }
}

/// "NM" for a score without mods, or whose only mod is the classic one on the stable
/// client; else "+" and the acronyms of the mods but the classic one.
pub fn format_mods_string(mods: &Vec<Mod>, game_version: &String) -> (r: String)
    ensures
        r@ == (if mods@.len() == 0 || (game_version@ == "Stable"@ && mods@.len() == 1) {
            "NM"@
        } else {
            seq!['+'] + mods_text(mods@)
        }),
{
    let stable = "Stable".to_owned();
    if mods.len() == 0 || (*game_version == stable && mods.len() == 1) {
        return "NM".to_owned();
    }
    let cl = "CL".to_owned();
    let mut out: Vec<char> = Vec::new();
    out.push('+');
    let mut i: usize = 0;
    while i < mods.len()
        invariant
            i <= mods@.len(),
            cl@ == "CL"@,
            out@ == seq!['+'] + mods_text(mods@.take(i as int)),
        decreases mods@.len() - i,
    {
        assert(mods@.take(i + 1).drop_last() =~= mods@.take(i as int));
        assert(mods@.take(i + 1).last() == mods@[i as int]);
        if mods[i].acronym != cl {
            let mut piece = chars_of(mods[i].acronym.as_str());
            out.append(&mut piece);
        }
        i = i + 1;
        assert(out@ =~= seq!['+'] + mods_text(mods@.take(i as int)));
    }
    assert(mods@.take(i as int) =~= mods@);
    string_of(&out)
}

/// A stored timestamp such as `2024-01-02T03:04:05Z` shown as `2024-01-02 03:04:05`.
pub fn format_score_date(date: String) -> (r: String)
    ensures
        r@ == replace_char_spec(replace_char_spec(date@, 'T', " "@), 'Z', ""@),
{
    let spaced = replace_char(date.as_str(), 'T', " ");
    replace_char(spaced.as_str(), 'Z', "")
}

/// A stored rank shown without its hidden-mod marker `H`, with `X` spelled `SS`.
pub fn format_score_rank(rank: String) -> (r: String)
    ensures
        r@ == replace_char_spec(replace_char_spec(rank@, 'H', ""@), 'X', "SS"@),
{
    let plain = replace_char(rank.as_str(), 'H', "");
    replace_char(plain.as_str(), 'X', "SS")
}

/// A length in seconds as `minutes:seconds`, or as `hours:minutes:seconds` when it is
/// longer than an hour; no part is padded.
pub fn format_duration_secs(duration: u64) -> (r: String)
    ensures
        r@ == (if duration > 3600 {
            decimal_spec((duration / 3600) as nat) + ":"@ + decimal_spec(
                ((duration % 3600) / 60) as nat,
            ) + ":"@ + decimal_spec((duration % 60) as nat)
        } else {
            decimal_spec(((duration % 3600) / 60) as nat) + ":"@ + decimal_spec(
                (duration % 60) as nat,
            )
        }),
{
    let hours = duration / 3600;
    let minutes = (duration % 3600) / 60;
    let seconds = duration % 60;
    let mut out: Vec<char> = Vec::new();
    if duration > 3600 {
        let mut h = chars_of(decimal(hours).as_str());
        out.append(&mut h);
        out.push(':');
    }
    let mut m = chars_of(decimal(minutes).as_str());
    out.append(&mut m);
    out.push(':');
    let mut s = chars_of(decimal(seconds).as_str());
    out.append(&mut s);
    proof {
        reveal_strlit(":");
        if duration > 3600 {
            assert(out@ =~= decimal_spec(hours as nat) + ":"@ + decimal_spec(minutes as nat) + ":"@
                + decimal_spec(seconds as nat));
        } else {
            assert(out@ =~= decimal_spec(minutes as nat) + ":"@ + decimal_spec(seconds as nat));
        }
    }
    string_of(&out)
}

} // verus!
