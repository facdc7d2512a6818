//! Helpers of the moth commands: the ranks of a classification, whether a record fits
//! a search, and whether a classification belongs to a butterfly.
use vstd::prelude::*;
use crate::text::{chars_of, eq_ignore_ascii_case, eq_ignore_ascii_case_spec, string_of};

verus! {

/// The superfamily of all butterflies.
pub const BUTTERFLY_SUPERFAMILY: &'static str = "Papilionoidea";

/// The ranks that are present, in order.
pub open spec fn present_ranks(input: Seq<Option<String>>) -> Seq<Seq<char>>
    decreases input.len(),
{
    if input.len() == 0 {
        Seq::empty()
    } else {
        match input.last() {
            Some(s) => present_ranks(input.drop_last()).push(s@),
            None => present_ranks(input.drop_last()),
        }
    }
}

/// The ranks of a classification that are present, in order.
pub fn get_moth_rank_vec(input_strings: &[Option<String>]) -> (r: Vec<String>)
    ensures
        r.deep_view() == present_ranks(input_strings@),
{
    let mut out: Vec<String> = Vec::new();
    let mut i: usize = 0;
    while i < input_strings.len()
        invariant
            i <= input_strings@.len(),
            out.deep_view() == present_ranks(input_strings@.take(i as int)),
        decreases input_strings@.len() - i,
    {
        assert(input_strings@.take(i + 1).drop_last() =~= input_strings@.take(i as int));
        assert(input_strings@.take(i + 1).last() == input_strings@[i as int]);
        match &input_strings[i] {
            Some(s) => {
                let ghost before = out@;
                out.push(s.clone());
                assert(out.deep_view() =~= before.map_values(|x: String| x@).push(s@));
            },
            None => {},
        }
        i = i + 1;
    }
    assert(input_strings@.take(i as int) =~= input_strings@);
    out
}

/// Whether a record fits the search on one rank: any record fits where the rank is not
/// searched; else the record must have the rank, equal to the search but for ASCII case.
pub open spec fn classification_fits(search: Option<Seq<char>>, have: Option<Seq<char>>) -> bool {
    match search {
        None => true,
        Some(s) => match have {
            Some(h) => eq_ignore_ascii_case_spec(h, s),
            None => false,
        },
    }
}

/// The text of an optional string.
pub open spec fn opt_text(o: &Option<String>) -> Option<Seq<char>> {
    match o {
        Some(s) => Some(s@),
        None => None,
    }
}

pub fn search_classification_valid(search_input: &Option<String>, check_against: &Option<String>) -> (r: bool)
    ensures
        r == classification_fits(opt_text(search_input), opt_text(check_against)),
{
    match search_input {
        Some(s) => match check_against {
            Some(h) => eq_ignore_ascii_case(h.as_str(), s.as_str()),
            None => false,
        },
        None => true,
    }
}

/// The lower-case form of `s`.
pub uninterp spec fn lower_of(s: Seq<char>) -> Seq<char>;

/// Relies on `str::to_lowercase`: the lower-case form, which depends on the characters
/// alone.
#[verifier::external_body]
fn lowercase(s: &str) -> (r: String)
    ensures
        r@ == lower_of(s@),
{
    s.to_lowercase()
}

/// Taxa, in lower case, whose members count as butterflies.
#[derive(Clone, Debug)]
pub struct ButterflyBlacklist {
    pub families: Vec<String>,
    pub subfamilies: Vec<String>,
    pub tribes: Vec<String>,
    pub subtribes: Vec<String>,
    pub genera: Vec<String>,
    pub epithets: Vec<String>,
}

/// Whether the rank is present and, in lower case, one of `list`.
pub open spec fn listed(list: Seq<String>, rank: Option<Seq<char>>) -> bool {
    match rank {
        Some(r) => exists|i: int| 0 <= i < list.len() && (#[trigger] list[i])@ == lower_of(r),
        None => false,
    }
}

fn list_contains(list: &Vec<String>, s: &String) -> (r: bool)
    ensures
        r == exists|i: int| 0 <= i < list@.len() && (#[trigger] list@[i])@ == s@,
{
    let mut i: usize = 0;
    while i < list.len()
        invariant
            i <= list@.len(),
            forall|k: int| 0 <= k < i ==> (#[trigger] list@[k])@ != s@,
        decreases list@.len() - i,
    {
        if list[i] == *s {
            return true;
        }
        i = i + 1;
    }
    false
}

fn rank_listed(list: &Vec<String>, rank: &Option<String>) -> (r: bool)
    ensures
        r == listed(list@, opt_text(rank)),
{
    match rank {
        Some(name) => {
            let lower = lowercase(name.as_str());
            list_contains(list, &lower)
        },
        None => false,
    }
}

/// Whether a classification is a butterfly's: its superfamily is the butterflies' own,
/// or one of its lower ranks is on the blacklist.
pub fn is_butterfly(
    butterfly_blacklist: &ButterflyBlacklist,
    superfamily: &Option<String>,
    family: &Option<String>,
    subfamily: &Option<String>,
    tribe: &Option<String>,
    subtribe: &Option<String>,
    genus: &Option<String>,
    epithet: &Option<String>,
) -> (r: bool)
    ensures
        r == (opt_text(superfamily) == Some(BUTTERFLY_SUPERFAMILY@) || listed(
            butterfly_blacklist.families@,
            opt_text(family),
        ) || listed(butterfly_blacklist.subfamilies@, opt_text(subfamily)) || listed(
            butterfly_blacklist.tribes@,
            opt_text(tribe),
        ) || listed(butterfly_blacklist.subtribes@, opt_text(subtribe)) || listed(
            butterfly_blacklist.genera@,
            opt_text(genus),
        ) || listed(butterfly_blacklist.epithets@, opt_text(epithet))),
{
    let butterflies = BUTTERFLY_SUPERFAMILY.to_owned();
    match superfamily {
        Some(s) => {
            if *s == butterflies {
                return true;
            }
        },
        None => {},
    }
    rank_listed(&butterfly_blacklist.families, family) || rank_listed(
        &butterfly_blacklist.subfamilies,
        subfamily,
    ) || rank_listed(&butterfly_blacklist.tribes, tribe) || rank_listed(
        &butterfly_blacklist.subtribes,
        subtribe,
    ) || rank_listed(&butterfly_blacklist.genera, genus) || rank_listed(
        &butterfly_blacklist.epithets,
        epithet,
    )
}

/// What iNaturalist knows of a species.
#[derive(Clone, Debug)]
pub struct INaturalistData {
    pub inaturalist_url: String,
    pub photo_url: Option<String>,
    pub wikipedia_url: Option<String>,
}

/// What GBIF knows of a species.
#[derive(Clone, Debug)]
pub struct GBIFData {
    pub usage_key: String,
}

/// The classification of a species.
#[derive(Clone, Debug)]
pub struct Classification {
    pub superfamily: Option<String>,
    pub family: Option<String>,
    pub subfamily: Option<String>,
    pub tribe: Option<String>,
    pub subtribe: Option<String>,
    pub genus: String,
    pub epithet: String,
}

/// A species of the bundled moth data.
#[derive(Clone, Debug)]
pub struct SpeciesData {
    pub classification: Classification,
    pub catalogue_of_life_taxon_id: String,
}

/// The ranks a moth search asks for; a rank left out matches every species.
#[derive(Clone, Debug)]
pub struct MothSearch {
    pub superfamily: Option<String>,
    pub family: Option<String>,
    pub subfamily: Option<String>,
    pub tribe: Option<String>,
    pub subtribe: Option<String>,
    pub genus: Option<String>,
    pub epithet: Option<String>,
}

/// Whether an optional rank fits a search on it: exact equality where it is searched.
pub open spec fn rank_fits(search: Option<Seq<char>>, have: Option<Seq<char>>) -> bool {
    search is None || search == have
}

/// Whether a species fits every rank of a wide search, each compared exactly.
pub open spec fn fits_search(c: &Classification, q: &MothSearch) -> bool {
    &&& rank_fits(opt_text(&q.superfamily), opt_text(&c.superfamily))
    &&& rank_fits(opt_text(&q.family), opt_text(&c.family))
    &&& rank_fits(opt_text(&q.subfamily), opt_text(&c.subfamily))
    &&& rank_fits(opt_text(&q.tribe), opt_text(&c.tribe))
    &&& rank_fits(opt_text(&q.subtribe), opt_text(&c.subtribe))
    &&& rank_fits(opt_text(&q.genus), Some(c.genus@))
    &&& rank_fits(opt_text(&q.epithet), Some(c.epithet@))
}

fn rank_fits_exec(search: &Option<String>, have: &Option<String>) -> (r: bool)
    ensures
        r == rank_fits(opt_text(search), opt_text(have)),
{
    match (search, have) {
        (None, _) => true,
        (Some(s), Some(h)) => *s == *h,
        (Some(_), None) => false,
    }
}

fn name_fits(search: &Option<String>, have: &String) -> (r: bool)
    ensures
        r == rank_fits(opt_text(search), Some(have@)),
{
    match search {
        None => true,
        Some(s) => *s == *have,
    }
}

/// Whether a species fits a wide search.
pub fn moth_fits(c: &Classification, q: &MothSearch) -> (r: bool)
    ensures
        r == fits_search(c, q),
{
    rank_fits_exec(&q.superfamily, &c.superfamily) && rank_fits_exec(&q.family, &c.family)
        && rank_fits_exec(&q.subfamily, &c.subfamily) && rank_fits_exec(&q.tribe, &c.tribe)
        && rank_fits_exec(&q.subtribe, &c.subtribe) && name_fits(&q.genus, &c.genus)
        && name_fits(&q.epithet, &c.epithet)
}

/// The positions of the species that fit a wide search, in order.
pub fn search_moths(moths: &Vec<SpeciesData>, q: &MothSearch) -> (r: Vec<usize>)
    ensures
        forall|k: int| 0 <= k < r@.len() ==> (r@[k] as int) < moths@.len() && fits_search(
            &moths@[#[trigger] r@[k] as int].classification,
            q,
        ),
        forall|k: int, l: int| 0 <= k < l < r@.len() ==> r@[k] < r@[l],
        forall|i: int|
            0 <= i < moths@.len() && fits_search(&(#[trigger] moths@[i]).classification, q)
                ==> r@.contains(i as usize),
{
    let mut out: Vec<usize> = Vec::new();
    let mut i: usize = 0;
    while i < moths.len()
        invariant
            i <= moths@.len(),
            forall|k: int| 0 <= k < out@.len() ==> (out@[k] as int) < i && fits_search(
                &moths@[#[trigger] out@[k] as int].classification,
                q,
            ),
            forall|k: int, l: int| 0 <= k < l < out@.len() ==> out@[k] < out@[l],
            forall|j: int|
                0 <= j < i && fits_search(&(#[trigger] moths@[j]).classification, q)
                    ==> out@.contains(j as usize),
        decreases moths@.len() - i,
    {
        let ghost before = out@;
        if moth_fits(&moths[i].classification, q) {
            out.push(i);
            assert(out@[out@.len() - 1] == i);
        }
        assert forall|j: int|
            0 <= j < i + 1 && fits_search(&(#[trigger] moths@[j]).classification, q)
                implies out@.contains(j as usize) by {
            if j < i {
                let k = choose|k: int| 0 <= k < before.len() && before[k] == j as usize;
                assert(out@[k] == j as usize);
            } else {
                assert(out@[out@.len() - 1] == j as usize);
            }
        }
        i = i + 1;
    }
    out
}

/// Whether `a` comes no later than `b` in the order of characters.
pub open spec fn lex_le(a: Seq<char>, b: Seq<char>) -> bool
    decreases a.len(),
{
    if a.len() == 0 {
        true
    } else if b.len() == 0 {
        false
    } else if a[0] != b[0] {
        a[0] < b[0]
    } else {
        lex_le(a.drop_first(), b.drop_first())
    }
}

/// Relies on `slice::sort_by_key` with `String`'s order, which compares UTF-8 bytes and
/// so orders strings by their characters: the positions of `keys`, sorted by their key.
#[verifier::external_body]
fn sort_positions(keys: &Vec<String>) -> (r: Vec<usize>)
    ensures
        r@.len() == keys@.len(),
        forall|k: int| 0 <= k < r@.len() ==> (#[trigger] r@[k] as int) < keys@.len(),
        forall|k: int, l: int| 0 <= k < l < r@.len() ==> r@[k] != r@[l],
        forall|k: int|
            0 <= k < r@.len() - 1 ==> lex_le(keys@[#[trigger] r@[k] as int]@, keys@[r@[k + 1] as int]@),
{
    let mut positions: Vec<usize> = (0..keys.len()).collect();
    positions.sort_by_key(|p| &keys[*p]);
    positions
}

/// The name a species is listed by: its genus and epithet.
pub open spec fn binomial(c: &Classification) -> Seq<char> {
    c.genus@ + " "@ + c.epithet@
}

fn binomial_exec(c: &Classification) -> (r: String)
    ensures
        r@ == binomial(c),
{
    let mut cs = chars_of(c.genus.as_str());
    cs.push(' ');
    let mut rest = chars_of(c.epithet.as_str());
    cs.append(&mut rest);
    proof {
        reveal_strlit(" ");
    }
    assert(cs@ =~= binomial(c));
    string_of(&cs)
}

/// The positions `found` put in the order of the species' names.
pub fn sort_by_name(moths: &Vec<SpeciesData>, found: &Vec<usize>) -> (r: Vec<usize>)
    requires
        forall|k: int| 0 <= k < found@.len() ==> (#[trigger] found@[k] as int) < moths@.len(),
    ensures
        r@.len() == found@.len(),
        forall|k: int| 0 <= k < r@.len() ==> found@.contains(#[trigger] r@[k]),
        forall|k: int|
            0 <= k < r@.len() - 1 ==> lex_le(
                binomial(&moths@[#[trigger] r@[k] as int].classification),
                binomial(&moths@[r@[k + 1] as int].classification),
            ),
{
    let mut keys: Vec<String> = Vec::new();
    let mut i: usize = 0;
    while i < found.len()
        invariant
            i <= found@.len(),
            keys@.len() == i,
            forall|k: int| 0 <= k < found@.len() ==> (#[trigger] found@[k] as int) < moths@.len(),
            forall|k: int|
                0 <= k < i ==> (#[trigger] keys@[k])@ == binomial(
                    &moths@[found@[k] as int].classification,
                ),
        decreases found@.len() - i,
    {
        keys.push(binomial_exec(&moths[found[i]].classification));
        i = i + 1;
    }
    let order = sort_positions(&keys);
    let mut out: Vec<usize> = Vec::new();
    let mut j: usize = 0;
    while j < order.len()
        invariant
            j <= order@.len(),
            order@.len() == keys@.len(),
            keys@.len() == found@.len(),
            out@.len() == j,
            forall|k: int| 0 <= k < order@.len() ==> (#[trigger] order@[k] as int) < keys@.len(),
            forall|k: int| 0 <= k < j ==> #[trigger] out@[k] == found@[order@[k] as int],
        decreases order@.len() - j,
    {
        out.push(found[order[j]]);
        j = j + 1;
    }
    assert forall|k: int| 0 <= k < out@.len() implies found@.contains(#[trigger] out@[k]) by {
        assert(found@[order@[k] as int] == out@[k]);
    }
    assert forall|k: int| 0 <= k < out@.len() - 1 implies lex_le(
        binomial(&moths@[#[trigger] out@[k] as int].classification),
        binomial(&moths@[out@[k + 1] as int].classification),
    ) by {
        assert(keys@[order@[k] as int]@ == binomial(&moths@[found@[order@[k] as int] as int].classification));
        assert(keys@[order@[k + 1] as int]@ == binomial(&moths@[found@[order@[k + 1] as int] as int].classification));
    }
    out
}

/// How many species one page of search results lists.
pub const MOTHS_PER_PAGE: usize = 10;

/// How many pages `count` results take.
pub fn page_count(count: usize) -> (r: usize)
    ensures
        r as int == (count as int + 9) / 10,
{
    count / 10 + if count % 10 == 0 { 0 } else { 1 }
}

/// The positions, among `count` results, that page `page` lists: from `start` up to,
/// not including, `end`.
pub fn page_bounds(page: usize, count: usize) -> (r: (usize, usize))
    requires
        page * 10 <= count,
    ensures
        r.0 == page * 10,
        r.1 as int == if page * 10 + 10 >= count { count as int } else { page * 10 + 10 },
{
    let start = page * MOTHS_PER_PAGE;
    let end = if count - start <= MOTHS_PER_PAGE { count } else { start + MOTHS_PER_PAGE };
    (start, end)
}

/// The buttons under a page of search results.
#[derive(Clone, Copy, Debug, PartialEq, Eq, Structural)]
pub enum PageButton {
    First,
    Back,
    Forward,
    Last,
}

/// The page that a press of `button` on page `page` of `pagecount` leads to, or `None`
/// where the press changes nothing: back at the first page, forward at the last, or no
/// pages at all.
pub open spec fn next_page_spec(page: nat, pagecount: nat, button: PageButton) -> Option<nat> {
    if pagecount == 0 {
        None
    } else {
        match button {
            PageButton::First | PageButton::Back => if page == 0 {
                None
            } else if button == PageButton::First {
                Some(0)
            } else {
                Some((page - 1) as nat)
            },
            PageButton::Forward | PageButton::Last => if page == pagecount - 1 {
                None
            } else if button == PageButton::Last {
                Some((pagecount - 1) as nat)
            } else {
                Some(page + 1)
            },
        }
    }
}

pub fn next_page(page: usize, pagecount: usize, button: PageButton) -> (r: Option<usize>)
    requires
        page < pagecount || pagecount == 0,
    ensures
        match r {
            Some(p) => next_page_spec(page as nat, pagecount as nat, button) == Some(p as nat),
            None => next_page_spec(page as nat, pagecount as nat, button) is None,
        },
{
    if pagecount == 0 {
        return None;
    }
    match button {
        PageButton::First => if page == 0 { None } else { Some(0) },
        PageButton::Back => if page == 0 { None } else { Some(page - 1) },
        PageButton::Forward => if page == pagecount - 1 { None } else { Some(page + 1) },
        PageButton::Last => if page == pagecount - 1 { None } else { Some(pagecount - 1) },
    }
}

/// Whether a search asks for the butterflies' superfamily, in any case.
pub fn is_butterfly_search(superfamily: &Option<String>) -> (r: bool)
    ensures
        r == (superfamily matches Some(s) && lower_of(s@) == lower_of(BUTTERFLY_SUPERFAMILY@)),
{
    match superfamily {
        Some(s) => {
            let a = lowercase(s.as_str());
            let b = lowercase(BUTTERFLY_SUPERFAMILY);
            a == b
        },
        None => false,
    }
}

/// The first species whose genus and epithet equal the ones asked for, in lower case.
pub fn find_species(moths: &Vec<SpeciesData>, genus: &str, epithet: &str) -> (r: Option<usize>)
    ensures
        match r {
            Some(i) => (i as int) < moths@.len() && lower_of(moths@[i as int].classification.genus@)
                == lower_of(genus@) && lower_of(moths@[i as int].classification.epithet@) == lower_of(
                epithet@,
            ) && forall|j: int|
                0 <= j < i ==> !(lower_of((#[trigger] moths@[j]).classification.genus@) == lower_of(
                    genus@,
                ) && lower_of(moths@[j].classification.epithet@) == lower_of(epithet@)),
            None => forall|j: int|
                0 <= j < moths@.len() ==> !(lower_of((#[trigger] moths@[j]).classification.genus@)
                    == lower_of(genus@) && lower_of(moths@[j].classification.epithet@) == lower_of(
                    epithet@,
                )),
        },
{
    let g = lowercase(genus);
    let e = lowercase(epithet);
    let mut i: usize = 0;
    while i < moths.len()
        invariant
            i <= moths@.len(),
            g@ == lower_of(genus@),
            e@ == lower_of(epithet@),
            forall|j: int|
                0 <= j < i ==> !(lower_of((#[trigger] moths@[j]).classification.genus@) == lower_of(
                    genus@,
                ) && lower_of(moths@[j].classification.epithet@) == lower_of(epithet@)),
        decreases moths@.len() - i,
    {
        let mg = lowercase(moths[i].classification.genus.as_str());
        let me = lowercase(moths[i].classification.epithet.as_str());
        if mg == g && me == e {
            return Some(i);
        }
        i = i + 1;
    }
    None
}

} // verus!
