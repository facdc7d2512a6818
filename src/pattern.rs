//! Compiled patterns over two matching engines: the linear-time `regex` engine and the
//! backtracking `fancy_regex` engine, which also supports look-around. The engine is
//! chosen once, when the pattern is compiled, and never changes afterwards.
use vstd::prelude::*;

verus! {

#[verifier::external_type_specification]
#[verifier::external_body]
pub struct ExRegex(regex::Regex);

#[verifier::external_type_specification]
#[verifier::external_body]
pub struct ExRegexError(regex::Error);

#[verifier::external_type_specification]
#[verifier::external_body]
pub struct ExFancyRegex(fancy_regex::Regex);

#[verifier::external_type_specification]
#[verifier::external_body]
pub struct ExFancyRegexError(fancy_regex::Error);

/// Whether the `regex` engine accepts `source` with the given case sensitivity.
pub uninterp spec fn simple_valid(source: Seq<char>, case_insensitive: bool) -> bool;

/// The leftmost-first match of `source` in `hay` under the `regex` engine.
pub uninterp spec fn simple_first_match(
    source: Seq<char>,
    case_insensitive: bool,
    hay: Seq<char>,
) -> Option<Seq<char>>;

/// Every successive non-overlapping match of `source` in `hay` under the `regex` engine.
pub uninterp spec fn simple_all_matches(
    source: Seq<char>,
    case_insensitive: bool,
    hay: Seq<char>,
) -> Seq<Seq<char>>;

/// `hay` with every non-overlapping match of `source` replaced by `replacement`, in
/// which `$name` and `${name}` stand for capture groups, under the `regex` engine.
pub uninterp spec fn simple_replace_all(
    source: Seq<char>,
    case_insensitive: bool,
    hay: Seq<char>,
    replacement: Seq<char>,
) -> Seq<char>;

/// Whether the `fancy_regex` engine accepts `source` with the given case sensitivity.
pub uninterp spec fn fancy_valid(source: Seq<char>, case_insensitive: bool) -> bool;

/// The first match of `source` in `hay` under the `fancy_regex` engine; `None` where the
/// search itself fails (the engine gives up past its backtracking limit).
pub uninterp spec fn fancy_first_match(
    source: Seq<char>,
    case_insensitive: bool,
    hay: Seq<char>,
) -> Option<Option<Seq<char>>>;

/// A pattern compiled by the linear-time engine, with the source it was compiled from.
/// Only `build_simple` makes one, so its regex is always the one compiled from its
/// source and case flag; the matching wrappers rely on that.
pub struct SimpleMatcher {
    regex: regex::Regex,
    source: String,
    case_insensitive: bool,
}

/// A pattern compiled by the backtracking engine, with the source it was compiled from.
/// Only `build_fancy` makes one, so its regex is always the one compiled from its
/// source and case flag; the matching wrapper relies on that.
pub struct FancyMatcher {
    regex: fancy_regex::Regex,
    source: String,
    case_insensitive: bool,
}

/// Relies on `regex::RegexBuilder::build`: it succeeds exactly on the sources that the
/// engine accepts, and the matcher it gives is compiled from `source`.
#[verifier::external_body]
fn build_simple(source: &str, case_insensitive: bool) -> (r: Result<SimpleMatcher, regex::Error>)
    ensures
        r is Ok <==> simple_valid(source@, case_insensitive),
        r matches Ok(m) ==> m.source@ == source@ && m.case_insensitive == case_insensitive,
{
    regex::RegexBuilder::new(source).case_insensitive(case_insensitive).build().map(
        |regex| SimpleMatcher { regex, source: source.to_string(), case_insensitive },
    )
}

/// Relies on `regex::Regex::find`: the leftmost-first match, as text.
#[verifier::external_body]
fn find_simple(m: &SimpleMatcher, hay: &str) -> (r: Option<String>)
    ensures
        opt_view(r) == simple_first_match(m.source@, m.case_insensitive, hay@),
{
    m.regex.find(hay).map(|found| found.as_str().to_string())
}

/// Relies on `regex::Regex::find_iter`: the successive non-overlapping matches, as text.
#[verifier::external_body]
fn find_all_simple(m: &SimpleMatcher, hay: &str) -> (r: Vec<String>)
    ensures
        r.deep_view() == simple_all_matches(m.source@, m.case_insensitive, hay@),
{
    m.regex.find_iter(hay).map(|found| found.as_str().to_string()).collect()
}

/// Relies on `regex::Regex::replace_all` with a string replacement.
#[verifier::external_body]
fn replace_all_simple(m: &SimpleMatcher, hay: &str, replacement: &str) -> (r: String)
    ensures
        r@ == simple_replace_all(m.source@, m.case_insensitive, hay@, replacement@),
{
    m.regex.replace_all(hay, replacement).into_owned()
}

/// Relies on `fancy_regex::RegexBuilder::build`: it succeeds exactly on the sources that
/// the engine accepts, and the matcher it gives is compiled from `source`.
#[verifier::external_body]
fn build_fancy(source: &str, case_insensitive: bool) -> (r: Result<FancyMatcher, fancy_regex::Error>)
    ensures
        r is Ok <==> fancy_valid(source@, case_insensitive),
        r matches Ok(m) ==> m.source@ == source@ && m.case_insensitive == case_insensitive,
{
    fancy_regex::RegexBuilder::new(source).case_insensitive(case_insensitive).build().map(
        |regex| FancyMatcher { regex, source: source.to_string(), case_insensitive },
    )
}

/// Relies on `fancy_regex::Regex::find`: the first match as text, or an error where the
/// search gives up.
#[verifier::external_body]
fn find_fancy(m: &FancyMatcher, hay: &str) -> (r: Result<Option<String>, fancy_regex::Error>)
    ensures
        match r {
            Ok(found) => fancy_first_match(m.source@, m.case_insensitive, hay@) == Some(
                opt_view(found),
            ),
            Err(_) => fancy_first_match(m.source@, m.case_insensitive, hay@) is None,
        },
{
    m.regex.find(hay).map(|found| found.map(|x| x.as_str().to_string()))
}

/// The text of an optional string.
pub open spec fn opt_view(o: Option<String>) -> Option<Seq<char>> {
    match o {
        Some(s) => Some(s@),
        None => None,
    }
}

/// Which engine a pattern runs on.
#[derive(Clone, Copy, Debug, PartialEq, Eq, Structural)]
pub enum PatternKind {
    /// Linear time; no back-references and no look-around.
    Simple,
    /// Backtracking; supports look-around.
    Fancy,
}

/// What a pattern is: its engine, its source, and whether it ignores case.
pub struct PatternView {
    pub kind: PatternKind,
    pub source: Seq<char>,
    pub case_insensitive: bool,
}

/// Whether the engine of `kind` accepts `source`.
pub open spec fn pattern_valid(kind: PatternKind, source: Seq<char>, case_insensitive: bool) -> bool {
    match kind {
        PatternKind::Simple => simple_valid(source, case_insensitive),
        PatternKind::Fancy => fancy_valid(source, case_insensitive),
    }
}

/// The first match of pattern `p` in `hay`. A backtracking search that gives up counts
/// as no match.
pub open spec fn pattern_find(p: PatternView, hay: Seq<char>) -> Option<Seq<char>> {
    match p.kind {
        PatternKind::Simple => simple_first_match(p.source, p.case_insensitive, hay),
        PatternKind::Fancy => match fancy_first_match(p.source, p.case_insensitive, hay) {
            Some(found) => found,
            None => None,
        },
    }
}

/// Why a pattern source could not be compiled.
#[derive(Debug)]
pub enum PatternError {
    Simple(regex::Error),
    Fancy(fancy_regex::Error),
}

/// A compiled matcher on one of the two engines.
pub enum Pattern {
    Simple(SimpleMatcher),
    Fancy(FancyMatcher),
}

impl View for Pattern {
    type V = PatternView;

    open spec fn view(&self) -> PatternView {
        match self {
            Pattern::Simple(m) => PatternView {
                kind: PatternKind::Simple,
                source: m.source_spec(),
                case_insensitive: m.case_insensitive_spec(),
            },
            Pattern::Fancy(m) => PatternView {
                kind: PatternKind::Fancy,
                source: m.source_spec(),
                case_insensitive: m.case_insensitive_spec(),
            },
        }
    }
}

impl SimpleMatcher {
    pub closed spec fn source_spec(&self) -> Seq<char> {
        self.source@
    }

    pub closed spec fn case_insensitive_spec(&self) -> bool {
        self.case_insensitive
    }
}

impl FancyMatcher {
    pub closed spec fn source_spec(&self) -> Seq<char> {
        self.source@
    }

    pub closed spec fn case_insensitive_spec(&self) -> bool {
        self.case_insensitive
    }
}

impl Pattern {
    /// Compiles `source` on the backtracking engine when `fancy` holds, else on the
    /// linear-time engine. Fails exactly when that engine refuses the source.
    pub fn compile(source: &str, fancy: bool, case_insensitive: bool) -> (r: Result<
        Pattern,
        PatternError,
    >)
        ensures
            r is Ok <==> pattern_valid(
                if fancy { PatternKind::Fancy } else { PatternKind::Simple },
                source@,
                case_insensitive,
            ),
            r matches Ok(p) ==> p@ == (PatternView {
                kind: if fancy { PatternKind::Fancy } else { PatternKind::Simple },
                source: source@,
                case_insensitive,
            }),
    {
        if fancy {
            match build_fancy(source, case_insensitive) {
                Ok(m) => Ok(Pattern::Fancy(m)),
                Err(e) => Err(PatternError::Fancy(e)),
            }
        } else {
            match build_simple(source, case_insensitive) {
                Ok(m) => Ok(Pattern::Simple(m)),
                Err(e) => Err(PatternError::Simple(e)),
            }
        }
    }

    pub fn kind(&self) -> (r: PatternKind)
        ensures
            r == self@.kind,
    {
        match self {
            Pattern::Simple(_) => PatternKind::Simple,
            Pattern::Fancy(_) => PatternKind::Fancy,
        }
    }

    /// The source the pattern was compiled from.
    pub fn as_str(&self) -> (r: &str)
        ensures
            r@ == self@.source,
    {
        match self {
            Pattern::Simple(m) => m.source.as_str(),
            Pattern::Fancy(m) => m.source.as_str(),
        }
    }

    /// The first match in `hay`, as text.
    pub fn find(&self, hay: &str) -> (r: Option<String>)
        ensures
            opt_view(r) == pattern_find(self@, hay@),
    {
        match self {
            Pattern::Simple(m) => find_simple(m, hay),
            Pattern::Fancy(m) => match find_fancy(m, hay) {
                Ok(found) => found,
                Err(_) => None,
            },
        }
    }

    pub fn is_match(&self, hay: &str) -> (r: bool)
        ensures
            r == pattern_find(self@, hay@) is Some,
    {
        self.find(hay).is_some()
    }

    /// Every successive non-overlapping match in `hay`, as text; only a linear-time
    /// pattern offers this.
    pub fn find_all(&self, hay: &str) -> (r: Vec<String>)
        requires
            self@.kind == PatternKind::Simple,
        ensures
            r.deep_view() == simple_all_matches(self@.source, self@.case_insensitive, hay@),
    {
        match self {
            Pattern::Simple(m) => find_all_simple(m, hay),
            Pattern::Fancy(_) => Vec::new(),
        }
    }

    /// `hay` with every non-overlapping match replaced by `replacement`; only a
    /// linear-time pattern offers this.
    pub fn replace_all(&self, hay: &str, replacement: &str) -> (r: String)
        requires
            self@.kind == PatternKind::Simple,
        ensures
            r@ == simple_replace_all(self@.source, self@.case_insensitive, hay@, replacement@),
    {
        match self {
            Pattern::Simple(m) => replace_all_simple(m, hay, replacement),
            Pattern::Fancy(_) => String::new(),
        }
    }
}

} // verus!
