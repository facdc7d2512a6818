//! The link moderation pipeline. A message is filtered only in a guild of the
//! allow-list and only when its author holds none of the bypass roles. Every part of
//! the message that looks like a link is extracted, the parts are joined by newlines
//! into one candidate buffer, and the denylist patterns are tried on that buffer in
//! their stored order; the first that matches decides, and later ones are not tried.
use vstd::prelude::*;
use crate::pattern::{Pattern, PatternError, PatternKind, PatternView, pattern_find, pattern_valid, simple_all_matches, simple_valid};
use crate::text::{chars_of, string_of};

verus! {

/// The detector of link-like text: a scheme, then as little as possible up to the next
/// whitespace or the end of the text.
pub const LINK_DETECTOR: &'static str = "https?://[^\\s]*?(\\s|$)";

/// Whether `c` is whitespace in Unicode's sense.
pub uninterp spec fn whitespace(c: char) -> bool;

/// Relies on `char::is_whitespace`: Unicode's White_Space property.
#[verifier::external_body]
fn is_whitespace(c: char) -> (r: bool)
    ensures
        r == whitespace(c),
{
    c.is_whitespace()
}

/// Whether a line holds nothing but whitespace.
pub open spec fn is_blank(line: Seq<char>) -> bool {
    forall|k: int| 0 <= k < line.len() ==> whitespace(#[trigger] line[k])
}

/// The lines of `s`, split at each newline; `s` without a newline is one line.
pub open spec fn split_lines(s: Seq<char>) -> Seq<Seq<char>>
    decreases s.len(),
{
    if s.len() == 0 {
        seq![Seq::<char>::empty()]
    } else {
        let rest = split_lines(s.drop_first());
        if s[0] == '\n' {
            seq![Seq::<char>::empty()] + rest
        } else {
            rest.update(0, seq![s[0]] + rest[0])
        }
    }
}

/// `lines` with `cur` put in front of its first line.
pub open spec fn prepend_first(cur: Seq<char>, lines: Seq<Seq<char>>) -> Seq<Seq<char>> {
    lines.update(0, cur + lines[0])
}

/// The lines of `lines` that are not blank, in order.
pub open spec fn nonblank(lines: Seq<Seq<char>>) -> Seq<Seq<char>>
    decreases lines.len(),
{
    if lines.len() == 0 {
        Seq::empty()
    } else {
        let r = nonblank(lines.drop_last());
        if is_blank(lines.last()) {
            r
        } else {
            r.push(lines.last())
        }
    }
}

/// `parts` joined into one text, with a newline between each two.
pub open spec fn join_lines(parts: Seq<Seq<char>>) -> Seq<char>
    decreases parts.len(),
{
    if parts.len() == 0 {
        Seq::empty()
    } else if parts.len() == 1 {
        parts[0]
    } else {
        join_lines(parts.drop_last()) + seq!['\n'] + parts.last()
    }
}

proof fn lemma_split_lines_nonempty(s: Seq<char>)
    ensures
        split_lines(s).len() >= 1,
    decreases s.len(),
{
    if s.len() > 0 {
        lemma_split_lines_nonempty(s.drop_first());
    }
}

/// The lines of `text`, split at each newline.
pub fn lines_of(text: &str) -> (r: Vec<String>)
    ensures
        r.deep_view() == split_lines(text@),
{
    let cs = chars_of(text);
    let mut done: Vec<String> = Vec::new();
    let mut cur: Vec<char> = Vec::new();
    let mut i: usize = 0;
    assert(cs@.skip(0) =~= cs@);
    proof {
        lemma_split_lines_nonempty(cs@);
        assert(prepend_first(Seq::<char>::empty(), split_lines(cs@)) =~= split_lines(cs@));
    }
    while i < cs.len()
        invariant
            i <= cs@.len(),
            split_lines(cs@) == done.deep_view() + prepend_first(cur@, split_lines(cs@.skip(i as int))),
        decreases cs@.len() - i,
    {
        let c = cs[i];
        let ghost tail = cs@.skip(i as int);
        let ghost rest = split_lines(cs@.skip(i + 1));
        proof {
            assert(tail.drop_first() =~= cs@.skip(i + 1));
            assert(tail[0] == c);
            lemma_split_lines_nonempty(cs@.skip(i + 1));
        }
        if c == '\n' {
            let line = string_of(&cur);
            proof {
                assert(prepend_first(cur@, seq![Seq::<char>::empty()] + rest) =~= seq![cur@] + rest);
                assert(prepend_first(Seq::<char>::empty(), rest) =~= rest);
                assert(done.deep_view().push(line@) + rest =~= done.deep_view() + (seq![cur@] + rest));
            }
            let ghost before = done@;
            done.push(line);
            cur = Vec::new();
            assert(done.deep_view() =~= before.map_values(|s: String| s@).push(line@));
        } else {
            proof {
                assert(cur@ + (seq![c] + rest[0]) =~= cur@.push(c) + rest[0]);
                assert(prepend_first(cur@, rest.update(0, seq![c] + rest[0])) =~= prepend_first(
                    cur@.push(c),
                    rest,
                ));
            }
            cur.push(c);
        }
        i = i + 1;
    }
    let line = string_of(&cur);
    proof {
        assert(cs@.skip(i as int) =~= Seq::<char>::empty());
        assert(prepend_first(cur@, seq![Seq::<char>::empty()]) =~= seq![cur@]);
    }
    let ghost before = done@;
    done.push(line);
    assert(done.deep_view() =~= before.map_values(|s: String| s@).push(line@));
    done
}

/// Whether `line` holds nothing but whitespace.
pub fn line_is_blank(line: &str) -> (r: bool)
    ensures
        r == is_blank(line@),
{
    let cs = chars_of(line);
    let mut i: usize = 0;
    while i < cs.len()
        invariant
            i <= cs@.len(),
            cs@ == line@,
            forall|k: int| 0 <= k < i ==> whitespace(#[trigger] cs@[k]),
        decreases cs@.len() - i,
    {
        if !is_whitespace(cs[i]) {
            return false;
        }
        i = i + 1;
    }
    true
}

/// The view of a case-insensitive linear-time pattern compiled from `source`.
pub open spec fn denylist_view(source: Seq<char>) -> PatternView {
    PatternView { kind: PatternKind::Simple, source, case_insensitive: true }
}

/// The compiled link detector and denylist patterns.
pub struct RegexFilters {
    links_detector: Pattern,
    links_blacklist: Vec<Pattern>,
}

impl RegexFilters {
    pub closed spec fn detector(&self) -> PatternView {
        self.links_detector@
    }

    /// The views of the denylist patterns, in their order.
    pub closed spec fn denylist(&self) -> Seq<PatternView> {
        self.links_blacklist@.map_values(|p: Pattern| p@)
    }

    pub open spec fn wf(&self) -> bool {
        self.detector() == denylist_view(LINK_DETECTOR@)
    }

    /// Compiles the link detector and one denylist pattern for each line of
    /// `denylist_text` that is not blank, in order, all ignoring case. Fails exactly when
    /// one of them does not compile.
    pub fn new(denylist_text: &str) -> (r: Result<RegexFilters, PatternError>)
        ensures
            r is Ok <==> simple_valid(LINK_DETECTOR@, true) && forall|i: int|
                0 <= i < nonblank(split_lines(denylist_text@)).len() ==> simple_valid(
                    #[trigger] nonblank(split_lines(denylist_text@))[i],
                    true,
                ),
            r matches Ok(f) ==> f.wf() && f.denylist() == nonblank(
                split_lines(denylist_text@),
            ).map_values(|l: Seq<char>| denylist_view(l)),
    {
        let links_detector = match Pattern::compile(LINK_DETECTOR, false, true) {
            Ok(p) => p,
            Err(e) => {
                return Err(e);
            },
        };
        let lines = lines_of(denylist_text);
        let ghost ls = lines.deep_view();
        let mut links_blacklist: Vec<Pattern> = Vec::new();
        let mut i: usize = 0;
        while i < lines.len()
            invariant
                i <= lines@.len(),
                ls == lines.deep_view(),
                ls == split_lines(denylist_text@),
                forall|k: int|
                    0 <= k < nonblank(ls.take(i as int)).len() ==> simple_valid(
                        #[trigger] nonblank(ls.take(i as int))[k],
                        true,
                    ),
                links_blacklist@.map_values(|p: Pattern| p@) == nonblank(
                    ls.take(i as int),
                ).map_values(|l: Seq<char>| denylist_view(l)),
            decreases lines@.len() - i,
        {
            let line = &lines[i];
            assert(ls.take(i + 1).drop_last() =~= ls.take(i as int));
            assert(ls.take(i + 1).last() == line@);
            if !line_is_blank(line.as_str()) {
                let p = match Pattern::compile(line.as_str(), false, true) {
                    Ok(p) => p,
                    Err(e) => {
                        proof {
                            let n = nonblank(ls.take(i + 1));
                            assert(n.last() == line@);
                            lemma_nonblank_prefix(ls, i + 1);
                        }
                        return Err(e);
                    },
                };
                let ghost before = links_blacklist@;
                links_blacklist.push(p);
                assert(links_blacklist@.map_values(|p: Pattern| p@) =~= before.map_values(
                    |p: Pattern| p@,
                ).push(denylist_view(line@)));
                assert(nonblank(ls.take(i + 1)).map_values(|l: Seq<char>| denylist_view(l))
                    =~= nonblank(ls.take(i as int)).map_values(|l: Seq<char>| denylist_view(l)).push(
                    denylist_view(line@),
                ));
            }
            i = i + 1;
        }
        assert(ls.take(i as int) =~= ls);
        Ok(RegexFilters { links_detector, links_blacklist })
    }
}

/// The non-blank lines among a leading part of `lines` are a leading part of those of
/// all of `lines`.
proof fn lemma_nonblank_prefix(lines: Seq<Seq<char>>, n: int)
    requires
        0 <= n <= lines.len(),
    ensures
        nonblank(lines.take(n)).len() <= nonblank(lines).len(),
        forall|k: int|
            0 <= k < nonblank(lines.take(n)).len() ==> #[trigger] nonblank(lines.take(n))[k]
                == nonblank(lines)[k],
    decreases lines.len() - n,
{
    if n < lines.len() {
        lemma_nonblank_prefix(lines, n + 1);
        assert(lines.take(n + 1).drop_last() =~= lines.take(n));
        let a = nonblank(lines.take(n));
        let b = nonblank(lines.take(n + 1));
        assert(b == a || b == a.push(lines.take(n + 1).last()));
        assert forall|k: int| 0 <= k < a.len() implies #[trigger] a[k] == nonblank(lines)[k] by {
            assert(b[k] == a[k]);
        }
    } else {
        assert(lines.take(n) =~= lines);
    }
}

/// `parts` joined into one string, with a newline between each two.
pub fn join_with_newlines(parts: &Vec<String>) -> (r: String)
    ensures
        r@ == join_lines(parts.deep_view()),
{
    let ghost ps = parts.deep_view();
    let mut out: Vec<char> = Vec::new();
    let mut i: usize = 0;
    while i < parts.len()
        invariant
            i <= parts@.len(),
            ps == parts.deep_view(),
            out@ == join_lines(ps.take(i as int)),
        decreases parts@.len() - i,
    {
        assert(ps.take(i + 1).drop_last() =~= ps.take(i as int));
        assert(ps.take(i + 1).last() == parts@[i as int]@);
        let mut piece = chars_of(parts[i].as_str());
        if i > 0 {
            out.push('\n');
        } else {
            assert(out@ =~= Seq::<char>::empty());
        }
        out.append(&mut piece);
        i = i + 1;
        assert(out@ =~= join_lines(ps.take(i as int)));
    }
    assert(ps.take(i as int) =~= ps);
    string_of(&out)
}

/// The candidate buffer of a message: every link-like part of `content`, joined by
/// newlines.
pub open spec fn candidate_text(content: Seq<char>) -> Seq<char> {
    join_lines(simple_all_matches(LINK_DETECTOR@, true, content))
}

/// The index of the first pattern, from `i` on, that matches `buf`.
pub open spec fn first_hit_from(ps: Seq<PatternView>, buf: Seq<char>, i: int) -> Option<int>
    decreases ps.len() - i,
{
    if i < 0 || i >= ps.len() {
        None
    } else if pattern_find(ps[i], buf) is Some {
        Some(i)
    } else {
        first_hit_from(ps, buf, i + 1)
    }
}

/// The index of the first pattern of `ps` that matches `buf`.
pub open spec fn first_hit(ps: Seq<PatternView>, buf: Seq<char>) -> Option<int> {
    first_hit_from(ps, buf, 0)
}

/// The denylist pattern that matched a message, and what it matched.
#[derive(Clone, Debug)]
pub struct FilterHit {
    /// The position of the pattern in the denylist.
    pub rule_index: usize,
    /// The source of the pattern.
    pub rule: String,
    /// The text the pattern matched within the candidate buffer.
    pub matched: String,
    /// The candidate buffer: the message's link-like parts, joined by newlines.
    pub candidates: String,
}

/// `h` reports the first denylist pattern of `filters` that matches the candidate
/// buffer `buf`.
pub open spec fn reports_first_hit(filters: &RegexFilters, buf: Seq<char>, h: &FilterHit) -> bool {
    let i = h.rule_index as int;
    &&& first_hit(filters.denylist(), buf) == Some(i)
    &&& h.rule@ == filters.denylist()[i].source
    &&& pattern_find(filters.denylist()[i], buf) == Some(h.matched@)
    &&& h.candidates@ == buf
}

impl RegexFilters {
    /// The candidate buffer of a message.
    pub fn candidates(&self, content: &str) -> (r: String)
        requires
            self.wf(),
        ensures
            r@ == candidate_text(content@),
    {
        let links = self.links_detector.find_all(content);
        join_with_newlines(&links)
    }

    /// Tries the denylist patterns on `buffer` in order, and stops at the first that
    /// matches: its position and what it matched.
    pub fn first_match(&self, buffer: &str) -> (r: Option<(usize, String)>)
        ensures
            r is None <==> first_hit(self.denylist(), buffer@) is None,
            r matches Some((i, m)) ==> first_hit(self.denylist(), buffer@) == Some(i as int)
                && (i as int) < self.denylist().len() && pattern_find(self.denylist()[i as int], buffer@) == Some(m@),
    {
        let ghost ps = self.denylist();
        let mut i: usize = 0;
        while i < self.links_blacklist.len()
            invariant
                i <= self.links_blacklist@.len(),
                ps == self.denylist(),
                ps.len() == self.links_blacklist@.len(),
                first_hit(ps, buffer@) == first_hit_from(ps, buffer@, i as int),
            decreases self.links_blacklist@.len() - i,
        {
            assert(ps[i as int] == self.links_blacklist@[i as int]@);
            match self.links_blacklist[i].find(buffer) {
                Some(m) => {
                    return Some((i, m));
                },
                None => {},
            }
            i = i + 1;
        }
        None
    }

    /// Checks a message against the denylist, with no gating: the first pattern that
    /// matches the message's candidate buffer, if any.
    pub fn check(&self, content: &str) -> (r: Option<FilterHit>)
        requires
            self.wf(),
        ensures
            r is None <==> first_hit(self.denylist(), candidate_text(content@)) is None,
            r matches Some(h) ==> reports_first_hit(self, candidate_text(content@), &h),
    {
        let candidates = self.candidates(content);
        match self.first_match(candidates.as_str()) {
            Some((i, matched)) => {
                assert(self.denylist()[i as int] == self.links_blacklist@[i as int]@);
                let rule = self.links_blacklist[i].as_str().to_owned();
                Some(FilterHit { rule_index: i, rule, matched, candidates })
            },
            None => None,
        }
    }
}

/// Process-wide moderation configuration, fixed at start-up.
#[derive(Clone, Debug)]
pub struct FilterConfig {
    /// The guilds in which messages are filtered.
    pub filters_allowed_guilds: Vec<u64>,
    /// Roles whose holders are never filtered.
    pub filter_bypass_roles: Vec<u64>,
    /// Where each guild's audit entries go, as (guild, channel) pairs; the first pair
    /// of a guild counts.
    pub blacklist_logs_channels: Vec<(u64, u64)>,
}

/// Whether an author with `roles` holds one of the `bypass` roles.
pub open spec fn holds_bypass(roles: Seq<u64>, bypass: Seq<u64>) -> bool {
    exists|r: u64| roles.contains(r) && bypass.contains(r)
}

/// Whether a message is filtered at all: it is sent in a guild of the allow-list, by
/// an author who holds none of the bypass roles.
pub open spec fn filtered(config: &FilterConfig, guild_id: Option<u64>, roles: Seq<u64>) -> bool {
    &&& guild_id matches Some(g) && config.filters_allowed_guilds@.contains(g)
    &&& !holds_bypass(roles, config.filter_bypass_roles@)
}

/// Whether `v` holds `x`.
pub fn contains_id(v: &Vec<u64>, x: u64) -> (r: bool)
    ensures
        r == v@.contains(x),
{
    let mut i: usize = 0;
    while i < v.len()
        invariant
            i <= v@.len(),
            forall|k: int| 0 <= k < i ==> v@[k] != x,
        decreases v@.len() - i,
    {
        if v[i] == x {
            assert(v@[i as int] == x);
            return true;
        }
        i = i + 1;
    }
    false
}

/// Whether a message from `guild_id`, by an author holding `user_roles`, is filtered.
pub fn filters_apply(config: &FilterConfig, guild_id: Option<u64>, user_roles: &Vec<u64>) -> (r: bool)
    ensures
        r == filtered(config, guild_id, user_roles@),
{
    let valid_guild = match guild_id {
        Some(g) => contains_id(&config.filters_allowed_guilds, g),
        None => false,
    };
    let mut i: usize = 0;
    while i < user_roles.len()
        invariant
            i <= user_roles@.len(),
            forall|k: int|
                0 <= k < i ==> !config.filter_bypass_roles@.contains(#[trigger] user_roles@[k]),
        decreases user_roles@.len() - i,
    {
        if contains_id(&config.filter_bypass_roles, user_roles[i]) {
            assert(user_roles@.contains(user_roles@[i as int]));
            return false;
        }
        i = i + 1;
    }
    assert(!holds_bypass(user_roles@, config.filter_bypass_roles@)) by {
        assert forall|r: u64| user_roles@.contains(r) implies !config.filter_bypass_roles@.contains(
            r,
        ) by {
            let k = choose|k: int| 0 <= k < user_roles@.len() && user_roles@[k] == r;
        }
    }
    valid_guild
}

/// Decides what to do with a message: `None` to leave it, or the denylist hit for which
/// it is to be deleted. A message that is not filtered is always left, whatever it
/// holds; a filtered message is deleted for the first denylist pattern that matches its
/// candidate buffer.
pub fn moderate(
    config: &FilterConfig,
    filters: &RegexFilters,
    guild_id: Option<u64>,
    user_roles: &Vec<u64>,
    content: &str,
) -> (r: Option<FilterHit>)
    requires
        filters.wf(),
    ensures
        !filtered(config, guild_id, user_roles@) ==> r is None,
        filtered(config, guild_id, user_roles@) ==> (r is None <==> first_hit(
            filters.denylist(),
            candidate_text(content@),
        ) is None),
        r matches Some(h) ==> reports_first_hit(filters, candidate_text(content@), &h),
{
    if !filters_apply(config, guild_id, user_roles) {
        return None;
    }
    filters.check(content)
}

/// The audit log channel of `g`: that of the first pair for `g`.
pub open spec fn log_channel_of(pairs: Seq<(u64, u64)>, g: u64) -> Option<u64>
    decreases pairs.len(),
{
    if pairs.len() == 0 {
        None
    } else if pairs[0].0 == g {
        Some(pairs[0].1)
    } else {
        log_channel_of(pairs.drop_first(), g)
    }
}

/// The audit log channel configured for the guild, if any.
pub fn log_channel(config: &FilterConfig, guild_id: u64) -> (r: Option<u64>)
    ensures
        r == log_channel_of(config.blacklist_logs_channels@, guild_id),
{
    let ghost ps = config.blacklist_logs_channels@;
    let mut i: usize = 0;
    assert(ps.skip(0) =~= ps);
    while i < config.blacklist_logs_channels.len()
        invariant
            i <= ps.len(),
            ps == config.blacklist_logs_channels@,
            log_channel_of(ps, guild_id) == log_channel_of(ps.skip(i as int), guild_id),
        decreases ps.len() - i,
    {
        assert(ps.skip(i as int).drop_first() =~= ps.skip(i + 1));
        assert(ps.skip(i as int)[0] == ps[i as int]);
        let pair = config.blacklist_logs_channels[i];
        if pair.0 == guild_id {
            assert(ps.skip(i as int).len() > 0);
            return Some(pair.1);
        }
        i = i + 1;
    }
    assert(ps.skip(i as int) =~= Seq::<(u64, u64)>::empty());
    None
}

/// `s` with a backslash put before each backtick, so that it cannot close a code block.
pub open spec fn escape_spec(s: Seq<char>) -> Seq<char>
    decreases s.len(),
{
    if s.len() == 0 {
        Seq::empty()
    } else if s.last() == '`' {
        escape_spec(s.drop_last()) + seq!['\\', '`']
    } else {
        escape_spec(s.drop_last()).push(s.last())
    }
}

/// Puts a backslash before each backtick of `s`.
pub fn escape_backticks(s: &str) -> (r: String)
    ensures
        r@ == escape_spec(s@),
{
    let cs = chars_of(s);
    let mut out: Vec<char> = Vec::new();
    let mut i: usize = 0;
    while i < cs.len()
        invariant
            i <= cs@.len(),
            cs@ == s@,
            out@ == escape_spec(cs@.take(i as int)),
        decreases cs@.len() - i,
    {
        assert(cs@.take(i + 1).drop_last() =~= cs@.take(i as int));
        assert(cs@.take(i + 1).last() == cs@[i as int]);
        if cs[i] == '`' {
            out.push('\\');
            out.push('`');
        } else {
            out.push(cs[i]);
        }
        i = i + 1;
        assert(out@ =~= escape_spec(cs@.take(i as int)));
    }
    assert(cs@.take(i as int) =~= cs@);
    string_of(&out)
}

/// What the audit log records of a deleted message.
#[derive(Clone, Debug)]
pub struct AuditEntry {
    /// The channel the entry is sent to.
    pub log_channel: u64,
    pub author_id: u64,
    pub channel_id: u64,
    /// The message's text, escaped.
    pub content: String,
    /// The matched text, escaped.
    pub reason: String,
    /// The source of the pattern that matched, escaped.
    pub rule: String,
    /// The links of the message that were checked.
    pub links: String,
}

/// The audit entry for a message deleted for `hit`, where the guild has an audit log
/// channel; `None` where it has none, which is no error.
pub fn audit_entry(
    config: &FilterConfig,
    guild_id: Option<u64>,
    hit: &FilterHit,
    author_id: u64,
    channel_id: u64,
    content: &str,
) -> (r: Option<AuditEntry>)
    ensures
        r is Some <==> (guild_id matches Some(g) && log_channel_of(
            config.blacklist_logs_channels@,
            g,
        ) is Some),
        r matches Some(e) ==> {
            &&& Some(e.log_channel) == log_channel_of(
                config.blacklist_logs_channels@,
                guild_id->Some_0,
            )
            &&& e.author_id == author_id
            &&& e.channel_id == channel_id
            &&& e.content@ == escape_spec(content@)
            &&& e.reason@ == escape_spec(hit.matched@)
            &&& e.rule@ == escape_spec(hit.rule@)
            &&& e.links@ == hit.candidates@
        },
{
    let g = match guild_id {
        Some(g) => g,
        None => {
            return None;
        },
    };
    match log_channel(config, g) {
        Some(log_channel) => Some(
            AuditEntry {
                log_channel,
                author_id,
                channel_id,
                content: escape_backticks(content),
                reason: escape_backticks(hit.matched.as_str()),
                rule: escape_backticks(hit.rule.as_str()),
                links: hit.candidates.clone(),
            },
        ),
        None => None,
    }
}

proof fn lemma_first_hit_from(ps: Seq<PatternView>, buf: Seq<char>, i: int)
    requires
        0 <= i <= ps.len(),
    ensures
        match first_hit_from(ps, buf, i) {
            Some(k) => i <= k < ps.len() && pattern_find(ps[k], buf) is Some && forall|j: int|
                i <= j < k ==> pattern_find(#[trigger] ps[j], buf) is None,
            None => forall|j: int| i <= j < ps.len() ==> pattern_find(#[trigger] ps[j], buf) is None,
        },
    decreases ps.len() - i,
{
    if i < ps.len() && pattern_find(ps[i], buf) is None {
        lemma_first_hit_from(ps, buf, i + 1);
    }
}

/// The denylist decides by its first matching pattern: the reported pattern matches,
/// every pattern before it does not, and where none matches nothing is reported. So of
/// two patterns that both match, only the earlier one is ever reported.
pub proof fn lemma_first_match_wins(ps: Seq<PatternView>, buf: Seq<char>)
    ensures
        match first_hit(ps, buf) {
            Some(k) => 0 <= k < ps.len() && pattern_find(ps[k], buf) is Some && forall|j: int|
                0 <= j < k ==> pattern_find(#[trigger] ps[j], buf) is None,
            None => forall|j: int| 0 <= j < ps.len() ==> pattern_find(#[trigger] ps[j], buf) is None,
        },
        forall|a: int, b: int|
            0 <= a < b < ps.len() && pattern_find(#[trigger] ps[a], buf) is Some && pattern_find(
                #[trigger] ps[b],
                buf,
            ) is Some ==> first_hit(ps, buf) != Some(b),
{
    lemma_first_hit_from(ps, buf, 0);
}

} // verus!
