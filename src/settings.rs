//! The settings snapshot of one guild and the decoders that build its parts from
//! storage rows. Storage keeps identifiers as signed 64-bit integers; the settings keep
//! them unsigned, converted bit for bit.
use vstd::prelude::*;
use crate::flags::{Feature, GuildFeatures, ModRolePermissions, TriggerContext, features_of};
use crate::pattern::{Pattern, PatternError, PatternKind, PatternView, pattern_valid};
use crate::text::{BoundedString, truncate_convert, truncate_utf8};

verus! {

#[verifier::external_type_specification]
#[verifier::external_body]
pub struct ExJsonError(serde_json::Error);

/// The longest custom command prefix, in bytes.
pub const PREFIX_MAX_LEN: usize = 6;

/// The colour arrays that a JSON text holds, where it holds an array of arrays of
/// 32-bit unsigned integers.
pub uninterp spec fn colour_arrays_of(json: Seq<char>) -> Option<Seq<Seq<u32>>>;

/// Relies on `serde_json::from_str` into `Vec<Vec<u32>>`: it succeeds exactly on texts
/// that hold such an array of arrays, and gives those arrays.
#[verifier::external_body]
fn parse_colour_arrays(json: &str) -> (r: Result<Vec<Vec<u32>>, serde_json::Error>)
    ensures
        r is Ok <==> colour_arrays_of(json@) is Some,
        r matches Ok(v) ==> colour_arrays_of(json@) == Some(v.deep_view()),
{
    serde_json::from_str::<Vec<Vec<u32>>>(json)
}

/// Converts an identifier read from storage, keeping its 64 bits.
pub fn id_from_storage(raw: i64) -> (r: u64)
    ensures
        r == raw as u64,
{
    raw as u64
}

/// Why a stored row could not be decoded.
#[derive(Debug)]
pub enum DecodeError {
    /// A trigger's pattern source was refused by its engine.
    Pattern(PatternError),
    /// A colour column is not an array of arrays of unsigned 32-bit integers.
    ColourJson(serde_json::Error),
    /// A colour column holds no colour tier at all.
    NoColours,
    /// A colour tier holds no primary colour.
    EmptyColourTier,
    /// A trigger's metadata column is not the expected object.
    Metadata(String),
}

// ---------------------------------------------------------------- DM activity

#[derive(Clone, Copy, Debug, PartialEq, Eq, Structural)]
pub struct DmActivitySettings {
    pub cooldown_seconds: u32,
    pub announce_channel_id: Option<u64>,
    pub retention_days: Option<u8>,
}

/// The stored row of the DM activity settings.
#[derive(Clone, Copy, Debug)]
pub struct RawDmActivitySettings {
    pub cooldown_seconds: i32,
    pub announce_channel_id: Option<i64>,
    pub retention_days: Option<i16>,
}

/// A cooldown of an hour, no announce channel, no retention window.
pub open spec fn default_dm_activity() -> DmActivitySettings {
    DmActivitySettings { cooldown_seconds: 3600, announce_channel_id: None, retention_days: None }
}

impl Default for DmActivitySettings {
    fn default() -> (r: DmActivitySettings)
        ensures
            r == default_dm_activity(),
    {
        DmActivitySettings { cooldown_seconds: 3600, announce_channel_id: None, retention_days: None }
    }
}

impl DmActivitySettings {
    /// Decodes the stored row; each number is converted bit for bit to its unsigned type.
    pub fn from_raw(raw: &RawDmActivitySettings) -> (r: DmActivitySettings)
        ensures
            r.cooldown_seconds == raw.cooldown_seconds as u32,
            r.announce_channel_id == (match raw.announce_channel_id {
                Some(id) => Some(id as u64),
                None => None::<u64>,
            }),
            r.retention_days == (match raw.retention_days {
                Some(d) => Some(d as u8),
                None => None::<u8>,
            }),
    {
        DmActivitySettings {
            cooldown_seconds: raw.cooldown_seconds as u32,
            announce_channel_id: match raw.announce_channel_id {
                Some(id) => Some(id_from_storage(id)),
                None => None,
            },
            retention_days: match raw.retention_days {
                Some(d) => Some(d as u8),
                None => None,
            },
        }
    }
}

// ---------------------------------------------------------------- regex triggers

/// Free-form data attached to a trigger.
#[derive(Debug)]
pub struct TriggerMetadata {
    pub text: Option<String>,
}

impl Clone for TriggerMetadata {
    fn clone(&self) -> (r: TriggerMetadata)
        ensures
            r == *self,
    {
        TriggerMetadata {
            text: match &self.text {
                Some(t) => Some(t.clone()),
                None => None,
            },
        }
    }
}

/// A pattern-driven trigger of a guild.
pub struct RegexTrigger {
    pub id: u64,
    pub channel_id: Option<u64>,
    pub pattern: Pattern,
    pub trigger_context: TriggerContext,
    pub trigger_metadata: TriggerMetadata,
    pub is_recursive: bool,
    pub is_enabled: bool,
}

/// The stored row of a trigger, with its metadata already read into its type.
pub struct RawRegexTrigger {
    pub id: i64,
    pub channel_id: Option<i64>,
    pub pattern: String,
    pub trigger_context: i16,
    pub trigger_metadata: TriggerMetadata,
    pub is_recursive: bool,
    pub is_enabled: bool,
    pub is_fancy: bool,
}

/// The engine that a stored row asks for.
pub open spec fn kind_of(is_fancy: bool) -> PatternKind {
    if is_fancy {
        PatternKind::Fancy
    } else {
        PatternKind::Simple
    }
}

/// Whether the stored trigger's pattern compiles on the engine it asks for.
pub open spec fn trigger_row_valid(raw: &RawRegexTrigger) -> bool {
    pattern_valid(kind_of(raw.is_fancy), raw.pattern@, false)
}

/// `t` is what the stored row `raw` decodes to.
pub open spec fn trigger_decoded(raw: &RawRegexTrigger, t: &RegexTrigger) -> bool {
    &&& t.id == raw.id as u64
    &&& t.channel_id == (match raw.channel_id {
        Some(c) => Some(c as u64),
        None => None::<u64>,
    })
    &&& t.pattern@ == (PatternView {
        kind: kind_of(raw.is_fancy),
        source: raw.pattern@,
        case_insensitive: false,
    })
    &&& t.trigger_context.bits_spec() == (raw.trigger_context as u8) & 3
    &&& t.trigger_metadata == raw.trigger_metadata
    &&& t.is_recursive == raw.is_recursive
    &&& t.is_enabled == raw.is_enabled
}

impl RegexTrigger {
    /// Decodes a stored trigger, compiling its pattern on the engine that the row's
    /// `is_fancy` flag names. Fails exactly when that engine refuses the source.
    pub fn from_raw(raw: &RawRegexTrigger) -> (r: Result<RegexTrigger, DecodeError>)
        ensures
            r is Ok <==> trigger_row_valid(raw),
            r matches Ok(t) ==> trigger_decoded(raw, &t),
            r matches Err(e) ==> e is Pattern,
    {
        let pattern = match Pattern::compile(raw.pattern.as_str(), raw.is_fancy, false) {
            Ok(p) => p,
            Err(e) => {
                return Err(DecodeError::Pattern(e));
            },
        };
        Ok(RegexTrigger {
            id: id_from_storage(raw.id),
            channel_id: match raw.channel_id {
                Some(c) => Some(id_from_storage(c)),
                None => None,
            },
            pattern,
            trigger_context: TriggerContext::decode(raw.trigger_context),
            trigger_metadata: raw.trigger_metadata.clone(),
            is_recursive: raw.is_recursive,
            is_enabled: raw.is_enabled,
        })
    }
}

// ---------------------------------------------------------------- denylist channels

/// A channel exempted from, or included in, global filtering.
#[derive(Clone, Copy, Debug, PartialEq, Eq, Structural)]
pub struct GlobalRegexDenylistChannel {
    pub channel_id: u64,
    pub is_recursive: bool,
}

#[derive(Clone, Copy, Debug)]
pub struct RawGlobalRegexDenylistChannel {
    pub channel_id: i64,
    pub is_recursive: bool,
}

impl GlobalRegexDenylistChannel {
    pub fn from_raw(raw: &RawGlobalRegexDenylistChannel) -> (r: GlobalRegexDenylistChannel)
        ensures
            r.channel_id == raw.channel_id as u64,
            r.is_recursive == raw.is_recursive,
    {
        GlobalRegexDenylistChannel {
            channel_id: id_from_storage(raw.channel_id),
            is_recursive: raw.is_recursive,
        }
    }
}

// ---------------------------------------------------------------- moderator roles

#[derive(Clone, Copy, Debug)]
pub struct ModRole {
    pub role_id: u64,
    pub permissions: ModRolePermissions,
}

#[derive(Clone, Copy, Debug)]
pub struct RawModRole {
    pub role_id: i64,
    pub permissions: i64,
}

impl ModRole {
    /// Decodes a stored role; only the low byte of the permission column is read, and
    /// of it only the defined bits.
    pub fn from_raw(raw: &RawModRole) -> (r: ModRole)
        ensures
            r.role_id == raw.role_id as u64,
            r.permissions.bits_spec() == (raw.permissions as u8) & 1,
    {
        ModRole {
            role_id: id_from_storage(raw.role_id),
            permissions: ModRolePermissions::from_bits_truncate(raw.permissions as u8),
        }
    }
}

/// Per-role overrides of an automoderation rule.
#[derive(Clone, Debug)]
pub struct AutomodRuleOverrides {
    pub rule_id: u64,
    pub roles: Vec<(u64, bool)>,
}

// ---------------------------------------------------------------- sticky roles

#[derive(Clone, Copy, Debug, PartialEq, Eq, Structural)]
pub enum StickyRoleMode {
    Off,
    Allowlist,
    Denylist,
}

#[derive(Clone, Debug)]
pub struct StickyRoleSettings {
    pub allowlist_roles: Vec<u64>,
    pub denylist_roles: Vec<u64>,
    pub mode: StickyRoleMode,
    pub is_enabled: bool,
}

#[derive(Clone, Debug)]
pub struct RawStickyRoleSettings {
    pub allowlist_roles: Vec<i64>,
    pub denylist_roles: Vec<i64>,
    pub mode: StickyRoleMode,
    pub is_enabled: bool,
}

/// Stored identifiers, each converted bit for bit.
pub open spec fn ids_from_storage(raw: Seq<i64>) -> Seq<u64> {
    raw.map_values(|x: i64| x as u64)
}

/// Converts every stored identifier of `raw`, in order.
pub fn ids_from_storage_all(raw: &Vec<i64>) -> (r: Vec<u64>)
    ensures
        r@ == ids_from_storage(raw@),
{
    let mut out: Vec<u64> = Vec::new();
    let mut i: usize = 0;
    while i < raw.len()
        invariant
            i <= raw.len(),
            out@ == ids_from_storage(raw@.take(i as int)),
        decreases raw.len() - i,
    {
        assert(raw@.take(i + 1) =~= raw@.take(i as int).push(raw@[i as int]));
        out.push(id_from_storage(raw[i]));
        i = i + 1;
        assert(out@ =~= ids_from_storage(raw@.take(i as int)));
    }
    assert(raw@.take(i as int) =~= raw@);
    out
}

impl Default for StickyRoleSettings {
    fn default() -> (r: StickyRoleSettings)
        ensures
            r.allowlist_roles@ == Seq::<u64>::empty(),
            r.denylist_roles@ == Seq::<u64>::empty(),
            r.mode == StickyRoleMode::Off,
            !r.is_enabled,
    {
        StickyRoleSettings {
            allowlist_roles: Vec::new(),
            denylist_roles: Vec::new(),
            mode: StickyRoleMode::Off,
            is_enabled: false,
        }
    }
}

impl StickyRoleSettings {
    pub fn from_raw(raw: &RawStickyRoleSettings) -> (r: StickyRoleSettings)
        ensures
            r.allowlist_roles@ == ids_from_storage(raw.allowlist_roles@),
            r.denylist_roles@ == ids_from_storage(raw.denylist_roles@),
            r.mode == raw.mode,
            r.is_enabled == raw.is_enabled,
    {
        StickyRoleSettings {
            allowlist_roles: ids_from_storage_all(&raw.allowlist_roles),
            denylist_roles: ids_from_storage_all(&raw.denylist_roles),
            mode: raw.mode,
            is_enabled: raw.is_enabled,
        }
    }
}

// ---------------------------------------------------------------- colour of the day

/// One colour tier of a role: a primary colour and up to two more.
#[derive(Clone, Copy, Debug, PartialEq, Eq, Structural)]
pub struct RoleColours {
    pub primary_colour: u32,
    pub secondary_colour: Option<u32>,
    pub tertiary_colour: Option<u32>,
}

/// The tier that a stored colour array stands for: its first three entries, of which
/// the first is mandatory; further entries are ignored.
pub open spec fn tier_of(a: Seq<u32>) -> RoleColours {
    RoleColours {
        primary_colour: a[0],
        secondary_colour: if a.len() > 1 { Some(a[1]) } else { None },
        tertiary_colour: if a.len() > 2 { Some(a[2]) } else { None },
    }
}

/// Whether stored colour arrays make a valid list of tiers: at least one tier, and a
/// primary colour in each.
pub open spec fn tiers_valid(a: Seq<Seq<u32>>) -> bool {
    a.len() > 0 && forall|i: int| 0 <= i < a.len() ==> #[trigger] a[i].len() > 0
}

/// Decodes stored colour arrays into colour tiers, in order.
pub fn colour_tiers(arrays: &Vec<Vec<u32>>) -> (r: Result<Vec<RoleColours>, DecodeError>)
    ensures
        r is Ok <==> tiers_valid(arrays.deep_view()),
        r matches Ok(v) ==> v@.len() == arrays@.len() && forall|i: int|
            0 <= i < v@.len() ==> #[trigger] v@[i] == tier_of(arrays.deep_view()[i]),
        r matches Err(e) ==> (if arrays@.len() == 0 { e is NoColours } else { e is EmptyColourTier }),
{
    if arrays.len() == 0 {
        return Err(DecodeError::NoColours);
    }
    let mut out: Vec<RoleColours> = Vec::new();
    let mut i: usize = 0;
    while i < arrays.len()
        invariant
            i <= arrays@.len(),
            arrays@.len() > 0,
            out@.len() == i,
            forall|j: int| 0 <= j < i ==> arrays.deep_view()[j].len() > 0,
            forall|j: int| 0 <= j < i ==> #[trigger] out@[j] == tier_of(arrays.deep_view()[j]),
        decreases arrays@.len() - i,
    {
        let a = &arrays[i];
        assert(a@ == arrays.deep_view()[i as int]);
        if a.len() == 0 {
            return Err(DecodeError::EmptyColourTier);
        }
        let tier = RoleColours {
            primary_colour: a[0],
            secondary_colour: if a.len() > 1 { Some(a[1]) } else { None },
            tertiary_colour: if a.len() > 2 { Some(a[2]) } else { None },
        };
        out.push(tier);
        i = i + 1;
    }
    Ok(out)
}

/// A time of day, as stored for a daily rotation.
#[derive(Clone, Copy, Debug, PartialEq, Eq, Structural)]
pub struct TimeOfDay {
    pub hour: u8,
    pub minute: u8,
    pub second: u8,
    pub nanosecond: u32,
}

impl TimeOfDay {
    /// The time of day with these parts, where each is within its range.
    pub fn from_hms_nano(hour: u8, minute: u8, second: u8, nanosecond: u32) -> (r: Option<TimeOfDay>)
        ensures
            r is Some <==> (hour < 24 && minute < 60 && second < 60 && nanosecond < 1_000_000_000),
            r matches Some(t) ==> t == (TimeOfDay { hour, minute, second, nanosecond }),
    {
        if hour < 24 && minute < 60 && second < 60 && nanosecond < 1_000_000_000 {
            Some(TimeOfDay { hour, minute, second, nanosecond })
        } else {
            None
        }
    }
}

#[derive(Clone, Copy, Debug, PartialEq, Eq, Structural)]
pub enum ColourMode {
    Random,
    Static,
}

#[derive(Clone, Copy, Debug, PartialEq, Eq, Structural)]
pub enum IconPairingMode {
    Paired,
    Random,
}

/// One colour-of-the-day rotation of a role.
#[derive(Clone, Debug)]
pub struct CotdRoleSettings {
    pub role_id: u64,
    pub is_enabled: bool,
    pub suffix_enabled: bool,
    pub colour_mode: ColourMode,
    pub icon_pairing_mode: IconPairingMode,
    pub colours: Vec<RoleColours>,
    pub icons: Vec<String>,
    pub svg_target_colour: Option<u32>,
    pub rotation_time: TimeOfDay,
}

/// The stored row of a rotation; `colours` is the JSON text of its colour arrays.
#[derive(Clone, Debug)]
pub struct RawCotdRoleSettings {
    pub role_id: i64,
    pub is_enabled: bool,
    pub suffix_enabled: bool,
    pub colour_mode: ColourMode,
    pub icon_pairing_mode: IconPairingMode,
    pub colours: String,
    pub icons: Vec<String>,
    pub svg_target_colour: Option<i32>,
    pub rotation_time: TimeOfDay,
}

/// Whether a stored rotation's colours decode.
pub open spec fn cotd_row_valid(raw: &RawCotdRoleSettings) -> bool {
    match colour_arrays_of(raw.colours@) {
        Some(a) => tiers_valid(a),
        None => false,
    }
}

/// `c` is what the stored row `raw` decodes to.
pub open spec fn cotd_decoded(raw: &RawCotdRoleSettings, c: &CotdRoleSettings) -> bool {
    &&& c.role_id == raw.role_id as u64
    &&& c.is_enabled == raw.is_enabled
    &&& c.suffix_enabled == raw.suffix_enabled
    &&& c.colour_mode == raw.colour_mode
    &&& c.icon_pairing_mode == raw.icon_pairing_mode
    &&& c.colours@.len() == colour_arrays_of(raw.colours@)->Some_0.len()
    &&& forall|i: int|
        0 <= i < c.colours@.len() ==> #[trigger] c.colours@[i] == tier_of(
            colour_arrays_of(raw.colours@)->Some_0[i],
        )
    &&& c.icons.deep_view() == raw.icons.deep_view()
    &&& c.svg_target_colour == (match raw.svg_target_colour {
        Some(v) => Some(v as u32),
        None => None::<u32>,
    })
    &&& c.rotation_time == raw.rotation_time
}

/// A copy of every string of `v`, in order.
pub fn copy_strings(v: &Vec<String>) -> (r: Vec<String>)
    ensures
        r.deep_view() == v.deep_view(),
{
    let mut out: Vec<String> = Vec::new();
    let mut i: usize = 0;
    while i < v.len()
        invariant
            i <= v@.len(),
            out@.len() == i,
            forall|j: int| 0 <= j < i ==> #[trigger] out@[j]@ == v@[j]@,
        decreases v@.len() - i,
    {
        out.push(v[i].clone());
        i = i + 1;
    }
    assert(out.deep_view() =~= v.deep_view());
    out
}

impl CotdRoleSettings {
    /// Decodes a stored rotation. Fails where its colour column is not an array of
    /// arrays of unsigned 32-bit integers, holds no tier, or holds a tier without a
    /// primary colour.
    pub fn from_raw(raw: &RawCotdRoleSettings) -> (r: Result<CotdRoleSettings, DecodeError>)
        ensures
            r is Ok <==> cotd_row_valid(raw),
            r matches Ok(c) ==> cotd_decoded(raw, &c),
    {
        let arrays = match parse_colour_arrays(raw.colours.as_str()) {
            Ok(a) => a,
            Err(e) => {
                return Err(DecodeError::ColourJson(e));
            },
        };
        let colours = match colour_tiers(&arrays) {
            Ok(c) => c,
            Err(e) => {
                return Err(e);
            },
        };
        Ok(CotdRoleSettings {
            role_id: id_from_storage(raw.role_id),
            is_enabled: raw.is_enabled,
            suffix_enabled: raw.suffix_enabled,
            colour_mode: raw.colour_mode,
            icon_pairing_mode: raw.icon_pairing_mode,
            colours,
            icons: copy_strings(&raw.icons),
            svg_target_colour: match raw.svg_target_colour {
                Some(v) => Some(v as u32),
                None => None,
            },
            rotation_time: raw.rotation_time,
        })
    }
}

} // verus!
