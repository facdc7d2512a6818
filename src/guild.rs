//! The full settings snapshot of a guild, and how it is assembled from the guild's
//! primary row and its six sub-setting row sets.
use vstd::prelude::*;
use crate::flags::{GuildFeatures, features_of};
use crate::settings::{
    CotdRoleSettings, DecodeError, DmActivitySettings, GlobalRegexDenylistChannel, ModRole,
    RawCotdRoleSettings, RawDmActivitySettings, RawGlobalRegexDenylistChannel, RawModRole,
    RawRegexTrigger, RawStickyRoleSettings, RegexTrigger, StickyRoleMode, StickyRoleSettings,
    AutomodRuleOverrides, cotd_decoded, cotd_row_valid, default_dm_activity, ids_from_storage,
    trigger_decoded, trigger_row_valid,
};
use crate::text::{BoundedString, truncate_convert, truncate_utf8};

verus! {

/// The configuration snapshot of one guild. Once built it is only read.
pub struct GuildSettings {
    pub banned: bool,
    pub rejoined: bool,
    pub prefix: Option<BoundedString<6>>,
    pub features: GuildFeatures,
    pub regex_triggers: Vec<RegexTrigger>,
    pub regex_denylist: Vec<GlobalRegexDenylistChannel>,
    pub mod_roles: Vec<ModRole>,
    pub automod_rule_overrides: Vec<AutomodRuleOverrides>,
    pub sticky_role_settings: StickyRoleSettings,
    pub cotd_settings: Vec<CotdRoleSettings>,
    pub dm_activity_settings: DmActivitySettings,
}

/// The text of an optional prefix.
pub open spec fn prefix_view(p: Option<BoundedString<6>>) -> Option<Seq<char>> {
    match p {
        Some(b) => Some(b@),
        None => None,
    }
}

/// Sticky role settings as a guild without a stored row has them.
pub open spec fn is_default_sticky(s: StickyRoleSettings) -> bool {
    &&& s.allowlist_roles@.len() == 0
    &&& s.denylist_roles@.len() == 0
    &&& s.mode == StickyRoleMode::Off
    &&& !s.is_enabled
}

/// The settings of an unconfigured guild: no flag, no prefix, no feature, empty
/// collections, and the default sub-settings.
pub open spec fn is_default_settings(s: GuildSettings) -> bool {
    &&& !s.banned
    &&& !s.rejoined
    &&& s.prefix is None
    &&& s.features@ == Set::<crate::flags::Feature>::empty()
    &&& s.features.wf()
    &&& s.regex_triggers@.len() == 0
    &&& s.regex_denylist@.len() == 0
    &&& s.mod_roles@.len() == 0
    &&& s.automod_rule_overrides@.len() == 0
    &&& is_default_sticky(s.sticky_role_settings)
    &&& s.cotd_settings@.len() == 0
    &&& s.dm_activity_settings == default_dm_activity()
}

impl Default for GuildSettings {
    fn default() -> (r: GuildSettings)
        ensures
            is_default_settings(r),
    {
        GuildSettings {
            banned: false,
            rejoined: false,
            prefix: None,
            features: GuildFeatures::empty(),
            regex_triggers: Vec::new(),
            regex_denylist: Vec::new(),
            mod_roles: Vec::new(),
            automod_rule_overrides: Vec::new(),
            sticky_role_settings: StickyRoleSettings::default(),
            cotd_settings: Vec::new(),
            dm_activity_settings: DmActivitySettings::default(),
        }
    }
}

/// The primary stored row of a guild.
#[derive(Clone, Debug)]
pub struct RawGuild {
    pub prefix: Option<String>,
    pub feature_flags: i64,
    pub rejoined: bool,
    pub banned: bool,
}

/// Everything storage holds for a guild that has a primary row.
pub struct GuildRows {
    pub guild: RawGuild,
    pub dm_activity: Option<RawDmActivitySettings>,
    pub regex_triggers: Vec<RawRegexTrigger>,
    pub regex_denylist: Vec<RawGlobalRegexDenylistChannel>,
    pub sticky_roles: Option<RawStickyRoleSettings>,
    pub cotd: Vec<RawCotdRoleSettings>,
    pub mod_roles: Vec<RawModRole>,
}

/// Whether every stored row of a guild decodes.
pub open spec fn rows_valid(rows: &GuildRows) -> bool {
    &&& forall|i: int|
        0 <= i < rows.regex_triggers@.len() ==> #[trigger] trigger_row_valid(
            &rows.regex_triggers@[i],
        )
    &&& forall|i: int| 0 <= i < rows.cotd@.len() ==> #[trigger] cotd_row_valid(&rows.cotd@[i])
}

/// `s` is what the stored rows of a guild decode to.
pub open spec fn assembled_from(rows: &GuildRows, s: &GuildSettings) -> bool {
    &&& s.banned == rows.guild.banned
    &&& s.rejoined == rows.guild.rejoined
    &&& prefix_view(s.prefix) == (match rows.guild.prefix {
        Some(p) => Some(truncate_utf8(p@, 6)),
        None => None::<Seq<char>>,
    })
    &&& s.features@ == features_of(rows.guild.feature_flags as u8)
    &&& s.features.wf()
    &&& s.regex_triggers@.len() == rows.regex_triggers@.len()
    &&& forall|i: int|
        0 <= i < s.regex_triggers@.len() ==> trigger_decoded(
            &rows.regex_triggers@[i],
            &#[trigger] s.regex_triggers@[i],
        )
    &&& s.regex_denylist@.len() == rows.regex_denylist@.len()
    &&& forall|i: int|
        0 <= i < s.regex_denylist@.len() ==> (#[trigger] s.regex_denylist@[i]).channel_id
            == rows.regex_denylist@[i].channel_id as u64 && s.regex_denylist@[i].is_recursive
            == rows.regex_denylist@[i].is_recursive
    &&& s.mod_roles@.len() == rows.mod_roles@.len()
    &&& forall|i: int|
        0 <= i < s.mod_roles@.len() ==> (#[trigger] s.mod_roles@[i]).role_id
            == rows.mod_roles@[i].role_id as u64 && s.mod_roles@[i].permissions.bits_spec() == (
        rows.mod_roles@[i].permissions as u8) & 1
    &&& s.automod_rule_overrides@.len() == 0
    &&& match rows.sticky_roles {
        Some(raw) => {
            &&& s.sticky_role_settings.allowlist_roles@ == ids_from_storage(raw.allowlist_roles@)
            &&& s.sticky_role_settings.denylist_roles@ == ids_from_storage(raw.denylist_roles@)
            &&& s.sticky_role_settings.mode == raw.mode
            &&& s.sticky_role_settings.is_enabled == raw.is_enabled
        },
        None => is_default_sticky(s.sticky_role_settings),
    }
    &&& s.cotd_settings@.len() == rows.cotd@.len()
    &&& forall|i: int|
        0 <= i < s.cotd_settings@.len() ==> cotd_decoded(
            &rows.cotd@[i],
            &#[trigger] s.cotd_settings@[i],
        )
    &&& match rows.dm_activity {
        Some(raw) => {
            &&& s.dm_activity_settings.cooldown_seconds == raw.cooldown_seconds as u32
            &&& s.dm_activity_settings.announce_channel_id == (match raw.announce_channel_id {
                Some(id) => Some(id as u64),
                None => None::<u64>,
            })
            &&& s.dm_activity_settings.retention_days == (match raw.retention_days {
                Some(d) => Some(d as u8),
                None => None::<u8>,
            })
        },
        None => s.dm_activity_settings == default_dm_activity(),
    }
}

/// Decodes every stored trigger, in order; fails on the first that does not compile.
pub fn decode_triggers(raws: &Vec<RawRegexTrigger>) -> (r: Result<Vec<RegexTrigger>, DecodeError>)
    ensures
        r is Ok <==> forall|i: int| 0 <= i < raws@.len() ==> #[trigger] trigger_row_valid(&raws@[i]),
        r matches Ok(v) ==> v@.len() == raws@.len() && forall|i: int|
            0 <= i < v@.len() ==> trigger_decoded(&raws@[i], &#[trigger] v@[i]),
        r matches Err(e) ==> e is Pattern,
{
    let mut out: Vec<RegexTrigger> = Vec::new();
    let mut i: usize = 0;
    while i < raws.len()
        invariant
            i <= raws@.len(),
            out@.len() == i,
            forall|j: int| 0 <= j < i ==> #[trigger] trigger_row_valid(&raws@[j]),
            forall|j: int| 0 <= j < i ==> trigger_decoded(&raws@[j], &#[trigger] out@[j]),
        decreases raws@.len() - i,
    {
        match RegexTrigger::from_raw(&raws[i]) {
            Ok(t) => out.push(t),
            Err(e) => {
                return Err(e);
            },
        }
        i = i + 1;
    }
    Ok(out)
}

/// Decodes every stored rotation, in order; fails on the first that does not decode.
pub fn decode_cotd(raws: &Vec<RawCotdRoleSettings>) -> (r: Result<Vec<CotdRoleSettings>, DecodeError>)
    ensures
        r is Ok <==> forall|i: int| 0 <= i < raws@.len() ==> #[trigger] cotd_row_valid(&raws@[i]),
        r matches Ok(v) ==> v@.len() == raws@.len() && forall|i: int|
            0 <= i < v@.len() ==> cotd_decoded(&raws@[i], &#[trigger] v@[i]),
{
    let mut out: Vec<CotdRoleSettings> = Vec::new();
    let mut i: usize = 0;
    while i < raws.len()
        invariant
            i <= raws@.len(),
            out@.len() == i,
            forall|j: int| 0 <= j < i ==> #[trigger] cotd_row_valid(&raws@[j]),
            forall|j: int| 0 <= j < i ==> cotd_decoded(&raws@[j], &#[trigger] out@[j]),
        decreases raws@.len() - i,
    {
        match CotdRoleSettings::from_raw(&raws[i]) {
            Ok(c) => out.push(c),
            Err(e) => {
                return Err(e);
            },
        }
        i = i + 1;
    }
    Ok(out)
}

/// Decodes every stored denylist channel, in order.
pub fn decode_denylist(raws: &Vec<RawGlobalRegexDenylistChannel>) -> (r: Vec<
    GlobalRegexDenylistChannel,
>)
    ensures
        r@.len() == raws@.len(),
        forall|i: int|
            0 <= i < r@.len() ==> (#[trigger] r@[i]).channel_id == raws@[i].channel_id as u64
                && r@[i].is_recursive == raws@[i].is_recursive,
{
    let mut out: Vec<GlobalRegexDenylistChannel> = Vec::new();
    let mut i: usize = 0;
    while i < raws.len()
        invariant
            i <= raws@.len(),
            out@.len() == i,
            forall|j: int|
                0 <= j < i ==> (#[trigger] out@[j]).channel_id == raws@[j].channel_id as u64
                    && out@[j].is_recursive == raws@[j].is_recursive,
        decreases raws@.len() - i,
    {
        out.push(GlobalRegexDenylistChannel::from_raw(&raws[i]));
        i = i + 1;
    }
    out
}

/// Decodes every stored moderator role, in order.
pub fn decode_mod_roles(raws: &Vec<RawModRole>) -> (r: Vec<ModRole>)
    ensures
        r@.len() == raws@.len(),
        forall|i: int|
            0 <= i < r@.len() ==> (#[trigger] r@[i]).role_id == raws@[i].role_id as u64
                && r@[i].permissions.bits_spec() == (raws@[i].permissions as u8) & 1,
{
    let mut out: Vec<ModRole> = Vec::new();
    let mut i: usize = 0;
    while i < raws.len()
        invariant
            i <= raws@.len(),
            out@.len() == i,
            forall|j: int|
                0 <= j < i ==> (#[trigger] out@[j]).role_id == raws@[j].role_id as u64
                    && out@[j].permissions.bits_spec() == (raws@[j].permissions as u8) & 1,
        decreases raws@.len() - i,
    {
        out.push(ModRole::from_raw(&raws[i]));
        i = i + 1;
    }
    out
}

impl GuildSettings {
    /// Assembles the snapshot of a guild that has a primary row. The prefix is bounded
    /// to six bytes, unknown feature bits are dropped, and a missing sticky role or DM
    /// activity row gives the default of that part. Fails exactly when a trigger's
    /// pattern does not compile or a rotation's colours do not decode; triggers are
    /// checked first.
    pub fn assemble(rows: &GuildRows) -> (r: Result<GuildSettings, DecodeError>)
        ensures
            r is Ok <==> rows_valid(rows),
            r matches Ok(s) ==> assembled_from(rows, &s),
            r matches Err(e) ==> (!(forall|i: int|
                0 <= i < rows.regex_triggers@.len() ==> #[trigger] trigger_row_valid(
                    &rows.regex_triggers@[i],
                )) ==> e is Pattern),
    {
        let regex_triggers = match decode_triggers(&rows.regex_triggers) {
            Ok(v) => v,
            Err(e) => {
                return Err(e);
            },
        };
        let cotd_settings = match decode_cotd(&rows.cotd) {
            Ok(v) => v,
            Err(e) => {
                return Err(e);
            },
        };
        let prefix = match &rows.guild.prefix {
            Some(p) => Some(truncate_convert::<6>(p.clone())),
            None => None,
        };
        let sticky_role_settings = match &rows.sticky_roles {
            Some(raw) => StickyRoleSettings::from_raw(raw),
            None => StickyRoleSettings::default(),
        };
        let dm_activity_settings = match &rows.dm_activity {
            Some(raw) => DmActivitySettings::from_raw(raw),
            None => DmActivitySettings::default(),
        };
        Ok(GuildSettings {
            banned: rows.guild.banned,
            rejoined: rows.guild.rejoined,
            prefix,
            features: GuildFeatures::from_bits_truncate(rows.guild.feature_flags as u8),
            regex_triggers,
            regex_denylist: decode_denylist(&rows.regex_denylist),
            mod_roles: decode_mod_roles(&rows.mod_roles),
            automod_rule_overrides: Vec::new(),
            sticky_role_settings,
            cotd_settings,
            dm_activity_settings,
        })
    }
}

} // verus!
