//! Small bit-sets stored as integers: the guild feature set, the contexts a trigger
//! applies to, and the permissions of a moderator role. Unknown bits are dropped on
//! decoding, never rejected.
use vstd::prelude::*;

verus! {

/// One independently togglable capability of a guild.
#[derive(Clone, Copy, Debug, PartialEq, Eq, Structural)]
pub enum Feature {
    ExpressionTracking,
    DmActivity,
    Autoresponse,
    Automoderation,
    StickyRoles,
    ColourOfTheDay,
}

/// The bits of all six features.
pub const ALL_FEATURE_BITS: u8 = 0x3f;

impl Feature {
    /// The single bit that stands for this feature in the stored integer.
    pub open spec fn mask_spec(self) -> u8 {
        match self {
            Feature::ExpressionTracking => 1u8,
            Feature::DmActivity => 2u8,
            Feature::Autoresponse => 4u8,
            Feature::Automoderation => 8u8,
            Feature::StickyRoles => 16u8,
            Feature::ColourOfTheDay => 32u8,
        }
    }

    #[verifier::when_used_as_spec(mask_spec)]
    pub fn mask(self) -> (r: u8)
        ensures
            r == self.mask_spec(),
    {
        match self {
            Feature::ExpressionTracking => 1u8,
            Feature::DmActivity => 2u8,
            Feature::Autoresponse => 4u8,
            Feature::Automoderation => 8u8,
            Feature::StickyRoles => 16u8,
            Feature::ColourOfTheDay => 32u8,
        }
    }
}

/// The features whose bit is set in `bits`.
pub open spec fn features_of(bits: u8) -> Set<Feature> {
    Set::new(|f: Feature| bits & f.mask() != 0)
}

/// The integer that stores exactly the features of `s`.
pub open spec fn pack_features(s: Set<Feature>) -> u8 {
    (if s.contains(Feature::ExpressionTracking) { 1u8 } else { 0u8 })
        | (if s.contains(Feature::DmActivity) { 2u8 } else { 0u8 })
        | (if s.contains(Feature::Autoresponse) { 4u8 } else { 0u8 })
        | (if s.contains(Feature::Automoderation) { 8u8 } else { 0u8 })
        | (if s.contains(Feature::StickyRoles) { 16u8 } else { 0u8 })
        | (if s.contains(Feature::ColourOfTheDay) { 32u8 } else { 0u8 })
}

/// The set of features enabled for a guild.
#[derive(Clone, Copy, Debug)]
pub struct GuildFeatures {
    bits: u8,
}

impl View for GuildFeatures {
    type V = Set<Feature>;

    closed spec fn view(&self) -> Set<Feature> {
        features_of(self.bits)
    }
}

proof fn lemma_features_of_masked(b: u8)
    ensures
        features_of(b & ALL_FEATURE_BITS) == features_of(b),
{
    assert forall|f: Feature| #[trigger] features_of(b & ALL_FEATURE_BITS).contains(f)
        == features_of(b).contains(f) by {
        let m = f.mask();
        assert((b & 0x3f) & m != 0 <==> b & m != 0) by (bit_vector)
            requires
                m == 1 || m == 2 || m == 4 || m == 8 || m == 16 || m == 32,
        ;
    }
    assert(features_of(b & ALL_FEATURE_BITS) =~= features_of(b));
}

proof fn lemma_features_of_or(b: u8, f: Feature)
    ensures
        features_of(b | f.mask()) == features_of(b).insert(f),
{
    assert forall|g: Feature| #[trigger] features_of(b | f.mask()).contains(g)
        == features_of(b).insert(f).contains(g) by {
        let m = f.mask();
        let n = g.mask();
        if g == f {
            assert((b | m) & m != 0) by (bit_vector)
                requires
                    m == 1 || m == 2 || m == 4 || m == 8 || m == 16 || m == 32,
            ;
        } else {
            assert((b | m) & n != 0 <==> b & n != 0) by (bit_vector)
                requires
                    m == 1 || m == 2 || m == 4 || m == 8 || m == 16 || m == 32,
                    n == 1 || n == 2 || n == 4 || n == 8 || n == 16 || n == 32,
                    m != n,
            ;
        }
    }
    assert(features_of(b | f.mask()) =~= features_of(b).insert(f));
}

proof fn lemma_features_of_and_not(b: u8, f: Feature)
    ensures
        features_of(b & !f.mask()) == features_of(b).remove(f),
{
    assert forall|g: Feature| #[trigger] features_of(b & !f.mask()).contains(g)
        == features_of(b).remove(f).contains(g) by {
        let m = f.mask();
        let n = g.mask();
        if g == f {
            assert((b & !m) & m == 0) by (bit_vector);
        } else {
            assert((b & !m) & n != 0 <==> b & n != 0) by (bit_vector)
                requires
                    m == 1 || m == 2 || m == 4 || m == 8 || m == 16 || m == 32,
                    n == 1 || n == 2 || n == 4 || n == 8 || n == 16 || n == 32,
                    m != n,
            ;
        }
    }
    assert(features_of(b & !f.mask()) =~= features_of(b).remove(f));
}

impl GuildFeatures {
    /// The stored integer is always within the six defined bits.
    pub closed spec fn wf(&self) -> bool {
        self.bits & !ALL_FEATURE_BITS == 0
    }

    pub fn empty() -> (r: GuildFeatures)
        ensures
            r@ == Set::<Feature>::empty(),
            r.wf(),
    {
        let r = GuildFeatures { bits: 0 };
        proof {
            assert forall|f: Feature| !#[trigger] features_of(0u8).contains(f) by {
                let m = f.mask();
                assert(0u8 & m == 0) by (bit_vector);
            }
            assert(r@ =~= Set::<Feature>::empty());
            assert(0u8 & !0x3fu8 == 0) by (bit_vector);
        }
        r
    }

    /// Decodes a stored integer, keeping the defined bits and dropping the others.
    pub fn from_bits_truncate(bits: u8) -> (r: GuildFeatures)
        ensures
            r@ == features_of(bits),
            r.wf(),
    {
        proof {
            lemma_features_of_masked(bits);
            assert((bits & 0x3f) & !0x3fu8 == 0) by (bit_vector);
        }
        GuildFeatures { bits: bits & ALL_FEATURE_BITS }
    }

    /// The integer that stores this set.
    pub fn bits(&self) -> (r: u8)
        requires
            self.wf(),
        ensures
            r == pack_features(self@),
            features_of(r) == self@,
    {
        proof {
            let b = self.bits;
            let s = self@;
            assert(s.contains(Feature::ExpressionTracking) == (b & 1 != 0));
            assert(s.contains(Feature::DmActivity) == (b & 2 != 0));
            assert(s.contains(Feature::Autoresponse) == (b & 4 != 0));
            assert(s.contains(Feature::Automoderation) == (b & 8 != 0));
            assert(s.contains(Feature::StickyRoles) == (b & 16 != 0));
            assert(s.contains(Feature::ColourOfTheDay) == (b & 32 != 0));
            assert(b == (if b & 1 != 0 { 1u8 } else { 0u8 }) | (if b & 2 != 0 { 2u8 } else { 0u8 })
                | (if b & 4 != 0 { 4u8 } else { 0u8 }) | (if b & 8 != 0 { 8u8 } else { 0u8 })
                | (if b & 16 != 0 { 16u8 } else { 0u8 }) | (if b & 32 != 0 { 32u8 } else { 0u8 }))
                by (bit_vector)
                requires
                    b & !0x3fu8 == 0,
            ;
        }
        self.bits
    }

    pub fn contains(&self, f: Feature) -> (r: bool)
        ensures
            r == self@.contains(f),
    {
        self.bits & f.mask() != 0
    }

    /// Turns `f` on or off, leaving the other features as they were.
    pub fn set(&mut self, f: Feature, on: bool)
        requires
            old(self).wf(),
        ensures
            final(self).wf(),
            final(self)@ == (if on { old(self)@.insert(f) } else { old(self)@.remove(f) }),
    {
        let m = f.mask();
        let b = self.bits;
        proof {
            lemma_features_of_or(b, f);
            lemma_features_of_and_not(b, f);
            assert((b | m) & !0x3fu8 == 0) by (bit_vector)
                requires
                    b & !0x3fu8 == 0,
                    m == 1 || m == 2 || m == 4 || m == 8 || m == 16 || m == 32,
            ;
            assert((b & !m) & !0x3fu8 == 0) by (bit_vector)
                requires
                    b & !0x3fu8 == 0,
            ;
        }
        if on {
            self.bits = b | m;
        } else {
            self.bits = b & !m;
        }
    }
}

/// Decoding the integer that packs any choice of features gives back exactly that choice.
pub proof fn lemma_features_round_trip(s: Set<Feature>)
    ensures
        features_of(pack_features(s)) == s,
{
    let x0: u8 = if s.contains(Feature::ExpressionTracking) { 1u8 } else { 0u8 };
    let x1: u8 = if s.contains(Feature::DmActivity) { 2u8 } else { 0u8 };
    let x2: u8 = if s.contains(Feature::Autoresponse) { 4u8 } else { 0u8 };
    let x3: u8 = if s.contains(Feature::Automoderation) { 8u8 } else { 0u8 };
    let x4: u8 = if s.contains(Feature::StickyRoles) { 16u8 } else { 0u8 };
    let x5: u8 = if s.contains(Feature::ColourOfTheDay) { 32u8 } else { 0u8 };
    let p = pack_features(s);
    assert(p == x0 | x1 | x2 | x3 | x4 | x5);
    assert(
        (p & 1 != 0) == (x0 == 1) && (p & 2 != 0) == (x1 == 2) && (p & 4 != 0) == (x2 == 4)
        && (p & 8 != 0) == (x3 == 8) && (p & 16 != 0) == (x4 == 16) && (p & 32 != 0) == (x5 == 32)
    ) by (bit_vector)
        requires
            p == x0 | x1 | x2 | x3 | x4 | x5,
            x0 == 0 || x0 == 1,
            x1 == 0 || x1 == 2,
            x2 == 0 || x2 == 4,
            x3 == 0 || x3 == 8,
            x4 == 0 || x4 == 16,
            x5 == 0 || x5 == 32,
    ;
    assert(features_of(p) =~= s);
}

/// The inputs a trigger applies to: plain text, text read from images, or both.
#[derive(Clone, Copy, Debug)]
pub struct TriggerContext {
    bits: u8,
}

impl TriggerContext {
    pub const TEXT: u8 = 1;
    pub const OCR: u8 = 2;

    /// The stored integer, restricted to the two defined bits.
    pub closed spec fn bits_spec(&self) -> u8 {
        self.bits
    }

    pub open spec fn has_text(&self) -> bool {
        self.bits_spec() & 1 != 0
    }

    pub open spec fn has_ocr(&self) -> bool {
        self.bits_spec() & 2 != 0
    }

    pub fn from_bits_truncate(bits: u8) -> (r: TriggerContext)
        ensures
            r.bits_spec() == bits & 3,
    {
        TriggerContext { bits: bits & 3 }
    }

    /// Decodes the small integer column that stores the context; only its low byte is read.
    pub fn decode(raw: i16) -> (r: TriggerContext)
        ensures
            r.bits_spec() == (raw as u8) & 3,
    {
        TriggerContext::from_bits_truncate(raw as u8)
    }

    pub fn bits(&self) -> (r: u8)
        ensures
            r == self.bits_spec(),
    {
        self.bits
    }

    pub fn text(&self) -> (r: bool)
        ensures
            r == self.has_text(),
    {
        self.bits & 1 != 0
    }

    pub fn ocr(&self) -> (r: bool)
        ensures
            r == self.has_ocr(),
    {
        self.bits & 2 != 0
    }
}

/// What holders of a moderator role may do.
#[derive(Clone, Copy, Debug)]
pub struct ModRolePermissions {
    bits: u8,
}

impl ModRolePermissions {
    pub const EXIST: u8 = 1;

    pub closed spec fn bits_spec(&self) -> u8 {
        self.bits
    }

    pub fn from_bits_truncate(bits: u8) -> (r: ModRolePermissions)
        ensures
            r.bits_spec() == bits & 1,
    {
        ModRolePermissions { bits: bits & 1 }
    }

    pub fn bits(&self) -> (r: u8)
        ensures
            r == self.bits_spec(),
    {
        self.bits
    }
}

} // verus!
