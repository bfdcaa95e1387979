//! Global identifiers (gids) of OLAP metadata entities and their kinds.
use vstd::prelude::*;

verus! {

/// The width of one gid band: the kind of an entity is the leading digit of its
/// fifteen-digit gid, that is the gid divided by this number.
pub const GID_BAND: u64 = 100_000_000_000_000;

/// The kind of metadata entity that a gid names.
#[derive(Debug, Clone, Copy, PartialEq, Eq, Structural)]
pub enum GidType {
    /// 100000000000001 and up
    Dimension,
    /// 200000000000001 and up
    Hierarchy,
    /// 300000000000001 and up
    Member,
    /// 400000000000001 and up
    Level,
    /// 500000000000001 and up
    Cube,
    /// 600000000000001 and up
    DimensionRole,
    /// 700000000000001 and up
    FormulaMember,
}

impl GidType {
    /// The band (leading digit) of a gid.
    pub open spec fn band(gid: u64) -> int {
        gid as int / GID_BAND as int
    }

    /// The band that gids of this kind lie in.
    pub open spec fn code(self) -> int {
        match self {
            GidType::Dimension => 1,
            GidType::Hierarchy => 2,
            GidType::Member => 3,
            GidType::Level => 4,
            GidType::Cube => 5,
            GidType::DimensionRole => 6,
            GidType::FormulaMember => 7,
        }
    }

    /// The kind of entity that `gid` names, or `None` when its band names none.
    pub open spec fn spec_entity_type(gid: u64) -> Option<GidType> {
        let b = Self::band(gid);
        if b == 1 {
            Some(GidType::Dimension)
        } else if b == 2 {
            Some(GidType::Hierarchy)
        } else if b == 3 {
            Some(GidType::Member)
        } else if b == 4 {
            Some(GidType::Level)
        } else if b == 5 {
            Some(GidType::Cube)
        } else if b == 6 {
            Some(GidType::DimensionRole)
        } else if b == 7 {
            Some(GidType::FormulaMember)
        } else {
            None
        }
    }

    /// A gid names an entity kind exactly when its band is 1 to 7.
    pub open spec fn is_valid_gid(gid: u64) -> bool {
        1 <= Self::band(gid) <= 7
    }

    /// The kind of entity that `gid` names. A gid whose band is not 1 to 7 names
    /// no kind; the caller rules it out.
    pub fn entity_type(gid: u64) -> (t: GidType)
        requires
            Self::is_valid_gid(gid),
        ensures
            Self::spec_entity_type(gid) == Some(t),
            t.code() == Self::band(gid),
    {
        let band = gid / GID_BAND;
        match band {
            1 => GidType::Dimension,
            2 => GidType::Hierarchy,
            3 => GidType::Member,
            4 => GidType::Level,
            5 => GidType::Cube,
            6 => GidType::DimensionRole,
            _ => GidType::FormulaMember,
        }
    }
}

/// Every valid gid has a kind, and that kind's band is the gid's band: the kind of
/// a gid is its leading digit read through the table of kinds.
pub proof fn lemma_entity_type_is_band(gid: u64)
    requires
        GidType::is_valid_gid(gid),
    ensures
        GidType::spec_entity_type(gid) is Some,
        GidType::spec_entity_type(gid)->0.code() == GidType::band(gid),
{
}

/// Two gids have the same kind exactly when they lie in the same band.
pub proof fn lemma_same_kind_iff_same_band(g1: u64, g2: u64)
    requires
        GidType::is_valid_gid(g1),
        GidType::is_valid_gid(g2),
    ensures
        GidType::spec_entity_type(g1) == GidType::spec_entity_type(g2) <==> GidType::band(g1)
            == GidType::band(g2),
{
}

/// Every kind is named by the gids of its band: the first gid of the band of `t`
/// (such as 300000000000001 for a member) has kind `t`.
pub proof fn lemma_every_kind_has_gids(t: GidType, offset: u64)
    requires
        1 <= offset < GID_BAND,
    ensures
        GidType::is_valid_gid((t.code() * GID_BAND + offset) as u64),
        GidType::spec_entity_type((t.code() * GID_BAND + offset) as u64) == Some(t),
{
    let g = t.code() * GID_BAND + offset;
    assert(g / (GID_BAND as int) == t.code()) by (nonlinear_arith)
        requires
            g == t.code() * GID_BAND + offset,
            1 <= offset < GID_BAND,
            1 <= t.code() <= 7,
    ;
}

/// The kinds by gid range: gids from 100000000000000 up to 199999999999999 name
/// dimensions, the next hundred trillion hierarchies, then members, levels,
/// cubes, dimension roles and formula members; smaller and larger gids name no
/// kind.
pub proof fn lemma_entity_type_ranges(gid: u64)
    ensures
        (GidType::spec_entity_type(gid) == Some(GidType::Dimension)) <==> (100_000_000_000_000
            <= gid < 200_000_000_000_000),
        (GidType::spec_entity_type(gid) == Some(GidType::Hierarchy)) <==> (200_000_000_000_000
            <= gid < 300_000_000_000_000),
        (GidType::spec_entity_type(gid) == Some(GidType::Member)) <==> (300_000_000_000_000 <= gid
            < 400_000_000_000_000),
        (GidType::spec_entity_type(gid) == Some(GidType::Level)) <==> (400_000_000_000_000 <= gid
            < 500_000_000_000_000),
        (GidType::spec_entity_type(gid) == Some(GidType::Cube)) <==> (500_000_000_000_000 <= gid
            < 600_000_000_000_000),
        (GidType::spec_entity_type(gid) == Some(GidType::DimensionRole)) <==> (600_000_000_000_000
            <= gid < 700_000_000_000_000),
        (GidType::spec_entity_type(gid) == Some(GidType::FormulaMember)) <==> (700_000_000_000_000
            <= gid < 800_000_000_000_000),
        (GidType::spec_entity_type(gid) is None) <==> (gid < 100_000_000_000_000 || gid
            >= 800_000_000_000_000),
{
}

} // verus!
