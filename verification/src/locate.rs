//! Locating an entity along an MDX object path such as `[Dim].[Member].Children`.
//!
//! Locating alternates between decisions and work on the metadata service and
//! the cube; this module holds the decisions. Each entity kind that a path can
//! start from reads the path's first segment and says what to do next; the caller
//! does that work and, where the path goes on, asks again with the rest of it.
use vstd::prelude::*;
use crate::axis::TupleSet;
use crate::gid::GidType;
use crate::mdd::{Cube, DimensionRole, Member, MemberRole, MemberRoleView};

verus! {

/// The kind of a function that computes a value from an entity.
#[derive(Debug, Clone, Copy, PartialEq, Eq, Structural)]
pub enum ExpFnKind {
    Avg,
    Count,
    Sum,
    Max,
    Min,
    LookupCube,
    Other,
}

/// A segment of an object path, as far as locating reads it.
#[derive(Debug, Clone, Copy, PartialEq, Eq, Structural)]
pub enum SegKind {
    /// An entity named by its gid (with or without its name).
    Gid(u64),
    /// An entity named by its name alone.
    Str,
    /// A function that gives a member.
    MemberFunc,
    /// A function that gives a set.
    SetFunc,
    /// A function that gives a level.
    LevelFunc,
    /// A function that gives a value.
    ExpFunc(ExpFnKind),
    /// Any other segment.
    Other,
}

/// Whether a value function aggregates over a set.
pub open spec fn is_aggregate(k: ExpFnKind) -> bool {
    match k {
        ExpFnKind::Avg | ExpFnKind::Count | ExpFnKind::Sum | ExpFnKind::Max | ExpFnKind::Min => true,
        _ => false,
    }
}

/// What to do to locate a path that starts at a set.
#[derive(Debug, Clone, Copy, PartialEq, Eq, Structural)]
pub enum SetStep {
    /// Aggregate the set with the function of the (only) segment.
    Aggregate(ExpFnKind),
    /// The path cannot be located from a set.
    Unsupported,
}

/// What to do to locate a path that starts at a member role.
#[derive(Debug, Clone, Copy, PartialEq, Eq, Structural)]
pub enum MemberRoleStep {
    /// Apply the member function of the first segment; its entity is the result.
    GetMember,
    /// Apply the set function of the first segment; the set is the result.
    GetSet,
    /// Apply the set function of the first segment and locate the rest of the
    /// path from the set.
    GetSetThenLocate,
    /// Apply the level function of the (only) segment.
    GetLevelRole,
    /// Compute the value of the (only) segment's function for the member role.
    Evaluate(ExpFnKind),
    /// The path cannot be located from a member role.
    Unsupported,
}

/// What to do first to locate a path that starts at a dimension role.
#[derive(Debug, Clone, Copy, PartialEq, Eq, Structural)]
pub enum DimRoleStep {
    /// Locate the entity that the gid names within the dimension role.
    LocateByGid(u64),
    /// Apply the level function of the first segment.
    GetLevelRole,
    /// Apply the member function of the first segment.
    GetMember,
    /// The path cannot be located from a dimension role.
    Unsupported,
}

/// The kind of entity that the first step from a dimension role found.
#[derive(Debug, Clone, Copy, PartialEq, Eq, Structural)]
pub enum FoundKind {
    MemberRole,
    LevelRole,
    Other,
}

/// What to do after the first step from a dimension role.
#[derive(Debug, Clone, Copy, PartialEq, Eq, Structural)]
pub enum NextStep {
    /// The entity found is the result.
    Done,
    /// Locate the rest of the path from the member role found.
    LocateFromMemberRole,
    /// The path cannot be located further.
    Unsupported,
}

/// What to do to locate, within a dimension role, the entity that a gid names.
#[derive(Debug, Clone, Copy, PartialEq, Eq, Structural)]
pub enum ByGidStep {
    /// Ask the metadata service for the member, which becomes a member role of
    /// the dimension role.
    LocateMember,
    /// Take the level from the metadata, which becomes a level role of the
    /// dimension role.
    GetLevel,
    /// The gid names no entity that a dimension role holds.
    Unsupported,
}

/// What finding the entity that a gid names within a query context does.
#[derive(Debug, Clone, Copy, PartialEq, Eq, Structural)]
pub enum FindStep {
    /// Ask the metadata service for the dimension role.
    DimensionRole,
    /// Take the cube from the metadata.
    Cube,
    /// A query context finds entities of no other kind.
    Unsupported,
}

/// What finding the entity that `gid` names within a query context does.
pub open spec fn spec_find_step(gid: u64) -> FindStep {
    match GidType::spec_entity_type(gid) {
        Some(GidType::DimensionRole) => FindStep::DimensionRole,
        Some(GidType::Cube) => FindStep::Cube,
        _ => FindStep::Unsupported,
    }
}

/// What finding the entity that `gid` names within a query context does: a
/// dimension role gid is looked up on the metadata service and a cube gid in the
/// metadata; every other gid is unsupported.
pub fn find_step(gid: u64) -> (step: FindStep)
    ensures
        step == spec_find_step(gid),
{
    let band = gid / crate::gid::GID_BAND;
    if band < 1 || band > 7 {
        return FindStep::Unsupported;
    }
    match GidType::entity_type(gid) {
        GidType::DimensionRole => FindStep::DimensionRole,
        GidType::Cube => FindStep::Cube,
        _ => FindStep::Unsupported,
    }
}

/// A request to the metadata service for the entity that a gid or a name names,
/// seen from another entity.
#[derive(Debug)]
pub struct LocateOlapEntityRequest {
    /// The entity to locate from.
    pub origin_gid: u64,
    /// The gid of the entity to locate.
    pub target_entity_gid: u64,
    /// The name of the entity to locate, empty when it is located by gid.
    pub target_entity_name: String,
}

/// The segments that follow the first one: what is left of a path after a step.
/// The empty path has nothing left.
pub fn tail_segments(segs: &Vec<SegKind>) -> (rest: Vec<SegKind>)
    ensures
        segs@.len() > 0 ==> rest@ == segs@.drop_first(),
        segs@.len() == 0 ==> rest@.len() == 0,
{
    let mut rest: Vec<SegKind> = Vec::new();
    let mut i: usize = 1;
    while i < segs.len()
        invariant
            1 <= i,
            segs@.len() > 0 ==> i <= segs@.len(),
            segs@.len() > 0 ==> rest@ == segs@.subrange(1, i as int),
            segs@.len() == 0 ==> rest@.len() == 0,
        decreases segs.len() - i,
    {
        rest.push(segs[i]);
        i = i + 1;
        assert(rest@ =~= segs@.subrange(1, i as int));
    }
    if segs.len() > 0 {
        assert(segs@.subrange(1, segs@.len() as int) =~= segs@.drop_first());
    }
    rest
}

/// The kind of entity that a walk along a path stands at.
#[derive(Debug, Clone, Copy, PartialEq, Eq, Structural)]
pub enum Locus {
    DimensionRole,
    MemberRole,
    TupleSet,
    Cube,
}

/// The step that a walk takes at one entity.
#[derive(Debug, Clone, Copy, PartialEq, Eq, Structural)]
pub enum Action {
    FromDimensionRole(DimRoleStep),
    FromMemberRole(MemberRoleStep),
    FromSet(SetStep),
    /// At a cube: whether the path is the cube lookup function.
    FromCube(bool),
}

/// The step that a walk standing at `at` takes on the path `segs`.
pub open spec fn spec_action(at: Locus, segs: Seq<SegKind>) -> Action {
    match at {
        Locus::DimensionRole => Action::FromDimensionRole(DimensionRole::spec_locate_step(segs)),
        Locus::MemberRole => Action::FromMemberRole(MemberRole::spec_locate_step(segs)),
        Locus::TupleSet => Action::FromSet(TupleSet::spec_locate_step(segs)),
        Locus::Cube => Action::FromCube(Cube::spec_is_lookup(segs)),
    }
}

/// The kind of entity found at a step, as the caller reports it: the first
/// report, or no member or level role when there is none left.
pub open spec fn first_found(found: Seq<FoundKind>) -> FoundKind {
    if found.len() > 0 {
        found[0]
    } else {
        FoundKind::Other
    }
}

/// The reports left after the first one.
pub open spec fn rest_found(found: Seq<FoundKind>) -> Seq<FoundKind> {
    if found.len() > 0 {
        found.drop_first()
    } else {
        found
    }
}

/// Where a walk goes on after a step at `at` on `segs` that found an entity of
/// kind `found`: from a dimension role to the member role found, or from a member
/// role to the set its set function gave, each time with the rest of the path.
pub open spec fn spec_successor(at: Locus, segs: Seq<SegKind>, found: FoundKind) -> Option<Locus> {
    match at {
        Locus::DimensionRole => if DimensionRole::spec_locate_step(segs) != DimRoleStep::Unsupported
            && DimensionRole::spec_next_step(found, segs.len()) == NextStep::LocateFromMemberRole {
            Some(Locus::MemberRole)
        } else {
            None
        },
        Locus::MemberRole => if MemberRole::spec_locate_step(segs) == MemberRoleStep::GetSetThenLocate {
            Some(Locus::TupleSet)
        } else {
            None
        },
        _ => None,
    }
}

/// The steps that a walk along the whole path `segs` takes from an entity of kind
/// `at`, where `found[k]` is the kind of entity that its `k`-th step found.
pub open spec fn spec_walk(at: Locus, segs: Seq<SegKind>, found: Seq<FoundKind>) -> Seq<Action>
    decreases segs.len(),
{
    match spec_successor(at, segs, first_found(found)) {
        Some(next) => if segs.len() > 0 {
            seq![spec_action(at, segs)] + spec_walk(next, segs.drop_first(), rest_found(found))
        } else {
            seq![spec_action(at, segs)]
        },
        None => seq![spec_action(at, segs)],
    }
}

/// The step that a walk standing at `at` takes on the path `segs`.
pub fn action(at: Locus, segs: &Vec<SegKind>) -> (a: Action)
    ensures
        a == spec_action(at, segs@),
{
    match at {
        Locus::DimensionRole => Action::FromDimensionRole(DimensionRole::locate_step(segs)),
        Locus::MemberRole => Action::FromMemberRole(MemberRole::locate_step(segs)),
        Locus::TupleSet => Action::FromSet(TupleSet::locate_step(segs)),
        Locus::Cube => Action::FromCube(Cube::locate_is_lookup(segs)),
    }
}

/// Where a walk goes on after a step at `at` on `segs` that found an entity of
/// kind `found`, if it goes on.
pub fn successor(at: Locus, segs: &Vec<SegKind>, found: FoundKind) -> (next: Option<Locus>)
    ensures
        next == spec_successor(at, segs@, found),
{
    match at {
        Locus::DimensionRole => {
            let first = DimensionRole::locate_step(segs);
            let then = DimensionRole::next_step(found, segs.len());
            match (first, then) {
                (DimRoleStep::Unsupported, _) => None,
                (_, NextStep::LocateFromMemberRole) => Some(Locus::MemberRole),
                _ => None,
            }
        },
        Locus::MemberRole => match MemberRole::locate_step(segs) {
            MemberRoleStep::GetSetThenLocate => Some(Locus::TupleSet),
            _ => None,
        },
        _ => None,
    }
}

/// The steps that a walk along the whole path `segs` takes from an entity of kind
/// `start`, in order, where `found[k]` is the kind of entity that its `k`-th step
/// found (missing reports count as neither a member nor a level role). Each step
/// after the first works on the rest of the path that the step before it left.
pub fn walk_path(start: Locus, segs: &Vec<SegKind>, found: &Vec<FoundKind>) -> (steps: Vec<Action>)
    ensures
        steps@ == spec_walk(start, segs@, found@),
{
    let mut cur: Vec<SegKind> = Vec::new();
    let mut k: usize = 0;
    while k < segs.len()
        invariant
            k <= segs.len(),
            cur@ == segs@.take(k as int),
        decreases segs.len() - k,
    {
        cur.push(segs[k]);
        k = k + 1;
        assert(cur@ =~= segs@.take(k as int));
    }
    assert(cur@ =~= segs@);
    let mut steps: Vec<Action> = Vec::new();
    let mut at = start;
    let mut j: usize = 0;
    assert(found@.skip(0) =~= found@);
    loop
        invariant
            j <= found@.len(),
            spec_walk(start, segs@, found@) == steps@ + spec_walk(at, cur@, found@.skip(j as int)),
        decreases cur@.len(),
    {
        let ghost fs = found@.skip(j as int);
        let a = action(at, &cur);
        let f = if j < found.len() {
            found[j]
        } else {
            FoundKind::Other
        };
        assert(first_found(fs) == f);
        let next = successor(at, &cur, f);
        steps.push(a);
        match next {
            Some(l) => {
                if cur.len() == 0 {
                    assert(spec_walk(start, segs@, found@) =~= steps@);
                    return steps;
                }
                cur = tail_segments(&cur);
                if j < found.len() {
                    assert(rest_found(fs) =~= found@.skip(j + 1));
                    j = j + 1;
                } else {
                    assert(rest_found(fs) =~= found@.skip(j as int));
                }
                at = l;
                assert(spec_walk(start, segs@, found@) =~= steps@ + spec_walk(at, cur@, found@.skip(j as int)));
            },
            None => {
                assert(spec_walk(start, segs@, found@) =~= steps@);
                return steps;
            },
        }
    }
}

impl TupleSet {
    /// The step that locating `segs` from a set takes.
    pub open spec fn spec_locate_step(segs: Seq<SegKind>) -> SetStep {
        if segs.len() == 1 && segs[0] is ExpFunc && is_aggregate(segs[0]->ExpFunc_0) {
            SetStep::Aggregate(segs[0]->ExpFunc_0)
        } else {
            SetStep::Unsupported
        }
    }

    /// The step that locating `segs` from a set takes: a path of one aggregate
    /// function segment aggregates the set; every other path is unsupported.
    pub fn locate_step(segs: &Vec<SegKind>) -> (step: SetStep)
        ensures
            step == Self::spec_locate_step(segs@),
    {
        if segs.len() == 0 {
            return SetStep::Unsupported;
        }
        match segs[0] {
            SegKind::ExpFunc(k) => match k {
                ExpFnKind::Avg | ExpFnKind::Count | ExpFnKind::Sum | ExpFnKind::Max
                | ExpFnKind::Min => if segs.len() > 1 {
                    SetStep::Unsupported
                } else {
                    SetStep::Aggregate(k)
                },
                _ => SetStep::Unsupported,
            },
            _ => SetStep::Unsupported,
        }
    }
}

impl MemberRole {
    /// The step that locating `segs` from a member role takes.
    pub open spec fn spec_locate_step(segs: Seq<SegKind>) -> MemberRoleStep {
        if segs.len() == 0 {
            MemberRoleStep::Unsupported
        } else {
            match segs[0] {
                SegKind::MemberFunc => MemberRoleStep::GetMember,
                SegKind::SetFunc => if segs.len() == 1 {
                    MemberRoleStep::GetSet
                } else {
                    MemberRoleStep::GetSetThenLocate
                },
                SegKind::LevelFunc => if segs.len() == 1 {
                    MemberRoleStep::GetLevelRole
                } else {
                    MemberRoleStep::Unsupported
                },
                SegKind::ExpFunc(k) => if segs.len() == 1 {
                    MemberRoleStep::Evaluate(k)
                } else {
                    MemberRoleStep::Unsupported
                },
                _ => MemberRoleStep::Unsupported,
            }
        }
    }

    /// The step that locating `segs` from a member role takes: a member function
    /// gives the result; a set function gives a set, from which the rest of the
    /// path is located; a level or value function must end the path.
    pub fn locate_step(segs: &Vec<SegKind>) -> (step: MemberRoleStep)
        ensures
            step == Self::spec_locate_step(segs@),
    {
        if segs.len() == 0 {
            return MemberRoleStep::Unsupported;
        }
        let single = segs.len() == 1;
        match segs[0] {
            SegKind::MemberFunc => MemberRoleStep::GetMember,
            SegKind::SetFunc => if single {
                MemberRoleStep::GetSet
            } else {
                MemberRoleStep::GetSetThenLocate
            },
            SegKind::LevelFunc => if single {
                MemberRoleStep::GetLevelRole
            } else {
                MemberRoleStep::Unsupported
            },
            SegKind::ExpFunc(k) => if single {
                MemberRoleStep::Evaluate(k)
            } else {
                MemberRoleStep::Unsupported
            },
            _ => MemberRoleStep::Unsupported,
        }
    }
}

impl DimensionRole {
    /// The first step that locating `segs` from a dimension role takes.
    pub open spec fn spec_locate_step(segs: Seq<SegKind>) -> DimRoleStep {
        if segs.len() == 0 {
            DimRoleStep::Unsupported
        } else {
            match segs[0] {
                SegKind::Gid(g) => DimRoleStep::LocateByGid(g),
                SegKind::LevelFunc => DimRoleStep::GetLevelRole,
                SegKind::MemberFunc => DimRoleStep::GetMember,
                _ => DimRoleStep::Unsupported,
            }
        }
    }

    /// The first step that locating `segs` from a dimension role takes: a gid is
    /// looked up within the dimension role, a level or member function is applied
    /// to it; a name alone or any other segment is unsupported.
    pub fn locate_step(segs: &Vec<SegKind>) -> (step: DimRoleStep)
        ensures
            step == Self::spec_locate_step(segs@),
    {
        if segs.len() == 0 {
            return DimRoleStep::Unsupported;
        }
        match segs[0] {
            SegKind::Gid(g) => DimRoleStep::LocateByGid(g),
            SegKind::LevelFunc => DimRoleStep::GetLevelRole,
            SegKind::MemberFunc => DimRoleStep::GetMember,
            _ => DimRoleStep::Unsupported,
        }
    }

    /// What follows the first step from a dimension role.
    pub open spec fn spec_next_step(found: FoundKind, seg_count: nat) -> NextStep {
        match found {
            FoundKind::MemberRole => if seg_count == 1 {
                NextStep::Done
            } else {
                NextStep::LocateFromMemberRole
            },
            FoundKind::LevelRole => if seg_count == 1 {
                NextStep::Done
            } else {
                NextStep::Unsupported
            },
            FoundKind::Other => NextStep::Unsupported,
        }
    }

    /// What follows the first step from a dimension role, given what it found
    /// and the number of segments of the path: a member role found is the result
    /// when the path ends, and otherwise the rest of the path is located from it;
    /// a level role must end the path.
    pub fn next_step(found: FoundKind, seg_count: usize) -> (step: NextStep)
        ensures
            step == Self::spec_next_step(found, seg_count as nat),
            found == FoundKind::MemberRole && seg_count >= 2 ==> step
                == NextStep::LocateFromMemberRole,
            found != FoundKind::Other && seg_count == 1 ==> step == NextStep::Done,
    {
        match found {
            FoundKind::MemberRole => if seg_count == 1 {
                NextStep::Done
            } else {
                NextStep::LocateFromMemberRole
            },
            FoundKind::LevelRole => if seg_count == 1 {
                NextStep::Done
            } else {
                NextStep::Unsupported
            },
            FoundKind::Other => NextStep::Unsupported,
        }
    }

    /// What locating the entity that `gid` names within a dimension role does.
    pub open spec fn spec_by_gid_step(gid: u64) -> ByGidStep {
        match GidType::spec_entity_type(gid) {
            Some(GidType::Member) => ByGidStep::LocateMember,
            Some(GidType::Level) => ByGidStep::GetLevel,
            _ => ByGidStep::Unsupported,
        }
    }

    /// What locating the entity that `gid` names within a dimension role does: a
    /// member gid is looked up on the metadata service, a level gid in the
    /// metadata; gids of other kinds, and gids of no kind, are unsupported.
    pub fn by_gid_step(gid: u64) -> (step: ByGidStep)
        ensures
            step == Self::spec_by_gid_step(gid),
    {
        let band = gid / crate::gid::GID_BAND;
        if band < 1 || band > 7 {
            return ByGidStep::Unsupported;
        }
        match GidType::entity_type(gid) {
            GidType::Member => ByGidStep::LocateMember,
            GidType::Level => ByGidStep::GetLevel,
            _ => ByGidStep::Unsupported,
        }
    }

    /// The request that asks the metadata service for the entity that `gid`
    /// names within this dimension role: from this dimension role's gid to `gid`,
    /// with no name.
    pub fn locate_member_request(&self, gid: u64) -> (req: LocateOlapEntityRequest)
        ensures
            req.origin_gid == self.gid,
            req.target_entity_gid == gid,
            req.target_entity_name@ == Seq::<char>::empty(),
    {
        LocateOlapEntityRequest { origin_gid: self.gid, target_entity_gid: gid, target_entity_name: String::new() }
    }

    /// The member role that `member` plays through this dimension role.
    pub fn member_role(&self, member: Member) -> (res: MemberRole)
        ensures
            res@ == (MemberRoleView::BaseMember { dim_role: *self, member: member@ }),
    {
        MemberRole::BaseMember { dim_role: *self, member }
    }
}

impl Cube {
    /// Whether a path can be located from a cube: exactly one segment, a cube
    /// lookup function.
    pub open spec fn spec_is_lookup(segs: Seq<SegKind>) -> bool {
        segs.len() == 1 && segs[0] == SegKind::ExpFunc(ExpFnKind::LookupCube)
    }

    /// Whether a path can be located from a cube: it must be a single cube lookup
    /// function, whose value is then computed for the cube.
    pub fn locate_is_lookup(segs: &Vec<SegKind>) -> (res: bool)
        ensures
            res == Self::spec_is_lookup(segs@),
    {
        if segs.len() != 1 {
            return false;
        }
        match segs[0] {
            SegKind::ExpFunc(ExpFnKind::LookupCube) => true,
            _ => false,
        }
    }
}

} // verus!

verus! {

/// A walk takes one step for each segment at most, and always at least one: each
/// step goes on with a strictly shorter rest of the path.
pub proof fn lemma_walk_len(at: Locus, segs: Seq<SegKind>, found: Seq<FoundKind>)
    ensures
        1 <= spec_walk(at, segs, found).len(),
        segs.len() > 0 ==> spec_walk(at, segs, found).len() <= segs.len(),
    decreases segs.len(),
{
    match spec_successor(at, segs, first_found(found)) {
        Some(next) => if segs.len() > 0 {
            lemma_walk_len(next, segs.drop_first(), rest_found(found));
            assert(segs.len() >= 2) by {
                if segs.len() == 1 {
                    if at == Locus::DimensionRole {
                        assert(DimensionRole::spec_next_step(first_found(found), 1) != NextStep::LocateFromMemberRole);
                    }
                }
            }
        },
        None => {},
    }
}

} // verus!

verus! {

/// After the first step from a dimension role: a member role found is the result
/// when the path had one segment, and for a longer path the rest of the path is
/// located from it; a level role found ends the path, and cannot be gone on from;
/// anything else found cannot be gone on from.
pub proof fn lemma_next_step_table(n: nat)
    ensures
        n == 1 ==> DimensionRole::spec_next_step(FoundKind::MemberRole, n) == NextStep::Done,
        n >= 2 ==> DimensionRole::spec_next_step(FoundKind::MemberRole, n)
            == NextStep::LocateFromMemberRole,
        n == 1 ==> DimensionRole::spec_next_step(FoundKind::LevelRole, n) == NextStep::Done,
        n != 1 ==> DimensionRole::spec_next_step(FoundKind::LevelRole, n) == NextStep::Unsupported,
        DimensionRole::spec_next_step(FoundKind::Other, n) == NextStep::Unsupported,
{
}

/// Locating from a set: each of the five aggregate functions, alone in the path,
/// aggregates the set with that function; a cube lookup or any other value
/// function, a segment that is no value function, or a path of any other length
/// is unsupported.
pub proof fn lemma_set_step_table(segs: Seq<SegKind>)
    ensures
        segs == seq![SegKind::ExpFunc(ExpFnKind::Avg)] ==> TupleSet::spec_locate_step(segs)
            == SetStep::Aggregate(ExpFnKind::Avg),
        segs == seq![SegKind::ExpFunc(ExpFnKind::Count)] ==> TupleSet::spec_locate_step(segs)
            == SetStep::Aggregate(ExpFnKind::Count),
        segs == seq![SegKind::ExpFunc(ExpFnKind::Sum)] ==> TupleSet::spec_locate_step(segs)
            == SetStep::Aggregate(ExpFnKind::Sum),
        segs == seq![SegKind::ExpFunc(ExpFnKind::Max)] ==> TupleSet::spec_locate_step(segs)
            == SetStep::Aggregate(ExpFnKind::Max),
        segs == seq![SegKind::ExpFunc(ExpFnKind::Min)] ==> TupleSet::spec_locate_step(segs)
            == SetStep::Aggregate(ExpFnKind::Min),
        segs == seq![SegKind::ExpFunc(ExpFnKind::LookupCube)] ==> TupleSet::spec_locate_step(segs)
            == SetStep::Unsupported,
        segs == seq![SegKind::ExpFunc(ExpFnKind::Other)] ==> TupleSet::spec_locate_step(segs)
            == SetStep::Unsupported,
        segs.len() != 1 ==> TupleSet::spec_locate_step(segs) == SetStep::Unsupported,
        segs.len() == 1 && !(segs[0] is ExpFunc) ==> TupleSet::spec_locate_step(segs)
            == SetStep::Unsupported,
{
    if segs.len() == 1 {
        assert(segs[0] == segs[0]);
    }
}

/// Locating from a member role: a member function gives the result whatever
/// follows; a set function gives the set when it ends the path and otherwise the
/// rest is located from the set; a level function or a value function must end
/// the path, and is then applied; a gid, a name or any other segment, and the
/// empty path, are unsupported.
pub proof fn lemma_member_role_step_table(segs: Seq<SegKind>, k: ExpFnKind)
    ensures
        segs.len() >= 1 && segs[0] == SegKind::MemberFunc ==> MemberRole::spec_locate_step(segs)
            == MemberRoleStep::GetMember,
        segs.len() == 1 && segs[0] == SegKind::SetFunc ==> MemberRole::spec_locate_step(segs)
            == MemberRoleStep::GetSet,
        segs.len() >= 2 && segs[0] == SegKind::SetFunc ==> MemberRole::spec_locate_step(segs)
            == MemberRoleStep::GetSetThenLocate,
        segs.len() == 1 && segs[0] == SegKind::LevelFunc ==> MemberRole::spec_locate_step(segs)
            == MemberRoleStep::GetLevelRole,
        segs.len() >= 2 && segs[0] == SegKind::LevelFunc ==> MemberRole::spec_locate_step(segs)
            == MemberRoleStep::Unsupported,
        segs.len() == 1 && segs[0] == SegKind::ExpFunc(k) ==> MemberRole::spec_locate_step(segs)
            == MemberRoleStep::Evaluate(k),
        segs.len() >= 2 && segs[0] == SegKind::ExpFunc(k) ==> MemberRole::spec_locate_step(segs)
            == MemberRoleStep::Unsupported,
        segs.len() >= 1 && (segs[0] is Gid || segs[0] == SegKind::Str || segs[0] == SegKind::Other)
            ==> MemberRole::spec_locate_step(segs) == MemberRoleStep::Unsupported,
        segs.len() == 0 ==> MemberRole::spec_locate_step(segs) == MemberRoleStep::Unsupported,
{
}

/// Locating from a dimension role starts from the first segment: a gid is looked
/// up within the dimension role, a level function or a member function is applied
/// to it; a name alone, a set or value function, any other segment and the empty
/// path are unsupported.
pub proof fn lemma_dimension_role_step_table(segs: Seq<SegKind>, g: u64)
    ensures
        segs.len() >= 1 && segs[0] == SegKind::Gid(g) ==> DimensionRole::spec_locate_step(segs)
            == DimRoleStep::LocateByGid(g),
        segs.len() >= 1 && segs[0] == SegKind::LevelFunc ==> DimensionRole::spec_locate_step(segs)
            == DimRoleStep::GetLevelRole,
        segs.len() >= 1 && segs[0] == SegKind::MemberFunc ==> DimensionRole::spec_locate_step(segs)
            == DimRoleStep::GetMember,
        segs.len() >= 1 && (segs[0] == SegKind::Str || segs[0] == SegKind::SetFunc || segs[0] is ExpFunc
            || segs[0] == SegKind::Other) ==> DimensionRole::spec_locate_step(segs)
            == DimRoleStep::Unsupported,
        segs.len() == 0 ==> DimensionRole::spec_locate_step(segs) == DimRoleStep::Unsupported,
{
}

/// A path from a dimension role that names a member by gid and goes on: when the
/// first step finds a member role, the walk's second step works from that member
/// role on the rest of the path.
pub proof fn lemma_walk_goes_on_from_member(segs: Seq<SegKind>, found: Seq<FoundKind>, g: u64)
    requires
        segs.len() >= 2,
        segs[0] == SegKind::Gid(g),
        found.len() >= 1,
        found[0] == FoundKind::MemberRole,
    ensures
        spec_walk(Locus::DimensionRole, segs, found).len() >= 2,
        spec_walk(Locus::DimensionRole, segs, found)[0] == Action::FromDimensionRole(
            DimRoleStep::LocateByGid(g),
        ),
        spec_walk(Locus::DimensionRole, segs, found)[1] == Action::FromMemberRole(
            MemberRole::spec_locate_step(segs.drop_first()),
        ),
{
    lemma_next_step_table(segs.len());
    lemma_walk_len(Locus::MemberRole, segs.drop_first(), rest_found(found));
}

/// Within a dimension role, member gids (band 3) are looked up on the metadata
/// service and level gids (band 4) in the metadata; all other gids are
/// unsupported.
pub proof fn lemma_by_gid_step_bands(gid: u64)
    ensures
        (DimensionRole::spec_by_gid_step(gid) == ByGidStep::LocateMember) <==> (300_000_000_000_000
            <= gid < 400_000_000_000_000),
        (DimensionRole::spec_by_gid_step(gid) == ByGidStep::GetLevel) <==> (400_000_000_000_000
            <= gid < 500_000_000_000_000),
{
}

/// Within a query context, dimension role gids (band 6) are looked up on the
/// metadata service and cube gids (band 5) in the metadata; all other gids are
/// unsupported.
pub proof fn lemma_find_step_bands(gid: u64)
    ensures
        (spec_find_step(gid) == FindStep::DimensionRole) <==> (600_000_000_000_000 <= gid
            < 700_000_000_000_000),
        (spec_find_step(gid) == FindStep::Cube) <==> (500_000_000_000_000 <= gid
            < 600_000_000_000_000),
{
}

/// A path from a member role whose first segment is a set function and that goes
/// on: the walk's second step works from the set on the rest of the path, and
/// the walk then ends.
pub proof fn lemma_walk_goes_on_from_set(segs: Seq<SegKind>, found: Seq<FoundKind>)
    requires
        segs.len() >= 2,
        segs[0] == SegKind::SetFunc,
    ensures
        spec_walk(Locus::MemberRole, segs, found) == seq![
            Action::FromMemberRole(MemberRoleStep::GetSetThenLocate),
            Action::FromSet(TupleSet::spec_locate_step(segs.drop_first())),
        ],
{
    assert(spec_walk(Locus::TupleSet, segs.drop_first(), rest_found(found)) == seq![
        Action::FromSet(TupleSet::spec_locate_step(segs.drop_first())),
    ]);
}

/// A walk whose first step does not go on is that one step.
pub proof fn lemma_walk_stops(at: Locus, segs: Seq<SegKind>, found: Seq<FoundKind>)
    requires
        spec_successor(at, segs, first_found(found)) is None,
    ensures
        spec_walk(at, segs, found) == seq![spec_action(at, segs)],
{
}

} // verus!
