//! The entities of the multidimensional model: cubes, dimension roles, levels,
//! members and the roles that members and levels play in a cube.
use vstd::prelude::*;
use vstd::std_specs::cmp::PartialEqSpecImpl;

pub use crate::axis::{Axis, TupleSet};
pub use crate::gid::GidType;
pub use crate::tuple::TupleVector;

verus! {

/// Copies a list of gids.
pub fn copy_gids(v: &Vec<u64>) -> (r: Vec<u64>)
    ensures
        r@ == v@,
{
    let mut r: Vec<u64> = Vec::new();
    let mut i: usize = 0;
    while i < v.len()
        invariant
            i <= v.len(),
            r@ == v@.take(i as int),
        decreases v.len() - i,
    {
        r.push(v[i]);
        i = i + 1;
        assert(r@ =~= v@.take(i as int));
    }
    assert(v@.take(v.len() as int) =~= v@);
    r
}

/// Whether two lists of gids are equal.
pub fn gids_equal(a: &Vec<u64>, b: &Vec<u64>) -> (res: bool)
    ensures
        res == (a@ == b@),
{
    if a.len() != b.len() {
        return false;
    }
    let mut i: usize = 0;
    while i < a.len()
        invariant
            a.len() == b.len(),
            i <= a.len(),
            forall|k: int| 0 <= k < i ==> a@[k] == b@[k],
        decreases a.len() - i,
    {
        if a[i] != b[i] {
            return false;
        }
        i = i + 1;
    }
    assert(a@ =~= b@);
    true
}

/// A level of a hierarchy.
#[derive(Debug)]
pub struct Level {
    pub gid: u64,
    pub name: String,
    pub level: u32,
    pub dimension_gid: u64,
    pub hierarchy_gid: u64,
    pub opening_period_gid: u64,
    pub closing_period_gid: u64,
}

/// The mathematical value of a [`Level`].
pub struct LevelView {
    pub gid: u64,
    pub name: Seq<char>,
    pub level: u32,
    pub dimension_gid: u64,
    pub hierarchy_gid: u64,
    pub opening_period_gid: u64,
    pub closing_period_gid: u64,
}

impl View for Level {
    type V = LevelView;

    open spec fn view(&self) -> LevelView {
        LevelView {
            gid: self.gid,
            name: self.name@,
            level: self.level,
            dimension_gid: self.dimension_gid,
            hierarchy_gid: self.hierarchy_gid,
            opening_period_gid: self.opening_period_gid,
            closing_period_gid: self.closing_period_gid,
        }
    }
}

impl Clone for Level {
    fn clone(&self) -> (res: Self)
        ensures
            res@ == self@,
    {
        Level {
            gid: self.gid,
            name: self.name.clone(),
            level: self.level,
            dimension_gid: self.dimension_gid,
            hierarchy_gid: self.hierarchy_gid,
            opening_period_gid: self.opening_period_gid,
            closing_period_gid: self.closing_period_gid,
        }
    }
}

impl PartialEq for Level {
    fn eq(&self, other: &Self) -> (res: bool) {
        self.gid == other.gid && self.name == other.name && self.level == other.level
            && self.dimension_gid == other.dimension_gid && self.hierarchy_gid
            == other.hierarchy_gid && self.opening_period_gid == other.opening_period_gid
            && self.closing_period_gid == other.closing_period_gid
    }
}

impl PartialEqSpecImpl for Level {
    open spec fn obeys_eq_spec() -> bool {
        true
    }

    open spec fn eq_spec(&self, other: &Self) -> bool {
        self@ == other@
    }
}

/// A dimension as it takes part in a cube.
#[derive(Debug, Clone, Copy, PartialEq, Eq, Structural)]
pub struct DimensionRole {
    pub gid: u64,
    pub dimension_gid: u64,
    pub default_hierarchy_gid: u64,
    pub measure_flag: bool,
}

/// A member of a dimension.
#[derive(Debug)]
pub struct Member {
    pub gid: u64,
    pub name: String,
    pub level_gid: u64,
    pub level: u32,
    pub parent_gid: u64,
    pub measure_index: u32,
    pub leaf: bool,
    /// The gids of the member's ancestors, from the root down, and its own.
    pub full_path: Vec<u64>,
}

/// The mathematical value of a [`Member`].
pub struct MemberView {
    pub gid: u64,
    pub name: Seq<char>,
    pub level_gid: u64,
    pub level: u32,
    pub parent_gid: u64,
    pub measure_index: u32,
    pub leaf: bool,
    pub full_path: Seq<u64>,
}

impl View for Member {
    type V = MemberView;

    open spec fn view(&self) -> MemberView {
        MemberView {
            gid: self.gid,
            name: self.name@,
            level_gid: self.level_gid,
            level: self.level,
            parent_gid: self.parent_gid,
            measure_index: self.measure_index,
            leaf: self.leaf,
            full_path: self.full_path@,
        }
    }
}

impl Clone for Member {
    fn clone(&self) -> (res: Self)
        ensures
            res@ == self@,
    {
        Member {
            gid: self.gid,
            name: self.name.clone(),
            level_gid: self.level_gid,
            level: self.level,
            parent_gid: self.parent_gid,
            measure_index: self.measure_index,
            leaf: self.leaf,
            full_path: copy_gids(&self.full_path),
        }
    }
}

impl PartialEq for Member {
    fn eq(&self, other: &Self) -> (res: bool) {
        self.gid == other.gid && self.name == other.name && self.level_gid == other.level_gid
            && self.level == other.level && self.parent_gid == other.parent_gid
            && self.measure_index == other.measure_index && self.leaf == other.leaf && gids_equal(
            &self.full_path,
            &other.full_path,
        )
    }
}

impl PartialEqSpecImpl for Member {
    open spec fn obeys_eq_spec() -> bool {
        true
    }

    open spec fn eq_spec(&self, other: &Self) -> bool {
        self@ == other@
    }
}

/// A cube.
#[derive(Debug)]
pub struct Cube {
    pub gid: u64,
    pub name: String,
}

/// The mathematical value of a [`Cube`].
pub struct CubeView {
    pub gid: u64,
    pub name: Seq<char>,
}

impl View for Cube {
    type V = CubeView;

    open spec fn view(&self) -> CubeView {
        CubeView { gid: self.gid, name: self.name@ }
    }
}

impl Clone for Cube {
    fn clone(&self) -> (res: Self)
        ensures
            res@ == self@,
    {
        Cube { gid: self.gid, name: self.name.clone() }
    }
}

impl PartialEq for Cube {
    fn eq(&self, other: &Self) -> (res: bool) {
        self.gid == other.gid && self.name == other.name
    }
}

impl PartialEqSpecImpl for Cube {
    open spec fn obeys_eq_spec() -> bool {
        true
    }

    open spec fn eq_spec(&self, other: &Self) -> bool {
        self@ == other@
    }
}

/// A level as it is reached through a dimension role of a cube.
#[derive(Debug)]
pub struct LevelRole {
    pub dim_role: DimensionRole,
    pub level: Level,
}

/// The mathematical value of a [`LevelRole`].
pub struct LevelRoleView {
    pub dim_role: DimensionRole,
    pub level: LevelView,
}

impl View for LevelRole {
    type V = LevelRoleView;

    open spec fn view(&self) -> LevelRoleView {
        LevelRoleView { dim_role: self.dim_role, level: self.level@ }
    }
}

impl Clone for LevelRole {
    fn clone(&self) -> (res: Self)
        ensures
            res@ == self@,
    {
        LevelRole { dim_role: self.dim_role, level: self.level.clone() }
    }
}

impl PartialEq for LevelRole {
    fn eq(&self, other: &Self) -> (res: bool) {
        self.dim_role == other.dim_role && self.level == other.level
    }
}

impl PartialEqSpecImpl for LevelRole {
    open spec fn obeys_eq_spec() -> bool {
        true
    }

    open spec fn eq_spec(&self, other: &Self) -> bool {
        self@ == other@
    }
}

impl LevelRole {
    /// The role that `level` plays through `dim_role`.
    pub fn new(dim_role: DimensionRole, level: Level) -> (res: Self)
        ensures
            res.dim_role == dim_role,
            res@.level == level@,
    {
        LevelRole { dim_role, level }
    }
}

/// The expression that defines a formula member, held as its MDX text.
#[derive(Debug)]
pub struct AstExpression {
    pub text: String,
}

impl View for AstExpression {
    type V = Seq<char>;

    open spec fn view(&self) -> Seq<char> {
        self.text@
    }
}

impl Clone for AstExpression {
    fn clone(&self) -> (res: Self)
        ensures
            res@ == self@,
    {
        AstExpression { text: self.text.clone() }
    }
}

impl PartialEq for AstExpression {
    fn eq(&self, other: &Self) -> (res: bool) {
        self.text == other.text
    }
}

impl PartialEqSpecImpl for AstExpression {
    open spec fn obeys_eq_spec() -> bool {
        true
    }

    open spec fn eq_spec(&self, other: &Self) -> bool {
        self@ == other@
    }
}

/// A member as it takes part in a cube: either a stored member reached through a
/// dimension role, or a formula member defined on a dimension role.
#[derive(Debug)]
pub enum MemberRole {
    BaseMember { dim_role: DimensionRole, member: Member },
    FormulaMember { dim_role_gid: u64, exp: AstExpression },
}

/// The mathematical value of a [`MemberRole`].
pub enum MemberRoleView {
    BaseMember { dim_role: DimensionRole, member: MemberView },
    FormulaMember { dim_role_gid: u64, exp: Seq<char> },
}

impl MemberRoleView {
    /// The gid of the dimension role that the member role belongs to.
    pub open spec fn dim_role_gid(self) -> u64 {
        match self {
            MemberRoleView::BaseMember { dim_role, .. } => dim_role.gid,
            MemberRoleView::FormulaMember { dim_role_gid, .. } => dim_role_gid,
        }
    }
}

impl View for MemberRole {
    type V = MemberRoleView;

    open spec fn view(&self) -> MemberRoleView {
        match self {
            MemberRole::BaseMember { dim_role, member } => MemberRoleView::BaseMember {
                dim_role: *dim_role,
                member: member@,
            },
            MemberRole::FormulaMember { dim_role_gid, exp } => MemberRoleView::FormulaMember {
                dim_role_gid: *dim_role_gid,
                exp: exp@,
            },
        }
    }
}

impl Clone for MemberRole {
    fn clone(&self) -> (res: Self)
        ensures
            res@ == self@,
    {
        match self {
            MemberRole::BaseMember { dim_role, member } => MemberRole::BaseMember {
                dim_role: *dim_role,
                member: member.clone(),
            },
            MemberRole::FormulaMember { dim_role_gid, exp } => MemberRole::FormulaMember {
                dim_role_gid: *dim_role_gid,
                exp: exp.clone(),
            },
        }
    }
}

impl PartialEq for MemberRole {
    fn eq(&self, other: &Self) -> (res: bool) {
        match (self, other) {
            (
                MemberRole::BaseMember { dim_role: d1, member: m1 },
                MemberRole::BaseMember { dim_role: d2, member: m2 },
            ) => *d1 == *d2 && m1 == m2,
            (
                MemberRole::FormulaMember { dim_role_gid: g1, exp: e1 },
                MemberRole::FormulaMember { dim_role_gid: g2, exp: e2 },
            ) => *g1 == *g2 && e1 == e2,
            _ => false,
        }
    }
}

impl PartialEqSpecImpl for MemberRole {
    open spec fn obeys_eq_spec() -> bool {
        true
    }

    open spec fn eq_spec(&self, other: &Self) -> bool {
        self@ == other@
    }
}

impl MemberRole {
    /// The gid of the dimension role that the member role belongs to.
    pub fn get_dim_role_gid(&self) -> (gid: u64)
        ensures
            gid == self@.dim_role_gid(),
            self matches MemberRole::BaseMember { dim_role, .. } ==> gid == dim_role.gid,
            self matches MemberRole::FormulaMember { dim_role_gid, .. } ==> gid == dim_role_gid,
    {
        match self {
            MemberRole::BaseMember { dim_role, .. } => dim_role.gid,
            MemberRole::FormulaMember { dim_role_gid, exp: _ } => *dim_role_gid,
        }
    }
}

} // verus!
