//! Entities as the metadata service describes them, and their conversion into
//! the entities of the multidimensional model.
use vstd::prelude::*;
use crate::mdd::{Cube, CubeView, DimensionRole, Level, LevelView, Member, MemberView, copy_gids};
use crate::permission::permis_obj::{UserOlapModelAccess, UserOlapModelAccessView};

verus! {

/// An OLAP entity of any class as the metadata service sends it: the fields that
/// the model reads of it.
#[derive(Debug)]
pub struct UniversalOlapEntity {
    pub gid: u64,
    pub name: String,
    /// The class of the entity, such as "Member".
    pub olap_entity_class: String,
    pub level: u32,
    pub level_gid: u64,
    pub measure_index: u32,
    pub parent_gid: u64,
    pub leaf: bool,
    pub member_gid_full_path: Vec<u64>,
}

/// The member that a universal OLAP entity describes.
pub open spec fn member_of(e: UniversalOlapEntity) -> MemberView {
    MemberView {
        gid: e.gid,
        name: e.name@,
        level_gid: e.level_gid,
        level: e.level,
        parent_gid: e.parent_gid,
        measure_index: e.measure_index,
        leaf: e.leaf,
        full_path: e.member_gid_full_path@,
    }
}

/// The class name of member entities.
pub open spec fn member_class() -> Seq<char> {
    seq!['M', 'e', 'm', 'b', 'e', 'r']
}

/// The member that `grpc_olap_obj` describes.
pub fn grpc_to_olap_member(grpc_olap_obj: UniversalOlapEntity) -> (m: Member)
    ensures
        m@ == member_of(grpc_olap_obj),
        m.gid == grpc_olap_obj.gid && m.name@ == grpc_olap_obj.name@ && m.level_gid == grpc_olap_obj.level_gid
            && m.level == grpc_olap_obj.level && m.parent_gid == grpc_olap_obj.parent_gid && m.measure_index
            == grpc_olap_obj.measure_index && m.leaf == grpc_olap_obj.leaf && m.full_path@ == grpc_olap_obj.member_gid_full_path@,
{
    Member {
        gid: grpc_olap_obj.gid,
        name: grpc_olap_obj.name,
        level_gid: grpc_olap_obj.level_gid,
        level: grpc_olap_obj.level,
        parent_gid: grpc_olap_obj.parent_gid,
        measure_index: grpc_olap_obj.measure_index,
        leaf: grpc_olap_obj.leaf,
        full_path: copy_gids(&grpc_olap_obj.member_gid_full_path),
    }
}

/// Whether `entity` is of class "Member", the one class that the model reads
/// from a universal OLAP entity.
pub fn is_member_entity(entity: &UniversalOlapEntity) -> (res: bool)
    ensures
        res == (entity.olap_entity_class@ == member_class()),
        res == (entity.olap_entity_class@ == seq!['M', 'e', 'm', 'b', 'e', 'r']),
{
    let class = entity.olap_entity_class.as_str();
    let n = class.unicode_len();
    if n != 6 {
        return false;
    }
    let mut i: usize = 0;
    while i < 6
        invariant
            n == 6,
            class@ == entity.olap_entity_class@,
            class@.len() == 6,
            i <= 6,
            forall|k: int| 0 <= k < i ==> class@[k] == member_class()[k],
        decreases 6 - i,
    {
        let expected = if i == 0 {
            'M'
        } else if i == 1 {
            'e'
        } else if i == 2 {
            'm'
        } else if i == 3 {
            'b'
        } else if i == 4 {
            'e'
        } else {
            'r'
        };
        assert(member_class()[i as int] == expected);
        if class.get_char(i) != expected {
            return false;
        }
        i = i + 1;
    }
    assert(class@ =~= member_class());
    true
}

/// The member that a universal OLAP entity of class "Member" describes; an entity
/// of another class the model does not read, and the caller rules it out.
pub fn member_from_universal_olap_entity(entity: &UniversalOlapEntity) -> (m: Member)
    requires
        entity.olap_entity_class@ == seq!['M', 'e', 'm', 'b', 'e', 'r'],
    ensures
        m@ == member_of(*entity),
        m.gid == entity.gid && m.name@ == entity.name@ && m.level_gid == entity.level_gid
            && m.level == entity.level && m.parent_gid == entity.parent_gid && m.measure_index
            == entity.measure_index && m.leaf == entity.leaf && m.full_path@ == entity.member_gid_full_path@,
{
    Member {
        gid: entity.gid,
        name: entity.name.clone(),
        level_gid: entity.level_gid,
        level: entity.level,
        parent_gid: entity.parent_gid,
        measure_index: entity.measure_index,
        leaf: entity.leaf,
        full_path: copy_gids(&entity.member_gid_full_path),
    }
}

/// The values of a list of levels.
pub open spec fn levels_view(v: Seq<Level>) -> Seq<LevelView> {
    v.map_values(|l: Level| l@)
}

/// The values of a list of members.
pub open spec fn members_view(v: Seq<Member>) -> Seq<MemberView> {
    v.map_values(|m: Member| m@)
}

/// The values of a list of cubes.
pub open spec fn cubes_view(v: Seq<Cube>) -> Seq<CubeView> {
    v.map_values(|c: Cube| c@)
}

/// The values of a list of access rights.
pub open spec fn accesses_view(v: Seq<UserOlapModelAccess>) -> Seq<UserOlapModelAccessView> {
    v.map_values(|a: UserOlapModelAccess| a@)
}

/// A dimension role as the metadata service sends it.
#[derive(Debug)]
pub struct GrpcDimensionRole {
    pub gid: u64,
    pub dimension_gid: u64,
    pub default_hierarchy_gid: u64,
    /// 1 for the measure dimension role, anything else for others.
    pub measure_flag: i32,
}

/// A level as the metadata service sends it.
#[derive(Debug)]
pub struct GrpcLevel {
    pub gid: u64,
    pub name: String,
    pub level: u32,
    pub dimension_gid: u64,
    pub hierarchy_gid: u64,
    pub opening_period_gid: u64,
    pub closing_period_gid: u64,
}

/// A user's access right as the metadata service sends it.
#[derive(Debug)]
pub struct GrpcUserOlapModelAccess {
    pub id: u64,
    pub user_name: String,
    pub permission_scope: String,
    pub dimension_role_gid: u64,
    pub olap_entity_gid: u64,
    pub has_access: bool,
}

/// The dimension role that a record describes: it is the measure dimension role
/// exactly when its flag is 1.
pub open spec fn dimension_role_of(r: GrpcDimensionRole) -> DimensionRole {
    DimensionRole {
        gid: r.gid,
        dimension_gid: r.dimension_gid,
        default_hierarchy_gid: r.default_hierarchy_gid,
        measure_flag: r.measure_flag == 1,
    }
}

/// The level that a record describes.
pub open spec fn level_of(r: GrpcLevel) -> LevelView {
    LevelView {
        gid: r.gid,
        name: r.name@,
        level: r.level,
        dimension_gid: r.dimension_gid,
        hierarchy_gid: r.hierarchy_gid,
        opening_period_gid: r.opening_period_gid,
        closing_period_gid: r.closing_period_gid,
    }
}

/// The cube that a universal OLAP entity describes.
pub open spec fn cube_of(e: UniversalOlapEntity) -> CubeView {
    CubeView { gid: e.gid, name: e.name@ }
}

/// The access right that a record describes.
pub open spec fn access_of(r: GrpcUserOlapModelAccess) -> UserOlapModelAccessView {
    UserOlapModelAccessView {
        id: r.id,
        user_name: r.user_name@,
        permission_scope: r.permission_scope@,
        dimension_role_gid: r.dimension_role_gid,
        olap_entity_gid: r.olap_entity_gid,
        has_access: r.has_access,
    }
}

/// The dimension role that `grpc_dim_role` describes.
pub fn dimension_role_from_grpc(grpc_dim_role: &GrpcDimensionRole) -> (dim_role: DimensionRole)
    ensures
        dim_role == dimension_role_of(*grpc_dim_role),
        dim_role.gid == grpc_dim_role.gid && dim_role.dimension_gid == grpc_dim_role.dimension_gid
            && dim_role.default_hierarchy_gid == grpc_dim_role.default_hierarchy_gid,
        dim_role.measure_flag <==> grpc_dim_role.measure_flag == 1,
{
    DimensionRole {
        gid: grpc_dim_role.gid,
        dimension_gid: grpc_dim_role.dimension_gid,
        default_hierarchy_gid: grpc_dim_role.default_hierarchy_gid,
        measure_flag: grpc_dim_role.measure_flag == 1,
    }
}

/// The dimension roles that a list of records describes, in order.
pub fn dimension_roles_from_grpc(records: &Vec<GrpcDimensionRole>) -> (res: Vec<DimensionRole>)
    ensures
        res@ == records@.map_values(|r: GrpcDimensionRole| dimension_role_of(r)),
        res@.len() == records@.len(),
        forall|k: int|
            0 <= k < records@.len() ==> (#[trigger] res@[k]).gid == records@[k].gid && res@[k].dimension_gid
                == records@[k].dimension_gid && res@[k].default_hierarchy_gid
                == records@[k].default_hierarchy_gid && (res@[k].measure_flag
                <==> records@[k].measure_flag == 1),
{
    let mut res: Vec<DimensionRole> = Vec::new();
    let mut i: usize = 0;
    while i < records.len()
        invariant
            i <= records.len(),
            res@ == records@.take(i as int).map_values(|r: GrpcDimensionRole| dimension_role_of(r)),
        decreases records.len() - i,
    {
        res.push(dimension_role_from_grpc(&records[i]));
        assert(records@.take(i + 1).drop_last() =~= records@.take(i as int));
        i = i + 1;
        assert(res@ =~= records@.take(i as int).map_values(|r: GrpcDimensionRole| dimension_role_of(r)));
    }
    assert(records@.take(records.len() as int) =~= records@);
    assert forall|k: int| 0 <= k < records@.len() implies (#[trigger] res@[k]).gid == records@[k].gid
        && res@[k].dimension_gid == records@[k].dimension_gid && res@[k].default_hierarchy_gid
        == records@[k].default_hierarchy_gid && (res@[k].measure_flag <==> records@[k].measure_flag
        == 1) by {
        assert(res@[k] == dimension_role_of(records@[k]));
    }
    res
}

/// The levels that a list of records describes, in order.
pub fn levels_from_grpc(records: &Vec<GrpcLevel>) -> (res: Vec<Level>)
    ensures
        levels_view(res@) == records@.map_values(|r: GrpcLevel| level_of(r)),
        res@.len() == records@.len(),
        forall|k: int|
            0 <= k < records@.len() ==> (#[trigger] res@[k]).gid == records@[k].gid && res@[k].name@
                == records@[k].name@ && res@[k].level == records@[k].level && res@[k].dimension_gid
                == records@[k].dimension_gid && res@[k].hierarchy_gid == records@[k].hierarchy_gid
                && res@[k].opening_period_gid == records@[k].opening_period_gid
                && res@[k].closing_period_gid == records@[k].closing_period_gid,
{
    let mut res: Vec<Level> = Vec::new();
    let mut i: usize = 0;
    while i < records.len()
        invariant
            i <= records.len(),
            res@.len() == i,
            levels_view(res@) == records@.take(i as int).map_values(
                |r: GrpcLevel| level_of(r),
            ),
        decreases records.len() - i,
    {
        let r = &records[i];
        let l = Level {
            gid: r.gid,
            name: r.name.clone(),
            level: r.level,
            dimension_gid: r.dimension_gid,
            hierarchy_gid: r.hierarchy_gid,
            opening_period_gid: r.opening_period_gid,
            closing_period_gid: r.closing_period_gid,
        };
        let ghost before = res@;
        res.push(l);
        assert(res@ == before.push(l));
        assert(records@.take(i + 1).drop_last() =~= records@.take(i as int));
        i = i + 1;
        assert(levels_view(res@) =~= records@.take(i as int).map_values(
            |r: GrpcLevel| level_of(r),
        )) by {
            assert forall|k: int| 0 <= k < i implies #[trigger] levels_view(res@)[k]
                == records@.take(i as int).map_values(|r: GrpcLevel| level_of(r))[k] by {
                if k < i - 1 {
                    assert(levels_view(before)[k] == records@.take(i - 1).map_values(
                        |r: GrpcLevel| level_of(r),
                    )[k]);
                }
            }
        }
    }
    assert(records@.take(records.len() as int) =~= records@);
    assert forall|k: int| 0 <= k < records@.len() implies (#[trigger] res@[k]).gid == records@[k].gid
        && res@[k].name@ == records@[k].name@ && res@[k].level == records@[k].level
        && res@[k].dimension_gid == records@[k].dimension_gid && res@[k].hierarchy_gid
        == records@[k].hierarchy_gid && res@[k].opening_period_gid == records@[k].opening_period_gid
        && res@[k].closing_period_gid == records@[k].closing_period_gid by {
        assert(levels_view(res@)[k] == level_of(records@[k]));
    }
    res
}

/// The members that a list of universal OLAP entities describes, in order.
pub fn members_from_grpc(records: &Vec<UniversalOlapEntity>) -> (res: Vec<Member>)
    ensures
        members_view(res@) == records@.map_values(|e: UniversalOlapEntity| member_of(e)),
        res@.len() == records@.len(),
        forall|k: int|
            0 <= k < records@.len() ==> (#[trigger] res@[k]).gid == records@[k].gid && res@[k].name@ == records@[k].name@ && res@[k].level_gid == records@[k].level_gid
            && res@[k].level == records@[k].level && res@[k].parent_gid == records@[k].parent_gid && res@[k].measure_index
            == records@[k].measure_index && res@[k].leaf == records@[k].leaf && res@[k].full_path@ == records@[k].member_gid_full_path@,
{
    let mut res: Vec<Member> = Vec::new();
    let mut i: usize = 0;
    while i < records.len()
        invariant
            i <= records.len(),
            res@.len() == i,
            members_view(res@) == records@.take(i as int).map_values(
                |e: UniversalOlapEntity| member_of(e),
            ),
        decreases records.len() - i,
    {
        let e = &records[i];
        let m = Member {
            gid: e.gid,
            name: e.name.clone(),
            level_gid: e.level_gid,
            level: e.level,
            parent_gid: e.parent_gid,
            measure_index: e.measure_index,
            leaf: e.leaf,
            full_path: copy_gids(&e.member_gid_full_path),
        };
        let ghost before = res@;
        res.push(m);
        assert(res@ == before.push(m));
        assert(records@.take(i + 1).drop_last() =~= records@.take(i as int));
        i = i + 1;
        assert(members_view(res@) =~= records@.take(i as int).map_values(
            |e: UniversalOlapEntity| member_of(e),
        )) by {
            assert forall|k: int| 0 <= k < i implies #[trigger] members_view(res@)[k]
                == records@.take(i as int).map_values(|e: UniversalOlapEntity| member_of(e))[k] by {
                if k < i - 1 {
                    assert(members_view(before)[k] == records@.take(i - 1).map_values(
                        |e: UniversalOlapEntity| member_of(e),
                    )[k]);
                }
            }
        }
    }
    assert(records@.take(records.len() as int) =~= records@);
    assert forall|k: int| 0 <= k < records@.len() implies (#[trigger] res@[k]).gid == records@[k].gid && res@[k].name@ == records@[k].name@ && res@[k].level_gid == records@[k].level_gid
            && res@[k].level == records@[k].level && res@[k].parent_gid == records@[k].parent_gid && res@[k].measure_index
            == records@[k].measure_index && res@[k].leaf == records@[k].leaf && res@[k].full_path@ == records@[k].member_gid_full_path@ by {
        assert(members_view(res@)[k] == member_of(records@[k]));
    }
    res
}

/// The cubes that a list of universal OLAP entities describes, in order.
pub fn cubes_from_grpc(records: &Vec<UniversalOlapEntity>) -> (res: Vec<Cube>)
    ensures
        cubes_view(res@) == records@.map_values(|e: UniversalOlapEntity| cube_of(e)),
        res@.len() == records@.len(),
        forall|k: int|
            0 <= k < records@.len() ==> (#[trigger] res@[k]).gid == records@[k].gid && res@[k].name@
                == records@[k].name@,
{
    let mut res: Vec<Cube> = Vec::new();
    let mut i: usize = 0;
    while i < records.len()
        invariant
            i <= records.len(),
            res@.len() == i,
            cubes_view(res@) == records@.take(i as int).map_values(
                |e: UniversalOlapEntity| cube_of(e),
            ),
        decreases records.len() - i,
    {
        let e = &records[i];
        let c = Cube { gid: e.gid, name: e.name.clone() };
        let ghost before = res@;
        res.push(c);
        assert(res@ == before.push(c));
        assert(records@.take(i + 1).drop_last() =~= records@.take(i as int));
        i = i + 1;
        assert(cubes_view(res@) =~= records@.take(i as int).map_values(
            |e: UniversalOlapEntity| cube_of(e),
        )) by {
            assert forall|k: int| 0 <= k < i implies #[trigger] cubes_view(res@)[k]
                == records@.take(i as int).map_values(|e: UniversalOlapEntity| cube_of(e))[k] by {
                if k < i - 1 {
                    assert(cubes_view(before)[k] == records@.take(i - 1).map_values(
                        |e: UniversalOlapEntity| cube_of(e),
                    )[k]);
                }
            }
        }
    }
    assert(records@.take(records.len() as int) =~= records@);
    assert forall|k: int| 0 <= k < records@.len() implies (#[trigger] res@[k]).gid == records@[k].gid
        && res@[k].name@ == records@[k].name@ by {
        assert(cubes_view(res@)[k] == cube_of(records@[k]));
    }
    res
}

/// The access rights that a list of records describes, in order.
pub fn accesses_from_grpc(records: &Vec<GrpcUserOlapModelAccess>) -> (res: Vec<
    UserOlapModelAccess,
>)
    ensures
        accesses_view(res@) == records@.map_values(
            |r: GrpcUserOlapModelAccess| access_of(r),
        ),
        res@.len() == records@.len(),
        forall|k: int|
            0 <= k < records@.len() ==> (#[trigger] res@[k]).id == records@[k].id && res@[k].user_name@
                == records@[k].user_name@ && res@[k].permission_scope@ == records@[k].permission_scope@
                && res@[k].dimension_role_gid == records@[k].dimension_role_gid
                && res@[k].olap_entity_gid == records@[k].olap_entity_gid && res@[k].has_access
                == records@[k].has_access,
{
    let mut res: Vec<UserOlapModelAccess> = Vec::new();
    let mut i: usize = 0;
    while i < records.len()
        invariant
            i <= records.len(),
            res@.len() == i,
            accesses_view(res@) == records@.take(i as int).map_values(
                |r: GrpcUserOlapModelAccess| access_of(r),
            ),
        decreases records.len() - i,
    {
        let r = &records[i];
        let a = UserOlapModelAccess {
            id: r.id,
            user_name: r.user_name.clone(),
            permission_scope: r.permission_scope.clone(),
            dimension_role_gid: r.dimension_role_gid,
            olap_entity_gid: r.olap_entity_gid,
            has_access: r.has_access,
        };
        let ghost before = res@;
        res.push(a);
        assert(res@ == before.push(a));
        assert(records@.take(i + 1).drop_last() =~= records@.take(i as int));
        i = i + 1;
        assert(accesses_view(res@) =~= records@.take(i as int).map_values(
            |r: GrpcUserOlapModelAccess| access_of(r),
        )) by {
            assert forall|k: int| 0 <= k < i implies #[trigger] accesses_view(res@)[k] == records@.take(i as int).map_values(|r: GrpcUserOlapModelAccess| access_of(r))[k] by {
                if k < i - 1 {
                    assert(accesses_view(before)[k] == records@.take(
                        i - 1,
                    ).map_values(|r: GrpcUserOlapModelAccess| access_of(r))[k]);
                }
            }
        }
    }
    assert(records@.take(records.len() as int) =~= records@);
    assert forall|k: int| 0 <= k < records@.len() implies (#[trigger] res@[k]).id == records@[k].id
        && res@[k].user_name@ == records@[k].user_name@ && res@[k].permission_scope@
        == records@[k].permission_scope@ && res@[k].dimension_role_gid == records@[k].dimension_role_gid
        && res@[k].olap_entity_gid == records@[k].olap_entity_gid && res@[k].has_access
        == records@[k].has_access by {
        assert(accesses_view(res@)[k] == access_of(records@[k]));
    }
    res
}

} // verus!
