use euclidolap::axis::TupleSet;
use euclidolap::locate::{
    find_step, ByGidStep, DimRoleStep, ExpFnKind, FindStep, FoundKind, MemberRoleStep, NextStep,
    SegKind, SetStep,
};
use euclidolap::mdd::{Cube, DimensionRole, Member, MemberRole};
use euclidolap::meta::{grpc_to_olap_member, is_member_entity, member_from_universal_olap_entity, UniversalOlapEntity};
use euclidolap::permission::permis_obj::UserOlapModelAccess;
use euclidolap::permission::UserAccessesCollection;

fn entity(class: &str) -> UniversalOlapEntity {
    UniversalOlapEntity {
        gid: 300000000000042,
        name: "Beijing".to_string(),
        olap_entity_class: class.to_string(),
        level: 2,
        level_gid: 400000000000003,
        measure_index: 0,
        parent_gid: 300000000000007,
        leaf: true,
        member_gid_full_path: vec![300000000000001, 300000000000007, 300000000000042],
    }
}

fn check_member(m: &Member) {
    assert_eq!(m.gid, 300000000000042);
    assert_eq!(m.name, "Beijing");
    assert_eq!(m.level, 2);
    assert_eq!(m.level_gid, 400000000000003);
    assert_eq!(m.parent_gid, 300000000000007);
    assert_eq!(m.measure_index, 0);
    assert!(m.leaf);
    assert_eq!(m.full_path, vec![300000000000001, 300000000000007, 300000000000042]);
}

#[test]
fn grpc_member_keeps_every_field() {
    check_member(&grpc_to_olap_member(entity("Member")));
}

#[test]
fn member_entity_class() {
    assert!(is_member_entity(&entity("Member")));
    assert!(!is_member_entity(&entity("Level")));
    assert!(!is_member_entity(&entity("member")));
    assert!(!is_member_entity(&entity("Members")));
    assert!(!is_member_entity(&entity("")));
    check_member(&member_from_universal_olap_entity(&entity("Member")));
}

#[test]
fn set_locate_steps() {
    assert_eq!(TupleSet::locate_step(&vec![SegKind::ExpFunc(ExpFnKind::Sum)]), SetStep::Aggregate(ExpFnKind::Sum));
    assert_eq!(TupleSet::locate_step(&vec![SegKind::ExpFunc(ExpFnKind::Avg)]), SetStep::Aggregate(ExpFnKind::Avg));
    assert_eq!(TupleSet::locate_step(&vec![SegKind::ExpFunc(ExpFnKind::Count)]), SetStep::Aggregate(ExpFnKind::Count));
    assert_eq!(
        TupleSet::locate_step(&vec![SegKind::ExpFunc(ExpFnKind::Max), SegKind::Str]),
        SetStep::Unsupported
    );
    assert_eq!(TupleSet::locate_step(&vec![SegKind::ExpFunc(ExpFnKind::LookupCube)]), SetStep::Unsupported);
    assert_eq!(TupleSet::locate_step(&vec![SegKind::MemberFunc]), SetStep::Unsupported);
    assert_eq!(TupleSet::locate_step(&vec![]), SetStep::Unsupported);
}

#[test]
fn member_role_locate_steps() {
    assert_eq!(MemberRole::locate_step(&vec![SegKind::MemberFunc, SegKind::Str]), MemberRoleStep::GetMember);
    assert_eq!(MemberRole::locate_step(&vec![SegKind::SetFunc]), MemberRoleStep::GetSet);
    assert_eq!(
        MemberRole::locate_step(&vec![SegKind::SetFunc, SegKind::ExpFunc(ExpFnKind::Sum)]),
        MemberRoleStep::GetSetThenLocate
    );
    assert_eq!(MemberRole::locate_step(&vec![SegKind::LevelFunc]), MemberRoleStep::GetLevelRole);
    assert_eq!(MemberRole::locate_step(&vec![SegKind::LevelFunc, SegKind::SetFunc]), MemberRoleStep::Unsupported);
    assert_eq!(
        MemberRole::locate_step(&vec![SegKind::ExpFunc(ExpFnKind::Other)]),
        MemberRoleStep::Evaluate(ExpFnKind::Other)
    );
    assert_eq!(
        MemberRole::locate_step(&vec![SegKind::ExpFunc(ExpFnKind::Min), SegKind::Str]),
        MemberRoleStep::Unsupported
    );
    assert_eq!(MemberRole::locate_step(&vec![SegKind::Gid(300000000000001)]), MemberRoleStep::Unsupported);
    assert_eq!(MemberRole::locate_step(&vec![]), MemberRoleStep::Unsupported);
}

#[test]
fn dimension_role_steps() {
    assert_eq!(
        DimensionRole::locate_step(&vec![SegKind::Gid(300000000000005), SegKind::SetFunc]),
        DimRoleStep::LocateByGid(300000000000005)
    );
    assert_eq!(DimensionRole::locate_step(&vec![SegKind::LevelFunc]), DimRoleStep::GetLevelRole);
    assert_eq!(DimensionRole::locate_step(&vec![SegKind::MemberFunc]), DimRoleStep::GetMember);
    assert_eq!(DimensionRole::locate_step(&vec![SegKind::Str]), DimRoleStep::Unsupported);
    assert_eq!(DimensionRole::locate_step(&vec![SegKind::SetFunc]), DimRoleStep::Unsupported);
    assert_eq!(DimensionRole::locate_step(&vec![]), DimRoleStep::Unsupported);

    assert_eq!(DimensionRole::next_step(FoundKind::MemberRole, 1), NextStep::Done);
    assert_eq!(DimensionRole::next_step(FoundKind::MemberRole, 3), NextStep::LocateFromMemberRole);
    assert_eq!(DimensionRole::next_step(FoundKind::LevelRole, 1), NextStep::Done);
    assert_eq!(DimensionRole::next_step(FoundKind::LevelRole, 2), NextStep::Unsupported);
    assert_eq!(DimensionRole::next_step(FoundKind::Other, 1), NextStep::Unsupported);

    assert_eq!(DimensionRole::by_gid_step(300000000000005), ByGidStep::LocateMember);
    assert_eq!(DimensionRole::by_gid_step(400000000000005), ByGidStep::GetLevel);
    assert_eq!(DimensionRole::by_gid_step(100000000000005), ByGidStep::Unsupported);
    assert_eq!(DimensionRole::by_gid_step(5), ByGidStep::Unsupported);
    assert_eq!(DimensionRole::by_gid_step(u64::MAX), ByGidStep::Unsupported);
}

#[test]
fn dimension_role_member_role() {
    let dr = DimensionRole { gid: 600000000000002, dimension_gid: 100000000000002, default_hierarchy_gid: 200000000000002, measure_flag: true };
    let mr = dr.member_role(grpc_to_olap_member(entity("Member")));
    assert_eq!(mr.get_dim_role_gid(), 600000000000002);
    match mr {
        MemberRole::BaseMember { dim_role, member } => {
            assert_eq!(dim_role, dr);
            check_member(&member);
        }
        _ => panic!("expected a base member"),
    }
}

#[test]
fn cube_and_context_steps() {
    assert!(Cube::locate_is_lookup(&vec![SegKind::ExpFunc(ExpFnKind::LookupCube)]));
    assert!(!Cube::locate_is_lookup(&vec![SegKind::ExpFunc(ExpFnKind::Sum)]));
    assert!(!Cube::locate_is_lookup(&vec![SegKind::ExpFunc(ExpFnKind::LookupCube), SegKind::Str]));
    assert!(!Cube::locate_is_lookup(&vec![]));

    assert_eq!(find_step(600000000000001), FindStep::DimensionRole);
    assert_eq!(find_step(500000000000001), FindStep::Cube);
    assert_eq!(find_step(300000000000001), FindStep::Unsupported);
    assert_eq!(find_step(0), FindStep::Unsupported);
    let c = Cube { gid: 500000000000001, name: "Sales".to_string() };
    assert_eq!(c.clone().name, "Sales");
}

#[test]
fn access_records() {
    let a = UserOlapModelAccess {
        id: 1,
        user_name: "alice".to_string(),
        permission_scope: "read".to_string(),
        dimension_role_gid: 600000000000001,
        olap_entity_gid: 300000000000001,
        has_access: true,
    };
    let c = a.clone();
    assert_eq!(c.user_name, "alice");
    assert_eq!(c.permission_scope, "read");
    assert_eq!(c.dimension_role_gid, 600000000000001);
    assert!(c.has_access);
    let u = UserAccessesCollection {};
    let _copy = u;
    let _again = u;
}

use euclidolap::meta::{
    accesses_from_grpc, cubes_from_grpc, dimension_role_from_grpc, dimension_roles_from_grpc, levels_from_grpc,
    members_from_grpc, GrpcDimensionRole, GrpcLevel, GrpcUserOlapModelAccess,
};

#[test]
fn dimension_roles_from_records() {
    let recs = vec![
        GrpcDimensionRole { gid: 600000000000001, dimension_gid: 100000000000001, default_hierarchy_gid: 200000000000001, measure_flag: 1 },
        GrpcDimensionRole { gid: 600000000000002, dimension_gid: 100000000000002, default_hierarchy_gid: 200000000000002, measure_flag: 0 },
        GrpcDimensionRole { gid: 600000000000003, dimension_gid: 100000000000003, default_hierarchy_gid: 200000000000003, measure_flag: 2 },
    ];
    let drs = dimension_roles_from_grpc(&recs);
    assert_eq!(drs.len(), 3);
    assert!(drs[0].measure_flag);
    assert!(!drs[1].measure_flag);
    assert!(!drs[2].measure_flag);
    assert_eq!(drs[1].gid, 600000000000002);
    assert_eq!(drs[1].dimension_gid, 100000000000002);
    assert_eq!(drs[1].default_hierarchy_gid, 200000000000002);
    assert_eq!(dimension_role_from_grpc(&recs[0]), drs[0]);
    assert!(dimension_roles_from_grpc(&vec![]).is_empty());
}

#[test]
fn levels_members_cubes_from_records() {
    let levels = levels_from_grpc(&vec![GrpcLevel {
        gid: 400000000000001,
        name: "Month".to_string(),
        level: 2,
        dimension_gid: 100000000000001,
        hierarchy_gid: 200000000000001,
        opening_period_gid: 300000000000010,
        closing_period_gid: 300000000000020,
    }]);
    assert_eq!(levels.len(), 1);
    assert_eq!(levels[0].name, "Month");
    assert_eq!(levels[0].level, 2);
    assert_eq!(levels[0].opening_period_gid, 300000000000010);
    assert_eq!(levels[0].closing_period_gid, 300000000000020);

    let members = members_from_grpc(&vec![entity("Member"), entity("Member")]);
    assert_eq!(members.len(), 2);
    check_member(&members[1]);

    let cubes = cubes_from_grpc(&vec![entity("Cube")]);
    assert_eq!(cubes, vec![Cube { gid: 300000000000042, name: "Beijing".to_string() }]);
}

#[test]
fn accesses_from_records() {
    let recs = vec![GrpcUserOlapModelAccess {
        id: 7,
        user_name: "bob".to_string(),
        permission_scope: "write".to_string(),
        dimension_role_gid: 600000000000003,
        olap_entity_gid: 300000000000004,
        has_access: false,
    }];
    let acc = accesses_from_grpc(&recs);
    assert_eq!(
        acc,
        vec![UserOlapModelAccess {
            id: 7,
            user_name: "bob".to_string(),
            permission_scope: "write".to_string(),
            dimension_role_gid: 600000000000003,
            olap_entity_gid: 300000000000004,
            has_access: false,
        }]
    );
}

use euclidolap::locate::{tail_segments, walk_path, Action, Locus};

#[test]
fn tail_of_a_path() {
    let segs = vec![SegKind::Gid(300000000000001), SegKind::SetFunc, SegKind::ExpFunc(ExpFnKind::Sum)];
    assert_eq!(tail_segments(&segs), vec![SegKind::SetFunc, SegKind::ExpFunc(ExpFnKind::Sum)]);
    assert_eq!(tail_segments(&vec![SegKind::Str]), vec![]);
    assert_eq!(tail_segments(&vec![]), vec![]);
}

#[test]
fn member_request_of_a_dimension_role() {
    let dr = DimensionRole { gid: 600000000000004, dimension_gid: 1, default_hierarchy_gid: 2, measure_flag: false };
    let req = dr.locate_member_request(300000000000009);
    assert_eq!(req.origin_gid, 600000000000004);
    assert_eq!(req.target_entity_gid, 300000000000009);
    assert_eq!(req.target_entity_name, "");
}

#[test]
fn walk_from_dimension_role_to_set_aggregate() {
    let segs = vec![SegKind::Gid(300000000000001), SegKind::SetFunc, SegKind::ExpFunc(ExpFnKind::Sum)];
    let steps = walk_path(Locus::DimensionRole, &segs, &vec![FoundKind::MemberRole, FoundKind::Other]);
    assert_eq!(
        steps,
        vec![
            Action::FromDimensionRole(DimRoleStep::LocateByGid(300000000000001)),
            Action::FromMemberRole(MemberRoleStep::GetSetThenLocate),
            Action::FromSet(SetStep::Aggregate(ExpFnKind::Sum)),
        ]
    );
}

#[test]
fn walk_stops_where_the_path_ends_or_is_unsupported() {
    // a level role found with more segments left is unsupported: the walk stops
    let segs = vec![SegKind::LevelFunc, SegKind::MemberFunc];
    let steps = walk_path(Locus::DimensionRole, &segs, &vec![FoundKind::LevelRole]);
    assert_eq!(steps, vec![Action::FromDimensionRole(DimRoleStep::GetLevelRole)]);
    // a member role found by the last segment ends the walk
    let steps = walk_path(Locus::DimensionRole, &vec![SegKind::MemberFunc], &vec![FoundKind::MemberRole]);
    assert_eq!(steps, vec![Action::FromDimensionRole(DimRoleStep::GetMember)]);
    // no report counts as neither a member nor a level role
    let steps = walk_path(Locus::DimensionRole, &vec![SegKind::MemberFunc, SegKind::SetFunc], &vec![]);
    assert_eq!(steps, vec![Action::FromDimensionRole(DimRoleStep::GetMember)]);
    // member role -> set -> aggregate, starting at a member role
    let steps = walk_path(
        Locus::MemberRole,
        &vec![SegKind::SetFunc, SegKind::ExpFunc(ExpFnKind::Count)],
        &vec![],
    );
    assert_eq!(
        steps,
        vec![
            Action::FromMemberRole(MemberRoleStep::GetSetThenLocate),
            Action::FromSet(SetStep::Aggregate(ExpFnKind::Count)),
        ]
    );
    let steps = walk_path(Locus::Cube, &vec![SegKind::ExpFunc(ExpFnKind::LookupCube)], &vec![]);
    assert_eq!(steps, vec![Action::FromCube(true)]);
    let steps = walk_path(Locus::TupleSet, &vec![], &vec![]);
    assert_eq!(steps, vec![Action::FromSet(SetStep::Unsupported)]);
}
