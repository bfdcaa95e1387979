use euclidolap::axis::{Axis, TupleSet};
use euclidolap::gid::GidType;
use euclidolap::mdd::{AstExpression, DimensionRole, Level, LevelRole, Member, MemberRole};
use euclidolap::tuple::TupleVector;

fn dim_role(gid: u64) -> DimensionRole {
    DimensionRole { gid, dimension_gid: gid + 10, default_hierarchy_gid: gid + 20, measure_flag: false }
}

fn member(gid: u64, name: &str) -> Member {
    Member {
        gid,
        name: name.to_string(),
        level_gid: 400000000000001,
        level: 1,
        parent_gid: 0,
        measure_index: 0,
        leaf: true,
        full_path: vec![gid],
    }
}

fn base(dr: u64, gid: u64) -> MemberRole {
    MemberRole::BaseMember { dim_role: dim_role(dr), member: member(gid, "m") }
}

fn formula(dr: u64, text: &str) -> MemberRole {
    MemberRole::FormulaMember { dim_role_gid: dr, exp: AstExpression { text: text.to_string() } }
}

/// (dimension role gid, member gid) of each member role; formula members give 0.
fn shape(t: &TupleVector) -> Vec<(u64, u64)> {
    t.member_roles
        .iter()
        .map(|m| match m {
            MemberRole::BaseMember { dim_role, member } => (dim_role.gid, member.gid),
            MemberRole::FormulaMember { dim_role_gid, .. } => (*dim_role_gid, 0),
        })
        .collect()
}

fn tuple(parts: &[(u64, u64)]) -> TupleVector {
    TupleVector { member_roles: parts.iter().map(|(d, g)| base(*d, *g)).collect() }
}

fn axis(tuples: Vec<TupleVector>, pos_num: u32) -> Axis {
    Axis { set: TupleSet { tuples }, pos_num }
}

#[test]
fn entity_type_of_each_band() {
    assert_eq!(GidType::entity_type(100000000000001), GidType::Dimension);
    assert_eq!(GidType::entity_type(200000000000001), GidType::Hierarchy);
    assert_eq!(GidType::entity_type(300000000000001), GidType::Member);
    assert_eq!(GidType::entity_type(400000000000001), GidType::Level);
    assert_eq!(GidType::entity_type(500000000000001), GidType::Cube);
    assert_eq!(GidType::entity_type(600000000000001), GidType::DimensionRole);
    assert_eq!(GidType::entity_type(700000000000001), GidType::FormulaMember);
}

#[test]
fn entity_type_band_edges() {
    assert_eq!(GidType::entity_type(100000000000000), GidType::Dimension);
    assert_eq!(GidType::entity_type(199999999999999), GidType::Dimension);
    assert_eq!(GidType::entity_type(799999999999999), GidType::FormulaMember);
    assert_eq!(GidType::entity_type(300000000012345), GidType::entity_type(399999999999999));
}

#[test]
fn level_role_new_keeps_parts() {
    let level = Level {
        gid: 400000000000007,
        name: "Year".to_string(),
        level: 1,
        dimension_gid: 100000000000002,
        hierarchy_gid: 200000000000003,
        opening_period_gid: 0,
        closing_period_gid: 0,
    };
    let lr = LevelRole::new(dim_role(600000000000001), level);
    assert_eq!(lr.dim_role, dim_role(600000000000001));
    assert_eq!(lr.level.gid, 400000000000007);
    assert_eq!(lr.level.name, "Year");
    let copy = lr.clone();
    assert_eq!(copy.level.name, "Year");
    assert_eq!(copy.dim_role.gid, 600000000000001);
}

#[test]
fn dim_role_gid_of_both_kinds() {
    assert_eq!(base(600000000000004, 300000000000001).get_dim_role_gid(), 600000000000004);
    assert_eq!(formula(600000000000009, "[A] + [B]").get_dim_role_gid(), 600000000000009);
}

#[test]
fn member_clone_keeps_fields() {
    let m = Member { full_path: vec![300000000000001, 300000000000002], ..member(300000000000002, "Q1") };
    let c = m.clone();
    assert_eq!(c.gid, m.gid);
    assert_eq!(c.name, "Q1");
    assert_eq!(c.full_path, vec![300000000000001, 300000000000002]);
    assert_eq!(c.leaf, m.leaf);
}

#[test]
fn merge_replaces_same_dimension_role_in_place() {
    let left = tuple(&[(1, 11), (2, 21), (3, 31)]);
    let right = tuple(&[(2, 22)]);
    assert_eq!(shape(&left.merge(&right)), vec![(1, 11), (2, 22), (3, 31)]);
}

#[test]
fn merge_appends_new_dimension_roles_in_order() {
    let left = tuple(&[(1, 11)]);
    let right = tuple(&[(3, 31), (2, 21), (1, 12)]);
    assert_eq!(shape(&left.merge(&right)), vec![(1, 12), (3, 31), (2, 21)]);
}

#[test]
fn merge_with_empty_tuples() {
    let left = tuple(&[(1, 11), (2, 21)]);
    let empty = tuple(&[]);
    assert_eq!(shape(&left.merge(&empty)), vec![(1, 11), (2, 21)]);
    assert_eq!(shape(&empty.merge(&left)), vec![(1, 11), (2, 21)]);
}

#[test]
fn merge_later_member_of_same_role_wins() {
    let left = tuple(&[]);
    let right = tuple(&[(5, 51), (5, 52)]);
    assert_eq!(shape(&left.merge(&right)), vec![(5, 52)]);
}

#[test]
fn merge_keeps_formula_members() {
    let left = TupleVector { member_roles: vec![formula(1, "x"), base(2, 21)] };
    let right = tuple(&[(2, 22)]);
    let m = left.merge(&right);
    match &m.member_roles[0] {
        MemberRole::FormulaMember { dim_role_gid, exp } => {
            assert_eq!(*dim_role_gid, 1);
            assert_eq!(exp.text, "x");
        }
        _ => panic!("expected a formula member"),
    }
    assert_eq!(shape(&m), vec![(1, 0), (2, 22)]);
}

#[test]
fn single_axis_gives_its_tuples_unmerged() {
    let axes = vec![axis(vec![tuple(&[(1, 11)]), tuple(&[(1, 12)])], 0)];
    let slice = tuple(&[(9, 91)]);
    let coords = Axis::axis_vec_cartesian_product(&axes, &slice);
    assert_eq!(coords.len(), 2);
    assert_eq!(shape(&coords[0]), vec![(1, 11)]);
    assert_eq!(shape(&coords[1]), vec![(1, 12)]);
}

#[test]
fn two_axes_row_major_in_slice() {
    let axes = vec![
        axis(vec![tuple(&[(1, 11)]), tuple(&[(1, 12)])], 0),
        axis(vec![tuple(&[(2, 21)]), tuple(&[(2, 22)]), tuple(&[(2, 23)])], 1),
    ];
    let slice = tuple(&[(2, 20), (9, 91), (1, 10)]);
    let coords = Axis::axis_vec_cartesian_product(&axes, &slice);
    let got: Vec<Vec<(u64, u64)>> = coords.iter().map(shape).collect();
    assert_eq!(
        got,
        vec![
            vec![(2, 21), (9, 91), (1, 11)],
            vec![(2, 22), (9, 91), (1, 11)],
            vec![(2, 23), (9, 91), (1, 11)],
            vec![(2, 21), (9, 91), (1, 12)],
            vec![(2, 22), (9, 91), (1, 12)],
            vec![(2, 23), (9, 91), (1, 12)],
        ]
    );
}

#[test]
fn three_axes_count_is_product_of_sizes() {
    let axes = vec![
        axis(vec![tuple(&[(1, 11)]), tuple(&[(1, 12)])], 0),
        axis(vec![tuple(&[(2, 21)]), tuple(&[(2, 22)]), tuple(&[(2, 23)])], 1),
        axis(vec![tuple(&[(3, 31)]), tuple(&[(3, 32)]), tuple(&[(3, 33)]), tuple(&[(3, 34)])], 2),
    ];
    let coords = Axis::axis_vec_cartesian_product(&axes, &tuple(&[]));
    assert_eq!(coords.len(), 24);
    assert_eq!(shape(&coords[0]), vec![(1, 11), (2, 21), (3, 31)]);
    assert_eq!(shape(&coords[23]), vec![(1, 12), (2, 23), (3, 34)]);
    // row i of the first two axes, column j of the last: position i * 4 + j
    assert_eq!(shape(&coords[1 * 4 + 2]), vec![(1, 11), (2, 22), (3, 33)]);
}

#[test]
fn an_empty_axis_spans_no_coordinates() {
    let axes = vec![axis(vec![tuple(&[(1, 11)])], 0), axis(vec![], 1)];
    let coords = Axis::axis_vec_cartesian_product(&axes, &tuple(&[(9, 91)]));
    assert_eq!(coords.len(), 0);
}

#[test]
fn tuple_set_clone_keeps_tuples() {
    let s = TupleSet { tuples: vec![tuple(&[(1, 11), (2, 21)]), tuple(&[(1, 12)])] };
    let c = s.clone();
    assert_eq!(c.tuples.iter().map(shape).collect::<Vec<_>>(), vec![vec![(1, 11), (2, 21)], vec![(1, 12)]]);
}

#[test]
fn equality_follows_values() {
    assert_eq!(tuple(&[(1, 11), (2, 21)]), tuple(&[(1, 11), (2, 21)]));
    assert_ne!(tuple(&[(1, 11), (2, 21)]), tuple(&[(2, 21), (1, 11)]));
    assert_ne!(tuple(&[(1, 11)]), tuple(&[(1, 11), (2, 21)]));
    assert_eq!(formula(3, "a"), formula(3, "a"));
    assert_ne!(formula(3, "a"), formula(3, "b"));
    assert_ne!(formula(3, "a"), base(3, 31));
    let m = member(300000000000009, "X");
    let mut n = m.clone();
    assert_eq!(m, n);
    n.full_path.push(1);
    assert_ne!(m, n);
    let s1 = TupleSet { tuples: vec![tuple(&[(1, 11)])] };
    assert_eq!(s1, s1.clone());
    assert_ne!(s1, TupleSet { tuples: vec![] });
}

#[test]
fn merged_coordinate_names_each_dimension_role_once() {
    let left = tuple(&[(1, 11), (2, 21), (3, 31)]);
    let right = tuple(&[(4, 41), (2, 22), (5, 51), (1, 12)]);
    let m = shape(&left.merge(&right));
    let mut roles: Vec<u64> = m.iter().map(|(d, _)| *d).collect();
    roles.sort();
    assert_eq!(roles, vec![1, 2, 3, 4, 5]);
    // the right tuple wins, the rest of the left tuple keeps its place
    for r in [(4, 41), (2, 22), (5, 51), (1, 12)] {
        assert!(m.contains(&r));
    }
    assert_eq!(m[2], (3, 31));
}
