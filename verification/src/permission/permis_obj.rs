//! One access right of a user.
use vstd::prelude::*;
use vstd::std_specs::cmp::PartialEqSpecImpl;

verus! {

/// Whether a user may access one OLAP entity through one dimension role.
#[derive(Debug)]
pub struct UserOlapModelAccess {
    pub id: u64,
    pub user_name: String,
    pub permission_scope: String,
    pub dimension_role_gid: u64,
    pub olap_entity_gid: u64,
    pub has_access: bool,
}

/// The mathematical value of a [`UserOlapModelAccess`].
pub struct UserOlapModelAccessView {
    pub id: u64,
    pub user_name: Seq<char>,
    pub permission_scope: Seq<char>,
    pub dimension_role_gid: u64,
    pub olap_entity_gid: u64,
    pub has_access: bool,
}

impl View for UserOlapModelAccess {
    type V = UserOlapModelAccessView;

    open spec fn view(&self) -> UserOlapModelAccessView {
        UserOlapModelAccessView {
            id: self.id,
            user_name: self.user_name@,
            permission_scope: self.permission_scope@,
            dimension_role_gid: self.dimension_role_gid,
            olap_entity_gid: self.olap_entity_gid,
            has_access: self.has_access,
        }
    }
}

impl Clone for UserOlapModelAccess {
    fn clone(&self) -> (res: Self)
        ensures
            res@ == self@,
    {
        UserOlapModelAccess {
            id: self.id,
            user_name: self.user_name.clone(),
            permission_scope: self.permission_scope.clone(),
            dimension_role_gid: self.dimension_role_gid,
            olap_entity_gid: self.olap_entity_gid,
            has_access: self.has_access,
        }
    }
}

impl PartialEq for UserOlapModelAccess {
    fn eq(&self, other: &Self) -> (res: bool) {
        self.id == other.id && self.user_name == other.user_name && self.permission_scope
            == other.permission_scope && self.dimension_role_gid == other.dimension_role_gid
            && self.olap_entity_gid == other.olap_entity_gid && self.has_access
            == other.has_access
    }
}

impl PartialEqSpecImpl for UserOlapModelAccess {
    open spec fn obeys_eq_spec() -> bool {
        true
    }

    open spec fn eq_spec(&self, other: &Self) -> bool {
        self@ == other@
    }
}

} // verus!
