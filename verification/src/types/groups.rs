//! Data types of the groups API.

use vstd::prelude::*;

verus! {

#[derive(Debug, Clone)]
pub struct EntityKey {
    pub id: Option<String>,
    pub namespace: Option<String>,
}

#[derive(Debug, Clone)]
pub struct GroupMember {
    pub name: Option<String>,
    pub preferred_member_key: Option<EntityKey>,
    pub member_type: Option<String>,
    pub create_time: Option<String>,
    pub update_time: Option<String>,
    pub roles: Vec<MemberRole>,
}

#[derive(Debug, Clone)]
pub struct MemberRole {
    pub name: Option<String>,
    pub expiry_detail: Option<ExpiryDetail>,
}

#[derive(Debug, Clone)]
pub struct ExpiryDetail {
    pub expire_time: Option<String>,
}

} // verus!
