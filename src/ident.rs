use vstd::prelude::*;

use crate::text::{dec_text, decimal};

verus! {

/// What an owner or group column shows: the name found in the identity
/// database, or else the id in decimal.
pub open spec fn id_text(id: u32, name: Option<Seq<char>>) -> Seq<char> {
    match name {
        Some(n) => n,
        None => dec_text(id as nat),
    }
}

/// The view of an optional name.
pub open spec fn name_view(name: Option<String>) -> Option<Seq<char>> {
    match name {
        Some(n) => Some(n@),
        None => None,
    }
}

/// Relies on `users::get_user_by_uid` and `User::name`: the account name of
/// `uid`, if the system knows one. What comes back depends on the system's
/// user database, so nothing is promised of it.
#[verifier::external_body]
pub(crate) fn lookup_user_name(uid: u32) -> Option<String> {
    users::get_user_by_uid(uid).map(|u| u.name().to_string_lossy().into_owned())
}

/// Relies on `users::get_group_by_gid` and `Group::name`: the group name of
/// `gid`, if the system knows one. What comes back depends on the system's
/// group database, so nothing is promised of it.
#[verifier::external_body]
pub(crate) fn lookup_group_name(gid: u32) -> Option<String> {
    users::get_group_by_gid(gid).map(|g| g.name().to_string_lossy().into_owned())
}

/// The column text for `id` given the outcome of its lookup.
pub fn id_field(id: u32, name: Option<String>) -> (r: String)
    ensures
        r@ == id_text(id, name_view(name)),
{
    match name {
        Some(n) => n,
        None => decimal(id as u64),
    }
}

} // verus!
