//! The group capability: a typed wrapper over group identifiers, described
//! by the group's absolute name and member count.

use vstd::prelude::*;
use vstd::string::*;
use crate::error::H5Error;
use crate::object::{AllowTypes, Object, ObjectType};
use crate::registry::{
    Hid, IdType, RegModel, Registry, m_group_members, m_group_name,
};
use crate::render::{dec_digits, fmt_usize};

verus! {

/// The member-count phrase of a group description.
pub open spec fn spec_members_text(n: usize) -> Seq<char> {
    if n == 0 {
        "empty"@
    } else if n == 1 {
        "1 member"@
    } else {
        dec_digits(n as nat) + " members"@
    }
}

/// The description of a group: its absolute name in quotes, then its member
/// count in parentheses.
pub open spec fn spec_group_desc(name: Seq<char>, members: usize) -> Seq<char> {
    "\""@ + name + "\" ("@ + spec_members_text(members) + ")"@
}

fn members_text(n: usize) -> (s: String)
    ensures
        s@ == spec_members_text(n),
{
    if n == 0 {
        String::from_str("empty")
    } else if n == 1 {
        String::from_str("1 member")
    } else {
        let mut s = fmt_usize(n);
        s.append(" members");
        proof {
            assert(s@ =~= spec_members_text(n));
        }
        s
    }
}

/// The group capability: the identifier must be a group; no further
/// validation.
#[derive(Clone, Copy, PartialEq, Eq, Structural, Debug)]
pub struct GroupID;

impl ObjectType for GroupID {
    open spec fn s_allow_any() -> bool {
        false
    }

    open spec fn s_allowed(t: IdType) -> bool {
        t == IdType::Group
    }

    open spec fn s_type_label() -> Seq<char> {
        "group"@
    }

    open spec fn s_from_id(m: RegModel, id: Hid) -> Result<GroupID, H5Error> {
        Ok(GroupID)
    }

    open spec fn s_describe(m: RegModel, id: Hid) -> Seq<char> {
        match (m_group_name(m, id), m_group_members(m, id)) {
            (Some(n), Some(c)) => spec_group_desc(n, c),
            _ => spec_group_desc(Seq::empty(), 0),
        }
    }

    fn allow_types() -> (a: AllowTypes) {
        AllowTypes::Just(IdType::Group)
    }

    fn from_id(reg: &Registry, id: Hid) -> (r: Result<GroupID, H5Error>) {
        Ok(GroupID)
    }

    fn type_label() -> (s: &'static str) {
        "group"
    }

    fn describe(reg: &Registry, id: Hid) -> (s: String) {
        let name: String = match reg.group_name(id) {
            Some(n) => n,
            None => String::new(),
        };
        let members: usize = match reg.group_members(id) {
            Some(c) => c,
            None => 0,
        };
        let mut s = String::from_str("\"");
        s.append(name.as_str());
        s.append("\" (");
        let m = members_text(members);
        s.append(m.as_str());
        s.append(")");
        proof {
            assert(s@ =~= Self::s_describe(reg@, id));
        }
        s
    }
}

/// A group object.
pub type Group = Object<GroupID>;

} // verus!
