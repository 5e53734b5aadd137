//! Typed errors and their diagnostic messages.
//!
//! Construction-time failures (class validation, handle acquisition) always
//! propagate as a value of [`H5Error`]; best-effort attribute accessors
//! swallow failures and return a neutral value instead.

use vstd::prelude::*;
use vstd::string::*;
use crate::object::AllowTypes;
use crate::registry::{Hid, IdType, TypeClass};

verus! {

/// Everything that can go wrong when building or using a typed wrapper.
#[derive(Debug)]
pub enum H5Error {
    /// The identifier names no live registry entry (in particular, it is
    /// the invalid sentinel).
    InvalidHandleId { id: Hid },
    /// The kind of resource the identifier names does not match what the
    /// capability accepts; carries both sides for diagnostics.
    ClassMismatch { type_label: &'static str, expected: AllowTypes, actual: IdType },
    /// A datatype's class is not the specific class a capability requires;
    /// carries both sides for diagnostics.
    TypeClassMismatch { expected: TypeClass, actual: TypeClass },
    /// The datatype reports no usable class (not yet committed, or the
    /// placeholder tag).
    UnsupportedClassTag,
    /// The datatype's class is recognized but not meaningful here.
    UnsupportedDatatype { class: TypeClass },
    /// A dataspace was given the unlimited sentinel as a current extent.
    UnlimitedCurrentDim,
    /// An underlying native call failed.
    NativeCall { message: &'static str },
}

/// The display name of an identifier kind.
pub open spec fn spec_id_type_label(t: IdType) -> Seq<char> {
    match t {
        IdType::Badid => "Badid"@,
        IdType::File => "File"@,
        IdType::Group => "Group"@,
        IdType::Datatype => "Datatype"@,
        IdType::Dataspace => "Dataspace"@,
        IdType::Dataset => "Dataset"@,
        IdType::Attr => "Attr"@,
        IdType::Proplist => "Proplist"@,
    }
}

pub fn id_type_label(t: IdType) -> (s: &'static str)
    ensures
        s@ == spec_id_type_label(t),
{
    match t {
        IdType::Badid => "Badid",
        IdType::File => "File",
        IdType::Group => "Group",
        IdType::Datatype => "Datatype",
        IdType::Dataspace => "Dataspace",
        IdType::Dataset => "Dataset",
        IdType::Attr => "Attr",
        IdType::Proplist => "Proplist",
    }
}

/// The display name of a datatype class.
pub open spec fn spec_type_class_name(c: TypeClass) -> Seq<char> {
    match c {
        TypeClass::NoClass => "NoClass"@,
        TypeClass::Integer => "Integer"@,
        TypeClass::Float => "Float"@,
        TypeClass::Time => "Time"@,
        TypeClass::Str => "Str"@,
        TypeClass::Compound => "Compound"@,
        TypeClass::Reference => "Reference"@,
        TypeClass::Nclasses => "Nclasses"@,
    }
}

pub fn type_class_name(c: TypeClass) -> (s: &'static str)
    ensures
        s@ == spec_type_class_name(c),
{
    match c {
        TypeClass::NoClass => "NoClass",
        TypeClass::Integer => "Integer",
        TypeClass::Float => "Float",
        TypeClass::Time => "Time",
        TypeClass::Str => "Str",
        TypeClass::Compound => "Compound",
        TypeClass::Reference => "Reference",
        TypeClass::Nclasses => "Nclasses",
    }
}

/// The rendering of a list of accepted identifier kinds.
pub open spec fn spec_join_id_types(s: Seq<IdType>) -> Seq<char>
    decreases s.len(),
{
    if s.len() == 0 {
        Seq::empty()
    } else if s.len() == 1 {
        spec_id_type_label(s[0])
    } else {
        spec_join_id_types(s.drop_last()) + ", "@ + spec_id_type_label(s.last())
    }
}

proof fn lemma_join_id_types_step(s: Seq<IdType>, i: int)
    requires
        0 <= i < s.len(),
    ensures
        i == 0 ==> spec_join_id_types(s.take(1)) == spec_id_type_label(s[0]),
        i > 0 ==> spec_join_id_types(s.take(i + 1)) == spec_join_id_types(s.take(i)) + ", "@
            + spec_id_type_label(s[i]),
{
    let t = s.take(i + 1);
    assert(t.drop_last() =~= s.take(i));
    assert(t.last() == s[i]);
}

/// The rendering of what a capability accepts.
pub open spec fn spec_allow_render(a: AllowTypes) -> Seq<char> {
    match a {
        AllowTypes::Any => "any"@,
        AllowTypes::Just(c) => spec_id_type_label(c),
        AllowTypes::OneOf(v) => "one of ["@ + spec_join_id_types(v@) + "]"@,
    }
}

fn render_allow(a: &AllowTypes) -> (s: String)
    ensures
        s@ == spec_allow_render(*a),
{
    match a {
        AllowTypes::Any => String::from_str("any"),
        AllowTypes::Just(c) => String::from_str(id_type_label(*c)),
        AllowTypes::OneOf(v) => {
            let mut s = String::from_str("one of [");
            let mut i: usize = 0;
            while i < v.len()
                invariant
                    i <= v.len(),
                    s@ == "one of ["@ + spec_join_id_types(v@.take(i as int)),
                decreases v.len() - i,
            {
                if i > 0 {
                    s.append(", ");
                }
                s.append(id_type_label(v[i]));
                proof {
                    lemma_join_id_types_step(v@, i as int);
                    assert(s@ =~= "one of ["@ + spec_join_id_types(v@.take(i as int + 1)));
                }
                i = i + 1;
            }
            s.append("]");
            proof {
                assert(v@.take(v@.len() as int) =~= v@);
                assert(s@ =~= spec_allow_render(*a));
            }
            s
        },
    }
}

impl H5Error {
    /// The diagnostic message of the error.
    pub open spec fn spec_message(&self) -> Seq<char> {
        match *self {
            H5Error::InvalidHandleId { .. } => "Invalid handle id"@,
            H5Error::ClassMismatch { type_label, expected, actual } => "Invalid "@ + type_label@
                + " id type: expected "@ + spec_allow_render(expected) + ", got "@
                + spec_id_type_label(actual),
            H5Error::TypeClassMismatch { expected, actual } => {
                "Invalid datatype class: expected "@ + spec_type_class_name(expected) + ", got "@
                    + spec_type_class_name(actual)
            },
            H5Error::UnsupportedClassTag => "Invalid datatype class"@,
            H5Error::UnsupportedDatatype { class } => "Unsupported datatype: "@
                + spec_type_class_name(class),
            H5Error::UnlimitedCurrentDim => "current dimension must have a specific size"@,
            H5Error::NativeCall { message } => message@,
        }
    }

    /// Renders the diagnostic message.
    pub fn message(&self) -> (s: String)
        ensures
            s@ == self.spec_message(),
    {
        match self {
            H5Error::InvalidHandleId { .. } => String::from_str("Invalid handle id"),
            H5Error::ClassMismatch { type_label, expected, actual } => {
                let mut s = String::from_str("Invalid ");
                s.append(type_label);
                s.append(" id type: expected ");
                let e = render_allow(expected);
                s.append(e.as_str());
                s.append(", got ");
                s.append(id_type_label(*actual));
                proof {
                    assert(s@ =~= self.spec_message());
                }
                s
            },
            H5Error::TypeClassMismatch { expected, actual } => {
                let mut s = String::from_str("Invalid datatype class: expected ");
                s.append(type_class_name(*expected));
                s.append(", got ");
                s.append(type_class_name(*actual));
                proof {
                    assert(s@ =~= self.spec_message());
                }
                s
            },
            H5Error::UnsupportedClassTag => String::from_str("Invalid datatype class"),
            H5Error::UnsupportedDatatype { class } => {
                let mut s = String::from_str("Unsupported datatype: ");
                s.append(type_class_name(*class));
                proof {
                    assert(s@ =~= self.spec_message());
                }
                s
            },
            H5Error::UnlimitedCurrentDim => {
                String::from_str("current dimension must have a specific size")
            },
            H5Error::NativeCall { message } => String::from_str(message),
        }
    }
}

} // verus!
