//! Capability dispatch and the generic typed wrapper over one identifier.
//!
//! A raw identifier enters the system, the capability's accepted kinds are
//! checked against the identifier's actual kind, the capability builds its
//! detail value, and a [`Handle`] takes ownership — producing an
//! [`Object<T>`] whose detail is consistent with the identifier's kind as
//! checked at construction time.

use vstd::prelude::*;
use vstd::string::*;
use crate::error::H5Error;
use crate::handle::Handle;
use crate::registry::{
    Hid, IdType, RegModel, Registry, H5I_INVALID_HID, m_count, m_decref, m_get_type, m_incref,
    m_live, m_wf,
};

verus! {

/// Which identifier kinds a capability accepts: any kind, exactly one, or
/// one of a fixed list.
#[derive(Clone, Debug)]
pub enum AllowTypes {
    Any,
    Just(IdType),
    OneOf(Vec<IdType>),
}

impl AllowTypes {
    /// Whether the matcher accepts every kind without a pre-check.
    pub open spec fn is_any(&self) -> bool {
        self is Any
    }

    /// Whether kind `t` is accepted.
    pub open spec fn spec_allows(&self, t: IdType) -> bool {
        match *self {
            AllowTypes::Any => true,
            AllowTypes::Just(c) => t == c,
            AllowTypes::OneOf(v) => v@.contains(t),
        }
    }

    pub fn allows(&self, t: IdType) -> (r: bool)
        ensures
            r == self.spec_allows(t),
    {
        match self {
            AllowTypes::Any => true,
            AllowTypes::Just(c) => t == *c,
            AllowTypes::OneOf(v) => {
                let mut i: usize = 0;
                while i < v.len()
                    invariant
                        i <= v.len(),
                        self.spec_allows(t) == v@.contains(t),
                        forall|j: int| 0 <= j < i ==> v@[j] != t,
                    decreases v.len() - i,
                {
                    if v[i] == t {
                        proof {
                            assert(v@.contains(t)) by {
                                assert(v@[i as int] == t);
                            }
                        }
                        return true;
                    }
                    i = i + 1;
                }
                proof {
                    assert(!v@.contains(t));
                }
                false
            },
        }
    }
}

/// One logical kind of resource: which identifier kinds it accepts, how its
/// detail value is validated and built from a raw identifier, its display
/// name, and a one-line description (empty when the capability supplies
/// none).
pub trait ObjectType: Sized {
    /// Whether the capability accepts any identifier kind without a
    /// pre-check.
    spec fn s_allow_any() -> bool;

    /// Which identifier kinds the capability accepts.
    spec fn s_allowed(t: IdType) -> bool;

    /// The display name.
    spec fn s_type_label() -> Seq<char>;

    /// What `from_id` decides for `id` against registry state `m`.
    spec fn s_from_id(m: RegModel, id: Hid) -> Result<Self, H5Error>;

    /// The one-line description of the object with identifier `id` under
    /// registry state `m`.
    spec fn s_describe(m: RegModel, id: Hid) -> Seq<char>;

    /// The static matcher of accepted identifier kinds.
    fn allow_types() -> (a: AllowTypes)
        ensures
            a.is_any() == Self::s_allow_any(),
            forall|t: IdType| a.spec_allows(t) == Self::s_allowed(t),
    ;

    /// Class-specific validation: builds the detail value from a raw
    /// identifier or fails with a descriptive error.
    fn from_id(reg: &Registry, id: Hid) -> (r: Result<Self, H5Error>)
        ensures
            r == Self::s_from_id(reg@, id),
    ;

    /// The fixed display name used in all diagnostic rendering.
    fn type_label() -> (s: &'static str)
        ensures
            s@ == Self::s_type_label(),
    ;

    /// A one-line description of the object with identifier `id`; the
    /// empty string means only the bare type name is shown.
    fn describe(reg: &Registry, id: Hid) -> (s: String)
        requires
            m_wf(reg@),
        ensures
            s@ == Self::s_describe(reg@, id),
    ;
}

/// Any resource that can be referenced through an identifier: one handle
/// paired with the capability's detail value, validated at construction.
#[derive(Debug)]
pub struct Object<T: ObjectType> {
    handle: Handle,
    detail: T,
}

/// Read access to the capability detail value of a typed object.
pub trait ObjectDetail<T: ObjectType> {
    /// The detail value.
    spec fn spec_detail(&self) -> T;

    fn detail(&self) -> (r: &T)
        ensures
            *r == self.spec_detail(),
    ;
}

impl<T: ObjectType> ObjectDetail<T> for Object<T> {
    closed spec fn spec_detail(&self) -> T {
        self.detail
    }

    fn detail(&self) -> (r: &T) {
        &self.detail
    }
}

/// Raw access to the underlying handle of a typed object.
pub trait ObjectID: Sized {
    /// The identifier the value was constructed from.
    spec fn s_id(&self) -> Hid;

    /// The identifier, or the invalid sentinel once the entry is freed.
    fn id(&self, reg: &Registry) -> (r: Hid)
        ensures
            r == (if m_live(reg@, self.s_id()) {
                self.s_id()
            } else {
                H5I_INVALID_HID
            }),
    ;

    /// Validates `id` and builds the typed value.
    fn from_id(reg: &Registry, id: Hid) -> (r: Result<Self, H5Error>)
        ensures
            r is Ok ==> m_live(reg@, id),
    ;

    /// Increments the shared reference count (a no-op once invalid).
    fn incref(&self, reg: &mut Registry)
        requires
            m_wf(old(reg)@),
            m_live(old(reg)@, self.s_id()) ==> m_count(old(reg)@, self.s_id()) < u64::MAX,
        ensures
            m_wf(final(reg)@),
            final(reg)@ == m_incref(old(reg)@, self.s_id()),
    ;

    /// Decrements the shared reference count (a safe no-op once invalid).
    fn decref(&self, reg: &mut Registry)
        requires
            m_wf(old(reg)@),
        ensures
            m_wf(final(reg)@),
            final(reg)@ == m_decref(old(reg)@, self.s_id()),
    ;
}

/// What the class-mismatch error of capability `T` carries: the actual kind
/// found, the capability's display name, and a matcher that accepts exactly
/// what the capability accepts.
pub open spec fn is_class_mismatch<T: ObjectType>(e: H5Error, actual: IdType) -> bool {
    e matches H5Error::ClassMismatch { type_label, expected, actual: a } && {
        &&& a == actual
        &&& type_label@ == T::s_type_label()
        &&& !expected.is_any()
        &&& forall|t: IdType| expected.spec_allows(t) == T::s_allowed(t)
    }
}

impl<T: ObjectType> ObjectID for Object<T> {
    closed spec fn s_id(&self) -> Hid {
        self.handle.s_id()
    }

    fn id(&self, reg: &Registry) -> (r: Hid) {
        self.handle.id(reg)
    }

    /// Composes capability validation with handle acquisition: the kind
    /// pre-check (skipped when the capability accepts any kind), the
    /// capability's own constructor, then the handle.  If either step
    /// fails, no handle is created.
    fn from_id(reg: &Registry, id: Hid) -> (r: Result<Object<T>, H5Error>)
        ensures
            ({
                let t = m_get_type(reg@, id);
                let pre_ok = T::s_allow_any() || T::s_allowed(t);
                &&& !pre_ok ==> (r matches Err(e) && is_class_mismatch::<T>(e, t))
                &&& pre_ok ==> match T::s_from_id(reg@, id) {
                    Result::Err(e) => r == Err::<Object<T>, H5Error>(e),
                    Result::Ok(d) => {
                        if m_live(reg@, id) {
                            r matches Ok(o) && o.s_id() == id && o.spec_detail() == d
                        } else {
                            r == Err::<Object<T>, H5Error>(H5Error::InvalidHandleId { id })
                        }
                    },
                }
            }),
    {
        let allow = T::allow_types();
        match &allow {
            AllowTypes::Any => {},
            _ => {
                let t = reg.get_type(id);
                if !allow.allows(t) {
                    return Err(
                        H5Error::ClassMismatch {
                            type_label: T::type_label(),
                            expected: allow,
                            actual: t,
                        },
                    );
                }
            },
        }
        let detail = match T::from_id(reg, id) {
            Ok(d) => d,
            Err(e) => {
                return Err(e);
            },
        };
        match Handle::new(reg, id) {
            Ok(handle) => Ok(Object { handle, detail }),
            Err(e) => Err(e),
        }
    }

    fn incref(&self, reg: &mut Registry) {
        self.handle.incref(reg);
    }

    fn decref(&self, reg: &mut Registry) {
        self.handle.decref(reg);
    }
}

impl<T: ObjectType> Object<T> {
    /// Crate-internal: pairs an already validated identifier with `detail`.
    pub(crate) fn from_parts(id: Hid, detail: T) -> (o: Object<T>)
        ensures
            o.s_id() == id,
            o.spec_detail() == detail,
    {
        Object { handle: Handle::from_raw(id), detail }
    }

    /// Returns the shared reference count, or 0 once the handle is invalid
    /// (a failure of the underlying count query is swallowed by design).
    pub fn refcount(&self, reg: &Registry) -> (c: u64)
        requires
            m_wf(reg@),
        ensures
            c as int == m_count(reg@, self.s_id()),
    {
        if self.handle.is_valid(reg) {
            match reg.get_ref(self.handle.id(reg)) {
                Some(c) => c,
                None => 0,
            }
        } else {
            0
        }
    }

    /// Whether the object still has a valid identifier.
    pub fn is_valid(&self, reg: &Registry) -> (r: bool)
        ensures
            r == m_live(reg@, self.s_id()),
    {
        self.handle.is_valid(reg)
    }

    /// The kind of the underlying identifier (`Badid` once invalid).
    pub fn id_type(&self, reg: &Registry) -> (t: IdType)
        requires
            m_wf(reg@),
        ensures
            t == m_get_type(reg@, self.s_id()),
    {
        reg.get_type(self.handle.id(reg))
    }
}

/// The uniform rendering of a typed object: an invalid object renders with
/// the fixed "invalid id" form whatever its earlier state; a valid object
/// renders its capability description, or the bare type name when that
/// description is empty.
pub open spec fn spec_repr<T: ObjectType>(m: RegModel, obj: Object<T>) -> Seq<char> {
    if !m_live(m, obj.s_id()) {
        "<HDF5 "@ + T::s_type_label() + ": invalid id>"@
    } else {
        let d = T::s_describe(m, obj.s_id());
        if d.len() == 0 {
            "<HDF5 "@ + T::s_type_label() + ">"@
        } else {
            "<HDF5 "@ + T::s_type_label() + ": "@ + d + ">"@
        }
    }
}

impl<T: ObjectType> Object<T> {
    /// Renders the object for diagnostics; never fails.
    pub fn repr(&self, reg: &Registry) -> (s: String)
        requires
            m_wf(reg@),
        ensures
            s@ == spec_repr(reg@, *self),
    {
        let mut s = String::from_str("<HDF5 ");
        s.append(T::type_label());
        if !self.is_valid(reg) {
            s.append(": invalid id>");
        } else {
            let d = T::describe(reg, self.id(reg));
            if d.as_str().is_empty() {
                s.append(">");
            } else {
                s.append(": ");
                s.append(d.as_str());
                s.append(">");
            }
        }
        proof {
            assert(s@ =~= spec_repr(reg@, *self));
        }
        s
    }
}

/// The generic "any object" capability: accepts every identifier kind and
/// carries no detail.
impl ObjectType for () {
    open spec fn s_allow_any() -> bool {
        true
    }

    open spec fn s_allowed(t: IdType) -> bool {
        true
    }

    open spec fn s_type_label() -> Seq<char> {
        "object"@
    }

    open spec fn s_from_id(m: RegModel, id: Hid) -> Result<(), H5Error> {
        Ok(())
    }

    open spec fn s_describe(m: RegModel, id: Hid) -> Seq<char> {
        Seq::empty()
    }

    fn allow_types() -> (a: AllowTypes) {
        AllowTypes::Any
    }

    fn from_id(reg: &Registry, id: Hid) -> (r: Result<(), H5Error>) {
        Ok(())
    }

    fn type_label() -> (s: &'static str) {
        "object"
    }

    fn describe(reg: &Registry, id: Hid) -> (s: String) {
        String::new()
    }
}

} // verus!
