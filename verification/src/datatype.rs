//! The datatype subsystem: atomic-datatype classification (integer/float),
//! the native-scalar-to-datatype mapping keyed by byte order, and
//! equality/introspection operations.

use vstd::prelude::*;
use vstd::string::*;
use crate::error::H5Error;
use crate::object::{AllowTypes, Object, ObjectDetail, ObjectID, ObjectType};
use crate::registry::{
    ByteOrder, DataModel, DatatypeDesc, Hid, IdType, RegModel, Registry, Sign, TypeClass,
    m_create, m_type_class, m_type_desc, m_wf,
};
use crate::render::{dec_digits, fmt_usize};

verus! {

/// A marker for all datatype capabilities.
pub trait AnyDatatype: ObjectType {

}

/// A marker for atomic (integer or floating-point) datatype capabilities.
pub trait AtomicDatatype: AnyDatatype {

}

/// The total byte size a datatype entry reports; 0 when the identifier is
/// not a live datatype (the failing query is swallowed by design).
pub open spec fn m_type_size(m: RegModel, id: Hid) -> usize {
    match m_type_desc(m, id) {
        Some(d) => d.size,
        None => 0,
    }
}

/// The bit precision a datatype entry reports; 0 when the identifier is not
/// a live datatype.
pub open spec fn m_type_precision(m: RegModel, id: Hid) -> usize {
    match m_type_desc(m, id) {
        Some(d) => d.precision,
        None => 0,
    }
}

/// The bit offset a datatype entry reports; 0 when the identifier is not a
/// live datatype.
pub open spec fn m_type_offset(m: RegModel, id: Hid) -> usize {
    match m_type_desc(m, id) {
        Some(d) => d.offset,
        None => 0,
    }
}

/// Whether a datatype entry reports the two's-complement signed convention;
/// any other or failing answer counts as unsigned.
pub open spec fn m_type_signed(m: RegModel, id: Hid) -> bool {
    match m_type_desc(m, id) {
        Some(d) => d.sign is TwosComplement,
        None => false,
    }
}

impl<T: AnyDatatype> Object<T> {
    /// The total size of the datatype in bytes; 0 on any failure path.
    pub fn size(&self, reg: &Registry) -> (r: usize)
        requires
            m_wf(reg@),
        ensures
            r == m_type_size(reg@, self.s_id()),
    {
        match reg.type_desc(self.id(reg)) {
            Some(d) => d.size,
            None => 0,
        }
    }
}

impl<T: AtomicDatatype> Object<T> {
    /// True iff the datatype byte order is big endian.
    pub fn is_be(&self, reg: &Registry) -> (r: bool)
        requires
            m_wf(reg@),
        ensures
            r == (m_type_desc(reg@, self.s_id()) matches Some(d) && d.order is BigEndian),
    {
        match reg.type_desc(self.id(reg)) {
            Some(d) => d.order == ByteOrder::BigEndian,
            None => false,
        }
    }

    /// True iff the datatype byte order is little endian.
    pub fn is_le(&self, reg: &Registry) -> (r: bool)
        requires
            m_wf(reg@),
        ensures
            r == (m_type_desc(reg@, self.s_id()) matches Some(d) && d.order is LittleEndian),
    {
        match reg.type_desc(self.id(reg)) {
            Some(d) => d.order == ByteOrder::LittleEndian,
            None => false,
        }
    }

    /// The offset of the first significant bit; 0 on any failure path.
    pub fn offset(&self, reg: &Registry) -> (r: usize)
        requires
            m_wf(reg@),
        ensures
            r == m_type_offset(reg@, self.s_id()),
    {
        match reg.type_desc(self.id(reg)) {
            Some(d) => d.offset,
            None => 0,
        }
    }

    /// The number of significant bits, excluding padding; 0 on any failure
    /// path.
    pub fn precision(&self, reg: &Registry) -> (r: usize)
        requires
            m_wf(reg@),
        ensures
            r == m_type_precision(reg@, self.s_id()),
    {
        match reg.type_desc(self.id(reg)) {
            Some(d) => d.precision,
            None => 0,
        }
    }
}

/// The description line of an integer datatype, e.g. `32-bit unsigned
/// integer`.
pub open spec fn spec_integer_desc(precision: nat, signed: bool) -> Seq<char> {
    dec_digits(precision) + "-bit "@ + (if signed {
        Seq::<char>::empty()
    } else {
        "un"@
    }) + "signed integer"@
}

/// The description line of a float datatype, e.g. `64-bit float`.
pub open spec fn spec_float_desc(precision: nat) -> Seq<char> {
    dec_digits(precision) + "-bit float"@
}

fn render_integer_desc(p: usize, signed: bool) -> (s: String)
    ensures
        s@ == spec_integer_desc(p as nat, signed),
{
    let mut s = fmt_usize(p);
    s.append("-bit ");
    if !signed {
        s.append("un");
    }
    s.append("signed integer");
    proof {
        assert(s@ =~= spec_integer_desc(p as nat, signed));
    }
    s
}

fn render_float_desc(p: usize) -> (s: String)
    ensures
        s@ == spec_float_desc(p as nat),
{
    let mut s = fmt_usize(p);
    s.append("-bit float");
    proof {
        assert(s@ =~= spec_float_desc(p as nat));
    }
    s
}

/// The capability of an integer datatype: the identifier must be a datatype
/// whose class is `Integer`.
#[derive(Clone, Copy, PartialEq, Eq, Structural, Debug)]
pub struct IntegerDatatypeID;

impl ObjectType for IntegerDatatypeID {
    open spec fn s_allow_any() -> bool {
        false
    }

    open spec fn s_allowed(t: IdType) -> bool {
        t == IdType::Datatype
    }

    open spec fn s_type_label() -> Seq<char> {
        "integer datatype"@
    }

    open spec fn s_from_id(m: RegModel, id: Hid) -> Result<IntegerDatatypeID, H5Error> {
        if m_type_class(m, id) == TypeClass::Integer {
            Ok(IntegerDatatypeID)
        } else {
            Err(
                H5Error::TypeClassMismatch {
                    expected: TypeClass::Integer,
                    actual: m_type_class(m, id),
                },
            )
        }
    }

    open spec fn s_describe(m: RegModel, id: Hid) -> Seq<char> {
        spec_integer_desc(m_type_precision(m, id) as nat, m_type_signed(m, id))
    }

    fn allow_types() -> (a: AllowTypes) {
        AllowTypes::Just(IdType::Datatype)
    }

    fn from_id(reg: &Registry, id: Hid) -> (r: Result<IntegerDatatypeID, H5Error>) {
        let cls = reg.type_class(id);
        if cls == TypeClass::Integer {
            Ok(IntegerDatatypeID)
        } else {
            Err(H5Error::TypeClassMismatch { expected: TypeClass::Integer, actual: cls })
        }
    }

    fn type_label() -> (s: &'static str) {
        "integer datatype"
    }

    fn describe(reg: &Registry, id: Hid) -> (s: String) {
        match reg.type_desc(id) {
            Some(d) => render_integer_desc(d.precision, d.sign == Sign::TwosComplement),
            None => render_integer_desc(0, false),
        }
    }
}

/// The capability of a floating-point datatype: the identifier must be a
/// datatype whose class is `Float`.
#[derive(Clone, Copy, PartialEq, Eq, Structural, Debug)]
pub struct FloatDatatypeID;

impl ObjectType for FloatDatatypeID {
    open spec fn s_allow_any() -> bool {
        false
    }

    open spec fn s_allowed(t: IdType) -> bool {
        t == IdType::Datatype
    }

    open spec fn s_type_label() -> Seq<char> {
        "float datatype"@
    }

    open spec fn s_from_id(m: RegModel, id: Hid) -> Result<FloatDatatypeID, H5Error> {
        if m_type_class(m, id) == TypeClass::Float {
            Ok(FloatDatatypeID)
        } else {
            Err(
                H5Error::TypeClassMismatch {
                    expected: TypeClass::Float,
                    actual: m_type_class(m, id),
                },
            )
        }
    }

    open spec fn s_describe(m: RegModel, id: Hid) -> Seq<char> {
        spec_float_desc(m_type_precision(m, id) as nat)
    }

    fn allow_types() -> (a: AllowTypes) {
        AllowTypes::Just(IdType::Datatype)
    }

    fn from_id(reg: &Registry, id: Hid) -> (r: Result<FloatDatatypeID, H5Error>) {
        let cls = reg.type_class(id);
        if cls == TypeClass::Float {
            Ok(FloatDatatypeID)
        } else {
            Err(H5Error::TypeClassMismatch { expected: TypeClass::Float, actual: cls })
        }
    }

    fn type_label() -> (s: &'static str) {
        "float datatype"
    }

    fn describe(reg: &Registry, id: Hid) -> (s: String) {
        match reg.type_desc(id) {
            Some(d) => render_float_desc(d.precision),
            None => render_float_desc(0),
        }
    }
}

impl AnyDatatype for IntegerDatatypeID {

}

impl AtomicDatatype for IntegerDatatypeID {

}

impl AnyDatatype for FloatDatatypeID {

}

impl AtomicDatatype for FloatDatatypeID {

}

/// An integer datatype object.
pub type IntegerDatatype = Object<IntegerDatatypeID>;

/// A floating-point datatype object.
pub type FloatDatatype = Object<FloatDatatypeID>;

impl IntegerDatatype {
    /// True iff the datatype uses the two's-complement signed convention;
    /// any other or failing answer counts as unsigned.
    pub fn is_signed(&self, reg: &Registry) -> (r: bool)
        requires
            m_wf(reg@),
        ensures
            r == m_type_signed(reg@, self.s_id()),
    {
        match reg.type_desc(self.id(reg)) {
            Some(d) => d.sign == Sign::TwosComplement,
            None => false,
        }
    }
}

/// The capability of a general datatype: any datatype identifier whose
/// class is `Integer` or `Float`; the detail records which.
#[derive(Clone, Copy, PartialEq, Eq, Structural, Debug)]
pub enum DatatypeID {
    Integer,
    Float,
}

/// A general datatype object.
pub type Datatype = Object<DatatypeID>;

impl ObjectType for DatatypeID {
    open spec fn s_allow_any() -> bool {
        false
    }

    open spec fn s_allowed(t: IdType) -> bool {
        t == IdType::Datatype
    }

    open spec fn s_type_label() -> Seq<char> {
        "datatype"@
    }

    open spec fn s_from_id(m: RegModel, id: Hid) -> Result<DatatypeID, H5Error> {
        match m_type_class(m, id) {
            TypeClass::Integer => Ok(DatatypeID::Integer),
            TypeClass::Float => Ok(DatatypeID::Float),
            TypeClass::NoClass => Err(H5Error::UnsupportedClassTag),
            TypeClass::Nclasses => Err(H5Error::UnsupportedClassTag),
            c => Err(H5Error::UnsupportedDatatype { class: c }),
        }
    }

    open spec fn s_describe(m: RegModel, id: Hid) -> Seq<char> {
        match m_type_class(m, id) {
            TypeClass::Integer => spec_integer_desc(
                m_type_precision(m, id) as nat,
                m_type_signed(m, id),
            ),
            TypeClass::Float => spec_float_desc(m_type_precision(m, id) as nat),
            _ => "invalid class"@,
        }
    }

    fn allow_types() -> (a: AllowTypes) {
        AllowTypes::Just(IdType::Datatype)
    }

    fn from_id(reg: &Registry, id: Hid) -> (r: Result<DatatypeID, H5Error>) {
        match reg.type_class(id) {
            TypeClass::Integer => Ok(DatatypeID::Integer),
            TypeClass::Float => Ok(DatatypeID::Float),
            TypeClass::NoClass => Err(H5Error::UnsupportedClassTag),
            TypeClass::Nclasses => Err(H5Error::UnsupportedClassTag),
            c => Err(H5Error::UnsupportedDatatype { class: c }),
        }
    }

    fn type_label() -> (s: &'static str) {
        "datatype"
    }

    fn describe(reg: &Registry, id: Hid) -> (s: String) {
        match reg.type_desc(id) {
            Some(d) => {
                if d.class == TypeClass::Integer {
                    render_integer_desc(d.precision, d.sign == Sign::TwosComplement)
                } else if d.class == TypeClass::Float {
                    render_float_desc(d.precision)
                } else {
                    String::from_str("invalid class")
                }
            },
            None => String::from_str("invalid class"),
        }
    }
}

impl AnyDatatype for DatatypeID {

}

/// A datatype re-viewed through its atomic class; the carried object shares
/// the identifier of the datatype it was classified from.
pub enum DatatypeClass {
    Integer(IntegerDatatype),
    Float(FloatDatatype),
}

/// Logical datatype equality over registry state: both identifiers name
/// live datatypes and their descriptions are equal.
pub open spec fn spec_types_equal(m: RegModel, a: Hid, b: Hid) -> bool {
    match (m_type_desc(m, a), m_type_desc(m, b)) {
        (Some(x), Some(y)) => x == y,
        _ => false,
    }
}

impl Datatype {
    /// Classifies the datatype as exactly integer or float, returning a
    /// typed view that shares the same identifier.  An identifier without a
    /// usable class (in particular an invalid one) and an unsupported class
    /// are reported as distinct errors.
    pub fn class(&self, reg: &Registry) -> (r: Result<DatatypeClass, H5Error>)
        requires
            m_wf(reg@),
        ensures
            match m_type_class(reg@, self.s_id()) {
                TypeClass::Integer => r matches Ok(DatatypeClass::Integer(o)) && o.s_id()
                    == self.s_id(),
                TypeClass::Float => r matches Ok(DatatypeClass::Float(o)) && o.s_id()
                    == self.s_id(),
                TypeClass::NoClass => r == Err::<DatatypeClass, H5Error>(
                    H5Error::UnsupportedClassTag,
                ),
                TypeClass::Nclasses => r == Err::<DatatypeClass, H5Error>(
                    H5Error::UnsupportedClassTag,
                ),
                c => r == Err::<DatatypeClass, H5Error>(H5Error::UnsupportedDatatype { class: c }),
            },
    {
        let id = self.id(reg);
        match reg.type_class(id) {
            TypeClass::Integer => Ok(
                DatatypeClass::Integer(Object::from_parts(id, IntegerDatatypeID)),
            ),
            TypeClass::Float => Ok(DatatypeClass::Float(Object::from_parts(id, FloatDatatypeID))),
            TypeClass::NoClass => Err(H5Error::UnsupportedClassTag),
            TypeClass::Nclasses => Err(H5Error::UnsupportedClassTag),
            c => Err(H5Error::UnsupportedDatatype { class: c }),
        }
    }

    /// Native logical type equality (not identifier equality): true exactly
    /// when both sides are live datatypes with equal descriptions; a failing
    /// underlying check counts as "not equal".
    pub fn equal(&self, other: &Datatype, reg: &Registry) -> (r: bool)
        requires
            m_wf(reg@),
        ensures
            r == spec_types_equal(reg@, self.s_id(), other.s_id()),
    {
        match (reg.type_desc(self.id(reg)), reg.type_desc(other.id(reg))) {
            (Some(a), Some(b)) => a == b,
            _ => false,
        }
    }
}

/// The native scalar types that map onto predefined datatype descriptors.
#[derive(Clone, Copy, PartialEq, Eq, Structural, Debug)]
pub enum ScalarType {
    Bool,
    I8,
    I16,
    I32,
    I64,
    U8,
    U16,
    U32,
    U64,
    Isize,
    Usize,
    F32,
    F64,
}

/// Whether the scalar maps to a floating-point descriptor.
pub open spec fn spec_scalar_is_float(st: ScalarType) -> bool {
    st is F32 || st is F64
}

/// Whether the scalar is a signed integer.
pub open spec fn spec_scalar_signed(st: ScalarType) -> bool {
    st is I8 || st is I16 || st is I32 || st is I64 || st is Isize
}

/// The byte width of the scalar's native representation.  The pointer-sized
/// integers take the eight-byte descriptors: this layer targets 64-bit
/// hosts.
pub open spec fn spec_scalar_size(st: ScalarType) -> usize {
    match st {
        ScalarType::Bool => 1,
        ScalarType::I8 => 1,
        ScalarType::I16 => 2,
        ScalarType::I32 => 4,
        ScalarType::I64 => 8,
        ScalarType::U8 => 1,
        ScalarType::U16 => 2,
        ScalarType::U32 => 4,
        ScalarType::U64 => 8,
        ScalarType::Isize => 8,
        ScalarType::Usize => 8,
        ScalarType::F32 => 4,
        ScalarType::F64 => 8,
    }
}

/// The table of predefined descriptors, one per scalar type and byte order.
/// Boolean is stored through the one-byte unsigned integer descriptor.
/// These stand for the native library's read-only predefined datatype
/// globals; this layer only ever copies them into fresh entries.
pub open spec fn spec_scalar_descriptor(st: ScalarType, order: ByteOrder) -> DatatypeDesc {
    match st {
        ScalarType::Bool => DatatypeDesc {
            class: TypeClass::Integer,
            order,
            size: 1,
            precision: 8,
            offset: 0,
            sign: Sign::Unsigned,
        },
        ScalarType::I8 => DatatypeDesc {
            class: TypeClass::Integer,
            order,
            size: 1,
            precision: 8,
            offset: 0,
            sign: Sign::TwosComplement,
        },
        ScalarType::I16 => DatatypeDesc {
            class: TypeClass::Integer,
            order,
            size: 2,
            precision: 16,
            offset: 0,
            sign: Sign::TwosComplement,
        },
        ScalarType::I32 => DatatypeDesc {
            class: TypeClass::Integer,
            order,
            size: 4,
            precision: 32,
            offset: 0,
            sign: Sign::TwosComplement,
        },
        ScalarType::I64 => DatatypeDesc {
            class: TypeClass::Integer,
            order,
            size: 8,
            precision: 64,
            offset: 0,
            sign: Sign::TwosComplement,
        },
        ScalarType::U8 => DatatypeDesc {
            class: TypeClass::Integer,
            order,
            size: 1,
            precision: 8,
            offset: 0,
            sign: Sign::Unsigned,
        },
        ScalarType::U16 => DatatypeDesc {
            class: TypeClass::Integer,
            order,
            size: 2,
            precision: 16,
            offset: 0,
            sign: Sign::Unsigned,
        },
        ScalarType::U32 => DatatypeDesc {
            class: TypeClass::Integer,
            order,
            size: 4,
            precision: 32,
            offset: 0,
            sign: Sign::Unsigned,
        },
        ScalarType::U64 => DatatypeDesc {
            class: TypeClass::Integer,
            order,
            size: 8,
            precision: 64,
            offset: 0,
            sign: Sign::Unsigned,
        },
        ScalarType::Isize => DatatypeDesc {
            class: TypeClass::Integer,
            order,
            size: 8,
            precision: 64,
            offset: 0,
            sign: Sign::TwosComplement,
        },
        ScalarType::Usize => DatatypeDesc {
            class: TypeClass::Integer,
            order,
            size: 8,
            precision: 64,
            offset: 0,
            sign: Sign::Unsigned,
        },
        ScalarType::F32 => DatatypeDesc {
            class: TypeClass::Float,
            order,
            size: 4,
            precision: 32,
            offset: 0,
            sign: Sign::Unsigned,
        },
        ScalarType::F64 => DatatypeDesc {
            class: TypeClass::Float,
            order,
            size: 8,
            precision: 64,
            offset: 0,
            sign: Sign::Unsigned,
        },
    }
}

pub fn scalar_descriptor(st: ScalarType, order: ByteOrder) -> (d: DatatypeDesc)
    ensures
        d == spec_scalar_descriptor(st, order),
{
    let (class, size, sign): (TypeClass, usize, Sign) = match st {
        ScalarType::Bool => (TypeClass::Integer, 1, Sign::Unsigned),
        ScalarType::I8 => (TypeClass::Integer, 1, Sign::TwosComplement),
        ScalarType::I16 => (TypeClass::Integer, 2, Sign::TwosComplement),
        ScalarType::I32 => (TypeClass::Integer, 4, Sign::TwosComplement),
        ScalarType::I64 => (TypeClass::Integer, 8, Sign::TwosComplement),
        ScalarType::U8 => (TypeClass::Integer, 1, Sign::Unsigned),
        ScalarType::U16 => (TypeClass::Integer, 2, Sign::Unsigned),
        ScalarType::U32 => (TypeClass::Integer, 4, Sign::Unsigned),
        ScalarType::U64 => (TypeClass::Integer, 8, Sign::Unsigned),
        ScalarType::Isize => (TypeClass::Integer, 8, Sign::TwosComplement),
        ScalarType::Usize => (TypeClass::Integer, 8, Sign::Unsigned),
        ScalarType::F32 => (TypeClass::Float, 4, Sign::Unsigned),
        ScalarType::F64 => (TypeClass::Float, 8, Sign::Unsigned),
    };
    DatatypeDesc { class, order, size, precision: size * 8, offset: 0, sign }
}

/// Law: for every supported native scalar type and byte order, the
/// predefined descriptor classifies as `Float` exactly for the floating
/// scalars and as `Integer` otherwise, has size equal to the scalar's byte
/// width and precision equal to its bit width, offset zero, the requested
/// byte order, and the two's-complement sign convention exactly for the
/// signed integer scalars.
pub proof fn lemma_scalar_descriptor(st: ScalarType, order: ByteOrder)
    ensures
        ({
            let d = spec_scalar_descriptor(st, order);
            &&& d.class == (if spec_scalar_is_float(st) {
                TypeClass::Float
            } else {
                TypeClass::Integer
            })
            &&& d.size == spec_scalar_size(st)
            &&& d.precision == 8 * spec_scalar_size(st)
            &&& d.offset == 0
            &&& d.order == order
            &&& (d.sign is TwosComplement <==> spec_scalar_signed(st))
        }),
{
}

/// Law: creating a datatype from a scalar's predefined descriptor and then
/// inspecting it reports the expected classification, size, precision,
/// offset, sign convention and the registry's byte order.
pub proof fn lemma_to_datatype_classification(m: RegModel, st: ScalarType)
    requires
        m_wf(m),
    ensures
        ({
            let d = spec_scalar_descriptor(st, m.order);
            let id = m.next as Hid;
            let m1 = m_create(m, DataModel::Datatype { desc: d });
            &&& m_type_desc(m1, id) == Some(d)
            &&& m_type_class(m1, id) == (if spec_scalar_is_float(st) {
                TypeClass::Float
            } else {
                TypeClass::Integer
            })
            &&& m_type_size(m1, id) == spec_scalar_size(st)
            &&& m_type_precision(m1, id) == 8 * spec_scalar_size(st)
            &&& m_type_offset(m1, id) == 0
            &&& (m_type_signed(m1, id) <==> spec_scalar_signed(st))
            &&& (m_type_desc(m1, id).unwrap().order == m.order)
        }),
{
    lemma_scalar_descriptor(st, m.order);
}

/// Law: datatypes made from two scalar types compare equal exactly when
/// their predefined descriptors are equal; scalars of different byte widths
/// or of different classes therefore compare unequal.  Distinct scalars can
/// share one descriptor — boolean is stored as the one-byte unsigned
/// integer, and the pointer-sized integers as the eight-byte ones — and
/// such pairs compare equal.
pub proof fn lemma_to_datatype_equality(m: RegModel, s1: ScalarType, s2: ScalarType)
    requires
        m_wf(m),
        m.next < i64::MAX,
    ensures
        ({
            let id1 = m.next as Hid;
            let m1 = m_create(m, DataModel::Datatype { desc: spec_scalar_descriptor(s1, m.order) });
            let id2 = m1.next as Hid;
            let m2 = m_create(
                m1,
                DataModel::Datatype { desc: spec_scalar_descriptor(s2, m1.order) },
            );
            &&& spec_types_equal(m2, id1, id2) == (spec_scalar_descriptor(s1, m.order)
                == spec_scalar_descriptor(s2, m.order))
            &&& (s1 == s2 ==> spec_types_equal(m2, id1, id2))
            &&& (spec_scalar_size(s1) != spec_scalar_size(s2) ==> !spec_types_equal(m2, id1, id2))
            &&& (spec_scalar_is_float(s1) != spec_scalar_is_float(s2) ==> !spec_types_equal(
                m2,
                id1,
                id2,
            ))
        }),
{
    lemma_scalar_descriptor(s1, m.order);
    lemma_scalar_descriptor(s2, m.order);
}

/// Copies the predefined descriptor for `st` under the registry's byte
/// order into a fresh datatype entry and wraps it; the entry's class is
/// integer or float, so the wrap always succeeds.
pub fn scalar_datatype(st: ScalarType, reg: &mut Registry) -> (r: Result<Datatype, H5Error>)
    requires
        m_wf(old(reg)@),
        old(reg)@.next < i64::MAX,
    ensures
        m_wf(final(reg)@),
        final(reg)@ == m_create(
            old(reg)@,
            DataModel::Datatype { desc: spec_scalar_descriptor(st, old(reg)@.order) },
        ),
        r matches Ok(d) && d.s_id() == old(reg)@.next as Hid,
        r matches Ok(d) && (d.spec_detail() == (if spec_scalar_is_float(st) {
            DatatypeID::Float
        } else {
            DatatypeID::Integer
        })),
    {
    let order = reg.order();
    let desc = scalar_descriptor(st, order);
    let id = reg.create_datatype(desc);
    proof {
        lemma_scalar_descriptor(st, order);
    }
    match Datatype::from_id(reg, id) {
        Ok(d) => Ok(d),
        Err(e) => {
            proof {
                assert(false);
            }
            Err(e)
        },
    }
}

/// A native scalar type that is convertible to a datatype object.
pub trait ToDatatype {
    /// Which scalar the implementing native type is.
    spec fn s_scalar() -> ScalarType;

    /// The scalar tag of the implementing native type.
    fn scalar_type() -> (st: ScalarType)
        ensures
            st == Self::s_scalar(),
    ;

    /// Copies the matching predefined descriptor (never aliases it) into a
    /// fresh datatype entry and wraps it; always succeeds while the
    /// identifier space is not exhausted.
    fn to_datatype(reg: &mut Registry) -> (r: Result<Datatype, H5Error>)
        requires
            m_wf(old(reg)@),
            old(reg)@.next < i64::MAX,
        ensures
            m_wf(final(reg)@),
            final(reg)@ == m_create(
                old(reg)@,
                DataModel::Datatype {
                    desc: spec_scalar_descriptor(Self::s_scalar(), old(reg)@.order),
                },
            ),
            r matches Ok(d) && d.s_id() == old(reg)@.next as Hid,
    {
        scalar_datatype(Self::scalar_type(), reg)
    }
}

impl ToDatatype for bool {
    open spec fn s_scalar() -> ScalarType {
        ScalarType::Bool
    }

    fn scalar_type() -> (st: ScalarType) {
        ScalarType::Bool
    }
}

impl ToDatatype for i8 {
    open spec fn s_scalar() -> ScalarType {
        ScalarType::I8
    }

    fn scalar_type() -> (st: ScalarType) {
        ScalarType::I8
    }
}

impl ToDatatype for i16 {
    open spec fn s_scalar() -> ScalarType {
        ScalarType::I16
    }

    fn scalar_type() -> (st: ScalarType) {
        ScalarType::I16
    }
}

impl ToDatatype for i32 {
    open spec fn s_scalar() -> ScalarType {
        ScalarType::I32
    }

    fn scalar_type() -> (st: ScalarType) {
        ScalarType::I32
    }
}

impl ToDatatype for i64 {
    open spec fn s_scalar() -> ScalarType {
        ScalarType::I64
    }

    fn scalar_type() -> (st: ScalarType) {
        ScalarType::I64
    }
}

impl ToDatatype for u8 {
    open spec fn s_scalar() -> ScalarType {
        ScalarType::U8
    }

    fn scalar_type() -> (st: ScalarType) {
        ScalarType::U8
    }
}

impl ToDatatype for u16 {
    open spec fn s_scalar() -> ScalarType {
        ScalarType::U16
    }

    fn scalar_type() -> (st: ScalarType) {
        ScalarType::U16
    }
}

impl ToDatatype for u32 {
    open spec fn s_scalar() -> ScalarType {
        ScalarType::U32
    }

    fn scalar_type() -> (st: ScalarType) {
        ScalarType::U32
    }
}

impl ToDatatype for u64 {
    open spec fn s_scalar() -> ScalarType {
        ScalarType::U64
    }

    fn scalar_type() -> (st: ScalarType) {
        ScalarType::U64
    }
}

impl ToDatatype for isize {
    open spec fn s_scalar() -> ScalarType {
        ScalarType::Isize
    }

    fn scalar_type() -> (st: ScalarType) {
        ScalarType::Isize
    }
}

impl ToDatatype for usize {
    open spec fn s_scalar() -> ScalarType {
        ScalarType::Usize
    }

    fn scalar_type() -> (st: ScalarType) {
        ScalarType::Usize
    }
}

} // verus!
