use hdf5_rs::datatype::{
    scalar_datatype, Datatype, DatatypeClass, DatatypeID, IntegerDatatype, ScalarType, ToDatatype,
};
use hdf5_rs::object::{ObjectDetail, ObjectID};
use hdf5_rs::registry::{
    ByteOrder, DatatypeDesc, Registry, Sign, TypeClass, H5I_INVALID_HID,
};

fn check_integer(reg: &mut Registry, st: ScalarType, signed: bool, precision: usize, size: usize) {
    match scalar_datatype(st, reg).unwrap().class(reg).unwrap() {
        DatatypeClass::Integer(dt) => {
            assert_eq!(dt.is_be(reg), false);
            assert_eq!(dt.is_le(reg), true);
            assert_eq!(dt.offset(reg), 0);
            assert_eq!(dt.precision(reg), precision);
            assert_eq!(dt.is_signed(reg), signed);
            assert_eq!(dt.size(reg), size);
        },
        _ => panic!("Integer datatype expected"),
    }
}

fn check_float(reg: &mut Registry, st: ScalarType, precision: usize, size: usize) {
    match scalar_datatype(st, reg).unwrap().class(reg).unwrap() {
        DatatypeClass::Float(dt) => {
            assert_eq!(dt.is_be(reg), false);
            assert_eq!(dt.is_le(reg), true);
            assert_eq!(dt.offset(reg), 0);
            assert_eq!(dt.precision(reg), precision);
            assert_eq!(dt.size(reg), size);
        },
        _ => panic!("Float datatype expected"),
    }
}

#[test]
fn test_invalid_datatype() {
    let mut reg = Registry::new(ByteOrder::LittleEndian);
    let e = Datatype::from_id(&reg, H5I_INVALID_HID).unwrap_err();
    assert!(e.message().contains("Invalid datatype id"));
    let ref_obj = reg.create_datatype(DatatypeDesc {
        class: TypeClass::Reference,
        order: ByteOrder::LittleEndian,
        size: 8,
        precision: 64,
        offset: 0,
        sign: Sign::Unsigned,
    });
    let e = Datatype::from_id(&reg, ref_obj).unwrap_err();
    assert!(e.message().contains("Unsupported datatype"));
}

#[test]
fn test_eq() {
    let mut reg = Registry::new(ByteOrder::LittleEndian);
    let a = u32::to_datatype(&mut reg).unwrap();
    let b = u32::to_datatype(&mut reg).unwrap();
    let c = u16::to_datatype(&mut reg).unwrap();
    assert!(a.equal(&b, &reg));
    assert!(!a.equal(&c, &reg));
}

#[test]
fn test_eq_shared_descriptor() {
    // Boolean is stored through the one-byte unsigned integer descriptor,
    // so it compares equal to u8; the pointer-sized integers share the
    // eight-byte descriptors.
    let mut reg = Registry::new(ByteOrder::LittleEndian);
    let b = bool::to_datatype(&mut reg).unwrap();
    let u = u8::to_datatype(&mut reg).unwrap();
    assert!(b.equal(&u, &reg));
    let us = usize::to_datatype(&mut reg).unwrap();
    let u64t = u64::to_datatype(&mut reg).unwrap();
    assert!(us.equal(&u64t, &reg));
    let is = isize::to_datatype(&mut reg).unwrap();
    let i64t = i64::to_datatype(&mut reg).unwrap();
    assert!(is.equal(&i64t, &reg));
    assert!(!us.equal(&is, &reg));
}

#[test]
fn test_atomic_datatype() {
    let mut reg = Registry::new(ByteOrder::LittleEndian);
    let ptr_bytes = core::mem::size_of::<usize>();

    check_integer(&mut reg, ScalarType::Bool, false, 8, 1);

    check_integer(&mut reg, ScalarType::I8, true, 8, 1);
    check_integer(&mut reg, ScalarType::I16, true, 16, 2);
    check_integer(&mut reg, ScalarType::I32, true, 32, 4);
    check_integer(&mut reg, ScalarType::I64, true, 64, 8);

    check_integer(&mut reg, ScalarType::U8, false, 8, 1);
    check_integer(&mut reg, ScalarType::U16, false, 16, 2);
    check_integer(&mut reg, ScalarType::U32, false, 32, 4);
    check_integer(&mut reg, ScalarType::U64, false, 64, 8);

    check_float(&mut reg, ScalarType::F32, 32, 4);
    check_float(&mut reg, ScalarType::F64, 64, 8);

    check_integer(&mut reg, ScalarType::Isize, true, ptr_bytes * 8, ptr_bytes);
    check_integer(&mut reg, ScalarType::Usize, false, ptr_bytes * 8, ptr_bytes);
}

#[test]
fn test_debug_display() {
    let mut reg = Registry::new(ByteOrder::LittleEndian);
    let u = u32::to_datatype(&mut reg).unwrap();
    assert_eq!(u.repr(&reg), "<HDF5 datatype: 32-bit unsigned integer>");
    assert_eq!(u.repr(&reg), "<HDF5 datatype: 32-bit unsigned integer>");

    let i = i8::to_datatype(&mut reg).unwrap();
    assert_eq!(i.repr(&reg), "<HDF5 datatype: 8-bit signed integer>");
    assert_eq!(i.repr(&reg), "<HDF5 datatype: 8-bit signed integer>");

    let f = scalar_datatype(ScalarType::F64, &mut reg).unwrap();
    assert_eq!(f.repr(&reg), "<HDF5 datatype: 64-bit float>");
    assert_eq!(f.repr(&reg), "<HDF5 datatype: 64-bit float>");
}

#[test]
fn test_datatype_invalid_repr() {
    let mut reg = Registry::new(ByteOrder::LittleEndian);
    let u = u32::to_datatype(&mut reg).unwrap();
    u.decref(&mut reg);
    assert_eq!(u.repr(&reg), "<HDF5 datatype: invalid id>");
}

#[test]
fn test_class_mismatch_names_both_sides() {
    let mut reg = Registry::new(ByteOrder::LittleEndian);
    let plist = reg.create_proplist();
    let e = Datatype::from_id(&reg, plist).unwrap_err();
    let msg = e.message();
    assert!(msg.contains("Invalid datatype id type"));
    assert!(msg.contains("expected Datatype"));
    assert!(msg.contains("got Proplist"));
}

#[test]
fn test_integer_class_check() {
    let mut reg = Registry::new(ByteOrder::LittleEndian);
    let f = scalar_datatype(ScalarType::F32, &mut reg).unwrap();
    let e = IntegerDatatype::from_id(&reg, f.id(&reg)).unwrap_err();
    let msg = e.message();
    assert!(msg.contains("Invalid datatype class"));
    assert!(msg.contains("expected Integer"));
    assert!(msg.contains("got Float"));
    let u = scalar_datatype(ScalarType::U16, &mut reg).unwrap();
    let dt = IntegerDatatype::from_id(&reg, u.id(&reg)).unwrap();
    assert!(!dt.is_signed(&reg));
    assert_eq!(dt.repr(&reg), "<HDF5 integer datatype: 16-bit unsigned integer>");
}

#[test]
fn test_big_endian_order() {
    let mut reg = Registry::new(ByteOrder::BigEndian);
    match scalar_datatype(ScalarType::U32, &mut reg).unwrap().class(&reg).unwrap() {
        DatatypeClass::Integer(dt) => {
            assert!(dt.is_be(&reg));
            assert!(!dt.is_le(&reg));
        },
        _ => panic!("Integer datatype expected"),
    }
}

#[test]
fn test_no_class_datatype() {
    let mut reg = Registry::new(ByteOrder::LittleEndian);
    let raw = reg.create_datatype(DatatypeDesc {
        class: TypeClass::NoClass,
        order: ByteOrder::LittleEndian,
        size: 0,
        precision: 0,
        offset: 0,
        sign: Sign::Unsigned,
    });
    let e = Datatype::from_id(&reg, raw).unwrap_err();
    assert_eq!(e.message(), "Invalid datatype class");
}

#[test]
fn test_detail_records_classification() {
    let mut reg = Registry::new(ByteOrder::LittleEndian);
    let i = i16::to_datatype(&mut reg).unwrap();
    assert_eq!(*i.detail(), DatatypeID::Integer);
    let f = scalar_datatype(ScalarType::F32, &mut reg).unwrap();
    assert_eq!(*f.detail(), DatatypeID::Float);
}
