use hdf5_rs::error::H5Error;
use hdf5_rs::object::{AllowTypes, Object, ObjectID};
use hdf5_rs::registry::{ByteOrder, IdType, Registry, H5I_INVALID_HID};

type TestObject = Object<()>;

#[test]
fn object_test_debug() {
    let mut reg = Registry::new(ByteOrder::LittleEndian);
    let id = reg.create_proplist();
    let obj = TestObject::from_id(&reg, id).unwrap();
    assert_eq!(obj.repr(&reg), "<HDF5 object>");
}

#[test]
fn test_not_a_valid_user_id() {
    let reg = Registry::new(ByteOrder::LittleEndian);
    let e = TestObject::from_id(&reg, H5I_INVALID_HID).unwrap_err();
    assert!(e.message().contains("Invalid handle id"));
    let e = TestObject::from_id(&reg, 0).unwrap_err();
    assert!(e.message().contains("Invalid handle id"));
}

#[test]
fn test_new_user_id() {
    let mut reg = Registry::new(ByteOrder::LittleEndian);
    let id = reg.create_proplist();
    let obj = TestObject::from_id(&reg, id).unwrap();
    assert!(obj.is_valid(&reg));
    assert!(obj.id(&reg) > 0);
    assert!(reg.is_valid(obj.id(&reg)));

    assert_eq!(obj.refcount(&reg), 1);
    obj.incref(&mut reg);
    assert_eq!(obj.refcount(&reg), 2);
    obj.decref(&mut reg);
    assert_eq!(obj.refcount(&reg), 1);
    obj.decref(&mut reg);
    obj.decref(&mut reg);
    assert_eq!(obj.refcount(&reg), 0);
    assert!(!obj.is_valid(&reg));
    assert!(!reg.is_valid(id));
    assert!(!reg.is_valid(obj.id(&reg)));
}

#[test]
fn test_incref_decref_drop() {
    let mut reg = Registry::new(ByteOrder::LittleEndian);
    let first = reg.create_proplist();
    let mut obj = TestObject::from_id(&reg, first).unwrap();
    let obj_id = obj.id(&reg);
    let second = reg.create_proplist();
    obj = TestObject::from_id(&reg, second).unwrap();
    assert_ne!(obj_id, obj.id(&reg));
    assert!(obj.id(&reg) > 0);
    assert!(obj.is_valid(&reg));
    assert!(reg.is_valid(obj.id(&reg)));
    assert_eq!(obj.refcount(&reg), 1);
    let mut obj2 = TestObject::from_id(&reg, obj.id(&reg)).unwrap();
    obj2.incref(&mut reg);
    assert_eq!(obj.refcount(&reg), 2);
    assert_eq!(obj2.refcount(&reg), 2);
    // Giving up one of the two wrappers releases its reference unit.
    obj2.decref(&mut reg);
    drop(obj2);
    assert!(obj.is_valid(&reg));
    assert_eq!(obj.refcount(&reg), 1);
    obj2 = TestObject::from_id(&reg, obj.id(&reg)).unwrap();
    obj2.incref(&mut reg);
    obj.decref(&mut reg);
    obj.decref(&mut reg);
    assert_eq!(obj.id(&reg), H5I_INVALID_HID);
    assert_eq!(obj2.id(&reg), H5I_INVALID_HID);
}

#[test]
fn test_invalid_renders_fixed_form() {
    let mut reg = Registry::new(ByteOrder::LittleEndian);
    let id = reg.create_proplist();
    let obj = TestObject::from_id(&reg, id).unwrap();
    assert_eq!(obj.repr(&reg), "<HDF5 object>");
    obj.decref(&mut reg);
    assert_eq!(obj.repr(&reg), "<HDF5 object: invalid id>");
}

#[test]
fn test_decref_on_invalid_is_noop() {
    let mut reg = Registry::new(ByteOrder::LittleEndian);
    let id = reg.create_proplist();
    let obj = TestObject::from_id(&reg, id).unwrap();
    obj.decref(&mut reg);
    assert!(!obj.is_valid(&reg));
    obj.decref(&mut reg);
    obj.decref(&mut reg);
    assert!(!obj.is_valid(&reg));
    assert_eq!(obj.refcount(&reg), 0);
}

#[test]
fn test_id_type() {
    let mut reg = Registry::new(ByteOrder::LittleEndian);
    let id = reg.create_proplist();
    let obj = TestObject::from_id(&reg, id).unwrap();
    assert_eq!(obj.id_type(&reg), IdType::Proplist);
    obj.decref(&mut reg);
    assert_eq!(obj.id_type(&reg), IdType::Badid);
}

#[test]
fn test_allow_types_matchers() {
    assert!(AllowTypes::Any.allows(IdType::File));
    assert!(AllowTypes::Just(IdType::Group).allows(IdType::Group));
    assert!(!AllowTypes::Just(IdType::Group).allows(IdType::Dataset));
    let one_of = AllowTypes::OneOf(vec![IdType::File, IdType::Group]);
    assert!(one_of.allows(IdType::File));
    assert!(one_of.allows(IdType::Group));
    assert!(!one_of.allows(IdType::Attr));
}

#[test]
fn test_class_mismatch_message_with_list() {
    let e = H5Error::ClassMismatch {
        type_label: "location",
        expected: AllowTypes::OneOf(vec![IdType::File, IdType::Group]),
        actual: IdType::Dataspace,
    };
    assert_eq!(
        e.message(),
        "Invalid location id type: expected one of [File, Group], got Dataspace",
    );
}
