use hdf5_rs::group::Group;
use hdf5_rs::object::ObjectID;
use hdf5_rs::registry::{ByteOrder, Registry};

#[test]
fn group_test_debug() {
    let mut reg = Registry::new(ByteOrder::LittleEndian);
    let a_id = reg.create_group(String::from("/a"), 2);
    let ab_id = reg.create_group(String::from("/a/b"), 1);
    let abc_id = reg.create_group(String::from("/a/b/c"), 0);
    let a = Group::from_id(&reg, a_id).unwrap();
    let ab = Group::from_id(&reg, ab_id).unwrap();
    let abc = Group::from_id(&reg, abc_id).unwrap();
    assert_eq!(a.repr(&reg), "<HDF5 group: \"/a\" (2 members)>");
    assert_eq!(ab.repr(&reg), "<HDF5 group: \"/a/b\" (1 member)>");
    assert_eq!(abc.repr(&reg), "<HDF5 group: \"/a/b/c\" (empty)>");
    a.decref(&mut reg);
    assert_eq!(a.repr(&reg), "<HDF5 group: invalid id>");
}

#[test]
fn test_group_class_check() {
    let mut reg = Registry::new(ByteOrder::LittleEndian);
    let plist = reg.create_proplist();
    let e = Group::from_id(&reg, plist).unwrap_err();
    let msg = e.message();
    assert!(msg.contains("Invalid group id type"));
    assert!(msg.contains("expected Group"));
    assert!(msg.contains("got Proplist"));
}
