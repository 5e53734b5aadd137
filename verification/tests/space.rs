use hdf5_rs::object::ObjectID;
use hdf5_rs::registry::{ByteOrder, Registry, H5I_INVALID_HID, H5S_UNLIMITED};
use hdf5_rs::space::{Dataspace, Dimension, Ix};

fn f<D: Dimension>(d: D) -> (usize, Vec<Ix>, Ix) {
    (d.ndim(), d.dims(), d.size())
}

#[test]
fn test_dimension() {
    assert_eq!(f(()), (0, vec![], 1));
    assert_eq!(f(&()), (0, vec![], 1));
    assert_eq!(f(2), (1, vec![2], 2));
    assert_eq!(f(&3), (1, vec![3], 3));
    assert_eq!(f((4,)), (1, vec![4], 4));
    assert_eq!(f(&(5,)), (1, vec![5], 5));
    assert_eq!(f((1, 2)), (2, vec![1, 2], 2));
    assert_eq!(f(&(3, 4)), (2, vec![3, 4], 12));
    assert_eq!(f(vec![2, 3]), (2, vec![2, 3], 6));
    assert_eq!(f(&vec![4, 5]), (2, vec![4, 5], 20));
}

#[test]
fn space_test_debug() {
    let mut reg = Registry::new(ByteOrder::LittleEndian);
    let d0 = Dataspace::new(&mut reg, (), true).unwrap();
    assert_eq!(d0.repr(&reg), "<HDF5 dataspace: ()>");
    let d1 = Dataspace::new(&mut reg, 3, true).unwrap();
    assert_eq!(d1.repr(&reg), "<HDF5 dataspace: (3,)>");
    let d2 = Dataspace::new(&mut reg, (1, 2), true).unwrap();
    assert_eq!(d2.repr(&reg), "<HDF5 dataspace: (1, 2)>");
}

#[test]
fn test_dataspace() {
    let mut reg = Registry::new(ByteOrder::LittleEndian);
    let e = Dataspace::new(&mut reg, H5S_UNLIMITED as usize, true).unwrap_err();
    assert!(e.message().contains("current dimension must have a specific size"));

    let d = Dataspace::new(&mut reg, (5, 6), true).unwrap();
    assert_eq!((d.ndim(&reg), d.dims(&reg), d.size(&reg)), (2, vec![5, 6], 30));

    assert_eq!(Dataspace::new(&mut reg, (), true).unwrap().dims(&reg), vec![]);

    let e = Dataspace::from_id(&reg, H5I_INVALID_HID).unwrap_err();
    assert!(e.message().contains("Invalid dataspace id"));

    let dc = d.copy(&mut reg).unwrap();
    assert!(dc.is_valid(&reg));
    assert_ne!(dc.id(&reg), d.id(&reg));
    assert_eq!(
        (d.ndim(&reg), d.dims(&reg), d.size(&reg)),
        (dc.ndim(&reg), dc.dims(&reg), dc.size(&reg)),
    );

    let fixed = Dataspace::new(&mut reg, (5, 6), false).unwrap();
    assert_eq!(fixed.maxdims(&reg), vec![5, 6]);
    assert_eq!(fixed.resizable(&reg), false);
    let grow = Dataspace::new(&mut reg, (5, 6), true).unwrap();
    assert_eq!(grow.maxdims(&reg), vec![H5S_UNLIMITED as Ix, H5S_UNLIMITED as Ix]);
    assert_eq!(grow.resizable(&reg), true);
}

#[test]
fn test_dataspace_invalid_repr() {
    let mut reg = Registry::new(ByteOrder::LittleEndian);
    let d = Dataspace::new(&mut reg, (1, 2), false).unwrap();
    assert_eq!(d.repr(&reg), "<HDF5 dataspace: (1, 2)>");
    d.decref(&mut reg);
    assert_eq!(d.repr(&reg), "<HDF5 dataspace: invalid id>");
}

#[test]
fn test_scalar_dataspace_size() {
    let mut reg = Registry::new(ByteOrder::LittleEndian);
    let d = Dataspace::new(&mut reg, (), false).unwrap();
    assert_eq!(d.ndim(&reg), 0);
    assert_eq!(d.dims(&reg), vec![]);
    assert_eq!(d.size(&reg), 1);
    assert_eq!(d.maxdims(&reg), vec![]);
    assert_eq!(d.resizable(&reg), false);
}

#[test]
fn test_copy_of_invalid_dataspace_fails() {
    let mut reg = Registry::new(ByteOrder::LittleEndian);
    let d = Dataspace::new(&mut reg, (2, 2), false).unwrap();
    d.decref(&mut reg);
    let e = d.copy(&mut reg).unwrap_err();
    assert!(e.message().contains("unable to copy dataspace"));
}

#[test]
fn test_invalid_sentinel_fails_for_every_capability() {
    let reg = Registry::new(ByteOrder::LittleEndian);
    assert!(Dataspace::from_id(&reg, H5I_INVALID_HID).is_err());
    assert!(hdf5_rs::group::Group::from_id(&reg, H5I_INVALID_HID).is_err());
    assert!(hdf5_rs::datatype::Datatype::from_id(&reg, H5I_INVALID_HID).is_err());
    assert!(hdf5_rs::object::Object::<()>::from_id(&reg, H5I_INVALID_HID).is_err());
}
