//! The identifier registry: a verified model of the native library's internal
//! table of reference-counted resources.
//!
//! The native library exposes every resource (property list, group, datatype,
//! dataspace) through an integer identifier that keys a slot in one
//! process-wide registry.  This module holds that registry as an explicit
//! value: creation calls allocate a fresh identifier with reference count one,
//! `incref`/`decref` adjust the count, and a count that reaches zero frees the
//! slot.  Identifiers are never reused.  All mutation goes through `&mut
//! Registry`, so Rust's exclusive borrows provide the serialization that the
//! native registry would need a process-wide lock for.

use vstd::prelude::*;
use crate::error::H5Error;

verus! {

/// Native identifier type.
pub type Hid = i64;

/// The invalid sentinel identifier: it never names a live registry entry.
pub const H5I_INVALID_HID: Hid = -1;

/// Sentinel extent marking a dataspace axis as resizable without bound.
pub const H5S_UNLIMITED: usize = usize::MAX;

/// The coarse kind of resource an identifier refers to.
#[derive(Clone, Copy, PartialEq, Eq, Structural, Debug)]
pub enum IdType {
    Badid,
    File,
    Group,
    Datatype,
    Dataspace,
    Dataset,
    Attr,
    Proplist,
}

/// The class of a datatype.
#[derive(Clone, Copy, PartialEq, Eq, Structural, Debug)]
pub enum TypeClass {
    NoClass,
    Integer,
    Float,
    Time,
    Str,
    Compound,
    Reference,
    Nclasses,
}

/// Byte order of an atomic datatype.
#[derive(Clone, Copy, PartialEq, Eq, Structural, Debug)]
pub enum ByteOrder {
    LittleEndian,
    BigEndian,
}

/// Sign convention of an integer datatype.
#[derive(Clone, Copy, PartialEq, Eq, Structural, Debug)]
pub enum Sign {
    Unsigned,
    TwosComplement,
}

/// Full description of an atomic datatype.  Two datatypes are logically equal
/// exactly when their descriptions are equal.
#[derive(Clone, Copy, PartialEq, Eq, Structural, Debug)]
pub struct DatatypeDesc {
    pub class: TypeClass,
    pub order: ByteOrder,
    /// Total size in bytes.
    pub size: usize,
    /// Number of significant bits.
    pub precision: usize,
    /// Offset of the first significant bit.
    pub offset: usize,
    pub sign: Sign,
}

/// Extents of a simple dataspace: current dimensions and per-axis maxima
/// (`H5S_UNLIMITED` marks an axis as unbounded).
pub struct SpaceDesc {
    pub dims: Vec<usize>,
    pub maxdims: Vec<usize>,
}

/// What a registry slot holds.
pub enum ObjectData {
    Proplist,
    Group { name: String, members: usize },
    Datatype { desc: DatatypeDesc },
    Dataspace { space: SpaceDesc },
}

struct Slot {
    count: u64,
    data: ObjectData,
}

/// Mathematical view of what one slot holds.
#[verifier::ext_equal]
pub enum DataModel {
    Proplist,
    Group { name: Seq<char>, members: usize },
    Datatype { desc: DatatypeDesc },
    Dataspace { dims: Seq<usize>, maxdims: Seq<usize> },
}

/// Mathematical view of one live registry slot.
#[verifier::ext_equal]
pub struct SlotModel {
    pub count: int,
    pub data: DataModel,
}

/// Mathematical view of the whole registry: the byte order the native library
/// was built for, the next identifier to hand out, and the table of live
/// slots.
#[verifier::ext_equal]
pub struct RegModel {
    pub order: ByteOrder,
    pub next: int,
    pub table: Map<int, SlotModel>,
}

pub open spec fn data_model(d: ObjectData) -> DataModel {
    match d {
        ObjectData::Proplist => DataModel::Proplist,
        ObjectData::Group { name, members } => DataModel::Group { name: name@, members },
        ObjectData::Datatype { desc } => DataModel::Datatype { desc },
        ObjectData::Dataspace { space } => DataModel::Dataspace {
            dims: space.dims@,
            maxdims: space.maxdims@,
        },
    }
}

spec fn slot_model(s: Slot) -> SlotModel {
    SlotModel { count: s.count as int, data: data_model(s.data) }
}

/// Whether `id` names a live entry.
pub open spec fn m_live(m: RegModel, id: Hid) -> bool {
    m.table.contains_key(id as int)
}

/// The current reference count of `id`, or 0 if it is not live.
pub open spec fn m_count(m: RegModel, id: Hid) -> int {
    if m_live(m, id) {
        m.table[id as int].count
    } else {
        0
    }
}

/// What the slot of `id` holds (meaningful only when live).
pub open spec fn m_data(m: RegModel, id: Hid) -> DataModel {
    m.table[id as int].data
}

/// The kind of resource `id` refers to; `Badid` when `id` is not live.
pub open spec fn m_get_type(m: RegModel, id: Hid) -> IdType {
    if m_live(m, id) {
        match m_data(m, id) {
            DataModel::Proplist => IdType::Proplist,
            DataModel::Group { .. } => IdType::Group,
            DataModel::Datatype { .. } => IdType::Datatype,
            DataModel::Dataspace { .. } => IdType::Dataspace,
        }
    } else {
        IdType::Badid
    }
}

/// Registering a resource: the next identifier takes a fresh slot with
/// reference count one.
pub open spec fn m_create(m: RegModel, d: DataModel) -> RegModel {
    RegModel {
        order: m.order,
        next: m.next + 1,
        table: m.table.insert(m.next, SlotModel { count: 1, data: d }),
    }
}

/// Incrementing the reference count of a live entry; no effect on a dead one.
pub open spec fn m_incref(m: RegModel, id: Hid) -> RegModel {
    if m_live(m, id) {
        RegModel {
            order: m.order,
            next: m.next,
            table: m.table.insert(
                id as int,
                SlotModel { count: m_count(m, id) + 1, data: m_data(m, id) },
            ),
        }
    } else {
        m
    }
}

/// Decrementing the reference count of a live entry; a count that reaches zero
/// frees the slot.  No effect on a dead entry.
pub open spec fn m_decref(m: RegModel, id: Hid) -> RegModel {
    if !m_live(m, id) {
        m
    } else if m_count(m, id) <= 1 {
        RegModel { order: m.order, next: m.next, table: m.table.remove(id as int) }
    } else {
        RegModel {
            order: m.order,
            next: m.next,
            table: m.table.insert(
                id as int,
                SlotModel { count: m_count(m, id) - 1, data: m_data(m, id) },
            ),
        }
    }
}

/// Well-formedness of a stored dataspace: maxima cover every axis and every
/// current extent is a concrete size (not the unlimited sentinel).
pub open spec fn space_wf(dims: Seq<usize>, maxdims: Seq<usize>) -> bool {
    &&& dims.len() == maxdims.len()
    &&& forall|i: int| 0 <= i < dims.len() ==> dims[i] != H5S_UNLIMITED
}

pub open spec fn data_wf(d: DataModel) -> bool {
    match d {
        DataModel::Dataspace { dims, maxdims } => space_wf(dims, maxdims),
        _ => true,
    }
}

/// Well-formedness of the registry: identifiers are positive and below
/// `next`, counts are positive and fit the counter, and every stored
/// dataspace is well-formed.
pub open spec fn m_wf(m: RegModel) -> bool {
    &&& 1 <= m.next <= i64::MAX
    &&& forall|id: int| #[trigger] m.table.contains_key(id) ==> {
        &&& 1 <= id < m.next
        &&& 1 <= m.table[id].count <= u64::MAX
        &&& data_wf(m.table[id].data)
    }
}

/// The invalid sentinel never names a live entry of a well-formed registry,
/// so construction from it fails for every capability.
pub proof fn lemma_invalid_sentinel_never_live(m: RegModel)
    requires
        m_wf(m),
    ensures
        !m_live(m, H5I_INVALID_HID),
        m_get_type(m, H5I_INVALID_HID) == IdType::Badid,
{
}

/// Reference-count lifecycle of one resource: a fresh entry has count one;
/// after one `incref` it is two; two `decref` calls from two reach zero and
/// free the entry; and a further `decref` on the now-dead entry is a no-op.
pub proof fn lemma_refcount_lifecycle(m: RegModel, d: DataModel)
    requires
        m_wf(m),
    ensures
        ({
            let id = m.next as Hid;
            let m1 = m_create(m, d);
            let m2 = m_incref(m1, id);
            let m3 = m_decref(m2, id);
            let m4 = m_decref(m3, id);
            let m5 = m_decref(m4, id);
            &&& m_live(m1, id) && m_count(m1, id) == 1
            &&& m_live(m2, id) && m_count(m2, id) == 2
            &&& m_live(m3, id) && m_count(m3, id) == 1
            &&& !m_live(m4, id) && m_count(m4, id) == 0
            &&& m5 == m4
        }),
{
}

/// Shared ownership: while the count of a live entry is at least two, one
/// `decref` leaves the entry live, with the count reduced by exactly one.
/// Wrappers that hold the same identifier always observe the same count,
/// since the count is a function of the registry and the identifier alone.
pub proof fn lemma_decref_keeps_positive(m: RegModel, id: Hid)
    requires
        m_wf(m),
        m_live(m, id),
        m_count(m, id) >= 2,
    ensures
        m_live(m_decref(m, id), id),
        m_count(m_decref(m, id), id) == m_count(m, id) - 1,
{
}

/// The registry itself.  Slot `i` of the vector backs identifier `i + 1`;
/// freed slots stay as `None` so identifiers are never reused.
pub struct Registry {
    order: ByteOrder,
    slots: Vec<Option<Slot>>,
}

impl View for Registry {
    type V = RegModel;

    closed spec fn view(&self) -> RegModel {
        RegModel {
            order: self.order,
            next: self.slots@.len() as int + 1,
            table: Map::new(
                |id: int| 1 <= id <= self.slots@.len() && self.slots@[id - 1] is Some,
                |id: int| slot_model(self.slots@[id - 1].unwrap()),
            ),
        }
    }
}

impl Registry {
    /// An empty registry for a native library built for byte order `order`.
    pub fn new(order: ByteOrder) -> (r: Registry)
        ensures
            r@.order == order,
            r@.next == 1,
            r@.table =~= Map::<int, SlotModel>::empty(),
            m_wf(r@),
    {
        Registry { order, slots: Vec::new() }
    }

    /// The byte order the registry's predefined datatypes use.
    pub fn order(&self) -> (o: ByteOrder)
        ensures
            o == self@.order,
    {
        self.order
    }

    /// Allocates a fresh slot with reference count one.
    fn fresh_slot(&mut self, data: ObjectData) -> (id: Hid)
        requires
            m_wf(old(self)@),
            old(self)@.next < i64::MAX,
            data_wf(data_model(data)),
        ensures
            m_wf(final(self)@),
            id == old(self)@.next,
            final(self)@ == m_create(old(self)@, data_model(data)),
    {
        let ghost m0 = self@;
        let ghost dm = data_model(data);
        let idx = self.slots.len();
        self.slots.push(Some(Slot { count: 1, data }));
        let id = ((idx as u64) + 1) as i64;
        proof {
            assert(self@.table =~= m_create(m0, dm).table);
            assert(self@ =~= m_create(m0, dm));
        }
        id
    }

    /// Whether `id` names a live entry (stands for the native identifier
    /// validity query).
    pub fn is_valid(&self, id: Hid) -> (r: bool)
        ensures
            r == m_live(self@, id),
    {
        if id >= 1 && (id as u64) <= (self.slots.len() as u64) {
            let idx = (id - 1) as usize;
            self.slots[idx].is_some()
        } else {
            false
        }
    }

    /// The kind of resource `id` names; `Badid` for a dead identifier
    /// (stands for the native identifier-type query).
    pub fn get_type(&self, id: Hid) -> (t: IdType)
        ensures
            t == m_get_type(self@, id),
    {
        if id >= 1 && (id as u64) <= (self.slots.len() as u64) {
            let idx = (id - 1) as usize;
            match &self.slots[idx] {
                Some(slot) => match &slot.data {
                    ObjectData::Proplist => IdType::Proplist,
                    ObjectData::Group { .. } => IdType::Group,
                    ObjectData::Datatype { .. } => IdType::Datatype,
                    ObjectData::Dataspace { .. } => IdType::Dataspace,
                },
                None => IdType::Badid,
            }
        } else {
            IdType::Badid
        }
    }

    /// The current reference count of `id`, or `None` for a dead identifier
    /// (stands for the native reference-count query, which reports an error
    /// code there).
    pub fn get_ref(&self, id: Hid) -> (r: Option<u64>)
        ensures
            m_live(self@, id) ==> r == Some(m_count(self@, id) as u64),
            !m_live(self@, id) ==> r is None,
    {
        if id >= 1 && (id as u64) <= (self.slots.len() as u64) {
            let idx = (id - 1) as usize;
            match &self.slots[idx] {
                Some(slot) => Some(slot.count),
                None => None,
            }
        } else {
            None
        }
    }

    /// Increments the reference count of a live entry; no effect on a dead
    /// one (where the native call reports an error this layer ignores).
    pub fn incref(&mut self, id: Hid)
        requires
            m_wf(old(self)@),
            m_live(old(self)@, id) ==> m_count(old(self)@, id) < u64::MAX,
        ensures
            m_wf(final(self)@),
            final(self)@ == m_incref(old(self)@, id),
    {
        let ghost m0 = self@;
        if id >= 1 && (id as u64) <= (self.slots.len() as u64) {
            let idx = (id - 1) as usize;
            match &mut self.slots[idx] {
                Some(slot) => {
                    slot.count = slot.count + 1;
                },
                None => {},
            }
            proof {
                assert(self@.table =~= m_incref(m0, id).table);
                assert(self@ =~= m_incref(m0, id));
            }
        } else {
            proof {
                assert(self@ =~= m_incref(m0, id));
            }
        }
    }

    /// Decrements the reference count of a live entry, freeing the slot when
    /// the count reaches zero; no effect on a dead identifier.
    pub fn decref(&mut self, id: Hid)
        requires
            m_wf(old(self)@),
        ensures
            m_wf(final(self)@),
            final(self)@ == m_decref(old(self)@, id),
    {
        let ghost m0 = self@;
        if id >= 1 && (id as u64) <= (self.slots.len() as u64) {
            let idx = (id - 1) as usize;
            let count = match &self.slots[idx] {
                Some(slot) => slot.count,
                None => 0,
            };
            if count == 1 {
                self.slots[idx] = None;
            } else if count > 1 {
                match &mut self.slots[idx] {
                    Some(slot) => {
                        slot.count = slot.count - 1;
                    },
                    None => {},
                }
            }
            proof {
                assert(self@.table =~= m_decref(m0, id).table);
                assert(self@ =~= m_decref(m0, id));
            }
        } else {
            proof {
                assert(self@ =~= m_decref(m0, id));
            }
        }
    }
}

/// What a datatype entry describes, or `None` when `id` is not a live
/// datatype.
pub open spec fn m_type_desc(m: RegModel, id: Hid) -> Option<DatatypeDesc> {
    if m_live(m, id) {
        match m_data(m, id) {
            DataModel::Datatype { desc } => Some(desc),
            _ => None,
        }
    } else {
        None
    }
}

/// The class of a datatype entry; `NoClass` when `id` is not a live
/// datatype, mirroring the native class query's error value.
pub open spec fn m_type_class(m: RegModel, id: Hid) -> TypeClass {
    match m_type_desc(m, id) {
        Some(d) => d.class,
        None => TypeClass::NoClass,
    }
}

/// The current extents of a dataspace entry, or `None` when `id` is not a
/// live dataspace.
pub open spec fn m_space_dims(m: RegModel, id: Hid) -> Option<Seq<usize>> {
    if m_live(m, id) {
        match m_data(m, id) {
            DataModel::Dataspace { dims, .. } => Some(dims),
            _ => None,
        }
    } else {
        None
    }
}

/// The maximum extents of a dataspace entry, or `None` when `id` is not a
/// live dataspace.
pub open spec fn m_space_maxdims(m: RegModel, id: Hid) -> Option<Seq<usize>> {
    if m_live(m, id) {
        match m_data(m, id) {
            DataModel::Dataspace { maxdims, .. } => Some(maxdims),
            _ => None,
        }
    } else {
        None
    }
}

/// The absolute name of a group entry.
pub open spec fn m_group_name(m: RegModel, id: Hid) -> Option<Seq<char>> {
    if m_live(m, id) {
        match m_data(m, id) {
            DataModel::Group { name, .. } => Some(name),
            _ => None,
        }
    } else {
        None
    }
}

/// The member count of a group entry.
pub open spec fn m_group_members(m: RegModel, id: Hid) -> Option<usize> {
    if m_live(m, id) {
        match m_data(m, id) {
            DataModel::Group { members, .. } => Some(members),
            _ => None,
        }
    } else {
        None
    }
}

/// Copies the elements of a vector of extents.
pub(crate) fn copy_usize_vec(v: &Vec<usize>) -> (r: Vec<usize>)
    ensures
        r@ == v@,
{
    let mut r: Vec<usize> = Vec::new();
    let mut i: usize = 0;
    while i < v.len()
        invariant
            i <= v.len(),
            r@ == v@.take(i as int),
        decreases v.len() - i,
    {
        r.push(v[i]);
        proof {
            assert(r@ =~= v@.take(i as int + 1));
        }
        i = i + 1;
    }
    proof {
        assert(v@.take(v@.len() as int) =~= v@);
    }
    r
}

impl Registry {
    /// Creates a fresh property list (stands for the native property-list
    /// creation call): a plain reference-counted resource.
    pub fn create_proplist(&mut self) -> (id: Hid)
        requires
            m_wf(old(self)@),
            old(self)@.next < i64::MAX,
        ensures
            m_wf(final(self)@),
            id == old(self)@.next,
            final(self)@ == m_create(old(self)@, DataModel::Proplist),
    {
        self.fresh_slot(ObjectData::Proplist)
    }

    /// Creates a group entry carrying its absolute name and member count
    /// (stands for the native group creation and lookup calls).
    pub fn create_group(&mut self, name: String, members: usize) -> (id: Hid)
        requires
            m_wf(old(self)@),
            old(self)@.next < i64::MAX,
        ensures
            m_wf(final(self)@),
            id == old(self)@.next,
            final(self)@ == m_create(
                old(self)@,
                DataModel::Group { name: name@, members },
            ),
    {
        self.fresh_slot(ObjectData::Group { name, members })
    }

    /// Copies a datatype description into a fresh entry (stands for the
    /// native type-copy call on a predefined or committed datatype; the
    /// predefined descriptor itself is never shared or mutated).
    pub fn create_datatype(&mut self, desc: DatatypeDesc) -> (id: Hid)
        requires
            m_wf(old(self)@),
            old(self)@.next < i64::MAX,
        ensures
            m_wf(final(self)@),
            id == old(self)@.next,
            final(self)@ == m_create(old(self)@, DataModel::Datatype { desc }),
    {
        self.fresh_slot(ObjectData::Datatype { desc })
    }

    /// Creates a simple dataspace with the given current and maximum
    /// extents.  Fails exactly when a current extent is the unlimited
    /// sentinel: current extents must be concrete sizes.
    pub fn create_simple(&mut self, dims: &Vec<usize>, maxdims: &Vec<usize>) -> (r: Result<
        Hid,
        H5Error,
    >)
        requires
            m_wf(old(self)@),
            old(self)@.next < i64::MAX,
            dims@.len() == maxdims@.len(),
        ensures
            m_wf(final(self)@),
            (exists|i: int| 0 <= i < dims@.len() && dims@[i] == H5S_UNLIMITED) ==> {
                &&& r == Err::<Hid, H5Error>(H5Error::UnlimitedCurrentDim)
                &&& final(self)@ == old(self)@
            },
            (forall|i: int| 0 <= i < dims@.len() ==> dims@[i] != H5S_UNLIMITED) ==> {
                &&& r == Ok::<Hid, H5Error>(old(self)@.next as Hid)
                &&& final(self)@ == m_create(
                    old(self)@,
                    DataModel::Dataspace { dims: dims@, maxdims: maxdims@ },
                )
            },
    {
        let mut i: usize = 0;
        while i < dims.len()
            invariant
                i <= dims.len(),
                self@ == old(self)@,
                m_wf(self@),
                forall|j: int| 0 <= j < i ==> dims@[j] != H5S_UNLIMITED,
            decreases dims.len() - i,
        {
            if dims[i] == H5S_UNLIMITED {
                proof {
                    assert(dims@[i as int] == H5S_UNLIMITED);
                }
                return Err(H5Error::UnlimitedCurrentDim);
            }
            i = i + 1;
        }
        let d = copy_usize_vec(dims);
        let md = copy_usize_vec(maxdims);
        let id = self.fresh_slot(ObjectData::Dataspace { space: SpaceDesc { dims: d, maxdims: md } });
        Ok(id)
    }

    /// Copies a live dataspace entry to a fresh identifier with identical
    /// extents (stands for the native dataspace-copy call); fails when `id`
    /// is not a live dataspace.
    pub fn space_copy(&mut self, id: Hid) -> (r: Result<Hid, H5Error>)
        requires
            m_wf(old(self)@),
            old(self)@.next < i64::MAX,
        ensures
            m_wf(final(self)@),
            match m_space_dims(old(self)@, id) {
                Some(dims) => {
                    &&& r == Ok::<Hid, H5Error>(old(self)@.next as Hid)
                    &&& final(self)@ == m_create(
                        old(self)@,
                        DataModel::Dataspace {
                            dims,
                            maxdims: m_space_maxdims(old(self)@, id).unwrap(),
                        },
                    )
                },
                None => {
                    &&& r matches Err(e) && e matches H5Error::NativeCall { message }
                        && message@ == "unable to copy dataspace"@
                    &&& final(self)@ == old(self)@
                },
            },
    {
        let copied: Option<(Vec<usize>, Vec<usize>)> = if id >= 1 && (id as u64) <= (
        self.slots.len() as u64) {
            let idx = (id - 1) as usize;
            match &self.slots[idx] {
                Some(slot) => match &slot.data {
                    ObjectData::Dataspace { space } => {
                        Some((copy_usize_vec(&space.dims), copy_usize_vec(&space.maxdims)))
                    },
                    _ => None,
                },
                None => None,
            }
        } else {
            None
        };
        match copied {
            Some((d, md)) => {
                let nid = self.fresh_slot(
                    ObjectData::Dataspace { space: SpaceDesc { dims: d, maxdims: md } },
                );
                Ok(nid)
            },
            None => Err(H5Error::NativeCall { message: "unable to copy dataspace" }),
        }
    }

    /// The class of a datatype entry; `NoClass` when `id` is not a live
    /// datatype (where the native class query reports an error).
    pub fn type_class(&self, id: Hid) -> (c: TypeClass)
        ensures
            c == m_type_class(self@, id),
    {
        match self.type_desc(id) {
            Some(d) => d.class,
            None => TypeClass::NoClass,
        }
    }

    /// The full description of a datatype entry, or `None` when `id` is not
    /// a live datatype.
    pub fn type_desc(&self, id: Hid) -> (d: Option<DatatypeDesc>)
        ensures
            d == m_type_desc(self@, id),
    {
        if id >= 1 && (id as u64) <= (self.slots.len() as u64) {
            let idx = (id - 1) as usize;
            match &self.slots[idx] {
                Some(slot) => match &slot.data {
                    ObjectData::Datatype { desc } => Some(*desc),
                    _ => None,
                },
                None => None,
            }
        } else {
            None
        }
    }

    /// The rank of a dataspace entry, or `None` when `id` is not a live
    /// dataspace.
    pub fn space_ndims(&self, id: Hid) -> (r: Option<usize>)
        ensures
            match m_space_dims(self@, id) {
                Some(ds) => ds.len() <= usize::MAX && r == Some(ds.len() as usize),
                None => r is None,
            },
    {
        if id >= 1 && (id as u64) <= (self.slots.len() as u64) {
            let idx = (id - 1) as usize;
            match &self.slots[idx] {
                Some(slot) => match &slot.data {
                    ObjectData::Dataspace { space } => Some(space.dims.len()),
                    _ => None,
                },
                None => None,
            }
        } else {
            None
        }
    }

    /// The current extents of a dataspace entry, or `None` when `id` is not
    /// a live dataspace.
    pub fn space_dims(&self, id: Hid) -> (r: Option<Vec<usize>>)
        ensures
            match m_space_dims(self@, id) {
                Some(ds) => r matches Some(v) && v@ == ds,
                None => r is None,
            },
    {
        if id >= 1 && (id as u64) <= (self.slots.len() as u64) {
            let idx = (id - 1) as usize;
            match &self.slots[idx] {
                Some(slot) => match &slot.data {
                    ObjectData::Dataspace { space } => Some(copy_usize_vec(&space.dims)),
                    _ => None,
                },
                None => None,
            }
        } else {
            None
        }
    }

    /// The maximum extents of a dataspace entry, or `None` when `id` is not
    /// a live dataspace.
    pub fn space_maxdims(&self, id: Hid) -> (r: Option<Vec<usize>>)
        ensures
            match m_space_maxdims(self@, id) {
                Some(ds) => r matches Some(v) && v@ == ds,
                None => r is None,
            },
    {
        if id >= 1 && (id as u64) <= (self.slots.len() as u64) {
            let idx = (id - 1) as usize;
            match &self.slots[idx] {
                Some(slot) => match &slot.data {
                    ObjectData::Dataspace { space } => Some(copy_usize_vec(&space.maxdims)),
                    _ => None,
                },
                None => None,
            }
        } else {
            None
        }
    }

    /// The absolute name of a group entry, or `None` when `id` is not a
    /// live group.
    pub fn group_name(&self, id: Hid) -> (r: Option<String>)
        ensures
            match m_group_name(self@, id) {
                Some(n) => r matches Some(s) && s@ == n,
                None => r is None,
            },
    {
        if id >= 1 && (id as u64) <= (self.slots.len() as u64) {
            let idx = (id - 1) as usize;
            match &self.slots[idx] {
                Some(slot) => match &slot.data {
                    ObjectData::Group { name, .. } => Some(name.clone()),
                    _ => None,
                },
                None => None,
            }
        } else {
            None
        }
    }

    /// The member count of a group entry, or `None` when `id` is not a live
    /// group.
    pub fn group_members(&self, id: Hid) -> (r: Option<usize>)
        ensures
            match m_group_members(self@, id) {
                Some(n) => r == Some(n),
                None => r is None,
            },
    {
        if id >= 1 && (id as u64) <= (self.slots.len() as u64) {
            let idx = (id - 1) as usize;
            match &self.slots[idx] {
                Some(slot) => match &slot.data {
                    ObjectData::Group { members, .. } => Some(*members),
                    _ => None,
                },
                None => None,
            }
        } else {
            None
        }
    }
}

} // verus!
