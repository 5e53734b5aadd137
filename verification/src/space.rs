//! The shape abstraction (`Dimension`) and the dataspace object built on the
//! typed wrapper.

use vstd::prelude::*;
use vstd::string::*;
use crate::error::H5Error;
use crate::object::{AllowTypes, Object, ObjectID, ObjectType};
use crate::registry::{
    DataModel, Hid, IdType, RegModel, Registry, H5S_UNLIMITED, copy_usize_vec, m_create,
    m_space_dims, m_space_maxdims, m_wf,
};
use crate::render::{dec_digits, fmt_usize};

verus! {

/// A scalar integer type used by the `Dimension` trait for indexing.
pub type Ix = usize;

/// The product of a sequence of extents; 1 for the empty sequence (the
/// empty shape is a scalar holding one element).
pub open spec fn dims_product(dims: Seq<usize>) -> int
    decreases dims.len(),
{
    if dims.len() == 0 {
        1
    } else {
        dims_product(dims.drop_last()) * dims.last()
    }
}

/// Whether every prefix product of the extents fits the index type; the
/// size computation multiplies left to right, so each partial product must
/// fit.
pub open spec fn products_fit(dims: Seq<usize>) -> bool {
    forall|i: int| 0 <= i <= dims.len() ==> dims_product(#[trigger] dims.take(i)) <= usize::MAX
}

/// Computes the product of the extents left to right.
pub fn dims_size(v: &Vec<usize>) -> (s: usize)
    requires
        products_fit(v@),
    ensures
        s as int == dims_product(v@),
{
    let mut acc: usize = 1;
    let mut i: usize = 0;
    while i < v.len()
        invariant
            i <= v.len(),
            products_fit(v@),
            acc as int == dims_product(v@.take(i as int)),
        decreases v.len() - i,
    {
        proof {
            assert(v@.take(i as int + 1).drop_last() =~= v@.take(i as int));
            assert(dims_product(v@.take(i as int + 1))
                == dims_product(v@.take(i as int)) * v@[i as int]);
        }
        acc = acc * v[i];
        i = i + 1;
    }
    proof {
        assert(v@.take(v@.len() as int) =~= v@);
    }
    acc
}

/// A shape: a rank and an ordered sequence of per-axis extents.
pub trait Dimension {
    /// The ordered extents of the shape.
    spec fn s_dims(&self) -> Seq<Ix>;

    /// The rank.
    fn ndim(&self) -> (n: usize)
        ensures
            n == self.s_dims().len(),
    ;

    /// The ordered extents.
    fn dims(&self) -> (v: Vec<Ix>)
        ensures
            v@ == self.s_dims(),
    ;

    /// The number of elements: the product of the extents, 1 for the empty
    /// shape (a scalar).
    fn size(&self) -> (s: Ix)
        requires
            products_fit(self.s_dims()),
        ensures
            s as int == dims_product(self.s_dims()),
    {
        let v = self.dims();
        dims_size(&v)
    }
}

impl Dimension for () {
    open spec fn s_dims(&self) -> Seq<Ix> {
        Seq::empty()
    }

    fn ndim(&self) -> (n: usize) {
        0
    }

    fn dims(&self) -> (v: Vec<Ix>) {
        let v: Vec<Ix> = Vec::new();
        proof {
            assert(v@ =~= Seq::<Ix>::empty());
        }
        v
    }
}

impl Dimension for Ix {
    open spec fn s_dims(&self) -> Seq<Ix> {
        seq![*self]
    }

    fn ndim(&self) -> (n: usize) {
        1
    }

    fn dims(&self) -> (v: Vec<Ix>) {
        let mut v: Vec<Ix> = Vec::new();
        v.push(*self);
        proof {
            assert(v@ =~= seq![*self]);
        }
        v
    }
}

impl Dimension for (Ix,) {
    open spec fn s_dims(&self) -> Seq<Ix> {
        seq![self.0]
    }

    fn ndim(&self) -> (n: usize) {
        1
    }

    fn dims(&self) -> (v: Vec<Ix>) {
        let mut v: Vec<Ix> = Vec::new();
        v.push(self.0);
        proof {
            assert(v@ =~= seq![self.0]);
        }
        v
    }
}

impl Dimension for (Ix, Ix) {
    open spec fn s_dims(&self) -> Seq<Ix> {
        seq![self.0, self.1]
    }

    fn ndim(&self) -> (n: usize) {
        2
    }

    fn dims(&self) -> (v: Vec<Ix>) {
        let mut v: Vec<Ix> = Vec::new();
        v.push(self.0);
        v.push(self.1);
        proof {
            assert(v@ =~= seq![self.0, self.1]);
        }
        v
    }
}

impl Dimension for (Ix, Ix, Ix) {
    open spec fn s_dims(&self) -> Seq<Ix> {
        seq![self.0, self.1, self.2]
    }

    fn ndim(&self) -> (n: usize) {
        3
    }

    fn dims(&self) -> (v: Vec<Ix>) {
        let mut v: Vec<Ix> = Vec::new();
        v.push(self.0);
        v.push(self.1);
        v.push(self.2);
        proof {
            assert(v@ =~= seq![self.0, self.1, self.2]);
        }
        v
    }
}

impl Dimension for (Ix, Ix, Ix, Ix) {
    open spec fn s_dims(&self) -> Seq<Ix> {
        seq![self.0, self.1, self.2, self.3]
    }

    fn ndim(&self) -> (n: usize) {
        4
    }

    fn dims(&self) -> (v: Vec<Ix>) {
        let mut v: Vec<Ix> = Vec::new();
        v.push(self.0);
        v.push(self.1);
        v.push(self.2);
        v.push(self.3);
        proof {
            assert(v@ =~= seq![self.0, self.1, self.2, self.3]);
        }
        v
    }
}

impl Dimension for (Ix, Ix, Ix, Ix, Ix) {
    open spec fn s_dims(&self) -> Seq<Ix> {
        seq![self.0, self.1, self.2, self.3, self.4]
    }

    fn ndim(&self) -> (n: usize) {
        5
    }

    fn dims(&self) -> (v: Vec<Ix>) {
        let mut v: Vec<Ix> = Vec::new();
        v.push(self.0);
        v.push(self.1);
        v.push(self.2);
        v.push(self.3);
        v.push(self.4);
        proof {
            assert(v@ =~= seq![self.0, self.1, self.2, self.3, self.4]);
        }
        v
    }
}

impl Dimension for (Ix, Ix, Ix, Ix, Ix, Ix) {
    open spec fn s_dims(&self) -> Seq<Ix> {
        seq![self.0, self.1, self.2, self.3, self.4, self.5]
    }

    fn ndim(&self) -> (n: usize) {
        6
    }

    fn dims(&self) -> (v: Vec<Ix>) {
        let mut v: Vec<Ix> = Vec::new();
        v.push(self.0);
        v.push(self.1);
        v.push(self.2);
        v.push(self.3);
        v.push(self.4);
        v.push(self.5);
        proof {
            assert(v@ =~= seq![self.0, self.1, self.2, self.3, self.4, self.5]);
        }
        v
    }
}

impl Dimension for Vec<Ix> {
    open spec fn s_dims(&self) -> Seq<Ix> {
        self@
    }

    fn ndim(&self) -> (n: usize) {
        self.len()
    }

    fn dims(&self) -> (v: Vec<Ix>) {
        copy_usize_vec(self)
    }
}

impl<'a, T: Dimension> Dimension for &'a T {
    open spec fn s_dims(&self) -> Seq<Ix> {
        T::s_dims(*self)
    }

    fn ndim(&self) -> (n: usize) {
        T::ndim(*self)
    }

    fn dims(&self) -> (v: Vec<Ix>) {
        T::dims(*self)
    }
}

/// The extents a dataspace reports: the stored ones, or none once the
/// identifier is invalid (the failing query is swallowed).
pub open spec fn m_eff_dims(m: RegModel, id: Hid) -> Seq<usize> {
    match m_space_dims(m, id) {
        Some(d) => d,
        None => Seq::empty(),
    }
}

/// The maximum extents a dataspace reports, likewise empty once invalid.
pub open spec fn m_eff_maxdims(m: RegModel, id: Hid) -> Seq<usize> {
    match m_space_maxdims(m, id) {
        Some(d) => d,
        None => Seq::empty(),
    }
}

/// Whether some axis's maximum extent is the unlimited sentinel.
pub open spec fn spec_resizable(m: RegModel, id: Hid) -> bool {
    exists|i: int|
        0 <= i < m_eff_maxdims(m, id).len() && m_eff_maxdims(m, id)[i] == H5S_UNLIMITED
}

/// The tuple-body rendering of a list of extents (without the enclosing
/// parentheses and without the rank-one trailing comma).
pub open spec fn spec_dims_body(dims: Seq<usize>) -> Seq<char>
    decreases dims.len(),
{
    if dims.len() == 0 {
        Seq::empty()
    } else if dims.len() == 1 {
        dec_digits(dims[0] as nat)
    } else {
        spec_dims_body(dims.drop_last()) + ", "@ + dec_digits(dims.last() as nat)
    }
}

/// Tuple-style rendering of a shape: `()` for rank 0, `(n,)` for rank 1
/// (the trailing comma distinguishes rank one from a scalar), and
/// `(n, m, ...)` otherwise.
pub open spec fn spec_space_describe(dims: Seq<usize>) -> Seq<char> {
    "("@ + spec_dims_body(dims) + (if dims.len() == 1 {
        ","@
    } else {
        Seq::<char>::empty()
    }) + ")"@
}

proof fn lemma_dims_body_step(s: Seq<usize>, i: int)
    requires
        0 <= i < s.len(),
    ensures
        i == 0 ==> spec_dims_body(s.take(1)) == dec_digits(s[0] as nat),
        i > 0 ==> spec_dims_body(s.take(i + 1)) == spec_dims_body(s.take(i)) + ", "@ + dec_digits(
            s[i] as nat,
        ),
{
    let t = s.take(i + 1);
    assert(t.drop_last() =~= s.take(i));
    assert(t.last() == s[i]);
}

/// The dataspace capability: the identifier must be a dataspace; no further
/// validation.
#[derive(Clone, Copy, PartialEq, Eq, Structural, Debug)]
pub struct DataspaceID;

impl ObjectType for DataspaceID {
    open spec fn s_allow_any() -> bool {
        false
    }

    open spec fn s_allowed(t: IdType) -> bool {
        t == IdType::Dataspace
    }

    open spec fn s_type_label() -> Seq<char> {
        "dataspace"@
    }

    open spec fn s_from_id(m: RegModel, id: Hid) -> Result<DataspaceID, H5Error> {
        Ok(DataspaceID)
    }

    open spec fn s_describe(m: RegModel, id: Hid) -> Seq<char> {
        spec_space_describe(m_eff_dims(m, id))
    }

    fn allow_types() -> (a: AllowTypes) {
        AllowTypes::Just(IdType::Dataspace)
    }

    fn from_id(reg: &Registry, id: Hid) -> (r: Result<DataspaceID, H5Error>) {
        Ok(DataspaceID)
    }

    fn type_label() -> (s: &'static str) {
        "dataspace"
    }

    fn describe(reg: &Registry, id: Hid) -> (s: String) {
        let dims: Vec<usize> = match reg.space_dims(id) {
            Some(v) => v,
            None => Vec::new(),
        };
        let mut s = String::from_str("(");
        let mut i: usize = 0;
        while i < dims.len()
            invariant
                i <= dims.len(),
                s@ == "("@ + spec_dims_body(dims@.take(i as int)),
            decreases dims.len() - i,
        {
            if i > 0 {
                s.append(", ");
            }
            let t = fmt_usize(dims[i]);
            s.append(t.as_str());
            proof {
                lemma_dims_body_step(dims@, i as int);
                assert(s@ =~= "("@ + spec_dims_body(dims@.take(i as int + 1)));
            }
            i = i + 1;
        }
        if dims.len() == 1 {
            s.append(",");
        }
        s.append(")");
        proof {
            assert(dims@.take(dims@.len() as int) =~= dims@);
            assert(s@ =~= spec_space_describe(dims@));
        }
        s
    }
}

/// A dataspace object.
pub type Dataspace = Object<DataspaceID>;

/// The maximum extents of a new dataspace: the current extents, or the
/// unlimited sentinel on every axis when the dataspace is resizable.
pub open spec fn spec_new_maxdims(dims: Seq<usize>, resizable: bool) -> Seq<usize> {
    if resizable {
        Seq::new(dims.len(), |i: int| H5S_UNLIMITED)
    } else {
        dims
    }
}

/// Law: a dataspace built from concrete extents stores exactly those
/// current extents.  Built resizable with rank at least one, every maximum
/// extent is the unlimited sentinel and the dataspace reports resizable;
/// built non-resizable, the maxima equal the extents and it does not.  A
/// rank-0 dataspace has no axis, so it never reports resizable, however it
/// was built.
pub proof fn lemma_dataspace_new(m: RegModel, dims: Seq<usize>, resizable: bool)
    requires
        m_wf(m),
        forall|i: int| 0 <= i < dims.len() ==> dims[i] != H5S_UNLIMITED,
    ensures
        ({
            let id = m.next as Hid;
            let m1 = m_create(
                m,
                DataModel::Dataspace { dims, maxdims: spec_new_maxdims(dims, resizable) },
            );
            &&& m_eff_dims(m1, id) == dims
            &&& m_eff_maxdims(m1, id) == spec_new_maxdims(dims, resizable)
            &&& (resizable ==> forall|i: int|
                0 <= i < dims.len() ==> m_eff_maxdims(m1, id)[i] == H5S_UNLIMITED)
            &&& ((resizable && dims.len() > 0) ==> spec_resizable(m1, id))
            &&& (!resizable ==> m_eff_maxdims(m1, id) == dims && !spec_resizable(m1, id))
        }),
{
    let id = m.next as Hid;
    let m1 = m_create(m, DataModel::Dataspace { dims, maxdims: spec_new_maxdims(dims, resizable) });
    if resizable && dims.len() > 0 {
        assert(m_eff_maxdims(m1, id)[0] == H5S_UNLIMITED);
    }
}

impl Dataspace {
    /// Builds a simple dataspace whose current extents are the shape's, and
    /// whose maximum extents equal them — or are all unlimited when
    /// `resizable` is set.  Fails exactly when a current extent is itself
    /// the unlimited sentinel: current extents must be concrete.
    pub fn new<D: Dimension>(reg: &mut Registry, d: D, resizable: bool) -> (r: Result<
        Dataspace,
        H5Error,
    >)
        requires
            m_wf(old(reg)@),
            old(reg)@.next < i64::MAX,
        ensures
            m_wf(final(reg)@),
            (exists|i: int| 0 <= i < d.s_dims().len() && d.s_dims()[i] == H5S_UNLIMITED) ==> {
                &&& r == Err::<Dataspace, H5Error>(H5Error::UnlimitedCurrentDim)
                &&& final(reg)@ == old(reg)@
            },
            (forall|i: int| 0 <= i < d.s_dims().len() ==> d.s_dims()[i] != H5S_UNLIMITED) ==> {
                &&& r matches Ok(ds) && ds.s_id() == old(reg)@.next as Hid
                &&& final(reg)@ == m_create(
                    old(reg)@,
                    DataModel::Dataspace {
                        dims: d.s_dims(),
                        maxdims: spec_new_maxdims(d.s_dims(), resizable),
                    },
                )
            },
    {
        let dims = d.dims();
        let mut maxdims: Vec<usize> = Vec::new();
        let mut i: usize = 0;
        while i < dims.len()
            invariant
                i <= dims.len(),
                maxdims@.len() == i,
                forall|j: int|
                    0 <= j < i ==> maxdims@[j] == (if resizable {
                        H5S_UNLIMITED
                    } else {
                        dims@[j]
                    }),
            decreases dims.len() - i,
        {
            if resizable {
                maxdims.push(H5S_UNLIMITED);
            } else {
                maxdims.push(dims[i]);
            }
            i = i + 1;
        }
        proof {
            assert(maxdims@ =~= spec_new_maxdims(dims@, resizable));
        }
        let id = match reg.create_simple(&dims, &maxdims) {
            Ok(id) => id,
            Err(e) => {
                return Err(e);
            },
        };
        match Dataspace::from_id(reg, id) {
            Ok(ds) => Ok(ds),
            Err(e) => {
                proof {
                    assert(false);
                }
                Err(e)
            },
        }
    }

    /// The current extents; empty once the identifier is invalid (the
    /// failing query is swallowed by design).
    pub fn dims(&self, reg: &Registry) -> (v: Vec<usize>)
        requires
            m_wf(reg@),
        ensures
            v@ == m_eff_dims(reg@, self.s_id()),
    {
        match reg.space_dims(self.id(reg)) {
            Some(v) => v,
            None => Vec::new(),
        }
    }

    /// The maximum extents; empty once the identifier is invalid.
    pub fn maxdims(&self, reg: &Registry) -> (v: Vec<usize>)
        requires
            m_wf(reg@),
        ensures
            v@ == m_eff_maxdims(reg@, self.s_id()),
    {
        match reg.space_maxdims(self.id(reg)) {
            Some(v) => v,
            None => Vec::new(),
        }
    }

    /// The rank; 0 once the identifier is invalid.
    pub fn ndim(&self, reg: &Registry) -> (n: usize)
        requires
            m_wf(reg@),
        ensures
            n == m_eff_dims(reg@, self.s_id()).len(),
    {
        match reg.space_ndims(self.id(reg)) {
            Some(n) => n,
            None => 0,
        }
    }

    /// True iff any axis's maximum extent equals the unlimited sentinel.
    pub fn resizable(&self, reg: &Registry) -> (r: bool)
        requires
            m_wf(reg@),
        ensures
            r == spec_resizable(reg@, self.s_id()),
    {
        let md = self.maxdims(reg);
        let mut i: usize = 0;
        while i < md.len()
            invariant
                i <= md.len(),
                md@ == m_eff_maxdims(reg@, self.s_id()),
                forall|j: int| 0 <= j < i ==> md@[j] != H5S_UNLIMITED,
            decreases md.len() - i,
        {
            if md[i] == H5S_UNLIMITED {
                proof {
                    assert(m_eff_maxdims(reg@, self.s_id())[i as int] == H5S_UNLIMITED);
                }
                return true;
            }
            i = i + 1;
        }
        false
    }

    /// An independent dataspace with identical extents under a fresh
    /// identifier; fails once this identifier is invalid.
    pub fn copy(&self, reg: &mut Registry) -> (r: Result<Dataspace, H5Error>)
        requires
            m_wf(old(reg)@),
            old(reg)@.next < i64::MAX,
        ensures
            m_wf(final(reg)@),
            match m_space_dims(old(reg)@, self.s_id()) {
                Some(dims) => {
                    &&& r matches Ok(ds) && ds.s_id() == old(reg)@.next as Hid
                    &&& final(reg)@ == m_create(
                        old(reg)@,
                        DataModel::Dataspace {
                            dims,
                            maxdims: m_space_maxdims(old(reg)@, self.s_id()).unwrap(),
                        },
                    )
                },
                None => r is Err && final(reg)@ == old(reg)@,
            },
    {
        let id = self.id(reg);
        let nid = match reg.space_copy(id) {
            Ok(n) => n,
            Err(e) => {
                return Err(e);
            },
        };
        match Dataspace::from_id(reg, nid) {
            Ok(ds) => Ok(ds),
            Err(e) => {
                proof {
                    assert(false);
                }
                Err(e)
            },
        }
    }

    /// The number of elements: the product of the current extents; 1 for a
    /// scalar (and once invalid, when the extents read as empty).
    pub fn size(&self, reg: &Registry) -> (s: usize)
        requires
            m_wf(reg@),
            products_fit(m_eff_dims(reg@, self.s_id())),
        ensures
            s as int == dims_product(m_eff_dims(reg@, self.s_id())),
    {
        let v = self.dims(reg);
        dims_size(&v)
    }
}

} // verus!
