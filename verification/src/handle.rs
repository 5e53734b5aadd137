//! The owning wrapper around one identifier's reference-count lifecycle.

use vstd::prelude::*;
use crate::error::H5Error;
use crate::registry::{
    Hid, Registry, H5I_INVALID_HID, m_count, m_decref, m_incref, m_live, m_wf,
};

verus! {

/// A `Handle` stands for exactly one unit of the registry's reference count
/// for its identifier, taken over from the creation (or duplication) call
/// that produced the identifier.  Releasing that unit goes through
/// [`Handle::decref`]; when the count reaches zero the registry frees the
/// resource and the identifier stops being valid, even if other handles
/// still name it.
#[derive(Debug)]
pub struct Handle {
    id: Hid,
}

impl Handle {
    /// The identifier this handle was built from.
    pub closed spec fn s_id(&self) -> Hid {
        self.id
    }

    /// Takes ownership of one existing reference to `id`.  Fails exactly
    /// when `id` names no live registry entry (in particular for the
    /// invalid sentinel); no reference count changes either way.
    pub fn new(reg: &Registry, id: Hid) -> (r: Result<Handle, H5Error>)
        ensures
            m_live(reg@, id) ==> (r matches Ok(h) && h.s_id() == id),
            !m_live(reg@, id) ==> r == Err::<Handle, H5Error>(H5Error::InvalidHandleId { id }),
    {
        if reg.is_valid(id) {
            Ok(Handle { id })
        } else {
            Err(H5Error::InvalidHandleId { id })
        }
    }

    /// Crate-internal: a handle over `id` with no validity check, for
    /// re-viewing an identifier that was already validated.
    pub(crate) fn from_raw(id: Hid) -> (h: Handle)
        ensures
            h.s_id() == id,
    {
        Handle { id }
    }

    /// The identifier, or the invalid sentinel once the entry has been
    /// freed.
    pub fn id(&self, reg: &Registry) -> (r: Hid)
        ensures
            r == (if m_live(reg@, self.s_id()) {
                self.s_id()
            } else {
                H5I_INVALID_HID
            }),
    {
        if reg.is_valid(self.id) {
            self.id
        } else {
            H5I_INVALID_HID
        }
    }

    /// Whether the identifier still names a live registry entry.  The
    /// registry is queried anew on every call, because the entry can be
    /// freed by paths outside this handle.
    pub fn is_valid(&self, reg: &Registry) -> (r: bool)
        ensures
            r == m_live(reg@, self.s_id()),
    {
        reg.is_valid(self.id)
    }

    /// Increments the registry count of a still-valid identifier; a no-op
    /// once the entry has been freed.
    pub fn incref(&self, reg: &mut Registry)
        requires
            m_wf(old(reg)@),
            m_live(old(reg)@, self.s_id()) ==> m_count(old(reg)@, self.s_id()) < u64::MAX,
        ensures
            m_wf(final(reg)@),
            final(reg)@ == m_incref(old(reg)@, self.s_id()),
    {
        if reg.is_valid(self.id) {
            reg.incref(self.id);
        }
    }

    /// Decrements the registry count of a still-valid identifier, which
    /// frees the resource when the count reaches zero; a safe no-op once
    /// the entry is already invalid.
    pub fn decref(&self, reg: &mut Registry)
        requires
            m_wf(old(reg)@),
        ensures
            m_wf(final(reg)@),
            final(reg)@ == m_decref(old(reg)@, self.s_id()),
    {
        if reg.is_valid(self.id) {
            reg.decref(self.id);
        }
    }
}

} // verus!
