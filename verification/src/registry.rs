//! The session registry: at most one open command handle per physical
//! device identity for the life of the process.
//!
//! The registry itself holds only the identities; the driver keeps the actual
//! transport handles in a parallel store indexed by the slot numbers handed
//! out here, so a slot, once assigned, stands for the same open handle on
//! every later discovery.

use vstd::prelude::*;
use crate::device::DeviceLocal;
use crate::device::id_eq_spec;
use crate::errors::RunError;

verus! {

/// Whether some registered identity names the same slot as `id`.
pub open spec fn contains_id(s: Seq<DeviceLocal>, id: DeviceLocal) -> bool {
    exists|i: int| 0 <= i < s.len() && id_eq_spec(#[trigger] s[i], id)
}

/// No two registered identities name the same physical slot.
pub open spec fn ids_unique(s: Seq<DeviceLocal>) -> bool {
    forall|i: int, j: int|
        0 <= i < j < s.len() ==> !id_eq_spec(#[trigger] s[i], #[trigger] s[j])
}

/// What registering an identity does to the registered sequence: nothing if
/// it is already there, else it is appended.
pub open spec fn register_spec(s: Seq<DeviceLocal>, id: DeviceLocal) -> Seq<DeviceLocal> {
    if contains_id(s, id) {
        s
    } else {
        s.push(id)
    }
}

/// The registry of physical device identities, one slot each.
pub struct SessionRegistry {
    pub ids: Vec<DeviceLocal>,
}

impl SessionRegistry {
    /// A registry with no open session.
    pub fn new() -> (r: SessionRegistry)
        ensures
            r.ids@.len() == 0,
    {
        SessionRegistry { ids: Vec::new() }
    }

    /// Resolves an identity to its session slot. `Ok` exactly when a session
    /// is registered for it, and then the slot is the first registered match;
    /// `SessionNotFound` exactly when none is.
    pub fn session_index(&self, id: &DeviceLocal) -> (r: Result<usize, RunError>)
        ensures
            r is Ok <==> contains_id(self.ids@, *id),
            r matches Ok(i) ==> 0 <= i < self.ids@.len() && id_eq_spec(self.ids@[i as int], *id)
                && (forall|j: int| 0 <= j < i ==> !id_eq_spec(#[trigger] self.ids@[j], *id)),
            !contains_id(self.ids@, *id) ==> r == Err::<usize, RunError>(RunError::SessionNotFound),
    {
        let mut i: usize = 0;
        while i < self.ids.len()
            invariant
                0 <= i <= self.ids@.len(),
                forall|j: int| 0 <= j < i ==> !id_eq_spec(#[trigger] self.ids@[j], *id),
            decreases self.ids@.len() - i,
        {
            if self.ids[i].same_id(id) {
                return Ok(i);
            }
            i = i + 1;
        }
        Err(RunError::SessionNotFound)
    }

    /// Registers a discovered identity. The returned slot resolves the
    /// identity afterwards; the flag says whether the slot is new (the driver
    /// must open a handle for it) or an existing session was reused. An
    /// identity that is already registered leaves the registry unchanged.
    pub fn register(&mut self, id: DeviceLocal) -> (r: (usize, bool))
        ensures
            final(self).ids@ == register_spec(old(self).ids@, id),
            r.1 == !contains_id(old(self).ids@, id),
            r.0 < final(self).ids@.len(),
            id_eq_spec(final(self).ids@[r.0 as int], id),
            forall|j: int| 0 <= j < r.0 ==> !id_eq_spec(#[trigger] final(self).ids@[j], id),
            r.1 ==> r.0 == old(self).ids@.len(),
            ids_unique(old(self).ids@) ==> ids_unique(final(self).ids@),
    {
        let mut i: usize = 0;
        while i < self.ids.len()
            invariant
                0 <= i <= self.ids@.len(),
                forall|j: int| 0 <= j < i ==> !id_eq_spec(#[trigger] self.ids@[j], id),
            decreases self.ids@.len() - i,
        {
            if self.ids[i].same_id(&id) {
                return (i, false);
            }
            i = i + 1;
        }
        let slot = self.ids.len();
        proof {
            assert(id_eq_spec(id, id));
        }
        self.ids.push(id);
        proof {
            assert(id_eq_spec(self.ids@[slot as int], id));
            assert forall|a: int, b: int|
                0 <= a < b < self.ids@.len() && ids_unique(old(self).ids@) implies !id_eq_spec(
                self.ids@[a],
                self.ids@[b],
            ) by {
                if b < slot {
                } else {
                    assert(self.ids@[b] == id);
                    assert(!id_eq_spec(old(self).ids@[a], id));
                }
            }
        }
        (slot, true)
    }
}

/// Registering the same physical identity a second time opens no second
/// session: the registered sequence is unchanged, so every slot handed out
/// for that identity resolves to the one session opened first.
pub proof fn lemma_register_idempotent(s: Seq<DeviceLocal>, id: DeviceLocal)
    ensures
        contains_id(register_spec(s, id), id),
        register_spec(register_spec(s, id), id) == register_spec(s, id),
{
    if !contains_id(s, id) {
        let s2 = s.push(id);
        assert(id_eq_spec(s2[s.len() as int], id));
    }
}

/// A physical identity resolves to at most one slot: in a registry without
/// duplicate identities, two slots that both match the same identity are the
/// same slot.
pub proof fn lemma_slot_unique(s: Seq<DeviceLocal>, id: DeviceLocal, i: int, j: int)
    requires
        ids_unique(s),
        0 <= i < s.len(),
        0 <= j < s.len(),
        id_eq_spec(s[i], id),
        id_eq_spec(s[j], id),
    ensures
        i == j,
{
    if i < j {
        assert(id_eq_spec(s[i], s[j]));
    }
    if j < i {
        assert(id_eq_spec(s[j], s[i]));
    }
}

} // verus!
