//! Surfaces: rectangles that clients draw into.
use vstd::prelude::*;

use super::protocol::ObjectId;

verus! {

pub const DEFAULT_SURFACE_WIDTH: u32 = 800;

pub const DEFAULT_SURFACE_HEIGHT: u32 = 600;

/// Id of the first surface created.
pub const SURFACE_ID_START: ObjectId = 1000;

/// Most surfaces alive at once.
pub const MAX_SURFACES: usize = 32;

/// A surface and its state.
#[derive(Debug, Clone, Copy, PartialEq, Eq, Structural)]
pub struct Surface {
    pub id: ObjectId,
    pub x: i32,
    pub y: i32,
    pub width: u32,
    pub height: u32,
    pub visible: bool,
    pub buffer_attached: bool,
}

impl Surface {
    /// A hidden surface of default size at the origin.
    pub open spec fn spec_new(id: ObjectId) -> Surface {
        Surface {
            id,
            x: 0,
            y: 0,
            width: DEFAULT_SURFACE_WIDTH,
            height: DEFAULT_SURFACE_HEIGHT,
            visible: false,
            buffer_attached: false,
        }
    }

    pub fn new(id: ObjectId) -> (r: Surface)
        ensures
            r == Surface::spec_new(id),
    {
        Surface {
            id,
            x: 0,
            y: 0,
            width: DEFAULT_SURFACE_WIDTH,
            height: DEFAULT_SURFACE_HEIGHT,
            visible: false,
            buffer_attached: false,
        }
    }

    pub fn set_position(&mut self, x: i32, y: i32)
        ensures
            *final(self) == (Surface { x, y, ..*old(self) }),
    {
        self.x = x;
        self.y = y;
    }

    pub fn set_size(&mut self, width: u32, height: u32)
        ensures
            *final(self) == (Surface { width, height, ..*old(self) }),
    {
        self.width = width;
        self.height = height;
    }

    pub fn attach_buffer(&mut self)
        ensures
            *final(self) == (Surface { buffer_attached: true, ..*old(self) }),
    {
        self.buffer_attached = true;
    }

    /// Makes the surface's content visible.
    pub fn commit(&mut self)
        ensures
            *final(self) == (Surface { visible: true, ..*old(self) }),
    {
        self.visible = true;
    }

    pub fn destroy(&mut self)
        ensures
            *final(self) == (Surface { visible: false, buffer_attached: false, ..*old(self) }),
    {
        self.visible = false;
        self.buffer_attached = false;
    }
}

/// `slot` holds the surface with id `id`.
pub open spec fn surface_is(slot: Option<Surface>, id: ObjectId) -> bool {
    slot matches Some(s) && s.id == id
}

/// The first slot of `slots` that holds the surface with id `id`.
pub open spec fn is_first_with_id(slots: Seq<Option<Surface>>, k: int, id: ObjectId) -> bool {
    &&& 0 <= k < slots.len()
    &&& surface_is(slots[k], id)
    &&& forall|j: int| 0 <= j < k ==> !surface_is(slots[j], id)
}

/// Some slot holds the surface with id `id`.
pub open spec fn holds_id(slots: Seq<Option<Surface>>, id: ObjectId) -> bool {
    exists|k: int| 0 <= k < slots.len() && surface_is(slots[k], id)
}

/// The first empty slot of `slots`.
pub open spec fn is_first_empty(slots: Seq<Option<Surface>>, k: int) -> bool {
    &&& 0 <= k < slots.len()
    &&& slots[k] is None
    &&& forall|j: int| 0 <= j < k ==> slots[j] is Some
}

/// The number of occupied slots of `slots`.
pub open spec fn occupied<T>(slots: Seq<Option<T>>) -> nat
    decreases slots.len(),
{
    if slots.len() == 0 {
        0
    } else {
        occupied(slots.drop_last()) + if slots.last() is Some {
            1nat
        } else {
            0nat
        }
    }
}

pub proof fn lemma_occupied_bound<T>(slots: Seq<Option<T>>)
    ensures
        occupied(slots) <= slots.len(),
    decreases slots.len(),
{
    if slots.len() > 0 {
        lemma_occupied_bound(slots.drop_last());
    }
}

/// Counts the occupied slots.
pub fn count_occupied<T>(slots: &Vec<Option<T>>) -> (r: usize)
    ensures
        r == occupied(slots@),
{
    let mut n: usize = 0;
    let mut i: usize = 0;
    while i < slots.len()
        invariant
            0 <= i <= slots@.len(),
            n == occupied(slots@.subrange(0, i as int)),
        decreases slots@.len() - i,
    {
        proof {
            assert(slots@.subrange(0, i as int + 1).drop_last() =~= slots@.subrange(0, i as int));
            lemma_occupied_bound(slots@.subrange(0, i as int));
        }
        if slots[i].is_some() {
            n += 1;
        }
        i += 1;
    }
    assert(slots@.subrange(0, slots@.len() as int) =~= slots@);
    n
}

/// The surfaces alive, in fixed slots, and the id the next one gets.
pub struct SurfaceManager {
    surfaces: Vec<Option<Surface>>,
    next_id: ObjectId,
}

impl SurfaceManager {
    pub closed spec fn slots(&self) -> Seq<Option<Surface>> {
        self.surfaces@
    }

    pub closed spec fn next(&self) -> ObjectId {
        self.next_id
    }

    /// Fixed slot count, and every live surface has an id below the next
    /// one, so a new id is never in use.
    pub open spec fn wf(&self) -> bool {
        &&& self.slots().len() == MAX_SURFACES
        &&& forall|k: int| 0 <= k < MAX_SURFACES && (#[trigger] self.slots()[k]) is Some
            ==> self.slots()[k]->0.id < self.next()
    }

    pub fn empty() -> (r: SurfaceManager)
        ensures
            r.wf(),
            r.slots() == Seq::new(MAX_SURFACES as nat, |i: int| None::<Surface>),
            r.next() == SURFACE_ID_START,
    {
        let mut surfaces: Vec<Option<Surface>> = Vec::new();
        let mut i: usize = 0;
        while i < MAX_SURFACES
            invariant
                i <= MAX_SURFACES,
                surfaces@ == Seq::new(i as nat, |j: int| None::<Surface>),
            decreases MAX_SURFACES - i,
        {
            surfaces.push(None);
            i += 1;
            assert(surfaces@ =~= Seq::new(i as nat, |j: int| None::<Surface>));
        }
        SurfaceManager { surfaces, next_id: SURFACE_ID_START }
    }

    /// Forgets every surface and restarts the ids.
    pub fn init(&mut self)
        requires
            old(self).wf(),
        ensures
            final(self).wf(),
            final(self).slots() == Seq::new(MAX_SURFACES as nat, |i: int| None::<Surface>),
            final(self).next() == SURFACE_ID_START,
    {
        let mut i: usize = 0;
        while i < self.surfaces.len()
            invariant
                self.surfaces@.len() == MAX_SURFACES,
                0 <= i <= MAX_SURFACES,
                forall|j: int| 0 <= j < i ==> self.surfaces@[j] is None,
            decreases MAX_SURFACES - i,
        {
            self.surfaces.set(i, None);
            i += 1;
        }
        self.next_id = SURFACE_ID_START;
        assert(self.slots() =~= Seq::new(MAX_SURFACES as nat, |i: int| None::<Surface>));
    }

    /// Creates a surface in the first free slot and returns its id, or
    /// nothing when every slot is taken.
    pub fn create_surface(&mut self) -> (r: Option<ObjectId>)
        requires
            old(self).wf(),
            old(self).next() < u32::MAX,
        ensures
            final(self).wf(),
            r is None <==> forall|k: int| 0 <= k < MAX_SURFACES ==> old(self).slots()[k] is Some,
            r is None ==> *final(self) == *old(self),
            r matches Some(id) ==> {
                &&& id == old(self).next()
                &&& forall|k: int| 0 <= k < MAX_SURFACES ==> !surface_is(#[trigger] old(self).slots()[k], id)
                &&& final(self).next() == old(self).next() + 1
                &&& exists|k: int|
                    is_first_empty(old(self).slots(), k) && final(self).slots() == old(
                        self,
                    ).slots().update(k, Some(Surface::spec_new(id)))
            },
    {
        let mut i: usize = 0;
        while i < self.surfaces.len()
            invariant
                self.wf(),
                *self == *old(self),
                old(self).next() < u32::MAX,
                0 <= i <= MAX_SURFACES,
                forall|j: int| 0 <= j < i ==> self.slots()[j] is Some,
            decreases MAX_SURFACES - i,
        {
            if self.surfaces[i].is_none() {
                let id = self.next_id;
                self.next_id = self.next_id + 1;
                self.surfaces.set(i, Some(Surface::new(id)));
                assert(is_first_empty(old(self).slots(), i as int));
                return Some(id);
            }
            i += 1;
        }
        None
    }

    /// The first surface with id `id`, if any.
    pub fn get_surface(&self, id: ObjectId) -> (r: Option<&Surface>)
        requires
            self.wf(),
        ensures
            r is None <==> !holds_id(self.slots(), id),
            r matches Some(s) ==> exists|k: int| is_first_with_id(self.slots(), k, id) && self.slots()[k] == Some(*s),
    {
        match self.find(id) {
            Some(k) => self.surfaces[k].as_ref(),
            None => None,
        }
    }

    /// The first surface with id `id`, if any, to change in place.
    pub fn get_surface_mut(&mut self, id: ObjectId) -> (r: Option<&mut Surface>)
        requires
            old(self).wf(),
        ensures
            r is None <==> !holds_id(old(self).slots(), id),
            r is None ==> *final(self) == *old(self),
            r matches Some(s) ==> exists|k: int|
                is_first_with_id(old(self).slots(), k, id) && old(self).slots()[k] == Some(*s)
                    && final(self).slots() == old(self).slots().update(k, Some(*final(s)))
                    && final(self).next() == old(self).next(),
            r matches Some(s) ==> (final(s).id == s.id ==> final(self).wf()),
    {
        match self.find(id) {
            Some(k) => self.surfaces[k].as_mut(),
            None => None,
        }
    }

    fn find(&self, id: ObjectId) -> (r: Option<usize>)
        requires
            self.wf(),
        ensures
            r is None <==> !holds_id(self.slots(), id),
            r matches Some(k) ==> is_first_with_id(self.slots(), k as int, id),
    {
        let mut i: usize = 0;
        while i < self.surfaces.len()
            invariant
                self.wf(),
                0 <= i <= MAX_SURFACES,
                forall|j: int| 0 <= j < i ==> !surface_is(self.slots()[j], id),
            decreases MAX_SURFACES - i,
        {
            match &self.surfaces[i] {
                Some(s) => {
                    if s.id == id {
                        return Some(i);
                    }
                },
                None => {},
            }
            i += 1;
        }
        None
    }

    /// Removes the first surface with id `id`; false when there is none.
    pub fn destroy_surface(&mut self, id: ObjectId) -> (r: bool)
        requires
            old(self).wf(),
        ensures
            final(self).wf(),
            r == holds_id(old(self).slots(), id),
            !r ==> *final(self) == *old(self),
            r ==> exists|k: int|
                is_first_with_id(old(self).slots(), k, id) && final(self).slots() == old(
                    self,
                ).slots().update(k, None),
            final(self).next() == old(self).next(),
    {
        match self.find(id) {
            Some(k) => {
                self.surfaces.set(k, None);
                true
            },
            None => false,
        }
    }

    /// The number of live surfaces.
    pub fn count_surfaces(&self) -> (r: usize)
        ensures
            r == occupied(self.slots()),
    {
        count_occupied(&self.surfaces)
    }
}

} // verus!
