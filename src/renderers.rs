use vstd::prelude::*;

verus! {

/// One optional renderer per GPU device, indexed by device id. A renderer is
/// built only for a device that backs a surface; the other slots stay empty.
pub struct RendererSlots<R> {
    slots: Vec<Option<R>>,
}

impl<R> RendererSlots<R> {
    /// Which slots hold a renderer, by device id.
    pub closed spec fn occupied(&self) -> Seq<bool> {
        self.slots@.map_values(|s: Option<R>| s is Some)
    }

    /// A table of `device_count` empty slots.
    pub fn new(device_count: usize) -> (r: Self)
        ensures
            r.occupied() == Seq::new(device_count as nat, |i: int| false),
    {
        let mut slots: Vec<Option<R>> = Vec::new();
        let mut i: usize = 0;
        while i < device_count
            invariant
                i <= device_count,
                slots@.len() == i,
                forall|j: int| 0 <= j < i ==> slots@[j] is None,
            decreases device_count - i,
        {
            slots.push(None);
            i = i + 1;
        }
        let r = RendererSlots { slots };
        assert(r.occupied() =~= Seq::new(device_count as nat, |i: int| false));
        r
    }

    /// The number of device slots.
    pub fn device_count(&self) -> (r: usize)
        ensures
            r == self.occupied().len(),
    {
        self.slots.len()
    }

    /// Whether device `id` has a renderer; false for an id out of range.
    pub fn has_renderer(&self, id: usize) -> (r: bool)
        ensures
            r == (id < self.occupied().len() && self.occupied()[id as int]),
    {
        if id < self.slots.len() {
            match &self.slots[id] {
                Some(_) => true,
                None => false,
            }
        } else {
            false
        }
    }

    /// Puts `renderer` in the slot of device `id`, replacing any renderer
    /// there. Returns false, and changes nothing, for an id out of range.
    pub fn install(&mut self, id: usize, renderer: R) -> (r: bool)
        ensures
            r == (id < old(self).occupied().len()),
            r ==> final(self).occupied() == old(self).occupied().update(id as int, true),
            !r ==> final(self).occupied() == old(self).occupied(),
    {
        if id < self.slots.len() {
            self.slots.set(id, Some(renderer));
            assert(self.occupied() =~= old(self).occupied().update(id as int, true));
            true
        } else {
            false
        }
    }

    /// The renderer of device `id`, if there is one, for one frame's use.
    pub fn renderer_mut(&mut self, id: usize) -> (r: Option<&mut R>)
        ensures
            r is Some == (id < old(self).occupied().len() && old(self).occupied()[id as int]),
            final(self).occupied() == old(self).occupied(),
    {
        if id < self.slots.len() {
            self.slots[id].as_mut()
        } else {
            None
        }
    }
}

} // verus!
