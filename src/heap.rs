use std::marker::PhantomData;
use vstd::prelude::*;

verus! {

/// An owning handle: the index of a slot in a `Heap<T>`.
///
/// Whoever holds the handle owns the value in that slot. A handle is not
/// `Clone`: it moves, and consuming it through `Heap::remove` ends its life.
pub struct Box<T>(pub usize, pub PhantomData<T>);

impl<T> Box<T> {
    /// The handle that names slot `index`.
    pub fn from_index(index: usize) -> (r: Box<T>)
        ensures
            r.0 == index,
    {
        Box(index, PhantomData)
    }

    /// The slot index carried by the handle.
    pub fn index(&self) -> (r: usize)
        ensures
            r == self.0,
    {
        self.0
    }
}

/// A slot table of native values. A slot is `Some` while its value is owned
/// through a handle, and `None` once the handle has been consumed. Slots are
/// never reused, so a handle names at most one value over the table's life.
pub struct Heap<T> {
    slots: Vec<Option<T>>,
}

impl<T> View for Heap<T> {
    type V = Seq<Option<T>>;

    closed spec fn view(&self) -> Seq<Option<T>> {
        self.slots@
    }
}

impl<T> Heap<T> {
    /// Slot `h` holds a value.
    pub open spec fn live(&self, h: usize) -> bool {
        h < self@.len() && self@[h as int] is Some
    }

    /// The value in slot `h` (meaningful when `live(h)`).
    pub open spec fn value(&self, h: usize) -> T {
        self@[h as int]->Some_0
    }

    /// An empty table.
    pub fn new() -> (r: Heap<T>)
        ensures
            r@ == Seq::<Option<T>>::empty(),
    {
        Heap { slots: Vec::new() }
    }

    /// Number of slots ever handed out.
    pub fn len(&self) -> (r: usize)
        ensures
            r == self@.len(),
    {
        self.slots.len()
    }

    /// Whether `h` names a value that is still owned.
    pub fn is_live(&self, h: &Box<T>) -> (r: bool)
        ensures
            r == self.live(h.0),
    {
        h.0 < self.slots.len() && self.slots[h.0].is_some()
    }

    /// Moves `v` into a fresh slot and hands out the handle that owns it.
    pub fn insert(&mut self, v: T) -> (h: Box<T>)
        requires
            old(self)@.len() < usize::MAX,
        ensures
            final(self)@ == old(self)@.push(Some(v)),
            h.0 == old(self)@.len(),
            final(self).live(h.0),
            final(self).value(h.0) == v,
    {
        let i = self.slots.len();
        self.slots.push(Some(v));
        Box(i, PhantomData)
    }

    /// Consumes the handle and moves its value out. A handle whose slot is
    /// empty or was never handed out gives `None` and changes nothing.
    pub fn remove(&mut self, h: Box<T>) -> (r: Option<T>)
        ensures
            old(self).live(h.0) ==> r == Some(old(self).value(h.0)) && final(self)@ == old(
                self,
            )@.update(h.0 as int, None),
            !old(self).live(h.0) ==> r is None && final(self)@ == old(self)@,
            !final(self).live(h.0),
    {
        if h.0 < self.slots.len() {
            let mut taken: Option<T> = None;
            self.slots.set_and_swap(h.0, &mut taken);
            proof {
                if taken is None {
                    assert(self@ =~= old(self)@);
                }
            }
            taken
        } else {
            None
        }
    }

    /// Borrows the value that `h` owns, without consuming the handle.
    pub fn get(&self, h: &Box<T>) -> (r: Option<&T>)
        ensures
            self.live(h.0) ==> r == Some(&self.value(h.0)),
            !self.live(h.0) ==> r is None,
    {
        if h.0 < self.slots.len() {
            self.slots[h.0].as_ref()
        } else {
            None
        }
    }
    /// Exchanges the value that `h` owns with `*v`, without consuming the
    /// handle. Gives `false`, and changes nothing, where `h` owns nothing.
    pub fn swap(&mut self, h: &Box<T>, v: &mut T) -> (r: bool)
        ensures
            r == old(self).live(h.0),
            r ==> final(self)@ == old(self)@.update(h.0 as int, Some(*old(v))) && *final(v)
                == old(self).value(h.0),
            !r ==> final(self)@ == old(self)@ && *final(v) == *old(v),
    {
        if h.0 >= self.slots.len() {
            return false;
        }
        let mut slot: Option<T> = None;
        self.slots.set_and_swap(h.0, &mut slot);
        match slot {
            Some(mut x) => {
                std::mem::swap(&mut x, v);
                self.slots.set(h.0, Some(x));
                true
            },
            None => {
                assert(self@ =~= old(self)@);
                false
            },
        }
    }
}

} // verus!
