use std::marker::PhantomData;
use vstd::prelude::*;
use vstd::string::StringSliceAdditionalSpecFns;
use vstd::utf8::{decode_utf8, valid_utf8};

use crate::heap::{Box, Heap};

verus! {

/// Unmarshal: turns a boundary value back into the native value it stands
/// for, taking ownership of it out of `store`.
pub trait IntoNative: Sized {
    type Output;

    type Store;

    /// `out` is what unmarshaling `self` gives, and `after` is `before` with
    /// the value taken out.
    spec fn unmarshaled(&self, before: Self::Store, after: Self::Store, out: Self::Output) -> bool;

    fn into_native(self, store: &mut Self::Store) -> (r: Self::Output)
        ensures
            self.unmarshaled(*old(store), *final(store), r),
    ;
}

/// Marshal: moves a native value into `store` and gives the boundary value
/// that now owns it. No payload is copied.
pub trait IntoFfi: Sized {
    type Output;

    type Store;

    /// `store` has room for one more value.
    spec fn can_marshal(store: Self::Store) -> bool;

    /// `out` owns `self`, which `after` holds in a fresh slot of `before`.
    spec fn marshaled(self, before: Self::Store, after: Self::Store, out: Self::Output) -> bool;

    fn into_ffi(self, store: &mut Self::Store) -> (r: Self::Output)
        requires
            Self::can_marshal(*old(store)),
        ensures
            Self::marshaled(self, *old(store), *final(store), r),
    ;
}

/// A power of two.
pub open spec fn is_pow2(n: nat) -> bool
    decreases n,
{
    if n <= 1 {
        n == 1
    } else {
        n % 2 == 0 && is_pow2(n / 2)
    }
}

/// What the native allocator accepts as a layout: the alignment is a power of
/// two and the size, rounded up to a multiple of it, stays within `isize::MAX`.
pub open spec fn layout_ok(size: usize, align: usize) -> bool {
    &&& is_pow2(align as nat)
    &&& size <= isize::MAX - (align - 1)
}

/// Relies on std::alloc::Layout::from_size_align, which succeeds exactly when
/// `align` is a power of two and `size` rounded up to `align` fits in isize.
#[verifier::external_body]
fn native_layout_ok(size: usize, align: usize) -> (r: bool)
    ensures
        r == layout_ok(size, align),
{
    std::alloc::Layout::from_size_align(size, align).is_ok()
}

/// Size and alignment of a block of memory, as both sides write it.
#[derive(Clone, Copy, Debug, PartialEq, Eq, Structural)]
pub struct Layout {
    pub size: usize,
    pub align: usize,
}

impl Layout {
    pub open spec fn valid(&self) -> bool {
        layout_ok(self.size, self.align)
    }

    /// The layout, once the allocator's own rules accept it.
    pub fn into_native(self) -> (r: Option<Layout>)
        ensures
            r is Some <==> self.valid(),
            r matches Some(l) ==> l == self,
    {
        if native_layout_ok(self.size, self.align) {
            Some(self)
        } else {
            None
        }
    }
}

/// A borrowed view of the first `len` elements of the buffer in slot `ptr`.
/// It owns nothing and is meant for the duration of one call.
pub struct Slice<T> {
    pub ptr: usize,
    pub len: usize,
    pub elem: PhantomData<T>,
}

impl<T> Slice<T> {
    /// The view covers live, initialised elements of `store`.
    pub open spec fn in_bounds(&self, store: &Heap<std::vec::Vec<T>>) -> bool {
        store.live(self.ptr) && self.len <= store.value(self.ptr)@.len()
    }

    /// The elements the view describes.
    pub open spec fn elements(&self, store: &Heap<std::vec::Vec<T>>) -> Seq<T> {
        store.value(self.ptr)@.subrange(0, self.len as int)
    }

    /// A view of the whole buffer that `buf` owns.
    pub fn into_ffi(buf: &Box<std::vec::Vec<T>>, store: &Heap<std::vec::Vec<T>>) -> (r: Option<
        Slice<T>,
    >)
        ensures
            r is Some <==> store.live(buf.0),
            r matches Some(s) ==> s.ptr == buf.0 && s.in_bounds(store) && s.elements(store)
                == store.value(buf.0)@,
    {
        match store.get(buf) {
            Some(v) => {
                let r = Slice { ptr: buf.0, len: v.len(), elem: PhantomData };
                assert(r.elements(store) =~= store.value(buf.0)@);
                Some(r)
            },
            None => None,
        }
    }

    /// The borrowed elements, when the view lies inside a live buffer.
    pub fn into_native<'a>(self, store: &'a Heap<std::vec::Vec<T>>) -> (r: Option<&'a [T]>)
        ensures
            r is Some <==> self.in_bounds(store),
            r matches Some(s) ==> s@ == self.elements(store),
    {
        let h = Box::from_index(self.ptr);
        match store.get(&h) {
            Some(v) => {
                if self.len <= v.len() {
                    Some(vstd::slice::slice_subrange(v.as_slice(), 0, self.len))
                } else {
                    None
                }
            },
            None => None,
        }
    }
}

/// Relies on std::str::from_utf8: it accepts exactly the valid UTF-8
/// sequences and returns the text that they encode, borrowing the bytes.
#[verifier::external_body]
fn utf8_text(b: &[u8]) -> (r: Option<&str>)
    ensures
        r is Some <==> valid_utf8(b@),
        r matches Some(s) ==> s@ == decode_utf8(b@) && s.spec_bytes() == b@,
{
    std::str::from_utf8(b).ok()
}

/// A borrowed view of UTF-8 text.
pub struct Str(pub Slice<u8>);

impl Str {
    /// A view of the whole buffer that `buf` owns, as text.
    pub fn into_ffi(buf: &Box<std::vec::Vec<u8>>, store: &Heap<std::vec::Vec<u8>>) -> (r: Option<
        Str,
    >)
        ensures
            r is Some <==> store.live(buf.0),
            r matches Some(s) ==> s.0.ptr == buf.0 && s.0.in_bounds(store) && s.0.elements(store)
                == store.value(buf.0)@,
    {
        match Slice::into_ffi(buf, store) {
            Some(s) => Some(Str(s)),
            None => None,
        }
    }

    /// The text, when the view lies inside a live buffer and its bytes are
    /// valid UTF-8.
    pub fn into_native<'a>(self, store: &'a Heap<std::vec::Vec<u8>>) -> (r: Option<&'a str>)
        ensures
            r is Some <==> self.0.in_bounds(store) && valid_utf8(self.0.elements(store)),
            r matches Some(s) ==> s@ == decode_utf8(self.0.elements(store)) && s.spec_bytes()
                == self.0.elements(store),
    {
        match self.0.into_native(store) {
            Some(b) => utf8_text(b),
            None => None,
        }
    }
}

/// An owned, growable buffer held through a handle.
pub struct Vec<T>(pub Box<std::vec::Vec<T>>);

impl<T> IntoFfi for std::vec::Vec<T> {
    type Output = Vec<T>;

    type Store = Heap<std::vec::Vec<T>>;

    open spec fn can_marshal(store: Heap<std::vec::Vec<T>>) -> bool {
        store@.len() < usize::MAX
    }

    open spec fn marshaled(
        self,
        before: Heap<std::vec::Vec<T>>,
        after: Heap<std::vec::Vec<T>>,
        out: Vec<T>,
    ) -> bool {
        &&& after@ == before@.push(Some(self))
        &&& out.0.0 == before@.len()
    }

    fn into_ffi(self, store: &mut Heap<std::vec::Vec<T>>) -> (r: Vec<T>) {
        Vec(store.insert(self))
    }
}

impl<T> IntoNative for Vec<T> {
    type Output = Option<std::vec::Vec<T>>;

    type Store = Heap<std::vec::Vec<T>>;

    open spec fn unmarshaled(
        &self,
        before: Heap<std::vec::Vec<T>>,
        after: Heap<std::vec::Vec<T>>,
        out: Option<std::vec::Vec<T>>,
    ) -> bool {
        taken(before, after, self.0.0, out)
    }

    fn into_native(self, store: &mut Heap<std::vec::Vec<T>>) -> (r: Option<std::vec::Vec<T>>) {
        store.remove(self.0)
    }
}

/// An owned UTF-8 text held through a handle.
pub struct String(pub Box<std::string::String>);

impl IntoFfi for std::string::String {
    type Output = String;

    type Store = Heap<std::string::String>;

    open spec fn can_marshal(store: Heap<std::string::String>) -> bool {
        store@.len() < usize::MAX
    }

    open spec fn marshaled(
        self,
        before: Heap<std::string::String>,
        after: Heap<std::string::String>,
        out: String,
    ) -> bool {
        &&& after@ == before@.push(Some(self))
        &&& out.0.0 == before@.len()
    }

    fn into_ffi(self, store: &mut Heap<std::string::String>) -> (r: String) {
        String(store.insert(self))
    }
}

impl IntoNative for String {
    type Output = Option<std::string::String>;

    type Store = Heap<std::string::String>;

    open spec fn unmarshaled(
        &self,
        before: Heap<std::string::String>,
        after: Heap<std::string::String>,
        out: Option<std::string::String>,
    ) -> bool {
        taken(before, after, self.0.0, out)
    }

    fn into_native(self, store: &mut Heap<std::string::String>) -> (r: Option<std::string::String>) {
        store.remove(self.0)
    }
}

impl<T> IntoFfi for std::boxed::Box<T> {
    type Output = Box<T>;

    type Store = Heap<T>;

    open spec fn can_marshal(store: Heap<T>) -> bool {
        store@.len() < usize::MAX
    }

    open spec fn marshaled(self, before: Heap<T>, after: Heap<T>, out: Box<T>) -> bool {
        &&& after@ == before@.push(Some(*self))
        &&& out.0 == before@.len()
    }

    fn into_ffi(self, store: &mut Heap<T>) -> (r: Box<T>) {
        store.insert(*self)
    }
}

impl<T> IntoNative for Box<T> {
    type Output = Option<std::boxed::Box<T>>;

    type Store = Heap<T>;

    open spec fn unmarshaled(
        &self,
        before: Heap<T>,
        after: Heap<T>,
        out: Option<std::boxed::Box<T>>,
    ) -> bool {
        &&& before.live(self.0) ==> (out matches Some(b) && *b == before.value(self.0)) && after@
            == before@.update(self.0 as int, None)
        &&& !before.live(self.0) ==> out is None && after@ == before@
    }

    fn into_native(self, store: &mut Heap<T>) -> (r: Option<std::boxed::Box<T>>) {
        match store.remove(self) {
            Some(v) => Some(std::boxed::Box::new(v)),
            None => None,
        }
    }
}

/// Marshaling an owned text and unmarshaling the handle gives the same text
/// back, and leaves no slot of the table owned.
pub proof fn text_round_trip(
    s: std::string::String,
    s0: Heap<std::string::String>,
    s1: Heap<std::string::String>,
    s2: Heap<std::string::String>,
    h: String,
    out: Option<std::string::String>,
)
    requires
        s.marshaled(s0, s1, h),
        h.unmarshaled(s1, s2, out),
    ensures
        out == Some(s),
        out->Some_0@ == s@,
        s2@ == s0@.push(None),
{
    assert(s2@ =~= s0@.push(None));
}

/// Marshaling a growable buffer and unmarshaling the handle gives the same
/// elements in the same order, and leaves no slot of the table owned.
pub proof fn buffer_round_trip<T>(
    v: std::vec::Vec<T>,
    s0: Heap<std::vec::Vec<T>>,
    s1: Heap<std::vec::Vec<T>>,
    s2: Heap<std::vec::Vec<T>>,
    h: Vec<T>,
    out: Option<std::vec::Vec<T>>,
)
    requires
        v.marshaled(s0, s1, h),
        h.unmarshaled(s1, s2, out),
    ensures
        out == Some(v),
        out->Some_0@ == v@,
        s2@ == s0@.push(None),
{
    assert(s2@ =~= s0@.push(None));
}

/// A handle is consumed once: after it has given its value back, unmarshaling
/// it again gives nothing and leaves the table as it is.
pub proof fn handle_single_use<T>(
    h: Box<T>,
    s0: Heap<T>,
    s1: Heap<T>,
    s2: Heap<T>,
    first: Option<std::boxed::Box<T>>,
    second: Option<std::boxed::Box<T>>,
)
    requires
        h.unmarshaled(s0, s1, first),
        h.unmarshaled(s1, s2, second),
    ensures
        first is Some <==> s0.live(h.0),
        second is None,
        s2@ == s1@,
        !s2.live(h.0),
{
}

/// `out` is the value that slot `h` of `before` held, and `after` has that
/// slot emptied; a slot that held nothing gives `None` and stays as it was.
pub open spec fn taken<T>(before: Heap<T>, after: Heap<T>, h: usize, out: Option<T>) -> bool {
    &&& before.live(h) ==> out == Some(before.value(h)) && after@ == before@.update(h as int, None)
    &&& !before.live(h) ==> out is None && after@ == before@
}

} // verus!
