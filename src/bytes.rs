//! The [AsBytes] trait for values that hold a contiguous block of bytes, with implementations
//! for the common byte and text containers of the standard library.

use vstd::prelude::*;
use vstd::utf8::encode_utf8;
use vstd::string::StringSliceAdditionalSpecFns;

use std::borrow::Cow;
use std::rc::Rc;
use std::sync::Arc;

verus! {

/// A trait for types which represent a contiguous block of bytes, such as `&[u8]` or `Vec<u8>`.
pub trait AsBytes {
    /// The bytes held by this value.
    spec fn byte_view(&self) -> Seq<u8>;

    /// Gets a slice of the entire block of bytes contained in this instance.
    fn as_bytes(&self) -> (r: &[u8])
        ensures
            r@ == self.byte_view(),
    ;
}

impl AsBytes for [u8] {
    open spec fn byte_view(&self) -> Seq<u8> {
        self@
    }

    fn as_bytes(&self) -> (r: &[u8]) {
        self
    }
}

impl<const LEN: usize> AsBytes for [u8; LEN] {
    open spec fn byte_view(&self) -> Seq<u8> {
        self@
    }

    fn as_bytes(&self) -> (r: &[u8]) {
        self.as_slice()
    }
}

impl AsBytes for Vec<u8> {
    open spec fn byte_view(&self) -> Seq<u8> {
        self@
    }

    fn as_bytes(&self) -> (r: &[u8]) {
        self.as_slice()
    }
}

impl AsBytes for str {
    open spec fn byte_view(&self) -> Seq<u8> {
        self.spec_bytes()
    }

    fn as_bytes(&self) -> (r: &[u8]) {
        str::as_bytes(self)
    }
}

impl AsBytes for String {
    open spec fn byte_view(&self) -> Seq<u8> {
        encode_utf8(self@)
    }

    fn as_bytes(&self) -> (r: &[u8]) {
        self.as_str().as_bytes()
    }
}

impl<T: AsBytes + ?Sized> AsBytes for &T {
    open spec fn byte_view(&self) -> Seq<u8> {
        (**self).byte_view()
    }

    fn as_bytes(&self) -> (r: &[u8]) {
        T::as_bytes(self)
    }
}

impl<T: AsBytes + ?Sized> AsBytes for &mut T {
    open spec fn byte_view(&self) -> Seq<u8> {
        (**self).byte_view()
    }

    fn as_bytes(&self) -> (r: &[u8]) {
        T::as_bytes(self)
    }
}

impl<T: AsBytes + ?Sized> AsBytes for Box<T> {
    open spec fn byte_view(&self) -> Seq<u8> {
        (**self).byte_view()
    }

    fn as_bytes(&self) -> (r: &[u8]) {
        T::as_bytes(self)
    }
}

impl<T: AsBytes + ?Sized> AsBytes for Rc<T> {
    open spec fn byte_view(&self) -> Seq<u8> {
        (**self).byte_view()
    }

    fn as_bytes(&self) -> (r: &[u8]) {
        T::as_bytes(self)
    }
}

impl<T: AsBytes + ?Sized> AsBytes for Arc<T> {
    open spec fn byte_view(&self) -> Seq<u8> {
        (**self).byte_view()
    }

    fn as_bytes(&self) -> (r: &[u8]) {
        T::as_bytes(self)
    }
}

impl<'cow, T: AsBytes + Clone> AsBytes for Cow<'cow, T> {
    open spec fn byte_view(&self) -> Seq<u8> {
        match self {
            Cow::Borrowed(borrowed) => borrowed.byte_view(),
            Cow::Owned(owned) => owned.byte_view(),
        }
    }

    fn as_bytes(&self) -> (r: &[u8]) {
        match self {
            Cow::Borrowed(borrowed) => borrowed.as_bytes(),
            Cow::Owned(owned) => owned.as_bytes(),
        }
    }
}

} // verus!
