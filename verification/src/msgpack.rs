//! A value that travels as MessagePack.

use std::ops::{Deref, DerefMut};
use vstd::prelude::*;
use crate::text::same_text;

verus! {

/// The most bytes of a body that are read as MessagePack: one mebibyte.
pub const MAX_SIZE: u64 = 1048576;

/// A value whose wire form is MessagePack.
#[derive(Debug)]
pub struct MsgPack<T>(pub T);

impl<T> MsgPack<T> {
    /// Consumes the wrapper and returns the wrapped item.
    pub fn into_inner(self) -> (inner: T)
        ensures
            inner == self.0,
    {
        self.0
    }
}

impl<T> Deref for MsgPack<T> {
    type Target = T;

    fn deref<'a>(&'a self) -> (inner: &'a T)
        ensures
            *inner == self.0,
    {
        &self.0
    }
}

impl<T> DerefMut for MsgPack<T> {
    fn deref_mut<'a>(&'a mut self) -> (inner: &'a mut T)
        ensures
            *inner == old(self).0,
            *final(inner) == final(self).0,
    {
        &mut self.0
    }
}

/// Whether a media type, given as its type and its subtype, announces
/// MessagePack.
pub open spec fn announces_msgpack(ttype: Seq<char>, subtype: Seq<char>) -> bool {
    &&& ttype == "application"@ || ttype == "bin"@
    &&& subtype == "msgpack"@ || subtype == "x-msgpack"@
}

/// Whether a body of the media type `ttype/subtype` is read as MessagePack.
/// The accepted media types are `application/msgpack`,
/// `application/x-msgpack`, `bin/msgpack` and `bin/x-msgpack`.
pub fn is_msgpack_content_type(ttype: &str, subtype: &str) -> (accepted: bool)
    ensures
        accepted == announces_msgpack(ttype@, subtype@),
{
    (same_text(ttype, "application") || same_text(ttype, "bin")) && (same_text(
        subtype,
        "msgpack",
    ) || same_text(subtype, "x-msgpack"))
}

} // verus!
