//! A value of a key/value store, written and read whole the way a file is.
//!
//! The value stands under one key. A write replaces it with the bytes
//! written; a read hands out all of it at once. Reaching the store itself
//! is the caller's part: the caller puts there what `value` holds after a
//! write, and hands what it fetched to `load` before a read.

use vstd::prelude::*;
use vstd::slice::slice_to_vec;

verus! {

/// The value under one key of a key/value store.
pub struct WsFs {
    name: String,
    buf: Vec<u8>,
}

impl WsFs {
    /// The key that the value stands under.
    pub closed spec fn key(&self) -> Seq<char> {
        self.name@
    }

    /// The bytes of the value.
    pub closed spec fn contents(&self) -> Seq<u8> {
        self.buf@
    }

    /// The value under `name`, empty until it is written or loaded.
    pub fn new(name: &str) -> (file: WsFs)
        ensures
            file.key() == name@,
            file.contents() == Seq::<u8>::empty(),
    {
        WsFs { name: name.to_owned(), buf: Vec::new() }
    }

    /// The key that the value stands under.
    pub fn name(&self) -> (name: &str)
        ensures
            name@ == self.key(),
    {
        self.name.as_str()
    }

    /// The bytes of the value.
    pub fn value(&self) -> (bytes: &[u8])
        ensures
            bytes@ == self.contents(),
    {
        self.buf.as_slice()
    }

    /// Takes over what the store holds under the key.
    pub fn load(&mut self, value: Vec<u8>)
        ensures
            final(self).key() == old(self).key(),
            final(self).contents() == value@,
    {
        self.buf = value;
    }

    /// Writes `buf`: the value becomes those bytes, all of them, and their
    /// number is returned.
    pub fn write(&mut self, buf: &[u8]) -> (written: usize)
        ensures
            final(self).key() == old(self).key(),
            final(self).contents() == buf@,
            written == buf@.len(),
    {
        self.buf = slice_to_vec(buf);
        buf.len()
    }

    /// Reads the whole value into the front of `buf`, which must have room
    /// for it, and returns its length. What lies behind it in `buf` stays.
    pub fn read(&self, buf: &mut [u8]) -> (read: usize)
        requires
            self.contents().len() <= old(buf)@.len(),
        ensures
            read == self.contents().len(),
            final(buf)@ == self.contents() + old(buf)@.skip(read as int),
    {
        let mut i: usize = 0;
        while i < self.buf.len()
            invariant
                i <= self.buf.len(),
                self.buf@.len() <= buf@.len(),
                buf@.len() == old(buf)@.len(),
                buf@ == self.buf@.take(i as int) + old(buf)@.skip(i as int),
            decreases self.buf.len() - i,
        {
            buf[i] = self.buf[i];
            i += 1;
            assert(buf@ =~= self.buf@.take(i as int) + old(buf)@.skip(i as int));
        }
        assert(self.buf@.take(i as int) =~= self.buf@);
        i
    }
}

} // verus!
