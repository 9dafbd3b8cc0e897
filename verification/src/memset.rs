//! Overwriting memory that held a secret.

use vstd::prelude::*;

verus! {

/// A sequence of `len` copies of `byte`.
pub open spec fn filled(len: nat, byte: u8) -> Seq<u8> {
    Seq::new(len, |i: int| byte)
}

/// A sequence of `len` zero bytes: what a buffer holds once it is wiped.
pub open spec fn zeros(len: nat) -> Seq<u8> {
    filled(len, 0u8)
}

/// The low eight bits of `c`, as C's `memset` takes its fill value.
pub open spec fn low_byte(c: i32) -> u8 {
    (c & 0xff) as u8
}

/// Overwrites the first `n` bytes of `s` with the low byte of `c` and leaves
/// the rest untouched.
///
/// The function is kept out of line, which keeps an optimiser from dropping
/// the stores together with a buffer that the caller is about to free. The
/// contract says what the buffer holds afterwards and nothing of how the
/// stores are made: a caller that needs volatile stores makes them itself.
#[inline(never)]
pub fn memset(s: &mut Vec<u8>, c: i32, n: usize)
    requires
        n <= old(s)@.len(),
    ensures
        final(s)@.len() == old(s)@.len(),
        final(s)@.subrange(0, n as int) == filled(n as nat, low_byte(c)),
        final(s)@.subrange(n as int, old(s)@.len() as int) == old(s)@.subrange(
            n as int,
            old(s)@.len() as int,
        ),
{
    let byte: u8 = (c & 0xff) as u8;
    let mut i: usize = 0;
    while i < n
        invariant
            i <= n <= s@.len(),
            s@.len() == old(s)@.len(),
            byte == low_byte(c),
            forall|j: int| 0 <= j < i ==> s@[j] == byte,
            forall|j: int| i <= j < s@.len() ==> s@[j] == old(s)@[j],
        decreases n - i,
    {
        s[i] = byte;
        i += 1;
    }
}

/// Overwrites the first `n` bytes of `dest` with zero.
#[inline]
pub fn memzero(dest: &mut Vec<u8>, n: usize)
    requires
        n <= old(dest)@.len(),
    ensures
        final(dest)@.len() == old(dest)@.len(),
        final(dest)@.subrange(0, n as int) == zeros(n as nat),
        final(dest)@.subrange(n as int, old(dest)@.len() as int) == old(dest)@.subrange(
            n as int,
            old(dest)@.len() as int,
        ),
{
    memset(dest, 0, n);
    assert(low_byte(0i32) == 0u8) by (bit_vector);
}

/// A byte buffer that holds a raw secret for the duration of one operation.
///
/// The bytes are reachable only through the buffer. Every operation of this
/// crate that is handed a buffer wipes it before returning, on success and on
/// failure alike; [`SecureBuffer::release`] wipes it and gives the storage
/// back.
pub struct SecureBuffer {
    bytes: Vec<u8>,
}

impl View for SecureBuffer {
    type V = Seq<u8>;

    closed spec fn view(&self) -> Seq<u8> {
        self.bytes@
    }
}

impl SecureBuffer {
    /// Whether every byte of the buffer is zero.
    pub open spec fn is_wiped(&self) -> bool {
        self@ == zeros(self@.len())
    }

    /// A buffer of `size` zero bytes.
    pub fn acquire(size: usize) -> (buf: SecureBuffer)
        ensures
            buf@ == zeros(size as nat),
    {
        let mut bytes: Vec<u8> = Vec::new();
        bytes.resize(size, 0u8);
        assert(bytes@ =~= zeros(size as nat));
        SecureBuffer { bytes }
    }

    /// Takes over bytes that already hold a secret.
    pub fn from_vec(bytes: Vec<u8>) -> (buf: SecureBuffer)
        ensures
            buf@ == bytes@,
    {
        SecureBuffer { bytes }
    }

    /// The number of bytes held.
    pub fn len(&self) -> (n: usize)
        ensures
            n == self@.len(),
    {
        self.bytes.len()
    }

    /// The bytes held.
    pub fn as_slice(&self) -> (bytes: &[u8])
        ensures
            bytes@ == self@,
    {
        self.bytes.as_slice()
    }

    /// Stores `byte` at `index`.
    pub fn set(&mut self, index: usize, byte: u8)
        requires
            index < old(self)@.len(),
        ensures
            final(self)@ == old(self)@.update(index as int, byte),
    {
        self.bytes[index] = byte;
    }

    /// Overwrites every byte with zero. The length does not change.
    pub fn wipe(&mut self)
        ensures
            final(self)@ == zeros(old(self)@.len()),
            final(self).is_wiped(),
    {
        let n = self.bytes.len();
        memzero(&mut self.bytes, n);
        assert(self.bytes@ =~= self.bytes@.subrange(0, n as int));
    }

    /// Wipes the buffer and hands its storage back.
    pub fn release(self) -> (storage: Vec<u8>)
        ensures
            storage@ == zeros(self@.len()),
    {
        let mut buf = self;
        buf.wipe();
        buf.bytes
    }
}

} // verus!
