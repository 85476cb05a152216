//! 32-byte account identifiers.

use vstd::prelude::*;

verus! {

/// Length in bytes of an account identifier.
pub const KEY_LEN: usize = 32;

/// An account identifier (a public key, a mint address, an authority).
#[derive(Clone, Copy, Debug, PartialEq, Eq)]
pub struct Key {
    pub bytes: [u8; 32],
}

impl View for Key {
    type V = Seq<u8>;

    open spec fn view(&self) -> Seq<u8> {
        self.bytes@
    }
}

/// The identifier whose bytes are `s` (`s` is 32 bytes long wherever this is used).
pub open spec fn key_of(s: Seq<u8>) -> Key {
    choose|k: Key| k@ == s
}

/// An identifier is determined by its bytes.
pub proof fn lemma_key_of(k: Key)
    ensures
        key_of(k@) == k,
        k@.len() == KEY_LEN,
{
    let c = key_of(k@);
    assert(c@ == k@);
    assert(c.bytes =~= k.bytes);
}

impl Key {
    /// The identifier with these bytes.
    pub fn new(bytes: [u8; 32]) -> (r: Key)
        ensures
            r.bytes == bytes,
    {
        Key { bytes }
    }

    /// The identifier held in `s` at `start .. start + 32`.
    pub fn from_slice_at(s: &[u8], start: usize) -> (r: Key)
        requires
            start as int + KEY_LEN as int <= s@.len(),
        ensures
            r@ == s@.subrange(start as int, start as int + KEY_LEN as int),
    {
        let n: usize = s.len();
        let mut bytes: [u8; 32] = [0u8; 32];
        let mut i: usize = 0;
        while i < KEY_LEN
            invariant
                i <= KEY_LEN,
                n == s@.len(),
                start as int + KEY_LEN as int <= s@.len(),
                bytes@.len() == KEY_LEN,
                forall|j: int| 0 <= j < i ==> bytes@[j] == s@[start + j],
            decreases KEY_LEN - i,
        {
            bytes[i] = s[start + i];
            i += 1;
        }
        assert(bytes@ =~= s@.subrange(start as int, start as int + KEY_LEN as int));
        Key { bytes }
    }

    /// Whether two identifiers are the same.
    pub fn same(&self, other: &Key) -> (r: bool)
        ensures
            r == (self@ == other@),
    {
        let mut i: usize = 0;
        while i < KEY_LEN
            invariant
                i <= KEY_LEN,
                self@.len() == KEY_LEN,
                other@.len() == KEY_LEN,
                forall|j: int| 0 <= j < i ==> self@[j] == other@[j],
            decreases KEY_LEN - i,
        {
            if self.bytes[i] != other.bytes[i] {
                return false;
            }
            i += 1;
        }
        assert(self@ =~= other@);
        true
    }

    /// Appends the identifier's bytes to `out`.
    pub fn write_to(&self, out: &mut Vec<u8>)
        ensures
            final(out)@ == old(out)@ + self@,
    {
        let mut i: usize = 0;
        while i < KEY_LEN
            invariant
                i <= KEY_LEN,
                self@.len() == KEY_LEN,
                out@ == old(out)@ + self@.subrange(0, i as int),
            decreases KEY_LEN - i,
        {
            out.push(self.bytes[i]);
            i += 1;
            assert(out@ =~= old(out)@ + self@.subrange(0, i as int));
        }
        assert(self@.subrange(0, KEY_LEN as int) =~= self@);
    }
}

} // verus!
