use vstd::prelude::*;

verus! {

/// A 256-bit digest.
#[derive(Clone, Copy, Debug)]
pub struct H256 {
    inner: [u8; 32],
}

impl View for H256 {
    type V = Seq<u8>;

    closed spec fn view(&self) -> Seq<u8> {
        self.inner@
    }
}

impl H256 {
    /// Every digest holds exactly this many bytes.
    pub const SIZE: usize = 32;

    /// Every digest is 32 bytes long.
    pub proof fn lemma_len(&self)
        ensures
            self@.len() == 32,
    {
    }

    /// The all-zero digest.
    pub fn new() -> (h: H256)
        ensures
            h@ == Seq::new(32, |i: int| 0u8),
    {
        let h = H256 { inner: [0u8; 32] };
        assert(h@ =~= Seq::new(32, |i: int| 0u8));
        h
    }

    /// The digest made of the given bytes.
    pub fn from_bytes(bytes: [u8; 32]) -> (h: H256)
        ensures
            h@ == bytes@,
    {
        H256 { inner: bytes }
    }

    /// The bytes of the digest.
    pub fn as_bytes(&self) -> (bytes: &[u8; 32])
        ensures
            bytes@ == self@,
    {
        &self.inner
    }

    /// The byte at position `i`.
    pub fn byte(&self, i: usize) -> (b: u8)
        requires
            i < 32,
        ensures
            b == self@[i as int],
    {
        self.inner[i]
    }

    /// The digest in base 16.
    pub fn to_hex(&self) -> (text: String)
        ensures
            text@ == crate::utils::hex::hex_of(self@),
    {
        crate::utils::hex::to_hex(self.inner.as_slice())
    }

    /// The digest with its bytes in the opposite order.
    pub fn reversed(&self) -> (h: H256)
        ensures
            h@ == self@.reverse(),
    {
        let mut out: [u8; 32] = [0u8; 32];
        let mut i: usize = 0;
        while i < 32
            invariant
                i <= 32,
                forall|j: int| 0 <= j < i ==> out@[j] == self.inner@[31 - j],
            decreases 32 - i,
        {
            out[i] = self.inner[31 - i];
            i = i + 1;
        }
        let h = H256 { inner: out };
        assert(h@ =~= self@.reverse());
        h
    }
}

} // verus!
