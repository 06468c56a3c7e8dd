use vstd::prelude::*;

verus! {

/// A forward-only position over a borrowed byte slice. Each byte is handed
/// out at most once; bytes already handed out are not revisited.
pub struct ByteCursor<'a> {
    bytes: &'a [u8],
    pos: usize,
}

impl<'a> ByteCursor<'a> {
    #[verifier::type_invariant]
    spec fn inv(self) -> bool {
        self.pos <= self.bytes@.len()
    }

    /// The bytes not yet handed out.
    pub closed spec fn view(&self) -> Seq<u8> {
        self.bytes@.subrange(self.pos as int, self.bytes@.len() as int)
    }

    /// A cursor at the start of `bytes`.
    pub fn new(bytes: &'a [u8]) -> (r: Self)
        ensures
            r@ == bytes@,
    {
        let r = ByteCursor { bytes, pos: 0 };
        assert(r@ =~= bytes@);
        r
    }

    /// Hands out the next byte, or `None` once the bytes are exhausted.
    pub fn next_byte(&mut self) -> (r: Option<u8>)
        ensures
            old(self)@.len() == 0 ==> r is None && final(self)@ == old(self)@,
            old(self)@.len() > 0 ==> r == Some(old(self)@[0]) && final(self)@ == old(self)@.drop_first(),
    {
        proof { use_type_invariant(&*self); }
        if self.pos < self.bytes.len() {
            let b = self.bytes[self.pos];
            self.pos = self.pos + 1;
            proof { assert(final(self)@ =~= old(self)@.drop_first()); }
            Some(b)
        } else {
            None
        }
    }

    /// The number of bytes not yet handed out.
    pub fn count(&self) -> (r: usize)
        ensures
            r == self@.len(),
    {
        proof { use_type_invariant(self); }
        self.bytes.len() - self.pos
    }
}

} // verus!
