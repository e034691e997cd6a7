//! The album: the tile art the picture chip reads, wherever it is kept.

use vstd::prelude::*;

verus! {

/// Pattern memory as the picture chip sees it: a run of bytes, read one at
/// a time. A plain slice of bytes is an album, and so is a cartridge, whose
/// board may choose which of its banks show through.
pub trait Album {
    /// The bytes in view, in address order.
    spec fn bytes(&self) -> Seq<u8>;

    /// The byte at one address.
    fn byte(&self, address: usize) -> (value: u8)
        requires
            address < self.bytes().len(),
        ensures
            value == self.bytes()[address as int],
    ;
}

impl Album for [u8] {
    open spec fn bytes(&self) -> Seq<u8> {
        self@
    }

    fn byte(&self, address: usize) -> (value: u8) {
        self[address]
    }
}

} // verus!
