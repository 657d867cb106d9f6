use vstd::prelude::*;
use vstd::slice::slice_to_vec;

verus! {

/// A program image: the raw bytes to be copied into machine memory at the
/// program start address.
pub struct Cartridge {
    memory: Vec<u8>,
}

impl View for Cartridge {
    type V = Seq<u8>;

    closed spec fn view(&self) -> Seq<u8> {
        self.memory@
    }
}

impl Cartridge {
    /// Wraps a byte buffer as a program image.
    pub fn new(data: &[u8]) -> (r: Cartridge)
        ensures
            r@ == data@,
    {
        Cartridge { memory: slice_to_vec(data) }
    }

    /// A copy of the program image bytes.
    pub fn get_memory(&self) -> (r: Vec<u8>)
        ensures
            r@ == self@,
    {
        slice_to_vec(self.memory.as_slice())
    }
}

} // verus!
