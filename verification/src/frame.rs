use vstd::prelude::*;

verus! {

/// One encoded image: its bytes together with the generation number it was
/// published under. Immutable after publication.
pub struct Frame {
    pub generation: u64,
    pub bytes: Vec<u8>,
}

impl Frame {
    /// An independent copy of this frame, byte for byte.
    pub fn duplicate(&self) -> (r: Frame)
        ensures
            r.generation == self.generation,
            r.bytes@ == self.bytes@,
    {
        let mut bytes: Vec<u8> = Vec::new();
        let mut i: usize = 0;
        while i < self.bytes.len()
            invariant
                i <= self.bytes.len(),
                bytes@ == self.bytes@.take(i as int),
            decreases self.bytes.len() - i,
        {
            bytes.push(self.bytes[i]);
            i += 1;
        }
        proof {
            assert(bytes@ == self.bytes@);
        }
        Frame { generation: self.generation, bytes }
    }
}

} // verus!
