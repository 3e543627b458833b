use vstd::prelude::*;

verus! {

/// A 32-byte account address.
///
/// The engine never derives or inspects addresses: it only carries them
/// (who owns a configuration, which asset a vault stakes or rewards) and
/// hands their bytes to the substrate's key-derivation service as seeds.
#[derive(Clone, Copy, Debug)]
pub struct Pubkey {
    pub bytes: [u8; 32],
}

impl View for Pubkey {
    type V = Seq<u8>;

    open spec fn view(&self) -> Seq<u8> {
        self.bytes@
    }
}

impl Pubkey {
    /// The address as owned bytes, for use as a derivation seed.
    pub fn to_bytes(&self) -> (r: Vec<u8>)
        ensures
            r@ == self@,
    {
        vstd::slice::slice_to_vec(self.bytes.as_slice())
    }
}

} // verus!
