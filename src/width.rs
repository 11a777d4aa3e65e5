use vstd::prelude::*;

verus! {

/// The plaintext bit widths that the harness supports.
#[derive(Clone, Copy, Debug, PartialEq, Eq, Structural)]
pub enum Width {
    W8,
    W16,
    W32,
}

impl Width {
    /// Number of bits of a plaintext of this width.
    pub open spec fn spec_bits(self) -> nat {
        match self {
            Width::W8 => 8,
            Width::W16 => 16,
            Width::W32 => 32,
        }
    }

    /// Number of distinct plaintexts of this width: 2 to the power of its bits.
    pub open spec fn spec_modulus(self) -> nat {
        match self {
            Width::W8 => 0x100,
            Width::W16 => 0x1_0000,
            Width::W32 => 0x1_0000_0000,
        }
    }

    /// A plaintext of this width holds `v`.
    pub open spec fn holds(self, v: nat) -> bool {
        v < self.spec_modulus()
    }

    pub fn bits(&self) -> (r: u32)
        ensures
            r == self.spec_bits(),
    {
        match self {
            Width::W8 => 8,
            Width::W16 => 16,
            Width::W32 => 32,
        }
    }

    pub fn modulus(&self) -> (r: u64)
        ensures
            r == self.spec_modulus(),
    {
        match self {
            Width::W8 => 0x100,
            Width::W16 => 0x1_0000,
            Width::W32 => 0x1_0000_0000,
        }
    }

    /// Whether `v` is a representable plaintext of this width.
    pub fn fits(&self, v: u64) -> (r: bool)
        ensures
            r == self.holds(v as nat),
    {
        v < self.modulus()
    }
}

} // verus!
