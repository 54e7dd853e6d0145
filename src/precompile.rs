//! Call parameters of the precompiles, as packed in the 256-bit key of a
//! request: the word is read as eight little-endian 32-bit limbs, of which
//! limb 0 is the input offset, limb 2 the output offset, limb 4 the input
//! page and limb 5 the output page.
use crate::ec_add::U256;
use vstd::prelude::*;

verus! {

/// The 32-bit limb `i` of a word.
pub open spec fn u32_limb(w: U256, i: int) -> int {
    if i % 2 == 0 {
        w.limbs[i / 2] as int % 0x1_0000_0000
    } else {
        w.limbs[i / 2] as int / 0x1_0000_0000
    }
}

fn low_half(x: u64) -> (r: u32)
    ensures
        r as int == x as int % 0x1_0000_0000,
{
    (x % 0x1_0000_0000) as u32
}

fn high_half(x: u64) -> (r: u32)
    ensures
        r as int == x as int / 0x1_0000_0000,
{
    (x / 0x1_0000_0000) as u32
}

/// Where the point-multiplication precompile reads and writes.
#[derive(Clone, Copy, Debug)]
pub struct EcMulPrecompileCallParams {
    pub input_page: u32,
    pub input_offset: u32,
    pub output_page: u32,
    pub output_offset: u32,
}

/// Where the pairing precompile reads and writes.
#[derive(Clone, Copy, Debug)]
pub struct EcPairingPrecompileCallParams {
    pub input_page: u32,
    pub input_offset: u32,
    pub output_page: u32,
    pub output_offset: u32,
}

impl EcMulPrecompileCallParams {
    pub fn from_encoding(encoding: &U256) -> (r: EcMulPrecompileCallParams)
        ensures
            r.input_offset as int == u32_limb(*encoding, 0),
            r.output_offset as int == u32_limb(*encoding, 2),
            r.input_page as int == u32_limb(*encoding, 4),
            r.output_page as int == u32_limb(*encoding, 5),
    {
        EcMulPrecompileCallParams {
            input_page: low_half(encoding.limbs[2]),
            input_offset: low_half(encoding.limbs[0]),
            output_page: high_half(encoding.limbs[2]),
            output_offset: low_half(encoding.limbs[1]),
        }
    }
}

impl EcPairingPrecompileCallParams {
    pub fn from_encoding(encoding: &U256) -> (r: EcPairingPrecompileCallParams)
        ensures
            r.input_offset as int == u32_limb(*encoding, 0),
            r.output_offset as int == u32_limb(*encoding, 2),
            r.input_page as int == u32_limb(*encoding, 4),
            r.output_page as int == u32_limb(*encoding, 5),
    {
        EcPairingPrecompileCallParams {
            input_page: low_half(encoding.limbs[2]),
            input_offset: low_half(encoding.limbs[0]),
            output_page: high_half(encoding.limbs[2]),
            output_offset: low_half(encoding.limbs[1]),
        }
    }
}

} // verus!
