//! The canonical 2C02 master palette: 64 six-bit colour indices to RGB.

use vstd::prelude::*;

verus! {

/// RGB value of master-palette entry `v & 0x3F`.
pub open spec fn spec_color(v: u8) -> u32 {
    match v & 0x3F {
        0u8 => 0x666666u32,
        1u8 => 0x002A88u32,
        2u8 => 0x1412A7u32,
        3u8 => 0x3B00A4u32,
        4u8 => 0x5C007Eu32,
        5u8 => 0x6E0040u32,
        6u8 => 0x6C0600u32,
        7u8 => 0x561D00u32,
        8u8 => 0x333500u32,
        9u8 => 0x0B4800u32,
        10u8 => 0x005200u32,
        11u8 => 0x004F08u32,
        12u8 => 0x00404Du32,
        13u8 => 0x000000u32,
        14u8 => 0x000000u32,
        15u8 => 0x000000u32,
        16u8 => 0xADADADu32,
        17u8 => 0x155FD9u32,
        18u8 => 0x4240FFu32,
        19u8 => 0x7527FEu32,
        20u8 => 0xA01ACCu32,
        21u8 => 0xB71E7Bu32,
        22u8 => 0xB53120u32,
        23u8 => 0x994E00u32,
        24u8 => 0x6B6D00u32,
        25u8 => 0x388700u32,
        26u8 => 0x0C9300u32,
        27u8 => 0x008F32u32,
        28u8 => 0x007C8Du32,
        29u8 => 0x000000u32,
        30u8 => 0x000000u32,
        31u8 => 0x000000u32,
        32u8 => 0xFFFEFFu32,
        33u8 => 0x64B0FFu32,
        34u8 => 0x9290FFu32,
        35u8 => 0xC676FFu32,
        36u8 => 0xF36AFFu32,
        37u8 => 0xFE6ECCu32,
        38u8 => 0xFE8170u32,
        39u8 => 0xEA9E22u32,
        40u8 => 0xBCBE00u32,
        41u8 => 0x88D800u32,
        42u8 => 0x5CE430u32,
        43u8 => 0x45E082u32,
        44u8 => 0x48CDDEu32,
        45u8 => 0x4F4F4Fu32,
        46u8 => 0x000000u32,
        47u8 => 0x000000u32,
        48u8 => 0xFFFEFFu32,
        49u8 => 0xC0DFFFu32,
        50u8 => 0xD3D2FFu32,
        51u8 => 0xE8C8FFu32,
        52u8 => 0xFBC2FFu32,
        53u8 => 0xFEC4EAu32,
        54u8 => 0xFECCC5u32,
        55u8 => 0xF7D8A5u32,
        56u8 => 0xE4E594u32,
        57u8 => 0xCFEF96u32,
        58u8 => 0xBDF4ABu32,
        59u8 => 0xB3F3CCu32,
        60u8 => 0xB5EBF2u32,
        61u8 => 0xB8B8B8u32,
        62u8 => 0x000000u32,
        63u8 => 0x000000u32,
        _ => 0u32,
    }
}

/// Looks a six-bit colour index up in the fixed 2C02 palette.
#[verifier::rlimit(100)]
#[verifier::spinoff_prover]
pub fn color_rgb(v: u8) -> (r: u32)
    ensures
        r == spec_color(v),
{
    proof {
        assert(v & 0x3F < 64) by (bit_vector);
    }
    match v & 0x3F {
        0u8 => 0x666666u32,
        1u8 => 0x002A88u32,
        2u8 => 0x1412A7u32,
        3u8 => 0x3B00A4u32,
        4u8 => 0x5C007Eu32,
        5u8 => 0x6E0040u32,
        6u8 => 0x6C0600u32,
        7u8 => 0x561D00u32,
        8u8 => 0x333500u32,
        9u8 => 0x0B4800u32,
        10u8 => 0x005200u32,
        11u8 => 0x004F08u32,
        12u8 => 0x00404Du32,
        13u8 => 0x000000u32,
        14u8 => 0x000000u32,
        15u8 => 0x000000u32,
        16u8 => 0xADADADu32,
        17u8 => 0x155FD9u32,
        18u8 => 0x4240FFu32,
        19u8 => 0x7527FEu32,
        20u8 => 0xA01ACCu32,
        21u8 => 0xB71E7Bu32,
        22u8 => 0xB53120u32,
        23u8 => 0x994E00u32,
        24u8 => 0x6B6D00u32,
        25u8 => 0x388700u32,
        26u8 => 0x0C9300u32,
        27u8 => 0x008F32u32,
        28u8 => 0x007C8Du32,
        29u8 => 0x000000u32,
        30u8 => 0x000000u32,
        31u8 => 0x000000u32,
        32u8 => 0xFFFEFFu32,
        33u8 => 0x64B0FFu32,
        34u8 => 0x9290FFu32,
        35u8 => 0xC676FFu32,
        36u8 => 0xF36AFFu32,
        37u8 => 0xFE6ECCu32,
        38u8 => 0xFE8170u32,
        39u8 => 0xEA9E22u32,
        40u8 => 0xBCBE00u32,
        41u8 => 0x88D800u32,
        42u8 => 0x5CE430u32,
        43u8 => 0x45E082u32,
        44u8 => 0x48CDDEu32,
        45u8 => 0x4F4F4Fu32,
        46u8 => 0x000000u32,
        47u8 => 0x000000u32,
        48u8 => 0xFFFEFFu32,
        49u8 => 0xC0DFFFu32,
        50u8 => 0xD3D2FFu32,
        51u8 => 0xE8C8FFu32,
        52u8 => 0xFBC2FFu32,
        53u8 => 0xFEC4EAu32,
        54u8 => 0xFECCC5u32,
        55u8 => 0xF7D8A5u32,
        56u8 => 0xE4E594u32,
        57u8 => 0xCFEF96u32,
        58u8 => 0xBDF4ABu32,
        59u8 => 0xB3F3CCu32,
        60u8 => 0xB5EBF2u32,
        61u8 => 0xB8B8B8u32,
        62u8 => 0x000000u32,
        63u8 => 0x000000u32,
        _ => 0u32,
    }
}

} // verus!
