//! Predefined colors of the binding layer, each naming a 24-bit RGB value
//! (`0xRRGGBB`). Two named colors are the same color exactly when their RGB
//! values agree, so the aliases among the names compare equal.

use vstd::prelude::*;

verus! {

/// A predefined color. Equality is by RGB value, not by name: aliases such
/// as `Aqua`/`Cyan` and `Fuchsia`/`Magenta` are equal.
#[derive(Clone, Copy, Debug)]
pub enum NamedColor {
    AliceBlue,
    AntiqueWhite,
    Aqua,
    Aquamarine,
    Azure,
    Beige,
    Bisque,
    Black,
    BlanchedAlmond,
    Blue,
    BlueViolet,
    Brown,
    BurlyWood,
    CadetBlue,
    Chartreuse,
    Chocolate,
    Coral,
    CornflowerBlue,
    Cornsilk,
    Crimson,
    Cyan,
    DarkBlue,
    DarkCyan,
    DarkGoldenrod,
    DarkGray,
    DarkGreen,
    DarkKhaki,
    DarkMagenta,
    DarkOliveGreen,
    DarkOrange,
    DarkOrchid,
    DarkRed,
    DarkSalmon,
    DarkSeaGreen,
    DarkSlateBlue,
    DarkSlateGray,
    DarkTurquoise,
    DarkViolet,
    DeepPink,
    DeepSkyBlue,
    DimGray,
    DodgerBlue,
    Firebrick,
    FloralWhite,
    ForestGreen,
    Fuchsia,
    Gainsboro,
    GhostWhite,
    Gold,
    Goldenrod,
    Gray,
    Green,
    GreenYellow,
    Honeydew,
    HotPink,
    IndianRed,
    Indigo,
    Ivory,
    Khaki,
    Lavender,
    LavenderBlush,
    LawnGreen,
    LemonChiffon,
    LightBlue,
    LightCoral,
    LightCyan,
    LightGoldenrodYellow,
    LightGreen,
    LightGray,
    LightPink,
    LightSalmon,
    LightSeaGreen,
    LightSkyBlue,
    LightSlateGray,
    LightSteelBlue,
    LightYellow,
    Lime,
    LimeGreen,
    Linen,
    Magenta,
    Maroon,
    MediumAquamarine,
    MediumBlue,
    MediumOrchid,
    MediumPurple,
    MediumSeaGreen,
    MediumSlateBlue,
    MediumSpringGreen,
    MediumTurquoise,
    MediumVioletRed,
    MidnightBlue,
    MintCream,
    MistyRose,
    Moccasin,
    NavajoWhite,
    Navy,
    OldLace,
    Olive,
    OliveDrab,
    Orange,
    OrangeRed,
    Orchid,
    PaleGoldenrod,
    PaleGreen,
    PaleTurquoise,
    PaleVioletRed,
    PapayaWhip,
    PeachPuff,
    Peru,
    Pink,
    Plum,
    PowderBlue,
    Purple,
    Red,
    RosyBrown,
    RoyalBlue,
    SaddleBrown,
    Salmon,
    SandyBrown,
    SeaGreen,
    SeaShell,
    Sienna,
    Silver,
    SkyBlue,
    SlateBlue,
    SlateGray,
    Snow,
    SpringGreen,
    SteelBlue,
    Tan,
    Teal,
    Thistle,
    Tomato,
    Turquoise,
    Violet,
    Wheat,
    White,
    WhiteSmoke,
    Yellow,
    YellowGreen,
}

impl NamedColor {
    /// The 24-bit RGB value this name stands for.
    pub open spec fn spec_rgb(self) -> u32 {
        match self {
            NamedColor::AliceBlue => 0xF0_F8_FFu32,
            NamedColor::AntiqueWhite => 0xFA_EB_D7u32,
            NamedColor::Aqua => 0x00_FF_FFu32,
            NamedColor::Aquamarine => 0x7F_FF_D4u32,
            NamedColor::Azure => 0xF0_FF_FFu32,
            NamedColor::Beige => 0xF5_F5_DCu32,
            NamedColor::Bisque => 0xFF_E4_C4u32,
            NamedColor::Black => 0x00_00_00u32,
            NamedColor::BlanchedAlmond => 0xFF_EB_CDu32,
            NamedColor::Blue => 0x00_00_FFu32,
            NamedColor::BlueViolet => 0x8A_2B_E2u32,
            NamedColor::Brown => 0xA5_2A_2Au32,
            NamedColor::BurlyWood => 0xDE_B8_87u32,
            NamedColor::CadetBlue => 0x5F_9E_A0u32,
            NamedColor::Chartreuse => 0x7F_FF_00u32,
            NamedColor::Chocolate => 0xD2_69_1Eu32,
            NamedColor::Coral => 0xFF_7F_50u32,
            NamedColor::CornflowerBlue => 0x64_95_EDu32,
            NamedColor::Cornsilk => 0xFF_F8_DCu32,
            NamedColor::Crimson => 0xDC_14_3Cu32,
            NamedColor::Cyan => 0x00_FF_FFu32,
            NamedColor::DarkBlue => 0x00_00_8Bu32,
            NamedColor::DarkCyan => 0x00_8B_8Bu32,
            NamedColor::DarkGoldenrod => 0xB8_86_0Bu32,
            NamedColor::DarkGray => 0xA9_A9_A9u32,
            NamedColor::DarkGreen => 0x00_64_00u32,
            NamedColor::DarkKhaki => 0xBD_B7_6Bu32,
            NamedColor::DarkMagenta => 0x8B_00_8Bu32,
            NamedColor::DarkOliveGreen => 0x55_6B_2Fu32,
            NamedColor::DarkOrange => 0xFF_8C_00u32,
            NamedColor::DarkOrchid => 0x99_32_CCu32,
            NamedColor::DarkRed => 0x8B_00_00u32,
            NamedColor::DarkSalmon => 0xE9_96_7Au32,
            NamedColor::DarkSeaGreen => 0x8F_BC_8Fu32,
            NamedColor::DarkSlateBlue => 0x48_3D_8Bu32,
            NamedColor::DarkSlateGray => 0x2F_4F_4Fu32,
            NamedColor::DarkTurquoise => 0x00_CE_D1u32,
            NamedColor::DarkViolet => 0x94_00_D3u32,
            NamedColor::DeepPink => 0xFF_14_93u32,
            NamedColor::DeepSkyBlue => 0x00_BF_FFu32,
            NamedColor::DimGray => 0x69_69_69u32,
            NamedColor::DodgerBlue => 0x1E_90_FFu32,
            NamedColor::Firebrick => 0xB2_22_22u32,
            NamedColor::FloralWhite => 0xFF_FA_F0u32,
            NamedColor::ForestGreen => 0x22_8B_22u32,
            NamedColor::Fuchsia => 0xFF_00_FFu32,
            NamedColor::Gainsboro => 0xDC_DC_DCu32,
            NamedColor::GhostWhite => 0xF8_F8_FFu32,
            NamedColor::Gold => 0xFF_D7_00u32,
            NamedColor::Goldenrod => 0xDA_A5_20u32,
            NamedColor::Gray => 0x80_80_80u32,
            NamedColor::Green => 0x00_80_00u32,
            NamedColor::GreenYellow => 0xAD_FF_2Fu32,
            NamedColor::Honeydew => 0xF0_FF_F0u32,
            NamedColor::HotPink => 0xFF_69_B4u32,
            NamedColor::IndianRed => 0xCD_5C_5Cu32,
            NamedColor::Indigo => 0x4B_00_82u32,
            NamedColor::Ivory => 0xFF_FF_F0u32,
            NamedColor::Khaki => 0xF0_E6_8Cu32,
            NamedColor::Lavender => 0xE6_E6_FAu32,
            NamedColor::LavenderBlush => 0xFF_F0_F5u32,
            NamedColor::LawnGreen => 0x7C_FC_00u32,
            NamedColor::LemonChiffon => 0xFF_FA_CDu32,
            NamedColor::LightBlue => 0xAD_D8_E6u32,
            NamedColor::LightCoral => 0xF0_80_80u32,
            NamedColor::LightCyan => 0xE0_FF_FFu32,
            NamedColor::LightGoldenrodYellow => 0xFA_FA_D2u32,
            NamedColor::LightGreen => 0x90_EE_90u32,
            NamedColor::LightGray => 0xD3_D3_D3u32,
            NamedColor::LightPink => 0xFF_B6_C1u32,
            NamedColor::LightSalmon => 0xFF_A0_7Au32,
            NamedColor::LightSeaGreen => 0x20_B2_AAu32,
            NamedColor::LightSkyBlue => 0x87_CE_FAu32,
            NamedColor::LightSlateGray => 0x77_88_99u32,
            NamedColor::LightSteelBlue => 0xB0_C4_DEu32,
            NamedColor::LightYellow => 0xFF_FF_E0u32,
            NamedColor::Lime => 0x00_FF_00u32,
            NamedColor::LimeGreen => 0x32_CD_32u32,
            NamedColor::Linen => 0xFA_F0_E6u32,
            NamedColor::Magenta => 0xFF_00_FFu32,
            NamedColor::Maroon => 0x80_00_00u32,
            NamedColor::MediumAquamarine => 0x66_CD_AAu32,
            NamedColor::MediumBlue => 0x00_00_CDu32,
            NamedColor::MediumOrchid => 0xBA_55_D3u32,
            NamedColor::MediumPurple => 0x93_70_DBu32,
            NamedColor::MediumSeaGreen => 0x3C_B3_71u32,
            NamedColor::MediumSlateBlue => 0x7B_68_EEu32,
            NamedColor::MediumSpringGreen => 0x00_FA_9Au32,
            NamedColor::MediumTurquoise => 0x48_D1_CCu32,
            NamedColor::MediumVioletRed => 0xC7_15_85u32,
            NamedColor::MidnightBlue => 0x19_19_70u32,
            NamedColor::MintCream => 0xF5_FF_FAu32,
            NamedColor::MistyRose => 0xFF_E4_E1u32,
            NamedColor::Moccasin => 0xFF_E4_B5u32,
            NamedColor::NavajoWhite => 0xFF_DE_ADu32,
            NamedColor::Navy => 0x00_00_80u32,
            NamedColor::OldLace => 0xFD_F5_E6u32,
            NamedColor::Olive => 0x80_80_00u32,
            NamedColor::OliveDrab => 0x6B_8E_23u32,
            NamedColor::Orange => 0xFF_A5_00u32,
            NamedColor::OrangeRed => 0xFF_45_00u32,
            NamedColor::Orchid => 0xDA_70_D6u32,
            NamedColor::PaleGoldenrod => 0xEE_E8_AAu32,
            NamedColor::PaleGreen => 0x98_FB_98u32,
            NamedColor::PaleTurquoise => 0xAF_EE_EEu32,
            NamedColor::PaleVioletRed => 0xDB_70_93u32,
            NamedColor::PapayaWhip => 0xFF_EF_D5u32,
            NamedColor::PeachPuff => 0xFF_DA_B9u32,
            NamedColor::Peru => 0xCD_85_3Fu32,
            NamedColor::Pink => 0xFF_C0_CBu32,
            NamedColor::Plum => 0xDD_A0_DDu32,
            NamedColor::PowderBlue => 0xB0_E0_E6u32,
            NamedColor::Purple => 0x80_00_80u32,
            NamedColor::Red => 0xFF_00_00u32,
            NamedColor::RosyBrown => 0xBC_8F_8Fu32,
            NamedColor::RoyalBlue => 0x41_69_E1u32,
            NamedColor::SaddleBrown => 0x8B_45_13u32,
            NamedColor::Salmon => 0xFA_80_72u32,
            NamedColor::SandyBrown => 0xF4_A4_60u32,
            NamedColor::SeaGreen => 0x2E_8B_57u32,
            NamedColor::SeaShell => 0xFF_F5_EEu32,
            NamedColor::Sienna => 0xA0_52_2Du32,
            NamedColor::Silver => 0xC0_C0_C0u32,
            NamedColor::SkyBlue => 0x87_CE_EBu32,
            NamedColor::SlateBlue => 0x6A_5A_CDu32,
            NamedColor::SlateGray => 0x70_80_90u32,
            NamedColor::Snow => 0xFF_FA_FAu32,
            NamedColor::SpringGreen => 0x00_FF_7Fu32,
            NamedColor::SteelBlue => 0x46_82_B4u32,
            NamedColor::Tan => 0xD2_B4_8Cu32,
            NamedColor::Teal => 0x00_80_80u32,
            NamedColor::Thistle => 0xD8_BF_D8u32,
            NamedColor::Tomato => 0xFF_63_47u32,
            NamedColor::Turquoise => 0x40_E0_D0u32,
            NamedColor::Violet => 0xEE_82_EEu32,
            NamedColor::Wheat => 0xF5_DE_B3u32,
            NamedColor::White => 0xFF_FF_FFu32,
            NamedColor::WhiteSmoke => 0xF5_F5_F5u32,
            NamedColor::Yellow => 0xFF_FF_00u32,
            NamedColor::YellowGreen => 0x9A_CD_32u32,
        }
    }

    /// The 24-bit RGB value this name stands for, `0xRRGGBB`.
    pub fn rgb(self) -> (r: u32)
        ensures
            r == self.spec_rgb(),
    {
        match self {
            NamedColor::AliceBlue => 0xF0_F8_FFu32,
            NamedColor::AntiqueWhite => 0xFA_EB_D7u32,
            NamedColor::Aqua => 0x00_FF_FFu32,
            NamedColor::Aquamarine => 0x7F_FF_D4u32,
            NamedColor::Azure => 0xF0_FF_FFu32,
            NamedColor::Beige => 0xF5_F5_DCu32,
            NamedColor::Bisque => 0xFF_E4_C4u32,
            NamedColor::Black => 0x00_00_00u32,
            NamedColor::BlanchedAlmond => 0xFF_EB_CDu32,
            NamedColor::Blue => 0x00_00_FFu32,
            NamedColor::BlueViolet => 0x8A_2B_E2u32,
            NamedColor::Brown => 0xA5_2A_2Au32,
            NamedColor::BurlyWood => 0xDE_B8_87u32,
            NamedColor::CadetBlue => 0x5F_9E_A0u32,
            NamedColor::Chartreuse => 0x7F_FF_00u32,
            NamedColor::Chocolate => 0xD2_69_1Eu32,
            NamedColor::Coral => 0xFF_7F_50u32,
            NamedColor::CornflowerBlue => 0x64_95_EDu32,
            NamedColor::Cornsilk => 0xFF_F8_DCu32,
            NamedColor::Crimson => 0xDC_14_3Cu32,
            NamedColor::Cyan => 0x00_FF_FFu32,
            NamedColor::DarkBlue => 0x00_00_8Bu32,
            NamedColor::DarkCyan => 0x00_8B_8Bu32,
            NamedColor::DarkGoldenrod => 0xB8_86_0Bu32,
            NamedColor::DarkGray => 0xA9_A9_A9u32,
            NamedColor::DarkGreen => 0x00_64_00u32,
            NamedColor::DarkKhaki => 0xBD_B7_6Bu32,
            NamedColor::DarkMagenta => 0x8B_00_8Bu32,
            NamedColor::DarkOliveGreen => 0x55_6B_2Fu32,
            NamedColor::DarkOrange => 0xFF_8C_00u32,
            NamedColor::DarkOrchid => 0x99_32_CCu32,
            NamedColor::DarkRed => 0x8B_00_00u32,
            NamedColor::DarkSalmon => 0xE9_96_7Au32,
            NamedColor::DarkSeaGreen => 0x8F_BC_8Fu32,
            NamedColor::DarkSlateBlue => 0x48_3D_8Bu32,
            NamedColor::DarkSlateGray => 0x2F_4F_4Fu32,
            NamedColor::DarkTurquoise => 0x00_CE_D1u32,
            NamedColor::DarkViolet => 0x94_00_D3u32,
            NamedColor::DeepPink => 0xFF_14_93u32,
            NamedColor::DeepSkyBlue => 0x00_BF_FFu32,
            NamedColor::DimGray => 0x69_69_69u32,
            NamedColor::DodgerBlue => 0x1E_90_FFu32,
            NamedColor::Firebrick => 0xB2_22_22u32,
            NamedColor::FloralWhite => 0xFF_FA_F0u32,
            NamedColor::ForestGreen => 0x22_8B_22u32,
            NamedColor::Fuchsia => 0xFF_00_FFu32,
            NamedColor::Gainsboro => 0xDC_DC_DCu32,
            NamedColor::GhostWhite => 0xF8_F8_FFu32,
            NamedColor::Gold => 0xFF_D7_00u32,
            NamedColor::Goldenrod => 0xDA_A5_20u32,
            NamedColor::Gray => 0x80_80_80u32,
            NamedColor::Green => 0x00_80_00u32,
            NamedColor::GreenYellow => 0xAD_FF_2Fu32,
            NamedColor::Honeydew => 0xF0_FF_F0u32,
            NamedColor::HotPink => 0xFF_69_B4u32,
            NamedColor::IndianRed => 0xCD_5C_5Cu32,
            NamedColor::Indigo => 0x4B_00_82u32,
            NamedColor::Ivory => 0xFF_FF_F0u32,
            NamedColor::Khaki => 0xF0_E6_8Cu32,
            NamedColor::Lavender => 0xE6_E6_FAu32,
            NamedColor::LavenderBlush => 0xFF_F0_F5u32,
            NamedColor::LawnGreen => 0x7C_FC_00u32,
            NamedColor::LemonChiffon => 0xFF_FA_CDu32,
            NamedColor::LightBlue => 0xAD_D8_E6u32,
            NamedColor::LightCoral => 0xF0_80_80u32,
            NamedColor::LightCyan => 0xE0_FF_FFu32,
            NamedColor::LightGoldenrodYellow => 0xFA_FA_D2u32,
            NamedColor::LightGreen => 0x90_EE_90u32,
            NamedColor::LightGray => 0xD3_D3_D3u32,
            NamedColor::LightPink => 0xFF_B6_C1u32,
            NamedColor::LightSalmon => 0xFF_A0_7Au32,
            NamedColor::LightSeaGreen => 0x20_B2_AAu32,
            NamedColor::LightSkyBlue => 0x87_CE_FAu32,
            NamedColor::LightSlateGray => 0x77_88_99u32,
            NamedColor::LightSteelBlue => 0xB0_C4_DEu32,
            NamedColor::LightYellow => 0xFF_FF_E0u32,
            NamedColor::Lime => 0x00_FF_00u32,
            NamedColor::LimeGreen => 0x32_CD_32u32,
            NamedColor::Linen => 0xFA_F0_E6u32,
            NamedColor::Magenta => 0xFF_00_FFu32,
            NamedColor::Maroon => 0x80_00_00u32,
            NamedColor::MediumAquamarine => 0x66_CD_AAu32,
            NamedColor::MediumBlue => 0x00_00_CDu32,
            NamedColor::MediumOrchid => 0xBA_55_D3u32,
            NamedColor::MediumPurple => 0x93_70_DBu32,
            NamedColor::MediumSeaGreen => 0x3C_B3_71u32,
            NamedColor::MediumSlateBlue => 0x7B_68_EEu32,
            NamedColor::MediumSpringGreen => 0x00_FA_9Au32,
            NamedColor::MediumTurquoise => 0x48_D1_CCu32,
            NamedColor::MediumVioletRed => 0xC7_15_85u32,
            NamedColor::MidnightBlue => 0x19_19_70u32,
            NamedColor::MintCream => 0xF5_FF_FAu32,
            NamedColor::MistyRose => 0xFF_E4_E1u32,
            NamedColor::Moccasin => 0xFF_E4_B5u32,
            NamedColor::NavajoWhite => 0xFF_DE_ADu32,
            NamedColor::Navy => 0x00_00_80u32,
            NamedColor::OldLace => 0xFD_F5_E6u32,
            NamedColor::Olive => 0x80_80_00u32,
            NamedColor::OliveDrab => 0x6B_8E_23u32,
            NamedColor::Orange => 0xFF_A5_00u32,
            NamedColor::OrangeRed => 0xFF_45_00u32,
            NamedColor::Orchid => 0xDA_70_D6u32,
            NamedColor::PaleGoldenrod => 0xEE_E8_AAu32,
            NamedColor::PaleGreen => 0x98_FB_98u32,
            NamedColor::PaleTurquoise => 0xAF_EE_EEu32,
            NamedColor::PaleVioletRed => 0xDB_70_93u32,
            NamedColor::PapayaWhip => 0xFF_EF_D5u32,
            NamedColor::PeachPuff => 0xFF_DA_B9u32,
            NamedColor::Peru => 0xCD_85_3Fu32,
            NamedColor::Pink => 0xFF_C0_CBu32,
            NamedColor::Plum => 0xDD_A0_DDu32,
            NamedColor::PowderBlue => 0xB0_E0_E6u32,
            NamedColor::Purple => 0x80_00_80u32,
            NamedColor::Red => 0xFF_00_00u32,
            NamedColor::RosyBrown => 0xBC_8F_8Fu32,
            NamedColor::RoyalBlue => 0x41_69_E1u32,
            NamedColor::SaddleBrown => 0x8B_45_13u32,
            NamedColor::Salmon => 0xFA_80_72u32,
            NamedColor::SandyBrown => 0xF4_A4_60u32,
            NamedColor::SeaGreen => 0x2E_8B_57u32,
            NamedColor::SeaShell => 0xFF_F5_EEu32,
            NamedColor::Sienna => 0xA0_52_2Du32,
            NamedColor::Silver => 0xC0_C0_C0u32,
            NamedColor::SkyBlue => 0x87_CE_EBu32,
            NamedColor::SlateBlue => 0x6A_5A_CDu32,
            NamedColor::SlateGray => 0x70_80_90u32,
            NamedColor::Snow => 0xFF_FA_FAu32,
            NamedColor::SpringGreen => 0x00_FF_7Fu32,
            NamedColor::SteelBlue => 0x46_82_B4u32,
            NamedColor::Tan => 0xD2_B4_8Cu32,
            NamedColor::Teal => 0x00_80_80u32,
            NamedColor::Thistle => 0xD8_BF_D8u32,
            NamedColor::Tomato => 0xFF_63_47u32,
            NamedColor::Turquoise => 0x40_E0_D0u32,
            NamedColor::Violet => 0xEE_82_EEu32,
            NamedColor::Wheat => 0xF5_DE_B3u32,
            NamedColor::White => 0xFF_FF_FFu32,
            NamedColor::WhiteSmoke => 0xF5_F5_F5u32,
            NamedColor::Yellow => 0xFF_FF_00u32,
            NamedColor::YellowGreen => 0x9A_CD_32u32,
        }
    }

    /// The red channel, `0..=255`.
    pub fn red(self) -> (r: u32)
        ensures
            r == (self.spec_rgb() >> 16u32) & 0xFFu32,
    {
        (self.rgb() >> 16u32) & 0xFFu32
    }

    /// The green channel, `0..=255`.
    pub fn green(self) -> (r: u32)
        ensures
            r == (self.spec_rgb() >> 8u32) & 0xFFu32,
    {
        (self.rgb() >> 8u32) & 0xFFu32
    }

    /// The blue channel, `0..=255`.
    pub fn blue(self) -> (r: u32)
        ensures
            r == self.spec_rgb() & 0xFFu32,
    {
        self.rgb() & 0xFFu32
    }
}

impl PartialEq for NamedColor {
    /// Two named colors are equal when they stand for the same RGB value.
    fn eq(&self, other: &NamedColor) -> (r: bool) {
        self.rgb() == other.rgb()
    }
}

impl vstd::std_specs::cmp::PartialEqSpecImpl for NamedColor {
    open spec fn obeys_eq_spec() -> bool {
        true
    }

    open spec fn eq_spec(&self, other: &NamedColor) -> bool {
        self.spec_rgb() == other.spec_rgb()
    }
}

impl Eq for NamedColor {}

} // verus!
