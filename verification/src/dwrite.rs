//! Text-format value types of the binding layer: font weight, stretch,
//! style and alignment choices, each with the numeric code the native text
//! API defines for it.

use vstd::prelude::*;

verus! {

/// Degree of blackness or thickness of strokes of characters in a font.
/// The native API encodes weights on the scale 1..=999.
#[derive(Clone, Copy, Debug, PartialEq, Eq, Structural, Hash)]
pub enum FontWeight {
    Thin,
    ExtraLight,
    Light,
    SemiLight,
    Normal,
    Medium,
    SemiBold,
    Bold,
    ExtraBold,
    Black,
    ExtraBlack,
}

impl FontWeight {
    /// The weight's numeric code on the native 1..=999 scale.
    pub open spec fn spec_value(self) -> u32 {
        match self {
            FontWeight::Thin => 100u32,
            FontWeight::ExtraLight => 200u32,
            FontWeight::Light => 300u32,
            FontWeight::SemiLight => 350u32,
            FontWeight::Normal => 400u32,
            FontWeight::Medium => 500u32,
            FontWeight::SemiBold => 600u32,
            FontWeight::Bold => 700u32,
            FontWeight::ExtraBold => 800u32,
            FontWeight::Black => 900u32,
            FontWeight::ExtraBlack => 950u32,
        }
    }

    pub fn value(self) -> (v: u32)
        ensures
            v == self.spec_value(),
    {
        match self {
            FontWeight::Thin => 100,
            FontWeight::ExtraLight => 200,
            FontWeight::Light => 300,
            FontWeight::SemiLight => 350,
            FontWeight::Normal => 400,
            FontWeight::Medium => 500,
            FontWeight::SemiBold => 600,
            FontWeight::Bold => 700,
            FontWeight::ExtraBold => 800,
            FontWeight::Black => 900,
            FontWeight::ExtraBlack => 950,
        }
    }
}

/// Relative change from the normal aspect ratio of a font's glyphs. The
/// native API encodes stretches on the scale 0..=9, 0 meaning undefined.
#[derive(Clone, Copy, Debug, PartialEq, Eq, Structural, Hash)]
pub enum FontStretch {
    Undefined,
    UltraCondensed,
    ExtraCondensed,
    Condensed,
    SemiCondensed,
    Normal,
    SemiExpanded,
    Expanded,
    ExtraExpanded,
    UltraExpanded,
}

impl FontStretch {
    /// The stretch's numeric code on the native 0..=9 scale.
    pub open spec fn spec_value(self) -> u32 {
        match self {
            FontStretch::Undefined => 0u32,
            FontStretch::UltraCondensed => 1u32,
            FontStretch::ExtraCondensed => 2u32,
            FontStretch::Condensed => 3u32,
            FontStretch::SemiCondensed => 4u32,
            FontStretch::Normal => 5u32,
            FontStretch::SemiExpanded => 6u32,
            FontStretch::Expanded => 7u32,
            FontStretch::ExtraExpanded => 8u32,
            FontStretch::UltraExpanded => 9u32,
        }
    }

    pub fn value(self) -> (v: u32)
        ensures
            v == self.spec_value(),
    {
        match self {
            FontStretch::Undefined => 0,
            FontStretch::UltraCondensed => 1,
            FontStretch::ExtraCondensed => 2,
            FontStretch::Condensed => 3,
            FontStretch::SemiCondensed => 4,
            FontStretch::Normal => 5,
            FontStretch::SemiExpanded => 6,
            FontStretch::Expanded => 7,
            FontStretch::ExtraExpanded => 8,
            FontStretch::UltraExpanded => 9,
        }
    }
}

/// The slope style of a font face.
#[derive(Clone, Copy, Debug, PartialEq, Eq, Structural, Hash)]
pub enum FontStyle {
    Normal,
    Oblique,
    Italic,
}

impl FontStyle {
    pub open spec fn spec_value(self) -> u32 {
        match self {
            FontStyle::Normal => 0u32,
            FontStyle::Oblique => 1u32,
            FontStyle::Italic => 2u32,
        }
    }

    pub fn value(self) -> (v: u32)
        ensures
            v == self.spec_value(),
    {
        match self {
            FontStyle::Normal => 0,
            FontStyle::Oblique => 1,
            FontStyle::Italic => 2,
        }
    }
}

/// Alignment of paragraph text along the reading-direction axis relative to
/// the leading and trailing edge of the layout box.
#[derive(Clone, Copy, Debug, PartialEq, Eq, Structural, Hash)]
pub enum TextAlignment {
    /// The leading edge of the paragraph text is aligned to the layout
    /// box's leading edge.
    Leading,
    /// The trailing edge of the paragraph text is aligned to the layout
    /// box's trailing edge.
    Trailing,
    /// The center of the paragraph text is aligned to the center of the
    /// layout box.
    Center,
    /// Align text to the leading side, and also justify text to fill the
    /// lines.
    Justified,
}

impl TextAlignment {
    pub open spec fn spec_value(self) -> u32 {
        match self {
            TextAlignment::Leading => 0u32,
            TextAlignment::Trailing => 1u32,
            TextAlignment::Center => 2u32,
            TextAlignment::Justified => 3u32,
        }
    }

    pub fn value(self) -> (v: u32)
        ensures
            v == self.spec_value(),
    {
        match self {
            TextAlignment::Leading => 0,
            TextAlignment::Trailing => 1,
            TextAlignment::Center => 2,
            TextAlignment::Justified => 3,
        }
    }
}

/// Alignment of paragraph text along the flow-direction axis relative to
/// the flow's beginning and ending edge of the layout box.
#[derive(Clone, Copy, Debug, PartialEq, Eq, Structural, Hash)]
pub enum ParagraphAlignment {
    /// The first line of the paragraph is aligned to the flow's beginning
    /// edge of the layout box.
    Near,
    /// The last line of the paragraph is aligned to the flow's ending edge
    /// of the layout box.
    Far,
    /// The center of the paragraph is aligned to the center of the flow of
    /// the layout box.
    Center,
}

impl ParagraphAlignment {
    pub open spec fn spec_value(self) -> u32 {
        match self {
            ParagraphAlignment::Near => 0u32,
            ParagraphAlignment::Far => 1u32,
            ParagraphAlignment::Center => 2u32,
        }
    }

    pub fn value(self) -> (v: u32)
        ensures
            v == self.spec_value(),
    {
        match self {
            ParagraphAlignment::Near => 0,
            ParagraphAlignment::Far => 1,
            ParagraphAlignment::Center => 2,
        }
    }
}

} // verus!
