//! What a slide says about its text overlay, made ready for drawing: the
//! text, its size and colours, and where it stands.

use crate::model::Slide;
use crate::text::{chars_of, lowercase_text, replace_all, replaced, same_text, to_lowercase};
use vstd::prelude::*;

verus! {

/// The space around overlay text, in pixels.
pub const TEXT_PADDING: u32 = 10;

/// Where text stands along one axis.
#[derive(Clone, Copy, Debug, PartialEq, Eq, Structural)]
pub enum Align {
    /// Left or top.
    Min,
    /// In the middle.
    Center,
    /// Right or bottom.
    Max,
}

/// A colour: red, green, blue and opacity, not premultiplied.
#[derive(Clone, Copy, Debug, PartialEq, Eq, Structural)]
pub struct Color {
    pub r: u8,
    pub g: u8,
    pub b: u8,
    pub a: u8,
}

/// Opaque white.
pub open spec fn white() -> Color {
    Color { r: 255, g: 255, b: 255, a: 255 }
}

/// The sizes of the three fonts, in points.
#[derive(Clone, Copy, Debug, PartialEq, Eq, Structural)]
pub struct FontAssets {
    pub small: u32,
    pub medium: u32,
    pub large: u32,
}

/// The size that a lower-case size label picks: `small` and `large` their
/// own, anything else the medium one.
pub open spec fn font_for_label(fonts: FontAssets, lowered: Option<Seq<char>>) -> u32 {
    match lowered {
        Some(label) => if label == "small"@ {
            fonts.small
        } else if label == "large"@ {
            fonts.large
        } else {
            fonts.medium
        },
        None => fonts.medium,
    }
}

impl FontAssets {
    /// The fonts of 14, 24 and 36 points.
    pub fn new() -> (fonts: FontAssets)
        ensures
            fonts == (FontAssets { small: 14, medium: 24, large: 36 }),
    {
        FontAssets { small: 14, medium: 24, large: 36 }
    }

    /// The size for a label that is already in lower case.
    pub fn font_for_lowercase(&self, lowered: Option<&str>) -> (points: u32)
        ensures
            points == font_for_label(
                *self,
                match lowered {
                    Some(label) => Some(label@),
                    None => None,
                },
            ),
    {
        match lowered {
            Some(label) => if same_text(label, "small") {
                self.small
            } else if same_text(label, "large") {
                self.large
            } else {
                self.medium
            },
            None => self.medium,
        }
    }

    /// The size for a size label, whatever its case; the medium one where
    /// there is no label or it names no size.
    pub fn get_font_id(&self, size_str: Option<&str>) -> (points: u32)
        ensures
            points == font_for_label(
                *self,
                match size_str {
                    Some(label) => Some(lowercase_text(label@)),
                    None => None,
                },
            ),
    {
        match size_str {
            Some(label) => {
                let lowered = to_lowercase(label);
                self.font_for_lowercase(Some(lowered.as_str()))
            },
            None => self.medium,
        }
    }
}

/// The value of a hexadecimal digit, or nothing for any other character.
pub open spec fn hex_value(c: char) -> Option<int> {
    let code = c as u32 as int;
    if 48 <= code <= 57 {
        Some(code - 48)
    } else if 97 <= code <= 102 {
        Some(code - 87)
    } else if 65 <= code <= 70 {
        Some(code - 55)
    } else {
        None
    }
}

/// Whether every one of the characters is a hexadecimal digit.
pub open spec fn all_hex(digits: Seq<char>) -> bool {
    forall|i: int| 0 <= i < digits.len() ==> (#[trigger] hex_value(digits[i])) is Some
}

/// The byte that two hexadecimal digits spell.
pub open spec fn hex_pair(high: char, low: char) -> u8 {
    (hex_value(high).unwrap() * 16 + hex_value(low).unwrap()) as u8
}

/// The byte that one hexadecimal digit spells when written twice.
pub open spec fn hex_doubled(digit: char) -> u8 {
    (hex_value(digit).unwrap() * 17) as u8
}

/// The colour that a hex string spells: a `#` and then three, four, six or
/// eight hexadecimal digits, for red, green, blue and, where given,
/// opacity; a short form doubles each digit. Anything else spells none.
pub open spec fn hex_color(text: Seq<char>) -> Option<Color> {
    if text.len() == 0 || text[0] != '#' {
        None
    } else {
        let d = text.subrange(1, text.len() as int);
        if !all_hex(d) {
            None
        } else if d.len() == 3 {
            Some(Color { r: hex_doubled(d[0]), g: hex_doubled(d[1]), b: hex_doubled(d[2]), a: 255 })
        } else if d.len() == 4 {
            Some(
                Color {
                    r: hex_doubled(d[0]),
                    g: hex_doubled(d[1]),
                    b: hex_doubled(d[2]),
                    a: hex_doubled(d[3]),
                },
            )
        } else if d.len() == 6 {
            Some(
                Color {
                    r: hex_pair(d[0], d[1]),
                    g: hex_pair(d[2], d[3]),
                    b: hex_pair(d[4], d[5]),
                    a: 255,
                },
            )
        } else if d.len() == 8 {
            Some(
                Color {
                    r: hex_pair(d[0], d[1]),
                    g: hex_pair(d[2], d[3]),
                    b: hex_pair(d[4], d[5]),
                    a: hex_pair(d[6], d[7]),
                },
            )
        } else {
            None
        }
    }
}

fn hex_digit(c: char) -> (value: Option<u8>)
    ensures
        match value {
            Some(v) => hex_value(c) == Some(v as int) && v < 16,
            None => hex_value(c) is None,
        },
{
    let code = c as u32;
    if 48 <= code && code <= 57 {
        Some((code - 48) as u8)
    } else if 97 <= code && code <= 102 {
        Some((code - 87) as u8)
    } else if 65 <= code && code <= 70 {
        Some((code - 55) as u8)
    } else {
        None
    }
}

/// Reads a colour from a hex string such as `#FFFFFF` or `#00000080`.
pub fn parse_hex_color(text: &str) -> (color: Option<Color>)
    ensures
        color == hex_color(text@),
{
    let chars = chars_of(text);
    if chars.len() == 0 || chars[0] != '#' {
        return None;
    }
    let count: usize = chars.len() - 1;
    let ghost d = text@.subrange(1, text@.len() as int);
    let mut values: Vec<u8> = Vec::new();
    let mut i: usize = 0;
    while i < count
        invariant
            chars@ == text@,
            count == chars@.len() - 1,
            d == text@.subrange(1, text@.len() as int),
            i <= count,
            values@.len() == i,
            forall|k: int| 0 <= k < i ==> hex_value(d[k]) == Some(#[trigger] values@[k] as int),
            forall|k: int| 0 <= k < i ==> values@[k] < 16,
            forall|k: int| 0 <= k < i ==> (#[trigger] hex_value(d[k])) is Some,
        decreases count - i,
    {
        match hex_digit(chars[i + 1]) {
            Some(v) => {
                values.push(v);
            },
            None => {
                assert(hex_value(d[i as int]) is None);
                return None;
            },
        }
        i = i + 1;
    }
    assert(all_hex(d));
    if count == 3 {
        Some(Color { r: values[0] * 17, g: values[1] * 17, b: values[2] * 17, a: 255 })
    } else if count == 4 {
        Some(
            Color { r: values[0] * 17, g: values[1] * 17, b: values[2] * 17, a: values[3] * 17 },
        )
    } else if count == 6 {
        Some(
            Color {
                r: values[0] * 16 + values[1],
                g: values[2] * 16 + values[3],
                b: values[4] * 16 + values[5],
                a: 255,
            },
        )
    } else if count == 8 {
        Some(
            Color {
                r: values[0] * 16 + values[1],
                g: values[2] * 16 + values[3],
                b: values[4] * 16 + values[5],
                a: values[6] * 16 + values[7],
            },
        )
    } else {
        None
    }
}

/// The two alignments, horizontal and vertical, that a position names;
/// `bottom-center` for a name that is none of the nine.
pub open spec fn alignment_of(position: Seq<char>) -> (Align, Align) {
    if position == "top-left"@ {
        (Align::Min, Align::Min)
    } else if position == "top-center"@ {
        (Align::Center, Align::Min)
    } else if position == "top-right"@ {
        (Align::Max, Align::Min)
    } else if position == "center-left"@ {
        (Align::Min, Align::Center)
    } else if position == "center"@ || position == "center-center"@ {
        (Align::Center, Align::Center)
    } else if position == "center-right"@ {
        (Align::Max, Align::Center)
    } else if position == "bottom-left"@ {
        (Align::Min, Align::Max)
    } else if position == "bottom-right"@ {
        (Align::Max, Align::Max)
    } else {
        (Align::Center, Align::Max)
    }
}

/// Reads the horizontal and the vertical alignment from a position such as
/// `top-left`.
pub fn parse_text_position(position: &str) -> (aligns: (Align, Align))
    ensures
        aligns == alignment_of(position@),
{
    if same_text(position, "top-left") {
        (Align::Min, Align::Min)
    } else if same_text(position, "top-center") {
        (Align::Center, Align::Min)
    } else if same_text(position, "top-right") {
        (Align::Max, Align::Min)
    } else if same_text(position, "center-left") {
        (Align::Min, Align::Center)
    } else if same_text(position, "center") || same_text(position, "center-center") {
        (Align::Center, Align::Center)
    } else if same_text(position, "center-right") {
        (Align::Max, Align::Center)
    } else if same_text(position, "bottom-left") {
        (Align::Min, Align::Max)
    } else if same_text(position, "bottom-right") {
        (Align::Max, Align::Max)
    } else {
        (Align::Center, Align::Max)
    }
}

/// How overlay text looks.
#[derive(Clone, Copy, Debug, PartialEq, Eq, Structural)]
pub struct TextStyle {
    /// The font's size in points.
    pub font_size: u32,
    /// The colour of the text.
    pub color: Color,
    /// The colour behind the text, if there is one.
    pub background_color: Option<Color>,
    /// Whether text that is too wide scrolls.
    pub scroll: bool,
}

/// Where overlay text stands and what it says.
#[derive(Debug)]
pub struct TextLayout {
    /// The horizontal alignment.
    pub h_align: Align,
    /// The vertical alignment.
    pub v_align: Align,
    /// The space around the text, in pixels.
    pub padding: u32,
    /// The text, with the date and time filled in.
    pub text_content: String,
}

/// The text of an optional string, or `default` where there is none.
pub open spec fn text_or(value: Option<String>, default: Seq<char>) -> Seq<char> {
    match value {
        Some(s) => s@,
        None => default,
    }
}

/// The style that a slide asks for: the font of its size label, medium by
/// default; its text colour, white by default and where the colour cannot
/// be read; its background colour where it names one that can be read; and
/// whether it scrolls, which it does not by default.
pub open spec fn style_of(slide: Slide, fonts: FontAssets) -> TextStyle {
    TextStyle {
        font_size: font_for_label(fonts, Some(lowercase_text(text_or(slide.text_size, "medium"@)))),
        color: match hex_color(text_or(slide.text_color, "#FFFFFF"@)) {
            Some(color) => color,
            None => white(),
        },
        background_color: match slide.text_background_color {
            Some(hex) => hex_color(hex@),
            None => None,
        },
        scroll: match slide.scroll_text {
            Some(scroll) => scroll,
            None => false,
        },
    }
}

/// The text that a slide shows at the moment that `datetime` spells: its
/// own, with every `{datetime}` replaced.
pub open spec fn content_of(slide: Slide, datetime: Seq<char>) -> Seq<char> {
    replaced(text_or(slide.text, Seq::<char>::empty()), "{datetime}"@, datetime)
}

/// Makes a slide's overlay ready for drawing. `datetime` is the local date
/// and time as text, which takes the place of `{datetime}` in the slide's
/// text. The position is `bottom-center` by default.
pub fn parse_slide_text_properties(slide: &Slide, font_assets: &FontAssets, datetime: &str) -> (out:
    (TextStyle, TextLayout))
    ensures
        out.0 == style_of(*slide, *font_assets),
        out.1.text_content@ == content_of(*slide, datetime@),
        (out.1.h_align, out.1.v_align) == alignment_of(
            text_or(slide.text_position, "bottom-center"@),
        ),
        out.1.padding == TEXT_PADDING,
{
    let text_content = match &slide.text {
        Some(text) => replace_all(text.as_str(), "{datetime}", datetime),
        None => replace_all("", "{datetime}", datetime),
    };
    let font_size = match &slide.text_size {
        Some(label) => font_assets.get_font_id(Some(label.as_str())),
        None => font_assets.get_font_id(Some("medium")),
    };
    let parsed = match &slide.text_color {
        Some(hex) => parse_hex_color(hex.as_str()),
        None => parse_hex_color("#FFFFFF"),
    };
    let color = match parsed {
        Some(color) => color,
        None => Color { r: 255, g: 255, b: 255, a: 255 },
    };
    let background_color = match &slide.text_background_color {
        Some(hex) => parse_hex_color(hex.as_str()),
        None => None,
    };
    let scroll = match slide.scroll_text {
        Some(scroll) => scroll,
        None => false,
    };
    let aligns = match &slide.text_position {
        Some(position) => parse_text_position(position.as_str()),
        None => parse_text_position("bottom-center"),
    };
    proof {
        reveal_strlit("");
        assert(""@ =~= Seq::<char>::empty());
    }
    (
        TextStyle { font_size, color, background_color, scroll },
        TextLayout { h_align: aligns.0, v_align: aligns.1, padding: TEXT_PADDING, text_content },
    )
}

} // verus!
