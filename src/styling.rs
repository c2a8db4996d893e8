//! Styling policy: which emphasis each element of a diagnostic gets, and the
//! terminal text that a style wraps around a piece of text.
use vstd::prelude::*;

verus! {

/// The foreground colours a diagnostic uses.
#[derive(Clone, Copy, Debug, PartialEq, Eq)]
pub enum Color {
    Red,
    Green,
    Yellow,
    Purple,
    Blue,
}

/// Emphasis applied to one piece of text: an optional foreground colour,
/// bold and italic.
#[derive(Clone, Copy, Debug, PartialEq, Eq)]
pub struct TextStyle {
    pub color: Option<Color>,
    pub bold: bool,
    pub italic: bool,
}

/// The style that leaves text as it is.
pub open spec fn plain() -> TextStyle {
    TextStyle { color: None, bold: false, italic: false }
}

/// A foreground colour alone.
pub open spec fn colored_with(c: Color) -> TextStyle {
    TextStyle { color: Some(c), bold: false, italic: false }
}

/// A foreground colour in bold.
pub open spec fn bold_with(c: Color) -> TextStyle {
    TextStyle { color: Some(c), bold: true, italic: false }
}

/// Italic text in the terminal's own colour.
pub open spec fn italic() -> TextStyle {
    TextStyle { color: None, bold: false, italic: true }
}

impl TextStyle {
    pub open spec fn is_plain(self) -> bool {
        self.color is None && !self.bold && !self.italic
    }
}

/// The ANSI select-graphic-rendition code of a foreground colour.
pub open spec fn color_code(c: Color) -> Seq<char> {
    match c {
        Color::Red => seq!['3', '1'],
        Color::Green => seq!['3', '2'],
        Color::Yellow => seq!['3', '3'],
        Color::Blue => seq!['3', '4'],
        Color::Purple => seq!['3', '5'],
    }
}

/// The codes of a style, separated by `;`: colour, then bold (`1`), then italic (`3`).
pub open spec fn style_codes(st: TextStyle) -> Seq<char> {
    let fg = match st.color {
        Some(c) => color_code(c),
        None => Seq::<char>::empty(),
    };
    let bold = if st.bold {
        if st.color is Some {
            seq![';', '1']
        } else {
            seq!['1']
        }
    } else {
        Seq::<char>::empty()
    };
    let italic = if st.italic {
        if st.color is Some || st.bold {
            seq![';', '3']
        } else {
            seq!['3']
        }
    } else {
        Seq::<char>::empty()
    };
    fg + bold + italic
}

/// The escape sequence that switches a style on.
pub open spec fn style_prefix(st: TextStyle) -> Seq<char> {
    seq!['\x1b', '['] + style_codes(st) + seq!['m']
}

/// The escape sequence that resets all styles.
pub open spec fn style_reset() -> Seq<char> {
    seq!['\x1b', '[', '0', 'm']
}

/// `text` as it reads on a terminal under `st`: unchanged for the plain
/// style, else wrapped between the style's prefix and the reset sequence.
pub open spec fn styled(text: Seq<char>, st: TextStyle) -> Seq<char> {
    if st.is_plain() {
        text
    } else {
        style_prefix(st) + text + style_reset()
    }
}

/// Relies on owo_colors's `Style` builders and the `Display` of `Styled`:
/// the style's ANSI prefix, the text, then `ESC[0m`; nothing for a plain style.
#[verifier::external_body]
pub(crate) fn paint(text: &str, st: &TextStyle) -> (r: String)
    ensures
        r@ == styled(text@, *st),
{
    let s = match st.color {
        None => owo_colors::Style::new(),
        Some(Color::Red) => owo_colors::Style::new().red(),
        Some(Color::Green) => owo_colors::Style::new().green(),
        Some(Color::Yellow) => owo_colors::Style::new().yellow(),
        Some(Color::Purple) => owo_colors::Style::new().purple(),
        Some(Color::Blue) => owo_colors::Style::new().blue(),
    };
    let s = if st.bold { s.bold() } else { s };
    let s = if st.italic { s.italic() } else { s };
    format!("{}", s.style(text))
}

/// Which emphasis each element of a rendered diagnostic gets. Immutable once
/// built and shared by every render call.
#[derive(Clone, Copy, Debug)]
pub struct Styling {
    pub location: TextStyle,
    pub header_error: TextStyle,
    pub header_warning: TextStyle,
    pub header_note: TextStyle,
    /// The type a position called for.
    pub type_: TextStyle,
    /// The type that was found there instead.
    pub wrong_type: TextStyle,
    pub trait_: TextStyle,
    /// The highlighted part of the source line.
    pub line_wrong_part: TextStyle,
    /// Whether a marker line of carets is always drawn under the snippet.
    pub underline: bool,
}

impl Styling {
    /// No emphasis anywhere; the marker line is always drawn.
    pub fn no_color() -> (r: Styling)
        ensures
            r.location == plain(),
            r.header_error == plain(),
            r.header_warning == plain(),
            r.header_note == plain(),
            r.type_ == plain(),
            r.wrong_type == plain(),
            r.trait_ == plain(),
            r.line_wrong_part == plain(),
            r.underline,
    {
        let p = TextStyle { color: None, bold: false, italic: false };
        Styling {
            location: p,
            header_error: p,
            header_warning: p,
            header_note: p,
            type_: p,
            wrong_type: p,
            trait_: p,
            line_wrong_part: p,
            underline: true,
        }
    }

    /// Terminal colours: the highlighted part in red takes the place of the
    /// marker line, which is drawn only for an empty span.
    pub fn colored() -> (r: Styling)
        ensures
            r.location == italic(),
            r.header_error == bold_with(Color::Red),
            r.header_warning == bold_with(Color::Yellow),
            r.header_note == bold_with(Color::Purple),
            r.type_ == colored_with(Color::Green),
            r.wrong_type == colored_with(Color::Red),
            r.trait_ == colored_with(Color::Blue),
            r.line_wrong_part == colored_with(Color::Red),
            !r.underline,
    {
        let red = TextStyle { color: Some(Color::Red), bold: false, italic: false };
        Styling {
            location: TextStyle { color: None, bold: false, italic: true },
            header_error: TextStyle { color: Some(Color::Red), bold: true, italic: false },
            header_warning: TextStyle { color: Some(Color::Yellow), bold: true, italic: false },
            header_note: TextStyle { color: Some(Color::Purple), bold: true, italic: false },
            type_: TextStyle { color: Some(Color::Green), bold: false, italic: false },
            wrong_type: red,
            trait_: TextStyle { color: Some(Color::Blue), bold: false, italic: false },
            line_wrong_part: red,
            underline: false,
        }
    }
}

} // verus!
