use vstd::prelude::*;

verus! {

#[verifier::external_type_specification]
#[verifier::external_body]
pub struct ExLsColors(lscolors::LsColors);

#[verifier::external_type_specification]
#[verifier::external_body]
pub struct ExColor(nu_ansi_term::Color);

/// The display style that a colour rule gives a name.
#[derive(Clone, Copy, Debug)]
pub struct NameStyle {
    pub foreground: Option<nu_ansi_term::Color>,
    pub background: Option<nu_ansi_term::Color>,
    pub bold: bool,
}

impl NameStyle {
    /// A style that changes nothing: no colour and normal weight.
    pub open spec fn is_plain(self) -> bool {
        self.foreground is None && self.background is None && !self.bold
    }
}

/// The control sequence that resets the terminal's style.
pub open spec fn reset_text() -> Seq<char> {
    seq!['\x1b', '[', '0', 'm']
}

/// A character of the numeric codes of a style sequence.
pub open spec fn is_code_char(c: char) -> bool {
    ('0' <= c && c <= '9') || c == ';'
}

/// A control sequence that selects a style: escape, `[`, the numeric codes
/// separated by `;`, then `m`.
pub open spec fn is_style_prefix(p: Seq<char>) -> bool {
    &&& p.len() >= 3
    &&& p[0] == '\x1b'
    &&& p[1] == '['
    &&& p[p.len() - 1] == 'm'
    &&& forall|i: int| 2 <= i < p.len() - 1 ==> is_code_char(#[trigger] p[i])
}

/// The name as it is printed under `style`: unchanged for a plain style, or
/// else wrapped in a style sequence and a reset.
pub open spec fn is_painted(name: Seq<char>, style: NameStyle, shown: Seq<char>) -> bool {
    if style.is_plain() {
        shown == name
    } else {
        exists|p: Seq<char>| is_style_prefix(p) && shown == p + name + reset_text()
    }
}

/// Relies on `lscolors::LsColors::style_for_path` and
/// `lscolors::Color::to_nu_ansi_term_color`: the foreground, background and
/// weight of the rule that matches `path`, if one does. The match may read the
/// file's metadata, so nothing is promised of it.
#[verifier::external_body]
pub(crate) fn style_for_path(colors: &lscolors::LsColors, path: &str) -> Option<NameStyle> {
    match colors.style_for_path(std::path::Path::new(path)) {
        Some(s) => Some(NameStyle {
            foreground: s.foreground.as_ref().map(lscolors::Color::to_nu_ansi_term_color),
            background: s.background.as_ref().map(lscolors::Color::to_nu_ansi_term_color),
            bold: s.font_style.bold,
        }),
        None => None,
    }
}

/// Relies on `nu_ansi_term::Style::paint` and its `Display`: a plain style
/// writes the text alone; any other writes `ESC [`, its numeric codes joined by
/// `;`, `m`, then the text and the reset sequence `ESC [0m`.
#[verifier::external_body]
pub(crate) fn paint(style: &NameStyle, name: &str) -> (r: String)
    ensures
        is_painted(name@, *style, r@),
{
    let ansi = nu_ansi_term::Style {
        foreground: style.foreground,
        background: style.background,
        is_bold: style.bold,
        ..nu_ansi_term::Style::default()
    };
    ansi.paint(name).to_string()
}

} // verus!
