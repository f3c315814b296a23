//! The marks and labels of the dashboard, as the terminal's colour settings
//! make them.

use vstd::prelude::*;
use vstd::string::*;

verus! {

/// `text` between the escape sequence that selects the colour `code` and the
/// one that resets it.
pub open spec fn ansi(code: Seq<char>, text: Seq<char>) -> Seq<char> {
    seq!['\x1b', '['] + code + seq!['m'] + text + seq!['\x1b', '[', '0', 'm']
}

/// `out` is `text`, either left as it is or wrapped in the colour `code`.
pub open spec fn painted(text: Seq<char>, code: Seq<char>, out: Seq<char>) -> bool {
    out == text || out == ansi(code, text)
}

/// No escape character occurs in `text`.
pub open spec fn free_of_escapes(text: Seq<char>) -> bool {
    forall|i: int| 0 <= i < text.len() ==> text[i] != '\x1b'
}

pub open spec fn red_code() -> Seq<char> {
    seq!['3', '1']
}

pub open spec fn green_code() -> Seq<char> {
    seq!['3', '2']
}

pub open spec fn yellow_code() -> Seq<char> {
    seq!['3', '3']
}

pub open spec fn magenta_code() -> Seq<char> {
    seq!['3', '5']
}

pub open spec fn white_code() -> Seq<char> {
    seq!['3', '7']
}

/// `colored::Colorize::red` on a `&str`, written out through the `Display` of
/// the `ColoredString` it gives. Believed, not proved: where `colored` decides
/// against colour (its override, `NO_COLOR`, `CLICOLOR`, `CLICOLOR_FORCE`,
/// whether standard output is a terminal) the text comes back as it went in;
/// otherwise it comes back between `ESC[31m` and `ESC[0m`. A text with a reset
/// sequence inside is written differently, so escape characters are kept out.
/// This holds while no other thread switches the override during the call.
#[verifier::external_body]
fn red(text: &str) -> (out: String)
    requires
        free_of_escapes(text@),
    ensures
        painted(text@, red_code(), out@),
{
    colored::Colorize::red(text).to_string()
}

/// `colored::Colorize::green` on a `&str`, written out through `Display`.
/// Believed, not proved: the text as it went in, or between `ESC[32m` and
/// `ESC[0m`, as `colored` decides; see `red`.
#[verifier::external_body]
fn green(text: &str) -> (out: String)
    requires
        free_of_escapes(text@),
    ensures
        painted(text@, green_code(), out@),
{
    colored::Colorize::green(text).to_string()
}

/// `colored::Colorize::yellow` on a `&str`, written out through `Display`.
/// Believed, not proved: the text as it went in, or between `ESC[33m` and
/// `ESC[0m`, as `colored` decides; see `red`.
#[verifier::external_body]
fn yellow(text: &str) -> (out: String)
    requires
        free_of_escapes(text@),
    ensures
        painted(text@, yellow_code(), out@),
{
    colored::Colorize::yellow(text).to_string()
}

/// `colored::Colorize::magenta` on a `&str`, written out through `Display`.
/// Believed, not proved: the text as it went in, or between `ESC[35m` and
/// `ESC[0m`, as `colored` decides; see `red`.
#[verifier::external_body]
fn magenta(text: &str) -> (out: String)
    requires
        free_of_escapes(text@),
    ensures
        painted(text@, magenta_code(), out@),
{
    colored::Colorize::magenta(text).to_string()
}

/// `colored::Colorize::white` on a `&str`, written out through `Display`.
/// Believed, not proved: the text as it went in, or between `ESC[37m` and
/// `ESC[0m`, as `colored` decides; see `red`.
#[verifier::external_body]
fn white(text: &str) -> (out: String)
    requires
        free_of_escapes(text@),
    ensures
        painted(text@, white_code(), out@),
{
    colored::Colorize::white(text).to_string()
}

/// The short label of a check, as the dashboard shows it.
#[derive(Clone, Copy, Debug, PartialEq, Eq, Structural)]
pub enum ShortLabel {
    /// `" OK "`: the check succeeded.
    Okay,
    /// `"Pass"`: the check ended without a verdict against the change.
    Pass,
    /// `"Fail"`: the check ended badly.
    Fail,
    /// `"Skip"`: the check was skipped.
    Skip,
    /// `" .. "`: no outcome yet.
    Waiting,
}

impl ShortLabel {
    /// The four characters of the label.
    pub open spec fn text(self) -> Seq<char> {
        match self {
            ShortLabel::Okay => " OK "@,
            ShortLabel::Pass => "Pass"@,
            ShortLabel::Fail => "Fail"@,
            ShortLabel::Skip => "Skip"@,
            ShortLabel::Waiting => " .. "@,
        }
    }

    /// The four characters of the label.
    pub fn as_str(self) -> (s: &'static str)
        ensures
            s@ == self.text(),
    {
        match self {
            ShortLabel::Okay => " OK ",
            ShortLabel::Pass => "Pass",
            ShortLabel::Fail => "Fail",
            ShortLabel::Skip => "Skip",
            ShortLabel::Waiting => " .. ",
        }
    }
}

/// The coloured pieces that rows are made of. Each is a fixed text, plain or
/// wrapped in its colour.
#[derive(Debug, Clone, PartialEq, Eq)]
pub struct Palette {
    /// `====>`, which opens the header row.
    pub header_mark: String,
    /// `---->`, which opens a section row.
    pub section_mark: String,
    /// `-->`, between a row's label and its value.
    pub arrow: String,
    /// `|`, between a file's path and its counts.
    pub bar: String,
    /// `+`, behind the number of added lines.
    pub plus: String,
    /// `-`, behind the number of deleted lines.
    pub minus: String,
    /// `" OK "` in the colour of success.
    pub ok: String,
    /// `"Pass"` in the neutral colour.
    pub pass: String,
    /// `"Fail"` in the colour of an error.
    pub fail: String,
    /// `"Skip"` in the colour of a warning.
    pub skip: String,
}

/// What a palette holds, as sequences of characters.
pub ghost struct PaletteView {
    pub header_mark: Seq<char>,
    pub section_mark: Seq<char>,
    pub arrow: Seq<char>,
    pub bar: Seq<char>,
    pub plus: Seq<char>,
    pub minus: Seq<char>,
    pub ok: Seq<char>,
    pub pass: Seq<char>,
    pub fail: Seq<char>,
    pub skip: Seq<char>,
}

impl PaletteView {
    /// The palette without any colour.
    pub open spec fn plain() -> PaletteView {
        PaletteView {
            header_mark: "====>"@,
            section_mark: "---->"@,
            arrow: "-->"@,
            bar: "|"@,
            plus: "+"@,
            minus: "-"@,
            ok: " OK "@,
            pass: "Pass"@,
            fail: "Fail"@,
            skip: "Skip"@,
        }
    }

    /// Every piece is its text, plain or in the colour the dashboard gives it:
    /// marks, arrow and bar magenta, `+` green, `-` red, `" OK "` green,
    /// `"Pass"` white, `"Fail"` red, `"Skip"` yellow.
    pub open spec fn well_formed(self) -> bool {
        &&& painted("====>"@, magenta_code(), self.header_mark)
        &&& painted("---->"@, magenta_code(), self.section_mark)
        &&& painted("-->"@, magenta_code(), self.arrow)
        &&& painted("|"@, magenta_code(), self.bar)
        &&& painted("+"@, green_code(), self.plus)
        &&& painted("-"@, red_code(), self.minus)
        &&& painted(" OK "@, green_code(), self.ok)
        &&& painted("Pass"@, white_code(), self.pass)
        &&& painted("Fail"@, red_code(), self.fail)
        &&& painted("Skip"@, yellow_code(), self.skip)
    }

    /// The label of a check as this palette shows it. A check without an
    /// outcome is shown plain.
    pub open spec fn label(self, label: ShortLabel) -> Seq<char> {
        match label {
            ShortLabel::Okay => self.ok,
            ShortLabel::Pass => self.pass,
            ShortLabel::Fail => self.fail,
            ShortLabel::Skip => self.skip,
            ShortLabel::Waiting => " .. "@,
        }
    }
}

impl View for Palette {
    type V = PaletteView;

    open spec fn view(&self) -> PaletteView {
        PaletteView {
            header_mark: self.header_mark@,
            section_mark: self.section_mark@,
            arrow: self.arrow@,
            bar: self.bar@,
            plus: self.plus@,
            minus: self.minus@,
            ok: self.ok@,
            pass: self.pass@,
            fail: self.fail@,
            skip: self.skip@,
        }
    }
}

impl Palette {
    /// The palette without any colour.
    pub fn plain() -> (palette: Palette)
        ensures
            palette@ == PaletteView::plain(),
            palette@.well_formed(),
    {
        Palette {
            header_mark: String::from_str("====>"),
            section_mark: String::from_str("---->"),
            arrow: String::from_str("-->"),
            bar: String::from_str("|"),
            plus: String::from_str("+"),
            minus: String::from_str("-"),
            ok: String::from_str(" OK "),
            pass: String::from_str("Pass"),
            fail: String::from_str("Fail"),
            skip: String::from_str("Skip"),
        }
    }

    /// The palette as the terminal takes it: every piece goes through the
    /// colour it is shown in, and comes back coloured or plain as the
    /// terminal has it.
    pub fn detect() -> (palette: Palette)
        ensures
            palette@.well_formed(),
    {
        proof {
            reveal_strlit("====>");
            reveal_strlit("---->");
            reveal_strlit("-->");
            reveal_strlit("|");
            reveal_strlit("+");
            reveal_strlit("-");
            reveal_strlit(" OK ");
            reveal_strlit("Pass");
            reveal_strlit("Fail");
            reveal_strlit("Skip");
        }
        Palette {
            header_mark: magenta("====>"),
            section_mark: magenta("---->"),
            arrow: magenta("-->"),
            bar: magenta("|"),
            plus: green("+"),
            minus: red("-"),
            ok: green(" OK "),
            pass: white("Pass"),
            fail: red("Fail"),
            skip: yellow("Skip"),
        }
    }

    /// The label of a check in its colour: `" OK "` as success, `"Pass"`
    /// neutral, `"Fail"` as an error, `"Skip"` as a warning, and `" .. "` plain.
    pub fn label(&self, label: ShortLabel) -> (out: String)
        ensures
            out@ == self@.label(label),
    {
        match label {
            ShortLabel::Okay => self.ok.clone(),
            ShortLabel::Pass => self.pass.clone(),
            ShortLabel::Fail => self.fail.clone(),
            ShortLabel::Skip => self.skip.clone(),
            ShortLabel::Waiting => String::from_str(" .. "),
        }
    }
}

} // verus!
