use git_pr::palette::{Palette, ShortLabel};

#[test]
fn plain_palette_has_bare_texts() {
    let p = Palette::plain();
    assert_eq!(p.header_mark, "====>");
    assert_eq!(p.section_mark, "---->");
    assert_eq!(p.arrow, "-->");
    assert_eq!(p.bar, "|");
    assert_eq!(p.plus, "+");
    assert_eq!(p.minus, "-");
    assert_eq!(p.ok, " OK ");
    assert_eq!(p.pass, "Pass");
    assert_eq!(p.fail, "Fail");
    assert_eq!(p.skip, "Skip");
}

#[test]
fn detected_palette_is_coloured_when_colour_is_forced() {
    colored::control::set_override(true);
    let p = Palette::detect();
    assert_eq!(p.header_mark, "\u{1b}[35m====>\u{1b}[0m");
    assert_eq!(p.section_mark, "\u{1b}[35m---->\u{1b}[0m");
    assert_eq!(p.arrow, "\u{1b}[35m-->\u{1b}[0m");
    assert_eq!(p.bar, "\u{1b}[35m|\u{1b}[0m");
    assert_eq!(p.plus, "\u{1b}[32m+\u{1b}[0m");
    assert_eq!(p.minus, "\u{1b}[31m-\u{1b}[0m");
    assert_eq!(p.ok, "\u{1b}[32m OK \u{1b}[0m");
    assert_eq!(p.pass, "\u{1b}[37mPass\u{1b}[0m");
    assert_eq!(p.fail, "\u{1b}[31mFail\u{1b}[0m");
    assert_eq!(p.skip, "\u{1b}[33mSkip\u{1b}[0m");
}

#[test]
fn labels_have_four_characters() {
    assert_eq!(ShortLabel::Okay.as_str(), " OK ");
    assert_eq!(ShortLabel::Pass.as_str(), "Pass");
    assert_eq!(ShortLabel::Fail.as_str(), "Fail");
    assert_eq!(ShortLabel::Skip.as_str(), "Skip");
    assert_eq!(ShortLabel::Waiting.as_str(), " .. ");
}

#[test]
fn palette_colours_each_label() {
    colored::control::set_override(true);
    let p = Palette::detect();
    assert_eq!(p.label(ShortLabel::Okay), "\u{1b}[32m OK \u{1b}[0m");
    assert_eq!(p.label(ShortLabel::Pass), "\u{1b}[37mPass\u{1b}[0m");
    assert_eq!(p.label(ShortLabel::Fail), "\u{1b}[31mFail\u{1b}[0m");
    assert_eq!(p.label(ShortLabel::Skip), "\u{1b}[33mSkip\u{1b}[0m");
}

#[test]
fn waiting_label_is_never_coloured() {
    colored::control::set_override(true);
    assert_eq!(Palette::detect().label(ShortLabel::Waiting), " .. ");
    assert_eq!(Palette::plain().label(ShortLabel::Waiting), " .. ");
}
