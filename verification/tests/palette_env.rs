use git_pr::palette::Palette;

#[test]
fn detected_palette_is_plain_or_coloured_piece_by_piece() {
    let p = Palette::detect();
    assert!(p.arrow == "-->" || p.arrow == "\u{1b}[35m-->\u{1b}[0m");
    assert!(p.plus == "+" || p.plus == "\u{1b}[32m+\u{1b}[0m");
    assert!(p.minus == "-" || p.minus == "\u{1b}[31m-\u{1b}[0m");
    assert!(p.skip == "Skip" || p.skip == "\u{1b}[33mSkip\u{1b}[0m");
    assert!(p.pass == "Pass" || p.pass == "\u{1b}[37mPass\u{1b}[0m");
}
