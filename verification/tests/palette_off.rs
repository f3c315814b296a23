use git_pr::palette::Palette;

#[test]
fn detected_palette_is_plain_when_colour_is_off() {
    colored::control::set_override(false);
    assert_eq!(Palette::detect(), Palette::plain());
}
