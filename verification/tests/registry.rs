use git_pr::palette::Palette;
use git_pr::registry::{tick_chars_of, template_of, Registry, Row, DEFAULT_TICK_CHARS};
use git_pr::rows::Pb;

fn labeled(key: &str, message: &str) -> Pb {
    Pb::new_with_pkey_and_message(key, message)
}

fn keys(registry: &Registry) -> Vec<String> {
    (0..registry.len()).map(|i| registry.row(i).unwrap().key).collect()
}

fn all(registry: &Registry) -> Vec<Row> {
    (0..registry.len()).map(|i| registry.row(i).unwrap()).collect()
}

#[test]
fn a_row_with_its_own_template_keeps_it() {
    let mut pb = Pb::new("k");
    let pb = pb.with_prefix("p").with_template("> {msg}");
    assert_eq!(template_of(&pb, &Palette::plain()), "> {msg}");
}

#[test]
fn a_labelled_row_gets_the_labelled_template() {
    let pb = Pb::new_with_pkey("state");
    assert_eq!(template_of(&pb, &Palette::plain()), "{prefix:10.white} --> {wide_msg}");
}

#[test]
fn a_bare_row_shows_only_its_value() {
    let pb = Pb::new("_body").with_message("text");
    assert_eq!(template_of(&pb, &Palette::plain()), "{wide_msg}");
}

#[test]
fn indentation_goes_before_the_template() {
    let pb = Pb::new("url").with_template("> {msg}").with_indent(4);
    assert_eq!(template_of(&pb, &Palette::plain()), "    > {msg}");
    let pb = Pb::new("k").with_indent(2);
    assert_eq!(template_of(&pb, &Palette::plain()), "  {wide_msg}");
}

#[test]
fn the_labelled_template_carries_the_colour_of_the_arrow() {
    colored::control::set_override(true);
    let pb = Pb::new_with_pkey("state");
    assert_eq!(
        template_of(&pb, &Palette::detect()),
        "{prefix:10.white} \u{1b}[35m-->\u{1b}[0m {wide_msg}"
    );
}

#[test]
fn the_default_spinner_has_eight_characters() {
    assert_eq!(DEFAULT_TICK_CHARS, "⣾⣽⣻⢿⡿⣟⣯⣷");
    assert_eq!(DEFAULT_TICK_CHARS.chars().count(), 8);
    assert_eq!(tick_chars_of(&Pb::new("k")), DEFAULT_TICK_CHARS);
}

#[test]
fn a_row_may_name_its_own_spinner() {
    let pb = Pb::new("k").with_tick_chars("-\\|/");
    assert_eq!(tick_chars_of(&pb), "-\\|/");
}

#[test]
fn a_new_registry_is_empty() {
    let registry = Registry::new();
    assert_eq!(registry.len(), 0);
    assert_eq!(registry.row(0), None);
}

#[test]
fn the_first_drawing_of_a_key_makes_its_row() {
    let mut registry = Registry::new();
    let palette = Palette::plain();
    let draw = registry.pb(&labeled("state", "OPEN"), &palette);
    assert_eq!(draw.index, 0);
    assert!(draw.created);
    assert_eq!(
        draw.row,
        Row {
            key: "state".to_string(),
            prefix: "state".to_string(),
            message: "OPEN".to_string(),
            template: "{prefix:10.white} --> {wide_msg}".to_string(),
            tick_chars: DEFAULT_TICK_CHARS.to_string(),
        }
    );
    assert_eq!(registry.row(0), Some(draw.row));
    assert_eq!(registry.find(&"state".to_string()), 0);
    assert_eq!(registry.find(&"other".to_string()), 1);
}

#[test]
fn a_later_drawing_changes_the_row_in_place() {
    let mut registry = Registry::new();
    let palette = Palette::plain();
    registry.pb(&labeled("a", "1"), &palette);
    registry.pb(&labeled("b", "2"), &palette);
    let draw = registry.pb(&labeled("a", "3"), &palette);
    assert_eq!(draw.index, 0);
    assert!(!draw.created);
    assert_eq!(draw.row.message, "3");
    assert_eq!(registry.len(), 2);
    assert_eq!(keys(&registry), vec!["a", "b"]);
    assert_eq!(registry.row(1).unwrap().message, "2");
}

#[test]
fn an_empty_label_or_value_leaves_the_old_one() {
    let mut registry = Registry::new();
    let palette = Palette::plain();
    registry.pb(&labeled("a", "1"), &palette);
    let draw = registry.pb(&Pb::new("a"), &palette);
    assert_eq!(draw.row.prefix, "a");
    assert_eq!(draw.row.message, "1");
    assert_eq!(draw.row.template, "{wide_msg}");
}

#[test]
fn render_reports_one_draw_for_each_row() {
    let mut registry = Registry::new();
    let palette = Palette::plain();
    let frame = vec![labeled("a", "1"), labeled("b", "2"), labeled("a", "3")];
    let draws = registry.render(&frame, &palette);
    assert_eq!(draws.len(), 3);
    assert_eq!((draws[0].index, draws[0].created), (0, true));
    assert_eq!((draws[1].index, draws[1].created), (1, true));
    assert_eq!((draws[2].index, draws[2].created), (0, false));
    assert_eq!(draws[0].row.message, "1");
    assert_eq!(draws[2].row.message, "3");
    assert_eq!(registry.row(0).unwrap().message, "3");
}

#[test]
fn rendering_the_same_frame_twice_changes_nothing() {
    let mut registry = Registry::new();
    let palette = Palette::plain();
    let frame = vec![
        Pb::new_header("header", &palette).with_prefix("#1 - t"),
        labeled("url", "u").with_template("> {msg}").with_indent(4),
        labeled("state", "OPEN"),
        Pb::new("_body").with_message("text"),
        labeled("url", "u"),
    ];
    registry.render(&frame, &palette);
    let once = all(&registry);
    let draws = registry.render(&frame, &palette);
    assert_eq!(all(&registry), once);
    assert!(draws.iter().all(|draw| !draw.created));
    assert_eq!(registry.len(), 4);
}

#[test]
fn rows_stay_when_later_frames_leave_them_out() {
    let mut registry = Registry::new();
    let palette = Palette::plain();
    registry.render(&vec![labeled("a", "1"), labeled("b", "2")], &palette);
    registry.render(&vec![labeled("c", "3")], &palette);
    assert_eq!(keys(&registry), vec!["a", "b", "c"]);
    assert_eq!(registry.row(0).unwrap().message, "1");
    registry.render(&vec![], &palette);
    assert_eq!(keys(&registry), vec!["a", "b", "c"]);
}

#[test]
fn rows_keep_their_places_when_a_frame_orders_them_otherwise() {
    let mut registry = Registry::new();
    let palette = Palette::plain();
    registry.render(&vec![labeled("a", "1"), labeled("b", "2")], &palette);
    let draws = registry.render(&vec![labeled("b", "4"), labeled("new", "5"), labeled("a", "6")], &palette);
    assert_eq!(keys(&registry), vec!["a", "b", "new"]);
    assert_eq!(draws[0].index, 1);
    assert_eq!(draws[1].index, 2);
    assert_eq!(draws[2].index, 0);
    assert_eq!(registry.row(0).unwrap().message, "6");
    assert_eq!(registry.row(1).unwrap().message, "4");
}

#[test]
fn growing_lists_only_add_rows() {
    let mut registry = Registry::new();
    let palette = Palette::plain();
    let mut frame = vec![labeled("files", "")];
    let mut seen: Vec<String> = vec![];
    for name in ["a.go", "b.go", "c.go", "d.go"] {
        frame.push(labeled(name, "1+0-"));
        registry.render(&frame, &palette);
        let now = keys(&registry);
        assert_eq!(&now[..seen.len()], &seen[..]);
        assert_eq!(now.len(), frame.len());
        seen = now;
    }
    assert_eq!(seen, vec!["files", "a.go", "b.go", "c.go", "d.go"]);
}
