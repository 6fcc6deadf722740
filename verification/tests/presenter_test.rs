use croque::config::Config;
use croque::segment::presenter::Presenter;
use croque::segment::Segment;
use croque::shell::Shell;
use croque::style::{Color, NamedColor, Style};

fn seg(content: &str, bg: Color) -> Segment {
    Segment {
        content: content.to_string(),
        style: Style {
            foreground: Color::Named(NamedColor::Black),
            background: bg,
            decoration: vec![],
        },
    }
}

const SOLID_LEFT: &str = "\u{e0b0}";
const WIRE_LEFT: &str = "\u{e0b1}";

#[test]
fn equal_backgrounds_get_the_wire_separator() {
    let config = Config::default();
    let presenter = Presenter::new(&config, &Shell::Fish, 80);
    let segments = vec![
        seg("one", Color::Named(NamedColor::Blue)),
        seg("two", Color::Named(NamedColor::Blue)),
    ];
    let (text, _width) = presenter.left_contents(&segments);
    assert!(text.contains(WIRE_LEFT), "{text}");
    // the closure after the last segment is solid, so exactly one
    // solid glyph shows
    assert_eq!(text.matches(SOLID_LEFT).count(), 1, "{text}");
}

#[test]
fn differing_backgrounds_get_the_solid_separator() {
    let config = Config::default();
    let presenter = Presenter::new(&config, &Shell::Fish, 80);
    let segments = vec![
        seg("one", Color::Named(NamedColor::Blue)),
        seg("two", Color::Named(NamedColor::Green)),
    ];
    let (text, _width) = presenter.left_contents(&segments);
    assert!(!text.contains(WIRE_LEFT), "{text}");
    // the separator and the final closure
    assert_eq!(text.matches(SOLID_LEFT).count(), 2, "{text}");
    // the separator carries the previous background as foreground and
    // the next as background: blue 44 as background becomes foreground
    // 34, green 42 stays background
    assert!(text.contains("\x1b[34;42m"), "{text}");
}

#[test]
fn widths_count_columns_not_bytes() {
    let config = Config::default();
    let presenter = Presenter::new(&config, &Shell::Fish, 80);
    let narrow = vec![seg("ab", Color::Named(NamedColor::Blue))];
    let (_, w) = presenter.left_contents(&narrow);
    // two columns of content plus one for the closure glyph
    assert_eq!(w, 3);
    let wide = vec![seg("\u{3042}\u{3044}", Color::Named(NamedColor::Blue))];
    let (_, w) = presenter.left_contents(&wide);
    // two double-width characters plus the closure glyph
    assert_eq!(w, 5);
}

#[test]
fn right_side_is_dropped_when_it_does_not_fit() {
    let config = Config::default();
    let presenter = Presenter::new(&config, &Shell::Fish, 10);
    let left = vec![seg("0123456", Color::Named(NamedColor::Blue))];
    let right = vec![seg("xyz", Color::Named(NamedColor::Green))];
    // left width 8 (content and closure), right width 4: 8 + 4 + 1 >= 10
    let line = presenter.display_line(&left, &right);
    assert!(!line.contains("xyz"), "{line}");

    // with room it appears, moved to its column
    let roomy = Presenter::new(&config, &Shell::Fish, 40);
    let line = roomy.display_line(&left, &right);
    assert!(line.contains("xyz"), "{line}");
    // right width 4, so the cursor moves to column 40 - 4 - 1 + 1 = 36
    assert!(line.contains("\x1b[36G"), "{line}");
}

#[test]
fn right_prompt_renders_alone() {
    let config = Config::default();
    let presenter = Presenter::new(&config, &Shell::Zsh, 80);
    let right = vec![seg("clock", Color::Named(NamedColor::White))];
    let text = presenter.display_right(&right);
    assert!(text.contains("clock"), "{text}");
    // the right side opens with its solid closure
    assert!(text.contains("\u{e0b2}"), "{text}");
}
