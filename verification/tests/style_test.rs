use croque::style::{AnsiSequences, Color, Decoration, HexColor, NamedColor, Style};

fn ansi(style: &Style) -> AnsiSequences {
    style.to_ansi()
}

#[test]
fn plain_style_emits_nothing() {
    let style = Style {
        foreground: Color::Named(NamedColor::Default),
        background: Color::Named(NamedColor::Default),
        decoration: vec![],
    };
    let seqs = ansi(&style);
    assert_eq!(seqs.prefix, "");
    assert_eq!(seqs.suffix, "");
}

#[test]
fn named_colors_emit_their_codes() {
    let style = Style {
        foreground: Color::Named(NamedColor::Red),
        background: Color::Named(NamedColor::Green),
        decoration: vec![],
    };
    let seqs = ansi(&style);
    assert_eq!(seqs.prefix, "\x1b[31;42m");
    assert_eq!(seqs.suffix, "\x1b[0m");
}

#[test]
fn bright_fixed_and_rgb_colors() {
    let style = Style {
        foreground: Color::Named(NamedColor::LightRed),
        background: Color::Fixed(242),
        decoration: vec![],
    };
    assert_eq!(ansi(&style).prefix, "\x1b[91;48;5;242m");

    let style = Style {
        foreground: Color::Hex(HexColor(0x12, 0xab, 0xef)),
        background: Color::Named(NamedColor::Default),
        decoration: vec![],
    };
    assert_eq!(ansi(&style).prefix, "\x1b[38;2;18;171;239m");
}

#[test]
fn default_color_contributes_no_attribute() {
    let style = Style {
        foreground: Color::Named(NamedColor::Default),
        background: Color::Named(NamedColor::Red),
        decoration: vec![],
    };
    // only the background code appears
    assert_eq!(ansi(&style).prefix, "\x1b[41m");
}

#[test]
fn decorations_render_in_insertion_order() {
    let style = Style {
        foreground: Color::Named(NamedColor::Default),
        background: Color::Named(NamedColor::Default),
        decoration: vec![Decoration::Italic, Decoration::Bold, Decoration::Underline],
    };
    assert_eq!(ansi(&style).prefix, "\x1b[3;1;4m");
    assert_eq!(ansi(&style).suffix, "\x1b[0m");
}

#[test]
fn decorations_applied_twice_render_once() {
    let once = Style {
        foreground: Color::Named(NamedColor::Red),
        background: Color::Named(NamedColor::Default),
        decoration: vec![Decoration::Bold, Decoration::Underline],
    };
    let twice = Style {
        foreground: Color::Named(NamedColor::Red),
        background: Color::Named(NamedColor::Default),
        decoration: vec![
            Decoration::Bold,
            Decoration::Underline,
            Decoration::Bold,
            Decoration::Underline,
        ],
    };
    assert_eq!(ansi(&once).prefix, ansi(&twice).prefix);
    assert_eq!(ansi(&once).suffix, ansi(&twice).suffix);
    assert_eq!(ansi(&once).prefix, "\x1b[1;4;31m");
}

#[test]
fn hex_colors_parse_exactly() {
    assert_eq!(HexColor::try_from("#12ABef"), Some(HexColor(0x12, 0xab, 0xef)));
    assert_eq!(HexColor::try_from("#000000"), Some(HexColor(0, 0, 0)));
    assert_eq!(HexColor::try_from("#ffffff"), Some(HexColor(255, 255, 255)));
    // every malformed shape is rejected
    assert_eq!(HexColor::try_from("12ABef"), None);
    assert_eq!(HexColor::try_from("#12ABe"), None);
    assert_eq!(HexColor::try_from("#12ABeff"), None);
    assert_eq!(HexColor::try_from("#12ABeg"), None);
    assert_eq!(HexColor::try_from(""), None);
}
