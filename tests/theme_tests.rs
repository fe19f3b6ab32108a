use alacritty_themes::color::Rgb;
use alacritty_themes::preview::render_info;
use alacritty_themes::theme::{
    current_theme_name, YmlBright, YmlColor, YmlColors, YmlCursor, YmlNormal, YmlPrimary,
};

fn s(x: &str) -> String {
    x.to_string()
}

fn dracula() -> YmlColors {
    YmlColors {
        name: Some(s("Dracula")),
        author: Some(s("Zeno Rocha")),
        primary: YmlPrimary { background: s("#282a36"), foreground: s("#f8f8f2") },
        cursor: Some(YmlCursor { text: s("#44475a"), cursor: s("#f8f8f2") }),
        normal: YmlNormal {
            black: s("#000000"),
            red: s("#ff5555"),
            green: s("#50fa7b"),
            yellow: s("#f1fa8c"),
            blue: s("#bd93f9"),
            magenta: s("#ff79c6"),
            cyan: s("#8be9fd"),
            white: s("#bfbfbf"),
        },
        bright: YmlBright {
            black: s("#4d4d4d"),
            red: s("#ff6e67"),
            green: s("#5af78e"),
            yellow: s("#f4f99d"),
            blue: s("#caa9fa"),
            magenta: s("#ff92d0"),
            cyan: s("#9aedfe"),
            white: s("#e6e6e6"),
        },
    }
}

const BLACK: Rgb = Rgb { r: 0, g: 0, b: 0 };

#[test]
fn defaults_are_black() {
    let c = YmlColors::default();
    assert_eq!(c.name, None);
    assert_eq!(c.author, None);
    assert!(c.cursor.is_none());
    assert_eq!(c.primary.background, "#000000");
    assert_eq!(c.primary.foreground, "#000000");
    assert_eq!(c.normal.magenta, "#000000");
    assert_eq!(c.bright.white, "#000000");
    let k = c.cursor_or_default();
    assert_eq!(k.text, "#000000");
    assert_eq!(k.cursor, "#000000");
    let d = YmlCursor::default();
    assert_eq!(d.text, "#000000");
}

#[test]
fn cursor_kept_when_present() {
    let k = dracula().cursor_or_default();
    assert_eq!(k.text, "#44475a");
    assert_eq!(k.cursor, "#f8f8f2");
}

#[test]
fn unreadable_theme_previews_as_default() {
    let t = YmlColor::or_default(None);
    let lines = render_info(&t.colors);
    assert_eq!(lines.len(), 26);
    assert_eq!(lines[0].label, "name:");
    assert_eq!(lines[0].value.as_deref(), Some("Empty"));
    assert_eq!(lines[1].value.as_deref(), Some("Empty"));
    for l in &lines {
        if let Some(c) = l.swatch {
            assert_eq!(c, BLACK);
        }
    }
}

#[test]
fn missing_cursor_previews_black() {
    let mut c = dracula();
    c.cursor = None;
    let lines = render_info(&c);
    assert_eq!(lines[6].label, "text:");
    assert_eq!(lines[6].value.as_deref(), Some("#000000"));
    assert_eq!(lines[6].swatch, Some(BLACK));
    assert_eq!(lines[7].label, "cursor:");
    assert_eq!(lines[7].value.as_deref(), Some("#000000"));
    assert_eq!(lines[7].swatch, Some(BLACK));
}

#[test]
fn preview_lists_the_palette() {
    let lines = render_info(&dracula());
    assert_eq!(lines.len(), 26);
    assert_eq!(lines[0].value.as_deref(), Some("Dracula"));
    assert_eq!(lines[1].value.as_deref(), Some("Zeno Rocha"));
    assert_eq!(lines[2].label, "primary:");
    assert!(lines[2].value.is_none());
    assert_eq!(lines[3].label, "background:");
    assert_eq!(lines[3].value.as_deref(), Some("#282a36"));
    assert_eq!(lines[3].swatch, Some(Rgb { r: 0x28, g: 0x2a, b: 0x36 }));
    assert_eq!(lines[6].swatch, Some(Rgb { r: 0x44, g: 0x47, b: 0x5a }));
    assert_eq!(lines[8].label, "normal:");
    assert_eq!(lines[10].label, "red:");
    assert_eq!(lines[10].swatch, Some(Rgb { r: 0xff, g: 0x55, b: 0x55 }));
    assert_eq!(lines[17].label, "bright:");
    assert_eq!(lines[25].label, "white:");
    assert_eq!(lines[25].swatch, Some(Rgb { r: 0xe6, g: 0xe6, b: 0xe6 }));
}

#[test]
fn current_name_or_message() {
    let t = YmlColor { colors: dracula() };
    assert_eq!(current_theme_name(&t), "Dracula");
    assert_eq!(current_theme_name(&YmlColor::default()), "ERROR: name not found");
    assert!(YmlColor::or_default(Some(t)).colors.name.is_some());
}
