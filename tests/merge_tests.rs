use alacritty_themes::merge::{apply_theme, merge_documents, replace_colors, MergeError};
use alacritty_themes::paths::backup_file_path;
use alacritty_themes::preview::render_info;
use alacritty_themes::selection::{Action, App, Key, ListItem};
use alacritty_themes::theme::YmlColor;
use serde_yaml::{Mapping, Value};

const CONFIG: &str = "font:\n  size: 11\nwindow:\n  opacity: 0.9\ncolors:\n  name: Old\n  primary:\n    background: '#ffffff'\n";

const DRACULA: &str = "colors:\n  name: Dracula\n  author: Zeno Rocha\n  primary:\n    background: '#282a36'\n    foreground: '#f8f8f2'\n  normal:\n    black: '#000000'\n    red: '#ff5555'\n";

fn parse(s: &str) -> Value {
    serde_yaml::from_str(s).unwrap()
}

#[test]
fn colors_replaced_and_rest_kept() {
    let out = apply_theme(CONFIG, DRACULA).unwrap();
    let got = parse(&out);
    let cfg = parse(CONFIG);
    let theme = parse(DRACULA);
    assert_eq!(got["colors"], theme["colors"]);
    assert_eq!(got["font"], cfg["font"]);
    assert_eq!(got["window"], cfg["window"]);
    assert_eq!(got.as_mapping().unwrap().len(), 3);
}

#[test]
fn colors_added_where_missing() {
    let out = apply_theme("font:\n  size: 11\n", DRACULA).unwrap();
    let got = parse(&out);
    assert_eq!(got["colors"], parse(DRACULA)["colors"]);
    assert_eq!(got["font"]["size"], Value::from(11));
}

#[test]
fn applying_twice_is_applying_once() {
    let once = apply_theme(CONFIG, DRACULA).unwrap();
    let twice = apply_theme(&once, DRACULA).unwrap();
    assert_eq!(once, twice);
    let m1 = merge_documents(CONFIG, DRACULA).unwrap();
    let m2 = merge_documents(&once, DRACULA).unwrap();
    assert_eq!(m1, m2);
}

#[test]
fn replace_colors_on_mappings() {
    let mut cfg: Mapping = serde_yaml::from_str(CONFIG).unwrap();
    let theme: Mapping = serde_yaml::from_str(DRACULA).unwrap();
    let expected = theme.get("colors").unwrap().clone();
    assert_eq!(replace_colors(&mut cfg, theme), Ok(()));
    assert_eq!(cfg.get("colors"), Some(&expected));
    let before = cfg.clone();
    let empty = Mapping::new();
    assert_eq!(replace_colors(&mut cfg, empty), Err(MergeError::NoColors));
    assert_eq!(cfg, before);
}

#[test]
fn written_text_is_the_merged_mapping() {
    let out = apply_theme(CONFIG, DRACULA).unwrap();
    let m = merge_documents(CONFIG, DRACULA).unwrap();
    assert_eq!(out, serde_yaml::to_string(&m).unwrap());
    assert!(!out.is_empty());
}

#[test]
fn merge_errors() {
    assert_eq!(apply_theme("- a\n- b\n", DRACULA), Err(MergeError::Config));
    assert_eq!(apply_theme(CONFIG, "key: [unclosed"), Err(MergeError::Theme));
    assert_eq!(apply_theme(CONFIG, "name: nothing here\n"), Err(MergeError::NoColors));
    assert_eq!(merge_documents(CONFIG, "just text"), Err(MergeError::Theme));
}

#[test]
fn browse_then_apply_dracula() {
    let items = vec![
        ListItem { name: "dracula.yml".to_string(), path: "/t/dracula.yml".to_string() },
        ListItem { name: "broken.yml".to_string(), path: "/t/broken.yml".to_string() },
    ];
    let cfg_path = "/home/u/.config/alacritty/alacritty.yml".to_string();
    let mut app = App::new(items, cfg_path.clone());
    assert_eq!(app.items.items.len(), 2);

    // broken.yml is empty: it cannot be read as a theme and previews as the default
    app.handle_key(Key::Char('G'));
    assert_eq!(app.info_index(), 1);
    let lines = render_info(&YmlColor::or_default(None).colors);
    assert_eq!(lines[0].value.as_deref(), Some("Empty"));
    assert!(lines.iter().all(|l| l.swatch.map_or(true, |c| c.r == 0 && c.g == 0 && c.b == 0)));

    app.handle_key(Key::Char('g'));
    let path = match app.handle_key(Key::Char('a')) {
        Action::Apply(p) => p,
        _ => panic!("expected an apply action"),
    };
    assert_eq!(path, "/t/dracula.yml");
    assert_eq!(
        backup_file_path(&cfg_path),
        Some("/home/u/.config/alacritty/alacritty-backup.yml".to_string())
    );
    let out = apply_theme(CONFIG, DRACULA).unwrap();
    let got = parse(&out);
    assert_eq!(got["colors"], parse(DRACULA)["colors"]);
    assert_eq!(got["font"], parse(CONFIG)["font"]);
}

#[test]
fn empty_config_gets_colors() {
    let out = apply_theme("", DRACULA).unwrap();
    assert_eq!(parse(&out)["colors"], parse(DRACULA)["colors"]);
}
