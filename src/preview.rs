//! The lines that show a theme's palette: a label, the literal text, and the
//! swatch colour that the text stands for.
use vstd::prelude::*;
use crate::color::{black, color_of, hex_to_rgb, lemma_six_digit_token, pair_value, Rgb};
use crate::theme::{default_hex, empty_label, YmlColors};

verus! {

/// One line of the preview. A section heading has neither value nor swatch.
#[derive(Clone, Debug)]
pub struct PreviewLine {
    pub label: String,
    pub value: Option<String>,
    pub swatch: Option<Rgb>,
}

/// What a line shows, as plain values.
pub type LineView = (Seq<char>, Option<Seq<char>>, Option<Rgb>);

pub open spec fn line_view(l: PreviewLine) -> LineView {
    (l.label@, match l.value {
        Some(v) => Some(v@),
        None => None,
    }, l.swatch)
}

pub open spec fn heading(label: Seq<char>) -> LineView {
    (label, None, None)
}

pub open spec fn text_line(label: Seq<char>, v: Seq<char>) -> LineView {
    (label, Some(v), None)
}

pub open spec fn swatch_line(label: Seq<char>, v: Seq<char>) -> LineView {
    (label, Some(v), Some(color_of(v)))
}

pub open spec fn or_empty(v: Option<String>) -> Seq<char> {
    match v {
        Some(s) => s@,
        None => empty_label(),
    }
}

/// The cursor line: the colour's text, or `#000000` beside a black swatch
/// where the theme has no cursor section.
pub open spec fn cursor_line(c: YmlColors, label: Seq<char>, text: bool) -> LineView {
    match c.cursor {
        Some(k) => swatch_line(label, if text { k.text@ } else { k.cursor@ }),
        None => swatch_line(label, default_hex()),
    }
}

pub open spec fn views(s: Seq<PreviewLine>) -> Seq<LineView> {
    s.map_values(|l: PreviewLine| line_view(l))
}

/// Name, author, and the primary and cursor sections.
pub open spec fn head_of(c: YmlColors) -> Seq<LineView> {
    seq![
        text_line("name:"@, or_empty(c.name)),
        text_line("author:"@, or_empty(c.author)),
        heading("primary:"@),
        swatch_line("background:"@, c.primary.background@),
        swatch_line("foreground:"@, c.primary.foreground@),
        heading("cursor:"@),
        cursor_line(c, "text:"@, true),
        cursor_line(c, "cursor:"@, false),
    ]
}

/// A heading and the eight ANSI slots under it.
pub open spec fn ansi_of(
    title: Seq<char>,
    black: Seq<char>,
    red: Seq<char>,
    green: Seq<char>,
    yellow: Seq<char>,
    blue: Seq<char>,
    magenta: Seq<char>,
    cyan: Seq<char>,
    white: Seq<char>,
) -> Seq<LineView> {
    seq![
        heading(title),
        swatch_line("black:"@, black),
        swatch_line("red:"@, red),
        swatch_line("green:"@, green),
        swatch_line("yellow:"@, yellow),
        swatch_line("blue:"@, blue),
        swatch_line("magenta:"@, magenta),
        swatch_line("cyan:"@, cyan),
        swatch_line("white:"@, white),
    ]
}

/// The whole preview of a palette, top to bottom.
pub open spec fn preview_of(c: YmlColors) -> Seq<LineView> {
    head_of(c) + ansi_of(
        "normal:"@,
        c.normal.black@,
        c.normal.red@,
        c.normal.green@,
        c.normal.yellow@,
        c.normal.blue@,
        c.normal.magenta@,
        c.normal.cyan@,
        c.normal.white@,
    ) + ansi_of(
        "bright:"@,
        c.bright.black@,
        c.bright.red@,
        c.bright.green@,
        c.bright.yellow@,
        c.bright.blue@,
        c.bright.magenta@,
        c.bright.cyan@,
        c.bright.white@,
    )
}

fn push_line(v: &mut Vec<PreviewLine>, l: PreviewLine)
    ensures
        views(final(v)@) == views(old(v)@).push(line_view(l)),
{
    v.push(l);
    assert(views(v@) =~= views(old(v)@).push(line_view(l)));
}

fn make_heading(label: &str) -> (r: PreviewLine)
    ensures
        line_view(r) == heading(label@),
{
    PreviewLine { label: String::from_str(label), value: None, swatch: None }
}

fn make_text(label: &str, v: &Option<String>) -> (r: PreviewLine)
    ensures
        line_view(r) == text_line(label@, or_empty(*v)),
{
    let value = match v {
        Some(s) => s.clone(),
        None => {
            proof { reveal_strlit("Empty"); }
            String::from_str("Empty")
        },
    };
    PreviewLine { label: String::from_str(label), value: Some(value), swatch: None }
}

fn make_swatch(label: &str, v: &String) -> (r: PreviewLine)
    ensures
        line_view(r) == swatch_line(label@, v@),
{
    PreviewLine {
        label: String::from_str(label),
        value: Some(v.clone()),
        swatch: Some(hex_to_rgb(v.as_str())),
    }
}

fn make_cursor(c: &YmlColors, label: &str, text: bool) -> (r: PreviewLine)
    ensures
        line_view(r) == cursor_line(*c, label@, text),
{
    match &c.cursor {
        Some(k) => make_swatch(label, if text { &k.text } else { &k.cursor }),
        None => {
            proof { reveal_strlit("#000000"); }
            make_swatch(label, &String::from_str("#000000"))
        },
    }
}

fn push_head(v: &mut Vec<PreviewLine>, c: &YmlColors)
    ensures
        views(final(v)@) == views(old(v)@) + head_of(*c),
{
    let ghost s0 = views(v@);
    push_line(v, make_text("name:", &c.name));
    push_line(v, make_text("author:", &c.author));
    push_line(v, make_heading("primary:"));
    push_line(v, make_swatch("background:", &c.primary.background));
    push_line(v, make_swatch("foreground:", &c.primary.foreground));
    push_line(v, make_heading("cursor:"));
    push_line(v, make_cursor(c, "text:", true));
    push_line(v, make_cursor(c, "cursor:", false));
    assert(views(v@) =~= s0 + head_of(*c));
}

fn push_ansi(
    v: &mut Vec<PreviewLine>,
    title: &str,
    black: &String,
    red: &String,
    green: &String,
    yellow: &String,
    blue: &String,
    magenta: &String,
    cyan: &String,
    white: &String,
)
    ensures
        views(final(v)@) == views(old(v)@) + ansi_of(
            title@,
            black@,
            red@,
            green@,
            yellow@,
            blue@,
            magenta@,
            cyan@,
            white@,
        ),
{
    let ghost s0 = views(v@);
    push_line(v, make_heading(title));
    push_line(v, make_swatch("black:", black));
    push_line(v, make_swatch("red:", red));
    push_line(v, make_swatch("green:", green));
    push_line(v, make_swatch("yellow:", yellow));
    push_line(v, make_swatch("blue:", blue));
    push_line(v, make_swatch("magenta:", magenta));
    push_line(v, make_swatch("cyan:", cyan));
    push_line(v, make_swatch("white:", white));
    assert(views(v@) =~= s0 + ansi_of(
        title@,
        black@,
        red@,
        green@,
        yellow@,
        blue@,
        magenta@,
        cyan@,
        white@,
    ));
}

/// The preview of a palette; it never fails, also on an all-default one.
pub fn render_info(c: &YmlColors) -> (r: Vec<PreviewLine>)
    ensures
        views(r@) == preview_of(*c),
{
    let mut v: Vec<PreviewLine> = Vec::new();
    assert(views(v@) =~= Seq::<LineView>::empty());
    push_head(&mut v, c);
    let n = &c.normal;
    push_ansi(&mut v, "normal:", &n.black, &n.red, &n.green, &n.yellow, &n.blue, &n.magenta, &n.cyan, &n.white);
    let b = &c.bright;
    push_ansi(&mut v, "bright:", &b.black, &b.red, &b.green, &b.yellow, &b.blue, &b.magenta, &b.cyan, &b.white);
    assert(views(v@) =~= preview_of(*c));
    v
}

proof fn lemma_default_hex_is_black()
    ensures
        color_of(default_hex()) == black(),
{
    reveal_strlit("#000000");
    let zeros = seq!['0', '0', '0', '0', '0', '0'];
    assert(default_hex() =~= seq!['#'] + zeros);
    lemma_six_digit_token(seq!['#'], zeros);
    assert(pair_value(zeros, 0) == 0);
    assert(pair_value(zeros, 1) == 0);
    assert(pair_value(zeros, 2) == 0);
}

/// A theme without a cursor section previews its cursor colours as
/// `#000000` beside black swatches.
pub proof fn lemma_missing_cursor_previews_black(c: YmlColors)
    requires
        c.cursor.is_none(),
    ensures
        preview_of(c)[6] == ("text:"@, Some(default_hex()), Some(black())),
        preview_of(c)[7] == ("cursor:"@, Some(default_hex()), Some(black())),
{
    lemma_default_hex_is_black();
    let h = head_of(c);
    assert(h.len() == 8);
    assert(preview_of(c)[6] == h[6]);
    assert(preview_of(c)[7] == h[7]);
}

} // verus!
