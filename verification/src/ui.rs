//! What the terminal shows: lines of styled text. Printing them, in colour
//! where the terminal allows it, is left to the caller.

use vstd::prelude::*;
use crate::text::{push_char, string_of};

verus! {

/// The foreground colours the client uses.
#[derive(Debug)]
pub enum Color {
    Cyan,
    Red,
    Green,
    Yellow,
}

/// A run of text in one style.
#[derive(Debug)]
pub struct Segment {
    pub text: String,
    pub color: Option<Color>,
    pub bold: bool,
    pub dimmed: bool,
}

/// One line of output: its segments, printed one after the other.
#[derive(Debug)]
pub struct Line {
    pub segments: Vec<Segment>,
}

/// Whether `s` is `text` in this colour and style.
pub open spec fn styled(s: Segment, text: Seq<char>, color: Option<Color>, bold: bool, dimmed: bool) -> bool {
    s.text@ == text && s.color == color && s.bold == bold && s.dimmed == dimmed
}

/// Whether `line` is a status tag and a message, both in `color`, the tag in bold.
pub open spec fn tagged(line: Line, tag: Seq<char>, msg: Seq<char>, color: Color) -> bool {
    &&& line.segments.len() == 3
    &&& styled(line.segments[0], tag, Some(color), true, false)
    &&& styled(line.segments[1], " "@, None, false, false)
    &&& styled(line.segments[2], msg, Some(color), false, false)
}

/// A segment holding `text` in this style.
pub fn segment(text: &str, color: Option<Color>, bold: bool, dimmed: bool) -> (res: Segment)
    ensures
        styled(res, text@, color, bold, dimmed),
{
    Segment { text: string_of(text), color, bold, dimmed }
}

/// The tag, a space and the message, in one colour.
fn print(msg_type: &str, msg: &str, color: Color) -> (res: Line)
    ensures
        tagged(res, msg_type@, msg@, color),
{
    let mut segments: Vec<Segment> = Vec::new();
    let c2 = match color {
        Color::Cyan => Color::Cyan,
        Color::Red => Color::Red,
        Color::Green => Color::Green,
        Color::Yellow => Color::Yellow,
    };
    segments.push(segment(msg_type, Some(color), true, false));
    segments.push(segment(" ", None, false, false));
    segments.push(segment(msg, Some(c2), false, false));
    Line { segments }
}

/// An informational message: `[➜] msg` in cyan.
pub fn info(msg: &str) -> (res: Line)
    ensures
        tagged(res, "[➜]"@, msg@, Color::Cyan),
{
    print("[➜]", msg, Color::Cyan)
}

/// An error message: `[✗] msg` in red.
pub fn error(msg: &str) -> (res: Line)
    ensures
        tagged(res, "[✗]"@, msg@, Color::Red),
{
    print("[✗]", msg, Color::Red)
}

/// A success message: `[✔] msg` in green.
pub fn success(msg: &str) -> (res: Line)
    ensures
        tagged(res, "[✔]"@, msg@, Color::Green),
{
    print("[✔]", msg, Color::Green)
}

/// A message about something under way: `[⧗] msg` in yellow.
pub fn wait(msg: &str) -> (res: Line)
    ensures
        tagged(res, "[⧗]"@, msg@, Color::Yellow),
{
    print("[⧗]", msg, Color::Yellow)
}

/// A completed step: a green bold `[✔]` and the message dimmed.
pub fn step(msg: &str) -> (res: Line)
    ensures
        res.segments.len() == 3,
        styled(res.segments[0], "[✔]"@, Some(Color::Green), true, false),
        styled(res.segments[1], " "@, None, false, false),
        styled(res.segments[2], msg@, None, false, true),
{
    let mut segments: Vec<Segment> = Vec::new();
    segments.push(segment("[✔]", Some(Color::Green), true, false));
    segments.push(segment(" ", None, false, false));
    segments.push(segment(msg, None, false, true));
    Line { segments }
}

/// A labelled link: a cyan bold `[➜]`, the label dimmed, the URL in cyan bold.
pub fn link(msg: &str, url: &str) -> (res: Line)
    ensures
        res.segments.len() == 5,
        styled(res.segments[0], "[➜]"@, Some(Color::Cyan), true, false),
        styled(res.segments[1], " "@, None, false, false),
        styled(res.segments[2], msg@, None, false, true),
        styled(res.segments[3], " "@, None, false, false),
        styled(res.segments[4], url@, Some(Color::Cyan), true, false),
{
    let mut segments: Vec<Segment> = Vec::new();
    segments.push(segment("[➜]", Some(Color::Cyan), true, false));
    segments.push(segment(" ", None, false, false));
    segments.push(segment(msg, None, false, true));
    segments.push(segment(" ", None, false, false));
    segments.push(segment(url, Some(Color::Cyan), true, false));
    Line { segments }
}

/// The product banner, in cyan bold.
pub fn banner() -> (res: Line)
    ensures
        res.segments.len() == 1,
        styled(res.segments[0], BANNER@, Some(Color::Cyan), true, false),
{
    let mut segments: Vec<Segment> = Vec::new();
    segments.push(segment(BANNER, Some(Color::Cyan), true, false));
    Line { segments }
}

/// The product banner's text.
pub const BANNER: &'static str = "
 __          ___             _     _         _ 
 \\ \\        / (_)           | |   (_)       | |
  \\ \\  /\\  / / _ _ __   __ _| |__  _ _ __ __| |
   \\ \\/  \\/ / | | '_ \\ / _` | '_ \\| | '__/ _` |
    \\  /\\  /  | | | | | (_| | |_) | | | | (_| |
     \\/  \\/   |_|_| |_|\\__, |_.__/|_|_|  \\__,_|
                        __/ |
                       |___|
";

/// Forty dashes.
pub open spec fn rule_text() -> Seq<char> {
    Seq::new(40, |i: int| '-')
}

/// A labelled field of the profile: two spaces, the label in bold, a space, the value.
pub open spec fn field_line(line: Line, label: Seq<char>, value: Seq<char>, dimmed: bool) -> bool {
    &&& line.segments.len() == 4
    &&& styled(line.segments[0], "  "@, None, false, false)
    &&& styled(line.segments[1], label, None, true, false)
    &&& styled(line.segments[2], " "@, None, false, false)
    &&& styled(line.segments[3], value, None, false, dimmed)
}

/// A dimmed rule of forty dashes.
fn rule() -> (res: Line)
    ensures
        res.segments.len() == 1,
        styled(res.segments[0], rule_text(), None, false, true),
{
    let mut text = String::new();
    let mut i: usize = 0;
    while i < 40
        invariant
            i <= 40,
            text@ == Seq::new(i as nat, |k: int| '-'),
        decreases 40 - i,
    {
        push_char(&mut text, '-');
        i = i + 1;
        assert(text@ =~= Seq::new(i as nat, |k: int| '-'));
    }
    let mut segments: Vec<Segment> = Vec::new();
    segments.push(Segment { text, color: None, bold: false, dimmed: true });
    Line { segments }
}

/// `  {label} {value}`.
fn field(label: &str, value: &str, dimmed: bool) -> (res: Line)
    ensures
        field_line(res, label@, value@, dimmed),
{
    let mut segments: Vec<Segment> = Vec::new();
    segments.push(segment("  ", None, false, false));
    segments.push(segment(label, None, true, false));
    segments.push(segment(" ", None, false, false));
    segments.push(segment(value, None, false, dimmed));
    Line { segments }
}

/// An account's profile between two rules: name, email and, dimmed, its id.
pub fn profile(name: &str, email: &str, id: &str) -> (res: Vec<Line>)
    ensures
        res.len() == 5,
        res[0].segments.len() == 1 && styled(res[0].segments[0], rule_text(), None, false, true),
        field_line(res[1], "Name:"@, name@, false),
        field_line(res[2], "Email:"@, email@, false),
        field_line(res[3], "ID:"@, id@, true),
        res[4].segments.len() == 1 && styled(res[4].segments[0], rule_text(), None, false, true),
{
    let mut lines: Vec<Line> = Vec::new();
    lines.push(rule());
    lines.push(field("Name:", name, false));
    lines.push(field("Email:", email, false));
    lines.push(field("ID:", id, true));
    lines.push(rule());
    lines
}

} // verus!
