//! What the installer tells and asks its user.
//!
//! Nothing here touches a terminal. A [`Line`] says what is to be written and
//! where, a [`Menu`] says what is to be asked; the caller writes and asks, and
//! hands back the position that the user picked.

use vstd::prelude::*;
use vstd::string::*;

verus! {

/// First item of the menu that asks whether to go on.
pub const YES: &'static str = "Yes";

/// Second item of the menu that asks whether to go on.
pub const NO: &'static str = "No";

/// What is said when a menu hands back a position that it does not have.
pub const UNKNOWN: &'static str = "Unknown Error Occurred";

/// How much weight a status message carries.
#[derive(Clone, Copy, Debug, PartialEq, Eq, Structural)]
pub enum Lvl {
    Warning,
    Success,
    Error,
    Info,
}

/// The colours in which status messages are written.
#[derive(Clone, Copy, Debug, PartialEq, Eq, Structural)]
pub enum Color {
    Yellow,
    Green,
    Red,
    White,
}

/// How the user answered the question whether to go on.
#[derive(Clone, Copy, Debug, PartialEq, Eq, Structural)]
pub enum Confirm {
    Yes,
    No,
}

/// Where a line goes and how it is dressed.
#[derive(Clone, Copy, Debug, PartialEq, Eq, Structural)]
pub enum Sink {
    /// Standard output, bold, in the colour of the level.
    Log(Lvl),
    /// Standard output, undressed.
    Stdout,
    /// Standard error, undressed.
    Stderr,
}

/// One line of text for the user. The line break after it is not part of `text`.
#[derive(Clone, Debug, PartialEq, Eq)]
pub struct Line {
    pub sink: Sink,
    pub text: String,
}

/// A [`Line`] as a mathematical value.
pub struct LineView {
    pub sink: Sink,
    pub text: Seq<char>,
}

impl View for Line {
    type V = LineView;

    open spec fn view(&self) -> LineView {
        LineView { sink: self.sink, text: self.text@ }
    }
}

impl DeepView for Line {
    type V = LineView;

    open spec fn deep_view(&self) -> LineView {
        self@
    }
}

/// A question with two answers, of which the first is preselected.
#[derive(Clone, Debug, PartialEq, Eq)]
pub struct Menu {
    pub prompt: String,
    pub first: String,
    pub second: String,
    pub default: usize,
}

/// A [`Menu`] as a mathematical value.
pub struct MenuView {
    pub prompt: Seq<char>,
    pub first: Seq<char>,
    pub second: Seq<char>,
    pub default: usize,
}

impl View for Menu {
    type V = MenuView;

    open spec fn view(&self) -> MenuView {
        MenuView {
            prompt: self.prompt@,
            first: self.first@,
            second: self.second@,
            default: self.default,
        }
    }
}

impl Lvl {
    /// The colour of a level: warnings are yellow, successes green, errors
    /// red, everything else white.
    pub open spec fn spec_color(self) -> Color {
        match self {
            Lvl::Warning => Color::Yellow,
            Lvl::Success => Color::Green,
            Lvl::Error => Color::Red,
            Lvl::Info => Color::White,
        }
    }

    /// The colour in which a message of this level is written.
    #[verifier::when_used_as_spec(spec_color)]
    pub fn color(self) -> (c: Color)
        ensures
            c == self.spec_color(),
    {
        match self {
            Lvl::Warning => Color::Yellow,
            Lvl::Success => Color::Green,
            Lvl::Error => Color::Red,
            Lvl::Info => Color::White,
        }
    }
}

/// The status line of level `lvl` with text `msg`.
pub open spec fn styled(lvl: Lvl, msg: Seq<char>) -> LineView {
    LineView { sink: Sink::Log(lvl), text: msg }
}

/// The undressed line `msg` on standard output.
pub open spec fn printed(msg: Seq<char>) -> LineView {
    LineView { sink: Sink::Stdout, text: msg }
}

/// The undressed line `msg` on standard error.
pub open spec fn complained(msg: Seq<char>) -> LineView {
    LineView { sink: Sink::Stderr, text: msg }
}

/// The menu that asks `prompt` and offers `c1` and `c2`, with `c1` preselected.
pub open spec fn choice_of(c1: Seq<char>, c2: Seq<char>, prompt: Seq<char>) -> MenuView {
    MenuView { prompt: prompt, first: c1, second: c2, default: 0 }
}

/// What position `choice` of the yes/no menu means.
pub open spec fn answer_of(choice: usize) -> Confirm {
    if choice == 0 {
        Confirm::Yes
    } else {
        Confirm::No
    }
}

/// The text `a` followed by the text `b`.
pub fn join(a: &str, b: &str) -> (text: String)
    ensures
        text@ == a@ + b@,
{
    let mut text = String::from_str(a);
    text.append(b);
    text
}

/// A status message: `msg`, to be written bold in the colour of `msg_type`.
pub fn log(msg_type: Lvl, msg: &str) -> (line: Line)
    ensures
        line@ == styled(msg_type, msg@),
{
    Line { sink: Sink::Log(msg_type), text: String::from_str(msg) }
}

/// An undressed line for standard output.
pub fn print(msg: &str) -> (line: Line)
    ensures
        line@ == printed(msg@),
{
    Line { sink: Sink::Stdout, text: String::from_str(msg) }
}

/// An undressed line for standard error.
pub fn complain(msg: &str) -> (line: Line)
    ensures
        line@ == complained(msg@),
{
    Line { sink: Sink::Stderr, text: String::from_str(msg) }
}

/// No lines at all.
pub fn silence() -> (lines: Vec<Line>)
    ensures
        lines.deep_view() == Seq::<LineView>::empty(),
{
    let lines: Vec<Line> = Vec::new();
    assert(lines.deep_view() =~= Seq::<LineView>::empty());
    lines
}

/// Appends `line` to `lines`.
pub fn put(lines: &mut Vec<Line>, line: Line)
    ensures
        final(lines).deep_view() == old(lines).deep_view().push(line@),
{
    lines.push(line);
    assert(lines.deep_view() =~= old(lines).deep_view().push(line@));
}

/// Appends all of `more` to `lines`, in order.
pub fn put_all(lines: &mut Vec<Line>, more: Vec<Line>)
    ensures
        final(lines).deep_view() == old(lines).deep_view() + more.deep_view(),
{
    let mut rest = more;
    lines.append(&mut rest);
    assert(lines.deep_view() =~= old(lines).deep_view() + more.deep_view());
}

/// The question to put to the user: `prompt`, with the answers `c1` and `c2`
/// and the first of them preselected. The position picked, 0 or 1, is what
/// [`confirm`] and the session read.
pub fn get_choice(c1: &str, c2: &str, prompt: &str) -> (menu: Menu)
    ensures
        menu@ == choice_of(c1@, c2@, prompt@),
{
    Menu {
        prompt: String::from_str(prompt),
        first: String::from_str(c1),
        second: String::from_str(c2),
        default: 0,
    }
}

/// Reads the position picked in the yes/no menu as an answer: the first
/// item is [`Confirm::Yes`], the second [`Confirm::No`].
pub fn confirm(choice: usize) -> (answer: Confirm)
    requires
        choice < 2,
    ensures
        answer == answer_of(choice),
{
    if choice == 0 {
        Confirm::Yes
    } else {
        Confirm::No
    }
}

} // verus!
