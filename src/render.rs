//! Turning records into display lines.
use vstd::prelude::*;

use crate::types::{ItemStruct, ProjectStruct};

verus! {

/// The terminal foreground colors that projects are shown in.
#[derive(Clone, Copy, Debug, PartialEq, Eq)]
pub enum TermColor {
    Black,
    Red,
    Green,
    Yellow,
    Blue,
    Magenta,
    Cyan,
    White,
    BrightRed,
    BrightGreen,
    BrightBlue,
    BrightCyan,
}

/// One line of output, with the color it is shown in (`None`: the default).
#[derive(Clone, Debug, PartialEq, Eq)]
pub struct OutputLine {
    pub color: Option<TermColor>,
    pub text: String,
}

/// The color for a project's color id: ids 0 to 11 are the standard colors,
/// 12 to 21 the premium ones; other ids are unknown.
pub open spec fn project_color(id: u8) -> Option<TermColor> {
    match id {
        0 => Some(TermColor::BrightGreen),
        1 => Some(TermColor::BrightRed),
        2 => Some(TermColor::Red),
        3 => Some(TermColor::Yellow),
        4 => Some(TermColor::BrightBlue),
        5 => Some(TermColor::White),
        6 => Some(TermColor::BrightRed),
        7 => Some(TermColor::White),
        8 => Some(TermColor::Red),
        9 => Some(TermColor::Yellow),
        10 => Some(TermColor::BrightGreen),
        11 => Some(TermColor::BrightBlue),
        12 => Some(TermColor::BrightRed),
        13 => Some(TermColor::Magenta),
        14 => Some(TermColor::Red),
        15 => Some(TermColor::Green),
        16 => Some(TermColor::BrightCyan),
        17 => Some(TermColor::Cyan),
        18 => Some(TermColor::BrightBlue),
        19 => Some(TermColor::Blue),
        20 => Some(TermColor::Black),
        21 => Some(TermColor::White),
        _ => None,
    }
}

/// `n` spaces.
pub open spec fn spaces(n: nat) -> Seq<char> {
    Seq::new(n, |i: int| ' ')
}

/// A task's line: two spaces per level of indent, the text, then the due
/// date in parentheses.
pub open spec fn item_line(t: ItemStruct) -> Seq<char> {
    spaces(2 * t.indent as nat) + t.content@ + " ("@ + t.date_string@ + ")"@
}

/// A project's line: two spaces per level of indent, then the name.
pub open spec fn project_line(p: ProjectStruct) -> Seq<char> {
    spaces(2 * p.indent as nat) + p.name@
}

/// Looks up the color for a project's color id.
pub fn project_color_id_map(color: u8) -> (r: Option<TermColor>)
    ensures
        r == project_color(color),
{
    match color {
        0 => Some(TermColor::BrightGreen),
        1 => Some(TermColor::BrightRed),
        2 => Some(TermColor::Red),
        3 => Some(TermColor::Yellow),
        4 => Some(TermColor::BrightBlue),
        5 => Some(TermColor::White),
        6 => Some(TermColor::BrightRed),
        7 => Some(TermColor::White),
        8 => Some(TermColor::Red),
        9 => Some(TermColor::Yellow),
        10 => Some(TermColor::BrightGreen),
        11 => Some(TermColor::BrightBlue),
        12 => Some(TermColor::BrightRed),
        13 => Some(TermColor::Magenta),
        14 => Some(TermColor::Red),
        15 => Some(TermColor::Green),
        16 => Some(TermColor::BrightCyan),
        17 => Some(TermColor::Cyan),
        18 => Some(TermColor::BrightBlue),
        19 => Some(TermColor::Blue),
        20 => Some(TermColor::Black),
        21 => Some(TermColor::White),
        _ => None,
    }
}

/// Two spaces for each level of indent.
fn indentation(indent: u8) -> (r: String)
    ensures
        r@ == spaces(2 * indent as nat),
{
    let n: usize = 2 * indent as usize;
    let mut s = String::new();
    let mut i: usize = 0;
    proof {
        reveal_strlit(" ");
    }
    while i < n
        invariant
            i <= n,
            n == 2 * indent as nat,
            s@ == spaces(i as nat),
            " "@ == seq![' '],
        decreases n - i,
    {
        s.append(" ");
        i = i + 1;
        assert(s@ =~= spaces(i as nat));
    }
    s
}

/// The line for a task, in the default color.
pub fn render_item(item: &ItemStruct) -> (r: OutputLine)
    ensures
        r.color is None,
        r.text@ == item_line(*item),
{
    let mut text = indentation(item.indent);
    text.append(item.content.as_str());
    text.append(" (");
    text.append(item.date_string.as_str());
    text.append(")");
    OutputLine { color: None, text }
}

/// The line for a project, in its color; `None` when its color id is unknown.
pub fn render_project(project: &ProjectStruct) -> (r: Option<OutputLine>)
    ensures
        match project_color(project.color) {
            None => r is None,
            Some(c) => r is Some && r->0.color == Some(c) && r->0.text@ == project_line(*project),
        },
{
    match project_color_id_map(project.color) {
        None => None,
        Some(c) => {
            let mut text = indentation(project.indent);
            text.append(project.name.as_str());
            Some(OutputLine { color: Some(c), text })
        },
    }
}

} // verus!
