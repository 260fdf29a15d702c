//! Drawing, reduced to data.
//!
//! The library never touches the terminal. Instead it computes, for each
//! repaint, the exact sequence of buffered drawing primitives to issue;
//! the unverified shell queues them on the real terminal and flushes once
//! per tick. The two repaints are the full menu body (prompt plus one line
//! per item, or a placeholder when there are no items) and the cursor
//! marker (erase it at the previous row, draw it at the new row).

use vstd::prelude::*;
use vstd::string::StringExecFns;
use crate::layout::Layout;

verus! {

/// One buffered drawing primitive.
#[derive(PartialEq, Eq, Debug)]
pub enum DrawCmd {
    /// Clear the whole screen.
    ClearAll,
    /// Move the terminal cursor to (column, row).
    MoveTo(u16, u16),
    /// Write text at the current position.
    Print(String),
    /// Move to the start of the next line.
    NextLine,
    /// Move to the given column on the current line.
    MoveToColumn(u16),
}

/// The mathematical value of a drawing primitive: as `DrawCmd`, with the
/// printed text as a sequence of characters.
pub ghost enum DrawCmdV {
    ClearAll,
    MoveTo(u16, u16),
    Print(Seq<char>),
    NextLine,
    MoveToColumn(u16),
}

impl View for DrawCmd {
    type V = DrawCmdV;

    open spec fn view(&self) -> DrawCmdV {
        match self {
            DrawCmd::ClearAll => DrawCmdV::ClearAll,
            DrawCmd::MoveTo(x, y) => DrawCmdV::MoveTo(*x, *y),
            DrawCmd::Print(s) => DrawCmdV::Print(s@),
            DrawCmd::NextLine => DrawCmdV::NextLine,
            DrawCmd::MoveToColumn(x) => DrawCmdV::MoveToColumn(*x),
        }
    }
}

/// The values of a sequence of drawing primitives.
pub open spec fn cmd_views(s: Seq<DrawCmd>) -> Seq<DrawCmdV> {
    s.map_values(|c: DrawCmd| c@)
}

/// The character sequences of a sequence of strings.
pub open spec fn str_views(s: Seq<String>) -> Seq<Seq<char>> {
    s.map_values(|x: String| x@)
}

/// The text shown in place of the item list while no item has arrived.
pub open spec fn placeholder_text() -> Seq<char> {
    "<No options supplied>"@
}

/// The fixed head of every menu repaint: clear the screen, write the
/// prompt at its anchor, move to the item origin.
pub open spec fn menu_header(layout: Layout, prompt: Seq<char>) -> Seq<DrawCmdV> {
    seq![
        DrawCmdV::ClearAll,
        DrawCmdV::MoveTo(layout.prompt_x, layout.prompt_y),
        DrawCmdV::Print(prompt),
        DrawCmdV::MoveTo(layout.origin_x, layout.origin_y),
    ]
}

/// One line per item: its display text, then down to the next line and
/// back to the item column.
pub open spec fn item_lines(layout: Layout, displays: Seq<Seq<char>>) -> Seq<DrawCmdV>
    decreases displays.len(),
{
    if displays.len() == 0 {
        Seq::empty()
    } else {
        item_lines(layout, displays.drop_last()) + seq![
            DrawCmdV::Print(displays.last()),
            DrawCmdV::NextLine,
            DrawCmdV::MoveToColumn(layout.origin_x),
        ]
    }
}

/// The whole menu repaint: header, one line per item, and the placeholder
/// when there is no item.
pub open spec fn menu_cmds(layout: Layout, prompt: Seq<char>, displays: Seq<Seq<char>>) -> Seq<
    DrawCmdV,
> {
    menu_header(layout, prompt) + item_lines(layout, displays) + if displays.len() == 0 {
        seq![DrawCmdV::Print(placeholder_text())]
    } else {
        Seq::empty()
    }
}

/// The cursor-marker repaint: blank the marker cell at the row of
/// `erase_pos`, then write the marker glyph at the row of `marker_pos`.
pub open spec fn marker_cmds(layout: Layout, erase_pos: int, marker_pos: int) -> Seq<DrawCmdV> {
    seq![
        DrawCmdV::MoveTo(layout.marker_col(), layout.item_row(erase_pos) as u16),
        DrawCmdV::Print("  "@),
        DrawCmdV::MoveTo(layout.marker_col(), layout.item_row(marker_pos) as u16),
        DrawCmdV::Print("=>"@),
    ]
}

/// Compute the drawing primitives of a full menu repaint.
pub fn menu_commands(layout: &Layout, prompt: &String, displays: &Vec<String>) -> (r: Vec<DrawCmd>)
    ensures
        cmd_views(r@) == menu_cmds(*layout, prompt@, str_views(displays@)),
{
    let mut r: Vec<DrawCmd> = Vec::new();
    r.push(DrawCmd::ClearAll);
    r.push(DrawCmd::MoveTo(layout.prompt_x, layout.prompt_y));
    r.push(DrawCmd::Print(prompt.clone()));
    r.push(DrawCmd::MoveTo(layout.origin_x, layout.origin_y));
    assert(cmd_views(r@) =~= menu_header(*layout, prompt@));

    let ghost all = str_views(displays@);
    let mut i: usize = 0;
    while i < displays.len()
        invariant
            i <= displays.len(),
            all == str_views(displays@),
            all.len() == displays.len(),
            cmd_views(r@) =~= menu_header(*layout, prompt@) + item_lines(
                *layout,
                all.take(i as int),
            ),
        decreases displays.len() - i,
    {
        let ghost prior = r@;
        r.push(DrawCmd::Print(displays[i].clone()));
        r.push(DrawCmd::NextLine);
        r.push(DrawCmd::MoveToColumn(layout.origin_x));
        proof {
            let line = seq![
                DrawCmdV::Print(all[i as int]),
                DrawCmdV::NextLine,
                DrawCmdV::MoveToColumn(layout.origin_x),
            ];
            assert(cmd_views(r@) =~= cmd_views(prior) + line);
            assert(all.take(i + 1).drop_last() =~= all.take(i as int));
            assert(all.take(i + 1).last() == all[i as int]);
            assert(item_lines(*layout, all.take(i + 1)) == item_lines(*layout, all.take(i as int))
                + line);
            assert(cmd_views(r@) =~= menu_header(*layout, prompt@) + item_lines(
                *layout,
                all.take(i + 1),
            ));
        }
        i = i + 1;
    }
    proof {
        assert(all.take(displays.len() as int) =~= all);
    }

    if displays.len() == 0 {
        r.push(DrawCmd::Print(String::from_str("<No options supplied>")));
    }
    proof {
        assert(cmd_views(r@) =~= menu_cmds(*layout, prompt@, str_views(displays@)));
    }
    r
}

/// Compute the drawing primitives of a cursor-marker repaint.
///
/// The marker rows must fit in the terminal's coordinate range; the caller
/// checks this before asking for the repaint.
pub fn cursor_commands(layout: &Layout, erase_pos: usize, marker_pos: usize) -> (r: Vec<DrawCmd>)
    requires
        layout.wf(),
        layout.item_row(erase_pos as int) <= u16::MAX,
        layout.item_row(marker_pos as int) <= u16::MAX,
    ensures
        cmd_views(r@) == marker_cmds(*layout, erase_pos as int, marker_pos as int),
{
    let mut r: Vec<DrawCmd> = Vec::new();
    let col = layout.origin_x - 3;
    r.push(DrawCmd::MoveTo(col, layout.origin_y + (erase_pos as u16)));
    r.push(DrawCmd::Print(String::from_str("  ")));
    r.push(DrawCmd::MoveTo(col, layout.origin_y + (marker_pos as u16)));
    r.push(DrawCmd::Print(String::from_str("=>")));
    proof {
        assert(cmd_views(r@) =~= marker_cmds(*layout, erase_pos as int, marker_pos as int));
    }
    r
}

} // verus!
