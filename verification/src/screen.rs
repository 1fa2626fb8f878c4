//! What each program shows: lines of text at fixed places, and where the
//! cursor is left.
//!
//! The screens are computed here as plain values; writing them to a terminal
//! is the caller's part.

use crate::decimal::{decimal_text, push_decimal};
use crate::keybindings::{entries, Context, ContextView, Entry, KeyBinding};
use crate::pose::SimStatus;
use vstd::prelude::*;

verus! {

/// The row of the first binding on the editor's screen.
pub const FIRST_BINDING_ROW: u16 = 6;

/// One line of text and the place where it starts.
pub struct ScreenLine {
    pub column: u16,
    pub row: u16,
    pub text: String,
}

/// A line as plain values.
pub struct LineView {
    pub column: u16,
    pub row: u16,
    pub text: Seq<char>,
}

impl View for ScreenLine {
    type V = LineView;

    open spec fn view(&self) -> LineView {
        LineView { column: self.column, row: self.row, text: self.text@ }
    }
}

/// A whole screen: the lines to write on a cleared terminal, in order, and
/// the place where the cursor is left.
pub struct Screen {
    pub lines: Vec<ScreenLine>,
    pub cursor_column: u16,
    pub cursor_row: u16,
}

/// A screen as plain values.
pub struct ScreenView {
    pub lines: Seq<LineView>,
    pub cursor_column: u16,
    pub cursor_row: u16,
}

impl View for Screen {
    type V = ScreenView;

    open spec fn view(&self) -> ScreenView {
        ScreenView {
            lines: self.lines@.map_values(|line: ScreenLine| line@),
            cursor_column: self.cursor_column,
            cursor_row: self.cursor_row,
        }
    }
}

/// The text of a step of `increment` thousandths.
pub open spec fn step_text(increment: nat) -> Seq<char> {
    decimal_text(false, increment / 1000, increment % 1000, 3)
}

/// The six lines above the bindings on the editor's screen.
pub open spec fn editor_header(ctx: ContextView) -> Seq<LineView> {
    seq![
        LineView { column: 0, row: 0, text: "Remote Hololens Controller"@ },
        LineView { column: 0, row: 1, text: "Context:"@ },
        LineView {
            column: 1,
            row: 2,
            text: "Current translation amount: "@ + step_text(ctx.increment),
        },
        LineView { column: 1, row: 3, text: "Current game object: "@ + ctx.object },
        LineView { column: 0, row: 4, text: "Available commands: "@ },
        LineView { column: 1, row: 5, text: "[p] Quit"@ },
    ]
}

/// The line of the binding at place `index` of the table.
pub open spec fn binding_line(entry: Entry, index: int) -> LineView {
    LineView {
        column: 1,
        row: (index + FIRST_BINDING_ROW) as u16,
        text: "["@.push(entry.key) + "] "@ + entry.description,
    }
}

/// The editor's screen: the header, one line for each binding in the order
/// of the table, and the cursor on the line below the last binding.
pub open spec fn editor_screen_view(ctx: ContextView, table: Seq<Entry>) -> ScreenView {
    ScreenView {
        lines: editor_header(ctx) + Seq::new(table.len(), |i: int| binding_line(table[i], i)),
        cursor_column: 1,
        cursor_row: (table.len() + FIRST_BINDING_ROW) as u16,
    }
}

/// The size of `v`, without its sign.
pub open spec fn magnitude(v: int) -> nat {
    if v < 0 {
        (-v) as nat
    } else {
        v as nat
    }
}

/// The text of a latitude or longitude in degrees, exact to its eight
/// decimal places.
pub open spec fn position_text(v: int) -> Seq<char> {
    decimal_text(v < 0, magnitude(v) / 100_000_000, magnitude(v) % 100_000_000, 8)
}

/// The text of an altitude in metres, cut off behind the third decimal
/// place.
pub open spec fn altitude_text(v: int) -> Seq<char> {
    decimal_text(v < 0, magnitude(v) / 3, (magnitude(v) % 3) * 1000 / 3, 3)
}

/// The text of an angle in whole degrees.
pub open spec fn angle_text(v: int) -> Seq<char> {
    decimal_text(v < 0, magnitude(v), 0, 0)
}

/// The pose program's screen.
pub open spec fn pose_screen_view(pose: SimStatus) -> ScreenView {
    ScreenView {
        lines: seq![
            LineView { column: 0, row: 0, text: "Simulator Position Updater"@ },
            LineView {
                column: 0,
                row: 1,
                text: "Current position (lat/lon/alt): "@ + position_text(pose.lat as int) + "° "@
                    + position_text(pose.lon as int) + "° "@ + altitude_text(pose.alt as int)
                    + "m"@,
            },
            LineView {
                column: 0,
                row: 2,
                text: "Current orientation (yaw/pitch/roll): "@ + angle_text(pose.yaw as int)
                    + "° "@ + angle_text(pose.pitch as int) + "° "@ + angle_text(
                    pose.roll as int,
                ) + "°"@,
            },
            LineView { column: 0, row: 3, text: "Change position with [w][a][s][d][q][e]"@ },
            LineView { column: 0, row: 4, text: "Change orientation with [i][k][j][l][u][o]"@ },
            LineView {
                column: 0,
                row: 5,
                text: "Move to EDDM with [1], move to LOWI with [2], move to tunnel with [3]"@,
            },
            LineView { column: 0, row: 6, text: "Exit with [p]"@ },
        ],
        cursor_column: 0,
        cursor_row: 7,
    }
}

fn line(column: u16, row: u16, text: String) -> (made: ScreenLine)
    ensures
        made@ == (LineView { column, row, text: text@ }),
{
    ScreenLine { column, row, text }
}

fn magnitude_of(v: i64) -> (m: u64)
    ensures
        m == magnitude(v as int),
{
    if v >= 0 {
        v as u64
    } else if v == i64::MIN {
        9_223_372_036_854_775_808
    } else {
        (-v) as u64
    }
}

fn push_position(out: &mut String, v: i64)
    ensures
        final(out)@ == old(out)@ + position_text(v as int),
{
    let m: u64 = magnitude_of(v);
    push_decimal(out, v < 0, m / 100_000_000, m % 100_000_000, 8);
}

fn push_altitude(out: &mut String, v: i64)
    ensures
        final(out)@ == old(out)@ + altitude_text(v as int),
{
    let m: u64 = magnitude_of(v);
    push_decimal(out, v < 0, m / 3, (m % 3) * 1000 / 3, 3);
}

fn push_angle(out: &mut String, v: i64)
    ensures
        final(out)@ == old(out)@ + angle_text(v as int),
{
    let m: u64 = magnitude_of(v);
    push_decimal(out, v < 0, m, 0, 0);
}

/// Lays out the editor's screen for the context `ctx` and the table
/// `bindings`.
pub fn editor_screen(ctx: &Context, bindings: &Vec<KeyBinding>) -> (screen: Screen)
    requires
        bindings@.len() + FIRST_BINDING_ROW <= u16::MAX,
    ensures
        screen@ == editor_screen_view(ctx@, entries(bindings@)),
{
    let mut lines: Vec<ScreenLine> = Vec::new();
    lines.push(line(0, 0, String::from_str("Remote Hololens Controller")));
    lines.push(line(0, 1, String::from_str("Context:")));
    let mut amount = String::from_str("Current translation amount: ");
    let step: u64 = ctx.current_increment_amount as u64;
    push_decimal(&mut amount, false, step / 1000, step % 1000, 3);
    lines.push(line(1, 2, amount));
    let mut object = String::from_str("Current game object: ");
    object.append(ctx.current_game_object);
    lines.push(line(1, 3, object));
    lines.push(line(0, 4, String::from_str("Available commands: ")));
    lines.push(line(1, 5, String::from_str("[p] Quit")));
    let ghost table = entries(bindings@);
    let ghost header = editor_header(ctx@);
    assert(lines@.map_values(|line: ScreenLine| line@) =~= header);
    let mut i: usize = 0;
    while i < bindings.len()
        invariant
            i <= bindings.len(),
            bindings@.len() + FIRST_BINDING_ROW <= u16::MAX,
            table == entries(bindings@),
            header.len() == 6,
            lines@.len() == 6 + i,
            forall|k: int| 0 <= k < 6 ==> (#[trigger] lines@[k])@ == header[k],
            forall|k: int| 0 <= k < i ==> (#[trigger] lines@[6 + k])@ == binding_line(table[k], k),
        decreases bindings.len() - i,
    {
        let mut text = String::from_str("[");
        text.push(bindings[i].key);
        text.append("] ");
        text.append(bindings[i].description.as_str());
        let ghost before = lines@;
        lines.push(line(1, i as u16 + FIRST_BINDING_ROW, text));
        assert(lines@[6 + i]@ == binding_line(table[i as int], i as int));
        assert forall|k: int| 0 <= k < i implies (#[trigger] lines@[6 + k])@ == binding_line(
            table[k],
            k,
        ) by {
            assert(lines@[6 + k] == before[6 + k]);
        }
        assert forall|k: int| 0 <= k < 6 implies (#[trigger] lines@[k])@ == header[k] by {
            assert(lines@[k] == before[k]);
        }
        i += 1;
    }
    assert(lines@.map_values(|line: ScreenLine| line@) =~= header + Seq::new(
        table.len(),
        |k: int| binding_line(table[k], k),
    )) by {
        let got = lines@.map_values(|line: ScreenLine| line@);
        let want = header + Seq::new(table.len(), |k: int| binding_line(table[k], k));
        assert(got.len() == want.len());
        assert forall|k: int| 0 <= k < got.len() implies got[k] == want[k] by {
            if k >= 6 {
                assert(lines@[6 + (k - 6)]@ == binding_line(table[k - 6], k - 6));
            }
        }
    }
    Screen { lines, cursor_column: 1, cursor_row: bindings.len() as u16 + FIRST_BINDING_ROW }
}

/// Lays out the pose program's screen for the pose `pose`.
pub fn pose_screen(pose: &SimStatus) -> (screen: Screen)
    ensures
        screen@ == pose_screen_view(*pose),
{
    let mut lines: Vec<ScreenLine> = Vec::new();
    lines.push(line(0, 0, String::from_str("Simulator Position Updater")));
    let mut position = String::from_str("Current position (lat/lon/alt): ");
    push_position(&mut position, pose.lat);
    position.append("° ");
    push_position(&mut position, pose.lon);
    position.append("° ");
    push_altitude(&mut position, pose.alt);
    position.append("m");
    lines.push(line(0, 1, position));
    let mut orientation = String::from_str("Current orientation (yaw/pitch/roll): ");
    push_angle(&mut orientation, pose.yaw);
    orientation.append("° ");
    push_angle(&mut orientation, pose.pitch);
    orientation.append("° ");
    push_angle(&mut orientation, pose.roll);
    orientation.append("°");
    lines.push(line(0, 2, orientation));
    lines.push(line(0, 3, String::from_str("Change position with [w][a][s][d][q][e]")));
    lines.push(line(0, 4, String::from_str("Change orientation with [i][k][j][l][u][o]")));
    lines.push(
        line(
            0,
            5,
            String::from_str(
                "Move to EDDM with [1], move to LOWI with [2], move to tunnel with [3]",
            ),
        ),
    );
    lines.push(line(0, 6, String::from_str("Exit with [p]")));
    assert(lines@.map_values(|line: ScreenLine| line@) =~= pose_screen_view(*pose).lines);
    Screen { lines, cursor_column: 0, cursor_row: 7 }
}

} // verus!
