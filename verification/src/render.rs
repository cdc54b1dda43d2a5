//! Render planning: what each pane draws for one frame. Every function here
//! is pure — it turns the matrix, the consensus and the color policy into
//! plain cell plans; the surrounding application walks the plans and makes
//! the canvas calls.

use crate::color::{base_color, base_color_spec, histogram_color, histogram_color_spec, Rgb};
use crate::consensus::ConsensusColumn;
use crate::matrix::AlignmentMatrix;
use vstd::prelude::*;

verus! {

/// ASCII lowercasing of one symbol; anything but an upper-case letter is
/// left as it is.
pub open spec fn to_lower_spec(sym: u8) -> u8 {
    if 65 <= sym <= 90 {
        (sym + 32) as u8
    } else {
        sym
    }
}

/// Lowercases one ASCII symbol.
pub fn to_ascii_lower(sym: u8) -> (low: u8)
    ensures
        low == to_lower_spec(sym),
{
    if 65 <= sym && sym <= 90 {
        sym + 32
    } else {
        sym
    }
}

/// One planned sequence cell: the symbol to write (already muted when it
/// mismatches the reference) and the color to switch to before writing —
/// `None` means the previously set color persists.
#[derive(Clone, Copy, Debug, PartialEq, Eq, Structural)]
pub struct SequenceCell {
    pub symbol: u8,
    pub color: Option<Rgb>,
}

/// The symbol a sequence cell shows: rows other than the reference row are
/// muted (lowercased) exactly where they differ from the reference row; the
/// reference row itself is never muted.
pub open spec fn sequence_symbol_spec(m: AlignmentMatrix, row: int, c: int) -> u8 {
    let sym = m.rows_seq()[row][c];
    if row != m.spec_reference_index() && sym != m.rows_seq()[m.spec_reference_index()][c] {
        to_lower_spec(sym)
    } else {
        sym
    }
}

/// The color switch before a sequence cell: only the first cell of a run of
/// identical symbols switches color (a run-length optimization), and only a
/// recognized symbol has a color to switch to.
pub open spec fn sequence_color_spec(m: AlignmentMatrix, row: int, c: int) -> Option<Rgb> {
    if c == 0 || m.rows_seq()[row][c] != m.rows_seq()[row][c - 1] {
        base_color_spec(m.rows_seq()[row][c])
    } else {
        None
    }
}

/// Plans one row of a sequence pane, left to right. Mismatch muting compares
/// against the reference row; color switches happen once per run of equal
/// symbols.
pub fn sequence_cells(m: &AlignmentMatrix, row: usize) -> (cells: Vec<SequenceCell>)
    requires
        m.wf(),
        row < m.rows_seq().len(),
    ensures
        cells@.len() == m.spec_width(),
        forall|c: int|
            0 <= c < cells@.len() ==> (#[trigger] cells@[c]).symbol == sequence_symbol_spec(
                *m,
                row as int,
                c,
            ),
        forall|c: int|
            0 <= c < cells@.len() ==> (#[trigger] cells@[c]).color == sequence_color_spec(
                *m,
                row as int,
                c,
            ),
{
    let width = m.width();
    let reference = m.reference_index();
    let mut cells: Vec<SequenceCell> = Vec::new();
    let mut c: usize = 0;
    while c < width
        invariant
            m.wf(),
            row < m.rows_seq().len(),
            width == m.spec_width(),
            reference == m.spec_reference_index(),
            c <= width,
            cells@.len() == c,
            forall|k: int|
                0 <= k < c ==> (#[trigger] cells@[k]).symbol == sequence_symbol_spec(
                    *m,
                    row as int,
                    k,
                ),
            forall|k: int|
                0 <= k < c ==> (#[trigger] cells@[k]).color == sequence_color_spec(
                    *m,
                    row as int,
                    k,
                ),
        decreases width - c,
    {
        let sym = m.symbol_at(row, c);
        let color = if c == 0 || sym != m.symbol_at(row, c - 1) {
            base_color(sym)
        } else {
            None
        };
        let symbol = if row != reference && sym != m.symbol_at(reference, c) {
            to_ascii_lower(sym)
        } else {
            sym
        };
        cells.push(SequenceCell { symbol, color });
        c += 1;
    }
    cells
}

/// One planned consensus-trace cell: the majority symbol (muted unless the
/// column is fully conserved) and the color it is written in.
#[derive(Clone, Copy, Debug, PartialEq, Eq, Structural)]
pub struct TraceCell {
    pub symbol: u8,
    pub color: Option<Rgb>,
}

/// Plans the consensus trace, one cell per column: the majority symbol,
/// muted (lowercased) exactly when the column's conservation level is not 4,
/// in the majority symbol's base color.
pub fn consensus_cells(columns: &Vec<ConsensusColumn>) -> (cells: Vec<TraceCell>)
    ensures
        cells@.len() == columns@.len(),
        forall|c: int|
            0 <= c < cells@.len() ==> (#[trigger] cells@[c]).symbol == (if columns@[c].level != 4 {
                to_lower_spec(columns@[c].majority_symbol)
            } else {
                columns@[c].majority_symbol
            }),
        forall|c: int|
            0 <= c < cells@.len() ==> (#[trigger] cells@[c]).color == base_color_spec(
                columns@[c].majority_symbol,
            ),
{
    let count = columns.len();
    let mut cells: Vec<TraceCell> = Vec::new();
    let mut c: usize = 0;
    while c < count
        invariant
            count == columns@.len(),
            c <= count,
            cells@.len() == c,
            forall|k: int|
                0 <= k < c ==> (#[trigger] cells@[k]).symbol == (if columns@[k].level != 4 {
                    to_lower_spec(columns@[k].majority_symbol)
                } else {
                    columns@[k].majority_symbol
                }),
            forall|k: int|
                0 <= k < c ==> (#[trigger] cells@[k]).color == base_color_spec(
                    columns@[k].majority_symbol,
                ),
        decreases count - c,
    {
        let majority = columns[c].majority_symbol;
        let symbol = if columns[c].level != 4 {
            to_ascii_lower(majority)
        } else {
            majority
        };
        cells.push(TraceCell { symbol, color: base_color(majority) });
        c += 1;
    }
    cells
}

/// One planned histogram bar: a vertical run of cells, one color per gradient
/// step from the baseline up; the bar's height is the column's level.
pub struct HistogramBar {
    pub colors: Vec<Option<Rgb>>,
}

/// Plans the conservation histogram, one bar per column: bar `c` is
/// `level[c]` cells tall, and its cell at step `s` is painted in the majority
/// symbol's gradient color for step `s`.
pub fn histogram_bars(columns: &Vec<ConsensusColumn>) -> (bars: Vec<HistogramBar>)
    requires
        forall|c: int| 0 <= c < columns@.len() ==> 1 <= (#[trigger] columns@[c]).level <= 4,
    ensures
        bars@.len() == columns@.len(),
        forall|c: int|
            0 <= c < bars@.len() ==> (#[trigger] bars@[c]).colors@.len() == columns@[c].level,
        forall|c: int, s: int|
            0 <= c < bars@.len() && 0 <= s < bars@[c].colors@.len() ==> (
            #[trigger] bars@[c].colors@[s]) == histogram_color_spec(
                columns@[c].majority_symbol,
                s as u32,
            ),
{
    let count = columns.len();
    let mut bars: Vec<HistogramBar> = Vec::new();
    let mut c: usize = 0;
    while c < count
        invariant
            count == columns@.len(),
            forall|k: int| 0 <= k < count ==> 1 <= (#[trigger] columns@[k]).level <= 4,
            c <= count,
            bars@.len() == c,
            forall|k: int|
                0 <= k < c ==> (#[trigger] bars@[k]).colors@.len() == columns@[k].level,
            forall|k: int, s: int|
                0 <= k < c && 0 <= s < bars@[k].colors@.len() ==> (
                #[trigger] bars@[k].colors@[s]) == histogram_color_spec(
                    columns@[k].majority_symbol,
                    s as u32,
                ),
        decreases count - c,
    {
        let majority = columns[c].majority_symbol;
        let level = columns[c].level;
        let mut colors: Vec<Option<Rgb>> = Vec::new();
        let mut s: u32 = 0;
        while s < level
            invariant
                level <= 4,
                s <= level,
                colors@.len() == s,
                forall|t: int|
                    0 <= t < s ==> (#[trigger] colors@[t]) == histogram_color_spec(
                        majority,
                        t as u32,
                    ),
            decreases level - s,
        {
            colors.push(histogram_color(majority, s));
            s += 1;
        }
        bars.push(HistogramBar { colors });
        c += 1;
    }
    bars
}

/// The cursor shift that right-aligns an identifier inside the identifier
/// pane: the widest identifier's length minus this one's.
pub fn id_padding(max_id_width: usize, id_len: usize) -> (pad: usize)
    requires
        id_len <= max_id_width,
    ensures
        pad == max_id_width - id_len,
{
    max_id_width - id_len
}

/// One pane's placement: its top-left cell on the standard plane and its
/// size.
#[derive(Clone, Copy, Debug, PartialEq, Eq, Structural)]
pub struct PaneRect {
    pub y: usize,
    pub x: usize,
    pub rows: usize,
    pub cols: usize,
}

/// Where each pane of a frame sits.
#[derive(Clone, Copy, Debug, PartialEq, Eq, Structural)]
pub struct PaneLayout {
    /// Identifier of the reference row, pinned above the scrollable body.
    pub top_left: PaneRect,
    /// The reference row's sequence, pinned above the scrollable body.
    pub top_sequences: PaneRect,
    /// Identifiers of the non-reference rows.
    pub names: PaneRect,
    /// The scrollable body of non-reference sequences.
    pub body: PaneRect,
    /// The conservation histogram, anchored near the terminal's bottom.
    pub histogram: PaneRect,
    /// The histogram's caption column.
    pub histogram_status: PaneRect,
    /// The consensus trace on the terminal's last row.
    pub consensus: PaneRect,
}

/// Computes the frame's pane placement: the identifier column takes the
/// widest identifier plus a two-cell gutter, sequence panes start right of
/// it, the pinned reference panes take the top three terminal rows, the body
/// sits under them, and histogram and consensus trace are anchored to the
/// terminal's bottom rows.
pub fn compute_layout(
    term_rows: usize,
    max_id_width: usize,
    width: usize,
    record_count: usize,
) -> (layout: PaneLayout)
    requires
        record_count >= 1,
        term_rows >= 8,
        max_id_width + 2 <= usize::MAX,
    ensures
        layout.top_left == (PaneRect { y: 0, x: 0, rows: 3, cols: (max_id_width + 2) as usize }),
        layout.top_sequences == (PaneRect {
            y: 0,
            x: (max_id_width + 2) as usize,
            rows: 3,
            cols: width,
        }),
        layout.names == (PaneRect {
            y: 3,
            x: 0,
            rows: (record_count - 1) as usize,
            cols: (max_id_width + 2) as usize,
        }),
        layout.body == (PaneRect {
            y: 3,
            x: (max_id_width + 2) as usize,
            rows: (record_count - 1) as usize,
            cols: width,
        }),
        layout.histogram == (PaneRect {
            y: (term_rows - 7) as usize,
            x: (max_id_width + 2) as usize,
            rows: 20,
            cols: width,
        }),
        layout.histogram_status == (PaneRect {
            y: (term_rows - 7) as usize,
            x: 0,
            rows: 20,
            cols: (max_id_width + 2) as usize,
        }),
        layout.consensus == (PaneRect {
            y: (term_rows - 1) as usize,
            x: (max_id_width + 2) as usize,
            rows: 20,
            cols: width,
        }),
{
    let gutter = max_id_width + 2;
    PaneLayout {
        top_left: PaneRect { y: 0, x: 0, rows: 3, cols: gutter },
        top_sequences: PaneRect { y: 0, x: gutter, rows: 3, cols: width },
        names: PaneRect { y: 3, x: 0, rows: record_count - 1, cols: gutter },
        body: PaneRect { y: 3, x: gutter, rows: record_count - 1, cols: width },
        histogram: PaneRect { y: term_rows - 7, x: gutter, rows: 20, cols: width },
        histogram_status: PaneRect { y: term_rows - 7, x: 0, rows: 20, cols: gutter },
        consensus: PaneRect { y: term_rows - 1, x: gutter, rows: 20, cols: width },
    }
}

/// Which panes a command's redraw touches: vertical scrolling moves the
/// identifier and body panes; horizontal scrolling moves the body, the pinned
/// reference sequences, the histogram and the consensus trace; everything
/// else moves nothing.
#[derive(Clone, Copy, Debug, PartialEq, Eq, Structural)]
pub struct RedrawSet {
    pub names: bool,
    pub body: bool,
    pub top_sequences: bool,
    pub histogram: bool,
    pub consensus: bool,
}

/// The panes whose axis a command moves, and which a redraw after that
/// command must repaint.
pub open spec fn panes_moved_spec(command: crate::input::Command) -> RedrawSet {
    match command {
        crate::input::Command::ScrollUp | crate::input::Command::ScrollDown => RedrawSet {
            names: true,
            body: true,
            top_sequences: false,
            histogram: false,
            consensus: false,
        },
        crate::input::Command::ScrollLeft | crate::input::Command::ScrollRight => RedrawSet {
            names: false,
            body: true,
            top_sequences: true,
            histogram: true,
            consensus: true,
        },
        _ => RedrawSet {
            names: false,
            body: false,
            top_sequences: false,
            histogram: false,
            consensus: false,
        },
    }
}

/// Which panes to repaint after `command`.
pub fn panes_moved(command: crate::input::Command) -> (set: RedrawSet)
    ensures
        set == panes_moved_spec(command),
{
    match command {
        crate::input::Command::ScrollUp | crate::input::Command::ScrollDown => RedrawSet {
            names: true,
            body: true,
            top_sequences: false,
            histogram: false,
            consensus: false,
        },
        crate::input::Command::ScrollLeft | crate::input::Command::ScrollRight => RedrawSet {
            names: false,
            body: true,
            top_sequences: true,
            histogram: true,
            consensus: true,
        },
        crate::input::Command::Quit | crate::input::Command::Ignore => RedrawSet {
            names: false,
            body: false,
            top_sequences: false,
            histogram: false,
            consensus: false,
        },
    }
}

} // verus!
