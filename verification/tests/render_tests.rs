use polyview::color::{base_color, histogram_color, Rgb};
use polyview::consensus::analyze;
use polyview::input::Command;
use polyview::matrix::{AlignmentMatrix, Record};
use polyview::render::{
    compute_layout, consensus_cells, histogram_bars, id_padding, panes_moved, sequence_cells,
};

fn record(id: &str, symbols: &[u8]) -> Record {
    Record { id: id.to_string(), symbols: symbols.to_vec() }
}

fn build(records: Vec<Record>, name: &str) -> AlignmentMatrix {
    AlignmentMatrix::build(&records, &name.to_string()).unwrap()
}

#[test]
fn base_colors_match_the_symbol_table() {
    assert_eq!(base_color(b'A'), Some(Rgb { red: 216, green: 27, blue: 96 }));
    assert_eq!(base_color(b'T'), Some(Rgb { red: 30, green: 136, blue: 229 }));
    assert_eq!(base_color(b'G'), Some(Rgb { red: 255, green: 193, blue: 7 }));
    assert_eq!(base_color(b'C'), Some(Rgb { red: 0, green: 77, blue: 64 }));
    assert_eq!(base_color(b'-'), Some(Rgb { red: 254, green: 97, blue: 0 }));
    assert_eq!(base_color(b'N'), None);
}

#[test]
fn histogram_gradient_brightens_designated_channels() {
    assert_eq!(histogram_color(b'A', 0), Some(Rgb { red: 216, green: 27, blue: 96 }));
    assert_eq!(histogram_color(b'A', 3), Some(Rgb { red: 246, green: 57, blue: 126 }));
    // 'T' keeps its blue channel at the base value.
    assert_eq!(histogram_color(b'T', 2), Some(Rgb { red: 50, green: 156, blue: 229 }));
    // 'G' keeps its red channel at the base value.
    assert_eq!(histogram_color(b'G', 1), Some(Rgb { red: 255, green: 203, blue: 17 }));
    // '-' keeps its red channel at the base value.
    assert_eq!(histogram_color(b'-', 1), Some(Rgb { red: 254, green: 107, blue: 10 }));
    assert_eq!(histogram_color(b'N', 2), None);
}

#[test]
fn mismatching_cells_are_muted_against_the_reference_row() {
    let m = build(vec![record("ref", b"ACGT"), record("alt", b"AAGA")], "");
    let alt = sequence_cells(&m, 1);
    assert_eq!(alt[0].symbol, b'A'); // matches the reference: unchanged
    assert_eq!(alt[1].symbol, b'a'); // differs ('A' vs 'C'): lowercased
    assert_eq!(alt[2].symbol, b'G');
    assert_eq!(alt[3].symbol, b'a');
}

#[test]
fn the_reference_row_is_never_muted() {
    let m = build(vec![record("ref", b"ACGT"), record("alt", b"TTTT")], "");
    let reference = sequence_cells(&m, 0);
    assert_eq!(
        reference.iter().map(|c| c.symbol).collect::<Vec<u8>>(),
        b"ACGT".to_vec(),
    );
}

#[test]
fn color_is_switched_once_per_run_of_equal_symbols() {
    let m = build(vec![record("only", b"AACGN-")], "");
    let cells = sequence_cells(&m, 0);
    assert_eq!(cells[0].color, base_color(b'A')); // run start
    assert_eq!(cells[1].color, None); // same symbol as its left neighbour
    assert_eq!(cells[2].color, base_color(b'C'));
    assert_eq!(cells[3].color, base_color(b'G'));
    assert_eq!(cells[4].color, None); // unrecognized: no color switch
    assert_eq!(cells[5].color, base_color(b'-'));
}

#[test]
fn consensus_trace_mutes_exactly_the_unconserved_columns() {
    // column 0: A in all three rows (level 4); column 1: two T, one A.
    let m = build(vec![record("a", b"AT"), record("b", b"AT"), record("c", b"AA")], "");
    let cols = analyze(&m);
    assert_eq!(cols[0].level, 4);
    assert!(cols[1].level < 4);
    let trace = consensus_cells(&cols);
    assert_eq!(trace[0].symbol, b'A');
    assert_eq!(trace[0].color, base_color(b'A'));
    assert_eq!(trace[1].symbol, b't');
    assert_eq!(trace[1].color, base_color(b'T'));
}

#[test]
fn histogram_bars_rise_to_the_conservation_level() {
    let m = build(vec![record("a", b"AT"), record("b", b"AT"), record("c", b"AA")], "");
    let cols = analyze(&m);
    let bars = histogram_bars(&cols);
    assert_eq!(bars.len(), 2);
    assert_eq!(bars[0].colors.len(), cols[0].level as usize);
    assert_eq!(bars[1].colors.len(), cols[1].level as usize);
    for (step, color) in bars[0].colors.iter().enumerate() {
        assert_eq!(*color, histogram_color(b'A', step as u32));
    }
}

#[test]
fn identifiers_are_right_aligned_to_the_widest() {
    assert_eq!(id_padding(9, 2), 7);
    assert_eq!(id_padding(9, 9), 0);
}

#[test]
fn layout_places_the_panes_around_the_identifier_gutter() {
    let layout = compute_layout(24, 9, 50, 4);
    assert_eq!((layout.top_left.y, layout.top_left.x), (0, 0));
    assert_eq!((layout.top_left.rows, layout.top_left.cols), (3, 11));
    assert_eq!((layout.top_sequences.y, layout.top_sequences.x), (0, 11));
    assert_eq!((layout.top_sequences.rows, layout.top_sequences.cols), (3, 50));
    assert_eq!((layout.names.y, layout.names.x, layout.names.rows), (3, 0, 3));
    assert_eq!((layout.body.y, layout.body.x, layout.body.rows, layout.body.cols), (3, 11, 3, 50));
    assert_eq!((layout.histogram.y, layout.histogram.x), (17, 11));
    assert_eq!((layout.histogram_status.y, layout.histogram_status.x), (17, 0));
    assert_eq!((layout.consensus.y, layout.consensus.x), (23, 11));
}

#[test]
fn redraw_touches_only_the_panes_a_command_moves() {
    let vertical = panes_moved(Command::ScrollDown);
    assert!(vertical.names && vertical.body);
    assert!(!vertical.top_sequences && !vertical.histogram && !vertical.consensus);
    let horizontal = panes_moved(Command::ScrollRight);
    assert!(!horizontal.names);
    assert!(horizontal.body && horizontal.top_sequences && horizontal.histogram
        && horizontal.consensus);
    let quit = panes_moved(Command::Quit);
    assert!(!quit.names && !quit.body && !quit.top_sequences && !quit.histogram
        && !quit.consensus);
}
