//! The alignment matrix: the parsed records and the layout metrics derived
//! from them (shared width, widest identifier, reference row).

use crate::grid::{grid_at, grid_cols_of, grid_new, grid_push_row, grid_rows_of, SymbolGrid};
use vstd::prelude::*;
use vstd::string::StrSliceExecFns;

verus! {

/// One parsed sequence record: an identifier and its aligned symbols.
pub struct Record {
    pub id: String,
    pub symbols: Vec<u8>,
}

/// Why a viewer session cannot proceed.
#[derive(Clone, Copy, Debug, PartialEq, Eq, Structural)]
pub enum AlignmentError {
    /// The source file is missing or unreadable.
    SourceUnavailable,
    /// The source holds no alignment content at all.
    EmptyAlignment,
    /// Record `index` has `length` symbols where the alignment's established
    /// width is `width`.
    AlignmentLengthMismatch { index: usize, length: usize, width: usize },
    /// A canvas drawing or session call failed.
    RenderError,
}

/// The identifiers of a record sequence, as character sequences.
pub open spec fn ids_of(records: Seq<Record>) -> Seq<Seq<char>> {
    records.map_values(|r: Record| r.id@)
}

/// The length of the longest identifier, 0 when there is none.
pub open spec fn max_id_len(ids: Seq<Seq<char>>) -> nat
    decreases ids.len(),
{
    if ids.len() == 0 {
        0
    } else {
        let rest = max_id_len(ids.drop_last());
        if ids.last().len() > rest {
            ids.last().len()
        } else {
            rest
        }
    }
}

/// The greatest index whose identifier equals `name`, or 0 when none does.
pub open spec fn last_match(ids: Seq<Seq<char>>, name: Seq<char>) -> int
    decreases ids.len(),
{
    if ids.len() == 0 {
        0
    } else if ids.last() == name {
        ids.len() - 1
    } else {
        last_match(ids.drop_last(), name)
    }
}

/// The reference row selected by `name`: the first record when `name` is
/// empty, otherwise the last record whose identifier equals `name` (falling
/// back to the first when none matches).
pub open spec fn reference_index_spec(ids: Seq<Seq<char>>, name: Seq<char>) -> int {
    if name.len() == 0 {
        0
    } else {
        last_match(ids, name)
    }
}

/// The least index at or after `i` whose record's length differs from the
/// first record's, or `records.len()` when every such record conforms.
pub open spec fn first_mismatch_at(records: Seq<Record>, i: int) -> int
    recommends
        0 <= i <= records.len(),
    decreases records.len() - i,
{
    if i < 0 || i >= records.len() {
        records.len() as int
    } else if records[i].symbols.len() != records[0].symbols.len() {
        i
    } else {
        first_mismatch_at(records, i + 1)
    }
}

pub proof fn lemma_last_match_bounds(ids: Seq<Seq<char>>, name: Seq<char>)
    ensures
        0 <= last_match(ids, name),
        ids.len() == 0 ==> last_match(ids, name) == 0,
        ids.len() > 0 ==> last_match(ids, name) < ids.len(),
    decreases ids.len(),
{
    if ids.len() > 0 && ids.last() != name {
        lemma_last_match_bounds(ids.drop_last(), name);
    }
}

proof fn lemma_first_mismatch_from(records: Seq<Record>, j: int, i: int)
    requires
        0 <= j <= i < records.len(),
        forall|k: int| 0 <= k < i ==> (#[trigger] records[k].symbols).len()
            == records[0].symbols.len(),
        records[i].symbols.len() != records[0].symbols.len(),
    ensures
        first_mismatch_at(records, j) == i,
    decreases i - j,
{
    if j < i {
        lemma_first_mismatch_from(records, j + 1, i);
    }
}

/// An alignment: the records in file order, with the shared sequence width,
/// the widest identifier's length, and the reference row index.
pub struct AlignmentMatrix {
    ids: Vec<String>,
    grid: SymbolGrid,
    width: usize,
    max_id_width: usize,
    reference_index: usize,
}

impl AlignmentMatrix {
    /// The symbol rows, in file order.
    pub closed spec fn rows_seq(&self) -> Seq<Seq<u8>> {
        grid_rows_of(self.grid)
    }

    /// The record identifiers, in file order.
    pub closed spec fn ids_seq(&self) -> Seq<Seq<char>> {
        self.ids@.map_values(|s: String| s@)
    }

    pub closed spec fn spec_width(&self) -> nat {
        self.width as nat
    }

    pub closed spec fn spec_max_id_width(&self) -> nat {
        self.max_id_width as nat
    }

    pub closed spec fn spec_reference_index(&self) -> int {
        self.reference_index as int
    }

    /// Column `c`, read top row to bottom row.
    pub open spec fn column_seq(&self, c: int) -> Seq<u8> {
        Seq::new(self.rows_seq().len(), |r: int| self.rows_seq()[r][c])
    }

    /// The matrix invariant: at least one record, a positive shared width
    /// every row has, one identifier per row, a valid reference index, and
    /// the cached metrics agreeing with the records.
    pub open spec fn wf(&self) -> bool {
        &&& self.rows_seq().len() == self.ids_seq().len()
        &&& self.rows_seq().len() > 0
        &&& self.spec_width() > 0
        &&& forall|r: int|
            0 <= r < self.rows_seq().len() ==> (#[trigger] self.rows_seq()[r]).len()
                == self.spec_width()
        &&& 0 <= self.spec_reference_index() < self.rows_seq().len()
        &&& self.spec_max_id_width() == max_id_len(self.ids_seq())
    }

    pub fn row_count(&self) -> (n: usize)
        requires
            self.wf(),
        ensures
            n == self.rows_seq().len(),
    {
        proof {
            assert(self.ids_seq().len() == self.ids@.len());
        }
        self.ids.len()
    }

    pub fn width(&self) -> (w: usize)
        ensures
            w == self.spec_width(),
    {
        self.width
    }

    pub fn max_id_width(&self) -> (w: usize)
        ensures
            w == self.spec_max_id_width(),
    {
        self.max_id_width
    }

    pub fn reference_index(&self) -> (i: usize)
        ensures
            i == self.spec_reference_index(),
    {
        self.reference_index
    }

    /// The identifier of row `i`.
    pub fn id_at(&self, i: usize) -> (id: &String)
        requires
            self.wf(),
            i < self.rows_seq().len(),
        ensures
            id@ == self.ids_seq()[i as int],
    {
        proof {
            assert(self.ids_seq().len() == self.ids@.len());
            assert(self.ids_seq()[i as int] == self.ids@[i as int]@);
        }
        &self.ids[i]
    }

    /// The symbol at row `r`, column `c`.
    pub fn symbol_at(&self, r: usize, c: usize) -> (b: u8)
        requires
            self.wf(),
            r < self.rows_seq().len(),
            c < self.spec_width(),
        ensures
            b == self.rows_seq()[r as int][c as int],
    {
        grid_at(&self.grid, r, c)
    }

    /// Builds the matrix from parsed records. The width is established by the
    /// first record; a record of any other length fails construction naming
    /// that record, and a source with no records (or no columns) is an empty
    /// alignment. `reference_name` selects the reference row; an empty name
    /// means the first record.
    pub fn build(records: &Vec<Record>, reference_name: &String) -> (result: Result<
        AlignmentMatrix,
        AlignmentError,
    >)
        ensures
            result is Ok <==> records@.len() > 0 && records@[0].symbols@.len() > 0 && (forall|
                k: int,
            |
                0 <= k < records@.len() ==> (#[trigger] records@[k].symbols)@.len()
                    == records@[0].symbols@.len()),
            records@.len() == 0 ==> result == Err::<AlignmentMatrix, _>(
                AlignmentError::EmptyAlignment,
            ),
            records@.len() > 0 && first_mismatch_at(records@, 0) < records@.len() ==> result
                == Err::<AlignmentMatrix, _>(
                AlignmentError::AlignmentLengthMismatch {
                    index: first_mismatch_at(records@, 0) as usize,
                    length: records@[first_mismatch_at(records@, 0)].symbols@.len() as usize,
                    width: records@[0].symbols@.len() as usize,
                },
            ),
            records@.len() > 0 && first_mismatch_at(records@, 0) == records@.len()
                && records@[0].symbols@.len() == 0 ==> result == Err::<AlignmentMatrix, _>(
                AlignmentError::EmptyAlignment,
            ),
            result matches Ok(m) ==> {
                &&& m.wf()
                &&& m.rows_seq().len() == records@.len()
                &&& forall|k: int|
                    0 <= k < records@.len() ==> m.rows_seq()[k] == (
                    #[trigger] records@[k].symbols)@
                &&& m.ids_seq() == ids_of(records@)
                &&& m.spec_width() == records@[0].symbols@.len()
                &&& m.spec_max_id_width() == max_id_len(ids_of(records@))
                &&& m.spec_reference_index() == reference_index_spec(
                    ids_of(records@),
                    reference_name@,
                )
            },
    {
        let record_count = records.len();
        if record_count == 0 {
            return Err(AlignmentError::EmptyAlignment);
        }
        let width = records[0].symbols.len();

        // First pass: every record must carry the width the first one set.
        let mut i: usize = 0;
        while i < record_count
            invariant
                record_count == records@.len(),
                0 < record_count,
                width == records@[0].symbols@.len(),
                i <= record_count,
                forall|k: int|
                    0 <= k < i ==> (#[trigger] records@[k].symbols)@.len() == width,
            decreases record_count - i,
        {
            let length = records[i].symbols.len();
            if length != width {
                proof {
                    lemma_first_mismatch_from(records@, 0, i as int);
                }
                return Err(
                    AlignmentError::AlignmentLengthMismatch { index: i, length, width },
                );
            }
            i += 1;
        }
        proof {
            lemma_first_mismatch_all(records@, 0);
        }
        if width == 0 {
            return Err(AlignmentError::EmptyAlignment);
        }

        // Second pass: fill the fixed-width grid and derive the metrics.
        let mut grid = grid_new(width);
        let mut ids: Vec<String> = Vec::new();
        let mut max_id_width: usize = 0;
        let mut reference_index: usize = 0;
        let name_given = !reference_name.as_str().is_empty();

        let mut i: usize = 0;
        while i < record_count
            invariant
                record_count == records@.len(),
                0 < record_count,
                width == records@[0].symbols@.len(),
                forall|k: int|
                    0 <= k < record_count ==> (#[trigger] records@[k].symbols)@.len() == width,
                i <= record_count,
                grid_cols_of(grid) == width,
                grid_rows_of(grid).len() == i,
                forall|k: int|
                    0 <= k < i ==> grid_rows_of(grid)[k] == (#[trigger] records@[k].symbols)@,
                ids@.len() == i,
                forall|k: int| 0 <= k < i ==> ids@[k] == records@[k].id,
                max_id_width == max_id_len(ids_of(records@).take(i as int)),
                name_given == (reference_name@.len() > 0),
                reference_index as int == reference_index_spec(
                    ids_of(records@).take(i as int),
                    reference_name@,
                ),
                i > 0 ==> reference_index < i,
                i == 0 ==> reference_index == 0,
            decreases record_count - i,
        {
            let record = &records[i];
            grid_push_row(&mut grid, &record.symbols);
            let id_len = record.id.as_str().unicode_len();
            proof {
                let prefix = ids_of(records@).take(i as int);
                let next = ids_of(records@).take(i as int + 1);
                assert(next.drop_last() =~= prefix);
                assert(next.last() == records@[i as int].id@);
                if reference_name@.len() > 0 {
                    lemma_last_match_bounds(prefix, reference_name@);
                }
            }
            if id_len > max_id_width {
                max_id_width = id_len;
            }
            if name_given && record.id.eq(reference_name) {
                reference_index = i;
            }
            ids.push(record.id.clone());
            i += 1;
        }

        let matrix = AlignmentMatrix { ids, grid, width, max_id_width, reference_index };
        proof {
            assert(ids_of(records@).take(record_count as int) =~= ids_of(records@));
            assert(matrix.ids_seq() =~= ids_of(records@));
            assert forall|r: int| 0 <= r < matrix.rows_seq().len() implies (
            #[trigger] matrix.rows_seq()[r]).len() == matrix.spec_width() by {
                assert(matrix.rows_seq()[r] == records@[r].symbols@);
            }
        }
        Ok(matrix)
    }
}

/// Once a scan has seen no mismatch anywhere, none is found from any start.
proof fn lemma_first_mismatch_all(records: Seq<Record>, j: int)
    requires
        0 <= j <= records.len(),
        forall|k: int|
            0 <= k < records.len() ==> (#[trigger] records[k].symbols).len()
                == records[0].symbols.len(),
    ensures
        first_mismatch_at(records, j) == records.len(),
    decreases records.len() - j,
{
    if j < records.len() {
        lemma_first_mismatch_all(records, j + 1);
    }
}

} // verus!
