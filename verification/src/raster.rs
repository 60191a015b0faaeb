//! Drawing one frame onto a line of text.

use vstd::prelude::*;

verus! {

/// The character drawn where a point stands.
pub const MARKER: char = '*';

/// The character drawn where no point stands.
pub const BLANK: char = ' ';

/// `String::push` appends the character to the end of the string and leaves
/// the rest of it as it was.
pub assume_specification[ String::push ](s: &mut String, ch: char)
    ensures
        final(s)@ == old(s)@.push(ch),
;

/// The column at which a point is drawn on a line of `width` columns, when the
/// curve puts it at `column`: that column where the line has it, and the last
/// column of the line where it lies beyond.
pub open spec fn spec_clamp_column(column: usize, width: usize) -> int {
    if column >= width {
        width - 1
    } else {
        column as int
    }
}

/// Whether any of the points is drawn at the column `at`.
pub open spec fn is_marked(columns: Seq<usize>, width: usize, at: int) -> bool {
    exists|j: int| 0 <= j < columns.len() && spec_clamp_column(#[trigger] columns[j], width) == at
}

/// The line that shows the points at `columns`: `width` characters, a
/// [`MARKER`] at each column where a point is drawn and a [`BLANK`] at every
/// other.
pub open spec fn raster_line(columns: Seq<usize>, width: usize) -> Seq<char> {
    Seq::new(
        width as nat,
        |at: int|
            if is_marked(columns, width, at) {
                MARKER
            } else {
                BLANK
            },
    )
}

/// The column at which a point is drawn, see [`spec_clamp_column`].
pub fn clamp_column(column: usize, width: usize) -> (drawn: usize)
    requires
        width > 0,
    ensures
        drawn == spec_clamp_column(column, width),
        drawn < width,
        column < width ==> drawn == column,
        column >= width ==> drawn == width - 1,
{
    if column >= width {
        width - 1
    } else {
        column
    }
}

/// A line with one more point on it is the line without it, marked at the
/// column where that point is drawn.
proof fn lemma_one_more_point(columns: Seq<usize>, width: usize)
    requires
        columns.len() > 0,
        width > 0,
    ensures
        raster_line(columns, width) == raster_line(columns.drop_last(), width).update(
            spec_clamp_column(columns.last(), width),
            MARKER,
        ),
{
    let earlier = columns.drop_last();
    let drawn = spec_clamp_column(columns.last(), width);
    let marked = raster_line(earlier, width).update(drawn, MARKER);
    assert forall|at: int| 0 <= at < width implies #[trigger] raster_line(columns, width)[at]
        == marked[at] by {
        if at == drawn {
            assert(spec_clamp_column(columns[columns.len() - 1], width) == at);
        } else if is_marked(columns, width, at) {
            let j = choose|j: int|
                0 <= j < columns.len() && spec_clamp_column(#[trigger] columns[j], width) == at;
            assert(j < earlier.len());
            assert(spec_clamp_column(earlier[j], width) == at);
        } else if is_marked(earlier, width, at) {
            let j = choose|j: int|
                0 <= j < earlier.len() && spec_clamp_column(#[trigger] earlier[j], width) == at;
            assert(spec_clamp_column(columns[j], width) == at);
        }
    }
    assert(raster_line(columns, width) =~= marked);
}

/// The line shows every point and nothing else, and no point lies outside it:
/// each point has its marker, within the line; a point that the curve puts
/// beyond the end of the line has it in the last column; and a column without
/// a point is blank.
pub proof fn lemma_line_shows_the_points(columns: Seq<usize>, width: usize)
    requires
        columns.len() > 0 ==> width > 0,
    ensures
        raster_line(columns, width).len() == width,
        forall|j: int|
            0 <= j < columns.len() ==> 0 <= spec_clamp_column(#[trigger] columns[j], width) < width,
        forall|j: int|
            0 <= j < columns.len() ==> raster_line(columns, width)[spec_clamp_column(
                #[trigger] columns[j],
                width,
            )] == MARKER,
        forall|j: int|
            0 <= j < columns.len() && #[trigger] columns[j] >= width ==> raster_line(
                columns,
                width,
            )[width - 1] == MARKER,
        forall|at: int|
            0 <= at < width ==> (#[trigger] raster_line(columns, width)[at] == MARKER
                <==> is_marked(columns, width, at)),
        forall|at: int|
            0 <= at < width ==> (#[trigger] raster_line(columns, width)[at] == BLANK
                <==> !is_marked(columns, width, at)),
{
    assert forall|j: int| 0 <= j < columns.len() implies raster_line(
        columns,
        width,
    )[spec_clamp_column(#[trigger] columns[j], width)] == MARKER by {
        assert(is_marked(columns, width, spec_clamp_column(columns[j], width)));
    }
    assert forall|j: int| 0 <= j < columns.len() && #[trigger] columns[j] >= width implies raster_line(
        columns,
        width,
    )[width - 1] == MARKER by {
        assert(spec_clamp_column(columns[j], width) == width - 1);
    }
}

/// Draws one frame: a line of `width` characters with a [`MARKER`] at the
/// column of each point and a [`BLANK`] everywhere else. `columns` holds, for
/// each point, the column that the curve puts it at; a point beyond the end
/// of the line is drawn in its last column. Points that share a column show as
/// one marker.
///
/// A line without columns can show no point, so `width` must be positive
/// unless `columns` is empty.
pub fn rasterize(columns: &Vec<usize>, width: usize) -> (line: String)
    requires
        columns.len() > 0 ==> width > 0,
    ensures
        line@ == raster_line(columns@, width),
        line@.len() == width,
        forall|j: int|
            0 <= j < columns.len() ==> line@[spec_clamp_column(#[trigger] columns[j], width)]
                == MARKER,
        forall|at: int|
            0 <= at < width && !is_marked(columns@, width, at) ==> #[trigger] line@[at] == BLANK,
{
    let mut cells: Vec<char> = Vec::new();
    let mut filled: usize = 0;
    while filled < width
        invariant
            filled <= width,
            cells@ == Seq::new(filled as nat, |at: int| BLANK),
        decreases width - filled,
    {
        cells.push(BLANK);
        filled = filled + 1;
        assert(cells@ =~= Seq::new(filled as nat, |at: int| BLANK));
    }
    assert(cells@ =~= raster_line(columns@.take(0), width));

    let mut seen: usize = 0;
    while seen < columns.len()
        invariant
            seen <= columns.len(),
            columns.len() > 0 ==> width > 0,
            cells@ == raster_line(columns@.take(seen as int), width),
        decreases columns.len() - seen,
    {
        let drawn = clamp_column(columns[seen], width);
        proof {
            let upto = columns@.take(seen + 1);
            assert(upto.drop_last() =~= columns@.take(seen as int));
            lemma_one_more_point(upto, width);
        }
        cells.set(drawn, MARKER);
        seen = seen + 1;
    }
    assert(columns@.take(seen as int) =~= columns@);

    let mut line = String::new();
    let mut copied: usize = 0;
    while copied < cells.len()
        invariant
            copied <= cells.len(),
            line@ == cells@.take(copied as int),
        decreases cells.len() - copied,
    {
        line.push(cells[copied]);
        copied = copied + 1;
        assert(line@ =~= cells@.take(copied as int));
    }
    assert(cells@.take(copied as int) =~= cells@);
    proof {
        lemma_line_shows_the_points(columns@, width);
    }
    line
}

} // verus!
