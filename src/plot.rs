use vstd::prelude::*;

use crate::error::Error;
use crate::summary::OrderStats;

verus! {

/// The columns at which a row of a boxplot marks its statistics.
#[derive(Debug, Clone, Copy, PartialEq, Eq, Structural)]
pub struct Marks {
    pub low: usize,
    pub high: usize,
    pub median: usize,
    pub mean: usize,
}

/// The characters a boxplot is drawn with.
#[derive(Debug, Clone, Copy, PartialEq, Eq, Structural)]
pub struct Glyphs {
    pub end: char,
    pub line: char,
    pub median: char,
    pub mean: char,
    pub both: char,
}

/// Plain characters when `ascii` holds, box-drawing characters otherwise.
pub open spec fn glyphs_for(ascii: bool) -> Glyphs {
    if ascii {
        Glyphs { end: '|', line: '-', median: '+', mean: '*', both: '#' }
    } else {
        Glyphs {
            end: '\u{2502}',
            line: '\u{2500}',
            median: '\u{253c}',
            mean: '\u{25c6}',
            both: '\u{25c8}',
        }
    }
}

/// The column of a value in a plot of `width` columns, given the value's
/// position already scaled and rounded to columns (`None` when the scale is
/// degenerate): clamped into the plot, or the middle column when degenerate.
pub open spec fn column_of(raw: Option<i64>, width: int) -> int {
    match raw {
        None => (width - 1) / 2,
        Some(v) => if v < 0 {
            0
        } else if v > width - 1 {
            width - 1
        } else {
            v as int
        },
    }
}

/// The character drawn at column `i` of a row: the median and mean markers
/// first (one marker where they coincide), then the whisker's ends, then the
/// whisker between them, else a blank.
pub open spec fn glyph_at(m: Marks, i: int, g: Glyphs) -> char {
    if i == m.median && i == m.mean {
        g.both
    } else if i == m.median {
        g.median
    } else if i == m.mean {
        g.mean
    } else if i == m.low || i == m.high {
        g.end
    } else if m.low < i < m.high {
        g.line
    } else {
        ' '
    }
}

/// The row drawn for `m` in a plot of `width` columns.
pub open spec fn row_of(m: Marks, width: int, ascii: bool) -> Seq<char> {
    Seq::new(width as nat, |i: int| glyph_at(m, i, glyphs_for(ascii)))
}

fn glyphs(ascii: bool) -> (g: Glyphs)
    ensures
        g == glyphs_for(ascii),
{
    if ascii {
        Glyphs { end: '|', line: '-', median: '+', mean: '*', both: '#' }
    } else {
        Glyphs {
            end: '\u{2502}',
            line: '\u{2500}',
            median: '\u{253c}',
            mean: '\u{25c6}',
            both: '\u{25c8}',
        }
    }
}

/// The column of a value in a plot of `width` columns (see `column_of`).
/// A width of zero columns is invalid.
pub fn place(raw: Option<i64>, width: usize) -> (r: Result<usize, Error>)
    ensures
        width == 0 <==> r is Err,
        r is Err ==> r->Err_0 == Error::InvalidWidth,
        r is Ok ==> r->Ok_0 == column_of(raw, width as int) && r->Ok_0 < width,
{
    if width == 0 {
        return Err(Error::InvalidWidth);
    }
    let c = match raw {
        None => (width - 1) / 2,
        Some(v) => if v < 0 {
            0
        } else if v as u64 > (width - 1) as u64 {
            width - 1
        } else {
            v as usize
        },
    };
    Ok(c)
}

/// The marks of one row: the columns of its minimum, maximum, median and
/// mean, each given as in `place`.
pub fn place_marks(
    low: Option<i64>,
    high: Option<i64>,
    median: Option<i64>,
    mean: Option<i64>,
    width: usize,
) -> (r: Result<Marks, Error>)
    ensures
        width == 0 <==> r is Err,
        r is Err ==> r->Err_0 == Error::InvalidWidth,
        r is Ok ==> r->Ok_0 == (Marks {
            low: column_of(low, width as int) as usize,
            high: column_of(high, width as int) as usize,
            median: column_of(median, width as int) as usize,
            mean: column_of(mean, width as int) as usize,
        }),
{
    let low = place(low, width)?;
    let high = place(high, width)?;
    let median = place(median, width)?;
    let mean = place(mean, width)?;
    Ok(Marks { low, high, median, mean })
}

/// The shared scale of several samples plotted together: the least of their
/// minima and the greatest of their maxima.
pub fn shared_range(stats: &Vec<OrderStats>) -> (r: Result<(u64, u64), Error>)
    ensures
        stats@.len() == 0 <==> r is Err,
        r is Err ==> r->Err_0 == Error::EmptySample,
        r is Ok ==> forall|k: int|
            0 <= k < stats@.len() ==> r->Ok_0.0 <= #[trigger] stats@[k].min && stats@[k].max
                <= r->Ok_0.1,
        r is Ok ==> exists|k: int| 0 <= k < stats@.len() && stats@[k].min == r->Ok_0.0,
        r is Ok ==> exists|k: int| 0 <= k < stats@.len() && stats@[k].max == r->Ok_0.1,
{
    if stats.len() == 0 {
        return Err(Error::EmptySample);
    }
    let mut lo = stats[0].min;
    let mut hi = stats[0].max;
    let mut j: usize = 1;
    let ghost mut lo_at: int = 0;
    let ghost mut hi_at: int = 0;
    while j < stats.len()
        invariant
            1 <= j <= stats@.len(),
            forall|k: int| 0 <= k < j ==> lo <= #[trigger] stats@[k].min && stats@[k].max <= hi,
            0 <= lo_at < stats@.len() && stats@[lo_at].min == lo,
            0 <= hi_at < stats@.len() && stats@[hi_at].max == hi,
        decreases stats@.len() - j,
    {
        if stats[j].min < lo {
            lo = stats[j].min;
            proof {
                lo_at = j as int;
            }
        }
        if stats[j].max > hi {
            hi = stats[j].max;
            proof {
                hi_at = j as int;
            }
        }
        assert forall|k: int| 0 <= k < j + 1 implies lo <= #[trigger] stats@[k].min && stats@[k].max
            <= hi by {
            if k < j {
                assert(stats@[k].min >= lo);
            }
        }
        j = j + 1;
    }
    Ok((lo, hi))
}

/// Draws one row of `width` columns for `m`.
pub fn render_row(m: &Marks, width: usize, ascii: bool) -> (r: Vec<char>)
    ensures
        r@ == row_of(*m, width as int, ascii),
        r@.len() == width,
{
    let g = glyphs(ascii);
    let mut out: Vec<char> = Vec::new();
    let mut i: usize = 0;
    while i < width
        invariant
            0 <= i <= width,
            g == glyphs_for(ascii),
            out@.len() == i,
            forall|k: int| 0 <= k < i ==> out@[k] == glyph_at(*m, k, g),
        decreases width - i,
    {
        let c = if i == m.median && i == m.mean {
            g.both
        } else if i == m.median {
            g.median
        } else if i == m.mean {
            g.mean
        } else if i == m.low || i == m.high {
            g.end
        } else if m.low < i && i < m.high {
            g.line
        } else {
            ' '
        };
        out.push(c);
        i = i + 1;
    }
    assert(out@ == row_of(*m, width as int, ascii));
    out
}

/// Draws one row of `width` columns for each entry of `rows`, all on the
/// same scale. A width of zero columns is invalid.
pub fn render(rows: &Vec<Marks>, width: usize, ascii: bool) -> (r: Result<Vec<Vec<char>>, Error>)
    ensures
        width == 0 <==> r is Err,
        r is Err ==> r->Err_0 == Error::InvalidWidth,
        r is Ok ==> r->Ok_0@.len() == rows@.len(),
        r is Ok ==> forall|k: int|
            0 <= k < rows@.len() ==> (#[trigger] r->Ok_0@[k])@ == row_of(
                rows@[k],
                width as int,
                ascii,
            ),
        r is Ok ==> forall|k: int| 0 <= k < rows@.len() ==> (#[trigger] r->Ok_0@[k])@.len() == width,
{
    if width == 0 {
        return Err(Error::InvalidWidth);
    }
    let mut out: Vec<Vec<char>> = Vec::new();
    let mut j: usize = 0;
    while j < rows.len()
        invariant
            0 <= j <= rows@.len(),
            out@.len() == j,
            forall|k: int| 0 <= k < j ==> (#[trigger] out@[k])@ == row_of(rows@[k], width as int, ascii),
        decreases rows@.len() - j,
    {
        let row = render_row(&rows[j], width, ascii);
        out.push(row);
        j = j + 1;
    }
    Ok(out)
}

} // verus!
