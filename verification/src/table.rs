//! Column widths and lines of the tables that the tools print.

use vstd::prelude::*;
use crate::text::{pad_right, push_padded};

verus! {

/// The length in bytes of a string held in memory, as `str::len` returns it:
/// the length of its UTF-8 encoding.
pub open spec fn byte_len(s: Seq<char>) -> nat {
    (vstd::utf8::encode_utf8(s).len() as usize) as nat
}

/// The width of a column: the greatest byte length of its cells, and at
/// least `min`.
pub open spec fn column_width(cells: Seq<Seq<char>>, min: nat) -> nat
    decreases cells.len(),
{
    if cells.len() == 0 {
        min
    } else {
        let w = column_width(cells.drop_last(), min);
        let l = byte_len(cells.last());
        if l > w {
            l
        } else {
            w
        }
    }
}

/// A column is as wide as its widest cell and as its minimum, and no wider:
/// its width is the minimum or the byte length of one of its cells.
pub proof fn lemma_column_width(cells: Seq<Seq<char>>, min: nat)
    ensures
        column_width(cells, min) >= min,
        forall|i: int| 0 <= i < cells.len() ==> column_width(cells, min) >= byte_len(#[trigger] cells[i]),
        column_width(cells, min) == min || exists|i: int|
            0 <= i < cells.len() && column_width(cells, min) == byte_len(#[trigger] cells[i]),
    decreases cells.len(),
{
    if cells.len() > 0 {
        let rest = cells.drop_last();
        lemma_column_width(rest, min);
        assert forall|i: int| 0 <= i < cells.len() implies column_width(cells, min) >= byte_len(
            #[trigger] cells[i],
        ) by {
            if i < cells.len() - 1 {
                assert(cells[i] == rest[i]);
            }
        }
        if column_width(cells, min) != min {
            if column_width(cells, min) == byte_len(cells.last()) {
                assert(cells[cells.len() - 1] == cells.last());
            } else {
                let k = choose|k: int| 0 <= k < rest.len() && column_width(rest, min) == byte_len(#[trigger] rest[k]);
                assert(cells[k] == rest[k]);
            }
        }
    }
}

/// The values of a list of string slices.
pub open spec fn cells_view(cells: Seq<&str>) -> Seq<Seq<char>> {
    cells.map_values(|c: &str| c@)
}

/// The values of a list of lines.
pub open spec fn lines_view(lines: Seq<String>) -> Seq<Seq<char>> {
    lines.map_values(|l: String| l@)
}

/// The width of a column of cells with a minimum width.
pub fn column_width_of(cells: &Vec<&str>, min: usize) -> (w: usize)
    ensures
        w as nat == column_width(cells_view(cells@), min as nat),
{
    let mut w: usize = min;
    let mut i: usize = 0;
    while i < cells.len()
        invariant
            i <= cells.len(),
            w as nat == column_width(cells_view(cells@).subrange(0, i as int), min as nat),
        decreases cells.len() - i,
    {
        let l = cells[i].len();
        assert(cells_view(cells@).subrange(0, i + 1).drop_last() =~= cells_view(cells@).subrange(0, i as int));
        if l > w {
            w = l;
        }
        i = i + 1;
    }
    assert(cells_view(cells@).subrange(0, i as int) =~= cells_view(cells@));
    w
}

/// Appends a padded cell and the two spaces that separate it from the next.
pub fn push_cell(out: &mut String, cell: &str, width: usize)
    ensures
        final(out)@ == old(out)@ + pad_right(cell@, width as nat) + "  "@,
{
    push_padded(out, cell, width);
    out.append("  ");
}

/// A list of one line.
pub fn one_line(s: String) -> (v: Vec<String>)
    ensures
        lines_view(v@) == seq![s@],
{
    let mut v: Vec<String> = Vec::new();
    v.push(s);
    assert(lines_view(v@) =~= seq![s@]);
    v
}

} // verus!
