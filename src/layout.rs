//! Column widths of a table of repositories.
use vstd::prelude::*;
use crate::repository::{RepositoryInfo, COLUMN_COUNT};
use crate::text::{break_joined, line_max_width, max_line_width, wrap_text, wrapped_lines};

verus! {

/// Widest display width of column `c` over the repositories (0 for none),
/// a multi-line cell counting by its widest line.
pub open spec fn column_width(items: Seq<RepositoryInfo>, c: int) -> nat
    decreases items.len(),
{
    if items.len() == 0 {
        0
    } else {
        let w = column_width(items.drop_last(), c);
        let l = max_line_width(items.last().cell(c));
        if l > w {
            l
        } else {
            w
        }
    }
}

fn column_len(items: &Vec<RepositoryInfo>, c: usize) -> (r: usize)
    requires
        c < COLUMN_COUNT,
    ensures
        r as nat == column_width(items@, c as int),
{
    let mut best: usize = 0;
    let mut i: usize = 0;
    while i < items.len()
        invariant
            c < COLUMN_COUNT,
            i <= items@.len(),
            best as nat == column_width(items@.subrange(0, i as int), c as int),
        decreases items@.len() - i,
    {
        let cells = items[i].ref_array();
        let w = line_max_width(cells[c].as_str());
        if w > best {
            best = w;
        }
        proof {
            let next = items@.subrange(0, i + 1);
            assert(next.drop_last() =~= items@.subrange(0, i as int));
            assert(cells@[c as int]@ == items@[i as int].cell(c as int));
        }
        i = i + 1;
    }
    proof {
        assert(items@.subrange(0, items@.len() as int) =~= items@);
    }
    best
}

/// The display width of each of the seven columns over all repositories;
/// all zero for an empty list.
pub fn constraint_len_calculator(items: &Vec<RepositoryInfo>) -> (r: [usize; 7])
    ensures
        forall|c: int| 0 <= c < 7 ==> #[trigger] r@[c] as nat == column_width(items@, c),
        items@.len() == 0 ==> forall|c: int| 0 <= c < 7 ==> #[trigger] r@[c] == 0,
{
    let r = [
        column_len(items, 0),
        column_len(items, 1),
        column_len(items, 2),
        column_len(items, 3),
        column_len(items, 4),
        column_len(items, 5),
        column_len(items, 6),
    ];
    assert(forall|c: int| 0 <= c < 7 ==> #[trigger] r@[c] as nat == column_width(items@, c)) by {
        assert(r@[0] as nat == column_width(items@, 0));
        assert(r@[1] as nat == column_width(items@, 1));
        assert(r@[2] as nat == column_width(items@, 2));
        assert(r@[3] as nat == column_width(items@, 3));
        assert(r@[4] as nat == column_width(items@, 4));
        assert(r@[5] as nat == column_width(items@, 5));
        assert(r@[6] as nat == column_width(items@, 6));
    }
    r
}

/// The width at which the table shows column `c`: name, description,
/// topics, last update, language, star count, fork count.
pub open spec fn cap_of(c: int) -> nat {
    if c == 0 {
        20
    } else if c == 1 {
        50
    } else if c == 2 {
        15
    } else if c == 3 {
        20
    } else if c == 4 {
        15
    } else {
        5
    }
}

/// The width at which the table shows a column.
pub fn column_cap(c: usize) -> (r: usize)
    requires
        c < COLUMN_COUNT,
    ensures
        r as nat == cap_of(c as int),
{
    if c == 0 {
        20
    } else if c == 1 {
        50
    } else if c == 2 {
        15
    } else if c == 3 {
        20
    } else if c == 4 {
        15
    } else {
        5
    }
}

/// The cells of a repository's row as shown: each column's text reflowed to
/// the column's width.
pub fn wrapped_row(info: &RepositoryInfo) -> (r: Vec<String>)
    ensures
        r@.len() == COLUMN_COUNT,
        forall|c: int| 0 <= c < COLUMN_COUNT ==> #[trigger] r@[c]@ == break_joined(
            wrapped_lines(info.cell(c), cap_of(c)),
        ),
{
    let cells = info.ref_array();
    let mut row: Vec<String> = Vec::new();
    let mut c: usize = 0;
    while c < COLUMN_COUNT
        invariant
            c <= COLUMN_COUNT,
            row@.len() == c,
            forall|k: int| 0 <= k < 7 ==> #[trigger] cells@[k]@ == info.cell(k),
            forall|k: int| 0 <= k < c ==> #[trigger] row@[k]@ == break_joined(
                wrapped_lines(info.cell(k), cap_of(k)),
            ),
        decreases COLUMN_COUNT - c,
    {
        let w = wrap_text(cells[c].as_str(), column_cap(c));
        row.push(w);
        c = c + 1;
    }
    row
}

} // verus!
