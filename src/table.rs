//! Fixed-width ASCII tables: a header line, a rule of dashes, and one line per record.
use vstd::prelude::*;
use crate::text::{pad_right, pad_right_text, dash_line, repeat_char};

verus! {

/// One line of a table: each cell left-aligned in its column's width, the cells
/// separated by one space. A width of zero leaves the cell as it is (the last
/// column of most tables is unbounded).
pub open spec fn line_text(cells: Seq<Seq<char>>, widths: Seq<nat>) -> Seq<char>
    decreases cells.len(),
{
    if cells.len() == 0 {
        Seq::empty()
    } else if cells.len() == 1 {
        pad_right(cells[0], widths[0])
    } else {
        line_text(cells.drop_last(), widths) + seq![' '] + pad_right(
            cells.last(),
            widths[cells.len() - 1],
        )
    }
}

/// The views of a vector of strings.
pub open spec fn views(v: Seq<String>) -> Seq<Seq<char>> {
    v.map_values(|s: String| s@)
}

/// The views of a vector of string slices.
pub open spec fn str_views(v: Seq<&'static str>) -> Seq<Seq<char>> {
    v.map_values(|s: &'static str| s@)
}

/// Column widths as mathematical integers.
pub open spec fn nat_widths(v: Seq<usize>) -> Seq<nat> {
    v.map_values(|w: usize| w as nat)
}

/// The shape of one table: column titles, column widths and the length of the rule.
pub struct TableLayout {
    pub titles: Vec<&'static str>,
    pub widths: Vec<usize>,
    pub rule: usize,
}

impl TableLayout {
    /// A layout has as many widths as titles.
    pub open spec fn wf(&self) -> bool {
        self.titles@.len() == self.widths@.len()
    }

    /// The header line of the table.
    pub open spec fn header_text(&self) -> Seq<char> {
        line_text(str_views(self.titles@), nat_widths(self.widths@))
    }

    /// One record's line, for cells already rendered as text.
    pub open spec fn row_text(&self, cells: Seq<Seq<char>>) -> Seq<char> {
        line_text(cells, nat_widths(self.widths@))
    }

    /// The header line.
    pub fn header(&self) -> (r: String)
        requires
            self.wf(),
        ensures
            r@ == self.header_text(),
    {
        let mut cells: Vec<String> = Vec::new();
        let mut i: usize = 0;
        while i < self.titles.len()
            invariant
                i <= self.titles@.len(),
                cells@.len() == i,
                forall|j: int| 0 <= j < i ==> #[trigger] cells@[j]@ == self.titles@[j]@,
            decreases self.titles@.len() - i,
        {
            cells.push(String::from_str(self.titles[i]));
            i = i + 1;
        }
        assert(views(cells@) =~= str_views(self.titles@));
        self.line(&cells)
    }

    /// The rule drawn under the header.
    pub fn rule_line(&self) -> (r: String)
        ensures
            r@ == repeat_char('-', self.rule as nat),
    {
        dash_line(self.rule)
    }

    /// The line of one record whose cells are given as text.
    pub fn line(&self, cells: &Vec<String>) -> (r: String)
        requires
            cells@.len() <= self.widths@.len(),
        ensures
            r@ == self.row_text(views(cells@)),
    {
        let ghost widths = nat_widths(self.widths@);
        let mut out = String::new();
        let mut i: usize = 0;
        while i < cells.len()
            invariant
                i <= cells@.len(),
                cells@.len() <= self.widths@.len(),
                widths == nat_widths(self.widths@),
                out@ == line_text(views(cells@).subrange(0, i as int), widths),
            decreases cells@.len() - i,
        {
            let ghost prev = views(cells@).subrange(0, i as int);
            let ghost next = views(cells@).subrange(0, i + 1);
            assert(next.drop_last() =~= prev);
            if i > 0 {
                proof {
                    reveal_strlit(" ");
                }
                out.append(" ");
            }
            let cell = pad_right_text(cells[i].as_str(), self.widths[i]);
            out.append(cell.as_str());
            i = i + 1;
            assert(out@ =~= line_text(next, widths));
        }
        assert(views(cells@).subrange(0, cells@.len() as int) =~= views(cells@));
        out
    }
}

} // verus!
