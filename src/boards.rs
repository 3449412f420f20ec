//! Boards and the line each gets in the board table.
use vstd::prelude::*;
use crate::records::text_or;
use crate::table::{TableLayout, nat_widths, str_views, views};
use crate::text::{boundary_at, byte_len, byte_len_of, byte_prefix, byte_prefix_text, decimal, is_boundary, push_decimal};

verus! {

/// A query shown on a board (older API responses list these instead of panels).
#[derive(Debug)]
pub struct BoardQuery {
    pub query_id: String,
    pub dataset: String,
    pub query_style: String,
    pub graphic_settings: Option<serde_json::Value>,
}

/// A board.
#[derive(Debug)]
pub struct Board {
    pub id: String,
    pub name: String,
    pub description: Option<String>,
    pub board_type: Option<String>,
    pub panels: Option<Vec<serde_json::Value>>,
    pub preset_filters: Option<Vec<serde_json::Value>>,
    pub links: Option<serde_json::Value>,
    pub style: Option<String>,
    pub queries: Vec<BoardQuery>,
    pub created_at: Option<String>,
    pub updated_at: Option<String>,
}

/// The widest name the board table shows whole.
pub const NAME_LIMIT: usize = 38;

/// How much of a longer name is kept before `...`.
pub const NAME_KEEP: usize = 35;

/// A name cut to fit the board table: a name longer than the limit (in UTF-8
/// bytes) keeps its first bytes and ends in `...`.
pub open spec fn fitted_name(full: Seq<char>) -> Seq<char> {
    if byte_len(full) > NAME_LIMIT {
        byte_prefix(full, NAME_KEEP as int) + "..."@
    } else {
        full
    }
}

/// A name can be shown: it fits whole, or its cut falls between characters.
pub open spec fn name_can_be_cut(full: Seq<char>) -> bool {
    byte_len(full) <= NAME_LIMIT || is_boundary(full, NAME_KEEP as int)
}

impl Board {
    /// The number of panels: those listed, or else the number of legacy queries.
    pub open spec fn panel_count(&self) -> nat {
        match self.panels {
            Some(p) => p@.len(),
            None => self.queries@.len(),
        }
    }

    /// The type: the board's own, else its legacy style, else `unknown`.
    pub open spec fn type_text(&self) -> Seq<char> {
        match self.board_type {
            Some(t) => t@,
            None => text_or(self.style, "unknown"@),
        }
    }

    /// The name, followed by ` - ` and the description when there is one.
    pub open spec fn full_name(&self) -> Seq<char> {
        match self.description {
            Some(d) => self.name@ + " - "@ + d@,
            None => self.name@,
        }
    }

    /// Id, fitted name, number of panels, type.
    pub open spec fn cells_spec(&self) -> Seq<Seq<char>> {
        seq![self.id@, fitted_name(self.full_name()), decimal(self.panel_count()), self.type_text()]
    }

    /// The cells of the board's table line.
    pub fn cells(&self) -> (r: Vec<String>)
        requires
            name_can_be_cut(self.full_name()),
        ensures
            views(r@) == self.cells_spec(),
    {
        let panel_count: usize = match &self.panels {
            Some(p) => p.len(),
            None => if !self.queries.is_empty() {
                self.queries.len()
            } else {
                0
            },
        };
        let board_type = match &self.board_type {
            Some(t) => String::from_str(t.as_str()),
            None => match &self.style {
                Some(s) => String::from_str(s.as_str()),
                None => String::from_str("unknown"),
            },
        };
        let name = match &self.description {
            Some(desc) => {
                let mut n = String::from_str(self.name.as_str());
                n.append(" - ");
                n.append(desc.as_str());
                n
            },
            None => String::from_str(self.name.as_str()),
        };
        assert(name@ == self.full_name());
        let display_name = if byte_len_of(name.as_str()) > NAME_LIMIT {
            let mut cut = byte_prefix_text(name.as_str(), NAME_KEEP);
            cut.append("...");
            cut
        } else {
            name
        };
        let mut count = String::new();
        push_decimal(&mut count, panel_count as u64);
        let mut r: Vec<String> = Vec::new();
        r.push(String::from_str(self.id.as_str()));
        r.push(display_name);
        r.push(count);
        r.push(board_type);
        assert(views(r@) =~= self.cells_spec());
        r
    }

    /// Whether the board's name can be shown (see `name_can_be_cut`).
    pub fn name_fits(&self) -> (r: bool)
        ensures
            r == name_can_be_cut(self.full_name()),
    {
        let name = match &self.description {
            Some(desc) => {
                let mut n = String::from_str(self.name.as_str());
                n.append(" - ");
                n.append(desc.as_str());
                n
            },
            None => String::from_str(self.name.as_str()),
        };
        byte_len_of(name.as_str()) <= NAME_LIMIT || boundary_at(name.as_str(), NAME_KEEP)
    }

    /// The table these records are listed in.
    pub fn layout() -> (l: TableLayout)
        ensures
            l.wf(),
            str_views(l.titles@) == seq!["ID"@, "Name"@, "Panels"@, "Type"@],
            nat_widths(l.widths@) == seq![15nat, 40nat, 10nat, 15nat],
            l.rule == 80,
    {
        let mut titles: Vec<&'static str> = Vec::new();
        titles.push("ID");
        titles.push("Name");
        titles.push("Panels");
        titles.push("Type");
        let mut widths: Vec<usize> = Vec::new();
        widths.push(15);
        widths.push(40);
        widths.push(10);
        widths.push(15);
        let l = TableLayout { titles, widths, rule: 80 };
        assert(str_views(l.titles@) =~= seq!["ID"@, "Name"@, "Panels"@, "Type"@]);
        assert(nat_widths(l.widths@) =~= seq![15nat, 40nat, 10nat, 15nat]);
        l
    }
}

/// The cells of a board entry that did not read as a board: whatever id,
/// name and type it has as strings (else `unknown`), and its number of panels.
pub open spec fn fallback_cells_spec(
    id: Option<String>,
    name: Option<String>,
    panel_count: nat,
    board_type: Option<String>,
) -> Seq<Seq<char>> {
    seq![
        text_or(id, "unknown"@),
        text_or(name, "unknown"@),
        decimal(panel_count),
        text_or(board_type, "unknown"@),
    ]
}

fn unknown_or(o: &Option<String>) -> (r: String)
    ensures
        r@ == text_or(*o, "unknown"@),
{
    match o {
        Some(s) => String::from_str(s.as_str()),
        None => String::from_str("unknown"),
    }
}

/// The cells of a board entry that did not read as a board.
pub fn board_fallback_cells(
    id: &Option<String>,
    name: &Option<String>,
    panel_count: usize,
    board_type: &Option<String>,
) -> (r: Vec<String>)
    ensures
        views(r@) == fallback_cells_spec(*id, *name, panel_count as nat, *board_type),
{
    let mut count = String::new();
    push_decimal(&mut count, panel_count as u64);
    let mut r: Vec<String> = Vec::new();
    r.push(unknown_or(id));
    r.push(unknown_or(name));
    r.push(count);
    r.push(unknown_or(board_type));
    assert(views(r@) =~= fallback_cells_spec(*id, *name, panel_count as nat, *board_type));
    r
}

} // verus!
