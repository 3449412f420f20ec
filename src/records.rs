//! The records the listing commands show, and the table line of each.
use vstd::prelude::*;
use crate::table::{TableLayout, nat_widths, str_views, views};
use crate::text::{decimal, push_decimal, signed_decimal};
use crate::timestamp::Timestamp;

verus! {

/// How `{}` shows a boolean.
pub open spec fn bool_text(b: bool) -> Seq<char> {
    if b {
        "true"@
    } else {
        "false"@
    }
}

/// The text of an optional string, or a stand-in when it is absent.
pub open spec fn text_or(o: Option<String>, absent: Seq<char>) -> Seq<char> {
    match o {
        Some(s) => s@,
        None => absent,
    }
}

fn bool_cell(b: bool) -> (r: String)
    ensures
        r@ == bool_text(b),
{
    if b {
        String::from_str("true")
    } else {
        String::from_str("false")
    }
}

fn text_or_cell(o: &Option<String>, absent: &str) -> (r: String)
    ensures
        r@ == text_or(*o, absent@),
{
    match o {
        Some(s) => String::from_str(s.as_str()),
        None => String::from_str(absent),
    }
}

fn count_cell(n: usize) -> (r: String)
    ensures
        r@ == decimal(n as nat),
{
    let mut s = String::new();
    push_decimal(&mut s, n as u64);
    s
}

/// A signed count followed by a unit letter, as `format!("{}m", n)` gives.
fn with_unit(n: i32, unit: &str) -> (r: String)
    ensures
        r@ == signed_decimal(n as int) + unit@,
{
    let mut s = crate::text::signed_decimal_text(n as i64);
    s.append(unit);
    s
}

/// A dataset.
#[derive(Clone, Debug)]
pub struct Dataset {
    pub name: String,
    pub slug: String,
    pub description: Option<String>,
    pub created_at: Timestamp,
    pub last_written_at: Option<Timestamp>,
    pub expand_json_depth: Option<u32>,
    pub delete_protected: Option<bool>,
}

impl Dataset {
    /// Name, slug, creation day, and day last written (or `Never`).
    pub open spec fn cells_spec(&self) -> Seq<Seq<char>> {
        seq![
            self.name@,
            self.slug@,
            self.created_at.date_spec(),
            match self.last_written_at {
                Some(t) => t.date_spec(),
                None => "Never"@,
            },
        ]
    }

    /// The cells of the record's table line.
    pub fn cells(&self) -> (r: Vec<String>)
        ensures
            views(r@) == self.cells_spec(),
    {
        let mut r: Vec<String> = Vec::new();
        r.push(String::from_str(self.name.as_str()));
        r.push(String::from_str(self.slug.as_str()));
        r.push(self.created_at.date_text());
        r.push(
            match &self.last_written_at {
                Some(t) => t.date_text(),
                None => String::from_str("Never"),
            },
        );
        assert(views(r@) =~= self.cells_spec());
        r
    }

    /// The table these records are listed in.
    pub fn layout() -> (l: TableLayout)
        ensures
            l.wf(),
            str_views(l.titles@) == seq!["Name"@, "Slug"@, "Created"@, "Last Written"@],
            nat_widths(l.widths@) == seq![30nat, 20nat, 20nat, 0nat],
            l.rule == 80,
    {
        let mut titles: Vec<&'static str> = Vec::new();
        titles.push("Name");
        titles.push("Slug");
        titles.push("Created");
        titles.push("Last Written");
        let mut widths: Vec<usize> = Vec::new();
        widths.push(30);
        widths.push(20);
        widths.push(20);
        widths.push(0);
        let l = TableLayout { titles, widths, rule: 80 };
        assert(str_views(l.titles@) =~= seq!["Name"@, "Slug"@, "Created"@, "Last Written"@]);
        assert(nat_widths(l.widths@) =~= seq![30nat, 20nat, 20nat, 0nat]);
        l
    }
}

/// A column of a dataset.
#[derive(Clone, Debug)]
pub struct Column {
    pub id: String,
    pub key_name: String,
    pub hidden: bool,
    pub description: Option<String>,
    pub column_type: Option<String>,
    pub created_at: Timestamp,
    pub updated_at: Timestamp,
}

impl Column {
    /// Id, key name, hidden flag, type (or `unknown`), creation day.
    pub open spec fn cells_spec(&self) -> Seq<Seq<char>> {
        seq![
            self.id@,
            self.key_name@,
            bool_text(self.hidden),
            text_or(self.column_type, "unknown"@),
            self.created_at.date_spec(),
        ]
    }

    /// The cells of the record's table line.
    pub fn cells(&self) -> (r: Vec<String>)
        ensures
            views(r@) == self.cells_spec(),
    {
        let mut r: Vec<String> = Vec::new();
        r.push(String::from_str(self.id.as_str()));
        r.push(String::from_str(self.key_name.as_str()));
        r.push(bool_cell(self.hidden));
        r.push(text_or_cell(&self.column_type, "unknown"));
        r.push(self.created_at.date_text());
        assert(views(r@) =~= self.cells_spec());
        r
    }

    /// The table these records are listed in.
    pub fn layout() -> (l: TableLayout)
        ensures
            l.wf(),
            str_views(l.titles@) == seq!["ID"@, "Key Name"@, "Hidden"@, "Type"@, "Created"@],
            nat_widths(l.widths@) == seq![15nat, 30nat, 10nat, 20nat, 0nat],
            l.rule == 85,
    {
        let mut titles: Vec<&'static str> = Vec::new();
        titles.push("ID");
        titles.push("Key Name");
        titles.push("Hidden");
        titles.push("Type");
        titles.push("Created");
        let mut widths: Vec<usize> = Vec::new();
        widths.push(15);
        widths.push(30);
        widths.push(10);
        widths.push(20);
        widths.push(0);
        let l = TableLayout { titles, widths, rule: 85 };
        assert(str_views(l.titles@) =~= seq!["ID"@, "Key Name"@, "Hidden"@, "Type"@, "Created"@]);
        assert(nat_widths(l.widths@) =~= seq![15nat, 30nat, 10nat, 20nat, 0nat]);
        l
    }
}

/// A trigger, with what its table line shows.
#[derive(Clone, Debug)]
pub struct Trigger {
    pub id: String,
    pub name: String,
    pub description: Option<String>,
    pub disabled: bool,
    pub alert_type: String,
    pub recipients: Vec<String>,
    pub created_at: Timestamp,
    pub updated_at: Timestamp,
}

impl Trigger {
    /// Id, name, disabled flag, alert type, creation day, number of recipients.
    pub open spec fn cells_spec(&self) -> Seq<Seq<char>> {
        seq![
            self.id@,
            self.name@,
            bool_text(self.disabled),
            self.alert_type@,
            self.created_at.date_spec(),
            decimal(self.recipients@.len()),
        ]
    }

    /// The cells of the record's table line.
    pub fn cells(&self) -> (r: Vec<String>)
        ensures
            views(r@) == self.cells_spec(),
    {
        let mut r: Vec<String> = Vec::new();
        r.push(String::from_str(self.id.as_str()));
        r.push(String::from_str(self.name.as_str()));
        r.push(bool_cell(self.disabled));
        r.push(String::from_str(self.alert_type.as_str()));
        r.push(self.created_at.date_text());
        r.push(count_cell(self.recipients.len()));
        assert(views(r@) =~= self.cells_spec());
        r
    }

    /// The table these records are listed in.
    pub fn layout() -> (l: TableLayout)
        ensures
            l.wf(),
            str_views(l.titles@) == seq!["ID"@, "Name"@, "Disabled"@, "Alert Type"@, "Created"@, "Recipients"@],
            nat_widths(l.widths@) == seq![15nat, 30nat, 10nat, 15nat, 20nat, 0nat],
            l.rule == 100,
    {
        let mut titles: Vec<&'static str> = Vec::new();
        titles.push("ID");
        titles.push("Name");
        titles.push("Disabled");
        titles.push("Alert Type");
        titles.push("Created");
        titles.push("Recipients");
        let mut widths: Vec<usize> = Vec::new();
        widths.push(15);
        widths.push(30);
        widths.push(10);
        widths.push(15);
        widths.push(20);
        widths.push(0);
        let l = TableLayout { titles, widths, rule: 100 };
        assert(str_views(l.titles@) =~= seq!["ID"@, "Name"@, "Disabled"@, "Alert Type"@, "Created"@, "Recipients"@]);
        assert(nat_widths(l.widths@) =~= seq![15nat, 30nat, 10nat, 15nat, 20nat, 0nat]);
        l
    }
}

/// A service level objective, with what its table line shows. The target
/// percentage is carried as the text shown for it (one decimal and `%`).
#[derive(Clone, Debug)]
pub struct Slo {
    pub id: String,
    pub name: String,
    pub description: Option<String>,
    pub target_display: String,
    pub time_period: i32,
    pub created_at: Timestamp,
    pub updated_at: Timestamp,
}

impl Slo {
    /// Id, name, target, time period in days, creation day.
    pub open spec fn cells_spec(&self) -> Seq<Seq<char>> {
        seq![
            self.id@,
            self.name@,
            self.target_display@,
            signed_decimal(self.time_period as int) + "d"@,
            self.created_at.date_spec(),
        ]
    }

    /// The cells of the record's table line.
    pub fn cells(&self) -> (r: Vec<String>)
        ensures
            views(r@) == self.cells_spec(),
    {
        let mut r: Vec<String> = Vec::new();
        r.push(String::from_str(self.id.as_str()));
        r.push(String::from_str(self.name.as_str()));
        r.push(String::from_str(self.target_display.as_str()));
        r.push(with_unit(self.time_period, "d"));
        r.push(self.created_at.date_text());
        assert(views(r@) =~= self.cells_spec());
        r
    }

    /// The table these records are listed in.
    pub fn layout() -> (l: TableLayout)
        ensures
            l.wf(),
            str_views(l.titles@) == seq!["ID"@, "Name"@, "Target %"@, "Time Period"@, "Created"@],
            nat_widths(l.widths@) == seq![15nat, 30nat, 15nat, 15nat, 0nat],
            l.rule == 85,
    {
        let mut titles: Vec<&'static str> = Vec::new();
        titles.push("ID");
        titles.push("Name");
        titles.push("Target %");
        titles.push("Time Period");
        titles.push("Created");
        let mut widths: Vec<usize> = Vec::new();
        widths.push(15);
        widths.push(30);
        widths.push(15);
        widths.push(15);
        widths.push(0);
        let l = TableLayout { titles, widths, rule: 85 };
        assert(str_views(l.titles@) =~= seq!["ID"@, "Name"@, "Target %"@, "Time Period"@, "Created"@]);
        assert(nat_widths(l.widths@) =~= seq![15nat, 30nat, 15nat, 15nat, 0nat]);
        l
    }
}

/// One calculation of an SLO's indicator query.
#[derive(Clone, Debug)]
pub struct SloCalculation {
    pub op: String,
    pub column: Option<String>,
    pub alias: String,
}

/// One filter of an SLO's indicator query.
#[derive(Debug)]
pub struct SloFilter {
    pub column: String,
    pub op: String,
    pub value: serde_json::Value,
}

/// A burn alert on an SLO, with what its table line shows.
#[derive(Clone, Debug)]
pub struct BurnAlert {
    pub id: String,
    pub slo_id: String,
    pub exhaustion_minutes: i32,
    pub budget_rate_window_minutes: i32,
    pub recipients: Vec<String>,
    pub disabled: bool,
    pub created_at: Timestamp,
    pub updated_at: Timestamp,
}

impl BurnAlert {
    /// Id, SLO id, exhaustion and window in minutes, disabled flag, number of recipients.
    pub open spec fn cells_spec(&self) -> Seq<Seq<char>> {
        seq![
            self.id@,
            self.slo_id@,
            signed_decimal(self.exhaustion_minutes as int) + "m"@,
            signed_decimal(self.budget_rate_window_minutes as int) + "m"@,
            bool_text(self.disabled),
            decimal(self.recipients@.len()),
        ]
    }

    /// The cells of the record's table line.
    pub fn cells(&self) -> (r: Vec<String>)
        ensures
            views(r@) == self.cells_spec(),
    {
        let mut r: Vec<String> = Vec::new();
        r.push(String::from_str(self.id.as_str()));
        r.push(String::from_str(self.slo_id.as_str()));
        r.push(with_unit(self.exhaustion_minutes, "m"));
        r.push(with_unit(self.budget_rate_window_minutes, "m"));
        r.push(bool_cell(self.disabled));
        r.push(count_cell(self.recipients.len()));
        assert(views(r@) =~= self.cells_spec());
        r
    }

    /// The table these records are listed in.
    pub fn layout() -> (l: TableLayout)
        ensures
            l.wf(),
            str_views(l.titles@) == seq!["ID"@, "SLO ID"@, "Exhaustion"@, "Window"@, "Disabled"@, "Recipients"@],
            nat_widths(l.widths@) == seq![15nat, 15nat, 15nat, 15nat, 10nat, 0nat],
            l.rule == 85,
    {
        let mut titles: Vec<&'static str> = Vec::new();
        titles.push("ID");
        titles.push("SLO ID");
        titles.push("Exhaustion");
        titles.push("Window");
        titles.push("Disabled");
        titles.push("Recipients");
        let mut widths: Vec<usize> = Vec::new();
        widths.push(15);
        widths.push(15);
        widths.push(15);
        widths.push(15);
        widths.push(10);
        widths.push(0);
        let l = TableLayout { titles, widths, rule: 85 };
        assert(str_views(l.titles@) =~= seq!["ID"@, "SLO ID"@, "Exhaustion"@, "Window"@, "Disabled"@, "Recipients"@]);
        assert(nat_widths(l.widths@) =~= seq![15nat, 15nat, 15nat, 15nat, 10nat, 0nat]);
        l
    }
}

/// A calculated field (derived column).
#[derive(Clone, Debug)]
pub struct CalculatedField {
    pub id: String,
    pub alias: String,
    pub description: Option<String>,
    pub expression: String,
    pub created_at: Timestamp,
    pub updated_at: Timestamp,
}

impl CalculatedField {
    /// Id, alias, expression, creation day.
    pub open spec fn cells_spec(&self) -> Seq<Seq<char>> {
        seq![self.id@, self.alias@, self.expression@, self.created_at.date_spec()]
    }

    /// The cells of the record's table line.
    pub fn cells(&self) -> (r: Vec<String>)
        ensures
            views(r@) == self.cells_spec(),
    {
        let mut r: Vec<String> = Vec::new();
        r.push(String::from_str(self.id.as_str()));
        r.push(String::from_str(self.alias.as_str()));
        r.push(String::from_str(self.expression.as_str()));
        r.push(self.created_at.date_text());
        assert(views(r@) =~= self.cells_spec());
        r
    }

    /// The table these records are listed in.
    pub fn layout() -> (l: TableLayout)
        ensures
            l.wf(),
            str_views(l.titles@) == seq!["ID"@, "Alias"@, "Expression"@, "Created"@],
            nat_widths(l.widths@) == seq![15nat, 30nat, 50nat, 0nat],
            l.rule == 110,
    {
        let mut titles: Vec<&'static str> = Vec::new();
        titles.push("ID");
        titles.push("Alias");
        titles.push("Expression");
        titles.push("Created");
        let mut widths: Vec<usize> = Vec::new();
        widths.push(15);
        widths.push(30);
        widths.push(50);
        widths.push(0);
        let l = TableLayout { titles, widths, rule: 110 };
        assert(str_views(l.titles@) =~= seq!["ID"@, "Alias"@, "Expression"@, "Created"@]);
        assert(nat_widths(l.widths@) =~= seq![15nat, 30nat, 50nat, 0nat]);
        l
    }
}

/// How markers of one type are drawn.
#[derive(Clone, Debug)]
pub struct MarkerSetting {
    pub id: String,
    pub setting_type: String,
    pub color: String,
    pub created_at: Timestamp,
    pub updated_at: Timestamp,
}

impl MarkerSetting {
    /// Id, type, color, creation day.
    pub open spec fn cells_spec(&self) -> Seq<Seq<char>> {
        seq![self.id@, self.setting_type@, self.color@, self.created_at.date_spec()]
    }

    /// The cells of the record's table line.
    pub fn cells(&self) -> (r: Vec<String>)
        ensures
            views(r@) == self.cells_spec(),
    {
        let mut r: Vec<String> = Vec::new();
        r.push(String::from_str(self.id.as_str()));
        r.push(String::from_str(self.setting_type.as_str()));
        r.push(String::from_str(self.color.as_str()));
        r.push(self.created_at.date_text());
        assert(views(r@) =~= self.cells_spec());
        r
    }

    /// The table these records are listed in.
    pub fn layout() -> (l: TableLayout)
        ensures
            l.wf(),
            str_views(l.titles@) == seq!["ID"@, "Type"@, "Color"@, "Created"@],
            nat_widths(l.widths@) == seq![15nat, 30nat, 15nat, 0nat],
            l.rule == 70,
    {
        let mut titles: Vec<&'static str> = Vec::new();
        titles.push("ID");
        titles.push("Type");
        titles.push("Color");
        titles.push("Created");
        let mut widths: Vec<usize> = Vec::new();
        widths.push(15);
        widths.push(30);
        widths.push(15);
        widths.push(0);
        let l = TableLayout { titles, widths, rule: 70 };
        assert(str_views(l.titles@) =~= seq!["ID"@, "Type"@, "Color"@, "Created"@]);
        assert(nat_widths(l.widths@) =~= seq![15nat, 30nat, 15nat, 0nat]);
        l
    }
}

/// A marker on a dataset's timeline.
#[derive(Clone, Debug)]
pub struct Marker {
    pub id: String,
    pub message: String,
    pub timestamp: Timestamp,
    pub url: Option<String>,
    pub color: Option<String>,
    pub created_at: Timestamp,
    pub updated_at: Timestamp,
}

impl Marker {
    /// Id, message, time to the minute, color and URL (each `N/A` when absent).
    pub open spec fn cells_spec(&self) -> Seq<Seq<char>> {
        seq![
            self.id@,
            self.message@,
            self.timestamp.date_time_spec(),
            text_or(self.color, "N/A"@),
            text_or(self.url, "N/A"@),
        ]
    }

    /// The cells of the record's table line.
    pub fn cells(&self) -> (r: Vec<String>)
        ensures
            views(r@) == self.cells_spec(),
    {
        let mut r: Vec<String> = Vec::new();
        r.push(String::from_str(self.id.as_str()));
        r.push(String::from_str(self.message.as_str()));
        r.push(self.timestamp.date_time_text());
        r.push(text_or_cell(&self.color, "N/A"));
        r.push(text_or_cell(&self.url, "N/A"));
        assert(views(r@) =~= self.cells_spec());
        r
    }

    /// The table these records are listed in.
    pub fn layout() -> (l: TableLayout)
        ensures
            l.wf(),
            str_views(l.titles@) == seq!["ID"@, "Message"@, "Timestamp"@, "Color"@, "URL"@],
            nat_widths(l.widths@) == seq![15nat, 50nat, 20nat, 10nat, 0nat],
            l.rule == 110,
    {
        let mut titles: Vec<&'static str> = Vec::new();
        titles.push("ID");
        titles.push("Message");
        titles.push("Timestamp");
        titles.push("Color");
        titles.push("URL");
        let mut widths: Vec<usize> = Vec::new();
        widths.push(15);
        widths.push(50);
        widths.push(20);
        widths.push(10);
        widths.push(0);
        let l = TableLayout { titles, widths, rule: 110 };
        assert(str_views(l.titles@) =~= seq!["ID"@, "Message"@, "Timestamp"@, "Color"@, "URL"@]);
        assert(nat_widths(l.widths@) =~= seq![15nat, 50nat, 20nat, 10nat, 0nat]);
        l
    }
}

/// A notification recipient, with what its table line shows.
#[derive(Clone, Debug)]
pub struct Recipient {
    pub id: String,
    pub name: String,
    pub target: String,
    pub recipient_type: String,
    pub created_at: Timestamp,
    pub updated_at: Timestamp,
}

impl Recipient {
    /// Id, name, type, target, creation day.
    pub open spec fn cells_spec(&self) -> Seq<Seq<char>> {
        seq![
            self.id@,
            self.name@,
            self.recipient_type@,
            self.target@,
            self.created_at.date_spec(),
        ]
    }

    /// The cells of the record's table line.
    pub fn cells(&self) -> (r: Vec<String>)
        ensures
            views(r@) == self.cells_spec(),
    {
        let mut r: Vec<String> = Vec::new();
        r.push(String::from_str(self.id.as_str()));
        r.push(String::from_str(self.name.as_str()));
        r.push(String::from_str(self.recipient_type.as_str()));
        r.push(String::from_str(self.target.as_str()));
        r.push(self.created_at.date_text());
        assert(views(r@) =~= self.cells_spec());
        r
    }

    /// The table these records are listed in.
    pub fn layout() -> (l: TableLayout)
        ensures
            l.wf(),
            str_views(l.titles@) == seq!["ID"@, "Name"@, "Type"@, "Target"@, "Created"@],
            nat_widths(l.widths@) == seq![15nat, 30nat, 15nat, 30nat, 0nat],
            l.rule == 95,
    {
        let mut titles: Vec<&'static str> = Vec::new();
        titles.push("ID");
        titles.push("Name");
        titles.push("Type");
        titles.push("Target");
        titles.push("Created");
        let mut widths: Vec<usize> = Vec::new();
        widths.push(15);
        widths.push(30);
        widths.push(15);
        widths.push(30);
        widths.push(0);
        let l = TableLayout { titles, widths, rule: 95 };
        assert(str_views(l.titles@) =~= seq!["ID"@, "Name"@, "Type"@, "Target"@, "Created"@]);
        assert(nat_widths(l.widths@) =~= seq![15nat, 30nat, 15nat, 30nat, 0nat]);
        l
    }
}

/// A saved annotation on a query.
#[derive(Clone, Debug)]
pub struct QueryAnnotation {
    pub id: String,
    pub query_id: String,
    pub name: String,
    pub description: Option<String>,
    pub created_at: Timestamp,
    pub updated_at: Timestamp,
}

impl QueryAnnotation {
    /// Id, query id, name, creation day.
    pub open spec fn cells_spec(&self) -> Seq<Seq<char>> {
        seq![self.id@, self.query_id@, self.name@, self.created_at.date_spec()]
    }

    /// The cells of the record's table line.
    pub fn cells(&self) -> (r: Vec<String>)
        ensures
            views(r@) == self.cells_spec(),
    {
        let mut r: Vec<String> = Vec::new();
        r.push(String::from_str(self.id.as_str()));
        r.push(String::from_str(self.query_id.as_str()));
        r.push(String::from_str(self.name.as_str()));
        r.push(self.created_at.date_text());
        assert(views(r@) =~= self.cells_spec());
        r
    }

    /// The table these records are listed in.
    pub fn layout() -> (l: TableLayout)
        ensures
            l.wf(),
            str_views(l.titles@) == seq!["ID"@, "Query ID"@, "Name"@, "Created"@],
            nat_widths(l.widths@) == seq![15nat, 15nat, 30nat, 0nat],
            l.rule == 75,
    {
        let mut titles: Vec<&'static str> = Vec::new();
        titles.push("ID");
        titles.push("Query ID");
        titles.push("Name");
        titles.push("Created");
        let mut widths: Vec<usize> = Vec::new();
        widths.push(15);
        widths.push(15);
        widths.push(30);
        widths.push(0);
        let l = TableLayout { titles, widths, rule: 75 };
        assert(str_views(l.titles@) =~= seq!["ID"@, "Query ID"@, "Name"@, "Created"@]);
        assert(nat_widths(l.widths@) =~= seq![15nat, 15nat, 30nat, 0nat]);
        l
    }
}

} // verus!
