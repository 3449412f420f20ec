//! A team's environments, as the v2 API lists them.
use vstd::prelude::*;
use crate::records::text_or;
use crate::table::{TableLayout, nat_widths, str_views, views};

verus! {

/// A page of a team's environments.
#[derive(Clone, Debug)]
pub struct EnvironmentsResponse {
    pub data: Vec<EnvironmentData>,
    pub links: Option<EnvironmentLinks>,
}

/// One environment.
#[derive(Clone, Debug)]
pub struct EnvironmentData {
    pub id: String,
    pub attributes: EnvironmentAttributes,
    pub data_type: String,
    pub links: Option<EnvironmentSelfLink>,
}

/// What an environment is called and how it is set up.
#[derive(Clone, Debug)]
pub struct EnvironmentAttributes {
    pub name: String,
    pub slug: String,
    pub description: Option<String>,
    pub color: Option<String>,
    pub settings: Option<EnvironmentSettings>,
    pub timestamps: EnvironmentTimestamps,
}

/// When an environment was created and last changed, as the server wrote them.
#[derive(Clone, Debug)]
pub struct EnvironmentTimestamps {
    pub created: String,
    pub updated: String,
}

/// The link to the next page of a listing.
#[derive(Clone, Debug)]
pub struct EnvironmentLinks {
    pub next: Option<String>,
}

/// The link to an environment itself.
#[derive(Clone, Debug)]
pub struct EnvironmentSelfLink {
    pub self_link: String,
}

/// An environment's settings.
#[derive(Clone, Debug)]
pub struct EnvironmentSettings {
    pub delete_protected: Option<bool>,
    pub column_layout: Option<String>,
}

impl EnvironmentData {
    /// Id, name, slug, color (or `N/A`), creation time.
    pub open spec fn cells_spec(&self) -> Seq<Seq<char>> {
        seq![
            self.id@,
            self.attributes.name@,
            self.attributes.slug@,
            text_or(self.attributes.color, "N/A"@),
            self.attributes.timestamps.created@,
        ]
    }

    /// The cells of the environment's table line.
    pub fn cells(&self) -> (r: Vec<String>)
        ensures
            views(r@) == self.cells_spec(),
    {
        let mut r: Vec<String> = Vec::new();
        r.push(String::from_str(self.id.as_str()));
        r.push(String::from_str(self.attributes.name.as_str()));
        r.push(String::from_str(self.attributes.slug.as_str()));
        r.push(
            match &self.attributes.color {
                Some(c) => String::from_str(c.as_str()),
                None => String::from_str("N/A"),
            },
        );
        r.push(String::from_str(self.attributes.timestamps.created.as_str()));
        assert(views(r@) =~= self.cells_spec());
        r
    }

    /// The table these records are listed in.
    pub fn layout() -> (l: TableLayout)
        ensures
            l.wf(),
            str_views(l.titles@) == seq!["ID"@, "Name"@, "Slug"@, "Color"@, "Created"@],
            nat_widths(l.widths@) == seq![35nat, 15nat, 25nat, 12nat, 0nat],
            l.rule == 95,
    {
        let mut titles: Vec<&'static str> = Vec::new();
        titles.push("ID");
        titles.push("Name");
        titles.push("Slug");
        titles.push("Color");
        titles.push("Created");
        let mut widths: Vec<usize> = Vec::new();
        widths.push(35);
        widths.push(15);
        widths.push(25);
        widths.push(12);
        widths.push(0);
        let l = TableLayout { titles, widths, rule: 95 };
        assert(str_views(l.titles@) =~= seq!["ID"@, "Name"@, "Slug"@, "Color"@, "Created"@]);
        assert(nat_widths(l.widths@) =~= seq![35nat, 15nat, 25nat, 12nat, 0nat]);
        l
    }
}

} // verus!
