//! One repository of a listing, and the display text of each of its columns.
use vstd::prelude::*;
use vstd::string::StringExecFns;
use crate::text::{comma_joined, decimal_text, int_to_text, join_comma, views};

verus! {

/// Number of displayed columns of a repository.
pub const COLUMN_COUNT: usize = 7;

/// One repository as the listing describes it. Any field but the two counts
/// may be absent.
pub struct RepositoryInfo {
    pub name: Option<String>,
    pub description: Option<String>,
    pub topics: Vec<String>,
    pub last_update: Option<String>,
    pub language: Option<String>,
    pub stargazers_count: i32,
    pub forks_count: i32,
}

/// The view of an optional text.
pub open spec fn opt_view(o: Option<String>) -> Option<Seq<char>> {
    match o {
        Some(s) => Some(s@),
        None => None,
    }
}

/// Display text of an optional field: its text, or "N/A" when absent.
pub open spec fn shown(o: Option<Seq<char>>) -> Seq<char> {
    match o {
        Some(s) => s,
        None => "N/A"@,
    }
}

/// The topics as one text, or nothing when there are none.
pub open spec fn topics_text(topics: Seq<String>) -> Option<Seq<char>> {
    if topics.len() == 0 {
        None
    } else {
        Some(comma_joined(views(topics)))
    }
}

impl RepositoryInfo {
    /// Display text of column `c`: name, description, topics, last update,
    /// language, star count, fork count.
    pub open spec fn cell(&self, c: int) -> Seq<char> {
        if c == 0 {
            shown(opt_view(self.name))
        } else if c == 1 {
            shown(opt_view(self.description))
        } else if c == 2 {
            shown(topics_text(self.topics@))
        } else if c == 3 {
            shown(opt_view(self.last_update))
        } else if c == 4 {
            shown(opt_view(self.language))
        } else if c == 5 {
            decimal_text(self.stargazers_count as int)
        } else {
            decimal_text(self.forks_count as int)
        }
    }

    /// The display texts of the seven columns, absent fields as "N/A".
    pub fn ref_array(&self) -> (r: [String; 7])
        ensures
            forall|c: int| 0 <= c < 7 ==> #[trigger] r@[c]@ == self.cell(c),
    {
        let r = [
            or_placeholder(self.name()),
            or_placeholder(self.description()),
            or_placeholder(self.topics()),
            or_placeholder(self.last_update()),
            or_placeholder(self.language()),
            self.stargazers_count(),
            self.forks_count(),
        ];
        assert(r@[0]@ == self.cell(0));
        assert(r@[1]@ == self.cell(1));
        assert(r@[2]@ == self.cell(2));
        assert(r@[3]@ == self.cell(3));
        assert(r@[4]@ == self.cell(4));
        assert(r@[5]@ == self.cell(5));
        assert(r@[6]@ == self.cell(6));
        r
    }

    /// The name, if given.
    pub fn name(&self) -> (r: Option<String>)
        ensures
            opt_view(r) == opt_view(self.name),
    {
        copy_opt(&self.name)
    }

    /// The description, if given.
    pub fn description(&self) -> (r: Option<String>)
        ensures
            opt_view(r) == opt_view(self.description),
    {
        copy_opt(&self.description)
    }

    /// The topics joined with ", ", or `None` when there are none.
    pub fn topics(&self) -> (r: Option<String>)
        ensures
            opt_view(r) == topics_text(self.topics@),
    {
        if self.topics.len() == 0 {
            None
        } else {
            Some(join_comma(&self.topics))
        }
    }

    /// The time of the last push, as the listing gives it.
    pub fn last_update(&self) -> (r: Option<String>)
        ensures
            opt_view(r) == opt_view(self.last_update),
    {
        copy_opt(&self.last_update)
    }

    /// The main language, if given.
    pub fn language(&self) -> (r: Option<String>)
        ensures
            opt_view(r) == opt_view(self.language),
    {
        copy_opt(&self.language)
    }

    /// The star count in decimal.
    pub fn stargazers_count(&self) -> (r: String)
        ensures
            r@ == decimal_text(self.stargazers_count as int),
    {
        int_to_text(self.stargazers_count)
    }

    /// The fork count in decimal.
    pub fn forks_count(&self) -> (r: String)
        ensures
            r@ == decimal_text(self.forks_count as int),
    {
        int_to_text(self.forks_count)
    }
}

fn copy_opt(o: &Option<String>) -> (r: Option<String>)
    ensures
        opt_view(r) == opt_view(*o),
{
    match o {
        Some(s) => Some(s.clone()),
        None => None,
    }
}

fn or_placeholder(o: Option<String>) -> (r: String)
    ensures
        r@ == shown(opt_view(o)),
{
    match o {
        Some(s) => s,
        None => String::from_str("N/A"),
    }
}

} // verus!
