//! Repository listing for a GitHub organisation or user: paginated
//! aggregation of the listing, column layout and the table browser state.
use vstd::prelude::*;
use crate::browser::{palette_hue, App, TableColors, ITEM_HEIGHT};
use crate::layout::column_width;
use crate::repository::RepositoryInfo;

pub mod browser;
pub mod layout;
pub mod pagination;
pub mod repository;
pub mod text;

verus! {

/// What to list: the request type ("org" or "user"), the profile name, and
/// the sort key and direction handed to the listing.
pub struct Config {
    pub request: String,
    pub name: String,
    pub sort: String,
    pub direction: String,
}

impl Config {
    /// The arguments as given: none of them is refused here.
    pub fn build(args: Config) -> (r: Result<Config, &'static str>)
        ensures
            r == Ok::<Config, &'static str>(args),
    {
        Ok(args)
    }
}

/// The browser over the listed repositories, ready to be shown.
pub fn info_output(repositories: Vec<RepositoryInfo>) -> (r: App)
    requires
        repositories@.len() <= usize::MAX / ITEM_HEIGHT,
    ensures
        r.wf(),
        r.items@ == repositories@,
        r.selected == 0,
        r.scroll_position == 0,
        r.color_index == 0,
        r.colors == TableColors::of(palette_hue(0)),
        forall|c: int| 0 <= c < 7 ==> #[trigger] r.longest_item_lens@[c] as nat == column_width(
            repositories@,
            c,
        ),
{
    App::new(repositories)
}

} // verus!
