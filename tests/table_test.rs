use github_profile_explorer::browser::{palette, App, Hue, Swatch, TableColors, ITEM_HEIGHT};
use github_profile_explorer::info_output;
use github_profile_explorer::layout::{column_cap, constraint_len_calculator, wrapped_row};
use github_profile_explorer::repository::RepositoryInfo;
use github_profile_explorer::text::{join_comma, line_max_width, same_text, wrap_text};

fn repo(name: Option<&str>, description: Option<&str>, topics: &[&str]) -> RepositoryInfo {
    RepositoryInfo {
        name: name.map(String::from),
        description: description.map(String::from),
        topics: topics.iter().map(|t| String::from(*t)).collect(),
        last_update: Some(String::from("2024-01-02T03:04:05Z")),
        language: Some(String::from("Rust")),
        stargazers_count: 1234,
        forks_count: 7,
    }
}

fn rows(n: usize) -> Vec<RepositoryInfo> {
    (0..n).map(|i| repo(Some(&format!("r{}", i)), None, &[])).collect()
}

#[test]
fn ref_array_shows_absent_fields_as_na() {
    let mut r = repo(None, None, &[]);
    r.last_update = None;
    r.language = None;
    r.stargazers_count = -5;
    r.forks_count = 0;
    let cells = r.ref_array();
    assert_eq!(cells, ["N/A", "N/A", "N/A", "N/A", "N/A", "-5", "0"].map(String::from));
}

#[test]
fn ref_array_shows_present_fields() {
    let r = repo(Some("tool"), Some("A tool"), &["cli", "github"]);
    let cells = r.ref_array();
    assert_eq!(cells[0], "tool");
    assert_eq!(cells[1], "A tool");
    assert_eq!(cells[2], "cli, github");
    assert_eq!(cells[3], "2024-01-02T03:04:05Z");
    assert_eq!(cells[4], "Rust");
    assert_eq!(cells[5], "1234");
    assert_eq!(cells[6], "7");
}

#[test]
fn getters() {
    let r = repo(Some("tool"), None, &["one"]);
    assert_eq!(r.name(), Some(String::from("tool")));
    assert_eq!(r.description(), None);
    assert_eq!(r.topics(), Some(String::from("one")));
    assert_eq!(repo(None, None, &[]).topics(), None);
    assert_eq!(r.last_update(), Some(String::from("2024-01-02T03:04:05Z")));
    assert_eq!(r.language(), Some(String::from("Rust")));
    assert_eq!(r.stargazers_count(), "1234");
    assert_eq!(r.forks_count(), "7");
}

#[test]
fn layout_takes_the_widest_line_not_the_whole_text() {
    let items = vec![
        repo(Some("a"), Some("short\nlonger line"), &[]),
        repo(Some("abc"), Some("mid text"), &[]),
    ];
    let w = constraint_len_calculator(&items);
    assert_eq!(w[0], 3);
    assert_eq!(w[1], 11);
}

#[test]
fn layout_counts_wide_characters_and_placeholders() {
    let items = vec![
        repo(Some("日本語"), None, &["ab", "cd"]),
        repo(None, Some("x"), &[]),
    ];
    let w = constraint_len_calculator(&items);
    assert_eq!(w, [6, 3, 6, 20, 4, 4, 1]);
}

#[test]
fn layout_of_no_repositories_is_zero() {
    assert_eq!(constraint_len_calculator(&Vec::new()), [0; 7]);
}

#[test]
fn line_widths() {
    assert_eq!(line_max_width(""), 0);
    assert_eq!(line_max_width("abc"), 3);
    assert_eq!(line_max_width("ab\nabcd\n"), 4);
    assert_eq!(line_max_width("é日"), 3);
}

#[test]
fn joining_and_comparing() {
    let parts = vec![String::from("a"), String::from("b"), String::from("c")];
    assert_eq!(join_comma(&parts), "a, b, c");
    assert_eq!(join_comma(&Vec::new()), "");
    assert!(same_text("org", "org"));
    assert!(!same_text("org", "orG"));
    assert!(!same_text("org", "org "));
}

#[test]
fn wrapping() {
    assert_eq!(wrap_text("hello world", 5), "hello\nworld");
    assert_eq!(wrap_text("short", 20), "short");
    assert_eq!(column_cap(1), 50);
    assert_eq!(column_cap(6), 5);
    let row = wrapped_row(&repo(Some("name"), Some("one two three"), &[]));
    assert_eq!(row.len(), 7);
    assert_eq!(row[0], "name");
    assert_eq!(row[1], "one two three");
    assert_eq!(row[5], "1234");
}

#[test]
fn next_wraps_around() {
    let mut app = App::new(rows(3));
    assert_eq!(app.selected, 0);
    app.next();
    assert_eq!(app.selected, 1);
    assert_eq!(app.scroll_position, ITEM_HEIGHT);
    app.next();
    assert_eq!(app.selected, 2);
    app.next();
    assert_eq!(app.selected, 0);
    assert_eq!(app.scroll_position, 0);
    assert_eq!(app.scroll_content_length, 2 * ITEM_HEIGHT);
}

#[test]
fn previous_wraps_around() {
    let mut app = App::new(rows(3));
    app.previous();
    assert_eq!(app.selected, 2);
    assert_eq!(app.scroll_position, 2 * ITEM_HEIGHT);
    app.previous();
    assert_eq!(app.selected, 1);
}

#[test]
fn single_row_loops_on_itself() {
    let mut app = App::new(rows(1));
    app.next();
    assert_eq!(app.selected, 0);
    app.previous();
    assert_eq!(app.selected, 0);
    assert_eq!(app.scroll_content_length, 0);
}

#[test]
fn navigation_without_rows_changes_nothing() {
    let mut app = info_output(Vec::new());
    app.next();
    app.previous();
    assert_eq!(app.selected, 0);
    assert_eq!(app.scroll_position, 0);
    assert_eq!(app.scroll_content_length, 0);
    assert_eq!(app.longest_item_lens, [0; 7]);
}

#[test]
fn theme_cycles() {
    let mut app = App::new(rows(2));
    for _ in 0..4 {
        app.next_color();
    }
    assert_eq!(app.color_index, 0);
    app.previous_color();
    assert_eq!(app.color_index, 3);
    app.set_colors();
    assert_eq!(app.colors, TableColors::new(Hue::Red));
    app.next_color();
    assert_eq!(app.color_index, 0);
}

#[test]
fn table_colors() {
    let c = TableColors::new(palette(1));
    assert_eq!(c.header_bg, Swatch { hue: Hue::Emerald, shade: 900 });
    assert_eq!(c.selected_style_fg, Swatch { hue: Hue::Emerald, shade: 400 });
    assert_eq!(c.buffer_bg, Swatch { hue: Hue::Slate, shade: 950 });
    assert_eq!(palette(0), Hue::Blue);
    assert_eq!(palette(3), Hue::Red);
}
