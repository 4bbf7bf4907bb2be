use github_profile_explorer::pagination::{
    is_success_status, Aggregator, FetchError, PageOutcome, Progress,
};
use github_profile_explorer::repository::RepositoryInfo;
use github_profile_explorer::Config;

fn config(request: &str) -> Config {
    Config {
        request: String::from(request),
        name: String::from("octo"),
        sort: String::from("created"),
        direction: String::from("desc"),
    }
}

fn repo(name: &str) -> RepositoryInfo {
    RepositoryInfo {
        name: Some(String::from(name)),
        description: None,
        topics: Vec::new(),
        last_update: None,
        language: None,
        stargazers_count: 0,
        forks_count: 0,
    }
}

fn page(names: &[&str]) -> PageOutcome {
    PageOutcome::Delivered(names.iter().map(|n| repo(n)).collect())
}

/// Feeds outcomes one by one; returns the final progress and how many
/// outcomes were taken.
fn drive(request: &str, outcomes: Vec<PageOutcome>) -> (Progress, usize) {
    let mut agg = Aggregator::start(config(request)).ok().unwrap();
    let mut taken = 0;
    for outcome in outcomes {
        taken += 1;
        match agg.on_page(outcome) {
            Progress::Continue(next) => agg = next,
            other => return (other, taken),
        }
    }
    (Progress::Continue(agg), taken)
}

#[test]
fn pages_are_concatenated_until_the_empty_page() {
    let outcomes = vec![
        page(&["a", "b"]),
        page(&["c", "d", "e"]),
        page(&[]),
        page(&["never"]),
    ];
    let (progress, taken) = drive("org", outcomes);
    assert_eq!(taken, 3);
    match progress {
        Progress::Finished(records) => {
            let names: Vec<String> = records.iter().map(|r| r.name.clone().unwrap()).collect();
            assert_eq!(names, vec!["a", "b", "c", "d", "e"]);
        }
        _ => panic!("aggregation did not finish"),
    }
}

#[test]
fn an_empty_first_page_gives_no_records() {
    let (progress, taken) = drive("user", vec![page(&[])]);
    assert_eq!(taken, 1);
    assert!(matches!(progress, Progress::Finished(ref v) if v.is_empty()));
}

#[test]
fn not_found_discards_earlier_pages() {
    let outcomes = vec![page(&["a"]), page(&["b"]), PageOutcome::Status(404), page(&[])];
    let (progress, taken) = drive("org", outcomes);
    assert_eq!(taken, 3);
    assert!(matches!(progress, Progress::Failed(FetchError::ProfileNotFound)));
}

#[test]
fn forbidden_is_rate_limited() {
    let (progress, _) = drive("user", vec![page(&["a"]), PageOutcome::Status(403)]);
    assert!(matches!(progress, Progress::Failed(FetchError::RateLimited)));
}

#[test]
fn other_status_is_unclassified() {
    let (progress, _) = drive("user", vec![PageOutcome::Status(500)]);
    match progress {
        Progress::Failed(e) => {
            assert_eq!(e, FetchError::UnclassifiedUpstreamError(500));
            assert_eq!(e.message(), "Unhandled status code: 500");
        }
        _ => panic!("expected a failure"),
    }
}

#[test]
fn unparsable_page_aborts() {
    let (progress, taken) = drive("org", vec![page(&["a"]), PageOutcome::Unparsable]);
    assert_eq!(taken, 2);
    assert!(matches!(progress, Progress::Failed(FetchError::DeserializationError)));
}

#[test]
fn transport_failure_aborts() {
    let (progress, _) = drive("org", vec![PageOutcome::TransportFailure]);
    assert!(matches!(progress, Progress::Failed(FetchError::NetworkError)));
}

#[test]
fn error_messages() {
    assert_eq!(FetchError::ProfileNotFound.message(), "This profile was not found.");
    assert_eq!(
        FetchError::RateLimited.message(),
        "The API request limit has been exceeded. Please wait for 60 minutes."
    );
    assert_eq!(
        FetchError::UnclassifiedUpstreamError(418).message(),
        "Unhandled status code: 418"
    );
}

#[test]
fn request_urls_follow_the_pages() {
    let agg = Aggregator::start(config("org")).ok().unwrap();
    assert_eq!(agg.page, 1);
    assert_eq!(
        agg.request_url(),
        "https://api.github.com/orgs/octo/repos?sort=created&direction=desc&per_page=100&page=1"
    );
    let agg = match agg.on_page(page(&["a"])) {
        Progress::Continue(a) => a,
        _ => panic!("expected to continue"),
    };
    assert_eq!(agg.page, 2);
    assert_eq!(
        agg.request_url(),
        "https://api.github.com/orgs/octo/repos?sort=created&direction=desc&per_page=100&page=2"
    );
    let user = Aggregator::start(config("user")).ok().unwrap();
    assert_eq!(
        user.request_url(),
        "https://api.github.com/users/octo/repos?sort=created&direction=desc&per_page=100&page=1"
    );
}

#[test]
fn success_status() {
    assert!(is_success_status(200));
    assert!(!is_success_status(404));
    assert!(!is_success_status(201));
}

#[test]
fn page_size_is_handed_on() {
    let agg = Aggregator::start_with_page_size(config("user"), 30).ok().unwrap();
    assert_eq!(agg.page_size, 30);
    assert_eq!(
        agg.request_url(),
        "https://api.github.com/users/octo/repos?sort=created&direction=desc&per_page=30&page=1"
    );
    let big = Aggregator::start_with_page_size(config("org"), 250).ok().unwrap();
    assert!(big.request_url().ends_with("&per_page=250&page=1"));
    assert!(Aggregator::start_with_page_size(config("team"), 30).is_err());
}
