use github_profile_explorer::pagination::{Aggregator, FetchError};
use github_profile_explorer::Config;

#[test]
fn invalid_request_type() {
    let config = Config {
        request: String::from("invalid_type"),
        name: String::from("test_name"),
        sort: String::from("pushed"),
        direction: String::from("desk"),
    };

    let result = Aggregator::start(config);

    assert_eq!(
        result.err().unwrap().message(),
        "The request type is not valid. Choose either 'org' or 'user'"
    );
}

#[test]
fn invalid_request_types_refused_before_any_page() {
    for request in ["", "orgs", "User", "ORG", "users", " org"] {
        let config = Config {
            request: String::from(request),
            name: String::from("rust-lang"),
            sort: String::from("created"),
            direction: String::from("desc"),
        };
        assert!(matches!(
            Aggregator::start(config),
            Err(FetchError::InvalidRequestType)
        ));
    }
}

#[test]
fn build_keeps_the_arguments() {
    let config = Config {
        request: String::from("org"),
        name: String::from("rust-lang"),
        sort: String::from("updated"),
        direction: String::from("asc"),
    };
    let built = Config::build(config).unwrap();
    assert_eq!(built.request, "org");
    assert_eq!(built.name, "rust-lang");
    assert_eq!(built.sort, "updated");
    assert_eq!(built.direction, "asc");
}
