//! Aggregation of a paginated repository listing. The aggregator decides
//! which page to ask for next and what each answer means; the caller makes
//! the requests and hands back what came of each.
use vstd::prelude::*;
use vstd::string::StringExecFns;
use crate::Config;
use crate::repository::RepositoryInfo;
use crate::text::{decimal_digits, decimal_text, push_decimal, same_text};

verus! {

/// Number of repositories asked for per page unless another is given: the
/// listing's maximum.
pub const PAGE_SIZE: u64 = 100;

/// Whether the listing is that of an organisation or of a user.
#[derive(Clone, Copy, PartialEq, Eq, Structural, Debug)]
pub enum RequestScope {
    Org,
    User,
}

/// Why an aggregation ended without a result.
#[derive(Clone, Copy, PartialEq, Eq, Structural, Debug)]
pub enum FetchError {
    InvalidRequestType,
    NetworkError,
    DeserializationError,
    ProfileNotFound,
    RateLimited,
    UnclassifiedUpstreamError(u16),
}

/// What came of one page request.
pub enum PageOutcome {
    /// A successful answer whose body is a list of repositories.
    Delivered(Vec<RepositoryInfo>),
    /// A successful answer whose body is not a list of repositories.
    Unparsable,
    /// An answer with any other status code.
    Status(u16),
    /// No answer at all.
    TransportFailure,
}

/// Where an aggregation stands: still asking, with the records so far;
/// complete, with all records; or aborted.
pub enum Tally {
    Pending(Seq<RepositoryInfo>),
    Complete(Seq<RepositoryInfo>),
    Aborted(FetchError),
}

/// The error that a non-success status code stands for.
pub open spec fn status_error(code: u16) -> FetchError {
    if code == 404 {
        FetchError::ProfileNotFound
    } else if code == 403 {
        FetchError::RateLimited
    } else {
        FetchError::UnclassifiedUpstreamError(code)
    }
}

/// One page's outcome applied to the aggregation: an empty page completes
/// it, a delivered page extends it, anything else aborts it and discards the
/// records so far. A finished aggregation takes no further pages.
pub open spec fn tally_step(t: Tally, o: PageOutcome) -> Tally {
    match t {
        Tally::Pending(acc) => match o {
            PageOutcome::Delivered(v) => if v@.len() == 0 {
                Tally::Complete(acc)
            } else {
                Tally::Pending(acc + v@)
            },
            PageOutcome::Unparsable => Tally::Aborted(FetchError::DeserializationError),
            PageOutcome::Status(code) => Tally::Aborted(status_error(code)),
            PageOutcome::TransportFailure => Tally::Aborted(FetchError::NetworkError),
        },
        _ => t,
    }
}

/// The aggregation after the given page outcomes, from page 1 on.
pub open spec fn tally_all(outcomes: Seq<PageOutcome>) -> Tally
    decreases outcomes.len(),
{
    if outcomes.len() == 0 {
        Tally::Pending(Seq::empty())
    } else {
        tally_step(tally_all(outcomes.drop_last()), outcomes.last())
    }
}

/// Whether `s` names a scope.
pub open spec fn is_scope_text(s: Seq<char>) -> bool {
    s == "org"@ || s == "user"@
}

/// The path segment of the listing for a scope.
pub open spec fn scope_path(scope: RequestScope) -> Seq<char> {
    match scope {
        RequestScope::Org => "https://api.github.com/orgs/"@,
        RequestScope::User => "https://api.github.com/users/"@,
    }
}

/// The address of one page of the listing.
pub open spec fn page_url(scope: RequestScope, config: Config, page_size: nat, page: nat) -> Seq<
    char,
> {
    scope_path(scope) + config.name@ + "/repos?sort="@ + config.sort@ + "&direction="@
        + config.direction@ + "&per_page="@ + decimal_digits(page_size) + "&page="@
        + decimal_digits(page)
}

/// The one-line message of an error.
pub open spec fn error_message(e: FetchError) -> Seq<char> {
    match e {
        FetchError::InvalidRequestType => "The request type is not valid. Choose either 'org' or 'user'"@,
        FetchError::NetworkError => "The API could not be reached."@,
        FetchError::DeserializationError => "The API answer is not a list of repositories."@,
        FetchError::ProfileNotFound => "This profile was not found."@,
        FetchError::RateLimited => "The API request limit has been exceeded. Please wait for 60 minutes."@,
        FetchError::UnclassifiedUpstreamError(code) => "Unhandled status code: "@ + decimal_text(code as int),
    }
}

impl FetchError {
    /// A one-line message for the user.
    pub fn message(&self) -> (r: String)
        ensures
            r@ == error_message(*self),
    {
        match self {
            FetchError::InvalidRequestType => String::from_str(
                "The request type is not valid. Choose either 'org' or 'user'",
            ),
            FetchError::NetworkError => String::from_str("The API could not be reached."),
            FetchError::DeserializationError => String::from_str(
                "The API answer is not a list of repositories.",
            ),
            FetchError::ProfileNotFound => String::from_str("This profile was not found."),
            FetchError::RateLimited => String::from_str(
                "The API request limit has been exceeded. Please wait for 60 minutes.",
            ),
            FetchError::UnclassifiedUpstreamError(code) => {
                let mut s = String::from_str("Unhandled status code: ");
                push_decimal(&mut s, *code as u64);
                s
            },
        }
    }
}

/// Whether a status code is that of a successful answer, whose body is the
/// page's records.
pub fn is_success_status(code: u16) -> (r: bool)
    ensures
        r == (code == 200),
{
    code == 200
}

/// What the aggregation does after a page.
pub enum Progress {
    /// Ask for the next page.
    Continue(Aggregator),
    /// All pages are in: the records, in page order.
    Finished(Vec<RepositoryInfo>),
    Failed(FetchError),
}

impl Progress {
    pub open spec fn tally(&self) -> Tally {
        match self {
            Progress::Continue(a) => Tally::Pending(a.records@),
            Progress::Finished(v) => Tally::Complete(v@),
            Progress::Failed(e) => Tally::Aborted(*e),
        }
    }
}

/// An aggregation under way: the listing asked for, the page size, the
/// records so far and the next page to ask for.
pub struct Aggregator {
    pub scope: RequestScope,
    pub config: Config,
    pub page_size: u64,
    pub records: Vec<RepositoryInfo>,
    pub page: u64,
}

impl Aggregator {
    /// Starts with pages of `PAGE_SIZE` repositories.
    pub fn start(config: Config) -> (r: Result<Aggregator, FetchError>)
        ensures
            r is Ok <==> is_scope_text(config.request@),
            r is Err ==> r == Err::<Aggregator, FetchError>(FetchError::InvalidRequestType),
            r matches Ok(a) ==> a.page == 1 && a.records@.len() == 0 && a.config == config
                && a.page_size == PAGE_SIZE
                && (a.scope == RequestScope::Org <==> config.request@ == "org"@),
    {
        Self::start_with_page_size(config, PAGE_SIZE)
    }

    /// Starts at page 1 with no records; fails with `InvalidRequestType`,
    /// before any request, unless the request type is "org" or "user". The
    /// page size is handed to the listing as it is.
    pub fn start_with_page_size(config: Config, page_size: u64) -> (r: Result<
        Aggregator,
        FetchError,
    >)
        ensures
            r is Ok <==> is_scope_text(config.request@),
            r is Err ==> r == Err::<Aggregator, FetchError>(FetchError::InvalidRequestType),
            r matches Ok(a) ==> a.page == 1 && a.records@.len() == 0 && a.config == config
                && a.page_size == page_size
                && (a.scope == RequestScope::Org <==> config.request@ == "org"@),
    {
        let scope = if same_text(config.request.as_str(), "org") {
            RequestScope::Org
        } else if same_text(config.request.as_str(), "user") {
            RequestScope::User
        } else {
            proof {
                reveal_strlit("org");
                reveal_strlit("user");
            }
            return Err(FetchError::InvalidRequestType);
        };
        proof {
            reveal_strlit("org");
            reveal_strlit("user");
            assert("org"@ != "user"@) by {
                assert("org"@.len() != "user"@.len());
            }
        }
        Ok(Aggregator { scope, config, page_size, records: Vec::new(), page: 1 })
    }

    /// The address of the page to ask for next.
    pub fn request_url(&self) -> (r: String)
        ensures
            r@ == page_url(self.scope, self.config, self.page_size as nat, self.page as nat),
    {
        let mut s = match self.scope {
            RequestScope::Org => String::from_str("https://api.github.com/orgs/"),
            RequestScope::User => String::from_str("https://api.github.com/users/"),
        };
        s.append(self.config.name.as_str());
        s.append("/repos?sort=");
        s.append(self.config.sort.as_str());
        s.append("&direction=");
        s.append(self.config.direction.as_str());
        s.append("&per_page=");
        push_decimal(&mut s, self.page_size);
        s.append("&page=");
        push_decimal(&mut s, self.page);
        s
    }

    /// Takes what came of the current page.
    pub fn on_page(self, outcome: PageOutcome) -> (r: Progress)
        requires
            self.page < u64::MAX,
        ensures
            r.tally() == tally_step(Tally::Pending(self.records@), outcome),
            r matches Progress::Continue(a) ==> a.page == self.page + 1 && a.scope == self.scope
                && a.config == self.config && a.page_size == self.page_size,
    {
        match outcome {
            PageOutcome::Delivered(mut v) => {
                if v.len() == 0 {
                    Progress::Finished(self.records)
                } else {
                    let mut records = self.records;
                    records.append(&mut v);
                    Progress::Continue(
                        Aggregator {
                            scope: self.scope,
                            config: self.config,
                            page_size: self.page_size,
                            records,
                            page: self.page + 1,
                        },
                    )
                }
            },
            PageOutcome::Unparsable => Progress::Failed(FetchError::DeserializationError),
            PageOutcome::Status(code) => {
                let e = if code == 404 {
                    FetchError::ProfileNotFound
                } else if code == 403 {
                    FetchError::RateLimited
                } else {
                    FetchError::UnclassifiedUpstreamError(code)
                };
                Progress::Failed(e)
            },
            PageOutcome::TransportFailure => Progress::Failed(FetchError::NetworkError),
        }
    }
}

/// The records of the delivered pages, in page order.
pub open spec fn delivered(outcomes: Seq<PageOutcome>) -> Seq<RepositoryInfo>
    decreases outcomes.len(),
{
    if outcomes.len() == 0 {
        Seq::empty()
    } else {
        delivered(outcomes.drop_last()) + match outcomes.last() {
            PageOutcome::Delivered(v) => v@,
            _ => Seq::empty(),
        }
    }
}

/// The sum of the sizes of the delivered pages.
pub open spec fn delivered_count(outcomes: Seq<PageOutcome>) -> nat
    decreases outcomes.len(),
{
    if outcomes.len() == 0 {
        0
    } else {
        delivered_count(outcomes.drop_last()) + match outcomes.last() {
            PageOutcome::Delivered(v) => v@.len(),
            _ => 0,
        }
    }
}

/// A successful page holding at least one record.
pub open spec fn is_full_page(o: PageOutcome) -> bool {
    o matches PageOutcome::Delivered(v) && v@.len() > 0
}

/// A successful page holding no record.
pub open spec fn is_empty_page(o: PageOutcome) -> bool {
    o matches PageOutcome::Delivered(v) && v@.len() == 0
}

proof fn lemma_finished_stays(outcomes: Seq<PageOutcome>, extra: Seq<PageOutcome>)
    requires
        !(tally_all(outcomes) is Pending),
    ensures
        tally_all(outcomes + extra) == tally_all(outcomes),
    decreases extra.len(),
{
    if extra.len() == 0 {
        assert(outcomes + extra =~= outcomes);
    } else {
        lemma_finished_stays(outcomes, extra.drop_last());
        assert((outcomes + extra).drop_last() =~= outcomes + extra.drop_last());
    }
}

proof fn lemma_full_pages(outcomes: Seq<PageOutcome>)
    requires
        forall|i: int| 0 <= i < outcomes.len() ==> is_full_page(#[trigger] outcomes[i]),
    ensures
        tally_all(outcomes) == Tally::Pending(delivered(outcomes)),
        delivered(outcomes).len() == delivered_count(outcomes),
    decreases outcomes.len(),
{
    if outcomes.len() > 0 {
        let rest = outcomes.drop_last();
        assert forall|i: int| 0 <= i < rest.len() implies is_full_page(#[trigger] rest[i]) by {
            assert(rest[i] == outcomes[i]);
        }
        lemma_full_pages(rest);
        assert(is_full_page(outcomes[outcomes.len() - 1]));
    }
}

/// Pagination ends on the first empty page: given pages that all hold
/// records but the last, which is empty, the aggregation asks for every one
/// of them, completes on the last with exactly the records of all pages in
/// order, as many as their sizes add up to, and no later outcome changes that.
pub proof fn lemma_pagination_terminates(outcomes: Seq<PageOutcome>, extra: Seq<PageOutcome>)
    requires
        outcomes.len() >= 1,
        forall|i: int| 0 <= i < outcomes.len() - 1 ==> is_full_page(#[trigger] outcomes[i]),
        is_empty_page(outcomes.last()),
    ensures
        forall|j: int| 0 <= j < outcomes.len() ==> #[trigger] tally_all(outcomes.take(j)) is Pending,
        tally_all(outcomes + extra) == Tally::Complete(delivered(outcomes)),
        delivered(outcomes).len() == delivered_count(outcomes),
{
    assert forall|j: int| 0 <= j < outcomes.len() implies #[trigger] tally_all(outcomes.take(j)) is Pending by {
        let pre = outcomes.take(j);
        assert forall|i: int| 0 <= i < pre.len() implies is_full_page(#[trigger] pre[i]) by {
            assert(pre[i] == outcomes[i]);
        }
        lemma_full_pages(pre);
    }
    let rest = outcomes.drop_last();
    assert(rest =~= outcomes.take(outcomes.len() - 1));
    assert forall|i: int| 0 <= i < rest.len() implies is_full_page(#[trigger] rest[i]) by {
        assert(rest[i] == outcomes[i]);
    }
    lemma_full_pages(rest);
    assert(delivered(outcomes) =~= delivered(rest));
    lemma_finished_stays(outcomes, extra);
}

/// A "not found" answer to any page ends the aggregation with
/// `ProfileNotFound`, whatever records earlier pages delivered, and no later
/// outcome changes that.
pub proof fn lemma_not_found_discards(outcomes: Seq<PageOutcome>, extra: Seq<PageOutcome>)
    requires
        outcomes.len() >= 1,
        forall|i: int| 0 <= i < outcomes.len() - 1 ==> is_full_page(#[trigger] outcomes[i]),
        outcomes.last() matches PageOutcome::Status(code) && code == 404,
    ensures
        tally_all(outcomes + extra) == Tally::Aborted(FetchError::ProfileNotFound),
{
    let rest = outcomes.drop_last();
    assert forall|i: int| 0 <= i < rest.len() implies is_full_page(#[trigger] rest[i]) by {
        assert(rest[i] == outcomes[i]);
    }
    lemma_full_pages(rest);
    lemma_finished_stays(outcomes, extra);
}

} // verus!
