//! The requests to the search: what is asked for and how much of it.

use vstd::prelude::*;
use crate::errors::ErrorKind;
use crate::responses::AutocompleteResponse;

verus! {

/// Number of results where none is asked for.
pub const DEFAULT_SEARCH_LIMIT: usize = 10;

/// A text without the white space at its ends, as the standard library
/// takes it off.
pub uninterp spec fn trimmed_of(text: Seq<char>) -> Seq<char>;

/// Whether nothing but white space stands in a text.
pub open spec fn blank(text: Seq<char>) -> bool {
    trimmed_of(text).len() == 0
}

/// The number that a text stands for as the standard library reads it;
/// `None` where it stands for none that fits.
pub uninterp spec fn parsed_usize_of(text: Seq<char>) -> Option<usize>;

/// Calls `str::trim`. The result depends on the text alone; the contract
/// gives it its name and claims nothing else of it.
#[verifier::external_body]
fn trim(text: &str) -> (rest: &str)
    ensures
        rest@ == trimmed_of(text@),
{
    text.trim()
}

/// Calls `str::parse` for a `usize` and drops the error. The result
/// depends on the text alone; the contract gives it its name and claims
/// nothing else of it.
#[verifier::external_body]
fn parse_usize(text: &str) -> (number: Option<usize>)
    ensures
        number == parsed_usize_of(text@),
{
    text.parse::<usize>().ok()
}

/// A request to the search.
#[derive(Debug, PartialEq, Eq)]
pub struct SearchRequest {
    pub query: String,
    pub limit: usize,
}

/// Why a request to the search cannot be served.
#[derive(Clone, Copy, Debug, PartialEq, Eq, Structural)]
pub enum QueryError {
    /// No query was given, or one of white space only.
    MissingQuery,
}

impl QueryError {
    pub open spec fn kind_of(self) -> ErrorKind {
        ErrorKind::InvalidInput
    }

    pub open spec fn message_of(self) -> Seq<char> {
        "Missing or empty query parameter"@
    }

    pub fn kind(&self) -> (kind: ErrorKind)
        ensures
            kind == self.kind_of(),
    {
        ErrorKind::InvalidInput
    }

    pub fn message(&self) -> (text: String)
        ensures
            text@ == self.message_of(),
    {
        String::from_str("Missing or empty query parameter")
    }
}

/// The number of results for a limit that was read as `parsed`.
pub open spec fn limit_of(parsed: Option<usize>) -> usize {
    match parsed {
        Some(limit) => limit,
        None => DEFAULT_SEARCH_LIMIT,
    }
}

/// The number of results for a limit that was read as `parsed`: ten where
/// none was given or what was given is no number.
pub fn limit_or_default(parsed: Option<usize>) -> (limit: usize)
    ensures
        limit == limit_of(parsed),
{
    match parsed {
        Some(limit) => limit,
        None => DEFAULT_SEARCH_LIMIT,
    }
}

/// The request that the query and the limit of a caller come to, given
/// whether the query is blank and what the limit was read as.
pub fn request_from(query: Option<&str>, query_is_blank: bool, parsed_limit: Option<usize>) -> (request:
    Result<SearchRequest, QueryError>)
    ensures
        match request {
            Ok(request) => query matches Some(text) && !query_is_blank && request.query@ == text@
                && request.limit == limit_of(parsed_limit),
            Err(why) => why == QueryError::MissingQuery && (query is None || query_is_blank),
        },
{
    match query {
        Some(text) => {
            if query_is_blank {
                Err(QueryError::MissingQuery)
            } else {
                Ok(SearchRequest { query: String::from_str(text), limit: limit_or_default(parsed_limit) })
            }
        },
        None => Err(QueryError::MissingQuery),
    }
}

/// The request that the query and the limit of a caller come to. The query
/// is passed on as it was given.
pub fn search_request(query: Option<&str>, limit: Option<&str>) -> (request: Result<
    SearchRequest,
    QueryError,
>)
    ensures
        match request {
            Ok(request) => query matches Some(text) && !blank(text@) && request.query@ == text@
                && request.limit == limit_of(
                match limit {
                    Some(given) => parsed_usize_of(given@),
                    None => None,
                },
            ),
            Err(why) => why == QueryError::MissingQuery && (query matches Some(text) ==> blank(
                text@,
            )),
        },
{
    let query_is_blank = match query {
        Some(text) => trim(text).is_empty(),
        None => true,
    };
    let parsed_limit = match limit {
        Some(given) => parse_usize(given),
        None => None,
    };
    request_from(query, query_is_blank, parsed_limit)
}

/// The field that a hit is said to have matched in.
pub open spec fn matched_field_of(category_matched: bool) -> Seq<char> {
    if category_matched {
        "category"@
    } else {
        "name"@
    }
}

/// Names the field that a hit matched in: the category where the category
/// is marked, else the name.
pub fn matched_field(category_matched: bool) -> (field: String)
    ensures
        field@ == matched_field_of(category_matched),
{
    if category_matched {
        String::from_str("category")
    } else {
        String::from_str("name")
    }
}

impl AutocompleteResponse {
    /// The suggestion for a hit.
    pub fn new(item_id: &str, item_name: &str, category_matched: bool) -> (suggestion: Self)
        ensures
            suggestion.item_id@ == item_id@,
            suggestion.item_name@ == item_name@,
            suggestion.matched_field@ == matched_field_of(category_matched),
    {
        AutocompleteResponse {
            item_id: String::from_str(item_id),
            item_name: String::from_str(item_name),
            matched_field: matched_field(category_matched),
        }
    }
}

} // verus!
