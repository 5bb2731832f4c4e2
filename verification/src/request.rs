//! The texts of a request and of the report of a failed one.

use vstd::prelude::*;

verus! {

/// The version of the interface that every request names.
pub const NOTION_VERSION: &'static str = "2022-06-28";

/// The address at which databases are searched.
pub const SEARCH_URL: &'static str = "https://api.notion.com/v1/search";

/// The largest number of letters of an answer that a report quotes.
pub const SNIPPET_LEN: usize = 500;

/// The address at which the database `database_id` is queried.
pub open spec fn query_url_of(database_id: Seq<char>) -> Seq<char> {
    "https://api.notion.com/v1/databases/"@ + database_id + "/query"@
}

/// The address of the page `page_id`.
pub open spec fn page_url_of(page_id: Seq<char>) -> Seq<char> {
    "https://api.notion.com/v1/pages/"@ + page_id
}

/// The authorization that goes with `token`.
pub open spec fn bearer_of(token: Seq<char>) -> Seq<char> {
    "Bearer "@ + token
}

/// The first `SNIPPET_LEN` letters of an answer, or all of a shorter one.
pub open spec fn snippet_of(body: Seq<char>) -> Seq<char> {
    if body.len() <= SNIPPET_LEN {
        body
    } else {
        body.take(SNIPPET_LEN as int)
    }
}

/// The report of a request that the service refused.
pub open spec fn api_error_of(body: Seq<char>) -> Seq<char> {
    "Notion API Error: "@ + body
}

/// The report of an answer that could not be read.
pub open spec fn parse_error_of(detail: Seq<char>, body: Seq<char>) -> Seq<char> {
    "JSON Parse Error: "@ + detail + ". Snippet: "@ + snippet_of(body)
}

/// The address at which the database `database_id` is queried.
pub fn query_url(database_id: &str) -> (url: String)
    ensures
        url@ == query_url_of(database_id@),
{
    let mut url = "https://api.notion.com/v1/databases/".to_owned();
    url.append(database_id);
    url.append("/query");
    url
}

/// The address of the page `page_id`.
pub fn page_url(page_id: &str) -> (url: String)
    ensures
        url@ == page_url_of(page_id@),
{
    let mut url = "https://api.notion.com/v1/pages/".to_owned();
    url.append(page_id);
    url
}

/// The authorization that goes with `token`.
pub fn bearer(token: &str) -> (header: String)
    ensures
        header@ == bearer_of(token@),
{
    let mut header = "Bearer ".to_owned();
    header.append(token);
    header
}

/// The first `SNIPPET_LEN` letters of `body`, or all of a shorter one.
pub fn snippet(body: &str) -> (part: &str)
    ensures
        part@ == snippet_of(body@),
{
    let len = body.unicode_len();
    if len <= SNIPPET_LEN {
        body
    } else {
        body.substring_char(0, SNIPPET_LEN)
    }
}

/// The report of a request that the service refused with the answer `body`.
pub fn api_error_message(body: &str) -> (message: String)
    ensures
        message@ == api_error_of(body@),
{
    let mut message = "Notion API Error: ".to_owned();
    message.append(body);
    message
}

/// The report of an answer `body` that could not be read, for the reason
/// that `detail` gives.
pub fn parse_error_message(detail: &str, body: &str) -> (message: String)
    ensures
        message@ == parse_error_of(detail@, body@),
{
    let mut message = "JSON Parse Error: ".to_owned();
    message.append(detail);
    message.append(". Snippet: ");
    message.append(snippet(body));
    message
}

} // verus!
