//! The search service: the address of a request, the shape of an answer, and
//! how what came back from the network becomes the outcome of the search.

use vstd::prelude::*;
use vstd::utf8::encode_utf8;

use crate::cli::{Query, QueryView};

verus! {

/// Address of the search service.
pub const GOOGLE_API_URL: &'static str = "https://www.googleapis.com/customsearch/v1";

/// Why a search gave no results.
#[derive(Debug, PartialEq, Eq)]
pub enum GoogleError {
    /// The request could not be sent, answered or read; holds the cause.
    RequestFailed(String),
    /// The service answered with an error; holds the body of its answer.
    ApiError(String),
}

/// A [`GoogleError`] as plain text.
pub ghost enum GoogleErrorView {
    RequestFailed(Seq<char>),
    ApiError(Seq<char>),
}

impl GoogleErrorView {
    /// The sentence shown to the user for this error.
    pub open spec fn message(self) -> Seq<char> {
        match self {
            GoogleErrorView::RequestFailed(cause) => "Could not query the Google API: "@ + cause,
            GoogleErrorView::ApiError(body) => "Google API returned an error: "@ + body,
        }
    }
}

impl View for GoogleError {
    type V = GoogleErrorView;

    open spec fn view(&self) -> GoogleErrorView {
        match self {
            GoogleError::RequestFailed(cause) => GoogleErrorView::RequestFailed(cause@),
            GoogleError::ApiError(body) => GoogleErrorView::ApiError(body@),
        }
    }
}

impl GoogleError {
    /// The sentence shown to the user for this error.
    pub fn message(&self) -> (text: String)
        ensures
            text@ == self@.message(),
    {
        match self {
            GoogleError::RequestFailed(cause) => {
                String::from_str("Could not query the Google API: ").concat(cause.as_str())
            },
            GoogleError::ApiError(body) => {
                String::from_str("Google API returned an error: ").concat(body.as_str())
            },
        }
    }
}

/// One result of a search.
#[derive(Debug, PartialEq, Eq)]
pub struct GoogleSearchResult {
    /// Title of the page.
    pub title: String,
    /// Title of the page with markup.
    pub html_title: String,
    /// Address that the result leads to.
    pub link: String,
    /// Short form of the address, for display.
    pub display_link: String,
    /// Excerpt of the page.
    pub snippet: String,
    /// Address of the page, for display.
    pub formatted_url: String,
}

/// A [`GoogleSearchResult`] as plain text.
pub ghost struct GoogleSearchResultView {
    pub title: Seq<char>,
    pub html_title: Seq<char>,
    pub link: Seq<char>,
    pub display_link: Seq<char>,
    pub snippet: Seq<char>,
    pub formatted_url: Seq<char>,
}

impl View for GoogleSearchResult {
    type V = GoogleSearchResultView;

    open spec fn view(&self) -> GoogleSearchResultView {
        GoogleSearchResultView {
            title: self.title@,
            html_title: self.html_title@,
            link: self.link@,
            display_link: self.display_link@,
            snippet: self.snippet@,
            formatted_url: self.formatted_url@,
        }
    }
}

impl Clone for GoogleSearchResult {
    fn clone(&self) -> (copy: Self)
        ensures
            copy == *self,
    {
        GoogleSearchResult {
            title: self.title.clone(),
            html_title: self.html_title.clone(),
            link: self.link.clone(),
            display_link: self.display_link.clone(),
            snippet: self.snippet.clone(),
            formatted_url: self.formatted_url.clone(),
        }
    }
}

/// What the service reports about a search as a whole.
#[derive(Debug, PartialEq, Eq)]
pub struct GoogleSearchInformation {
    /// Number of results found.
    pub total_results: String,
    /// Number of results found, for display.
    pub formatted_total_results: String,
    /// Time the search took, for display.
    pub formatted_search_time: String,
}

/// A [`GoogleSearchInformation`] as plain text.
pub ghost struct GoogleSearchInformationView {
    pub total_results: Seq<char>,
    pub formatted_total_results: Seq<char>,
    pub formatted_search_time: Seq<char>,
}

impl View for GoogleSearchInformation {
    type V = GoogleSearchInformationView;

    open spec fn view(&self) -> GoogleSearchInformationView {
        GoogleSearchInformationView {
            total_results: self.total_results@,
            formatted_total_results: self.formatted_total_results@,
            formatted_search_time: self.formatted_search_time@,
        }
    }
}

impl Clone for GoogleSearchInformation {
    fn clone(&self) -> (copy: Self)
        ensures
            copy == *self,
    {
        GoogleSearchInformation {
            total_results: self.total_results.clone(),
            formatted_total_results: self.formatted_total_results.clone(),
            formatted_search_time: self.formatted_search_time.clone(),
        }
    }
}

/// The answer to a search: a summary and the results in the order given.
#[derive(Debug, PartialEq, Eq)]
pub struct GoogleSearchResponse {
    /// Summary of the search.
    pub search_information: GoogleSearchInformation,
    /// The results; a result is known by its position here.
    pub items: Vec<GoogleSearchResult>,
}

/// A [`GoogleSearchResponse`] as plain text.
pub ghost struct GoogleSearchResponseView {
    pub search_information: GoogleSearchInformationView,
    pub items: Seq<GoogleSearchResultView>,
}

/// The results of `items`, each as plain text.
pub open spec fn items_view(items: Seq<GoogleSearchResult>) -> Seq<GoogleSearchResultView> {
    Seq::new(items.len(), |i: int| items[i]@)
}

impl View for GoogleSearchResponse {
    type V = GoogleSearchResponseView;

    open spec fn view(&self) -> GoogleSearchResponseView {
        GoogleSearchResponseView {
            search_information: self.search_information@,
            items: items_view(self.items@),
        }
    }
}

impl Clone for GoogleSearchResponse {
    fn clone(&self) -> (copy: Self)
        ensures
            copy@ == self@,
    {
        let mut items: Vec<GoogleSearchResult> = Vec::new();
        let mut i: usize = 0;
        while i < self.items.len()
            invariant
                i <= self.items.len(),
                items@.len() == i,
                forall|k: int| 0 <= k < i ==> items@[k] == self.items@[k],
            decreases self.items.len() - i,
        {
            items.push(self.items[i].clone());
            i = i + 1;
        }
        assert(items_view(items@) =~= items_view(self.items@));
        GoogleSearchResponse { search_information: self.search_information.clone(), items }
    }
}

/// Bytes that stand for themselves in a query parameter: ASCII letters,
/// digits, and `-`, `.`, `_`, `~`.
pub open spec fn is_unreserved(byte: u8) -> bool {
    ||| 0x30 <= byte <= 0x39
    ||| 0x41 <= byte <= 0x5a
    ||| 0x61 <= byte <= 0x7a
    ||| byte == 0x2d
    ||| byte == 0x2e
    ||| byte == 0x5f
    ||| byte == 0x7e
}

/// The upper-case hexadecimal digit for a value below sixteen.
pub open spec fn hex_digit(value: u8) -> char {
    if value < 10 {
        ((0x30 + value) as u8) as char
    } else {
        ((0x41 + value - 10) as u8) as char
    }
}

/// One byte as it appears in a query parameter: itself when unreserved,
/// otherwise `%` and its two hexadecimal digits.
pub open spec fn percent_encoded_byte(byte: u8) -> Seq<char> {
    if is_unreserved(byte) {
        seq![byte as char]
    } else {
        seq!['%', hex_digit(byte / 16), hex_digit(byte % 16)]
    }
}

/// A sequence of bytes as it appears in a query parameter.
pub open spec fn percent_encoded(bytes: Seq<u8>) -> Seq<char>
    decreases bytes.len(),
{
    if bytes.len() == 0 {
        Seq::empty()
    } else {
        percent_encoded(bytes.drop_last()) + percent_encoded_byte(bytes.last())
    }
}

/// Characters that an encoded parameter is made of: `%` and the unreserved
/// ASCII characters. None of them ends a parameter or starts another one.
pub open spec fn is_parameter_safe(c: char) -> bool {
    c == '%' || (c as u32 <= 0x7f && is_unreserved(c as u8))
}

/// Whatever the bytes, their encoding holds parameter-safe characters only,
/// and is at least as long as the input and at most three times as long.
pub proof fn lemma_percent_encoded_is_safe(bytes: Seq<u8>)
    ensures
        forall|i: int|
            0 <= i < percent_encoded(bytes).len() ==> is_parameter_safe(
                #[trigger] percent_encoded(bytes)[i],
            ),
        bytes.len() <= percent_encoded(bytes).len() <= 3 * bytes.len(),
    decreases bytes.len(),
{
    if bytes.len() > 0 {
        lemma_percent_encoded_is_safe(bytes.drop_last());
        let head = percent_encoded(bytes.drop_last());
        let tail = percent_encoded_byte(bytes.last());
        assert forall|j: int| 0 <= j < tail.len() implies is_parameter_safe(#[trigger] tail[j]) by {
            lemma_hex_digit_is_safe((bytes.last() / 16) as u8);
            lemma_hex_digit_is_safe((bytes.last() % 16) as u8);
        }
        assert forall|i: int| 0 <= i < (head + tail).len() implies is_parameter_safe(
            #[trigger] (head + tail)[i],
        ) by {
            if i >= head.len() {
                assert((head + tail)[i] == tail[i - head.len()]);
            }
        }
    }
}

/// A hexadecimal digit is an unreserved character.
proof fn lemma_hex_digit_is_safe(value: u8)
    requires
        value < 16,
    ensures
        is_parameter_safe(hex_digit(value)),
{
}

/// Calls `urlencoding::encode`. Believed of it: the result is the UTF-8
/// bytes of `text` in order, each unreserved byte as itself and every other
/// byte as `%` followed by its two upper-case hexadecimal digits.
#[verifier::external_body]
fn encode(text: &str) -> (encoded: String)
    ensures
        encoded@ == percent_encoded(encode_utf8(text@)),
{
    urlencoding::encode(text).into_owned()
}

/// The address that asks the service for `query`: the credentials as given,
/// the search text percent-encoded, and the safe-search setting.
pub open spec fn request_url(query: QueryView) -> Seq<char> {
    GOOGLE_API_URL@ + "?key="@ + query.api_key + "&cx="@ + query.cx + "&q="@ + percent_encoded(
        encode_utf8(query.query),
    ) + "&safe="@ + (if query.safe {
        "active"@
    } else {
        "off"@
    })
}

/// Builds the address that asks the service for `query`.
pub fn build_request_url(query: &Query) -> (url: String)
    ensures
        url@ == request_url(query@),
{
    let encoded_query = encode(query.query.as_str());
    let safe = if query.safe {
        "active"
    } else {
        "off"
    };
    let mut url = String::from_str(GOOGLE_API_URL);
    url.append("?key=");
    url.append(query.api_key.as_str());
    url.append("&cx=");
    url.append(query.cx.as_str());
    url.append("&q=");
    url.append(encoded_query.as_str());
    url.append("&safe=");
    url.append(safe);
    url
}

/// Whether a response status means that the service carried out the request.
pub fn is_success(status: u16) -> (success: bool)
    ensures
        success == (200 <= status < 300),
{
    200 <= status && status < 300
}

/// What came back from the one request that a search makes.
#[derive(Debug, PartialEq, Eq)]
pub enum Reply {
    /// No response arrived; holds the cause.
    Unanswered(String),
    /// A response arrived with a status that is no success. Holds its body,
    /// or the cause for which the body could not be read.
    Rejected(Result<String, String>),
    /// A response arrived with a success status. Holds the answer decoded
    /// from its body, or the cause for which it could not be decoded.
    Accepted(Result<GoogleSearchResponse, String>),
}

/// The outcome of a search whose request came back as `reply`.
pub open spec fn outcome_of(reply: Reply) -> Result<GoogleSearchResponse, GoogleError> {
    match reply {
        Reply::Unanswered(cause) => Err(GoogleError::RequestFailed(cause)),
        Reply::Rejected(Ok(body)) => Err(GoogleError::ApiError(body)),
        Reply::Rejected(Err(cause)) => Err(GoogleError::RequestFailed(cause)),
        Reply::Accepted(Ok(response)) => Ok(response),
        Reply::Accepted(Err(cause)) => Err(GoogleError::RequestFailed(cause)),
    }
}

/// Settles the outcome of a search from what its request came back with.
///
/// The search succeeds exactly when a response with a success status was
/// decoded. A response with another status fails with the body that the
/// service sent; every other failure carries the cause of the transport.
pub fn query(reply: Reply) -> (outcome: Result<GoogleSearchResponse, GoogleError>)
    ensures
        outcome == outcome_of(reply),
{
    match reply {
        Reply::Unanswered(cause) => Err(GoogleError::RequestFailed(cause)),
        Reply::Rejected(Ok(body)) => Err(GoogleError::ApiError(body)),
        Reply::Rejected(Err(cause)) => Err(GoogleError::RequestFailed(cause)),
        Reply::Accepted(Ok(response)) => Ok(response),
        Reply::Accepted(Err(cause)) => Err(GoogleError::RequestFailed(cause)),
    }
}

} // verus!
