//! The web search tool: what it takes and gives.

use crate::mcp::json::{Json, JsonValue};
use vstd::prelude::*;
use vstd::string::{StrSliceExecFns, StringExecFns};

verus! {

/// Arguments of the web search tool.
#[derive(Debug, Clone)]
pub struct WebSearchArgs {
    pub query: String,
    pub max_results: usize,
}

/// The number of results that is asked for where none is given.
pub fn default_max_results() -> (r: usize)
    ensures
        r == 5,
{
    5
}

/// One search result.
#[derive(Debug, Clone)]
pub struct WebSearchResult {
    pub title: String,
    pub url: String,
    pub snippet: String,
}

/// The results of a search.
#[derive(Debug, Clone)]
pub struct WebSearchOutput {
    pub results: Vec<WebSearchResult>,
    pub query: String,
}

/// The web search tool.
#[derive(Debug, Clone, Copy)]
pub struct WebSearchTool;

/// What `urlencoding::encode` makes of a text: every byte of it but
/// letters, digits and `-`, `_`, `.`, `~` written as `%` and two hex
/// digits.
pub uninterp spec fn percent_encoded(text: Seq<char>) -> Seq<char>;

/// `urlencoding::encode`: the text with all but the unreserved characters
/// percent-encoded.
#[verifier::external_body]
fn url_encode(text: &str) -> (r: String)
    ensures
        r@ == percent_encoded(text@),
{
    urlencoding::encode(text).into_owned()
}

pub ghost struct ResultValue {
    pub title: Seq<char>,
    pub url: Seq<char>,
    pub snippet: Seq<char>,
}

impl View for WebSearchResult {
    type V = ResultValue;

    open spec fn view(&self) -> ResultValue {
        ResultValue { title: self.title@, url: self.url@, snippet: self.snippet@ }
    }
}

/// The values of a list of results, in order.
pub open spec fn results_of(items: Seq<WebSearchResult>) -> Seq<ResultValue> {
    Seq::new(items.len(), |i: int| items[i]@)
}

/// The string member `key` of a document.
pub open spec fn text_member(doc: JsonValue, key: Seq<char>) -> Option<Seq<char>> {
    match doc.member(key) {
        Some(v) => v.text(),
        None => None,
    }
}

/// The result that the abstract of an answer gives: one with a text that is
/// not empty and an address, under the name of its source.
pub open spec fn abstract_result(answer: JsonValue) -> Option<ResultValue> {
    match (text_member(answer, "Abstract"@), text_member(answer, "AbstractURL"@)) {
        (Some(text), Some(url)) => if text.len() > 0 {
            Some(
                ResultValue {
                    title: match text_member(answer, "AbstractSource"@) {
                        Some(source) => source,
                        None => "DuckDuckGo"@,
                    },
                    url,
                    snippet: text,
                },
            )
        } else {
            None
        },
        _ => None,
    }
}

/// The result that a related topic gives: one with a text and an address.
pub open spec fn topic_result(topic: JsonValue) -> Option<ResultValue> {
    match (text_member(topic, "Text"@), text_member(topic, "FirstURL"@)) {
        (Some(text), Some(url)) => Some(
            ResultValue { title: "Related Topic"@, url, snippet: text },
        ),
        _ => None,
    }
}

/// The results that the first `n` topics give, in order.
pub open spec fn topic_results(topics: Seq<JsonValue>, n: nat) -> Seq<ResultValue>
    decreases n,
{
    if n == 0 || n > topics.len() {
        Seq::empty()
    } else {
        match topic_result(topics[n - 1]) {
            Some(r) => topic_results(topics, (n - 1) as nat).push(r),
            None => topic_results(topics, (n - 1) as nat),
        }
    }
}

/// The address at which a query can be searched by hand.
pub open spec fn manual_url(query: Seq<char>) -> Seq<char> {
    "https://duckduckgo.com/?q="@ + percent_encoded(query)
}

/// The result that stands in where an answer gives none.
pub open spec fn fallback_result(query: Seq<char>) -> ResultValue {
    ResultValue {
        title: "Search Query"@,
        url: manual_url(query),
        snippet: "No instant results found for '"@ + query
            + "'. You can search manually at the provided URL."@,
    }
}

/// The results that an answer gives for a query: its abstract, then its
/// related topics. Of the topics only the first few are looked at, as many
/// as `max_results` leaves beside the abstract. Where that gives nothing,
/// the fallback is the one result.
pub open spec fn search_results(answer: JsonValue, query: Seq<char>, max_results: usize) -> Seq<
    ResultValue,
> {
    let first = match abstract_result(answer) {
        Some(r) => seq![r],
        None => Seq::empty(),
    };
    let room = if max_results >= first.len() {
        (max_results - first.len()) as nat
    } else {
        0nat
    };
    let related = match answer.member("RelatedTopics"@) {
        Some(JsonValue::Array(topics)) => topic_results(
            topics,
            if room <= topics.len() {
                room
            } else {
                topics.len()
            },
        ),
        _ => Seq::empty(),
    };
    let found = first + related;
    if found.len() == 0 {
        seq![fallback_result(query)]
    } else {
        found
    }
}

impl WebSearchTool {
    /// The name under which the tool is offered.
    pub const NAME: &'static str = "web_search";

    /// The tool.
    pub fn new() -> Self {
        WebSearchTool
    }

    /// The address that answers a query.
    pub fn search_url(query: &str) -> (r: String)
        ensures
            r@ == "https://api.duckduckgo.com/?q="@ + percent_encoded(query@)
                + "&format=json&no_html=1&skip_disambig=1"@,
    {
        let mut url = "https://api.duckduckgo.com/?q=".to_string();
        url.append(url_encode(query).as_str());
        url.append("&format=json&no_html=1&skip_disambig=1");
        url
    }

    /// The string member `key` of a document.
    fn text_of<'a>(doc: &'a Json, key: &str) -> (r: Option<&'a str>)
        ensures
            match r {
                Some(t) => text_member(doc@, key@) == Some(t@),
                None => text_member(doc@, key@).is_none(),
            },
    {
        match doc.get(key) {
            Some(v) => v.as_str(),
            None => None,
        }
    }

    /// The results that an answer gives for a query.
    pub fn results(answer: &Json, query: &str, max_results: usize) -> (r: Vec<WebSearchResult>)
        ensures
            results_of(r@) == search_results(answer@, query@, max_results),
    {
        let mut results: Vec<WebSearchResult> = Vec::new();
        match (Self::text_of(answer, "Abstract"), Self::text_of(answer, "AbstractURL")) {
            (Some(text), Some(url)) => {
                if text.unicode_len() > 0 {
                    let title = match Self::text_of(answer, "AbstractSource") {
                        Some(source) => source,
                        None => "DuckDuckGo",
                    };
                    results.push(
                        WebSearchResult {
                            title: title.to_string(),
                            url: url.to_string(),
                            snippet: text.to_string(),
                        },
                    );
                }
            },
            _ => {},
        }
        let ghost first = results_of(results@);
        assert(first =~= match abstract_result(answer@) {
            Some(r) => seq![r],
            None => Seq::empty(),
        });
        let room = if max_results >= results.len() {
            max_results - results.len()
        } else {
            0
        };
        let topics = match answer.get("RelatedTopics") {
            Some(t) => t.as_array(),
            None => None,
        };
        match topics {
            Some(topics) => {
                proof {
                    crate::mcp::json::lemma_array_view(*topics);
                }
                let ghost values = crate::mcp::json::values_of(topics@);
                let taken = if room <= topics.len() {
                    room
                } else {
                    topics.len()
                };
                let mut i: usize = 0;
                assert(results_of(results@) =~= first + topic_results(values, 0));
                while i < taken
                    invariant
                        i <= taken <= topics.len(),
                        values == crate::mcp::json::values_of(topics@),
                        results_of(results@) == first + topic_results(values, i as nat),
                    decreases taken - i,
                {
                    let ghost before = results_of(results@);
                    match (
                        Self::text_of(&topics[i], "Text"),
                        Self::text_of(&topics[i], "FirstURL"),
                    ) {
                        (Some(text), Some(url)) => {
                            results.push(
                                WebSearchResult {
                                    title: "Related Topic".to_string(),
                                    url: url.to_string(),
                                    snippet: text.to_string(),
                                },
                            );
                            assert(results_of(results@) =~= before.push(
                                topic_result(values[i as int])->Some_0,
                            ));
                        },
                        _ => {},
                    }
                    i += 1;
                    assert(results_of(results@) =~= first + topic_results(values, i as nat));
                }
            },
            None => {
                assert(results_of(results@) =~= first + Seq::<ResultValue>::empty());
            },
        }
        if results.len() == 0 {
            let mut url = "https://duckduckgo.com/?q=".to_string();
            url.append(url_encode(query).as_str());
            let mut snippet = "No instant results found for '".to_string();
            snippet.append(query);
            snippet.append("'. You can search manually at the provided URL.");
            results.push(WebSearchResult { title: "Search Query".to_string(), url, snippet });
            assert(results_of(results@) =~= seq![fallback_result(query@)]);
        }
        results
    }
}

} // verus!
