//! The web search tool: the search URLs, how SearxNG and DuckDuckGo answers are
//! read, which engine is asked when, and how results are reported.
use vstd::prelude::*;
use vstd::string::*;
use vstd::utf8::encode_utf8;
use crate::json::{json_document, json_get_array, json_get_str, parse_json, JsonValue};
use crate::text::{chars_of, concat2, concat3, copy_str, decimal, decimal_string, string_of, trim, trim_vec};
use crate::tools::{Tool, ToolKind};

verus! {

broadcast use vstd::string::group_string_axioms;

/// Why a search failed.
#[derive(Debug)]
pub enum WebSearchError {
    Request(String),
    Parse(String),
}

impl WebSearchError {
    /// The text the error displays.
    pub open spec fn spec_message(&self) -> Seq<char> {
        match self {
            WebSearchError::Request(err) => "request failed: "@ + err@,
            WebSearchError::Parse(err) => "result parse failed: "@ + err@,
        }
    }

    /// The text the error displays.
    pub fn message(&self) -> (m: String)
        ensures
            m@ == self.spec_message(),
    {
        match self {
            WebSearchError::Request(err) => concat2("request failed: ", err.as_str()),
            WebSearchError::Parse(err) => concat2("result parse failed: ", err.as_str()),
        }
    }
}

/// One search hit.
#[derive(Debug)]
pub struct SearchResult {
    pub title: String,
    pub url: String,
    pub snippet: String,
}

impl View for SearchResult {
    type V = (Seq<char>, Seq<char>, Seq<char>);

    open spec fn view(&self) -> (Seq<char>, Seq<char>, Seq<char>) {
        (self.title@, self.url@, self.snippet@)
    }
}

/// The tool that searches the web.
pub struct WebSearchTool;

/// Whether `b` is left as it is in a URL: ASCII letters, digits, `-`, `.`,
/// `_` and `~`.
pub open spec fn url_safe(b: u8) -> bool {
    (48 <= b <= 57) || (65 <= b <= 90) || (97 <= b <= 122) || b == 45 || b == 46 || b == 95 || b
        == 126
}

/// The uppercase hexadecimal digit `d`.
pub open spec fn upper_hex(d: u8) -> char {
    if d < 10 {
        (48 + d) as char
    } else {
        (55 + d) as char
    }
}

/// The bytes `bytes` percent-encoded: safe bytes as they are, every other byte
/// as `%` and two uppercase hexadecimal digits.
pub open spec fn percent_encode(bytes: Seq<u8>) -> Seq<char>
    decreases bytes.len(),
{
    if bytes.len() == 0 {
        Seq::empty()
    } else {
        let b = bytes.last();
        percent_encode(bytes.drop_last()) + if url_safe(b) {
            seq![b as char]
        } else {
            seq!['%', upper_hex(b / 16), upper_hex(b % 16)]
        }
    }
}

/// `text` percent-encoded for a URL (`urlencoding::encode`): its UTF-8 bytes,
/// each safe one kept and every other written as `%` and two uppercase
/// hexadecimal digits.
#[verifier::external_body]
fn url_encode(text: &str) -> (r: String)
    ensures
        r@ == percent_encode(encode_utf8(text@)),
{
    urlencoding::encode(text).into_owned()
}

/// The text of member `key` of `item` if it is a string, else `default`.
pub open spec fn str_or(item: JsonValue, key: Seq<char>, default: Seq<char>) -> Seq<char> {
    match json_get_str(item, key) {
        Some(s) => s,
        None => default,
    }
}

/// The hit a SearxNG result item describes.
pub open spec fn searx_hit(item: JsonValue) -> (Seq<char>, Seq<char>, Seq<char>) {
    (
        str_or(item, "title"@, "(no title)"@),
        str_or(item, "url"@, "(no url)"@),
        str_or(item, "content"@, "(no summary)"@),
    )
}

/// The hits of a SearxNG answer, or `None` when it has no `results` array.
pub open spec fn searx_hits(doc: JsonValue) -> Option<Seq<(Seq<char>, Seq<char>, Seq<char>)>> {
    match json_get_array(doc, "results"@) {
        Some(items) => Some(items.map_values(|item: JsonValue| searx_hit(item))),
        None => None,
    }
}

/// The hit a DuckDuckGo topic with text describes, if it has text.
pub open spec fn ddg_hit(topic: JsonValue) -> Seq<(Seq<char>, Seq<char>, Seq<char>)> {
    match json_get_str(topic, "Text"@) {
        Some(text) => seq![(text, str_or(topic, "FirstURL"@, "(no url)"@), text)],
        None => Seq::empty(),
    }
}

/// The hits of a list of DuckDuckGo topics that have text.
pub open spec fn ddg_subtopic_hits(topics: Seq<JsonValue>) -> Seq<(Seq<char>, Seq<char>, Seq<char>)>
    decreases topics.len(),
{
    if topics.len() == 0 {
        Seq::empty()
    } else {
        ddg_subtopic_hits(topics.drop_last()) + ddg_hit(topics.last())
    }
}

/// The hits of a DuckDuckGo related topic: the topic itself if it has text,
/// else the subtopics of its `Topics` group that have text.
pub open spec fn ddg_item_hits(item: JsonValue) -> Seq<(Seq<char>, Seq<char>, Seq<char>)> {
    if json_get_str(item, "Text"@) is Some {
        ddg_hit(item)
    } else {
        match json_get_array(item, "Topics"@) {
            Some(topics) => ddg_subtopic_hits(topics),
            None => Seq::empty(),
        }
    }
}

/// The hits of a list of DuckDuckGo related topics, in order.
pub open spec fn ddg_items_hits(items: Seq<JsonValue>) -> Seq<(Seq<char>, Seq<char>, Seq<char>)>
    decreases items.len(),
{
    if items.len() == 0 {
        Seq::empty()
    } else {
        ddg_items_hits(items.drop_last()) + ddg_item_hits(items.last())
    }
}

/// The hits of a DuckDuckGo answer, or `None` when it has no `RelatedTopics`
/// array.
pub open spec fn ddg_hits(doc: JsonValue) -> Option<Seq<(Seq<char>, Seq<char>, Seq<char>)>> {
    match json_get_array(doc, "RelatedTopics"@) {
        Some(items) => Some(ddg_items_hits(items)),
        None => None,
    }
}

/// The line that reports the `i`-th hit (counted from zero).
pub open spec fn search_entry(i: nat, hit: (Seq<char>, Seq<char>, Seq<char>)) -> Seq<char> {
    decimal(i + 1) + ". Title: "@ + hit.0 + "\n   URL: "@ + hit.1 + "\n   Summary: "@ + hit.2
        + "\n\n"@
}

/// The lines that report `hits`, numbered from one.
pub open spec fn search_entries(hits: Seq<(Seq<char>, Seq<char>, Seq<char>)>) -> Seq<char>
    decreases hits.len(),
{
    if hits.len() == 0 {
        Seq::empty()
    } else {
        search_entries(hits.drop_last()) + search_entry((hits.len() - 1) as nat, hits.last())
    }
}

/// The most hits a report shows.
pub open spec fn shown_hits() -> nat {
    5
}

/// The report of the hits `hits` that `source` gave for `query`: at most the
/// first five are shown.
pub open spec fn search_report(
    source: Seq<char>,
    query: Seq<char>,
    hits: Seq<(Seq<char>, Seq<char>, Seq<char>)>,
) -> Seq<char> {
    if hits.len() == 0 {
        "No search results returned from "@ + source + " for query: '"@ + query + "'"@
    } else {
        let shown = if hits.len() < shown_hits() {
            hits.len()
        } else {
            shown_hits()
        };
        "Search results from "@ + source + " for query: '"@ + query + "':\n\n"@ + search_entries(
            hits.take(shown as int),
        )
    }
}

/// The views of `results`.
pub open spec fn hits_of(results: Seq<SearchResult>) -> Seq<(Seq<char>, Seq<char>, Seq<char>)> {
    results.map_values(|r: SearchResult| r@)
}

/// What to do first for a search request.
#[derive(Debug)]
pub enum SearchStart {
    /// Answer at once with this text.
    Answer(String),
    /// Ask SearxNG for this (trimmed) query.
    AskSearx(String),
}

/// What to do after SearxNG answered.
#[derive(Debug)]
pub enum AfterSearx {
    /// Answer with this text.
    Answer(String),
    /// Ask DuckDuckGo; the flag says whether SearxNG failed outright.
    AskDuckDuckGo { searx_failed: bool },
}

impl WebSearchTool {
    /// The SearxNG URL for `query` at `base`.
    pub fn searx_url(base: &str, query: &str) -> (r: String)
        ensures
            r@ == base@ + "/search.json?q="@ + percent_encode(encode_utf8(query@)) + "&format=json"@,
    {
        let encoded = url_encode(query);
        let mut r = concat3(base, "/search.json?q=", encoded.as_str());
        r.append("&format=json");
        r
    }

    /// The DuckDuckGo instant-answer URL for `query`.
    pub fn duckduckgo_url(query: &str) -> (r: String)
        ensures
            r@ == "https://api.duckduckgo.com/?q="@ + percent_encode(encode_utf8(query@))
                + "&format=json&no_redirect=1&skip_disambig=1"@,
    {
        let encoded = url_encode(query);
        concat3(
            "https://api.duckduckgo.com/?q=",
            encoded.as_str(),
            "&format=json&no_redirect=1&skip_disambig=1",
        )
    }

    fn str_or_exec(item: &JsonValue, key: &str, default: &str) -> (r: String)
        ensures
            r@ == str_or(*item, key@, default@),
    {
        match item.get_str(key) {
            Some(s) => s.clone(),
            None => copy_str(default),
        }
    }

    /// The hits of the SearxNG answer `body`: it is read as a JSON document,
    /// whose `results` array holds the hits.
    pub fn parse_searx_results(body: &str) -> (r: Result<Vec<SearchResult>, WebSearchError>)
        ensures
            match json_document(body@) {
                Err(m) => r matches Err(WebSearchError::Parse(e)) && e@ == m,
                Ok(doc) => match searx_hits(doc) {
                    Some(hits) => r matches Ok(results) && hits_of(results@) == hits,
                    None => r matches Err(WebSearchError::Parse(e)) && e@ == "missing results array"@,
                },
            },
    {
        Self::searx_results_from(parse_json(body))
    }

    /// The hits of the DuckDuckGo answer `body`: it is read as a JSON
    /// document, whose `RelatedTopics` array holds the hits, directly or in
    /// groups.
    pub fn parse_duckduckgo_results(body: &str) -> (r: Result<Vec<SearchResult>, WebSearchError>)
        ensures
            match json_document(body@) {
                Err(m) => r matches Err(WebSearchError::Parse(e)) && e@ == m,
                Ok(doc) => match ddg_hits(doc) {
                    Some(hits) => r matches Ok(results) && hits_of(results@) == hits,
                    None => r matches Err(WebSearchError::Parse(e)) && e@
                        == "missing RelatedTopics array"@,
                },
            },
    {
        Self::duckduckgo_results_from(parse_json(body))
    }

    /// The hits of a SearxNG answer, given as the JSON document its body was
    /// read as (or the text of the error that kept it from being read).
    pub fn searx_results_from(document: Result<JsonValue, String>) -> (r: Result<
        Vec<SearchResult>,
        WebSearchError,
    >)
        ensures
            match document {
                Err(m) => r matches Err(WebSearchError::Parse(e)) && e@ == m@,
                Ok(doc) => match searx_hits(doc) {
                    Some(hits) => r matches Ok(results) && hits_of(results@) == hits,
                    None => r matches Err(WebSearchError::Parse(e)) && e@ == "missing results array"@,
                },
            },
    {
        let doc = match document {
            Ok(d) => d,
            Err(m) => return Err(WebSearchError::Parse(m)),
        };
        let items = match doc.get_array("results") {
            Some(items) => items,
            None => return Err(WebSearchError::Parse(copy_str("missing results array"))),
        };
        let mut parsed: Vec<SearchResult> = Vec::new();
        let mut i: usize = 0;
        while i < items.len()
            invariant
                i <= items@.len(),
                hits_of(parsed@) == items@.take(i as int).map_values(
                    |item: JsonValue| searx_hit(item),
                ),
            decreases items@.len() - i,
        {
            let item = &items[i];
            let hit = SearchResult {
                title: Self::str_or_exec(item, "title", "(no title)"),
                url: Self::str_or_exec(item, "url", "(no url)"),
                snippet: Self::str_or_exec(item, "content", "(no summary)"),
            };
            let ghost before = parsed@;
            parsed.push(hit);
            assert(hits_of(parsed@) =~= items@.take(i + 1).map_values(
                |item: JsonValue| searx_hit(item),
            )) by {
                assert(hits_of(parsed@) =~= hits_of(before).push(searx_hit(items@[i as int])));
                assert(items@.take(i + 1) =~= items@.take(i as int).push(items@[i as int]));
            }
            i = i + 1;
        }
        assert(items@.take(items@.len() as int) =~= items@);
        Ok(parsed)
    }

    fn push_ddg_hit(parsed: &mut Vec<SearchResult>, topic: &JsonValue)
        ensures
            hits_of(final(parsed)@) == hits_of(old(parsed)@) + ddg_hit(*topic),
    {
        match topic.get_str("Text") {
            Some(text) => {
                let hit = SearchResult {
                    title: text.clone(),
                    url: Self::str_or_exec(topic, "FirstURL", "(no url)"),
                    snippet: text.clone(),
                };
                let ghost before = parsed@;
                parsed.push(hit);
                assert(hits_of(parsed@) =~= hits_of(before) + ddg_hit(*topic));
            },
            None => {
                assert(hits_of(parsed@) =~= hits_of(parsed@) + ddg_hit(*topic));
            },
        }
    }

    /// The hits of a DuckDuckGo answer, given as the JSON document its body was
    /// read as (or the text of the error that kept it from being read).
    pub fn duckduckgo_results_from(document: Result<JsonValue, String>) -> (r: Result<
        Vec<SearchResult>,
        WebSearchError,
    >)
        ensures
            match document {
                Err(m) => r matches Err(WebSearchError::Parse(e)) && e@ == m@,
                Ok(doc) => match ddg_hits(doc) {
                    Some(hits) => r matches Ok(results) && hits_of(results@) == hits,
                    None => r matches Err(WebSearchError::Parse(e)) && e@
                        == "missing RelatedTopics array"@,
                },
            },
    {
        let doc = match document {
            Ok(d) => d,
            Err(m) => return Err(WebSearchError::Parse(m)),
        };
        let items = match doc.get_array("RelatedTopics") {
            Some(items) => items,
            None => return Err(WebSearchError::Parse(copy_str("missing RelatedTopics array"))),
        };
        let mut parsed: Vec<SearchResult> = Vec::new();
        let mut i: usize = 0;
        while i < items.len()
            invariant
                i <= items@.len(),
                hits_of(parsed@) == ddg_items_hits(items@.take(i as int)),
            decreases items@.len() - i,
        {
            let item = &items[i];
            let ghost before = hits_of(parsed@);
            if item.get_str("Text").is_some() {
                Self::push_ddg_hit(&mut parsed, item);
            } else {
                match item.get_array("Topics") {
                    Some(topics) => {
                        let mut j: usize = 0;
                        while j < topics.len()
                            invariant
                                j <= topics@.len(),
                                hits_of(parsed@) == before + ddg_subtopic_hits(
                                    topics@.take(j as int),
                                ),
                            decreases topics@.len() - j,
                        {
                            let ghost mid = hits_of(parsed@);
                            Self::push_ddg_hit(&mut parsed, &topics[j]);
                            assert(topics@.take(j + 1).drop_last() =~= topics@.take(j as int));
                            assert(hits_of(parsed@) =~= before + ddg_subtopic_hits(
                                topics@.take(j + 1),
                            ));
                            j = j + 1;
                        }
                        assert(topics@.take(topics@.len() as int) =~= topics@);
                    },
                    None => {
                        assert(hits_of(parsed@) =~= before + Seq::empty());
                    },
                }
            }
            proof {
                assert(items@.take(i + 1).drop_last() =~= items@.take(i as int));
                assert(items@.take(i + 1).last() == items@[i as int]);
                assert(hits_of(parsed@) =~= ddg_items_hits(items@.take(i + 1)));
            }
            i = i + 1;
        }
        assert(items@.take(items@.len() as int) =~= items@);
        Ok(parsed)
    }

    /// The report of `results` from `source` for `query`.
    pub fn format_results(source: &str, query: &str, results: &[SearchResult]) -> (r: String)
        ensures
            r@ == search_report(source@, query@, hits_of(results@)),
    {
        if results.len() == 0 {
            let mut r = concat3("No search results returned from ", source, " for query: '");
            r.append(query);
            r.append("'");
            return r;
        }
        let mut output = concat3("Search results from ", source, " for query: '");
        output.append(query);
        output.append("':\n\n");
        let ghost head = output@;
        let shown: usize = if results.len() < 5 {
            results.len()
        } else {
            5
        };
        let ghost hits = hits_of(results@);
        let mut i: usize = 0;
        while i < shown
            invariant
                shown <= results@.len(),
                shown <= 5,
                i <= shown,
                hits == hits_of(results@),
                output@ == head + search_entries(hits.take(i as int)),
            decreases shown - i,
        {
            let item = &results[i];
            let ghost before = output@;
            let n = decimal_string((i as u64) + 1);
            output.append(n.as_str());
            output.append(". Title: ");
            output.append(item.title.as_str());
            output.append("\n   URL: ");
            output.append(item.url.as_str());
            output.append("\n   Summary: ");
            output.append(item.snippet.as_str());
            output.append("\n\n");
            proof {
                assert(hits.take(i + 1).drop_last() =~= hits.take(i as int));
                assert(hits.take(i + 1).last() == hits[i as int]);
                assert(output@ =~= before + search_entry(i as nat, hits[i as int]));
            }
            i = i + 1;
        }
        output
    }

    /// The first move for a request: an empty query is answered with the
    /// usage line; any other is trimmed and sent to SearxNG.
    pub fn start(params: &str) -> (r: SearchStart)
        ensures
            trim(params@).len() == 0 ==> (r matches SearchStart::Answer(a) && a@
                == "Usage: web_search <query>"@),
            trim(params@).len() > 0 ==> (r matches SearchStart::AskSearx(q) && q@ == trim(params@)),
    {
        let v = chars_of(params);
        let t = trim_vec(&v);
        if t.len() == 0 {
            SearchStart::Answer(copy_str("Usage: web_search <query>"))
        } else {
            SearchStart::AskSearx(string_of(&t))
        }
    }

    /// The move after SearxNG answered: report its hits if it found any, else
    /// ask DuckDuckGo.
    pub fn after_searx(query: &str, searx: Result<Vec<SearchResult>, WebSearchError>) -> (r: AfterSearx)
        ensures
            match searx {
                Ok(results) => if results@.len() > 0 {
                    r matches AfterSearx::Answer(a) && a@ == search_report(
                        "SearxNG"@,
                        query@,
                        hits_of(results@),
                    )
                } else {
                    r == (AfterSearx::AskDuckDuckGo { searx_failed: false })
                },
                Err(_) => r == (AfterSearx::AskDuckDuckGo { searx_failed: true }),
            },
    {
        match searx {
            Ok(results) => {
                if results.len() > 0 {
                    AfterSearx::Answer(Self::format_results("SearxNG", query, results.as_slice()))
                } else {
                    AfterSearx::AskDuckDuckGo { searx_failed: false }
                }
            },
            Err(_) => AfterSearx::AskDuckDuckGo { searx_failed: true },
        }
    }

    /// The answer after DuckDuckGo answered: its report, or why no results
    /// are available (`No search results available` when SearxNG had found
    /// nothing, `Search unavailable` when it had failed).
    pub fn after_duckduckgo(
        query: &str,
        searx_failed: bool,
        duckduckgo: Result<Vec<SearchResult>, WebSearchError>,
    ) -> (r: String)
        ensures
            match duckduckgo {
                Ok(results) => r@ == search_report("DuckDuckGo"@, query@, hits_of(results@)),
                Err(e) => if searx_failed {
                    r@ == "Search unavailable: "@ + e.spec_message()
                } else {
                    r@ == "No search results available: "@ + e.spec_message()
                },
            },
    {
        match duckduckgo {
            Ok(results) => Self::format_results("DuckDuckGo", query, results.as_slice()),
            Err(e) => {
                let m = e.message();
                if searx_failed {
                    concat2("Search unavailable: ", m.as_str())
                } else {
                    concat2("No search results available: ", m.as_str())
                }
            },
        }
    }
}

impl Tool for WebSearchTool {
    open spec fn kind_spec(&self) -> ToolKind {
        ToolKind::WebSearch
    }

    fn kind(&self) -> (k: ToolKind) {
        ToolKind::WebSearch
    }
}

} // verus!
