//! The homelab API tool: which requests it understands and how it reports
//! their answers.
use vstd::prelude::*;
use vstd::string::*;
use crate::text::{chars_of, concat2, copy_str, split_whitespace, split_ws, str_eq, string_of_range, trim, trim_str};
use crate::tools::{Tool, ToolKind};

verus! {

broadcast use vstd::string::group_string_axioms;

/// Why a homelab request was not made or failed.
#[derive(Debug)]
pub enum HomelabApiError {
    Request(String),
    Configuration(String),
}

impl HomelabApiError {
    /// The text the error displays.
    pub open spec fn spec_message(&self) -> Seq<char> {
        match self {
            HomelabApiError::Request(err) => "request failed: "@ + err@,
            HomelabApiError::Configuration(err) => "configuration error: "@ + err@,
        }
    }

    /// The text the error displays.
    pub fn message(&self) -> (m: String)
        ensures
            m@ == self.spec_message(),
    {
        match self {
            HomelabApiError::Request(err) => concat2("request failed: ", err.as_str()),
            HomelabApiError::Configuration(err) => concat2("configuration error: ", err.as_str()),
        }
    }
}

/// The tool that queries homelab services (Argo CD, Grafana, or any path).
pub struct HomelabApiTool;

/// The service and API path a request names, or the configuration error that
/// rejects it.
pub open spec fn homelab_route(params: Seq<char>) -> Result<(Seq<char>, Seq<char>), Seq<char>> {
    let words = split_ws(trim(params));
    if words.len() >= 1 && words[0] == "argocd"@ {
        if words.len() >= 2 && words[1] == "sync_status"@ {
            if words.len() >= 3 {
                Ok(("argocd"@, "/api/v1/applications/"@ + words[2]))
            } else {
                Err("argocd sync_status requires application name"@)
            }
        } else {
            Err("Unsupported argocd action, expected: argocd sync_status <app>"@)
        }
    } else if words.len() >= 1 && words[0] == "grafana"@ {
        if words.len() >= 2 && words[1] == "health"@ {
            Ok(("grafana"@, "/api/health"@))
        } else {
            Err("Unsupported grafana action, expected: grafana health"@)
        }
    } else if words.len() >= 1 && words[0].len() > 0 && words[0][0] == '/' {
        Ok(("generic"@, words[0]))
    } else {
        Err("Unsupported homelab endpoint. Use argocd sync_status <app> or grafana health"@)
    }
}

/// Every route a request names is on one of the three services and begins
/// with `/`; a generic route is the request's first word. (Every rejection is
/// a configuration error: `parse_params` says so.)
pub proof fn lemma_homelab_route_shape(params: Seq<char>)
    ensures
        homelab_route(params) matches Ok((service, path)) ==> {
            &&& (service == "argocd"@ || service == "grafana"@ || service == "generic"@)
            &&& path.len() > 0 && path[0] == '/'
            &&& service == "generic"@ ==> path == split_ws(trim(params))[0]
        },
{
    reveal_strlit("argocd");
    reveal_strlit("grafana");
    reveal_strlit("generic");
    reveal_strlit("/api/v1/applications/");
    reveal_strlit("/api/health");
    let words = split_ws(trim(params));
    assert("argocd"@ != "generic"@) by {
        assert("argocd"@[0] != "generic"@[0]);
    }
    assert("grafana"@ != "generic"@) by {
        assert("grafana"@[1] != "generic"@[1]);
    }
    if words.len() >= 3 {
        assert(("/api/v1/applications/"@ + words[2])[0] == '/');
    }
}

/// `s` without its trailing `/` characters (`str::trim_end_matches('/')`).
pub open spec fn trim_trailing_slashes(s: Seq<char>) -> Seq<char>
    decreases s.len(),
{
    if s.len() > 0 && s.last() == '/' {
        trim_trailing_slashes(s.drop_last())
    } else {
        s
    }
}

/// The JSON text `body` printed again by serde_json's pretty printer, or
/// nothing when `body` is not JSON.
pub uninterp spec fn pretty_json(body: Seq<char>) -> Option<Seq<char>>;

/// Reads `body` as a JSON value (`serde_json::from_str`) and prints that value
/// with serde_json's pretty printer (`serde_json::to_string_pretty`); nothing
/// when the body is not JSON. The result is named, not spelled out: the
/// printer's layout is serde_json's.
#[verifier::external_body]
fn json_pretty(body: &str) -> (r: Option<String>)
    ensures
        match r {
            Some(s) => pretty_json(body@) == Some(s@),
            None => pretty_json(body@) is None,
        },
{
    match serde_json::from_str::<serde_json::Value>(body) {
        Ok(value) => serde_json::to_string_pretty(&value).ok(),
        Err(_) => None,
    }
}

/// Whether an HTTP status code is a success (`StatusCode::is_success`: 200 to
/// 299).
pub open spec fn success_status(code: u16) -> bool {
    200 <= code && code < 300
}

/// The body as a report shows it: printed again when it is JSON, else as it
/// came.
pub open spec fn shown_body(body: Seq<char>, pretty: Option<Seq<char>>) -> Seq<char> {
    match pretty {
        Some(p) => p,
        None => body,
    }
}

/// What a homelab answer with status code `code` (shown as `status`) and body
/// `body` from `url` comes to, when the body, printed again, is `pretty`.
pub open spec fn endpoint_result(
    url: Seq<char>,
    code: u16,
    status: Seq<char>,
    body: Seq<char>,
    pretty: Option<Seq<char>>,
) -> Result<Seq<char>, Seq<char>> {
    if success_status(code) {
        Ok("Homelab API response ("@ + status + "):\n"@ + shown_body(body, pretty))
    } else {
        Err(url + " returned status "@ + status + ": "@ + body)
    }
}

impl HomelabApiTool {
    /// Reads the service and API path from a request such as
    /// `argocd sync_status <app>`, `grafana health` or `/some/path`.
    pub fn parse_params(params: &str) -> (r: Result<(String, String), HomelabApiError>)
        ensures
            match homelab_route(params@) {
                Ok((service, path)) => r matches Ok((s, p)) && s@ == service && p@ == path,
                Err(msg) => r matches Err(HomelabApiError::Configuration(m)) && m@ == msg,
            },
    {
        let trimmed = trim_str(params);
        let words = split_whitespace(trimmed.as_str());
        let ghost ws = split_ws(trim(params@));
        assert(ws.len() == words@.len());
        assert(forall|i: int| 0 <= i < ws.len() ==> ws[i] == (#[trigger] words@[i])@);
        if words.len() >= 1 && str_eq(words[0].as_str(), "argocd") {
            if words.len() >= 2 && str_eq(words[1].as_str(), "sync_status") {
                if words.len() >= 3 {
                    Ok((copy_str("argocd"), concat2("/api/v1/applications/", words[2].as_str())))
                } else {
                    Err(
                        HomelabApiError::Configuration(
                            copy_str("argocd sync_status requires application name"),
                        ),
                    )
                }
            } else {
                Err(
                    HomelabApiError::Configuration(
                        copy_str("Unsupported argocd action, expected: argocd sync_status <app>"),
                    ),
                )
            }
        } else if words.len() >= 1 && str_eq(words[0].as_str(), "grafana") {
            if words.len() >= 2 && str_eq(words[1].as_str(), "health") {
                Ok((copy_str("grafana"), copy_str("/api/health")))
            } else {
                Err(
                    HomelabApiError::Configuration(
                        copy_str("Unsupported grafana action, expected: grafana health"),
                    ),
                )
            }
        } else if words.len() >= 1 && Self::starts_with_slash(words[0].as_str()) {
            Ok((copy_str("generic"), words[0].clone()))
        } else {
            Err(
                HomelabApiError::Configuration(
                    copy_str(
                        "Unsupported homelab endpoint. Use argocd sync_status <app> or grafana health",
                    ),
                ),
            )
        }
    }

    /// Whether `s` begins with `/`.
    pub fn starts_with_slash(s: &str) -> (b: bool)
        ensures
            b == (s@.len() > 0 && s@[0] == '/'),
    {
        let v = chars_of(s);
        v.len() > 0 && v[0] == '/'
    }

    /// The URL of `path` on the homelab at `base_url`: the base without its
    /// trailing slashes, then the path.
    pub fn endpoint_url(base_url: &str, path: &str) -> (r: String)
        ensures
            r@ == trim_trailing_slashes(base_url@) + path@,
    {
        let v = chars_of(base_url);
        let mut end = v.len();
        assert(v@.subrange(0, end as int) =~= v@);
        while end > 0 && v[end - 1] == '/'
            invariant
                end <= v.len(),
                v@ == base_url@,
                trim_trailing_slashes(base_url@) == trim_trailing_slashes(v@.subrange(0, end as int)),
            decreases end,
        {
            assert(v@.subrange(0, end as int).drop_last() =~= v@.subrange(0, end - 1));
            end = end - 1;
        }
        let mut r = string_of_range(&v, 0, end);
        r.append(path);
        r
    }

    /// The report of a successful answer with status `status` (as HTTP shows
    /// it, such as `200 OK`) and body `body`.
    pub fn success_report(status: &str, body: &str) -> (r: String)
        ensures
            r@ == "Homelab API response ("@ + status@ + "):\n"@ + body@,
    {
        let mut r = copy_str("Homelab API response (");
        r.append(status);
        r.append("):\n");
        r.append(body);
        r
    }

    /// The error for an answer whose status is not a success.
    pub fn failure_error(url: &str, status: &str, body: &str) -> (e: HomelabApiError)
        ensures
            e matches HomelabApiError::Request(m) && m@ == url@ + " returned status "@ + status@
                + ": "@ + body@,
    {
        let mut m = copy_str(url);
        m.append(" returned status ");
        m.append(status);
        m.append(": ");
        m.append(body);
        HomelabApiError::Request(m)
    }

    /// What a homelab answer comes to, given the body printed again as
    /// `pretty` (or nothing when it is not JSON): a success status gives the
    /// report, any other the request error.
    pub fn outcome_with(url: &str, code: u16, status: &str, body: &str, pretty: Option<String>) -> (r:
        Result<String, HomelabApiError>)
        ensures
            match endpoint_result(
                url@,
                code,
                status@,
                body@,
                match pretty {
                    Some(p) => Some(p@),
                    None => None,
                },
            ) {
                Ok(out) => r matches Ok(o) && o@ == out,
                Err(msg) => r matches Err(HomelabApiError::Request(m)) && m@ == msg,
            },
    {
        if 200 <= code && code < 300 {
            match pretty {
                Some(p) => Ok(Self::success_report(status, p.as_str())),
                None => Ok(Self::success_report(status, body)),
            }
        } else {
            Err(Self::failure_error(url, status, body))
        }
    }

    /// What the answer from `url` with status code `code` (shown as `status`)
    /// and body `body` comes to: a success status gives the report of the
    /// body, printed again when it is JSON; any other gives the request error.
    pub fn endpoint_outcome(url: &str, code: u16, status: &str, body: &str) -> (r: Result<
        String,
        HomelabApiError,
    >)
        ensures
            match endpoint_result(url@, code, status@, body@, pretty_json(body@)) {
                Ok(out) => r matches Ok(o) && o@ == out,
                Err(msg) => r matches Err(HomelabApiError::Request(m)) && m@ == msg,
            },
    {
        let pretty = if 200 <= code && code < 300 {
            json_pretty(body)
        } else {
            None
        };
        Self::outcome_with(url, code, status, body, pretty)
    }

    /// What the tool answers: the report, or the error explained.
    pub fn render(outcome: Result<String, HomelabApiError>) -> (r: String)
        ensures
            match outcome {
                Ok(out) => r@ == out@,
                Err(e) => r@ == "HomelabApiTool error: "@ + e.spec_message(),
            },
    {
        match outcome {
            Ok(out) => out,
            Err(e) => {
                let m = e.message();
                concat2("HomelabApiTool error: ", m.as_str())
            },
        }
    }
}

impl Tool for HomelabApiTool {
    open spec fn kind_spec(&self) -> ToolKind {
        ToolKind::HomelabApi
    }

    fn kind(&self) -> (k: ToolKind) {
        ToolKind::HomelabApi
    }
}

} // verus!
