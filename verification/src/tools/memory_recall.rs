//! The memory recall tool: how it reads its parameters and reports the
//! conversations it found.
use vstd::prelude::*;
use vstd::string::*;
use crate::storage::ConversationRecord;
use crate::text::{chars_of, concat2, copy_str, decimal, decimal_string, rsplit_once, rsplit_once_exec, string_of, trim, trim_vec};
use crate::tools::{Tool, ToolKind};

verus! {

broadcast use vstd::string::group_string_axioms;

/// Why a recall failed.
#[derive(Debug)]
pub enum MemoryRecallError {
    Request(String),
    Parse(String),
}

impl MemoryRecallError {
    /// The text the error displays.
    pub open spec fn spec_message(&self) -> Seq<char> {
        match self {
            MemoryRecallError::Request(err) => "request failed: "@ + err@,
            MemoryRecallError::Parse(err) => "parse failed: "@ + err@,
        }
    }

    /// The text the error displays.
    pub fn message(&self) -> (m: String)
        ensures
            m@ == self.spec_message(),
    {
        match self {
            MemoryRecallError::Request(err) => concat2("request failed: ", err.as_str()),
            MemoryRecallError::Parse(err) => concat2("parse failed: ", err.as_str()),
        }
    }
}

/// The tool that searches earlier conversations.
pub struct MemoryRecallTool;

/// The search keyword and optional start date in a recall request: the text
/// after the last ` since:` is the date, the text before it the keyword, both
/// trimmed; without ` since:` the whole trimmed text is the keyword.
pub open spec fn recall_query(params: Seq<char>) -> (Seq<char>, Option<Seq<char>>) {
    let t = trim(params);
    match rsplit_once(t, " since:"@) {
        Some((keyword, since)) => (trim(keyword), Some(trim(since))),
        None => (t, None),
    }
}

/// The line that reports the `i`-th match (counted from zero).
pub open spec fn recall_entry(i: nat, r: ConversationRecord) -> Seq<char> {
    decimal(i + 1) + ". ["@ + r.created_at@ + "] User: "@ + r.user_message@ + "\n   Assistant: "@
        + r.assistant_response@ + "\n\n"@
}

/// The lines that report the matches `rs`, numbered from one.
pub open spec fn recall_entries(rs: Seq<ConversationRecord>) -> Seq<char>
    decreases rs.len(),
{
    if rs.len() == 0 {
        Seq::empty()
    } else {
        recall_entries(rs.drop_last()) + recall_entry((rs.len() - 1) as nat, rs.last())
    }
}

/// The report of a search that found `rs`.
pub open spec fn recall_report(rs: Seq<ConversationRecord>) -> Seq<char> {
    if rs.len() == 0 {
        "No matching conversations found."@
    } else {
        "Found memory recall matches:\n\n"@ + recall_entries(rs)
            + "Return this information to the agent as relevant context."@
    }
}

impl MemoryRecallTool {
    /// Reads the keyword and the optional `since:` date from the parameters.
    pub fn parse_params(params: &str) -> (r: (String, Option<String>))
        ensures
            r.0@ == recall_query(params@).0,
            match recall_query(params@).1 {
                Some(since) => r.1 matches Some(s) && s@ == since,
                None => r.1 is None,
            },
    {
        let v = chars_of(params);
        let t = trim_vec(&v);
        let pat = chars_of(" since:");
        match rsplit_once_exec(&t, &pat) {
            Some((keyword, since)) => {
                let k = trim_vec(&keyword);
                let s = trim_vec(&since);
                (string_of(&k), Some(string_of(&s)))
            },
            None => (string_of(&t), None),
        }
    }

    /// The report of the conversations found.
    pub fn format_results(results: &[ConversationRecord]) -> (r: String)
        ensures
            r@ == recall_report(results@),
    {
        if results.len() == 0 {
            return copy_str("No matching conversations found.");
        }
        let mut output = copy_str("Found memory recall matches:\n\n");
        let mut i: usize = 0;
        while i < results.len()
            invariant
                i <= results@.len(),
                output@ == "Found memory recall matches:\n\n"@ + recall_entries(results@.take(i as int)),
            decreases results@.len() - i,
        {
            let record = &results[i];
            let ghost before = output@;
            let n = decimal_string((i as u64) + 1);
            output.append(n.as_str());
            output.append(". [");
            output.append(record.created_at.as_str());
            output.append("] User: ");
            output.append(record.user_message.as_str());
            output.append("\n   Assistant: ");
            output.append(record.assistant_response.as_str());
            output.append("\n\n");
            proof {
                assert(results@.take(i + 1).drop_last() =~= results@.take(i as int));
                assert(results@.take(i + 1).last() == results@[i as int]);
                assert(output@ =~= before + recall_entry(i as nat, results@[i as int]));
            }
            i = i + 1;
        }
        assert(results@.take(results@.len() as int) =~= results@);
        output.append("Return this information to the agent as relevant context.");
        output
    }

    /// What the tool answers: the report of the search, or the error explained.
    pub fn render(outcome: Result<Vec<ConversationRecord>, MemoryRecallError>) -> (r: String)
        ensures
            match outcome {
                Ok(rs) => r@ == recall_report(rs@),
                Err(e) => r@ == "MemoryRecallTool error: "@ + e.spec_message(),
            },
    {
        match outcome {
            Ok(rs) => Self::format_results(rs.as_slice()),
            Err(e) => {
                let m = e.message();
                concat2("MemoryRecallTool error: ", m.as_str())
            },
        }
    }
}

impl Tool for MemoryRecallTool {
    open spec fn kind_spec(&self) -> ToolKind {
        ToolKind::MemoryRecall
    }

    fn kind(&self) -> (k: ToolKind) {
        ToolKind::MemoryRecall
    }
}

} // verus!
