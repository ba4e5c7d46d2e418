//! The code helper tool: how it reads its parameters and what it asks the model.
use vstd::prelude::*;
use vstd::string::*;
use crate::text::{chars_of, concat2, lemma_find_from_first, occurs_at, split_once, split_once_exec, string_of, trim, trim_vec};
use crate::tools::{Tool, ToolKind};

verus! {

broadcast use vstd::string::group_string_axioms;

/// Why the code helper could not answer.
#[derive(Debug)]
pub enum CodeHelperError {
    Request(String),
    Parse(String),
}

impl CodeHelperError {
    /// The text the error displays.
    pub open spec fn spec_message(&self) -> Seq<char> {
        match self {
            CodeHelperError::Request(err) => "request failed: "@ + err@,
            CodeHelperError::Parse(err) => "parse failed: "@ + err@,
        }
    }

    /// The text the error displays.
    pub fn message(&self) -> (m: String)
        ensures
            m@ == self.spec_message(),
    {
        match self {
            CodeHelperError::Request(err) => concat2("request failed: ", err.as_str()),
            CodeHelperError::Parse(err) => concat2("parse failed: ", err.as_str()),
        }
    }
}

/// The tool that asks the local model to write or refactor code.
pub struct CodeHelperTool;

/// The instruction and the code in a request: the text before the first blank
/// line is the instruction, the rest the code, both trimmed; without a blank
/// line the whole trimmed text is the instruction and there is no code.
pub open spec fn code_request(params: Seq<char>) -> (Seq<char>, Seq<char>) {
    match split_once(params, "\n\n"@) {
        Some((instruction, code)) => (trim(instruction), trim(code)),
        None => (trim(params), Seq::empty()),
    }
}

/// The prompt sent to the model for `instruction` and `code`.
pub open spec fn code_prompt(instruction: Seq<char>, code: Seq<char>) -> Seq<char> {
    if code.len() == 0 {
        "You are a helpful code assistant.\n\nInstruction: "@ + instruction
            + "\n\nProvide a code-focused response with the generated or refactored code and a short explanation."@
    } else {
        "You are a helpful code assistant.\n\nInstruction: "@ + instruction
            + "\n\nOriginal code:\n"@ + code
            + "\n\nGenerate or refactor the code as requested and return the updated code with a short explanation."@
    }
}

impl CodeHelperTool {
    /// The prompt sent to the model for `instruction` and `code`.
    pub fn build_prompt(instruction: &str, code: &str) -> (r: String)
        ensures
            r@ == code_prompt(instruction@, code@),
    {
        let mut r = concat2("You are a helpful code assistant.\n\nInstruction: ", instruction);
        if code.is_empty() {
            r.append(
                "\n\nProvide a code-focused response with the generated or refactored code and a short explanation.",
            );
        } else {
            r.append("\n\nOriginal code:\n");
            r.append(code);
            r.append(
                "\n\nGenerate or refactor the code as requested and return the updated code with a short explanation.",
            );
        }
        r
    }

    /// Reads the instruction and the code from the parameters.
    pub fn parse_params(params: &str) -> (r: (String, String))
        ensures
            r.0@ == code_request(params@).0,
            r.1@ == code_request(params@).1,
    {
        let v = chars_of(params);
        let pat = chars_of("\n\n");
        match split_once_exec(&v, &pat) {
            Some((instruction, code)) => {
                let i = trim_vec(&instruction);
                let c = trim_vec(&code);
                (string_of(&i), string_of(&c))
            },
            None => {
                let t = trim_vec(&v);
                (string_of(&t), String::new())
            },
        }
    }

    /// What the tool answers: the model's reply, or the error explained.
    pub fn render(outcome: Result<String, CodeHelperError>) -> (r: String)
        ensures
            match outcome {
                Ok(out) => r@ == "CodeHelperTool result:\n"@ + out@,
                Err(e) => r@ == "CodeHelperTool error: "@ + e.spec_message(),
            },
    {
        match outcome {
            Ok(out) => concat2("CodeHelperTool result:\n", out.as_str()),
            Err(e) => {
                let m = e.message();
                concat2("CodeHelperTool error: ", m.as_str())
            },
        }
    }
}

impl Tool for CodeHelperTool {
    open spec fn kind_spec(&self) -> ToolKind {
        ToolKind::CodeHelper
    }

    fn kind(&self) -> (k: ToolKind) {
        ToolKind::CodeHelper
    }
}

/// A request is split at its first blank line (`"\n\n"`): the instruction is
/// the trimmed text before it, which holds no blank line, and the code is the
/// trimmed text after it, so that instruction, blank line and code make up the
/// request. A request without a blank line is all instruction, with no code.
pub proof fn lemma_code_request_splits_at_first_blank_line(params: Seq<char>)
    ensures
        (forall|k: int| !occurs_at(params, "\n\n"@, k)) ==> code_request(params) == (
            trim(params),
            Seq::<char>::empty(),
        ),
        (exists|k: int| occurs_at(params, "\n\n"@, k)) ==> exists|i: int|
            {
                &&& 0 <= i && i + 2 <= params.len()
                &&& params.subrange(0, i) + "\n\n"@ + params.subrange(i + 2, params.len() as int)
                    == params
                &&& forall|k: int| 0 <= k < i ==> !occurs_at(params, "\n\n"@, k)
                &&& forall|k: int| !occurs_at(params.subrange(0, i), "\n\n"@, k)
                &&& #[trigger] code_request(params) == (
                    trim(params.subrange(0, i)),
                    trim(params.subrange(i + 2, params.len() as int)),
                )
            },
{
    reveal_strlit("\n\n");
    lemma_find_from_first(params, "\n\n"@, 0);
    if exists|k: int| occurs_at(params, "\n\n"@, k) {
        let i = crate::text::find(params, "\n\n"@).unwrap();
        assert(occurs_at(params, "\n\n"@, i));
        assert forall|k: int| !occurs_at(params.subrange(0, i), "\n\n"@, k) by {
            if occurs_at(params.subrange(0, i), "\n\n"@, k) {
                assert(params.subrange(0, i).subrange(k, k + 2) =~= params.subrange(k, k + 2));
                assert(occurs_at(params, "\n\n"@, k));
            }
        }
        assert(params.subrange(0, i) + "\n\n"@ + params.subrange(i + 2, params.len() as int)
            =~= params);
        assert(code_request(params) == (
            trim(params.subrange(0, i)),
            trim(params.subrange(i + 2, params.len() as int)),
        ));
    }
}

} // verus!
