//! The agent's tools: their names, the registry that finds them, and the
//! policy-checked entry point.
pub mod code_helper;
pub mod file_reader;
pub mod homelab_api;
pub mod memory_recall;
pub mod pdf_book_loader;
pub mod registry;
pub mod shell_executor;
pub mod web_search;

use vstd::prelude::*;
use vstd::string::*;
use crate::policy::{rego_input_accepted, tool_request_input, PolicyEnforcer, PolicyError, UserContext};
use crate::text::{concat2, concat3};

verus! {

broadcast use vstd::string::group_string_axioms;

/// Why a tool request was not carried out.
#[derive(Debug)]
pub enum ToolExecutionError {
    /// The policy refused the request; the text says which tool and role.
    PolicyDenied(String),
    /// The policy could not be evaluated.
    PolicyError(PolicyError),
}

/// What a tool request gives once the policy has spoken: the tool runs when
/// allowed; a refusal names the tool and the user's role; a policy that could
/// not be evaluated is reported as such.
pub fn decide_tool_request(tool_name: &str, user: &UserContext, verdict: Result<bool, PolicyError>) -> (r:
    Result<String, ToolExecutionError>)
    ensures
        match verdict {
            Ok(true) => r matches Ok(out) && out@ == "Executed tool: "@ + tool_name@,
            Ok(false) => r matches Err(ToolExecutionError::PolicyDenied(m)) && m@ == "tool '"@
                + tool_name@ + "' not allowed for user role '"@ + user.role@ + "'"@,
            Err(e) => r == Err::<String, ToolExecutionError>(ToolExecutionError::PolicyError(e)),
        },
{
    match verdict {
        Ok(true) => Ok(concat2("Executed tool: ", tool_name)),
        Ok(false) => {
            let mut m = concat3("tool '", tool_name, "' not allowed for user role '");
            m.append(user.role.as_str());
            m.append("'");
            Err(ToolExecutionError::PolicyDenied(m))
        },
        Err(e) => Err(ToolExecutionError::PolicyError(e)),
    }
}

/// Carries out a tool request after the policy check: the request's input
/// document goes to the enforcer, and its verdict decides as
/// `decide_tool_request` says.
pub fn execute_tool(tool_name: &str, user: &UserContext, enforcer: &mut PolicyEnforcer) -> (r: Result<
    String,
    ToolExecutionError,
>)
    ensures
        final(enforcer).spec_policies() == old(enforcer).spec_policies(),
        r matches Err(ToolExecutionError::PolicyError(e)) ==> e is Eval && !rego_input_accepted(
            tool_request_input(tool_name@, user.username@, user.role@),
        ),
        !(r matches Err(ToolExecutionError::PolicyError(_))) ==> rego_input_accepted(
            tool_request_input(tool_name@, user.username@, user.role@),
        ) && final(enforcer).spec_last_eval() == Some(
            (Some(tool_request_input(tool_name@, user.username@, user.role@)), "data.tools.allow"@),
        ),
        r matches Ok(out) ==> out@ == "Executed tool: "@ + tool_name@,
        r matches Err(ToolExecutionError::PolicyDenied(m)) ==> m@ == "tool '"@ + tool_name@
            + "' not allowed for user role '"@ + user.role@ + "'"@,
{
    let verdict = enforcer.allow_tool(tool_name, user);
    decide_tool_request(tool_name, user, verdict)
}

/// The tools this gateway knows how to run.
#[derive(Debug, Clone, Copy, PartialEq, Eq, Structural)]
pub enum ToolKind {
    FileReader,
    PdfBookLoader,
    ShellExecutor,
    WebSearch,
    CodeHelper,
    MemoryRecall,
    HomelabApi,
}

/// The name under which a tool is registered and called.
pub open spec fn tool_name(k: ToolKind) -> Seq<char> {
    match k {
        ToolKind::FileReader => "file_reader"@,
        ToolKind::PdfBookLoader => "pdf_book_loader"@,
        ToolKind::ShellExecutor => "shell_executor"@,
        ToolKind::WebSearch => "web_search"@,
        ToolKind::CodeHelper => "code_helper"@,
        ToolKind::MemoryRecall => "memory_recall"@,
        ToolKind::HomelabApi => "homelab_api"@,
    }
}

impl ToolKind {
    /// The name under which the tool is registered and called.
    pub fn name(&self) -> (n: &'static str)
        ensures
            n@ == tool_name(*self),
    {
        match self {
            ToolKind::FileReader => "file_reader",
            ToolKind::PdfBookLoader => "pdf_book_loader",
            ToolKind::ShellExecutor => "shell_executor",
            ToolKind::WebSearch => "web_search",
            ToolKind::CodeHelper => "code_helper",
            ToolKind::MemoryRecall => "memory_recall",
            ToolKind::HomelabApi => "homelab_api",
        }
    }
}

/// No two tools share a name.
pub proof fn lemma_tool_names_distinct(a: ToolKind, b: ToolKind)
    ensures
        tool_name(a) == tool_name(b) ==> a == b,
{
    reveal_strlit("file_reader");
    reveal_strlit("pdf_book_loader");
    reveal_strlit("shell_executor");
    reveal_strlit("web_search");
    reveal_strlit("code_helper");
    reveal_strlit("memory_recall");
    reveal_strlit("homelab_api");
    if tool_name(a) == tool_name(b) {
        assert(tool_name(a).len() == tool_name(b).len());
        assert(tool_name(a)[0] == tool_name(b)[0]);
        assert(tool_name(a)[1] == tool_name(b)[1]);
    }
}

/// A tool that can be registered: it says which of the gateway's tools it is.
pub trait Tool {
    spec fn kind_spec(&self) -> ToolKind;

    fn kind(&self) -> (k: ToolKind)
        ensures
            k == self.kind_spec(),
    ;

    /// The name under which the tool is registered.
    fn name(&self) -> (n: &'static str)
        ensures
            n@ == tool_name(self.kind_spec()),
    {
        self.kind().name()
    }
}

} // verus!
