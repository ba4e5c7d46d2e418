//! The agent: how a model reply is read, what the model is asked, and the loop
//! that alternates model queries and tool calls until an answer comes.
use vstd::prelude::*;
use vstd::string::*;
use crate::text::{chars_of, concat2, concat3, copy_str, decimal, decimal_string, find, find_exec, rfind, rfind_exec, str_eq, string_of_range};
use crate::tools::registry::{default_tools, lookup, ToolRegistry};
use crate::tools::ToolKind;

verus! {

broadcast use vstd::string::group_string_axioms;

/// The agent's entry points.
pub struct AgentCore;

/// The fields of the JSON object that the model answers with.
#[derive(Debug, Clone)]
pub struct AgentResponse {
    pub action: String,
    pub tool_name: Option<String>,
    pub tool_input: Option<String>,
    pub answer: Option<String>,
}

/// What a model reply asks the agent to do.
#[derive(Debug, Clone)]
pub enum AgentAction {
    ToolCall { tool_name: String, tool_input: String },
    FinalAnswer(String),
    Unknown(String),
}

/// The text from the first `{` to the last `}` of `s`, when the last comes after
/// the first.
pub open spec fn json_span(s: Seq<char>) -> Option<Seq<char>> {
    match (find(s, seq!['{']), rfind(s, seq!['}'])) {
        (Some(a), Some(b)) => if b > a {
            Some(s.subrange(a, b + 1))
        } else {
            None
        },
        _ => None,
    }
}

/// An action by the text of its strings.
pub enum ActionView {
    ToolCall(Seq<char>, Seq<char>),
    FinalAnswer(Seq<char>),
    Unknown(Seq<char>),
}

impl View for AgentAction {
    type V = ActionView;

    open spec fn view(&self) -> ActionView {
        match self {
            AgentAction::ToolCall { tool_name, tool_input } => ActionView::ToolCall(
                tool_name@,
                tool_input@,
            ),
            AgentAction::FinalAnswer(a) => ActionView::FinalAnswer(a@),
            AgentAction::Unknown(r) => ActionView::Unknown(r@),
        }
    }
}

/// The text of an optional field, or the empty text.
pub open spec fn text_or_empty(s: Option<String>) -> Seq<char> {
    match s {
        Some(t) => t@,
        None => Seq::empty(),
    }
}

/// The action a reply asks for, given the fields read from its JSON object (if
/// one was found and read).
pub open spec fn reply_action(response: Seq<char>, parsed: Option<AgentResponse>) -> ActionView {
    match parsed {
        Some(p) => if p.action@ == "call_tool"@ {
            ActionView::ToolCall(text_or_empty(p.tool_name), text_or_empty(p.tool_input))
        } else if p.action@ == "final_answer"@ {
            ActionView::FinalAnswer(text_or_empty(p.answer))
        } else {
            ActionView::Unknown(response)
        },
        None => ActionView::Unknown(response),
    }
}

/// The prompt that asks the model for its next move in `conversation`.
pub open spec fn agent_prompt(conversation: Seq<char>) -> Seq<char> {
    "You are an agent controller that either returns a structured JSON tool call or a final answer.\n\n"@
        + conversation
        + "\nRespond with JSON in one of these forms:\n{\"action\":\"call_tool\",\"tool_name\":\"<tool>\",\"tool_input\":\"<input>\"}\nor\n{\"action\":\"final_answer\",\"answer\":\"<answer>\"}\nDo not include any extra text outside the JSON."@
}

/// How a conversation begins.
pub open spec fn conversation_start(prompt: Seq<char>) -> Seq<char> {
    "User: "@ + prompt + "\n"@
}

/// What a tool call adds to the conversation.
pub open spec fn tool_transcript(name: Seq<char>, input: Seq<char>, output: Seq<char>) -> Seq<char> {
    "Tool call: "@ + name + "\nInput: "@ + input + "\nResult: "@ + output + "\n"@
}

/// The answer when the agent gives up after `attempts` tool calls.
pub open spec fn stopped_report(attempts: nat, conversation: Seq<char>) -> Seq<char> {
    "Agent stopped after "@ + decimal(attempts) + " iterations. Conversation:\n"@ + conversation
}

/// The progress notes sent before a model query in round `step` (from one).
pub open spec fn query_notes(step: nat) -> Seq<Seq<char>> {
    seq!["Thinking: step "@ + decimal(step) + " started"@, "Thinking: querying Ollama"@]
}

/// The number of tool calls after which the agent stops.
pub open spec fn max_attempts() -> nat {
    4
}

/// How a tool named by the model is run.
#[derive(Debug)]
pub enum ToolDispatch {
    /// Through the policy-checked shell path.
    Shell,
    /// By the registered tool.
    Registered(ToolKind),
    /// Not at all: no such tool; the text is what the agent records.
    NotFound(String),
}

impl AgentCore {
    /// The JSON object inside a model reply: from the first `{` to the last `}`.
    pub fn extract_json(response: &str) -> (r: Option<String>)
        ensures
            match json_span(response@) {
                Some(span) => r matches Some(s) && s@ == span,
                None => r is None,
            },
    {
        let v = chars_of(response);
        let open_brace = vec!['{'];
        let close_brace = vec!['}'];
        assert(open_brace@ =~= seq!['{']);
        assert(close_brace@ =~= seq!['}']);
        let start = match find_exec(&v, &open_brace) {
            Some(i) => i,
            None => return None,
        };
        let end = match rfind_exec(&v, &close_brace) {
            Some(j) => j,
            None => return None,
        };
        if end > start {
            proof {
                crate::text::lemma_rfind_bounds(v@, close_brace@, v@.len() - close_brace@.len());
                assert(crate::text::occurs_at(v@, close_brace@, end as int));
            }
            assert(end < v.len());
            Some(string_of_range(&v, start, end + 1))
        } else {
            None
        }
    }

    /// The action a reply asks for. `parsed` holds the fields read from the
    /// JSON object that `extract_json` finds in the reply, or nothing when there
    /// is no such object or it is not an agent response.
    pub fn parse_agent_response(response: &str, parsed: Option<AgentResponse>) -> (r: AgentAction)
        ensures
            r@ == reply_action(response@, parsed),
    {
        match parsed {
            Some(p) => {
                if str_eq(p.action.as_str(), "call_tool") {
                    let tool_name = match p.tool_name {
                        Some(t) => t,
                        None => String::new(),
                    };
                    let tool_input = match p.tool_input {
                        Some(t) => t,
                        None => String::new(),
                    };
                    AgentAction::ToolCall { tool_name, tool_input }
                } else if str_eq(p.action.as_str(), "final_answer") {
                    let answer = match p.answer {
                        Some(t) => t,
                        None => String::new(),
                    };
                    AgentAction::FinalAnswer(answer)
                } else {
                    AgentAction::Unknown(copy_str(response))
                }
            },
            None => AgentAction::Unknown(copy_str(response)),
        }
    }

    /// The prompt that asks the model for its next move in `conversation`.
    pub fn build_ollama_prompt(conversation: &str) -> (r: String)
        ensures
            r@ == agent_prompt(conversation@),
    {
        concat3(
            "You are an agent controller that either returns a structured JSON tool call or a final answer.\n\n",
            conversation,
            "\nRespond with JSON in one of these forms:\n{\"action\":\"call_tool\",\"tool_name\":\"<tool>\",\"tool_input\":\"<input>\"}\nor\n{\"action\":\"final_answer\",\"answer\":\"<answer>\"}\nDo not include any extra text outside the JSON.",
        )
    }

    /// How the agent runs the tool the model named: the shell executor goes
    /// through the policy-checked path, other tools are looked up in the default
    /// registry.
    pub fn dispatch_tool(tool_name: &str) -> (r: ToolDispatch)
        ensures
            tool_name@ == "shell_executor"@ ==> r is Shell,
            tool_name@ != "shell_executor"@ ==> match lookup(default_tools(), tool_name@) {
                Some(k) => r == ToolDispatch::Registered(k),
                None => r matches ToolDispatch::NotFound(m) && m@ == "tool not found: "@
                    + tool_name@,
            },
    {
        if str_eq(tool_name, "shell_executor") {
            return ToolDispatch::Shell;
        }
        let registry = ToolRegistry::default();
        match registry.get(tool_name) {
            Some(k) => ToolDispatch::Registered(k),
            None => ToolDispatch::NotFound(concat2("tool not found: ", tool_name)),
        }
    }

    /// What the agent records for a policy-checked shell run.
    pub fn shell_tool_output(outcome: Result<String, String>) -> (r: String)
        ensures
            match outcome {
                Ok(out) => r@ == out@,
                Err(err) => r@ == "tool execution failed: "@ + err@,
            },
    {
        match outcome {
            Ok(out) => out,
            Err(err) => concat2("tool execution failed: ", err.as_str()),
        }
    }
}

// ---------------------------------------------------------------------------
// The agent loop
// ---------------------------------------------------------------------------

/// Where the agent loop stands.
#[derive(Debug)]
pub enum AgentStage {
    /// A query was sent; the model's reply is awaited.
    AwaitingReply,
    /// The model asked for a tool; its output is awaited.
    AwaitingTool { tool_name: String, tool_input: String },
    /// An answer was given.
    Finished,
}

/// What the loop asks its driver to do next.
#[derive(Debug)]
pub enum AgentCommand {
    /// Send this prompt to the model and report its reply.
    Query(String),
    /// Run this tool with this input and report its output.
    RunTool { tool_name: String, tool_input: String },
    /// Stop: this is the answer.
    Finish(String),
}

/// What the driver reports back.
#[derive(Debug)]
pub enum AgentEvent {
    /// The model's reply, read as an action, or the error that kept it from coming.
    Reply(Result<AgentAction, String>),
    /// The output of the tool that was asked for.
    ToolOutput(String),
}

/// One move of the loop: the command, and the progress notes a streaming
/// driver sends before carrying it out.
pub struct AgentStep {
    pub command: AgentCommand,
    pub notes: Vec<String>,
}

/// The state of one run of the agent.
pub struct AgentLoop {
    conversation: String,
    attempts: u32,
    stage: AgentStage,
}

impl AgentLoop {
    /// The conversation so far.
    pub closed spec fn spec_conversation(&self) -> Seq<char> {
        self.conversation@
    }

    /// The number of tool calls made so far.
    pub closed spec fn spec_attempts(&self) -> nat {
        self.attempts as nat
    }

    /// Where the loop stands.
    pub closed spec fn spec_stage(&self) -> AgentStage {
        self.stage
    }

    /// The loop never makes more than four tool calls, and it only awaits a
    /// reply while it may still make one.
    pub open spec fn wf(&self) -> bool {
        &&& self.spec_attempts() <= max_attempts()
        &&& self.spec_stage() is AwaitingReply ==> self.spec_attempts() < max_attempts()
        &&& self.spec_stage() is AwaitingTool ==> self.spec_attempts() < max_attempts()
    }

    /// Whether the loop can take `event` where it stands.
    pub open spec fn accepts(&self, event: AgentEvent) -> bool {
        match event {
            AgentEvent::Reply(_) => self.spec_stage() is AwaitingReply,
            AgentEvent::ToolOutput(_) => self.spec_stage() is AwaitingTool,
        }
    }

    /// How far the run has come; every move increases it, and it never passes
    /// seven.
    pub open spec fn progress(&self) -> nat {
        2 * self.spec_attempts() + if self.spec_stage() is AwaitingTool {
            1nat
        } else {
            0nat
        }
    }

    /// Whether an answer was given.
    pub fn is_finished(&self) -> (b: bool)
        ensures
            b == (self.spec_stage() is Finished),
    {
        match self.stage {
            AgentStage::Finished => true,
            _ => false,
        }
    }

    /// Whether the loop awaits the model's reply.
    pub fn awaits_reply(&self) -> (b: bool)
        ensures
            b == (self.spec_stage() is AwaitingReply),
    {
        match self.stage {
            AgentStage::AwaitingReply => true,
            _ => false,
        }
    }

    /// Whether the loop awaits a tool's output.
    pub fn awaits_tool(&self) -> (b: bool)
        ensures
            b == (self.spec_stage() is AwaitingTool),
    {
        match self.stage {
            AgentStage::AwaitingTool { .. } => true,
            _ => false,
        }
    }

    /// The conversation so far.
    pub fn conversation(&self) -> (c: &str)
        ensures
            c@ == self.spec_conversation(),
    {
        self.conversation.as_str()
    }

    fn query_notes_exec(step: u32) -> (notes: Vec<String>)
        ensures
            notes@.len() == 2,
            notes@.map_values(|s: String| s@) == query_notes(step as nat),
    {
        let n = decimal_string(step as u64);
        let first = concat3("Thinking: step ", n.as_str(), " started");
        let second = copy_str("Thinking: querying Ollama");
        let mut notes: Vec<String> = Vec::new();
        notes.push(first);
        notes.push(second);
        assert(notes@.map_values(|s: String| s@) =~= query_notes(step as nat));
        notes
    }

    /// Starts a run for `prompt`: the conversation holds the user's message and
    /// the model is queried.
    pub fn start(prompt: &str) -> (r: (AgentLoop, AgentStep))
        ensures
            r.0.wf(),
            r.0.spec_conversation() == conversation_start(prompt@),
            r.0.spec_attempts() == 0,
            r.0.spec_stage() is AwaitingReply,
            r.1.command matches AgentCommand::Query(q) && q@ == agent_prompt(
                conversation_start(prompt@),
            ),
            r.1.notes@.map_values(|s: String| s@) == query_notes(1),
    {
        let conversation = concat3("User: ", prompt, "\n");
        let query = AgentCore::build_ollama_prompt(conversation.as_str());
        let notes = Self::query_notes_exec(1);
        (
            AgentLoop { conversation, attempts: 0, stage: AgentStage::AwaitingReply },
            AgentStep { command: AgentCommand::Query(query), notes },
        )
    }

    /// Takes the driver's report and says what to do next.
    ///
    /// A reply that failed ends the run with `Agent error: ...`; a final
    /// answer ends it with the answer; a reply that asks for nothing known ends
    /// it with `Final answer: ` and the reply. A tool call is carried out, and
    /// its output appended to the conversation; after the fourth tool call the
    /// run ends with the whole conversation, else the model is queried again.
    pub fn step(&mut self, event: AgentEvent) -> (s: AgentStep)
        requires
            old(self).wf(),
            old(self).accepts(event),
        ensures
            final(self).wf(),
            final(self).spec_stage() is Finished || final(self).progress() > old(self).progress(),
            final(self).spec_stage() is Finished <==> s.command is Finish,
            match event {
                AgentEvent::Reply(Err(err)) => {
                    &&& s.command matches AgentCommand::Finish(a) && a@ == "Agent error: "@ + err@
                    &&& s.notes@.map_values(|n: String| n@) == seq!["Agent error: "@ + err@]
                    &&& final(self).spec_conversation() == old(self).spec_conversation()
                },
                AgentEvent::Reply(Ok(AgentAction::ToolCall { tool_name, tool_input })) => {
                    &&& s.command matches AgentCommand::RunTool { tool_name: n, tool_input: i }
                        && n@ == tool_name@ && i@ == tool_input@
                    &&& final(self).spec_stage() matches AgentStage::AwaitingTool {
                        tool_name: n,
                        tool_input: i,
                    } && n@ == tool_name@ && i@ == tool_input@
                    &&& s.notes@.map_values(|n: String| n@) == seq![
                        "Thinking: received Ollama response"@,
                        "Planning: call tool "@ + tool_name@,
                    ]
                    &&& final(self).spec_conversation() == old(self).spec_conversation()
                    &&& final(self).spec_attempts() == old(self).spec_attempts()
                },
                AgentEvent::Reply(Ok(AgentAction::FinalAnswer(answer))) => {
                    &&& s.command matches AgentCommand::Finish(a) && a@ == answer@
                    &&& s.notes@.map_values(|n: String| n@) == seq![
                        "Thinking: received Ollama response"@,
                        "Final answer: "@ + answer@,
                    ]
                    &&& final(self).spec_conversation() == old(self).spec_conversation()
                },
                AgentEvent::Reply(Ok(AgentAction::Unknown(raw))) => {
                    &&& s.command matches AgentCommand::Finish(a) && a@ == "Final answer: "@ + raw@
                    &&& s.notes@.map_values(|n: String| n@) == seq![
                        "Thinking: received Ollama response"@,
                        "Final answer: "@ + raw@,
                    ]
                    &&& final(self).spec_conversation() == old(self).spec_conversation()
                },
                AgentEvent::ToolOutput(output) => {
                    old(self).spec_stage() matches AgentStage::AwaitingTool { tool_name, tool_input }
                        && {
                        let conv = old(self).spec_conversation() + tool_transcript(
                            tool_name@,
                            tool_input@,
                            output@,
                        );
                        let attempts = old(self).spec_attempts() + 1;
                        let result_note = "Tool result: "@ + tool_name@ + " => "@ + output@;
                        &&& final(self).spec_conversation() == conv
                        &&& final(self).spec_attempts() == attempts
                        &&& if attempts < max_attempts() {
                            &&& final(self).spec_stage() is AwaitingReply
                            &&& s.command matches AgentCommand::Query(q) && q@ == agent_prompt(conv)
                            &&& s.notes@.map_values(|n: String| n@) == seq![result_note]
                                + query_notes(attempts + 1)
                        } else {
                            &&& s.command matches AgentCommand::Finish(a) && a@ == stopped_report(
                                attempts,
                                conv,
                            )
                            &&& s.notes@.map_values(|n: String| n@) == seq![
                                result_note,
                                stopped_report(attempts, conv),
                            ]
                        }
                    }
                },
            },
    {
        match event {
            AgentEvent::Reply(Err(err)) => {
                let error = concat2("Agent error: ", err.as_str());
                let mut notes: Vec<String> = Vec::new();
                notes.push(error.clone());
                assert(notes@.map_values(|n: String| n@) =~= seq!["Agent error: "@ + err@]);
                self.stage = AgentStage::Finished;
                AgentStep { command: AgentCommand::Finish(error), notes }
            },
            AgentEvent::Reply(Ok(action)) => {
                let mut notes: Vec<String> = Vec::new();
                notes.push(copy_str("Thinking: received Ollama response"));
                match action {
                    AgentAction::ToolCall { tool_name, tool_input } => {
                        notes.push(concat2("Planning: call tool ", tool_name.as_str()));
                        assert(notes@.map_values(|n: String| n@) =~= seq![
                            "Thinking: received Ollama response"@,
                            "Planning: call tool "@ + tool_name@,
                        ]);
                        self.stage = AgentStage::AwaitingTool {
                            tool_name: tool_name.clone(),
                            tool_input: tool_input.clone(),
                        };
                        AgentStep { command: AgentCommand::RunTool { tool_name, tool_input }, notes }
                    },
                    AgentAction::FinalAnswer(answer) => {
                        notes.push(concat2("Final answer: ", answer.as_str()));
                        assert(notes@.map_values(|n: String| n@) =~= seq![
                            "Thinking: received Ollama response"@,
                            "Final answer: "@ + answer@,
                        ]);
                        self.stage = AgentStage::Finished;
                        AgentStep { command: AgentCommand::Finish(answer), notes }
                    },
                    AgentAction::Unknown(raw) => {
                        let result = concat2("Final answer: ", raw.as_str());
                        notes.push(result.clone());
                        assert(notes@.map_values(|n: String| n@) =~= seq![
                            "Thinking: received Ollama response"@,
                            "Final answer: "@ + raw@,
                        ]);
                        self.stage = AgentStage::Finished;
                        AgentStep { command: AgentCommand::Finish(result), notes }
                    },
                }
            },
            AgentEvent::ToolOutput(output) => {
                let (tool_name, tool_input) = match &self.stage {
                    AgentStage::AwaitingTool { tool_name, tool_input } => (
                        tool_name.clone(),
                        tool_input.clone(),
                    ),
                    _ => {
                        assert(false);
                        (String::new(), String::new())
                    },
                };
                let result_note = {
                    let mut n = concat3("Tool result: ", tool_name.as_str(), " => ");
                    n.append(output.as_str());
                    n
                };
                self.conversation.append("Tool call: ");
                self.conversation.append(tool_name.as_str());
                self.conversation.append("\nInput: ");
                self.conversation.append(tool_input.as_str());
                self.conversation.append("\nResult: ");
                self.conversation.append(output.as_str());
                self.conversation.append("\n");
                self.attempts = self.attempts + 1;
                let mut notes: Vec<String> = Vec::new();
                notes.push(result_note);
                if self.attempts < 4 {
                    let query = AgentCore::build_ollama_prompt(self.conversation.as_str());
                    let more = Self::query_notes_exec(self.attempts + 1);
                    let ghost first = notes@;
                    notes.push(more[0].clone());
                    notes.push(more[1].clone());
                    assert(notes@.map_values(|n: String| n@) =~= first.map_values(|n: String| n@)
                        + more@.map_values(|n: String| n@));
                    self.stage = AgentStage::AwaitingReply;
                    AgentStep { command: AgentCommand::Query(query), notes }
                } else {
                    let n = decimal_string(self.attempts as u64);
                    let mut final_message = concat3(
                        "Agent stopped after ",
                        n.as_str(),
                        " iterations. Conversation:\n",
                    );
                    final_message.append(self.conversation.as_str());
                    notes.push(final_message.clone());
                    self.stage = AgentStage::Finished;
                    AgentStep { command: AgentCommand::Finish(final_message), notes }
                }
            },
        }
    }
}

/// A run of the agent ends after at most eight moves (four model replies and
/// four tool outputs): every move either ends the run or advances it, and a run
/// that has not ended has not advanced past seven.
pub proof fn lemma_agent_run_is_bounded(l: AgentLoop)
    requires
        l.wf(),
        !(l.spec_stage() is Finished),
    ensures
        l.progress() <= 7,
{
}

} // verus!
