//! The shell tool: which command lines it accepts and how it reports.
use vstd::prelude::*;
use vstd::string::*;
use crate::io_failure::IoFailure;
use crate::text::{chars_of, concat2, concat3, copy_str, split_whitespace, split_ws, str_eq};
use crate::tools::{Tool, ToolKind};

verus! {

broadcast use vstd::string::group_string_axioms;

/// Why a shell command was not run or did not complete.
#[derive(Debug)]
pub enum ShellExecutorError {
    DisallowedCommand(String),
    Io(IoFailure),
    Timeout,
    Execution(String),
}

impl ShellExecutorError {
    /// The text the error displays.
    pub open spec fn spec_message(&self) -> Seq<char> {
        match self {
            ShellExecutorError::DisallowedCommand(cmd) => "disallowed command: "@ + cmd@,
            ShellExecutorError::Io(err) => "I/O error: "@ + err.message@,
            ShellExecutorError::Timeout => "command timed out"@,
            ShellExecutorError::Execution(err) => "execution error: "@ + err@,
        }
    }

    /// The text the error displays.
    pub fn message(&self) -> (m: String)
        ensures
            m@ == self.spec_message(),
    {
        match self {
            ShellExecutorError::DisallowedCommand(cmd) => concat2("disallowed command: ", cmd.as_str()),
            ShellExecutorError::Io(err) => concat2("I/O error: ", err.message.as_str()),
            ShellExecutorError::Timeout => copy_str("command timed out"),
            ShellExecutorError::Execution(err) => concat2("execution error: ", err.as_str()),
        }
    }
}

/// The tool that runs a few harmless shell commands.
pub struct ShellExecutorTool;

/// The commands the tool may run.
pub open spec fn is_allowed_command(c: Seq<char>) -> bool {
    ||| c == "echo"@
    ||| c == "pwd"@
    ||| c == "date"@
    ||| c == "whoami"@
    ||| c == "uname"@
    ||| c == "uptime"@
}

/// A character that may stand in a command name.
pub open spec fn is_command_char(c: char) -> bool {
    ('a' <= c && c <= 'z') || ('A' <= c && c <= 'Z') || ('0' <= c && c <= '9') || c == '_' || c
        == '-'
}

/// A character that an argument may not hold.
pub open spec fn is_forbidden_arg_char(c: char) -> bool {
    ||| c == '/'
    ||| c == '\''
    ||| c == '|'
    ||| c == '&'
    ||| c == ';'
    ||| c == '>'
    ||| c == '<'
    ||| c == '$'
    ||| c == '`'
    ||| c == '\n'
    ||| c == '\r'
}

/// An argument that holds no forbidden character.
pub open spec fn safe_arg(a: Seq<char>) -> bool {
    forall|i: int| 0 <= i < a.len() ==> !is_forbidden_arg_char(#[trigger] a[i])
}

/// What parsing a command line gives: the command and its arguments, or the
/// error that rejects the line.
pub enum ShellParse {
    Accepted(Seq<char>, Seq<Seq<char>>),
    MissingCommand,
    Disallowed(Seq<char>),
    UnsafeArgument,
}

/// Every command line the tool accepts runs an allowed command made of plain
/// characters, and none of its arguments holds a forbidden character.
pub proof fn lemma_accepted_lines_are_safe(params: Seq<char>)
    ensures
        shell_parse(params) matches ShellParse::Accepted(cmd, args) ==> {
            &&& is_allowed_command(cmd)
            &&& forall|i: int| 0 <= i < cmd.len() ==> is_command_char(#[trigger] cmd[i])
            &&& forall|j: int| 0 <= j < args.len() ==> safe_arg(#[trigger] args[j])
        },
{
    let words = split_ws(params);
    if shell_parse(params) is Accepted {
        assert forall|j: int| 0 <= j < words.drop_first().len() implies safe_arg(
            #[trigger] words.drop_first()[j],
        ) by {
            assert(words.drop_first()[j] == words[j + 1]);
        }
    }
}

/// How the tool reads a command line: the first word is the command, the others
/// its arguments; the command must be on the allow list and made of letters,
/// digits, `_` and `-`; no argument may hold a forbidden character.
pub open spec fn shell_parse(params: Seq<char>) -> ShellParse {
    let words = split_ws(params);
    if words.len() == 0 {
        ShellParse::MissingCommand
    } else if !is_allowed_command(words[0]) {
        ShellParse::Disallowed(words[0])
    } else if !(forall|i: int| 0 <= i < words[0].len() ==> is_command_char(#[trigger] words[0][i])) {
        ShellParse::Disallowed(words[0])
    } else if !(forall|j: int| 1 <= j < words.len() ==> safe_arg(#[trigger] words[j])) {
        ShellParse::UnsafeArgument
    } else {
        ShellParse::Accepted(words[0], words.drop_first())
    }
}

impl ShellExecutorTool {
    /// Whether `arg` holds none of the characters that could escape the command.
    pub fn is_safe_arg(arg: &str) -> (b: bool)
        ensures
            b == safe_arg(arg@),
    {
        let v = chars_of(arg);
        let mut i: usize = 0;
        while i < v.len()
            invariant
                v@ == arg@,
                i <= v.len(),
                forall|k: int| 0 <= k < i ==> !is_forbidden_arg_char(#[trigger] v@[k]),
            decreases v.len() - i,
        {
            let c = v[i];
            if c == '/' || c == '\'' || c == '|' || c == '&' || c == ';' || c == '>' || c == '<'
                || c == '$' || c == '`' || c == '\n' || c == '\r' {
                return false;
            }
            i = i + 1;
        }
        true
    }

    /// Whether `cmd` is on the allow list.
    pub fn is_allowed(cmd: &str) -> (b: bool)
        ensures
            b == is_allowed_command(cmd@),
    {
        str_eq(cmd, "echo") || str_eq(cmd, "pwd") || str_eq(cmd, "date") || str_eq(cmd, "whoami")
            || str_eq(cmd, "uname") || str_eq(cmd, "uptime")
    }

    /// Whether `cmd` is made of letters, digits, `_` and `-` only.
    pub fn is_plain_command(cmd: &str) -> (b: bool)
        ensures
            b == (forall|i: int| 0 <= i < cmd@.len() ==> is_command_char(#[trigger] cmd@[i])),
    {
        let v = chars_of(cmd);
        let mut i: usize = 0;
        while i < v.len()
            invariant
                v@ == cmd@,
                i <= v.len(),
                forall|k: int| 0 <= k < i ==> is_command_char(#[trigger] v@[k]),
            decreases v.len() - i,
        {
            let c = v[i];
            if !(('a' <= c && c <= 'z') || ('A' <= c && c <= 'Z') || ('0' <= c && c <= '9') || c
                == '_' || c == '-') {
                return false;
            }
            i = i + 1;
        }
        true
    }

    /// Splits a command line into the command and its arguments, and checks
    /// them against the tool's rules.
    pub fn parse_params(params: &str) -> (r: Result<(String, Vec<String>), ShellExecutorError>)
        ensures
            match shell_parse(params@) {
                ShellParse::Accepted(cmd, args) => r matches Ok((c, a)) && c@ == cmd
                    && a@.map_values(|w: String| w@) == args,
                ShellParse::MissingCommand => r matches Err(ShellExecutorError::Execution(m))
                    && m@ == "missing command"@,
                ShellParse::Disallowed(cmd) => r matches Err(
                    ShellExecutorError::DisallowedCommand(c),
                ) && c@ == cmd,
                ShellParse::UnsafeArgument => r matches Err(ShellExecutorError::Execution(m))
                    && m@ == "disallowed argument detected"@,
            },
    {
        let words = split_whitespace(params);
        let ghost ws = split_ws(params@);
        assert(ws.len() == words.len());
        if words.len() == 0 {
            return Err(ShellExecutorError::Execution(copy_str("missing command")));
        }
        assert(ws[0] == words@[0]@);
        let command = words[0].clone();
        if !Self::is_allowed(command.as_str()) {
            return Err(ShellExecutorError::DisallowedCommand(command));
        }
        if !Self::is_plain_command(command.as_str()) {
            return Err(ShellExecutorError::DisallowedCommand(command));
        }
        let mut args: Vec<String> = Vec::new();
        let mut j: usize = 1;
        while j < words.len()
            invariant
                1 <= j <= words.len(),
                ws == words@.map_values(|w: String| w@),
                ws == split_ws(params@),
                is_allowed_command(ws[0]),
                forall|i: int| 0 <= i < ws[0].len() ==> is_command_char(#[trigger] ws[0][i]),
                command@ == ws[0],
                args@.map_values(|w: String| w@) == ws.subrange(1, j as int),
                forall|k: int| 1 <= k < j ==> safe_arg(#[trigger] ws[k]),
            decreases words.len() - j,
        {
            let arg = words[j].clone();
            assert(ws[j as int] == arg@);
            if !Self::is_safe_arg(arg.as_str()) {
                assert(!safe_arg(ws[j as int]));
                return Err(ShellExecutorError::Execution(copy_str("disallowed argument detected")));
            }
            let ghost before = args@;
            args.push(arg);
            assert(args@.map_values(|w: String| w@) =~= before.map_values(|w: String| w@).push(
                ws[j as int],
            ));
            assert(ws.subrange(1, j + 1) =~= ws.subrange(1, j as int).push(ws[j as int]));
            j = j + 1;
        }
        assert(ws.subrange(1, words.len() as int) =~= ws.drop_first());
        Ok((command, args))
    }

    /// What the tool answers when it is called synchronously: the shell tool only
    /// runs through the asynchronous path.
    pub fn execute(&self, params: &str) -> (r: String)
        ensures
            r@ == "ShellExecutorTool should be invoked through async run_tool; params="@ + params@,
    {
        concat2("ShellExecutorTool should be invoked through async run_tool; params=", params)
    }

    /// The report of a finished command: its standard output and error.
    pub fn command_report(stdout: &str, stderr: &str) -> (r: String)
        ensures
            r@ == "STDOUT:\n"@ + stdout@ + "\nSTDERR:\n"@ + stderr@,
    {
        let mut r = concat3("STDOUT:\n", stdout, "\nSTDERR:\n");
        r.append(stderr);
        r
    }

    /// What the tool answers for a run: the report, or the error explained.
    pub fn render_outcome(outcome: Result<String, ShellExecutorError>) -> (r: String)
        ensures
            match outcome {
                Ok(out) => r@ == out@,
                Err(e) => r@ == "Error executing shell command: "@ + e.spec_message(),
            },
    {
        match outcome {
            Ok(out) => out,
            Err(e) => {
                let m = e.message();
                concat2("Error executing shell command: ", m.as_str())
            },
        }
    }
}

impl Tool for ShellExecutorTool {
    open spec fn kind_spec(&self) -> ToolKind {
        ToolKind::ShellExecutor
    }

    fn kind(&self) -> (k: ToolKind) {
        ToolKind::ShellExecutor
    }
}

/// An argument is safe exactly when it holds none of the eleven characters a
/// shell could use to escape the command: `/`, `'`, `|`, `&`, `;`, `>`, `<`,
/// `$`, a backquote, a line feed and a carriage return. Any other character,
/// such as `%`, `+`, `-` or a space, is allowed.
pub proof fn lemma_safe_arg_iff_no_shell_character(arg: Seq<char>)
    ensures
        safe_arg(arg) <==> forall|i: int|
            0 <= i < arg.len() ==> {
                let c = #[trigger] arg[i];
                &&& c != '/'
                &&& c != '\''
                &&& c != '|'
                &&& c != '&'
                &&& c != ';'
                &&& c != '>'
                &&& c != '<'
                &&& c != '$'
                &&& c != '`'
                &&& c != '\n'
                &&& c != '\r'
            },
{
}

/// The allow list is exactly `echo`, `pwd`, `date`, `whoami`, `uname` and
/// `uptime`: a command line is accepted exactly when its first word is one of
/// these six and none of its other words holds a character an argument may
/// not hold; it is then run as that command with the other words as its
/// arguments.
pub proof fn lemma_allowed_command_lines(params: Seq<char>)
    ensures
        ({
            let words = split_ws(params);
            (shell_parse(params) is Accepted) <==> {
                &&& words.len() >= 1
                &&& words[0] == "echo"@ || words[0] == "pwd"@ || words[0] == "date"@ || words[0]
                    == "whoami"@ || words[0] == "uname"@ || words[0] == "uptime"@
                &&& forall|j: int| 1 <= j < words.len() ==> safe_arg(#[trigger] words[j])
            }
        }),
        shell_parse(params) matches ShellParse::Accepted(cmd, args) ==> cmd == split_ws(params)[0]
            && args == split_ws(params).drop_first(),
{
    reveal_strlit("echo");
    reveal_strlit("pwd");
    reveal_strlit("date");
    reveal_strlit("whoami");
    reveal_strlit("uname");
    reveal_strlit("uptime");
    let words = split_ws(params);
    if words.len() >= 1 && is_allowed_command(words[0]) {
        assert(forall|i: int| 0 <= i < words[0].len() ==> is_command_char(#[trigger] words[0][i]));
    }
}

} // verus!
