//! Tool inputs, outputs and the texts the tools answer with.
use vstd::prelude::*;
use vstd::string::*;
use crate::text::{join_on, join_strings, strs, byte_len, concat2, decimal, decimal_string, owned, signed_decimal, signed_decimal_string};

verus! {

/// Input of the file reading tool.
#[derive(Debug, Clone)]
pub struct ReadFileInput {
    /// Path to the file to read.
    pub path: String,
}

/// Input of the file writing tool.
#[derive(Debug, Clone)]
pub struct WriteFileInput {
    /// Path to the file to write.
    pub path: String,
    /// Content to write to the file.
    pub content: String,
}

/// Errors of the file tools.
#[derive(Debug, Clone)]
pub enum FileToolError {
    Io(String),
}

/// Reads a file.
pub struct ReadFileTool;

/// Writes a file.
pub struct WriteFileTool;

/// Input of the memory search tool.
#[derive(Debug, Clone)]
pub struct NomenSearchInput {
    /// The search query, a natural language description of what to find.
    pub query: String,
    /// Maximum number of results to return (default: 5).
    pub limit: Option<usize>,
}

/// Input of the memory store tool.
#[derive(Debug, Clone)]
pub struct NomenStoreInput {
    /// Topic path for the memory.
    pub topic: String,
    /// Short summary of the memory.
    pub summary: String,
    /// Detailed content; the summary when absent.
    pub detail: Option<String>,
}

/// Errors of the memory and chat tools.
#[derive(Debug, Clone)]
pub enum NomenToolError {
    Memory(String),
}

/// Input of the shell tool.
#[derive(Debug, Clone)]
pub struct ShellToolInput {
    /// The shell command to execute.
    pub command: String,
    /// Working directory (defaults to the current one).
    pub working_dir: Option<String>,
    /// Timeout in seconds (defaults to 30).
    pub timeout_secs: Option<u64>,
}

/// What a shell command printed and how it exited.
#[derive(Debug, Clone)]
pub struct ShellToolOutput {
    pub stdout: String,
    pub stderr: String,
    pub exit_code: Option<i32>,
}

/// Errors of the shell tool.
#[derive(Debug, Clone)]
pub enum ShellToolError {
    ExecutionError(String),
    Timeout(u64),
}

/// Runs shell commands.
pub struct ShellTool;

/// Input of the chat send tool.
#[derive(Debug, Clone)]
pub struct TelegramSendInput {
    /// Text to send.
    pub text: String,
    /// Reply to a specific message id.
    pub reply_to: Option<String>,
    /// Send without notification.
    pub silent: bool,
}

/// Input of the chat edit tool.
#[derive(Debug, Clone)]
pub struct TelegramEditInput {
    /// Id of the message to edit.
    pub message_id: String,
    /// New text of the message.
    pub text: String,
}

/// Input of the chat delete tool.
#[derive(Debug, Clone)]
pub struct TelegramDeleteInput {
    /// Id of the message to delete.
    pub message_id: String,
}

/// Input of the chat reaction tool.
#[derive(Debug, Clone)]
pub struct TelegramReactInput {
    /// Emoji to react with.
    pub emoji: String,
    /// Message to react to; the current inbound message when absent.
    pub message_id: Option<String>,
}

/// How a shell command's output is shown: stdout; then stderr prefixed with
/// `STDERR: ` (on a new line after non-empty stdout); then the exit code on
/// a line of its own when it is not zero.
pub open spec fn shell_output_text(out: ShellToolOutput) -> Seq<char> {
    (if out.stdout@.len() > 0 { out.stdout@ } else { Seq::empty() })
        + (if out.stderr@.len() > 0 {
            (if out.stdout@.len() > 0 { "\n"@ } else { Seq::empty() }) + "STDERR: "@ + out.stderr@
        } else {
            Seq::empty()
        })
        + (match out.exit_code {
            Some(code) => if code != 0 {
                "\n[exit code: "@ + signed_decimal(code as int) + "]"@
            } else {
                Seq::empty()
            },
            None => Seq::empty(),
        })
}

impl ShellToolOutput {
    /// The output as shown to the model.
    pub fn render(&self) -> (r: String)
        ensures
            r@ == shell_output_text(*self),
    {
        let mut r = String::new();
        if !self.stdout.as_str().is_empty() {
            r.append(self.stdout.as_str());
        }
        let ghost a = r@;
        if !self.stderr.as_str().is_empty() {
            if !self.stdout.as_str().is_empty() {
                r.append("\n");
            }
            r.append("STDERR: ");
            r.append(self.stderr.as_str());
        }
        let ghost b = r@;
        if let Some(code) = self.exit_code {
            if code != 0 {
                r.append("\n[exit code: ");
                let digits = signed_decimal_string(code as i64);
                r.append(digits.as_str());
                r.append("]");
            }
        }
        assert(r@ =~= shell_output_text(*self));
        r
    }
}

impl ShellToolInput {
    /// The timeout in seconds, 30 unless given.
    pub fn timeout(&self) -> (r: u64)
        ensures
            r == match self.timeout_secs {
                Some(t) => t,
                None => 30,
            },
    {
        match self.timeout_secs {
            Some(t) => t,
            None => 30,
        }
    }
}

impl NomenSearchInput {
    /// The number of results asked for, 5 unless given.
    pub fn effective_limit(&self) -> (r: usize)
        ensures
            r == match self.limit {
                Some(l) => l,
                None => 5,
            },
    {
        match self.limit {
            Some(l) => l,
            None => 5,
        }
    }
}

impl NomenStoreInput {
    /// The detail to store: the given detail, else the summary.
    pub fn detail_or_summary(&self) -> (r: &str)
        ensures
            r@ == match self.detail {
                Some(d) => d@,
                None => self.summary@,
            },
    {
        match &self.detail {
            Some(d) => d.as_str(),
            None => self.summary.as_str(),
        }
    }
}

/// The text of a tool error.
pub open spec fn file_tool_error_text(e: FileToolError) -> Seq<char> {
    match e {
        FileToolError::Io(m) => "IO error: "@ + m@,
    }
}

impl FileToolError {
    /// The text this error is reported with.
    pub fn message(&self) -> (r: String)
        ensures
            r@ == file_tool_error_text(*self),
    {
        match self {
            FileToolError::Io(m) => concat2("IO error: ", m.as_str()),
        }
    }
}

impl NomenToolError {
    /// The text this error is reported with.
    pub fn message(&self) -> (r: String)
        ensures
            r@ == match *self {
                NomenToolError::Memory(m) => "Memory error: "@ + m@,
            },
    {
        match self {
            NomenToolError::Memory(m) => concat2("Memory error: ", m.as_str()),
        }
    }
}

impl ShellToolError {
    /// The text this error is reported with.
    pub fn message(&self) -> (r: String)
        ensures
            r@ == match *self {
                ShellToolError::ExecutionError(m) => "Command execution failed: "@ + m@,
                ShellToolError::Timeout(secs) => "Command timed out after "@ + decimal(secs as nat) + " seconds"@,
            },
    {
        match self {
            ShellToolError::ExecutionError(m) => concat2("Command execution failed: ", m.as_str()),
            ShellToolError::Timeout(secs) => {
                let mut r = owned("Command timed out after ");
                let digits = decimal_string(*secs);
                r.append(digits.as_str());
                r.append(" seconds");
                r
            },
        }
    }
}

/// What the write tool answers: `Written {bytes} bytes to {path}`.
pub fn write_summary(input: &WriteFileInput) -> (r: String)
    ensures
        r@ == "Written "@ + decimal(byte_len(input.content@) as nat) + " bytes to "@ + input.path@,
{
    let mut r = owned("Written ");
    let n = input.content.as_str().len();
    let digits = decimal_string(n as u64);
    r.append(digits.as_str());
    r.append(" bytes to ");
    r.append(input.path.as_str());
    r
}

/// One line of the search answer: `{rank}. [{topic}]: {detail}`, ranks from 1.
pub open spec fn search_line(index: int, topic: Seq<char>, detail: Seq<char>) -> Seq<char> {
    decimal((index + 1) as nat) + ". ["@ + topic + "]: "@ + detail
}

/// The search answer: `No memories found.` when nothing matched, else one
/// line per result in the order given.
pub open spec fn search_answer(results: Seq<(String, String)>) -> Seq<char> {
    if results.len() == 0 {
        "No memories found."@
    } else {
        join_on(Seq::new(results.len(), |i: int| search_line(i, results[i].0@, results[i].1@)), '\n')
    }
}

/// Formats search results given as (topic, detail) pairs.
pub fn format_search_results(results: &Vec<(String, String)>) -> (r: String)
    ensures
        r@ == search_answer(results@),
{
    if results.len() == 0 {
        return owned("No memories found.");
    }
    let mut lines: Vec<String> = Vec::new();
    let mut i: usize = 0;
    while i < results.len()
        invariant
            i <= results.len(),
            lines@.len() == i,
            forall|j: int| 0 <= j < i ==> #[trigger] lines@[j]@ == search_line(j, results@[j].0@, results@[j].1@),
        decreases results.len() - i,
    {
        let mut line = decimal_string((i + 1) as u64);
        line.append(". [");
        line.append(results[i].0.as_str());
        line.append("]: ");
        line.append(results[i].1.as_str());
        lines.push(line);
        i = i + 1;
    }
    let r = join_strings(&lines, '\n');
    assert(strs(lines@) =~= Seq::new(results@.len(), |i: int| search_line(i, results@[i].0@, results@[i].1@)));
    r
}

/// What the store tool answers: `Stored memory: {topic} (d_tag: {d_tag})`.
pub fn store_summary(topic: &str, d_tag: &str) -> (r: String)
    ensures
        r@ == "Stored memory: "@ + topic@ + " (d_tag: "@ + d_tag@ + ")"@,
{
    let mut r = owned("Stored memory: ");
    r.append(topic);
    r.append(" (d_tag: ");
    r.append(d_tag);
    r.append(")");
    r
}

/// What the send tool answers: `Sent message_id={id}`.
pub fn sent_summary(message_id: &str) -> (r: String)
    ensures
        r@ == "Sent message_id="@ + message_id@,
{
    concat2("Sent message_id=", message_id)
}

/// What the edit tool answers: `Edited message_id={id}`.
pub fn edited_summary(message_id: &str) -> (r: String)
    ensures
        r@ == "Edited message_id="@ + message_id@,
{
    concat2("Edited message_id=", message_id)
}

/// What the delete tool answers: `Deleted message_id={id}`.
pub fn deleted_summary(message_id: &str) -> (r: String)
    ensures
        r@ == "Deleted message_id="@ + message_id@,
{
    concat2("Deleted message_id=", message_id)
}

/// What the reaction tool answers: `Reacted {emoji} to message_id={id}`.
pub fn reacted_summary(emoji: &str, message_id: &str) -> (r: String)
    ensures
        r@ == "Reacted "@ + emoji@ + " to message_id="@ + message_id@,
{
    let mut r = owned("Reacted ");
    r.append(emoji);
    r.append(" to message_id=");
    r.append(message_id);
    r
}

/// The message a reaction goes to: the one asked for, else the current
/// inbound message; an error when there is neither.
pub fn react_target(requested: Option<String>, current: Option<String>) -> (r: Result<String, NomenToolError>)
    ensures
        match (requested, current) {
            (Some(m), _) => r matches Ok(t) && t@ == m@,
            (None, Some(c)) => r matches Ok(t) && t@ == c@,
            (None, None) => r matches Err(NomenToolError::Memory(e)) && e@ == "No message_id to react to"@,
        },
{
    match requested {
        Some(m) => Ok(m),
        None => match current {
            Some(c) => Ok(c),
            None => Err(NomenToolError::Memory(owned("No message_id to react to"))),
        },
    }
}

/// The error of a chat tool used while no chat is active.
pub fn no_chat_context() -> (e: NomenToolError)
    ensures
        e matches NomenToolError::Memory(m) && m@ == "No active Telegram context"@,
{
    NomenToolError::Memory(owned("No active Telegram context"))
}

} // verus!
