//! Running the herdr command: what to run, and what came of it.
use crate::text::{debug_text, format_debug, from_utf8_lossy, is_trimmed, lossy_text, trim};
use vstd::prelude::*;
use vstd::string::StringExecFns;

verus! {

/// How one run of the herdr command ended.
pub enum Outcome {
    /// It could not be started. Holds the system's reason.
    NotStarted(String),
    /// It ran to its end.
    Exited { success: bool, stdout: Vec<u8>, stderr: Vec<u8> },
}

/// A reply's JSON, decoded, or the decoder's reason for refusing it.
pub type Decoded<T> = Result<T, String>;

/// Why herdr gave no answer, or why its answer leaves nothing to do.
#[derive(Clone, Debug, PartialEq, Eq)]
pub enum HerdrError {
    /// The command could not be started.
    NotStarted { args: Vec<String>, cause: String },
    /// The command exited with a failure. Holds what it said on stderr.
    Failed { args: Vec<String>, stderr: String },
    /// The reply to `agent list` is not the documented envelope.
    AgentList { cause: String },
    /// The reply to `tab list` is not the documented envelope.
    TabList { cause: String },
    /// There is no agent to send to.
    NoAgent,
}

impl HerdrError {
    /// The words of the error.
    pub open spec fn words(self) -> Seq<char> {
        match self {
            HerdrError::NotStarted { args, .. } => "running herdr "@ + debug_text(args.deep_view()),
            HerdrError::Failed { args, stderr } => "herdr "@ + debug_text(args.deep_view())
                + " failed: "@ + stderr@,
            HerdrError::AgentList { .. } => "parsing agent list"@,
            HerdrError::TabList { .. } => "parsing tab list"@,
            HerdrError::NoAgent => "no agent here — copy to the clipboard instead"@,
        }
    }

    /// The words of the error, as the status line shows them.
    pub fn message(&self) -> (res: String)
        ensures
            res@ == self.words(),
    {
        match self {
            HerdrError::NotStarted { args, .. } => {
                let mut words = "running herdr ".to_owned();
                words.append(format_debug(args).as_str());
                words
            },
            HerdrError::Failed { args, stderr } => {
                let mut words = "herdr ".to_owned();
                words.append(format_debug(args).as_str());
                words.append(" failed: ");
                words.append(stderr.as_str());
                words
            },
            HerdrError::AgentList { .. } => "parsing agent list".to_owned(),
            HerdrError::TabList { .. } => "parsing tab list".to_owned(),
            HerdrError::NoAgent => "no agent here — copy to the clipboard instead".to_owned(),
        }
    }
}

/// The herdr program: the one named by the environment, else `herdr` from the search path.
pub fn herdr_bin(path: Option<String>) -> (res: String)
    ensures
        path matches Some(named) ==> res == named,
        path is None ==> res@ == "herdr"@,
{
    match path {
        Some(named) => named,
        None => "herdr".to_owned(),
    }
}

/// What one run of herdr with `args` answers: its stdout as text, or why there is no answer.
/// Bytes that are not UTF-8 are replaced, never refused; valid UTF-8 comes out as it stands, but
/// for the white space round what a failed run said.
pub fn herdr(args: Vec<String>, outcome: Outcome) -> (res: Result<String, HerdrError>)
    ensures
        match outcome {
            Outcome::NotStarted(cause) => res == Err::<String, HerdrError>(
                HerdrError::NotStarted { args, cause },
            ),
            Outcome::Exited { success, stdout, stderr } => if success {
                &&& res matches Ok(answer)
                &&& answer@ == lossy_text(stdout@)
                &&& vstd::utf8::valid_utf8(stdout@) ==> vstd::utf8::encode_utf8(answer@) == stdout@
            } else {
                &&& res matches Err(HerdrError::Failed { args: ran, stderr: said })
                &&& ran == args
                &&& is_trimmed(lossy_text(stderr@), said@)
                &&& vstd::utf8::valid_utf8(stderr@) ==> is_trimmed(
                    vstd::utf8::decode_utf8(stderr@),
                    said@,
                )
            },
        },
{
    match outcome {
        Outcome::NotStarted(cause) => Err(HerdrError::NotStarted { args, cause }),
        Outcome::Exited { success, stdout, stderr } => {
            if !success {
                let said = from_utf8_lossy(stderr.as_slice());
                return Err(HerdrError::Failed { args, stderr: trim(said.as_str()).to_owned() });
            }
            proof {
                broadcast use vstd::utf8::decode_utf8_encode_utf8;
            }
            Ok(from_utf8_lossy(stdout.as_slice()))
        },
    }
}

/// The answer to a command that only acts: whether it was carried out.
pub fn carried_out(answer: Result<String, HerdrError>) -> (res: Result<(), HerdrError>)
    ensures
        answer is Ok ==> res == Ok::<(), HerdrError>(()),
        answer matches Err(error) ==> res == Err::<(), HerdrError>(error),
{
    match answer {
        Ok(_) => Ok(()),
        Err(error) => Err(error),
    }
}

/// The arguments that list the agents.
pub fn agent_list_args() -> (res: Vec<String>)
    ensures
        res.deep_view() == seq!["agent"@, "list"@],
{
    let args = vec!["agent".to_owned(), "list".to_owned()];
    assert(args.deep_view() =~= seq!["agent"@, "list"@]);
    args
}

/// The arguments that list one workspace's tabs. Without a workspace there is nothing to ask.
pub fn tab_list_args(ws: Option<&str>) -> (res: Option<Vec<String>>)
    ensures
        res.deep_view() == match ws {
            Some(ws) => Some(seq!["tab"@, "list"@, "--workspace"@, ws@]),
            None => None,
        },
{
    let Some(ws) = ws else {
        return None;
    };
    let args = vec!["tab".to_owned(), "list".to_owned(), "--workspace".to_owned(), ws.to_owned()];
    assert(args.deep_view() =~= seq!["tab"@, "list"@, "--workspace"@, ws@]);
    Some(args)
}

/// Write literal text into the agent pane's input, without submitting: the arguments that do it.
/// The text goes through as it is, as one argument.
pub fn send_text(pane: &str, text: &str) -> (res: Vec<String>)
    ensures
        res.deep_view() == seq!["pane"@, "send-text"@, pane@, text@],
{
    let args = vec!["pane".to_owned(), "send-text".to_owned(), pane.to_owned(), text.to_owned()];
    assert(args.deep_view() =~= seq!["pane"@, "send-text"@, pane@, text@]);
    args
}

/// Focus the agent pane, so that the user can add context and submit: the arguments that
/// do it.
pub fn focus(pane: &str) -> (res: Vec<String>)
    ensures
        res.deep_view() == seq!["agent"@, "focus"@, pane@],
{
    let args = vec!["agent".to_owned(), "focus".to_owned(), pane.to_owned()];
    assert(args.deep_view() =~= seq!["agent"@, "focus"@, pane@]);
    args
}

} // verus!
