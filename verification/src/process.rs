//! The boundary to the world outside.
//!
//! The library never runs a tool and never touches a file. Where a build or a
//! proof needs that, it hands out an [`Action`]; whoever drives it performs
//! the action and hands back the [`Event`] that tells how it went. What is
//! decided in between is decided here.

use crate::error::{Failure, StellarZkError};
use crate::json::{JsonModel, JsonValue};
use crate::text::texts;
use vstd::prelude::*;
use vstd::string::StrSliceExecFns;

verus! {

/// One run of an outside tool.
#[derive(Debug)]
pub struct ToolCall {
    /// Name or path of the program.
    pub program: String,
    /// Its arguments, in order.
    pub args: Vec<String>,
    /// The directory to run it in; the driver's own where there is none.
    pub cwd: Option<String>,
    /// Variables added to its environment.
    pub env: Vec<(String, String)>,
}

/// The mathematical value of a [`ToolCall`].
pub struct ToolCallModel {
    pub program: Seq<char>,
    pub args: Seq<Seq<char>>,
    pub cwd: Option<Seq<char>>,
    pub env: Seq<(Seq<char>, Seq<char>)>,
}

/// The texts that a list of pairs of strings holds.
pub open spec fn text_pairs(items: Seq<(String, String)>) -> Seq<(Seq<char>, Seq<char>)> {
    Seq::new(items.len(), |i: int| (items[i].0@, items[i].1@))
}

/// The text of a string that may be missing.
pub open spec fn text_of(item: Option<String>) -> Option<Seq<char>> {
    match item {
        Some(s) => Some(s@),
        None => None,
    }
}

impl View for ToolCall {
    type V = ToolCallModel;

    open spec fn view(&self) -> ToolCallModel {
        ToolCallModel {
            program: self.program@,
            args: texts(self.args@),
            cwd: text_of(self.cwd),
            env: text_pairs(self.env@),
        }
    }
}

/// The runs that a list of tool calls holds.
pub open spec fn calls_of(calls: Seq<ToolCall>) -> Seq<ToolCallModel> {
    Seq::new(calls.len(), |i: int| calls[i]@)
}

/// What the driver is asked to do.
#[derive(Debug)]
pub enum Action {
    /// Run a tool, wait for it, and capture what it prints.
    Run(ToolCall),
    /// Create a directory and those above it.
    CreateDirAll { path: String },
    /// Tell whether a path exists.
    Exists { path: String },
    /// Read a file as text.
    ReadText { path: String },
    /// Read a file as bytes.
    ReadBytes { path: String },
    /// Read a file as a JSON document.
    ReadJson { path: String },
    /// Write a file.
    Write { path: String, content: Vec<u8> },
    /// Write a JSON document to a file, one member a line where `pretty`.
    WriteJson { path: String, value: JsonValue, pretty: bool },
    /// Copy a file.
    Copy { from: String, to: String },
    /// Remove a file.
    Remove { path: String },
    /// Measure a file in bytes.
    Size { path: String },
    /// List the entries of a directory by their paths.
    ListDir { path: String },
    /// Tell the user of something that does not stop the work.
    Warn { message: String },
}

/// The mathematical value of an [`Action`].
pub enum ActionModel {
    Run(ToolCallModel),
    CreateDirAll { path: Seq<char> },
    Exists { path: Seq<char> },
    ReadText { path: Seq<char> },
    ReadBytes { path: Seq<char> },
    ReadJson { path: Seq<char> },
    Write { path: Seq<char>, content: Seq<u8> },
    WriteJson { path: Seq<char>, value: JsonModel, pretty: bool },
    Copy { from: Seq<char>, to: Seq<char> },
    Remove { path: Seq<char> },
    Size { path: Seq<char> },
    ListDir { path: Seq<char> },
    Warn { message: Seq<char> },
}

impl View for Action {
    type V = ActionModel;

    open spec fn view(&self) -> ActionModel {
        match self {
            Action::Run(call) => ActionModel::Run(call@),
            Action::CreateDirAll { path } => ActionModel::CreateDirAll { path: path@ },
            Action::Exists { path } => ActionModel::Exists { path: path@ },
            Action::ReadText { path } => ActionModel::ReadText { path: path@ },
            Action::ReadBytes { path } => ActionModel::ReadBytes { path: path@ },
            Action::ReadJson { path } => ActionModel::ReadJson { path: path@ },
            Action::WriteJson { path, value, pretty } => ActionModel::WriteJson {
                path: path@,
                value: value@,
                pretty: *pretty,
            },
            Action::Write { path, content } => ActionModel::Write {
                path: path@,
                content: content@,
            },
            Action::Copy { from, to } => ActionModel::Copy { from: from@, to: to@ },
            Action::Remove { path } => ActionModel::Remove { path: path@ },
            Action::Size { path } => ActionModel::Size { path: path@ },
            Action::ListDir { path } => ActionModel::ListDir { path: path@ },
            Action::Warn { message } => ActionModel::Warn { message: message@ },
        }
    }
}

impl ActionModel {
    /// An action that changes what is on disk.
    pub open spec fn mutates(self) -> bool {
        self is CreateDirAll || self is Write || self is WriteJson || self is Copy
            || self is Remove || self is Run
    }
}

/// What came of an action.
#[derive(Debug)]
pub enum Event {
    /// The action was carried out and has nothing to tell.
    Done,
    /// The tool ran to its end.
    Exited { success: bool, stdout: String, stderr: String },
    /// The tool was not found, or the file was not.
    NotFound { message: String },
    /// The action failed otherwise; the text is the system's.
    Failed { message: String },
    /// Whether the path exists.
    Exists(bool),
    /// The text of the file.
    Text(String),
    /// The bytes of the file.
    Bytes(Vec<u8>),
    /// The JSON document that the file holds.
    Json(JsonValue),
    /// The file holds no JSON document; the text is the parser's.
    Malformed { message: String },
    /// The size of the file in bytes.
    Size(u64),
    /// The paths of the directory's entries.
    Entries(Vec<String>),
}

/// The mathematical value of an [`Event`].
pub enum EventModel {
    Done,
    Exited { success: bool, stdout: Seq<char>, stderr: Seq<char> },
    NotFound { message: Seq<char> },
    Failed { message: Seq<char> },
    Exists(bool),
    Text(Seq<char>),
    Bytes(Seq<u8>),
    Json(JsonModel),
    Malformed { message: Seq<char> },
    Size(u64),
    Entries(Seq<Seq<char>>),
}

impl View for Event {
    type V = EventModel;

    open spec fn view(&self) -> EventModel {
        match self {
            Event::Done => EventModel::Done,
            Event::Exited { success, stdout, stderr } => EventModel::Exited {
                success: *success,
                stdout: stdout@,
                stderr: stderr@,
            },
            Event::NotFound { message } => EventModel::NotFound { message: message@ },
            Event::Failed { message } => EventModel::Failed { message: message@ },
            Event::Exists(b) => EventModel::Exists(*b),
            Event::Text(s) => EventModel::Text(s@),
            Event::Bytes(b) => EventModel::Bytes(b@),
            Event::Json(value) => EventModel::Json(value@),
            Event::Malformed { message } => EventModel::Malformed { message: message@ },
            Event::Size(n) => EventModel::Size(*n),
            Event::Entries(e) => EventModel::Entries(texts(e@)),
        }
    }
}

/// Where a piece of work stands: it asks for an action and keeps a state to
/// go on from, or it has ended, well or not.
#[derive(Debug)]
pub enum Step<S, T> {
    /// `action` is to be performed and its event handed to `state`.
    Perform { action: Action, state: S },
    /// The work is done.
    Finished(T),
    /// The work has failed.
    Stopped(StellarZkError),
}

/// The mathematical value of a [`Step`].
pub enum StepModel<S, T> {
    Perform { action: ActionModel, state: S },
    Finished(T),
    Stopped(Failure),
}

impl<S: View, T: View> View for Step<S, T> {
    type V = StepModel<S::V, T::V>;

    open spec fn view(&self) -> StepModel<S::V, T::V> {
        match self {
            Step::Perform { action, state } => StepModel::Perform {
                action: action@,
                state: state@,
            },
            Step::Finished(value) => StepModel::Finished(value@),
            Step::Stopped(error) => StepModel::Stopped(error@),
        }
    }
}

/// The text to show for an event that does not answer the action asked for.
pub open spec fn out_of_turn() -> Seq<char> {
    "the event does not answer the action"@
}

/// The failure that a failed file operation stands for, and `None` for an
/// event that reports no failure.
pub open spec fn io_failure(event: EventModel) -> Option<Failure> {
    match event {
        EventModel::NotFound { message } => Some(Failure::Io(message)),
        EventModel::Failed { message } => Some(Failure::Io(message)),
        _ => None,
    }
}

/// The error for an event that does not answer the action asked for.
pub fn unexpected() -> (error: StellarZkError)
    ensures
        error@ == Failure::Other(out_of_turn()),
{
    StellarZkError::Other("the event does not answer the action".to_owned())
}

/// A run of `program` with `args`, in the driver's own directory.
pub fn tool_call(program: &str, args: Vec<String>) -> (call: ToolCall)
    ensures
        call@ == (ToolCallModel {
            program: program@,
            args: texts(args@),
            cwd: None,
            env: Seq::empty(),
        }),
{
    let call = ToolCall { program: program.to_owned(), args, cwd: None, env: Vec::new() };
    assert(call@.env =~= Seq::empty());
    call
}

/// A run of `program` with `args` in the directory `cwd`.
pub fn tool_call_in(program: &str, args: Vec<String>, cwd: &str) -> (call: ToolCall)
    ensures
        call@ == (ToolCallModel {
            program: program@,
            args: texts(args@),
            cwd: Some(cwd@),
            env: Seq::empty(),
        }),
{
    let call = ToolCall {
        program: program.to_owned(),
        args,
        cwd: Some(cwd.to_owned()),
        env: Vec::new(),
    };
    assert(call@.env =~= Seq::empty());
    call
}

/// What the failure of a tool is held to be.
#[derive(Debug, Clone, Copy, PartialEq, Eq, Structural)]
pub enum Blame {
    /// The circuit or program did not compile.
    Compilation,
    /// The proof could not be made.
    Proof,
}

impl Blame {
    /// The failure of this kind with `text` as its diagnostic.
    pub open spec fn failure(self, text: Seq<char>) -> Failure {
        match self {
            Blame::Compilation => Failure::CircuitCompilation(text),
            Blame::Proof => Failure::ProofGeneration(text),
        }
    }

    /// The error of this kind with `text` as its diagnostic.
    pub fn error(self, text: String) -> (error: StellarZkError)
        ensures
            error@ == self.failure(text@),
    {
        match self {
            Blame::Compilation => StellarZkError::CircuitCompilation(text),
            Blame::Proof => StellarZkError::ProofGeneration(text),
        }
    }
}

/// How the failures of one tool are told.
///
/// What the tool wrote as errors follows `failed`; what the system said when
/// the tool could not be started follows `unstarted`. A tool with a name in
/// `tool` is reported as missing, with `install` as the advice, where the
/// system did not find it.
pub struct Telling<'a> {
    pub blame: Blame,
    pub failed: &'a str,
    pub unstarted: &'a str,
    pub tool: &'a str,
    pub install: &'a str,
}

/// The mathematical value of a [`Telling`].
pub struct TellingModel {
    pub blame: Blame,
    pub failed: Seq<char>,
    pub unstarted: Seq<char>,
    pub tool: Seq<char>,
    pub install: Seq<char>,
}

impl<'a> View for Telling<'a> {
    type V = TellingModel;

    open spec fn view(&self) -> TellingModel {
        TellingModel {
            blame: self.blame,
            failed: self.failed@,
            unstarted: self.unstarted@,
            tool: self.tool@,
            install: self.install@,
        }
    }
}

/// What went wrong with the run of a tool, if anything. The diagnostic of
/// the tool is handed on as it is.
pub open spec fn tool_failure(event: EventModel, telling: TellingModel) -> Option<Failure> {
    match event {
        EventModel::Exited { success, stdout, stderr } => if success {
            None
        } else {
            Some(telling.blame.failure(telling.failed + stderr))
        },
        EventModel::NotFound { message } => if telling.tool.len() > 0 {
            Some(Failure::MissingTool { name: telling.tool, install: telling.install })
        } else {
            Some(telling.blame.failure(telling.unstarted + message))
        },
        EventModel::Failed { message } => Some(telling.blame.failure(telling.unstarted + message)),
        _ => Some(Failure::Other(out_of_turn())),
    }
}

/// Tells what went wrong with the run of a tool, if anything.
pub fn check_tool(event: Event, telling: &Telling) -> (r: Option<StellarZkError>)
    ensures
        match r {
            Some(error) => tool_failure(event@, telling@) == Some(error@),
            None => tool_failure(event@, telling@) is None,
        },
{
    match event {
        Event::Exited { success, stdout, stderr } => if success {
            None
        } else {
            let mut text = telling.failed.to_owned();
            text.append(stderr.as_str());
            Some(telling.blame.error(text))
        },
        Event::NotFound { message } => if telling.tool.unicode_len() > 0 {
            Some(
                StellarZkError::MissingTool {
                    name: telling.tool.to_owned(),
                    install: telling.install.to_owned(),
                },
            )
        } else {
            let mut text = telling.unstarted.to_owned();
            text.append(message.as_str());
            Some(telling.blame.error(text))
        },
        Event::Failed { message } => {
            let mut text = telling.unstarted.to_owned();
            text.append(message.as_str());
            Some(telling.blame.error(text))
        },
        _ => Some(unexpected()),
    }
}

/// What went wrong with an action on files, if anything: a failure that the
/// system reports is handed on as it is.
pub open spec fn file_failure(event: EventModel) -> Option<Failure> {
    match event {
        EventModel::Done => None,
        EventModel::NotFound { message } => Some(Failure::Io(message)),
        EventModel::Failed { message } => Some(Failure::Io(message)),
        _ => Some(Failure::Other(out_of_turn())),
    }
}

/// Tells what went wrong with an action on files that has nothing to hand
/// back, if anything.
pub fn check_done(event: Event) -> (r: Option<StellarZkError>)
    ensures
        match r {
            Some(error) => file_failure(event@) == Some(error@),
            None => file_failure(event@) is None,
        },
{
    match event {
        Event::Done => None,
        Event::NotFound { message } => Some(StellarZkError::Io(message)),
        Event::Failed { message } => Some(StellarZkError::Io(message)),
        _ => Some(unexpected()),
    }
}

/// What a tool wrote as errors is handed on word for word, where nothing is
/// put in front of it: a run that failed is told with exactly that text.
pub proof fn lemma_diagnostic_is_handed_on(
    stdout: Seq<char>,
    stderr: Seq<char>,
    telling: TellingModel,
)
    requires
        telling.failed.len() == 0,
    ensures
        tool_failure(EventModel::Exited { success: false, stdout, stderr }, telling) == Some(
            telling.blame.failure(stderr),
        ),
        tool_failure(EventModel::Exited { success: true, stdout, stderr }, telling) is None,
{
    assert(telling.failed + stderr =~= stderr);
}

} // verus!
