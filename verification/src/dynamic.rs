//! Rendering through a fresh copy of the running executable.
//!
//! A long-running parent asks for a template by key: it starts its own
//! executable as a child, with the key in one environment variable and the
//! encoded argument on standard input, and reads the child's exit code and
//! output. The child looks the key up among the templates it registers,
//! renders the one that matches to standard output and exits with a code of
//! the protocol.
//!
//! This module holds every decision of that exchange as a function on plain
//! values. Starting processes, reading and writing streams and encoding
//! arguments are left to the caller.

use crate::{Bytes, Encoding, Renderer, Text};
use vstd::prelude::*;
use vstd::string::StringExecFns;

pub mod laws;

verus! {

/// The environment variable that carries the requested key to the child.
pub const ENV_NAME: &'static str = "RUST_STPL_DYNAMIC_TEMPLATE_KEY";

/// Exit code of a child that rendered the requested template to standard
/// output.
pub const EXIT_CODE_SUCCESS: i32 = 66;

/// Exit code of a child that matched the requested key and then failed.
pub const EXIT_CODE_FAILED: i32 = 67;

/// Exit code of a child in which no template matched the requested key.
pub const EXIT_CODE_NOT_FOUND: i32 = 68;

/// Whether two texts are the same.
pub fn same_text(a: &str, b: &str) -> (same: bool)
    ensures
        same == (a@ == b@),
{
    let x = a.as_bytes();
    let y = b.as_bytes();
    proof {
        vstd::utf8::encode_utf8_decode_utf8(a@);
        vstd::utf8::encode_utf8_decode_utf8(b@);
    }
    if x.len() != y.len() {
        return false;
    }
    let mut i: usize = 0;
    while i < x.len()
        invariant
            i <= x.len(),
            x.len() == y.len(),
            x@ == crate::utf8(a@),
            y@ == crate::utf8(b@),
            forall|j: int| 0 <= j < i ==> x@[j] == y@[j],
        decreases x.len() - i,
    {
        if x[i] != y[i] {
            return false;
        }
        i += 1;
    }
    assert(x@ =~= y@);
    true
}

/// What the parent hands to the child it starts.
pub struct Invocation {
    /// Name of the environment variable to set.
    pub env_name: &'static str,
    /// Its value: the requested key.
    pub env_value: String,
    /// The bytes to write to the child's standard input before closing it.
    pub input: Vec<u8>,
}

/// What the child is given for a call of `key` with the encoded `argument`.
pub fn invocation(key: &str, argument: Vec<u8>) -> (call: Invocation)
    ensures
        call.env_name@ == ENV_NAME@,
        call.env_value@ == key@,
        call.input@ == argument@,
{
    Invocation { env_name: ENV_NAME, env_value: key.to_owned(), input: argument }
}

/// What the parent saw of the child.
#[derive(Debug, PartialEq, Eq)]
pub enum Report {
    /// The child could not be started, fed or awaited.
    Fault(String),
    /// The child ended. `code` is `None` where a signal ended it.
    Exit { code: Option<i32>, stdout: Vec<u8>, stderr: Vec<u8> },
}

/// A [`Report`] as the contracts see it.
pub enum ReportView {
    Fault(Text),
    Exit { code: Option<i32>, stdout: Bytes, stderr: Bytes },
}

impl View for Report {
    type V = ReportView;

    open spec fn view(&self) -> ReportView {
        match self {
            Report::Fault(cause) => ReportView::Fault(cause@),
            Report::Exit { code, stdout, stderr } => ReportView::Exit {
                code: *code,
                stdout: stdout@,
                stderr: stderr@,
            },
        }
    }
}

/// What a dynamic call came to.
#[derive(Debug, PartialEq, Eq)]
pub enum Outcome {
    /// The child rendered the template: its output.
    Success(Vec<u8>),
    /// No template in the child has the key.
    NotFound(String),
    /// The child ended in any other way.
    Failed { exit_code: Option<i32>, stdout: Vec<u8>, stderr: Vec<u8> },
    /// The child could not be started, fed or awaited.
    IoError(String),
}

/// An [`Outcome`] as the contracts see it.
pub enum OutcomeView {
    Success(Bytes),
    NotFound(Text),
    Failed { exit_code: Option<i32>, stdout: Bytes, stderr: Bytes },
    IoError(Text),
}

impl View for Outcome {
    type V = OutcomeView;

    open spec fn view(&self) -> OutcomeView {
        match self {
            Outcome::Success(output) => OutcomeView::Success(output@),
            Outcome::NotFound(key) => OutcomeView::NotFound(key@),
            Outcome::Failed { exit_code, stdout, stderr } => OutcomeView::Failed {
                exit_code: *exit_code,
                stdout: stdout@,
                stderr: stderr@,
            },
            Outcome::IoError(cause) => OutcomeView::IoError(cause@),
        }
    }
}

/// The outcome of a call of `key` of which the parent saw `report`.
///
/// Only the exit code decides among the first three outcomes: the code for
/// success hands the child's standard output on, the code for an unknown key
/// names the key, and any other code, or none, is a failure that carries all
/// that was seen.
pub open spec fn outcome_of(key: Text, report: ReportView) -> OutcomeView {
    match report {
        ReportView::Fault(cause) => OutcomeView::IoError(cause),
        ReportView::Exit { code, stdout, stderr } => {
            if code == Some(EXIT_CODE_SUCCESS) {
                OutcomeView::Success(stdout)
            } else if code == Some(EXIT_CODE_NOT_FOUND) {
                OutcomeView::NotFound(key)
            } else {
                OutcomeView::Failed { exit_code: code, stdout, stderr }
            }
        },
    }
}

/// Classifies what the parent saw of the child it started for `key`.
pub fn classify(key: &str, report: Report) -> (outcome: Outcome)
    ensures
        outcome@ == outcome_of(key@, report@),
{
    match report {
        Report::Fault(cause) => Outcome::IoError(cause),
        Report::Exit { code, stdout, stderr } => {
            match code {
                Some(c) => {
                    if c == EXIT_CODE_SUCCESS {
                        Outcome::Success(stdout)
                    } else if c == EXIT_CODE_NOT_FOUND {
                        Outcome::NotFound(key.to_owned())
                    } else {
                        Outcome::Failed { exit_code: code, stdout, stderr }
                    }
                },
                None => Outcome::Failed { exit_code: code, stdout, stderr },
            }
        },
    }
}

/// How a child ends: its exit code, and the line it prints to standard error
/// first, empty where it prints none.
#[derive(Debug, PartialEq, Eq)]
pub struct Exit {
    pub code: i32,
    pub message: String,
}

/// An [`Exit`] as the contracts see it.
pub struct ExitView {
    pub code: i32,
    pub message: Text,
}

impl View for Exit {
    type V = ExitView;

    open spec fn view(&self) -> ExitView {
        ExitView { code: self.code, message: self.message@ }
    }
}

/// The end of a child whose template is on standard output.
pub open spec fn success_exit() -> ExitView {
    ExitView { code: EXIT_CODE_SUCCESS, message: Seq::empty() }
}

/// The end of a child that matched the requested key and then failed for
/// `cause`.
pub open spec fn failure_exit(cause: Text) -> ExitView {
    ExitView { code: EXIT_CODE_FAILED, message: "Dynamic template failed: "@ + cause }
}

/// The end of a child in which nothing matched the requested `key`.
pub open spec fn not_found_exit(key: Text) -> ExitView {
    ExitView {
        code: EXIT_CODE_NOT_FOUND,
        message: "Couldn't find dynamic template by key: "@ + key,
    }
}

/// Ends a child whose template is on standard output.
pub fn succeeded() -> (exit: Exit)
    ensures
        exit@ == success_exit(),
{
    Exit { code: EXIT_CODE_SUCCESS, message: String::new() }
}

/// Ends a child that matched the requested key and then failed for `cause`.
pub fn failed(cause: &str) -> (exit: Exit)
    ensures
        exit@ == failure_exit(cause@),
{
    let mut message = "Dynamic template failed: ".to_owned();
    message.append(cause);
    Exit { code: EXIT_CODE_FAILED, message }
}

/// Ends a child in which nothing matched the requested `key`.
pub fn not_found(key: &str) -> (exit: Exit)
    ensures
        exit@ == not_found_exit(key@),
{
    let mut message = "Couldn't find dynamic template by key: ".to_owned();
    message.append(key);
    Exit { code: EXIT_CODE_NOT_FOUND, message }
}

/// A template that can be called by key.
pub trait Template {
    /// What the template is rendered for.
    type Argument;

    /// The key under which the template is registered.
    spec fn key_text(&self) -> Text;

    /// The markup of the template for `argument`, for a renderer that encodes
    /// ordinary text with `enc`.
    spec fn page(&self, argument: &Self::Argument, enc: Encoding) -> Bytes;

    /// The key under which the template is registered.
    fn key(&self) -> (key: &str)
        ensures
            key@ == self.key_text(),
    ;

    /// Fills the template in and writes it to `r`. Fails only where `r` does.
    fn render<R: Renderer>(&self, argument: &Self::Argument, r: &mut R) -> (res: Result<
        (),
        std::io::Error,
    >)
        ensures
            crate::appended(
                old(r).written(),
                final(r).written(),
                self.page(argument, R::encoding()),
                res is Ok,
            ),
            R::infallible() ==> res is Ok,
    ;
}

/// Renders the matched `template` for the argument the child decoded from
/// its standard input: the bytes for standard output. Where reading or
/// decoding failed, `argument` holds the reason and the answer is the child's
/// end.
pub fn respond<T: Template>(template: &T, argument: Result<T::Argument, String>) -> (reply: Result<
    Vec<u8>,
    Exit,
>)
    ensures
        argument matches Ok(a) ==> reply matches Ok(page) && page@ == template.page(
            &a,
            crate::html::escaping(),
        ),
        argument matches Err(cause) ==> reply matches Err(exit) && exit@ == failure_exit(cause@),
{
    match argument {
        Ok(a) => {
            let mut page: Vec<u8> = Vec::new();
            let res = template.render(&a, &mut page);
            Ok(page)
        },
        Err(cause) => Err(failed(cause.as_str())),
    }
}

/// Ends a child after it tried to put its reply on standard output: `written`
/// holds the reason where writing or flushing failed.
pub fn finished(written: Result<(), String>) -> (exit: Exit)
    ensures
        written is Ok ==> exit@ == success_exit(),
        written matches Err(cause) ==> exit@ == failure_exit(cause@),
{
    match written {
        Ok(()) => succeeded(),
        Err(cause) => failed(cause.as_str()),
    }
}

/// The text of a string that may be absent.
pub open spec fn text_of(value: Option<String>) -> Option<Text> {
    match value {
        Some(text) => Some(text@),
        None => None,
    }
}

/// The guard of a child's startup as the contracts see it.
pub struct GuardView {
    /// The key found in the environment, if the variable was set.
    pub requested: Option<Text>,
    /// Whether no template has matched yet.
    pub armed: bool,
}

impl GuardView {
    /// Whether offering `key` dispatches.
    pub open spec fn matches(self, key: Text) -> bool {
        self.armed && self.requested == Some(key)
    }

    /// The guard after `key` was offered: a match disarms it.
    pub open spec fn offer(self, key: Text) -> GuardView {
        GuardView { requested: self.requested, armed: self.armed && !self.matches(key) }
    }

    /// The guard after each of `keys` was offered in turn.
    pub open spec fn offer_all(self, keys: Seq<Text>) -> GuardView
        decreases keys.len(),
    {
        if keys.len() == 0 {
            self
        } else {
            self.offer_all(keys.drop_last()).offer(keys.last())
        }
    }

    /// How many of `keys`, offered in turn, dispatch.
    pub open spec fn dispatches(self, keys: Seq<Text>) -> nat
        decreases keys.len(),
    {
        if keys.len() == 0 {
            0
        } else {
            let before = self.dispatches(keys.drop_last());
            if self.offer_all(keys.drop_last()).matches(keys.last()) {
                before + 1
            } else {
                before
            }
        }
    }

    /// The end that the guard imposes when startup is over: none unless it is
    /// still armed and a key was requested that is not empty.
    pub open spec fn finish(self) -> Option<ExitView> {
        match self.requested {
            Some(key) if self.armed && key.len() > 0 => Some(not_found_exit(key)),
            _ => None,
        }
    }
}

/// The guard of a child's startup.
///
/// It is made once from the value of the environment variable, offered the
/// key of each registered template, and finished when all were offered. It
/// starts armed; the one offer that matches disarms it.
pub struct HandleDynamic {
    requested: Option<String>,
    armed: bool,
}

impl View for HandleDynamic {
    type V = GuardView;

    closed spec fn view(&self) -> GuardView {
        GuardView { requested: text_of(self.requested), armed: self.armed }
    }
}

/// The guard for a process that found `requested` in the environment
/// variable [`ENV_NAME`].
pub fn handle_dynamic(requested: Option<String>) -> (guard: HandleDynamic)
    ensures
        guard@.armed,
        guard@.requested == text_of(requested),
{
    HandleDynamic { requested, armed: true }
}

impl HandleDynamic {
    /// Offers the template registered under `key`. Returns whether it is the
    /// one to dispatch: the process then renders it and ends.
    pub fn try_dispatch(&mut self, key: &str) -> (hit: bool)
        ensures
            hit == old(self)@.matches(key@),
            final(self)@ == old(self)@.offer(key@),
    {
        if !self.armed {
            return false;
        }
        let hit = match &self.requested {
            Some(requested) => same_text(requested.as_str(), key),
            None => false,
        };
        if hit {
            self.armed = false;
        }
        hit
    }

    /// Ends startup. Returns the end of the process where a key was requested
    /// that no offer matched.
    pub fn finish(self) -> (exit: Option<Exit>)
        ensures
            match exit {
                Some(exit) => self@.finish() == Some(exit@),
                None => self@.finish().is_none(),
            },
    {
        if !self.armed {
            return None;
        }
        match self.requested {
            Some(key) => {
                if !key.as_str().is_empty() {
                    Some(not_found(key.as_str()))
                } else {
                    None
                }
            },
            None => None,
        }
    }
}

/// What a process does once its startup is over.
#[derive(Debug, PartialEq, Eq)]
pub enum Startup {
    /// Render the template registered at this position, and end.
    Dispatch(usize),
    /// End at once: a key was requested that no template has.
    NotFound(Exit),
    /// Go on as an ordinary program.
    Proceed,
}

/// A [`Startup`] as the contracts see it.
pub enum StartupView {
    Dispatch(int),
    NotFound(ExitView),
    Proceed,
}

impl View for Startup {
    type V = StartupView;

    open spec fn view(&self) -> StartupView {
        match self {
            Startup::Dispatch(position) => StartupView::Dispatch(*position as int),
            Startup::NotFound(exit) => StartupView::NotFound(exit@),
            Startup::Proceed => StartupView::Proceed,
        }
    }
}

/// The texts of a run of strings.
pub open spec fn texts(keys: Seq<String>) -> Seq<Text> {
    Seq::new(keys.len(), |i: int| keys[i]@)
}

/// What a process does that found `requested` in the environment and
/// registers templates under `keys`, in this order.
///
/// A requested key dispatches the first template registered under it. A
/// requested key that is not registered ends the process, unless it is empty.
/// In every other case the process goes on as an ordinary program.
pub open spec fn startup_of(requested: Option<Text>, keys: Seq<Text>) -> StartupView {
    match requested {
        Some(key) => match keys.index_of_first(key) {
            Some(position) => StartupView::Dispatch(position),
            None => if key.len() > 0 {
                StartupView::NotFound(not_found_exit(key))
            } else {
                StartupView::Proceed
            },
        },
        None => StartupView::Proceed,
    }
}

/// Runs the startup of a process that found `requested` in the environment
/// variable [`ENV_NAME`] and registers templates under `keys`: makes the
/// guard, offers it each key in turn and finishes it.
pub fn startup(requested: Option<String>, keys: &Vec<String>) -> (start: Startup)
    ensures
        start@ == startup_of(text_of(requested), texts(keys@)),
{
    let ghost asked = text_of(requested);
    let ghost all = texts(keys@);
    let mut guard = handle_dynamic(requested);
    let mut i: usize = 0;
    while i < keys.len()
        invariant
            i <= keys.len(),
            all == texts(keys@),
            asked == text_of(requested),
            guard@ == (GuardView { requested: asked, armed: true }),
            forall|j: int| 0 <= j < i ==> asked != Some(#[trigger] all[j]),
        decreases keys.len() - i,
    {
        if guard.try_dispatch(keys[i].as_str()) {
            proof {
                all.index_of_first_ensures(all[i as int]);
            }
            return Startup::Dispatch(i);
        }
        i += 1;
    }
    proof {
        if let Some(key) = asked {
            all.index_of_first_ensures(key);
        }
    }
    match guard.finish() {
        Some(exit) => Startup::NotFound(exit),
        None => Startup::Proceed,
    }
}

} // verus!
