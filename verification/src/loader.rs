//! Loading a verb: where its file is, and what each outcome of looking for
//! it, reading it and parsing it leads to.
//!
//! The library touches no file and parses no document. It says what is to be
//! done next, as a [`LoadStep`]; whoever drives the load does it and reports
//! what came of it, as a [`LoadEvent`]; [`advance`] then gives the next step.
//! A load ends with a whole verb or with a [`LoadError`], never with part of
//! a verb.

use crate::verb::VerbConjugation;
use vstd::prelude::*;

verus! {

/// Why a verb could not be loaded.
#[derive(Debug, PartialEq, Eq)]
pub enum LoadError {
    /// There is no file for the verb.
    NotFound,
    /// The file is there but could not be read; with the reason given.
    ReadError(String),
    /// The text of the file is not a verb; with the parser's complaint.
    SchemaError(String),
}

/// What is to be done next for a load.
#[derive(Debug, PartialEq, Eq)]
pub enum LoadStep {
    /// Show `notice`, then find out whether there is a file at `path`.
    Probe { path: String, notice: String },
    /// Read the file at `path`.
    Read { path: String },
    /// Parse `text` as a verb.
    Parse { text: String },
    /// Nothing: the load has ended, with the verb or with the reason why not.
    Done(Result<VerbConjugation, LoadError>),
}

/// What came of a step.
#[derive(Debug, PartialEq, Eq)]
pub enum LoadEvent {
    /// Whether there is a file at the path.
    Exists(bool),
    /// The file was read; its text.
    Contents(String),
    /// The file could not be read; the reason.
    Unreadable(String),
    /// The text is a verb; the verb.
    Record(VerbConjugation),
    /// The text is not a verb; the parser's complaint.
    Malformed(String),
}

/// The directory in which verb files are looked for by default.
pub open spec fn spec_default_root() -> Seq<char> {
    "verbs"@
}

/// The path of the file of `verb` under `root`.
pub open spec fn spec_verb_path(root: Seq<char>, verb: Seq<char>) -> Seq<char> {
    root + "/"@ + verb + ".yml"@
}

/// The line that announces which file is about to be loaded.
pub open spec fn spec_loading_notice(path: Seq<char>) -> Seq<char> {
    "Loading verb file: "@ + path
}

/// The step that follows `step` once `event` has come of it. An event that
/// does not answer the step leaves the step as it is; so does any event once
/// the load has ended.
pub open spec fn spec_advance(step: LoadStep, event: LoadEvent) -> LoadStep {
    match (step, event) {
        (LoadStep::Probe { path, notice }, LoadEvent::Exists(true)) => LoadStep::Read { path },
        (LoadStep::Probe { path, notice }, LoadEvent::Exists(false)) => LoadStep::Done(
            Err(LoadError::NotFound),
        ),
        (LoadStep::Read { path }, LoadEvent::Contents(text)) => LoadStep::Parse { text },
        (LoadStep::Read { path }, LoadEvent::Unreadable(reason)) => LoadStep::Done(
            Err(LoadError::ReadError(reason)),
        ),
        (LoadStep::Parse { text }, LoadEvent::Record(record)) => LoadStep::Done(Ok(record)),
        (LoadStep::Parse { text }, LoadEvent::Malformed(complaint)) => LoadStep::Done(
            Err(LoadError::SchemaError(complaint)),
        ),
        (step, _) => step,
    }
}

impl LoadError {
    /// The message that tells a person why the load failed: a fixed sentence
    /// for a missing file, otherwise the reason or complaint as it was given.
    pub open spec fn spec_message(self) -> Seq<char> {
        match self {
            LoadError::NotFound => "The specified verb file does not exist."@,
            LoadError::ReadError(reason) => reason@,
            LoadError::SchemaError(complaint) => complaint@,
        }
    }

    /// Writes the message: see [`LoadError::spec_message`].
    pub fn message(&self) -> (message: String)
        ensures
            message@ == self.spec_message(),
    {
        match self {
            LoadError::NotFound => String::from_str("The specified verb file does not exist."),
            LoadError::ReadError(reason) => reason.clone(),
            LoadError::SchemaError(complaint) => complaint.clone(),
        }
    }
}

/// The directory in which verb files are looked for by default.
pub fn default_root() -> (root: &'static str)
    ensures
        root@ == spec_default_root(),
{
    "verbs"
}

/// Writes the path of the file of `verb` under `root`: the root, a slash,
/// the verb as it is given, and the extension `.yml`.
pub fn verb_path(root: &str, verb: &str) -> (path: String)
    ensures
        path@ == spec_verb_path(root@, verb@),
{
    let mut path = String::from_str(root);
    path.append("/");
    path.append(verb);
    path.append(".yml");
    path
}

/// Writes the line that announces which file is about to be loaded.
pub fn loading_notice(path: &str) -> (notice: String)
    ensures
        notice@ == spec_loading_notice(path@),
{
    let mut notice = String::from_str("Loading verb file: ");
    notice.append(path);
    notice
}

/// The first step of loading `verb` from under `root`: announcing its path
/// and looking for its file.
pub fn begin(root: &str, verb: &str) -> (step: LoadStep)
    ensures
        step matches LoadStep::Probe { path, notice } && path@ == spec_verb_path(root@, verb@)
            && notice@ == spec_loading_notice(path@),
{
    let path = verb_path(root, verb);
    let notice = loading_notice(path.as_str());
    LoadStep::Probe { path, notice }
}

/// The step that follows `step` once `event` has come of it: see
/// [`spec_advance`].
pub fn advance(step: LoadStep, event: LoadEvent) -> (next: LoadStep)
    ensures
        next == spec_advance(step, event),
{
    match step {
        LoadStep::Probe { path, notice } => match event {
            LoadEvent::Exists(true) => LoadStep::Read { path },
            LoadEvent::Exists(false) => LoadStep::Done(Err(LoadError::NotFound)),
            _ => LoadStep::Probe { path, notice },
        },
        LoadStep::Read { path } => match event {
            LoadEvent::Contents(text) => LoadStep::Parse { text },
            LoadEvent::Unreadable(reason) => LoadStep::Done(Err(LoadError::ReadError(reason))),
            _ => LoadStep::Read { path },
        },
        LoadStep::Parse { text } => match event {
            LoadEvent::Record(record) => LoadStep::Done(Ok(record)),
            LoadEvent::Malformed(complaint) => LoadStep::Done(
                Err(LoadError::SchemaError(complaint)),
            ),
            _ => LoadStep::Parse { text },
        },
        LoadStep::Done(outcome) => LoadStep::Done(outcome),
    }
}

/// Where no file is found, the load ends at once with `NotFound`: nothing is
/// read, nothing is parsed, and there is no verb.
pub proof fn lemma_missing_file_ends_load(path: String, notice: String)
    ensures
        spec_advance(LoadStep::Probe { path, notice }, LoadEvent::Exists(false)) == LoadStep::Done(
            Err(LoadError::NotFound),
        ),
{
}

/// Where the text is reported as malformed, the load ends with `SchemaError`
/// and the complaint as it was given, and there is no verb.
pub proof fn lemma_malformed_text_ends_load(text: String, complaint: String)
    ensures
        spec_advance(LoadStep::Parse { text }, LoadEvent::Malformed(complaint)) == LoadStep::Done(
            Err(LoadError::SchemaError(complaint)),
        ),
{
}

/// A load yields a verb in one way only: a file was found, it was read, and
/// its text was parsed into that verb. A load that has ended stays as it
/// ended.
pub proof fn lemma_verb_only_from_parsed_text(
    step: LoadStep,
    event: LoadEvent,
    record: VerbConjugation,
)
    ensures
        step is Done ==> spec_advance(step, event) == step,
        !(step is Done) && spec_advance(step, event) == LoadStep::Done(Ok(record)) ==> step is Parse
            && event == LoadEvent::Record(record),
{
}

} // verus!
