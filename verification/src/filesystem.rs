//! The target-path validator.
//!
//! Validation runs as a small state machine over plain values.  The
//! driver that owns the filesystem and the console walks the machine:
//! it performs the probe or the action the current state calls for and
//! hands the outcome back in, until the [`Validation::Done`] state is
//! reached.  Every decision — how the input is normalized, how an
//! existing entry is classified, how an answer line is read, and which
//! error each failure yields — is taken here.

use crate::prompt::Answer;
use crate::prompt::classify_answer;
use crate::prompt::spec_answer;
use vstd::prelude::*;
use vstd::string::StrSliceExecFns;

verus! {

/// Why validation of a target path failed.
#[derive(Debug)]
pub enum ValidationError {
    /// The user declined to create the missing parent directory.
    UserAbort,
    /// The resolved path exists but is not a regular file.
    TargetIsADir,
    /// The working directory could not be obtained, or the path could not
    /// be canonicalized; carries the operating-system error text.
    EnvError(String),
    /// The missing parent chain could not be created; carries the
    /// operating-system error text.
    BuildDirErr(String),
}

/// Ghost image of [`ValidationError`], with each wrapped message as a
/// character sequence.
pub enum ErrorView {
    UserAbort,
    TargetIsADir,
    EnvError(Seq<char>),
    BuildDirErr(Seq<char>),
}

impl View for ValidationError {
    type V = ErrorView;

    open spec fn view(&self) -> ErrorView {
        match self {
            ValidationError::UserAbort => ErrorView::UserAbort,
            ValidationError::TargetIsADir => ErrorView::TargetIsADir,
            ValidationError::EnvError(msg) => ErrorView::EnvError(msg@),
            ValidationError::BuildDirErr(msg) => ErrorView::BuildDirErr(msg@),
        }
    }
}

/// The text that describes each failure, without the reporting prefix.
pub open spec fn spec_description(e: ErrorView) -> Seq<char> {
    match e {
        ErrorView::UserAbort => "Abort by user."@,
        ErrorView::TargetIsADir => "The selected target is a directory, not a file."@,
        ErrorView::EnvError(msg) => msg,
        ErrorView::BuildDirErr(msg) => msg,
    }
}

impl ValidationError {
    /// The human-readable cause of the failure.
    pub fn description(&self) -> (d: &str)
        ensures
            d@ == spec_description(self@),
    {
        match self {
            ValidationError::UserAbort => "Abort by user.",
            ValidationError::TargetIsADir => "The selected target is a directory, not a file.",
            ValidationError::EnvError(msg) => msg.as_str(),
            ValidationError::BuildDirErr(msg) => msg.as_str(),
        }
    }

    /// The full user-facing report: the description behind the
    /// `"[ERROR] "` prefix.
    pub fn message(&self) -> (m: String)
        ensures
            m@ == "[ERROR] "@ + spec_description(self@),
    {
        let mut m = "[ERROR] ".to_owned();
        m.append(self.description());
        m
    }
}

/// An absolute path begins with the root separator, as on Unix-like
/// systems; every other path is relative.
pub open spec fn is_absolute_path(path: Seq<char>) -> bool {
    path.len() > 0 && path[0] == '/'
}

/// Whether `path` is already absolute.
pub fn path_is_absolute(path: &str) -> (b: bool)
    ensures
        b == is_absolute_path(path@),
{
    if path.is_empty() {
        false
    } else {
        path.get_char(0) == '/'
    }
}

/// State of one validation run.  Except for `Done`, each state names the
/// outside step whose outcome the machine is waiting for.
#[derive(Debug)]
pub enum Validation {
    /// A relative input must be joined onto the current working directory
    /// and canonicalized before anything else.
    Resolving { original: String },
    /// The absolute candidate path must be probed: does it exist, is it a
    /// regular file, and does its parent directory exist?
    Classifying { path: String },
    /// The parent directory is missing; the user must answer whether to
    /// create it.
    Prompting { path: String },
    /// The user agreed: the missing parent chain of `path` must be
    /// created recursively.
    Creating { path: String },
    /// Validation has finished with the given outcome.
    Done { outcome: Result<String, ValidationError> },
}

/// Ghost image of [`Validation`], with every path as a character
/// sequence.
pub enum StateView {
    Resolving { original: Seq<char> },
    Classifying { path: Seq<char> },
    Prompting { path: Seq<char> },
    Creating { path: Seq<char> },
    Done { outcome: Result<Seq<char>, ErrorView> },
}

impl View for Validation {
    type V = StateView;

    open spec fn view(&self) -> StateView {
        match self {
            Validation::Resolving { original } => StateView::Resolving { original: original@ },
            Validation::Classifying { path } => StateView::Classifying { path: path@ },
            Validation::Prompting { path } => StateView::Prompting { path: path@ },
            Validation::Creating { path } => StateView::Creating { path: path@ },
            Validation::Done { outcome } => StateView::Done {
                outcome: match outcome {
                    Ok(path) => Ok(path@),
                    Err(e) => Err(e@),
                },
            },
        }
    }
}

/// Ghost image of the outcome of resolving a relative input: the clean
/// absolute path, or the operating-system error text.
pub open spec fn resolution_view(r: Result<String, String>) -> Result<Seq<char>, Seq<char>> {
    match r {
        Ok(path) => Ok(path@),
        Err(msg) => Err(msg@),
    }
}

/// Ghost image of the outcome of creating the parent chain.
pub open spec fn creation_view(r: Result<(), String>) -> Result<(), Seq<char>> {
    match r {
        Ok(_) => Ok(()),
        Err(msg) => Err(msg@),
    }
}

/// The first step: an absolute input is classified as it stands, without
/// canonicalization; a relative input is sent to resolution first.
pub open spec fn spec_start(target: Seq<char>) -> StateView {
    if is_absolute_path(target) {
        StateView::Classifying { path: target }
    } else {
        StateView::Resolving { original: target }
    }
}

/// How the outcome of resolution is absorbed: the resolved path replaces
/// the original input; a failure ends the run with `EnvError`.
pub open spec fn spec_resolved(state: StateView, resolution: Result<Seq<char>, Seq<char>>) -> StateView
    recommends
        state is Resolving,
{
    match resolution {
        Ok(path) => StateView::Classifying { path },
        Err(msg) => StateView::Done { outcome: Err(ErrorView::EnvError(msg)) },
    }
}

/// How the probe of the candidate path is absorbed: an existing regular
/// file is accepted as it is; any other existing entry is rejected as a
/// directory target; a missing entry whose parent exists is accepted as a
/// location to create later; otherwise the user must be asked.
pub open spec fn spec_classified(
    state: StateView,
    exists: bool,
    is_file: bool,
    parent_exists: bool,
) -> StateView
    recommends
        state is Classifying,
{
    let path = state->Classifying_path;
    if exists {
        if is_file {
            StateView::Done { outcome: Ok(path) }
        } else {
            StateView::Done { outcome: Err(ErrorView::TargetIsADir) }
        }
    } else {
        if parent_exists {
            StateView::Done { outcome: Ok(path) }
        } else {
            StateView::Prompting { path }
        }
    }
}

/// How one answer line is absorbed: assent moves on to creation, refusal
/// ends the run with `UserAbort`, and anything else re-asks the question
/// with the state unchanged.
pub open spec fn spec_answered(state: StateView, line: Seq<char>) -> StateView
    recommends
        state is Prompting,
{
    let path = state->Prompting_path;
    match spec_answer(line) {
        Answer::Yes => StateView::Creating { path },
        Answer::No => StateView::Done { outcome: Err(ErrorView::UserAbort) },
        Answer::Unrecognized => StateView::Prompting { path },
    }
}

/// How the outcome of creating the parent chain is absorbed: success
/// accepts the target path; a failure ends the run with `BuildDirErr`.
pub open spec fn spec_created(state: StateView, creation: Result<(), Seq<char>>) -> StateView
    recommends
        state is Creating,
{
    let path = state->Creating_path;
    match creation {
        Ok(_) => StateView::Done { outcome: Ok(path) },
        Err(msg) => StateView::Done { outcome: Err(ErrorView::BuildDirErr(msg)) },
    }
}

impl Validation {
    /// Begin validating `target`.
    pub fn start(target: String) -> (state: Validation)
        ensures
            state@ == spec_start(target@),
    {
        if path_is_absolute(target.as_str()) {
            Validation::Classifying { path: target }
        } else {
            Validation::Resolving { original: target }
        }
    }

    /// Absorb the outcome of joining the relative input onto the working
    /// directory and canonicalizing the result.
    pub fn resolved(self, resolution: Result<String, String>) -> (next: Validation)
        requires
            self@ is Resolving,
        ensures
            next@ == spec_resolved(self@, resolution_view(resolution)),
    {
        match self {
            Validation::Resolving { original: _ } => match resolution {
                Ok(path) => Validation::Classifying { path },
                Err(msg) => Validation::Done { outcome: Err(ValidationError::EnvError(msg)) },
            },
            _ => unreached(),
        }
    }

    /// Absorb the probe of the candidate path.  `is_file` is read only
    /// when the path exists, and `parent_exists` only when it does not.
    pub fn classified(self, exists: bool, is_file: bool, parent_exists: bool) -> (next: Validation)
        requires
            self@ is Classifying,
        ensures
            next@ == spec_classified(self@, exists, is_file, parent_exists),
    {
        match self {
            Validation::Classifying { path } => {
                if exists {
                    if is_file {
                        Validation::Done { outcome: Ok(path) }
                    } else {
                        Validation::Done { outcome: Err(ValidationError::TargetIsADir) }
                    }
                } else {
                    if parent_exists {
                        Validation::Done { outcome: Ok(path) }
                    } else {
                        Validation::Prompting { path }
                    }
                }
            },
            _ => unreached(),
        }
    }

    /// Absorb one line typed in reply to the confirmation question.
    pub fn answered(self, line: &str) -> (next: Validation)
        requires
            self@ is Prompting,
        ensures
            next@ == spec_answered(self@, line@),
    {
        match self {
            Validation::Prompting { path } => match classify_answer(line) {
                Answer::Yes => Validation::Creating { path },
                Answer::No => Validation::Done { outcome: Err(ValidationError::UserAbort) },
                Answer::Unrecognized => Validation::Prompting { path },
            },
            _ => unreached(),
        }
    }

    /// Absorb the outcome of creating the missing parent chain.
    pub fn created(self, creation: Result<(), String>) -> (next: Validation)
        requires
            self@ is Creating,
        ensures
            next@ == spec_created(self@, creation_view(creation)),
    {
        match self {
            Validation::Creating { path } => match creation {
                Ok(_) => Validation::Done { outcome: Ok(path) },
                Err(msg) => Validation::Done { outcome: Err(ValidationError::BuildDirErr(msg)) },
            },
            _ => unreached(),
        }
    }
}

/// A relative input is first sent to resolution, and the successfully
/// resolved path — not the raw input — is the one classified and, on
/// success, returned.
pub proof fn lemma_relative_input_uses_resolved_path(
    target: Seq<char>,
    resolved: Seq<char>,
    exists: bool,
    is_file: bool,
    parent_exists: bool,
)
    requires
        !is_absolute_path(target),
    ensures
        spec_start(target) == (StateView::Resolving { original: target }),
        spec_resolved(spec_start(target), Ok(resolved)) == (StateView::Classifying {
            path: resolved,
        }),
        spec_classified(
            spec_resolved(spec_start(target), Ok(resolved)),
            exists,
            is_file,
            parent_exists,
        ) matches StateView::Done { outcome: Ok(path) } ==> path == resolved,
{
}

/// An absolute input that denotes an existing regular file is accepted
/// and returned unchanged: no canonicalization, no prompt, no creation
/// step touches it.
pub proof fn lemma_existing_file_accepted_unchanged(target: Seq<char>, parent_exists: bool)
    requires
        is_absolute_path(target),
    ensures
        spec_classified(spec_start(target), true, true, parent_exists) == (StateView::Done {
            outcome: Ok(target),
        }),
{
}

/// A path that exists but is not a regular file is rejected as a
/// directory target, whatever the user might answer: the run ends at
/// once and the prompting state is never reached.
pub proof fn lemma_directory_rejected(state: StateView, parent_exists: bool)
    requires
        state is Classifying,
    ensures
        spec_classified(state, true, false, parent_exists) == (StateView::Done {
            outcome: Err(ErrorView::TargetIsADir),
        }),
{
}

/// A missing target whose parent directory exists is accepted at once,
/// without a prompt and without any creation step.
pub proof fn lemma_missing_with_parent_accepted(state: StateView, is_file: bool)
    requires
        state is Classifying,
    ensures
        spec_classified(state, false, is_file, true) == (StateView::Done {
            outcome: Ok(state->Classifying_path),
        }),
{
}

/// Assent at the prompt moves the run to directory creation, and a
/// successful creation accepts the target path.
pub proof fn lemma_confirmed_creation_succeeds(state: StateView, line: Seq<char>)
    requires
        state is Prompting,
        spec_answer(line) == Answer::Yes,
    ensures
        spec_answered(state, line) == (StateView::Creating { path: state->Prompting_path }),
        spec_created(spec_answered(state, line), Ok(())) == (StateView::Done {
            outcome: Ok(state->Prompting_path),
        }),
{
}

/// Refusal at the prompt ends the run with `UserAbort`; the creation
/// state is never reached.
pub proof fn lemma_declined_creation_aborts(state: StateView, line: Seq<char>)
    requires
        state is Prompting,
        spec_answer(line) == Answer::No,
    ensures
        spec_answered(state, line) == (StateView::Done { outcome: Err(ErrorView::UserAbort) }),
{
}

/// An unrecognized answer line leaves the run exactly where it was: the
/// same question is asked again and nothing else happens.
pub proof fn lemma_unrecognized_answer_reprompts(state: StateView, line: Seq<char>)
    requires
        state is Prompting,
        spec_answer(line) == Answer::Unrecognized,
    ensures
        spec_answered(state, line) == state,
{
}

/// Once a validated target has been materialized as a regular file by
/// the caller, validating the returned absolute path again succeeds with
/// the same path, through the existing-regular-file branch.
pub proof fn lemma_revalidation_succeeds(path: Seq<char>, parent_exists: bool)
    requires
        is_absolute_path(path),
    ensures
        spec_classified(spec_start(path), true, true, parent_exists) == (StateView::Done {
            outcome: Ok(path),
        }),
{
}

} // verus!

