//! What can go wrong while generators are discovered, selected and run.
use crate::text::decimal;
use crate::text::decimal_text;
use vstd::prelude::*;
use vstd::string::*;

verus! {

/// A field that every manifest record must hold.
#[derive(Debug, Clone, Copy, PartialEq, Eq, Structural)]
pub enum RecordField {
    Name,
    Factory,
}

/// Why a field of a record cannot be used.
#[derive(Debug, Clone, Copy, PartialEq, Eq, Structural)]
pub enum FieldProblem {
    /// The record has no such field.
    Missing,
    /// The field holds something else than a text.
    NotAString,
    /// The field holds a text without a character.
    Empty,
}

/// A failure of discovery. No failure hides what was found elsewhere, except
/// a failed resolution, after which nothing else is known.
#[derive(Debug)]
pub enum DiscoveryError {
    /// The dependency closure of the project could not be resolved.
    Resolution { message: String },
    /// The manifest of the package at `crate_path` cannot be read as a
    /// document, or is no sequence of records.
    ManifestSyntax { crate_path: String, message: String },
    /// The record at position `index` of that manifest lacks a usable field.
    ManifestRecord { crate_path: String, index: usize, field: RecordField, problem: FieldProblem },
}

/// What a `DiscoveryError` holds.
pub ghost enum DiscoveryFailure {
    Resolution { message: Seq<char> },
    ManifestSyntax { crate_path: Seq<char>, message: Seq<char> },
    ManifestRecord { crate_path: Seq<char>, index: nat, field: RecordField, problem: FieldProblem },
}

impl View for DiscoveryError {
    type V = DiscoveryFailure;

    open spec fn view(&self) -> DiscoveryFailure {
        match self {
            DiscoveryError::Resolution { message } => DiscoveryFailure::Resolution {
                message: message@,
            },
            DiscoveryError::ManifestSyntax { crate_path, message } => {
                DiscoveryFailure::ManifestSyntax { crate_path: crate_path@, message: message@ }
            },
            DiscoveryError::ManifestRecord { crate_path, index, field, problem } => {
                DiscoveryFailure::ManifestRecord {
                    crate_path: crate_path@,
                    index: *index as nat,
                    field: *field,
                    problem: *problem,
                }
            },
        }
    }
}

/// The name of a field as manifests write it.
pub open spec fn field_name(field: RecordField) -> Seq<char> {
    match field {
        RecordField::Name => "name"@,
        RecordField::Factory => "factory"@,
    }
}

/// The words for a problem of a field.
pub open spec fn problem_words(problem: FieldProblem) -> Seq<char> {
    match problem {
        FieldProblem::Missing => " is missing"@,
        FieldProblem::NotAString => " is not a string"@,
        FieldProblem::Empty => " is empty"@,
    }
}

impl DiscoveryFailure {
    /// The line that reports this failure to a user. The text that came with
    /// a failed resolution or a syntax error stands in it unchanged.
    pub open spec fn message(self) -> Seq<char> {
        match self {
            DiscoveryFailure::Resolution { message } => "cannot resolve the dependencies: "@
                + message,
            DiscoveryFailure::ManifestSyntax { crate_path, message } => "generator manifest of "@
                + crate_path + ": "@ + message,
            DiscoveryFailure::ManifestRecord { crate_path, index, field, problem } => {
                "generator manifest of "@ + crate_path + ": record "@ + decimal(index)
                    + ": field "@ + field_name(field) + problem_words(problem)
            },
        }
    }
}

impl RecordField {
    /// The name of the field as manifests write it.
    pub fn name(&self) -> (text: &'static str)
        ensures
            text@ == field_name(*self),
    {
        match self {
            RecordField::Name => "name",
            RecordField::Factory => "factory",
        }
    }
}

impl FieldProblem {
    /// The words for the problem.
    pub fn words(&self) -> (text: &'static str)
        ensures
            text@ == problem_words(*self),
    {
        match self {
            FieldProblem::Missing => " is missing",
            FieldProblem::NotAString => " is not a string",
            FieldProblem::Empty => " is empty",
        }
    }
}

impl DiscoveryError {
    /// The line that reports this failure to a user.
    pub fn message(&self) -> (text: String)
        ensures
            text@ == self@.message(),
    {
        match self {
            DiscoveryError::Resolution { message } => {
                let mut text = String::from_str("cannot resolve the dependencies: ");
                text.append(message.as_str());
                text
            },
            DiscoveryError::ManifestSyntax { crate_path, message } => {
                let mut text = String::from_str("generator manifest of ");
                text.append(crate_path.as_str());
                text.append(": ");
                text.append(message.as_str());
                text
            },
            DiscoveryError::ManifestRecord { crate_path, index, field, problem } => {
                let number = decimal_text(*index);
                let mut text = String::from_str("generator manifest of ");
                text.append(crate_path.as_str());
                text.append(": record ");
                text.append(number.as_str());
                text.append(": field ");
                text.append(field.name());
                text.append(problem.words());
                text
            },
        }
    }
}

/// Why no generator could be chosen by its name.
#[derive(Debug, Clone, Copy, PartialEq, Eq, Structural)]
pub enum SelectionError {
    /// No generator has the name.
    NotFound,
    /// More than one generator has the name.
    Ambiguous,
}

/// A failure of one invocation.
#[derive(Debug)]
pub enum RunError {
    /// The scratch package could not be laid out.
    Setup { message: String },
    /// The driver did not compile; `message` is the build tool's own text.
    Build { message: String },
    /// The compiled driver could not be started.
    Spawn { message: String },
}

/// What a `RunError` holds.
pub ghost enum RunFailure {
    Setup { message: Seq<char> },
    Build { message: Seq<char> },
    Spawn { message: Seq<char> },
}

impl View for RunError {
    type V = RunFailure;

    open spec fn view(&self) -> RunFailure {
        match self {
            RunError::Setup { message } => RunFailure::Setup { message: message@ },
            RunError::Build { message } => RunFailure::Build { message: message@ },
            RunError::Spawn { message } => RunFailure::Spawn { message: message@ },
        }
    }
}

impl RunFailure {
    /// The text that came with the failure.
    pub open spec fn message(self) -> Seq<char> {
        match self {
            RunFailure::Setup { message } => message,
            RunFailure::Build { message } => message,
            RunFailure::Spawn { message } => message,
        }
    }
}

impl RunError {
    /// The text that came with the failure, as it came.
    pub fn message(&self) -> (text: &String)
        ensures
            text@ == self@.message(),
    {
        match self {
            RunError::Setup { message } => message,
            RunError::Build { message } => message,
            RunError::Spawn { message } => message,
        }
    }
}

} // verus!
