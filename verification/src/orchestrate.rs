//! The orchestrator's decisions: what one directive asks the surrounding
//! process to do, and the diagnostics of the stream layer. The stream work
//! itself (opening, reading, writing) lives outside the library; the library
//! decides and words every outcome.

use crate::args::Directive;
use crate::args::SpecDirective;
use crate::args::level_in_range;
use crate::registry::EngineHandle;
use crate::registry::lookup;
use vstd::prelude::*;
use vstd::string::StringExecFns;

verus! {

/// The mathematical form of a `Plan`.
pub ghost enum SpecPlan {
    PrintHelp,
    PrintVersion,
    Report(Seq<char>),
    Transform { engine: EngineHandle, input: Option<Seq<char>>, output: Option<Seq<char>> },
    NoEngine,
}

/// What the process does for one directive.
#[derive(Clone, PartialEq, Eq, Debug)]
pub enum Plan {
    /// Render the usage text and stop successfully; touch no stream.
    PrintHelp,
    /// Render the version line and stop successfully; touch no stream.
    PrintVersion,
    /// Render this diagnostic line and stop with a non-success indication;
    /// touch no stream.
    Report(String),
    /// Read the input (`None`: the standard input), run the named engine on
    /// the whole buffer, write its exact result to the output (`None`: the
    /// standard output), nothing appended.
    Transform { engine: EngineHandle, input: Option<String>, output: Option<String> },
    /// The request's level is out of range for its final mode — the
    /// interpreter's order-sensitivity quirk. No engine exists; the process
    /// treats this as a programming error.
    NoEngine,
}

impl View for Plan {
    type V = SpecPlan;

    open spec fn view(&self) -> SpecPlan {
        match self {
            Plan::PrintHelp => SpecPlan::PrintHelp,
            Plan::PrintVersion => SpecPlan::PrintVersion,
            Plan::Report(m) => SpecPlan::Report(m@),
            Plan::Transform { engine, input, output } => SpecPlan::Transform {
                engine: *engine,
                input: input.deep_view(),
                output: output.deep_view(),
            },
            Plan::NoEngine => SpecPlan::NoEngine,
        }
    }
}

/// The plan each directive maps to: help and version render fixed text;
/// a parse error reports its diagnostic; a request within bounds transforms
/// through the registry's engine; a request left out of bounds by the
/// interpreter quirk has no engine.
pub open spec fn spec_plan(d: SpecDirective) -> SpecPlan {
    match d {
        SpecDirective::Help => SpecPlan::PrintHelp,
        SpecDirective::Version => SpecPlan::PrintVersion,
        SpecDirective::Fail(e) => SpecPlan::Report(e.message()),
        SpecDirective::Run(req) => {
            if level_in_range(req.mode, req.level) {
                SpecPlan::Transform {
                    engine: EngineHandle { mode: req.mode, level: req.level as u8 },
                    input: req.input,
                    output: req.output,
                }
            } else {
                SpecPlan::NoEngine
            }
        },
    }
}

/// Decides what the process does for one directive.
pub fn plan(d: Directive) -> (p: Plan)
    ensures
        p@ == spec_plan(d@),
{
    match d {
        Directive::Help => Plan::PrintHelp,
        Directive::Version => Plan::PrintVersion,
        Directive::Fail(e) => Plan::Report(e.message()),
        Directive::Run(req) => {
            if req.is_valid() {
                let engine = lookup(req.mode, req.level);
                Plan::Transform { engine, input: req.input, output: req.output }
            } else {
                Plan::NoEngine
            }
        },
    }
}

/// The mathematical form of an `IoError`.
pub ghost enum SpecIoError {
    OpenFailed(Seq<char>, Seq<char>),
    ReadFailed(Seq<char>),
    CreateFailed(Seq<char>, Seq<char>),
    WriteFailed(Seq<char>),
}

/// A failure of the stream layer: the path concerned, where one is named,
/// and the underlying cause text. Every such failure is terminal.
#[derive(Clone, PartialEq, Eq, Debug)]
pub enum IoError {
    /// The named input path could not be opened.
    OpenFailed(String, String),
    /// Reading the input stream to its end failed.
    ReadFailed(String),
    /// The named output path could not be created or truncated.
    CreateFailed(String, String),
    /// Writing the whole output buffer failed.
    WriteFailed(String),
}

impl View for IoError {
    type V = SpecIoError;

    open spec fn view(&self) -> SpecIoError {
        match self {
            IoError::OpenFailed(p, c) => SpecIoError::OpenFailed(p@, c@),
            IoError::ReadFailed(c) => SpecIoError::ReadFailed(c@),
            IoError::CreateFailed(p, c) => SpecIoError::CreateFailed(p@, c@),
            IoError::WriteFailed(c) => SpecIoError::WriteFailed(c@),
        }
    }
}

impl SpecIoError {
    /// The one-line diagnostic a stream failure produces.
    pub open spec fn message(&self) -> Seq<char> {
        match self {
            SpecIoError::OpenFailed(_, c) => "failed to open file: "@ + *c,
            SpecIoError::ReadFailed(c) => "failed to read input: "@ + *c,
            SpecIoError::CreateFailed(_, c) => "failed to create file: "@ + *c,
            SpecIoError::WriteFailed(c) => "failed to write output: "@ + *c,
        }
    }
}

impl IoError {
    /// Renders the one-line diagnostic for this failure.
    pub fn message(&self) -> (r: String)
        ensures
            r@ == self@.message(),
    {
        match self {
            IoError::OpenFailed(_, c) => String::from_str("failed to open file: ").concat(
                c.as_str(),
            ),
            IoError::ReadFailed(c) => String::from_str("failed to read input: ").concat(
                c.as_str(),
            ),
            IoError::CreateFailed(_, c) => String::from_str("failed to create file: ").concat(
                c.as_str(),
            ),
            IoError::WriteFailed(c) => String::from_str("failed to write output: ").concat(
                c.as_str(),
            ),
        }
    }
}

} // verus!
