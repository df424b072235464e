//! The dispatch exchange itself, as a two-step state machine.
//!
//! `begin_dispatch` turns a request (code, language token, optional hint)
//! into a plan: either invoke a tool on the code, or reject the request
//! outright with an unsupported-language failure — in which case no process
//! is ever run, since the plan carries no invocation. The caller performs
//! the invocation (spawn, write, wait) and hands the outcome back to
//! `finish_dispatch`, which relays it: the tool's standard output verbatim on
//! success, or a failure whose category and diagnostic text are pinned down
//! for every outcome.

use vstd::prelude::*;
use vstd::string::*;
use crate::outcome::{ErrorKind, FaultStage, RunModel, RunOutcome};
use crate::tool::{label_of, tool_for, select_tool, Tool};

verus! {

/// A successful dispatch: the formatted code and the label of the tool that
/// produced it.
#[derive(Debug, Clone)]
pub struct FormatSuccess {
    pub formatted_code: String,
    pub formatter_used: String,
}

/// A failed dispatch: its error category and a diagnostic text.
#[derive(Debug, Clone)]
pub struct DispatchFailure {
    pub kind: ErrorKind,
    pub details: String,
}

/// The result a dispatch ends in.
#[derive(Debug, Clone)]
pub enum FormatResult {
    Success(FormatSuccess),
    Failure(DispatchFailure),
}

/// Mathematical model of a dispatch result.
#[verifier::ext_equal]
pub enum ResultModel {
    Succeeded { formatted: Seq<char>, label: Seq<char> },
    Failed { kind: ErrorKind, details: Seq<char> },
}

impl View for FormatResult {
    type V = ResultModel;

    open spec fn view(&self) -> ResultModel {
        match self {
            FormatResult::Success(s) => (ResultModel::Succeeded {
                formatted: s.formatted_code@,
                label: s.formatter_used@,
            }),
            FormatResult::Failure(f) => (ResultModel::Failed {
                kind: f.kind,
                details: f.details@,
            }),
        }
    }
}

/// Mathematical model of a dispatch plan.
#[verifier::ext_equal]
pub enum PlanModel {
    Invoke { tool: Tool, input: Seq<char> },
    Rejected { kind: ErrorKind, details: Seq<char> },
}

/// The first step of a dispatch: either invoke `tool`, feeding it `input` on
/// its standard input, or reject the request without running anything.
#[derive(Debug, Clone)]
pub enum DispatchStep {
    Invoke { tool: Tool, input: String },
    Rejected(DispatchFailure),
}

impl View for DispatchStep {
    type V = PlanModel;

    open spec fn view(&self) -> PlanModel {
        match self {
            DispatchStep::Invoke { tool, input } => (PlanModel::Invoke {
                tool: *tool,
                input: input@,
            }),
            DispatchStep::Rejected(f) => (PlanModel::Rejected { kind: f.kind, details: f.details@ }),
        }
    }
}

/// The diagnostic carried by an unsupported-language rejection.
pub open spec fn unsupported_details(lang: Seq<char>) -> Seq<char> {
    "Language '"@ + lang + "' is not supported yet"@
}

/// The plan a request maps to: invoke the tool its language token selects,
/// on exactly the given code, or reject an unrecognized token.
pub open spec fn plan_of(code: Seq<char>, lang: Seq<char>) -> PlanModel {
    match tool_for(lang) {
        Some(tool) => PlanModel::Invoke { tool, input: code },
        None => PlanModel::Rejected {
            kind: ErrorKind::UnsupportedLanguage,
            details: unsupported_details(lang),
        },
    }
}

/// The error category each fault stage is reported under.
pub open spec fn kind_of_stage(stage: FaultStage) -> ErrorKind {
    match stage {
        FaultStage::Spawn => ErrorKind::ProcessSpawnFailure,
        FaultStage::WriteInput => ErrorKind::ProcessIOFailure,
        FaultStage::Wait => ErrorKind::ProcessIOFailure,
    }
}

/// The diagnostic carried by an I/O fault: which step failed, and the fault's
/// own text.
pub open spec fn fault_details(tool: Tool, stage: FaultStage, text: Seq<char>) -> Seq<char> {
    match stage {
        FaultStage::Spawn => "Failed to spawn "@ + label_of(tool) + ": "@ + text,
        FaultStage::WriteInput => "Failed to write to stdin: "@ + text,
        FaultStage::Wait => "Failed to wait for "@ + label_of(tool) + ": "@ + text,
    }
}

/// The result a run outcome is relayed as: the tool's standard output
/// verbatim when it exited successfully, its standard-error text verbatim as
/// a rejection when it exited with failure, and a staged diagnostic when an
/// I/O fault stopped the run.
pub open spec fn relay(tool: Tool, run: RunModel) -> ResultModel {
    match run {
        RunModel::Completed { exited_ok, stdout, stderr } => if exited_ok {
            ResultModel::Succeeded { formatted: stdout, label: label_of(tool) }
        } else {
            ResultModel::Failed { kind: ErrorKind::FormatterRejection, details: stderr }
        },
        RunModel::Fault { stage, text } => ResultModel::Failed {
            kind: kind_of_stage(stage),
            details: fault_details(tool, stage, text),
        },
    }
}

/// Plan a dispatch. The whole code payload is accepted — empty or arbitrarily
/// large — and handed to the selected tool unchanged. The result is a
/// function of the code and the language token alone: the formatter hint is
/// accepted in the request shape but not consulted for routing.
pub fn begin_dispatch(code: &str, language: &str, _formatter_hint: Option<&str>) -> (r:
    DispatchStep)
    ensures
        r@ == plan_of(code@, language@),
{
    match select_tool(language) {
        Some(tool) => DispatchStep::Invoke { tool, input: code.to_owned() },
        None => {
            let mut details: String = "Language '".to_owned();
            details.append(language);
            details.append("' is not supported yet");
            proof {
                assert(details@ =~= unsupported_details(language@));
            }
            DispatchStep::Rejected(
                DispatchFailure { kind: ErrorKind::UnsupportedLanguage, details },
            )
        },
    }
}

fn stage_kind(stage: FaultStage) -> (r: ErrorKind)
    ensures
        r == kind_of_stage(stage),
{
    match stage {
        FaultStage::Spawn => ErrorKind::ProcessSpawnFailure,
        FaultStage::WriteInput => ErrorKind::ProcessIOFailure,
        FaultStage::Wait => ErrorKind::ProcessIOFailure,
    }
}

fn build_fault_details(tool: Tool, stage: FaultStage, fault_text: &str) -> (r: String)
    ensures
        r@ == fault_details(tool, stage, fault_text@),
{
    match stage {
        FaultStage::Spawn => {
            let mut d: String = "Failed to spawn ".to_owned();
            let lab = tool.label();
            d.append(lab.as_str());
            d.append(": ");
            d.append(fault_text);
            proof {
                assert(d@ =~= fault_details(tool, stage, fault_text@));
            }
            d
        },
        FaultStage::WriteInput => {
            let mut d: String = "Failed to write to stdin: ".to_owned();
            d.append(fault_text);
            d
        },
        FaultStage::Wait => {
            let mut d: String = "Failed to wait for ".to_owned();
            let lab = tool.label();
            d.append(lab.as_str());
            d.append(": ");
            d.append(fault_text);
            proof {
                assert(d@ =~= fault_details(tool, stage, fault_text@));
            }
            d
        },
    }
}

/// Finish a dispatch: relay the outcome of running `tool`. Every outcome is
/// mapped, whatever came back: a successful exit to `Success`, a failing exit
/// to a `FormatterRejection` carrying the tool's standard-error text
/// verbatim, and an I/O fault to its stage's error category.
pub fn finish_dispatch(tool: Tool, run: RunOutcome) -> (r: FormatResult)
    ensures
        r@ == relay(tool, run@),
{
    match run {
        RunOutcome::Completed { exited_ok, stdout_text, stderr_text } => {
            if exited_ok {
                FormatResult::Success(
                    FormatSuccess { formatted_code: stdout_text, formatter_used: tool.label() },
                )
            } else {
                FormatResult::Failure(
                    DispatchFailure { kind: ErrorKind::FormatterRejection, details: stderr_text },
                )
            }
        },
        RunOutcome::Fault { stage, fault_text } => {
            let details = build_fault_details(tool, stage, fault_text.as_str());
            FormatResult::Failure(DispatchFailure { kind: stage_kind(stage), details })
        },
    }
}

/// An unrecognized language token is rejected outright: the plan carries no
/// tool invocation at all, so no process is spawned, and its diagnostic names
/// the offending token — it is the fixed message with the token spliced in
/// right after the opening quote.
pub proof fn lemma_unrecognized_rejected(code: Seq<char>, lang: Seq<char>)
    ensures
        !crate::tool::recognized(lang) ==> plan_of(code, lang) == (PlanModel::Rejected {
            kind: ErrorKind::UnsupportedLanguage,
            details: unsupported_details(lang),
        }),
        crate::tool::recognized(lang) ==> plan_of(code, lang) == (PlanModel::Invoke {
            tool: tool_for(lang)->Some_0,
            input: code,
        }),
        unsupported_details(lang).subrange(10, 10 + lang.len() as int) == lang,
{
    reveal_strlit("Language '");
    assert("Language '"@.len() == 10);
    assert(unsupported_details(lang).subrange(10, 10 + lang.len() as int) =~= lang);
}

/// Idempotence passes through the dispatcher: it relays the tool's output
/// verbatim, so when the tool is idempotent — running it on the output of a
/// successful run reproduces that output — dispatching twice gives the same
/// result as dispatching once.
pub proof fn lemma_relay_idempotent(tool: Tool, first: RunModel, second: RunModel)
    requires
        relay(tool, first) is Succeeded,
        second matches RunModel::Completed { exited_ok: true, stdout, .. } && stdout == relay(
            tool,
            first,
        )->formatted,
    ensures
        relay(tool, second) == relay(tool, first),
{
    assert(relay(tool, second) =~= relay(tool, first));
}

/// A formatter that ran and exited with failure is reported as a rejection
/// whose diagnostic is the tool's standard-error text, verbatim.
pub proof fn lemma_rejection_verbatim(tool: Tool, run: RunModel)
    requires
        run matches RunModel::Completed { exited_ok: false, .. },
    ensures
        relay(tool, run) == (ResultModel::Failed {
            kind: ErrorKind::FormatterRejection,
            details: run->Completed_stderr,
        }),
{
}

} // verus!
