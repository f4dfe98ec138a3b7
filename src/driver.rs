//! The steps of a file-mode run before its lines are converted: the input is
//! checked, the output path decided (its stem converted where it is derived),
//! the output guarded, and only then created.
use vstd::prelude::*;
use crate::error::{ErrorView, RunError};
use crate::guard::{
    check_input, check_output, input_verdict, output_verdict, unit_result_view, InputProbe,
    OutputProbe,
};
use crate::text::owned;
use crate::naming::{
    derived_file_name, derived_name, opt_text, output_plan, plan_output,
    InputName, OutputPlan, PlanView, StemText,
};

verus! {

/// Where a file-mode run stands.
pub enum Stage {
    /// Waiting for the input to be looked up and opened.
    CheckingInput,
    /// Waiting for the stem to be converted.
    ConvertingStem,
    /// Waiting for the derived file name to be placed beside the input.
    PlacingOutput,
    /// Waiting for the output path to be looked up.
    CheckingOutput(String),
    /// Waiting for the output file to be created.
    CreatingOutput(String),
    /// The output file exists: the lines are to be converted into it.
    Converting,
    /// The run failed before any line was converted.
    Failed,
}

/// A file-mode run before its conversion session.
pub struct FileRun {
    /// The input path.
    pub input: String,
    /// The file stem of the input path.
    pub stem: StemText,
    /// The extension of the input path.
    pub extension: Option<String>,
    /// The output path given on the command line.
    pub explicit: Option<String>,
    /// Whether an existing output file may be overwritten.
    pub force: bool,
    pub stage: Stage,
}

/// What the caller reports after carrying out a [`RunAction`].
pub enum RunEvent {
    InputProbed(InputProbe),
    StemConverted(String),
    /// The derived file name joined to the input's directory.
    OutputPlaced(String),
    OutputProbed(OutputProbe),
    OutputCreated,
    /// Creating the output file failed, for this cause.
    CreateFailed(String),
}

/// What a file-mode run asks of the caller next.
pub enum RunAction {
    /// Look up and open the input path.
    ProbeInput,
    /// Convert this stem.
    ConvertStem(String),
    /// Join this file name to the directory of the input.
    PlaceOutput(String),
    /// Look up this output path.
    ProbeOutput(String),
    /// Create (or truncate) the output file at this path.
    CreateOutput(String),
    /// Convert the lines of the input into the output file.
    ConvertLines,
    /// The run failed with this error.
    Fail(RunError),
}

pub enum StageView {
    CheckingInput,
    ConvertingStem,
    PlacingOutput,
    CheckingOutput(Seq<char>),
    CreatingOutput(Seq<char>),
    Converting,
    Failed,
}

pub enum RunActionView {
    ProbeInput,
    ConvertStem(Seq<char>),
    PlaceOutput(Seq<char>),
    ProbeOutput(Seq<char>),
    CreateOutput(Seq<char>),
    ConvertLines,
    Fail(ErrorView),
}

impl View for Stage {
    type V = StageView;

    open spec fn view(&self) -> StageView {
        match self {
            Stage::CheckingInput => StageView::CheckingInput,
            Stage::ConvertingStem => StageView::ConvertingStem,
            Stage::PlacingOutput => StageView::PlacingOutput,
            Stage::CheckingOutput(p) => StageView::CheckingOutput(p@),
            Stage::CreatingOutput(p) => StageView::CreatingOutput(p@),
            Stage::Converting => StageView::Converting,
            Stage::Failed => StageView::Failed,
        }
    }
}

impl View for RunAction {
    type V = RunActionView;

    open spec fn view(&self) -> RunActionView {
        match self {
            RunAction::ProbeInput => RunActionView::ProbeInput,
            RunAction::ConvertStem(s) => RunActionView::ConvertStem(s@),
            RunAction::PlaceOutput(n) => RunActionView::PlaceOutput(n@),
            RunAction::ProbeOutput(p) => RunActionView::ProbeOutput(p@),
            RunAction::CreateOutput(p) => RunActionView::CreateOutput(p@),
            RunAction::ConvertLines => RunActionView::ConvertLines,
            RunAction::Fail(e) => RunActionView::Fail(e@),
        }
    }
}

/// The events that a run at `stage` can take.
pub open spec fn run_accepts(stage: StageView, e: RunEvent) -> bool {
    match stage {
        StageView::CheckingInput => e is InputProbed,
        StageView::ConvertingStem => e is StemConverted,
        StageView::PlacingOutput => e is OutputPlaced,
        StageView::CheckingOutput(_) => e is OutputProbed,
        StageView::CreatingOutput(_) => e is OutputCreated || e is CreateFailed,
        _ => false,
    }
}

/// The input's file name parts, as the output plan reads them.
pub open spec fn name_of(r: FileRun) -> InputName {
    InputName { stem: r.stem, extension: r.extension }
}

/// The stage and action after the input was checked and the output planned.
pub open spec fn after_input(r: FileRun, probe: InputProbe) -> (StageView, RunActionView) {
    match input_verdict(r.input@, probe) {
        Err(e) => (StageView::Failed, RunActionView::Fail(e)),
        Ok(_) => match output_plan(r.input@, name_of(r), r.explicit) {
            Err(e) => (StageView::Failed, RunActionView::Fail(e)),
            Ok(PlanView::Explicit(p)) => (StageView::CheckingOutput(p), RunActionView::ProbeOutput(p)),
            Ok(PlanView::Derive(s)) => (StageView::ConvertingStem, RunActionView::ConvertStem(s)),
        },
    }
}

/// One step of a file-mode run at `r.stage`, taking `e`: the next stage and
/// the action asked for.
pub open spec fn run_next(r: FileRun, e: RunEvent) -> (StageView, RunActionView) {
    match e {
        RunEvent::InputProbed(probe) => after_input(r, probe),
        RunEvent::StemConverted(c) => (
            StageView::PlacingOutput,
            RunActionView::PlaceOutput(derived_name(c@, opt_text(r.extension))),
        ),
        RunEvent::OutputPlaced(p) => (StageView::CheckingOutput(p@), RunActionView::ProbeOutput(p@)),
        RunEvent::OutputProbed(probe) => match r.stage@ {
            StageView::CheckingOutput(p) => match output_verdict(p, probe, r.force) {
                Err(e) => (StageView::Failed, RunActionView::Fail(e)),
                Ok(_) => (StageView::CreatingOutput(p), RunActionView::CreateOutput(p)),
            },
            _ => (StageView::Failed, RunActionView::ConvertLines),
        },
        RunEvent::OutputCreated => (StageView::Converting, RunActionView::ConvertLines),
        RunEvent::CreateFailed(c) => (StageView::Failed, RunActionView::Fail(ErrorView::IoFailure(c@))),
    }
}

/// Nothing is created before the input is accepted: a directory, a missing
/// or an unreadable input ends the run with its error at the first step.
/// The output is created only after the guard let it pass: an existing file
/// without `force` ends the run, with `force` it is created anew.
pub proof fn input_rejected_before_output_touched(r: FileRun, probe: InputProbe, out: Seq<char>)
    requires
        r.stage@ == StageView::CheckingInput,
    ensures
        probe is Directory ==> run_next(r, RunEvent::InputProbed(probe)) == (
            StageView::Failed,
            RunActionView::Fail(ErrorView::InputIsDirectory(r.input@)),
        ),
        !(probe is Opened) ==> run_next(r, RunEvent::InputProbed(probe)).0 == StageView::Failed,
        forall|e: RunEvent, s: FileRun|
            s.stage@ == StageView::CheckingOutput(out) && #[trigger] run_accepts(s.stage@, e)
                && run_next(s, e).1 is CreateOutput ==> (e matches RunEvent::OutputProbed(q)
                && output_verdict(out, q, s.force) is Ok),
        forall|s: FileRun|
            s.stage@ == StageView::CheckingOutput(out) ==> #[trigger] run_next(
                s,
                RunEvent::OutputProbed(OutputProbe::File),
            ) == if s.force {
                (StageView::CreatingOutput(out), RunActionView::CreateOutput(out))
            } else {
                (StageView::Failed, RunActionView::Fail(ErrorView::OutputAlreadyExists(out)))
            },
{
}

fn copy_opt(o: &Option<String>) -> (r: Option<String>)
    ensures
        opt_text(r) == opt_text(*o),
{
    match o {
        Some(s) => Some(owned(s.as_str())),
        None => None,
    }
}

impl FileRun {
    /// A run on the input at `input`, whose file name has stem `stem` and
    /// extension `extension`, writing to `explicit` where given; it first asks
    /// for the input to be probed.
    pub fn start(
        input: String,
        stem: StemText,
        extension: Option<String>,
        explicit: Option<String>,
        force: bool,
    ) -> (r: (FileRun, RunAction))
        ensures
            r.0.input@ == input@,
            r.0.stem == stem,
            opt_text(r.0.extension) == opt_text(extension),
            opt_text(r.0.explicit) == opt_text(explicit),
            r.0.force == force,
            r.0.stage@ == StageView::CheckingInput,
            r.1@ == RunActionView::ProbeInput,
    {
        (FileRun { input, stem, extension, explicit, force, stage: Stage::CheckingInput }, RunAction::ProbeInput)
    }

    /// Whether the run, where it stands, can take `event`.
    pub fn accepts(&self, event: &RunEvent) -> (r: bool)
        ensures
            r == run_accepts(self.stage@, *event),
    {
        match (&self.stage, event) {
            (Stage::CheckingInput, RunEvent::InputProbed(_)) => true,
            (Stage::ConvertingStem, RunEvent::StemConverted(_)) => true,
            (Stage::PlacingOutput, RunEvent::OutputPlaced(_)) => true,
            (Stage::CheckingOutput(_), RunEvent::OutputProbed(_)) => true,
            (Stage::CreatingOutput(_), RunEvent::OutputCreated) => true,
            (Stage::CreatingOutput(_), RunEvent::CreateFailed(_)) => true,
            _ => false,
        }
    }

    fn with_stage(self, stage: Stage) -> (r: FileRun)
        ensures
            r.input == self.input,
            r.stem == self.stem,
            r.extension == self.extension,
            r.explicit == self.explicit,
            r.force == self.force,
            r.stage == stage,
    {
        FileRun { stage, ..self }
    }

    /// Takes `event` and returns the run and the action it asks for next.
    pub fn step(self, event: RunEvent) -> (r: (FileRun, RunAction))
        requires
            run_accepts(self.stage@, event),
        ensures
            (r.0.stage@, r.1@) == run_next(self, event),
            r.0.input == self.input,
            r.0.force == self.force,
            opt_text(r.0.extension) == opt_text(self.extension),
    {
        match event {
            RunEvent::InputProbed(probe) => {
                let checked = check_input(self.input.as_str(), probe);
                match checked {
                    Err(e) => (self.with_stage(Stage::Failed), RunAction::Fail(e)),
                    Ok(()) => {
                        let name = InputName {
                            stem: match &self.stem {
                                StemText::Absent => StemText::Absent,
                                StemText::Text(s) => StemText::Text(owned(s.as_str())),
                                StemText::NotText => StemText::NotText,
                            },
                            extension: None,
                        };
                        let plan = plan_output(self.input.as_str(), name, copy_opt(&self.explicit));
                        proof {
                            assert(unit_result_view(checked) is Ok);
                        }
                        match plan {
                            Err(e) => (self.with_stage(Stage::Failed), RunAction::Fail(e)),
                            Ok(OutputPlan::Explicit(p)) => {
                                let q = owned(p.as_str());
                                (self.with_stage(Stage::CheckingOutput(p)), RunAction::ProbeOutput(q))
                            },
                            Ok(OutputPlan::Derive(s)) => (
                                self.with_stage(Stage::ConvertingStem),
                                RunAction::ConvertStem(s),
                            ),
                        }
                    },
                }
            },
            RunEvent::StemConverted(c) => {
                let n = derived_file_name(c.as_str(), &self.extension);
                (self.with_stage(Stage::PlacingOutput), RunAction::PlaceOutput(n))
            },
            RunEvent::OutputPlaced(p) => {
                let q = owned(p.as_str());
                (self.with_stage(Stage::CheckingOutput(p)), RunAction::ProbeOutput(q))
            },
            RunEvent::OutputProbed(probe) => {
                let path = match &self.stage {
                    Stage::CheckingOutput(p) => owned(p.as_str()),
                    _ => String::new(),
                };
                let force = self.force;
                match check_output(path.as_str(), probe, force) {
                    Err(e) => (self.with_stage(Stage::Failed), RunAction::Fail(e)),
                    Ok(()) => {
                        let q = owned(path.as_str());
                        (self.with_stage(Stage::CreatingOutput(path)), RunAction::CreateOutput(q))
                    },
                }
            },
            RunEvent::OutputCreated => (self.with_stage(Stage::Converting), RunAction::ConvertLines),
            RunEvent::CreateFailed(c) => (self.with_stage(Stage::Failed), RunAction::Fail(RunError::IoFailure(c))),
        }
    }
}

} // verus!
