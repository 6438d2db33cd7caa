//! The render pipeline's shared state and its single-flight discipline:
//! every trigger supersedes the previous job, and only the newest job may
//! publish into the shared record.
use vstd::prelude::*;
use vstd::string::StringExecFns;

use crate::args::Command;
use crate::diagnostics::render_failure_diagnostic_spec;

verus! {

/// The shared render record the presentation layer reads: whether a render
/// is in flight, the artifact's path on success, the diagnostic on failure,
/// and how long the last completed invocation took.
pub struct RenderOutput {
    pub pending: bool,
    pub file_path: Option<String>,
    pub render_error: Option<String>,
    pub time_ms: u64,
}

impl RenderOutput {
    /// An artifact and an error are never both present.
    pub open spec fn wf(self) -> bool {
        !(self.file_path is Some && self.render_error is Some)
    }
}

/// How one render job ended.
pub enum RenderOutcome {
    /// The external tool wrote an artifact at this path.
    Artifact { file_path: String },
    /// The external tool failed and this diagnostic explains why.
    Diagnostic { message: String },
    /// The external tool could not be launched at all: degrade to "no
    /// artifact", without reporting an error.
    Unavailable,
}

/// What a completed job writes over the previous record: success installs
/// the artifact and clears the error, failure installs the diagnostic and
/// clears the artifact, an unlaunchable tool clears the artifact and leaves
/// any earlier diagnostic in place. The elapsed time is always recorded and
/// the pending flag always cleared.
pub open spec fn apply_outcome_m(
    prev: RenderOutput,
    outcome: RenderOutcome,
    elapsed_ms: u64,
) -> RenderOutput {
    match outcome {
        RenderOutcome::Artifact { file_path } => RenderOutput {
            pending: false,
            file_path: Some(file_path),
            render_error: None,
            time_ms: elapsed_ms,
        },
        RenderOutcome::Diagnostic { message } => RenderOutput {
            pending: false,
            file_path: None,
            render_error: Some(message),
            time_ms: elapsed_ms,
        },
        RenderOutcome::Unavailable => RenderOutput {
            pending: false,
            file_path: None,
            render_error: prev.render_error,
            time_ms: elapsed_ms,
        },
    }
}

/// Everything that lives under the render lock: the generation of the
/// newest job and the record it publishes into. A job may touch the record
/// only while its own generation is still the newest; each trigger bumps
/// the generation, which is what cancels the previous job's right to
/// publish.
pub struct RenderShared {
    pub current_generation: u64,
    pub output: RenderOutput,
}

pub open spec fn trigger_m(s: RenderShared) -> (RenderShared, u64) {
    (
        RenderShared {
            current_generation: (s.current_generation + 1) as u64,
            output: s.output,
        },
        (s.current_generation + 1) as u64,
    )
}

pub open spec fn begin_m(s: RenderShared, job_gen: u64) -> RenderShared {
    if job_gen == s.current_generation {
        RenderShared {
            current_generation: s.current_generation,
            output: RenderOutput { pending: true, ..s.output },
        }
    } else {
        s
    }
}

pub open spec fn publish_m(
    s: RenderShared,
    job_gen: u64,
    outcome: RenderOutcome,
    elapsed_ms: u64,
) -> RenderShared {
    if job_gen == s.current_generation {
        RenderShared {
            current_generation: s.current_generation,
            output: apply_outcome_m(s.output, outcome, elapsed_ms),
        }
    } else {
        s
    }
}

impl RenderShared {
    /// The state at startup: no job yet, nothing rendered, nothing failed.
    pub fn new() -> (r: RenderShared)
        ensures
            r.current_generation == 0,
            r.output.pending == false,
            r.output.file_path is None,
            r.output.render_error is None,
            r.output.time_ms == 0,
            r.output.wf(),
    {
        RenderShared {
            current_generation: 0,
            output: RenderOutput {
                pending: false,
                file_path: None,
                render_error: None,
                time_ms: 0,
            },
        }
    }

    /// Supersedes any in-flight job and hands out the generation of the one
    /// new job that replaces it. An older job's generation no longer
    /// matches, so it can never publish again.
    pub fn trigger(&mut self) -> (job_gen: u64)
        requires
            old(self).current_generation < u64::MAX,
        ensures
            (*final(self), job_gen) == trigger_m(*old(self)),
            job_gen == old(self).current_generation + 1,
    {
        self.current_generation = self.current_generation + 1;
        self.current_generation
    }

    /// A job marks the record pending when it starts, but only while it is
    /// still the newest job.
    pub fn begin(&mut self, job_gen: u64)
        ensures
            *final(self) == begin_m(*old(self), job_gen),
    {
        if job_gen == self.current_generation {
            self.output.pending = true;
        }
    }

    /// A job publishes its outcome, but only while it is still the newest
    /// job; a superseded job's publish changes nothing at all.
    pub fn publish(&mut self, job_gen: u64, outcome: RenderOutcome, elapsed_ms: u64)
        ensures
            *final(self) == publish_m(*old(self), job_gen, outcome, elapsed_ms),
            old(self).output.wf() ==> final(self).output.wf(),
    {
        if job_gen == self.current_generation {
            match outcome {
                RenderOutcome::Artifact { file_path } => {
                    self.output = RenderOutput {
                        pending: false,
                        file_path: Some(file_path),
                        render_error: None,
                        time_ms: elapsed_ms,
                    };
                },
                RenderOutcome::Diagnostic { message } => {
                    self.output = RenderOutput {
                        pending: false,
                        file_path: None,
                        render_error: Some(message),
                        time_ms: elapsed_ms,
                    };
                },
                RenderOutcome::Unavailable => {
                    self.output = RenderOutput {
                        pending: false,
                        file_path: None,
                        render_error: match &self.output.render_error {
                            Some(e) => Some(e.clone()),
                            None => None,
                        },
                        time_ms: elapsed_ms,
                    };
                },
            }
        }
    }
}

/// Single flight: once a second render has been triggered, the record can
/// only ever reflect the second job's outcome. Whether the superseded first
/// job tries to publish before or after the second one, its publish is a
/// no-op and the second job's outcome is what stands.
pub proof fn lemma_single_flight(
    s: RenderShared,
    o1: RenderOutcome,
    o2: RenderOutcome,
    e1: u64,
    e2: u64,
)
    requires
        s.current_generation + 2 <= u64::MAX,
    ensures
        ({
            let (s1, g1) = trigger_m(s);
            let (s2, g2) = trigger_m(s1);
            let sb = begin_m(begin_m(s2, g1), g2);
            &&& publish_m(publish_m(sb, g1, o1, e1), g2, o2, e2).output == apply_outcome_m(
                sb.output,
                o2,
                e2,
            )
            &&& publish_m(publish_m(sb, g2, o2, e2), g1, o1, e1) == publish_m(sb, g2, o2, e2)
            &&& begin_m(s2, g1) == s2
        }),
{
}

/// Judges one finished invocation of the external renderer. A tool that
/// could not be launched leaves the pipeline quietly without an artifact; a
/// launch whose standard error stayed empty produced the artifact at the
/// derived path; anything on standard error means failure, explained by the
/// two-tier diagnostic policy: the syntax parser's formatted failure when
/// the document does not parse, else the tool's own text verbatim.
pub fn evaluate_render(launch_ok: bool, stderr: &str, document: &str, output_path: &str) -> (r:
    RenderOutcome)
    ensures
        ({
            match r {
                RenderOutcome::Unavailable => !launch_ok,
                RenderOutcome::Artifact { file_path } => launch_ok && stderr@.len() == 0
                    && file_path@ == output_path@,
                RenderOutcome::Diagnostic { message } => launch_ok && stderr@.len() != 0
                    && message@ == render_failure_diagnostic_spec(document@, stderr@),
            }
        }),
{
    if !launch_ok {
        RenderOutcome::Unavailable
    } else if stderr.is_empty() {
        RenderOutcome::Artifact { file_path: String::from_str(output_path) }
    } else {
        RenderOutcome::Diagnostic {
            message: crate::diagnostics::diagnose_render_failure(document, stderr),
        }
    }
}

/// The target format for an interactive render: an image when the terminal
/// can show one, otherwise a plain text drawing. Returns the renderer's
/// format selector and the artifact file's extension.
pub fn select_render_target(has_image_support: bool) -> (r: (&'static str, &'static str))
    ensures
        has_image_support ==> r.0@ == "-tpng"@ && r.1@ == "png"@,
        !has_image_support ==> r.0@ == "-tutxt"@ && r.1@ == "utxt"@,
{
    if has_image_support {
        ("-tpng", "png")
    } else {
        ("-tutxt", "utxt")
    }
}

/// Maps the UI's dark-mode flag to the flag the external renderer expects.
pub fn dark_mode_to_plantuml_mode(dark_mode: bool) -> (r: &'static str)
    ensures
        dark_mode ==> r@ == "-darkmode"@,
        !dark_mode ==> r@ == ""@,
{
    match dark_mode {
        true => "-darkmode",
        false => "",
    }
}

/// The exact argument list for one invocation of the external renderer:
/// format selector, parallelism, color mode, fail-fast, and where to write,
/// in the order the tool expects.
pub fn build_render_args(
    output_format: &str,
    mode: &str,
    output_dir_path: &str,
    input_file_path: &str,
) -> (r: Vec<String>)
    ensures
        r@.len() == 8,
        r@[0]@ == output_format@,
        r@[1]@ == "-nbthread"@,
        r@[2]@ == "auto"@,
        r@[3]@ == mode@,
        r@[4]@ == "-failfast2"@,
        r@[5]@ == "-output"@,
        r@[6]@ == output_dir_path@,
        r@[7]@ == input_file_path@,
{
    let mut r: Vec<String> = Vec::new();
    r.push(String::from_str(output_format));
    r.push(String::from_str("-nbthread"));
    r.push(String::from_str("auto"));
    r.push(String::from_str(mode));
    r.push(String::from_str("-failfast2"));
    r.push(String::from_str("-output"));
    r.push(String::from_str(output_dir_path));
    r.push(String::from_str(input_file_path));
    r
}

/// The argument list for a one-shot render command: the chosen format, the
/// command's own color-mode rule, and the command's output directory.
pub fn command_invocation_args(
    command: &Command,
    light_mode: bool,
    dark_mode: bool,
    input_file_path: &str,
) -> (r: Vec<String>)
    ensures
        ({
            match command {
                Command::Render { output, extension } => {
                    &&& r@.len() == 8
                    &&& r@[0]@ == crate::pmu::output_format_spec(*extension)
                    &&& (!light_mode && dark_mode) ==> r@[3]@ == "-darkmode"@
                    &&& !(!light_mode && dark_mode) ==> r@[3]@ == ""@
                    &&& r@[6]@ == output@
                    &&& r@[7]@ == input_file_path@
                },
            }
        }),
{
    match command {
        Command::Render { output, extension } => {
            let format = extension.to_output_format();
            let mode = dark_mode_to_plantuml_mode(!light_mode && dark_mode);
            build_render_args(format.as_str(), mode, output.as_str(), input_file_path)
        },
    }
}

} // verus!
