use vstd::prelude::*;
use crate::decimal::spec_i32_decimal;
use crate::error::TessError;
use crate::error::TessResult;
use crate::lines::spec_lines;
use crate::lines::split_lines;
use crate::lines::views_of;

verus! {

/// How a subprocess ended: a normal exit with a numeric status code, or
/// abnormal termination with no code (for instance, killed by a signal).
#[derive(Debug, Clone, Copy, PartialEq, Eq, Structural)]
pub enum ExitStatus {
    Exited(i32),
    Signaled,
}

/// Everything a finished subprocess left behind: its captured standard
/// output and standard error, decoded as text, and how it ended.
#[derive(Debug, Clone)]
pub struct ProcessOutput {
    pub stdout: String,
    pub stderr: String,
    pub status: ExitStatus,
}

/// What spawning the external binary came to: the binary was absent (or
/// could not be started), or it ran to completion and left its output.
#[derive(Debug, Clone)]
pub enum SpawnOutcome {
    NotFound,
    Completed(ProcessOutput),
}

/// The diagnostic text for a normal exit with a nonzero status code.
pub open spec fn spec_exit_code_message(code: int, stderr: Seq<char>) -> Seq<char> {
    "Process exited with code: "@ + spec_i32_decimal(code) + ", stderr: "@ + stderr
}

/// The diagnostic text for abnormal termination.
pub open spec fn spec_signal_message(stderr: Seq<char>) -> Seq<char> {
    "Process terminated by signal, stderr: "@ + stderr
}

/// How an outcome is read: a missing binary is the not-found error; an
/// exit with status code zero succeeds with the captured standard output;
/// any other ending fails with a process-error message that carries the
/// status code (or an abnormal-termination note) and the captured standard
/// error.
pub open spec fn run_result_matches(outcome: SpawnOutcome, r: TessResult<String>) -> bool {
    match outcome {
        SpawnOutcome::NotFound => r matches Err(TessError::TesseractNotFoundError),
        SpawnOutcome::Completed(out) => match out.status {
            ExitStatus::Exited(code) => if code == 0 {
                r matches Ok(text) && text@ == out.stdout@
            } else {
                r matches Err(TessError::VersionError(m)) && m@ == spec_exit_code_message(
                    code as int,
                    out.stderr@,
                )
            },
            ExitStatus::Signaled => r matches Err(TessError::VersionError(m)) && m@
                == spec_signal_message(out.stderr@),
        },
    }
}

/// Turns the observed outcome of one subprocess into the typed result its
/// invocation stood for, exactly as `run_result_matches` reads it.
pub fn run_tesseract_command(outcome: SpawnOutcome) -> (r: TessResult<String>)
    ensures
        run_result_matches(outcome, r),
{
    match outcome {
        SpawnOutcome::NotFound => Err(TessError::TesseractNotFoundError),
        SpawnOutcome::Completed(out) => match out.status {
            ExitStatus::Exited(code) => if code == 0 {
                Ok(out.stdout)
            } else {
                let mut m = String::from_str("Process exited with code: ");
                let digits = crate::decimal::i32_to_decimal(code);
                m.append(digits.as_str());
                m.append(", stderr: ");
                m.append(out.stderr.as_str());
                Err(TessError::VersionError(m))
            },
            ExitStatus::Signaled => {
                let mut m = String::from_str("Process terminated by signal, stderr: ");
                m.append(out.stderr.as_str());
                Err(TessError::VersionError(m))
            },
        },
    }
}

/// The language codes in the list-languages output: every line after the
/// first, which is a header the binary prints before the codes.
pub open spec fn spec_langs(stdout: Seq<char>) -> Seq<Seq<char>> {
    let ls = spec_lines(stdout);
    if ls.len() == 0 {
        ls
    } else {
        ls.skip(1)
    }
}

/// Reads the outcome of the version command: on success the version text
/// exactly as the binary printed it, untrimmed.
pub fn get_tesseract_version(outcome: SpawnOutcome) -> (r: TessResult<String>)
    ensures
        run_result_matches(outcome, r),
{
    run_tesseract_command(outcome)
}

/// Whether the outcome is the one read as success: a completed run that
/// exited with status code zero.
pub open spec fn run_result_matches_ok(outcome: SpawnOutcome) -> bool {
    outcome matches SpawnOutcome::Completed(out) && out.status == ExitStatus::Exited(0)
}

/// The captured standard output of a completed outcome.
pub open spec fn spec_outcome_stdout(outcome: SpawnOutcome) -> Seq<char> {
    match outcome {
        SpawnOutcome::Completed(out) => out.stdout@,
        SpawnOutcome::NotFound => Seq::empty(),
    }
}

/// Reads the outcome of the list-languages command: on success the
/// installed language codes, in the binary's order, duplicates kept, with
/// the header line discarded; on failure the error the run stood for.
pub fn get_tesseract_langs(outcome: SpawnOutcome) -> (r: TessResult<Vec<String>>)
    ensures
        match r {
            Ok(langs) => run_result_matches_ok(outcome) && views_of(langs@) == spec_langs(
                spec_outcome_stdout(outcome),
            ),
            Err(e) => run_result_matches(outcome, Err(e)),
        },
{
    let output = match run_tesseract_command(outcome) {
        Ok(text) => text,
        Err(e) => {
            return Err(e);
        },
    };
    let mut ls = split_lines(output.as_str());
    if ls.len() > 0 {
        ls.remove(0);
        proof {
            assert(views_of(ls@) =~= spec_lines(output@).skip(1));
        }
    }
    Ok(ls)
}

/// A completed run that exited with status code zero is never read as a
/// failure: the result is the captured standard output, whole.  In
/// particular, when the binary printed anything at all, the text returned
/// is non-empty.
pub proof fn lemma_clean_exit_succeeds(outcome: SpawnOutcome, r: TessResult<String>)
    requires
        run_result_matches(outcome, r),
        run_result_matches_ok(outcome),
    ensures
        r matches Ok(text) && text@ == spec_outcome_stdout(outcome),
        spec_outcome_stdout(outcome).len() > 0 ==> (r matches Ok(text) && text@.len() > 0),
{
}

/// Reads the outcome of a recognize command: on success the recognized
/// text exactly as the binary printed it.
pub fn image_to_string(outcome: SpawnOutcome) -> (r: TessResult<String>)
    ensures
        run_result_matches(outcome, r),
{
    run_tesseract_command(outcome)
}

} // verus!
