//! What the run of the shell's `alias` command means.
//!
//! The caller runs `zsh -ic alias` and hands over how the run ended.

use crate::alias::types::{CollectError, CollectErrorSpec};
use vstd::prelude::*;
use vstd::utf8::{decode_utf8, valid_utf8};

verus! {

/// How the run of the shell ended.
#[derive(Debug, PartialEq, Eq)]
pub enum ShellRun {
    /// The shell could not be started; `reason` is what the system said.
    NotStarted { reason: String },
    /// The shell ran and exited.
    Exited {
        /// Whether the exit status says success.
        success: bool,
        /// The exit status, as it is reported to the user.
        status: String,
        /// What the shell wrote to standard output.
        stdout: Vec<u8>,
        /// What the shell wrote to standard error, as text.
        stderr: String,
    },
}

/// The mathematical model of a [`ShellRun`].
pub enum ShellRunSpec {
    NotStarted { reason: Seq<char> },
    Exited { success: bool, status: Seq<char>, stdout: Seq<u8>, stderr: Seq<char> },
}

impl View for ShellRun {
    type V = ShellRunSpec;

    open spec fn view(&self) -> ShellRunSpec {
        match self {
            ShellRun::NotStarted { reason } => ShellRunSpec::NotStarted { reason: reason@ },
            ShellRun::Exited { success, status, stdout, stderr } => ShellRunSpec::Exited {
                success: *success,
                status: status@,
                stdout: stdout@,
                stderr: stderr@,
            },
        }
    }
}

/// The reason that the standard library gives for bytes that are not UTF-8.
pub uninterp spec fn utf8_error_text(bytes: Seq<u8>) -> Seq<char>;

/// `String::from_utf8`: the string that the bytes encode, where they are
/// valid UTF-8; else the description of why they are not, as the error's
/// `Display` gives it.
#[verifier::external_body]
fn string_from_utf8(bytes: Vec<u8>) -> (r: Result<String, String>)
    ensures
        match r {
            Ok(s) => valid_utf8(bytes@) && s@ == decode_utf8(bytes@),
            Err(e) => !valid_utf8(bytes@) && e@ == utf8_error_text(bytes@),
        },
{
    match String::from_utf8(bytes) {
        Ok(s) => Ok(s),
        Err(e) => Err(e.to_string()),
    }
}

/// What the decoding of bytes as UTF-8 gives: the text that they encode, or
/// the reason why they encode none.
pub open spec fn decoded(bytes: Seq<u8>) -> Result<Seq<char>, Seq<char>> {
    if valid_utf8(bytes) {
        Ok(decode_utf8(bytes))
    } else {
        Err(utf8_error_text(bytes))
    }
}

/// What a run that exited gives, once its output is decoded: a failure
/// without any output is the shell's failure; else the output counts, as
/// text or as the reason why it is none. A failure that still printed
/// something is put up with.
pub open spec fn outcome_of_exit(
    success: bool,
    status: Seq<char>,
    stderr: Seq<char>,
    printed_nothing: bool,
    output: Result<Seq<char>, Seq<char>>,
) -> Result<Seq<char>, CollectErrorSpec> {
    if !success && printed_nothing {
        Err(CollectErrorSpec::ShellFailed { status, stderr })
    } else {
        match output {
            Ok(text) => Ok(text),
            Err(reason) => Err(CollectErrorSpec::InvalidUtf8 { source: reason }),
        }
    }
}

/// What a run of the shell gives: the text of its standard output, unless the
/// shell could not be started, failed without any output, or printed what is
/// not valid UTF-8.
pub open spec fn collect_raw_aliases_spec(run: ShellRunSpec) -> Result<Seq<char>, CollectErrorSpec> {
    match run {
        ShellRunSpec::NotStarted { reason } => Err(CollectErrorSpec::SpawnFailed { source: reason }),
        ShellRunSpec::Exited { success, status, stdout, stderr } => outcome_of_exit(
            success,
            status,
            stderr,
            stdout.len() == 0,
            decoded(stdout),
        ),
    }
}

/// What a run that exited gives, once its output is decoded.
pub fn collect_from_exit(
    success: bool,
    status: String,
    stderr: String,
    printed_nothing: bool,
    output: Result<String, String>,
) -> (r: Result<String, CollectError>)
    ensures
        match r {
            Ok(text) => outcome_of_exit(
                success,
                status@,
                stderr@,
                printed_nothing,
                match output {
                    Ok(t) => Ok(t@),
                    Err(e) => Err(e@),
                },
            ) == Ok::<Seq<char>, CollectErrorSpec>(text@),
            Err(e) => outcome_of_exit(
                success,
                status@,
                stderr@,
                printed_nothing,
                match output {
                    Ok(t) => Ok(t@),
                    Err(e) => Err(e@),
                },
            ) == Err::<Seq<char>, CollectErrorSpec>(e@),
        },
{
    if !success && printed_nothing {
        return Err(CollectError::ShellFailed { status, stderr });
    }
    match output {
        Ok(text) => Ok(text),
        Err(reason) => Err(CollectError::InvalidUtf8 { source: reason }),
    }
}

/// The raw alias listing that a run of `zsh -ic alias` gave, or why there is
/// none.
pub fn collect_raw_aliases(run: ShellRun) -> (r: Result<String, CollectError>)
    ensures
        match r {
            Ok(text) => collect_raw_aliases_spec(run@) == Ok::<Seq<char>, CollectErrorSpec>(text@),
            Err(e) => collect_raw_aliases_spec(run@) == Err::<Seq<char>, CollectErrorSpec>(e@),
        },
{
    match run {
        ShellRun::NotStarted { reason } => Err(CollectError::SpawnFailed { source: reason }),
        ShellRun::Exited { success, status, stdout, stderr } => {
            let printed_nothing = stdout.len() == 0;
            let output = string_from_utf8(stdout);
            collect_from_exit(success, status, stderr, printed_nothing, output)
        },
    }
}

} // verus!
