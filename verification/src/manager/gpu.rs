//! The `nvidia-settings` commands that read the GPU temperature and switch fan control,
//! and the checks on what they report.

use vstd::prelude::*;
use vstd::utf8::{decode_utf8, encode_utf8, valid_utf8};
use crate::text::{
    decimal_value, decode_utf8_text, is_ascii_digit, parse_u64, strip_text_suffix, u64_from_decimal,
};

verus! {

/// Why a GPU command did not do what was asked.
#[derive(Debug, Clone, Copy, PartialEq, Eq, Structural)]
pub enum GpuError {
    /// The command could not be started.
    NotStarted,
    /// The command did not exit successfully.
    ExitFailure,
    /// The command's output is not UTF-8 text.
    NotText,
    /// The temperature report does not end with a line break.
    MissingLineBreak,
    /// The temperature report is not a number that fits in 64 bits.
    NotANumber,
    /// The fan command reported something other than the expected assignments.
    UnexpectedOutput,
}

/// The commands that the daemon runs.
#[derive(Debug, Clone, Copy, PartialEq, Eq, Structural)]
pub enum GpuCommand {
    /// Query the GPU core temperature.
    QueryTemperature,
    /// Take fan control from the vBIOS and set the lowest fan speed.
    DisableFans,
    /// Give fan control back to the vBIOS.
    EnableFans,
}

/// The program that runs `command`.
pub open spec fn command_program(command: GpuCommand) -> Seq<char> {
    match command {
        GpuCommand::QueryTemperature => "nvidia-settings"@,
        GpuCommand::DisableFans => "sudo"@,
        GpuCommand::EnableFans => "sudo"@,
    }
}

/// The arguments that the program of `command` is given.
pub open spec fn command_args(command: GpuCommand) -> Seq<Seq<char>> {
    match command {
        GpuCommand::QueryTemperature => seq!["-c"@, "0"@, "-q"@, "gpucoretemp"@, "-t"@],
        GpuCommand::DisableFans => seq![
            "nvidia-settings"@,
            "-c"@,
            "0"@,
            "-a"@,
            "[gpu:0]/GPUFanControlState=1"@,
            "-a"@,
            "[fan:0]/GPUTargetFanSpeed=30"@,
            "-a"@,
            "[fan:1]/GPUTargetFanSpeed=30"@,
        ],
        GpuCommand::EnableFans => seq![
            "nvidia-settings"@,
            "-c"@,
            "0"@,
            "-a"@,
            "[gpu:0]/GPUFanControlState=0"@,
            "-t"@,
        ],
    }
}

/// What `nvidia-settings` prints when it has taken fan control and set both fans to
/// their lowest speed.
pub open spec fn fans_disabled_report() -> Seq<char> {
    "\n  Attribute 'GPUFanControlState' ([gpu:0]) assigned value 1.\n\n  Attribute 'GPUTargetFanSpeed' ([fan:0]) assigned value 30.\n\n  Attribute 'GPUTargetFanSpeed' ([fan:1]) assigned value 30.\n\n"@
}

/// What `nvidia-settings` prints when it has given fan control back to the vBIOS.
pub open spec fn fans_enabled_report() -> Seq<char> {
    "\n  Attribute 'GPUFanControlState' ([gpu:0]) assigned value 0.\n\n"@
}

/// The temperature that a run of the query command reports, given whether it exited
/// successfully and what it printed: one number followed by one line break.
pub open spec fn temperature_report(success: bool, stdout: Seq<u8>) -> Result<u64, GpuError> {
    if !success {
        Err(GpuError::ExitFailure)
    } else if !valid_utf8(stdout) {
        Err(GpuError::NotText)
    } else {
        let text = decode_utf8(stdout);
        if !(text.len() > 0 && text.last() == '\n') {
            Err(GpuError::MissingLineBreak)
        } else {
            match u64_from_decimal(text.drop_last()) {
                Some(t) => Ok(t),
                None => Err(GpuError::NotANumber),
            }
        }
    }
}

/// The outcome of a fan command, given whether it exited successfully, what it
/// printed, and the report it should have printed.
pub open spec fn fan_command_outcome(success: bool, stdout: Seq<u8>, expected: Seq<char>) -> Result<(), GpuError> {
    if !success {
        Err(GpuError::ExitFailure)
    } else if !valid_utf8(stdout) {
        Err(GpuError::NotText)
    } else if decode_utf8(stdout) != expected {
        Err(GpuError::UnexpectedOutput)
    } else {
        Ok(())
    }
}

impl GpuCommand {
    /// The program to run.
    pub fn program(&self) -> (program: &'static str)
        ensures
            program@ == command_program(*self),
    {
        match self {
            GpuCommand::QueryTemperature => "nvidia-settings",
            GpuCommand::DisableFans => "sudo",
            GpuCommand::EnableFans => "sudo",
        }
    }

    /// The arguments to give it.
    pub fn args(&self) -> (args: Vec<&'static str>)
        ensures
            args@.map_values(|a: &'static str| a@) == command_args(*self),
    {
        let args: Vec<&'static str> = match self {
            GpuCommand::QueryTemperature => vec!["-c", "0", "-q", "gpucoretemp", "-t"],
            GpuCommand::DisableFans => vec![
                "nvidia-settings",
                "-c",
                "0",
                "-a",
                "[gpu:0]/GPUFanControlState=1",
                "-a",
                "[fan:0]/GPUTargetFanSpeed=30",
                "-a",
                "[fan:1]/GPUTargetFanSpeed=30",
            ],
            GpuCommand::EnableFans => vec![
                "nvidia-settings",
                "-c",
                "0",
                "-a",
                "[gpu:0]/GPUFanControlState=0",
                "-t",
            ],
        };
        assert(args@.map_values(|a: &'static str| a@) =~= command_args(*self));
        args
    }
}

/// The bytes `a` and `b` are the same.
fn same_bytes(a: &[u8], b: &[u8]) -> (same: bool)
    ensures
        same == (a@ == b@),
{
    if a.len() != b.len() {
        return false;
    }
    let mut i: usize = 0;
    while i < a.len()
        invariant
            a@.len() == b@.len(),
            i <= a@.len(),
            forall|j: int| 0 <= j < i ==> a@[j] == b@[j],
        decreases a@.len() - i,
    {
        if a[i] != b[i] {
            return false;
        }
        i = i + 1;
    }
    assert(a@ =~= b@);
    true
}

/// Checks the output of a fan command against the report it should print.
fn check_fan_report(success: bool, stdout: &[u8], expected: &str) -> (res: Result<(), GpuError>)
    ensures
        res == fan_command_outcome(success, stdout@, expected@),
{
    if !success {
        return Err(GpuError::ExitFailure);
    }
    let text = match decode_utf8_text(stdout) {
        Some(text) => text,
        None => return Err(GpuError::NotText),
    };
    proof {
        vstd::utf8::decode_utf8_encode_utf8(stdout@);
        vstd::utf8::encode_utf8_decode_utf8(expected@);
        vstd::utf8::encode_utf8_decode_utf8(text@);
    }
    if same_bytes(text.as_bytes(), expected.as_bytes()) {
        Ok(())
    } else {
        Err(GpuError::UnexpectedOutput)
    }
}

/// The temperature reported by a run of the query command, given whether it exited
/// successfully and what it printed.
pub fn temperature_from_output(success: bool, stdout: &[u8]) -> (res: Result<u64, GpuError>)
    ensures
        res == temperature_report(success, stdout@),
{
    if !success {
        return Err(GpuError::ExitFailure);
    }
    let text = match decode_utf8_text(stdout) {
        Some(text) => text,
        None => return Err(GpuError::NotText),
    };
    let line_break = "\n";
    proof {
        reveal_strlit("\n");
        assert(line_break@ =~= seq!['\n']);
        if text@.len() > 0 {
            assert(text@.subrange(text@.len() - 1, text@.len() as int) =~= seq![text@.last()]);
        }
    }
    let number = match strip_text_suffix(text, line_break) {
        Some(number) => number,
        None => return Err(GpuError::MissingLineBreak),
    };
    proof {
        let tail = text@.subrange(text@.len() - 1, text@.len() as int);
        assert(tail[0] == text@.last());
        assert(tail[0] == line_break@[0]);
    }
    assert(number@ =~= text@.drop_last());
    match parse_u64(number) {
        Some(t) => Ok(t),
        None => Err(GpuError::NotANumber),
    }
}

/// The outcome of a run of the command that stops the fans.
pub fn disable_fans_outcome(success: bool, stdout: &[u8]) -> (res: Result<(), GpuError>)
    ensures
        res == fan_command_outcome(success, stdout@, fans_disabled_report()),
{
    check_fan_report(
        success,
        stdout,
        "\n  Attribute 'GPUFanControlState' ([gpu:0]) assigned value 1.\n\n  Attribute 'GPUTargetFanSpeed' ([fan:0]) assigned value 30.\n\n  Attribute 'GPUTargetFanSpeed' ([fan:1]) assigned value 30.\n\n",
    )
}

/// The outcome of a run of the command that gives fan control back to the vBIOS.
pub fn enable_fans_outcome(success: bool, stdout: &[u8]) -> (res: Result<(), GpuError>)
    ensures
        res == fan_command_outcome(success, stdout@, fans_enabled_report()),
{
    check_fan_report(success, stdout, "\n  Attribute 'GPUFanControlState' ([gpu:0]) assigned value 0.\n\n")
}

/// A fan command that exits successfully and prints exactly the report it should has
/// done what was asked.
pub proof fn lemma_expected_report_is_success(expected: Seq<char>)
    ensures
        fan_command_outcome(true, encode_utf8(expected), expected) == Ok::<(), GpuError>(()),
{
    vstd::utf8::encode_utf8_valid_utf8(expected);
    vstd::utf8::encode_utf8_decode_utf8(expected);
}

/// A successful query that prints decimal digits and a line break reports the number
/// those digits write, when it fits in 64 bits.
pub proof fn lemma_number_report_is_read(digits: Seq<char>)
    requires
        digits.len() > 0,
        forall|i: int| 0 <= i < digits.len() ==> is_ascii_digit(#[trigger] digits[i]),
        decimal_value(digits) <= u64::MAX,
    ensures
        temperature_report(true, encode_utf8(digits.push('\n'))) == Ok::<u64, GpuError>(
            decimal_value(digits) as u64,
        ),
{
    let text = digits.push('\n');
    vstd::utf8::encode_utf8_valid_utf8(text);
    vstd::utf8::encode_utf8_decode_utf8(text);
    assert(text.drop_last() =~= digits);
    assert(is_ascii_digit(digits[0]));
}

/// A fan command counts as done exactly when it exits successfully and prints, byte for
/// byte, the UTF-8 encoding of the report it should print.
pub proof fn lemma_fan_report_accepted_exactly(success: bool, stdout: Seq<u8>, expected: Seq<char>)
    ensures
        fan_command_outcome(success, stdout, expected) is Ok <==> (success && stdout == encode_utf8(expected)),
        fan_command_outcome(success, stdout, expected) is Ok ==> valid_utf8(stdout) && decode_utf8(stdout) == expected,
{
    vstd::utf8::encode_utf8_valid_utf8(expected);
    vstd::utf8::encode_utf8_decode_utf8(expected);
    if valid_utf8(stdout) {
        vstd::utf8::decode_utf8_encode_utf8(stdout);
    }
}

/// A successful query is read as a temperature only when its text is a number followed
/// by exactly one line break, and the temperature is that number.
pub proof fn lemma_temperature_read_exactly(success: bool, stdout: Seq<u8>, t: u64)
    ensures
        temperature_report(success, stdout) == Ok::<u64, GpuError>(t) <==> (success && valid_utf8(stdout)
            && decode_utf8(stdout).len() > 0 && decode_utf8(stdout).last() == '\n' && u64_from_decimal(
            decode_utf8(stdout).drop_last(),
        ) == Some(t)),
        !success ==> temperature_report(success, stdout) == Err::<u64, GpuError>(GpuError::ExitFailure),
{
}

} // verus!