//! Running an installer script and reading what it reports.

use crate::platform::Platform;
use crate::text::{chars_of, decimal_text, push_decimal, texts};
use vstd::prelude::*;

verus! {

/// `s` with a backtick before each space, as PowerShell wants the spaces
/// of an argument written.
pub open spec fn spaces_escaped(s: Seq<char>) -> Seq<char>
    decreases s.len(),
{
    if s.len() == 0 {
        s
    } else if s.last() == ' ' {
        spaces_escaped(s.drop_last()).push('`').push(' ')
    } else {
        spaces_escaped(s.drop_last()).push(s.last())
    }
}

/// Computes `spaces_escaped`.
pub fn escape_spaces(s: &str) -> (out: String)
    ensures
        out@ == spaces_escaped(s@),
{
    let v = chars_of(s);
    let mut out = String::new();
    let mut i: usize = 0;
    assert(v@.take(0) =~= Seq::<char>::empty());
    while i < v.len()
        invariant
            i <= v.len(),
            v@ == s@,
            out@ == spaces_escaped(v@.take(i as int)),
        decreases v.len() - i,
    {
        assert(v@.take(i + 1).drop_last() == v@.take(i as int));
        if v[i] == ' ' {
            out.push('`');
            out.push(' ');
        } else {
            out.push(v[i]);
        }
        i = i + 1;
    }
    assert(v@.take(v.len() as int) == v@);
    out
}

/// The bundled file that holds the script `name`.
pub fn script_resource(name: &str) -> (resource: String)
    ensures
        resource@ == "sidecar/"@ + name@ + ".ps1"@,
{
    let mut resource = String::from_str("sidecar/");
    resource.append(name);
    resource.append(".ps1");
    resource
}

/// The name of the file in which the script `name` leaves its report.
pub fn report_name(name: &str) -> (report: String)
    ensures
        report@ == name@ + ".json"@,
{
    let mut report = String::from_str(name);
    report.append(".json");
    report
}

/// The arguments that PowerShell is started with to run `script_file`
/// with the directory `target` as its argument.
pub fn script_arguments(script_file: &str, target: &str) -> (args: Vec<String>)
    ensures
        texts(args@) == seq![
            "-ExecutionPolicy"@,
            "Bypass"@,
            "-File"@,
            script_file@,
            spaces_escaped(target@),
        ],
{
    let mut args: Vec<String> = Vec::new();
    args.push(String::from_str("-ExecutionPolicy"));
    args.push(String::from_str("Bypass"));
    args.push(String::from_str("-File"));
    args.push(String::from_str(script_file));
    args.push(escape_spaces(target));
    assert(texts(args@) =~= seq![
        "-ExecutionPolicy"@,
        "Bypass"@,
        "-File"@,
        script_file@,
        spaces_escaped(target@),
    ]);
    args
}

/// Whether installer scripts can be run on `platform`: on Windows only.
pub fn installer_available(platform: Platform) -> (r: Result<(), String>)
    ensures
        r is Ok <==> platform == Platform::Windows,
        r matches Err(e) ==> e@ == "Installer only work on windows"@,
{
    match platform {
        Platform::Windows => Ok(()),
        Platform::Unix => Err(String::from_str("Installer only work on windows")),
    }
}

/// `n` written in decimal, with a minus sign where it is negative.
pub open spec fn signed_text(n: int) -> Seq<char> {
    if n < 0 {
        seq!['-'] + decimal_text((-n) as nat)
    } else {
        decimal_text(n as nat)
    }
}

/// The error for a script that ended with the exit code `code`, or
/// without one.
pub open spec fn exit_error(code: Option<i32>) -> Seq<char> {
    match code {
        Some(c) => "Process exit with code "@ + signed_text(c as int),
        None => "Process exit with terminal signal"@,
    }
}

/// What the run of a script ended in: its report where it ended with
/// success, and else the error that names its exit code.
pub fn installer_result(success: bool, code: Option<i32>, report: String) -> (r: Result<
    String,
    String,
>)
    ensures
        match r {
            Ok(content) => success && content == report,
            Err(e) => !success && e@ == exit_error(code),
        },
{
    if success {
        Ok(report)
    } else {
        match code {
            Some(c) => {
                let mut e = String::from_str("Process exit with code ");
                if c < 0 {
                    e.push('-');
                    let magnitude: u64 = (-(c as i64)) as u64;
                    push_decimal(&mut e, magnitude);
                    assert(e@ =~= "Process exit with code "@ + (seq!['-'] + decimal_text(
                        (-(c as int)) as nat,
                    )));
                } else {
                    push_decimal(&mut e, c as u64);
                }
                Err(e)
            },
            None => Err(String::from_str("Process exit with terminal signal")),
        }
    }
}

} // verus!
