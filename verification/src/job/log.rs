//! The log of a job: where it lies and what its entries say.

use crate::outside::{expand_tilde, expands_to, has_home_shorthand};
use crate::text::{decimal, push_decimal};
use vstd::prelude::*;
use vstd::string::*;

verus! {

/// The path of the log of `job` in the directory `dir`: `{dir}/{job}.log`.
pub open spec fn log_file_name(job: Seq<char>, dir: Seq<char>) -> Seq<char> {
    dir + seq!['/'] + job + seq!['.', 'l', 'o', 'g']
}

/// The entry that marks a command: `$ {command}` and a line feed.
pub open spec fn command_line(command: Seq<char>) -> Seq<char> {
    seq!['$', ' '] + command + seq!['\n']
}

/// The entry for a process that ended with an exit code: `Exit {code}` and a
/// line feed.
pub open spec fn exit_line(code: int) -> Seq<char> {
    seq!['E', 'x', 'i', 't', ' '] + decimal(code) + seq!['\n']
}

/// The entry for a process that a signal ended.
pub open spec fn signal_line() -> Seq<char> {
    "Process terminated by signal\n"@
}

/// The entry that closes the log of a failed process.
pub open spec fn failure_line(code: Option<i32>) -> Seq<char> {
    match code {
        Some(code) => exit_line(code as int),
        None => signal_line(),
    }
}

/// The path of the log of `job` in `dir`, which is taken as it stands.
pub fn log_name_in(job: &str, dir: &str) -> (path: String)
    ensures
        path@ == log_file_name(job@, dir@),
{
    proof {
        reveal_strlit("/");
        reveal_strlit(".log");
    }
    let mut path = dir.to_owned();
    path.append("/");
    path.append(job);
    path.append(".log");
    assert(path@ =~= log_file_name(job@, dir@));
    path
}

/// The path of the log of `job` under `log_dir`, a leading home shorthand in
/// `log_dir` expanded.
///
/// The same job and directory give the same path wherever the directory has
/// no home shorthand; with one, the path still ends in what follows the
/// tilde, then `/{job}.log`.
pub fn create_log_name(job: &str, log_dir: &str) -> (path: String)
    ensures
        exists|dir: Seq<char>| #[trigger]
            expands_to(log_dir@, dir) && path@ == log_file_name(job@, dir),
        !has_home_shorthand(log_dir@) ==> path@ == log_file_name(job@, log_dir@),
{
    let dir = expand_tilde(log_dir);
    let path = log_name_in(job, dir.as_str());
    assert(expands_to(log_dir@, dir@) && path@ == log_file_name(job@, dir@));
    path
}

/// The log entry for `command`.
pub fn command_entry(command: &str) -> (line: String)
    ensures
        line@ == command_line(command@),
{
    proof {
        reveal_strlit("$ ");
        reveal_strlit("\n");
    }
    let mut line = "$ ".to_owned();
    line.append(command);
    line.append("\n");
    assert(line@ =~= command_line(command@));
    line
}

/// The log entry for a process that failed with `code`, or that a signal
/// ended where there is none.
pub fn failure_entry(code: Option<i32>) -> (line: String)
    ensures
        line@ == failure_line(code),
{
    match code {
        Some(code) => {
            proof {
                reveal_strlit("Exit ");
                reveal_strlit("\n");
            }
            let mut line = "Exit ".to_owned();
            push_decimal(&mut line, code);
            line.append("\n");
            assert(line@ =~= exit_line(code as int));
            line
        },
        None => "Process terminated by signal\n".to_owned(),
    }
}

} // verus!
