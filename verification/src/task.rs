//! What a task needs before its program can be started: the directory it
//! works in, the environment its command line is filled in from, the
//! command itself and the file that will hold its output.

use crate::command::{arguments_of, parse_command_with_env, substituted_all, Env, ExecutableCommand};
use crate::config::ENV_KEY_BUNDLED_LSP;
use crate::paths::path_join;
use vstd::prelude::*;

verus! {

/// `BuildHasher::hash_one` on a path, with the default hasher of the
/// standard library. The standard library leaves the algorithm open, so
/// nothing is stated of the result.
#[verifier::external_body]
fn hash_of_path(path: &str) -> u64 {
    std::hash::BuildHasher::hash_one(
        &std::hash::BuildHasherDefault::<std::hash::DefaultHasher>::default(),
        std::path::Path::new(path),
    )
}

/// The name of the directory of the task `name`, inside the directory for
/// temporary files.
pub fn temp_dir_name(name: &str) -> (dir: String)
    ensures
        dir@ == "algorime-"@ + name@,
{
    let mut dir = String::from_str("algorime-");
    dir.append(name);
    dir
}

/// The directory of the task `name` inside `temp_root`, joined as the
/// standard library joins paths.
pub fn path_of_temp_dir(temp_root: &str, name: &str) -> String {
    let dir_name = temp_dir_name(name);
    path_join(temp_root, dir_name.as_str())
}

/// The hexadecimal digit for `d`, in lower case.
pub open spec fn hex_digit(d: nat) -> char {
    if d == 0 {
        '0'
    } else if d == 1 {
        '1'
    } else if d == 2 {
        '2'
    } else if d == 3 {
        '3'
    } else if d == 4 {
        '4'
    } else if d == 5 {
        '5'
    } else if d == 6 {
        '6'
    } else if d == 7 {
        '7'
    } else if d == 8 {
        '8'
    } else if d == 9 {
        '9'
    } else if d == 10 {
        'a'
    } else if d == 11 {
        'b'
    } else if d == 12 {
        'c'
    } else if d == 13 {
        'd'
    } else if d == 14 {
        'e'
    } else {
        'f'
    }
}

/// `n` written in hexadecimal, in lower case, without leading zeros.
pub open spec fn lower_hex(n: nat) -> Seq<char>
    decreases n,
{
    if n < 16 {
        seq![hex_digit(n)]
    } else {
        lower_hex(n / 16).push(hex_digit(n % 16))
    }
}

/// Computes `hex_digit`.
fn hex_digit_of(d: u64) -> (c: char)
    requires
        d < 16,
    ensures
        c == hex_digit(d as nat),
{
    if d == 0 {
        '0'
    } else if d == 1 {
        '1'
    } else if d == 2 {
        '2'
    } else if d == 3 {
        '3'
    } else if d == 4 {
        '4'
    } else if d == 5 {
        '5'
    } else if d == 6 {
        '6'
    } else if d == 7 {
        '7'
    } else if d == 8 {
        '8'
    } else if d == 9 {
        '9'
    } else if d == 10 {
        'a'
    } else if d == 11 {
        'b'
    } else if d == 12 {
        'c'
    } else if d == 13 {
        'd'
    } else if d == 14 {
        'e'
    } else {
        'f'
    }
}

/// Appends `n`, written in hexadecimal, to `out`.
fn push_lower_hex(out: &mut String, n: u64)
    ensures
        final(out)@ == old(out)@ + lower_hex(n as nat),
    decreases n,
{
    if n >= 16 {
        push_lower_hex(out, n / 16);
        out.push(hex_digit_of(n % 16));
        assert(out@ =~= old(out)@ + lower_hex(n as nat));
    } else {
        out.push(hex_digit_of(n));
        assert(out@ =~= old(out)@ + lower_hex(n as nat));
    }
}

/// The name of the file that holds the output of a program that was fed
/// the input file whose path has the hash `input_hash`.
pub fn output_file_name(input_hash: u64) -> (name: String)
    ensures
        name@ == "output-"@ + lower_hex(input_hash as nat) + ".txt"@,
{
    let mut name = String::from_str("output-");
    push_lower_hex(&mut name, input_hash);
    name.append(".txt");
    name
}

/// The environment that the command line of a task is filled in from:
/// what the caller gave, then the defaults over it, then the working
/// directory as `CWD` over both.
pub open spec fn task_environment(
    env: Map<Seq<char>, Seq<char>>,
    defaults: Map<Seq<char>, Seq<char>>,
    cwd: Seq<char>,
) -> Map<Seq<char>, Seq<char>> {
    env.union_prefer_right(defaults).insert("CWD"@, cwd)
}

/// Computes `task_environment`.
pub fn task_env(env: &Env, defaults: &Env, cwd: &str) -> (merged: Env)
    ensures
        merged@ == task_environment(env@, defaults@, cwd@),
{
    let mut merged = env.clone();
    merged.extend_from(defaults);
    merged.insert(String::from_str("CWD"), String::from_str(cwd));
    merged
}

/// The default environment: the directory of the bundled language
/// servers, under `BUNDLED_LSP`.
pub fn get_default_env(lang_server_dir: &str) -> (env: Env)
    ensures
        env@ == Map::<Seq<char>, Seq<char>>::empty().insert(
            ENV_KEY_BUNDLED_LSP@,
            lang_server_dir@,
        ),
{
    let mut env = Env::new();
    env.insert(String::from_str(ENV_KEY_BUNDLED_LSP), String::from_str(lang_server_dir));
    env
}

/// The command of a task whose working directory is `temp_dir`: the
/// command line `commands`, filled in from the environment of the task,
/// to be started in `temp_dir`. Fails, with `Empty command`, exactly when
/// the command line holds no argument.
pub fn task_command(commands: &str, env: &Env, defaults: &Env, temp_dir: &str) -> (r: Result<
    ExecutableCommand,
    String,
>)
    ensures
        r is Err <==> arguments_of(commands@).len() == 0,
        r matches Err(e) ==> e@ == "Empty command"@,
        r matches Ok(cmd) ==> {
            &&& cmd.parts() == substituted_all(
                arguments_of(commands@),
                task_environment(env@, defaults@, temp_dir@),
            )
            &&& cmd.current_dir matches Some(dir) && dir@ == temp_dir@
            &&& cmd.envs@ == Map::<Seq<char>, Seq<char>>::empty()
        },
{
    let merged = task_env(env, defaults, temp_dir);
    match parse_command_with_env(commands, &merged) {
        Ok(cmd) => {
            let mut cmd = cmd;
            cmd.set_current_dir(String::from_str(temp_dir));
            Ok(cmd)
        },
        Err(e) => Err(e),
    }
}

/// What is needed to start the program of a task on an input file.
#[derive(Debug, Clone)]
pub struct TaskLaunch {
    pub command: ExecutableCommand,
    pub temp_dir: String,
    pub output_file: String,
}

/// Prepares the program of the task `task_tag`, to be fed
/// `input_filename`. The task works in its own directory inside
/// `temp_root`; its command comes from `task_command` for that
/// directory; its output goes to a file in that directory that is named
/// after the hash of the path of the input.
pub fn prepare_launch(
    temp_root: &str,
    task_tag: &str,
    commands: &str,
    env: &Env,
    defaults: &Env,
    input_filename: &str,
) -> (r: Result<TaskLaunch, String>)
    ensures
        r is Err <==> arguments_of(commands@).len() == 0,
        r matches Err(e) ==> e@ == "Empty command"@,
        r matches Ok(launch) ==> {
            &&& launch.command.parts() == substituted_all(
                arguments_of(commands@),
                task_environment(env@, defaults@, launch.temp_dir@),
            )
            &&& launch.command.current_dir matches Some(dir) && dir@ == launch.temp_dir@
        },
{
    let temp_dir = path_of_temp_dir(temp_root, task_tag);
    match task_command(commands, env, defaults, temp_dir.as_str()) {
        Ok(command) => {
            let file_name = output_file_name(hash_of_path(input_filename));
            let output_file = path_join(temp_dir.as_str(), file_name.as_str());
            Ok(TaskLaunch { command, temp_dir, output_file })
        },
        Err(e) => Err(e),
    }
}

} // verus!
