use vstd::prelude::*;

use crate::proc::{
    combined_output, combined_output_of, lossy_decode, lossy_decode_of, Invocation,
    ProcessOutcome, StagedFile,
};
use crate::strutil::{lemma_affix_injective, str_eq};
use vstd::string::{StrSliceExecFns, StringExecFns};

verus! {

/// An execution request: a language identifier and a body of source code.
pub struct ExecRequest {
    pub language: String,
    pub code_snippet: String,
}

/// The outcome of one execution request: `success` reflects only the child
/// process's own exit status; both streams are always carried when a process
/// ran, and the error string tells a refused language, a spawn failure and a
/// failed run apart.
#[derive(Debug)]
pub struct ExecResponse {
    pub success: bool,
    pub output: Option<String>,
    pub stdout: Option<String>,
    pub stderr: Option<String>,
    pub exit_code: Option<i32>,
    pub error: Option<String>,
}

/// How a recognized language is run: one interpreter call taking the source
/// inline; a staged source file handed to one runner; or a staged source
/// compiled to a binary that is then run.
#[derive(Debug)]
pub enum ExecPlan {
    Direct { run: Invocation },
    Staged { stage: StagedFile, run: Invocation },
    CompileThenRun { stage: StagedFile, compile: Invocation, run: Invocation },
}

/// The languages the dispatcher recognizes.
#[derive(Clone, Copy, Debug, PartialEq, Eq, Structural)]
pub enum Language {
    Python,
    Ruby,
    Php,
    Node,
    Rust,
    Go,
    Shell,
}

/// Which language an identifier names, if any.
pub open spec fn language_of(s: Seq<char>) -> Option<Language> {
    if s == "python"@ {
        Some(Language::Python)
    } else if s == "ruby"@ {
        Some(Language::Ruby)
    } else if s == "php"@ {
        Some(Language::Php)
    } else if s == "node"@ || s == "javascript"@ {
        Some(Language::Node)
    } else if s == "rust"@ {
        Some(Language::Rust)
    } else if s == "go"@ {
        Some(Language::Go)
    } else if s == "bash"@ || s == "sh"@ {
        Some(Language::Shell)
    } else {
        None
    }
}

/// Resolves a language identifier.
pub fn parse_language(s: &str) -> (r: Option<Language>)
    ensures
        r == language_of(s@),
{
    if str_eq(s, "python") {
        Some(Language::Python)
    } else if str_eq(s, "ruby") {
        Some(Language::Ruby)
    } else if str_eq(s, "php") {
        Some(Language::Php)
    } else if str_eq(s, "node") || str_eq(s, "javascript") {
        Some(Language::Node)
    } else if str_eq(s, "rust") {
        Some(Language::Rust)
    } else if str_eq(s, "go") {
        Some(Language::Go)
    } else if str_eq(s, "bash") || str_eq(s, "sh") {
        Some(Language::Shell)
    } else {
        None
    }
}

/// The staging path of a compile-then-run source file, unique to the request.
pub open spec fn rust_source_path_of(request_id: Seq<char>) -> Seq<char> {
    "/tmp/temp_rust_code_"@ + request_id + ".rs"@
}

/// The staging path of the produced binary, unique to the request.
pub open spec fn rust_binary_path_of(request_id: Seq<char>) -> Seq<char> {
    "/tmp/temp_rust_binary_"@ + request_id
}

/// The staging path of a staged-run source file, unique to the request.
pub open spec fn go_source_path_of(request_id: Seq<char>) -> Seq<char> {
    "/tmp/temp_go_code_"@ + request_id + ".go"@
}

fn rust_source_path(request_id: &str) -> (r: String)
    ensures
        r@ == rust_source_path_of(request_id@),
{
    let mut p = "/tmp/temp_rust_code_".to_owned();
    p.append(request_id);
    p.append(".rs");
    p
}

fn rust_binary_path(request_id: &str) -> (r: String)
    ensures
        r@ == rust_binary_path_of(request_id@),
{
    let mut p = "/tmp/temp_rust_binary_".to_owned();
    p.append(request_id);
    p
}

fn go_source_path(request_id: &str) -> (r: String)
    ensures
        r@ == go_source_path_of(request_id@),
{
    let mut p = "/tmp/temp_go_code_".to_owned();
    p.append(request_id);
    p.append(".go");
    p
}

/// A response that carries nothing but a refusal or failure reason.
pub open spec fn exec_error_response(r: ExecResponse, msg: Seq<char>) -> bool {
    &&& r.success == false
    &&& r.output is None
    &&& r.stdout is None
    &&& r.stderr is None
    &&& r.exit_code is None
    &&& r.error matches Some(e) && e@ == msg
}

/// A plan that passes the program text inline to one interpreter call.
pub open spec fn is_direct_plan(
    r: Result<ExecPlan, ExecResponse>,
    prog: Seq<char>,
    flag: Seq<char>,
    code: Seq<char>,
) -> bool {
    &&& r matches Ok(p)
    &&& p matches ExecPlan::Direct { run }
    &&& run.program@ == prog
    &&& run.args@.len() == 2
    &&& run.args@[0]@ == flag
    &&& run.args@[1]@ == code
}

fn direct_invocation(prog: &str, flag: &str, code: &str) -> (r: Invocation)
    ensures
        r.program@ == prog@,
        r.args@.len() == 2,
        r.args@[0]@ == flag@,
        r.args@[1]@ == code@,
{
    let mut args: Vec<String> = Vec::new();
    args.push(flag.to_owned());
    args.push(code.to_owned());
    Invocation { program: prog.to_owned(), args }
}

/// Maps a language identifier to its invocation recipe. Directly interpreted
/// languages take the source inline; compiled languages stage it under a
/// request-unique path. An unrecognized identifier is refused at once — no
/// plan, so no process — with an error naming it.
pub fn plan_execution(language: &str, code: &str, request_id: &str) -> (r: Result<
    ExecPlan,
    ExecResponse,
>)
    ensures
        language_of(language@) is None ==> (r matches Err(resp) && exec_error_response(
            resp,
            "Unsupported language: "@ + language@,
        )),
        language_of(language@) == Some(Language::Python) ==> is_direct_plan(
            r,
            "python3"@,
            "-c"@,
            code@,
        ),
        language_of(language@) == Some(Language::Ruby) ==> is_direct_plan(
            r,
            "ruby"@,
            "-e"@,
            code@,
        ),
        language_of(language@) == Some(Language::Php) ==> is_direct_plan(r, "php"@, "-r"@, code@),
        language_of(language@) == Some(Language::Node) ==> is_direct_plan(
            r,
            "node"@,
            "-e"@,
            code@,
        ),
        language_of(language@) == Some(Language::Shell) ==> is_direct_plan(
            r,
            "sh"@,
            "-c"@,
            code@,
        ),
        language_of(language@) == Some(Language::Go) ==> {
            &&& r matches Ok(p)
            &&& p matches ExecPlan::Staged { stage, run }
            &&& stage.path@ == go_source_path_of(request_id@)
            &&& stage.contents@ == code@
            &&& run.program@ == "go"@
            &&& run.args@.len() == 2
            &&& run.args@[0]@ == "run"@
            &&& run.args@[1]@ == go_source_path_of(request_id@)
        },
        language_of(language@) == Some(Language::Rust) ==> {
            &&& r matches Ok(p)
            &&& p matches ExecPlan::CompileThenRun { stage, compile, run }
            &&& stage.path@ == rust_source_path_of(request_id@)
            &&& stage.contents@ == code@
            &&& compile.program@ == "rustc"@
            &&& compile.args@.len() == 3
            &&& compile.args@[0]@ == rust_source_path_of(request_id@)
            &&& compile.args@[1]@ == "-o"@
            &&& compile.args@[2]@ == rust_binary_path_of(request_id@)
            &&& run.program@ == rust_binary_path_of(request_id@)
            &&& run.args@.len() == 0
        },
{
    match parse_language(language) {
        None => {
            let mut msg = "Unsupported language: ".to_owned();
            msg.append(language);
            Err(ExecResponse {
                success: false,
                output: None,
                stdout: None,
                stderr: None,
                exit_code: None,
                error: Some(msg),
            })
        },
        Some(Language::Python) => Ok(ExecPlan::Direct {
            run: direct_invocation("python3", "-c", code),
        }),
        Some(Language::Ruby) => Ok(ExecPlan::Direct { run: direct_invocation("ruby", "-e", code) }),
        Some(Language::Php) => Ok(ExecPlan::Direct { run: direct_invocation("php", "-r", code) }),
        Some(Language::Node) => Ok(ExecPlan::Direct { run: direct_invocation("node", "-e", code) }),
        Some(Language::Shell) => Ok(ExecPlan::Direct { run: direct_invocation("sh", "-c", code) }),
        Some(Language::Go) => {
            let src = go_source_path(request_id);
            let mut rargs: Vec<String> = Vec::new();
            rargs.push("run".to_owned());
            rargs.push(src.clone());
            Ok(ExecPlan::Staged {
                stage: StagedFile { path: src, contents: code.to_owned() },
                run: Invocation { program: "go".to_owned(), args: rargs },
            })
        },
        Some(Language::Rust) => {
            let src = rust_source_path(request_id);
            let bin = rust_binary_path(request_id);
            let mut cargs: Vec<String> = Vec::new();
            cargs.push(src.clone());
            cargs.push("-o".to_owned());
            cargs.push(bin.clone());
            Ok(ExecPlan::CompileThenRun {
                stage: StagedFile { path: src, contents: code.to_owned() },
                compile: Invocation { program: "rustc".to_owned(), args: cargs },
                run: Invocation { program: bin, args: Vec::new() },
            })
        },
    }
}

/// Did this outcome come from a process that ran and reported success?
pub open spec fn outcome_ran_ok(o: ProcessOutcome) -> bool {
    match o {
        ProcessOutcome::Completed { success, .. } => success,
        _ => false,
    }
}

/// Says whether a step of a plan ran and succeeded, so that a caller can
/// short-circuit a compile-then-run plan after a failed compile step.
pub fn step_succeeded(o: &ProcessOutcome) -> (r: bool)
    ensures
        r == outcome_ran_ok(*o),
{
    match o {
        ProcessOutcome::Completed { success, .. } => *success,
        _ => false,
    }
}

/// Normalizes a run step's outcome into the execution response: streams
/// decoded permissively, a trimmed combined display form, `success` iff the
/// process's own exit status was success, and a spawn failure distinguished
/// (no exit code, a reason naming the spawn error) from a failed run.
pub fn build_exec_response(outcome: &ProcessOutcome) -> (r: ExecResponse)
    ensures
        match *outcome {
            ProcessOutcome::Completed { success, exit_code, stdout, stderr } => {
                &&& r.success == success
                &&& r.stdout matches Some(s) && s@ == lossy_decode_of(stdout@)
                &&& r.stderr matches Some(s) && s@ == lossy_decode_of(stderr@)
                &&& r.output matches Some(s) && s@ == combined_output_of(stdout@, stderr@)
                &&& r.exit_code == exit_code
                &&& (success ==> r.error is None)
                &&& (!success ==> (r.error matches Some(e) && e@ == "Execution failed"@))
            },
            ProcessOutcome::SpawnFailed { message } => exec_error_response(
                r,
                "Execution error: "@ + message@,
            ),
            ProcessOutcome::TimedOut => exec_error_response(r, "Execution timed out"@),
        },
{
    match outcome {
        ProcessOutcome::Completed { success, exit_code, stdout, stderr } => {
            let out_s = lossy_decode(stdout.as_slice());
            let err_s = lossy_decode(stderr.as_slice());
            let comb = combined_output(stdout.as_slice(), stderr.as_slice());
            ExecResponse {
                success: *success,
                output: Some(comb),
                stdout: Some(out_s),
                stderr: Some(err_s),
                exit_code: *exit_code,
                error: if !*success {
                    Some("Execution failed".to_owned())
                } else {
                    None
                },
            }
        },
        ProcessOutcome::SpawnFailed { message } => {
            let mut e = "Execution error: ".to_owned();
            e.append(message.as_str());
            ExecResponse {
                success: false,
                output: None,
                stdout: None,
                stderr: None,
                exit_code: None,
                error: Some(e),
            }
        },
        ProcessOutcome::TimedOut => ExecResponse {
            success: false,
            output: None,
            stdout: None,
            stderr: None,
            exit_code: None,
            error: Some("Execution timed out".to_owned()),
        },
    }
}

/// Reports a failed compile step distinctly, rather than running the stale
/// or missing binary: the compiler's own streams and exit status are carried,
/// under a reason that names compilation.
pub fn build_compile_failure_response(outcome: &ProcessOutcome) -> (r: ExecResponse)
    requires
        !outcome_ran_ok(*outcome),
    ensures
        match *outcome {
            ProcessOutcome::Completed { success, exit_code, stdout, stderr } => {
                &&& r.success == false
                &&& r.stdout matches Some(s) && s@ == lossy_decode_of(stdout@)
                &&& r.stderr matches Some(s) && s@ == lossy_decode_of(stderr@)
                &&& r.output matches Some(s) && s@ == combined_output_of(stdout@, stderr@)
                &&& r.exit_code == exit_code
                &&& r.error matches Some(e) && e@ == "Compilation failed"@
            },
            ProcessOutcome::SpawnFailed { message } => exec_error_response(
                r,
                "Compilation error: "@ + message@,
            ),
            ProcessOutcome::TimedOut => exec_error_response(r, "Compilation timed out"@),
        },
{
    match outcome {
        ProcessOutcome::Completed { success: _, exit_code, stdout, stderr } => {
            let out_s = lossy_decode(stdout.as_slice());
            let err_s = lossy_decode(stderr.as_slice());
            let comb = combined_output(stdout.as_slice(), stderr.as_slice());
            ExecResponse {
                success: false,
                output: Some(comb),
                stdout: Some(out_s),
                stderr: Some(err_s),
                exit_code: *exit_code,
                error: Some("Compilation failed".to_owned()),
            }
        },
        ProcessOutcome::SpawnFailed { message } => {
            let mut e = "Compilation error: ".to_owned();
            e.append(message.as_str());
            ExecResponse {
                success: false,
                output: None,
                stdout: None,
                stderr: None,
                exit_code: None,
                error: Some(e),
            }
        },
        ProcessOutcome::TimedOut => ExecResponse {
            success: false,
            output: None,
            stdout: None,
            stderr: None,
            exit_code: None,
            error: Some("Compilation timed out".to_owned()),
        },
    }
}

/// Staging-path isolation: requests with distinct identifiers never share a
/// staging path, so one request's source is never compiled or executed under
/// another's invocation.
pub proof fn lemma_staging_isolation(rid1: Seq<char>, rid2: Seq<char>)
    requires
        rid1 != rid2,
    ensures
        rust_source_path_of(rid1) != rust_source_path_of(rid2),
        rust_binary_path_of(rid1) != rust_binary_path_of(rid2),
        go_source_path_of(rid1) != go_source_path_of(rid2),
{
    lemma_affix_injective("/tmp/temp_rust_code_"@, ".rs"@, rid1, rid2);
    lemma_affix_injective("/tmp/temp_go_code_"@, ".go"@, rid1, rid2);
    lemma_affix_injective("/tmp/temp_rust_binary_"@, Seq::<char>::empty(), rid1, rid2);
    assert("/tmp/temp_rust_binary_"@ + rid1 + Seq::<char>::empty() =~= rust_binary_path_of(rid1));
    assert("/tmp/temp_rust_binary_"@ + rid2 + Seq::<char>::empty() =~= rust_binary_path_of(rid2));
}

/// The response of the raw-command route: the spawn's outcome, with the
/// combined display output and the exit code (a sentinel of -1 when the
/// process was terminated by a signal).
pub struct CommandResponse {
    pub success: bool,
    pub output: Option<String>,
    pub exit_code: Option<i32>,
    pub error: Option<String>,
}

/// The operating-system type a command request resolves to when none is
/// given.
pub open spec fn resolved_os_of(os_type: Option<&str>) -> Seq<char> {
    match os_type {
        Some(s) => s@,
        None => "linux"@,
    }
}

/// The shell and flag a recognized operating-system type maps to.
pub open spec fn shell_recipe_of(os: Seq<char>) -> Option<(Seq<char>, Seq<char>)> {
    if os == "linux"@ || os == "ubuntu"@ || os == "debian"@ || os == "kali"@ || os == "centos"@
        || os == "macos"@ {
        Some(("sh"@, "-c"@))
    } else if os == "windows"@ {
        Some(("cmd"@, "/C"@))
    } else if os == "powershell"@ {
        Some(("powershell"@, "-Command"@))
    } else {
        None
    }
}

/// Maps an operating-system type to the shell that runs a raw command line,
/// handing it the command as the shell's one inline argument. An unknown
/// type is refused — no plan, so no process.
pub fn plan_command(command: &str, os_type: Option<&str>) -> (r: Result<Invocation, String>)
    ensures
        shell_recipe_of(resolved_os_of(os_type)) matches Some(rec) ==> (r matches Ok(inv)
            && inv.program@ == rec.0 && inv.args@.len() == 2 && inv.args@[0]@ == rec.1
            && inv.args@[1]@ == command@),
        shell_recipe_of(resolved_os_of(os_type)) is None ==> (r matches Err(e) && e@
            == "Unsupported OS type"@),
{
    let os = match os_type {
        Some(s) => s,
        None => "linux",
    };
    if str_eq(os, "linux") || str_eq(os, "ubuntu") || str_eq(os, "debian") || str_eq(os, "kali")
        || str_eq(os, "centos") || str_eq(os, "macos") {
        Ok(direct_invocation("sh", "-c", command))
    } else if str_eq(os, "windows") {
        Ok(direct_invocation("cmd", "/C", command))
    } else if str_eq(os, "powershell") {
        Ok(direct_invocation("powershell", "-Command", command))
    } else {
        Err("Unsupported OS type".to_owned())
    }
}

/// Normalizes a raw command's outcome: any completed run is reported with
/// its combined output and exit code (-1 standing in when the process left
/// none); only a spawn failure or a timeout is an error.
pub fn finish_command(outcome: &ProcessOutcome) -> (r: CommandResponse)
    ensures
        match *outcome {
            ProcessOutcome::Completed { success, exit_code, stdout, stderr } => {
                &&& r.success == true
                &&& r.output matches Some(s) && s@ == combined_output_of(stdout@, stderr@)
                &&& (exit_code matches Some(c) ==> r.exit_code == Some(c))
                &&& (exit_code is None ==> r.exit_code == Some(-1i32))
                &&& r.error is None
            },
            ProcessOutcome::SpawnFailed { message } => {
                &&& r.success == false
                &&& r.output is None
                &&& r.exit_code is None
                &&& r.error matches Some(e) && e@ == "Command execution failed: "@ + message@
            },
            ProcessOutcome::TimedOut => {
                &&& r.success == false
                &&& r.output is None
                &&& r.exit_code is None
                &&& r.error matches Some(e) && e@ == "Command timed out"@
            },
        },
{
    match outcome {
        ProcessOutcome::Completed { success: _, exit_code, stdout, stderr } => {
            let comb = combined_output(stdout.as_slice(), stderr.as_slice());
            let code: i32 = match exit_code {
                Some(c) => *c,
                None => -1,
            };
            CommandResponse {
                success: true,
                output: Some(comb),
                exit_code: Some(code),
                error: None,
            }
        },
        ProcessOutcome::SpawnFailed { message } => {
            let mut e = "Command execution failed: ".to_owned();
            e.append(message.as_str());
            CommandResponse { success: false, output: None, exit_code: None, error: Some(e) }
        },
        ProcessOutcome::TimedOut => CommandResponse {
            success: false,
            output: None,
            exit_code: None,
            error: Some("Command timed out".to_owned()),
        },
    }
}

} // verus!
