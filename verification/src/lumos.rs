use vstd::prelude::*;

use crate::proc::{lossy_decode, lossy_decode_of, Invocation, ProcessOutcome, StagedFile};
use crate::strutil::lemma_affix_injective;
use vstd::string::{StrSliceExecFns, StringExecFns};

verus! {

/// A bridge request: the source, whether to run it or compile it, and the
/// compilation target.
pub struct LumosRequest {
    pub code: String,
    pub action: String,
    pub target: Option<String>,
}

/// The outcome of one bridge invocation: a run carries its output, a
/// compilation carries the compiled artifact and echoes the target.
pub struct LumosResponse {
    pub success: bool,
    pub output: Option<String>,
    pub compiled: Option<String>,
    pub target: Option<String>,
    pub error: Option<String>,
}

/// The staging path of a bridge source file, unique to the request.
pub open spec fn lumos_source_path_of(request_id: Seq<char>) -> Seq<char> {
    "/tmp/temp_lumos_"@ + request_id + ".lumos"@
}

/// The compilation target a request resolves to when none is given.
pub open spec fn resolved_lumos_target_of(target: Option<&str>) -> Seq<char> {
    match target {
        Some(t) => t@,
        None => "python"@,
    }
}

/// The external bridge process's combined text: its stdout, with stderr
/// appended on a new line when stderr is not empty.
pub open spec fn bridge_output_of(stdout: Seq<u8>, stderr: Seq<u8>) -> Seq<char> {
    if lossy_decode_of(stderr).len() == 0 {
        lossy_decode_of(stdout)
    } else {
        lossy_decode_of(stdout) + "\n"@ + lossy_decode_of(stderr)
    }
}

fn lumos_source_path(request_id: &str) -> (r: String)
    ensures
        r@ == lumos_source_path_of(request_id@),
{
    let mut p = "/tmp/temp_lumos_".to_owned();
    p.append(request_id);
    p.append(".lumos");
    p
}

fn bridge_output(stdout: &[u8], stderr: &[u8]) -> (r: String)
    ensures
        r@ == bridge_output_of(stdout@, stderr@),
{
    let so = lossy_decode(stdout);
    let se = lossy_decode(stderr);
    if se.as_str().is_empty() {
        so
    } else {
        let mut c = so;
        c.append("\n");
        c.append(se.as_str());
        c
    }
}

/// Stages the source under a request-unique path and plans the bridge
/// invocation that runs it: the bridge engine on the staged file.
pub fn plan_lumos_run(code: &str, request_id: &str) -> (r: (StagedFile, Invocation))
    ensures
        r.0.path@ == lumos_source_path_of(request_id@),
        r.0.contents@ == code@,
        r.1.program@ == "node"@,
        r.1.args@.len() == 2,
        r.1.args@[0]@ == "/app/backend/lumos-engine/index.cjs"@,
        r.1.args@[1]@ == lumos_source_path_of(request_id@),
{
    let path = lumos_source_path(request_id);
    let mut args: Vec<String> = Vec::new();
    args.push("/app/backend/lumos-engine/index.cjs".to_owned());
    args.push(path.clone());
    (
        StagedFile { path, contents: code.to_owned() },
        Invocation { program: "node".to_owned(), args },
    )
}

/// Stages the source under a request-unique path and plans the bridge
/// invocation that compiles it to the resolved target.
pub fn plan_lumos_compile(code: &str, target: Option<&str>, request_id: &str) -> (r: (
    StagedFile,
    Invocation,
))
    ensures
        r.0.path@ == lumos_source_path_of(request_id@),
        r.0.contents@ == code@,
        r.1.program@ == "node"@,
        r.1.args@.len() == 4,
        r.1.args@[0]@ == "/app/backend/lumos-engine/index.cjs"@,
        r.1.args@[1]@ == "compile"@,
        r.1.args@[2]@ == lumos_source_path_of(request_id@),
        r.1.args@[3]@ == resolved_lumos_target_of(target),
{
    let path = lumos_source_path(request_id);
    let target_s = match target {
        Some(t) => t.to_owned(),
        None => "python".to_owned(),
    };
    let mut args: Vec<String> = Vec::new();
    args.push("/app/backend/lumos-engine/index.cjs".to_owned());
    args.push("compile".to_owned());
    args.push(path.clone());
    args.push(target_s);
    (
        StagedFile { path, contents: code.to_owned() },
        Invocation { program: "node".to_owned(), args },
    )
}

/// Normalizes a bridge run's outcome: the combined bridge text verbatim,
/// success iff the bridge process succeeded.
pub fn finish_lumos_run(outcome: &ProcessOutcome) -> (r: LumosResponse)
    ensures
        r.compiled is None,
        r.target is None,
        match *outcome {
            ProcessOutcome::Completed { success, exit_code, stdout, stderr } => {
                &&& r.success == success
                &&& r.output matches Some(s) && s@ == bridge_output_of(stdout@, stderr@)
                &&& (success ==> r.error is None)
                &&& (!success ==> (r.error matches Some(e) && e@ == "Execution failed"@))
            },
            ProcessOutcome::SpawnFailed { message } => {
                &&& r.success == false
                &&& r.output is None
                &&& r.error matches Some(e) && e@ == "Lumos execution error: "@ + message@
            },
            ProcessOutcome::TimedOut => {
                &&& r.success == false
                &&& r.output is None
                &&& r.error matches Some(e) && e@ == "Lumos execution timed out"@
            },
        },
{
    match outcome {
        ProcessOutcome::Completed { success, exit_code: _, stdout, stderr } => {
            let text = bridge_output(stdout.as_slice(), stderr.as_slice());
            LumosResponse {
                success: *success,
                output: Some(text),
                compiled: None,
                target: None,
                error: if !*success {
                    Some("Execution failed".to_owned())
                } else {
                    None
                },
            }
        },
        ProcessOutcome::SpawnFailed { message } => {
            let mut e = "Lumos execution error: ".to_owned();
            e.append(message.as_str());
            LumosResponse {
                success: false,
                output: None,
                compiled: None,
                target: None,
                error: Some(e),
            }
        },
        ProcessOutcome::TimedOut => LumosResponse {
            success: false,
            output: None,
            compiled: None,
            target: None,
            error: Some("Lumos execution timed out".to_owned()),
        },
    }
}

/// Normalizes a bridge compilation's outcome: the combined bridge text as
/// the compiled artifact, the resolved target echoed.
pub fn finish_lumos_compile(target: Option<&str>, outcome: &ProcessOutcome) -> (r: LumosResponse)
    ensures
        r.output is None,
        r.target matches Some(t) && t@ == resolved_lumos_target_of(target),
        match *outcome {
            ProcessOutcome::Completed { success, exit_code, stdout, stderr } => {
                &&& r.success == success
                &&& r.compiled matches Some(s) && s@ == bridge_output_of(stdout@, stderr@)
                &&& (success ==> r.error is None)
                &&& (!success ==> (r.error matches Some(e) && e@ == "Compilation failed"@))
            },
            ProcessOutcome::SpawnFailed { message } => {
                &&& r.success == false
                &&& r.compiled is None
                &&& r.error matches Some(e) && e@ == "Lumos compilation error: "@ + message@
            },
            ProcessOutcome::TimedOut => {
                &&& r.success == false
                &&& r.compiled is None
                &&& r.error matches Some(e) && e@ == "Lumos compilation timed out"@
            },
        },
{
    let target_s = match target {
        Some(t) => t.to_owned(),
        None => "python".to_owned(),
    };
    match outcome {
        ProcessOutcome::Completed { success, exit_code: _, stdout, stderr } => {
            let text = bridge_output(stdout.as_slice(), stderr.as_slice());
            LumosResponse {
                success: *success,
                output: None,
                compiled: Some(text),
                target: Some(target_s),
                error: if !*success {
                    Some("Compilation failed".to_owned())
                } else {
                    None
                },
            }
        },
        ProcessOutcome::SpawnFailed { message } => {
            let mut e = "Lumos compilation error: ".to_owned();
            e.append(message.as_str());
            LumosResponse {
                success: false,
                output: None,
                compiled: None,
                target: Some(target_s),
                error: Some(e),
            }
        },
        ProcessOutcome::TimedOut => LumosResponse {
            success: false,
            output: None,
            compiled: None,
            target: Some(target_s),
            error: Some("Lumos compilation timed out".to_owned()),
        },
    }
}

/// Staging-path isolation for the bridge: requests with distinct identifiers
/// never share a staged source file.
pub proof fn lemma_bridge_staging_isolation(rid1: Seq<char>, rid2: Seq<char>)
    requires
        rid1 != rid2,
    ensures
        lumos_source_path_of(rid1) != lumos_source_path_of(rid2),
{
    lemma_affix_injective("/tmp/temp_lumos_"@, ".lumos"@, rid1, rid2);
}

} // verus!
