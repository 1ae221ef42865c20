//! Running the tool: by a command, or within this process.

use crate::paths::is_path_order;
use crate::text::joined;
use crate::tools::apply_patch::exe::applies_patch_of;
use crate::tools::apply_patch::exe::CommandSpec;
use crate::tools::apply_patch::plan::apply_patch_in_process;
use crate::tools::apply_patch::plan::carries_out;
use crate::tools::apply_patch::plan::changed_paths;
use crate::tools::apply_patch::plan::PatchPlan;
use crate::tools::apply_patch::request::ApplyPatchRequest;
use crate::tools::apply_patch::request::ApplyPatchRuntime;
use vstd::prelude::*;
use vstd::utf8::decode_utf8;
use vstd::utf8::decode_utf8_encode_utf8;
use vstd::utf8::encode_utf8;
use vstd::utf8::encode_utf8_decode_utf8;
use vstd::utf8::encode_utf8_valid_utf8;
use vstd::utf8::valid_utf8;

verus! {

/// The text of bytes, with whatever is not valid UTF-8 in them replaced.
pub uninterp spec fn lossy_text(bytes: Seq<u8>) -> Seq<char>;

/// `String::from_utf8_lossy` gives the text of the bytes, with U+FFFD for
/// whatever is not valid UTF-8. What is replaced by how many of it is left to
/// the name.
#[verifier::external_body]
fn text_of_bytes(bytes: &Vec<u8>) -> (r: String)
    ensures
        r@ == lossy_text(bytes@),
        valid_utf8(bytes@) ==> r@ == decode_utf8(bytes@),
{
    String::from_utf8_lossy(bytes).into_owned()
}

/// How the patch is applied.
#[derive(Debug)]
pub enum RunStep<'a> {
    /// The command is run.
    Execute(CommandSpec<'a>),
    /// The plan is carried out step by step. If every step succeeds, what it
    /// affects is told; the first that fails is the failure of the whole.
    InProcess(PatchPlan),
}

/// What a stream held.
#[derive(Debug)]
pub struct StreamOutput {
    pub text: String,
}

impl StreamOutput {
    /// A stream that held `text`.
    pub fn new(text: String) -> (r: StreamOutput)
        ensures
            r.text == text,
    {
        StreamOutput { text }
    }
}

/// What a run of the tool put out.
#[derive(Debug)]
pub struct ExecToolCallOutput {
    pub exit_code: i32,
    pub stdout: StreamOutput,
    pub stderr: StreamOutput,
    pub aggregated_output: StreamOutput,
    pub duration: std::time::Duration,
    pub timed_out: bool,
}

/// What is put out on errors: what was put out, and behind it, on a line of
/// its own, why the patch could not be applied.
pub open spec fn error_bytes(stderr: Seq<u8>, applied: Result<(), String>) -> Seq<u8> {
    match applied {
        Ok(_) => stderr,
        Err(reason) => stderr + encode_utf8(reason@ + "\n"@),
    }
}

impl ApplyPatchRuntime {
    /// How the patch is applied: by the executable that was found, or, where
    /// there is none, within this process.
    pub fn run<'a>(&self, req: &'a ApplyPatchRequest, exe: Option<std::path::PathBuf>) -> (r:
        RunStep<'a>)
        ensures
            exe matches Some(program) ==> (r matches RunStep::Execute(command) && applies_patch_of(
                command,
                *req,
                program,
            )),
            exe is None ==> (r matches RunStep::InProcess(plan) && exists|order: Seq<usize>|
             #[trigger]
                is_path_order(changed_paths(req.action.changes@), order) && carries_out(
                    plan,
                    req.action,
                    order,
                )),
    {
        match ApplyPatchRuntime::build_command_spec(req, exe) {
            Some(command) => RunStep::Execute(command),
            None => RunStep::InProcess(apply_patch_in_process(req)),
        }
    }
}

/// What applying a patch within this process puts out: `applied` tells whether
/// it could be applied, or why not; the streams hold what was put out
/// meanwhile.
pub fn in_process_output(
    applied: Result<(), String>,
    stdout: Vec<u8>,
    stderr: Vec<u8>,
    duration: std::time::Duration,
) -> (r: ExecToolCallOutput)
    ensures
        r.exit_code == if applied is Ok {
            0i32
        } else {
            1i32
        },
        r.stdout.text@ == lossy_text(stdout@),
        r.stderr.text@ == lossy_text(error_bytes(stderr@, applied)),
        r.aggregated_output.text@ == r.stdout.text@ + r.stderr.text@,
        r.duration == duration,
        !r.timed_out,
        valid_utf8(stdout@) ==> r.stdout.text@ == decode_utf8(stdout@),
        valid_utf8(stderr@) && applied is Ok ==> r.stderr.text@ == decode_utf8(stderr@),
        valid_utf8(stderr@) ==> (applied matches Err(reason) ==> r.stderr.text@ == decode_utf8(
            stderr@,
        ) + reason@ + "\n"@),
{
    let mut stderr: Vec<u8> = stderr;
    let ghost before = stderr@;
    let exit_code: i32 = match &applied {
        Ok(_) => 0,
        Err(reason) => {
            let line = joined(reason.as_str(), "\n");
            push_bytes(&mut stderr, line.as_str());
            proof {
                if valid_utf8(before) {
                    lemma_text_behind_text(before, line@);
                    assert(decode_utf8(before) + line@ == decode_utf8(before) + reason@ + "\n"@);
                }
            }
            1
        },
    };
    let stdout_text = text_of_bytes(&stdout);
    let stderr_text = text_of_bytes(&stderr);
    let aggregated = joined(stdout_text.as_str(), stderr_text.as_str());
    ExecToolCallOutput {
        exit_code,
        stdout: StreamOutput::new(stdout_text),
        stderr: StreamOutput::new(stderr_text),
        aggregated_output: StreamOutput::new(aggregated),
        duration,
        timed_out: false,
    }
}

/// Adds the UTF-8 of `text`.
fn push_bytes(bytes: &mut Vec<u8>, text: &str)
    ensures
        final(bytes)@ == old(bytes)@ + encode_utf8(text@),
{
    let added = text.as_bytes();
    let mut i: usize = 0;
    while i < added.len()
        invariant
            i <= added@.len(),
            added@ == encode_utf8(text@),
            bytes@ == old(bytes)@ + added@.take(i as int),
        decreases added@.len() - i,
    {
        bytes.push(added[i]);
        i = i + 1;
        assert(bytes@ == old(bytes)@ + added@.take(i as int));
    }
    assert(added@.take(i as int) == added@);
}

proof fn lemma_encode_concat(a: Seq<char>, b: Seq<char>)
    ensures
        encode_utf8(a + b) == encode_utf8(a) + encode_utf8(b),
    decreases a.len(),
{
    if a.len() == 0 {
        assert(a + b == b);
    } else {
        assert((a + b).drop_first() == a.drop_first() + b);
        lemma_encode_concat(a.drop_first(), b);
        assert(encode_utf8(a + b) == encode_utf8(a) + encode_utf8(b));
    }
}

proof fn lemma_text_behind_text(bytes: Seq<u8>, text: Seq<char>)
    requires
        valid_utf8(bytes),
    ensures
        valid_utf8(bytes + encode_utf8(text)),
        decode_utf8(bytes + encode_utf8(text)) == decode_utf8(bytes) + text,
{
    let chars = decode_utf8(bytes);
    decode_utf8_encode_utf8(bytes);
    lemma_encode_concat(chars, text);
    encode_utf8_valid_utf8(chars + text);
    encode_utf8_decode_utf8(chars + text);
}

/// What is put out on errors is kept as it was if the patch could be applied;
/// if not, the reason stands behind it, and a line break behind that.
pub proof fn reasons_are_put_out_behind_the_rest(
    stderr: Seq<u8>,
    applied: Result<(), String>,
    text: Seq<char>,
)
    ensures
        applied is Ok ==> error_bytes(stderr, applied) == stderr,
        applied matches Err(reason) ==> error_bytes(encode_utf8(text), applied) == encode_utf8(
            text + reason@ + "\n"@,
        ),
        applied matches Err(reason) ==> {
            &&& stderr.is_prefix_of(error_bytes(stderr, applied))
            &&& error_bytes(stderr, applied).skip(stderr.len() as int) == encode_utf8(
                reason@ + "\n"@,
            )
        },
{
    if let Err(reason) = applied {
        let line = reason@ + "\n"@;
        lemma_encode_concat(text, line);
        assert(text + line == text + reason@ + "\n"@);
        let all = stderr + encode_utf8(line);
        assert(all.subrange(0, stderr.len() as int) == stderr);
        assert(all.skip(stderr.len() as int) == encode_utf8(line));
    }
}

} // verus!
