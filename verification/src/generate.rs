//! One generation request, step by step.
//!
//! The program around the library runs the generator and reads its output
//! file; between those steps it asks here what to do next. A request starts
//! with `begin_generation`, which either refuses it or says what to run. What
//! the process did goes to `after_process`, and what reading the output file
//! gave goes to `after_read`, which ends the request with its reply.

use vstd::prelude::*;
use vstd::string::*;
use vstd::utf8::{decode_utf8, valid_utf8};
use crate::args::{arguments, build_arguments, output_path, output_path_text};
use crate::auth::{authorized, verify_bearer_token};
use crate::config::Context;
use crate::request::ImageGenerationRequest;
use crate::response::{
    invalid_request_kind,
    server_error_kind,
    unauthorized_message,
    HttpReply,
};
use crate::text::texts;

verus! {

/// What to run for one request, and where its output will be.
#[derive(Debug)]
pub struct Invocation {
    pub program: String,
    pub args: Vec<String>,
    pub output_path: String,
    pub created: u64,
}

/// What became of the generator process.
#[derive(Debug)]
pub enum ProcessOutcome {
    /// The process could not be started.
    SpawnFailed { diagnostic: String },
    /// The process ran to its end; `stderr` is all it wrote to standard error.
    Exited { success: bool, stderr: Vec<u8> },
}

/// What follows the end of the process.
#[derive(Debug)]
pub enum AfterProcess {
    /// The process succeeded: read the output file.
    ReadOutput,
    /// The request ends with this reply.
    Reply(HttpReply),
}

/// What reading the output file gave.
#[derive(Debug)]
pub enum ReadOutcome {
    Bytes(Vec<u8>),
    Failed { diagnostic: String },
}

/// The end of a request: its reply, and whether the output file is to be
/// removed.
#[derive(Debug)]
pub struct Completion {
    pub reply: HttpReply,
    pub remove_output: bool,
}

/// The standard base64 encoding, with padding, of a sequence of bytes.
pub uninterp spec fn base64_standard(bytes: Seq<u8>) -> Seq<char>;

/// The text of a sequence of bytes read as UTF-8, with the replacement
/// character in place of each malformed part.
pub uninterp spec fn utf8_lossy(bytes: Seq<u8>) -> Seq<char>;

/// The encoding of `len` bytes has a length that fits the machine: four
/// characters for every three bytes, and four more for a rest of one or two.
pub open spec fn encodable(len: nat) -> bool {
    len / 3 * 4 + (if len % 3 > 0 { 4int } else { 0int }) <= usize::MAX
}

/// Says whether the encoding of `len` bytes fits: what `after_read` asks of
/// the bytes that it is given.
pub fn is_encodable(len: usize) -> (r: bool)
    ensures
        r == encodable(len as nat),
{
    let chunks: usize = len / 3;
    if chunks > usize::MAX / 4 {
        false
    } else if len % 3 > 0 {
        chunks * 4 <= usize::MAX - 4
    } else {
        true
    }
}

/// Calls `base64::Engine::encode` on the engine
/// `base64::engine::general_purpose::STANDARD`. The contract claims that the
/// outcome is a function of the bytes alone, and leaves out the inputs whose
/// encoded length overflows, on which the call panics.
#[verifier::external_body]
fn encode_standard(bytes: &[u8]) -> (r: String)
    requires
        encodable(bytes@.len()),
    ensures
        r@ == base64_standard(bytes@),
{
    base64::Engine::encode(&base64::engine::general_purpose::STANDARD, bytes)
}

/// Calls `String::from_utf8_lossy`. The contract claims that the outcome is a
/// function of the bytes alone, and that bytes which are well-formed UTF-8
/// come out as the text that they encode.
#[verifier::external_body]
fn lossy_text(bytes: &[u8]) -> (r: String)
    ensures
        r@ == utf8_lossy(bytes@),
        valid_utf8(bytes@) ==> r@ == decode_utf8(bytes@),
{
    String::from_utf8_lossy(bytes).into_owned()
}

fn prefixed(prefix: &str, rest: &str) -> (r: String)
    ensures
        r@ == prefix@ + rest@,
{
    let mut r = String::from_str(prefix);
    r.append(rest);
    r
}

/// The message of the reply when the process could not be started.
pub open spec fn spawn_failure_message(diagnostic: Seq<char>) -> Seq<char> {
    "Failed to execute sd command: "@ + diagnostic
}

/// The message of the reply when the process failed: the text that it wrote
/// to standard error, unchanged, after a fixed prefix.
pub open spec fn generation_failure_message(stderr_text: Seq<char>) -> Seq<char> {
    "Image generation failed: "@ + stderr_text
}

/// The message of the reply when the output file could not be read.
pub open spec fn read_failure_message(diagnostic: Seq<char>) -> Seq<char> {
    "Failed to read output image: "@ + diagnostic
}

/// Starts a request: checks the credential before anything else, then says
/// what to run. A refused request yields no invocation, so nothing is run for
/// it.
pub fn begin_generation(
    ctx: &Context,
    header: Option<&str>,
    req: &ImageGenerationRequest,
    timestamp: u64,
) -> (r: Result<Invocation, HttpReply>)
    ensures
        match r {
            Ok(inv) => {
                &&& authorized(header, ctx.token@)
                &&& inv.program@ == ctx.binary_path@
                &&& inv.output_path@ == output_path_text(ctx.cache_dir@, timestamp as nat)
                &&& texts(inv.args@) == arguments(ctx, req, inv.output_path@)
                &&& inv.created == timestamp
            },
            Err(e) => {
                &&& !authorized(header, ctx.token@)
                &&& e.is_error(401, invalid_request_kind(), unauthorized_message())
            },
        },
{
    match verify_bearer_token(header, ctx.token.as_str()) {
        Err(e) => Err(e),
        Ok(_) => {
            let path = output_path(ctx.cache_dir.as_str(), timestamp);
            let args = build_arguments(ctx, req, path.as_str());
            Ok(
                Invocation {
                    program: String::from_str(ctx.binary_path.as_str()),
                    args,
                    output_path: path,
                    created: timestamp,
                },
            )
        },
    }
}

/// The reply to a request whose process exited with a failure, given the text
/// that it wrote to standard error.
pub fn generation_failure(stderr_text: &str) -> (r: HttpReply)
    ensures
        r.is_error(500, server_error_kind(), generation_failure_message(stderr_text@)),
{
    HttpReply::server_error(prefixed("Image generation failed: ", stderr_text))
}

impl AfterProcess {
    /// The request ends here with a server error (500) of this message.
    pub open spec fn fails_with(&self, message: Seq<char>) -> bool {
        match *self {
            AfterProcess::Reply(e) => e.is_error(500, server_error_kind(), message),
            AfterProcess::ReadOutput => false,
        }
    }
}

/// Decides what follows the end of the process: a process that could not be
/// started or that failed ends the request; only a process that succeeded
/// leads to the read. The text of standard error is read as UTF-8; where it is
/// well-formed, the message holds exactly the text that the bytes encode.
pub fn after_process(outcome: &ProcessOutcome) -> (r: AfterProcess)
    ensures
        match *outcome {
            ProcessOutcome::SpawnFailed { diagnostic } => r.fails_with(
                spawn_failure_message(diagnostic@),
            ),
            ProcessOutcome::Exited { success, stderr } => if success {
                r is ReadOutput
            } else {
                &&& r.fails_with(generation_failure_message(utf8_lossy(stderr@)))
                &&& valid_utf8(stderr@) ==> r.fails_with(
                    generation_failure_message(decode_utf8(stderr@)),
                )
            },
        },
{
    match outcome {
        ProcessOutcome::SpawnFailed { diagnostic } => AfterProcess::Reply(
            HttpReply::server_error(prefixed("Failed to execute sd command: ", diagnostic.as_str())),
        ),
        ProcessOutcome::Exited { success, stderr } => {
            if *success {
                AfterProcess::ReadOutput
            } else {
                let text = lossy_text(stderr.as_slice());
                AfterProcess::Reply(generation_failure(text.as_str()))
            }
        },
    }
}

/// The reply to a request whose output was read, given the encoded image.
/// The output file is to be removed.
pub fn success(created: u64, b64_json: String) -> (r: Completion)
    ensures
        r.reply.is_images(created, seq![b64_json@]),
        r.remove_output,
{
    Completion { reply: HttpReply::image(created, b64_json), remove_output: true }
}

/// Ends a request with what reading the output file gave: the encoded image,
/// or the failure to read it, in which case nothing of an image is returned
/// and no removal of the file is asked for.
pub fn after_read(read: &ReadOutcome, created: u64) -> (r: Completion)
    requires
        read matches ReadOutcome::Bytes(b) ==> encodable(b@.len()),
    ensures
        match *read {
            ReadOutcome::Bytes(b) => r.reply.is_images(created, seq![base64_standard(b@)])
                && r.remove_output,
            ReadOutcome::Failed { diagnostic } => r.reply.is_error(
                500,
                server_error_kind(),
                read_failure_message(diagnostic@),
            ) && !r.remove_output,
        },
{
    match read {
        ReadOutcome::Bytes(b) => success(created, encode_standard(b.as_slice())),
        ReadOutcome::Failed { diagnostic } => Completion {
            reply: HttpReply::server_error(
                prefixed("Failed to read output image: ", diagnostic.as_str()),
            ),
            remove_output: false,
        },
    }
}

/// The health report: always the same, whatever the state of the generator.
pub fn health_check(timestamp: u64) -> (r: HttpReply)
    ensures
        r.is_health(timestamp),
{
    HttpReply::health(timestamp)
}

/// The message of a failed generation holds the text of standard error
/// unchanged: it is what follows the 25 characters of the prefix.
pub proof fn lemma_failure_message_keeps_text(stderr_text: Seq<char>)
    ensures
        generation_failure_message(stderr_text).len() == 25 + stderr_text.len(),
        generation_failure_message(stderr_text).subrange(
            25,
            25 + stderr_text.len() as int,
        ) == stderr_text,
{
    reveal_strlit("Image generation failed: ");
    assert(generation_failure_message(stderr_text).subrange(25, 25 + stderr_text.len() as int)
        =~= stderr_text);
}

} // verus!
