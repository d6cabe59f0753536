//! The decisions of a generation request.
//!
//! A host drives a request through these steps, doing the input and output
//! between them:
//!
//! 1. [`context_directory`] says whether source context is collected first;
//!    [`context_from`] turns the outcome of the collection into the context.
//! 2. [`plan`] either answers the request at once, asks the host to look for
//!    the tool of [`Provider::ClaudeCode`], or hands it the command to run.
//! 3. After that look, [`plan_claude`] gives the provider and the command.
//! 4. [`interpret`] turns what became of the process into the response.

use vstd::prelude::*;
use vstd::string::StringExecFns;
use vstd::utf8::{decode_utf8, valid_utf8};
use crate::collector::{
    collected, outcome_view, CollectError, CollectErrorModel, WalkItemModel,
};
use crate::command::{
    choose_executable, chosen, claude_candidate_texts, claude_candidates, claude_command,
    claude_command_model, cursor_command, cursor_command_model, CommandModel, CommandSpec,
};
use crate::provider::{provider_of, Provider};
use crate::request::{
    complete, missing_field, validate, GenerateCodeRequest, GenerateCodeResponse, RequestModel,
    ResponseModel,
};
use crate::text::{
    concat2, decode_text, ends_with, lossy_decoding, lossy_text, opt_view, texts,
    utf8_failure_text,
};

verus! {

/// What the host does next for a request.
#[derive(Debug, Clone)]
pub enum Step {
    /// Nothing is run; this is the response.
    Respond(GenerateCodeResponse),
    /// Find out which of these places, and of any others that the host
    /// knows of, hold the `ClaudeCode` tool, then call [`plan_claude`].
    Locate(Vec<String>),
    /// Run this command for this provider, then call [`interpret`].
    Run(Provider, CommandSpec),
}

/// What a [`Step`] holds, as mathematical values.
pub enum StepModel {
    Respond(ResponseModel),
    Locate(Seq<Seq<char>>),
    Run(Provider, CommandModel),
}

impl View for Step {
    type V = StepModel;

    open spec fn view(&self) -> StepModel {
        match self {
            Step::Respond(response) => StepModel::Respond(response@),
            Step::Locate(places) => StepModel::Locate(texts(places@)),
            Step::Run(provider, command) => StepModel::Run(*provider, command@),
        }
    }
}

/// What the process of a command did.
#[derive(Debug, Clone)]
pub struct ProcessOutput {
    /// Whether it ended with a success status.
    pub success: bool,
    /// What it wrote to its standard output.
    pub stdout: Vec<u8>,
    /// What it wrote to its standard error.
    pub stderr: Vec<u8>,
}

/// What became of a command.
#[derive(Debug, Clone)]
pub enum ProcessOutcome {
    /// It could not be started; the field describes why.
    SpawnFailed(String),
    /// It ran to its end.
    Exited(ProcessOutput),
}

/// What a [`ProcessOutcome`] holds, as mathematical values.
pub enum ProcessOutcomeModel {
    SpawnFailed(Seq<char>),
    Exited { success: bool, stdout: Seq<u8>, stderr: Seq<u8> },
}

impl View for ProcessOutcome {
    type V = ProcessOutcomeModel;

    open spec fn view(&self) -> ProcessOutcomeModel {
        match self {
            ProcessOutcome::SpawnFailed(reason) => ProcessOutcomeModel::SpawnFailed(reason@),
            ProcessOutcome::Exited(output) => ProcessOutcomeModel::Exited {
                success: output.success,
                stdout: output.stdout@,
                stderr: output.stderr@,
            },
        }
    }
}

/// The message for an identifier that names no provider.
pub open spec fn unsupported_text(provider_type: Seq<char>) -> Seq<char> {
    "Unsupported provider type: "@ + provider_type
}

/// The message for output that is no text.
pub open spec fn undecodable_text(description: Seq<char>) -> Seq<char> {
    "Invalid UTF-8 in output: "@ + description
}

/// The directory whose sources are collected before dispatch: the request's,
/// if the request is complete and names one.
pub open spec fn context_directory_of(request: RequestModel) -> Option<Seq<char>> {
    if complete(request) {
        request.source_dir
    } else {
        None
    }
}

/// The context that a collection leaves: its text, or none if it failed.
pub open spec fn context_of(outcome: Result<Seq<char>, CollectErrorModel>) -> Option<Seq<char>> {
    match outcome {
        Ok(text) => Some(text),
        Err(_) => None,
    }
}

/// The step that follows the collection of context.
pub open spec fn planned(request: RequestModel, context: Option<Seq<char>>) -> StepModel {
    match missing_field(request) {
        Some(field) => StepModel::Respond(ResponseModel::failed(field.message_text())),
        None => match provider_of(request.provider_type) {
            Some(Provider::Cursor) => StepModel::Run(
                Provider::Cursor,
                cursor_command_model(request.prompt, request.api_key, context),
            ),
            Some(Provider::ClaudeCode) => StepModel::Locate(claude_candidate_texts()),
            None => StepModel::Respond(
                ResponseModel::failed(unsupported_text(request.provider_type)),
            ),
        },
    }
}

/// The response to a process that ended, given its status, what its output
/// decodes to and the text of its diagnostics.
pub open spec fn response_to_exit(
    provider: Provider,
    success: bool,
    output: Result<Seq<char>, Seq<char>>,
    diagnostics: Seq<char>,
) -> ResponseModel {
    if !success {
        ResponseModel::failed(provider.exit_failure_prefix() + diagnostics)
    } else {
        match output {
            Ok(code) => ResponseModel::succeeded(code),
            Err(description) => ResponseModel::failed(undecodable_text(description)),
        }
    }
}

/// What the standard output of a process decodes to: its text, or the
/// description of why it is none.
pub open spec fn decoded(stdout: Seq<u8>) -> Result<Seq<char>, Seq<char>> {
    if valid_utf8(stdout) {
        Ok(decode_utf8(stdout))
    } else {
        Err(utf8_failure_text(stdout))
    }
}

/// The response to what became of a command.
pub open spec fn response_for(provider: Provider, outcome: ProcessOutcomeModel) -> ResponseModel {
    match outcome {
        ProcessOutcomeModel::SpawnFailed(reason) => ResponseModel::failed(
            provider.spawn_failure_prefix() + reason,
        ),
        ProcessOutcomeModel::Exited { success, stdout, stderr } => response_to_exit(
            provider,
            success,
            decoded(stdout),
            lossy_decoding(stderr),
        ),
    }
}

/// The view of a decoded output.
pub open spec fn decoded_view(output: Result<String, String>) -> Result<Seq<char>, Seq<char>> {
    match output {
        Ok(code) => Ok(code@),
        Err(description) => Err(description@),
    }
}

/// Says which directory, if any, the host collects source context from
/// before dispatch. An incomplete request collects nothing.
pub fn context_directory(request: &GenerateCodeRequest) -> (r: Option<String>)
    ensures
        opt_view(r) == context_directory_of(request@),
{
    if validate(request).is_some() {
        return None;
    }
    match &request.source_dir {
        Some(dir) => Some(String::from_str(dir.as_str())),
        None => None,
    }
}

/// Turns the outcome of a collection into the context of a request. A failed
/// collection leaves the request without context; it does not fail it.
pub fn context_from(outcome: Result<String, CollectError>) -> (r: Option<String>)
    ensures
        opt_view(r) == context_of(outcome_view(outcome)),
{
    match outcome {
        Ok(text) => Some(text),
        Err(_) => None,
    }
}

/// Decides what to do for a request, given the context that was collected.
///
/// A request with an empty required field, or one that names no known
/// provider, is answered with a failure and nothing is run.
pub fn plan(request: &GenerateCodeRequest, context: &Option<String>) -> (r: Step)
    ensures
        r@ == planned(request@, opt_view(*context)),
        r@ matches StepModel::Respond(response) ==> response.well_formed() && !response.success,
        !complete(request@) ==> r@ is Respond,
{
    match validate(request) {
        Some(field) => Step::Respond(GenerateCodeResponse::failed(field.message())),
        None => match Provider::parse(request.provider_type.as_str()) {
            Some(Provider::Cursor) => Step::Run(
                Provider::Cursor,
                cursor_command(request.prompt.as_str(), request.api_key.as_str(), context),
            ),
            Some(Provider::ClaudeCode) => Step::Locate(claude_candidates()),
            None => Step::Respond(
                GenerateCodeResponse::failed(
                    concat2("Unsupported provider type: ", request.provider_type.as_str()),
                ),
            ),
        },
    }
}

/// Gives the provider and the command to run once the host has looked for
/// the `ClaudeCode` tool. `candidates` are the places it looked at, those
/// that [`plan`] named and any of its own, and `present[i]` says whether the
/// `i`-th of them exists. The program is the first candidate that exists, or
/// the bare program name where none does.
pub fn plan_claude(
    request: &GenerateCodeRequest,
    candidates: &Vec<String>,
    present: &Vec<bool>,
) -> (r: (Provider, CommandSpec))
    ensures
        r.0 == Provider::ClaudeCode,
        r.1@ == claude_command_model(
            chosen(texts(candidates@), present@),
            request@.prompt,
            request@.api_key,
            request@.source_dir,
        ),
{
    let executable = choose_executable(candidates, present);
    let command = claude_command(
        executable.as_str(),
        request.prompt.as_str(),
        request.api_key.as_str(),
        &request.source_dir,
    );
    (Provider::ClaudeCode, command)
}

/// The response to a process that ended, from its status, what its standard
/// output decoded to and the text of its standard error.
pub fn respond_to_exit(
    provider: Provider,
    success: bool,
    output: Result<String, String>,
    diagnostics: &str,
) -> (r: GenerateCodeResponse)
    ensures
        r@ == response_to_exit(provider, success, decoded_view(output), diagnostics@),
        r@.well_formed(),
{
    if !success {
        return GenerateCodeResponse::failed(provider.exit_failure(diagnostics));
    }
    match output {
        Ok(code) => GenerateCodeResponse::succeeded(code),
        Err(description) => GenerateCodeResponse::failed(
            concat2("Invalid UTF-8 in output: ", description.as_str()),
        ),
    }
}

/// Turns what became of a command into the response.
///
/// A process that could not be started, that ended with a failure status or
/// whose output is no text gives a failed response that says so; the text of
/// a failed process's standard error is the end of its message. Otherwise the
/// output is the generated code.
pub fn interpret(provider: Provider, outcome: ProcessOutcome) -> (r: GenerateCodeResponse)
    ensures
        r@ == response_for(provider, outcome@),
        r@.well_formed(),
        outcome@ matches ProcessOutcomeModel::Exited { success, stdout, stderr } ==> {
            &&& success && valid_utf8(stdout) ==> r@ == ResponseModel::succeeded(
                decode_utf8(stdout),
            )
            &&& !success && valid_utf8(stderr) ==> r@ == ResponseModel::failed(
                provider.exit_failure_prefix() + decode_utf8(stderr),
            )
        },
{
    match outcome {
        ProcessOutcome::SpawnFailed(reason) => GenerateCodeResponse::failed(
            provider.spawn_failure(reason.as_str()),
        ),
        ProcessOutcome::Exited(output) => {
            let diagnostics = lossy_text(&output.stderr);
            let text = decode_text(output.stdout);
            respond_to_exit(provider, output.success, text, diagnostics.as_str())
        },
    }
}

/// A request with an empty required field is answered at once with a failure
/// whose message names the first such field; no context is collected for it
/// and nothing is run.
pub proof fn lemma_incomplete_request_is_refused(request: RequestModel, context: Option<Seq<char>>)
    requires
        !complete(request),
    ensures
        missing_field(request) is Some,
        planned(request, context) == StepModel::Respond(
            ResponseModel::failed(missing_field(request)->0.message_text()),
        ),
        context_directory_of(request) is None,
{
}

/// A complete request whose provider is not known is answered at once with a
/// failure that names the identifier; nothing is run.
pub proof fn lemma_unknown_provider_is_refused(request: RequestModel, context: Option<Seq<char>>)
    requires
        complete(request),
        provider_of(request.provider_type) is None,
    ensures
        planned(request, context) == StepModel::Respond(
            ResponseModel::failed(unsupported_text(request.provider_type)),
        ),
{
}

/// Collecting from a directory that does not exist fails with an error that
/// names the directory, and leaves the request without context: it is then
/// planned as a request for which nothing was collected.
pub proof fn lemma_missing_directory_leaves_no_context(
    request: RequestModel,
    source_dir: Seq<char>,
    walk: Seq<WalkItemModel>,
)
    ensures
        collected(source_dir, false, walk) == Err::<Seq<char>, CollectErrorModel>(
            CollectErrorModel::NotFound(source_dir),
        ),
        ends_with(CollectErrorModel::NotFound(source_dir).message(), source_dir),
        context_of(collected(source_dir, false, walk)) is None,
        planned(request, context_of(collected(source_dir, false, walk))) == planned(
            request,
            None,
        ),
{
    let message = CollectErrorModel::NotFound(source_dir).message();
    assert(message.subrange(message.len() - source_dir.len(), message.len() as int)
        =~= source_dir);
}

/// The response to a process that ended with a failure status is a failure
/// whose message ends with the text of the process's standard error.
pub proof fn lemma_failed_exit_reports_diagnostics(
    provider: Provider,
    stdout: Seq<u8>,
    stderr: Seq<u8>,
)
    ensures
        ({
            let response = response_for(
                provider,
                ProcessOutcomeModel::Exited { success: false, stdout, stderr },
            );
            &&& !response.success
            &&& response.code.len() == 0
            &&& response.error is Some
            &&& ends_with(response.error->0, lossy_decoding(stderr))
        }),
{
    let text = lossy_decoding(stderr);
    let message = provider.exit_failure_prefix() + text;
    assert(message.subrange(message.len() - text.len(), message.len() as int) =~= text);
}

/// Every response to what became of a command either succeeds and carries no
/// error, or fails and carries an error and no code.
pub proof fn lemma_responses_are_well_formed(provider: Provider, outcome: ProcessOutcomeModel)
    ensures
        response_for(provider, outcome).well_formed(),
{
}

} // verus!
