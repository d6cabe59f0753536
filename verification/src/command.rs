//! The command lines of the two tools.
//!
//! The tool of [`Provider::Cursor`] is handed the prompt, with any collected
//! context put in front of it, through a `--prompt` argument. The tool of
//! [`Provider::ClaudeCode`] is run inside the project directory and reads the
//! files itself, so it is handed the bare prompt as its last argument and no
//! collected context.

use vstd::prelude::*;
use vstd::string::StringExecFns;
use crate::provider::Provider;
use crate::text::{opt_view, texts};

verus! {

/// A command for the host to run: a program, its arguments, one environment
/// variable, and the directory to run it in (`None`: the host's own).
#[derive(Debug, Clone)]
pub struct CommandSpec {
    pub program: String,
    pub args: Vec<String>,
    pub env_key: String,
    pub env_value: String,
    pub working_dir: Option<String>,
}

/// What a [`CommandSpec`] holds, as mathematical values.
pub struct CommandModel {
    pub program: Seq<char>,
    pub args: Seq<Seq<char>>,
    pub env_key: Seq<char>,
    pub env_value: Seq<char>,
    pub working_dir: Option<Seq<char>>,
}

impl View for CommandSpec {
    type V = CommandModel;

    open spec fn view(&self) -> CommandModel {
        CommandModel {
            program: self.program@,
            args: texts(self.args@),
            env_key: self.env_key@,
            env_value: self.env_value@,
            working_dir: opt_view(self.working_dir),
        }
    }
}

/// The prompt that is handed to a tool which cannot read the project itself:
/// the collected context, if there is any, followed by the user's request.
pub open spec fn composed_prompt(prompt: Seq<char>, context: Option<Seq<char>>) -> Seq<char> {
    match context {
        Some(text) => "Context from project:\n"@ + text + "\n\nUser request: "@ + prompt,
        None => prompt,
    }
}

/// The instruction that the `ClaudeCode` tool is given as its system prompt.
pub open spec fn system_prompt() -> Seq<char> {
    "You are an expert software developer. Generate complete, production-ready code following best practices. Return ONLY the code implementation without asking for permissions or confirmations. Generate all necessary files and code directly."@
}

/// The command that runs the `Cursor` tool.
pub open spec fn cursor_command_model(
    prompt: Seq<char>,
    api_key: Seq<char>,
    context: Option<Seq<char>>,
) -> CommandModel {
    CommandModel {
        program: Provider::Cursor.program_text(),
        args: seq!["generate"@, "--prompt"@, composed_prompt(prompt, context)],
        env_key: Provider::Cursor.key_variable_text(),
        env_value: api_key,
        working_dir: None,
    }
}

/// The directory in which the `ClaudeCode` tool runs: the project's, or the
/// current one.
pub open spec fn claude_directory(source_dir: Option<Seq<char>>) -> Seq<char> {
    match source_dir {
        Some(dir) => dir,
        None => "."@,
    }
}

/// The command that runs the `ClaudeCode` tool at `executable`.
pub open spec fn claude_command_model(
    executable: Seq<char>,
    prompt: Seq<char>,
    api_key: Seq<char>,
    source_dir: Option<Seq<char>>,
) -> CommandModel {
    CommandModel {
        program: executable,
        args: seq![
            "--print"@,
            "--output-format"@,
            "text"@,
            "--model"@,
            "sonnet"@,
            "--dangerously-skip-permissions"@,
            "--system-prompt"@,
            system_prompt(),
            prompt,
        ],
        env_key: Provider::ClaudeCode.key_variable_text(),
        env_value: api_key,
        working_dir: Some(claude_directory(source_dir)),
    }
}

/// The place of the program `program` in the directory `directory`.
pub open spec fn place_in(directory: Seq<char>, program: Seq<char>) -> Seq<char> {
    directory + "/"@ + program
}

/// The well-known place of the `ClaudeCode` tool. A host that knows of
/// others, such as the user's own directory of programs, puts them in front.
pub open spec fn claude_candidate_texts() -> Seq<Seq<char>> {
    seq![place_in("/usr/local/bin"@, Provider::ClaudeCode.program_text())]
}

/// The program name that is left to the search path when the tool is in
/// none of the places looked at.
pub open spec fn claude_fallback() -> Seq<char> {
    Provider::ClaudeCode.program_text()
}

/// The first candidate that is present, or the fallback. `present[i]` says
/// whether `candidates[i]` exists; a candidate without an answer counts as
/// absent.
pub open spec fn chosen(candidates: Seq<Seq<char>>, present: Seq<bool>) -> Seq<char>
    decreases candidates.len(),
{
    if candidates.len() == 0 || present.len() == 0 {
        claude_fallback()
    } else if present[0] {
        candidates[0]
    } else {
        chosen(candidates.drop_first(), present.drop_first())
    }
}

/// Puts the collected context, if there is any, in front of the prompt.
pub fn compose_prompt(prompt: &str, context: &Option<String>) -> (r: String)
    ensures
        r@ == composed_prompt(prompt@, opt_view(*context)),
{
    match context {
        Some(text) => {
            let mut full = String::from_str("Context from project:\n");
            full.append(text.as_str());
            full.append("\n\nUser request: ");
            full.append(prompt);
            full
        },
        None => String::from_str(prompt),
    }
}

/// Builds the command that runs the `Cursor` tool.
pub fn cursor_command(prompt: &str, api_key: &str, context: &Option<String>) -> (r: CommandSpec)
    ensures
        r@ == cursor_command_model(prompt@, api_key@, opt_view(*context)),
{
    let mut args: Vec<String> = Vec::new();
    args.push(String::from_str("generate"));
    args.push(String::from_str("--prompt"));
    args.push(compose_prompt(prompt, context));
    let command = CommandSpec {
        program: Provider::Cursor.program_name(),
        args,
        env_key: Provider::Cursor.key_variable(),
        env_value: String::from_str(api_key),
        working_dir: None,
    };
    assert(command@.args =~= cursor_command_model(prompt@, api_key@, opt_view(*context)).args);
    command
}

/// Builds the command that runs the `ClaudeCode` tool at `executable`.
pub fn claude_command(
    executable: &str,
    prompt: &str,
    api_key: &str,
    source_dir: &Option<String>,
) -> (r: CommandSpec)
    ensures
        r@ == claude_command_model(executable@, prompt@, api_key@, opt_view(*source_dir)),
{
    let mut args: Vec<String> = Vec::new();
    args.push(String::from_str("--print"));
    args.push(String::from_str("--output-format"));
    args.push(String::from_str("text"));
    args.push(String::from_str("--model"));
    args.push(String::from_str("sonnet"));
    args.push(String::from_str("--dangerously-skip-permissions"));
    args.push(String::from_str("--system-prompt"));
    args.push(
        String::from_str(
            "You are an expert software developer. Generate complete, production-ready code following best practices. Return ONLY the code implementation without asking for permissions or confirmations. Generate all necessary files and code directly.",
        ),
    );
    args.push(String::from_str(prompt));
    let directory = match source_dir {
        Some(dir) => String::from_str(dir.as_str()),
        None => String::from_str("."),
    };
    let command = CommandSpec {
        program: String::from_str(executable),
        args,
        env_key: Provider::ClaudeCode.key_variable(),
        env_value: String::from_str(api_key),
        working_dir: Some(directory),
    };
    assert(command@.args =~= claude_command_model(
        executable@,
        prompt@,
        api_key@,
        opt_view(*source_dir),
    ).args);
    command
}

/// The place of the program `program` in the directory `directory`.
pub fn place(directory: &str, program: &str) -> (r: String)
    ensures
        r@ == place_in(directory@, program@),
{
    let mut path = String::from_str(directory);
    path.append("/");
    path.append(program);
    path
}

/// The well-known place of the `ClaudeCode` tool. A host that knows of
/// others, such as the user's own directory of programs, puts them in front.
pub fn claude_candidates() -> (r: Vec<String>)
    ensures
        texts(r@) == claude_candidate_texts(),
{
    let program = Provider::ClaudeCode.program_name();
    let mut places: Vec<String> = Vec::new();
    places.push(place("/usr/local/bin", program.as_str()));
    places
}

/// Picks the program to run: the first candidate that the host found, or the
/// bare name, which leaves the search to the host's search path.
pub fn choose_executable(candidates: &Vec<String>, present: &Vec<bool>) -> (r: String)
    ensures
        r@ == chosen(texts(candidates@), present@),
{
    let mut i: usize = 0;
    assert(texts(candidates@).skip(0) =~= texts(candidates@));
    assert(present@.skip(0) =~= present@);
    while i < candidates.len() && i < present.len()
        invariant
            i <= candidates.len(),
            i <= present.len(),
            chosen(texts(candidates@), present@) == chosen(
                texts(candidates@).skip(i as int),
                present@.skip(i as int),
            ),
        decreases candidates.len() - i,
    {
        if present[i] {
            return String::from_str(candidates[i].as_str());
        }
        proof {
            let c = texts(candidates@).skip(i as int);
            let p = present@.skip(i as int);
            assert(c.drop_first() =~= texts(candidates@).skip(i + 1));
            assert(p.drop_first() =~= present@.skip(i + 1));
        }
        i = i + 1;
    }
    Provider::ClaudeCode.program_name()
}

} // verus!
