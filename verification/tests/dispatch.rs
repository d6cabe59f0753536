use codegen_bridge::collector::{collect_source_code, CollectError};
use codegen_bridge::command::{
    choose_executable, claude_candidates, claude_command, compose_prompt, cursor_command, place,
};
use codegen_bridge::dispatch::{
    context_directory, context_from, interpret, plan, plan_claude, respond_to_exit,
    ProcessOutcome, ProcessOutput, Step,
};
use codegen_bridge::probe::{check_cli_available, plan_probe, ProbeStep};
use codegen_bridge::provider::Provider;
use codegen_bridge::request::{
    validate, GenerateCodeRequest, GenerateCodeResponse, MissingField,
};

const SYSTEM_PROMPT: &str = "You are an expert software developer. Generate complete, production-ready code following best practices. Return ONLY the code implementation without asking for permissions or confirmations. Generate all necessary files and code directly.";

fn request(provider: &str, key: &str, prompt: &str, dir: Option<&str>) -> GenerateCodeRequest {
    GenerateCodeRequest {
        prompt: prompt.to_string(),
        provider_type: provider.to_string(),
        api_key: key.to_string(),
        source_dir: dir.map(|d| d.to_string()),
        language: None,
        framework: None,
        context: None,
    }
}

fn refusal(step: Step) -> GenerateCodeResponse {
    match step {
        Step::Respond(response) => response,
        other => panic!("{:?}", other),
    }
}

fn exited(success: bool, stdout: &[u8], stderr: &[u8]) -> ProcessOutcome {
    ProcessOutcome::Exited(ProcessOutput {
        success,
        stdout: stdout.to_vec(),
        stderr: stderr.to_vec(),
    })
}

#[test]
fn provider_names_are_read_whatever_their_case() {
    assert_eq!(Provider::parse("CURSOR"), Some(Provider::Cursor));
    assert_eq!(Provider::parse("cursor"), Some(Provider::Cursor));
    assert_eq!(Provider::parse("Claude_Code"), Some(Provider::ClaudeCode));
    assert_eq!(Provider::parse("claude_code"), Some(Provider::ClaudeCode));
    let short = Provider::ClaudeCode.short_name();
    assert_eq!(Provider::parse(&short), Some(Provider::ClaudeCode));
    assert_eq!(Provider::parse(&short.to_lowercase()), Some(Provider::ClaudeCode));
    assert_eq!(Provider::parse("CLAUDE_"), None);
    assert_eq!(Provider::parse("CODE"), None);
    assert_eq!(Provider::parse("unknown_tool"), None);
    assert_eq!(Provider::parse(""), None);
    assert_eq!(Provider::parse("CLAUDE_CODES"), None);
}

#[test]
fn normalized_provider_names_are_exact() {
    assert_eq!(Provider::from_normalized("CURSOR"), Some(Provider::Cursor));
    assert_eq!(Provider::from_normalized("CLAUDE_CODE"), Some(Provider::ClaudeCode));
    assert_eq!(
        Provider::from_normalized(&Provider::ClaudeCode.short_name()),
        Some(Provider::ClaudeCode)
    );
    assert_eq!(Provider::from_normalized("claude_code"), None);
    assert_eq!(Provider::from_normalized("cursor"), None);
    assert_eq!(Provider::from_normalized("CURSOR "), None);
}

#[test]
fn credentials_go_through_one_variable_per_provider() {
    assert_eq!(Provider::Cursor.key_variable(), "CURSOR_API_KEY");
    assert_eq!(Provider::ClaudeCode.key_variable(), "ANTHROPIC_API_KEY");
}

#[test]
fn validation_names_the_first_empty_field() {
    assert_eq!(validate(&request("", "k", "p", None)), Some(MissingField::ProviderType));
    assert_eq!(validate(&request("CURSOR", "", "p", None)), Some(MissingField::ApiKey));
    assert_eq!(validate(&request("CURSOR", "k", "", None)), Some(MissingField::Prompt));
    assert_eq!(validate(&request("", "", "", None)), Some(MissingField::ProviderType));
    assert_eq!(validate(&request("CURSOR", "", "", None)), Some(MissingField::ApiKey));
    assert_eq!(validate(&request("CURSOR", "k", "p", None)), None);
    assert_eq!(validate(&request("unknown_tool", "k", "p", None)), None);
}

#[test]
fn missing_field_messages() {
    assert_eq!(MissingField::ProviderType.message(), "provider_type is required");
    assert_eq!(MissingField::ApiKey.message(), "api_key is required");
    assert_eq!(MissingField::Prompt.message(), "prompt is required");
}

#[test]
fn incomplete_requests_are_refused_without_running_anything() {
    let cases = [
        (request("", "k", "p", Some("/src")), "provider_type is required"),
        (request("CLAUDE_CODE", "", "p", Some("/src")), "api_key is required"),
        (request("CURSOR", "k", "", None), "prompt is required"),
    ];
    for (incomplete, message) in cases {
        assert!(context_directory(&incomplete).is_none());
        let response = refusal(plan(&incomplete, &Some("context".to_string())));
        assert!(!response.success);
        assert_eq!(response.code, "");
        assert_eq!(response.error.as_deref(), Some(message));
    }
}

#[test]
fn unknown_provider_is_unsupported() {
    let response = refusal(plan(&request("unknown_tool", "k", "p", None), &None));
    assert!(!response.success);
    assert_eq!(response.code, "");
    assert_eq!(response.error.as_deref(), Some("Unsupported provider type: unknown_tool"));
}

#[test]
fn context_is_collected_for_complete_requests_with_a_directory() {
    assert_eq!(
        context_directory(&request("CURSOR", "k", "p", Some("/src"))).as_deref(),
        Some("/src")
    );
    assert_eq!(
        context_directory(&request("unknown_tool", "k", "p", Some("/src"))).as_deref(),
        Some("/src")
    );
    assert!(context_directory(&request("CURSOR", "k", "p", None)).is_none());
}

#[test]
fn missing_directory_degrades_to_no_context() {
    let collected = collect_source_code("/no/such/dir", false, &vec![]);
    assert!(matches!(collected, Err(CollectError::NotFound(_))));
    let context = context_from(collected);
    assert!(context.is_none());
    match plan(&request("cursor", "key", "write a parser", Some("/no/such/dir")), &context) {
        Step::Run(provider, command) => {
            assert_eq!(provider, Provider::Cursor);
            assert_eq!(command.args, vec!["generate", "--prompt", "write a parser"]);
        }
        other => panic!("{:?}", other),
    }
}

#[test]
fn collected_text_becomes_the_context() {
    assert_eq!(context_from(Ok("text".to_string())).as_deref(), Some("text"));
    assert_eq!(context_from(Ok(String::new())).as_deref(), Some(""));
    assert!(context_from(Err(CollectError::Walk("loop".to_string()))).is_none());
}

#[test]
fn prompt_is_composed_with_context() {
    assert_eq!(compose_prompt("do it", &None), "do it");
    assert_eq!(
        compose_prompt("do it", &Some("// File: a.rs\nfn a() {}\n".to_string())),
        "Context from project:\n// File: a.rs\nfn a() {}\n\n\nUser request: do it"
    );
    assert_eq!(
        compose_prompt("do it", &Some(String::new())),
        "Context from project:\n\n\nUser request: do it"
    );
}

#[test]
fn cursor_command_is_built() {
    let command = cursor_command("do it", "secret", &Some("ctx".to_string()));
    assert_eq!(command.program, "cursor");
    assert_eq!(
        command.args,
        vec!["generate", "--prompt", "Context from project:\nctx\n\nUser request: do it"]
    );
    assert_eq!(command.env_key, "CURSOR_API_KEY");
    assert_eq!(command.env_value, "secret");
    assert!(command.working_dir.is_none());
}

#[test]
fn claude_command_is_built() {
    let command = claude_command("/opt/tools/agent", "do it", "secret", &Some("/src".to_string()));
    assert_eq!(command.program, "/opt/tools/agent");
    assert_eq!(
        command.args,
        vec![
            "--print",
            "--output-format",
            "text",
            "--model",
            "sonnet",
            "--dangerously-skip-permissions",
            "--system-prompt",
            SYSTEM_PROMPT,
            "do it",
        ]
    );
    assert_eq!(command.env_key, "ANTHROPIC_API_KEY");
    assert_eq!(command.env_value, "secret");
    assert_eq!(command.working_dir.as_deref(), Some("/src"));
    let here = claude_command("agent", "do it", "secret", &None);
    assert_eq!(here.working_dir.as_deref(), Some("."));
}

#[test]
fn executable_is_the_first_candidate_found() {
    let places = vec!["/a".to_string(), "/b".to_string(), "/c".to_string()];
    assert_eq!(choose_executable(&places, &vec![false, true, true]), "/b");
    assert_eq!(choose_executable(&places, &vec![true, false, false]), "/a");
    assert_eq!(choose_executable(&places, &vec![false, false, true]), "/c");
    let bare = Provider::ClaudeCode.program_name();
    assert_eq!(choose_executable(&places, &vec![false, false, false]), bare);
    assert_eq!(choose_executable(&places, &vec![]), bare);
    assert_eq!(choose_executable(&places, &vec![false]), bare);
    assert_eq!(choose_executable(&places, &vec![false, false, false, true]), bare);
    assert_eq!(choose_executable(&vec![], &vec![true]), bare);
}

#[test]
fn provider_names_follow_from_the_canonical_name() {
    assert_eq!(Provider::Cursor.canonical_name(), "CURSOR");
    assert_eq!(Provider::Cursor.short_name(), "CURSOR");
    assert_eq!(Provider::Cursor.program_name(), "cursor");
    assert_eq!(Provider::Cursor.display_name(), "Cursor");
    let second = Provider::ClaudeCode;
    assert_eq!(second.canonical_name(), "CLAUDE_CODE");
    assert_eq!(format!("{}_CODE", second.short_name()), "CLAUDE_CODE");
    assert_eq!(format!("{}_code", second.program_name()), "claude_code");
    assert_eq!(format!("{}_Code", second.display_name()), "Claude_Code");
}

#[test]
fn second_tool_has_one_well_known_place() {
    let program = Provider::ClaudeCode.program_name();
    assert_eq!(claude_candidates(), vec![format!("/usr/local/bin/{}", program)]);
    assert_eq!(place("/home/me/.local/bin", &program), format!("/home/me/.local/bin/{}", program));
    assert_eq!(place("", "tool"), "/tool");
}

#[test]
fn second_provider_asks_for_a_lookup_then_runs_in_the_project() {
    let wanted = request("claude_code", "secret", "do it", Some("/src"));
    let places = match plan(&wanted, &Some("ignored context".to_string())) {
        Step::Locate(places) => places,
        other => panic!("{:?}", other),
    };
    assert_eq!(places, claude_candidates());
    let (provider, found) = plan_claude(&wanted, &places, &vec![true]);
    assert_eq!(provider, Provider::ClaudeCode);
    assert_eq!(found.program, format!("/usr/local/bin/{}", Provider::ClaudeCode.program_name()));
    assert_eq!(found.args.last().map(|s| s.as_str()), Some("do it"));
    assert_eq!(found.args.len(), 9);
    assert_eq!(found.working_dir.as_deref(), Some("/src"));
    assert_eq!(found.env_key, "ANTHROPIC_API_KEY");
    assert_eq!(found.env_value, "secret");
    let (_, absent) = plan_claude(&wanted, &places, &vec![false]);
    assert_eq!(format!("{}_code", absent.program), "claude_code");
}

#[test]
fn lookup_goes_over_the_places_that_the_host_hands_in() {
    let wanted = request("CLAUDE_CODE", "secret", "do it", None);
    let places = vec!["/home/me/bin/agent".to_string(), "/opt/agent".to_string()];
    let (provider, first) = plan_claude(&wanted, &places, &vec![true, true]);
    assert_eq!(provider, Provider::ClaudeCode);
    assert_eq!(first.program, "/home/me/bin/agent");
    assert_eq!(first.working_dir.as_deref(), Some("."));
    let (_, second) = plan_claude(&wanted, &places, &vec![false, true]);
    assert_eq!(second.program, "/opt/agent");
    let (_, none) = plan_claude(&wanted, &vec![], &vec![]);
    assert_eq!(none.program, Provider::ClaudeCode.program_name());
}

#[test]
fn cursor_requests_run_with_the_context() {
    match plan(&request("Cursor", "secret", "do it", Some("/src")), &Some("ctx".to_string())) {
        Step::Run(provider, command) => {
            assert_eq!(provider, Provider::Cursor);
            assert_eq!(command.program, "cursor");
            assert_eq!(
                command.args[2],
                "Context from project:\nctx\n\nUser request: do it"
            );
            assert_eq!(command.env_value, "secret");
        }
        other => panic!("{:?}", other),
    }
}

#[test]
fn successful_output_is_the_code() {
    let response = interpret(Provider::Cursor, exited(true, "fn main() {}\n".as_bytes(), b"warn"));
    assert!(response.success);
    assert_eq!(response.code, "fn main() {}\n");
    assert!(response.error.is_none());
    let accented = interpret(Provider::ClaudeCode, exited(true, "caf\u{e9}".as_bytes(), b""));
    assert_eq!(accented.code, "caf\u{e9}");
}

#[test]
fn failed_process_reports_its_standard_error() {
    let response = interpret(Provider::Cursor, exited(false, b"partial", b"boom"));
    assert!(!response.success);
    assert_eq!(response.code, "");
    assert_eq!(response.error.as_deref(), Some("Cursor CLI failed: boom"));
    assert!(response.error.unwrap().contains("boom"));
    let second = interpret(Provider::ClaudeCode, exited(false, b"", b"boom"));
    let message = second.error.unwrap();
    let name = message.strip_suffix(" CLI failed: boom").unwrap();
    assert_eq!(format!("{}_Code", name), "Claude_Code");
}

#[test]
fn failed_process_with_undecodable_standard_error() {
    let response = interpret(Provider::Cursor, exited(false, b"", &[b'a', 0xff, b'b']));
    assert!(!response.success);
    assert_eq!(response.error.as_deref(), Some("Cursor CLI failed: a\u{fffd}b"));
}

#[test]
fn undecodable_output_is_a_failure() {
    let response = interpret(Provider::Cursor, exited(true, &[b'o', b'k', 0xff], b""));
    assert!(!response.success);
    assert_eq!(response.code, "");
    assert_eq!(
        response.error.as_deref(),
        Some("Invalid UTF-8 in output: invalid utf-8 sequence of 1 bytes from index 2")
    );
}

#[test]
fn process_that_could_not_start_is_a_failure() {
    let cursor = interpret(Provider::Cursor, ProcessOutcome::SpawnFailed("not found".to_string()));
    assert!(!cursor.success);
    assert_eq!(cursor.code, "");
    assert_eq!(cursor.error.as_deref(), Some("Failed to execute cursor CLI: not found"));
    let second =
        interpret(Provider::ClaudeCode, ProcessOutcome::SpawnFailed("not found".to_string()));
    let message = second.error.unwrap();
    let name = message
        .strip_prefix("Failed to execute ")
        .and_then(|rest| rest.strip_suffix(" CLI: not found"))
        .unwrap();
    assert_eq!(format!("{}_code", name), "claude_code");
}

#[test]
fn exit_is_answered_from_decoded_values() {
    let ok = respond_to_exit(Provider::Cursor, true, Ok("code".to_string()), "noise");
    assert!(ok.success);
    assert_eq!(ok.code, "code");
    assert!(ok.error.is_none());
    let bad = respond_to_exit(Provider::Cursor, true, Err("truncated".to_string()), "noise");
    assert!(!bad.success);
    assert_eq!(bad.error.as_deref(), Some("Invalid UTF-8 in output: truncated"));
    let failed = respond_to_exit(Provider::ClaudeCode, false, Ok("code".to_string()), "boom");
    assert!(!failed.success);
    assert_eq!(failed.code, "");
    assert_eq!(
        failed.error,
        Some(format!("{} CLI failed: boom", Provider::ClaudeCode.display_name()))
    );
}

#[test]
fn responses_hold_either_code_or_an_error() {
    let good = GenerateCodeResponse::succeeded("x".to_string());
    assert!(good.success && good.error.is_none() && good.code == "x");
    let bad = GenerateCodeResponse::failed("why".to_string());
    assert!(!bad.success && bad.code.is_empty());
    assert_eq!(bad.error.as_deref(), Some("why"));
}

#[test]
fn second_provider_is_available_without_a_lookup() {
    let short = Provider::ClaudeCode.short_name().to_lowercase();
    for id in ["CLAUDE_CODE", short.as_str(), "Claude_Code"] {
        assert!(matches!(plan_probe(id), ProbeStep::Answer(true)), "{}", id);
    }
}

#[test]
fn cursor_is_looked_up() {
    match plan_probe("cursor") {
        ProbeStep::Lookup { utility, binary } => {
            assert_eq!(utility, "which");
            assert_eq!(binary, "cursor");
        }
        other => panic!("{:?}", other),
    }
}

#[test]
fn unknown_provider_is_not_available() {
    assert!(matches!(plan_probe("unknown_tool"), ProbeStep::Answer(false)));
    assert!(matches!(plan_probe(""), ProbeStep::Answer(false)));
}

#[test]
fn lookup_outcome_decides_availability_of_cursor() {
    assert!(check_cli_available("cursor", Some(true)));
    assert!(!check_cli_available("CURSOR", Some(false)));
    assert!(!check_cli_available("Cursor", None));
}

#[test]
fn availability_of_the_second_provider_ignores_the_lookup() {
    for lookup in [Some(true), Some(false), None] {
        assert!(check_cli_available("CLAUDE_CODE", lookup));
        assert!(check_cli_available(&Provider::ClaudeCode.short_name(), lookup));
    }
}

#[test]
fn unknown_provider_is_not_available_whatever_the_lookup() {
    for lookup in [Some(true), Some(false), None] {
        assert!(!check_cli_available("unknown_tool", lookup));
        assert!(!check_cli_available("", lookup));
    }
}

#[test]
fn crate_root_offers_the_entry_points() {
    assert!(codegen_bridge::check_cli_available("claude_code", None));
    assert_eq!(codegen_bridge::collect_source_code("p", true, &vec![]).unwrap(), "");
    let response = codegen_bridge::GenerateCodeResponse::failed("why".to_string());
    assert!(!response.success);
}
