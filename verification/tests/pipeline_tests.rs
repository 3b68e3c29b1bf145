use openai_rs::completion::CompletionBody;
use openai_rs::configs::AppConfig;
use openai_rs::errors::Failure;
use openai_rs::git::GitDiff;
use openai_rs::openai::completions_url;
use openai_rs::openai::decode_response;
use openai_rs::openai::OpenAi;
use openai_rs::pipeline::build_commit_request;
use openai_rs::pipeline::render_prompt;
use openai_rs::pipeline::Phase;
use openai_rs::pipeline::Pipeline;
use openai_rs::response::extract_message;

fn ready_pipeline() -> Pipeline {
    let mut p = Pipeline::new();
    p.verify_repo(true);
    let staged = GitDiff::new("src/lib.rs\n", "diff text".to_string()).unwrap();
    p.accept_diff(Ok(staged));
    p.build_prompt();
    let _request: CompletionBody = p.take_request();
    p
}

#[test]
fn prompt_over_ceiling_is_cut_to_exactly_the_ceiling() {
    let diff = "x".repeat(9000);
    let (prompt, warned) = render_prompt(&diff);
    assert!(warned);
    assert_eq!(prompt.chars().count(), 8000);
}

#[test]
fn prompt_under_ceiling_is_kept_whole() {
    let (prompt, warned) = render_prompt("tiny diff");
    assert!(!warned);
    assert!(prompt.starts_with("Write an insightful but concise commit message"));
    assert!(prompt.ends_with("tiny diff"));
}

#[test]
fn nothing_staged_fails_before_any_request() {
    let mut p = Pipeline::new();
    p.verify_repo(true);
    let outcome = GitDiff::new("", "whatever".to_string());
    assert!(matches!(&outcome, Err(Failure::NothingStaged)));
    p.accept_diff(outcome);
    assert_eq!(p.phase, Phase::Failed);
    assert!(matches!(p.failure, Some(Failure::NothingStaged)));
    assert_eq!(
        p.failure.unwrap().message(),
        "No files staged for commit"
    );
}

#[test]
fn not_a_repository_fails_fast() {
    let mut p = Pipeline::new();
    p.verify_repo(false);
    assert_eq!(p.phase, Phase::Failed);
    assert!(matches!(p.failure, Some(Failure::NotARepository)));
}

#[test]
fn staged_listing_is_split_into_files() {
    let staged = GitDiff::new("a.rs\nsrc/b.rs\n", "d".to_string()).unwrap();
    assert_eq!(staged.get_files(), &vec!["a.rs".to_string(), "src/b.rs".to_string()]);
    assert_eq!(staged.get_diff(), "d");
}

#[test]
fn crlf_listing_is_split_like_git_output() {
    let staged = GitDiff::new("a.rs\r\nb.rs", "d".to_string()).unwrap();
    assert_eq!(staged.get_files(), &vec!["a.rs".to_string(), "b.rs".to_string()]);
}

#[test]
fn extracted_message_is_trimmed() {
    let mut p = ready_pipeline();
    p.accept_response(Some((
        200,
        "{\"choices\":[{\"text\":\" Fix the parsing bug \"}]}".to_string(),
    )));
    assert_eq!(p.phase, Phase::ResponseParsed);
    p.extract();
    assert_eq!(p.phase, Phase::Done);
    assert_eq!(p.message.unwrap(), "Fix the parsing bug");
}

#[test]
fn missing_choices_is_response_malformed() {
    let mut p = ready_pipeline();
    p.accept_response(Some((200, "{\"id\":\"cmpl\"}".to_string())));
    p.extract();
    assert_eq!(p.phase, Phase::Failed);
    assert!(matches!(p.failure, Some(Failure::ResponseMalformed)));
}

#[test]
fn non_string_text_is_response_malformed() {
    let v = serde_json::from_str::<serde_json::Value>("{\"choices\":[{\"text\":5}]}").unwrap();
    let r = extract_message(&v);
    assert!(matches!(r, Err(Failure::ResponseMalformed)));
}

#[test]
fn empty_choices_is_response_malformed() {
    let v = serde_json::from_str::<serde_json::Value>("{\"choices\":[]}").unwrap();
    let r = extract_message(&v);
    assert!(matches!(r, Err(Failure::ResponseMalformed)));
}

#[test]
fn undecodable_body_is_response_malformed() {
    let mut p = ready_pipeline();
    p.accept_response(Some((200, "not json at all".to_string())));
    assert_eq!(p.phase, Phase::Failed);
    assert!(matches!(p.failure, Some(Failure::ResponseMalformed)));
}

#[test]
fn rejection_message_carries_the_body() {
    let mut p = ready_pipeline();
    p.accept_response(Some((
        404,
        "{\"error\":\"model not found\"}".to_string(),
    )));
    assert_eq!(p.phase, Phase::Failed);
    let f = p.failure.unwrap();
    assert!(matches!(&f, Failure::RemoteRejected(404, _)));
    let message = f.message();
    assert!(message.contains("{\"error\":\"model not found\"}"));
}

#[test]
fn transport_failure_is_surfaced() {
    let mut p = ready_pipeline();
    p.accept_response(None);
    assert_eq!(p.phase, Phase::Failed);
    assert!(matches!(p.failure, Some(Failure::TransportFailure)));
}

#[test]
fn decode_response_classifies_statuses() {
    assert!(matches!(
        decode_response(500, "oops".to_string()),
        Err(Failure::RemoteRejected(500, _))
    ));
    assert!(matches!(
        decode_response(200, "{}".to_string()),
        Ok(_)
    ));
    assert!(matches!(
        decode_response(204, "nope".to_string()),
        Err(Failure::ResponseMalformed)
    ));
}

#[test]
fn commit_request_carries_fixed_tuning() {
    let body = build_commit_request("the prompt".to_string());
    let v = serde_json::from_str::<serde_json::Value>(&body.wire_form()).unwrap();
    assert_eq!(
        v.get("model"),
        Some(&serde_json::Value::String("text-davinci-003".to_string()))
    );
    assert_eq!(
        v.get("prompt"),
        Some(&serde_json::Value::Array(vec![serde_json::Value::String(
            "the prompt".to_string()
        )]))
    );
    assert_eq!(
        v.get("temperature"),
        Some(&serde_json::Value::Number(
            serde_json::Number::from_f64(0.7).unwrap()
        ))
    );
    assert_eq!(
        v.get("top_p"),
        Some(&serde_json::Value::Number(
            serde_json::Number::from_f64(1.0).unwrap()
        ))
    );
    assert_eq!(
        v.get("frequency_penalty"),
        Some(&serde_json::Value::Number(
            serde_json::Number::from_f64(0.0).unwrap()
        ))
    );
    assert_eq!(
        v.get("presence_penalty"),
        Some(&serde_json::Value::Number(
            serde_json::Number::from_f64(0.0).unwrap()
        ))
    );
    assert_eq!(
        v.get("max_tokens"),
        Some(&serde_json::Value::Number(serde_json::Number::from(200u64)))
    );
    assert_eq!(v.get("stream"), Some(&serde_json::Value::Bool(false)));
    assert_eq!(
        v.get("n"),
        Some(&serde_json::Value::Number(serde_json::Number::from(1u64)))
    );
    assert_eq!(v.get("suffix"), None);
    assert_eq!(v.get("logit_bias"), None);
}

#[test]
fn empty_api_key_is_configuration_missing() {
    let cfg = AppConfig::new(String::new());
    let r = cfg.check_api_key();
    assert!(matches!(r, Err(Failure::ConfigurationMissing)));
    let cfg = AppConfig::new("sk-123".to_string());
    assert!(cfg.check_api_key().is_ok());
}

#[test]
fn client_keeps_its_credential_and_endpoint() {
    let client = OpenAi::new("sk-abc".to_string());
    assert_eq!(client.get_api_key(), "sk-abc");
    assert_eq!(completions_url(), "https://api.openai.com/v1/completions");
}

#[test]
fn failure_messages_are_single_lines() {
    assert_eq!(
        Failure::ConfigurationMissing.message(),
        "No API key configured, please run `openai_rs --config`"
    );
    assert_eq!(
        Failure::NotARepository.message(),
        "Current directory is not a git repository"
    );
    assert_eq!(Failure::NothingStaged.message(), "No files staged for commit");
    assert_eq!(Failure::ExecutionFailure.message(), "Failed to execute git diff");
    assert_eq!(
        Failure::TransportFailure.message(),
        "Failed to reach the completions endpoint"
    );
    assert_eq!(
        Failure::RemoteRejected(401, "denied".to_string()).message(),
        "Request failed: denied"
    );
    assert_eq!(
        Failure::ResponseMalformed.message(),
        "Failed to parse commit message"
    );
}
