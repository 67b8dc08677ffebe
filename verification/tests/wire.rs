use chatsh::converter::ConversionError;
use chatsh::openai::gpt35_turbo;
use chatsh::openai::gpt4_32k;
use chatsh::openai::join_commands;
use chatsh::openai::sole_candidate;

#[test]
fn single_reply_normalizes_into_a_detail() {
    let body = r#"{"choices":[{"message":{"role":"assistant","content":"{\"description\":\"lists files\",\"command\":\"ls\"}"}}]}"#;
    let detail = gpt35_turbo::detail_from_reply(body).unwrap();
    assert_eq!(detail.descriptions, vec!["lists files".to_string()]);
    assert_eq!(detail.command, "ls");
}

#[test]
fn multi_reply_joins_commands_into_one() {
    let body = r#"{"choices":[{"message":{"role":"assistant","content":"{\"descriptions\":[\"`cd a`: navigate\",\"`ls -lh`: display\"],\"commands\":[\"cd a\",\"ls -lh\"]}"}}]}"#;
    let detail = gpt4_32k::detail_from_reply(body).unwrap();
    assert_eq!(
        detail.descriptions,
        vec!["`cd a`: navigate".to_string(), "`ls -lh`: display".to_string()]
    );
    assert_eq!(detail.command, "cd a && ls -lh");
}

#[test]
fn two_candidates_are_rejected() {
    let inner = r#"{\"description\":\"d\",\"command\":\"c\"}"#;
    let body = format!(
        r#"{{"choices":[{{"message":{{"role":"assistant","content":"{}"}}}},{{"message":{{"role":"assistant","content":"{}"}}}}]}}"#,
        inner, inner
    );
    let outcome = gpt35_turbo::detail_from_reply(&body);
    assert!(matches!(outcome, Err(ConversionError::CandidateCount(2))));
}

#[test]
fn zero_candidates_are_rejected() {
    let body = r#"{"choices":[]}"#;
    let outcome = gpt35_turbo::detail_from_reply(body);
    assert!(matches!(outcome, Err(ConversionError::CandidateCount(0))));
}

#[test]
fn invalid_json_body_is_malformed() {
    let outcome = gpt35_turbo::detail_from_reply("not json at all");
    assert!(matches!(outcome, Err(ConversionError::MalformedPayload)));
}

#[test]
fn missing_choices_field_is_malformed() {
    let outcome = gpt35_turbo::detail_from_reply(r#"{"answers":[]}"#);
    assert!(matches!(outcome, Err(ConversionError::MalformedPayload)));
}

#[test]
fn non_json_inner_content_is_malformed() {
    let body = r#"{"choices":[{"message":{"role":"assistant","content":"plain prose"}}]}"#;
    let outcome = gpt35_turbo::detail_from_reply(body);
    assert!(matches!(outcome, Err(ConversionError::MalformedPayload)));
}

#[test]
fn missing_command_field_is_malformed() {
    let body = r#"{"choices":[{"message":{"role":"assistant","content":"{\"description\":\"d\"}"}}]}"#;
    let outcome = gpt35_turbo::detail_from_reply(body);
    assert!(matches!(outcome, Err(ConversionError::MalformedPayload)));
}

#[test]
fn empty_command_string_is_malformed() {
    let body = r#"{"choices":[{"message":{"role":"assistant","content":"{\"description\":\"d\",\"command\":\"\"}"}}]}"#;
    let outcome = gpt35_turbo::detail_from_reply(body);
    assert!(matches!(outcome, Err(ConversionError::MalformedPayload)));
}

#[test]
fn empty_commands_array_is_malformed() {
    let body = r#"{"choices":[{"message":{"role":"assistant","content":"{\"descriptions\":[\"d\"],\"commands\":[]}"}}]}"#;
    let outcome = gpt4_32k::detail_from_reply(body);
    assert!(matches!(outcome, Err(ConversionError::MalformedPayload)));
}

#[test]
fn empty_descriptions_array_is_malformed() {
    let body = r#"{"choices":[{"message":{"role":"assistant","content":"{\"descriptions\":[],\"commands\":[\"ls\"]}"}}]}"#;
    let outcome = gpt4_32k::detail_from_reply(body);
    assert!(matches!(outcome, Err(ConversionError::MalformedPayload)));
}

#[test]
fn non_string_command_element_is_malformed() {
    let body = r#"{"choices":[{"message":{"role":"assistant","content":"{\"descriptions\":[\"d\"],\"commands\":[1,2]}"}}]}"#;
    let outcome = gpt4_32k::detail_from_reply(body);
    assert!(matches!(outcome, Err(ConversionError::MalformedPayload)));
}

#[test]
fn join_commands_chains_with_double_ampersand() {
    let commands = vec!["cd a".to_string(), "ls".to_string(), "pwd".to_string()];
    assert_eq!(join_commands(&commands), "cd a && ls && pwd");
}

#[test]
fn join_of_one_command_is_that_command() {
    let commands = vec!["ls".to_string()];
    assert_eq!(join_commands(&commands), "ls");
}

#[test]
fn join_of_no_commands_is_empty() {
    let commands: Vec<String> = vec![];
    assert_eq!(join_commands(&commands), "");
}

#[test]
fn sole_candidate_hands_out_the_only_content() {
    let contents = vec!["the answer".to_string()];
    assert_eq!(sole_candidate(contents).unwrap(), "the answer");
}

#[test]
fn sole_candidate_counts_the_surplus() {
    let contents = vec!["a".to_string(), "b".to_string(), "c".to_string()];
    let outcome = sole_candidate(contents);
    assert!(matches!(outcome, Err(ConversionError::CandidateCount(3))));
}

#[test]
fn gpt35_turbo_request_shape() {
    let request = gpt35_turbo::request_for("list files");
    assert_eq!(request.model, "gpt-3.5-turbo");
    assert_eq!(request.n, 1);
    assert_eq!(request.messages.len(), 2);
    assert_eq!(request.messages[0].role, "system");
    assert_eq!(request.messages[0].content, gpt35_turbo::PROMPT);
    assert_eq!(request.messages[1].role, "user");
    assert_eq!(request.messages[1].content, "list files");
}

#[test]
fn gpt4_32k_request_shape() {
    let request = gpt4_32k::request_for("show disk usage");
    assert_eq!(request.model, "gpt-4-32k");
    assert_eq!(request.n, 1);
    assert_eq!(request.messages.len(), 2);
    assert_eq!(request.messages[0].role, "system");
    assert_eq!(request.messages[0].content, gpt4_32k::PROMPT);
    assert_eq!(request.messages[1].role, "user");
    assert_eq!(request.messages[1].content, "show disk usage");
}
