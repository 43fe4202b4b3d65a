use dictation_core::post_process::{
    after_reply, find_prompt, first_step, read_structured_reply, structured_reply_text, LadderStep,
    LlmReply, LlmRequest, PostProcessSettings, PromptEntry, ProviderInfo,
};

fn settings(provider_id: &str, structured: bool, model: &str, prompt: &str) -> PostProcessSettings {
    PostProcessSettings {
        provider: Some(ProviderInfo { id: provider_id.to_string(), supports_structured_output: structured }),
        model: model.to_string(),
        api_key: "key".to_string(),
        prompts: vec![
            PromptEntry { id: "other".to_string(), prompt: "Other ${output}".to_string() },
            PromptEntry { id: "clean".to_string(), prompt: prompt.to_string() },
        ],
        selected_prompt_id: Some("clean".to_string()),
    }
}

fn done(step: LadderStep) -> Option<String> {
    match step {
        LadderStep::Done(r) => r,
        LadderStep::Send(q) => panic!("expected the ladder to end, got {:?}", q),
    }
}

#[test]
fn prompt_found_by_identifier() {
    let s = settings("openai", true, "gpt", "Clean: ${output}");
    assert_eq!(find_prompt(&s.prompts, "clean"), Some("Clean: ${output}".to_string()));
    assert_eq!(find_prompt(&s.prompts, "other"), Some("Other ${output}".to_string()));
    assert_eq!(find_prompt(&s.prompts, "missing"), None);
    assert_eq!(find_prompt(&Vec::new(), "clean"), None);
}

#[test]
fn ladder_skips_without_provider() {
    let mut s = settings("openai", true, "gpt", "Clean: ${output}");
    s.provider = None;
    assert_eq!(done(first_step(&s, "hello", true)), None);
}

#[test]
fn ladder_skips_blank_model() {
    let s = settings("openai", true, "   ", "Clean: ${output}");
    assert_eq!(done(first_step(&s, "hello", true)), None);
}

#[test]
fn ladder_skips_missing_or_blank_prompt() {
    let mut s = settings("openai", true, "gpt", "Clean: ${output}");
    s.selected_prompt_id = None;
    assert_eq!(done(first_step(&s, "hello", true)), None);
    s.selected_prompt_id = Some("missing".to_string());
    assert_eq!(done(first_step(&s, "hello", true)), None);
    let s = settings("openai", true, "gpt", " \n ");
    assert_eq!(done(first_step(&s, "hello", true)), None);
}

#[test]
fn structured_provider_gets_structured_request() {
    let s = settings("openai", true, "gpt", "Clean: ${output}");
    match first_step(&s, "hello", true) {
        LadderStep::Send(LlmRequest::Structured { system_prompt, user_content, schema }) => {
            assert_eq!(system_prompt, "Clean:");
            assert_eq!(user_content, "hello");
            let v: serde_json::Value = serde_json::from_str(&schema).unwrap();
            assert_eq!(v["type"], "object");
            assert_eq!(v["properties"]["transcription"]["type"], "string");
            assert_eq!(v["required"][0], "transcription");
            assert_eq!(v["required"].as_array().unwrap().len(), 1);
            assert_eq!(v["additionalProperties"], false);
        }
        other => panic!("unexpected {:?}", other),
    }
}

#[test]
fn plain_provider_gets_substituted_prompt() {
    let s = settings("custom", false, "llama", "Clean: ${output}");
    match first_step(&s, "hello", true) {
        LadderStep::Send(LlmRequest::Legacy { prompt }) => assert_eq!(prompt, "Clean: hello"),
        other => panic!("unexpected {:?}", other),
    }
}

#[test]
fn on_device_provider_gets_token_budget() {
    let s = settings("apple_intelligence", true, " 512 ", "Clean: ${output}");
    match first_step(&s, "hello", true) {
        LadderStep::Send(LlmRequest::OnDevice { system_prompt, user_content, token_limit }) => {
            assert_eq!(system_prompt, "Clean:");
            assert_eq!(user_content, "hello");
            assert_eq!(token_limit, 512);
        }
        other => panic!("unexpected {:?}", other),
    }
    let s = settings("apple_intelligence", true, "default", "Clean: ${output}");
    match first_step(&s, "hello", true) {
        LadderStep::Send(LlmRequest::OnDevice { token_limit, .. }) => assert_eq!(token_limit, 0),
        other => panic!("unexpected {:?}", other),
    }
}

#[test]
fn unavailable_on_device_provider_is_skipped() {
    let s = settings("apple_intelligence", true, "512", "Clean: ${output}");
    assert_eq!(done(first_step(&s, "hello", false)), None);
}

#[test]
fn on_device_blank_answer_keeps_text() {
    let req = LlmRequest::OnDevice {
        system_prompt: "p".to_string(),
        user_content: "u".to_string(),
        token_limit: 0,
    };
    assert_eq!(done(after_reply(&req, LlmReply::Content("  \n".to_string()), "t", "u")), None);
    assert_eq!(
        done(after_reply(&req, LlmReply::Content("Done\u{200B}.".to_string()), "t", "u")),
        Some("Done.".to_string())
    );
    assert_eq!(done(after_reply(&req, LlmReply::Failed, "t", "u")), None);
}

#[test]
fn structured_failure_falls_back_to_plain_request() {
    let req = LlmRequest::Structured { system_prompt: "Clean:".to_string(), user_content: "hello".to_string(), schema: "{}".to_string() };
    let next = match after_reply(&req, LlmReply::Failed, "Clean: ${output}", "hello") {
        LadderStep::Send(q) => q,
        LadderStep::Done(r) => panic!("expected a fallback, got {:?}", r),
    };
    match &next {
        LlmRequest::Legacy { prompt } => assert_eq!(prompt, "Clean: hello"),
        other => panic!("unexpected {:?}", other),
    }
    let result = done(after_reply(
        &next,
        LlmReply::Content("Hello.\u{FEFF}".to_string()),
        "Clean: ${output}",
        "hello",
    ));
    assert_eq!(result, Some("Hello.".to_string()));
}

#[test]
fn structured_no_content_keeps_text() {
    let req = LlmRequest::Structured { system_prompt: "p".to_string(), user_content: "u".to_string(), schema: "{}".to_string() };
    assert_eq!(done(after_reply(&req, LlmReply::NoContent, "t", "u")), None);
}

#[test]
fn plain_request_failure_keeps_text() {
    let req = LlmRequest::Legacy { prompt: "p".to_string() };
    assert_eq!(done(after_reply(&req, LlmReply::Failed, "t", "u")), None);
    assert_eq!(done(after_reply(&req, LlmReply::NoContent, "t", "u")), None);
}

#[test]
fn structured_reply_member_is_used() {
    let req = LlmRequest::Structured { system_prompt: "p".to_string(), user_content: "u".to_string(), schema: "{}".to_string() };
    let reply = "{\"transcription\":\"Hello\u{200B} there.\"}".to_string();
    assert_eq!(done(after_reply(&req, LlmReply::Content(reply), "t", "u")), Some("Hello there.".to_string()));
}

#[test]
fn structured_reply_without_member_is_used_raw() {
    assert_eq!(read_structured_reply("{\"text\":\"x\"}"), "{\"text\":\"x\"}");
    assert_eq!(read_structured_reply("{\"transcription\":5}"), "{\"transcription\":5}");
}

#[test]
fn malformed_structured_reply_is_used_raw() {
    assert_eq!(read_structured_reply("not json\u{200D}"), "not json");
}

#[test]
fn structured_text_prefers_member() {
    assert_eq!(structured_reply_text("raw", Some("me\u{200C}mber")), "member");
    assert_eq!(structured_reply_text("r\u{200C}aw", None), "raw");
}

#[test]
fn token_budget_follows_integer_syntax() {
    let budget = |model: &str| match first_step(&settings("apple_intelligence", true, model, "P ${output}"), "t", true) {
        LadderStep::Send(LlmRequest::OnDevice { token_limit, .. }) => token_limit,
        other => panic!("unexpected {:?}", other),
    };
    assert_eq!(budget("-5"), -5);
    assert_eq!(budget("+7"), 7);
    assert_eq!(budget("2147483647"), 2147483647);
    assert_eq!(budget("2147483648"), 0);
    assert_eq!(budget("12a"), 0);
    assert_eq!(budget("+"), 0);
}

#[test]
fn on_device_provider_never_goes_remote() {
    let s = settings("apple_intelligence", false, "256", "Clean: ${output}");
    match first_step(&s, "hello", true) {
        LadderStep::Send(LlmRequest::OnDevice { token_limit, .. }) => assert_eq!(token_limit, 256),
        other => panic!("unexpected {:?}", other),
    }
    assert_eq!(done(first_step(&s, "hello", false)), None);
}

#[test]
fn structured_member_with_invisible_characters_is_cleaned() {
    assert_eq!(
        read_structured_reply("{\"transcription\":\"\u{FEFF}a\u{200D}b\"}"),
        "ab"
    );
}
