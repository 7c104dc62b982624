use cn2en::{translation_from_reply, ChatReply, TranslateService};

#[test]
fn request_needs_api_key() {
    let svc = TranslateService::new();
    let err = svc.request_for("你好").unwrap_err();
    assert_eq!(err, "API key not configured");
}

#[test]
fn request_plan() {
    let mut svc = TranslateService::new();
    svc.set_api_key("sk-test".to_string());
    let plan = svc.request_for("你好").unwrap();
    assert_eq!(plan.url, "https://api.deepseek.com/v1/chat/completions");
    assert_eq!(plan.authorization, "Bearer sk-test");
    assert_eq!(plan.model, "deepseek-v4-flash");
    assert_eq!(plan.user_content, "你好");
    assert!(!plan.stream);
    assert!(plan.system_prompt.starts_with("You are a translator."));
    svc.set_model("deepseek-v4-pro".to_string());
    assert_eq!(svc.request_for("x").unwrap().model, "deepseek-v4-pro");
    svc.set_api_base_url("https://proxy.example/v1/chat/completions".to_string());
    assert_eq!(svc.request_for("x").unwrap().url, "https://proxy.example/v1/chat/completions");
    svc.set_api_key(String::new());
    assert!(svc.request_for("x").is_err());
}

#[test]
fn reply_first_choice_trimmed() {
    let r = translation_from_reply(ChatReply::Parsed {
        contents: vec!["  Hello, world \n".to_string(), "second".to_string()],
    });
    assert_eq!(r, Ok("Hello, world".to_string()));
}

#[test]
fn reply_errors() {
    assert_eq!(
        translation_from_reply(ChatReply::Parsed { contents: vec![] }),
        Err("Empty response".to_string())
    );
    assert_eq!(
        translation_from_reply(ChatReply::Cancelled),
        Err("Translation cancelled".to_string())
    );
    assert_eq!(
        translation_from_reply(ChatReply::RequestFailed { error: "timeout".to_string() }),
        Err("Request error: timeout".to_string())
    );
    assert_eq!(
        translation_from_reply(ChatReply::HttpError {
            status: "401 Unauthorized".to_string(),
            body: "{\"error\":\"bad key\"}".to_string(),
        }),
        Err("API error 401 Unauthorized: {\"error\":\"bad key\"}".to_string())
    );
    assert_eq!(
        translation_from_reply(ChatReply::Unparsable { error: "missing field".to_string() }),
        Err("Parse error: missing field".to_string())
    );
}
