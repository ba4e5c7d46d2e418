use std::io::Write;
use ai_gateway::agent::{AgentAction, AgentCommand, AgentEvent, AgentLoop};
use ai_gateway::auth::{JwtAuthLayer, TokenFailure};
use ai_gateway::json::JsonValue;
use ai_gateway::chat::{ChatCommand, ChatEvent, ChatFlow};
use ai_gateway::config::{self, Config, QueueBackend, StorageBackend};
use ai_gateway::encryption::{AgeEncryption, EncryptionError};
use ai_gateway::io_failure::{IoErrorKind, IoFailure};
use ai_gateway::policy::{PolicyEnforcer, UserContext};
use ai_gateway::queue::QueueError;
use ai_gateway::rate_limit::RateLimitState;
use ai_gateway::storage::{self, ConversationRecord};
use ai_gateway::policy::PolicyError;
use ai_gateway::tools::code_helper::CodeHelperError;
use ai_gateway::tools::file_reader::FileReaderError;
use ai_gateway::tools::memory_recall::MemoryRecallError;
use ai_gateway::tools::{decide_tool_request, execute_tool, ToolExecutionError};

const TOOLS_POLICY: &str = r#"
package tools

default allow := false

allow if {
    input.user.role == "admin"
}

allow if {
    input.tool != "shell"
}
"#;

#[test]
fn shell_only_allowed_for_admins() {
    let mut enforcer =
        PolicyEnforcer::load_policy_source("policies/tools.rego", TOOLS_POLICY).expect("failed to load policy");

    let admin = UserContext { username: "admin_user".into(), role: "admin".into() };
    let developer = UserContext { username: "dev_user".into(), role: "developer".into() };

    assert!(enforcer.allow_tool("shell", &admin).expect("policy evaluation failed"));
    assert!(!enforcer.allow_tool("shell", &developer).expect("policy evaluation failed"));
    assert!(enforcer.allow_tool("file_reader", &developer).expect("policy evaluation failed"));
}

#[test]
fn execute_tool_reports_denial() {
    let mut enforcer = PolicyEnforcer::load_policy_source("tools.rego", TOOLS_POLICY).unwrap();
    let developer = UserContext { username: "dev".into(), role: "developer".into() };
    match execute_tool("shell", &developer, &mut enforcer) {
        Err(ToolExecutionError::PolicyDenied(m)) => {
            assert_eq!(m, "tool 'shell' not allowed for user role 'developer'")
        }
        _ => panic!("expected denial"),
    }
    assert_eq!(execute_tool("web_search", &developer, &mut enforcer).unwrap(), "Executed tool: web_search");
}

#[test]
fn bad_policy_is_a_load_error() {
    assert!(matches!(
        PolicyEnforcer::load_policy_source("bad.rego", "this is not rego {"),
        Err(PolicyError::Load(_))
    ));
}

#[test]
fn policy_input_is_json_escaped() {
    let user = UserContext { username: "a\"b".into(), role: "r\n".into() };
    assert_eq!(
        PolicyEnforcer::request_input("sh\\ell", &user),
        "{\"tool\":\"sh\\\\ell\",\"user\":{\"name\":\"a\\\"b\",\"role\":\"r\\n\"}}"
    );
    let user = UserContext { username: "x".into(), role: "\u{1}".into() };
    assert_eq!(
        PolicyEnforcer::request_input("t", &user),
        "{\"tool\":\"t\",\"user\":{\"name\":\"x\",\"role\":\"\\u0001\"}}"
    );
    let parsed: serde_json::Value = serde_json::from_str(&PolicyEnforcer::request_input("t", &user)).unwrap();
    assert_eq!(parsed.to_string(), PolicyEnforcer::request_input("t", &user));
}

#[test]
fn encryption_without_key_is_identity() {
    let plain = AgeEncryption::new(None);
    assert_eq!(plain.encrypt("hello").unwrap(), "hello");
    assert_eq!(plain.decrypt("hello").unwrap(), "hello");
    let empty = AgeEncryption::new(Some(String::new()));
    assert_eq!(empty.encrypt("hello").unwrap(), "hello");
}

#[test]
fn encryption_round_trip() {
    let enc = AgeEncryption::new(Some("correct horse".into()));
    let sealed = enc.encrypt("secret conversation").unwrap();
    assert!(sealed.starts_with("-----BEGIN AGE ENCRYPTED FILE-----"));
    assert!(sealed.trim_end().ends_with("-----END AGE ENCRYPTED FILE-----"));
    assert_ne!(sealed, "secret conversation");
    assert_eq!(enc.decrypt(&sealed).unwrap(), "secret conversation");
}

#[test]
fn decrypting_a_file_needs_the_key() {
    let enc = AgeEncryption::new(Some("k".into()));
    let sealed = enc.encrypt("x").unwrap();
    assert!(matches!(AgeEncryption::new(None).decrypt(&sealed), Err(EncryptionError::MissingKey)));
    assert!(AgeEncryption::new(Some("other".into())).decrypt(&sealed).is_err());
    assert_eq!(EncryptionError::MissingKey.message(), "missing encryption key");
}

#[test]
fn chat_flow_cache_hit() {
    let (mut flow, cmd) = ChatFlow::start("hello", true, true);
    match cmd {
        ChatCommand::CacheGet(k) => assert_eq!(k, "chat:hello"),
        _ => panic!(),
    }
    match flow.step(ChatEvent::CacheLooked(Some("hi there".into()))) {
        ChatCommand::Reply(r) => assert_eq!(r, "Cached response: hi there"),
        _ => panic!(),
    }
    assert!(flow.is_done());
}

#[test]
fn chat_flow_through_queue_stores_and_caches() {
    let (mut flow, _) = ChatFlow::start("task", true, true);
    assert!(matches!(flow.step(ChatEvent::CacheLooked(None)), ChatCommand::Enqueue(ref t) if t == "task"));
    assert!(matches!(flow.step(ChatEvent::Enqueued(Ok(()))), ChatCommand::Dequeue));
    match flow.step(ChatEvent::Dequeued(Ok(Some("task".into())))) {
        ChatCommand::RunAgent(t) => assert_eq!(t, "task"),
        _ => panic!(),
    }
    let notes = vec!["Thinking: step 1 started".to_string(), "Final answer: done".to_string()];
    assert!(flow.accepts_event(&ChatEvent::AgentRan(vec![])));
    assert!(!flow.accepts_event(&ChatEvent::Saved));
    match flow.step(ChatEvent::AgentRan(notes)) {
        ChatCommand::Save { user_message, response } => {
            assert_eq!(user_message, "task");
            assert_eq!(response, "Thinking: step 1 started\nFinal answer: done");
        }
        _ => panic!(),
    }
    match flow.step(ChatEvent::Saved) {
        ChatCommand::CacheSet { key, value, ttl_seconds } => {
            assert_eq!(key, "chat:task");
            assert_eq!(value, "Thinking: step 1 started\nFinal answer: done");
            assert_eq!(ttl_seconds, 60);
        }
        _ => panic!(),
    }
    match flow.step(ChatEvent::CacheStored) {
        ChatCommand::Reply(r) => assert_eq!(r, "Thinking: step 1 started\nFinal answer: done"),
        _ => panic!(),
    }
}

#[test]
fn chat_runs_the_agent_on_the_queued_task() {
    let (mut flow, cmd) = ChatFlow::start("Run the full agent flow", false, false);
    assert!(matches!(cmd, ChatCommand::Enqueue(_)));
    assert!(matches!(flow.step(ChatEvent::Enqueued(Ok(()))), ChatCommand::Dequeue));
    let task = match flow.step(ChatEvent::Dequeued(Ok(Some("Run the full agent flow".into())))) {
        ChatCommand::RunAgent(t) => t,
        _ => panic!("expected the agent to run"),
    };
    let (mut run, mut step) = AgentLoop::start(&task);
    let mut notes = Vec::new();
    let mut replies = vec![
        AgentEvent::Reply(Ok(AgentAction::ToolCall { tool_name: "shell".into(), tool_input: "echo end_to_end".into() })),
        AgentEvent::ToolOutput("tool not found: shell".into()),
        AgentEvent::Reply(Ok(AgentAction::FinalAnswer("integration complete".into()))),
    ]
    .into_iter();
    loop {
        notes.extend(step.notes.iter().cloned());
        if matches!(step.command, AgentCommand::Finish(_)) {
            break;
        }
        step = run.step(replies.next().expect("the agent asked for more than the model gave"));
    }
    match flow.step(ChatEvent::AgentRan(notes)) {
        ChatCommand::Reply(r) => {
            assert!(r.contains("Tool result: shell =>"));
            assert!(r.contains("Final answer: integration complete"));
        }
        _ => panic!("expected the reply"),
    }
    assert!(flow.is_done());
}

#[test]
fn chat_joins_agent_notes() {
    assert_eq!(ai_gateway::chat::join_lines_exec(&vec![]), "");
    assert_eq!(ai_gateway::chat::join_lines_exec(&vec!["a".to_string()]), "a");
    assert_eq!(ai_gateway::chat::join_lines_exec(&vec!["a".to_string(), "b".to_string(), "".to_string()]), "a\nb\n");
}

#[test]
fn chat_flow_queue_errors_without_cache_or_storage() {
    let (mut flow, cmd) = ChatFlow::start("m", false, false);
    assert!(matches!(cmd, ChatCommand::Enqueue(_)));
    match flow.step(ChatEvent::Enqueued(Err(QueueError::ChannelClosed))) {
        ChatCommand::Reply(r) => assert_eq!(r, "Queue error: queue channel closed"),
        _ => panic!(),
    }
    let (mut flow, _) = ChatFlow::start("m", false, false);
    flow.step(ChatEvent::Enqueued(Ok(())));
    match flow.step(ChatEvent::Dequeued(Ok(None))) {
        ChatCommand::Reply(r) => assert_eq!(r, "Queued task but no task was received: m"),
        _ => panic!(),
    }
}

#[test]
fn bearer_tokens() {
    assert_eq!(JwtAuthLayer::bearer_token(Some("Bearer  abc.def ")), Some("abc.def".to_string()));
    assert_eq!(JwtAuthLayer::bearer_token(Some("Bearer    ")), None);
    assert_eq!(JwtAuthLayer::bearer_token(Some("Basic abc")), None);
    assert_eq!(JwtAuthLayer::bearer_token(None), None);
    assert_eq!(JwtAuthLayer::rejection_message(None), "Missing or invalid Authorization header");
    assert_eq!(JwtAuthLayer::rejection_message(Some(TokenFailure::Expired)), "Token expired");
    assert_eq!(JwtAuthLayer::rejection_message(Some(TokenFailure::Invalid)), "Invalid token");
    assert_eq!(JwtAuthLayer::unauthorized_body("Token expired"), "{\"error\":\"Token expired\"}");
    assert_eq!(JwtAuthLayer::new("s3".into()).secret(), "s3");
}

#[test]
fn rate_limit_decisions() {
    let state = RateLimitState::new(2, 60);
    let d1 = state.decide(1);
    assert!(d1.set_expiry && d1.allowed);
    let d2 = state.decide(2);
    assert!(!d2.set_expiry && d2.allowed);
    assert!(!state.decide(3).allowed);
    assert!(state.allows(Err("redis down".into())));
    assert_eq!(RateLimitState::client_identifier(Some(" 10.0.0.1 , 10.0.0.2")), "10.0.0.1");
    assert_eq!(RateLimitState::client_identifier(Some("192.168.1.1")), "192.168.1.1");
    assert_eq!(RateLimitState::client_identifier(None), "unknown");
    assert_eq!(RateLimitState::key_for("1.2.3.4"), "rate_limit:1.2.3.4");
}

#[test]
fn config_defaults() {
    assert_eq!(config::default_port(), 8080);
    assert_eq!(config::default_database_url(), "sqlite:ai_gateway.db");
    assert_eq!(config::default_storage_backend(), StorageBackend::Sqlite);
    assert_eq!(config::default_queue_backend(), QueueBackend::InMemory);
    assert_eq!(config::default_string(), "");
    assert_eq!(config::default_log_level(), "info");
    assert_eq!(config::default_rate_limit(), 100);
    assert_eq!(config::default_rate_limit_window(), 60);
    assert_eq!(config::default_encryption_key(), None);
    assert_eq!(Config::resolve_log_level(String::new(), Some("debug".into())), "debug");
    assert_eq!(Config::resolve_log_level(String::new(), None), "info");
    assert_eq!(Config::resolve_log_level("warn".into(), Some("debug".into())), "warn");
}

fn rec(u: &str, a: &str, t: &str) -> ConversationRecord {
    ConversationRecord { user_message: u.into(), assistant_response: a.into(), created_at: t.into() }
}

#[test]
fn history_page_filters_case_insensitively_and_limits() {
    let mut rows = vec![rec("Payment ISSUE", "ok", "1"), rec("other", "nothing", "2")];
    for i in 0..10 {
        rows.push(rec("x", &format!("payment issue {i}"), "3"));
    }
    let page = storage::history_page_exec(rows, "payment issue");
    assert_eq!(page.len(), 8);
    assert_eq!(page[0].user_message, "Payment ISSUE");
    assert_eq!(page[1].assistant_response, "payment issue 0");
    let all = storage::history_page_exec(vec![rec("a", "b", "1"), rec("c", "d", "2")], "");
    assert_eq!(all.len(), 2);
}

#[test]
fn storage_queries() {
    assert_eq!(
        storage::postgres_history_query_exec(true),
        "SELECT user_message, assistant_response, created_at::text AS created_at FROM conversations WHERE created_at >= $1 ORDER BY created_at DESC"
    );
    assert_eq!(
        storage::sqlite_history_query_exec(false),
        "SELECT user_message, assistant_response, created_at FROM conversations WHERE (user_message LIKE ?1 OR assistant_response LIKE ?1) ORDER BY created_at DESC LIMIT 8"
    );
    assert_eq!(storage::sqlite_search_pattern("abc"), "%abc%");
}

#[test]
fn stored_history_is_decrypted() {
    let enc = AgeEncryption::new(Some("pw".into()));
    let (u, a) = storage::encrypt_exchange(&enc, "hello", "world").unwrap();
    let page = storage::select_history(&enc, vec![rec(&u, &a, "t"), rec("plain", "text", "t2")], "WORLD").unwrap();
    assert_eq!(page.len(), 1);
    assert_eq!(page[0].user_message, "hello");
    assert_eq!(page[0].assistant_response, "world");
}

#[test]
fn error_messages() {
    assert_eq!(QueueError::Lapin("closed".into()).message(), "RabbitMQ error: closed");
    assert_eq!(QueueError::MissingUrl.message(), "missing RabbitMQ URL");
    assert_eq!(
        storage::StorageError::AlreadyInitialized.message(),
        "storage backend already initialized"
    );
    assert_eq!(
        PolicyError::Eval("x".into()).message(),
        "Policy evaluation error: x"
    );
}

#[test]
fn more_error_messages() {
    assert_eq!(CodeHelperError::Parse("bad".into()).message(), "parse failed: bad");
    assert_eq!(MemoryRecallError::Parse("bad".into()).message(), "parse failed: bad");
    assert_eq!(FileReaderError::Io(IoFailure::new(IoErrorKind::PermissionDenied, "denied".into())).message(), "I/O error: denied");
    assert_eq!(FileReaderError::PdfExtraction("broken".into()).message(), "PDF extraction error: broken");
    assert_eq!(storage::StorageError::Database("gone".into()).message(), "storage error: gone");
    assert_eq!(storage::StorageError::Encryption("x".into()).message(), "storage encryption error: x");
    assert_eq!(EncryptionError::Utf8("bad byte".into()).message(), "UTF-8 error: bad byte");
    assert_eq!(EncryptionError::Decrypt("no match".into()).message(), "age encryption error: no match");
}

#[test]
fn tool_request_decisions() {
    let user = UserContext { username: "u".into(), role: "guest".into() };
    assert_eq!(decide_tool_request("web_search", &user, Ok(true)).unwrap(), "Executed tool: web_search");
    match decide_tool_request("shell", &user, Ok(false)) {
        Err(ToolExecutionError::PolicyDenied(m)) => assert_eq!(m, "tool 'shell' not allowed for user role 'guest'"),
        _ => panic!(),
    }
    match decide_tool_request("shell", &user, Err(PolicyError::Eval("bad input".into()))) {
        Err(ToolExecutionError::PolicyError(PolicyError::Eval(m))) => assert_eq!(m, "bad input"),
        _ => panic!(),
    }
}

#[test]
fn wrong_passphrase_does_not_decrypt() {
    let sealed = AgeEncryption::new(Some("right".into())).encrypt("x").unwrap();
    match AgeEncryption::new(Some("wrong".into())).decrypt(&sealed) {
        Err(EncryptionError::Decrypt(_)) => {}
        other => panic!("unexpected {:?}", other),
    }
}

#[test]
fn authenticated_chat_reply() {
    assert_eq!(ai_gateway::chat::authenticated_reply("hi"), "Authenticated agent response to: hi");
}

#[test]
fn a_file_sealed_to_recipients_has_no_passphrase() {
    let identity = age::x25519::Identity::generate();
    let recipient: Box<dyn age::Recipient + Send> = Box::new(identity.to_public());
    let mut file = Vec::new();
    {
        let armor = age::armor::ArmoredWriter::wrap_output(&mut file, age::armor::Format::AsciiArmor).unwrap();
        let mut writer = age::Encryptor::with_recipients(vec![recipient]).unwrap().wrap_output(armor).unwrap();
        writer.write_all(b"for keys only").unwrap();
        writer.finish().unwrap().finish().unwrap();
    }
    let text = String::from_utf8(file).unwrap();
    match AgeEncryption::new(Some("any passphrase".into())).decrypt(&text) {
        Err(EncryptionError::MissingKey) => {}
        other => panic!("unexpected {:?}", other),
    }
}

#[test]
fn a_broken_file_is_a_decrypt_error() {
    let text = "-----BEGIN AGE ENCRYPTED FILE-----\nnot an age file\n-----END AGE ENCRYPTED FILE-----\n";
    match AgeEncryption::new(Some("k".into())).decrypt(text) {
        Err(EncryptionError::Decrypt(_)) => {}
        other => panic!("unexpected {:?}", other),
    }
}

#[test]
fn plain_history_always_reads() {
    let enc = AgeEncryption::new(None);
    let (u, a) = storage::encrypt_exchange(&enc, "Deploy PAYMENT service", "done").unwrap();
    assert_eq!((u.as_str(), a.as_str()), ("Deploy PAYMENT service", "done"));
    let rows: Vec<ConversationRecord> = (0..10).map(|i| rec(&format!("q{i}"), "a", "t")).collect();
    let page = storage::select_history(&enc, rows, "").unwrap();
    assert_eq!(page.len(), 8);
    assert_eq!(page[0].user_message, "q0");
    assert_eq!(page[7].user_message, "q7");
    let page = storage::select_history(&enc, vec![rec(&u, &a, "t1"), rec("other", "x", "t2")], "payment").unwrap();
    assert_eq!(page.len(), 1);
    assert_eq!(page[0].user_message, "Deploy PAYMENT service");
}

#[test]
fn armored_history_without_key_fails_with_missing_key() {
    let sealed = AgeEncryption::new(Some("pw".into())).encrypt("secret").unwrap();
    let rows = vec![rec("plain", "text", "t1"), rec(&sealed, "reply", "t2")];
    match storage::select_history(&AgeEncryption::new(None), rows, "") {
        Err(storage::StorageError::Encryption(m)) => assert_eq!(m, "missing encryption key"),
        other => panic!("unexpected {:?}", other.map(|v| v.len())),
    }
}

#[test]
fn passphrase_encryption_always_succeeds() {
    let enc = AgeEncryption::new(Some("pw".into()));
    let (u, a) = storage::encrypt_exchange(&enc, "", "second").unwrap();
    assert!(u.starts_with("-----BEGIN AGE ENCRYPTED FILE-----"));
    assert!(a.trim_end().ends_with("-----END AGE ENCRYPTED FILE-----"));
}

fn token(claims: &str, secret: &str) -> String {
    let claims: serde_json::Value = serde_json::from_str(claims).unwrap();
    jsonwebtoken::encode(
        &jsonwebtoken::Header::default(),
        &claims,
        &jsonwebtoken::EncodingKey::from_secret(secret.as_bytes()),
    )
    .unwrap()
}

#[test]
fn requests_are_authenticated_by_their_bearer_token() {
    let layer = JwtAuthLayer::new("test_secret".into());
    let good = token(r#"{"sub":"alice","exp":4102444800}"#, "test_secret");
    let claims = layer.authenticate(Some(&format!("Bearer {good}"))).unwrap();
    assert_eq!((claims.sub.as_str(), claims.exp), ("alice", 4102444800));
    assert_eq!(layer.authenticate(None).unwrap_err(), "Missing or invalid Authorization header");
    assert_eq!(layer.authenticate(Some("Basic abc")).unwrap_err(), "Missing or invalid Authorization header");
    let expired = token(r#"{"sub":"alice","exp":1000}"#, "test_secret");
    assert_eq!(layer.authenticate(Some(&format!("Bearer {expired}"))).unwrap_err(), "Token expired");
    let other_key = token(r#"{"sub":"alice","exp":4102444800}"#, "another");
    assert_eq!(layer.authenticate(Some(&format!("Bearer {other_key}"))).unwrap_err(), "Invalid token");
    assert_eq!(layer.authenticate(Some("Bearer not.a.token")).unwrap_err(), "Invalid token");
}

#[test]
fn claims_must_have_the_right_shape() {
    let layer = JwtAuthLayer::new("s".into());
    for claims in [
        r#"{"sub":7,"exp":4102444800}"#,
        r#"{"sub":"bob","exp":4102444800.5}"#,
        r#"{"sub":"bob","exp":-1}"#,
        r#"{"exp":4102444800}"#,
        r#"{"sub":7,"exp":1000}"#,
    ] {
        let t = token(claims, "s");
        assert_eq!(layer.authenticate(Some(&format!("Bearer {t}"))).unwrap_err(), "Invalid token", "{claims}");
    }
    assert_eq!(layer.authenticate(Some(&format!("Bearer {}", token(r#"{"sub":"bob"}"#, "s")))).unwrap_err(), "Invalid token");
}

#[test]
fn auth_outcomes() {
    let doc = |sub: &str, exp: &str| {
        JsonValue::Object(vec![("sub".to_string(), JsonValue::Str(sub.into())), ("exp".to_string(), JsonValue::Number(exp.into()))])
    };
    let ok = JwtAuthLayer::auth_outcome(Some("t".into()), Some(doc("u", "42")), Ok(())).unwrap();
    assert_eq!((ok.sub.as_str(), ok.exp), ("u", 42));
    assert_eq!(JwtAuthLayer::auth_outcome(Some("t".into()), Some(doc("u", "42")), Err(TokenFailure::Expired)).unwrap_err(), "Token expired");
    assert_eq!(JwtAuthLayer::auth_outcome(Some("t".into()), Some(doc("u", "4.2")), Ok(())).unwrap_err(), "Invalid token");
    assert_eq!(JwtAuthLayer::auth_outcome(Some("t".into()), None, Ok(())).unwrap_err(), "Invalid token");
    assert_eq!(JwtAuthLayer::auth_outcome(None, Some(doc("u", "42")), Ok(())).unwrap_err(), "Missing or invalid Authorization header");
}

#[test]
fn decimal_numbers() {
    use_decimal("0", Some(0));
    use_decimal("18446744073709551615", Some(usize::MAX));
    use_decimal("18446744073709551616", None);
    use_decimal("", None);
    use_decimal("12a", None);
    use_decimal("-1", None);
}

fn use_decimal(s: &str, expected: Option<usize>) {
    assert_eq!(ai_gateway::text::parse_decimal_usize(s), expected, "{s}");
}

#[test]
fn an_age_payload_is_read_as_text() {
    assert_eq!(ai_gateway::encryption::open_payload(Ok(b"caf\xc3\xa9".to_vec())).unwrap(), "caf\u{e9}");
    assert!(matches!(ai_gateway::encryption::open_payload(Ok(vec![0xff])), Err(EncryptionError::Utf8(_))));
    assert!(matches!(
        ai_gateway::encryption::open_payload(Err(ai_gateway::encryption::AgeFailure::NotPassphrase)),
        Err(EncryptionError::MissingKey)
    ));
    match ai_gateway::encryption::open_payload(Err(ai_gateway::encryption::AgeFailure::Decrypt("bad".into()))) {
        Err(EncryptionError::Decrypt(m)) => assert_eq!(m, "bad"),
        other => panic!("unexpected {:?}", other),
    }
}
