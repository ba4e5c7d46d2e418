use lopdf::content::{Content, Operation};
use lopdf::{Dictionary, Document, Object, Stream};
use ai_gateway::tools::code_helper::{CodeHelperError, CodeHelperTool};
use ai_gateway::tools::file_reader::{FileReaderError, FileReaderTool, FileSource};
use ai_gateway::io_failure::IoErrorKind;
use ai_gateway::tools::homelab_api::{HomelabApiError, HomelabApiTool};
use ai_gateway::tools::pdf_book_loader::{PdfBookLoaderError, PdfBookLoaderTool};
use ai_gateway::tools::registry::ToolRegistry;
use ai_gateway::tools::shell_executor::{ShellExecutorError, ShellExecutorTool};
use ai_gateway::tools::web_search::{AfterSearx, SearchResult, SearchStart, WebSearchError, WebSearchTool};
use ai_gateway::tools::{Tool, ToolKind};
use ai_gateway::json::JsonValue;

#[test]
fn shell_accepts_allowed_command() {
    let (cmd, args) = ShellExecutorTool::parse_params("  echo hello   world ").unwrap();
    assert_eq!(cmd, "echo");
    assert_eq!(args, vec!["hello".to_string(), "world".to_string()]);
}

#[test]
fn shell_rejects_disallowed_command() {
    match ShellExecutorTool::parse_params("rm -rf /") {
        Err(ShellExecutorError::DisallowedCommand(c)) => assert_eq!(c, "rm"),
        other => panic!("unexpected {:?}", other),
    }
}

#[test]
fn shell_rejects_missing_command() {
    match ShellExecutorTool::parse_params(" \t ") {
        Err(ShellExecutorError::Execution(m)) => assert_eq!(m, "missing command"),
        other => panic!("unexpected {:?}", other),
    }
}

#[test]
fn shell_rejects_unsafe_argument() {
    for bad in ["echo a;b", "echo /etc/passwd", "echo $HOME", "echo `id`", "echo a|b", "echo a>b"] {
        match ShellExecutorTool::parse_params(bad) {
            Err(ShellExecutorError::Execution(m)) => assert_eq!(m, "disallowed argument detected"),
            other => panic!("unexpected {:?} for {bad}", other),
        }
    }
    assert!(ShellExecutorTool::is_safe_arg("hello-world_1"));
    assert!(!ShellExecutorTool::is_safe_arg("it's"));
}

#[test]
fn shell_messages() {
    assert_eq!(
        ShellExecutorTool::render_outcome(Err(ShellExecutorError::Timeout)),
        "Error executing shell command: command timed out"
    );
    assert_eq!(
        ShellExecutorTool::render_outcome(Err(ShellExecutorError::DisallowedCommand("rm".into()))),
        "Error executing shell command: disallowed command: rm"
    );
    assert_eq!(ShellExecutorTool::command_report("out", "err"), "STDOUT:\nout\nSTDERR:\nerr");
    assert_eq!(
        ShellExecutorTool.execute("pwd"),
        "ShellExecutorTool should be invoked through async run_tool; params=pwd"
    );
}

#[test]
fn homelab_routes() {
    let (s, p) = HomelabApiTool::parse_params(" argocd sync_status my-app ").unwrap();
    assert_eq!((s.as_str(), p.as_str()), ("argocd", "/api/v1/applications/my-app"));
    let (s, p) = HomelabApiTool::parse_params("grafana health").unwrap();
    assert_eq!((s.as_str(), p.as_str()), ("grafana", "/api/health"));
    let (s, p) = HomelabApiTool::parse_params("/api/v2/status extra").unwrap();
    assert_eq!((s.as_str(), p.as_str()), ("generic", "/api/v2/status"));
}

#[test]
fn homelab_rejections() {
    let msg = |p: &str| match HomelabApiTool::parse_params(p) {
        Err(HomelabApiError::Configuration(m)) => m,
        other => panic!("unexpected {:?}", other),
    };
    assert_eq!(msg("argocd sync_status"), "argocd sync_status requires application name");
    assert_eq!(msg("argocd delete x"), "Unsupported argocd action, expected: argocd sync_status <app>");
    assert_eq!(msg("grafana"), "Unsupported grafana action, expected: grafana health");
    assert_eq!(msg(""), "Unsupported homelab endpoint. Use argocd sync_status <app> or grafana health");
    assert_eq!(msg("status"), "Unsupported homelab endpoint. Use argocd sync_status <app> or grafana health");
}

#[test]
fn homelab_urls_and_reports() {
    assert_eq!(HomelabApiTool::endpoint_url("http://lab//", "/api/health"), "http://lab/api/health");
    assert_eq!(HomelabApiTool::success_report("200 OK", "{}"), "Homelab API response (200 OK):\n{}");
    match HomelabApiTool::failure_error("http://lab/x", "404 Not Found", "nope") {
        HomelabApiError::Request(m) => assert_eq!(m, "http://lab/x returned status 404 Not Found: nope"),
        _ => panic!(),
    }
    assert_eq!(
        HomelabApiTool::render(Err(HomelabApiError::Configuration("AI_GATEWAY_HOMELAB_URL is required".into()))),
        "HomelabApiTool error: configuration error: AI_GATEWAY_HOMELAB_URL is required"
    );
}

#[test]
fn code_helper_params_and_prompt() {
    let (i, c) = CodeHelperTool::parse_params(" add tests \n\n fn f() {} \n");
    assert_eq!((i.as_str(), c.as_str()), ("add tests", "fn f() {}"));
    let (i, c) = CodeHelperTool::parse_params("  write a parser ");
    assert_eq!((i.as_str(), c.as_str()), ("write a parser", ""));
    assert_eq!(
        CodeHelperTool::build_prompt("write a parser", ""),
        "You are a helpful code assistant.\n\nInstruction: write a parser\n\nProvide a code-focused response with the generated or refactored code and a short explanation."
    );
    assert_eq!(
        CodeHelperTool::build_prompt("fix", "x"),
        "You are a helpful code assistant.\n\nInstruction: fix\n\nOriginal code:\nx\n\nGenerate or refactor the code as requested and return the updated code with a short explanation."
    );
    assert_eq!(CodeHelperTool::render(Ok("done".into())), "CodeHelperTool result:\ndone");
    assert_eq!(
        CodeHelperTool::render(Err(CodeHelperError::Request("timeout".into()))),
        "CodeHelperTool error: request failed: timeout"
    );
}

#[test]
fn registry_default_order_and_lookup() {
    let registry = ToolRegistry::default();
    assert_eq!(
        registry.names(),
        vec!["file_reader", "pdf_book_loader", "shell_executor", "web_search", "code_helper", "memory_recall", "homelab_api"]
    );
    assert_eq!(registry.get("web_search"), Some(ToolKind::WebSearch));
    assert_eq!(registry.get("nope"), None);
}

#[test]
fn registry_builder_keeps_order_and_first_wins() {
    let registry = ToolRegistry::builder()
        .add(ai_gateway::tools::web_search::WebSearchTool)
        .add(ai_gateway::tools::memory_recall::MemoryRecallTool)
        .add(ai_gateway::tools::web_search::WebSearchTool)
        .build();
    assert_eq!(registry.names(), vec!["web_search", "memory_recall", "web_search"]);
    assert_eq!(registry.get("memory_recall"), Some(ToolKind::MemoryRecall));
    assert_eq!(ToolRegistry::builder().build().names().len(), 0);
    assert_eq!(ai_gateway::tools::shell_executor::ShellExecutorTool.name(), "shell_executor");
}

fn s(x: &str) -> JsonValue {
    JsonValue::Str(x.to_string())
}

fn obj(members: Vec<(&str, JsonValue)>) -> JsonValue {
    JsonValue::Object(members.into_iter().map(|(k, v)| (k.to_string(), v)).collect())
}

#[test]
fn searx_results_are_read_with_defaults() {
    let doc = obj(vec![(
        "results",
        JsonValue::Array(vec![
            obj(vec![("title", s("Rust")), ("url", s("https://rust-lang.org")), ("content", s("A language"))]),
            obj(vec![("title", JsonValue::Number("3".into()))]),
        ]),
    )]);
    let results = WebSearchTool::searx_results_from(Ok(doc)).unwrap();
    assert_eq!(results.len(), 2);
    assert_eq!(results[0].title, "Rust");
    assert_eq!(results[1].title, "(no title)");
    assert_eq!(results[1].url, "(no url)");
    assert_eq!(results[1].snippet, "(no summary)");
    match WebSearchTool::searx_results_from(Ok(obj(vec![]))) {
        Err(WebSearchError::Parse(m)) => assert_eq!(m, "missing results array"),
        _ => panic!(),
    }
}

#[test]
fn duckduckgo_results_flatten_topics() {
    let doc = obj(vec![(
        "RelatedTopics",
        JsonValue::Array(vec![
            obj(vec![("Text", s("A")), ("FirstURL", s("https://a"))]),
            obj(vec![("Topics", JsonValue::Array(vec![obj(vec![("Text", s("B"))]), obj(vec![])]))]),
            JsonValue::Null,
        ]),
    )]);
    let results = WebSearchTool::duckduckgo_results_from(Ok(doc)).unwrap();
    assert_eq!(results.len(), 2);
    assert_eq!((results[0].title.as_str(), results[0].url.as_str(), results[0].snippet.as_str()), ("A", "https://a", "A"));
    assert_eq!((results[1].title.as_str(), results[1].url.as_str()), ("B", "(no url)"));
    match WebSearchTool::duckduckgo_results_from(Err("EOF while parsing".into())) {
        Err(WebSearchError::Parse(m)) => assert_eq!(m, "EOF while parsing"),
        _ => panic!(),
    }
}

fn hit(i: usize) -> SearchResult {
    SearchResult { title: format!("t{i}"), url: format!("u{i}"), snippet: format!("s{i}") }
}

#[test]
fn search_report_shows_five() {
    let results: Vec<SearchResult> = (1..=7).map(hit).collect();
    let out = WebSearchTool::format_results("SearxNG", "q", &results);
    assert!(out.starts_with("Search results from SearxNG for query: 'q':\n\n1. Title: t1\n   URL: u1\n   Summary: s1\n\n"));
    assert!(out.contains("5. Title: t5"));
    assert!(!out.contains("6. Title"));
    assert_eq!(
        WebSearchTool::format_results("DuckDuckGo", "q", &[]),
        "No search results returned from DuckDuckGo for query: 'q'"
    );
}

#[test]
fn search_engine_fallbacks() {
    assert!(matches!(WebSearchTool::start("   "), SearchStart::Answer(ref a) if a == "Usage: web_search <query>"));
    assert!(matches!(WebSearchTool::start(" rust "), SearchStart::AskSearx(ref q) if q == "rust"));
    assert!(matches!(WebSearchTool::after_searx("q", Ok(vec![])), AfterSearx::AskDuckDuckGo { searx_failed: false }));
    assert!(matches!(
        WebSearchTool::after_searx("q", Err(WebSearchError::Request("down".into()))),
        AfterSearx::AskDuckDuckGo { searx_failed: true }
    ));
    assert_eq!(
        WebSearchTool::after_duckduckgo("q", true, Err(WebSearchError::Request("down".into()))),
        "Search unavailable: request failed: down"
    );
    assert_eq!(
        WebSearchTool::after_duckduckgo("q", false, Err(WebSearchError::Parse("bad".into()))),
        "No search results available: result parse failed: bad"
    );
}

#[test]
fn search_urls_are_percent_encoded() {
    assert_eq!(
        WebSearchTool::searx_url("http://localhost:8888", "rust async/await é"),
        "http://localhost:8888/search.json?q=rust%20async%2Fawait%20%C3%A9&format=json"
    );
    assert_eq!(
        WebSearchTool::duckduckgo_url("a-b_c.d~e"),
        "https://api.duckduckgo.com/?q=a-b_c.d~e&format=json&no_redirect=1&skip_disambig=1"
    );
}

#[test]
fn file_reader_classifies_by_extension() {
    assert!(matches!(FileReaderTool::classify("notes/readme.md"), FileSource::Text));
    assert!(matches!(FileReaderTool::classify("a.txt"), FileSource::Text));
    assert!(matches!(FileReaderTool::classify("book.pdf"), FileSource::Pdf));
    assert!(matches!(FileReaderTool::classify("image.PNG"), FileSource::Unsupported(ref e) if e == "PNG"));
    assert!(matches!(FileReaderTool::classify("Makefile"), FileSource::Unsupported(ref e) if e == "none"));
    assert_eq!(
        FileReaderTool::render(Err(FileReaderError::UnsupportedExtension("PNG".into()))),
        "Error reading file: unsupported file extension: PNG"
    );
}

#[test]
fn pdf_pages_are_joined() {
    let pages = vec![Some("one".to_string()), None, Some(String::new()), Some("two".to_string())];
    assert_eq!(FileReaderTool::join_page_texts(&pages), "one\ntwo\n");
    assert!(FileReaderTool::pdf_text_of(b"not a pdf").is_err());
}

#[test]
fn book_loader_report() {
    assert!(PdfBookLoaderTool::is_book_file("dir/Book.PDF"));
    assert!(!PdfBookLoaderTool::is_book_file("dir/image.png"));
    assert!(matches!(PdfBookLoaderTool::classify("x/Notes.MD"), FileSource::Text));
    assert_eq!(PdfBookLoaderTool::display_name("x/y/Notes.MD"), "Notes.MD");
    let files = vec![
        ("a.md".to_string(), Ok("alpha".to_string())),
        ("b.pdf".to_string(), Err(PdfBookLoaderError::PdfExtraction("broken".into()))),
    ];
    assert_eq!(
        PdfBookLoaderTool::report(&files),
        "=== a.md ===\nalpha\n\n=== b.pdf ===\nError: PDF extraction error: broken\n\n"
    );
    assert_eq!(PdfBookLoaderTool::report(&vec![]), "No supported files found in path.");
    assert_eq!(
        PdfBookLoaderTool::render(Err(PdfBookLoaderTool::not_found("/nope"))),
        "Error loading books: I/O error: path not found: /nope"
    );
}

#[test]
fn homelab_endpoint_outcomes() {
    match HomelabApiTool::endpoint_outcome("http://lab/api/health", 200, "200 OK", "{\"database\":\"ok\"}") {
        Ok(out) => assert_eq!(out, "Homelab API response (200 OK):\n{\n  \"database\": \"ok\"\n}"),
        Err(e) => panic!("unexpected {:?}", e),
    }
    match HomelabApiTool::endpoint_outcome("http://lab/x", 204, "204 No Content", "not json") {
        Ok(out) => assert_eq!(out, "Homelab API response (204 No Content):\nnot json"),
        Err(e) => panic!("unexpected {:?}", e),
    }
    match HomelabApiTool::endpoint_outcome("http://lab/x", 404, "404 Not Found", "{\"a\":1}") {
        Err(HomelabApiError::Request(m)) => assert_eq!(m, "http://lab/x returned status 404 Not Found: {\"a\":1}"),
        other => panic!("unexpected {:?}", other),
    }
    match HomelabApiTool::endpoint_outcome("http://lab/x", 199, "199", "b") {
        Err(HomelabApiError::Request(m)) => assert_eq!(m, "http://lab/x returned status 199: b"),
        other => panic!("unexpected {:?}", other),
    }
    match HomelabApiTool::outcome_with("u", 299, "299", "raw", Some("pretty".into())) {
        Ok(out) => assert_eq!(out, "Homelab API response (299):\npretty"),
        other => panic!("unexpected {:?}", other),
    }
    match HomelabApiTool::outcome_with("u", 300, "300", "raw", Some("pretty".into())) {
        Err(HomelabApiError::Request(m)) => assert_eq!(m, "u returned status 300: raw"),
        other => panic!("unexpected {:?}", other),
    }
}

#[test]
fn homelab_routes_start_with_a_slash() {
    for params in ["argocd sync_status app", "grafana health", "/x/y z", " /only "] {
        let (service, path) = HomelabApiTool::parse_params(params).unwrap();
        assert!(["argocd", "grafana", "generic"].contains(&service.as_str()));
        assert!(path.starts_with('/'));
    }
    assert_eq!(HomelabApiTool::parse_params(" /only ").unwrap().1, "/only");
}

#[test]
fn search_bodies_are_read_as_json() {
    let body = r#"{"results":[{"title":"Rust","url":"https://rust-lang.org","content":"A language"},{"title":3}]}"#;
    let results = WebSearchTool::parse_searx_results(body).unwrap();
    assert_eq!(results.len(), 2);
    assert_eq!((results[0].title.as_str(), results[0].url.as_str(), results[0].snippet.as_str()), ("Rust", "https://rust-lang.org", "A language"));
    assert_eq!(results[1].title, "(no title)");
    match WebSearchTool::parse_searx_results(r#"{"answers":[]}"#) {
        Err(WebSearchError::Parse(m)) => assert_eq!(m, "missing results array"),
        other => panic!("unexpected {:?}", other.map(|r| r.len())),
    }
    match WebSearchTool::parse_searx_results("not json") {
        Err(WebSearchError::Parse(m)) => assert_eq!(m, "expected ident at line 1 column 2"),
        other => panic!("unexpected {:?}", other.map(|r| r.len())),
    }
    let body = r#"{"RelatedTopics":[{"Text":"A","FirstURL":"https://a"},{"Topics":[{"Text":"B"},{}]},null]}"#;
    let results = WebSearchTool::parse_duckduckgo_results(body).unwrap();
    assert_eq!(results.len(), 2);
    assert_eq!((results[1].title.as_str(), results[1].url.as_str()), ("B", "(no url)"));
    match WebSearchTool::parse_duckduckgo_results(r#"{"Abstract":""}"#) {
        Err(WebSearchError::Parse(m)) => assert_eq!(m, "missing RelatedTopics array"),
        other => panic!("unexpected {:?}", other.map(|r| r.len())),
    }
    match WebSearchTool::parse_duckduckgo_results("") {
        Err(WebSearchError::Parse(m)) => assert_eq!(m, "EOF while parsing a value at line 1 column 0"),
        other => panic!("unexpected {:?}", other.map(|r| r.len())),
    }
}

#[test]
fn a_missing_book_path_is_not_found() {
    match PdfBookLoaderTool::not_found("") {
        PdfBookLoaderError::Io(f) => {
            assert_eq!(f.kind, IoErrorKind::NotFound);
            assert_eq!(f.message, "path not found: ");
        }
        other => panic!("unexpected {:?}", other),
    }
}

#[test]
fn paths_sort_by_their_components() {
    let paths: Vec<String> = vec!["books/b.md", "books/a.txt", "books.md", "books/sub/c.pdf", "/abs/x", "books/a.txt"]
        .into_iter()
        .map(String::from)
        .collect();
    let order = ai_gateway::paths::sorted_path_order(&paths);
    let sorted: Vec<&str> = order.iter().map(|&i| paths[i].as_str()).collect();
    let mut expected: Vec<std::path::PathBuf> = paths.iter().map(std::path::PathBuf::from).collect();
    expected.sort();
    let expected: Vec<String> = expected.iter().map(|p| p.to_string_lossy().into_owned()).collect();
    assert_eq!(sorted, expected);
    assert_eq!(sorted, vec!["/abs/x", "books/a.txt", "books/a.txt", "books/b.md", "books/sub/c.pdf", "books.md"]);
    assert_eq!(order[1], 1);
    assert_eq!(order[2], 5);
}

fn one_page_pdf(text: &str) -> Vec<u8> {
    let mut doc = Document::with_version("1.5");
    let pages_id = doc.new_object_id();
    let mut font = Dictionary::new();
    font.set("Type", "Font");
    font.set("Subtype", "Type1");
    font.set("BaseFont", "Courier");
    let font_id = doc.add_object(font);
    let mut fonts = Dictionary::new();
    fonts.set("F1", font_id);
    let mut resources = Dictionary::new();
    resources.set("Font", fonts);
    let resources_id = doc.add_object(resources);
    let content = Content {
        operations: vec![
            Operation::new("BT", vec![]),
            Operation::new("Tf", vec!["F1".into(), 24.into()]),
            Operation::new("Td", vec![100.into(), 600.into()]),
            Operation::new("Tj", vec![Object::string_literal(text)]),
            Operation::new("ET", vec![]),
        ],
    };
    let content_id = doc.add_object(Stream::new(Dictionary::new(), content.encode().unwrap()));
    let mut page = Dictionary::new();
    page.set("Type", "Page");
    page.set("Parent", pages_id);
    page.set("Contents", content_id);
    let page_id = doc.add_object(page);
    let mut pages = Dictionary::new();
    pages.set("Type", "Pages");
    pages.set("Kids", vec![Object::from(page_id)]);
    pages.set("Count", 1);
    pages.set("Resources", resources_id);
    pages.set("MediaBox", vec![Object::from(0), Object::from(0), Object::from(595), Object::from(842)]);
    doc.objects.insert(pages_id, Object::Dictionary(pages));
    let mut catalog = Dictionary::new();
    catalog.set("Type", "Catalog");
    catalog.set("Pages", pages_id);
    let catalog_id = doc.add_object(catalog);
    doc.trailer.set("Root", catalog_id);
    let mut bytes = Vec::new();
    doc.save_to(&mut bytes).unwrap();
    bytes
}

#[test]
fn pdf_text_is_extracted_page_by_page() {
    let text = FileReaderTool::pdf_text_of(&one_page_pdf("Hello PDF")).expect("the PDF loads");
    assert!(text.contains("Hello PDF"), "got {:?}", text);
    assert!(text.ends_with('\n'));
    assert!(FileReaderTool::pdf_text_of(b"").is_err());
}
