use novaflow::chat::{
    build_history, ChatMessage, ChatRole, HistoryEntry, MessageContent, ModelType,
    StreamAccumulator,
};
use novaflow::cuda::{cuda_plan, str_contains, CudaAction};
use novaflow::images::{buffer_to_data_url, png_to_data_url, ImageFailure};
use novaflow::numfmt::u64_to_dec;
use novaflow::paths::get_database_path;
use novaflow::provider::LocalProvider;
use novaflow::records::Table;
use novaflow::routes::{generate_text, list_services_text, not_found_body};
use novaflow::schema::{
    conversation_schema_plan, user_schema_plan, FieldName, SchemaStatement,
};
use novaflow::state::AppState;
use novaflow::tools::{GetDateAndTime, OCRTool};

#[test]
fn decimal_rendering_exact_values() {
    assert_eq!(u64_to_dec(0), "0");
    assert_eq!(u64_to_dec(7), "7");
    assert_eq!(u64_to_dec(42), "42");
    assert_eq!(u64_to_dec(1000), "1000");
    assert_eq!(u64_to_dec(u64::MAX), "18446744073709551615");
}

#[test]
fn visit_counter_counts() {
    let mut state = AppState::new();
    assert_eq!(state.visit_count, 0);
    assert_eq!(state.record_visit(), "Visitor count: 1");
    assert_eq!(state.record_visit(), "Visitor count: 2");
    assert_eq!(state.visit_count, 2);
}

#[test]
fn database_path_is_under_the_data_directory() {
    assert_eq!(get_database_path("novaflow.db"), "~/novaflow/db/novaflow.db");
}

#[test]
fn not_found_response_body() {
    let body = not_found_body();
    assert_eq!(body.error, "404");
    assert_eq!(body.message, "Page Not Found");
    assert_eq!(generate_text(), "Welcome to the generate page");
    assert_eq!(list_services_text(), "list services");
}

#[test]
fn local_provider_canned_replies() {
    let p = LocalProvider;
    assert_eq!(p.generate_response(), "Local response");
    assert_eq!(p.generate_stream_chunk(), "Local stream response");
}

#[test]
fn tool_metadata() {
    let date = GetDateAndTime {};
    assert_eq!(date.name(), "Date");
    assert!(date.description().contains("date and time"));
    let stamp = date.run();
    assert!(stamp.len() > 0);
    let ocr = OCRTool {};
    assert_eq!(ocr.name(), "OCR");
    assert_eq!(ocr.run(), "OCR");
}

fn chat_msg(role: ChatRole, text: &str, image: Option<&str>) -> ChatMessage {
    ChatMessage {
        role,
        content: MessageContent { text: text.to_string(), image: image.map(|s| s.to_string()) },
    }
}

#[test]
fn history_for_text_model_ignores_images() {
    let messages = vec![
        chat_msg(ChatRole::System, "be helpful", None),
        chat_msg(ChatRole::User, "look at this", Some("imgdata")),
        chat_msg(ChatRole::Assistant, "sure", None),
    ];
    let history = build_history(&messages, ModelType::LLM);
    assert_eq!(history.len(), 3);
    assert!(matches!(&history[0], HistoryEntry::System { text } if text == "be helpful"));
    assert!(matches!(&history[1], HistoryEntry::Human { text } if text == "look at this"));
    assert!(matches!(&history[2], HistoryEntry::Ai { text } if text == "sure"));
}

#[test]
fn history_for_vision_model_carries_data_urls() {
    let messages = vec![chat_msg(ChatRole::User, "look at this", Some("imgdata"))];
    let history = build_history(&messages, ModelType::VLM);
    assert_eq!(history.len(), 2);
    assert!(matches!(&history[0], HistoryEntry::Human { text } if text == "look at this"));
    match &history[1] {
        HistoryEntry::HumanImages { urls } => {
            assert_eq!(urls, &vec!["data:image/jpeg;base64,imgdata".to_string()]);
        }
        other => panic!("expected an image entry, got {:?}", other),
    }
}

#[test]
fn stream_accumulator_collects_chunks() {
    let mut acc = StreamAccumulator::new();
    let first = acc.push_chunk("Hel");
    assert_eq!(first.response, "Hel");
    assert!(first.is_streaming);
    let second = acc.push_chunk("lo");
    assert_eq!(second.response, "lo");
    let done = acc.finish();
    assert_eq!(done.response, "Hello");
    assert!(!done.is_streaming);
    let usage = done.usage.unwrap();
    assert_eq!(usage.avg_prompt_tok_per_sec, 0);
    assert_eq!(usage.avg_compl_tok_per_sec, 0);
}

#[test]
fn base64_data_url_exact_values() {
    assert_eq!(png_to_data_url(&[1, 2, 3]), "data:image/png;base64,AQID");
    assert_eq!(png_to_data_url(&[]), "data:image/png;base64,");
    assert_eq!(png_to_data_url(b"Man"), "data:image/png;base64,TWFu");
}

#[test]
fn image_transcoding_round_trip() {
    let img = image::DynamicImage::new_rgb8(2, 2);
    let mut png_bytes: Vec<u8> = Vec::new();
    img.write_to(&mut std::io::Cursor::new(&mut png_bytes), image::ImageFormat::Png).unwrap();
    let url = buffer_to_data_url(&png_bytes).unwrap();
    assert!(url.starts_with("data:image/png;base64,"));
    assert!(url.len() > "data:image/png;base64,".len());
}

#[test]
fn undecodable_bytes_are_a_decode_failure() {
    assert_eq!(buffer_to_data_url(&[0, 1, 2, 3]), Err(ImageFailure::Decode));
}

#[test]
fn cuda_decision_table() {
    assert_eq!(cuda_plan("Ubuntu 22.04 LTS", ""), CudaAction::AptInstall);
    assert_eq!(cuda_plan("Pop!_OS 22.04", ""), CudaAction::AptInstall);
    assert_eq!(cuda_plan("fedora 39", ""), CudaAction::DnfInstall);
    assert_eq!(cuda_plan("Arch Linux", ""), CudaAction::Unknown);
    assert_eq!(cuda_plan("Ubuntu 22.04 LTS", "NVIDIA GeForce"), CudaAction::AlreadyInstalled);
}

#[test]
fn substring_search() {
    assert!(str_contains("Ubuntu 22.04", "Ubuntu"));
    assert!(str_contains("abc", ""));
    assert!(!str_contains("ab", "abc"));
    assert!(str_contains("xxabcxx", "abc"));
    assert!(!str_contains("xxabxcx", "abc"));
}

#[test]
fn open_file_goes_to_main_and_viewer_windows() {
    assert!(novaflow::commands::open_file_target("main"));
    assert!(novaflow::commands::open_file_target("file-viewer"));
    assert!(!novaflow::commands::open_file_target("splashscreen"));
}

#[test]
fn storage_engine_start_arguments() {
    let args = novaflow::commands::surreal_start_args("~/novaflow/db/novaflow.db", "secret");
    assert_eq!(
        args,
        vec![
            "start",
            "--bind",
            "127.0.0.1:8877",
            "--user",
            "root",
            "--pass",
            "secret",
            "--deny-guests",
            "--deny-scripting",
            "--deny-funcs",
            "--no-banner",
            "--log",
            "debug",
            "file:~/novaflow/db/novaflow.db",
        ]
    );
}

#[test]
fn schema_plans_follow_the_ordering_discipline() {
    let user_plan = user_schema_plan();
    assert_eq!(user_plan.len(), 9);
    assert!(matches!(
        user_plan[0],
        SchemaStatement::DefineTable { table: Table::User, strict: true }
    ));
    assert!(matches!(
        user_plan[8],
        SchemaStatement::DefineIndex { table: Table::User, field: FieldName::Username, unique: true }
    ));
    let conv_plan = conversation_schema_plan();
    assert_eq!(conv_plan.len(), 6);
    assert!(matches!(
        conv_plan[0],
        SchemaStatement::DefineTable { table: Table::Conversation, strict: true }
    ));
    assert!(!conv_plan.iter().any(|s| matches!(s, SchemaStatement::DefineIndex { .. })));
}
