use llama_cpp_2::openai::{
    ChatMessageDeltaOaicompat, ChatParseError, ChatParseStateOaicompat, NativeCall, NativeReply,
    NativeStatus, RecordedDiff, RecordedUpdate,
};

/// What a native parser does in one update.
struct Script {
    status: NativeStatus,
    diffs_null: bool,
    diffs: Vec<(NativeStatus, Option<Vec<u8>>)>,
}

/// Runs one update against a script; returns its calls and its result.
fn run(
    session: &mut ChatParseStateOaicompat,
    text: &str,
    is_partial: bool,
    script: &Script,
) -> (Vec<String>, Result<Vec<String>, ChatParseError>) {
    let mut calls: Vec<String> = Vec::new();
    let mut current: usize = 0;
    assert!(session.is_idle());
    let mut call = session.update(text, is_partial);
    loop {
        let reply = match call {
            NativeCall::Finished(result) => {
                assert!(session.is_idle());
                return (calls, result);
            }
            NativeCall::UpdateState { text, is_partial } => {
                calls.push(format!("update {:?} {}", text, is_partial));
                NativeReply::Updated {
                    status: script.status,
                    diffs_null: script.diffs_null,
                    diffs_count: script.diffs.len(),
                }
            }
            NativeCall::RenderDiff { index } => {
                calls.push(format!("render {}", index));
                current = index;
                NativeReply::Rendered {
                    status: script.diffs[index].0,
                    string_null: script.diffs[index].1.is_none(),
                }
            }
            NativeCall::CopyString => {
                calls.push("copy".to_string());
                NativeReply::Copied(script.diffs[current].1.clone().expect("a string"))
            }
            NativeCall::FreeString => {
                calls.push("free string".to_string());
                NativeReply::Freed
            }
            NativeCall::FreeMessage => {
                calls.push("free message".to_string());
                NativeReply::Freed
            }
            NativeCall::FreeDiffs => {
                calls.push("free diffs".to_string());
                NativeReply::Freed
            }
        };
        assert!(!session.is_idle());
        assert!(session.accepts(&reply));
        call = session.resume(reply);
    }
}

fn good(text: &str) -> (NativeStatus, Option<Vec<u8>>) {
    (NativeStatus::Success, Some(text.as_bytes().to_vec()))
}

fn accepted(diffs: Vec<(NativeStatus, Option<Vec<u8>>)>) -> Script {
    Script { status: NativeStatus::Success, diffs_null: false, diffs }
}

#[test]
fn update_collects_the_deltas_in_order() {
    let mut session = ChatParseStateOaicompat::new();
    let (calls, result) = run(
        &mut session,
        "hi",
        true,
        &accepted(vec![good("{\"content\":\"h\u{e9}\"}"), good("{}")]),
    );
    assert_eq!(
        calls,
        vec![
            "update [104, 105, 0] true",
            "render 0",
            "copy",
            "free string",
            "render 1",
            "copy",
            "free string",
            "free message",
            "free diffs",
        ]
    );
    assert_eq!(result.expect("the update succeeds"), vec!["{\"content\":\"h\u{e9}\"}", "{}"]);
}

#[test]
fn update_without_diffs_frees_its_results() {
    let mut session = ChatParseStateOaicompat::new();
    let script = Script { status: NativeStatus::Success, diffs_null: true, diffs: Vec::new() };
    let (calls, result) = run(&mut session, "", false, &script);
    assert_eq!(calls, vec!["update [0] false", "free message", "free diffs"]);
    assert!(result.expect("the update succeeds").is_empty());
}

#[test]
fn text_with_a_nul_byte_reaches_no_native_code() {
    let mut session = ChatParseStateOaicompat::new();
    let (calls, result) = run(&mut session, "\u{e9}a\0b\0", true, &accepted(Vec::new()));
    assert!(calls.is_empty());
    assert!(matches!(result, Err(ChatParseError::NulError { position: 3 })));
}

#[test]
fn failed_update_reports_its_code() {
    let mut session = ChatParseStateOaicompat::new();
    let script = Script {
        status: NativeStatus::Failure(-3),
        diffs_null: false,
        diffs: vec![good("{}")],
    };
    let (calls, result) = run(&mut session, "x", true, &script);
    assert_eq!(calls, vec!["update [120, 0] true"]);
    assert!(matches!(result, Err(ChatParseError::FfiError(-3))));
}

#[test]
fn counted_diffs_behind_a_null_pointer_are_an_error() {
    let mut session = ChatParseStateOaicompat::new();
    let script =
        Script { status: NativeStatus::Success, diffs_null: true, diffs: vec![good("{}")] };
    let (calls, result) = run(&mut session, "x", true, &script);
    assert_eq!(calls, vec!["update [120, 0] true"]);
    assert!(matches!(result, Err(ChatParseError::NullResult)));
}

#[test]
fn failed_rendering_frees_its_string_and_stops() {
    let mut session = ChatParseStateOaicompat::new();
    let (calls, result) = run(
        &mut session,
        "x",
        true,
        &accepted(vec![
            good("{}"),
            (NativeStatus::Failure(7), Some(vec![1, 2])),
            good("{}"),
        ]),
    );
    assert_eq!(
        calls,
        vec![
            "update [120, 0] true",
            "render 0",
            "copy",
            "free string",
            "render 1",
            "free string",
        ]
    );
    assert!(matches!(result, Err(ChatParseError::FfiError(7))));
}

#[test]
fn failed_rendering_without_a_string_frees_nothing() {
    let mut session = ChatParseStateOaicompat::new();
    let (calls, result) =
        run(&mut session, "x", true, &accepted(vec![(NativeStatus::Failure(8), None)]));
    assert_eq!(calls, vec!["update [120, 0] true", "render 0"]);
    assert!(matches!(result, Err(ChatParseError::FfiError(8))));
}

#[test]
fn rendering_to_a_null_string_is_an_error() {
    let mut session = ChatParseStateOaicompat::new();
    let (calls, result) =
        run(&mut session, "x", true, &accepted(vec![(NativeStatus::Success, None)]));
    assert_eq!(calls, vec!["update [120, 0] true", "render 0"]);
    assert!(matches!(result, Err(ChatParseError::NullResult)));
}

#[test]
fn rendered_bytes_that_are_not_utf8_are_freed_and_rejected() {
    let mut session = ChatParseStateOaicompat::new();
    let (calls, result) = run(
        &mut session,
        "x",
        true,
        &accepted(vec![(NativeStatus::Success, Some(vec![0x7b, 0xff]))]),
    );
    assert_eq!(calls, vec!["update [120, 0] true", "render 0", "copy", "free string"]);
    match result {
        Err(ChatParseError::Utf8Error(error)) => {
            assert_eq!(error.utf8_error().valid_up_to(), 1);
            assert_eq!(error.into_bytes(), vec![0x7b, 0xff]);
        }
        other => panic!("not a UTF-8 error: {:?}", other),
    }
}

#[test]
fn session_goes_on_after_success_and_after_errors() {
    let mut session = ChatParseStateOaicompat::new();
    let failing = Script {
        status: NativeStatus::Failure(1),
        diffs_null: true,
        diffs: Vec::new(),
    };
    assert!(run(&mut session, "a", true, &failing).1.is_err());
    assert!(run(&mut session, "\0", true, &failing).1.is_err());
    let result = run(&mut session, "b", false, &accepted(vec![good("[]")])).1;
    assert_eq!(result.expect("the update succeeds"), vec!["[]"]);
    assert!(run(&mut session, "c", true, &failing).1.is_err());
}

#[test]
fn session_tells_which_replies_it_accepts() {
    let mut session = ChatParseStateOaicompat::new();
    let updated = NativeReply::Updated {
        status: NativeStatus::Success,
        diffs_null: false,
        diffs_count: 1,
    };
    let rendered = NativeReply::Rendered { status: NativeStatus::Success, string_null: false };
    assert!(!session.accepts(&updated));
    assert!(!session.accepts(&NativeReply::Freed));
    session.update("x", true);
    assert!(session.accepts(&updated));
    assert!(!session.accepts(&rendered));
    session.resume(updated);
    assert!(session.accepts(&rendered));
    assert!(!session.accepts(&NativeReply::Copied(Vec::new())));
    session.resume(rendered);
    assert!(session.accepts(&NativeReply::Copied(Vec::new())));
    assert!(!session.accepts(&NativeReply::Freed));
}

/// Reads a delta whose JSON is a string: its content.
fn read(json: &String) -> Result<ChatMessageDeltaOaicompat, serde_json::Error> {
    let content: String = serde_json::from_str(json)?;
    Ok(ChatMessageDeltaOaicompat {
        role: None,
        content: Some(content),
        reasoning_content: None,
        tool_calls: Vec::new(),
    })
}

#[test]
fn typed_update_reads_every_delta_in_order() {
    let updated = Ok(vec!["\"a\"".to_string(), "\"b\"".to_string()]);
    let typed = ChatParseStateOaicompat::update_typed(updated, read).expect("all are read");
    assert_eq!(typed.len(), 2);
    assert_eq!(typed[0].content.as_deref(), Some("a"));
    assert_eq!(typed[1].content.as_deref(), Some("b"));
}

#[test]
fn typed_update_without_deltas_is_empty() {
    let typed = ChatParseStateOaicompat::update_typed(Ok(Vec::new()), read).expect("none to read");
    assert!(typed.is_empty());
}

#[test]
fn typed_update_stops_at_the_first_rejected_delta() {
    let updated = Ok(vec!["\"a\"".to_string(), "1".to_string(), "{".to_string()]);
    match ChatParseStateOaicompat::update_typed(updated, read) {
        Err(ChatParseError::JsonError(error)) => assert!(error.is_data()),
        other => panic!("not a JSON error: {:?}", other),
    }
}

#[test]
fn typed_update_passes_the_error_of_the_update_on() {
    let updated = Err(ChatParseError::FfiError(5));
    assert!(matches!(
        ChatParseStateOaicompat::update_typed(updated, read),
        Err(ChatParseError::FfiError(5))
    ));
}

#[test]
fn errors_of_json_and_utf8_convert() {
    let json = serde_json::from_str::<bool>("2").expect_err("not a bool");
    assert!(matches!(ChatParseError::from(json), ChatParseError::JsonError(_)));
    let utf8 = String::from_utf8(vec![0x80]).expect_err("not UTF-8");
    assert!(matches!(ChatParseError::from(utf8), ChatParseError::Utf8Error(_)));
}

/// The name of a native call, as [`run`] notes it.
fn name_of(call: &NativeCall) -> String {
    match call {
        NativeCall::UpdateState { text, is_partial } => format!("update {:?} {}", text, is_partial),
        NativeCall::RenderDiff { index } => format!("render {}", index),
        NativeCall::CopyString => "copy".to_string(),
        NativeCall::FreeString => "free string".to_string(),
        NativeCall::FreeMessage => "free message".to_string(),
        NativeCall::FreeDiffs => "free diffs".to_string(),
        NativeCall::Finished(_) => panic!("no native call"),
    }
}

fn recorded(script: &Script) -> RecordedUpdate {
    RecordedUpdate {
        status: script.status,
        diffs_null: script.diffs_null,
        diffs: script
            .diffs
            .iter()
            .map(|(status, string)| RecordedDiff { status: *status, string: string.clone() })
            .collect(),
    }
}

#[test]
fn replayed_update_returns_what_the_update_returned() {
    let scripts = vec![
        accepted(Vec::new()),
        accepted(vec![good("{}"), good("\u{1f600}"), good("")]),
        accepted(vec![good("{}"), (NativeStatus::Failure(4), None), good("{}")]),
        accepted(vec![good("{}"), (NativeStatus::Failure(4), Some(vec![0x41]))]),
        accepted(vec![(NativeStatus::Success, None)]),
        accepted(vec![(NativeStatus::Success, Some(vec![0xc0, 0x80])), good("{}")]),
        Script { status: NativeStatus::Failure(9), diffs_null: true, diffs: vec![good("{}")] },
        Script { status: NativeStatus::Success, diffs_null: true, diffs: vec![good("{}")] },
        Script { status: NativeStatus::Success, diffs_null: true, diffs: Vec::new() },
    ];
    for script in &scripts {
        for text in ["", "text", "te\0xt"] {
            let mut session = ChatParseStateOaicompat::new();
            let (calls, live) = run(&mut session, text, true, script);
            let replayed = session.replay(text, true, &recorded(script));
            assert!(session.is_idle());
            assert_eq!(calls, replayed.calls.iter().map(name_of).collect::<Vec<String>>());
            assert_eq!(format!("{:?}", live), format!("{:?}", replayed.result));
        }
    }
}

#[test]
fn replayed_update_collects_the_deltas() {
    let mut session = ChatParseStateOaicompat::new();
    let script = accepted(vec![good("{\"content\":\"a\"}"), good("{\"content\":\"b\"}")]);
    let replayed = session.replay("ab", false, &recorded(&script));
    assert_eq!(
        replayed.result.expect("the update succeeds"),
        vec!["{\"content\":\"a\"}", "{\"content\":\"b\"}"]
    );
}

#[test]
fn typed_replay_makes_the_calls_of_the_plain_one() {
    let scripts = vec![
        accepted(vec![good("\"a\""), good("\"b\"")]),
        accepted(vec![good("\"a\""), good("1"), good("{")]),
        accepted(vec![good("\"a\""), (NativeStatus::Failure(4), Some(vec![0x41]))]),
        Script { status: NativeStatus::Failure(9), diffs_null: true, diffs: Vec::new() },
    ];
    for script in &scripts {
        for is_partial in [true, false] {
            let mut plain = ChatParseStateOaicompat::new();
            let mut typed = ChatParseStateOaicompat::new();
            let calls = plain.replay("x", is_partial, &recorded(script)).calls;
            let replayed = typed.replay_typed("x", is_partial, &recorded(script), read);
            assert!(typed.is_idle());
            assert_eq!(
                calls.iter().map(name_of).collect::<Vec<String>>(),
                replayed.calls.iter().map(name_of).collect::<Vec<String>>()
            );
        }
    }
}

#[test]
fn typed_replay_returns_deltas_or_the_first_error() {
    let mut session = ChatParseStateOaicompat::new();

    let script = accepted(vec![good("\"a\""), good("\"b\"")]);
    let deltas = session
        .replay_typed("x", true, &recorded(&script), read)
        .result
        .expect("all are read");
    assert_eq!(deltas.len(), 2);
    assert_eq!(deltas[0].content.as_deref(), Some("a"));
    assert_eq!(deltas[1].content.as_deref(), Some("b"));

    let script = accepted(vec![good("\"a\""), good("1"), good("{")]);
    match session.replay_typed("x", true, &recorded(&script), read).result {
        Err(ChatParseError::JsonError(error)) => assert!(error.is_data()),
        other => panic!("not a JSON error: {:?}", other),
    }

    let script = accepted(vec![good("1"), (NativeStatus::Failure(4), None)]);
    let replayed = session.replay_typed("x", true, &recorded(&script), read);
    assert!(matches!(replayed.result, Err(ChatParseError::FfiError(4))));

    let replayed = session.replay_typed("\0", true, &recorded(&script), read);
    assert!(replayed.calls.is_empty());
    assert!(matches!(replayed.result, Err(ChatParseError::NulError { position: 0 })));
}
