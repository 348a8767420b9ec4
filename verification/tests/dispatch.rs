use mentionbot::dispatch::{
    plan_cycle, plan_message, process_batch, Action, FetchOutcome, InboundMessage,
};
use mentionbot::message::Category;

fn msg(id: &str, content: &str, username: &str, nickname: &str) -> InboundMessage {
    InboundMessage {
        id: id.to_string(),
        content: content.to_string(),
        created_at: "2023-08-01T00:00:00Z".to_string(),
        username: username.to_string(),
        nickname: nickname.to_string(),
    }
}

#[test]
fn empty_batch_returns_no_cursor_update() {
    let plan = process_batch(&Vec::new(), "41");
    assert!(plan.new_cursor.is_none());
    assert!(plan.actions.is_empty());
}

#[test]
fn newest_first_batch_is_processed_oldest_first() {
    let batch = vec![
        msg("5", "tres", "a", "a"),
        msg("3", "dos", "b", "b"),
        msg("1", "uno", "c", "c"),
    ];
    let plan = process_batch(&batch, "0");
    assert_eq!(plan.new_cursor, Some("5".to_string()));
    // Each mention plans feedback, relay and log; the feedback records come
    // in chronological order 1, 3, 5.
    let references: Vec<&str> = plan
        .actions
        .iter()
        .filter_map(|a| match a {
            Action::SubmitFeedback(f) => Some(f.reference.as_str()),
            _ => None,
        })
        .collect();
    assert_eq!(references, ["1", "3", "5"]);
}

#[test]
fn unchanged_newest_id_gives_no_update() {
    let batch = vec![msg("41", "hola", "a", "a")];
    let plan = process_batch(&batch, "41");
    assert!(plan.new_cursor.is_none());
}

#[test]
fn question_scenario_plans_all_sinks() {
    let batch = vec![msg("77", "#pregunta cómo instalo?", "alice", "alice")];
    let plan = process_batch(&batch, "0");
    assert_eq!(plan.new_cursor, Some("77".to_string()));
    assert_eq!(plan.actions.len(), 4);
    match &plan.actions[0] {
        Action::SubmitFeedback(f) => {
            assert_eq!(f.category, "pregunta");
            assert_eq!(f.reference, "77");
            assert_eq!(f.content, "#pregunta cómo instalo?");
            assert_eq!(f.username, "alice");
            assert_eq!(f.nickname, "alice");
            assert_eq!(f.applied, 0);
            assert_eq!(f.source, "Mastodon");
        },
        other => panic!("expected a feedback submission, got {other:?}"),
    }
    match &plan.actions[1] {
        Action::PostReply { body, in_reply_to } => {
            assert_eq!(body, "Gracias por tu pregunta @alice");
            assert_eq!(in_reply_to.as_deref(), Some("77"));
        },
        other => panic!("expected a reply, got {other:?}"),
    }
    match &plan.actions[2] {
        Action::RelayChat { category, plain, html } => {
            assert_eq!(*category, Category::Question);
            assert!(plain.starts_with("Src: Mastodon. From: @alice. Content: "));
            assert!(html.starts_with("<h6>Src: Mastodon</h6><ul><li>Id: 77</li><li>From: @alice"));
            assert!(html.ends_with("</li><li>Content:</li></ul>#pregunta cómo instalo?"));
        },
        other => panic!("expected a chat relay, got {other:?}"),
    }
    match &plan.actions[3] {
        Action::PublishLog(e) => {
            assert_eq!(e.src, "Mastodon");
            assert_eq!(e.kind, "pregunta");
            assert_eq!(e.from.as_deref(), Some("@alice"));
        },
        other => panic!("expected a log publish, got {other:?}"),
    }
}

#[test]
fn mention_plans_no_reply() {
    let batch = vec![msg("9", "hola sin etiqueta", "bob", "bob")];
    let plan = process_batch(&batch, "0");
    assert_eq!(plan.actions.len(), 3);
    assert!(plan.actions.iter().all(|a| !matches!(a, Action::PostReply { .. })));
    match &plan.actions[0] {
        Action::SubmitFeedback(f) => {
            assert_eq!(f.category, "mencion");
            // A mention keeps the raw body, untrimmed.
            assert_eq!(f.content, "hola sin etiqueta");
            assert_eq!(f.reference, "9");
        },
        other => panic!("expected a feedback submission, got {other:?}"),
    }
}

#[test]
fn comment_reference_reaches_the_record() {
    let acts = plan_message(&msg("12", "#comentario 42 de acuerdo", "eva", "eva"));
    match &acts[0] {
        Action::SubmitFeedback(f) => {
            assert_eq!(f.category, "comentario");
            assert_eq!(f.reference, "42");
        },
        other => panic!("expected a feedback submission, got {other:?}"),
    }
}

#[test]
fn comment_without_reference_falls_back_to_message_id() {
    let acts = plan_message(&msg("12", "#comentario", "eva", "eva"));
    match &acts[0] {
        Action::SubmitFeedback(f) => {
            assert_eq!(f.reference, "12");
        },
        other => panic!("expected a feedback submission, got {other:?}"),
    }
}

#[test]
fn html_body_is_converted_for_relay_and_log() {
    let acts = plan_message(&msg("3", "<p>hola <b>amigos</b></p>", "eva", "eva"));
    match &acts[1] {
        Action::RelayChat { plain, html, .. } => {
            assert_eq!(plain, "Src: Mastodon. From: @eva. Content: hola **amigos**");
            // The HTML variant keeps the raw body.
            assert!(html.ends_with("</li><li>Content:</li></ul><p>hola <b>amigos</b></p>"));
        },
        other => panic!("expected a chat relay, got {other:?}"),
    }
    match &acts[2] {
        Action::PublishLog(e) => {
            assert_eq!(e.message, "hola **amigos**");
        },
        other => panic!("expected a log publish, got {other:?}"),
    }
}

#[test]
fn failed_fetch_publishes_a_marker() {
    let plan = plan_cycle(&FetchOutcome::Failed, "0");
    assert!(plan.new_cursor.is_none());
    assert_eq!(plan.actions.len(), 1);
    match &plan.actions[0] {
        Action::PublishLog(e) => {
            assert_eq!(e.src, "Mastodon");
            assert_eq!(e.kind, "search");
            assert_eq!(e.from, None);
            assert_eq!(e.message, "Something goes wrong!!");
        },
        other => panic!("expected a log publish, got {other:?}"),
    }
}

#[test]
fn malformed_fetch_degrades_to_empty_batch() {
    let plan = plan_cycle(&FetchOutcome::Malformed { raw: "{oops".to_string() }, "0");
    assert!(plan.new_cursor.is_none());
    assert_eq!(plan.actions.len(), 1);
    match &plan.actions[0] {
        Action::PublishLog(e) => {
            assert_eq!(e.kind, "search");
            assert_eq!(e.message, "{oops");
        },
        other => panic!("expected a log publish, got {other:?}"),
    }
}

#[test]
fn received_fetch_logs_raw_then_plans_batch() {
    let raw = "[{\"id\": \"5\"}]".to_string();
    let plan = plan_cycle(
        &FetchOutcome::Received { raw: raw.clone(), messages: vec![msg("5", "hola", "a", "a")] },
        "0",
    );
    assert_eq!(plan.new_cursor, Some("5".to_string()));
    assert_eq!(plan.actions.len(), 4);
    match &plan.actions[0] {
        Action::PublishLog(e) => {
            assert_eq!(e.kind, "search");
            assert_eq!(e.message, raw);
        },
        other => panic!("expected a log publish, got {other:?}"),
    }
}
