use ghost::tools::overlay_events::{
    bounded_intent, build_event, default_intent, emit, emit_at, emit_with_intent, event_json,
    now_millis, overlay_request, press_end, press_start, split_overlay_url, OverlayChannel,
    MAX_INTENT_CHARS,
};
use serde_json::Value;

fn object(members: Vec<(&str, Value)>) -> Value {
    let mut m = serde_json::Map::new();
    for (k, v) in members {
        m.insert(k.to_string(), v);
    }
    Value::Object(m)
}

#[test]
fn event_payload_shape_is_stable() {
    let event = build_event(7, "down", 512, 384, "ghost_click", "Click “Save”", 1_700_000_000_000);
    let body = event_json(&event);
    let value: Value = serde_json::from_str(&body).expect("serializes");
    assert_eq!(
        value,
        object(vec![
            ("seq", Value::from(7u64)),
            ("phase", Value::from("down")),
            ("x", Value::from(512)),
            ("y", Value::from(384)),
            ("tool", Value::from("ghost_click")),
            ("intent", Value::from("Click “Save”")),
            ("ts", Value::from(1_700_000_000_000u64)),
        ])
    );
}

#[test]
fn every_phase_serializes_to_its_literal() {
    for phase in ["move", "down", "up", "type", "scroll", "done"] {
        let event = build_event(0, phase, 0, 0, "ghost_type", "Typing", 0);
        let body = event_json(&event);
        let value: Value = serde_json::from_str(&body).expect("serializes");
        assert_eq!(value["phase"], Value::from(phase));
    }
}

#[test]
fn intent_is_bounded_without_splitting_unicode() {
    let event = build_event(0, "down", 0, 0, "ghost_click", &"界".repeat(100), 0);
    let intent = event.intent;
    assert_eq!(intent.chars().count(), MAX_INTENT_CHARS);
    assert!(intent.ends_with('…'));
}

#[test]
fn now_millis_reads_the_wall_clock() {
    assert!(now_millis() > 1_600_000_000_000);
}

#[test]
fn emit_and_press_helpers_never_panic() {
    let mut ch = OverlayChannel::new(None);
    assert!(emit(&mut ch, "move", 1, 2, "ghost_click").is_none());
    assert!(press_start(&mut ch, 3, 4, "ghost_click").is_empty());
    assert!(press_end(&mut ch, 5, 6, "ghost_click").is_empty());
    assert_eq!(ch.next_seq, 0);
}

#[test]
fn body_is_exact_json_text() {
    let event = build_event(3, "up", -5, 20, "ghost_drag", "  Drag \"x\"  ", 42);
    assert_eq!(
        event_json(&event),
        "{\"intent\":\"Drag \\\"x\\\"\",\"seq\":3,\"phase\":\"up\",\"x\":-5,\"y\":20,\"tool\":\"ghost_drag\",\"ts\":42}"
    );
}

#[test]
fn intent_is_trimmed_and_short_intents_kept() {
    assert_eq!(bounded_intent("  Click OK \n"), "Click OK");
    assert_eq!(bounded_intent(""), "");
    let exact = "a".repeat(71);
    assert_eq!(bounded_intent(&exact), exact);
    let long = "b".repeat(72);
    let cut = bounded_intent(&long);
    assert_eq!(cut, format!("{}…", "b".repeat(71)));
    // the cut drops trailing white space before the ellipsis
    let spaced = format!("{}   {}", "c".repeat(69), "d".repeat(10));
    assert_eq!(bounded_intent(&spaced), format!("{}…", "c".repeat(69)));
}

#[test]
fn bounding_twice_changes_nothing() {
    for s in ["", "  x  ", &"界".repeat(100), &format!("{} y", "z".repeat(70))] {
        let once = bounded_intent(s);
        assert_eq!(bounded_intent(&once), once);
        assert!(once.chars().count() <= MAX_INTENT_CHARS);
    }
}

#[test]
fn default_intents_by_tool() {
    assert_eq!(default_intent("ghost_click"), "Clicking");
    assert_eq!(default_intent("ghost_type"), "Typing");
    assert_eq!(default_intent("ghost_scroll"), "Scrolling");
    assert_eq!(default_intent("ghost_drag"), "Dragging");
    assert_eq!(default_intent("ghost_hover"), "Hovering");
    assert_eq!(default_intent("ghost_long_press"), "Holding");
    assert_eq!(default_intent("ghost_find"), "Working");
}

#[test]
fn blank_overlay_url_disables_the_channel() {
    assert!(OverlayChannel::new(Some("   ")).url.is_none());
    assert_eq!(OverlayChannel::new(Some(" http://127.0.0.1:9/e ")).url.as_deref(), Some("http://127.0.0.1:9/e"));
}

#[test]
fn emits_number_events_in_order() {
    let mut ch = OverlayChannel::new(Some("http://127.0.0.1:4000/events"));
    let first = emit_at(&mut ch, "move", 1, 2, "ghost_click", "Go", 10).unwrap();
    assert_eq!(first.event.seq, 0);
    assert_eq!(first.url, "http://127.0.0.1:4000/events");
    let second = emit_with_intent(&mut ch, "down", 1, 2, "ghost_click", "Go").unwrap();
    assert_eq!(second.event.seq, 1);
    let pair = press_start(&mut ch, 1, 2, "ghost_click");
    assert_eq!(pair.len(), 2);
    assert_eq!(pair[0].event.phase, "move");
    assert_eq!(pair[1].event.phase, "down");
    assert_eq!(pair[0].event.seq, 2);
    assert_eq!(pair[1].event.seq, 3);
    assert_eq!(pair[1].event.intent, "Clicking");
    let end = press_end(&mut ch, 1, 2, "ghost_click");
    assert_eq!(end[0].event.phase, "up");
    assert_eq!(end[1].event.phase, "done");
    assert_eq!(ch.next_seq, 6);
}

#[test]
fn sequence_numbers_wrap() {
    let mut ch = OverlayChannel::new(Some("x"));
    ch.next_seq = u64::MAX;
    let p = emit_at(&mut ch, "move", 0, 0, "t", "i", 0).unwrap();
    assert_eq!(p.event.seq, u64::MAX);
    assert_eq!(ch.next_seq, 0);
}

#[test]
fn overlay_url_splits_into_authority_and_path() {
    assert_eq!(
        split_overlay_url("http://127.0.0.1:4000/ghost/events"),
        ("127.0.0.1:4000".to_string(), "/ghost/events".to_string())
    );
    assert_eq!(split_overlay_url("127.0.0.1:4000"), ("127.0.0.1:4000".to_string(), "/".to_string()));
}

#[test]
fn overlay_request_is_exact() {
    let r = overlay_request("http://127.0.0.1:4000/e", "{\"a\":\"é\"}", 77);
    assert_eq!(r.authority, "127.0.0.1:4000");
    assert_eq!(
        r.request,
        "POST /e HTTP/1.1\r\nHost: 127.0.0.1:4000\r\nContent-Type: application/json\r\nx-ghost-agent: 77\r\nContent-Length: 10\r\nConnection: close\r\n\r\n{\"a\":\"é\"}"
    );
}

#[test]
fn a_press_posts_move_down_up_done_in_order() {
    let mut ch = OverlayChannel::new(Some("http://127.0.0.1:4000/events"));
    let mut posts = ghost::tools::overlay_events::press_start_with_intent(&mut ch, 7, 8, "ghost_click", "  Press  ");
    posts.extend(ghost::tools::overlay_events::press_end_with_intent(&mut ch, 7, 8, "ghost_click", "  Press  "));
    assert_eq!(posts.len(), 4);
    let phases: Vec<&str> = posts.iter().map(|p| p.event.phase).collect();
    assert_eq!(phases, vec!["move", "down", "up", "done"]);
    for (k, p) in posts.iter().enumerate() {
        assert_eq!(p.event.seq, k as u64);
        assert_eq!((p.event.x, p.event.y), (7, 8));
        assert_eq!(p.event.intent, "Press");
        assert_eq!(p.url, "http://127.0.0.1:4000/events");
        assert_eq!(p.body, event_json(&p.event));
    }
    assert_eq!(ch.next_seq, 4);
}
