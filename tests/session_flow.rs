use chat_sessions::attachments::AttachmentStaging;
use chat_sessions::config::Settings;
use chat_sessions::message::{display_rows, Message, Role};
use chat_sessions::session::SessionState;
use chat_sessions::store::Store;
use chat_sessions::stream::StreamOutcome;

fn state_in(id: &str) -> SessionState {
    SessionState::with_session_id(Store::new(), id.to_string())
}

fn contents(ms: &[Message]) -> Vec<(Role, String)> {
    ms.iter().map(|m| (m.role, m.content.clone())).collect()
}

#[test]
fn role_tags_round_trip_and_unknown_tag_is_assistant() {
    assert_eq!(Role::from_tag("user"), Role::User);
    assert_eq!(Role::from_tag("assistant"), Role::Assistant);
    assert_eq!(Role::from_tag("User"), Role::Assistant);
    assert_eq!(Role::from_tag(""), Role::Assistant);
    assert_eq!(Role::User.tag(), "user");
    assert_eq!(Role::Assistant.tag(), "assistant");
    assert_eq!(Role::from_tag(Role::User.tag()), Role::User);
}

#[test]
fn display_rows_label_each_turn() {
    let h = vec![Message::user("hi".to_string()), Message::assistant("hello".to_string())];
    let rows = display_rows(&h);
    assert_eq!(
        rows,
        vec![
            ("User".to_string(), "hi".to_string()),
            ("AI".to_string(), "hello".to_string())
        ]
    );
}

#[test]
fn fold_without_attachments_is_the_text() {
    let mut st = AttachmentStaging::new();
    assert_eq!(st.drain_and_fold("bar"), "bar");
    assert!(st.is_empty());
}

#[test]
fn fold_writes_header_and_each_attachment() {
    let mut st = AttachmentStaging::new();
    st.stage("notes.txt".to_string(), "foo".to_string());
    st.stage("b.md".to_string(), "x\ny".to_string());
    assert_eq!(st.names(), vec!["notes.txt".to_string(), "b.md".to_string()]);
    let out = st.drain_and_fold("bar");
    assert_eq!(out, "Context from files:\n[notes.txt]\nfoo\n[b.md]\nx\ny\nbar");
    assert_eq!(st.len(), 0);
}

#[test]
fn unstage_removes_by_position_and_ignores_out_of_range() {
    let mut st = AttachmentStaging::new();
    st.stage("a".to_string(), "1".to_string());
    st.stage("b".to_string(), "2".to_string());
    st.stage("a".to_string(), "3".to_string());
    assert!(!st.unstage(3));
    assert_eq!(st.len(), 3);
    assert!(st.unstage(0));
    assert_eq!(st.names(), vec!["b".to_string(), "a".to_string()]);
}

#[test]
fn sends_keep_history_equal_to_stored_messages() {
    let mut s = state_in("A");
    for (i, t) in ["one", "two", "three"].iter().enumerate() {
        let d = s.send(t).expect("send");
        assert_eq!(d.session_id, "A");
        assert_eq!(d.context.len(), 2 * i + 1);
        let mut acc = d.accumulator();
        acc.push_fragment("re: ");
        acc.push_fragment(t);
        assert!(s.finish_stream(acc, StreamOutcome::Completed));
        let cur = s.current_id().clone();
        assert_eq!(contents(&s.store().load_messages(&cur)), contents(s.history()));
    }
    assert_eq!(s.history().len(), 6);
    assert_eq!(s.history()[5].content, "re: three");
    assert_eq!(s.store().list_sessions(), vec![("A".to_string(), "one".to_string())]);
}

#[test]
fn reply_is_filed_under_the_dispatch_session_after_a_switch() {
    let mut s = state_in("A");
    let d = s.send("hi").unwrap();
    assert!(d.opened_session);
    let mut acc = d.accumulator();
    acc.push_fragment("hel");
    s.switch_to("B".to_string());
    acc.push_fragment("lo");
    assert!(s.finish_stream(acc, StreamOutcome::Completed));
    let a = s.store().load_messages(&"A".to_string());
    assert_eq!(
        contents(&a),
        vec![(Role::User, "hi".to_string()), (Role::Assistant, "hello".to_string())]
    );
    assert!(s.store().load_messages(&"B".to_string()).is_empty());
    assert!(s.history().is_empty());
    assert_eq!(s.current_id(), "B");
}

#[test]
fn attachments_fold_into_one_send_only() {
    let mut s = state_in("A");
    s.stage_attachment("notes.txt".to_string(), "foo".to_string());
    s.send("bar").unwrap();
    let first = s.history()[0].content.clone();
    assert!(first.contains("notes.txt") && first.contains("foo") && first.contains("bar"));
    assert!(s.attachment_names().is_empty());
    let second = s.send("baz").unwrap();
    assert!(!second.opened_session);
    let stored = s.store().load_messages(&"A".to_string());
    assert_eq!(stored[1].content, "baz");
    assert_eq!(s.store().list_sessions()[0].1, "bar");
}

#[test]
fn clearing_starts_an_unused_session_and_writes_nothing() {
    let mut s = state_in("A");
    s.send("hi").unwrap();
    assert!(s.start_new_session());
    let fresh = s.current_id().clone();
    assert_ne!(fresh, "A");
    assert_eq!(fresh.len(), 36);
    assert!(s.history().is_empty());
    assert_eq!(s.store().list_sessions().len(), 1);
    assert!(s.start_new_session());
    assert_ne!(s.current_id(), &fresh);
    assert!(s.store().load_messages(&fresh).is_empty());
    assert!(!s.store().has_session(&fresh));
    assert_eq!(s.store().list_sessions().len(), 1);
}

#[test]
fn starting_a_session_with_a_used_id_is_refused() {
    let mut s = state_in("A");
    s.send("hi").unwrap();
    assert!(s.start_session_with_id("C".to_string()));
    assert!(!s.start_session_with_id("A".to_string()));
    assert!(!s.start_session_with_id("C".to_string()));
    assert_eq!(s.current_id(), "C");
    assert!(s.start_session_with_id("D".to_string()));
}

#[test]
fn switching_drops_staged_attachments() {
    let mut s = state_in("A");
    s.stage_attachment("n".to_string(), "c".to_string());
    s.switch_to("B".to_string());
    assert!(s.attachment_names().is_empty());
    s.send("x").unwrap();
    assert_eq!(s.history()[0].content, "x");
}

#[test]
fn title_is_set_only_for_a_session_with_messages() {
    let mut s = state_in("A");
    assert!(!s.finalize_title(&"A".to_string(), "Greeting".to_string()));
    s.send("hi").unwrap();
    s.start_session_with_id("B".to_string());
    s.send("second").unwrap();
    assert!(s.finalize_title(&"A".to_string(), "Greeting".to_string()));
    assert_eq!(
        s.store().list_sessions(),
        vec![
            ("B".to_string(), "second".to_string()),
            ("A".to_string(), "Greeting".to_string())
        ]
    );
    assert!(!s.finalize_title(&"Z".to_string(), "t".to_string()));
}

#[test]
fn listing_is_newest_first_whatever_the_message_order() {
    let mut st = Store::new();
    assert!(st.create_session("a".to_string(), "A".to_string()));
    assert!(st.create_session("b".to_string(), "B".to_string()));
    assert!(st.create_session("c".to_string(), "C".to_string()));
    assert!(!st.create_session("b".to_string(), "again".to_string()));
    st.insert_message("c".to_string(), Role::User, "1".to_string());
    st.insert_message("a".to_string(), Role::User, "2".to_string());
    st.insert_message("b".to_string(), Role::User, "3".to_string());
    let ids: Vec<String> = st.list_sessions().into_iter().map(|(i, _)| i).collect();
    assert_eq!(ids, vec!["c".to_string(), "b".to_string(), "a".to_string()]);
}

#[test]
fn switching_twice_gives_the_same_history() {
    let mut s = state_in("A");
    s.send("hi").unwrap();
    s.start_session_with_id("B".to_string());
    s.switch_to("A".to_string());
    let first = contents(s.history());
    s.switch_to("A".to_string());
    assert_eq!(contents(s.history()), first);
    assert_eq!(first, vec![(Role::User, "hi".to_string())]);
}

#[test]
fn fragments_append_then_replace_with_the_whole_reply() {
    let s = state_in("A");
    let mut st = s;
    let d = st.send("q").unwrap();
    let mut acc = d.accumulator();
    assert!(!acc.started());
    let u1 = acc.push_fragment("Hel");
    assert!(!u1.replace_last);
    assert_eq!(u1.text, "Hel");
    let u2 = acc.push_fragment("lo");
    assert!(u2.replace_last);
    assert_eq!(u2.text, "Hello");
    assert_eq!(acc.text(), "Hello");
    assert_eq!(acc.session_id(), "A");
}

#[test]
fn failed_or_empty_streams_file_nothing() {
    let mut s = state_in("A");
    let d = s.send("q").unwrap();
    let mut acc = d.accumulator();
    acc.push_fragment("partial");
    assert!(!s.finish_stream(acc, StreamOutcome::Failed));
    assert!(!s.finish_stream(d.accumulator(), StreamOutcome::Completed));
    assert_eq!(s.history().len(), 1);
    assert_eq!(s.store().load_messages(&"A".to_string()).len(), 1);
}

#[test]
fn reply_for_a_session_without_a_row_is_refused() {
    let mut s = state_in("A");
    assert!(!s.record_assistant_turn(&"nowhere".to_string(), "x".to_string()));
    assert!(s.history().is_empty());
}

#[test]
fn state_over_a_loaded_store_shows_its_messages() {
    let mut st = Store::new();
    st.create_session("old".to_string(), "Old".to_string());
    st.insert_message("old".to_string(), Role::User, "u".to_string());
    st.insert_message("old".to_string(), Role::Assistant, "a".to_string());
    let mut s = SessionState::with_session_id(st, "old".to_string());
    assert_eq!(s.history().len(), 2);
    assert!(!s.start_session_with_id("old".to_string()));
    s.send("more").unwrap();
    assert_eq!(s.store().list_sessions(), vec![("old".to_string(), "Old".to_string())]);
    let fresh = SessionState::new(Store::new());
    assert_eq!(fresh.current_id().len(), 36);
}

#[test]
fn settings_fall_back_when_missing() {
    let s = Settings::from_values(None, None);
    assert_eq!(s.default_model, "llama3");
    assert!(s.scroll_lock);
    let t = Settings::from_values(Some("mistral"), Some(false));
    assert_eq!(t.default_model, "mistral");
    assert!(!t.scroll_lock);
}

#[test]
fn settings_read_from_json() {
    let v: serde_json::Value =
        serde_json::from_str(r#"{"default_model":"phi3","scroll_lock":false}"#).unwrap();
    let s = Settings::from_json(&v);
    assert_eq!(s.default_model, "phi3");
    assert!(!s.scroll_lock);
    let w: serde_json::Value = serde_json::from_str(r#"{"default_model":7}"#).unwrap();
    let t = Settings::from_json(&w);
    assert_eq!(t.default_model, "llama3");
    assert!(t.scroll_lock);
}
