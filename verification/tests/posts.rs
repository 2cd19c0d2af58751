use blog_web::models::posts::{
    body_texts, element_texts_of, sanitize_body, summarize_texts, try_sanitize_body, Post,
    PostInputForm, PostQueryable,
};
use chrono::NaiveDate;

fn sample_post() -> Post {
    let form = PostInputForm::new("Title".to_string(), "<p>Body</p>".to_string());
    Post::build_from(&form, 9)
}

#[test]
fn new_post_is_a_draft() {
    let post = sample_post();
    assert_eq!(post.id, 0);
    assert_eq!(post.title, "Title");
    assert_eq!(post.body, "<p>Body</p>");
    assert_eq!(post.status, "Draft");
    assert_eq!(post.truncated_content, "");
    assert_eq!(post.user_id, 9);
    assert_eq!(post.current_state(), "Draft");
}

#[test]
fn form_keeps_its_fields() {
    let form = PostInputForm::new("t".to_string(), "c".to_string());
    assert_eq!(form.title(), "t");
    assert_eq!(form.content(), "c");
}

#[test]
fn valid_states_are_the_three_states() {
    assert_eq!(Post::valid_states(), vec!["Draft", "Review", "Published"]);
    for s in ["Draft", "Review", "Published"] {
        assert!(Post::is_valid_state(&s.to_string()));
    }
    for s in ["draft", "Archived", "", "Published "] {
        assert!(!Post::is_valid_state(&s.to_string()));
    }
}

#[test]
fn move_to_and_publish_change_only_the_state() {
    let mut post = sample_post();
    post.move_to("Review".to_string());
    assert_eq!(post.current_state(), "Review");
    assert_eq!(post.title, "Title");
    post.publish();
    assert_eq!(post.current_state(), "Published");
    post.publish();
    assert_eq!(post.status, "Published");
    assert_eq!(post.user_id, 9);
}

const LONG: &str = "The quick brown fox jumps over the lazy dog and keeps on running far away";

#[test]
fn summary_keeps_the_first_fifty_bytes_of_the_text() {
    let html = format!("<p>{}</p>", LONG);
    let summary = sanitize_body(html);
    assert_eq!(summary, &LONG[..50]);
    assert_eq!(summary.len(), 50);
}

#[test]
fn summary_drops_the_markup() {
    let html = format!("<div><b>{}</b></div>", LONG);
    let summary = try_sanitize_body(html).unwrap();
    assert_eq!(summary, &LONG[..50]);
    assert!(!summary.contains('<'));
}

#[test]
fn short_or_split_text_has_no_summary() {
    assert_eq!(try_sanitize_body("<p>short</p>".to_string()), None);
    assert_eq!(try_sanitize_body(String::new()), None);
    let split = format!("<p>{}é and more text after it</p>", "a".repeat(49));
    assert_eq!(try_sanitize_body(split), None);
    let exact = format!("<p>{}é</p>", "a".repeat(48));
    assert_eq!(try_sanitize_body(exact), Some(format!("{}é", "a".repeat(48))));
}

#[test]
fn queryable_post_of_a_row() {
    let created = NaiveDate::from_ymd_opt(2024, 1, 2).unwrap().and_hms_opt(3, 4, 5).unwrap();
    let updated = NaiveDate::from_ymd_opt(2024, 2, 3).unwrap().and_hms_opt(4, 5, 6).unwrap();
    let body = format!("<p>{}</p>", LONG);
    let row = (5u64, "T".to_string(), body.clone(), "Published".to_string(), 8u64, created, updated);
    let p = PostQueryable::build(row.clone());
    assert_eq!(p.id, 5);
    assert_eq!(p.title, "T");
    assert_eq!(p.body, body);
    assert_eq!(p.truncated_content, &LONG[..50]);
    assert_eq!(p.status, "Published");
    assert_eq!(p.user_id, 8);
    assert_eq!(p.created_at, created);
    assert_eq!(p.created_date, created);
    assert_eq!(p.updated_at, updated);
    assert_eq!(p.updated_date, updated);
    let q = PostQueryable::try_build(row).unwrap();
    assert_eq!(q.truncated_content, p.truncated_content);
    let short = (5u64, "T".to_string(), "x".to_string(), "Draft".to_string(), 8u64, created, updated);
    assert!(PostQueryable::try_build(short).is_none());
}

#[test]
fn element_texts_follow_the_nodes() {
    let nodes = vec![
        None,
        Some(vec!["a".to_string(), "b".to_string()]),
        None,
        Some(vec![]),
        Some(vec!["c".to_string()]),
    ];
    assert_eq!(element_texts_of(&nodes), vec!["a", "b", "c"]);
    let texts = vec!["x".repeat(30), "y".repeat(30)];
    let expected = format!("{} {}", "x".repeat(30), "y".repeat(19));
    assert_eq!(summarize_texts(&texts), Some(expected));
    assert_eq!(summarize_texts(&vec!["short".to_string()]), None);
}

#[test]
fn nested_elements_repeat_their_text() {
    let texts = body_texts("<p>a<b>c</b></p>");
    assert_eq!(texts.iter().filter(|t| t.as_str() == "c").count(), 3);
}
