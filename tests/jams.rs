use chrono::NaiveDateTime;
use udevgames::attachments::Attachment;
use udevgames::auth::{anonymous, resolve_auth};
use udevgames::error_handlers::HandlerError;
use udevgames::guards::UserOptional;
use udevgames::identity::GhUserRecord;
use udevgames::jams::{show_all_jams, Jam, JamContext, JamFormData};
use udevgames::models::ApprovalState;
use udevgames::permissions::Permission;
use udevgames::rich_texts::RichText;

fn now() -> NaiveDateTime {
    "2021-03-04T05:06:07".parse::<NaiveDateTime>().unwrap()
}

fn form(start: &str, end: &str, state: &str) -> JamFormData {
    JamFormData {
        id: 1,
        title: "Spring Jam".to_string(),
        slug: "spring-jam".to_string(),
        summary: "Make a game".to_string(),
        rich_text_content: "# Rules".to_string(),
        start_date: start.to_string(),
        end_date: end.to_string(),
        approval_state: state.to_string(),
    }
}

#[test]
fn blank_jam_defaults() {
    let jam = Jam::blank(4, 9, &now());
    assert_eq!(jam.title, "My Jam");
    assert_eq!(jam.slug, "my-jam");
    assert_eq!(jam.summary, "My really cool game jam");
    assert_eq!(jam.summary_attachment_id, None);
    assert_eq!(jam.start_date, now());
    assert_eq!(jam.approval_state, ApprovalState::Draft);
}

#[test]
fn edit_form_applies() {
    let mut jam = Jam::blank(4, 9, &now());
    let mut text = RichText { id: 9, content: "".to_string() };
    let r = jam.apply_form(&mut text, &form("2022-01-01T00:00:00", "2022-01-08T12:30:00", "Approved"));
    assert_eq!(r, Ok(()));
    assert_eq!(jam.title, "Spring Jam");
    assert_eq!(jam.slug, "spring-jam");
    assert_eq!(jam.approval_state, ApprovalState::Approved);
    assert_eq!(jam.end_date, "2022-01-08T12:30:00".parse::<NaiveDateTime>().unwrap());
    assert_eq!(text.content, "# Rules");
    assert_eq!(text.id, 9);
}

#[test]
fn edit_form_errors_leave_the_jam() {
    let mut jam = Jam::blank(4, 9, &now());
    let mut text = RichText { id: 9, content: "old".to_string() };
    let bad_date = jam.apply_form(&mut text, &form("yesterday", "2022-01-08T12:30:00", "Approved"));
    assert_eq!(bad_date, Err(HandlerError::ParseError));
    let bad_state =
        jam.apply_form(&mut text, &form("2022-01-01T00:00:00", "2022-01-08T12:30:00", "Lost"));
    assert_eq!(bad_state, Err(HandlerError::ApprovalStateParseError));
    assert_eq!(jam.title, "My Jam");
    assert_eq!(text.content, "old");
}

#[test]
fn jam_context_from_model() {
    let jam = Jam::blank(4, 9, &now());
    let text = RichText { id: 9, content: "*hi*".to_string() };
    let attachment = Attachment {
        id: 2,
        name: "logo.png".to_string(),
        published: true,
        mime_type: "image/png".to_string(),
        md5: vec![1, 2],
    };
    let c = JamContext::from_model(&jam, Some(&attachment), &text, true);
    assert_eq!(c.start_date, "2021-03-04 05:06:07");
    assert_eq!(c.approval_state, "Draft");
    assert_eq!(c.rendered_rich_text_content, Some("<p><em>hi</em></p>\n".to_string()));
    let a = c.summary_attachment.unwrap();
    assert_eq!(a.md5, "0102");
    assert_eq!(a.url, "/attachments/2/logo.png");
    let plain = JamContext::from_model(&jam, None, &text, false);
    assert!(plain.rendered_rich_text_content.is_none());
    assert!(plain.summary_attachment.is_none());
    assert_eq!(plain.rich_text_content, "*hi*");
}

#[test]
fn only_admins_see_all_jams() {
    let admin = UserOptional::from_auth(resolve_auth(
        Some(GhUserRecord::new(1, "ed", "a", "b")),
        &vec![Permission { id: 1, gh_user_id: 1, name: "admin".to_string() }],
    ));
    assert!(show_all_jams(&admin, Some(true)));
    assert!(!show_all_jams(&admin, Some(false)));
    assert!(!show_all_jams(&admin, None));
    let anon = UserOptional::from_auth(anonymous());
    assert!(!show_all_jams(&anon, Some(true)));
}
