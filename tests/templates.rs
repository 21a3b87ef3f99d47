use std::collections::BTreeMap;
use tera::{Context, Tera, Value};
use udevgames::guards::{TemplateContextUser, UserOptionalContext};

fn tera_context(c: &UserOptionalContext) -> Context {
    let mut context = Context::new();
    match &c.user {
        Some(u) => {
            let mut fields: BTreeMap<String, Value> = BTreeMap::new();
            fields.insert("id".to_string(), Value::from(u.id));
            fields.insert("login".to_string(), Value::from(u.login.clone()));
            fields.insert("html_url".to_string(), Value::from(u.html_url.clone()));
            fields.insert("avatar_url".to_string(), Value::from(u.avatar_url.clone()));
            fields.insert("permissions".to_string(), Value::from(u.permissions.clone()));
            context.insert("user", &fields);
        }
        None => context.insert("user", &Value::Null),
    }
    context
}

fn render_login_state(none_context: &UserOptionalContext, some_context: &UserOptionalContext) {
    let mut tera = Tera::default();
    tera.add_raw_template(
        "example.html",
        "
            {% if user is object %}
            The user is logged in!
            {% else %}
            There is no user logged in.
            {% endif %}
        ",
    )
    .unwrap();
    let none_result = tera.render("example.html", &tera_context(none_context)).unwrap();
    let some_result = tera.render("example.html", &tera_context(some_context)).unwrap();
    assert_eq!("There is no user logged in.", none_result.trim());
    assert_eq!("The user is logged in!", some_result.trim());
}

#[test]
fn template_context_test_user_optional_template_context() {
    let none_context = UserOptionalContext { user: None };
    let some_context = UserOptionalContext {
        user: Some(TemplateContextUser {
            id: 1,
            login: "ed".to_string(),
            html_url: "".to_string(),
            avatar_url: "".to_string(),
            permissions: vec!["admin".to_string()],
        }),
    };
    render_login_state(&none_context, &some_context);
}

#[test]
fn user_optional_test_user_optional_template_context() {
    let none_context = UserOptionalContext { user: None };
    let some_context = UserOptionalContext {
        user: Some(TemplateContextUser {
            id: 1,
            login: "ed".to_string(),
            html_url: "".to_string(),
            avatar_url: "".to_string(),
            permissions: vec!["admin".to_string()],
        }),
    };
    render_login_state(&none_context, &some_context);
}
