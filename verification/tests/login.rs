use webserver::login::{
    begin_post, get, post, tfa, Failure, Message, PostEvent, PostStep, RegistrationData, User,
};
use webserver::reply::{Page, Reply, Route, Target};

fn data(honeypot: &str) -> RegistrationData {
    RegistrationData {
        username: "ann".to_string(),
        password: "secret".to_string(),
        anti_csrf_token: "token".to_string(),
        honeypot: honeypot.to_string(),
    }
}

fn run(data: &RegistrationData, events: Vec<PostEvent>) -> PostStep {
    let mut step = begin_post(data);
    for event in events {
        step = post(data, step, event);
    }
    step
}

fn up_to_user() -> Vec<PostEvent> {
    vec![PostEvent::Performed, PostEvent::TokenChecked(true), PostEvent::Attempts(None)]
}

fn with(mut events: Vec<PostEvent>, more: Vec<PostEvent>) -> Vec<PostEvent> {
    events.extend(more);
    events
}

const ANN: User = User { id: 7, tfa_enabled: false };
const BOB: User = User { id: 8, tfa_enabled: true };

#[test]
fn login_form_is_shown_to_visitors() {
    let page = get(None, "sha256-abc");
    assert_eq!(page.reply, Reply::Page(Page::Login));
    assert_eq!(page.csp, vec!["style-src 'sha256-abc'".to_string()]);
    let page = get(Some(7), "sha256-abc");
    assert_eq!(page.reply, Reply::Redirect(Target::LastPage));
    assert!(page.csp.is_empty());
}

#[test]
fn second_form_is_shown_after_the_password() {
    assert_eq!(tfa(None, Some(8)), Reply::Page(Page::Tfa));
    assert_eq!(tfa(None, None), Reply::Redirect(Target::LastPage));
    assert_eq!(tfa(Some(8), Some(8)), Reply::Redirect(Target::LastPage));
    assert_eq!(tfa(Some(8), None), Reply::Redirect(Target::LastPage));
}

#[test]
fn pages_name_their_templates_and_links() {
    assert_eq!(Page::Login.template(), "auth/login");
    assert_eq!(Page::Tfa.template(), "auth/2fa");
    assert_eq!(Page::Paste.template(), "paste/index");
    assert_eq!(Page::DeletePaste.template(), "paste/delete/delete");
    assert_eq!(Page::EditPaste.template(), "paste/edit");
    assert_eq!(Page::Login.links(), vec![Route::LoginAction, Route::ForgotPassword]);
    assert_eq!(Page::Tfa.links(), vec![Route::TfaAction]);
    assert!(Page::Paste.links().is_empty());
    assert_eq!(Route::LoginAction.name(), "login_action");
    assert_eq!(Route::ForgotPassword.name(), "forgot_password");
    assert_eq!(Route::TfaAction.name(), "tfa_action");
}

#[test]
fn messages_have_their_keys() {
    assert_eq!(Message::Csrf.key(), ("error-csrf", None));
    assert_eq!(Message::Honeypot.key(), ("antispam-honeypot", Some("error")));
    assert_eq!(Message::UnknownUsername.key(), ("login-error", Some("username")));
    assert_eq!(Message::WrongPassword.key(), ("login-error", Some("password")));
    assert_eq!(Message::WrongTfa.key(), ("login-error", Some("tfa")));
}

#[test]
fn failures_have_their_texts() {
    assert_eq!(Failure::Outside.text(), None);
    assert_eq!(Failure::NoTotpCodes.text(), Some("could not generate totp codes"));
}

#[test]
fn the_username_alone_is_kept() {
    assert_eq!(begin_post(&data("")), PostStep::SaveForm { username: "ann".to_string() });
}

#[test]
fn a_right_password_logs_in() {
    let data = data("");
    let events = up_to_user();
    assert_eq!(run(&data, events), PostStep::FindUser { username: "ann".to_string() });
    let events = with(up_to_user(), vec![PostEvent::UserFound(Some(ANN))]);
    assert_eq!(
        run(&data, events),
        PostStep::CheckPassword { user: ANN, password: "secret".to_string() },
    );
    let mut events = with(
        up_to_user(),
        vec![PostEvent::UserFound(Some(ANN)), PostEvent::PasswordChecked(true)],
    );
    let mut step = begin_post(&data);
    for event in events.drain(..) {
        step = post(&data, step, event);
    }
    assert_eq!(step, PostStep::TakeForm { user: ANN });
    step = post(&data, step, PostEvent::Performed);
    assert_eq!(step, PostStep::SetUser { id: 7 });
    step = post(&data, step, PostEvent::Performed);
    assert_eq!(step, PostStep::Redirect(Target::LastPage));
}

#[test]
fn a_second_factor_is_asked_for() {
    let data = data("");
    let start = with(
        up_to_user(),
        vec![
            PostEvent::UserFound(Some(BOB)),
            PostEvent::PasswordChecked(true),
            PostEvent::Performed,
        ],
    );
    let step = run(&data, start);
    assert_eq!(step, PostStep::RememberUser { id: 8 });
    let step = post(&data, step, PostEvent::Performed);
    assert_eq!(step, PostStep::Redirect(Target::Tfa));
}

#[test]
fn a_foreign_token_is_turned_down() {
    let data = data("");
    let step = run(&data, vec![PostEvent::Performed]);
    assert_eq!(step, PostStep::CheckToken { token: "token".to_string() });
    let step = post(&data, step, PostEvent::TokenChecked(false));
    assert_eq!(step, PostStep::Translate { message: Message::Csrf });
    let step = post(&data, step, PostEvent::Translated("no".to_string()));
    assert_eq!(step, PostStep::AddError { text: "no".to_string() });
    let step = post(&data, step, PostEvent::Performed);
    assert_eq!(step, PostStep::Redirect(Target::Login));
}

#[test]
fn a_robot_is_turned_down() {
    let data = data("me@example.com");
    let step = run(&data, vec![PostEvent::Performed, PostEvent::TokenChecked(true)]);
    assert_eq!(step, PostStep::Translate { message: Message::Honeypot });
}

#[test]
fn a_blocked_address_is_turned_down() {
    let data = data("");
    let step = run(
        &data,
        vec![
            PostEvent::Performed,
            PostEvent::TokenChecked(true),
            PostEvent::Attempts(Some("wait".to_string())),
        ],
    );
    assert_eq!(step, PostStep::AddError { text: "wait".to_string() });
}

#[test]
fn failed_attempts_are_counted() {
    let data = data("");
    let step = run(&data, with(up_to_user(), vec![PostEvent::UserFound(None)]));
    assert_eq!(step, PostStep::CountAttempt { refusal: Message::UnknownUsername });
    let step = post(&data, step, PostEvent::Attempts(None));
    assert_eq!(step, PostStep::Translate { message: Message::UnknownUsername });
    let step = run(
        &data,
        with(
            up_to_user(),
            vec![PostEvent::UserFound(Some(ANN)), PostEvent::PasswordChecked(false)],
        ),
    );
    assert_eq!(step, PostStep::CountAttempt { refusal: Message::WrongPassword });
    let step = post(&data, step, PostEvent::Attempts(Some("last".to_string())));
    assert_eq!(step, PostStep::AddError { text: "last".to_string() });
}

#[test]
fn outside_failures_end_the_login() {
    let data = data("");
    let step = run(
        &data,
        vec![PostEvent::Performed, PostEvent::TokenChecked(true), PostEvent::Failed],
    );
    assert_eq!(step, PostStep::Fail(Failure::Outside));
    let step = run(&data, with(up_to_user(), vec![PostEvent::Failed]));
    assert_eq!(step, PostStep::Fail(Failure::Outside));
}

#[test]
fn events_that_do_not_answer_change_nothing() {
    let data = data("");
    let step = post(&data, begin_post(&data), PostEvent::PasswordChecked(true));
    assert_eq!(step, begin_post(&data));
    let step = post(&data, PostStep::Redirect(Target::Login), PostEvent::Performed);
    assert_eq!(step, PostStep::Redirect(Target::Login));
}
