//! Logging in: the login form, the password, and the form for the second factor.
//!
//! The handler of the login form talks to the session and the database, so it is a step
//! function. A step names what is to be done next; what came of it is an event; the handler's
//! function takes both and gives the next step.
use vstd::prelude::*;

use crate::reply::{Page, Reply, Target, UserId};

verus! {

/// What the login form submits.
pub struct RegistrationData {
    pub username: String,
    pub password: String,
    pub anti_csrf_token: String,
    /// The text of a field that visitors do not see: only a robot fills it in.
    pub honeypot: String,
}

/// A message that the visitor is told in their own language.
#[derive(Debug, Clone, Copy, PartialEq, Eq, Structural)]
pub enum Message {
    /// The form does not carry the token of the session.
    Csrf,
    /// The invisible field was filled in.
    Honeypot,
    /// There is no user of that name.
    UnknownUsername,
    /// The password is wrong.
    WrongPassword,
    /// The second factor is wrong.
    WrongTfa,
}

/// The entry of a message in the translations, and the attribute of it that holds the text.
pub open spec fn message_key(message: Message) -> (Seq<char>, Option<Seq<char>>) {
    match message {
        Message::Csrf => ("error-csrf"@, None),
        Message::Honeypot => ("antispam-honeypot"@, Some("error"@)),
        Message::UnknownUsername => ("login-error"@, Some("username"@)),
        Message::WrongPassword => ("login-error"@, Some("password"@)),
        Message::WrongTfa => ("login-error"@, Some("tfa"@)),
    }
}

impl Message {
    /// The entry of the message in the translations, and the attribute of it, if the text is
    /// not the entry's own.
    pub fn key(self) -> (key: (&'static str, Option<&'static str>))
        ensures
            key.0@ == message_key(self).0,
            key.1 is Some <==> message_key(self).1 is Some,
            key.1 matches Some(attribute) ==> Some(attribute@) == message_key(self).1,
    {
        match self {
            Message::Csrf => ("error-csrf", None),
            Message::Honeypot => ("antispam-honeypot", Some("error")),
            Message::UnknownUsername => ("login-error", Some("username")),
            Message::WrongPassword => ("login-error", Some("password")),
            Message::WrongTfa => ("login-error", Some("tfa")),
        }
    }
}

/// Why a handler gives up without a reply of its own.
#[derive(Debug, Clone, Copy, PartialEq, Eq, Structural)]
pub enum Failure {
    /// Something that a step asked for failed.
    Outside,
    /// The user's secret yields no codes.
    NoTotpCodes,
}

impl Failure {
    /// What the failure is called, unless what failed says so itself.
    pub fn text(self) -> (text: Option<&'static str>)
        ensures
            text is Some <==> self == Failure::NoTotpCodes,
            text matches Some(text) ==> text@ == "could not generate totp codes"@,
    {
        match self {
            Failure::Outside => None,
            Failure::NoTotpCodes => Some("could not generate totp codes"),
        }
    }
}

/// A reply together with what the content security policy is to allow besides.
pub struct AddCsp {
    pub reply: Reply,
    pub csp: Vec<String>,
}

/// The policy that allows the style of the honeypot field, given the style's hash.
pub open spec fn style_policy(integrity_hash: Seq<char>) -> Seq<char> {
    "style-src '"@ + integrity_hash + "'"@
}

/// Shows the login form. A visitor who is logged in is sent back.
pub fn get(user: Option<UserId>, integrity_hash: &str) -> (page: AddCsp)
    ensures
        user is Some ==> page.reply == Reply::Redirect(Target::LastPage) && page.csp@.len() == 0,
        user is None ==> page.reply == Reply::Page(Page::Login) && page.csp@.len() == 1
            && page.csp@[0]@ == style_policy(integrity_hash@),
{
    if user.is_some() {
        return AddCsp { reply: Reply::Redirect(Target::LastPage), csp: Vec::new() };
    }
    let mut policy = String::new();
    policy.append("style-src '");
    policy.append(integrity_hash);
    policy.append("'");
    assert(policy@ =~= style_policy(integrity_hash@));
    let mut csp: Vec<String> = Vec::new();
    csp.push(policy);
    AddCsp { reply: Reply::Page(Page::Login), csp }
}

/// Shows the form for the second factor to a visitor whose password was right, and to nobody
/// else.
pub fn tfa(user: Option<UserId>, potential_user: Option<UserId>) -> (reply: Reply)
    ensures
        user is None && potential_user is Some ==> reply == Reply::Page(Page::Tfa),
        user is Some || potential_user is None ==> reply == Reply::Redirect(Target::LastPage),
{
    if user.is_some() || potential_user.is_none() {
        Reply::Redirect(Target::LastPage)
    } else {
        Reply::Page(Page::Tfa)
    }
}

/// The user that a login form names.
#[derive(Debug, Clone, Copy, PartialEq, Eq, Structural)]
pub struct User {
    pub id: UserId,
    pub tfa_enabled: bool,
}

/// What the handler of the login form does next.
#[derive(Debug, PartialEq, Eq)]
pub enum PostStep {
    /// Keep the form in the session, to fill it in again: the username, and nothing else of it.
    SaveForm { username: String },
    /// Check the form's token against the session.
    CheckToken { token: String },
    /// Ask whether the visitor's address may try to log in.
    CheckAttempts,
    /// Look for the user of this name.
    FindUser { username: String },
    /// Check the password of the user.
    CheckPassword { user: User, password: String },
    /// Count a failed attempt against the visitor's address.
    CountAttempt { refusal: Message },
    /// Translate a message.
    Translate { message: Message },
    /// Keep a text in the session as the error to show.
    AddError { text: String },
    /// Drop the form from the session.
    TakeForm { user: User },
    /// Remember the user until the second factor is given.
    RememberUser { id: UserId },
    /// Make the session the user's.
    SetUser { id: UserId },
    /// Answer with a redirect: the handler is done.
    Redirect(Target),
    /// Give up: the handler is done.
    Fail(Failure),
}

/// What came of a step of the handler of the login form.
#[derive(Debug, PartialEq, Eq)]
pub enum PostEvent {
    /// It was done.
    Performed,
    /// Whether the token is the session's.
    TokenChecked(bool),
    /// Why the address may not go on, if it may not.
    Attempts(Option<String>),
    /// The user, if there is one.
    UserFound(Option<User>),
    /// Whether the password is the user's.
    PasswordChecked(bool),
    /// The message in the visitor's language.
    Translated(String),
    /// It failed.
    Failed,
}

/// The first step of the handler of the login form.
pub open spec fn post_first(data: RegistrationData) -> PostStep {
    PostStep::SaveForm { username: data.username }
}

/// The step that follows `step` when `event` came of it. An event that does not answer the step
/// changes nothing.
pub open spec fn post_next(data: RegistrationData, step: PostStep, event: PostEvent) -> PostStep {
    match (step, event) {
        (PostStep::SaveForm { .. }, PostEvent::Performed) => PostStep::CheckToken {
            token: data.anti_csrf_token,
        },
        (PostStep::CheckToken { .. }, PostEvent::TokenChecked(ours)) => if !ours {
            PostStep::Translate { message: Message::Csrf }
        } else if data.honeypot@.len() != 0 {
            PostStep::Translate { message: Message::Honeypot }
        } else {
            PostStep::CheckAttempts
        },
        (PostStep::CheckAttempts, PostEvent::Attempts(Some(text))) => PostStep::AddError { text },
        (PostStep::CheckAttempts, PostEvent::Attempts(None)) => PostStep::FindUser {
            username: data.username,
        },
        (PostStep::FindUser { .. }, PostEvent::UserFound(Some(user))) => PostStep::CheckPassword {
            user,
            password: data.password,
        },
        (PostStep::FindUser { .. }, PostEvent::UserFound(None)) => PostStep::CountAttempt {
            refusal: Message::UnknownUsername,
        },
        (PostStep::CheckPassword { user, .. }, PostEvent::PasswordChecked(right)) => if right {
            PostStep::TakeForm { user }
        } else {
            PostStep::CountAttempt { refusal: Message::WrongPassword }
        },
        (PostStep::CountAttempt { .. }, PostEvent::Attempts(Some(text))) => PostStep::AddError {
            text,
        },
        (PostStep::CountAttempt { refusal }, PostEvent::Attempts(None)) => PostStep::Translate {
            message: refusal,
        },
        (PostStep::Translate { .. }, PostEvent::Translated(text)) => PostStep::AddError { text },
        (PostStep::AddError { .. }, PostEvent::Performed) => PostStep::Redirect(Target::Login),
        (PostStep::TakeForm { user }, PostEvent::Performed) => if user.tfa_enabled {
            PostStep::RememberUser { id: user.id }
        } else {
            PostStep::SetUser { id: user.id }
        },
        (PostStep::RememberUser { .. }, PostEvent::Performed) => PostStep::Redirect(Target::Tfa),
        (PostStep::SetUser { .. }, PostEvent::Performed) => PostStep::Redirect(Target::LastPage),
        (
            PostStep::CheckAttempts
            | PostStep::FindUser { .. }
            | PostStep::CountAttempt { .. }
            | PostStep::Translate { .. }
            | PostStep::RememberUser { .. },
            PostEvent::Failed,
        ) => PostStep::Fail(Failure::Outside),
        _ => step,
    }
}

/// Starts to handle a login form.
pub fn begin_post(data: &RegistrationData) -> (step: PostStep)
    ensures
        step == post_first(*data),
{
    PostStep::SaveForm { username: data.username.clone() }
}

/// Goes on with a login form when `event` came of `step`.
pub fn post(data: &RegistrationData, step: PostStep, event: PostEvent) -> (next: PostStep)
    ensures
        next == post_next(*data, step, event),
{
    match (step, event) {
        (PostStep::SaveForm { .. }, PostEvent::Performed) => PostStep::CheckToken {
            token: data.anti_csrf_token.clone(),
        },
        (PostStep::CheckToken { .. }, PostEvent::TokenChecked(ours)) => {
            if !ours {
                PostStep::Translate { message: Message::Csrf }
            } else if !data.honeypot.as_str().is_empty() {
                PostStep::Translate { message: Message::Honeypot }
            } else {
                PostStep::CheckAttempts
            }
        },
        (PostStep::CheckAttempts, PostEvent::Attempts(Some(text))) => PostStep::AddError { text },
        (PostStep::CheckAttempts, PostEvent::Attempts(None)) => PostStep::FindUser {
            username: data.username.clone(),
        },
        (PostStep::FindUser { .. }, PostEvent::UserFound(Some(user))) => PostStep::CheckPassword {
            user,
            password: data.password.clone(),
        },
        (PostStep::FindUser { .. }, PostEvent::UserFound(None)) => PostStep::CountAttempt {
            refusal: Message::UnknownUsername,
        },
        (PostStep::CheckPassword { user, .. }, PostEvent::PasswordChecked(right)) => {
            if right {
                PostStep::TakeForm { user }
            } else {
                PostStep::CountAttempt { refusal: Message::WrongPassword }
            }
        },
        (PostStep::CountAttempt { .. }, PostEvent::Attempts(Some(text))) => PostStep::AddError {
            text,
        },
        (PostStep::CountAttempt { refusal }, PostEvent::Attempts(None)) => PostStep::Translate {
            message: refusal,
        },
        (PostStep::Translate { .. }, PostEvent::Translated(text)) => PostStep::AddError { text },
        (PostStep::AddError { .. }, PostEvent::Performed) => PostStep::Redirect(Target::Login),
        (PostStep::TakeForm { user }, PostEvent::Performed) => {
            if user.tfa_enabled {
                PostStep::RememberUser { id: user.id }
            } else {
                PostStep::SetUser { id: user.id }
            }
        },
        (PostStep::RememberUser { .. }, PostEvent::Performed) => PostStep::Redirect(Target::Tfa),
        (PostStep::SetUser { .. }, PostEvent::Performed) => PostStep::Redirect(Target::LastPage),
        (
            PostStep::CheckAttempts
            | PostStep::FindUser { .. }
            | PostStep::CountAttempt { .. }
            | PostStep::Translate { .. }
            | PostStep::RememberUser { .. },
            PostEvent::Failed,
        ) => PostStep::Fail(Failure::Outside),
        (step, _) => step,
    }
}

} // verus!
