//! What comes of a login form, for every form and every user: who gets in, who is turned down,
//! and what the visitor is told.
use vstd::prelude::*;

use crate::login::{
    post_first, post_next, style_policy, Failure, Message, PostEvent, PostStep, RegistrationData,
    User,
};
use crate::reply::Target;

verus! {

/// The policy allows styles of the hash itself, and of nothing else: the hash stands between
/// two quotes, after the name of the directive.
pub proof fn policy_names_the_hash(hash: Seq<char>)
    ensures
        style_policy(hash).len() == hash.len() + 12,
        style_policy(hash).take(11) =~= "style-src '"@,
        style_policy(hash).subrange(11, 11 + hash.len() as int) =~= hash,
        style_policy(hash).last() == '\'',
{
    reveal_strlit("style-src '");
    reveal_strlit("'");
}

/// The username is kept, and nothing else of the form; then the form's own token is checked.
pub proof fn token_is_checked_first(data: RegistrationData)
    ensures
        post_first(data) == (PostStep::SaveForm { username: data.username }),
        post_next(data, post_first(data), PostEvent::Performed) == (PostStep::CheckToken {
            token: data.anti_csrf_token,
        }),
{
}

/// Who is told something is sent back to the login form, and told it as it was translated.
pub proof fn message_is_told_at_the_form(data: RegistrationData, message: Message, text: String)
    ensures
        ({
            let step = PostStep::Translate { message };
            let step = post_next(data, step, PostEvent::Translated(text));
            &&& step == (PostStep::AddError { text })
            &&& post_next(data, step, PostEvent::Performed) == PostStep::Redirect(Target::Login)
        }),
{
}

/// A form that does not carry the session's token is told so, whatever else it holds.
pub proof fn foreign_token_is_turned_down(data: RegistrationData)
    ensures
        ({
            let step = post_next(data, post_first(data), PostEvent::Performed);
            post_next(data, step, PostEvent::TokenChecked(false)) == (PostStep::Translate {
                message: Message::Csrf,
            })
        }),
{
}

/// Who fills in the invisible field is turned down for it, with the right token too; who leaves
/// it empty goes on.
pub proof fn honeypot_catches_robots(data: RegistrationData)
    ensures
        ({
            let step = post_next(data, post_first(data), PostEvent::Performed);
            let step = post_next(data, step, PostEvent::TokenChecked(true));
            &&& data.honeypot@.len() > 0 ==> step == (PostStep::Translate {
                message: Message::Honeypot,
            })
            &&& data.honeypot@.len() == 0 ==> step == PostStep::CheckAttempts
        }),
{
}

/// An address that may not log in is told why and sent back; one that may is asked nothing more
/// before the user is looked for, by the name in the form.
pub proof fn blocked_address_is_told_why(data: RegistrationData, reason: String)
    requires
        data.honeypot@.len() == 0,
    ensures
        ({
            let step = post_next(data, post_first(data), PostEvent::Performed);
            let step = post_next(data, step, PostEvent::TokenChecked(true));
            let blocked = post_next(data, step, PostEvent::Attempts(Some(reason)));
            &&& blocked == (PostStep::AddError { text: reason })
            &&& post_next(data, blocked, PostEvent::Performed) == PostStep::Redirect(Target::Login)
            &&& post_next(data, step, PostEvent::Attempts(None)) == (PostStep::FindUser {
                username: data.username,
            })
        }),
{
}

/// Whoever is found under the name in the form, the password in the form is checked against
/// theirs.
pub proof fn password_is_checked(data: RegistrationData, user: User)
    requires
        data.honeypot@.len() == 0,
    ensures
        ({
            let step = post_next(data, post_first(data), PostEvent::Performed);
            let step = post_next(data, step, PostEvent::TokenChecked(true));
            let step = post_next(data, step, PostEvent::Attempts(None));
            post_next(data, step, PostEvent::UserFound(Some(user))) == (PostStep::CheckPassword {
                user,
                password: data.password,
            })
        }),
{
}

/// The right password logs a user in who has no second factor: the form is dropped, the session
/// becomes the user's, and the visitor goes back to where they were.
pub proof fn right_password_logs_in(data: RegistrationData, user: User)
    requires
        data.honeypot@.len() == 0,
        !user.tfa_enabled,
    ensures
        ({
            let step = post_next(data, post_first(data), PostEvent::Performed);
            let step = post_next(data, step, PostEvent::TokenChecked(true));
            let step = post_next(data, step, PostEvent::Attempts(None));
            let step = post_next(data, step, PostEvent::UserFound(Some(user)));
            let taken = post_next(data, step, PostEvent::PasswordChecked(true));
            let set = post_next(data, taken, PostEvent::Performed);
            &&& taken == (PostStep::TakeForm { user })
            &&& set == (PostStep::SetUser { id: user.id })
            &&& post_next(data, set, PostEvent::Performed) == PostStep::Redirect(Target::LastPage)
        }),
{
}

/// The right password lets a user who has a second factor on to it, and no further.
pub proof fn right_password_leads_to_the_second_factor(data: RegistrationData, user: User)
    requires
        data.honeypot@.len() == 0,
        user.tfa_enabled,
    ensures
        ({
            let step = post_next(data, post_first(data), PostEvent::Performed);
            let step = post_next(data, step, PostEvent::TokenChecked(true));
            let step = post_next(data, step, PostEvent::Attempts(None));
            let step = post_next(data, step, PostEvent::UserFound(Some(user)));
            let taken = post_next(data, step, PostEvent::PasswordChecked(true));
            let kept = post_next(data, taken, PostEvent::Performed);
            &&& taken == (PostStep::TakeForm { user })
            &&& kept == (PostStep::RememberUser { id: user.id })
            &&& post_next(data, kept, PostEvent::Performed) == PostStep::Redirect(Target::Tfa)
        }),
{
}

/// A name that nobody has and a wrong password are counted against the address. The visitor is
/// told that the address may not go on, if it may not, or else which of the two was wrong.
pub proof fn wrong_name_or_password_is_counted(data: RegistrationData, user: User, last: String)
    requires
        data.honeypot@.len() == 0,
    ensures
        ({
            let step = post_next(data, post_first(data), PostEvent::Performed);
            let step = post_next(data, step, PostEvent::TokenChecked(true));
            let step = post_next(data, step, PostEvent::Attempts(None));
            let nobody = post_next(data, step, PostEvent::UserFound(None));
            let step = post_next(data, step, PostEvent::UserFound(Some(user)));
            let wrong = post_next(data, step, PostEvent::PasswordChecked(false));
            &&& nobody is CountAttempt
            &&& wrong is CountAttempt
            &&& post_next(data, nobody, PostEvent::Attempts(Some(last))) == (PostStep::AddError {
                text: last,
            })
            &&& post_next(data, wrong, PostEvent::Attempts(Some(last))) == (PostStep::AddError {
                text: last,
            })
            &&& post_next(data, nobody, PostEvent::Attempts(None)) == (PostStep::Translate {
                message: Message::UnknownUsername,
            })
            &&& post_next(data, wrong, PostEvent::Attempts(None)) == (PostStep::Translate {
                message: Message::WrongPassword,
            })
        }),
{
}

/// What can fail ends the handler where it does fail: asking for or counting attempts, looking
/// for the user, translating, and remembering the user.
pub proof fn failure_ends_the_login(data: RegistrationData, step: PostStep)
    requires
        step is CheckAttempts || step is FindUser || step is CountAttempt || step is Translate
            || step is RememberUser,
    ensures
        post_next(data, step, PostEvent::Failed) == PostStep::Fail(Failure::Outside),
{
}

/// Nothing moves the handler but an answer to what it asked for; at its end, nothing does.
pub proof fn login_waits_for_its_answer(data: RegistrationData, step: PostStep, event: PostEvent)
    requires
        step is SaveForm || step is AddError || step is TakeForm || step is SetUser
            ==> event !is Performed,
        step is RememberUser ==> event !is Performed && event !is Failed,
        step is CheckToken ==> event !is TokenChecked,
        step is CheckAttempts || step is CountAttempt ==> event !is Attempts && event !is Failed,
        step is FindUser ==> event !is UserFound && event !is Failed,
        step is CheckPassword ==> event !is PasswordChecked,
        step is Translate ==> event !is Translated && event !is Failed,
    ensures
        post_next(data, step, event) == step,
{
}

} // verus!
