//! What holds of the login form's handler, whatever happens.
use vstd::prelude::*;

use crate::login::{
    post_first, post_next, Failure, Message, PostEvent, PostStep, RegistrationData, User,
};
use crate::reply::{Target, UserId};

verus! {

/// The step that the handler has reached after `events`.
pub open spec fn post_reached(data: RegistrationData, events: Seq<PostEvent>) -> PostStep
    decreases events.len(),
{
    if events.len() == 0 {
        post_first(data)
    } else {
        post_next(data, post_reached(data, events.drop_last()), events.last())
    }
}

/// Whether the form's token was found to be the session's.
pub open spec fn token_accepted(events: Seq<PostEvent>) -> bool {
    exists|i: int| 0 <= i < events.len() && #[trigger] events[i] == PostEvent::TokenChecked(true)
}

/// Whether, after that, the visitor's address was let in.
pub open spec fn address_let_in(events: Seq<PostEvent>) -> bool {
    exists|i: int|
        0 <= i < events.len() && #[trigger] events[i] == PostEvent::Attempts(None)
            && token_accepted(events.take(i))
}

/// Whether, after that, `user` was found.
pub open spec fn user_found(events: Seq<PostEvent>, user: User) -> bool {
    exists|i: int|
        0 <= i < events.len() && #[trigger] events[i] == PostEvent::UserFound(Some(user))
            && address_let_in(events.take(i))
}

/// Whether, after that, the password was found to be the one of `user`.
pub open spec fn password_accepted(events: Seq<PostEvent>, user: User) -> bool {
    exists|i: int|
        0 <= i < events.len() && #[trigger] events[i] == PostEvent::PasswordChecked(true)
            && user_found(events.take(i), user)
}

/// What must have happened for the handler to be at `step`.
spec fn post_justified(data: RegistrationData, events: Seq<PostEvent>, step: PostStep) -> bool {
    match step {
        PostStep::CheckAttempts => data.honeypot@.len() == 0 && token_accepted(events),
        PostStep::FindUser { .. } => data.honeypot@.len() == 0 && address_let_in(events),
        PostStep::CheckPassword { user, .. } => data.honeypot@.len() == 0 && user_found(
            events,
            user,
        ),
        PostStep::TakeForm { user } => data.honeypot@.len() == 0 && password_accepted(events, user),
        PostStep::RememberUser { id } => data.honeypot@.len() == 0 && exists|user: User|
            user.id == id && user.tfa_enabled && #[trigger] password_accepted(events, user),
        PostStep::SetUser { id } => data.honeypot@.len() == 0 && exists|user: User|
            user.id == id && !user.tfa_enabled && #[trigger] password_accepted(events, user),
        PostStep::Redirect(Target::Tfa) => data.honeypot@.len() == 0 && exists|user: User|
            user.tfa_enabled && #[trigger] password_accepted(events, user),
        PostStep::Redirect(Target::LastPage) => data.honeypot@.len() == 0 && exists|user: User|
            !user.tfa_enabled && #[trigger] password_accepted(events, user),
        _ => true,
    }
}

/// What happened stays so when more happens.
proof fn post_history_grows(events: Seq<PostEvent>)
    requires
        events.len() > 0,
    ensures
        token_accepted(events.drop_last()) ==> token_accepted(events),
        address_let_in(events.drop_last()) ==> address_let_in(events),
        forall|user: User| #[trigger]
            user_found(events.drop_last(), user) ==> user_found(events, user),
        forall|user: User| #[trigger]
            password_accepted(events.drop_last(), user) ==> password_accepted(events, user),
{
    let before = events.drop_last();
    assert forall|i: int| 0 <= i < before.len() implies #[trigger] before[i] == events[i]
        && before.take(i) == events.take(i) by {
        assert(before.take(i) =~= events.take(i));
    }
    if token_accepted(before) {
        let i = choose|i: int|
            0 <= i < before.len() && #[trigger] before[i] == PostEvent::TokenChecked(true);
        assert(events[i] == PostEvent::TokenChecked(true));
    }
    if address_let_in(before) {
        let i = choose|i: int|
            0 <= i < before.len() && #[trigger] before[i] == PostEvent::Attempts(None)
                && token_accepted(before.take(i));
        assert(events[i] == PostEvent::Attempts(None));
    }
    assert forall|user: User| #[trigger] user_found(before, user) implies user_found(
        events,
        user,
    ) by {
        let i = choose|i: int|
            0 <= i < before.len() && #[trigger] before[i] == PostEvent::UserFound(Some(user))
                && address_let_in(before.take(i));
        assert(events[i] == PostEvent::UserFound(Some(user)));
    }
    assert forall|user: User| #[trigger] password_accepted(before, user) implies password_accepted(
        events,
        user,
    ) by {
        let i = choose|i: int|
            0 <= i < before.len() && #[trigger] before[i] == PostEvent::PasswordChecked(true)
                && user_found(before.take(i), user);
        assert(events[i] == PostEvent::PasswordChecked(true));
    }
}

proof fn post_is_justified(data: RegistrationData, events: Seq<PostEvent>)
    ensures
        post_justified(data, events, post_reached(data, events)),
    decreases events.len(),
{
    if events.len() > 0 {
        let before = events.drop_last();
        let last = events.len() - 1;
        post_is_justified(data, before);
        post_history_grows(events);
        assert(events.take(last) =~= before);
        assert(events[last] == events.last());
        match post_reached(data, before) {
            PostStep::TakeForm { user } => {
                assert(password_accepted(events, user));
            },
            PostStep::RememberUser { id } => {
                let user = choose|user: User|
                    user.id == id && user.tfa_enabled && #[trigger] password_accepted(before, user);
                assert(password_accepted(events, user));
            },
            PostStep::SetUser { id } => {
                let user = choose|user: User|
                    user.id == id && !user.tfa_enabled && #[trigger] password_accepted(
                        before,
                        user,
                    );
                assert(password_accepted(events, user));
            },
            PostStep::Redirect(Target::Tfa) => {
                let user = choose|user: User|
                    user.tfa_enabled && #[trigger] password_accepted(before, user);
                assert(password_accepted(events, user));
            },
            PostStep::Redirect(Target::LastPage) => {
                let user = choose|user: User|
                    !user.tfa_enabled && #[trigger] password_accepted(before, user);
                assert(password_accepted(events, user));
            },
            _ => {},
        }
    }
}

/// Whatever happens and in whatever order, the session becomes a user's only if the invisible
/// field was left empty and if, one after the other, the token was accepted, the address was let
/// in, the user was found and the user's password was accepted; and if the user has no second
/// factor.
pub proof fn post_logs_in_by_password(data: RegistrationData, events: Seq<PostEvent>, id: UserId)
    requires
        post_reached(data, events) == (PostStep::SetUser { id }),
    ensures
        data.honeypot@.len() == 0,
        exists|user: User|
            user.id == id && !user.tfa_enabled && #[trigger] password_accepted(events, user),
{
    post_is_justified(data, events);
}

/// Whatever happens and in whatever order, a user is let on to the second factor only on the
/// same conditions; and if the user has one.
pub proof fn post_goes_on_by_password(data: RegistrationData, events: Seq<PostEvent>, id: UserId)
    requires
        post_reached(data, events) == (PostStep::RememberUser { id }),
    ensures
        data.honeypot@.len() == 0,
        exists|user: User|
            user.id == id && user.tfa_enabled && #[trigger] password_accepted(events, user),
{
    post_is_justified(data, events);
}

/// A form without the session's token, with the invisible field filled in, or from an address
/// that may not log in is turned down before any user is looked for.
pub proof fn post_looks_for_nobody_else(
    data: RegistrationData,
    events: Seq<PostEvent>,
    username: String,
)
    requires
        post_reached(data, events) == (PostStep::FindUser { username }),
    ensures
        data.honeypot@.len() == 0,
        address_let_in(events),
{
    post_is_justified(data, events);
}

/// How many steps are left at most.
pub open spec fn post_left(step: PostStep) -> nat {
    match step {
        PostStep::SaveForm { .. } => 9,
        PostStep::CheckToken { .. } => 8,
        PostStep::CheckAttempts => 7,
        PostStep::FindUser { .. } => 6,
        PostStep::CheckPassword { .. } => 5,
        PostStep::CountAttempt { .. } => 4,
        PostStep::Translate { .. } => 3,
        PostStep::AddError { .. } => 2,
        PostStep::TakeForm { .. } => 2,
        PostStep::RememberUser { .. } => 1,
        PostStep::SetUser { .. } => 1,
        PostStep::Redirect(_) => 0,
        PostStep::Fail(_) => 0,
    }
}

/// Every event that answers a step brings the handler nearer to its end, so it comes to one.
pub proof fn post_comes_to_an_end(data: RegistrationData, step: PostStep, event: PostEvent)
    ensures
        post_next(data, step, event) == step || post_left(post_next(data, step, event))
            < post_left(step),
{
}

/// How everything that the handler asks for turns out.
pub struct LoginWorld {
    pub token_accepted: bool,
    /// Why the address may not log in, if it may not.
    pub blocked: Option<String>,
    pub user: Option<User>,
    pub password_accepted: bool,
    /// Why the address may not log in again once another failure is counted, if it may not.
    pub blocked_now: Option<String>,
    /// The messages in the visitor's language.
    pub texts: spec_fn(Message) -> String,
}

/// What comes of `step` where everything turns out as `world` says.
pub open spec fn post_outcome(world: LoginWorld, step: PostStep) -> PostEvent {
    match step {
        PostStep::CheckToken { .. } => PostEvent::TokenChecked(world.token_accepted),
        PostStep::CheckAttempts => PostEvent::Attempts(world.blocked),
        PostStep::FindUser { .. } => PostEvent::UserFound(world.user),
        PostStep::CheckPassword { .. } => PostEvent::PasswordChecked(world.password_accepted),
        PostStep::CountAttempt { .. } => PostEvent::Attempts(world.blocked_now),
        PostStep::Translate { message } => PostEvent::Translated((world.texts)(message)),
        _ => PostEvent::Performed,
    }
}

/// The steps that the handler goes through from `step` on, `n` of them at most before the last.
pub open spec fn post_steps(
    data: RegistrationData,
    world: LoginWorld,
    step: PostStep,
    n: nat,
) -> Seq<PostStep>
    decreases n,
{
    if n == 0 || post_left(step) == 0 {
        seq![step]
    } else {
        seq![step] + post_steps(
            data,
            world,
            post_next(data, step, post_outcome(world, step)),
            (n - 1) as nat,
        )
    }
}

/// The visitor is told `text` and sent back to the form.
pub open spec fn told(text: String) -> Seq<PostStep> {
    seq![PostStep::AddError { text }, PostStep::Redirect(Target::Login)]
}

/// The visitor is told `message` and sent back to the form.
pub open spec fn told_message(world: LoginWorld, message: Message) -> Seq<PostStep> {
    seq![PostStep::Translate { message }] + told((world.texts)(message))
}

/// A failed attempt is counted. The visitor is told that it was the last one for now, or else
/// what was wrong.
pub open spec fn counted(world: LoginWorld, refusal: Message) -> Seq<PostStep> {
    seq![PostStep::CountAttempt { refusal }] + match world.blocked_now {
        Some(text) => told(text),
        None => told_message(world, refusal),
    }
}

/// What handling a login form comes to.
pub open spec fn post_story(data: RegistrationData, world: LoginWorld) -> Seq<PostStep> {
    seq![
        PostStep::SaveForm { username: data.username },
        PostStep::CheckToken { token: data.anti_csrf_token },
    ] + if !world.token_accepted {
        told_message(world, Message::Csrf)
    } else if data.honeypot@.len() != 0 {
        told_message(world, Message::Honeypot)
    } else {
        seq![PostStep::CheckAttempts] + match (world.blocked, world.user) {
            (Some(text), _) => told(text),
            (None, None) => seq![PostStep::FindUser { username: data.username }] + counted(
                world,
                Message::UnknownUsername,
            ),
            (None, Some(user)) => seq![
                PostStep::FindUser { username: data.username },
                PostStep::CheckPassword { user, password: data.password },
            ] + if !world.password_accepted {
                counted(world, Message::WrongPassword)
            } else if user.tfa_enabled {
                seq![
                    PostStep::TakeForm { user },
                    PostStep::RememberUser { id: user.id },
                    PostStep::Redirect(Target::Tfa),
                ]
            } else {
                seq![
                    PostStep::TakeForm { user },
                    PostStep::SetUser { id: user.id },
                    PostStep::Redirect(Target::LastPage),
                ]
            },
        }
    }
}

/// Where nothing fails, the handler does what the story says, step by step: what it asks for,
/// with what, in which order, and how it answers.
pub proof fn post_follows_the_story(data: RegistrationData, world: LoginWorld)
    ensures
        post_steps(data, world, post_first(data), 9) == post_story(data, world),
{
    reveal_with_fuel(post_steps, 10);
    assert(post_steps(data, world, post_first(data), 9) =~= post_story(data, world));
}

/// The handler gives up only where something that it asked for failed.
pub proof fn post_gives_up_on_failure(
    data: RegistrationData,
    step: PostStep,
    event: PostEvent,
    failure: Failure,
)
    requires
        post_left(step) > 0,
        post_next(data, step, event) == PostStep::Fail(failure),
    ensures
        event == PostEvent::Failed,
        failure == Failure::Outside,
{
}

} // verus!
