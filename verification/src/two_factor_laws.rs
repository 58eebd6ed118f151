//! What holds of the second factor's handler, whatever happens.
use vstd::prelude::*;
use vstd::utf8::encode_utf8;

use crate::login::{Failure, Message};
use crate::reply::{Target, UserId};
use crate::text::parsed;
use crate::two_factor::{
    tfa_check, tfa_first, tfa_next, OtpKey, PotentialUser, TfaEvent, TfaStep, TwoFactor,
    BACKUP_CODE_LENGTH, OTP_LENGTH, OTP_SECONDS,
};

verus! {

/// The step that the handler has reached after `events`.
pub open spec fn tfa_reached(form: TwoFactor, events: Seq<TfaEvent>) -> TfaStep
    decreases events.len(),
{
    if events.len() == 0 {
        tfa_first(form)
    } else {
        tfa_next(form, tfa_reached(form, events.drop_last()), events.last())
    }
}

/// Whether the form's token was found to be the session's.
pub open spec fn token_accepted(events: Seq<TfaEvent>) -> bool {
    exists|i: int| 0 <= i < events.len() && #[trigger] events[i] == TfaEvent::TokenChecked(true)
}

/// Whether, after that, `user` was found to be the one whose password was right.
pub open spec fn user_found(events: Seq<TfaEvent>, user: PotentialUser) -> bool {
    exists|i: int|
        0 <= i < events.len() && #[trigger] events[i] == TfaEvent::UserFound(Some(user))
            && token_accepted(events.take(i))
}

/// Whether, after that, the one-time code was found to be unused.
pub open spec fn code_unused(events: Seq<TfaEvent>, user: PotentialUser) -> bool {
    exists|i: int|
        0 <= i < events.len() && #[trigger] events[i] == TfaEvent::OtpFound(false) && user_found(
            events.take(i),
            user,
        )
}

/// Whether, after that, `code` was found among the codes that the user's secret yields.
pub open spec fn code_matched(events: Seq<TfaEvent>, user: PotentialUser, code: u64) -> bool {
    exists|i: int|
        0 <= i < events.len() && (#[trigger] events[i] matches TfaEvent::Codes(Some(codes))
            && codes@.contains(code)) && code_unused(events.take(i), user)
}

/// Whether, after that, it was remembered that the code is used.
pub open spec fn code_stored(events: Seq<TfaEvent>, user: PotentialUser, code: u64) -> bool {
    exists|i: int|
        0 <= i < events.len() && #[trigger] events[i] == TfaEvent::Performed && code_matched(
            events.take(i),
            user,
            code,
        )
}

/// Whether, after the user was found, a backup code of the user's was deleted.
pub open spec fn backup_code_taken(events: Seq<TfaEvent>, user: PotentialUser) -> bool {
    exists|i: int|
        0 <= i < events.len() && #[trigger] events[i] == TfaEvent::BackupCodeTaken(true)
            && user_found(events.take(i), user)
}

/// Whether the form's code can be a one-time code of the user's: it has the length of one, it
/// spells a number, and the user has a secret.
pub open spec fn one_time_code(form: TwoFactor, user: PotentialUser) -> bool {
    encode_utf8(form.code@).len() == OTP_LENGTH && parsed(form.code@) is Some
        && user.shared_secret is Some
}

/// Whether the second factor was given: the user has none, or gave a one-time code that was
/// unused, matched and is remembered as used from now on, or a backup code that is deleted now.
pub open spec fn second_factor_given(
    form: TwoFactor,
    events: Seq<TfaEvent>,
    user: PotentialUser,
) -> bool {
    user_found(events, user) && (!user.tfa_enabled || one_time_code(form, user) && code_stored(
        events,
        user,
        parsed(form.code@)->0,
    ) || encode_utf8(form.code@).len() == BACKUP_CODE_LENGTH && backup_code_taken(events, user))
}

/// The key of the form's code.
spec fn key_fits(form: TwoFactor, user: PotentialUser, key: OtpKey) -> bool {
    key.user == user.label && parsed(form.code@) == Some(key.code)
}

/// What must have happened for the handler to be at `step`.
spec fn tfa_justified(form: TwoFactor, events: Seq<TfaEvent>, step: TfaStep) -> bool {
    match step {
        TfaStep::FindUser => token_accepted(events),
        TfaStep::FindOtp { user, key } => user_found(events, user) && one_time_code(form, user)
            && key_fits(form, user, key),
        TfaStep::ComputeCodes { user, key } => user_found(events, user) && one_time_code(form, user)
            && key_fits(form, user, key) && code_unused(events, user),
        TfaStep::StoreOtp { id, key, seconds } => seconds == OTP_SECONDS && exists|
            user: PotentialUser,
        | #[trigger]
            user_found(events, user) && user.id == id && one_time_code(form, user) && key_fits(
                form,
                user,
                key,
            ) && code_matched(events, user, key.code),
        TfaStep::TakeBackupCode { id, code } => code == form.code && encode_utf8(form.code@).len()
            == BACKUP_CODE_LENGTH && exists|user: PotentialUser| #[trigger]
            user_found(events, user) && user.id == id,
        TfaStep::SetUser { id } => exists|user: PotentialUser| #[trigger]
            second_factor_given(form, events, user) && user.id == id,
        TfaStep::ForgetUser => exists|user: PotentialUser| #[trigger]
            second_factor_given(form, events, user),
        _ => true,
    }
}

/// What happened stays so when more happens.
proof fn tfa_history_grows(form: TwoFactor, events: Seq<TfaEvent>)
    requires
        events.len() > 0,
    ensures
        token_accepted(events.drop_last()) ==> token_accepted(events),
        forall|user: PotentialUser| #[trigger]
            user_found(events.drop_last(), user) ==> user_found(events, user),
        forall|user: PotentialUser| #[trigger]
            code_unused(events.drop_last(), user) ==> code_unused(events, user),
        forall|user: PotentialUser, code: u64| #[trigger]
            code_matched(events.drop_last(), user, code) ==> code_matched(events, user, code),
        forall|user: PotentialUser, code: u64| #[trigger]
            code_stored(events.drop_last(), user, code) ==> code_stored(events, user, code),
        forall|user: PotentialUser| #[trigger]
            backup_code_taken(events.drop_last(), user) ==> backup_code_taken(events, user),
        forall|user: PotentialUser| #[trigger]
            second_factor_given(form, events.drop_last(), user) ==> second_factor_given(
                form,
                events,
                user,
            ),
{
    let before = events.drop_last();
    assert forall|i: int| 0 <= i < before.len() implies #[trigger] before[i] == events[i]
        && before.take(i) == events.take(i) by {
        assert(before.take(i) =~= events.take(i));
    }
    if token_accepted(before) {
        let i = choose|i: int|
            0 <= i < before.len() && #[trigger] before[i] == TfaEvent::TokenChecked(true);
        assert(events[i] == TfaEvent::TokenChecked(true));
    }
    assert forall|user: PotentialUser| #[trigger] user_found(before, user) implies user_found(
        events,
        user,
    ) by {
        let i = choose|i: int|
            0 <= i < before.len() && #[trigger] before[i] == TfaEvent::UserFound(Some(user))
                && token_accepted(before.take(i));
        assert(events[i] == TfaEvent::UserFound(Some(user)));
    }
    assert forall|user: PotentialUser| #[trigger] code_unused(before, user) implies code_unused(
        events,
        user,
    ) by {
        let i = choose|i: int|
            0 <= i < before.len() && #[trigger] before[i] == TfaEvent::OtpFound(false)
                && user_found(before.take(i), user);
        assert(events[i] == TfaEvent::OtpFound(false));
    }
    assert forall|user: PotentialUser, code: u64| #[trigger]
        code_matched(before, user, code) implies code_matched(events, user, code) by {
        let i = choose|i: int|
            0 <= i < before.len() && (#[trigger] before[i] matches TfaEvent::Codes(Some(codes))
                && codes@.contains(code)) && code_unused(before.take(i), user);
        assert(events[i] == before[i]);
    }
    assert forall|user: PotentialUser, code: u64| #[trigger]
        code_stored(before, user, code) implies code_stored(events, user, code) by {
        let i = choose|i: int|
            0 <= i < before.len() && #[trigger] before[i] == TfaEvent::Performed && code_matched(
                before.take(i),
                user,
                code,
            );
        assert(events[i] == TfaEvent::Performed);
    }
    assert forall|user: PotentialUser| #[trigger]
        backup_code_taken(before, user) implies backup_code_taken(events, user) by {
        let i = choose|i: int|
            0 <= i < before.len() && #[trigger] before[i] == TfaEvent::BackupCodeTaken(true)
                && user_found(before.take(i), user);
        assert(events[i] == TfaEvent::BackupCodeTaken(true));
    }
}

proof fn tfa_is_justified(form: TwoFactor, events: Seq<TfaEvent>)
    ensures
        tfa_justified(form, events, tfa_reached(form, events)),
    decreases events.len(),
{
    if events.len() > 0 {
        let before = events.drop_last();
        let last = events.len() - 1;
        let next = tfa_reached(form, events);
        tfa_is_justified(form, before);
        tfa_history_grows(form, events);
        assert(events.take(last) =~= before);
        assert(events[last] == events.last());
        match tfa_reached(form, before) {
            TfaStep::FindUser => {
                if let TfaEvent::UserFound(Some(user)) = events.last() {
                    assert(user_found(events, user));
                    assert(!user.tfa_enabled ==> second_factor_given(form, events, user));
                }
            },
            TfaStep::ComputeCodes { user, key } => {
                assert(user_found(events, user));
                if next is StoreOtp {
                    assert(code_matched(events, user, key.code));
                }
            },
            TfaStep::StoreOtp { id, key, .. } => {
                let user = choose|user: PotentialUser| #[trigger]
                    user_found(before, user) && user.id == id && one_time_code(form, user)
                        && key_fits(form, user, key) && code_matched(before, user, key.code);
                assert(user_found(events, user));
                if next is SetUser {
                    assert(code_stored(events, user, key.code));
                    assert(second_factor_given(form, events, user));
                }
            },
            TfaStep::TakeBackupCode { id, .. } => {
                let user = choose|user: PotentialUser| #[trigger]
                    user_found(before, user) && user.id == id;
                assert(user_found(events, user));
                if next is SetUser {
                    assert(backup_code_taken(events, user));
                    assert(second_factor_given(form, events, user));
                }
            },
            TfaStep::SetUser { id } => {
                let user = choose|user: PotentialUser| #[trigger]
                    second_factor_given(form, before, user) && user.id == id;
                assert(second_factor_given(form, events, user));
            },
            TfaStep::ForgetUser => {
                let user = choose|user: PotentialUser| #[trigger]
                    second_factor_given(form, before, user);
                assert(second_factor_given(form, events, user));
            },
            _ => {},
        }
    }
}

/// Whatever happens and in whatever order, the session becomes a user's only if the token was
/// accepted, the user was found to be the one whose password was right, and the second factor
/// was given.
pub proof fn tfa_logs_in_by_second_factor(form: TwoFactor, events: Seq<TfaEvent>, id: UserId)
    requires
        tfa_reached(form, events) == (TfaStep::SetUser { id }),
    ensures
        exists|user: PotentialUser| #[trigger]
            second_factor_given(form, events, user) && user.id == id,
{
    tfa_is_justified(form, events);
}

/// A code is remembered as used only for the user whom it was found to match, under the number
/// that the form spells, and for two minutes.
pub proof fn tfa_stores_what_matched(
    form: TwoFactor,
    events: Seq<TfaEvent>,
    id: UserId,
    key: OtpKey,
    seconds: usize,
)
    requires
        tfa_reached(form, events) == (TfaStep::StoreOtp { id, key, seconds }),
    ensures
        seconds == OTP_SECONDS,
        parsed(form.code@) == Some(key.code),
        exists|user: PotentialUser|
            user.id == id && user.label == key.user && #[trigger] code_matched(
                events,
                user,
                key.code,
            ),
{
    tfa_is_justified(form, events);
    let user = choose|user: PotentialUser| #[trigger]
        user_found(events, user) && user.id == id && one_time_code(form, user) && key_fits(
            form,
            user,
            key,
        ) && code_matched(events, user, key.code);
    assert(code_matched(events, user, key.code));
}

/// How many steps are left at most.
pub open spec fn tfa_left(step: TfaStep) -> nat {
    match step {
        TfaStep::CheckToken { .. } => 8,
        TfaStep::FindUser => 7,
        TfaStep::FindOtp { .. } => 6,
        TfaStep::ComputeCodes { .. } => 5,
        TfaStep::TakeBackupCode { .. } => 5,
        TfaStep::CountAttempt => 4,
        TfaStep::Translate { .. } => 3,
        TfaStep::StoreOtp { .. } => 3,
        TfaStep::AddError { .. } => 2,
        TfaStep::SetUser { .. } => 2,
        TfaStep::ForgetUser => 1,
        TfaStep::Redirect(_) => 0,
        TfaStep::Fail(_) => 0,
    }
}

/// Every event that answers a step brings the handler nearer to its end, so it comes to one.
pub proof fn tfa_comes_to_an_end(form: TwoFactor, step: TfaStep, event: TfaEvent)
    ensures
        tfa_next(form, step, event) == step || tfa_left(tfa_next(form, step, event)) < tfa_left(
            step,
        ),
{
}

/// How everything that the handler asks for turns out.
pub struct TfaWorld {
    pub token_accepted: bool,
    pub user: Option<PotentialUser>,
    pub code_used: bool,
    /// The codes that the user's secret yields, if it yields any.
    pub codes: Option<Vec<u64>>,
    pub backup_code_found: bool,
    /// Why the address may not try again once another failure is counted, if it may not.
    pub blocked_now: Option<String>,
    /// The messages in the visitor's language.
    pub texts: spec_fn(Message) -> String,
}

/// What comes of `step` where everything turns out as `world` says.
pub open spec fn tfa_outcome(world: TfaWorld, step: TfaStep) -> TfaEvent {
    match step {
        TfaStep::CheckToken { .. } => TfaEvent::TokenChecked(world.token_accepted),
        TfaStep::FindUser => TfaEvent::UserFound(world.user),
        TfaStep::FindOtp { .. } => TfaEvent::OtpFound(world.code_used),
        TfaStep::ComputeCodes { .. } => TfaEvent::Codes(world.codes),
        TfaStep::TakeBackupCode { .. } => TfaEvent::BackupCodeTaken(world.backup_code_found),
        TfaStep::CountAttempt => TfaEvent::Attempts(world.blocked_now),
        TfaStep::Translate { message } => TfaEvent::Translated((world.texts)(message)),
        _ => TfaEvent::Performed,
    }
}

/// The steps that the handler goes through from `step` on, `n` of them at most before the last.
pub open spec fn tfa_steps(form: TwoFactor, world: TfaWorld, step: TfaStep, n: nat) -> Seq<TfaStep>
    decreases n,
{
    if n == 0 || tfa_left(step) == 0 {
        seq![step]
    } else {
        seq![step] + tfa_steps(
            form,
            world,
            tfa_next(form, step, tfa_outcome(world, step)),
            (n - 1) as nat,
        )
    }
}

/// The visitor is told `text` and sent to `back`.
pub open spec fn told(text: String, back: Target) -> Seq<TfaStep> {
    seq![TfaStep::AddError { text, back }, TfaStep::Redirect(back)]
}

/// A failed attempt is counted. The visitor is told that it was the last one for now, or else
/// that the code is wrong, and sent back to the form.
pub open spec fn turned_down(world: TfaWorld) -> Seq<TfaStep> {
    seq![TfaStep::CountAttempt] + match world.blocked_now {
        Some(text) => told(text, Target::Tfa),
        None => seq![TfaStep::Translate { message: Message::WrongTfa }] + told(
            (world.texts)(Message::WrongTfa),
            Target::Tfa,
        ),
    }
}

/// The session becomes the user's.
pub open spec fn let_in(id: UserId) -> Seq<TfaStep> {
    seq![TfaStep::SetUser { id }, TfaStep::ForgetUser, TfaStep::Redirect(Target::LastPage)]
}

/// A one-time code is checked against those used already and those that the secret yields.
pub open spec fn one_time_story(
    world: TfaWorld,
    user: PotentialUser,
    key: OtpKey,
) -> Seq<TfaStep> {
    seq![TfaStep::FindOtp { user, key }] + if world.code_used {
        turned_down(world)
    } else {
        seq![TfaStep::ComputeCodes { user, key }] + match world.codes {
            None => seq![TfaStep::Fail(Failure::NoTotpCodes)],
            Some(codes) => if codes@.contains(key.code) {
                seq![TfaStep::StoreOtp { id: user.id, key, seconds: OTP_SECONDS }] + let_in(user.id)
            } else {
                turned_down(world)
            },
        }
    }
}

/// The form's code is checked, for a user who has a second factor.
pub open spec fn code_story(form: TwoFactor, world: TfaWorld, user: PotentialUser) -> Seq<TfaStep> {
    if one_time_code(form, user) {
        one_time_story(
            world,
            user,
            OtpKey { user: user.label, code: parsed(form.code@)->0 },
        )
    } else if encode_utf8(form.code@).len() == BACKUP_CODE_LENGTH {
        seq![TfaStep::TakeBackupCode { id: user.id, code: form.code }]
            + if world.backup_code_found {
            let_in(user.id)
        } else {
            turned_down(world)
        }
    } else {
        turned_down(world)
    }
}

/// What handling the form for the second factor comes to.
pub open spec fn tfa_story(form: TwoFactor, world: TfaWorld) -> Seq<TfaStep> {
    seq![TfaStep::CheckToken { token: form.anti_csrf_token }] + if !world.token_accepted {
        seq![TfaStep::Translate { message: Message::Csrf }] + told(
            (world.texts)(Message::Csrf),
            Target::Login,
        )
    } else {
        seq![TfaStep::FindUser] + match world.user {
            None => seq![TfaStep::Redirect(Target::LastPage)],
            Some(user) => if user.tfa_enabled {
                code_story(form, world, user)
            } else {
                let_in(user.id)
            },
        }
    }
}

proof fn turning_down(form: TwoFactor, world: TfaWorld, n: nat)
    requires
        n >= 3,
    ensures
        tfa_steps(form, world, TfaStep::CountAttempt, n) == turned_down(world),
{
    reveal_with_fuel(tfa_steps, 5);
    assert(tfa_steps(form, world, TfaStep::CountAttempt, n) =~= turned_down(world));
}

proof fn letting_in(form: TwoFactor, world: TfaWorld, id: UserId, n: nat)
    requires
        n >= 2,
    ensures
        tfa_steps(form, world, TfaStep::SetUser { id }, n) == let_in(id),
{
    reveal_with_fuel(tfa_steps, 4);
    assert(tfa_steps(form, world, TfaStep::SetUser { id }, n) =~= let_in(id));
}

proof fn one_time_code_checked(form: TwoFactor, world: TfaWorld, user: PotentialUser, key: OtpKey)
    ensures
        tfa_steps(form, world, TfaStep::FindOtp { user, key }, 6) == one_time_story(
            world,
            user,
            key,
        ),
{
    reveal_with_fuel(tfa_steps, 4);
    turning_down(form, world, 5);
    turning_down(form, world, 4);
    letting_in(form, world, user.id, 3);
    assert(tfa_steps(form, world, TfaStep::FindOtp { user, key }, 6) =~= one_time_story(
        world,
        user,
        key,
    ));
}

proof fn code_checked(form: TwoFactor, world: TfaWorld, user: PotentialUser)
    ensures
        tfa_steps(form, world, tfa_check(form, user), 6) == if user.tfa_enabled {
            code_story(form, world, user)
        } else {
            let_in(user.id)
        },
{
    let key = OtpKey { user: user.label, code: parsed(form.code@)->0 };
    one_time_code_checked(form, world, user, key);
    turning_down(form, world, 6);
    turning_down(form, world, 5);
    letting_in(form, world, user.id, 6);
    letting_in(form, world, user.id, 5);
}

/// Where nothing fails, the handler does what the story says, step by step: what it asks for,
/// with what, in which order, and how it answers.
pub proof fn tfa_follows_the_story(form: TwoFactor, world: TfaWorld)
    ensures
        tfa_steps(form, world, tfa_first(form), 8) == tfa_story(form, world),
{
    reveal_with_fuel(tfa_steps, 4);
    if world.user is Some {
        code_checked(form, world, world.user->0);
    }
    assert(tfa_steps(form, world, tfa_first(form), 8) =~= tfa_story(form, world));
}

/// A one-time code that is remembered as used lets nobody in, though it be among the codes that
/// the secret yields: the visitor is sent back to the form.
pub proof fn used_code_is_turned_down(form: TwoFactor, world: TfaWorld, user: PotentialUser)
    requires
        world.token_accepted,
        world.user == Some(user),
        user.tfa_enabled,
        encode_utf8(form.code@).len() == OTP_LENGTH,
        world.code_used,
    ensures
        forall|i: int|
            0 <= i < tfa_story(form, world).len() ==> !(#[trigger] tfa_story(form, world)[i]
                is SetUser),
        tfa_story(form, world).last() == TfaStep::Redirect(Target::Tfa),
{
}

/// The handler gives up only where something that it asked for failed, or where the user's
/// secret yields no codes.
pub proof fn tfa_gives_up_on_failure(
    form: TwoFactor,
    step: TfaStep,
    event: TfaEvent,
    failure: Failure,
)
    requires
        tfa_left(step) > 0,
        tfa_next(form, step, event) == TfaStep::Fail(failure),
    ensures
        failure == Failure::Outside ==> event == TfaEvent::Failed,
        failure == Failure::NoTotpCodes ==> event == TfaEvent::Codes(None),
{
}

} // verus!
