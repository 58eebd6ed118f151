//! What comes of a code for the second factor, for every form and every user: which codes let
//! in, which are turned down, and what the visitor is told.
use vstd::prelude::*;
use vstd::utf8::{encode_utf8, is_ascii_chars, is_ascii_chars_encode_utf8};

use crate::login::{Failure, Message};
use crate::reply::{Target, UserId};
use crate::text::{decimal_is_digits, decimal_reads_back, decimal_text, parsed};
use crate::text_laws::{digit_spells_its_value, digits_count_by_place};
use crate::two_factor::{
    otp_text, tfa_first, tfa_next, OtpKey, PotentialUser, TfaEvent, TfaStep, TwoFactor,
};

verus! {

/// The form's own token is checked first. Without the session's token the visitor is told so and
/// sent to log in again, whatever the code.
pub proof fn token_comes_before_the_code(form: TwoFactor, text: String)
    ensures
        tfa_first(form) == (TfaStep::CheckToken { token: form.anti_csrf_token }),
        tfa_next(form, tfa_first(form), TfaEvent::TokenChecked(true)) == TfaStep::FindUser,
        ({
            let step = tfa_next(form, tfa_first(form), TfaEvent::TokenChecked(false));
            let told = tfa_next(form, step, TfaEvent::Translated(text));
            &&& step == (TfaStep::Translate { message: Message::Csrf })
            &&& told == (TfaStep::AddError { text, back: Target::Login })
            &&& tfa_next(form, told, TfaEvent::Performed) == TfaStep::Redirect(Target::Login)
        }),
{
}

/// Where nobody's password was right before, there is no code to check.
pub proof fn code_needs_a_password(form: TwoFactor)
    ensures
        tfa_next(form, TfaStep::FindUser, TfaEvent::UserFound(None)) == TfaStep::Redirect(
            Target::LastPage,
        ),
{
}

/// Who has no second factor needs none, whatever the form holds.
pub proof fn without_second_factor_none_is_asked(form: TwoFactor, user: PotentialUser)
    requires
        !user.tfa_enabled,
    ensures
        tfa_next(form, TfaStep::FindUser, TfaEvent::UserFound(Some(user))) == (TfaStep::SetUser {
            id: user.id,
        }),
{
}

/// Six decimal digits are a one-time code, whatever digit they begin with: the number that is
/// looked up and matched is the one that the digits spell.
pub proof fn six_digits_are_a_one_time_code(form: TwoFactor, user: PotentialUser)
    requires
        user.tfa_enabled,
        user.shared_secret is Some,
        form.code@.len() == 6,
        forall|i: int| 0 <= i < 6 ==> '0' <= #[trigger] form.code@[i] <= '9',
    ensures
        ({
            let code = form.code@;
            let zero = '0' as int;
            let number = (code[0] as int - zero) * 100000 + (code[1] as int - zero) * 10000 + (
            code[2] as int - zero) * 1000 + (code[3] as int - zero) * 100 + (code[4] as int - zero)
                * 10 + (code[5] as int - zero);
            tfa_next(form, TfaStep::FindUser, TfaEvent::UserFound(Some(user))) == (
            TfaStep::FindOtp { user, key: OtpKey { user: user.label, code: number as u64 } })
        }),
{
    let code = form.code@;
    assert(is_ascii_chars(code));
    is_ascii_chars_encode_utf8(code);
    let (one, two, three, four, five) = (
        code.take(1),
        code.take(2),
        code.take(3),
        code.take(4),
        code.take(5),
    );
    digit_spells_its_value(code[0]);
    assert(one =~= seq![code[0]]);
    digits_count_by_place(one, code[1]);
    assert(one.push(code[1]) =~= two);
    digits_count_by_place(two, code[2]);
    assert(two.push(code[2]) =~= three);
    digits_count_by_place(three, code[3]);
    assert(three.push(code[3]) =~= four);
    digits_count_by_place(four, code[4]);
    assert(four.push(code[4]) =~= five);
    digits_count_by_place(five, code[5]);
    assert(five.push(code[5]) =~= code);
}

/// A code of six bytes is a one-time code if it spells a number and the user has a secret;
/// otherwise it is counted as a failed attempt.
pub proof fn six_bytes_are_checked_as_a_number(form: TwoFactor, user: PotentialUser)
    requires
        user.tfa_enabled,
        encode_utf8(form.code@).len() == 6,
    ensures
        ({
            let step = tfa_next(form, TfaStep::FindUser, TfaEvent::UserFound(Some(user)));
            &&& user.shared_secret is None ==> step == TfaStep::CountAttempt
            &&& parsed(form.code@) is None ==> step == TfaStep::CountAttempt
            &&& user.shared_secret is Some ==> (parsed(form.code@) matches Some(number) ==> step
                == (TfaStep::FindOtp { user, key: OtpKey { user: user.label, code: number } }))
        }),
{
}

/// A code of twelve bytes is a backup code of the user's: as the form holds it, whatever it
/// holds, and whether or not the user has a secret.
pub proof fn twelve_bytes_are_a_backup_code(form: TwoFactor, user: PotentialUser)
    requires
        user.tfa_enabled,
        encode_utf8(form.code@).len() == 12,
    ensures
        tfa_next(form, TfaStep::FindUser, TfaEvent::UserFound(Some(user))) == (
        TfaStep::TakeBackupCode { id: user.id, code: form.code }),
{
}

/// A code of any other length is counted as a failed attempt.
pub proof fn other_lengths_are_no_codes(form: TwoFactor, user: PotentialUser)
    requires
        user.tfa_enabled,
        encode_utf8(form.code@).len() != 6,
        encode_utf8(form.code@).len() != 12,
    ensures
        tfa_next(form, TfaStep::FindUser, TfaEvent::UserFound(Some(user)))
            == TfaStep::CountAttempt,
{
}

/// A one-time code lets in if and only if it is unused and among the codes that the secret
/// yields; then it is remembered as used, for this user and two minutes, before the session
/// becomes the user's.
pub proof fn unused_matching_code_lets_in(
    form: TwoFactor,
    user: PotentialUser,
    key: OtpKey,
    codes: Vec<u64>,
)
    ensures
        ({
            let asked = TfaStep::FindOtp { user, key };
            let used = tfa_next(form, asked, TfaEvent::OtpFound(true));
            let unused = tfa_next(form, asked, TfaEvent::OtpFound(false));
            let checked = tfa_next(form, unused, TfaEvent::Codes(Some(codes)));
            let among = exists|i: int| 0 <= i < codes@.len() && #[trigger] codes@[i] == key.code;
            &&& used == TfaStep::CountAttempt
            &&& unused == (TfaStep::ComputeCodes { user, key })
            &&& !among ==> checked == TfaStep::CountAttempt
            &&& among ==> checked == (TfaStep::StoreOtp { id: user.id, key, seconds: 120 })
            &&& among ==> tfa_next(form, checked, TfaEvent::Performed) == (TfaStep::SetUser {
                id: user.id,
            })
            &&& tfa_next(form, unused, TfaEvent::Codes(None)) == TfaStep::Fail(
                Failure::NoTotpCodes,
            )
        }),
{
}

/// A backup code lets in if and only if the user had it.
pub proof fn backup_code_lets_in(form: TwoFactor, id: UserId, code: String)
    ensures
        ({
            let asked = TfaStep::TakeBackupCode { id, code };
            &&& tfa_next(form, asked, TfaEvent::BackupCodeTaken(true)) == (TfaStep::SetUser { id })
            &&& tfa_next(form, asked, TfaEvent::BackupCodeTaken(false)) == TfaStep::CountAttempt
        }),
{
}

/// Who is let in is forgotten as one who has yet to give a code, and goes back to where they
/// were.
pub proof fn let_in_is_sent_back(form: TwoFactor, id: UserId)
    ensures
        ({
            let forget = tfa_next(form, TfaStep::SetUser { id }, TfaEvent::Performed);
            &&& forget == TfaStep::ForgetUser
            &&& tfa_next(form, forget, TfaEvent::Performed) == TfaStep::Redirect(Target::LastPage)
        }),
{
}

/// Who is turned down is told that the address may not go on, if it may not, or else that the
/// code is wrong, and may try again at the form.
pub proof fn turned_down_may_try_again(form: TwoFactor, last: String, text: String)
    ensures
        ({
            let blocked = tfa_next(form, TfaStep::CountAttempt, TfaEvent::Attempts(Some(last)));
            let wrong = tfa_next(form, TfaStep::CountAttempt, TfaEvent::Attempts(None));
            let told = tfa_next(form, wrong, TfaEvent::Translated(text));
            &&& blocked == (TfaStep::AddError { text: last, back: Target::Tfa })
            &&& wrong == (TfaStep::Translate { message: Message::WrongTfa })
            &&& told == (TfaStep::AddError { text, back: Target::Tfa })
            &&& tfa_next(form, blocked, TfaEvent::Performed) == TfaStep::Redirect(Target::Tfa)
            &&& tfa_next(form, told, TfaEvent::Performed) == TfaStep::Redirect(Target::Tfa)
        }),
{
}

/// What can fail ends the handler where it does fail.
pub proof fn failure_ends_the_second_factor(form: TwoFactor, step: TfaStep)
    requires
        step is FindUser || step is FindOtp || step is StoreOtp || step is TakeBackupCode
            || step is CountAttempt || step is Translate || step is ForgetUser,
    ensures
        tfa_next(form, step, TfaEvent::Failed) == TfaStep::Fail(Failure::Outside),
{
}

/// Nothing moves the handler but an answer to what it asked for; at its end, nothing does.
pub proof fn second_factor_waits_for_its_answer(form: TwoFactor, step: TfaStep, event: TfaEvent)
    requires
        step is CheckToken ==> event !is TokenChecked,
        step is FindUser ==> event !is UserFound && event !is Failed,
        step is FindOtp ==> event !is OtpFound && event !is Failed,
        step is ComputeCodes ==> event !is Codes,
        step is StoreOtp || step is ForgetUser ==> event !is Performed && event !is Failed,
        step is TakeBackupCode ==> event !is BackupCodeTaken && event !is Failed,
        step is CountAttempt ==> event !is Attempts && event !is Failed,
        step is Translate ==> event !is Translated && event !is Failed,
        step is AddError || step is SetUser ==> event !is Performed,
    ensures
        tfa_next(form, step, event) == step,
{
}

/// The key of a used code names the user as they are written out and spells the code.
pub proof fn otp_key_names_user_and_code(user: Seq<char>, code: u64)
    ensures
        ({
            let text = otp_text(user, code);
            let comma = 4 + user.len() as int;
            &&& text.len() > comma + 1
            &&& text.take(4) =~= "otp:"@
            &&& text.subrange(4, comma) =~= user
            &&& text[comma] == ','
            &&& text.skip(comma + 1) =~= decimal_text(code as nat)
            &&& parsed(text.skip(comma + 1)) == Some(code)
        }),
{
    reveal_strlit("otp:");
    reveal_strlit(",");
    let text = otp_text(user, code);
    decimal_reads_back(code);
    decimal_is_digits(code);
    assert(text.skip(4 + user.len() as int + 1) =~= decimal_text(code as nat));
}

} // verus!
