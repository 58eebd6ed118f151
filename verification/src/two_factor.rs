//! The second factor: one-time codes and backup codes.
use vstd::prelude::*;
use vstd::utf8::encode_utf8;

use crate::login::{Failure, Message};
use crate::reply::{Target, UserId};
use crate::text::{
    decimal, decimal_is_digits, decimal_is_unique, decimal_text, is_decimal_digit, parse, parsed,
};

verus! {

/// How long a used one-time code is remembered, in seconds.
pub const OTP_SECONDS: usize = 120;

/// The length of a one-time code, in bytes.
pub const OTP_LENGTH: usize = 6;

/// The length of a backup code, in bytes.
pub const BACKUP_CODE_LENGTH: usize = 12;

/// What the form for the second factor submits.
pub struct TwoFactor {
    pub anti_csrf_token: String,
    pub code: String,
}

/// A user whose password was right.
#[derive(Debug, PartialEq, Eq)]
pub struct PotentialUser {
    pub id: UserId,
    /// The identifier as it is written out.
    pub label: String,
    pub tfa_enabled: bool,
    /// The secret that the user's one-time codes are made from.
    pub shared_secret: Option<Vec<u8>>,
}

/// What a used one-time code is remembered by.
#[derive(Debug, PartialEq, Eq)]
pub struct OtpKey {
    /// The user's identifier as it is written out.
    pub user: String,
    pub code: u64,
}

/// The text of the key for a user and a code.
pub open spec fn otp_text(user: Seq<char>, code: u64) -> Seq<char> {
    "otp:"@ + user + ","@ + decimal_text(code as nat)
}

impl OtpKey {
    /// The key as the store of used codes takes it.
    pub fn text(&self) -> (text: String)
        ensures
            text@ == otp_text(self.user@, self.code),
    {
        let mut text = String::new();
        text.append("otp:");
        text.append(self.user.as_str());
        text.append(",");
        text.append(decimal(self.code).as_str());
        assert(text@ =~= otp_text(self.user@, self.code));
        text
    }
}

/// What the handler of the second factor does next.
#[derive(Debug, PartialEq, Eq)]
pub enum TfaStep {
    /// Check the form's token against the session.
    CheckToken { token: String },
    /// Look for the user whose password was right.
    FindUser,
    /// Ask whether the one-time code was used already.
    FindOtp { user: PotentialUser, key: OtpKey },
    /// Compute the codes that the user's secret yields about now.
    ComputeCodes { user: PotentialUser, key: OtpKey },
    /// Remember that the one-time code was used, for so many seconds.
    StoreOtp { id: UserId, key: OtpKey, seconds: usize },
    /// Delete the user's backup code, if there is such a one.
    TakeBackupCode { id: UserId, code: String },
    /// Count a failed attempt against the visitor's address.
    CountAttempt,
    /// Translate a message.
    Translate { message: Message },
    /// Keep a text in the session as the error to show; the visitor goes to `back` then.
    AddError { text: String, back: Target },
    /// Make the session the user's.
    SetUser { id: UserId },
    /// Forget the user whose password was right.
    ForgetUser,
    /// Answer with a redirect: the handler is done.
    Redirect(Target),
    /// Give up: the handler is done.
    Fail(Failure),
}

/// What came of a step of the handler of the second factor.
#[derive(Debug, PartialEq, Eq)]
pub enum TfaEvent {
    /// It was done.
    Performed,
    /// Whether the token is the session's.
    TokenChecked(bool),
    /// The user, if there is one.
    UserFound(Option<PotentialUser>),
    /// Whether the one-time code was used already.
    OtpFound(bool),
    /// The codes, if the secret yields any.
    Codes(Option<Vec<u64>>),
    /// Whether there was such a backup code.
    BackupCodeTaken(bool),
    /// Why the address may not go on, if it may not.
    Attempts(Option<String>),
    /// The message in the visitor's language.
    Translated(String),
    /// It failed.
    Failed,
}

/// The first step of the handler of the second factor.
pub open spec fn tfa_first(form: TwoFactor) -> TfaStep {
    TfaStep::CheckToken { token: form.anti_csrf_token }
}

/// How the code of the form is checked once the user is known: not at all if the user has no
/// second factor, otherwise as a one-time code or as a backup code, whichever its length says.
pub open spec fn tfa_check(form: TwoFactor, user: PotentialUser) -> TfaStep {
    let length = encode_utf8(form.code@).len();
    if !user.tfa_enabled {
        TfaStep::SetUser { id: user.id }
    } else if length == OTP_LENGTH && user.shared_secret is Some && parsed(form.code@) is Some {
        TfaStep::FindOtp {
            user,
            key: OtpKey { user: user.label, code: parsed(form.code@)->0 },
        }
    } else if length == BACKUP_CODE_LENGTH {
        TfaStep::TakeBackupCode { id: user.id, code: form.code }
    } else {
        TfaStep::CountAttempt
    }
}

/// Where the visitor goes after being told `message`.
pub open spec fn tfa_back(message: Message) -> Target {
    match message {
        Message::Csrf => Target::Login,
        _ => Target::Tfa,
    }
}

/// The step that follows `step` when `event` came of it. An event that does not answer the step
/// changes nothing.
pub open spec fn tfa_next(form: TwoFactor, step: TfaStep, event: TfaEvent) -> TfaStep {
    match (step, event) {
        (TfaStep::CheckToken { .. }, TfaEvent::TokenChecked(ours)) => if ours {
            TfaStep::FindUser
        } else {
            TfaStep::Translate { message: Message::Csrf }
        },
        (TfaStep::FindUser, TfaEvent::UserFound(Some(user))) => tfa_check(form, user),
        (TfaStep::FindUser, TfaEvent::UserFound(None)) => TfaStep::Redirect(Target::LastPage),
        (TfaStep::FindOtp { user, key }, TfaEvent::OtpFound(used)) => if used {
            TfaStep::CountAttempt
        } else {
            TfaStep::ComputeCodes { user, key }
        },
        (TfaStep::ComputeCodes { user, key }, TfaEvent::Codes(Some(codes))) => if codes@.contains(
            key.code,
        ) {
            TfaStep::StoreOtp { id: user.id, key, seconds: OTP_SECONDS }
        } else {
            TfaStep::CountAttempt
        },
        (TfaStep::ComputeCodes { .. }, TfaEvent::Codes(None)) => TfaStep::Fail(
            Failure::NoTotpCodes,
        ),
        (TfaStep::StoreOtp { id, .. }, TfaEvent::Performed) => TfaStep::SetUser { id },
        (TfaStep::TakeBackupCode { id, .. }, TfaEvent::BackupCodeTaken(found)) => if found {
            TfaStep::SetUser { id }
        } else {
            TfaStep::CountAttempt
        },
        (TfaStep::CountAttempt, TfaEvent::Attempts(Some(text))) => TfaStep::AddError {
            text,
            back: Target::Tfa,
        },
        (TfaStep::CountAttempt, TfaEvent::Attempts(None)) => TfaStep::Translate {
            message: Message::WrongTfa,
        },
        (TfaStep::Translate { message }, TfaEvent::Translated(text)) => TfaStep::AddError {
            text,
            back: tfa_back(message),
        },
        (TfaStep::AddError { back, .. }, TfaEvent::Performed) => TfaStep::Redirect(back),
        (TfaStep::SetUser { .. }, TfaEvent::Performed) => TfaStep::ForgetUser,
        (TfaStep::ForgetUser, TfaEvent::Performed) => TfaStep::Redirect(Target::LastPage),
        (
            TfaStep::FindUser
            | TfaStep::FindOtp { .. }
            | TfaStep::StoreOtp { .. }
            | TfaStep::TakeBackupCode { .. }
            | TfaStep::CountAttempt
            | TfaStep::Translate { .. }
            | TfaStep::ForgetUser,
            TfaEvent::Failed,
        ) => TfaStep::Fail(Failure::Outside),
        _ => step,
    }
}

/// Starts to handle the form for the second factor.
pub fn begin_tfa_post(form: &TwoFactor) -> (step: TfaStep)
    ensures
        step == tfa_first(*form),
{
    TfaStep::CheckToken { token: form.anti_csrf_token.clone() }
}

/// Chooses how the code of the form is checked.
fn check_code(form: &TwoFactor, user: PotentialUser) -> (step: TfaStep)
    ensures
        step == tfa_check(*form, user),
{
    if !user.tfa_enabled {
        return TfaStep::SetUser { id: user.id };
    }
    let length: usize = form.code.as_str().as_bytes().len();
    if length == OTP_LENGTH {
        if user.shared_secret.is_none() {
            return TfaStep::CountAttempt;
        }
        match parse(form.code.as_str()) {
            Some(code) => {
                let key = OtpKey { user: user.label.clone(), code };
                TfaStep::FindOtp { user, key }
            },
            None => TfaStep::CountAttempt,
        }
    } else if length == BACKUP_CODE_LENGTH {
        TfaStep::TakeBackupCode { id: user.id, code: form.code.clone() }
    } else {
        TfaStep::CountAttempt
    }
}

/// Whether `code` is among `codes`.
fn contains(codes: &Vec<u64>, code: u64) -> (found: bool)
    ensures
        found == codes@.contains(code),
{
    let mut i: usize = 0;
    while i < codes.len()
        invariant
            i <= codes.len(),
            forall|j: int| 0 <= j < i ==> codes[j] != code,
        decreases codes.len() - i,
    {
        if codes[i] == code {
            return true;
        }
        i += 1;
    }
    false
}

/// Goes on with the form for the second factor when `event` came of `step`.
pub fn tfa_post(form: &TwoFactor, step: TfaStep, event: TfaEvent) -> (next: TfaStep)
    ensures
        next == tfa_next(*form, step, event),
{
    match (step, event) {
        (TfaStep::CheckToken { .. }, TfaEvent::TokenChecked(ours)) => {
            if ours {
                TfaStep::FindUser
            } else {
                TfaStep::Translate { message: Message::Csrf }
            }
        },
        (TfaStep::FindUser, TfaEvent::UserFound(Some(user))) => check_code(form, user),
        (TfaStep::FindUser, TfaEvent::UserFound(None)) => TfaStep::Redirect(Target::LastPage),
        (TfaStep::FindOtp { user, key }, TfaEvent::OtpFound(used)) => {
            if used {
                TfaStep::CountAttempt
            } else {
                TfaStep::ComputeCodes { user, key }
            }
        },
        (TfaStep::ComputeCodes { user, key }, TfaEvent::Codes(Some(codes))) => {
            if contains(&codes, key.code) {
                TfaStep::StoreOtp { id: user.id, key, seconds: OTP_SECONDS }
            } else {
                TfaStep::CountAttempt
            }
        },
        (TfaStep::ComputeCodes { .. }, TfaEvent::Codes(None)) => TfaStep::Fail(
            Failure::NoTotpCodes,
        ),
        (TfaStep::StoreOtp { id, .. }, TfaEvent::Performed) => TfaStep::SetUser { id },
        (TfaStep::TakeBackupCode { id, .. }, TfaEvent::BackupCodeTaken(found)) => {
            if found {
                TfaStep::SetUser { id }
            } else {
                TfaStep::CountAttempt
            }
        },
        (TfaStep::CountAttempt, TfaEvent::Attempts(Some(text))) => TfaStep::AddError {
            text,
            back: Target::Tfa,
        },
        (TfaStep::CountAttempt, TfaEvent::Attempts(None)) => TfaStep::Translate {
            message: Message::WrongTfa,
        },
        (TfaStep::Translate { message }, TfaEvent::Translated(text)) => {
            let back = match message {
                Message::Csrf => Target::Login,
                _ => Target::Tfa,
            };
            TfaStep::AddError { text, back }
        },
        (TfaStep::AddError { back, .. }, TfaEvent::Performed) => TfaStep::Redirect(back),
        (TfaStep::SetUser { .. }, TfaEvent::Performed) => TfaStep::ForgetUser,
        (TfaStep::ForgetUser, TfaEvent::Performed) => TfaStep::Redirect(Target::LastPage),
        (
            TfaStep::FindUser
            | TfaStep::FindOtp { .. }
            | TfaStep::StoreOtp { .. }
            | TfaStep::TakeBackupCode { .. }
            | TfaStep::CountAttempt
            | TfaStep::Translate { .. }
            | TfaStep::ForgetUser,
            TfaEvent::Failed,
        ) => TfaStep::Fail(Failure::Outside),
        (step, _) => step,
    }
}

/// Where two keys read alike, their codes are of one length.
proof fn codes_of_one_length(user1: Seq<char>, code1: u64, user2: Seq<char>, code2: u64)
    requires
        otp_text(user1, code1) == otp_text(user2, code2),
    ensures
        decimal_text(code1 as nat).len() >= decimal_text(code2 as nat).len(),
{
    reveal_strlit("otp:");
    reveal_strlit(",");
    decimal_is_digits(code1);
    decimal_is_digits(code2);
    let (text, short, long) = (
        otp_text(user1, code1),
        decimal_text(code1 as nat),
        decimal_text(code2 as nat),
    );
    if short.len() < long.len() {
        let comma = text.len() - short.len() - 1;
        assert(text[comma] == ',');
        assert(otp_text(user2, code2)[comma] == long[long.len() - short.len() - 1]);
        assert(is_decimal_digit(long[long.len() - short.len() - 1]));
    }
}

/// A key tells users and codes apart: a used code of one user stands in the way of no other code
/// and of no other user.
pub proof fn otp_keys_differ(user1: Seq<char>, code1: u64, user2: Seq<char>, code2: u64)
    requires
        otp_text(user1, code1) == otp_text(user2, code2),
    ensures
        user1 == user2,
        code1 == code2,
{
    reveal_strlit("otp:");
    reveal_strlit(",");
    codes_of_one_length(user1, code1, user2, code2);
    codes_of_one_length(user2, code2, user1, code1);
    let (text1, text2) = (otp_text(user1, code1), otp_text(user2, code2));
    let (digits1, digits2) = (decimal_text(code1 as nat), decimal_text(code2 as nat));
    assert(digits1 =~= text1.subrange(text1.len() - digits1.len(), text1.len() as int));
    assert(digits2 =~= text2.subrange(text2.len() - digits2.len(), text2.len() as int));
    decimal_is_unique(code1, code2);
    assert(user1 =~= text1.subrange(4, 4 + user1.len() as int));
    assert(user2 =~= text2.subrange(4, 4 + user2.len() as int));
}

} // verus!
