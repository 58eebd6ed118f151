use webserver::login::{Failure, Message};
use webserver::reply::Target;
use webserver::two_factor::{
    begin_tfa_post, tfa_post, OtpKey, PotentialUser, TfaEvent, TfaStep, TwoFactor,
};

fn form(code: &str) -> TwoFactor {
    TwoFactor { anti_csrf_token: "token".to_string(), code: code.to_string() }
}

fn user(tfa_enabled: bool, secret: bool) -> PotentialUser {
    PotentialUser {
        id: 8,
        label: "bob-id".to_string(),
        tfa_enabled,
        shared_secret: if secret { Some(vec![1, 2, 3]) } else { None },
    }
}

fn key(code: u64) -> OtpKey {
    OtpKey { user: "bob-id".to_string(), code }
}

fn at_user(form: &TwoFactor, user: PotentialUser) -> TfaStep {
    let step = tfa_post(form, begin_tfa_post(form), TfaEvent::TokenChecked(true));
    assert_eq!(step, TfaStep::FindUser);
    tfa_post(form, step, TfaEvent::UserFound(Some(user)))
}

#[test]
fn the_token_comes_first() {
    let form = form("123456");
    let step = begin_tfa_post(&form);
    assert_eq!(step, TfaStep::CheckToken { token: "token".to_string() });
    let step = tfa_post(&form, step, TfaEvent::TokenChecked(false));
    assert_eq!(step, TfaStep::Translate { message: Message::Csrf });
    let step = tfa_post(&form, step, TfaEvent::Translated("no".to_string()));
    assert_eq!(step, TfaStep::AddError { text: "no".to_string(), back: Target::Login });
    let step = tfa_post(&form, step, TfaEvent::Performed);
    assert_eq!(step, TfaStep::Redirect(Target::Login));
}

#[test]
fn nobody_remembered_is_sent_back() {
    let form = form("123456");
    let step = tfa_post(&form, TfaStep::FindUser, TfaEvent::UserFound(None));
    assert_eq!(step, TfaStep::Redirect(Target::LastPage));
}

#[test]
fn no_second_factor_no_check() {
    assert_eq!(at_user(&form("whatever"), user(false, false)), TfaStep::SetUser { id: 8 });
}

#[test]
fn a_matching_code_lets_in_once() {
    let form = form("012345");
    let step = at_user(&form, user(true, true));
    assert_eq!(step, TfaStep::FindOtp { user: user(true, true), key: key(12345) });
    let step = tfa_post(&form, step, TfaEvent::OtpFound(false));
    assert_eq!(step, TfaStep::ComputeCodes { user: user(true, true), key: key(12345) });
    let step = tfa_post(&form, step, TfaEvent::Codes(Some(vec![1, 12345, 2])));
    assert_eq!(step, TfaStep::StoreOtp { id: 8, key: key(12345), seconds: 120 });
    let step = tfa_post(&form, step, TfaEvent::Performed);
    assert_eq!(step, TfaStep::SetUser { id: 8 });
    let step = tfa_post(&form, step, TfaEvent::Performed);
    assert_eq!(step, TfaStep::ForgetUser);
    let step = tfa_post(&form, step, TfaEvent::Performed);
    assert_eq!(step, TfaStep::Redirect(Target::LastPage));
}

#[test]
fn a_used_code_is_turned_down() {
    let form = form("012345");
    let step = at_user(&form, user(true, true));
    let step = tfa_post(&form, step, TfaEvent::OtpFound(true));
    assert_eq!(step, TfaStep::CountAttempt);
    let step = tfa_post(&form, step, TfaEvent::Attempts(None));
    assert_eq!(step, TfaStep::Translate { message: Message::WrongTfa });
    let step = tfa_post(&form, step, TfaEvent::Translated("wrong".to_string()));
    assert_eq!(step, TfaStep::AddError { text: "wrong".to_string(), back: Target::Tfa });
    let step = tfa_post(&form, step, TfaEvent::Performed);
    assert_eq!(step, TfaStep::Redirect(Target::Tfa));
}

#[test]
fn a_code_that_does_not_match_is_turned_down() {
    let form = form("012345");
    let step = TfaStep::ComputeCodes { user: user(true, true), key: key(12345) };
    assert_eq!(tfa_post(&form, step, TfaEvent::Codes(Some(vec![1, 2]))), TfaStep::CountAttempt);
    let step = TfaStep::ComputeCodes { user: user(true, true), key: key(12345) };
    assert_eq!(tfa_post(&form, step, TfaEvent::Codes(Some(vec![]))), TfaStep::CountAttempt);
}

#[test]
fn a_secret_without_codes_is_a_failure() {
    let form = form("012345");
    let step = TfaStep::ComputeCodes { user: user(true, true), key: key(12345) };
    assert_eq!(
        tfa_post(&form, step, TfaEvent::Codes(None)),
        TfaStep::Fail(Failure::NoTotpCodes),
    );
}

#[test]
fn the_length_says_what_a_code_is() {
    assert_eq!(at_user(&form("012345"), user(true, false)), TfaStep::CountAttempt);
    assert_eq!(at_user(&form("abcdef"), user(true, true)), TfaStep::CountAttempt);
    assert_eq!(at_user(&form("12345"), user(true, true)), TfaStep::CountAttempt);
    assert_eq!(at_user(&form(""), user(true, true)), TfaStep::CountAttempt);
    assert_eq!(
        at_user(&form("+12345"), user(true, true)),
        TfaStep::FindOtp { user: user(true, true), key: key(12345) },
    );
    // six bytes, but three characters
    assert_eq!(at_user(&form("ééé"), user(true, true)), TfaStep::CountAttempt);
    // twelve bytes in six characters
    assert_eq!(
        at_user(&form("éééééé"), user(true, true)),
        TfaStep::TakeBackupCode { id: 8, code: "éééééé".to_string() },
    );
}

#[test]
fn a_backup_code_lets_in() {
    let form = form("abcdef123456");
    let step = at_user(&form, user(true, false));
    assert_eq!(step, TfaStep::TakeBackupCode { id: 8, code: "abcdef123456".to_string() });
    assert_eq!(
        tfa_post(&form, step, TfaEvent::BackupCodeTaken(true)),
        TfaStep::SetUser { id: 8 },
    );
    let step = at_user(&form, user(true, false));
    assert_eq!(tfa_post(&form, step, TfaEvent::BackupCodeTaken(false)), TfaStep::CountAttempt);
}

#[test]
fn the_last_attempt_is_told() {
    let form = form("1");
    let step = tfa_post(&form, TfaStep::CountAttempt, TfaEvent::Attempts(Some("wait".to_string())));
    assert_eq!(step, TfaStep::AddError { text: "wait".to_string(), back: Target::Tfa });
}

#[test]
fn outside_failures_end_the_second_factor() {
    let form = form("1");
    for step in [TfaStep::FindUser, TfaStep::CountAttempt, TfaStep::ForgetUser] {
        assert_eq!(tfa_post(&form, step, TfaEvent::Failed), TfaStep::Fail(Failure::Outside));
    }
    let step = TfaStep::SetUser { id: 8 };
    assert_eq!(tfa_post(&form, step, TfaEvent::Failed), TfaStep::SetUser { id: 8 });
}

#[test]
fn keys_tell_users_and_codes_apart() {
    assert_eq!(key(12345).text(), "otp:bob-id,12345");
    assert_eq!(key(0).text(), "otp:bob-id,0");
    let odd = OtpKey { user: "bob-id,1".to_string(), code: 2 };
    assert_eq!(odd.text(), "otp:bob-id,1,2");
    assert_ne!(odd.text(), key(12).text());
}
