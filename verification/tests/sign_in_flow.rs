use arch_client::sign_in::{
    code_prompt, identifier_prompt, second_factor_prompt, sign_in_action, sign_in_initial,
    sign_in_step, SignInAction, SignInEvent, SignInState,
};

#[test]
fn preauthorized_session_issues_no_prompt_and_clears_sign_out() {
    let s = sign_in_initial();
    assert_eq!(sign_in_action(&s), SignInAction::QueryAuthorization);
    let s = sign_in_step(s, SignInEvent::AuthorizationChecked { authorized: true });
    assert_eq!(s, SignInState::Done { sign_out: false });
    assert_eq!(sign_in_action(&s), SignInAction::Finish { sign_out: false });
}

#[test]
fn second_factor_flow_prompts_three_times_in_order() {
    let mut prompts: Vec<SignInAction> = Vec::new();
    let mut record = |s: &SignInState| {
        let a = sign_in_action(s);
        if matches!(
            a,
            SignInAction::PromptIdentifier
                | SignInAction::PromptCode
                | SignInAction::PromptSecondFactor
        ) {
            prompts.push(a);
        }
    };

    let s = sign_in_initial();
    record(&s);
    let s = sign_in_step(s, SignInEvent::AuthorizationChecked { authorized: false });
    record(&s);
    let s = sign_in_step(s, SignInEvent::IdentifierEntered);
    record(&s);
    let s = sign_in_step(s, SignInEvent::ChallengeIssued);
    record(&s);
    let s = sign_in_step(s, SignInEvent::CodeEntered);
    record(&s);
    let s = sign_in_step(
        s,
        SignInEvent::SecondFactorDemanded {
            hint: Some("pet name".to_string()),
        },
    );
    record(&s);
    assert_eq!(
        s,
        SignInState::AwaitingSecondFactor {
            hint: Some("pet name".to_string())
        }
    );
    let s = sign_in_step(s, SignInEvent::SecondFactorEntered);
    record(&s);
    let s = sign_in_step(s, SignInEvent::SecondFactorAccepted);
    record(&s);
    assert_eq!(s, SignInState::SavingSession);
    let s = sign_in_step(s, SignInEvent::SessionSaved { ok: true });
    assert_eq!(s, SignInState::Done { sign_out: false });

    assert_eq!(
        prompts,
        vec![
            SignInAction::PromptIdentifier,
            SignInAction::PromptCode,
            SignInAction::PromptSecondFactor,
        ]
    );
}

#[test]
fn second_factor_prompt_contains_the_hint() {
    let text = second_factor_prompt(&Some("pet name".to_string()));
    assert!(text.contains("pet name"));
    assert_eq!(text, "Enter the password (hint pet name): ");
}

#[test]
fn second_factor_prompt_without_hint_shows_fallback() {
    let text = second_factor_prompt(&None);
    assert_eq!(text, "Enter the password (hint None): ");
}

#[test]
fn fixed_prompt_texts_are_exact() {
    assert_eq!(
        identifier_prompt(),
        "Enter your phone number (international format): "
    );
    assert_eq!(code_prompt(), "Enter the code you received: ");
}

#[test]
fn failed_save_raises_the_sign_out_flag() {
    let s = sign_in_initial();
    let s = sign_in_step(s, SignInEvent::AuthorizationChecked { authorized: false });
    let s = sign_in_step(s, SignInEvent::IdentifierEntered);
    let s = sign_in_step(s, SignInEvent::ChallengeIssued);
    let s = sign_in_step(s, SignInEvent::CodeEntered);
    let s = sign_in_step(s, SignInEvent::CodeAccepted);
    assert_eq!(s, SignInState::SavingSession);
    assert_eq!(sign_in_action(&s), SignInAction::SaveSession);
    let s = sign_in_step(s, SignInEvent::SessionSaved { ok: false });
    assert_eq!(s, SignInState::Done { sign_out: true });
    assert_eq!(sign_in_action(&s), SignInAction::Finish { sign_out: true });
}

#[test]
fn code_accepted_without_second_factor_prompts_twice() {
    let s = sign_in_initial();
    let s = sign_in_step(s, SignInEvent::AuthorizationChecked { authorized: false });
    assert_eq!(sign_in_action(&s), SignInAction::PromptIdentifier);
    let s = sign_in_step(s, SignInEvent::IdentifierEntered);
    assert_eq!(sign_in_action(&s), SignInAction::RequestChallenge);
    let s = sign_in_step(s, SignInEvent::ChallengeIssued);
    assert_eq!(sign_in_action(&s), SignInAction::PromptCode);
    let s = sign_in_step(s, SignInEvent::CodeEntered);
    assert_eq!(sign_in_action(&s), SignInAction::SubmitCode);
    let s = sign_in_step(s, SignInEvent::CodeAccepted);
    let s = sign_in_step(s, SignInEvent::SessionSaved { ok: true });
    assert_eq!(s, SignInState::Done { sign_out: false });
}

#[test]
fn refused_challenge_is_fatal() {
    let s = sign_in_initial();
    let s = sign_in_step(s, SignInEvent::AuthorizationChecked { authorized: false });
    let s = sign_in_step(s, SignInEvent::IdentifierEntered);
    let s = sign_in_step(s, SignInEvent::ChallengeRefused);
    assert_eq!(s, SignInState::Failed);
    assert_eq!(sign_in_action(&s), SignInAction::Abort);
}

#[test]
fn refused_code_is_fatal() {
    let s = sign_in_initial();
    let s = sign_in_step(s, SignInEvent::AuthorizationChecked { authorized: false });
    let s = sign_in_step(s, SignInEvent::IdentifierEntered);
    let s = sign_in_step(s, SignInEvent::ChallengeIssued);
    let s = sign_in_step(s, SignInEvent::CodeEntered);
    let s = sign_in_step(s, SignInEvent::CodeRefused);
    assert_eq!(s, SignInState::Failed);
}

#[test]
fn refused_second_factor_is_fatal() {
    let s = sign_in_initial();
    let s = sign_in_step(s, SignInEvent::AuthorizationChecked { authorized: false });
    let s = sign_in_step(s, SignInEvent::IdentifierEntered);
    let s = sign_in_step(s, SignInEvent::ChallengeIssued);
    let s = sign_in_step(s, SignInEvent::CodeEntered);
    let s = sign_in_step(s, SignInEvent::SecondFactorDemanded { hint: None });
    let s = sign_in_step(s, SignInEvent::SecondFactorEntered);
    let s = sign_in_step(s, SignInEvent::SecondFactorRefused);
    assert_eq!(s, SignInState::Failed);
    assert_eq!(sign_in_action(&s), SignInAction::Abort);
}
