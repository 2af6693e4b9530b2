use secret_service::outcome::{lock_outcome, Resolution};
use secret_service::prompt::{
    handle_signal, is_no_prompt, PromptAction, PromptEvent, PromptRun, PromptState, NO_PROMPT,
    NO_WINDOW_ID,
};
use secret_service::Error;
use std::collections::HashMap;

const P: &str = "/org/freedesktop/secrets/prompt/p1";

fn completed(dismissed: bool, result: &str) -> PromptEvent<String> {
    PromptEvent::Completed {
        dismissed,
        result: result.to_string(),
    }
}

#[test]
fn root_path_means_no_prompt() {
    assert!(is_no_prompt("/"));
    assert!(is_no_prompt(NO_PROMPT));
    assert!(!is_no_prompt(P));
    assert!(!is_no_prompt(""));
    assert!(!is_no_prompt("//"));
    assert_eq!(NO_WINDOW_ID, "");
}

#[test]
fn dismissed_signal_is_an_error() {
    assert_eq!(handle_signal(true, 5u32), Err(Error::Prompt));
    assert_eq!(handle_signal(false, 5u32), Ok(5));
}

#[test]
fn prompt_run_subscribes_then_shows_then_completes() {
    let mut run = PromptRun::new(P.to_string());
    assert_eq!(run.prompt_path(), P);
    assert_eq!(run.state(), PromptState::Idle);
    assert_eq!(run.step(PromptEvent::<String>::Start), PromptAction::Subscribe);
    assert_eq!(run.state(), PromptState::Subscribing);
    assert_eq!(run.step(PromptEvent::<String>::Subscribed), PromptAction::Show);
    assert_eq!(run.state(), PromptState::AwaitingCompletion);
    assert_eq!(
        run.step(completed(false, "/org/freedesktop/secrets/collection/Test")),
        PromptAction::Finish(Ok("/org/freedesktop/secrets/collection/Test".to_string()))
    );
    assert_eq!(run.state(), PromptState::Completed);
}

#[test]
fn prompt_is_not_shown_before_subscription() {
    let mut run = PromptRun::new(P.to_string());
    assert_eq!(run.step(PromptEvent::<String>::Subscribed), PromptAction::Ignore);
    assert_eq!(run.state(), PromptState::Idle);
    assert_eq!(run.step(PromptEvent::<String>::Start), PromptAction::Subscribe);
    assert_eq!(run.step(completed(false, "early")), PromptAction::Ignore);
    assert_eq!(run.state(), PromptState::Subscribing);
}

#[test]
fn dismissal_finishes_with_prompt_error() {
    let mut run = PromptRun::new(P.to_string());
    run.step(PromptEvent::<String>::Start);
    run.step(PromptEvent::<String>::Subscribed);
    assert_eq!(
        run.step(completed(true, "ignored payload")),
        PromptAction::Finish(Err(Error::Prompt))
    );
    assert_eq!(run.state(), PromptState::Dismissed);
}

#[test]
fn only_one_completion_is_taken() {
    let mut run = PromptRun::new(P.to_string());
    run.step(PromptEvent::<String>::Start);
    run.step(PromptEvent::<String>::Subscribed);
    assert!(matches!(run.step(completed(false, "first")), PromptAction::Finish(Ok(_))));
    assert_eq!(run.step(completed(true, "second")), PromptAction::Ignore);
    assert_eq!(run.step(PromptEvent::<String>::Start), PromptAction::Ignore);
    assert_eq!(run.state(), PromptState::Completed);
}

/// A service that locks objects only once consent is given.
struct Service {
    locked: HashMap<String, bool>,
}

#[test]
fn lock_requiring_consent_then_dismissed() {
    let obj = "/org/freedesktop/secrets/collection/login".to_string();
    let mut service = Service {
        locked: HashMap::from([(obj.clone(), false)]),
    };
    // the service changes nothing at once and hands back a prompt
    let affected: Vec<String> = vec![];
    let resolution = lock_outcome(&affected, &P.to_string());
    assert_eq!(resolution, Resolution::Prompt(P.to_string()));
    let Resolution::Prompt(path) = resolution else {
        unreachable!()
    };
    let mut run = PromptRun::new(path);
    assert_eq!(run.step(PromptEvent::<String>::Start), PromptAction::Subscribe);
    assert_eq!(run.step(PromptEvent::<String>::Subscribed), PromptAction::Show);
    let outcome = match run.step(completed(true, "")) {
        PromptAction::Finish(r) => r,
        other => panic!("unexpected {other:?}"),
    };
    if outcome.is_ok() {
        service.locked.insert(obj.clone(), true);
    }
    assert_eq!(outcome, Err(Error::Prompt));
    assert_eq!(service.locked[&obj], false);
}
