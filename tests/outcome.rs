use secret_service::outcome::{
    alias_target, check_unlocked, create_outcome, delete_outcome, lock_outcome, Creation, Resolution,
};
use secret_service::Error;

const P: &str = "/org/freedesktop/secrets/prompt/p7";
const OBJ: &str = "/org/freedesktop/secrets/collection/login";

#[test]
fn lock_with_no_interaction_needed() {
    let affected = vec![OBJ.to_string()];
    assert_eq!(lock_outcome(&affected, &"/".to_string()), Resolution::Done);
}

#[test]
fn lock_with_some_affected_ignores_prompt() {
    let affected = vec![OBJ.to_string()];
    assert_eq!(lock_outcome(&affected, &P.to_string()), Resolution::Done);
}

#[test]
fn lock_with_none_affected_needs_prompt() {
    assert_eq!(lock_outcome(&vec![], &P.to_string()), Resolution::Prompt(P.to_string()));
}

#[test]
fn lock_with_none_affected_and_no_prompt_is_done() {
    assert_eq!(lock_outcome(&vec![], &"/".to_string()), Resolution::Done);
}

#[test]
fn delete_prompt_sentinel() {
    assert_eq!(delete_outcome(&"/".to_string()), Resolution::Done);
    assert_eq!(delete_outcome(&P.to_string()), Resolution::Prompt(P.to_string()));
    assert_eq!(delete_outcome(&"/x".to_string()), Resolution::Prompt("/x".to_string()));
}

#[test]
fn create_outcomes() {
    assert_eq!(
        create_outcome(&OBJ.to_string(), &"/".to_string()),
        Ok(Creation::Created(OBJ.to_string()))
    );
    assert_eq!(
        create_outcome(&OBJ.to_string(), &P.to_string()),
        Ok(Creation::Created(OBJ.to_string()))
    );
    assert_eq!(
        create_outcome(&"/".to_string(), &P.to_string()),
        Ok(Creation::Prompt(P.to_string()))
    );
    assert_eq!(
        create_outcome(&"/".to_string(), &"/".to_string()),
        Err(Error::Protocol)
    );
}

#[test]
fn locked_objects_are_refused() {
    assert_eq!(check_unlocked(true), Err(Error::Locked));
    assert_eq!(check_unlocked(false), Ok(()));
}

#[test]
fn should_return_error_if_collection_doesnt_exist() {
    assert_eq!(alias_target(&"/".to_string()), Err(Error::NoResult));
    assert_eq!(alias_target(&OBJ.to_string()), Ok(OBJ.to_string()));
}
