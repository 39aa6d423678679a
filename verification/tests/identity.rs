use slurm_default_account::identity::{check_identities, resolve_identities, IdentityError};

#[test]
fn unresolved_invoker_refused() {
    assert_eq!(
        check_identities(&None, &Some("slurm".to_owned())),
        Err(IdentityError::RealUnresolved)
    );
}

#[test]
fn unresolved_effective_refused() {
    assert_eq!(
        check_identities(&Some("alice".to_owned()), &None),
        Err(IdentityError::EffectiveUnresolved)
    );
}

#[test]
fn wrong_effective_refused() {
    assert_eq!(
        check_identities(&Some("alice".to_owned()), &Some("nobody".to_owned())),
        Err(IdentityError::WrongEffective)
    );
}

#[test]
fn effective_check_comes_before_superuser_check() {
    assert_eq!(
        check_identities(&Some("root".to_owned()), &Some("nobody".to_owned())),
        Err(IdentityError::WrongEffective)
    );
}

#[test]
fn superuser_invoker_refused() {
    assert_eq!(
        check_identities(&Some("root".to_owned()), &Some("slurm".to_owned())),
        Err(IdentityError::RealIsSuperuser)
    );
}

#[test]
fn ordinary_user_accepted() {
    assert_eq!(
        check_identities(&Some("alice".to_owned()), &Some("slurm".to_owned())),
        Ok("alice".to_owned())
    );
}

#[test]
fn identities_resolve_without_panicking() {
    let (invoker, effective) = resolve_identities();
    let _ = check_identities(&invoker, &effective);
}
