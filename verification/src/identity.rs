//! The identity gate: who invoked the tool, as whom it runs, and the two
//! hard preconditions that must hold before any other work — the effective
//! identity must be the fixed privileged account, and the invoking identity
//! must not be the superuser.

use vstd::prelude::*;
use crate::text::opt_view;

verus! {

/// The username the binary must run as, through its setuid installation.
pub open spec fn privileged_name() -> Seq<char> {
    "slurm"@
}

/// The superuser's username, which must never invoke this tool.
pub open spec fn superuser_name() -> Seq<char> {
    "root"@
}

/// Why the identity gate refused to continue.
#[derive(Clone, Copy, Debug, PartialEq, Eq, Structural)]
pub enum IdentityError {
    /// The invoking user id resolved to no username.
    RealUnresolved,
    /// The effective user id resolved to no username.
    EffectiveUnresolved,
    /// The effective username is not the fixed privileged account.
    WrongEffective,
    /// The invoking user is the superuser.
    RealIsSuperuser,
}

/// What the identity gate decides, from the resolved invoking and effective
/// usernames: the invoking username where both preconditions hold, else the
/// first violation, checked in this order — invoking identity resolved,
/// effective identity resolved, effective identity privileged, invoking
/// identity not the superuser.
pub open spec fn spec_check_identities(
    invoker: Option<Seq<char>>,
    effective: Option<Seq<char>>,
) -> Result<Seq<char>, IdentityError> {
    match invoker {
        None => Err(IdentityError::RealUnresolved),
        Some(real_name) => match effective {
            None => Err(IdentityError::EffectiveUnresolved),
            Some(effective_name) => {
                if effective_name != privileged_name() {
                    Err(IdentityError::WrongEffective)
                } else if real_name == superuser_name() {
                    Err(IdentityError::RealIsSuperuser)
                } else {
                    Ok(real_name)
                }
            },
        },
    }
}

/// Runs the identity gate on the resolved usernames.
pub fn check_identities(invoker: &Option<String>, effective: &Option<String>) -> (r: Result<
    String,
    IdentityError,
>)
    ensures
        (match r {
            Ok(name) => spec_check_identities(opt_view(*invoker), opt_view(*effective)) == Ok::<
                Seq<char>,
                IdentityError,
            >(name@),
            Err(e) => spec_check_identities(opt_view(*invoker), opt_view(*effective)) == Err::<
                Seq<char>,
                IdentityError,
            >(e),
        }),
{
    match invoker {
        None => Err(IdentityError::RealUnresolved),
        Some(real_name) => match effective {
            None => Err(IdentityError::EffectiveUnresolved),
            Some(effective_name) => {
                let privileged: String = "slurm".to_owned();
                let superuser: String = "root".to_owned();
                if !(*effective_name == privileged) {
                    Err(IdentityError::WrongEffective)
                } else if *real_name == superuser {
                    Err(IdentityError::RealIsSuperuser)
                } else {
                    Ok(real_name.clone())
                }
            },
        },
    }
}

/// Relies on `nix::unistd::Uid::current` (`getuid`): the invoking user id of
/// this process, a fact of the environment.
#[verifier::external_body]
fn real_uid() -> u32 {
    nix::unistd::Uid::current().as_raw()
}

/// Relies on `nix::unistd::Uid::effective` (`geteuid`): the effective user
/// id of this process, a fact of the environment.
#[verifier::external_body]
fn effective_uid() -> u32 {
    nix::unistd::Uid::effective().as_raw()
}

/// Relies on `nix::unistd::User::from_uid` (`getpwuid_r`): the username of a
/// user id, looked up in the system's user database; `None` where the lookup
/// fails or finds nothing.
#[verifier::external_body]
fn username_of(uid: u32) -> Option<String> {
    match nix::unistd::User::from_uid(nix::unistd::Uid::from_raw(uid)) {
        Ok(Some(user)) => Some(user.name),
        _ => None,
    }
}

/// Resolves the invoking (real) and effective identities of this process to
/// usernames. What comes back is a fact of the environment; the identity
/// gate holds for every value of it.
pub fn resolve_identities() -> (Option<String>, Option<String>) {
    (username_of(real_uid()), username_of(effective_uid()))
}

} // verus!
