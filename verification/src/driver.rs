//! The tool as a state machine: one linear pass from the identity gate over
//! the two read-only queries to the single permitted mutation, driven by an
//! outer loop that performs the external work and hands its results back.
//!
//! [`step`] is total and deterministic; its whole behaviour is the spec
//! function [`spec_step`]. The proof functions at the end state the tool's
//! privilege-boundary laws over `spec_step`.

use vstd::prelude::*;
use crate::command::{
    association_query_args, modify_args, spec_association_query_args, spec_modify_args,
    spec_user_query_args, user_query_args,
};
use crate::decision::{decide, spec_decide, Decision};
use crate::identity::{check_identities, privileged_name, spec_check_identities, superuser_name,
    IdentityError};
use crate::json::json_of;
use crate::reader::{
    read_association_accounts, read_default_account, spec_association_accounts,
    spec_default_account, ReadError,
};
use crate::text::{
    command_failed_message, help_message, invalid_account_message, lossy_text, lossy_text_of,
    noop_message, opt_view, seq_views, spec_command_failed_message, spec_help_message,
    spec_invalid_account_message, spec_noop_message,
};

verus! {

/// What one run of the external authority's command reported.
pub struct CommandResult {
    /// Whether the command's exit status reported success.
    pub success: bool,
    /// The exit status, rendered as text.
    pub status: String,
    /// Everything the command wrote to its output stream.
    pub stdout: Vec<u8>,
    /// Everything the command wrote to its error stream.
    pub stderr: Vec<u8>,
}

/// The model of a [`CommandResult`].
pub struct CommandResultModel {
    pub success: bool,
    pub status: Seq<char>,
    pub stdout: Seq<u8>,
    pub stderr: Seq<u8>,
}

impl View for CommandResult {
    type V = CommandResultModel;

    open spec fn view(&self) -> CommandResultModel {
        CommandResultModel {
            success: self.success,
            status: self.status@,
            stdout: self.stdout@,
            stderr: self.stderr@,
        }
    }
}

/// What the outer loop hands back to the tool.
pub enum Event {
    /// The process identities, resolved to usernames where possible.
    Identities { invoker: Option<String>, effective: Option<String> },
    /// What an authority command that the tool asked for reported.
    Authority { output: CommandResult },
}

/// The model of an [`Event`].
pub enum EventModel {
    Identities { invoker: Option<Seq<char>>, effective: Option<Seq<char>> },
    Authority { output: CommandResultModel },
}

impl View for Event {
    type V = EventModel;

    open spec fn view(&self) -> EventModel {
        match self {
            Event::Identities { invoker, effective } => EventModel::Identities {
                invoker: opt_view(*invoker),
                effective: opt_view(*effective),
            },
            Event::Authority { output } => EventModel::Authority { output: output@ },
        }
    }
}

/// Where the tool stands: each state waits for exactly one kind of event.
/// The command-line arguments ride along untouched until the association set
/// is in hand, as the help text needs both queries' answers.
pub enum State {
    /// Waiting for the process identities.
    AwaitIdentities { args: Vec<String> },
    /// Waiting for the user query's output.
    AwaitUserRecord { args: Vec<String>, username: String },
    /// Waiting for the association query's output.
    AwaitAssociations { args: Vec<String>, username: String, default_account: String },
    /// Waiting for the mutation's output.
    AwaitModifyResult,
    /// Terminal: nothing further is asked of the outside.
    Done,
}

/// The model of a [`State`].
pub enum StateModel {
    AwaitIdentities { args: Seq<Seq<char>> },
    AwaitUserRecord { args: Seq<Seq<char>>, username: Seq<char> },
    AwaitAssociations { args: Seq<Seq<char>>, username: Seq<char>, default_account: Seq<char> },
    AwaitModifyResult,
    Done,
}

impl View for State {
    type V = StateModel;

    open spec fn view(&self) -> StateModel {
        match self {
            State::AwaitIdentities { args } => StateModel::AwaitIdentities {
                args: seq_views(args@),
            },
            State::AwaitUserRecord { args, username } => StateModel::AwaitUserRecord {
                args: seq_views(args@),
                username: username@,
            },
            State::AwaitAssociations { args, username, default_account } => (
            StateModel::AwaitAssociations {
                args: seq_views(args@),
                username: username@,
                default_account: default_account@,
            }),
            State::AwaitModifyResult => StateModel::AwaitModifyResult,
            State::Done => StateModel::Done,
        }
    }
}

/// How one invocation ends.
pub enum Outcome {
    /// Exit status zero; the message goes to the output stream.
    Success { message: String },
    /// Non-zero exit status; the message goes to the error stream.
    Failure { message: String },
}

/// The model of an [`Outcome`].
pub enum OutcomeModel {
    Success { message: Seq<char> },
    Failure { message: Seq<char> },
}

impl View for Outcome {
    type V = OutcomeModel;

    open spec fn view(&self) -> OutcomeModel {
        match self {
            Outcome::Success { message } => OutcomeModel::Success { message: message@ },
            Outcome::Failure { message } => OutcomeModel::Failure { message: message@ },
        }
    }
}

/// What the tool asks of the outer loop.
pub enum Action {
    /// Run the authority's command with these arguments and hand back what
    /// it reported.
    RunAuthority { args: Vec<String> },
    /// Terminate with this outcome.
    Finish { outcome: Outcome },
}

/// The model of an [`Action`].
pub enum ActionModel {
    RunAuthority { args: Seq<Seq<char>> },
    Finish { outcome: OutcomeModel },
}

impl View for Action {
    type V = ActionModel;

    open spec fn view(&self) -> ActionModel {
        match self {
            Action::RunAuthority { args } => ActionModel::RunAuthority {
                args: seq_views(args@),
            },
            Action::Finish { outcome } => ActionModel::Finish { outcome: outcome@ },
        }
    }
}

/// The diagnostic for each identity-gate refusal.
pub open spec fn spec_identity_message(err: IdentityError) -> Seq<char> {
    match err {
        IdentityError::RealUnresolved => "could not resolve the invoking user id to a username."@,
        IdentityError::EffectiveUnresolved => (
        "could not resolve the effective user id to a username."@),
        IdentityError::WrongEffective => (
        "This binary must be owned by \"slurm\" with the suid bit set!"@),
        IdentityError::RealIsSuperuser => "This program must not be run as root!"@,
    }
}

/// Renders an identity-gate refusal.
pub fn identity_message(err: IdentityError) -> (r: String)
    ensures
        r@ == spec_identity_message(err),
{
    match err {
        IdentityError::RealUnresolved => "could not resolve the invoking user id to a username.".to_owned(),
        IdentityError::EffectiveUnresolved => "could not resolve the effective user id to a username.".to_owned(),
        IdentityError::WrongEffective => "This binary must be owned by \"slurm\" with the suid bit set!".to_owned(),
        IdentityError::RealIsSuperuser => "This program must not be run as root!".to_owned(),
    }
}

/// The diagnostic for each failed read of the authority's output.
pub open spec fn spec_read_message(err: ReadError) -> Seq<char> {
    match err {
        ReadError::Unparseable => "could not parse the authority's output as a JSON object."@,
        ReadError::MissingList => "the authority's output holds no such record list."@,
        ReadError::WrongUserCount => "exactly 1 user must be found with given name."@,
        ReadError::MissingDefault => "the user record holds no default account string."@,
    }
}

/// Renders a failed read of the authority's output.
pub fn read_message(err: ReadError) -> (r: String)
    ensures
        r@ == spec_read_message(err),
{
    match err {
        ReadError::Unparseable => "could not parse the authority's output as a JSON object.".to_owned(),
        ReadError::MissingList => "the authority's output holds no such record list.".to_owned(),
        ReadError::WrongUserCount => "exactly 1 user must be found with given name.".to_owned(),
        ReadError::MissingDefault => "the user record holds no default account string.".to_owned(),
    }
}

/// The diagnostic for an event that does not belong to the current state.
pub open spec fn spec_protocol_message() -> Seq<char> {
    "internal error: unexpected event for the tool's current step."@
}

/// The whole behaviour of [`step`], one case per state and event.
pub open spec fn spec_step(s: StateModel, e: EventModel) -> (StateModel, ActionModel) {
    match (s, e) {
        (
            StateModel::AwaitIdentities { args },
            EventModel::Identities { invoker, effective },
        ) => {
            match spec_check_identities(invoker, effective) {
                Err(err) => (
                    StateModel::Done,
                    ActionModel::Finish {
                        outcome: OutcomeModel::Failure { message: spec_identity_message(err) },
                    },
                ),
                Ok(username) => (
                    StateModel::AwaitUserRecord { args, username },
                    ActionModel::RunAuthority { args: spec_user_query_args(username) },
                ),
            }
        },
        (
            StateModel::AwaitUserRecord { args, username },
            EventModel::Authority { output },
        ) => {
            if !output.success {
                (
                    StateModel::Done,
                    ActionModel::Finish {
                        outcome: OutcomeModel::Failure {
                            message: spec_command_failed_message(
                                output.status,
                                output.stdout,
                                output.stderr,
                            ),
                        },
                    },
                )
            } else {
                match spec_default_account(json_of(output.stdout)) {
                    Err(err) => (
                        StateModel::Done,
                        ActionModel::Finish {
                            outcome: OutcomeModel::Failure { message: spec_read_message(err) },
                        },
                    ),
                    Ok(default_account) => (
                        StateModel::AwaitAssociations { args, username, default_account },
                        ActionModel::RunAuthority {
                            args: spec_association_query_args(username),
                        },
                    ),
                }
            }
        },
        (
            StateModel::AwaitAssociations { args, username, default_account },
            EventModel::Authority { output },
        ) => {
            if !output.success {
                (
                    StateModel::Done,
                    ActionModel::Finish {
                        outcome: OutcomeModel::Failure {
                            message: spec_command_failed_message(
                                output.status,
                                output.stdout,
                                output.stderr,
                            ),
                        },
                    },
                )
            } else {
                match spec_association_accounts(json_of(output.stdout)) {
                    Err(err) => (
                        StateModel::Done,
                        ActionModel::Finish {
                            outcome: OutcomeModel::Failure { message: spec_read_message(err) },
                        },
                    ),
                    Ok(accounts) => {
                        if args.len() != 2 {
                            (
                                StateModel::Done,
                                ActionModel::Finish {
                                    outcome: OutcomeModel::Failure {
                                        message: spec_help_message(default_account, accounts),
                                    },
                                },
                            )
                        } else {
                            match spec_decide(args[1], default_account, accounts) {
                                Decision::AlreadyDefault => (
                                    StateModel::Done,
                                    ActionModel::Finish {
                                        outcome: OutcomeModel::Success {
                                            message: spec_noop_message(),
                                        },
                                    },
                                ),
                                Decision::Invalid => (
                                    StateModel::Done,
                                    ActionModel::Finish {
                                        outcome: OutcomeModel::Failure {
                                            message: spec_invalid_account_message(
                                                args[1],
                                                default_account,
                                                accounts,
                                            ),
                                        },
                                    },
                                ),
                                Decision::Modify => (
                                    StateModel::AwaitModifyResult,
                                    ActionModel::RunAuthority {
                                        args: spec_modify_args(username, args[1]),
                                    },
                                ),
                            }
                        }
                    },
                }
            }
        },
        (StateModel::AwaitModifyResult, EventModel::Authority { output }) => {
            if output.success {
                (
                    StateModel::Done,
                    ActionModel::Finish {
                        outcome: OutcomeModel::Success {
                            message: lossy_text_of(output.stdout),
                        },
                    },
                )
            } else {
                (
                    StateModel::Done,
                    ActionModel::Finish {
                        outcome: OutcomeModel::Failure {
                            message: spec_command_failed_message(
                                output.status,
                                output.stdout,
                                output.stderr,
                            ),
                        },
                    },
                )
            }
        },
        _ => (
            StateModel::Done,
            ActionModel::Finish {
                outcome: OutcomeModel::Failure { message: spec_protocol_message() },
            },
        ),
    }
}

/// The state one invocation starts in, carrying the command line.
pub fn start(args: Vec<String>) -> (s: State)
    ensures
        s@ == (StateModel::AwaitIdentities { args: seq_views(args@) }),
{
    State::AwaitIdentities { args }
}

/// Advances the tool by one event: exactly [`spec_step`] on the models.
pub fn step(s: State, e: Event) -> (r: (State, Action))
    ensures
        (r.0@, r.1@) == spec_step(s@, e@),
{
    match (s, e) {
        (State::AwaitIdentities { args }, Event::Identities { invoker, effective }) => {
            match check_identities(&invoker, &effective) {
                Err(err) => (
                    State::Done,
                    Action::Finish {
                        outcome: Outcome::Failure { message: identity_message(err) },
                    },
                ),
                Ok(username) => {
                    let query = user_query_args(username.as_str());
                    (
                        State::AwaitUserRecord { args, username },
                        Action::RunAuthority { args: query },
                    )
                },
            }
        },
        (State::AwaitUserRecord { args, username }, Event::Authority { output }) => {
            if !output.success {
                let message = command_failed_message(
                    output.status.as_str(),
                    output.stdout.as_slice(),
                    output.stderr.as_slice(),
                );
                (State::Done, Action::Finish { outcome: Outcome::Failure { message } })
            } else {
                match read_default_account(output.stdout.as_slice()) {
                    Err(err) => (
                        State::Done,
                        Action::Finish {
                            outcome: Outcome::Failure { message: read_message(err) },
                        },
                    ),
                    Ok(default_account) => {
                        let query = association_query_args(username.as_str());
                        (
                            State::AwaitAssociations { args, username, default_account },
                            Action::RunAuthority { args: query },
                        )
                    },
                }
            }
        },
        (
            State::AwaitAssociations { args, username, default_account },
            Event::Authority { output },
        ) => {
            if !output.success {
                let message = command_failed_message(
                    output.status.as_str(),
                    output.stdout.as_slice(),
                    output.stderr.as_slice(),
                );
                (State::Done, Action::Finish { outcome: Outcome::Failure { message } })
            } else {
                match read_association_accounts(output.stdout.as_slice()) {
                    Err(err) => (
                        State::Done,
                        Action::Finish {
                            outcome: Outcome::Failure { message: read_message(err) },
                        },
                    ),
                    Ok(accounts) => {
                        if args.len() != 2 {
                            let message = help_message(default_account.as_str(), &accounts);
                            (
                                State::Done,
                                Action::Finish { outcome: Outcome::Failure { message } },
                            )
                        } else {
                            let requested = &args[1];
                            match decide(
                                requested.as_str(),
                                default_account.as_str(),
                                &accounts,
                            ) {
                                Decision::AlreadyDefault => (
                                    State::Done,
                                    Action::Finish {
                                        outcome: Outcome::Success { message: noop_message() },
                                    },
                                ),
                                Decision::Invalid => {
                                    let message = invalid_account_message(
                                        requested.as_str(),
                                        default_account.as_str(),
                                        &accounts,
                                    );
                                    (
                                        State::Done,
                                        Action::Finish {
                                            outcome: Outcome::Failure { message },
                                        },
                                    )
                                },
                                Decision::Modify => {
                                    let mutation = modify_args(
                                        username.as_str(),
                                        requested.as_str(),
                                    );
                                    (
                                        State::AwaitModifyResult,
                                        Action::RunAuthority { args: mutation },
                                    )
                                },
                            }
                        }
                    },
                }
            }
        },
        (State::AwaitModifyResult, Event::Authority { output }) => {
            if output.success {
                let message = lossy_text(output.stdout.as_slice());
                (State::Done, Action::Finish { outcome: Outcome::Success { message } })
            } else {
                let message = command_failed_message(
                    output.status.as_str(),
                    output.stdout.as_slice(),
                    output.stderr.as_slice(),
                );
                (State::Done, Action::Finish { outcome: Outcome::Failure { message } })
            }
        },
        _ => (
            State::Done,
            Action::Finish {
                outcome: Outcome::Failure {
                    message: "internal error: unexpected event for the tool's current step.".to_owned(),
                },
            },
        ),
    }
}

/// Whether an action asks the outer loop to run the authority's command.
pub open spec fn is_external_call(a: ActionModel) -> bool {
    a is RunAuthority
}

/// Whether an action terminates the invocation with a non-zero exit status.
pub open spec fn is_failing_finish(a: ActionModel) -> bool {
    a matches ActionModel::Finish { outcome } && outcome is Failure
}

/// The terminal state is absorbing: once the tool is done, no event makes it
/// ask anything further of the outside, so a run aborted at some step issues
/// no external call after that step.
pub proof fn lemma_done_is_terminal(e: EventModel)
    ensures
        spec_step(StateModel::Done, e).0 is Done,
        !is_external_call(spec_step(StateModel::Done, e).1),
{
}

/// A well-formed identity environment whose effective identity is not the
/// fixed privileged name makes the first step abort, before any external
/// call is issued.
pub proof fn lemma_wrong_effective_aborts(
    args: Seq<Seq<char>>,
    invoker: Seq<char>,
    effective: Seq<char>,
)
    requires
        effective != privileged_name(),
    ensures
        spec_step(
            StateModel::AwaitIdentities { args },
            EventModel::Identities { invoker: Some(invoker), effective: Some(effective) },
        ).0 is Done,
        is_failing_finish(
            spec_step(
                StateModel::AwaitIdentities { args },
                EventModel::Identities { invoker: Some(invoker), effective: Some(effective) },
            ).1,
        ),
        !is_external_call(
            spec_step(
                StateModel::AwaitIdentities { args },
                EventModel::Identities { invoker: Some(invoker), effective: Some(effective) },
            ).1,
        ),
{
}

/// An invocation by the superuser makes the first step abort, whatever the
/// effective identity resolved to, and no external call is issued.
pub proof fn lemma_superuser_aborts(args: Seq<Seq<char>>, effective: Option<Seq<char>>)
    ensures
        spec_step(
            StateModel::AwaitIdentities { args },
            EventModel::Identities { invoker: Some(superuser_name()), effective },
        ).0 is Done,
        is_failing_finish(
            spec_step(
                StateModel::AwaitIdentities { args },
                EventModel::Identities { invoker: Some(superuser_name()), effective },
            ).1,
        ),
        !is_external_call(
            spec_step(
                StateModel::AwaitIdentities { args },
                EventModel::Identities { invoker: Some(superuser_name()), effective },
            ).1,
        ),
{
}

/// Requesting the current default account is a no-op: with both reads done
/// and the single argument equal to the default, the tool finishes
/// successfully with the no-op note and issues no mutation.
pub proof fn lemma_noop_issues_no_modify(
    args: Seq<Seq<char>>,
    username: Seq<char>,
    default_account: Seq<char>,
    output: CommandResultModel,
)
    ensures
        (output.success && spec_association_accounts(json_of(output.stdout)) is Ok && args.len()
            == 2 && args[1] == default_account) ==> spec_step(
            StateModel::AwaitAssociations { args, username, default_account },
            EventModel::Authority { output },
        ) == (
            StateModel::Done,
            ActionModel::Finish {
                outcome: OutcomeModel::Success { message: spec_noop_message() },
            },
        ),
{
}

/// A requested account outside the association set makes the tool abort with
/// the naming-and-help message, and no mutation is issued.
pub proof fn lemma_invalid_account_aborts(
    args: Seq<Seq<char>>,
    username: Seq<char>,
    default_account: Seq<char>,
    accounts: Seq<Seq<char>>,
    output: CommandResultModel,
)
    ensures
        (output.success && spec_association_accounts(json_of(output.stdout)) == Ok::<
            Seq<Seq<char>>,
            ReadError,
        >(accounts) && args.len() == 2 && args[1] != default_account && !accounts.contains(
            args[1],
        )) ==> spec_step(
            StateModel::AwaitAssociations { args, username, default_account },
            EventModel::Authority { output },
        ) == (
            StateModel::Done,
            ActionModel::Finish {
                outcome: OutcomeModel::Failure {
                    message: spec_invalid_account_message(args[1], default_account, accounts),
                },
            },
        ),
{
}

/// A requested account that is associated and differs from the default makes
/// the tool issue exactly the mutation for that user and that account, and
/// nothing else.
pub proof fn lemma_valid_account_issues_modify(
    args: Seq<Seq<char>>,
    username: Seq<char>,
    default_account: Seq<char>,
    accounts: Seq<Seq<char>>,
    output: CommandResultModel,
)
    ensures
        (output.success && spec_association_accounts(json_of(output.stdout)) == Ok::<
            Seq<Seq<char>>,
            ReadError,
        >(accounts) && args.len() == 2 && args[1] != default_account && accounts.contains(
            args[1],
        )) ==> spec_step(
            StateModel::AwaitAssociations { args, username, default_account },
            EventModel::Authority { output },
        ) == (
            StateModel::AwaitModifyResult,
            ActionModel::RunAuthority { args: spec_modify_args(username, args[1]) },
        ),
{
}

/// After the mutation is issued the tool only finishes: successfully, with
/// the authority's own confirmation text, exactly where the mutation
/// reported success; with the raw diagnostic otherwise. In particular no
/// second external call is ever issued.
pub proof fn lemma_modify_outcome(output: CommandResultModel)
    ensures
        spec_step(StateModel::AwaitModifyResult, EventModel::Authority { output }).0 is Done,
        !is_external_call(
            spec_step(StateModel::AwaitModifyResult, EventModel::Authority { output }).1,
        ),
        output.success ==> spec_step(
            StateModel::AwaitModifyResult,
            EventModel::Authority { output },
        ).1 == (ActionModel::Finish {
            outcome: OutcomeModel::Success { message: lossy_text_of(output.stdout) },
        }),
        !output.success ==> is_failing_finish(
            spec_step(StateModel::AwaitModifyResult, EventModel::Authority { output }).1,
        ),
{
}

/// The mutation is issued from no state but the one behind the full
/// validation gate: any step whose action runs the authority with a
/// mutation's arguments started in the association-read state and moved to
/// the await-mutation state, whose every successor is terminal. Along any
/// run, at most one mutation is therefore issued.
pub proof fn lemma_modify_issued_only_after_validation(s: StateModel, e: EventModel)
    ensures
        (spec_step(s, e).1 matches ActionModel::RunAuthority { args } && args.len() > 0
            && args[0] == "modify"@) ==> (s is AwaitAssociations && spec_step(
            s,
            e,
        ).0 is AwaitModifyResult),
{
    reveal_strlit("modify");
    reveal_strlit("--json");
    assert("modify"@[0] != "--json"@[0]);
}

/// A wrong argument count always aborts with exactly the help text — the
/// current default and the full valid list — whatever account names stand
/// anywhere, and no mutation is issued.
pub proof fn lemma_wrong_argument_count_aborts(
    args: Seq<Seq<char>>,
    username: Seq<char>,
    default_account: Seq<char>,
    accounts: Seq<Seq<char>>,
    output: CommandResultModel,
)
    ensures
        (output.success && spec_association_accounts(json_of(output.stdout)) == Ok::<
            Seq<Seq<char>>,
            ReadError,
        >(accounts) && args.len() != 2) ==> spec_step(
            StateModel::AwaitAssociations { args, username, default_account },
            EventModel::Authority { output },
        ) == (
            StateModel::Done,
            ActionModel::Finish {
                outcome: OutcomeModel::Failure {
                    message: spec_help_message(default_account, accounts),
                },
            },
        ),
{
}

} // verus!
