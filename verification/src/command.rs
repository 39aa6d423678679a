//! The fixed external authority command and the argument lists the tool
//! hands to it: two read-only queries and the single permitted mutation.

use vstd::prelude::*;
use crate::text::{concat_str, seq_views};

verus! {

/// Absolute path of the external accounting authority's command-line tool.
pub fn authority_path() -> (r: &'static str)
    ensures
        r@ == "/usr/bin/sacctmgr"@,
{
    "/usr/bin/sacctmgr"
}

/// The arguments of the read-only query for a user's record.
pub open spec fn spec_user_query_args(username: Seq<char>) -> Seq<Seq<char>> {
    seq!["--json"@, "show"@, "user"@, "where"@, "name="@ + username]
}

/// Builds the arguments of the read-only query for `username`'s user record.
pub fn user_query_args(username: &str) -> (r: Vec<String>)
    ensures
        seq_views(r@) == spec_user_query_args(username@),
{
    let mut args: Vec<String> = Vec::new();
    args.push("--json".to_owned());
    args.push("show".to_owned());
    args.push("user".to_owned());
    args.push("where".to_owned());
    args.push(concat_str("name=", username));
    proof {
        assert(seq_views(args@) =~= spec_user_query_args(username@));
    }
    args
}

/// The arguments of the read-only query for a user's association records.
pub open spec fn spec_association_query_args(username: Seq<char>) -> Seq<Seq<char>> {
    seq!["--json"@, "show"@, "association"@, "where"@, "user="@ + username]
}

/// Builds the arguments of the read-only query for `username`'s association
/// records.
pub fn association_query_args(username: &str) -> (r: Vec<String>)
    ensures
        seq_views(r@) == spec_association_query_args(username@),
{
    let mut args: Vec<String> = Vec::new();
    args.push("--json".to_owned());
    args.push("show".to_owned());
    args.push("association".to_owned());
    args.push("where".to_owned());
    args.push(concat_str("user=", username));
    proof {
        assert(seq_views(args@) =~= spec_association_query_args(username@));
    }
    args
}

/// The arguments of the single permitted mutation: set `username`'s default
/// account to `account`, applied immediately, scoped by a filter on exactly
/// that user's name.
pub open spec fn spec_modify_args(username: Seq<char>, account: Seq<char>) -> Seq<Seq<char>> {
    seq![
        "modify"@,
        "--immediate"@,
        "user"@,
        "where"@,
        "name="@ + username,
        "set"@,
        "defaultAccount="@ + account,
    ]
}

/// Builds the arguments of the mutation that sets `username`'s default
/// account to `account`.
pub fn modify_args(username: &str, account: &str) -> (r: Vec<String>)
    ensures
        seq_views(r@) == spec_modify_args(username@, account@),
{
    let mut args: Vec<String> = Vec::new();
    args.push("modify".to_owned());
    args.push("--immediate".to_owned());
    args.push("user".to_owned());
    args.push("where".to_owned());
    args.push(concat_str("name=", username));
    args.push("set".to_owned());
    args.push(concat_str("defaultAccount=", account));
    proof {
        assert(seq_views(args@) =~= spec_modify_args(username@, account@));
    }
    args
}

} // verus!
