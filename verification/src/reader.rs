//! Reading the authority's answers: the invoking user's current default
//! account from the user query, and the set of legitimately associated
//! accounts from the association query.
//!
//! The default-account read is strict: a document that is not one object,
//! holds no user list, holds other than exactly one user record, or whose
//! record carries no default account string, is an error. The association
//! read is deliberately lenient about single records: one without a readable
//! account string is skipped, never fatal.

use vstd::prelude::*;
use crate::json::{
    arr_of, field_of, get_arr, get_field, get_str, json_of, obj_fields, parse_json, str_of,
    JsonVal,
};
use crate::text::seq_views;

verus! {

/// Why a read of the authority's output failed.
#[derive(Clone, Copy, Debug, PartialEq, Eq, Structural)]
pub enum ReadError {
    /// The output was not a JSON object.
    Unparseable,
    /// The expected record list was absent, or not an array.
    MissingList,
    /// The user query matched other than exactly one record.
    WrongUserCount,
    /// The single user record carried no default account string.
    MissingDefault,
}

/// The default account string of one user record: the string under
/// `default.account`, where every step of that path exists.
pub open spec fn spec_user_default_account(user: JsonVal) -> Option<Seq<char>> {
    match field_of(user, "default"@) {
        Some(d) => match field_of(d, "account"@) {
            Some(a) => str_of(a),
            None => None,
        },
        None => None,
    }
}

/// What the user query's output means: the current default account, or the
/// error that reading it raises.
pub open spec fn spec_default_account(parsed: Option<JsonVal>) -> Result<Seq<char>, ReadError> {
    match parsed {
        None => Err(ReadError::Unparseable),
        Some(doc) => {
            if obj_fields(doc) is None {
                Err(ReadError::Unparseable)
            } else {
                match field_of(doc, "users"@) {
                    None => Err(ReadError::MissingList),
                    Some(u) => match arr_of(u) {
                        None => Err(ReadError::MissingList),
                        Some(users) => {
                            if users.len() != 1 {
                                Err(ReadError::WrongUserCount)
                            } else {
                                match spec_user_default_account(users[0]) {
                                    Some(a) => Ok(a),
                                    None => Err(ReadError::MissingDefault),
                                }
                            }
                        },
                    },
                }
            }
        },
    }
}

/// The account string of one association record, where it has one.
pub open spec fn spec_record_account(record: JsonVal) -> Option<Seq<char>> {
    match field_of(record, "account"@) {
        Some(a) => str_of(a),
        None => None,
    }
}

/// The account names of the association records, in order, skipping every
/// record without a readable account string.
pub open spec fn spec_accounts_of(records: Seq<JsonVal>) -> Seq<Seq<char>>
    decreases records.len(),
{
    if records.len() == 0 {
        Seq::empty()
    } else {
        spec_accounts_of(records.drop_last()) + (match spec_record_account(records.last()) {
            Some(a) => seq![a],
            None => Seq::empty(),
        })
    }
}

/// What the association query's output means: the set of valid account
/// names, or the error that reading it raises.
pub open spec fn spec_association_accounts(parsed: Option<JsonVal>) -> Result<
    Seq<Seq<char>>,
    ReadError,
> {
    match parsed {
        None => Err(ReadError::Unparseable),
        Some(doc) => {
            if obj_fields(doc) is None {
                Err(ReadError::Unparseable)
            } else {
                match field_of(doc, "associations"@) {
                    None => Err(ReadError::MissingList),
                    Some(l) => match arr_of(l) {
                        None => Err(ReadError::MissingList),
                        Some(records) => Ok(spec_accounts_of(records)),
                    },
                }
            }
        },
    }
}

/// The default account string of one user record, as executable code.
fn user_default_account<'a>(user: &'a JsonVal) -> (r: Option<&'a String>)
    ensures
        (match r {
            Some(s) => spec_user_default_account(*user) == Some(s@),
            None => spec_user_default_account(*user) is None,
        }),
{
    match get_field(user, "default") {
        Some(d) => match get_field(d, "account") {
            Some(a) => get_str(a),
            None => None,
        },
        None => None,
    }
}

/// Reads the current default account out of the user query's raw output.
///
/// The read is strict, as identity confirmation must be: any shape other
/// than one object with exactly one user record holding a default account
/// string is the stated error.
pub fn read_default_account(output: &[u8]) -> (r: Result<String, ReadError>)
    ensures
        (match r {
            Ok(s) => spec_default_account(json_of(output@)) == Ok::<Seq<char>, ReadError>(s@),
            Err(e) => spec_default_account(json_of(output@)) == Err::<Seq<char>, ReadError>(e),
        }),
{
    match parse_json(output) {
        None => Err(ReadError::Unparseable),
        Some(doc) => {
            if !crate::json::is_obj(&doc) {
                return Err(ReadError::Unparseable);
            }
            match get_field(&doc, "users") {
                None => Err(ReadError::MissingList),
                Some(u) => match get_arr(u) {
                    None => Err(ReadError::MissingList),
                    Some(users) => {
                        if users.len() != 1 {
                            Err(ReadError::WrongUserCount)
                        } else {
                            match user_default_account(&users[0]) {
                                Some(s) => Ok(s.clone()),
                                None => Err(ReadError::MissingDefault),
                            }
                        }
                    },
                },
            }
        },
    }
}

/// The account string of one association record, as executable code.
fn record_account<'a>(record: &'a JsonVal) -> (r: Option<&'a String>)
    ensures
        (match r {
            Some(s) => spec_record_account(*record) == Some(s@),
            None => spec_record_account(*record) is None,
        }),
{
    match get_field(record, "account") {
        Some(a) => get_str(a),
        None => None,
    }
}

/// Reads the set of valid account names out of the association query's raw
/// output. A record without a readable account string is skipped.
pub fn read_association_accounts(output: &[u8]) -> (r: Result<Vec<String>, ReadError>)
    ensures
        (match r {
            Ok(accounts) => spec_association_accounts(json_of(output@)) == Ok::<
                Seq<Seq<char>>,
                ReadError,
            >(seq_views(accounts@)),
            Err(e) => spec_association_accounts(json_of(output@)) == Err::<
                Seq<Seq<char>>,
                ReadError,
            >(e),
        }),
{
    match parse_json(output) {
        None => Err(ReadError::Unparseable),
        Some(doc) => {
            if !crate::json::is_obj(&doc) {
                return Err(ReadError::Unparseable);
            }
            match get_field(&doc, "associations") {
                None => Err(ReadError::MissingList),
                Some(l) => match get_arr(l) {
                    None => Err(ReadError::MissingList),
                    Some(records) => {
                        let mut accounts: Vec<String> = Vec::new();
                        let n = records.len();
                        let mut i: usize = 0;
                        while i < n
                            invariant
                                i <= n,
                                n == records@.len(),
                                seq_views(accounts@) == spec_accounts_of(
                                    records@.take(i as int),
                                ),
                            decreases n - i,
                        {
                            match record_account(&records[i]) {
                                Some(s) => {
                                    let ghost before = accounts@;
                                    accounts.push(s.clone());
                                    proof {
                                        assert(seq_views(accounts@) =~= seq_views(before)
                                            + seq![s@]);
                                    }
                                },
                                None => (),
                            }
                            proof {
                                assert(records@.take(i + 1).drop_last() =~= records@.take(i as int));
                                assert(records@.take(i + 1).last() == records@[i as int]);
                                assert(seq_views(accounts@) =~= spec_accounts_of(
                                    records@.take(i + 1),
                                ));
                            }
                            i = i + 1;
                        }
                        proof {
                            assert(records@.take(n as int) =~= records@);
                        }
                        Ok(accounts)
                    },
                },
            }
        },
    }
}

} // verus!
