//! String building for the tool's messages, with exact contracts: every
//! message a caller sees is pinned down, character for character, by a spec
//! function.

use vstd::prelude::*;
use vstd::string::StringExecFns;

verus! {

/// The views of a sequence of strings.
pub open spec fn seq_views(s: Seq<String>) -> Seq<Seq<char>> {
    s.map_values(|x: String| x@)
}

/// The view of an optional string.
pub open spec fn opt_view(o: Option<String>) -> Option<Seq<char>> {
    match o {
        Some(s) => Some(s@),
        None => None,
    }
}

/// The text that lossy UTF-8 decoding gives a byte string: a function of the
/// bytes alone.
pub uninterp spec fn lossy_text_of(bytes: Seq<u8>) -> Seq<char>;

/// Relies on `String::from_utf8_lossy`: decodes bytes as UTF-8, replacing
/// ill-formed sequences; the text depends on the bytes alone.
#[verifier::external_body]
pub(crate) fn lossy_text(bytes: &[u8]) -> (r: String)
    ensures
        r@ == lossy_text_of(bytes@),
{
    String::from_utf8_lossy(bytes).into_owned()
}

/// `prefix` followed by `rest`, as one string.
pub fn concat_str(prefix: &str, rest: &str) -> (r: String)
    ensures
        r@ == prefix@ + rest@,
{
    let mut s: String = prefix.to_owned();
    s.append(rest);
    s
}

/// `s` wrapped in double quotes.
pub open spec fn spec_quoted(s: Seq<char>) -> Seq<char> {
    "\""@ + s + "\""@
}

/// Wraps `s` in double quotes.
pub fn quoted(s: &str) -> (r: String)
    ensures
        r@ == spec_quoted(s@),
{
    let mut out: String = "\"".to_owned();
    out.append(s);
    out.append("\"");
    out
}

/// The names in `accounts`, each quoted, joined by comma-space.
pub open spec fn spec_joined_names(accounts: Seq<Seq<char>>) -> Seq<char>
    decreases accounts.len(),
{
    if accounts.len() == 0 {
        Seq::empty()
    } else if accounts.len() == 1 {
        spec_quoted(accounts[0])
    } else {
        spec_joined_names(accounts.drop_last()) + ", "@ + spec_quoted(accounts.last())
    }
}

/// The quoted, comma-separated names in `accounts`, between square brackets.
pub open spec fn spec_name_list(accounts: Seq<Seq<char>>) -> Seq<char> {
    "["@ + spec_joined_names(accounts) + "]"@
}

/// Renders `accounts` as a bracketed list of quoted names.
pub fn name_list(accounts: &Vec<String>) -> (r: String)
    ensures
        r@ == spec_name_list(seq_views(accounts@)),
{
    let ghost names = seq_views(accounts@);
    let mut joined: String = String::new();
    let n = accounts.len();
    let mut i: usize = 0;
    while i < n
        invariant
            i <= n,
            n == accounts@.len(),
            names == seq_views(accounts@),
            joined@ == spec_joined_names(names.take(i as int)),
        decreases n - i,
    {
        let q = quoted(accounts[i].as_str());
        if i == 0 {
            joined = q;
        } else {
            joined.append(", ");
            joined.append(q.as_str());
        }
        proof {
            assert(names.take(i + 1).drop_last() =~= names.take(i as int));
            assert(names.take(i + 1).last() == names[i as int]);
        }
        i = i + 1;
    }
    proof {
        assert(names.take(n as int) =~= names);
    }
    let mut out: String = "[".to_owned();
    out.append(joined.as_str());
    out.append("]");
    out
}

/// The help text: the argument-count rule, the current default account and
/// the full list of valid accounts.
pub open spec fn spec_help_message(default_account: Seq<char>, accounts: Seq<Seq<char>>) -> Seq<
    char,
> {
    "exactly one argument required (account name).\n"@
        + "current default account name for this user: "@ + spec_quoted(default_account) + "\n"@
        + "valid account names for this user: "@ + spec_name_list(accounts) + "\n"@
}

/// Builds the help text from the current default account and the valid
/// account names.
pub fn help_message(default_account: &str, accounts: &Vec<String>) -> (r: String)
    ensures
        r@ == spec_help_message(default_account@, seq_views(accounts@)),
{
    let mut out: String = "exactly one argument required (account name).\n".to_owned();
    out.append("current default account name for this user: ");
    let q = quoted(default_account);
    out.append(q.as_str());
    out.append("\n");
    out.append("valid account names for this user: ");
    let l = name_list(accounts);
    out.append(l.as_str());
    out.append("\n");
    out
}

/// The rejection text for an account name outside the association set: the
/// offending name, then the help text.
pub open spec fn spec_invalid_account_message(
    account: Seq<char>,
    default_account: Seq<char>,
    accounts: Seq<Seq<char>>,
) -> Seq<char> {
    "invalid account name: "@ + spec_quoted(account) + "\n\n"@ + spec_help_message(
        default_account,
        accounts,
    )
}

/// Builds the rejection text for an account name outside the association set.
pub fn invalid_account_message(account: &str, default_account: &str, accounts: &Vec<String>) -> (r:
    String)
    ensures
        r@ == spec_invalid_account_message(
            account@,
            default_account@,
            seq_views(accounts@),
        ),
{
    let mut out: String = "invalid account name: ".to_owned();
    let q = quoted(account);
    out.append(q.as_str());
    out.append("\n\n");
    let h = help_message(default_account, accounts);
    out.append(h.as_str());
    out
}

/// The note printed when the requested account already is the default.
pub open spec fn spec_noop_message() -> Seq<char> {
    "this account is already the default."@
}

/// The note printed when the requested account already is the default.
pub fn noop_message() -> (r: String)
    ensures
        r@ == spec_noop_message(),
{
    "this account is already the default.".to_owned()
}

/// The diagnostic for an authority command that did not report success: its
/// exit status and its two output streams, surfaced raw.
pub open spec fn spec_command_failed_message(
    status: Seq<char>,
    stdout: Seq<u8>,
    stderr: Seq<u8>,
) -> Seq<char> {
    "command failed!\n"@ + status + "\nstdout:\n"@ + lossy_text_of(stdout) + "\nstderr:\n"@
        + lossy_text_of(stderr) + "\n"@
}

/// Builds the diagnostic for an authority command that did not report
/// success.
pub fn command_failed_message(status: &str, stdout: &[u8], stderr: &[u8]) -> (r: String)
    ensures
        r@ == spec_command_failed_message(status@, stdout@, stderr@),
{
    let mut out: String = "command failed!\n".to_owned();
    out.append(status);
    out.append("\nstdout:\n");
    let so = lossy_text(stdout);
    out.append(so.as_str());
    out.append("\nstderr:\n");
    let se = lossy_text(stderr);
    out.append(se.as_str());
    out.append("\n");
    out
}

} // verus!
