use slurm_default_account::command::{
    association_query_args, authority_path, modify_args, user_query_args,
};
use slurm_default_account::decision::{decide, Decision};
use slurm_default_account::text::{help_message, invalid_account_message, name_list, noop_message};

#[test]
fn authority_path_is_fixed() {
    assert_eq!(authority_path(), "/usr/bin/sacctmgr");
}

#[test]
fn user_query_arguments() {
    assert_eq!(
        user_query_args("alice"),
        vec!["--json", "show", "user", "where", "name=alice"]
    );
}

#[test]
fn association_query_arguments() {
    assert_eq!(
        association_query_args("alice"),
        vec!["--json", "show", "association", "where", "user=alice"]
    );
}

#[test]
fn modify_arguments() {
    assert_eq!(
        modify_args("alice", "lab_b"),
        vec![
            "modify",
            "--immediate",
            "user",
            "where",
            "name=alice",
            "set",
            "defaultAccount=lab_b"
        ]
    );
}

#[test]
fn decide_noop_when_already_default() {
    let valid = vec!["lab_a".to_owned(), "lab_b".to_owned()];
    assert_eq!(decide("lab_a", "lab_a", &valid), Decision::AlreadyDefault);
}

#[test]
fn decide_noop_even_outside_the_set() {
    // The no-op check comes first, exactly as the tool behaves.
    let valid = vec!["lab_b".to_owned()];
    assert_eq!(decide("lab_a", "lab_a", &valid), Decision::AlreadyDefault);
}

#[test]
fn decide_modify_for_associated_account() {
    let valid = vec!["lab_a".to_owned(), "lab_b".to_owned()];
    assert_eq!(decide("lab_b", "lab_a", &valid), Decision::Modify);
}

#[test]
fn decide_invalid_for_unassociated_account() {
    let valid = vec!["lab_a".to_owned(), "lab_b".to_owned()];
    assert_eq!(decide("lab_c", "lab_a", &valid), Decision::Invalid);
}

#[test]
fn decide_invalid_on_empty_set() {
    let valid: Vec<String> = Vec::new();
    assert_eq!(decide("lab_c", "lab_a", &valid), Decision::Invalid);
}

#[test]
fn name_list_rendering() {
    assert_eq!(name_list(&Vec::new()), "[]");
    assert_eq!(name_list(&vec!["a".to_owned()]), "[\"a\"]");
    assert_eq!(
        name_list(&vec!["lab_a".to_owned(), "lab_b".to_owned()]),
        "[\"lab_a\", \"lab_b\"]"
    );
}

#[test]
fn help_message_contents() {
    let accounts = vec!["lab_a".to_owned(), "lab_b".to_owned()];
    assert_eq!(
        help_message("lab_a", &accounts),
        "exactly one argument required (account name).\n\
         current default account name for this user: \"lab_a\"\n\
         valid account names for this user: [\"lab_a\", \"lab_b\"]\n"
    );
}

#[test]
fn invalid_account_message_contents() {
    let accounts = vec!["lab_a".to_owned(), "lab_b".to_owned()];
    assert_eq!(
        invalid_account_message("lab_c", "lab_a", &accounts),
        "invalid account name: \"lab_c\"\n\n\
         exactly one argument required (account name).\n\
         current default account name for this user: \"lab_a\"\n\
         valid account names for this user: [\"lab_a\", \"lab_b\"]\n"
    );
}

#[test]
fn noop_message_contents() {
    assert_eq!(noop_message(), "this account is already the default.");
}
