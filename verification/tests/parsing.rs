use cedarwasm::{_count_num_policies, parse_policies, Error, PolicyStore};

const ALICE_VIEW: &str =
    "permit(principal == User::\"alice\", action == Action::\"view\", resource == File::\"93\");";

fn count_after_parse(text: &str) -> usize {
    let mut store = PolicyStore::new();
    let set = parse_policies(text).expect("the text is a policy document");
    assert!(store.set(set).is_ok());
    _count_num_policies(&store)
}

#[test]
fn test_parse_policies_error() {
    let pset1 = parse_policies("bogus");
    assert!(pset1.is_err_and(|e| e.to_string().contains("failed to parse policy")));
}

#[test]
fn test_parse_policies() {
    let pset1 = parse_policies("permit(principal == User::\"alice\", action == Action::\"view\", resource == File::\"93\");");
    assert!(pset1.is_ok(), "policy parsing failed");
}

#[test]
fn parse_error_is_the_parsing_variant() {
    assert_eq!(parse_policies("bogus").err(), Some(Error::PolicyParsing()));
    assert_eq!(parse_policies("permit(principal, action, resource)").err(), Some(Error::PolicyParsing()));
    assert_eq!(parse_policies("permit(principal, action);").err(), Some(Error::PolicyParsing()));
}

#[test]
fn empty_text_is_an_empty_policy_set() {
    assert_eq!(count_after_parse(""), 0);
}

#[test]
fn one_policy_counts_one() {
    assert_eq!(count_after_parse(ALICE_VIEW), 1);
}

#[test]
fn count_is_the_number_of_policies_in_the_text() {
    let two = format!("{}\nforbid(principal, action, resource);", ALICE_VIEW);
    assert_eq!(count_after_parse(&two), 2);
    let three = format!("{}\npermit(principal, action, resource) when {{ true }};", two);
    assert_eq!(count_after_parse(&three), 3);
}

#[test]
fn same_text_parses_to_the_same_count() {
    let text = format!("{}\nforbid(principal, action, resource);", ALICE_VIEW);
    assert_eq!(count_after_parse(&text), count_after_parse(&text));
}

#[test]
fn non_ascii_text_in_a_policy_is_accepted() {
    let text = "permit(principal == User::\"al\u{ef}ce\", action, resource);";
    assert_eq!(count_after_parse(text), 1);
}
