use payload_shell::commands::{handle_use_command, print_list, print_search};
use payload_shell::models::config_file::{ConfigArguments, ConfigFile, OsFile};
use payload_shell::models::state::State;
use payload_shell::runner::{handle_run_command, RunOutcome};
use payload_shell::selector::{
    find_by_name, fresh_slots, resolve_bundle, search_catalog, select_bundle,
};

fn argument(name: &str, kind: &str, optional: bool) -> ConfigArguments {
    ConfigArguments {
        name: name.to_string(),
        kind: kind.to_string(),
        desc: format!("the {}", name),
        optional,
    }
}

fn bundle(name: &str, desc: &str, arguments: Vec<ConfigArguments>) -> ConfigFile {
    ConfigFile {
        name: name.to_string(),
        repo_url: format!("https://example.org/{}", name),
        desc: desc.to_string(),
        files: vec![OsFile {
            os: "windows".to_string(),
            arch: "amd64".to_string(),
            path: format!("{}.x64.o", name),
        }],
        arguments,
    }
}

fn catalog() -> Vec<ConfigFile> {
    vec![
        bundle("whoami", "prints the user", Vec::new()),
        bundle(
            "dir",
            "lists a directory",
            vec![argument("path", "wstr", false), argument("depth", "short", true)],
        ),
        bundle("enum_users", "enumerates accounts", vec![argument("host", "str", false)]),
        bundle("netstat", "lists connections of the user", Vec::new()),
    ]
}

#[test]
fn a_position_counts_in_the_catalog_while_no_search_was_made() {
    let mut state = State::default();
    assert!(select_bundle(&mut state, "1", &catalog()));
    assert_eq!(state.current_name, Some("dir".to_string()));
    assert_eq!(state.payloads.len(), 2);
    assert_eq!(state.payloads[0].arg, argument("path", "wstr", false));
    assert_eq!(state.payloads[1].arg, argument("depth", "short", true));
    assert_eq!(state.payloads[0].value, "");
    assert_eq!(state.payloads[1].value, "");
}

#[test]
fn a_position_counts_in_the_narrowed_list_and_a_name_in_the_catalog() {
    let mut state = State::default();
    print_search("user", &mut state, &catalog());
    let shown: Vec<&str> = state.list.iter().map(|b| b.name.as_str()).collect();
    assert_eq!(shown, vec!["whoami", "enum_users", "netstat"]);
    print_search("the user", &mut state, &catalog());
    let shown: Vec<&str> = state.list.iter().map(|b| b.name.as_str()).collect();
    assert_eq!(shown, vec!["whoami", "netstat"]);

    assert!(select_bundle(&mut state, "1", &catalog()));
    assert_eq!(state.current_name, Some("netstat".to_string()));
    assert!(select_bundle(&mut state, "0", &catalog()));
    assert_eq!(state.current_name, Some("whoami".to_string()));

    assert!(select_bundle(&mut state, "dir", &catalog()));
    assert_eq!(state.current_name, Some("dir".to_string()));
    assert_eq!(state.payloads.len(), 2);
    assert_eq!(state.list.len(), 2);

    assert!(!select_bundle(&mut state, "2", &catalog()));
    assert_eq!(state.current_name, None);
}

#[test]
fn a_listing_makes_positions_count_in_the_bundles_listed() {
    let mut state = State::default();
    print_search("lists", &mut state, &catalog());
    assert_eq!(state.list.len(), 2);
    print_list(&mut state, &catalog());
    assert_eq!(state.list, catalog());
    assert!(select_bundle(&mut state, "3", &catalog()));
    assert_eq!(state.current_name, Some("netstat".to_string()));
}

#[test]
fn a_position_counts_in_the_listing_though_the_catalog_has_changed() {
    let mut state = State::default();
    let listed = vec![bundle("a", "listed as 0", Vec::new())];
    let later = vec![bundle("b", "came later", Vec::new())];
    print_list(&mut state, &listed);
    assert_eq!(state.list, listed);
    assert_eq!(state.current_name, None);
    assert!(state.payloads.is_empty());
    assert!(select_bundle(&mut state, "0", &later));
    assert_eq!(state.current_name, Some("a".to_string()));
    assert!(!select_bundle(&mut state, "a", &later));
    assert!(select_bundle(&mut state, "b", &later));
    assert!(!select_bundle(&mut state, "1", &later));
}

#[test]
fn a_listing_of_nothing_leaves_no_list() {
    let mut state = State::default();
    print_search("lists", &mut state, &catalog());
    print_list(&mut state, &Vec::new());
    assert!(state.list.is_empty());
    assert!(select_bundle(&mut state, "1", &catalog()));
    assert_eq!(state.current_name, Some("dir".to_string()));
}

#[test]
fn a_listing_keeps_selection_and_slots() {
    let mut state = State::default();
    assert!(select_bundle(&mut state, "dir", &catalog()));
    handle_run_command("\"C:\\\" 3", &mut state, &catalog(), 64);
    print_list(&mut state, &catalog());
    assert_eq!(state.current_name, Some("dir".to_string()));
    assert_eq!(state.payloads[0].value, "C:\\");
    assert_eq!(state.payloads[1].value, "3");
}

#[test]
fn a_search_without_a_hit_leaves_no_list() {
    let mut state = State::default();
    print_search("nothing like this", &mut state, &catalog());
    assert!(state.list.is_empty());
    assert!(select_bundle(&mut state, "2", &catalog()));
    assert_eq!(state.current_name, Some("enum_users".to_string()));
}

#[test]
fn a_term_that_names_nothing_clears_the_selection() {
    let mut state = State::default();
    assert!(select_bundle(&mut state, "dir", &catalog()));
    assert!(!select_bundle(&mut state, "no_such_bundle", &catalog()));
    assert_eq!(state.current_name, None);
    assert!(state.payloads.is_empty());

    assert!(select_bundle(&mut state, "dir", &catalog()));
    assert!(!select_bundle(&mut state, "4", &catalog()));
    assert_eq!(state.current_name, None);
    assert!(state.payloads.is_empty());

    assert!(!select_bundle(&mut state, "0", &Vec::new()));
    assert!(!select_bundle(&mut state, "", &catalog()));
    assert!(!select_bundle(&mut state, "Dir", &catalog()));
}

#[test]
fn reselection_discards_the_bound_values() {
    let mut state = State::default();
    assert!(select_bundle(&mut state, "dir", &catalog()));
    let outcome = handle_run_command("\"C:\\\" 3", &mut state, &catalog(), 64);
    assert_eq!(
        outcome,
        RunOutcome::Launch { bundle: "dir".to_string(), artifact: "dir.x64.o".to_string() }
    );
    assert_eq!(state.payloads[0].value, "C:\\");
    assert_eq!(state.payloads[1].value, "3");

    assert!(select_bundle(&mut state, "enum_users", &catalog()));
    assert_eq!(state.current_name, Some("enum_users".to_string()));
    assert_eq!(state.payloads.len(), 1);
    assert_eq!(state.payloads[0].value, "");
    assert_eq!(state.payloads[0].arg, argument("host", "str", false));

    assert!(select_bundle(&mut state, "dir", &catalog()));
    assert_eq!(state.payloads.len(), 2);
    assert_eq!(state.payloads[0].value, "");
    assert_eq!(state.payloads[1].value, "");

    assert!(select_bundle(&mut state, "whoami", &catalog()));
    assert!(state.payloads.is_empty());
}

#[test]
fn what_reads_as_a_position() {
    let list = Vec::new();
    let all = catalog();
    assert_eq!(resolve_bundle(&list, &all, "+2").map(|b| b.name), Some("enum_users".to_string()));
    assert_eq!(resolve_bundle(&list, &all, "002").map(|b| b.name), Some("enum_users".to_string()));
    assert_eq!(resolve_bundle(&list, &all, "-0"), None);
    assert_eq!(resolve_bundle(&list, &all, " 2"), None);
    assert_eq!(resolve_bundle(&list, &all, "18446744073709551615"), None);
    assert_eq!(resolve_bundle(&list, &all, "99999999999999999999999999"), None);

    let mut odd = catalog();
    odd.push(bundle("-0", "named like a number", Vec::new()));
    odd.push(bundle("99999999999999999999999999", "too large for a position", Vec::new()));
    odd.push(bundle("1", "hidden behind the position", Vec::new()));
    assert_eq!(resolve_bundle(&list, &odd, "-0").map(|b| b.desc), Some("named like a number".to_string()));
    assert_eq!(
        resolve_bundle(&list, &odd, "99999999999999999999999999").map(|b| b.desc),
        Some("too large for a position".to_string())
    );
    assert_eq!(resolve_bundle(&list, &odd, "1").map(|b| b.name), Some("dir".to_string()));
}

#[test]
fn of_two_bundles_with_one_name_the_first_is_found() {
    let mut all = catalog();
    all.push(bundle("dir", "a second one", Vec::new()));
    assert_eq!(find_by_name(&all, "dir"), Some(1));
    assert_eq!(find_by_name(&all, "netstat"), Some(3));
    assert_eq!(find_by_name(&all, "none"), None);
    assert_eq!(find_by_name(&Vec::new(), "dir"), None);
    assert_eq!(resolve_bundle(&Vec::new(), &all, "dir").map(|b| b.desc), Some("lists a directory".to_string()));
}

#[test]
fn a_search_looks_at_names_and_descriptions() {
    let names = |found: Vec<ConfigFile>| -> Vec<String> { found.into_iter().map(|b| b.name).collect() };
    assert_eq!(names(search_catalog(&catalog(), "enum")), vec!["enum_users"]);
    assert_eq!(names(search_catalog(&catalog(), "lists")), vec!["dir", "netstat"]);
    assert_eq!(names(search_catalog(&catalog(), "")).len(), 4);
    assert_eq!(names(search_catalog(&catalog(), "ENUM")).len(), 0);
    assert_eq!(search_catalog(&catalog(), "dir")[0], catalog()[1]);
}

#[test]
fn fresh_slots_follow_the_declared_order() {
    let arguments = vec![argument("a", "int", false), argument("b", "str", true)];
    let slots = fresh_slots(&arguments);
    assert_eq!(slots.len(), 2);
    assert_eq!(slots[0].arg, arguments[0]);
    assert_eq!(slots[1].arg, arguments[1]);
    assert!(slots.iter().all(|s| s.value.is_empty()));
    assert!(fresh_slots(&Vec::new()).is_empty());
}

#[test]
fn use_says_what_is_selected() {
    let mut state = State::default();
    assert_eq!(
        handle_use_command("dir", &mut state, &catalog()),
        "Selected config with name dir\nhelp: *path wstr, depth short"
    );
    assert_eq!(
        handle_use_command("0", &mut state, &catalog()),
        "Selected config with name whoami"
    );
    assert_eq!(
        handle_use_command("2", &mut state, &catalog()),
        "Selected config with name enum_users\nhelp: *host str"
    );
    assert_eq!(
        handle_use_command("nope", &mut state, &catalog()),
        "Can't select config with name or index nope"
    );
    assert_eq!(state, State::default());
}
