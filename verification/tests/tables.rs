use comfy_table::{ContentArrangement, Row, Table};
use payload_shell::models::config_file::{ConfigArguments, ConfigFile, OsFile};
use payload_shell::models::payload::Payload;
use payload_shell::report::{arguments_table, files_table, listing_table, options_heading_text, print_help};
use payload_shell::services::file_service::{collect_config_files, exists_from_answer, is_file_exists};

fn cells(row: &Row) -> Vec<String> {
    row.cell_iter().map(|cell| cell.content()).collect()
}

fn rows(table: &Table) -> Vec<Vec<String>> {
    table.row_iter().map(cells).collect()
}

fn header(table: &Table) -> Vec<String> {
    table.header().map(cells).unwrap_or_default()
}

fn bundle(name: &str, desc: &str) -> ConfigFile {
    ConfigFile {
        name: name.to_string(),
        repo_url: String::new(),
        desc: desc.to_string(),
        files: Vec::new(),
        arguments: Vec::new(),
    }
}

#[test]
fn the_listing_numbers_the_bundles_from_zero() {
    let table = listing_table(&vec![bundle("whoami", "prints the user"), bundle("dir", "two\nlines")]);
    assert_eq!(header(&table), vec!["#", "Name", "Description"]);
    assert_eq!(
        rows(&table),
        vec![vec!["0", "whoami", "prints the user"], vec!["1", "dir", "two\nlines"]]
    );
    assert!(matches!(table.content_arrangement(), ContentArrangement::Dynamic));
    let empty = listing_table(&Vec::new());
    assert_eq!(header(&empty), vec!["#", "Name", "Description"]);
    assert!(rows(&empty).is_empty());
}

#[test]
fn the_listing_counts_beyond_nine() {
    let mut bundles = Vec::new();
    for i in 0..12 {
        bundles.push(bundle(&format!("b{}", i), ""));
    }
    let table = listing_table(&bundles);
    assert_eq!(rows(&table)[11], vec!["11", "b11", ""]);
    assert_eq!(table.row_count(), 12);
}

#[test]
fn the_table_of_commands_has_nine_rows() {
    let table = print_help();
    assert_eq!(header(&table), vec!["Name", "Description", "Example"]);
    let all = rows(&table);
    assert_eq!(all.len(), 9);
    assert_eq!(all[0], vec!["help", "Get all user commands", "help"]);
    assert_eq!(
        all[4],
        vec!["use [name | index]", "Select config by name or by index in current list or search", "use 2"]
    );
    assert_eq!(all[7], vec!["run [..args]", "Run current config file", "run \"C:\\\" 5005"]);
    assert_eq!(all[8], vec!["exit", "Exit from app", "exit"]);
    assert!(matches!(table.content_arrangement(), ContentArrangement::Dynamic));
}

#[test]
fn the_table_of_artifacts_is_not_arranged() {
    let files = vec![
        OsFile { os: "windows".to_string(), arch: "amd64".to_string(), path: "a.x64.o".to_string() },
        OsFile { os: "windows".to_string(), arch: "i386".to_string(), path: "a.x86.o".to_string() },
    ];
    let table = files_table(&files);
    assert_eq!(header(&table), vec!["os", "arch", "path"]);
    assert_eq!(
        rows(&table),
        vec![vec!["windows", "amd64", "a.x64.o"], vec!["windows", "i386", "a.x86.o"]]
    );
    assert!(matches!(table.content_arrangement(), ContentArrangement::Disabled));
}

#[test]
fn the_table_of_arguments_follows_the_slots() {
    let slots = vec![
        Payload {
            value: "kept out of the table".to_string(),
            arg: ConfigArguments {
                name: "path".to_string(),
                kind: "wstr".to_string(),
                desc: "where".to_string(),
                optional: false,
            },
        },
        Payload {
            value: String::new(),
            arg: ConfigArguments {
                name: "delay".to_string(),
                kind: "int".to_string(),
                desc: "how long".to_string(),
                optional: true,
            },
        },
    ];
    let table = arguments_table(&slots);
    assert_eq!(header(&table), vec!["name", "type", "optional", "description"]);
    assert_eq!(
        rows(&table),
        vec![vec!["path", "wstr", "false", "where"], vec!["delay", "int", "true", "how long"]]
    );
    assert!(matches!(table.content_arrangement(), ContentArrangement::Dynamic));
}

#[test]
fn the_heading_of_a_bundle_names_it() {
    let mut b = bundle("dir", "lists");
    b.repo_url = "https://example.org".to_string();
    assert_eq!(
        options_heading_text(&b),
        "Options of config file: dir\nRepo url: https://example.org\nDescription: lists\n\nAvailable os files:"
    );
}

#[test]
fn entries_that_were_not_loaded_are_passed_over() {
    let entries = vec![
        None,
        Some(bundle("a", "first")),
        None,
        None,
        Some(bundle("b", "second")),
    ];
    assert_eq!(collect_config_files(entries), vec![bundle("a", "first"), bundle("b", "second")]);
    assert_eq!(collect_config_files(vec![None, None]), Vec::new());
    assert_eq!(collect_config_files(Vec::new()), Vec::new());
}

#[test]
fn the_file_system_is_asked_whether_a_path_exists() {
    assert!(is_file_exists("/"));
    assert!(!is_file_exists("/no/such/path/anywhere/extension.json"));
    assert!(!is_file_exists(""));
}

#[test]
fn the_answer_of_the_file_system_counts_for_every_path_but_the_empty_one() {
    assert!(exists_from_answer("SA/dir/extension.json", true));
    assert!(!exists_from_answer("SA/dir/extension.json", false));
    assert!(!exists_from_answer("", true));
    assert!(!exists_from_answer("", false));
}
