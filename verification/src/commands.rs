use crate::models::config_file::{catalog_view, Bundle, ConfigFile};
use crate::models::payload::slot_schema;
use crate::models::state::{Session, State};
use crate::report::{
    arguments_grid, arguments_table, current_text, files_grid, files_table, listing_grid,
    listing_table, nothing_selected_text, options_heading, options_heading_text, pieces,
    selection_message, selection_text, table_view, unknown_command_text, Block, Piece,
};
use crate::selector::{
    after_list, after_search, copy_of, find_by_name, first_named, matching, search_catalog, select,
    select_bundle,
};
use vstd::prelude::*;
use vstd::string::StringExecFns;

verus! {

/// Builds the table of the whole catalog, numbered from zero, and keeps
/// the bundles listed as the list that positions count in.
pub fn print_list(state: &mut State, catalog: &Vec<ConfigFile>) -> (table: comfy_table::Table)
    ensures
        final(state)@ == after_list(old(state)@, catalog_view(catalog@)),
        table_view(table) == listing_grid(catalog_view(catalog@)),
{
    let table = listing_table(catalog);
    state.list = copy_of(catalog);
    table
}

/// Builds the table of the bundles that match the term, numbered from
/// zero, and keeps them as the list that positions count in.
pub fn print_search(term: &str, state: &mut State, catalog: &Vec<ConfigFile>) -> (table:
    comfy_table::Table)
    ensures
        final(state)@ == after_search(old(state)@, catalog_view(catalog@), term@),
        table_view(table) == listing_grid(matching(catalog_view(catalog@), term@)),
{
    let found = search_catalog(catalog, term);
    let table = listing_table(&found);
    state.list = found;
    table
}

/// Selects the bundle that the term names and says what is selected.
pub fn handle_use_command(term: &str, state: &mut State, catalog: &Vec<ConfigFile>) -> (text:
    String)
    ensures
        final(state)@ == select(old(state)@, catalog_view(catalog@), term@),
        text@ == selection_text(term@, final(state)@.current_name, final(state)@.payloads),
{
    select_bundle(state, term, catalog);
    selection_message(term, &state.current_name, &state.payloads)
}

/// What `options` shows of a session. Without a selected bundle, and where
/// the catalog has no bundle of the selected name, it is one sentence.
/// Else it is the page of the first bundle of that name: the heading, the
/// table of its artifacts, an empty line and the title of the second
/// table, the table of the arguments that the slots were made for, or a
/// sentence where there is no slot, and an empty line.
pub open spec fn options_pieces(session: Session, catalog: Seq<Bundle>) -> Seq<Piece> {
    match session.current_name {
        None => seq![Piece::Text(nothing_selected_text())],
        Some(name) => match first_named(catalog, name, 0) {
            None => seq![Piece::Text("Can't find config file with name "@ + name)],
            Some(k) => seq![
                Piece::Text(options_heading(catalog[k])),
                Piece::Table(files_grid(catalog[k].files)),
                Piece::Text("\nList of arguments:"@),
                if session.payloads.len() > 0 {
                    Piece::Table(arguments_grid(slot_schema(session.payloads)))
                } else {
                    Piece::Text("No arguments available"@)
                },
                Piece::Text(""@),
            ],
        },
    }
}

/// Shows the selected bundle: its name, where it comes from, what it is,
/// its artifacts and the arguments that the slots were made for.
pub fn print_options(state: &State, catalog: &Vec<ConfigFile>) -> (page: Vec<Block>)
    ensures
        pieces(page@) == options_pieces(state@, catalog_view(catalog@)),
{
    let mut page: Vec<Block> = Vec::new();
    let name = match &state.current_name {
        None => {
            page.push(Block::Text("Now no config file selected".to_owned()));
            assert(pieces(page@) =~= options_pieces(state@, catalog_view(catalog@)));
            return page;
        },
        Some(name) => name,
    };
    let k = match find_by_name(catalog, name.as_str()) {
        None => {
            let mut text = "Can't find config file with name ".to_owned();
            text.append(name.as_str());
            page.push(Block::Text(text));
            assert(pieces(page@) =~= options_pieces(state@, catalog_view(catalog@)));
            return page;
        },
        Some(k) => k,
    };
    let bundle = &catalog[k];
    page.push(Block::Text(options_heading_text(bundle)));
    page.push(Block::Table(files_table(&bundle.files)));
    page.push(Block::Text("\nList of arguments:".to_owned()));
    if state.payloads.len() > 0 {
        page.push(Block::Table(arguments_table(&state.payloads)));
    } else {
        page.push(Block::Text("No arguments available".to_owned()));
    }
    page.push(Block::Text("".to_owned()));
    assert(pieces(page@) =~= options_pieces(state@, catalog_view(catalog@)));
    page
}

/// Says which bundle is selected.
pub fn print_current(state: &State) -> (text: String)
    ensures
        text@ == current_text(state@.current_name),
{
    match &state.current_name {
        None => "Now no config file selected".to_owned(),
        Some(name) => {
            let mut text = "Now selected config with name ".to_owned();
            text.append(name.as_str());
            text
        },
    }
}

/// Says that a line is no command.
pub fn print_unknown_command(input: &str) -> (text: String)
    ensures
        text@ == unknown_command_text(input@),
{
    let mut text = "Can't find command \"".to_owned();
    text.append(input);
    text.append("\"");
    text
}

} // verus!
