use crate::binder::{BindError, BindFailure};
use crate::decimal::{decimal_text, index_text};
use crate::models::config_file::{catalog_view, files_view, ArgSpec, Artifact, Bundle, ConfigFile, OsFile};
use crate::models::payload::{slot_schema, slots_view, Payload, Slot};
use crate::table::{add_row, new_table, set_dynamic, set_header, table_dynamic, table_header, table_rows};
use crate::text::texts;
use vstd::prelude::*;
use vstd::string::StringExecFns;

verus! {

/// What a table holds, as a mathematical value: the cells of its header,
/// its rows of cells, and whether it fits its columns to the terminal.
pub struct Grid {
    pub header: Seq<Seq<char>>,
    pub rows: Seq<Seq<Seq<char>>>,
    pub dynamic: bool,
}

/// What a table holds.
pub open spec fn table_view(table: comfy_table::Table) -> Grid {
    Grid { header: table_header(table), rows: table_rows(table), dynamic: table_dynamic(table) }
}

/// One piece of what a command shows, as a mathematical value.
pub enum Piece {
    Text(Seq<char>),
    Table(Grid),
}

/// One piece of what a command shows: a text or a table. Each piece is
/// printed on lines of its own, a table as it is drawn at that moment.
#[derive(Debug)]
pub enum Block {
    Text(String),
    Table(comfy_table::Table),
}

impl View for Block {
    type V = Piece;

    open spec fn view(&self) -> Piece {
        match self {
            Block::Text(text) => Piece::Text(text@),
            Block::Table(table) => Piece::Table(table_view(*table)),
        }
    }
}

/// What a run of blocks shows.
pub open spec fn pieces(blocks: Seq<Block>) -> Seq<Piece> {
    Seq::new(blocks.len(), |i: int| blocks[i]@)
}

fn row_of_3(a: &str, b: &str, c: &str) -> (row: Vec<String>)
    ensures
        texts(row@) == seq![a@, b@, c@],
{
    let mut row: Vec<String> = Vec::new();
    row.push(a.to_owned());
    row.push(b.to_owned());
    row.push(c.to_owned());
    assert(texts(row@) =~= seq![a@, b@, c@]);
    row
}

fn row_of_4(a: &str, b: &str, c: &str, d: &str) -> (row: Vec<String>)
    ensures
        texts(row@) == seq![a@, b@, c@, d@],
{
    let mut row: Vec<String> = Vec::new();
    row.push(a.to_owned());
    row.push(b.to_owned());
    row.push(c.to_owned());
    row.push(d.to_owned());
    assert(texts(row@) =~= seq![a@, b@, c@, d@]);
    row
}

/// The table of commands: for each command its form, what it does, and an
/// example.
pub open spec fn help_grid() -> Grid {
    Grid {
        header: seq!["Name"@, "Description"@, "Example"@],
        rows: seq![
            seq!["help"@, "Get all user commands"@, "help"@],
            seq!["list"@, "Print all configs"@, "list"@],
            seq!["clear"@, "Clear console"@, "clear"@],
            seq!["search [name | description]"@, "Search configs by name"@, "search enum"@],
            seq![
                "use [name | index]"@,
                "Select config by name or by index in current list or search"@,
                "use 2"@,
            ],
            seq!["cur"@, "Print selected config"@, "cur"@],
            seq!["options"@, "Print options for selected config file"@, "options"@],
            seq!["run [..args]"@, "Run current config file"@, "run \"C:\\\" 5005"@],
            seq!["exit"@, "Exit from app"@, "exit"@],
        ],
        dynamic: true,
    }
}

/// Builds the table of commands.
pub fn print_help() -> (table: comfy_table::Table)
    ensures
        table_view(table) == help_grid(),
{
    let mut table = new_table();
    set_dynamic(&mut table);
    set_header(&mut table, &row_of_3("Name", "Description", "Example"));
    add_row(&mut table, &row_of_3("help", "Get all user commands", "help"));
    add_row(&mut table, &row_of_3("list", "Print all configs", "list"));
    add_row(&mut table, &row_of_3("clear", "Clear console", "clear"));
    add_row(
        &mut table,
        &row_of_3("search [name | description]", "Search configs by name", "search enum"),
    );
    add_row(
        &mut table,
        &row_of_3(
            "use [name | index]",
            "Select config by name or by index in current list or search",
            "use 2",
        ),
    );
    add_row(&mut table, &row_of_3("cur", "Print selected config", "cur"));
    add_row(&mut table, &row_of_3("options", "Print options for selected config file", "options"));
    add_row(&mut table, &row_of_3("run [..args]", "Run current config file", "run \"C:\\\" 5005"));
    add_row(&mut table, &row_of_3("exit", "Exit from app", "exit"));
    assert(table_rows(table) =~= help_grid().rows);
    table
}

/// The table of a run of bundles: for each bundle its position in decimal,
/// its name and its description.
pub open spec fn listing_grid(bundles: Seq<Bundle>) -> Grid {
    Grid {
        header: seq!["#"@, "Name"@, "Description"@],
        rows: Seq::new(
            bundles.len(),
            |i: int| seq![decimal_text(i as nat), bundles[i].name, bundles[i].desc],
        ),
        dynamic: true,
    }
}

/// Builds the table of a run of bundles, numbered from zero.
pub fn listing_table(bundles: &Vec<ConfigFile>) -> (table: comfy_table::Table)
    ensures
        table_view(table) == listing_grid(catalog_view(bundles@)),
{
    let ghost grid = listing_grid(catalog_view(bundles@));
    let mut table = new_table();
    set_dynamic(&mut table);
    set_header(&mut table, &row_of_3("#", "Name", "Description"));
    let mut i: usize = 0;
    while i < bundles.len()
        invariant
            i <= bundles.len(),
            grid == listing_grid(catalog_view(bundles@)),
            table_dynamic(table),
            table_header(table) == grid.header,
            table_rows(table) == grid.rows.take(i as int),
        decreases bundles.len() - i,
    {
        let position = index_text(i);
        let row = row_of_3(position.as_str(), bundles[i].name.as_str(), bundles[i].desc.as_str());
        add_row(&mut table, &row);
        assert(table_rows(table) =~= grid.rows.take(i + 1));
        i += 1;
    }
    assert(grid.rows.take(bundles.len() as int) =~= grid.rows);
    table
}

/// The table of a bundle's artifacts: for each its operating system, its
/// architecture and its path.
pub open spec fn files_grid(files: Seq<Artifact>) -> Grid {
    Grid {
        header: seq!["os"@, "arch"@, "path"@],
        rows: Seq::new(files.len(), |i: int| seq![files[i].os, files[i].arch, files[i].path]),
        dynamic: false,
    }
}

/// Builds the table of a bundle's artifacts.
pub fn files_table(files: &Vec<OsFile>) -> (table: comfy_table::Table)
    ensures
        table_view(table) == files_grid(files_view(files@)),
{
    let ghost grid = files_grid(files_view(files@));
    let mut table = new_table();
    set_header(&mut table, &row_of_3("os", "arch", "path"));
    let mut i: usize = 0;
    while i < files.len()
        invariant
            i <= files.len(),
            grid == files_grid(files_view(files@)),
            !table_dynamic(table),
            table_header(table) == grid.header,
            table_rows(table) == grid.rows.take(i as int),
        decreases files.len() - i,
    {
        let row = row_of_3(files[i].os.as_str(), files[i].arch.as_str(), files[i].path.as_str());
        add_row(&mut table, &row);
        assert(table_rows(table) =~= grid.rows.take(i + 1));
        i += 1;
    }
    assert(grid.rows.take(files.len() as int) =~= grid.rows);
    table
}

/// A truth value as the table of arguments writes it.
pub open spec fn bool_text(b: bool) -> Seq<char> {
    if b {
        "true"@
    } else {
        "false"@
    }
}

/// The table of arguments: for each its name, the name of its type,
/// whether it may be left out, and its description.
pub open spec fn arguments_grid(schema: Seq<ArgSpec>) -> Grid {
    Grid {
        header: seq!["name"@, "type"@, "optional"@, "description"@],
        rows: Seq::new(
            schema.len(),
            |i: int|
                seq![schema[i].name, schema[i].kind, bool_text(schema[i].optional), schema[i].desc],
        ),
        dynamic: true,
    }
}

/// Builds the table of the arguments that the slots were made for.
pub fn arguments_table(payloads: &Vec<Payload>) -> (table: comfy_table::Table)
    ensures
        table_view(table) == arguments_grid(slot_schema(slots_view(payloads@))),
{
    let ghost grid = arguments_grid(slot_schema(slots_view(payloads@)));
    let mut table = new_table();
    set_dynamic(&mut table);
    set_header(&mut table, &row_of_4("name", "type", "optional", "description"));
    let mut i: usize = 0;
    while i < payloads.len()
        invariant
            i <= payloads.len(),
            grid == arguments_grid(slot_schema(slots_view(payloads@))),
            table_dynamic(table),
            table_header(table) == grid.header,
            table_rows(table) == grid.rows.take(i as int),
        decreases payloads.len() - i,
    {
        let arg = &payloads[i].arg;
        let optional = if arg.optional {
            "true"
        } else {
            "false"
        };
        let row = row_of_4(arg.name.as_str(), arg.kind.as_str(), optional, arg.desc.as_str());
        add_row(&mut table, &row);
        assert(table_rows(table) =~= grid.rows.take(i + 1));
        i += 1;
    }
    assert(grid.rows.take(payloads.len() as int) =~= grid.rows);
    table
}

/// What is said where a command needs a selected bundle and there is none.
pub open spec fn nothing_selected_text() -> Seq<char> {
    "Now no config file selected"@
}

/// What `cur` says of the session.
pub open spec fn current_text(current_name: Option<Seq<char>>) -> Seq<char> {
    match current_name {
        None => nothing_selected_text(),
        Some(name) => "Now selected config with name "@ + name,
    }
}

/// What is said of a line that is no command.
pub open spec fn unknown_command_text(line: Seq<char>) -> Seq<char> {
    "Can't find command \""@ + line + "\""@
}

/// How one argument is hinted at: a star where it must be given, its name,
/// a space, the name of its type.
pub open spec fn argument_hint(arg: ArgSpec) -> Seq<char> {
    if arg.optional {
        arg.name + " "@ + arg.kind
    } else {
        "*"@ + arg.name + " "@ + arg.kind
    }
}

/// The hints of the arguments, in order, with a comma and a space between
/// one and the next.
pub open spec fn arguments_hint(schema: Seq<ArgSpec>) -> Seq<char>
    decreases schema.len(),
{
    if schema.len() == 0 {
        Seq::empty()
    } else if schema.len() == 1 {
        argument_hint(schema[0])
    } else {
        arguments_hint(schema.drop_last()) + ", "@ + argument_hint(schema.last())
    }
}

/// What `use` says after a selection by the term: that nothing could be
/// selected, or the name of the bundle now selected and, on a second line,
/// the hints of its arguments where it has any.
pub open spec fn selection_text(
    term: Seq<char>,
    current_name: Option<Seq<char>>,
    slots: Seq<Slot>,
) -> Seq<char> {
    match current_name {
        None => "Can't select config with name or index "@ + term,
        Some(name) => if slots.len() == 0 {
            "Selected config with name "@ + name
        } else {
            "Selected config with name "@ + name + "\nhelp: "@ + arguments_hint(slot_schema(slots))
        },
    }
}

/// What a failed binding is reported as. Each report of a value names the
/// argument.
pub open spec fn bind_failure_text(failure: BindFailure) -> Seq<char> {
    match failure {
        BindFailure::InsufficientArguments =>
            "Not enough args. Write \"options\" to get all args"@,
        BindFailure::MissingOptionalArgument(name) => "Missing value for field "@ + name,
        BindFailure::InvalidValue(name) => "Invalid value for field "@ + name,
    }
}

/// What stands above the table of a bundle's artifacts: the name of the
/// bundle, where it comes from and what it is, an empty line, and the
/// title of the table.
pub open spec fn options_heading(bundle: Bundle) -> Seq<char> {
    "Options of config file: "@ + bundle.name + "\nRepo url: "@ + bundle.repo_url
        + "\nDescription: "@ + bundle.desc + "\n\nAvailable os files:"@
}

fn push_argument_hint(text: &mut String, arg: &crate::models::config_file::ConfigArguments)
    ensures
        final(text)@ == old(text)@ + argument_hint(arg@),
{
    if !arg.optional {
        text.append("*");
    }
    text.append(arg.name.as_str());
    text.append(" ");
    text.append(arg.kind.as_str());
    assert(text@ =~= old(text)@ + argument_hint(arg@));
}

/// Writes what `use` says after a selection by the term.
pub fn selection_message(term: &str, current_name: &Option<String>, payloads: &Vec<Payload>) -> (text:
    String)
    ensures
        text@ == selection_text(
            term@,
            crate::models::state::name_view(*current_name),
            slots_view(payloads@),
        ),
{
    match current_name {
        None => {
            let mut text = "Can't select config with name or index ".to_owned();
            text.append(term);
            text
        },
        Some(name) => {
            let mut text = "Selected config with name ".to_owned();
            text.append(name.as_str());
            if payloads.len() == 0 {
                return text;
            }
            text.append("\nhelp: ");
            let ghost head = text@;
            let ghost schema = slot_schema(slots_view(payloads@));
            let mut i: usize = 0;
            while i < payloads.len()
                invariant
                    i <= payloads.len(),
                    schema == slot_schema(slots_view(payloads@)),
                    text@ == head + arguments_hint(schema.take(i as int)),
                decreases payloads.len() - i,
            {
                proof {
                    assert(schema.take(i + 1).drop_last() =~= schema.take(i as int));
                    assert(schema.take(i + 1).last() == payloads[i as int]@.arg);
                    assert(schema.take(i + 1)[0] == schema[0]);
                }
                if i > 0 {
                    text.append(", ");
                }
                push_argument_hint(&mut text, &payloads[i].arg);
                assert(text@ =~= head + arguments_hint(schema.take(i + 1)));
                i += 1;
            }
            assert(schema.take(payloads.len() as int) =~= schema);
            text
        },
    }
}

/// Writes the report of a failed binding.
pub fn bind_error_message(error: &BindError) -> (text: String)
    ensures
        text@ == bind_failure_text(error@),
{
    match error {
        BindError::InsufficientArguments =>
            "Not enough args. Write \"options\" to get all args".to_owned(),
        BindError::MissingOptionalArgument(name) => {
            let mut text = "Missing value for field ".to_owned();
            text.append(name.as_str());
            text
        },
        BindError::InvalidValue(name) => {
            let mut text = "Invalid value for field ".to_owned();
            text.append(name.as_str());
            text
        },
    }
}

/// Writes what stands above the table of a bundle's artifacts.
pub fn options_heading_text(bundle: &ConfigFile) -> (text: String)
    ensures
        text@ == options_heading(bundle@),
{
    let mut text = "Options of config file: ".to_owned();
    text.append(bundle.name.as_str());
    text.append("\nRepo url: ");
    text.append(bundle.repo_url.as_str());
    text.append("\nDescription: ");
    text.append(bundle.desc.as_str());
    text.append("\n\nAvailable os files:");
    text
}

} // verus!
