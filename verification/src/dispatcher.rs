use crate::commands::{
    handle_use_command, options_pieces, print_current, print_list, print_options, print_search,
    print_unknown_command,
};
use crate::models::config_file::{catalog_view, Bundle, ConfigFile};
use crate::models::state::{Session, State};
use crate::report::{
    bind_error_message, bind_failure_text, current_text, help_grid, listing_grid,
    nothing_selected_text, pieces, print_help, selection_text, unknown_command_text, Block, Piece,
};
use crate::runner::{after_run, handle_run_command, run_result, RunOutcome, RunResult};
use crate::selector::{after_list, after_search, matching, select};
use crate::text::{chars_of, contains, contains_text, has_prefix, same_text, starts_with, text_of};
use vstd::prelude::*;
use vstd::string::StringExecFns;

verus! {

/// What a line of input asks for, as a mathematical value.
pub enum Request {
    Help,
    Clear,
    List,
    Search(Seq<char>),
    Use(Seq<char>),
    Options,
    Cur,
    Run(Seq<char>),
    Exit,
    Unknown(Seq<char>),
}

/// What a line of input asks for.
#[derive(Debug, PartialEq, Eq)]
pub enum Command {
    Help,
    Clear,
    List,
    /// A search, with its term.
    Search(String),
    /// A selection, with its term: a position or a name.
    Use(String),
    Options,
    Cur,
    /// A run, with the text that holds its arguments.
    Run(String),
    Exit,
    /// No command, with the line as it was given.
    Unknown(String),
}

impl View for Command {
    type V = Request;

    open spec fn view(&self) -> Request {
        match self {
            Command::Help => Request::Help,
            Command::Clear => Request::Clear,
            Command::List => Request::List,
            Command::Search(term) => Request::Search(term@),
            Command::Use(term) => Request::Use(term@),
            Command::Options => Request::Options,
            Command::Cur => Request::Cur,
            Command::Run(args) => Request::Run(args@),
            Command::Exit => Request::Exit,
            Command::Unknown(line) => Request::Unknown(line@),
        }
    }
}

/// The argument text of a line that asks for a run: what follows its
/// fourth character.
pub open spec fn run_arguments(line: Seq<char>) -> Seq<char> {
    if line.len() > 3 {
        line.skip(4)
    } else {
        Seq::empty()
    }
}

/// What a line asks for. The words `help`, `clear`, `list`, `options`,
/// `cur` and `exit` are commands only as the whole line. A line that begins
/// with `search ` or `use ` is that command, with the rest of the line as
/// its term. Any other line that holds `run` anywhere is a run. Every other
/// line is no command.
pub open spec fn classify_line(line: Seq<char>) -> Request {
    if line == "help"@ {
        Request::Help
    } else if line == "clear"@ {
        Request::Clear
    } else if line == "list"@ {
        Request::List
    } else if has_prefix(line, "search "@) {
        Request::Search(line.skip("search "@.len() as int))
    } else if has_prefix(line, "use "@) {
        Request::Use(line.skip("use "@.len() as int))
    } else if line == "options"@ {
        Request::Options
    } else if line == "cur"@ {
        Request::Cur
    } else if contains_text(line, "run"@) {
        Request::Run(run_arguments(line))
    } else if line == "exit"@ {
        Request::Exit
    } else {
        Request::Unknown(line)
    }
}

/// Tells what a line of input asks for.
pub fn classify(line: &str) -> (command: Command)
    ensures
        command@ == classify_line(line@),
{
    let chars = chars_of(line);
    let n = chars.len();
    if same_text(line, "help") {
        return Command::Help;
    }
    if same_text(line, "clear") {
        return Command::Clear;
    }
    if same_text(line, "list") {
        return Command::List;
    }
    let search = chars_of("search ");
    if starts_with(&chars, &search) {
        assert(chars@.subrange(search.len() as int, n as int) =~= line@.skip(search.len() as int));
        return Command::Search(text_of(&chars, search.len(), n));
    }
    let select = chars_of("use ");
    if starts_with(&chars, &select) {
        assert(chars@.subrange(select.len() as int, n as int) =~= line@.skip(select.len() as int));
        return Command::Use(text_of(&chars, select.len(), n));
    }
    if same_text(line, "options") {
        return Command::Options;
    }
    if same_text(line, "cur") {
        return Command::Cur;
    }
    let run = chars_of("run");
    if contains(&chars, &run) {
        if n > 3 {
            assert(chars@.subrange(4, n as int) =~= line@.skip(4));
            return Command::Run(text_of(&chars, 4, n));
        } else {
            return Command::Run(String::new());
        }
    }
    if same_text(line, "exit") {
        return Command::Exit;
    }
    assert(chars@.subrange(0, n as int) =~= line@);
    Command::Unknown(text_of(&chars, 0, n))
}

/// Whether a command reads the catalog.
pub open spec fn reads_catalog(request: Request) -> bool {
    request is List || request is Search || request is Use || request is Options || request is Run
}

impl Command {
    /// Whether the command reads the catalog, so that the catalog has to
    /// be loaded before the command is carried out.
    pub fn needs_catalog(&self) -> (needed: bool)
        ensures
            needed == reads_catalog(self@),
    {
        match self {
            Command::List => true,
            Command::Search(_) => true,
            Command::Use(_) => true,
            Command::Options => true,
            Command::Run(_) => true,
            _ => false,
        }
    }
}

/// What the loop around the session is to do after a command, as a
/// mathematical value.
pub enum Reaction {
    Print(Seq<Piece>),
    ClearScreen,
    Launch { bundle: Seq<char>, artifact: Seq<char> },
    Exit,
}

/// What the loop around the session is to do after a command.
#[derive(Debug)]
pub enum Action {
    /// Print the pieces, each on lines of its own.
    Print(Vec<Block>),
    /// Clear the terminal.
    ClearScreen,
    /// Load the artifact at this path, relative to the directory of the
    /// bundle of this name, and execute it with the packed slots.
    Launch { bundle: String, artifact: String },
    /// Leave the loop.
    Exit,
}

impl View for Action {
    type V = Reaction;

    open spec fn view(&self) -> Reaction {
        match self {
            Action::Print(blocks) => Reaction::Print(pieces(blocks@)),
            Action::ClearScreen => Reaction::ClearScreen,
            Action::Launch { bundle, artifact } => Reaction::Launch {
                bundle: bundle@,
                artifact: artifact@,
            },
            Action::Exit => Reaction::Exit,
        }
    }
}

/// The catalog as a command sees it: the bundles, or the reason why the
/// catalog could not be loaded.
pub open spec fn loaded(catalog: Result<Vec<ConfigFile>, String>) -> Result<
    Seq<Bundle>,
    Seq<char>,
> {
    match catalog {
        Ok(bundles) => Ok(catalog_view(bundles@)),
        Err(reason) => Err(reason@),
    }
}

/// The session after a command. Only a listing, a search, a selection and
/// a run change it, and a listing, a search and a run only where the
/// catalog could be loaded. A selection while the catalog cannot be loaded
/// is one in an empty catalog.
pub open spec fn next_session(
    session: Session,
    request: Request,
    catalog: Result<Seq<Bundle>, Seq<char>>,
) -> Session {
    match request {
        Request::List => match catalog {
            Ok(bundles) => after_list(session, bundles),
            Err(_) => session,
        },
        Request::Search(term) => match catalog {
            Ok(bundles) => after_search(session, bundles, term),
            Err(_) => session,
        },
        Request::Use(term) => match catalog {
            Ok(bundles) => select(session, bundles, term),
            Err(_) => select(session, Seq::empty(), term),
        },
        Request::Run(args) => match catalog {
            Ok(_) => after_run(session, args),
            Err(_) => session,
        },
        _ => session,
    }
}

/// What is said where a command cannot read the catalog: of a listing and
/// of a search with the reason; of the two commands that need a selected
/// bundle that none is selected, where none is.
pub open spec fn catalog_failure_text(
    session: Session,
    request: Request,
    reason: Seq<char>,
) -> Seq<char> {
    match request {
        Request::List => "Can't print list\n"@ + reason,
        Request::Search(_) => "Can't get search list\n"@ + reason,
        _ => if session.current_name is None {
            nothing_selected_text()
        } else {
            "Can't get config files"@
        },
    }
}

/// What a run that the catalog could be loaded for leads to: the execution
/// of the artifact, or one sentence on why there is none.
pub open spec fn run_reaction(result: RunResult) -> Reaction {
    match result {
        RunResult::NoSelection => Reaction::Print(seq![Piece::Text(nothing_selected_text())]),
        RunResult::Rejected(failure) => Reaction::Print(
            seq![Piece::Text(bind_failure_text(failure))],
        ),
        RunResult::CannotProceed => Reaction::Print(seq![Piece::Text("Can't proceed"@)]),
        RunResult::Launch { bundle, artifact } => Reaction::Launch { bundle, artifact },
    }
}

/// What a command on a session leads to.
pub open spec fn reaction(
    session: Session,
    request: Request,
    catalog: Result<Seq<Bundle>, Seq<char>>,
    pointer_width: u32,
) -> Reaction {
    match request {
        Request::Help => Reaction::Print(seq![Piece::Table(help_grid())]),
        Request::Clear => Reaction::ClearScreen,
        Request::Exit => Reaction::Exit,
        Request::Cur => Reaction::Print(seq![Piece::Text(current_text(session.current_name))]),
        Request::Unknown(line) => Reaction::Print(seq![Piece::Text(unknown_command_text(line))]),
        Request::Use(term) => {
            let after = next_session(session, request, catalog);
            Reaction::Print(
                seq![Piece::Text(selection_text(term, after.current_name, after.payloads))],
            )
        },
        Request::List => match catalog {
            Ok(bundles) => Reaction::Print(seq![Piece::Table(listing_grid(bundles))]),
            Err(reason) => Reaction::Print(
                seq![Piece::Text(catalog_failure_text(session, request, reason))],
            ),
        },
        Request::Search(term) => match catalog {
            Ok(bundles) => Reaction::Print(
                seq![Piece::Table(listing_grid(matching(bundles, term)))],
            ),
            Err(reason) => Reaction::Print(
                seq![Piece::Text(catalog_failure_text(session, request, reason))],
            ),
        },
        Request::Options => match catalog {
            Ok(bundles) => Reaction::Print(options_pieces(session, bundles)),
            Err(reason) => Reaction::Print(
                seq![Piece::Text(catalog_failure_text(session, request, reason))],
            ),
        },
        Request::Run(args) => match catalog {
            Ok(bundles) => run_reaction(run_result(session, bundles, args, pointer_width)),
            Err(reason) => Reaction::Print(
                seq![Piece::Text(catalog_failure_text(session, request, reason))],
            ),
        },
    }
}

fn catalog_failure_message(state: &State, command: &Command, reason: &str) -> (text: String)
    ensures
        text@ == catalog_failure_text(state@, command@, reason@),
{
    match command {
        Command::List => {
            let mut text = "Can't print list\n".to_owned();
            text.append(reason);
            text
        },
        Command::Search(_) => {
            let mut text = "Can't get search list\n".to_owned();
            text.append(reason);
            text
        },
        _ => {
            if state.current_name.is_none() {
                "Now no config file selected".to_owned()
            } else {
                "Can't get config files".to_owned()
            }
        },
    }
}

fn say(text: String) -> (action: Action)
    ensures
        action@ == Reaction::Print(seq![Piece::Text(text@)]),
{
    let mut blocks: Vec<Block> = Vec::new();
    blocks.push(Block::Text(text));
    assert(pieces(blocks@) =~= seq![Piece::Text(text@)]);
    Action::Print(blocks)
}

fn show(table: comfy_table::Table) -> (action: Action)
    ensures
        action@ == Reaction::Print(seq![Piece::Table(crate::report::table_view(table))]),
{
    let ghost grid = crate::report::table_view(table);
    let mut blocks: Vec<Block> = Vec::new();
    blocks.push(Block::Table(table));
    assert(pieces(blocks@) =~= seq![Piece::Table(grid)]);
    Action::Print(blocks)
}

/// Carries out one command on the session and tells the loop what to do.
/// `catalog` is the catalog as it was loaded for this command, or the
/// reason why it could not be; a command that does not read the catalog
/// ignores it. `pointer_width` is the width of the host's pointers in bits.
pub fn step(
    state: &mut State,
    command: &Command,
    catalog: &Result<Vec<ConfigFile>, String>,
    pointer_width: u32,
) -> (action: Action)
    ensures
        final(state)@ == next_session(old(state)@, command@, loaded(*catalog)),
        action@ == reaction(old(state)@, command@, loaded(*catalog), pointer_width),
{
    match command {
        Command::Help => show(print_help()),
        Command::Clear => Action::ClearScreen,
        Command::Exit => Action::Exit,
        Command::Cur => say(print_current(state)),
        Command::Unknown(line) => say(print_unknown_command(line.as_str())),
        Command::Use(term) => match catalog {
            Ok(bundles) => say(handle_use_command(term.as_str(), state, bundles)),
            Err(_) => {
                let none: Vec<ConfigFile> = Vec::new();
                assert(catalog_view(none@) =~= Seq::empty());
                say(handle_use_command(term.as_str(), state, &none))
            },
        },
        Command::List => match catalog {
            Ok(bundles) => show(print_list(state, bundles)),
            Err(reason) => say(catalog_failure_message(state, command, reason.as_str())),
        },
        Command::Search(term) => match catalog {
            Ok(bundles) => show(print_search(term.as_str(), state, bundles)),
            Err(reason) => say(catalog_failure_message(state, command, reason.as_str())),
        },
        Command::Options => match catalog {
            Ok(bundles) => Action::Print(print_options(state, bundles)),
            Err(reason) => say(catalog_failure_message(state, command, reason.as_str())),
        },
        Command::Run(args) => match catalog {
            Ok(bundles) => {
                match handle_run_command(args.as_str(), state, bundles, pointer_width) {
                    RunOutcome::NoSelection => say("Now no config file selected".to_owned()),
                    RunOutcome::Rejected(error) => say(bind_error_message(&error)),
                    RunOutcome::CannotProceed => say("Can't proceed".to_owned()),
                    RunOutcome::Launch { bundle, artifact } => Action::Launch { bundle, artifact },
                }
            },
            Err(reason) => say(catalog_failure_message(state, command, reason.as_str())),
        },
    }
}

/// No command breaks the session: after any command on any catalog, slots
/// are kept only while a bundle is selected. A selection restores this
/// even on a session in which it did not hold.
pub proof fn lemma_commands_keep_session_well_formed(
    session: Session,
    request: Request,
    catalog: Result<Seq<Bundle>, Seq<char>>,
)
    requires
        session.wf() || request is Use,
    ensures
        next_session(session, request, catalog).wf(),
{
}

/// A line that is no command changes nothing of the session, whatever the
/// catalog holds, and is answered by one sentence that gives the line back.
pub proof fn lemma_unknown_command_keeps_session(
    session: Session,
    line: Seq<char>,
    catalog: Result<Seq<Bundle>, Seq<char>>,
    pointer_width: u32,
)
    requires
        classify_line(line) is Unknown,
    ensures
        next_session(session, classify_line(line), catalog) == session,
        reaction(session, classify_line(line), catalog, pointer_width) == Reaction::Print(
            seq![Piece::Text(unknown_command_text(line))],
        ),
{
}

} // verus!
