use crate::binder::{bind, bind_result, BindError, BindFailure};
use crate::models::config_file::{catalog_view, files_view, Artifact, Bundle, ConfigFile, OsFile};
use crate::models::payload::{slot_schema, slots_view, Payload, Slot};
use crate::models::state::{Session, State};
use crate::selector::{find_by_name, first_named};
use crate::text::{same_text, split_words, texts, words};
use vstd::prelude::*;

verus! {

/// How a run ended, as a mathematical value.
pub enum RunResult {
    NoSelection,
    Rejected(BindFailure),
    CannotProceed,
    Launch { bundle: Seq<char>, artifact: Seq<char> },
}

/// How a run ended, before anything is executed.
#[derive(Debug, PartialEq, Eq)]
pub enum RunOutcome {
    /// No bundle is selected.
    NoSelection,
    /// The tokens could not be bound to the arguments; no slot has changed.
    Rejected(BindError),
    /// The values are bound, but the catalog no longer has the selected
    /// bundle, or the bundle has no artifact for this host.
    CannotProceed,
    /// The values are bound; the artifact at this path, relative to the
    /// directory of the bundle of this name, is to be executed.
    Launch { bundle: String, artifact: String },
}

impl View for RunOutcome {
    type V = RunResult;

    open spec fn view(&self) -> RunResult {
        match self {
            RunOutcome::NoSelection => RunResult::NoSelection,
            RunOutcome::Rejected(e) => RunResult::Rejected(e@),
            RunOutcome::CannotProceed => RunResult::CannotProceed,
            RunOutcome::Launch { bundle, artifact } => RunResult::Launch {
                bundle: bundle@,
                artifact: artifact@,
            },
        }
    }
}

/// The name that artifacts carry for a host with pointers of this width:
/// `amd64` for 64 bits, `i386` for 32 bits, none for any other width.
pub open spec fn arch_name(pointer_width: u32) -> Option<Seq<char>> {
    if pointer_width == 64 {
        Some("amd64"@)
    } else if pointer_width == 32 {
        Some("i386"@)
    } else {
        None
    }
}

/// The position of the first artifact at or after `from` for the
/// architecture.
pub open spec fn first_for_arch(files: Seq<Artifact>, arch: Seq<char>, from: int) -> Option<int>
    decreases files.len() - from,
{
    if from < 0 || from >= files.len() {
        None
    } else if files[from].arch == arch {
        Some(from)
    } else {
        first_for_arch(files, arch, from + 1)
    }
}

/// The position of the artifact for a host with pointers of this width:
/// the first one declared for the host's architecture.
pub open spec fn artifact_index(files: Seq<Artifact>, pointer_width: u32) -> Option<int> {
    match arch_name(pointer_width) {
        Some(arch) => first_for_arch(files, arch, 0),
        None => None,
    }
}

/// The artifact of the bundle for a host with pointers of this width.
pub open spec fn artifact_for(bundle: Bundle, pointer_width: u32) -> Option<Artifact> {
    match artifact_index(bundle.files, pointer_width) {
        Some(k) => Some(bundle.files[k]),
        None => None,
    }
}

/// The slots with the bound values in them, slot `i` with value `i`.
pub open spec fn with_values(slots: Seq<Slot>, values: Seq<Seq<char>>) -> Seq<Slot> {
    Seq::new(slots.len(), |i: int| Slot { value: values[i], arg: slots[i].arg })
}

/// What the words of the argument text bind to, against the arguments that
/// the slots of the session were made for.
pub open spec fn run_binding(session: Session, args: Seq<char>) -> Result<
    Seq<Seq<char>>,
    BindFailure,
> {
    bind_result(slot_schema(session.payloads), words(args))
}

/// The session after a run with the argument text. The bound values are
/// committed to the slots, all of them together, only where a bundle is
/// selected and every one of them was accepted; in any other case the
/// session stays as it was.
pub open spec fn after_run(session: Session, args: Seq<char>) -> Session {
    if session.current_name is Some {
        match run_binding(session, args) {
            Ok(values) => Session { payloads: with_values(session.payloads, values), ..session },
            Err(_) => session,
        }
    } else {
        session
    }
}

/// How a run with the argument text ends.
pub open spec fn run_result(
    session: Session,
    catalog: Seq<Bundle>,
    args: Seq<char>,
    pointer_width: u32,
) -> RunResult {
    match session.current_name {
        None => RunResult::NoSelection,
        Some(name) => match run_binding(session, args) {
            Err(failure) => RunResult::Rejected(failure),
            Ok(_) => match first_named(catalog, name, 0) {
                None => RunResult::CannotProceed,
                Some(k) => match artifact_for(catalog[k], pointer_width) {
                    None => RunResult::CannotProceed,
                    Some(file) => RunResult::Launch { bundle: catalog[k].name, artifact: file.path },
                },
            },
        },
    }
}

/// Finds the artifact of a bundle for a host with pointers of this width.
pub fn select_artifact(files: &Vec<OsFile>, pointer_width: u32) -> (found: Option<usize>)
    ensures
        match found {
            Some(k) => k < files.len() && artifact_index(files_view(files@), pointer_width)
                == Some(k as int),
            None => artifact_index(files_view(files@), pointer_width) is None,
        },
{
    let arch = if pointer_width == 64 {
        "amd64"
    } else if pointer_width == 32 {
        "i386"
    } else {
        return None;
    };
    let ghost all = files_view(files@);
    let mut i: usize = 0;
    while i < files.len()
        invariant
            i <= files.len(),
            all == files_view(files@),
            arch_name(pointer_width) == Some(arch@),
            first_for_arch(all, arch@, 0) == first_for_arch(all, arch@, i as int),
        decreases files.len() - i,
    {
        if same_text(files[i].arch.as_str(), arch) {
            return Some(i);
        }
        i += 1;
    }
    None
}

/// The arguments that the slots were made for.
fn schema_of(payloads: &Vec<Payload>) -> (schema: Vec<crate::models::config_file::ConfigArguments>)
    ensures
        crate::models::config_file::schema_view(schema@) == slot_schema(slots_view(payloads@)),
{
    let mut schema: Vec<crate::models::config_file::ConfigArguments> = Vec::new();
    let mut i: usize = 0;
    while i < payloads.len()
        invariant
            i <= payloads.len(),
            schema.len() == i,
            forall|k: int| 0 <= k < i ==> (#[trigger] schema[k]@) == payloads[k]@.arg,
        decreases payloads.len() - i,
    {
        schema.push(payloads[i].arg.clone());
        i += 1;
    }
    assert(crate::models::config_file::schema_view(schema@) =~= slot_schema(
        slots_view(payloads@),
    ));
    schema
}

/// Puts the bound values into the slots, value `i` into slot `i`.
fn commit_values(payloads: &mut Vec<Payload>, values: Vec<String>)
    requires
        values.len() == old(payloads).len(),
    ensures
        slots_view(final(payloads)@) == with_values(slots_view(old(payloads)@), texts(values@)),
{
    let ghost before = slots_view(payloads@);
    let n = payloads.len();
    let mut fresh: Vec<Payload> = Vec::new();
    let mut i: usize = 0;
    while i < n
        invariant
            i <= n,
            n == payloads.len(),
            n == values.len(),
            before == slots_view(payloads@),
            fresh.len() == i,
            forall|k: int|
                0 <= k < i ==> (#[trigger] fresh[k]@) == (Slot {
                    value: values[k]@,
                    arg: before[k].arg,
                }),
        decreases n - i,
    {
        fresh.push(Payload { value: values[i].clone(), arg: payloads[i].arg.clone() });
        i += 1;
    }
    assert(slots_view(fresh@) =~= with_values(before, texts(values@)));
    *payloads = fresh;
}

/// Runs the selected bundle with the argument text, up to the point where
/// the artifact would be executed: binds the words of the text to the
/// slots, commits the values where all were accepted, and finds the
/// artifact for the host.
pub fn handle_run_command(
    args: &str,
    state: &mut State,
    catalog: &Vec<ConfigFile>,
    pointer_width: u32,
) -> (outcome: RunOutcome)
    ensures
        outcome@ == run_result(old(state)@, catalog_view(catalog@), args@, pointer_width),
        final(state)@ == after_run(old(state)@, args@),
{
    let name = match &state.current_name {
        None => {
            return RunOutcome::NoSelection;
        },
        Some(name) => name.clone(),
    };
    let tokens = split_words(args);
    let schema = schema_of(&state.payloads);
    let values = match bind(&schema, &tokens) {
        Err(e) => {
            return RunOutcome::Rejected(e);
        },
        Ok(values) => values,
    };
    let ghost bound = texts(values@);
    assert(bound.len() == state.payloads.len());
    commit_values(&mut state.payloads, values);
    let k = match find_by_name(catalog, name.as_str()) {
        None => {
            return RunOutcome::CannotProceed;
        },
        Some(k) => k,
    };
    match select_artifact(&catalog[k].files, pointer_width) {
        None => RunOutcome::CannotProceed,
        Some(j) => RunOutcome::Launch {
            bundle: catalog[k].name.clone(),
            artifact: catalog[k].files[j].path.clone(),
        },
    }
}

/// A run never changes which arguments the slots are for, nor how many
/// slots there are.
pub proof fn lemma_run_keeps_schema(session: Session, args: Seq<char>)
    ensures
        slot_schema(after_run(session, args).payloads) == slot_schema(session.payloads),
        after_run(session, args).payloads.len() == session.payloads.len(),
        after_run(session, args).current_name == session.current_name,
        after_run(session, args).list == session.list,
{
    assert(slot_schema(after_run(session, args).payloads) =~= slot_schema(session.payloads));
}

/// A run that is rejected, or asked for while nothing is selected, leaves
/// every slot as it was.
pub proof fn lemma_failed_run_keeps_slots(session: Session, args: Seq<char>)
    requires
        session.current_name is None || run_binding(session, args) is Err,
    ensures
        after_run(session, args) == session,
{
}

} // verus!
