use crate::decimal::{parse_index, read_index};
use crate::models::config_file::{catalog_view, schema_view, Bundle, ConfigArguments, ConfigFile};
use crate::models::payload::{empty_slots, slots_view, Payload};
use crate::models::state::{Session, State};
use crate::text::{chars_of, contains, contains_text, same_text};
use vstd::prelude::*;

verus! {

/// The position of the first bundle at or after `from` that has the name.
pub open spec fn first_named(catalog: Seq<Bundle>, name: Seq<char>, from: int) -> Option<int>
    decreases catalog.len() - from,
{
    if from < 0 || from >= catalog.len() {
        None
    } else if catalog[from].name == name {
        Some(from)
    } else {
        first_named(catalog, name, from + 1)
    }
}

/// The bundles that positions count in: the list that the last listing or
/// search left, or the whole catalog where it left none.
pub open spec fn shown(list: Seq<Bundle>, catalog: Seq<Bundle>) -> Seq<Bundle> {
    if list.len() > 0 {
        list
    } else {
        catalog
    }
}

/// The bundle that a term names. A term that reads as a position counts in
/// the bundles last shown by a listing or a search, and names nothing where
/// it lies beyond them. Any other term is a name, looked up in the whole
/// catalog whatever was shown last; of several bundles with one name it
/// names the first.
pub open spec fn resolve(list: Seq<Bundle>, catalog: Seq<Bundle>, term: Seq<char>) -> Option<
    Bundle,
> {
    match parse_index(term) {
        Some(i) => if i < shown(list, catalog).len() {
            Some(shown(list, catalog)[i])
        } else {
            None
        },
        None => match first_named(catalog, term, 0) {
            Some(k) => Some(catalog[k]),
            None => None,
        },
    }
}

/// The session after a selection by the term. A bundle that the term names
/// becomes the selected one, with one empty slot for each of its arguments;
/// where the term names none, nothing is selected and no slot is kept.
/// Nothing of the slots before the selection stays either way.
pub open spec fn select(session: Session, catalog: Seq<Bundle>, term: Seq<char>) -> Session {
    match resolve(session.list, catalog, term) {
        Some(bundle) => Session {
            list: session.list,
            current_name: Some(bundle.name),
            payloads: empty_slots(bundle.arguments),
        },
        None => Session { list: session.list, current_name: None, payloads: Seq::empty() },
    }
}

/// A bundle whose name or description holds the term.
pub open spec fn matches_term(bundle: Bundle, term: Seq<char>) -> bool {
    contains_text(bundle.name, term) || contains_text(bundle.desc, term)
}

/// The bundles of the catalog that match the term, in the catalog's order.
pub open spec fn matching(catalog: Seq<Bundle>, term: Seq<char>) -> Seq<Bundle>
    decreases catalog.len(),
{
    if catalog.len() == 0 {
        Seq::empty()
    } else if matches_term(catalog.last(), term) {
        matching(catalog.drop_last(), term).push(catalog.last())
    } else {
        matching(catalog.drop_last(), term)
    }
}

/// The session after a search: the bundles found are the ones shown last.
pub open spec fn after_search(session: Session, catalog: Seq<Bundle>, term: Seq<char>) -> Session {
    Session {
        list: matching(catalog, term),
        current_name: session.current_name,
        payloads: session.payloads,
    }
}

/// The session after a listing of the whole catalog: the bundles listed
/// are the ones shown last, so a position counts in them as they were
/// listed.
pub open spec fn after_list(session: Session, catalog: Seq<Bundle>) -> Session {
    Session { list: catalog, current_name: session.current_name, payloads: session.payloads }
}

/// Finds the first bundle of the catalog that has the name.
pub fn find_by_name(catalog: &Vec<ConfigFile>, name: &str) -> (found: Option<usize>)
    ensures
        match found {
            Some(k) => first_named(catalog_view(catalog@), name@, 0) == Some(k as int) && k
                < catalog.len(),
            None => first_named(catalog_view(catalog@), name@, 0) is None,
        },
{
    let ghost all = catalog_view(catalog@);
    let mut i: usize = 0;
    while i < catalog.len()
        invariant
            i <= catalog.len(),
            all == catalog_view(catalog@),
            first_named(all, name@, 0) == first_named(all, name@, i as int),
        decreases catalog.len() - i,
    {
        if same_text(catalog[i].name.as_str(), name) {
            return Some(i);
        }
        i += 1;
    }
    None
}

/// One empty slot for each declared argument, in the declared order.
pub fn fresh_slots(arguments: &Vec<ConfigArguments>) -> (slots: Vec<Payload>)
    ensures
        slots_view(slots@) == empty_slots(schema_view(arguments@)),
{
    let mut slots: Vec<Payload> = Vec::new();
    let mut i: usize = 0;
    while i < arguments.len()
        invariant
            i <= arguments.len(),
            slots.len() == i,
            forall|k: int|
                0 <= k < i ==> (#[trigger] slots[k]@).value == Seq::<char>::empty() && slots[k]@.arg
                    == arguments[k]@,
        decreases arguments.len() - i,
    {
        slots.push(Payload { value: String::new(), arg: arguments[i].clone() });
        i += 1;
    }
    assert(slots_view(slots@) =~= empty_slots(schema_view(arguments@)));
    slots
}

/// Picks the bundle that the term names, as `resolve` says, and gives a
/// copy of it.
pub fn resolve_bundle(list: &Vec<ConfigFile>, catalog: &Vec<ConfigFile>, term: &str) -> (found:
    Option<ConfigFile>)
    ensures
        match found {
            Some(bundle) => resolve(catalog_view(list@), catalog_view(catalog@), term@) == Some(
                bundle@,
            ),
            None => resolve(catalog_view(list@), catalog_view(catalog@), term@) is None,
        },
{
    let chars = chars_of(term);
    match read_index(&chars) {
        Some(i) => {
            let counted = if list.len() > 0 {
                list
            } else {
                catalog
            };
            assert(catalog_view(counted@) == shown(catalog_view(list@), catalog_view(catalog@)));
            if i < counted.len() {
                Some(counted[i].clone())
            } else {
                None
            }
        },
        None => match find_by_name(catalog, term) {
            Some(k) => Some(catalog[k].clone()),
            None => None,
        },
    }
}

/// Selects the bundle that the term names, or clears the selection where
/// it names none. Tells whether a bundle is selected afterwards.
pub fn select_bundle(state: &mut State, term: &str, catalog: &Vec<ConfigFile>) -> (selected: bool)
    ensures
        final(state)@ == select(old(state)@, catalog_view(catalog@), term@),
        selected == (final(state)@.current_name is Some),
{
    match resolve_bundle(&state.list, catalog, term) {
        Some(bundle) => {
            state.payloads = fresh_slots(&bundle.arguments);
            state.current_name = Some(bundle.name);
            true
        },
        None => {
            state.payloads = Vec::new();
            state.current_name = None;
            assert(slots_view(state.payloads@) =~= Seq::empty());
            false
        },
    }
}

/// Copies of all the bundles of the catalog, in the catalog's order.
pub fn copy_of(catalog: &Vec<ConfigFile>) -> (copy: Vec<ConfigFile>)
    ensures
        catalog_view(copy@) == catalog_view(catalog@),
{
    let mut copy: Vec<ConfigFile> = Vec::new();
    let mut i: usize = 0;
    while i < catalog.len()
        invariant
            i <= catalog.len(),
            copy.len() == i,
            forall|k: int| 0 <= k < i ==> (#[trigger] copy[k]@) == catalog[k]@,
        decreases catalog.len() - i,
    {
        copy.push(catalog[i].clone());
        i += 1;
    }
    assert(catalog_view(copy@) =~= catalog_view(catalog@));
    copy
}

/// Copies of the bundles of the catalog that match the term.
pub fn search_catalog(catalog: &Vec<ConfigFile>, term: &str) -> (found: Vec<ConfigFile>)
    ensures
        catalog_view(found@) == matching(catalog_view(catalog@), term@),
{
    let ghost all = catalog_view(catalog@);
    let needle = chars_of(term);
    let mut found: Vec<ConfigFile> = Vec::new();
    let mut i: usize = 0;
    while i < catalog.len()
        invariant
            i <= catalog.len(),
            all == catalog_view(catalog@),
            needle@ == term@,
            catalog_view(found@) == matching(all.take(i as int), term@),
        decreases catalog.len() - i,
    {
        proof {
            assert(all.take(i + 1).drop_last() =~= all.take(i as int));
        }
        let ghost before = catalog_view(found@);
        let name = chars_of(catalog[i].name.as_str());
        let desc = chars_of(catalog[i].desc.as_str());
        if contains(&name, &needle) || contains(&desc, &needle) {
            found.push(catalog[i].clone());
            assert(catalog_view(found@) =~= before.push(catalog[i as int]@));
        }
        i += 1;
    }
    assert(all.take(catalog.len() as int) =~= all);
    found
}

/// What a term names depends on the list shown last only where the term
/// reads as a position: a name is looked up in the whole catalog, and a
/// position counts in the list shown last wherever that list holds a bundle.
pub proof fn lemma_names_ignore_the_list(
    list: Seq<Bundle>,
    other: Seq<Bundle>,
    catalog: Seq<Bundle>,
    term: Seq<char>,
)
    ensures
        parse_index(term) is None ==> resolve(list, catalog, term) == resolve(other, catalog, term),
        parse_index(term) is Some && parse_index(term)->0 < list.len() ==> resolve(
            list,
            catalog,
            term,
        ) == Some(list[parse_index(term)->0]),
        parse_index(term) is Some && 0 < list.len() <= parse_index(term)->0 ==> resolve(
            list,
            catalog,
            term,
        ) is None,
{
}

/// After selecting one bundle and then another, the slots are those of the
/// second alone: as many as it declares arguments, each with an empty
/// value, whatever the first selection and the values bound since held.
pub proof fn lemma_reselection(
    session: Session,
    catalog: Seq<Bundle>,
    first: Seq<char>,
    values: Seq<crate::models::payload::Slot>,
    second: Seq<char>,
)
    requires
        resolve(session.list, catalog, second) is Some,
    ensures
        ({
            let once = select(session, catalog, first);
            let bound = Session { payloads: values, ..once };
            let twice = select(bound, catalog, second);
            let b = resolve(session.list, catalog, second)->0;
            &&& twice.current_name == Some(b.name)
            &&& twice.payloads == empty_slots(b.arguments)
            &&& twice.payloads.len() == b.arguments.len()
            &&& forall|i: int|
                0 <= i < twice.payloads.len() ==> (#[trigger] twice.payloads[i]).value.len() == 0
        }),
{
}

} // verus!
