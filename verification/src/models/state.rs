use crate::models::config_file::{catalog_view, Bundle, ConfigFile};
use crate::models::payload::{slots_view, Payload, Slot};
use vstd::prelude::*;

verus! {

/// The state of a session, as a mathematical value.
pub struct Session {
    pub list: Seq<Bundle>,
    pub current_name: Option<Seq<char>>,
    pub payloads: Seq<Slot>,
}

/// The state of one session: the bundles last shown by a listing or a
/// search, the name of the selected bundle, and one slot for each of its
/// arguments.
#[derive(Debug, PartialEq, Eq)]
pub struct State {
    pub list: Vec<ConfigFile>,
    pub current_name: Option<String>,
    pub payloads: Vec<Payload>,
}

pub open spec fn name_view(name: Option<String>) -> Option<Seq<char>> {
    match name {
        Some(n) => Some(n@),
        None => None,
    }
}

impl View for State {
    type V = Session;

    open spec fn view(&self) -> Session {
        Session {
            list: catalog_view(self.list@),
            current_name: name_view(self.current_name),
            payloads: slots_view(self.payloads@),
        }
    }
}

impl Session {
    /// No slot is kept while no bundle is selected.
    pub open spec fn wf(self) -> bool {
        self.current_name is None ==> self.payloads.len() == 0
    }

    /// The state in which a session starts.
    pub open spec fn initial() -> Session {
        Session { list: Seq::empty(), current_name: None, payloads: Seq::empty() }
    }
}

impl Default for State {
    fn default() -> (state: State)
        ensures
            state@ == Session::initial(),
            state@.wf(),
    {
        let state = State { list: Vec::new(), current_name: None, payloads: Vec::new() };
        assert(state@.list =~= Seq::empty());
        assert(state@.payloads =~= Seq::empty());
        state
    }
}

} // verus!
