use crate::models::config_file::{catalog_view, Bundle, ConfigFile};
use vstd::prelude::*;

verus! {

/// Calls `std::path::Path::exists` on the path. The answer depends on the
/// file system at the moment of the call, so nothing is promised of it.
#[verifier::external_body]
fn path_exists(path: &str) -> (found: bool) {
    std::path::Path::new(path).exists()
}

/// Whether the path names something that exists. The empty path names
/// nothing.
pub fn is_file_exists(path: &str) -> (found: bool)
    ensures
        path@.len() == 0 ==> !found,
        exists|answer: bool| found == #[trigger] names_existing(path@, answer),
{
    let answer = if path.is_empty() {
        false
    } else {
        path_exists(path)
    };
    let found = exists_from_answer(path, answer);
    assert(found == names_existing(path@, answer));
    found
}

/// What the answer of the file system means for a path: the path names
/// something that exists where it is not empty and the file system found
/// it. The empty path names nothing, whatever the answer.
pub open spec fn names_existing(path: Seq<char>, answer: bool) -> bool {
    path.len() > 0 && answer
}

/// Decides from the answer of the file system whether the path names
/// something that exists.
pub fn exists_from_answer(path: &str, answer: bool) -> (found: bool)
    ensures
        found == names_existing(path@, answer),
{
    !path.is_empty() && answer
}

/// The bundles among the loaded entries: the entries that could be read and
/// understood, in their order.
pub open spec fn loaded_bundles(entries: Seq<Option<Bundle>>) -> Seq<Bundle>
    decreases entries.len(),
{
    if entries.len() == 0 {
        Seq::empty()
    } else {
        match entries.last() {
            Some(bundle) => loaded_bundles(entries.drop_last()).push(bundle),
            None => loaded_bundles(entries.drop_last()),
        }
    }
}

pub open spec fn entries_view(entries: Seq<Option<ConfigFile>>) -> Seq<Option<Bundle>> {
    Seq::new(
        entries.len(),
        |i: int|
            match entries[i] {
                Some(bundle) => Some(bundle@),
                None => None,
            },
    )
}

/// Builds the catalog from the entries of the bundle tree, each of which
/// was loaded or was not: an entry that was not is passed over, and never
/// makes the whole load fail.
pub fn collect_config_files(entries: Vec<Option<ConfigFile>>) -> (catalog: Vec<ConfigFile>)
    ensures
        catalog_view(catalog@) == loaded_bundles(entries_view(entries@)),
{
    let ghost all = entries_view(entries@);
    let mut catalog: Vec<ConfigFile> = Vec::new();
    let mut i: usize = 0;
    while i < entries.len()
        invariant
            i <= entries.len(),
            all == entries_view(entries@),
            catalog_view(catalog@) == loaded_bundles(all.take(i as int)),
        decreases entries.len() - i,
    {
        proof {
            assert(all.take(i + 1).drop_last() =~= all.take(i as int));
        }
        let ghost before = catalog_view(catalog@);
        match &entries[i] {
            Some(bundle) => {
                catalog.push(bundle.clone());
                assert(catalog_view(catalog@) =~= before.push(bundle@));
            },
            None => {},
        }
        i += 1;
    }
    assert(all.take(entries.len() as int) =~= all);
    catalog
}

} // verus!
