use vstd::prelude::*;
use vstd::string::StringExecFns;

use crate::error::ServiceError;

verus! {

/// Address of a callable cell: the hash of its DNA and the agent that runs it.
#[derive(Debug, Clone, PartialEq, Eq)]
pub struct CellId {
    pub dna_hash: Vec<u8>,
    pub agent_pub_key: Vec<u8>,
}

/// One cell of an installed application.
#[derive(Debug, Clone, PartialEq, Eq)]
pub enum CellInfo {
    Provisioned(CellId),
    Cloned(CellId),
    /// Not yet materialized; cannot be called.
    Stem,
}

/// The cells that an application holds under one role name.
#[derive(Debug, Clone, PartialEq, Eq)]
pub struct CellEntry {
    pub role_name: String,
    pub cells: Vec<CellInfo>,
}

/// What the conductor reports of an installed application. The conductor
/// files each role name once; `roles_unique` states that of `cell_info`.
#[derive(Debug, Clone, PartialEq, Eq)]
pub struct AppRecord {
    pub installed_app_id: String,
    pub agent_pub_key: Vec<u8>,
    pub cell_info: Vec<CellEntry>,
}

/// The role name under which an application's cell is filed: `"{app_id}-{cell_name}"`.
pub open spec fn role_key(app_id: Seq<char>, cell_name: Seq<char>) -> Seq<char> {
    app_id + seq!['-'] + cell_name
}

/// `i` is the first entry filed under `key`.
pub open spec fn is_first_match(entries: Seq<CellEntry>, key: Seq<char>, i: int) -> bool {
    &&& 0 <= i < entries.len()
    &&& entries[i].role_name@ == key
    &&& forall|j: int| 0 <= j < i ==> entries[j].role_name@ != key
}

/// Some entry is filed under `key`.
pub open spec fn has_entry(entries: Seq<CellEntry>, key: Seq<char>) -> bool {
    exists|i: int| 0 <= i < entries.len() && entries[i].role_name@ == key
}

/// The first entry filed under `key` (meaningful when `has_entry` holds).
pub open spec fn first_entry(entries: Seq<CellEntry>, key: Seq<char>) -> CellEntry {
    entries[choose|i: int| is_first_match(entries, key, i)]
}

/// The cell that a call addresses: the first cell under the role name,
/// which must be provisioned or cloned.
pub open spec fn cell_selection(cells: Seq<CellEntry>, app_id: Seq<char>, cell_name: Seq<char>) -> Result<
    CellId,
    ServiceError,
> {
    let key = role_key(app_id, cell_name);
    if !has_entry(cells, key) {
        Err(ServiceError::CellNotFound)
    } else {
        let entry = first_entry(cells, key);
        if entry.cells@.len() == 0 {
            Err(ServiceError::CellNotFound)
        } else {
            match entry.cells@[0] {
                CellInfo::Provisioned(id) => Ok(id),
                CellInfo::Cloned(id) => Ok(id),
                CellInfo::Stem => Err(ServiceError::CellNotProvisioned),
            }
        }
    }
}

/// The first match is the one that `first_entry` picks.
proof fn lemma_first_match_unique(entries: Seq<CellEntry>, key: Seq<char>, i: int)
    requires
        is_first_match(entries, key, i),
    ensures
        has_entry(entries, key),
        first_entry(entries, key) == entries[i],
{
    let k = choose|k: int| is_first_match(entries, key, k);
    assert(is_first_match(entries, key, k));
    if k < i {
        assert(entries[k].role_name@ != key);
    } else if k > i {
        assert(entries[i].role_name@ != key);
    }
}

/// Builds the role name `"{app_id}-{cell_name}"`.
pub fn role_key_of(app_id: &String, cell_name: &String) -> (r: String)
    ensures
        r@ == role_key(app_id@, cell_name@),
{
    proof {
        reveal_strlit("-");
    }
    app_id.clone().concat("-").concat(cell_name.as_str())
}

/// Picks, among an application's cells, the one that a call to `cell_name`
/// of the application `app_id` addresses.
pub fn select_cell(cell_info: Vec<CellEntry>, app_id: &String, cell_name: &String) -> (r: Result<
    CellId,
    ServiceError,
>)
    ensures
        r == cell_selection(cell_info@, app_id@, cell_name@),
{
    let key = role_key_of(app_id, cell_name);
    let ghost entries0 = cell_info@;
    let mut entries = cell_info;
    let mut i: usize = 0;
    while i < entries.len()
        invariant
            entries@ == entries0,
            entries0 == cell_info@,
            key@ == role_key(app_id@, cell_name@),
            0 <= i <= entries@.len(),
            forall|j: int| 0 <= j < i ==> entries@[j].role_name@ != key@,
        decreases entries@.len() - i,
    {
        if entries[i].role_name == key {
            proof {
                lemma_first_match_unique(entries0, key@, i as int);
            }
            let mut entry = entries.remove(i);
            if entry.cells.len() == 0 {
                return Err(ServiceError::CellNotFound);
            }
            let first = entry.cells.remove(0);
            return match first {
                CellInfo::Provisioned(id) => Ok(id),
                CellInfo::Cloned(id) => Ok(id),
                CellInfo::Stem => Err(ServiceError::CellNotProvisioned),
            };
        }
        i = i + 1;
    }
    Err(ServiceError::CellNotFound)
}

/// Lookup failures of a call: a role name that is not filed, or that lists no
/// cells, gives `CellNotFound`; one whose first cell is a stem gives
/// `CellNotProvisioned`.
pub proof fn lemma_lookup_failures(cells: Seq<CellEntry>, app_id: Seq<char>, cell_name: Seq<char>)
    ensures
        !has_entry(cells, role_key(app_id, cell_name)) ==> cell_selection(cells, app_id, cell_name)
            == Err::<CellId, ServiceError>(ServiceError::CellNotFound),
        forall|i: int|
            is_first_match(cells, role_key(app_id, cell_name), i) && cells[i].cells@.len() == 0
                ==> cell_selection(cells, app_id, cell_name) == Err::<CellId, ServiceError>(
                ServiceError::CellNotFound,
            ),
        forall|i: int|
            is_first_match(cells, role_key(app_id, cell_name), i) && cells[i].cells@.len() > 0
                && cells[i].cells@[0] is Stem ==> cell_selection(cells, app_id, cell_name) == Err::<
                CellId,
                ServiceError,
            >(ServiceError::CellNotProvisioned),
{
    let key = role_key(app_id, cell_name);
    assert forall|i: int| is_first_match(cells, key, i) implies first_entry(cells, key) == cells[i]
        && has_entry(cells, key) by {
        lemma_first_match_unique(cells, key, i);
    }
}

/// Each role name is filed at most once, as in the conductor's map of roles.
pub open spec fn roles_unique(entries: Seq<CellEntry>) -> bool {
    forall|i: int, j: int|
        0 <= i < entries.len() && 0 <= j < entries.len() && i != j ==> entries[i].role_name@
            != entries[j].role_name@
}

/// With unique role names, the cell list that a call reads is the one filed
/// under its role name, wherever that entry stands.
pub proof fn lemma_unique_role_entry(entries: Seq<CellEntry>, key: Seq<char>, i: int)
    requires
        roles_unique(entries),
        0 <= i < entries.len(),
        entries[i].role_name@ == key,
    ensures
        has_entry(entries, key),
        first_entry(entries, key) == entries[i],
{
    assert(is_first_match(entries, key, i));
    lemma_first_match_unique(entries, key, i);
}

/// A call whose role name lists a provisioned or cloned cell first addresses
/// that cell.
pub proof fn lemma_callable_cell(
    cells: Seq<CellEntry>,
    app_id: Seq<char>,
    cell_name: Seq<char>,
    i: int,
    id: CellId,
)
    requires
        is_first_match(cells, role_key(app_id, cell_name), i),
        cells[i].cells@.len() > 0,
        cells[i].cells@[0] == CellInfo::Provisioned(id) || cells[i].cells@[0] == CellInfo::Cloned(
            id,
        ),
    ensures
        cell_selection(cells, app_id, cell_name) == Ok::<CellId, ServiceError>(id),
{
    lemma_first_match_unique(cells, role_key(app_id, cell_name), i);
}

} // verus!
