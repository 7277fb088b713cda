use std::collections::HashMap;
use vstd::prelude::*;

verus! {

/// One key/value pair of a store, with its own metadata, as it travels in a
/// save or a bulk delete request.
pub struct StateItem {
    pub key: String,
    pub value: Vec<u8>,
    pub metadata: HashMap<String, String>,
}

/// Asks a store for the value of one key.
pub struct GetStateRequest {
    pub store_name: String,
    pub key: String,
    pub metadata: HashMap<String, String>,
}

/// What a store answers to a get: the value (empty where the key is absent),
/// its etag and the store's metadata.
pub struct GetStateResponse {
    pub data: Vec<u8>,
    pub etag: String,
    pub metadata: HashMap<String, String>,
}

/// Asks a store to save a list of items.
pub struct SaveStateRequest {
    pub store_name: String,
    pub states: Vec<StateItem>,
}

/// Asks a store to delete one key.
pub struct DeleteStateRequest {
    pub store_name: String,
    pub key: String,
    pub metadata: HashMap<String, String>,
}

/// Asks a store to delete a list of items.
pub struct DeleteBulkStateRequest {
    pub store_name: String,
    pub states: Vec<StateItem>,
}

/// The metadata that a request carries when the caller supplied `metadata`:
/// the supplied mapping, or the empty one.
pub open spec fn metadata_view(metadata: Option<HashMap<String, String>>) -> Map<String, String> {
    match metadata {
        Some(m) => m@,
        None => Map::empty(),
    }
}

/// A `(key, bytes)` pair seen as its characters and its bytes.
pub open spec fn pair_view(pair: (String, Vec<u8>)) -> (Seq<char>, Seq<u8>) {
    (pair.0@, pair.1@)
}

/// `item` is the item made of `pair`: the same key, the same bytes, and no
/// metadata of its own.
pub open spec fn is_item_of(item: StateItem, pair: (String, Vec<u8>)) -> bool {
    &&& item.key@ == pair.0@
    &&& item.value@ == pair.1@
    &&& item.metadata@ == Map::<String, String>::empty()
}

/// `items` are the items made of `states`, one for each pair, in order.
pub open spec fn items_of(items: Seq<StateItem>, states: Seq<(String, Vec<u8>)>) -> bool {
    &&& items.len() == states.len()
    &&& forall|i: int| 0 <= i < items.len() ==> is_item_of(#[trigger] items[i], states[i])
}

/// The `(key, bytes)` pairs that a list of items holds, in order.
pub open spec fn item_pairs(items: Seq<StateItem>) -> Seq<(Seq<char>, Seq<u8>)> {
    items.map_values(|item: StateItem| (item.key@, item.value@))
}

/// The metadata to send: the supplied mapping exactly as it is, or an empty
/// mapping where none was supplied.
pub fn metadata_or_empty(metadata: Option<HashMap<String, String>>) -> (r: HashMap<String, String>)
    ensures
        r@ == metadata_view(metadata),
        metadata matches Some(m) ==> r == m,
{
    match metadata {
        Some(m) => m,
        None => HashMap::new(),
    }
}

impl StateItem {
    /// The item that holds `key` and `value`, with empty metadata.
    pub fn from_pair(key: String, value: Vec<u8>) -> (r: StateItem)
        ensures
            r.key == key,
            r.value == value,
            is_item_of(r, (key, value)),
    {
        StateItem { key, value, metadata: HashMap::new() }
    }
}

/// Turns each `(key, bytes)` pair into a `StateItem`, keeping their order.
pub fn state_items(states: Vec<(String, Vec<u8>)>) -> (r: Vec<StateItem>)
    ensures
        items_of(r@, states@),
{
    let mut items: Vec<StateItem> = Vec::new();
    for pair in it: states.into_iter()
        invariant
            items.len() == it.index(),
            forall|j: int| 0 <= j < items.len() ==> #[trigger] is_item_of(items@[j], it.seq()[j]),
    {
        let (key, value) = pair;
        items.push(StateItem::from_pair(key, value));
    }
    items
}

/// The request that gets `key` from the store `store_name`; where no metadata
/// is supplied, the request carries an empty mapping.
pub fn get_state_request(
    store_name: String,
    key: String,
    metadata: Option<HashMap<String, String>>,
) -> (r: GetStateRequest)
    ensures
        r.store_name == store_name,
        r.key == key,
        r.metadata@ == metadata_view(metadata),
        metadata matches Some(m) ==> r.metadata == m,
{
    GetStateRequest { store_name, key, metadata: metadata_or_empty(metadata) }
}

/// The request that deletes `key` from the store `store_name`; where no
/// metadata is supplied, the request carries an empty mapping.
pub fn delete_state_request(
    store_name: String,
    key: String,
    metadata: Option<HashMap<String, String>>,
) -> (r: DeleteStateRequest)
    ensures
        r.store_name == store_name,
        r.key == key,
        r.metadata@ == metadata_view(metadata),
        metadata matches Some(m) ==> r.metadata == m,
{
    DeleteStateRequest { store_name, key, metadata: metadata_or_empty(metadata) }
}

/// The request that saves each `(key, bytes)` pair of `states`, in order, in
/// the store `store_name`.
pub fn save_state_request(store_name: String, states: Vec<(String, Vec<u8>)>) -> (r:
    SaveStateRequest)
    ensures
        r.store_name == store_name,
        items_of(r.states@, states@),
{
    SaveStateRequest { store_name, states: state_items(states) }
}

/// The request that deletes each item made of the pairs of `states`, in
/// order, from the store `store_name`.
pub fn delete_bulk_state_request(store_name: String, states: Vec<(String, Vec<u8>)>) -> (r:
    DeleteBulkStateRequest)
    ensures
        r.store_name == store_name,
        items_of(r.states@, states@),
{
    DeleteBulkStateRequest { store_name, states: state_items(states) }
}

/// Reading the keys and bytes back out of the items made of a list of pairs
/// gives that list again, unchanged and in order.
pub proof fn lemma_items_round_trip(states: Seq<(String, Vec<u8>)>, items: Seq<StateItem>)
    requires
        items_of(items, states),
    ensures
        item_pairs(items) == states.map_values(|pair: (String, Vec<u8>)| pair_view(pair)),
{
    assert(item_pairs(items) =~= states.map_values(|pair: (String, Vec<u8>)| pair_view(pair))) by {
        assert forall|i: int| 0 <= i < items.len() implies item_pairs(items)[i] == pair_view(
            states[i],
        ) by {
            assert(is_item_of(items[i], states[i]));
        }
    }
}

} // verus!
