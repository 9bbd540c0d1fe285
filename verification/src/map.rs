use crate::messages::MessageType;
use std::collections::HashMap;
use vstd::prelude::*;

verus! {

/// The decoders that are wired up so far, by template id: the heartbeat
/// response and nothing else.
pub open spec fn decoder_table() -> Map<i32, MessageType> {
    Map::empty().insert(19, MessageType::ResponseHeartbeat)
}

/// Builds the table that says which decoder handles which template id.
pub fn create_template_decoder_map() -> (table: HashMap<i32, MessageType>)
    ensures
        table@ == decoder_table(),
{
    let mut table: HashMap<i32, MessageType> = HashMap::new();
    table.insert(19, MessageType::ResponseHeartbeat);
    table
}

/// Every decoder in the table answers to the template id of its own message
/// type.
pub proof fn lemma_decoder_table_is_consistent(template_id: i32)
    requires
        decoder_table().contains_key(template_id),
    ensures
        decoder_table()[template_id].template() == template_id,
{
}

} // verus!
