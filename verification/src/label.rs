use vstd::prelude::*;

verus! {

/// One mailbox label as the resource API reports it.  The transport layer
/// parses the provider's JSON into this shape and hands it over as plain
/// values.
#[derive(Debug, Clone)]
pub struct Label {
    pub id: String,
    pub name: String,
    pub message_list_visibility: Option<String>,
    pub label_list_visibility: Option<String>,
    pub label_type: String,
    pub messages_total: Option<isize>,
    pub messages_unread: Option<isize>,
    pub threads_total: Option<isize>,
    pub threads_unread: Option<isize>,
    pub color: Option<String>,
}

} // verus!
