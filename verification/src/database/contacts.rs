//! Contacts as the contact store holds them. The store itself lives
//! outside this library.

use crate::signaling::messages::ContactInfo;
use vstd::prelude::*;

verus! {

/// A stored contact, with the online status last heard of.
#[derive(Debug, Clone, PartialEq, Eq)]
pub struct Contact {
    pub id: i64,
    pub peer_id: String,
    pub username: String,
    pub display_name: Option<String>,
    pub is_online: bool,
    pub created_at: String,
    pub updated_at: String,
}

/// A contact to store.
#[derive(Debug, Clone, PartialEq, Eq)]
pub struct NewContact {
    pub peer_id: String,
    pub username: String,
    pub display_name: Option<String>,
}

impl NewContact {
    /// The contact to store for a user that the server found, under no
    /// display name.
    pub fn from_found(info: &ContactInfo) -> (r: NewContact)
        ensures
            r.peer_id == info.peer_id,
            r.username == info.username,
            r.display_name is None,
    {
        NewContact {
            peer_id: info.peer_id.clone(),
            username: info.username.clone(),
            display_name: None,
        }
    }
}

} // verus!
