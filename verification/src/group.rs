//! Groups of clients.

use vstd::prelude::*;
use crate::client::ClientID;

verus! {

/// A group: its own identity and the clients that belong to it.
#[derive(Debug, Clone)]
pub struct ClientGroup {
    pub group_id: ClientID,
    pub client_list: Vec<ClientID>,
}

impl ClientGroup {
    /// A group with no members yet.
    pub fn new(group_id: ClientID) -> (g: Self)
        ensures
            g.group_id == group_id,
            g.client_list@ == Seq::<ClientID>::empty(),
    {
        ClientGroup { group_id, client_list: Vec::new() }
    }

    pub fn group_id(&self) -> (id: &ClientID)
        ensures
            *id == self.group_id,
    {
        &self.group_id
    }

    pub fn client_list(&self) -> (l: &Vec<ClientID>)
        ensures
            l@ == self.client_list@,
    {
        &self.client_list
    }

    pub fn set_group_id(&mut self, val: ClientID) -> (r: &mut Self)
        ensures
            r.group_id == val,
            r.client_list@ == old(self).client_list@,
            final(self).group_id == final(r).group_id,
            final(self).client_list@ == final(r).client_list@,
    {
        self.group_id = val;
        self
    }

    pub fn set_client_list(&mut self, val: Vec<ClientID>) -> (r: &mut Self)
        ensures
            r.group_id == old(self).group_id,
            r.client_list@ == val@,
            final(self).group_id == final(r).group_id,
            final(self).client_list@ == final(r).client_list@,
    {
        self.client_list = val;
        self
    }
}

} // verus!
