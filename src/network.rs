//! A client bound to one channel.
use vstd::prelude::*;
use crate::gateway::client::Client;

verus! {

/// A client together with the channel its transactions go to.
pub struct Network {
    pub client: Client,
    pub channel_name: String,
}

impl Network {
    pub fn new(client: Client, channel_name: String) -> (r: Network)
        ensures
            r.client == client,
            r.channel_name == channel_name,
    {
        Network { client, channel_name }
    }

    pub fn client(&self) -> (r: &Client)
        ensures
            *r == self.client,
    {
        &self.client
    }

    pub fn channel_name(&self) -> (r: &str)
        ensures
            r@ == self.channel_name@,
    {
        self.channel_name.as_str()
    }
}

} // verus!
