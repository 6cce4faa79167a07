//! Configuration: the values the embedding process reads at startup and
//! hands to the library.
//!
//! The file and serialization handling stays with the embedding process;
//! here the configuration is plain data with exact accessor contracts. The
//! single mutation — configuring the verified role — goes through
//! [`Guild::set_verify_role_id`].

use vstd::prelude::*;

verus! {

/// Database connection parameters.
pub struct MongoDB {
    pub uri: String,
    pub database: String,
}

impl MongoDB {
    pub fn get_uri(&self) -> (r: &String)
        ensures
            r == self.uri,
    {
        &self.uri
    }

    pub fn get_database(&self) -> (r: &String)
        ensures
            r == self.database,
    {
        &self.database
    }
}

/// The guild served, and the role granted to verified users. A
/// `verify_role_id` below [`crate::guard::LOWEST_ID`] means no role has been
/// configured yet.
pub struct Guild {
    pub id: u64,
    pub verify_role_id: u64,
}

impl Guild {
    pub fn get_id(&self) -> (r: u64)
        ensures
            r == self.id,
    {
        self.id
    }

    pub fn get_verify_role_id(&self) -> (r: u64)
        ensures
            r == self.verify_role_id,
    {
        self.verify_role_id
    }

    /// Configure the verified role; everything else is untouched.
    pub fn set_verify_role_id(&mut self, val: u64)
        ensures
            final(self).verify_role_id == val,
            final(self).id == old(self).id,
    {
        self.verify_role_id = val;
    }
}

/// Runtime sizing for the embedding process.
pub struct Threads {
    pub count: u16,
    pub stack_size: usize,
}

impl Threads {
    pub fn get_count(&self) -> (r: u16)
        ensures
            r == self.count,
    {
        self.count
    }

    pub fn get_stack_size(&self) -> (r: usize)
        ensures
            r == self.stack_size,
    {
        self.stack_size
    }
}

/// The whole configuration.
pub struct Settings {
    pub mongodb: MongoDB,
    pub guild: Guild,
    pub token: String,
    pub threads: Threads,
}

impl Settings {
    pub fn get_mongodb(&self) -> (r: &MongoDB)
        ensures
            r == self.mongodb,
    {
        &self.mongodb
    }

    pub fn get_guild(&self) -> (r: &Guild)
        ensures
            r == self.guild,
    {
        &self.guild
    }

    pub fn get_token(&self) -> (r: &String)
        ensures
            r == self.token,
    {
        &self.token
    }

    pub fn get_threads(&self) -> (r: &Threads)
        ensures
            r == self.threads,
    {
        &self.threads
    }
}

/// Assemble the configuration from the plain values the embedding process
/// read at startup.
pub fn settings(mongodb: MongoDB, guild: Guild, token: String, threads: Threads) -> (r: Settings)
    ensures
        r.mongodb == mongodb,
        r.guild == guild,
        r.token == token,
        r.threads == threads,
{
    Settings { mongodb, guild, token, threads }
}

} // verus!
