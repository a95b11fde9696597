//! How the programs reach Redis.
use vstd::prelude::*;

verus! {

/// The parameters of a TCP connection to Redis: where, which database, and
/// the credentials.
pub struct RedisConnection {
    pub host: String,
    pub port: u16,
    pub db: i64,
    pub username: Option<String>,
    pub password: Option<String>,
}

/// The connection the configuration describes: over TCP, to the default
/// user, always with the configured password (even an empty one).
pub fn tcp_connection(host: &String, port: u16, db: i64, password: &String) -> (c: RedisConnection)
    ensures
        c.host@ == host@,
        c.port == port,
        c.db == db,
        c.username is None,
        c.password matches Some(p) && p@ == password@,
{
    RedisConnection {
        host: host.clone(),
        port,
        db,
        username: None,
        password: Some(password.clone()),
    }
}

} // verus!
