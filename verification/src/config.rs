use vstd::prelude::*;

use crate::text::{dec_nat, push_decimal};

verus! {

/// Where the MySQL database is and how to log into it.
pub struct DBConfig {
    pub host: String,
    pub port: u32,
    pub user: String,
    pub password: String,
    pub dbname: String,
}

/// Where the redis cache is and its password.
pub struct CacheConfig {
    pub host: String,
    pub port: u32,
    pub password: String,
}

/// `redis://:{password}@{host}:{port}/`
pub open spec fn cache_url_text(password: Seq<char>, host: Seq<char>, port: nat) -> Seq<char> {
    "redis://:"@ + password + "@"@ + host + ":"@ + dec_nat(port) + "/"@
}

/// `mysql://{user}:{password}@{host}:{port}/{dbname}`
pub open spec fn database_url_text(
    user: Seq<char>,
    password: Seq<char>,
    host: Seq<char>,
    port: nat,
    dbname: Seq<char>,
) -> Seq<char> {
    "mysql://"@ + user + ":"@ + password + "@"@ + host + ":"@ + dec_nat(port) + "/"@ + dbname
}

impl CacheConfig {
    pub open spec fn url_spec(&self) -> Seq<char> {
        cache_url_text(self.password@, self.host@, self.port as nat)
    }

    /// The connection URL of the cache: `redis://:{password}@{host}:{port}/`.
    pub fn url(&self) -> (r: String)
        ensures
            r@ == self.url_spec(),
    {
        let mut out = String::from_str("redis://:");
        out.append(self.password.as_str());
        out.append("@");
        out.append(self.host.as_str());
        out.append(":");
        push_decimal(&mut out, self.port as u64);
        out.append("/");
        assert(out@ =~= self.url_spec());
        out
    }
}

impl DBConfig {
    pub open spec fn url_spec(&self) -> Seq<char> {
        database_url_text(
            self.user@,
            self.password@,
            self.host@,
            self.port as nat,
            self.dbname@,
        )
    }

    /// The connection URL of the database: `mysql://{user}:{password}@{host}:{port}/{dbname}`.
    pub fn url(&self) -> (r: String)
        ensures
            r@ == self.url_spec(),
    {
        let mut out = String::from_str("mysql://");
        out.append(self.user.as_str());
        out.append(":");
        out.append(self.password.as_str());
        out.append("@");
        out.append(self.host.as_str());
        out.append(":");
        push_decimal(&mut out, self.port as u64);
        out.append("/");
        out.append(self.dbname.as_str());
        assert(out@ =~= self.url_spec());
        out
    }
}

} // verus!
