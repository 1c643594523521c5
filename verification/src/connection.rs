//! One Postgres connection descriptor.
//!
//! A descriptor is read out of the configuration document in one of two
//! shapes: a single `url` entry, or explicit `username` / `password` /
//! `host` / `port` / `database` entries with optional `timeout` and
//! `sslmode`.  A malformed entry is reported as [`Error::ParseError`].

use vstd::prelude::*;
use crate::error::Error;
use crate::text::{opt_str_view, push_decimal, spec_decimal, spec_trim_slashes,
    trim_leading_slashes};
use crate::url_parts::{find_query_value, pairs_view, parse_url, spec_find_query, url_host,
    url_ok, url_password, url_path, url_port, url_query_pairs, url_username, UrlParts};
use crate::value::Value;
use vstd::string::StringExecFns;

verus! {

/// The port used when the configuration names none.
pub const PG_DEFAULT_PORT: u16 = 5432;

/// The connect timeout, in seconds, used when the configuration names none.
pub const DEFAULT_CONNECT_TIMEOUT: u16 = 5;

/// The low sixteen bits of a configuration integer, as an `as` cast to
/// `u16` takes them.
pub open spec fn spec_wrap_u16(p: i64) -> u16 {
    (p & 0xffff) as u16
}

fn wrap_u16(p: i64) -> (r: u16)
    ensures
        r == spec_wrap_u16(p),
{
    let m: i64 = p & 0xffff;
    proof {
        assert(0 <= (p & 0xffff) < 65536) by (bit_vector);
    }
    m as u16
}

/// How to reach one Postgres database.
#[derive(Debug, PartialEq)]
pub struct Connection {
    /// The small integer the descriptor is referred to by.
    pub id: u8,
    /// The username.
    pub username: String,
    /// The password; empty when none was given.
    pub password: String,
    /// The host name.
    pub host: String,
    /// The port.
    pub port: u16,
    /// The database name.
    pub database: String,
    /// The requested SSL mode, when one was given.
    pub sslmode: Option<String>,
    /// A certificate path; never set by the configuration reader.
    pub cert: Option<String>,
    /// The connect timeout, in seconds.
    pub timeout: u16,
    /// Whether the descriptor is marked as connected.
    pub active: bool,
}

/// The descriptor that the URL written as `s` describes.
pub open spec fn spec_url_connection(s: Seq<char>, id: u8, c: Connection) -> bool {
    &&& url_ok(s)
    &&& url_host(s) is Some
    &&& c.id == id
    &&& c.username@ == url_username(s)
    &&& c.password@ == match url_password(s) {
        Some(p) => p,
        None => Seq::<char>::empty(),
    }
    &&& Some(c.host@) == url_host(s)
    &&& c.port == match url_port(s) {
        Some(p) => p,
        None => PG_DEFAULT_PORT,
    }
    &&& c.database@ == spec_trim_slashes(url_path(s))
    &&& opt_str_view(c.sslmode) == spec_find_query(url_query_pairs(s), "sslmode"@)
    &&& c.cert is None
    &&& c.timeout == DEFAULT_CONNECT_TIMEOUT
    &&& c.active == false
}

/// Whether the explicit-field shape of table `v` is well formed.
pub open spec fn spec_table_ok(v: Value) -> bool {
    &&& v.spec_get_str("username"@) is Some
    &&& v.spec_get_str("password"@) is Some
    &&& v.spec_get_str("host"@) is Some
    &&& v.spec_get_str("database"@) is Some
    &&& v.spec_get("port"@) is Some
    &&& match v.spec_get("timeout"@) {
        Some(t) => t.spec_as_int() is Some,
        None => true,
    }
    &&& match v.spec_get("sslmode"@) {
        Some(m) => m.spec_as_str() is Some,
        None => true,
    }
}

/// The port that table `v` asks for.
pub open spec fn spec_table_port(v: Value) -> u16 {
    match v.spec_get("port"@) {
        Some(pv) => match pv.spec_as_int() {
            Some(p) => spec_wrap_u16(p),
            None => PG_DEFAULT_PORT,
        },
        None => PG_DEFAULT_PORT,
    }
}

/// The timeout that table `v` asks for.
pub open spec fn spec_table_timeout(v: Value) -> u16 {
    match v.spec_get("timeout"@) {
        Some(tv) => match tv.spec_as_int() {
            Some(t) => spec_wrap_u16(t),
            None => DEFAULT_CONNECT_TIMEOUT,
        },
        None => DEFAULT_CONNECT_TIMEOUT,
    }
}

/// The SSL mode that table `v` asks for.
pub open spec fn spec_table_sslmode(v: Value) -> Option<Seq<char>> {
    match v.spec_get("sslmode"@) {
        Some(mv) => mv.spec_as_str(),
        None => None,
    }
}

/// The descriptor that the explicit-field shape of table `v` describes.
pub open spec fn spec_table_connection(v: Value, id: u8, c: Connection) -> bool {
    &&& c.id == id
    &&& Some(c.username@) == v.spec_get_str("username"@)
    &&& Some(c.password@) == v.spec_get_str("password"@)
    &&& Some(c.host@) == v.spec_get_str("host"@)
    &&& c.port == spec_table_port(v)
    &&& Some(c.database@) == v.spec_get_str("database"@)
    &&& opt_str_view(c.sslmode) == spec_table_sslmode(v)
    &&& c.cert is None
    &&& c.timeout == spec_table_timeout(v)
    &&& c.active == false
}

/// The condition under which one table of the configuration document
/// yields the descriptor `c`.
pub open spec fn spec_value_connection(v: Value, id: u8, c: Connection) -> bool {
    match v.spec_get("url"@) {
        Some(uv) => uv.spec_as_str() matches Some(us) && spec_url_connection(us, id, c),
        None => spec_table_ok(v) && spec_table_connection(v, id, c),
    }
}

/// The condition under which one table of the configuration document is
/// rejected.
pub open spec fn spec_value_connection_err(v: Value) -> bool {
    match v.spec_get("url"@) {
        Some(uv) => match uv.spec_as_str() {
            Some(us) => !(url_ok(us) && url_host(us) is Some),
            None => true,
        },
        None => !spec_table_ok(v),
    }
}

impl Clone for Connection {
    /// Copies the descriptor, field by field.
    fn clone(&self) -> (r: Self)
        ensures
            r == *self,
    {
        Connection {
            id: self.id,
            username: self.username.clone(),
            password: self.password.clone(),
            host: self.host.clone(),
            port: self.port,
            database: self.database.clone(),
            sslmode: match &self.sslmode {
                Some(m) => Some(m.clone()),
                None => None,
            },
            cert: match &self.cert {
                Some(c) => Some(c.clone()),
                None => None,
            },
            timeout: self.timeout,
            active: self.active,
        }
    }
}

impl Connection {
    /// The characters of this descriptor's connection string.
    pub open spec fn spec_url(self) -> Seq<char> {
        "postgres://"@ + self.username@ + ":"@ + self.password@ + "@"@ + self.host@ + ":"@
            + spec_decimal(self.port as nat) + "/"@ + self.database@ + "?connect_timeout="@
            + spec_decimal(self.timeout as nat) + match self.sslmode {
            Some(m) => "&sslmode="@ + m@,
            None => Seq::<char>::empty(),
        }
    }

    /// Writes this descriptor as a `postgres://` connection string.
    pub fn url(&self) -> (r: String)
        ensures
            r@ == self.spec_url(),
    {
        let mut url = String::from_str("postgres://");
        url.append(self.username.as_str());
        url.append(":");
        url.append(self.password.as_str());
        url.append("@");
        url.append(self.host.as_str());
        url.append(":");
        push_decimal(&mut url, self.port);
        url.append("/");
        url.append(self.database.as_str());
        url.append("?connect_timeout=");
        push_decimal(&mut url, self.timeout);
        match &self.sslmode {
            Some(m) => {
                url.append("&sslmode=");
                url.append(m.as_str());
                proof {
                    assert(url@ =~= self.spec_url());
                }
            },
            None => {
                proof {
                    assert(url@ =~= self.spec_url());
                }
            },
        }
        url
    }

    /// Marks this descriptor as connected.
    pub fn connect(&mut self) -> (r: Result<(), Error>)
        ensures
            r is Ok,
            *final(self) == (Connection { active: true, ..*old(self) }),
    {
        self.active = true;
        Ok(())
    }

    /// Builds a descriptor out of the components of a parsed URL.
    ///
    /// A URL without a host is rejected.  A missing password is read as
    /// empty, a missing port as [`PG_DEFAULT_PORT`]; the database name is
    /// the path with its leading slashes removed, and the SSL mode is
    /// taken from the first `sslmode` query pair.
    pub fn from_url_parts(parts: UrlParts, id: u8) -> (r: Result<Connection, Error>)
        ensures
            match r {
                Ok(c) => {
                    &&& parts.host is Some
                    &&& c.id == id
                    &&& c.username@ == parts.username@
                    &&& c.password@ == match opt_str_view(parts.password) {
                        Some(p) => p,
                        None => Seq::<char>::empty(),
                    }
                    &&& Some(c.host@) == opt_str_view(parts.host)
                    &&& c.port == match parts.port {
                        Some(p) => p,
                        None => PG_DEFAULT_PORT,
                    }
                    &&& c.database@ == spec_trim_slashes(parts.path@)
                    &&& opt_str_view(c.sslmode) == spec_find_query(
                        pairs_view(parts.query_pairs@),
                        "sslmode"@,
                    )
                    &&& c.cert is None
                    &&& c.timeout == DEFAULT_CONNECT_TIMEOUT
                    &&& c.active == false
                },
                Err(e) => e == Error::ParseError && parts.host is None,
            },
    {
        let sslmode = find_query_value(&parts.query_pairs, "sslmode");
        let database = trim_leading_slashes(parts.path.as_str());
        let host = match parts.host {
            Some(h) => h,
            None => {
                return Err(Error::ParseError);
            },
        };
        let password = match parts.password {
            Some(p) => p,
            None => String::new(),
        };
        let port = match parts.port {
            Some(p) => p,
            None => PG_DEFAULT_PORT,
        };
        Ok(Connection {
            id,
            username: parts.username,
            password,
            host,
            port,
            database,
            sslmode,
            cert: None,
            timeout: DEFAULT_CONNECT_TIMEOUT,
            active: false,
        })
    }

    /// Reads a descriptor out of a URL.
    pub fn from_url(s: &str, id: u8) -> (r: Result<Connection, Error>)
        ensures
            match r {
                Ok(c) => spec_url_connection(s@, id, c),
                Err(e) => {
                    &&& e == Error::ParseError
                    &&& !(url_ok(s@) && url_host(s@) is Some)
                },
            },
    {
        match parse_url(s) {
            Some(parts) => Connection::from_url_parts(parts, id),
            None => Err(Error::ParseError),
        }
    }

    /// Reads a descriptor out of one table of the configuration document.
    ///
    /// A table with a `url` entry is read as a URL; any other table must
    /// carry the explicit fields.
    pub fn from_value(v: &Value, id: u8) -> (r: Result<Connection, Error>)
        ensures
            match r {
                Ok(c) => spec_value_connection(*v, id, c),
                Err(e) => e == Error::ParseError && spec_value_connection_err(*v),
            },
    {
        match v.get("url") {
            Some(uval) => match uval.as_str() {
                Some(u) => Connection::from_url(u, id),
                None => Err(Error::ParseError),
            },
            None => {
                let username = match v.get_str("username") {
                    Some(s) => s,
                    None => {
                        return Err(Error::ParseError);
                    },
                };
                let password = match v.get_str("password") {
                    Some(s) => s,
                    None => {
                        return Err(Error::ParseError);
                    },
                };
                let host = match v.get_str("host") {
                    Some(s) => s,
                    None => {
                        return Err(Error::ParseError);
                    },
                };
                let port: u16 = match v.get("port") {
                    Some(pv) => match pv.as_integer() {
                        Some(p) => wrap_u16(p),
                        None => PG_DEFAULT_PORT,
                    },
                    None => {
                        return Err(Error::ParseError);
                    },
                };
                let database = match v.get_str("database") {
                    Some(s) => s,
                    None => {
                        return Err(Error::ParseError);
                    },
                };
                let timeout: u16 = match v.get("timeout") {
                    Some(tv) => match tv.as_integer() {
                        Some(t) => wrap_u16(t),
                        None => {
                            return Err(Error::ParseError);
                        },
                    },
                    None => DEFAULT_CONNECT_TIMEOUT,
                };
                let sslmode: Option<String> = match v.get("sslmode") {
                    Some(mv) => match mv.as_str() {
                        Some(m) => Some(m.to_owned()),
                        None => {
                            return Err(Error::ParseError);
                        },
                    },
                    None => None,
                };
                Ok(Connection {
                    id,
                    username,
                    password,
                    host,
                    port,
                    database,
                    sslmode,
                    cert: None,
                    timeout,
                    active: false,
                })
            },
        }
    }
}

} // verus!
