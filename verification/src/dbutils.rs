//! Assembly of a PostgreSQL connection string from its parsed parts.
//!
//! Parsing a server URL and running queries against it happen outside this
//! crate; this is the pure construction of the connection string for a newly
//! created database, with a fixed time zone for consistency.

use vstd::prelude::*;

verus! {

/// The connection string for the named database: scheme, user, optional
/// password, host, database name, and a UTC time-zone option.
pub open spec fn spec_connection_string(
    username: Seq<char>,
    password: Option<Seq<char>>,
    host: Seq<char>,
    dbname: Seq<char>,
) -> Seq<char> {
    "postgresql://"@ + username + (match password {
        Option::Some(p) => ":"@ + p,
        Option::None => Seq::<char>::empty(),
    }) + "@"@ + host + "/"@ + dbname + "?options=-c%20TimeZone%3DUTC%2B00"@
}

/// Builds the connection string for the named database.
pub fn connection_string(
    username: &str,
    password: Option<&str>,
    host: &str,
    dbname: &str,
) -> (r: String)
    ensures
        r@ == spec_connection_string(
            username@,
            match password {
                Option::Some(p) => Option::Some(p@),
                Option::None => Option::None,
            },
            host@,
            dbname@,
        ),
{
    let mut r = String::new();
    r.append("postgresql://");
    r.append(username);
    match password {
        Option::Some(p) => {
            r.append(":");
            r.append(p);
        },
        Option::None => {},
    }
    r.append("@");
    r.append(host);
    r.append("/");
    r.append(dbname);
    r.append("?options=-c%20TimeZone%3DUTC%2B00");
    proof {
        assert(r@ =~= spec_connection_string(
            username@,
            match password {
                Option::Some(p) => Option::Some(p@),
                Option::None => Option::None,
            },
            host@,
            dbname@,
        ));
    }
    r
}

} // verus!
