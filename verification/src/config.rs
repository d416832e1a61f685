//! Boot-time configuration: the database location, the port the API server
//! binds, and the log filter, each with its default. The environment is
//! read outside; the defaulting and the port validation are here.

use vstd::prelude::*;

use crate::errors::AppError;
use vstd::string::{StringExecFns, StringSliceAdditionalSpecFns};

verus! {

/// The resolved configuration.
#[derive(Debug)]
pub struct Config {
    /// Where the store lives; defaults to an embedded local database file.
    pub db_url: String,
    /// The port the API server binds; must parse as a 16-bit number.
    pub server_port: u16,
    /// The log filter; defaults to `info`.
    pub rust_log: String,
}

/// An ASCII decimal digit.
pub open spec fn is_digit(b: u8) -> bool {
    48 <= b <= 57
}

/// Every byte is a decimal digit.
pub open spec fn all_digits(s: Seq<u8>) -> bool {
    forall|i: int| 0 <= i < s.len() ==> is_digit(#[trigger] s[i])
}

/// The number the digit string denotes, most significant digit first.
pub open spec fn digits_val(s: Seq<u8>) -> int
    decreases s.len(),
{
    if s.len() == 0 {
        0
    } else {
        digits_val(s.drop_last()) * 10 + s.last() - 48
    }
}

/// The text after the optional leading plus sign.
pub open spec fn digits_part(s: Seq<u8>) -> Seq<u8> {
    if s.len() >= 1 && s[0] == 43 {
        s.drop_first()
    } else {
        s
    }
}

/// How a 16-bit number is read from text: an optional leading plus sign,
/// then at least one decimal digit, denoting a value of at most 65535.
pub open spec fn spec_parse_u16(s: Seq<u8>) -> Option<u16> {
    let d = digits_part(s);
    if d.len() >= 1 && all_digits(d) && digits_val(d) <= 65535 {
        Some(digits_val(d) as u16)
    } else {
        None
    }
}

proof fn lemma_digits_val_nonneg(s: Seq<u8>)
    requires
        all_digits(s),
    ensures
        digits_val(s) >= 0,
    decreases s.len(),
{
    if s.len() > 0 {
        assert(all_digits(s.drop_last()));
        lemma_digits_val_nonneg(s.drop_last());
    }
}

/// Reading further digits never shrinks the denoted value.
proof fn lemma_digits_val_prefix(s: Seq<u8>, m: int)
    requires
        all_digits(s),
        0 <= m <= s.len(),
    ensures
        digits_val(s.take(m)) <= digits_val(s),
    decreases s.len() - m,
{
    if m == s.len() {
        assert(s.take(m) =~= s);
    } else {
        lemma_digits_val_prefix(s, m + 1);
        assert(s.take(m + 1).drop_last() =~= s.take(m));
        assert(all_digits(s.take(m)));
        lemma_digits_val_nonneg(s.take(m));
        assert(digits_val(s.take(m + 1)) == digits_val(s.take(m)) * 10 + s[m] - 48);
    }
}

/// Reads a 16-bit number the way the standard decimal parse does: an
/// optional leading plus sign, then decimal digits; anything else, or a
/// value over 65535, is rejected.
pub fn parse_u16(s: &str) -> (r: Option<u16>)
    ensures
        r == spec_parse_u16(s.spec_bytes()),
{
    let bytes = s.as_bytes();
    let n = bytes.len();
    // 43 is '+'
    let start: usize = if n >= 1 && bytes[0] == 43 {
        1
    } else {
        0
    };
    let ghost d = bytes@.skip(start as int);
    proof {
        assert(d =~= digits_part(bytes@));
    }
    if start >= n {
        // empty, or a bare sign
        return None;
    }
    let mut acc: u32 = 0;
    let mut i: usize = start;
    while i < n
        invariant
            start <= i <= n,
            n == bytes@.len(),
            n >= start + 1,
            bytes@ == s.spec_bytes(),
            d == bytes@.skip(start as int),
            d == digits_part(bytes@),
            all_digits(d.take(i - start)),
            acc == digits_val(d.take(i - start)),
            acc <= 65535,
        decreases n - i,
    {
        let b = bytes[i];
        // digits are 48 ('0') through 57 ('9')
        if b < 48 || b > 57 {
            proof {
                assert(d[i - start] == b);
                assert(!all_digits(d));
            }
            return None;
        }
        proof {
            assert(d.take(i - start + 1).drop_last() =~= d.take(i - start));
            assert(d.take(i - start + 1).last() == d[i - start]);
            assert(d[i - start] == b);
        }
        acc = acc * 10 + ((b - 48) as u32);
        i = i + 1;
        proof {
            assert(acc == digits_val(d.take(i - start)));
        }
        if acc > 65535 {
            proof {
                if all_digits(d) {
                    lemma_digits_val_prefix(d, i - start);
                }
            }
            return None;
        }
    }
    proof {
        assert(d.take(n - start) =~= d);
        assert(acc == digits_val(d));
    }
    Some(acc as u16)
}

impl Config {
    /// Resolves the configuration from the raw environment values, applying
    /// the defaults. Fails — fatally, before the process serves — exactly
    /// when a given port does not read as a 16-bit number.
    pub fn resolve(
        db_url: Option<String>,
        server_port: Option<String>,
        rust_log: Option<String>,
    ) -> (r: Result<Config, AppError>)
        ensures
            r is Ok <==> (server_port matches Some(p) ==> spec_parse_u16(
                vstd::utf8::encode_utf8(p@),
            ) is Some),
            r matches Ok(c) ==> {
                &&& (db_url matches Some(u) ==> c.db_url == u)
                &&& (db_url is None ==> c.db_url@ == "sqlite:./scheduler.db"@)
                &&& (server_port matches Some(p) ==> Some(c.server_port) == spec_parse_u16(
                    vstd::utf8::encode_utf8(p@),
                ))
                &&& (server_port is None ==> c.server_port == 8080)
                &&& (rust_log matches Some(l) ==> c.rust_log == l)
                &&& (rust_log is None ==> c.rust_log@ == "info"@)
            },
            r matches Err(e) ==> (e matches AppError::Config(m) && server_port matches Some(p) && m@
                == "SERVER_PORT '"@ + p@ + "' is not a valid port number"@),
    {
        let port: u16 = match server_port {
            Some(p) => match parse_u16(p.as_str()) {
                Some(v) => v,
                None => {
                    let msg = "SERVER_PORT '".to_owned().concat(p.as_str()).concat(
                        "' is not a valid port number",
                    );
                    return Err(AppError::Config(msg));
                },
            },
            None => 8080,
        };
        let db_url = match db_url {
            Some(u) => u,
            None => "sqlite:./scheduler.db".to_owned(),
        };
        let rust_log = match rust_log {
            Some(l) => l,
            None => "info".to_owned(),
        };
        Ok(Config { db_url, server_port: port, rust_log })
    }
}

} // verus!
