//! The process configuration: one immutable value built at startup from the
//! environment's entries, holding the HTTP listen port and the remote host's
//! coordinates, credentials and base directory.

use vstd::prelude::*;
use vstd::string::StrSliceExecFns;

verus! {

/// Coordinates, credentials and base directory of the remote host.
pub struct SftpServerConfig {
    pub host: String,
    pub port: u16,
    pub username: String,
    pub password: String,
    pub path: String,
}

/// The whole process configuration: the HTTP listen port and the remote
/// host's settings. Built once at startup and never mutated.
pub struct AppConfig {
    pub port: u16,
    pub sftp: SftpServerConfig,
}

/// `c` is a decimal digit.
pub open spec fn is_ascii_digit(c: char) -> bool {
    48 <= c as u32 && c as u32 <= 57
}

/// Every character of `s` is a decimal digit.
pub open spec fn all_digits(s: Seq<char>) -> bool {
    forall|i: int| 0 <= i < s.len() ==> is_ascii_digit(s[i])
}

/// The numeric value of `s` read as a decimal numeral.
pub open spec fn digits_val(s: Seq<char>) -> int
    decreases s.len(),
{
    if s.len() == 0 {
        0
    } else {
        digits_val(s.drop_last()) * 10 + (s.last() as u32 - 48)
    }
}

/// A string of digits has a nonnegative value.
proof fn lemma_digits_val_nonneg(s: Seq<char>)
    requires
        all_digits(s),
    ensures
        digits_val(s) >= 0,
    decreases s.len(),
{
    if s.len() > 0 {
        assert(all_digits(s.drop_last()));
        lemma_digits_val_nonneg(s.drop_last());
    }
}

/// Reading more digits never shrinks the value: a prefix of a digit string
/// is worth no more than the whole.
proof fn lemma_digits_val_prefix(s: Seq<char>, k: int)
    requires
        all_digits(s),
        0 <= k <= s.len(),
    ensures
        digits_val(s.take(k)) <= digits_val(s),
    decreases s.len() - k,
{
    if k < s.len() {
        lemma_digits_val_prefix(s, k + 1);
        let t = s.take(k + 1);
        assert(t.drop_last() =~= s.take(k));
        assert(all_digits(s.take(k)));
        lemma_digits_val_nonneg(s.take(k));
        assert(digits_val(t) == digits_val(s.take(k)) * 10 + (t.last() as u32 - 48));
        assert(is_ascii_digit(s[k]));
    } else {
        assert(s.take(k) =~= s);
    }
}

/// `s` is a well-formed port numeral: nonempty, digits only, at most 65535.
pub open spec fn valid_port(s: Seq<char>) -> bool {
    s.len() > 0 && all_digits(s) && digits_val(s) <= 65535
}

/// Parse a decimal port number as the configuration layer reads it from an
/// environment entry: digits only, and the value must fit a `u16`.
pub fn parse_port(s: &str) -> (r: Option<u16>)
    ensures
        r is Some <==> valid_port(s@),
        r matches Some(v) ==> v == digits_val(s@),
{
    let n: usize = s.unicode_len();
    if n == 0 {
        return None;
    }
    let mut acc: u32 = 0;
    let mut i: usize = 0;
    while i < n
        invariant
            n == s@.len(),
            i <= n,
            acc <= 65535,
            all_digits(s@.take(i as int)),
            acc == digits_val(s@.take(i as int)),
        decreases n - i,
    {
        let cv: u32 = s.get_char(i) as u32;
        if cv < 48 || cv > 57 {
            assert(!is_ascii_digit(s@[i as int]));
            return None;
        }
        proof {
            assert(s@.take(i + 1).drop_last() =~= s@.take(i as int));
            assert(s@.take(i + 1).last() == s@[i as int]);
        }
        acc = acc * 10 + (cv - 48);
        if acc > 65535 {
            proof {
                if all_digits(s@) {
                    lemma_digits_val_prefix(s@, i + 1);
                }
            }
            return None;
        }
        i = i + 1;
    }
    proof {
        assert(s@.take(n as int) =~= s@);
    }
    Some(acc as u16)
}

/// Character-for-character string equality.
pub fn str_eq(a: &str, b: &str) -> (r: bool)
    ensures
        r == (a@ == b@),
{
    let an: usize = a.unicode_len();
    let bn: usize = b.unicode_len();
    if an != bn {
        return false;
    }
    let mut i: usize = 0;
    while i < an
        invariant
            an == a@.len(),
            an == b@.len(),
            i <= an,
            forall|k: int| 0 <= k < i ==> a@[k] == b@[k],
        decreases an - i,
    {
        if a.get_char(i) != b.get_char(i) {
            return false;
        }
        i = i + 1;
    }
    proof {
        assert(a@ =~= b@);
    }
    true
}

/// The value of the first entry of `entries` whose key is `key`.
pub open spec fn spec_lookup(entries: Seq<(String, String)>, key: Seq<char>) -> Option<Seq<char>>
    decreases entries.len(),
{
    if entries.len() == 0 {
        None
    } else if entries[0].0@ == key {
        Some(entries[0].1@)
    } else {
        spec_lookup(entries.drop_first(), key)
    }
}

/// Find the value of the first entry whose key equals `key`.
pub fn lookup(entries: &Vec<(String, String)>, key: &str) -> (r: Option<String>)
    ensures
        r is Some <==> spec_lookup(entries@, key@) is Some,
        r matches Some(v) ==> spec_lookup(entries@, key@) == Some(v@),
{
    let n: usize = entries.len();
    let mut i: usize = 0;
    proof {
        assert(entries@.skip(0) =~= entries@);
    }
    while i < n
        invariant
            n == entries@.len(),
            i <= n,
            spec_lookup(entries@, key@) == spec_lookup(entries@.skip(i as int), key@),
        decreases n - i,
    {
        proof {
            assert(entries@.skip(i as int)[0] == entries@[i as int]);
            assert(entries@.skip(i as int).drop_first() =~= entries@.skip(i + 1));
        }
        if str_eq(entries[i].0.as_str(), key) {
            return Some(entries[i].1.clone());
        }
        i = i + 1;
    }
    proof {
        assert(entries@.skip(n as int) =~= Seq::<(String, String)>::empty());
    }
    None
}

/// The environment entries carry everything the configuration needs: the
/// listen port, and the remote host's coordinates, credentials and base
/// directory, under these fixed lowercase keys.
pub open spec fn config_entries_complete(entries: Seq<(String, String)>) -> bool {
    &&& spec_lookup(entries, "port"@) matches Some(p) && valid_port(p)
    &&& spec_lookup(entries, "sftp_host"@) is Some
    &&& spec_lookup(entries, "sftp_port"@) matches Some(p) && valid_port(p)
    &&& spec_lookup(entries, "sftp_username"@) is Some
    &&& spec_lookup(entries, "sftp_password"@) is Some
    &&& spec_lookup(entries, "sftp_path"@) is Some
}

/// Build the process configuration from the environment's entries, keys
/// already lowercased. Nothing is read here: the caller hands the
/// environment in as plain values. Returns `None` exactly when a required
/// entry is missing or a port entry is not a well-formed port numeral.
pub fn get_app_config(entries: &Vec<(String, String)>) -> (r: Option<AppConfig>)
    ensures
        r is Some <==> config_entries_complete(entries@),
        r matches Some(c) ==> {
            &&& spec_lookup(entries@, "port"@) matches Some(p) && c.port == digits_val(p)
            &&& spec_lookup(entries@, "sftp_host"@) == Some(c.sftp.host@)
            &&& spec_lookup(entries@, "sftp_port"@) matches Some(p) && c.sftp.port == digits_val(p)
            &&& spec_lookup(entries@, "sftp_username"@) == Some(c.sftp.username@)
            &&& spec_lookup(entries@, "sftp_password"@) == Some(c.sftp.password@)
            &&& spec_lookup(entries@, "sftp_path"@) == Some(c.sftp.path@)
        },
{
    let port_s = match lookup(entries, "port") {
        Some(v) => v,
        None => {
            return None;
        },
    };
    let port = match parse_port(port_s.as_str()) {
        Some(v) => v,
        None => {
            return None;
        },
    };
    let host = match lookup(entries, "sftp_host") {
        Some(v) => v,
        None => {
            return None;
        },
    };
    let sftp_port_s = match lookup(entries, "sftp_port") {
        Some(v) => v,
        None => {
            return None;
        },
    };
    let sftp_port = match parse_port(sftp_port_s.as_str()) {
        Some(v) => v,
        None => {
            return None;
        },
    };
    let username = match lookup(entries, "sftp_username") {
        Some(v) => v,
        None => {
            return None;
        },
    };
    let password = match lookup(entries, "sftp_password") {
        Some(v) => v,
        None => {
            return None;
        },
    };
    let path = match lookup(entries, "sftp_path") {
        Some(v) => v,
        None => {
            return None;
        },
    };
    Some(
        AppConfig {
            port,
            sftp: SftpServerConfig { host, port: sftp_port, username, password, path },
        },
    )
}

} // verus!
