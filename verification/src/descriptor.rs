//! The connection descriptor and its structured form.
//!
//! A descriptor is a string of `key=value` entries separated by `;`:
//! `server=tcp:<host>,<port>`, `encrypt=<bool>`,
//! `TrustServerCertificate=<bool>`, `user=<id>`, `password=<secret>`.
//! The grammar is stated by the spec functions below; `parse_descriptor`
//! is proved to return exactly the configuration the grammar assigns, or
//! an `InvalidDescriptor` error when the grammar assigns none.
//!
//! The rules, precisely: entries are applied left to right, a later entry
//! overriding an earlier one; an empty entry is skipped (so a trailing
//! `;` is harmless); every non-empty entry must contain `=` and carry one
//! of the five keys above, spelled exactly so; the `server` value must be
//! `tcp:` followed by a non-empty host, a comma and a port of one to five
//! decimal digits not exceeding 65535; a boolean value must be `true` or
//! `false`; a `server` entry is required; `user` and `password` default
//! to empty and the two flags to `false`.

use vstd::prelude::*;
use vstd::string::{StrSliceExecFns, StringExecFns};
use crate::errors::ConnectError;

verus! {

/// The structured form of a descriptor, at the specification level.
pub ghost struct ConfigView {
    pub host: Seq<char>,
    pub port: u16,
    pub user: Seq<char>,
    pub password: Seq<char>,
    pub encrypt: bool,
    pub trust_server_certificate: bool,
}

/// The configuration before any entry is applied: no host yet, the
/// protocol's conventional port, empty credentials, both flags off.
pub open spec fn default_config() -> ConfigView {
    ConfigView {
        host: Seq::<char>::empty(),
        port: 1433,
        user: Seq::<char>::empty(),
        password: Seq::<char>::empty(),
        encrypt: false,
        trust_server_certificate: false,
    }
}

/// The position of the first occurrence of `c` in `s` at or after `i`.
pub open spec fn find_from(s: Seq<char>, i: int, c: char) -> Option<int>
    decreases s.len() - i,
{
    if i < 0 || i >= s.len() {
        None
    } else if s[i] == c {
        Some(i)
    } else {
        find_from(s, i + 1, c)
    }
}

/// What `find_from` returns: the index it yields holds `c` and nothing
/// before it does; `None` means no occurrence at all.
pub proof fn lemma_find_from(s: Seq<char>, i: int, c: char)
    requires
        0 <= i <= s.len(),
    ensures
        match find_from(s, i, c) {
            Some(j) => i <= j < s.len() && s[j] == c && (forall|m: int|
                i <= m < j ==> s[m] != c),
            None => forall|m: int| i <= m < s.len() ==> s[m] != c,
        },
    decreases s.len() - i,
{
    if i < s.len() && s[i] != c {
        lemma_find_from(s, i + 1, c);
    }
}

/// `find_from` finds `j` exactly when `j` is the first occurrence.
pub proof fn lemma_find_from_unique(s: Seq<char>, c: char, j: int)
    requires
        0 <= j < s.len(),
        s[j] == c,
        forall|m: int| 0 <= m < j ==> s[m] != c,
    ensures
        find_from(s, 0, c) == Some(j),
{
    lemma_find_from(s, 0, c);
    match find_from(s, 0, c) {
        None => {
            assert(s[j] != c);
        },
        Some(j2) => {
            if j2 < j {
                assert(s[j2] != c);
            }
            if j < j2 {
                assert(s[j] != c);
            }
        },
    }
}

/// A decimal digit.
pub open spec fn is_digit(c: char) -> bool {
    48 <= c as int && c as int <= 57
}

/// Every character of `s` is a decimal digit.
pub open spec fn all_digits(s: Seq<char>) -> bool {
    forall|i: int| 0 <= i < s.len() ==> is_digit(#[trigger] s[i])
}

/// The number a digit string denotes, most significant digit first.
pub open spec fn dec_value(s: Seq<char>) -> int
    decreases s.len(),
{
    if s.len() == 0 {
        0
    } else {
        dec_value(s.drop_last()) * 10 + (s.last() as int - 48)
    }
}

/// Ten to the `n`.
pub open spec fn pow10(n: nat) -> int
    decreases n,
{
    if n == 0 {
        1
    } else {
        10 * pow10((n - 1) as nat)
    }
}

/// A digit string of length `n` denotes a number in `[0, 10^n)`.
pub proof fn lemma_dec_value_bounds(s: Seq<char>)
    requires
        all_digits(s),
    ensures
        0 <= dec_value(s) < pow10(s.len()),
    decreases s.len(),
{
    if s.len() > 0 {
        assert forall|i: int| 0 <= i < s.drop_last().len() implies is_digit(
            #[trigger] s.drop_last()[i],
        ) by {
            assert(s.drop_last()[i] == s[i]);
        }
        lemma_dec_value_bounds(s.drop_last());
        assert(is_digit(s.last()));
    }
}

/// The port grammar: one to five decimal digits denoting at most 65535.
pub open spec fn spec_parse_port(s: Seq<char>) -> Option<u16> {
    if 1 <= s.len() <= 5 && all_digits(s) && dec_value(s) <= 65535 {
        Some(dec_value(s) as u16)
    } else {
        None
    }
}

/// The boolean grammar: exactly `true` or `false`.
pub open spec fn spec_parse_bool(s: Seq<char>) -> Option<bool> {
    if s == "true"@ {
        Some(true)
    } else if s == "false"@ {
        Some(false)
    } else {
        None
    }
}

/// The `server` value grammar: `tcp:`, a non-empty host (anything up to
/// the first comma), a comma, and a port.
pub open spec fn spec_parse_server(v: Seq<char>) -> Option<(Seq<char>, u16)> {
    if v.len() < 4 || v.subrange(0, 4) != "tcp:"@ {
        None
    } else {
        let rest = v.subrange(4, v.len() as int);
        match find_from(rest, 0, ',') {
            None => None,
            Some(k) => {
                let host = rest.subrange(0, k);
                let digits = rest.subrange(k + 1, rest.len() as int);
                if host.len() == 0 {
                    None
                } else {
                    match spec_parse_port(digits) {
                        None => None,
                        Some(p) => Some((host, p)),
                    }
                }
            },
        }
    }
}

/// Apply one entry to the configuration built so far.  `seen` records
/// whether a `server` entry has been applied yet.  An empty entry changes
/// nothing; any entry outside the grammar yields `None`.
pub open spec fn spec_apply_entry(e: Seq<char>, acc: ConfigView, seen: bool) -> Option<
    (ConfigView, bool),
> {
    if e.len() == 0 {
        Some((acc, seen))
    } else {
        match find_from(e, 0, '=') {
            None => None,
            Some(k) => {
                let key = e.subrange(0, k);
                let val = e.subrange(k + 1, e.len() as int);
                if key == "server"@ {
                    match spec_parse_server(val) {
                        None => None,
                        Some(hp) => Some(
                            (ConfigView { host: hp.0, port: hp.1, ..acc }, true),
                        ),
                    }
                } else if key == "encrypt"@ {
                    match spec_parse_bool(val) {
                        None => None,
                        Some(b) => Some((ConfigView { encrypt: b, ..acc }, seen)),
                    }
                } else if key == "TrustServerCertificate"@ {
                    match spec_parse_bool(val) {
                        None => None,
                        Some(b) => Some(
                            (ConfigView { trust_server_certificate: b, ..acc }, seen),
                        ),
                    }
                } else if key == "user"@ {
                    Some((ConfigView { user: val, ..acc }, seen))
                } else if key == "password"@ {
                    Some((ConfigView { password: val, ..acc }, seen))
                } else {
                    None
                }
            },
        }
    }
}

/// Split `s` on `;` and apply each entry in order.  `cur` is the entry
/// accumulated so far, `acc` and `seen` the state before it.
pub open spec fn spec_parse_entries(
    s: Seq<char>,
    cur: Seq<char>,
    acc: ConfigView,
    seen: bool,
) -> Option<(ConfigView, bool)>
    decreases s.len(),
{
    if s.len() == 0 {
        spec_apply_entry(cur, acc, seen)
    } else if s[0] == ';' {
        match spec_apply_entry(cur, acc, seen) {
            None => None,
            Some(p) => spec_parse_entries(s.drop_first(), Seq::<char>::empty(), p.0, p.1),
        }
    } else {
        spec_parse_entries(s.drop_first(), cur.push(s[0]), acc, seen)
    }
}

/// The descriptor grammar: every entry well-formed, and a `server` entry
/// present.
pub open spec fn parse_descriptor_spec(s: Seq<char>) -> Option<ConfigView> {
    match spec_parse_entries(s, Seq::<char>::empty(), default_config(), false) {
        None => None,
        Some(p) => if p.1 {
            Some(p.0)
        } else {
            None
        },
    }
}

/// The structured form of a descriptor: what `connect` derives from the
/// descriptor string and the driver needs to reach and log into the
/// server.
#[derive(Debug, Clone)]
pub struct ConnectionConfig {
    /// The host to dial.
    pub host: String,
    /// The TCP port to dial.
    pub port: u16,
    /// The login name.
    pub user: String,
    /// The login secret.  Never placed in an error message.
    pub password: String,
    /// Whether to negotiate TLS for the session.
    pub encrypt: bool,
    /// Whether to accept the server's certificate without verification.
    pub trust_server_certificate: bool,
}

impl View for ConnectionConfig {
    type V = ConfigView;

    open spec fn view(&self) -> ConfigView {
        ConfigView {
            host: self.host@,
            port: self.port,
            user: self.user@,
            password: self.password@,
            encrypt: self.encrypt,
            trust_server_certificate: self.trust_server_certificate,
        }
    }
}

/// The first occurrence of `c` within `[start, end)` of `s`.
fn find_char_range(s: &str, start: usize, end: usize, c: char) -> (r: Option<usize>)
    requires
        start <= end <= s@.len(),
    ensures
        match r {
            Some(j) => start <= j < end && s@[j as int] == c && (forall|m: int|
                start <= m < j ==> s@[m] != c),
            None => forall|m: int| start <= m < end ==> s@[m] != c,
        },
{
    let mut j: usize = start;
    while j < end
        invariant
            start <= j <= end <= s@.len(),
            forall|m: int| start <= m < j ==> s@[m] != c,
        decreases end - j,
    {
        if s.get_char(j) == c {
            return Some(j);
        }
        j = j + 1;
    }
    None
}

/// Whether `[start, end)` of `s` spells exactly `lit`.
fn range_matches(s: &str, start: usize, end: usize, lit: &str) -> (r: bool)
    requires
        start <= end <= s@.len(),
    ensures
        r <==> s@.subrange(start as int, end as int) == lit@,
{
    let n: usize = lit.unicode_len();
    if end - start != n {
        proof {
            assert(s@.subrange(start as int, end as int).len() == end - start);
        }
        return false;
    }
    let mut j: usize = 0;
    while j < n
        invariant
            0 <= j <= n,
            end - start == n,
            end <= s@.len(),
            lit@.len() == n,
            forall|m: int| 0 <= m < j ==> s@[start + m] == lit@[m],
        decreases n - j,
    {
        if s.get_char(start + j) != lit.get_char(j) {
            proof {
                assert(s@.subrange(start as int, end as int)[j as int] == s@[start + j]);
            }
            return false;
        }
        j = j + 1;
    }
    proof {
        assert(s@.subrange(start as int, end as int) =~= lit@);
    }
    true
}

/// Parse `[start, end)` of `s` as a port.
fn parse_port_range(s: &str, start: usize, end: usize) -> (r: Option<u16>)
    requires
        start <= end <= s@.len(),
    ensures
        r == spec_parse_port(s@.subrange(start as int, end as int)),
{
    let ghost d = s@.subrange(start as int, end as int);
    let len: usize = end - start;
    if len < 1 || len > 5 {
        return None;
    }
    let mut j: usize = 0;
    let mut acc: u32 = 0;
    while j < len
        invariant
            0 <= j <= len,
            1 <= len <= 5,
            end - start == len,
            end <= s@.len(),
            d == s@.subrange(start as int, end as int),
            d.len() == len,
            forall|m: int| 0 <= m < j ==> is_digit(#[trigger] d[m]),
            acc == dec_value(d.subrange(0, j as int)),
            0 <= acc < pow10(j as nat),
        decreases len - j,
    {
        let c = s.get_char(start + j);
        proof {
            assert(d[j as int] == s@[start + j]);
        }
        let u = c as u32;
        if u < 48 || u > 57 {
            proof {
                assert(!is_digit(d[j as int]));
                assert(!all_digits(d));
            }
            return None;
        }
        proof {
            assert(pow10(0) == 1 && pow10(1) == 10 && pow10(2) == 100 && pow10(3) == 1000
                && pow10(4) == 10000) by {
                reveal_with_fuel(pow10, 5);
            }
            assert(acc <= 9999);
        }
        acc = acc * 10 + (u - 48);
        proof {
            let pre = d.subrange(0, j as int);
            let post = d.subrange(0, j as int + 1);
            assert(post.drop_last() =~= pre);
            assert(post.last() == d[j as int]);
            assert(is_digit(d[j as int]));
            assert(acc == dec_value(post));
        }
        j = j + 1;
    }
    proof {
        assert(d.subrange(0, len as int) =~= d);
        assert(all_digits(d));
        lemma_dec_value_bounds(d);
    }
    if acc <= 65535 {
        Some(acc as u16)
    } else {
        None
    }
}

/// Parse `[start, end)` of `s` as a boolean value.
fn parse_bool_range(s: &str, start: usize, end: usize) -> (r: Option<bool>)
    requires
        start <= end <= s@.len(),
    ensures
        r == spec_parse_bool(s@.subrange(start as int, end as int)),
{
    if range_matches(s, start, end, "true") {
        Some(true)
    } else if range_matches(s, start, end, "false") {
        Some(false)
    } else {
        None
    }
}

/// Parse `[start, end)` of `s` as a `server` value.
fn parse_server_range(s: &str, start: usize, end: usize) -> (r: Option<(String, u16)>)
    requires
        start <= end <= s@.len(),
    ensures
        ({
            let v = s@.subrange(start as int, end as int);
            match spec_parse_server(v) {
                None => r is None,
                Some(hp) => r is Some && r->Some_0.0@ == hp.0 && r->Some_0.1 == hp.1,
            }
        }),
{
    let ghost v = s@.subrange(start as int, end as int);
    if end - start < 4 {
        return None;
    }
    if !range_matches(s, start, start + 4, "tcp:") {
        proof {
            assert(v.subrange(0, 4) =~= s@.subrange(start as int, start as int + 4));
        }
        return None;
    }
    proof {
        assert(v.subrange(0, 4) =~= s@.subrange(start as int, start as int + 4));
    }
    let rest_start = start + 4;
    let ghost rest = v.subrange(4, v.len() as int);
    proof {
        assert(rest =~= s@.subrange(rest_start as int, end as int));
    }
    match find_char_range(s, rest_start, end, ',') {
        None => {
            proof {
                assert forall|m: int| 0 <= m < rest.len() implies rest[m] != ',' by {
                    assert(rest[m] == s@[rest_start + m]);
                }
                lemma_find_from(rest, 0, ',');
                if find_from(rest, 0, ',') is Some {
                    let j = find_from(rest, 0, ',')->Some_0;
                    assert(rest[j] != ',');
                }
            }
            None
        },
        Some(k_abs) => {
            let ghost k = k_abs - rest_start;
            proof {
                assert(rest[k] == s@[k_abs as int]);
                assert forall|m: int| 0 <= m < k implies rest[m] != ',' by {
                    assert(rest[m] == s@[rest_start + m]);
                }
                lemma_find_from_unique(rest, ',', k);
                assert(rest.subrange(0, k) =~= s@.subrange(rest_start as int, k_abs as int));
                assert(rest.subrange(k + 1, rest.len() as int) =~= s@.subrange(
                    k_abs as int + 1,
                    end as int,
                ));
            }
            if k_abs == rest_start {
                return None;
            }
            match parse_port_range(s, k_abs + 1, end) {
                None => None,
                Some(p) => {
                    let host = s.substring_char(rest_start, k_abs).to_owned();
                    Some((host, p))
                },
            }
        },
    }
}

/// Apply the entry spanning `[start, end)` of `s` to the configuration.
fn apply_entry_range(s: &str, start: usize, end: usize, cfg: ConnectionConfig, seen: bool) -> (r:
    Option<(ConnectionConfig, bool)>)
    requires
        start <= end <= s@.len(),
    ensures
        ({
            let e = s@.subrange(start as int, end as int);
            match spec_apply_entry(e, cfg@, seen) {
                None => r is None,
                Some(p) => r is Some && r->Some_0.0@ == p.0 && r->Some_0.1 == p.1,
            }
        }),
{
    let ghost e = s@.subrange(start as int, end as int);
    if start == end {
        return Some((cfg, seen));
    }
    match find_char_range(s, start, end, '=') {
        None => {
            proof {
                assert forall|m: int| 0 <= m < e.len() implies e[m] != '=' by {
                    assert(e[m] == s@[start + m]);
                }
                lemma_find_from(e, 0, '=');
                if find_from(e, 0, '=') is Some {
                    let j = find_from(e, 0, '=')->Some_0;
                    assert(e[j] != '=');
                }
            }
            None
        },
        Some(k_abs) => {
            let ghost k = k_abs - start;
            proof {
                assert(e[k] == s@[k_abs as int]);
                assert forall|m: int| 0 <= m < k implies e[m] != '=' by {
                    assert(e[m] == s@[start + m]);
                }
                lemma_find_from_unique(e, '=', k);
                assert(e.subrange(0, k) =~= s@.subrange(start as int, k_abs as int));
                assert(e.subrange(k + 1, e.len() as int) =~= s@.subrange(
                    k_abs as int + 1,
                    end as int,
                ));
            }
            if range_matches(s, start, k_abs, "server") {
                match parse_server_range(s, k_abs + 1, end) {
                    None => None,
                    Some(hp) => {
                        let (h, p) = hp;
                        Some(
                            (
                                ConnectionConfig {
                                    host: h,
                                    port: p,
                                    user: cfg.user,
                                    password: cfg.password,
                                    encrypt: cfg.encrypt,
                                    trust_server_certificate: cfg.trust_server_certificate,
                                },
                                true,
                            ),
                        )
                    },
                }
            } else if range_matches(s, start, k_abs, "encrypt") {
                match parse_bool_range(s, k_abs + 1, end) {
                    None => None,
                    Some(b) => Some(
                        (
                            ConnectionConfig {
                                host: cfg.host,
                                port: cfg.port,
                                user: cfg.user,
                                password: cfg.password,
                                encrypt: b,
                                trust_server_certificate: cfg.trust_server_certificate,
                            },
                            seen,
                        ),
                    ),
                }
            } else if range_matches(s, start, k_abs, "TrustServerCertificate") {
                match parse_bool_range(s, k_abs + 1, end) {
                    None => None,
                    Some(b) => Some(
                        (
                            ConnectionConfig {
                                host: cfg.host,
                                port: cfg.port,
                                user: cfg.user,
                                password: cfg.password,
                                encrypt: cfg.encrypt,
                                trust_server_certificate: b,
                            },
                            seen,
                        ),
                    ),
                }
            } else if range_matches(s, start, k_abs, "user") {
                let u = s.substring_char(k_abs + 1, end).to_owned();
                Some(
                    (
                        ConnectionConfig {
                            host: cfg.host,
                            port: cfg.port,
                            user: u,
                            password: cfg.password,
                            encrypt: cfg.encrypt,
                            trust_server_certificate: cfg.trust_server_certificate,
                        },
                        seen,
                    ),
                )
            } else if range_matches(s, start, k_abs, "password") {
                let pw = s.substring_char(k_abs + 1, end).to_owned();
                Some(
                    (
                        ConnectionConfig {
                            host: cfg.host,
                            port: cfg.port,
                            user: cfg.user,
                            password: pw,
                            encrypt: cfg.encrypt,
                            trust_server_certificate: cfg.trust_server_certificate,
                        },
                        seen,
                    ),
                )
            } else {
                None
            }
        },
    }
}

/// Parse a descriptor string into its structured form.
///
/// This function performs no I/O; when the descriptor is outside the
/// grammar it reports `InvalidDescriptor` and nothing else ever happens,
/// so a malformed descriptor is rejected before any socket is opened.
/// The error never carries the descriptor itself, so no secret leaks
/// into diagnostics.
pub fn parse_descriptor(s: &str) -> (r: Result<ConnectionConfig, ConnectError>)
    ensures
        match parse_descriptor_spec(s@) {
            Some(c) => r is Ok && r->Ok_0@ == c,
            None => r is Err && r->Err_0 is InvalidDescriptor,
        },
{
    let n: usize = s.unicode_len();
    let mut cfg = ConnectionConfig {
        host: String::new(),
        port: 1433,
        user: String::new(),
        password: String::new(),
        encrypt: false,
        trust_server_certificate: false,
    };
    let mut seen = false;
    let mut start: usize = 0;
    let mut i: usize = 0;
    proof {
        assert(cfg@ == default_config());
        assert(s@.subrange(0, n as int) =~= s@);
        assert(s@.subrange(0, 0) =~= Seq::<char>::empty());
    }
    while i < n
        invariant
            start <= i <= n,
            n == s@.len(),
            spec_parse_entries(
                s@.subrange(i as int, n as int),
                s@.subrange(start as int, i as int),
                cfg@,
                seen,
            ) == spec_parse_entries(s@, Seq::<char>::empty(), default_config(), false),
        decreases n - i,
    {
        let ghost suffix = s@.subrange(i as int, n as int);
        proof {
            assert(suffix[0] == s@[i as int]);
            assert(suffix.drop_first() =~= s@.subrange(i as int + 1, n as int));
        }
        let c = s.get_char(i);
        if c == ';' {
            match apply_entry_range(s, start, i, cfg, seen) {
                None => {
                    return Err(
                        ConnectError::InvalidDescriptor(
                            String::from_str("descriptor entry is malformed"),
                        ),
                    );
                },
                Some(stepped) => {
                    let (c2, s2) = stepped;
                    proof {
                        assert(s@.subrange(i as int + 1, i as int + 1) =~= Seq::<char>::empty());
                    }
                    cfg = c2;
                    seen = s2;
                    i = i + 1;
                    start = i;
                },
            }
        } else {
            proof {
                assert(s@.subrange(start as int, i as int).push(s@[i as int]) =~= s@.subrange(
                    start as int,
                    i as int + 1,
                ));
            }
            i = i + 1;
        }
    }
    proof {
        assert(s@.subrange(i as int, n as int) =~= Seq::<char>::empty());
        assert(Seq::<char>::empty().len() == 0);
    }
    match apply_entry_range(s, start, n, cfg, seen) {
        None => Err(
            ConnectError::InvalidDescriptor(String::from_str("descriptor entry is malformed")),
        ),
        Some(fin) => {
            let (c2, s2) = fin;
            if s2 {
                Ok(c2)
            } else {
                Err(
                    ConnectError::InvalidDescriptor(
                        String::from_str("descriptor names no server"),
                    ),
                )
            }
        },
    }
}

} // verus!
