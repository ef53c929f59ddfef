//! Forwarding the session's accessibility bus into the sandbox: the bus
//! address that gdbus reports becomes a bind mount and an environment
//! variable for `flatpak build`.

use vstd::prelude::*;

use crate::command::views;
use crate::text::{is_whitespace, is_whitespace_char, occurs_at, occurs_at_index};

verus! {

/// A socket path up to the first comma, then the rest of the address.
pub const BUS_ADDRESS_PATTERN: &'static str = "unix:path=([^,]+)(,.*)?";

/// Where the bus socket is mounted inside the sandbox.
pub const BIND_MOUNT_PREFIX: &'static str = "--bind-mount=/run/flatpak/at-spi-bus=";

/// The bus address as the sandboxed application sees it.
pub const BUS_ENV: &'static str = "--env=AT_SPI_BUS_ADDRESS=unix:path=/run/flatpak/at-spi-bus";

/// The literal that starts a match of `BUS_ADDRESS_PATTERN`.
pub const BUS_ADDRESS_KEY: &'static str = "unix:path=";

/// A match of the pattern starts at `i`: the key, then at least one
/// character other than a comma.
pub open spec fn bus_match_at(s: Seq<char>, i: int) -> bool {
    &&& occurs_at(s, BUS_ADDRESS_KEY@, i)
    &&& i + BUS_ADDRESS_KEY@.len() < s.len()
    &&& s[i + BUS_ADDRESS_KEY@.len()] != ','
}

/// The leftmost position at or after `i` where a match starts.
pub open spec fn first_bus_match(s: Seq<char>, i: int) -> Option<int>
    decreases s.len() - i,
{
    if i < 0 || i >= s.len() {
        None
    } else if bus_match_at(s, i) {
        Some(i)
    } else {
        first_bus_match(s, i + 1)
    }
}

/// Where the run of non-comma characters starting at `j` ends.
pub open spec fn comma_or_end(s: Seq<char>, j: int) -> int
    decreases s.len() - j,
{
    if j < 0 || j >= s.len() || s[j] == ',' {
        j
    } else {
        comma_or_end(s, j + 1)
    }
}

/// Where the line containing position `j` ends (at a newline or the end).
pub open spec fn line_end(s: Seq<char>, j: int) -> int
    decreases s.len() - j,
{
    if j < 0 || j >= s.len() || s[j] == '\n' {
        j
    } else {
        line_end(s, j + 1)
    }
}

/// What matching `BUS_ADDRESS_PATTERN` against an address captures, searching
/// leftmost-first with greedy repetition: the socket path (the longest run of
/// non-commas after the key) and, when a comma follows it, the comma and the
/// rest of its line (`.` stops at a newline); empty when nothing follows.
pub open spec fn bus_address_groups(address: Seq<char>) -> Option<(Seq<char>, Seq<char>)> {
    match first_bus_match(address, 0) {
        None => None,
        Some(i) => {
            let a = i + BUS_ADDRESS_KEY@.len();
            let b = comma_or_end(address, a);
            Some(
                (
                    address.subrange(a, b),
                    if b < address.len() {
                        address.subrange(b, line_end(address, b + 1))
                    } else {
                        seq![]
                    },
                ),
            )
        },
    }
}

#[verifier::external_body]
fn capture_bus_address(address: &str) -> (r: Option<(String, String)>)
    ensures
        match r {
            Some((path, rest)) => bus_address_groups(address@) == Some((path@, rest@)),
            None => bus_address_groups(address@) is None,
        },
{
    let re = regex::Regex::new(BUS_ADDRESS_PATTERN).ok()?;
    let caps = re.captures(address)?;
    Some((
        caps.get(1).map_or("", |m| m.as_str()).to_string(),
        caps.get(2).map_or("", |m| m.as_str()).to_string(),
    ))
}

pub open spec fn trim_start(s: Seq<char>) -> Seq<char>
    decreases s.len(),
{
    if s.len() > 0 && is_whitespace(s[0]) {
        trim_start(s.drop_first())
    } else {
        s
    }
}

pub open spec fn trim_end(s: Seq<char>) -> Seq<char>
    decreases s.len(),
{
    if s.len() > 0 && is_whitespace(s.last()) {
        trim_end(s.drop_last())
    } else {
        s
    }
}

/// `s` without its leading and trailing whitespace.
pub open spec fn trim(s: Seq<char>) -> Seq<char> {
    trim_end(trim_start(s))
}

/// `s` with every occurrence of `pat` removed, scanning from the left.
pub open spec fn remove_all(s: Seq<char>, pat: Seq<char>) -> Seq<char>
    decreases s.len(),
{
    if s.len() == 0 {
        s
    } else if pat.len() > 0 && occurs_at(s, pat, 0) {
        remove_all(s.skip(pat.len() as int), pat)
    } else {
        seq![s[0]] + remove_all(s.drop_first(), pat)
    }
}

/// The bus address in gdbus's reply, which prints it as a one-string tuple
/// (`('unix:path=...',)`).
pub open spec fn bus_address_spec(reply: Seq<char>) -> Seq<char> {
    remove_all(remove_all(trim(reply), "('"@), "',)"@)
}

fn trim_text(s: &str) -> (r: String)
    ensures
        r@ == trim(s@),
{
    let n = s.unicode_len();
    let mut a: usize = 0;
    assert(s@.skip(0) =~= s@);
    while a < n && is_whitespace_char(s.get_char(a))
        invariant
            a <= n,
            n == s@.len(),
            trim_start(s@) == trim_start(s@.skip(a as int)),
        decreases n - a,
    {
        assert(s@.skip(a as int).drop_first() =~= s@.skip(a + 1));
        a = a + 1;
    }
    let ghost start = s@.skip(a as int);
    let mut b: usize = n;
    assert(start =~= s@.subrange(a as int, n as int));
    while b > a && is_whitespace_char(s.get_char(b - 1))
        invariant
            a <= b <= n,
            n == s@.len(),
            start == s@.skip(a as int),
            trim_start(s@) == start,
            trim_end(start) == trim_end(s@.subrange(a as int, b as int)),
        decreases b,
    {
        assert(s@.subrange(a as int, b as int).drop_last() =~= s@.subrange(a as int, b - 1));
        b = b - 1;
    }
    String::from_str(s.substring_char(a, b))
}

fn remove_text(s: &str, pat: &str) -> (r: String)
    ensures
        r@ == remove_all(s@, pat@),
{
    let n = s.unicode_len();
    let m = pat.unicode_len();
    let mut r = String::new();
    let mut i: usize = 0;
    assert(s@.skip(0) =~= s@);
    while i < n
        invariant
            i <= n,
            n == s@.len(),
            m == pat@.len(),
            remove_all(s@, pat@) == r@ + remove_all(s@.skip(i as int), pat@),
        decreases n - i,
    {
        let ghost t = s@.skip(i as int);
        if m > 0 && occurs_at_index(s, pat, i) {
            assert(occurs_at(t, pat@, 0)) by {
                assert(t.subrange(0, m as int) =~= s@.subrange(i as int, i + m));
            }
            assert(t.skip(m as int) =~= s@.skip(i + m));
            i = i + m;
        } else {
            assert(!occurs_at(t, pat@, 0) || m == 0) by {
                if m > 0 && occurs_at(t, pat@, 0) {
                    assert(t.subrange(0, m as int) =~= s@.subrange(i as int, i + m));
                }
            }
            assert(t.drop_first() =~= s@.skip(i + 1));
            let ghost before = r@;
            r.append(s.substring_char(i, i + 1));
            assert(s@.subrange(i as int, i + 1) =~= seq![t[0]]);
            assert(r@ + remove_all(s@.skip(i + 1), pat@) =~= before + (seq![t[0]] + remove_all(
                t.drop_first(),
                pat@,
            )));
            i = i + 1;
        }
    }
    assert(s@.skip(i as int) =~= seq![]);
    assert(r@ + seq![] =~= r@);
    r
}

/// The bus address from gdbus's reply.
pub fn bus_address(reply: &str) -> (r: String)
    ensures
        r@ == bus_address_spec(reply@),
{
    let trimmed = trim_text(reply);
    let opened = remove_text(trimmed.as_str(), "('");
    remove_text(opened.as_str(), "',)")
}

pub open spec fn bus_args_spec(path: Seq<char>, rest: Seq<char>) -> Seq<Seq<char>> {
    seq![
        BIND_MOUNT_PREFIX@ + path,
        if rest.len() > 0 {
            BUS_ENV@ + rest
        } else {
            BUS_ENV@
        },
    ]
}

/// The `flatpak build` arguments that forward the bus whose socket is at
/// `path`, `rest` being what followed the path in its address.
pub fn a11y_bus_args_for(path: &str, rest: &str) -> (r: Vec<String>)
    ensures
        views(r@) == bus_args_spec(path@, rest@),
{
    let mount = String::from_str(BIND_MOUNT_PREFIX).concat(path);
    let env = if rest.unicode_len() > 0 {
        String::from_str(BUS_ENV).concat(rest)
    } else {
        String::from_str(BUS_ENV)
    };
    let mut r: Vec<String> = Vec::new();
    r.push(mount);
    r.push(env);
    assert(views(r@) =~= bus_args_spec(path@, rest@));
    r
}

/// The arguments that forward the accessibility bus, from gdbus's reply to
/// the bus address query; `None` when the reply holds no usable address.
pub fn get_a11y_bus_args(reply: &str) -> (r: Option<Vec<String>>)
    ensures
        match bus_address_groups(bus_address_spec(reply@)) {
            Some((path, rest)) => r is Some && views(r->Some_0@) == bus_args_spec(path, rest),
            None => r is None,
        },
{
    let address = bus_address(reply);
    match capture_bus_address(address.as_str()) {
        Some((path, rest)) => Some(a11y_bus_args_for(path.as_str(), rest.as_str())),
        None => None,
    }
}

} // verus!
