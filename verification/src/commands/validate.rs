//! The checks of a configuration.

use vstd::prelude::*;
use vstd::slice::slice_subrange;
use crate::text::{digits_number, join2, parse_digits, text_chars};
use crate::types::{ConfigModel, DeviceConfig};

verus! {

/// The position of the first dot of a text; its length if it has none.
pub open spec fn first_dot(s: Seq<char>) -> int
    decreases s.len(),
{
    if s.len() == 0 {
        0
    } else if s[0] == '.' {
        0
    } else {
        1 + first_dot(s.skip(1))
    }
}

/// The parts of a text between its dots.
pub open spec fn dotted_parts(s: Seq<char>) -> Seq<Seq<char>>
    decreases s.len(),
{
    let i = first_dot(s);
    if 0 <= i < s.len() {
        seq![s.take(i)] + dotted_parts(s.skip(i + 1))
    } else {
        seq![s]
    }
}

/// Whether a text is an octet: decimal digits, at least one and nothing
/// else, that stand for at most 255.
pub open spec fn is_octet(s: Seq<char>) -> bool {
    digits_number(s, 255) is Some
}

/// Whether a text is an IPv4 address: four octets with a dot between
/// them.
pub open spec fn is_ipv4(s: Seq<char>) -> bool {
    let parts = dotted_parts(s);
    parts.len() == 4 && forall|k: int| 0 <= k < parts.len() ==> is_octet(#[trigger] parts[k])
}

/// The first dot of a text is where a scan from the left finds it.
pub proof fn lemma_first_dot(s: Seq<char>, k: int)
    requires
        0 <= k <= s.len(),
        forall|j: int| 0 <= j < k ==> s[j] != '.',
        k == s.len() || s[k] == '.',
    ensures
        first_dot(s) == k,
    decreases k,
{
    if k > 0 {
        let t = s.skip(1);
        assert forall|j: int| 0 <= j < k - 1 implies t[j] != '.' by {
            assert(t[j] == s[j + 1]);
        }
        if k < s.len() {
            assert(t[k - 1] == s[k]);
        }
        lemma_first_dot(t, k - 1);
    }
}

/// The error for a text that is no IPv4 address.
pub open spec fn invalid_ip_text(ip: Seq<char>) -> Seq<char> {
    "Invalid IP address: "@ + ip
}

/// Checks that a text is an IPv4 address: four decimal octets with a dot
/// between them.
pub fn validate_ip(ip: &str) -> (checked: Result<(), String>)
    ensures
        is_ipv4(ip@) ==> checked is Ok,
        !is_ipv4(ip@) ==> (checked matches Err(e) && e@ == invalid_ip_text(ip@)),
{
    let chars = text_chars(ip);
    let n: usize = chars.len();
    let mut start: usize = 0;
    let mut count: usize = 0;
    let mut all_octets: bool = true;
    let mut i: usize = 0;
    let ghost mut done: Seq<Seq<char>> = Seq::empty();
    proof {
        assert(ip@.skip(0) =~= ip@);
        assert(done + dotted_parts(ip@) =~= dotted_parts(ip@));
    }
    while i < n
        invariant
            n == ip@.len(),
            chars@ == ip@,
            start <= i <= n,
            count == done.len(),
            count <= i,
            dotted_parts(ip@) == done + dotted_parts(ip@.skip(start as int)),
            forall|j: int| start <= j < i ==> ip@[j] != '.',
            all_octets == (forall|k: int| 0 <= k < done.len() ==> is_octet(#[trigger] done[k])),
        decreases n - i,
    {
        if chars[i] == '.' {
            let part = slice_subrange(chars.as_slice(), start, i);
            let octet = parse_digits(part, 255);
            proof {
                let rest = ip@.skip(start as int);
                assert forall|j: int| 0 <= j < i - start implies rest[j] != '.' by {
                    assert(rest[j] == ip@[start + j]);
                }
                lemma_first_dot(rest, i - start);
                assert(rest.take(i - start) =~= part@);
                assert(rest.skip(i - start + 1) =~= ip@.skip(i as int + 1));
                let grown = done.push(part@);
                assert(grown + dotted_parts(ip@.skip(i as int + 1)) =~= done + dotted_parts(rest));
                assert forall|k: int| 0 <= k < done.len() implies grown[k] == done[k] by {}
                assert(grown[done.len() as int] == part@);
                if all_octets && octet is Some {
                    assert forall|k: int| 0 <= k < grown.len() implies is_octet(
                        #[trigger] grown[k],
                    ) by {
                        if k < done.len() {
                            assert(is_octet(done[k]));
                        }
                    }
                } else if all_octets {
                    assert(!is_octet(grown[done.len() as int]));
                } else {
                    let bad = choose|k: int| 0 <= k < done.len() && !is_octet(#[trigger] done[k]);
                    assert(!is_octet(grown[bad]));
                }
                done = grown;
            }
            if octet.is_none() {
                all_octets = false;
            }
            count = count + 1;
            start = i + 1;
        }
        i = i + 1;
    }
    let part = slice_subrange(chars.as_slice(), start, n);
    let octet = parse_digits(part, 255);
    proof {
        let rest = ip@.skip(start as int);
        assert forall|j: int| 0 <= j < n - start implies rest[j] != '.' by {
            assert(rest[j] == ip@[start + j]);
        }
        lemma_first_dot(rest, n - start);
        assert(rest =~= part@);
        assert(dotted_parts(rest) =~= seq![rest]);
        let parts = done.push(part@);
        assert(dotted_parts(ip@) =~= parts);
        assert(parts[done.len() as int] == part@);
        assert forall|k: int| 0 <= k < done.len() implies parts[k] == done[k] by {}
        if all_octets && octet is Some && count == 3 {
            assert forall|k: int| 0 <= k < parts.len() implies is_octet(#[trigger] parts[k]) by {
                if k < done.len() {
                    assert(is_octet(done[k]));
                }
            }
        } else if !all_octets {
            let bad = choose|k: int| 0 <= k < done.len() && !is_octet(#[trigger] done[k]);
            assert(!is_octet(parts[bad]));
        } else if octet is None {
            assert(!is_octet(parts[done.len() as int]));
        }
    }
    if count == 3 && all_octets && octet.is_some() {
        Ok(())
    } else {
        Err(join2("Invalid IP address: ", ip))
    }
}

/// Checks that a port is not zero.
pub fn validate_port(port: u16) -> (checked: Result<(), String>)
    ensures
        port != 0 ==> checked is Ok,
        port == 0 ==> (checked matches Err(e) && e@ == "Port cannot be 0"@),
{
    if port == 0 {
        return Err("Port cannot be 0".to_string());
    }
    Ok(())
}

/// What is wrong with a configuration, if anything: the address is
/// looked at first, the port second.
pub open spec fn config_error(config: ConfigModel) -> Option<Seq<char>> {
    if !is_ipv4(config.ip) {
        Some(invalid_ip_text(config.ip))
    } else if config.port == 0 {
        Some("Port cannot be 0"@)
    } else {
        None
    }
}

/// Checks a configuration before any network contact.
pub fn validate_config(config: &DeviceConfig) -> (checked: Result<(), String>)
    ensures
        match config_error(config@) {
            None => checked is Ok,
            Some(text) => checked matches Err(e) && e@ == text,
        },
{
    match validate_ip(config.ip.as_str()) {
        Ok(_) => validate_port(config.port),
        Err(e) => Err(e),
    }
}

} // verus!
