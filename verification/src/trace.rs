//! Parsing of the diagnostic trace body that reports the caller's current
//! public address: newline-delimited `key=value` text, of which only the
//! `ip` key is read.

use vstd::prelude::*;
use vstd::string::*;
use crate::text::{split_on, split_char, contains_char, opt_view};

verus! {

/// Whether a trace line reports the caller's address: it starts with "ip=".
pub open spec fn is_ip_line(line: Seq<char>) -> bool {
    line.len() >= 3 && line[0] == 'i' && line[1] == 'p' && line[2] == '='
}

/// The value of an "ip=" line: everything after the key and the equals sign.
pub open spec fn ip_value(line: Seq<char>) -> Seq<char> {
    line.skip(3)
}

/// The (IPv4, IPv6) pair read from the trace lines, scanned in order with
/// last-write-wins: on each "ip=" line, a value containing a colon replaces
/// the IPv6 component, any other value replaces the IPv4 component. A family
/// no line reported stays absent.
pub open spec fn trace_addresses(lines: Seq<Seq<char>>) -> (Option<Seq<char>>, Option<Seq<char>>)
    decreases lines.len(),
{
    if lines.len() == 0 {
        (Option::None, Option::None)
    } else {
        let prev = trace_addresses(lines.drop_last());
        let line = lines.last();
        if is_ip_line(line) {
            if ip_value(line).contains(':') {
                (prev.0, Option::Some(ip_value(line)))
            } else {
                (Option::Some(ip_value(line)), prev.1)
            }
        } else {
            prev
        }
    }
}

/// Parses the diagnostic trace body into the caller's current addresses.
/// With no "ip=" line both components are absent, which is a valid state,
/// not an error.
pub fn get_ip_from_trace(body: &str) -> (r: (Option<String>, Option<String>))
    ensures
        (opt_view(r.0), opt_view(r.1)) == trace_addresses(split_on(body@, '\n')),
{
    let lines = split_char(body, '\n');
    let ghost lines_spec = split_on(body@, '\n');
    let mut ipv4: Option<String> = None;
    let mut ipv6: Option<String> = None;
    let n = lines.len();
    let mut i: usize = 0;
    proof {
        assert(lines_spec.take(0) =~~= Seq::<Seq<char>>::empty());
    }
    while i < n
        invariant
            lines@.map_values(|p: String| p@) == lines_spec,
            n == lines@.len(),
            i <= n,
            (opt_view(ipv4), opt_view(ipv6)) == trace_addresses(lines_spec.take(i as int)),
        decreases n - i,
    {
        let line = &lines[i];
        proof {
            assert(lines_spec[i as int] == lines@[i as int]@);
        }
        let len = line.as_str().unicode_len();
        if len >= 3 && line.as_str().get_char(0) == 'i' && line.as_str().get_char(1) == 'p'
            && line.as_str().get_char(2) == '=' {
            let value = String::from_str(line.as_str().substring_char(3, len));
            proof {
                assert(value@ =~= ip_value(lines_spec[i as int]));
            }
            if contains_char(value.as_str(), ':') {
                ipv6 = Some(value);
            } else {
                ipv4 = Some(value);
            }
        } else {
            proof {
                assert(!is_ip_line(lines_spec[i as int]));
            }
        }
        proof {
            let t = lines_spec.take(i as int + 1);
            assert(t.drop_last() =~~= lines_spec.take(i as int));
            assert(t.last() == lines_spec[i as int]);
        }
        i += 1;
    }
    proof {
        assert(lines_spec.take(n as int) =~~= lines_spec);
    }
    (ipv4, ipv6)
}

} // verus!
