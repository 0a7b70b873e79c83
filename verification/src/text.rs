//! Character-level text helpers: splitting on a separator, joining label
//! sequences, and deriving the registrable apex of a domain name.

use vstd::prelude::*;
use vstd::string::*;

verus! {

/// The pieces of `s` split on `sep`. Splitting the empty sequence yields one
/// empty piece; consecutive separators yield empty pieces between them.
pub open spec fn split_on(s: Seq<char>, sep: char) -> Seq<Seq<char>>
    decreases s.len(),
{
    if s.len() == 0 {
        seq![Seq::<char>::empty()]
    } else if s[0] == sep {
        seq![Seq::<char>::empty()] + split_on(s.skip(1), sep)
    } else {
        let rest = split_on(s.skip(1), sep);
        seq![seq![s[0]] + rest[0]] + rest.skip(1)
    }
}

/// The pieces of `parts` joined by `sep`, with no leading or trailing
/// separator.
pub open spec fn join_with(parts: Seq<Seq<char>>, sep: char) -> Seq<char>
    decreases parts.len(),
{
    if parts.len() == 0 {
        Seq::<char>::empty()
    } else if parts.len() == 1 {
        parts[0]
    } else {
        parts[0] + seq![sep] + join_with(parts.skip(1), sep)
    }
}

/// The dot-separated labels of a domain name.
pub open spec fn labels_of(domain: Seq<char>) -> Seq<Seq<char>> {
    split_on(domain, '.')
}

/// The registrable apex derived from a domain name: its last two labels
/// joined by a dot (the whole name when it has fewer than two labels).
/// This naive two-label rule does not handle multi-label public suffixes.
pub open spec fn apex_of(domain: Seq<char>) -> Seq<char> {
    let ls = labels_of(domain);
    let last_two = if ls.len() <= 2 {
        ls
    } else {
        ls.skip(ls.len() - 2)
    };
    join_with(last_two, '.')
}

/// The view of an optional owned string.
pub open spec fn opt_view(o: Option<String>) -> Option<Seq<char>> {
    match o {
        Option::Some(s) => Option::Some(s@),
        Option::None => Option::None,
    }
}

/// Splitting always yields at least one piece.
pub proof fn lemma_split_on_len(s: Seq<char>, sep: char)
    ensures
        split_on(s, sep).len() >= 1,
    decreases s.len(),
{
    if s.len() == 0 {
    } else {
        lemma_split_on_len(s.skip(1), sep);
    }
}

/// A sequence free of the separator splits into exactly itself.
pub proof fn lemma_split_on_no_sep(a: Seq<char>, sep: char)
    requires
        !a.contains(sep),
    ensures
        split_on(a, sep) =~~= seq![a],
    decreases a.len(),
{
    if a.len() == 0 {
        assert(a =~= Seq::<char>::empty());
    } else {
        assert(a[0] != sep) by {
            if a[0] == sep {
                assert(a.contains(sep));
            }
        }
        assert(!a.skip(1).contains(sep)) by {
            if a.skip(1).contains(sep) {
                let k = choose|k: int| 0 <= k < a.skip(1).len() && a.skip(1)[k] == sep;
                assert(a[k + 1] == sep);
                assert(a.contains(sep));
            }
        }
        lemma_split_on_no_sep(a.skip(1), sep);
        assert(seq![a[0]] + a.skip(1) =~= a);
        assert(seq![a.skip(1)].skip(1) =~~= Seq::<Seq<char>>::empty());
        assert(split_on(a, sep) =~~= seq![a]);
    }
}

/// Splitting a sequence whose first separator sits right after the
/// separator-free prefix `a` yields `a` followed by the split of the rest.
pub proof fn lemma_split_on_append(a: Seq<char>, b: Seq<char>, sep: char)
    requires
        !a.contains(sep),
    ensures
        split_on(a + seq![sep] + b, sep) =~~= seq![a] + split_on(b, sep),
    decreases a.len(),
{
    let s = a + seq![sep] + b;
    if a.len() == 0 {
        assert(s[0] == sep);
        assert(s.skip(1) =~= b);
        assert(a =~= Seq::<char>::empty());
    } else {
        assert(a[0] != sep) by {
            if a[0] == sep {
                assert(a.contains(sep));
            }
        }
        assert(s[0] == a[0]);
        assert(s.skip(1) =~= a.skip(1) + seq![sep] + b);
        assert(!a.skip(1).contains(sep)) by {
            if a.skip(1).contains(sep) {
                let k = choose|k: int| 0 <= k < a.skip(1).len() && a.skip(1)[k] == sep;
                assert(a[k + 1] == sep);
                assert(a.contains(sep));
            }
        }
        lemma_split_on_append(a.skip(1), b, sep);
        let rest = split_on(s.skip(1), sep);
        assert(rest =~~= seq![a.skip(1)] + split_on(b, sep));
        assert(rest[0] == a.skip(1));
        assert(rest.skip(1) =~~= split_on(b, sep));
        assert(seq![a[0]] + a.skip(1) =~= a);
        assert(split_on(s, sep) =~~= seq![a] + split_on(b, sep));
    }
}

/// Whether `s` contains the character `c`.
pub fn contains_char(s: &str, c: char) -> (r: bool)
    ensures
        r == s@.contains(c),
{
    let n = s.unicode_len();
    let mut i: usize = 0;
    while i < n
        invariant
            n == s@.len(),
            i <= n,
            forall|k: int| 0 <= k < i ==> s@[k] != c,
        decreases n - i,
    {
        if s.get_char(i) == c {
            assert(s@.contains(c));
            return true;
        }
        i += 1;
    }
    assert(!s@.contains(c)) by {
        if s@.contains(c) {
            let k = choose|k: int| 0 <= k < s@.len() && s@[k] == c;
            assert(s@[k] != c);
        }
    }
    false
}

/// Splits `s` on `sep`, returning the pieces in order.
pub fn split_char(s: &str, sep: char) -> (parts: Vec<String>)
    ensures
        parts@.map_values(|p: String| p@) == split_on(s@, sep),
{
    let n = s.unicode_len();
    let mut parts: Vec<String> = Vec::new();
    let mut start: usize = 0;
    let mut i: usize = 0;
    proof {
        assert(s@.skip(0) =~= s@);
        assert(parts@.map_values(|p: String| p@) =~~= Seq::<Seq<char>>::empty());
    }
    while i < n
        invariant
            n == s@.len(),
            start <= i <= n,
            forall|k: int| start <= k < i ==> s@[k] != sep,
            split_on(s@, sep) =~~= parts@.map_values(|p: String| p@) + split_on(
                s@.skip(start as int),
                sep,
            ),
        decreases n - i,
    {
        if s.get_char(i) == sep {
            let piece = String::from_str(s.substring_char(start, i));
            proof {
                let a = s@.subrange(start as int, i as int);
                assert(!a.contains(sep)) by {
                    if a.contains(sep) {
                        let k = choose|k: int| 0 <= k < a.len() && a[k] == sep;
                        assert(s@[start + k] == sep);
                    }
                }
                assert(s@.skip(start as int) =~= a + seq![sep] + s@.skip(i as int + 1));
                lemma_split_on_append(a, s@.skip(i as int + 1), sep);
                assert(parts@.push(piece).map_values(|p: String| p@) =~~= parts@.map_values(
                    |p: String| p@,
                ).push(a));
            }
            parts.push(piece);
            start = i + 1;
        }
        i += 1;
    }
    let piece = String::from_str(s.substring_char(start, n));
    proof {
        let a = s@.subrange(start as int, n as int);
        assert(a =~= s@.skip(start as int));
        assert(!a.contains(sep)) by {
            if a.contains(sep) {
                let k = choose|k: int| 0 <= k < a.len() && a[k] == sep;
                assert(s@[start + k] == sep);
            }
        }
        lemma_split_on_no_sep(a, sep);
        assert(parts@.push(piece).map_values(|p: String| p@) =~~= parts@.map_values(
            |p: String| p@,
        ).push(a));
    }
    parts.push(piece);
    parts
}

/// The query name used for zone discovery: the last two dot-separated labels
/// of `domain`, joined by a dot.
pub fn apex_domain(domain: &str) -> (r: String)
    ensures
        r@ == apex_of(domain@),
{
    let parts = split_char(domain, '.');
    proof {
        lemma_split_on_len(domain@, '.');
    }
    let n = parts.len();
    if n == 1 {
        let r = parts[0].clone();
        proof {
            let ls = labels_of(domain@);
            assert(ls[0] == parts@[0]@);
        }
        r
    } else {
        let first = parts[n - 2].clone();
        let joined = first.concat(".");
        let r = joined.concat(parts[n - 1].as_str());
        proof {
            reveal_strlit(".");
            assert("."@ =~= seq!['.']);
            let ls = labels_of(domain@);
            let last_two = if ls.len() <= 2 {
                ls
            } else {
                ls.skip(ls.len() - 2)
            };
            assert(last_two.len() == 2);
            assert(last_two[0] == parts@[n - 2]@);
            assert(last_two[1] == parts@[n - 1]@);
            assert(last_two.skip(1) =~~= seq![last_two[1]]);
            assert(first@ == parts@[n - 2]@);
            assert(joined@ == first@ + "."@);
            assert(r@ == joined@ + parts@[n - 1]@);
            assert(join_with(seq![last_two[1]], '.') == last_two[1]);
            assert(join_with(last_two, '.') == last_two[0] + seq!['.'] + join_with(
                last_two.skip(1),
                '.',
            ));
            assert(r@ =~= join_with(last_two, '.'));
        }
        r
    }
}

} // verus!
