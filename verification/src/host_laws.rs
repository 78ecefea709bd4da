//! Laws of host normalization and matching.
//!
//! The normal form is a fixed point: normalizing a normalized host gives it back
//! unchanged. That is what lets a matcher be stored as its kind and value and
//! rebuilt from them without any change.

use vstd::prelude::*;

use crate::error::EgressError;
use crate::host::{
    domain_result, first_label_error, ipv6_result, is_ipv4, is_u8_text, label_error, labels_error,
    lemma_split_nonempty, matcher_matches, matcher_result, normalize, split_on, HostKind,
};
use crate::text::{
    all_ascii, is_alphanumeric, is_ascii_char, is_digit, is_hex_digit, is_whitespace, lower,
    lower_seq, trim, lemma_trim_of_unpadded,
};

verus! {

/// ASCII lower case changes nothing the second time.
pub proof fn lemma_lower_seq_idempotent(s: Seq<char>)
    ensures
        lower_seq(lower_seq(s)) == lower_seq(s),
{
    assert forall|i: int| 0 <= i < s.len() implies #[trigger] lower(lower(s[i])) == lower(s[i]) by {
        let c = s[i];
        if 'A' <= c <= 'Z' {
            let l = ((c as u32) + 32) as char;
            assert(l == lower(c));
            assert('a' <= l <= 'z');
        }
    }
    assert(lower_seq(lower_seq(s)) =~= lower_seq(s));
}

/// Every character of `s` that is not the separator lies in one of the parts.
proof fn lemma_split_covers(s: Seq<char>, sep: char, i: int) -> (at: (int, int))
    requires
        0 <= i < s.len(),
        s[i] != sep,
    ensures
        0 <= at.0 < split_on(s, sep).len(),
        0 <= at.1 < split_on(s, sep)[at.0].len(),
        split_on(s, sep)[at.0][at.1] == s[i],
    decreases s.len(),
{
    let init = split_on(s.drop_last(), sep);
    lemma_split_nonempty(s.drop_last(), sep);
    if i == s.len() - 1 {
        assert(s.last() != sep);
        let j = init.len() - 1;
        assert(split_on(s, sep)[j] == init.last().push(s.last()));
        (j, init.last().len() as int)
    } else {
        let (j, k) = lemma_split_covers(s.drop_last(), sep, i);
        if s.last() == sep {
            assert(split_on(s, sep)[j] == init[j]);
        } else if j < init.len() - 1 {
            assert(split_on(s, sep)[j] == init[j]);
        } else {
            assert(split_on(s, sep)[j] == init[j].push(s.last()));
        }
        (j, k)
    }
}

/// When the last part is not empty, the text does not end with the separator.
proof fn lemma_last_part_nonempty(s: Seq<char>, sep: char)
    requires
        split_on(s, sep).last().len() > 0,
    ensures
        s.len() > 0,
        s.last() != sep,
{
    if s.len() > 0 {
        lemma_split_nonempty(s.drop_last(), sep);
    }
}

/// No label error in the list means no error in any label.
proof fn lemma_no_first_label_error(labels: Seq<Seq<char>>, j: int)
    requires
        first_label_error(labels) is None,
        0 <= j < labels.len(),
    ensures
        label_error(labels[j]) is None,
    decreases labels.len(),
{
    if j < labels.len() - 1 {
        lemma_no_first_label_error(labels.drop_last(), j);
    }
}

/// Characters of a normalized domain or IPv4 literal.
spec fn domain_char(c: char) -> bool {
    is_alphanumeric(c) || c == '-' || c == '.' || c == '+'
}

/// Every character of a host whose dot-separated parts all consist of
/// `domain_char`s is itself a `domain_char`.
proof fn lemma_parts_chars(v: Seq<char>)
    requires
        forall|j: int, k: int| 0 <= j < split_on(v, '.').len() && 0 <= k < split_on(v, '.')[j].len()
            ==> domain_char(#[trigger] split_on(v, '.')[j][k]),
    ensures
        forall|i: int| 0 <= i < v.len() ==> domain_char(#[trigger] v[i]),
{
    assert forall|i: int| 0 <= i < v.len() implies domain_char(#[trigger] v[i]) by {
        if v[i] != '.' {
            let (j, k) = lemma_split_covers(v, '.', i);
            assert(domain_char(split_on(v, '.')[j][k]));
        }
    }
}

/// The parts of an IPv4 literal hold digits and signs only.
proof fn lemma_ipv4_chars(v: Seq<char>)
    requires
        is_ipv4(v),
    ensures
        forall|i: int| 0 <= i < v.len() ==> domain_char(#[trigger] v[i]),
        split_on(v, '.').last().len() > 0,
{
    let parts = split_on(v, '.');
    assert forall|j: int, k: int| 0 <= j < parts.len() && 0 <= k < parts[j].len()
        implies domain_char(#[trigger] parts[j][k]) by {
        let part = parts[j];
        assert(part.len() > 0 && is_u8_text(part));
        if part.len() > 1 && part[0] == '+' {
            if k > 0 {
                assert(part.drop_first()[k - 1] == part[k]);
                assert(is_digit(part.drop_first()[k - 1]));
            }
        } else {
            assert(is_digit(part[k]));
        }
    }
    assert(parts[parts.len() - 1].len() > 0);
    lemma_parts_chars(v);
}

/// The labels of a domain without label errors hold letters, digits and hyphens.
proof fn lemma_domain_chars(v: Seq<char>)
    requires
        first_label_error(split_on(v, '.')) is None,
    ensures
        forall|i: int| 0 <= i < v.len() ==> domain_char(#[trigger] v[i]),
        split_on(v, '.').last().len() > 0,
{
    let parts = split_on(v, '.');
    lemma_split_nonempty(v, '.');
    assert forall|j: int, k: int| 0 <= j < parts.len() && 0 <= k < parts[j].len()
        implies domain_char(#[trigger] parts[j][k]) by {
        lemma_no_first_label_error(parts, j);
        assert(is_alphanumeric(parts[j][k]) || parts[j][k] == '-');
    }
    lemma_no_first_label_error(parts, parts.len() - 1);
    lemma_parts_chars(v);
}

/// A normalized host normalizes to itself.
pub proof fn lemma_normalize_idempotent(input: Seq<char>)
    requires
        normalize(input) is Ok,
    ensures
        normalize(normalize(input)->Ok_0) == normalize(input),
{
    let t = trim(input);
    let v = normalize(input)->Ok_0;
    if t[0] == '[' {
        let rest = t.drop_first();
        let lowered = lower_seq(rest.drop_last());
        assert(v == seq!['['] + lowered + seq![']']);
        assert forall|i: int| 0 <= i < v.len() implies
            (#[trigger] v[i] == '[' || v[i] == ']' || v[i] == ':' || v[i] == '.' || is_hex_digit(v[i])) by {
            if 0 < i < v.len() - 1 {
                assert(v[i] == lowered[i - 1]);
            }
        }
        lemma_trim_of_unpadded(v);
        assert(all_ascii(v)) by {
            assert forall|i: int| 0 <= i < v.len() implies is_ascii_char(#[trigger] v[i]) by {
                assert(v[i] == '[' || v[i] == ']' || v[i] == ':' || v[i] == '.' || is_hex_digit(v[i]));
            }
        }
        assert(v.drop_first() =~= lowered + seq![']']);
        assert(v.drop_first().drop_last() =~= lowered);
        lemma_lower_seq_idempotent(rest.drop_last());
        assert(ipv6_result(v.drop_first()) == Ok::<Seq<char>, EgressError>(v));
    } else {
        let without_dot = if t.len() > 0 && t.last() == '.' { t.drop_last() } else { t };
        assert(v == lower_seq(without_dot));
        if is_ipv4(v) {
            lemma_ipv4_chars(v);
        } else {
            assert(labels_error(v) is None);
            lemma_domain_chars(v);
        }
        lemma_last_part_nonempty(v, '.');
        assert forall|i: int| 0 <= i < v.len() implies !is_whitespace(#[trigger] v[i]) && is_ascii_char(v[i]) && v[i] != ':' by {
            assert(domain_char(v[i]));
        }
        lemma_trim_of_unpadded(v);
        assert(v[0] != '[') by {
            assert(domain_char(v[0]));
        }
        assert(!v.contains(':')) by {
            if v.contains(':') {
                let i = choose|i: int| 0 <= i < v.len() && v[i] == ':';
                assert(v[i] != ':');
            }
        }
        lemma_lower_seq_idempotent(without_dot);
        assert(domain_result(v) == Ok::<Seq<char>, EgressError>(v));
    }
}

/// `v` is an IPv6 literal in brackets: hex digits, colons and dots, with at
/// least one colon, between `[` and `]`.
pub open spec fn is_bracketed_ipv6(v: Seq<char>) -> bool {
    &&& v.len() >= 3
    &&& v[0] == '['
    &&& v.last() == ']'
    &&& v.subrange(1, v.len() - 1).contains(':')
    &&& forall|i: int| 1 <= i < v.len() - 1 ==> is_hex_digit(#[trigger] v[i]) || v[i] == ':' || v[i] == '.'
}

/// `v` is a domain name: at most 253 characters of well-formed labels whose
/// last label is not numeric.
pub open spec fn is_domain_name(v: Seq<char>) -> bool {
    v.len() <= 253 && labels_error(v) is None
}

/// The shape of a normalized host: it is not empty, ASCII, without white
/// space, in lower case and without a trailing dot; a colon occurs only in an
/// IPv6 literal in brackets, and any other host has at most 253 characters.
/// It is an IPv4 address, an IPv6 literal in brackets or a domain name.
pub proof fn lemma_normalized_host_shape(input: Seq<char>)
    requires
        normalize(input) is Ok,
    ensures
        ({
            let v = normalize(input)->Ok_0;
            &&& v.len() > 0
            &&& all_ascii(v)
            &&& forall|i: int| 0 <= i < v.len() ==> !is_whitespace(#[trigger] v[i])
            &&& lower_seq(v) == v
            &&& v.last() != '.'
            &&& (v[0] == '[' || (!v.contains(':') && v.len() <= 253))
            &&& (is_ipv4(v) || is_bracketed_ipv6(v) || is_domain_name(v))
        }),
{
    let t = trim(input);
    let v = normalize(input)->Ok_0;
    if t[0] == '[' {
        let rest = t.drop_first();
        let lowered = lower_seq(rest.drop_last());
        assert(v == seq!['['] + lowered + seq![']']);
        lemma_lower_seq_idempotent(rest.drop_last());
        assert forall|i: int| 0 <= i < v.len() implies
            (#[trigger] v[i] == '[' || v[i] == ']' || v[i] == ':' || v[i] == '.' || is_hex_digit(v[i]))
                && lower(v[i]) == v[i] by {
            if 0 < i < v.len() - 1 {
                assert(v[i] == lowered[i - 1]);
                assert(lower_seq(lowered)[i - 1] == lowered[i - 1]);
            }
        }
        assert(all_ascii(v)) by {
            assert forall|i: int| 0 <= i < v.len() implies is_ascii_char(#[trigger] v[i]) by {
                assert(v[i] == '[' || v[i] == ']' || v[i] == ':' || v[i] == '.' || is_hex_digit(v[i]));
            }
        }
        assert forall|i: int| 0 <= i < v.len() implies !is_whitespace(#[trigger] v[i]) by {
            assert(v[i] == '[' || v[i] == ']' || v[i] == ':' || v[i] == '.' || is_hex_digit(v[i]));
        }
        assert(lower_seq(v) =~= v);
        assert(v.last() == ']');
        assert(v.subrange(1, v.len() - 1) =~= lowered);
        assert forall|i: int| 1 <= i < v.len() - 1 implies
            is_hex_digit(#[trigger] v[i]) || v[i] == ':' || v[i] == '.' by {
            assert(v[i] == lowered[i - 1]);
        }
        assert(is_bracketed_ipv6(v));
    } else {
        let without_dot = if t.len() > 0 && t.last() == '.' { t.drop_last() } else { t };
        assert(v == lower_seq(without_dot));
        if is_ipv4(v) {
            lemma_ipv4_chars(v);
        } else {
            assert(labels_error(v) is None);
            lemma_domain_chars(v);
        }
        lemma_last_part_nonempty(v, '.');
        assert forall|i: int| 0 <= i < v.len() implies !is_whitespace(#[trigger] v[i]) && is_ascii_char(v[i]) && v[i] != ':' by {
            assert(domain_char(v[i]));
        }
        assert(v[0] != '[') by {
            assert(domain_char(v[0]));
        }
        assert(!v.contains(':')) by {
            if v.contains(':') {
                let i = choose|i: int| 0 <= i < v.len() && v[i] == ':';
                assert(v[i] != ':');
            }
        }
        lemma_lower_seq_idempotent(without_dot);
    }
}

/// `value` is the value of a matcher of kind `kind` that some input builds.
pub open spec fn is_built_matcher(kind: HostKind, value: Seq<char>) -> bool {
    exists|input: Seq<char>| matcher_result(kind, input) == Ok::<(HostKind, Seq<char>), EgressError>((kind, value))
}

/// A matcher rebuilt from its own kind and value is the same matcher: what is
/// stored as kind and value reads back unchanged.
pub proof fn lemma_matcher_rebuilds_from_parts(kind: HostKind, value: Seq<char>)
    requires
        is_built_matcher(kind, value),
    ensures
        matcher_result(kind, value) == Ok::<(HostKind, Seq<char>), EgressError>((kind, value)),
{
    let input = choose|input: Seq<char>| matcher_result(kind, input) == Ok::<(HostKind, Seq<char>), EgressError>((kind, value));
    assert(normalize(input) == Ok::<Seq<char>, EgressError>(value));
    lemma_normalize_idempotent(input);
}

/// A subdomains matcher never matches the domain itself.
pub proof fn lemma_subdomains_exclude_apex(domain: Seq<char>)
    ensures
        !matcher_matches((HostKind::Subdomains, domain), domain),
{
}

/// A subdomains matcher matches only at a label boundary: a host that merely
/// ends with the domain text, without a dot in front of it, is not matched.
pub proof fn lemma_subdomains_respect_label_boundary(domain: Seq<char>, host: Seq<char>)
    requires
        matcher_matches((HostKind::Subdomains, domain), host),
    ensures
        host.len() > domain.len(),
        host[host.len() - domain.len() - 1] == '.',
        host.subrange(host.len() - domain.len(), host.len() as int) == domain,
{
}

/// An exact matcher matches its own host and nothing else.
pub proof fn lemma_exact_matches_only_itself(value: Seq<char>, host: Seq<char>)
    ensures
        matcher_matches((HostKind::Exact, value), host) <==> host == value,
{
}

/// A subdomains matcher matches every deeper subdomain too: a label put in
/// front of a matched host gives a matched host.
pub proof fn lemma_subdomains_match_any_depth(domain: Seq<char>, host: Seq<char>, label: Seq<char>)
    requires
        matcher_matches((HostKind::Subdomains, domain), host),
    ensures
        matcher_matches((HostKind::Subdomains, domain), label + seq!['.'] + host),
{
    let longer = label + seq!['.'] + host;
    assert(longer.subrange(longer.len() - host.len(), longer.len() as int) =~= host);
    assert(longer.subrange(longer.len() - domain.len(), longer.len() as int)
        =~= host.subrange(host.len() - domain.len(), host.len() as int));
    assert(longer[longer.len() - domain.len() - 1] == host[host.len() - domain.len() - 1]);
}

/// A label that a host name may have: 1 to 63 ASCII letters, digits and
/// hyphens, neither starting nor ending with a hyphen. A leading digit is
/// allowed.
pub open spec fn is_host_label(label: Seq<char>) -> bool {
    &&& 1 <= label.len() <= 63
    &&& label[0] != '-'
    &&& label[label.len() - 1] != '-'
    &&& forall|i: int| 0 <= i < label.len() ==> {
        ||| '0' <= #[trigger] label[i] <= '9'
        ||| 'a' <= label[i] <= 'z'
        ||| 'A' <= label[i] <= 'Z'
        ||| label[i] == '-'
    }
}

/// Lower case keeps a character a letter, a digit or a hyphen, and keeps it
/// apart from the dot and the hyphen it was not.
proof fn lemma_lower_char(c: char)
    ensures
        (lower(c) == '.') == (c == '.'),
        (lower(c) == '-') == (c == '-'),
        ('0' <= lower(c) <= '9') == ('0' <= c <= '9'),
        ('A' <= c <= 'Z') ==> 'a' <= lower(c) <= 'z',
        !('A' <= c <= 'Z') ==> lower(c) == c,
{
    if 'A' <= c <= 'Z' {
        let l = ((c as u32) + 32) as char;
        assert(l == lower(c));
        assert('a' <= l <= 'z');
    }
}

/// Splitting the lower case of a text gives the lower case of its parts.
proof fn lemma_split_of_lower(s: Seq<char>)
    ensures
        split_on(lower_seq(s), '.') == split_on(s, '.').map_values(|part: Seq<char>| lower_seq(part)),
    decreases s.len(),
{
    let parts = split_on(s, '.');
    if s.len() == 0 {
        assert(lower_seq(s) =~= s);
        assert(lower_seq(Seq::<char>::empty()) =~= Seq::<char>::empty());
        assert(parts == seq![Seq::<char>::empty()]);
        assert(parts.map_values(|part: Seq<char>| lower_seq(part))[0] == lower_seq(parts[0]));
        assert(parts.map_values(|part: Seq<char>| lower_seq(part)) =~= seq![Seq::<char>::empty()]);
    } else {
        let init = s.drop_last();
        lemma_split_of_lower(init);
        lemma_split_nonempty(init, '.');
        lemma_lower_char(s.last());
        assert(lower_seq(s).drop_last() =~= lower_seq(init));
        assert(lower_seq(s).last() == lower(s.last()));
        let lowered_init = split_on(init, '.').map_values(|part: Seq<char>| lower_seq(part));
        assert(split_on(lower_seq(init), '.') == lowered_init);
        if s.last() == '.' {
            assert(split_on(lower_seq(s), '.') == lowered_init.push(Seq::<char>::empty()));
            assert(lower_seq(Seq::<char>::empty()) =~= Seq::<char>::empty());
            assert(split_on(lower_seq(s), '.') =~= parts.map_values(|part: Seq<char>| lower_seq(part)));
        } else {
            let last = split_on(init, '.').last();
            assert(lower_seq(last.push(s.last())) =~= lower_seq(last).push(lower(s.last())));
            assert(lowered_init.last() == lower_seq(last));
            assert(split_on(lower_seq(s), '.') =~= parts.map_values(|part: Seq<char>| lower_seq(part)));
        }
    }
}

/// A host label in any case raises no label error once in lower case.
proof fn lemma_host_label_lowered(label: Seq<char>)
    requires
        is_host_label(label),
    ensures
        label_error(lower_seq(label)) is None,
        label_error(label) is None,
{
    let l = lower_seq(label);
    lemma_lower_char(label[0]);
    lemma_lower_char(label[label.len() - 1]);
    assert forall|i: int| 0 <= i < l.len() implies is_alphanumeric(#[trigger] l[i]) || l[i] == '-' by {
        lemma_lower_char(label[i]);
    }
    assert forall|i: int| 0 <= i < label.len() implies is_alphanumeric(#[trigger] label[i]) || label[i] == '-' by {
        assert('0' <= label[i] <= '9' || 'a' <= label[i] <= 'z' || 'A' <= label[i] <= 'Z' || label[i] == '-');
    }
}

/// A list of labels none of which raises an error raises none.
proof fn lemma_first_label_error_none(labels: Seq<Seq<char>>)
    requires
        forall|j: int| 0 <= j < labels.len() ==> label_error(#[trigger] labels[j]) is None,
    ensures
        first_label_error(labels) is None,
    decreases labels.len(),
{
    if labels.len() > 0 {
        assert forall|j: int| 0 <= j < labels.len() - 1 implies label_error(#[trigger] labels.drop_last()[j]) is None by {
            assert(labels.drop_last()[j] == labels[j]);
        }
        lemma_first_label_error_none(labels.drop_last());
    }
}

/// Every label of a host is a host label: such a label is accepted whether or
/// not it starts with a digit.
pub proof fn lemma_host_labels_are_accepted(label: Seq<char>)
    requires
        is_host_label(label),
    ensures
        label_error(label) is None,
{
    lemma_host_label_lowered(label);
}

/// A domain of host labels, at most 253 characters long, whose top-level label
/// holds a character that is not a digit, normalizes to its lower case.
pub proof fn lemma_domain_of_host_labels_normalizes(v: Seq<char>)
    requires
        v.len() <= 253,
        forall|j: int| 0 <= j < split_on(v, '.').len() ==> is_host_label(#[trigger] split_on(v, '.')[j]),
        exists|k: int| 0 <= k < split_on(v, '.').last().len() && !('0' <= #[trigger] split_on(v, '.').last()[k] <= '9'),
    ensures
        normalize(v) == Ok::<Seq<char>, EgressError>(lower_seq(v)),
{
    let parts = split_on(v, '.');
    lemma_split_nonempty(v, '.');
    assert(is_host_label(parts[parts.len() - 1]));
    lemma_last_part_nonempty(v, '.');
    assert forall|j: int, k: int| 0 <= j < parts.len() && 0 <= k < parts[j].len()
        implies domain_char(#[trigger] parts[j][k]) by {
        assert(is_host_label(parts[j]));
        assert('0' <= parts[j][k] <= '9' || 'a' <= parts[j][k] <= 'z' || 'A' <= parts[j][k] <= 'Z' || parts[j][k] == '-');
    }
    lemma_parts_chars(v);
    assert forall|i: int| 0 <= i < v.len() implies !is_whitespace(#[trigger] v[i]) && is_ascii_char(v[i]) && v[i] != ':' by {
        assert(domain_char(v[i]));
    }
    lemma_trim_of_unpadded(v);
    assert(v[0] != '[') by {
        assert(domain_char(v[0]));
    }
    assert(!v.contains(':')) by {
        if v.contains(':') {
            let i = choose|i: int| 0 <= i < v.len() && v[i] == ':';
            assert(v[i] != ':');
        }
    }
    let lowered = lower_seq(v);
    assert(domain_result(v) == Ok::<Seq<char>, EgressError>(lowered));
    lemma_split_of_lower(v);
    let lowered_parts = split_on(lowered, '.');
    assert(lowered_parts.len() == parts.len());
    assert forall|j: int| 0 <= j < lowered_parts.len() implies label_error(#[trigger] lowered_parts[j]) is None by {
        assert(lowered_parts[j] == lower_seq(parts[j]));
        lemma_host_label_lowered(parts[j]);
    }
    lemma_first_label_error_none(lowered_parts);
    let top = parts.last();
    let k = choose|k: int| 0 <= k < top.len() && !('0' <= #[trigger] top[k] <= '9');
    lemma_lower_char(top[k]);
    assert(lowered_parts.last() == lower_seq(top));
    assert(lower_seq(top)[k] == lower(top[k]));
    assert(!is_digit(lowered_parts.last()[k]));
    assert(labels_error(lowered) is None);
}

} // verus!
