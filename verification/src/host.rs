//! Host matching.
//!
//! This is the most sensitive part of the product: a mistake here becomes an
//! unnoticed hole in egress control. The model is therefore deliberately narrow:
//! two explicit kinds of matching and no implicit extensions:
//!
//! - [`HostMatcher::Exact`] matches only the given host;
//! - [`HostMatcher::Subdomains`] matches subdomains of any depth and does **not**
//!   match the domain itself.
//!
//! Subdomains are matched at a label boundary, so neither `evil-example.com` nor
//! `example.com.evil.test` matches `example.com` or `*.example.com`.

use vstd::prelude::*;

use crate::error::EgressError;
use crate::text::{
    all_ascii, chars_are_ascii, chars_equal, chars_of, contains_char, digits_value, ends_with,
    has_suffix, is_alphanumeric, is_digit, is_hex_digit, lower_chars, lower_seq, slice_chars,
    string_from, trim, trim_str,
};

verus! {

/// Largest length of a host name.
pub const MAX_HOST_LENGTH: usize = 253;

/// Largest length of one label.
pub const MAX_LABEL_LENGTH: usize = 63;

// ---------------------------------------------------------------------------
// The model of normalization.
// ---------------------------------------------------------------------------

/// `s` split at every `sep`, as `str::split` splits it: `n` separators give
/// `n + 1` parts, some of which may be empty.
pub open spec fn split_on(s: Seq<char>, sep: char) -> Seq<Seq<char>>
    decreases s.len(),
{
    if s.len() == 0 {
        seq![Seq::<char>::empty()]
    } else {
        let init = split_on(s.drop_last(), sep);
        if s.last() == sep {
            init.push(Seq::<char>::empty())
        } else {
            init.update(init.len() - 1, init.last().push(s.last()))
        }
    }
}

/// A validation error of the field `host`.
pub open spec fn host_error(reason: &'static str) -> EgressError {
    EgressError::Validation { field: "host", reason }
}

/// Every character of `s` is an ASCII digit.
pub open spec fn all_digits(s: Seq<char>) -> bool {
    forall|i: int| 0 <= i < s.len() ==> is_digit(#[trigger] s[i])
}

/// `part` is accepted by `u8::from_str`: an optional `+`, then at least one
/// decimal digit, with a value of at most 255.
pub open spec fn is_u8_text(part: Seq<char>) -> bool {
    let digits = if part.len() > 1 && part[0] == '+' { part.drop_first() } else { part };
    &&& digits.len() > 0
    &&& all_digits(digits)
    &&& digits_value(digits) <= 255
}

/// `value` is an IPv4 literal: four dot-separated parts, each a valid `u8`.
pub open spec fn is_ipv4(value: Seq<char>) -> bool {
    let parts = split_on(value, '.');
    &&& parts.len() == 4
    &&& forall|i: int| 0 <= i < parts.len() ==> #[trigger] parts[i].len() > 0 && is_u8_text(parts[i])
}

/// The error that one label of a domain raises, if any.
pub open spec fn label_error(label: Seq<char>) -> Option<EgressError> {
    if label.len() == 0 {
        Some(host_error("must not contain empty labels"))
    } else if label.len() > 63 {
        Some(host_error("label is too long"))
    } else if label[0] == '-' || label.last() == '-' {
        Some(host_error("label must not start or end with a hyphen"))
    } else if !(forall|i: int| 0 <= i < label.len() ==> is_alphanumeric(#[trigger] label[i]) || label[i] == '-') {
        Some(host_error("contains unsupported characters"))
    } else {
        None
    }
}

/// The error of the first label, in order, that raises one.
pub open spec fn first_label_error(labels: Seq<Seq<char>>) -> Option<EgressError>
    decreases labels.len(),
{
    if labels.len() == 0 {
        None
    } else {
        match first_label_error(labels.drop_last()) {
            Some(error) => Some(error),
            None => label_error(labels.last()),
        }
    }
}

/// The error that the labels of a domain raise, if any: a bad label, else a
/// numeric top-level label.
pub open spec fn labels_error(host: Seq<char>) -> Option<EgressError> {
    let labels = split_on(host, '.');
    match first_label_error(labels) {
        Some(error) => Some(error),
        None => if all_digits(labels.last()) {
            Some(host_error("top-level label must not be numeric"))
        } else {
            None
        },
    }
}

/// Normalization of the text after the opening bracket of an IPv6 literal.
pub open spec fn ipv6_result(rest: Seq<char>) -> Result<Seq<char>, EgressError> {
    if !(rest.len() > 0 && rest.last() == ']') {
        Err(host_error("ipv6 literal must be enclosed in brackets"))
    } else {
        let lowered = lower_seq(rest.drop_last());
        if lowered.len() == 0 || !lowered.contains(':') {
            Err(host_error("ipv6 literal is invalid"))
        } else if !(forall|i: int| 0 <= i < lowered.len() ==> is_hex_digit(#[trigger] lowered[i]) || lowered[i] == ':' || lowered[i] == '.') {
            Err(host_error("ipv6 literal is invalid"))
        } else {
            Ok(seq!['['] + lowered + seq![']'])
        }
    }
}

/// A domain without one trailing dot, in lower case, within the length limit.
pub open spec fn domain_result(input: Seq<char>) -> Result<Seq<char>, EgressError> {
    let without_dot = if input.len() > 0 && input.last() == '.' { input.drop_last() } else { input };
    if without_dot.len() == 0 {
        Err(host_error("must not be empty"))
    } else if without_dot.len() > 253 {
        Err(host_error("is too long"))
    } else {
        Ok(lower_seq(without_dot))
    }
}

/// The normal form of a host, or the validation error that rejects it.
///
/// Normalization trims outer white space, lowers the case, drops one trailing
/// dot and checks that the host is ASCII with well-formed labels.
pub open spec fn normalize(input: Seq<char>) -> Result<Seq<char>, EgressError> {
    let trimmed = trim(input);
    if trimmed.len() == 0 {
        Err(host_error("must not be empty"))
    } else if !all_ascii(trimmed) {
        Err(host_error("must contain ascii characters only; international domains are not supported yet"))
    } else if trimmed[0] == '[' {
        ipv6_result(trimmed.drop_first())
    } else if trimmed.contains(':') {
        Err(host_error("must not contain a port; pass the port separately"))
    } else {
        match domain_result(trimmed) {
            Err(error) => Err(error),
            Ok(lowered) => if is_ipv4(lowered) {
                Ok(lowered)
            } else {
                match labels_error(lowered) {
                    Some(error) => Err(error),
                    None => Ok(lowered),
                }
            },
        }
    }
}

/// `value` is an IP literal: IPv4, or IPv6 in brackets.
pub open spec fn is_ip_literal_text(value: Seq<char>) -> bool {
    is_ipv4(value) || (value.len() > 0 && value[0] == '[')
}

/// `host` is a subdomain of `domain` at a label boundary: it ends with `.`
/// followed by `domain`.
pub open spec fn is_subdomain(host: Seq<char>, domain: Seq<char>) -> bool {
    &&& host.len() > domain.len()
    &&& has_suffix(host, domain)
    &&& host[host.len() - domain.len() - 1] == '.'
}

/// The contents of a sequence of character vectors.
pub open spec fn views(parts: Seq<Vec<char>>) -> Seq<Seq<char>> {
    parts.map_values(|v: Vec<char>| v@)
}

/// An exec result agrees with a model result.
pub open spec fn agrees(r: Result<Vec<char>, EgressError>, m: Result<Seq<char>, EgressError>) -> bool {
    match m {
        Ok(v) => r matches Ok(w) && w@ == v,
        Err(e) => r == Err::<Vec<char>, EgressError>(e),
    }
}

// ---------------------------------------------------------------------------
// Lemmas about splitting.
// ---------------------------------------------------------------------------

/// Splitting always gives at least one part.
pub proof fn lemma_split_nonempty(s: Seq<char>, sep: char)
    ensures
        split_on(s, sep).len() >= 1,
    decreases s.len(),
{
    if s.len() > 0 {
        lemma_split_nonempty(s.drop_last(), sep);
    }
}

// ---------------------------------------------------------------------------
// The implementation.
// ---------------------------------------------------------------------------

/// `s` split at every `sep`.
pub fn split_chars(s: &[char], sep: char) -> (parts: Vec<Vec<char>>)
    ensures
        views(parts@) == split_on(s@, sep),
{
    let mut parts: Vec<Vec<char>> = Vec::new();
    let mut current: Vec<char> = Vec::new();
    let mut i: usize = 0;
    while i < s.len()
        invariant
            i <= s.len(),
            views(parts@).push(current@) == split_on(s@.take(i as int), sep),
        decreases s.len() - i,
    {
        let ghost before = views(parts@).push(current@);
        proof {
            lemma_split_nonempty(s@.take(i as int), sep);
            assert(s@.take(i + 1).drop_last() == s@.take(i as int));
            assert(s@.take(i + 1).last() == s@[i as int]);
        }
        if s[i] == sep {
            parts.push(current);
            current = Vec::new();
            assert(views(parts@).push(current@) =~= before.push(Seq::<char>::empty()));
        } else {
            current.push(s[i]);
            assert(views(parts@).push(current@) =~= before.update(before.len() - 1, before.last().push(s@[i as int])));
        }
        i += 1;
    }
    assert(s@.take(s.len() as int) == s@);
    parts.push(current);
    parts
}

/// Whether every character of `s` is an ASCII digit.
fn digits_only(s: &[char]) -> (all: bool)
    ensures
        all == all_digits(s@),
{
    let mut i: usize = 0;
    while i < s.len()
        invariant
            i <= s.len(),
            forall|j: int| 0 <= j < i ==> is_digit(#[trigger] s@[j]),
        decreases s.len() - i,
    {
        if !('0' <= s[i] && s[i] <= '9') {
            assert(!is_digit(s@[i as int]));
            return false;
        }
        i += 1;
    }
    true
}

proof fn lemma_digits_value_prefix(s: Seq<char>, k: int)
    requires
        0 <= k <= s.len(),
        all_digits(s),
    ensures
        digits_value(s.take(k)) <= digits_value(s),
    decreases s.len() - k,
{
    if k < s.len() {
        lemma_digits_value_prefix(s.drop_last(), k);
        assert(s.drop_last().take(k) == s.take(k));
        assert(is_digit(s.last()));
    } else {
        assert(s.take(k) == s);
    }
}

/// Whether `part` is accepted by `u8::from_str`.
fn u8_text(part: &[char]) -> (accepted: bool)
    ensures
        accepted == is_u8_text(part@),
{
    let start: usize = if part.len() > 1 && part[0] == '+' { 1 } else { 0 };
    let ghost digits = if part@.len() > 1 && part@[0] == '+' { part@.drop_first() } else { part@ };
    assert(digits == part@.skip(start as int));
    if start >= part.len() {
        return false;
    }
    let mut value: u32 = 0;
    let mut i: usize = start;
    while i < part.len()
        invariant
            start <= i <= part.len(),
            digits == part@.skip(start as int),
            digits == (if part@.len() > 1 && part@[0] == '+' { part@.drop_first() } else { part@ }),
            value <= 255,
            forall|j: int| start <= j < i ==> is_digit(#[trigger] part@[j]),
            value == digits_value(digits.take(i - start)),
        decreases part.len() - i,
    {
        let c = part[i];
        assert(digits[i - start] == c);
        if !('0' <= c && c <= '9') {
            assert(!is_digit(digits[i - start]));
            assert(!all_digits(digits));
            assert(!is_u8_text(part@));
            return false;
        }
        let d = (c as u32) - ('0' as u32);
        proof {
            assert(digits.take(i - start + 1).drop_last() == digits.take(i - start));
            assert(digits.take(i - start + 1).last() == c);
        }
        value = value * 10 + d;
        assert(digits_value(digits.take(i - start + 1)) == value);
        if value > 255 {
            proof {
                if all_digits(digits) {
                    lemma_digits_value_prefix(digits, i - start + 1);
                }
            }
            return false;
        }
        i += 1;
    }
    assert(digits.take(i - start) == digits);
    true
}


/// Whether `value` is an IPv4 literal.
fn ipv4_literal(value: &[char]) -> (ipv4: bool)
    ensures
        ipv4 == is_ipv4(value@),
{
    let parts = split_chars(value, '.');
    let mut i: usize = 0;
    while i < parts.len()
        invariant
            i <= parts.len(),
            views(parts@) == split_on(value@, '.'),
            forall|j: int| 0 <= j < i ==> #[trigger] parts@[j]@.len() > 0 && is_u8_text(parts@[j]@),
        decreases parts.len() - i,
    {
        let part = &parts[i];
        if part.len() == 0 || !u8_text(part.as_slice()) {
            assert(views(parts@)[i as int] == parts@[i as int]@);
            return false;
        }
        i += 1;
    }
    proof {
        assert forall|j: int| 0 <= j < split_on(value@, '.').len() implies #[trigger] split_on(value@, '.')[j].len() > 0
            && is_u8_text(split_on(value@, '.')[j]) by {
            assert(views(parts@)[j] == parts@[j]@);
        }
    }
    parts.len() == 4
}

/// Checks one label of a domain.
fn validate_label(label: &[char]) -> (result: Result<(), EgressError>)
    ensures
        match label_error(label@) {
            Some(error) => result == Err::<(), EgressError>(error),
            None => result == Ok::<(), EgressError>(()),
        },
{
    if label.len() == 0 {
        return Err(EgressError::validation("host", "must not contain empty labels"));
    }
    if label.len() > MAX_LABEL_LENGTH {
        return Err(EgressError::validation("host", "label is too long"));
    }
    if label[0] == '-' || label[label.len() - 1] == '-' {
        return Err(EgressError::validation("host", "label must not start or end with a hyphen"));
    }
    let mut i: usize = 0;
    while i < label.len()
        invariant
            i <= label.len(),
            0 < label.len() <= 63,
            label@[0] != '-',
            label@.last() != '-',
            forall|j: int| 0 <= j < i ==> is_alphanumeric(#[trigger] label@[j]) || label@[j] == '-',
        decreases label.len() - i,
    {
        let c = label[i];
        let alphanumeric = ('0' <= c && c <= '9') || ('a' <= c && c <= 'z') || ('A' <= c && c <= 'Z');
        if !(alphanumeric || c == '-') {
            assert(!(is_alphanumeric(label@[i as int]) || label@[i as int] == '-'));
            return Err(EgressError::validation("host", "contains unsupported characters"));
        }
        i += 1;
    }
    Ok(())
}

proof fn lemma_first_label_error_prefix(labels: Seq<Seq<char>>, k: int)
    requires
        0 <= k <= labels.len(),
        first_label_error(labels.take(k)) is Some,
    ensures
        first_label_error(labels) == first_label_error(labels.take(k)),
    decreases labels.len() - k,
{
    if k < labels.len() {
        assert(labels.drop_last().take(k) == labels.take(k));
        lemma_first_label_error_prefix(labels.drop_last(), k);
    } else {
        assert(labels.take(k) == labels);
    }
}

/// Checks the labels of a domain and its top-level label.
fn validate_labels(host: &[char]) -> (result: Result<(), EgressError>)
    ensures
        match labels_error(host@) {
            Some(error) => result == Err::<(), EgressError>(error),
            None => result == Ok::<(), EgressError>(()),
        },
{
    let labels = split_chars(host, '.');
    let ghost model = split_on(host@, '.');
    let mut i: usize = 0;
    while i < labels.len()
        invariant
            i <= labels.len(),
            views(labels@) == model,
            model == split_on(host@, '.'),
            first_label_error(model.take(i as int)) is None,
        decreases labels.len() - i,
    {
        proof {
            assert(model.take(i + 1).drop_last() == model.take(i as int));
            assert(model.take(i + 1).last() == labels@[i as int]@);
        }
        match validate_label(labels[i].as_slice()) {
            Err(error) => {
                proof {
                    lemma_first_label_error_prefix(model, i + 1);
                }
                return Err(error);
            },
            Ok(()) => {},
        }
        i += 1;
    }
    proof {
        assert(model.take(labels.len() as int) == model);
        lemma_split_nonempty(host@, '.');
    }
    let top_level = &labels[labels.len() - 1];
    assert(model.last() == top_level@);
    if digits_only(top_level.as_slice()) {
        return Err(EgressError::validation("host", "top-level label must not be numeric"));
    }
    Ok(())
}

/// Normalizes the text after the opening bracket of an IPv6 literal.
fn normalize_ipv6_literal(rest: &[char]) -> (result: Result<Vec<char>, EgressError>)
    ensures
        agrees(result, ipv6_result(rest@)),
{
    if !(rest.len() > 0 && rest[rest.len() - 1] == ']') {
        return Err(EgressError::validation("host", "ipv6 literal must be enclosed in brackets"));
    }
    let inner = slice_chars(rest, 0, rest.len() - 1);
    assert(inner@ == rest@.drop_last());
    let lowered = lower_chars(inner.as_slice());
    if lowered.len() == 0 || !contains_char(lowered.as_slice(), ':') {
        return Err(EgressError::validation("host", "ipv6 literal is invalid"));
    }
    let mut i: usize = 0;
    while i < lowered.len()
        invariant
            i <= lowered.len(),
            rest@.len() > 0 && rest@.last() == ']',
            lowered@ == lower_seq(rest@.drop_last()),
            lowered@.len() > 0 && lowered@.contains(':'),
            forall|j: int| 0 <= j < i ==> is_hex_digit(#[trigger] lowered@[j]) || lowered@[j] == ':' || lowered@[j] == '.',
        decreases lowered.len() - i,
    {
        let c = lowered[i];
        let hex = ('0' <= c && c <= '9') || ('a' <= c && c <= 'f') || ('A' <= c && c <= 'F');
        if !(hex || c == ':' || c == '.') {
            assert(!(is_hex_digit(lowered@[i as int]) || lowered@[i as int] == ':' || lowered@[i as int] == '.'));
            return Err(EgressError::validation("host", "ipv6 literal is invalid"));
        }
        i += 1;
    }
    let mut out: Vec<char> = Vec::new();
    out.push('[');
    let mut k: usize = 0;
    while k < lowered.len()
        invariant
            k <= lowered.len(),
            out@ == seq!['['] + lowered@.take(k as int),
        decreases lowered.len() - k,
    {
        out.push(lowered[k]);
        assert(lowered@.take(k + 1) == lowered@.take(k as int).push(lowered@[k as int]));
        k += 1;
    }
    out.push(']');
    assert(lowered@.take(lowered.len() as int) == lowered@);
    assert(out@ =~= seq!['['] + lowered@ + seq![']']);
    Ok(out)
}

/// Drops one trailing dot and lowers the case of a domain.
fn normalize_domain(input: &[char]) -> (result: Result<Vec<char>, EgressError>)
    ensures
        agrees(result, domain_result(input@)),
{
    let end = if input.len() > 0 && input[input.len() - 1] == '.' { input.len() - 1 } else { input.len() };
    let without_dot = slice_chars(input, 0, end);
    assert(without_dot@ == (if input@.len() > 0 && input@.last() == '.' { input@.drop_last() } else { input@ }));
    if without_dot.len() == 0 {
        return Err(empty_host_error());
    }
    if without_dot.len() > MAX_HOST_LENGTH {
        return Err(EgressError::validation("host", "is too long"));
    }
    Ok(lower_chars(without_dot.as_slice()))
}

/// The error of an empty host.
fn empty_host_error() -> (error: EgressError)
    ensures
        error == host_error("must not be empty"),
{
    EgressError::validation("host", "must not be empty")
}

/// Normalizes a host: the characters of its normal form, or the validation error.
fn normalize_host(input: &str) -> (result: Result<Vec<char>, EgressError>)
    ensures
        agrees(result, normalize(input@)),
{
    let trimmed = trim_str(input);
    if trimmed.len() == 0 {
        return Err(empty_host_error());
    }
    if !chars_are_ascii(trimmed.as_slice()) {
        return Err(EgressError::validation(
            "host",
            "must contain ascii characters only; international domains are not supported yet",
        ));
    }
    if trimmed[0] == '[' {
        let rest = slice_chars(trimmed.as_slice(), 1, trimmed.len());
        assert(rest@ == trimmed@.drop_first());
        return normalize_ipv6_literal(rest.as_slice());
    }
    if contains_char(trimmed.as_slice(), ':') {
        return Err(EgressError::validation("host", "must not contain a port; pass the port separately"));
    }
    let lowered = match normalize_domain(trimmed.as_slice()) {
        Ok(lowered) => lowered,
        Err(error) => return Err(error),
    };
    if ipv4_literal(lowered.as_slice()) {
        return Ok(lowered);
    }
    match validate_labels(lowered.as_slice()) {
        Ok(()) => Ok(lowered),
        Err(error) => Err(error),
    }
}

// ---------------------------------------------------------------------------
// Public types.
// ---------------------------------------------------------------------------

/// A host that passed normalization.
///
/// Normalization trims outer white space, lowers the case, drops a trailing dot
/// and checks ASCII and the labels. A value of this type has been checked.
#[derive(Debug, PartialEq, Eq, Hash)]
pub struct NormalizedHost(String);

impl View for NormalizedHost {
    type V = Seq<char>;

    closed spec fn view(&self) -> Seq<char> {
        self.0@
    }
}

impl Clone for NormalizedHost {
    fn clone(&self) -> (copy: Self)
        ensures
            copy@ == self@,
    {
        proof {
            use_type_invariant(self);
        }
        NormalizedHost(self.0.clone())
    }
}

impl NormalizedHost {
    /// A normalized host is in normal form: normalizing it again changes nothing.
    #[verifier::type_invariant]
    spec fn in_normal_form(self) -> bool {
        normalize(self.0@) == Ok::<Seq<char>, EgressError>(self.0@)
    }

    /// Parses and normalizes a host.
    ///
    /// # Errors
    ///
    /// Returns a validation error of the field `host` when the value is empty,
    /// not ASCII, has empty labels, unsupported characters or a numeric
    /// top-level label.
    pub fn parse(input: &str) -> (result: Result<Self, EgressError>)
        ensures
            match normalize(input@) {
                Ok(value) => result matches Ok(host) && host@ == value,
                Err(error) => result matches Err(e) && e == error,
            },
    {
        match normalize_host(input) {
            Ok(chars) => {
                proof {
                    crate::host_laws::lemma_normalize_idempotent(input@);
                }
                Ok(NormalizedHost(string_from(chars.as_slice())))
            },
            Err(error) => Err(error),
        }
    }

    /// The normalized value; it is its own normal form.
    pub fn as_str(&self) -> (text: &str)
        ensures
            text@ == self@,
            normalize(text@) == Ok::<Seq<char>, EgressError>(text@),
    {
        proof {
            use_type_invariant(self);
        }
        self.0.as_str()
    }

    /// Whether the host is an IP literal (IPv4, or IPv6 in brackets).
    pub fn is_ip_literal(&self) -> (ip: bool)
        ensures
            ip == is_ip_literal_text(self@),
    {
        let chars = chars_of(self.0.as_str());
        ipv4_literal(chars.as_slice()) || (chars.len() > 0 && chars[0] == '[')
    }
}

/// Kind of host matching that the user chooses.
#[derive(Debug, Clone, Copy, PartialEq, Eq, Structural)]
pub enum HostKind {
    /// Exact match.
    Exact,
    /// Match of subdomains.
    Subdomains,
}

/// Rule of host matching.
///
/// The values inside the variants are normalized when the matcher is built by
/// [`HostMatcher::exact`], [`HostMatcher::subdomains`] or [`HostMatcher::from_parts`].
#[derive(Debug, PartialEq, Eq)]
pub enum HostMatcher {
    /// Exact match with the host.
    Exact(String),
    /// Match with subdomains of the domain at any depth; the domain itself does not match.
    Subdomains(String),
}

impl View for HostMatcher {
    type V = (HostKind, Seq<char>);

    open spec fn view(&self) -> (HostKind, Seq<char>) {
        match self {
            HostMatcher::Exact(value) => (HostKind::Exact, value@),
            HostMatcher::Subdomains(value) => (HostKind::Subdomains, value@),
        }
    }
}

impl Clone for HostMatcher {
    fn clone(&self) -> (copy: Self)
        ensures
            copy@ == self@,
    {
        match self {
            HostMatcher::Exact(value) => HostMatcher::Exact(value.clone()),
            HostMatcher::Subdomains(value) => HostMatcher::Subdomains(value.clone()),
        }
    }
}

/// The matcher that `kind` and `value` build, or the validation error.
pub open spec fn matcher_result(kind: HostKind, value: Seq<char>) -> Result<(HostKind, Seq<char>), EgressError> {
    match normalize(value) {
        Err(error) => Err(error),
        Ok(host) => if kind == HostKind::Subdomains && is_ip_literal_text(host) {
            Err(host_error("subdomain matcher cannot be an ip address"))
        } else {
            Ok((kind, host))
        },
    }
}

/// Whether a matcher with the view `matcher` matches the normalized host `host`.
pub open spec fn matcher_matches(matcher: (HostKind, Seq<char>), host: Seq<char>) -> bool {
    match matcher.0 {
        HostKind::Exact => host == matcher.1,
        HostKind::Subdomains => is_subdomain(host, matcher.1),
    }
}

/// An exec matcher result agrees with a model result.
pub open spec fn matcher_agrees(
    r: Result<HostMatcher, EgressError>,
    m: Result<(HostKind, Seq<char>), EgressError>,
) -> bool {
    match m {
        Ok(v) => r matches Ok(matcher) && matcher@ == v,
        Err(e) => r matches Err(error) && error == e,
    }
}

impl HostMatcher {
    /// Builds a matcher of exact match.
    ///
    /// # Errors
    ///
    /// Returns a validation error when the host is invalid.
    pub fn exact(input: &str) -> (result: Result<Self, EgressError>)
        ensures
            matcher_agrees(result, matcher_result(HostKind::Exact, input@)),
    {
        match NormalizedHost::parse(input) {
            Ok(host) => Ok(HostMatcher::Exact(host.0)),
            Err(error) => Err(error),
        }
    }

    /// Builds a matcher of subdomains.
    ///
    /// # Errors
    ///
    /// Returns a validation error when the domain is invalid or is an IP
    /// literal: an IP address has no subdomains.
    pub fn subdomains(input: &str) -> (result: Result<Self, EgressError>)
        ensures
            matcher_agrees(result, matcher_result(HostKind::Subdomains, input@)),
    {
        let domain = match NormalizedHost::parse(input) {
            Ok(domain) => domain,
            Err(error) => return Err(error),
        };
        if domain.is_ip_literal() {
            return Err(EgressError::validation("host", "subdomain matcher cannot be an ip address"));
        }
        Ok(HostMatcher::Subdomains(domain.0))
    }

    /// Builds a matcher from the kind and value of a user request.
    ///
    /// # Errors
    ///
    /// Returns a validation error when the value does not suit the kind.
    pub fn from_parts(kind: HostKind, value: &str) -> (result: Result<Self, EgressError>)
        ensures
            matcher_agrees(result, matcher_result(kind, value@)),
    {
        match kind {
            HostKind::Exact => HostMatcher::exact(value),
            HostKind::Subdomains => HostMatcher::subdomains(value),
        }
    }

    /// Kind of matching.
    pub fn kind(&self) -> (kind: HostKind)
        ensures
            kind == self@.0,
    {
        match self {
            HostMatcher::Exact(_) => HostKind::Exact,
            HostMatcher::Subdomains(_) => HostKind::Subdomains,
        }
    }

    /// Normalized value of the matcher.
    pub fn value(&self) -> (value: &str)
        ensures
            value@ == self@.1,
    {
        match self {
            HostMatcher::Exact(value) => value.as_str(),
            HostMatcher::Subdomains(value) => value.as_str(),
        }
    }

    /// Whether the matcher matches an already normalized host.
    ///
    /// Subdomains are matched at a label boundary, so `evil-example.com` does not
    /// match `*.example.com`.
    pub fn matches(&self, host: &NormalizedHost) -> (matched: bool)
        ensures
            matched == matcher_matches(self@, host@),
    {
        let host_chars = chars_of(host.as_str());
        match self {
            HostMatcher::Exact(expected) => {
                let expected_chars = chars_of(expected.as_str());
                chars_equal(host_chars.as_slice(), expected_chars.as_slice())
            },
            HostMatcher::Subdomains(domain) => {
                let domain_chars = chars_of(domain.as_str());
                is_subdomain_of(host_chars.as_slice(), domain_chars.as_slice())
            },
        }
    }

    /// Description of the matcher for the user: the host, or `*.` and the domain.
    pub fn display_value(&self) -> (text: String)
        ensures
            text@ == match self@.0 {
                HostKind::Exact => self@.1,
                HostKind::Subdomains => "*."@ + self@.1,
            },
    {
        match self {
            HostMatcher::Exact(value) => value.clone(),
            HostMatcher::Subdomains(domain) => String::from_str("*.").concat(domain.as_str()),
        }
    }
}

/// Whether `host` is a subdomain of `domain` at a label boundary.
fn is_subdomain_of(host: &[char], domain: &[char]) -> (subdomain: bool)
    ensures
        subdomain == is_subdomain(host@, domain@),
{
    if host.len() <= domain.len() {
        return false;
    }
    let boundary = host.len() - domain.len() - 1;
    ends_with(host, domain) && host[boundary] == '.'
}
} // verus!
