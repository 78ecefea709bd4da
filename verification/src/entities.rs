//! Policy entities: profile, rule and their identifiers.

use vstd::prelude::*;

use crate::action::Action;
use crate::error::EgressError;
use crate::host::HostMatcher;
use crate::port::PortSpec;
use crate::text::{string_from, trim, trim_str};

verus! {

/// Largest length of a profile name, in characters.
pub const MAX_PROFILE_NAME_LENGTH: usize = 64;

// ---------------------------------------------------------------------------
// Identifiers.
// ---------------------------------------------------------------------------

/// What `uuid::Uuid::parse_str` makes of `input`: the canonical (hyphenated,
/// lower case) text of the parsed UUID, or the text of the parse error.
pub uninterp spec fn uuid_parse_text(input: Seq<char>) -> Result<Seq<char>, Seq<char>>;

/// `text` is written as `Display` of `uuid::Uuid` writes: 36 characters,
/// lower-case hexadecimal digits and hyphens.
pub open spec fn uuid_text_chars(text: Seq<char>) -> bool {
    &&& text.len() == 36
    &&& forall|i: int| 0 <= i < text.len() ==> ('0' <= #[trigger] text[i] <= '9' || 'a' <= text[i] <= 'f' || text[i] == '-')
}

/// Parses a UUID with `uuid::Uuid::parse_str` and formats it with its `Display`
/// (hyphenated, lower case); on failure gives the text of the `uuid::Error`.
///
/// Claimed of the outside code: the result is `uuid_parse_text` of the input;
/// the text of a parsed UUID is the hyphenated lower-case form, and it parses
/// back to itself (`parse_str` accepts the form that `Display` writes and
/// yields the same UUID).
#[verifier::external_body]
pub(crate) fn parse_uuid_text(input: &str) -> (result: Result<String, String>)
    ensures
        result matches Ok(text) ==> (uuid_parse_text(input@) matches Ok(c) && c == text@),
        result matches Err(text) ==> (uuid_parse_text(input@) matches Err(m) && m == text@),
        result matches Ok(text) ==> (uuid_parse_text(text@) matches Ok(c) && c == text@),
        result matches Ok(text) ==> uuid_text_chars(text@),
{
    match uuid::Uuid::parse_str(input) {
        Ok(uuid) => Ok(uuid.to_string()),
        Err(error) => Err(error.to_string()),
    }
}

/// Generates a random UUID with `uuid::Uuid::new_v4` and formats it with its
/// `Display` (hyphenated, lower case).
///
/// Claimed of the outside code: the text is the hyphenated lower-case form
/// and is canonical, that is, it parses back to itself. Nothing is said of
/// which UUID comes out.
#[verifier::external_body]
pub(crate) fn new_uuid_text() -> (text: String)
    ensures
        uuid_parse_text(text@) matches Ok(c) && c == text@,
        uuid_text_chars(text@),
{
    uuid::Uuid::new_v4().to_string()
}

/// `text` is the canonical text of a UUID: it parses back to itself.
pub open spec fn is_canonical_uuid(text: Seq<char>) -> bool {
    uuid_parse_text(text) matches Ok(canonical) && canonical == text
}

/// `text` is the text of an identifier: canonical and written as `Display`
/// writes a UUID.
pub open spec fn is_id_text(text: Seq<char>) -> bool {
    is_canonical_uuid(text) && uuid_text_chars(text)
}

/// The text of an identifier reads back as the same identifier, whether it
/// comes through IPC or from storage.
pub proof fn lemma_id_text_round_trip(text: Seq<char>, field: &'static str, what: Seq<char>)
    requires
        is_id_text(text),
    ensures
        ipc_id_result(text, field) == Ok::<Seq<char>, EgressError>(text),
        stored_id_result(text, what) == Ok::<Seq<char>, Seq<char>>(text),
{
    assert(!crate::text::is_whitespace(text[0]));
    assert(!crate::text::is_whitespace(text[35]));
    crate::text::lemma_trim_of_unpadded(text);
}

/// The canonical text of an identifier that arrives through IPC, or the
/// validation error of `field`. Outer white space is ignored.
pub open spec fn ipc_id_result(input: Seq<char>, field: &'static str) -> Result<Seq<char>, EgressError> {
    match uuid_parse_text(trim(input)) {
        Ok(canonical) => Ok(canonical),
        Err(_) => Err(EgressError::Validation { field, reason: "must be a uuid" }),
    }
}

/// The canonical text of a stored identifier, or a storage error that names the
/// entity and quotes the parse error.
pub open spec fn stored_id_result(input: Seq<char>, what: Seq<char>) -> Result<Seq<char>, Seq<char>> {
    match uuid_parse_text(input) {
        Ok(canonical) => Ok(canonical),
        Err(message) => Err("stored "@ + what + " id is invalid: "@ + message),
    }
}

/// A string result agrees with a model result of an identifier parse.
pub open spec fn id_agrees(r: Result<String, EgressError>, m: Result<Seq<char>, EgressError>) -> bool {
    match m {
        Ok(v) => r matches Ok(s) && s@ == v,
        Err(e) => r matches Err(error) && error == e,
    }
}

/// A string result agrees with a stored-identifier model: the error is a
/// storage error with the given text.
pub open spec fn stored_agrees(r: Result<String, EgressError>, m: Result<Seq<char>, Seq<char>>) -> bool {
    match m {
        Ok(v) => r matches Ok(s) && s@ == v,
        Err(text) => r matches Err(error) && error matches EgressError::Storage { source } && source@ == text,
    }
}

/// Parses a UUID that arrived through IPC and brings it to its canonical form.
pub(crate) fn parse_ipc_id(input: &str, field: &'static str) -> (result: Result<String, EgressError>)
    ensures
        id_agrees(result, ipc_id_result(input@, field)),
        result matches Ok(text) ==> is_id_text(text@),
{
    let trimmed = string_from(trim_str(input).as_slice());
    match parse_uuid_text(trimmed.as_str()) {
        Ok(canonical) => Ok(canonical),
        Err(_) => Err(EgressError::validation(field, "must be a uuid")),
    }
}

/// Parses a stored UUID; corrupt data is a storage error, not a user error.
pub(crate) fn parse_stored_id(input: &str, what: &str) -> (result: Result<String, EgressError>)
    ensures
        stored_agrees(result, stored_id_result(input@, what@)),
        result matches Ok(text) ==> is_id_text(text@),
{
    match parse_uuid_text(input) {
        Ok(canonical) => Ok(canonical),
        Err(message) => {
            let text = String::from_str("stored ").concat(what).concat(" id is invalid: ").concat(message.as_str());
            Err(EgressError::storage(text))
        },
    }
}

/// Identifier of a profile.
#[derive(Debug, PartialEq, Eq, Hash)]
pub struct ProfileId(String);

impl View for ProfileId {
    type V = Seq<char>;

    closed spec fn view(&self) -> Seq<char> {
        self.0@
    }
}

impl Clone for ProfileId {
    fn clone(&self) -> (copy: Self)
        ensures
            copy@ == self@,
    {
        proof {
            use_type_invariant(self);
        }
        ProfileId(self.0.clone())
    }
}

impl ProfileId {
    /// The text of an identifier is always a canonical UUID.
    #[verifier::type_invariant]
    spec fn canonical(self) -> bool {
        is_id_text(self.0@)
    }

    /// Creates a new random identifier.
    pub fn new() -> (id: Self)
        ensures
            is_id_text(id@),
    {
        ProfileId(new_uuid_text())
    }

    /// Parses an identifier that arrived through IPC.
    ///
    /// # Errors
    ///
    /// Returns a validation error of the field `profile_id` when the value is not a UUID.
    pub fn parse(input: &str) -> (result: Result<Self, EgressError>)
        ensures
            match ipc_id_result(input@, "profile_id") {
                Ok(v) => result matches Ok(id) && id@ == v,
                Err(e) => result matches Err(error) && error == e,
            },
    {
        match parse_ipc_id(input, "profile_id") {
            Ok(text) => Ok(ProfileId(text)),
            Err(error) => Err(error),
        }
    }

    /// Restores an identifier from storage.
    ///
    /// # Errors
    ///
    /// Returns a storage error: an invalid identifier in the database means
    /// corrupted data, not a user error.
    pub fn from_stored(input: &str) -> (result: Result<Self, EgressError>)
        ensures
            match stored_id_result(input@, "profile"@) {
                Ok(v) => result matches Ok(id) && id@ == v,
                Err(text) => result matches Err(error) && error matches EgressError::Storage { source } && source@ == text,
            },
    {
        match parse_stored_id(input, "profile") {
            Ok(text) => Ok(ProfileId(text)),
            Err(error) => Err(error),
        }
    }

    /// Text of the identifier, always a canonical UUID.
    pub fn as_str(&self) -> (text: &str)
        ensures
            text@ == self@,
            is_id_text(text@),
    {
        proof {
            use_type_invariant(self);
        }
        self.0.as_str()
    }

    /// Whether two identifiers are equal.
    pub fn same_as(&self, other: &ProfileId) -> (same: bool)
        ensures
            same == (self@ == other@),
    {
        crate::text::str_equal(self.0.as_str(), other.0.as_str())
    }
}

impl Default for ProfileId {
    fn default() -> (id: Self)
        ensures
            is_id_text(id@),
    {
        ProfileId::new()
    }
}

/// Identifier of a rule.
#[derive(Debug, PartialEq, Eq, Hash)]
pub struct RuleId(String);

impl View for RuleId {
    type V = Seq<char>;

    closed spec fn view(&self) -> Seq<char> {
        self.0@
    }
}

impl Clone for RuleId {
    fn clone(&self) -> (copy: Self)
        ensures
            copy@ == self@,
    {
        proof {
            use_type_invariant(self);
        }
        RuleId(self.0.clone())
    }
}

impl RuleId {
    /// The text of an identifier is always a canonical UUID.
    #[verifier::type_invariant]
    spec fn canonical(self) -> bool {
        is_id_text(self.0@)
    }

    /// Creates a new random identifier.
    pub fn new() -> (id: Self)
        ensures
            is_id_text(id@),
    {
        RuleId(new_uuid_text())
    }

    /// Parses an identifier that arrived through IPC.
    ///
    /// # Errors
    ///
    /// Returns a validation error of the field `rule_id` when the value is not a UUID.
    pub fn parse(input: &str) -> (result: Result<Self, EgressError>)
        ensures
            match ipc_id_result(input@, "rule_id") {
                Ok(v) => result matches Ok(id) && id@ == v,
                Err(e) => result matches Err(error) && error == e,
            },
    {
        match parse_ipc_id(input, "rule_id") {
            Ok(text) => Ok(RuleId(text)),
            Err(error) => Err(error),
        }
    }

    /// Restores an identifier from storage.
    ///
    /// # Errors
    ///
    /// Returns a storage error when the stored data is corrupted.
    pub fn from_stored(input: &str) -> (result: Result<Self, EgressError>)
        ensures
            match stored_id_result(input@, "rule"@) {
                Ok(v) => result matches Ok(id) && id@ == v,
                Err(text) => result matches Err(error) && error matches EgressError::Storage { source } && source@ == text,
            },
    {
        match parse_stored_id(input, "rule") {
            Ok(text) => Ok(RuleId(text)),
            Err(error) => Err(error),
        }
    }

    /// Text of the identifier, always a canonical UUID.
    pub fn as_str(&self) -> (text: &str)
        ensures
            text@ == self@,
            is_id_text(text@),
    {
        proof {
            use_type_invariant(self);
        }
        self.0.as_str()
    }
}

impl Default for RuleId {
    fn default() -> (id: Self)
        ensures
            is_id_text(id@),
    {
        RuleId::new()
    }
}

// ---------------------------------------------------------------------------
// Profile names.
// ---------------------------------------------------------------------------

/// `c` has the Unicode general category `Cc`, which `char::is_control` tests.
pub open spec fn is_control(c: char) -> bool {
    c <= '\u{1f}' || ('\u{7f}' <= c && c <= '\u{9f}')
}

/// The checked form of a profile name, or the validation error of the field `name`.
pub open spec fn name_result(input: Seq<char>) -> Result<Seq<char>, EgressError> {
    let trimmed = trim(input);
    if trimmed.len() == 0 {
        Err(EgressError::Validation { field: "name", reason: "must not be empty" })
    } else if trimmed.len() > 64 {
        Err(EgressError::Validation { field: "name", reason: "is too long" })
    } else if exists|i: int| 0 <= i < trimmed.len() && is_control(#[trigger] trimmed[i]) {
        Err(EgressError::Validation { field: "name", reason: "must not contain control characters" })
    } else {
        Ok(trimmed)
    }
}

/// What `str::to_lowercase` makes of `s`: its Unicode lower case.
pub uninterp spec fn unicode_lowercase(s: Seq<char>) -> Seq<char>;

/// Unicode lower case of a string (`str::to_lowercase`).
///
/// Claimed of the outside code: the result is `unicode_lowercase` of the input;
/// the case mapping itself is not stated.
#[verifier::external_body]
fn to_lowercase(s: &str) -> (lowered: String)
    ensures
        lowered@ == unicode_lowercase(s@),
{
    s.to_lowercase()
}

/// The key by which profile names are compared for uniqueness.
pub open spec fn folded_name(input: Seq<char>) -> Seq<char> {
    unicode_lowercase(trim(input))
}

/// Profile of a policy.
#[derive(Debug, PartialEq, Eq)]
pub struct Profile {
    /// Identifier of the profile.
    pub id: ProfileId,
    /// Name of the profile, unique among profiles.
    pub name: String,
    /// Action applied when no rule matches.
    pub default_action: Action,
    /// Creation time in milliseconds of the Unix epoch.
    pub created_at_unix_ms: i64,
    /// Time of the last change in milliseconds of the Unix epoch.
    pub updated_at_unix_ms: i64,
}

/// The model of a profile.
pub struct ProfileView {
    pub id: Seq<char>,
    pub name: Seq<char>,
    pub default_action: Action,
    pub created_at_unix_ms: i64,
    pub updated_at_unix_ms: i64,
}

impl View for Profile {
    type V = ProfileView;

    open spec fn view(&self) -> ProfileView {
        ProfileView {
            id: self.id@,
            name: self.name@,
            default_action: self.default_action,
            created_at_unix_ms: self.created_at_unix_ms,
            updated_at_unix_ms: self.updated_at_unix_ms,
        }
    }
}

impl Clone for Profile {
    fn clone(&self) -> (copy: Self)
        ensures
            copy@ == self@,
    {
        Profile {
            id: self.id.clone(),
            name: self.name.clone(),
            default_action: self.default_action,
            created_at_unix_ms: self.created_at_unix_ms,
            updated_at_unix_ms: self.updated_at_unix_ms,
        }
    }
}

impl Profile {
    /// Checks a profile name and brings it to its stored form.
    ///
    /// # Errors
    ///
    /// Returns a validation error of the field `name` when the name is empty,
    /// too long or holds control characters.
    pub fn validate_name(input: &str) -> (result: Result<String, EgressError>)
        ensures
            match name_result(input@) {
                Ok(v) => result matches Ok(name) && name@ == v,
                Err(e) => result matches Err(error) && error == e,
            },
    {
        let trimmed = trim_str(input);
        if trimmed.len() == 0 {
            return Err(EgressError::validation("name", "must not be empty"));
        }
        if trimmed.len() > MAX_PROFILE_NAME_LENGTH {
            return Err(EgressError::validation("name", "is too long"));
        }
        let mut i: usize = 0;
        while i < trimmed.len()
            invariant
                i <= trimmed.len(),
                trimmed@ == trim(input@),
                0 < trimmed.len() <= 64,
                forall|j: int| 0 <= j < i ==> !is_control(#[trigger] trimmed@[j]),
            decreases trimmed.len() - i,
        {
            let c = trimmed[i];
            if c <= '\u{1f}' || ('\u{7f}' <= c && c <= '\u{9f}') {
                assert(is_control(trimmed@[i as int]));
                return Err(EgressError::validation("name", "must not contain control characters"));
            }
            i += 1;
        }
        Ok(string_from(trimmed.as_slice()))
    }

    /// The form of a name by which uniqueness is checked.
    ///
    /// Unicode lower case is used, not SQLite's `COLLATE NOCASE`, which only
    /// knows ASCII and would tell «Работа» from «работа».
    pub fn fold_name(input: &str) -> (folded: String)
        ensures
            folded@ == folded_name(input@),
    {
        let trimmed = string_from(trim_str(input).as_slice());
        to_lowercase(trimmed.as_str())
    }
}

/// Data for creating a profile.
#[derive(Debug, PartialEq, Eq)]
pub struct ProfileDraft {
    /// Checked name of the profile.
    pub name: String,
    /// Default action.
    pub default_action: Action,
}

/// Rule of a profile.
#[derive(Debug, PartialEq, Eq)]
pub struct Rule {
    /// Identifier of the rule.
    pub id: RuleId,
    /// Profile that owns the rule.
    pub profile_id: ProfileId,
    /// Position in the order of the profile, from zero.
    pub position: u32,
    /// Action of the rule.
    pub action: Action,
    /// Host matching.
    pub host: HostMatcher,
    /// Port restriction.
    pub port: PortSpec,
}

/// The model of a rule.
pub struct RuleView {
    pub id: Seq<char>,
    pub profile_id: Seq<char>,
    pub position: u32,
    pub action: Action,
    pub host: (crate::host::HostKind, Seq<char>),
    pub port: PortSpec,
}

impl View for Rule {
    type V = RuleView;

    open spec fn view(&self) -> RuleView {
        RuleView {
            id: self.id@,
            profile_id: self.profile_id@,
            position: self.position,
            action: self.action,
            host: self.host@,
            port: self.port,
        }
    }
}

impl Clone for Rule {
    fn clone(&self) -> (copy: Self)
        ensures
            copy@ == self@,
    {
        Rule {
            id: self.id.clone(),
            profile_id: self.profile_id.clone(),
            position: self.position,
            action: self.action,
            host: self.host.clone(),
            port: self.port,
        }
    }
}

/// Checked data of a new rule or of a change to a rule.
#[derive(Debug, PartialEq, Eq)]
pub struct RuleDraft {
    /// Action of the rule.
    pub action: Action,
    /// Host matching.
    pub host: HostMatcher,
    /// Port restriction.
    pub port: PortSpec,
}

/// The model of a rule draft: action, matcher and port restriction.
pub open spec fn draft_view(draft: &RuleDraft) -> (Action, (crate::host::HostKind, Seq<char>), PortSpec) {
    (draft.action, draft.host@, draft.port)
}

} // verus!
