//! The credential record: its stored form, how it is read, and how a new one
//! is made from the operator's responses.

use vstd::prelude::*;
use crate::input::{clean_line, trimmed};
use toml::Value;

verus! {

/// The relay host that is stored when the operator names none.
pub const DEFAULT_HOST: &'static str = "smtp.gmail.com";

/// Where the credential record lives, below the per-user configuration
/// directory.
pub const CONFIG_LOCATION: &'static str = "emu/config.toml";

/// `toml::Value`, a parsed TOML value. The proofs see nothing inside it; what
/// they know of one is said through `string_entries`.
#[verifier::external_type_specification]
#[verifier::external_body]
pub struct ExValue(toml::Value);

/// `toml::de::Error`, the parser's complaint. It is only told apart from a
/// parsed document.
#[verifier::external_type_specification]
#[verifier::external_body]
pub struct ExParseError(toml::de::Error);

/// The string entries at the top level of a TOML value: each key of the
/// table whose value is a string, with that string. A key whose value is of
/// another type is not in the map, and a value that is no table has none.
pub uninterp spec fn string_entries(doc: Value) -> Map<Seq<char>, Seq<char>>;

/// What `toml::from_str` makes of a text: `None` where it is no TOML
/// document, else the string entries at the document's top level.
pub uninterp spec fn parsed_entries(text: Seq<char>) -> Option<Map<Seq<char>, Seq<char>>>;

/// Calls `toml::from_str` for a `toml::Value`. The parser reads nothing but
/// the text, so its verdict and the entries of the document it returns are
/// those that `parsed_entries` names.
#[verifier::external_body]
fn parse_document(text: &str) -> (doc: Result<Value, toml::de::Error>)
    ensures
        doc is Ok <==> parsed_entries(text@) is Some,
        doc matches Ok(value) ==> parsed_entries(text@) == Some(string_entries(value)),
{
    toml::from_str::<Value>(text)
}

/// Calls `Value::get` with a string key and `Value::as_str` on what it
/// finds: `get` answers only for a table that holds the key, `as_str` only
/// for a string value, which is then handed out unchanged.
#[verifier::external_body]
fn string_entry<'a>(doc: &'a Value, key: &str) -> (entry: Option<&'a str>)
    ensures
        entry is Some <==> string_entries(*doc).contains_key(key@),
        entry matches Some(text) ==> text@ == string_entries(*doc)[key@],
{
    doc.get(key).and_then(Value::as_str)
}

/// One of the three fields of the credential record.
#[derive(Clone, Copy, Debug, PartialEq, Eq, Structural)]
pub enum Field {
    Password,
    Email,
    Host,
}

impl Field {
    /// The key under which the field is stored.
    pub open spec fn key(self) -> Seq<char> {
        match self {
            Field::Password => "password"@,
            Field::Email => "email"@,
            Field::Host => "host"@,
        }
    }

    /// The key under which the field is stored.
    pub fn name(self) -> (name: &'static str)
        ensures
            name@ == self.key(),
    {
        match self {
            Field::Password => "password",
            Field::Email => "email",
            Field::Host => "host",
        }
    }
}

/// Why no credential record could be had.
#[derive(Clone, Copy, Debug, PartialEq, Eq, Structural)]
pub enum ConfigError {
    /// The file could not be read.
    Unreadable,
    /// The text is no TOML document.
    Malformed,
    /// The field is absent from the top level of the document, or its value
    /// is no string.
    FieldMissing(Field),
}

impl ConfigError {
    /// The wording of the diagnostic.
    pub open spec fn message_text(self) -> Seq<char> {
        match self {
            ConfigError::Unreadable => "Error reading TOML config file"@,
            ConfigError::Malformed => "Error parsing TOML"@,
            ConfigError::FieldMissing(Field::Password) => "Missing or invalid password"@,
            ConfigError::FieldMissing(Field::Email) => "Missing or invalid email"@,
            ConfigError::FieldMissing(Field::Host) => "Missing or invalid host"@,
        }
    }

    /// The diagnostic shown to the operator.
    pub fn message(&self) -> (text: &'static str)
        ensures
            text@ == self.message_text(),
    {
        match self {
            ConfigError::Unreadable => "Error reading TOML config file",
            ConfigError::Malformed => "Error parsing TOML",
            ConfigError::FieldMissing(Field::Password) => "Missing or invalid password",
            ConfigError::FieldMissing(Field::Email) => "Missing or invalid email",
            ConfigError::FieldMissing(Field::Host) => "Missing or invalid host",
        }
    }
}

/// Why a generated record was not stored.
#[derive(Clone, Copy, Debug, PartialEq, Eq, Structural)]
pub enum StoreError {
    /// The directory for the configuration file could not be created.
    FolderNotCreated,
    /// The record could not be put into its stored form.
    NotSerialized,
    /// The configuration file could not be written.
    FileNotWritten,
}

impl StoreError {
    /// The wording of the diagnostic.
    pub open spec fn message_text(self) -> Seq<char> {
        match self {
            StoreError::FolderNotCreated => "Failed to create emu folder"@,
            StoreError::NotSerialized => "Failed to serialize to TOML"@,
            StoreError::FileNotWritten => "Failed to write to config file"@,
        }
    }

    /// The diagnostic shown to the operator.
    pub fn message(&self) -> (text: &'static str)
        ensures
            text@ == self.message_text(),
    {
        match self {
            StoreError::FolderNotCreated => "Failed to create emu folder",
            StoreError::NotSerialized => "Failed to serialize to TOML",
            StoreError::FileNotWritten => "Failed to write to config file",
        }
    }
}

/// The credential record: the sender's address, the secret that goes with
/// it, and the relay host that takes the mail.
#[derive(Debug, PartialEq, Eq)]
pub struct UserDetails {
    pub password: String,
    pub email: String,
    pub host: String,
}

/// What a `UserDetails` holds, as sequences of characters.
pub struct UserDetailsView {
    pub password: Seq<char>,
    pub email: Seq<char>,
    pub host: Seq<char>,
}

impl View for UserDetails {
    type V = UserDetailsView;

    open spec fn view(&self) -> UserDetailsView {
        UserDetailsView { password: self.password@, email: self.email@, host: self.host@ }
    }
}

/// The view of a field as it was looked up.
pub open spec fn field_view(field: Option<&str>) -> Option<Seq<char>> {
    match field {
        Some(text) => Some(text@),
        None => None,
    }
}

/// The view of what loading returns.
pub open spec fn loaded_view(loaded: Result<UserDetails, ConfigError>) -> Result<
    UserDetailsView,
    ConfigError,
> {
    match loaded {
        Ok(details) => Ok(details@),
        Err(error) => Err(error),
    }
}

/// The record made of three fields as they were looked up. The fields are
/// tried in the order password, email, host, and the first that is absent
/// is the one reported; a record comes only where all three are there.
pub open spec fn record_from(
    password: Option<Seq<char>>,
    email: Option<Seq<char>>,
    host: Option<Seq<char>>,
) -> Result<UserDetailsView, ConfigError> {
    if password is None {
        Err(ConfigError::FieldMissing(Field::Password))
    } else if email is None {
        Err(ConfigError::FieldMissing(Field::Email))
    } else if host is None {
        Err(ConfigError::FieldMissing(Field::Host))
    } else {
        Ok(UserDetailsView { password: password->0, email: email->0, host: host->0 })
    }
}

/// The entry stored under a field's key, if there is one.
pub open spec fn entry_of(entries: Map<Seq<char>, Seq<char>>, field: Field) -> Option<Seq<char>> {
    if entries.contains_key(field.key()) {
        Some(entries[field.key()])
    } else {
        None
    }
}

/// The record that a document with these string entries stands for.
pub open spec fn record_of(entries: Map<Seq<char>, Seq<char>>) -> Result<
    UserDetailsView,
    ConfigError,
> {
    record_from(
        entry_of(entries, Field::Password),
        entry_of(entries, Field::Email),
        entry_of(entries, Field::Host),
    )
}

/// The record that a text stands for: a text that is no document is
/// malformed, and a document is read field by field.
pub open spec fn loaded_record(text: Seq<char>) -> Result<UserDetailsView, ConfigError> {
    match parsed_entries(text) {
        Some(entries) => record_of(entries),
        None => Err(ConfigError::Malformed),
    }
}

/// The flat document that stores a record: its three entries and no other.
pub open spec fn entries_of(record: UserDetailsView) -> Map<Seq<char>, Seq<char>> {
    Map::empty().insert(Field::Password.key(), record.password).insert(
        Field::Email.key(),
        record.email,
    ).insert(Field::Host.key(), record.host)
}

/// The host to store for the operator's response to the host prompt: the
/// response itself, or `DEFAULT_HOST` where the response is blank, that is,
/// holds nothing but white space.
pub open spec fn resolved_host(response: Seq<char>) -> Seq<char> {
    if trimmed(response).len() == 0 {
        DEFAULT_HOST@
    } else {
        response
    }
}

impl UserDetails {
    /// Builds the record from the three fields as they were looked up in a
    /// document, `None` standing for a field that is absent or no string.
    pub fn from_fields(password: Option<&str>, email: Option<&str>, host: Option<&str>) -> (loaded:
        Result<UserDetails, ConfigError>)
        ensures
            loaded_view(loaded) == record_from(
                field_view(password),
                field_view(email),
                field_view(host),
            ),
    {
        match password {
            None => Err(ConfigError::FieldMissing(Field::Password)),
            Some(password) => match email {
                None => Err(ConfigError::FieldMissing(Field::Email)),
                Some(email) => match host {
                    None => Err(ConfigError::FieldMissing(Field::Host)),
                    Some(host) => Ok(
                        UserDetails {
                            password: password.to_owned(),
                            email: email.to_owned(),
                            host: host.to_owned(),
                        },
                    ),
                },
            },
        }
    }

    /// Reads the record out of a parsed document.
    pub fn from_toml(toml: &Value) -> (loaded: Result<UserDetails, ConfigError>)
        ensures
            loaded_view(loaded) == record_of(string_entries(*toml)),
    {
        let password = string_entry(toml, Field::Password.name());
        let email = string_entry(toml, Field::Email.name());
        let host = string_entry(toml, Field::Host.name());
        UserDetails::from_fields(password, email, host)
    }
}

/// Reads the record out of the text of the configuration file.
pub fn load(text: &str) -> (loaded: Result<UserDetails, ConfigError>)
    ensures
        loaded_view(loaded) == loaded_record(text@),
{
    match parse_document(text) {
        Ok(doc) => UserDetails::from_toml(&doc),
        Err(_) => Err(ConfigError::Malformed),
    }
}

/// Builds the record to store from the operator's three responses. A blank
/// host response stands for `DEFAULT_HOST`.
pub fn generate_config(email: String, password: String, host: String) -> (details: UserDetails)
    ensures
        details@ == (UserDetailsView {
            password: password@,
            email: email@,
            host: resolved_host(host@),
        }),
{
    let host = if clean_line(host.as_str()).as_str().is_empty() {
        DEFAULT_HOST.to_owned()
    } else {
        host
    };
    UserDetails { password, email, host }
}

/// A document that lacks one of the three entries yields no record: loading
/// it fails, and the error names a field that is in fact missing.
pub proof fn lemma_missing_field_is_reported(entries: Map<Seq<char>, Seq<char>>, field: Field)
    requires
        !entries.contains_key(field.key()),
    ensures
        record_of(entries) is Err,
        record_of(entries) matches Err(ConfigError::FieldMissing(named)) && !entries.contains_key(
            named.key(),
        ),
{
}

/// A record comes out of loading only where all three entries are there,
/// and then it holds exactly their values.
pub proof fn lemma_record_is_complete(entries: Map<Seq<char>, Seq<char>>)
    ensures
        record_of(entries) is Ok <==> entries.contains_key(Field::Password.key())
            && entries.contains_key(Field::Email.key()) && entries.contains_key(Field::Host.key()),
        record_of(entries) matches Ok(record) ==> record.password == entries[Field::Password.key()]
            && record.email == entries[Field::Email.key()] && record.host
            == entries[Field::Host.key()],
{
}

/// Storing a record as its three entries and reading them back gives the
/// record again, whatever the three values are.
pub proof fn lemma_entries_round_trip(record: UserDetailsView)
    ensures
        record_of(entries_of(record)) == Ok::<UserDetailsView, ConfigError>(record),
{
    // The three keys differ, by their lengths alone.
    reveal_strlit("password");
    reveal_strlit("email");
    reveal_strlit("host");
    assert("password"@.len() == 8 && "email"@.len() == 5 && "host"@.len() == 4);
}

} // verus!
