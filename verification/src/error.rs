//! The failures the service reports, and how each one reads.
//!
//! An error has two texts. Its message says in a sentence what went wrong:
//! that is what a result carries when an operation fails on its way
//! (`SpellError::message`, `error_text`). Its rendering is the error as the
//! value it is, written the way `{:?}` writes it: that is what a result
//! carries when it is made of an error directly (`format_error`,
//! `debug_text`).

use crate::auth::roles::Role;
use vstd::prelude::*;
use vstd::string::StringExecFns;

verus! {

/// Why an operation was refused or could not be served.
#[derive(Debug, Clone, PartialEq, Eq)]
pub enum SpellError {
    /// The storage engine failed; the text is its own report.
    SqliteError(String),
    /// Nothing is stored under the key.
    KeyNotExists(String),
    /// The relay was never set.
    NoRelay,
    /// Someone other than the creator tried to set the relay.
    SetRelayForbidden,
    /// The relay was set before: it is written once.
    RelayAlreadySet,
    /// Someone other than the creator tried to set the trigger config.
    SetTriggerConfigForbidden,
    /// No trigger config was ever set.
    NoTriggerConfig,
    /// The caller's role gives no right to write the key.
    WriteForbiddenForRole(String, Role),
    /// The caller is the host and the worker, and neither role gives the
    /// right to write the key.
    WriteForbiddenForHostAndWorker(String),
    /// The caller has no role at all.
    WriteForbiddenForOutsider(String),
    /// The text handed in is not a JSON object; the text is the parser's report.
    NotJsonObject(String),
    /// Someone other than the spell tried to store a log.
    StoreLogForbidden,
    /// Someone other than the spell tried to take a message from the mailbox.
    PopMailboxForbidden,
    /// Someone other than the spell tried to store an error.
    StoreErrorForbidden,
    /// Someone other than the creator tried to set the script.
    SetScriptForbidden,
    /// The script was set before, where it may be set only once.
    ScriptAlreadySet,
    /// No script was ever set.
    NoScript,
}

/// A `SpellError` as plain values.
pub enum SpellErrorView {
    SqliteError(Seq<char>),
    KeyNotExists(Seq<char>),
    NoRelay,
    SetRelayForbidden,
    RelayAlreadySet,
    SetTriggerConfigForbidden,
    NoTriggerConfig,
    WriteForbiddenForRole(Seq<char>, Role),
    WriteForbiddenForHostAndWorker(Seq<char>),
    WriteForbiddenForOutsider(Seq<char>),
    NotJsonObject(Seq<char>),
    StoreLogForbidden,
    PopMailboxForbidden,
    StoreErrorForbidden,
    SetScriptForbidden,
    ScriptAlreadySet,
    NoScript,
}

impl View for SpellError {
    type V = SpellErrorView;

    open spec fn view(&self) -> SpellErrorView {
        match self {
            SpellError::SqliteError(m) => SpellErrorView::SqliteError(m@),
            SpellError::KeyNotExists(k) => SpellErrorView::KeyNotExists(k@),
            SpellError::NoRelay => SpellErrorView::NoRelay,
            SpellError::SetRelayForbidden => SpellErrorView::SetRelayForbidden,
            SpellError::RelayAlreadySet => SpellErrorView::RelayAlreadySet,
            SpellError::SetTriggerConfigForbidden => SpellErrorView::SetTriggerConfigForbidden,
            SpellError::NoTriggerConfig => SpellErrorView::NoTriggerConfig,
            SpellError::WriteForbiddenForRole(k, r) => SpellErrorView::WriteForbiddenForRole(k@, *r),
            SpellError::WriteForbiddenForHostAndWorker(k) => SpellErrorView::WriteForbiddenForHostAndWorker(
                k@,
            ),
            SpellError::WriteForbiddenForOutsider(k) => SpellErrorView::WriteForbiddenForOutsider(k@),
            SpellError::NotJsonObject(m) => SpellErrorView::NotJsonObject(m@),
            SpellError::StoreLogForbidden => SpellErrorView::StoreLogForbidden,
            SpellError::PopMailboxForbidden => SpellErrorView::PopMailboxForbidden,
            SpellError::StoreErrorForbidden => SpellErrorView::StoreErrorForbidden,
            SpellError::SetScriptForbidden => SpellErrorView::SetScriptForbidden,
            SpellError::ScriptAlreadySet => SpellErrorView::ScriptAlreadySet,
            SpellError::NoScript => SpellErrorView::NoScript,
        }
    }
}

/// How a role is written in a message.
pub open spec fn role_name(role: Role) -> Seq<char> {
    match role {
        Role::Spell => "Spell"@,
        Role::Host => "Host"@,
        Role::Worker => "Worker"@,
    }
}

/// The message of an error: what went wrong, in a sentence.
pub open spec fn error_text(e: SpellErrorView) -> Seq<char> {
    match e {
        SpellErrorView::SqliteError(m) => "Internal Sqlite error: "@ + m,
        SpellErrorView::KeyNotExists(k) => "Key '"@ + k + "' does not exist"@,
        SpellErrorView::NoRelay => "Location not available: relay was not set"@,
        SpellErrorView::SetRelayForbidden => "Only owner of the spell can set relay peer id"@,
        SpellErrorView::RelayAlreadySet => "Relay was already set and cannot be changed"@,
        SpellErrorView::SetTriggerConfigForbidden => "Only owner of the spell can set trigger config"@,
        SpellErrorView::NoTriggerConfig => "Trigger Config is not set. Use set_trigger_config to set it."@,
        SpellErrorView::WriteForbiddenForRole(k, r) => "writing to the `"@ + k
            + "` is forbidden for the callers with the role "@ + role_name(r),
        SpellErrorView::WriteForbiddenForHostAndWorker(k) => "writing to the `"@ + k
            + "` is forbidden for the callers with the roles Host and Worker"@,
        SpellErrorView::WriteForbiddenForOutsider(k) => "writing to the `"@ + k
            + "` is forbidden for any outside caller"@,
        SpellErrorView::NotJsonObject(m) => "passed string must represent a JSON object: "@ + m,
        SpellErrorView::StoreLogForbidden => "store_log can be called only by the associated spell script"@,
        SpellErrorView::PopMailboxForbidden => "pop_mailbox can be called only by the associated spell script"@,
        SpellErrorView::StoreErrorForbidden => "store_error can be called only by the associated spell script"@,
        SpellErrorView::SetScriptForbidden => "Only owner of the service can set the script"@,
        SpellErrorView::ScriptAlreadySet => "Script can be set only once, and it was already set"@,
        SpellErrorView::NoScript => "Script was not set"@,
    }
}

/// The name of a role, as messages spell it.
pub fn role_text(role: Role) -> (r: &'static str)
    ensures
        r@ == role_name(role),
{
    match role {
        Role::Spell => "Spell",
        Role::Host => "Host",
        Role::Worker => "Worker",
    }
}

/// The text that `{:?}` writes for a string: the string in double quotes,
/// with what cannot stand there as it is written as an escape.
pub uninterp spec fn debug_quoted(text: Seq<char>) -> Seq<char>;

/// `format!("{:?}", text)`, which is the `Debug` of `str`. The contract
/// claims only that the outcome is a function of the text: `debug_quoted` is
/// the name of that function.
#[verifier::external_body]
fn debug_quote(text: &str) -> (r: String)
    ensures
        r@ == debug_quoted(text@),
{
    format!("{:?}", text)
}

/// The name of a variant with the one string it holds, as `{:?}` writes them.
pub open spec fn named_with_text(name: Seq<char>, text: Seq<char>) -> Seq<char> {
    name + "("@ + debug_quoted(text) + ")"@
}

/// The rendering of an error: the name of its variant and, in brackets, what
/// the variant holds, each string as `{:?}` writes it.
pub open spec fn debug_text(e: SpellErrorView) -> Seq<char> {
    match e {
        SpellErrorView::SqliteError(m) => named_with_text("SqliteError"@, m),
        SpellErrorView::KeyNotExists(k) => named_with_text("KeyNotExists"@, k),
        SpellErrorView::NoRelay => "NoRelay"@,
        SpellErrorView::SetRelayForbidden => "SetRelayForbidden"@,
        SpellErrorView::RelayAlreadySet => "RelayAlreadySet"@,
        SpellErrorView::SetTriggerConfigForbidden => "SetTriggerConfigForbidden"@,
        SpellErrorView::NoTriggerConfig => "NoTriggerConfig"@,
        SpellErrorView::WriteForbiddenForRole(k, r) => "WriteForbiddenForRole("@ + debug_quoted(k)
            + ", "@ + role_name(r) + ")"@,
        SpellErrorView::WriteForbiddenForHostAndWorker(k) => named_with_text(
            "WriteForbiddenForHostAndWorker"@,
            k,
        ),
        SpellErrorView::WriteForbiddenForOutsider(k) => named_with_text(
            "WriteForbiddenForOutsider"@,
            k,
        ),
        SpellErrorView::NotJsonObject(m) => named_with_text("NotJsonObject"@, m),
        SpellErrorView::StoreLogForbidden => "StoreLogForbidden"@,
        SpellErrorView::PopMailboxForbidden => "PopMailboxForbidden"@,
        SpellErrorView::StoreErrorForbidden => "StoreErrorForbidden"@,
        SpellErrorView::SetScriptForbidden => "SetScriptForbidden"@,
        SpellErrorView::ScriptAlreadySet => "ScriptAlreadySet"@,
        SpellErrorView::NoScript => "NoScript"@,
    }
}

/// The name of a variant with the one string it holds, as `{:?}` writes them.
fn render_with_text(name: &str, text: &str) -> (r: String)
    ensures
        r@ == named_with_text(name@, text@),
{
    String::from_str(name).concat("(").concat(debug_quote(text).as_str()).concat(")")
}

/// Renders an error the way `{:?}` does: `NoRelay` for `SpellError::NoRelay`.
/// For the error's message, see `SpellError::message`.
pub fn format_error(e: &SpellError) -> (r: String)
    ensures
        r@ == debug_text(e@),
{
    match e {
        SpellError::SqliteError(m) => render_with_text("SqliteError", m.as_str()),
        SpellError::KeyNotExists(k) => render_with_text("KeyNotExists", k.as_str()),
        SpellError::NoRelay => String::from_str("NoRelay"),
        SpellError::SetRelayForbidden => String::from_str("SetRelayForbidden"),
        SpellError::RelayAlreadySet => String::from_str("RelayAlreadySet"),
        SpellError::SetTriggerConfigForbidden => String::from_str("SetTriggerConfigForbidden"),
        SpellError::NoTriggerConfig => String::from_str("NoTriggerConfig"),
        SpellError::WriteForbiddenForRole(k, role) => String::from_str(
            "WriteForbiddenForRole(",
        ).concat(debug_quote(k.as_str()).as_str()).concat(", ").concat(role_text(*role)).concat(")"),
        SpellError::WriteForbiddenForHostAndWorker(k) => render_with_text(
            "WriteForbiddenForHostAndWorker",
            k.as_str(),
        ),
        SpellError::WriteForbiddenForOutsider(k) => render_with_text(
            "WriteForbiddenForOutsider",
            k.as_str(),
        ),
        SpellError::NotJsonObject(m) => render_with_text("NotJsonObject", m.as_str()),
        SpellError::StoreLogForbidden => String::from_str("StoreLogForbidden"),
        SpellError::PopMailboxForbidden => String::from_str("PopMailboxForbidden"),
        SpellError::StoreErrorForbidden => String::from_str("StoreErrorForbidden"),
        SpellError::SetScriptForbidden => String::from_str("SetScriptForbidden"),
        SpellError::ScriptAlreadySet => String::from_str("ScriptAlreadySet"),
        SpellError::NoScript => String::from_str("NoScript"),
    }
}

impl SpellError {
    /// The message of this error: what went wrong, in a sentence.
    pub fn message(&self) -> (r: String)
        ensures
            r@ == error_text(self@),
    {
        match self {
            SpellError::SqliteError(m) => String::from_str("Internal Sqlite error: ").concat(
                m.as_str(),
            ),
            SpellError::KeyNotExists(k) => String::from_str("Key '").concat(k.as_str()).concat(
                "' does not exist",
            ),
            SpellError::NoRelay => String::from_str("Location not available: relay was not set"),
            SpellError::SetRelayForbidden => String::from_str(
                "Only owner of the spell can set relay peer id",
            ),
            SpellError::RelayAlreadySet => String::from_str(
                "Relay was already set and cannot be changed",
            ),
            SpellError::SetTriggerConfigForbidden => String::from_str(
                "Only owner of the spell can set trigger config",
            ),
            SpellError::NoTriggerConfig => String::from_str(
                "Trigger Config is not set. Use set_trigger_config to set it.",
            ),
            SpellError::WriteForbiddenForRole(k, role) => String::from_str(
                "writing to the `",
            ).concat(k.as_str()).concat("` is forbidden for the callers with the role ").concat(
                role_text(*role),
            ),
            SpellError::WriteForbiddenForHostAndWorker(k) => String::from_str(
                "writing to the `",
            ).concat(k.as_str()).concat(
                "` is forbidden for the callers with the roles Host and Worker",
            ),
            SpellError::WriteForbiddenForOutsider(k) => String::from_str("writing to the `").concat(
                k.as_str(),
            ).concat("` is forbidden for any outside caller"),
            SpellError::NotJsonObject(m) => String::from_str(
                "passed string must represent a JSON object: ",
            ).concat(m.as_str()),
            SpellError::StoreLogForbidden => String::from_str(
                "store_log can be called only by the associated spell script",
            ),
            SpellError::PopMailboxForbidden => String::from_str(
                "pop_mailbox can be called only by the associated spell script",
            ),
            SpellError::StoreErrorForbidden => String::from_str(
                "store_error can be called only by the associated spell script",
            ),
            SpellError::SetScriptForbidden => String::from_str(
                "Only owner of the service can set the script",
            ),
            SpellError::ScriptAlreadySet => String::from_str(
                "Script can be set only once, and it was already set",
            ),
            SpellError::NoScript => String::from_str("Script was not set"),
        }
    }
}

} // verus!
