//! The results that the service hands back. Every operation returns one, and
//! none fails in any other way: `success` tells whether it worked, `error`
//! holds the reason where it did not, and `absent` marks a read that found
//! nothing, which is a success.

use crate::auth::roles::CallContext;
use crate::error::{debug_text, error_text, format_error, SpellError};
use vstd::prelude::*;
use vstd::std_specs::convert::FromSpecImpl;
use vstd::string::StringExecFns;

verus! {

/// What every result can tell: whether it is a success, and why not.
pub trait SpellValueT: Sized {
    /// Whether the result is a success.
    spec fn succeeded(&self) -> bool;

    /// The error that the result carries.
    spec fn failure_text(&self) -> Seq<char>;

    fn is_success(&self) -> (r: bool)
        ensures
            r == self.succeeded(),
    ;

    fn take_error(self) -> (r: String)
        ensures
            r@ == self.failure_text(),
    ;
}

/// The result of an operation that returns nothing.
#[derive(Debug, Clone, PartialEq, Eq)]
pub struct UnitValue {
    pub success: bool,
    pub error: String,
}

impl UnitValue {
    /// A success.
    pub fn ok() -> (r: Self)
        ensures
            r.success,
            r.error@ == Seq::<char>::empty(),
    {
        Self { success: true, error: String::new() }
    }

    /// A failure with the given reason.
    pub fn error(error: &str) -> (r: Self)
        ensures
            !r.success,
            r.error@ == error@,
    {
        Self { success: false, error: String::from_str(error) }
    }

    /// A failure that carries `error` as the value it is: the reason is the
    /// rendering of the error, `NoRelay` for `SpellError::NoRelay`.
    pub fn spell_error(error: SpellError) -> (r: Self)
        ensures
            !r.success,
            r.error@ == debug_text(error@),
    {
        Self { success: false, error: format_error(&error) }
    }
}

impl FromSpecImpl<Result<(), SpellError>> for UnitValue {
    /// `from` is described by its own `ensures`: no spec function can build
    /// the strings of a result.
    open spec fn obeys_from_spec() -> bool {
        false
    }

    open spec fn from_spec(v: Result<(), SpellError>) -> Self {
        arbitrary()
    }
}

impl From<Result<(), SpellError>> for UnitValue {
    fn from(value: Result<(), SpellError>) -> (r: Self)
        ensures
            r.success == value.is_ok(),
            value.is_ok() ==> r.error@ == Seq::<char>::empty(),
            value matches Err(e) ==> r.error@ == error_text(e@),
    {
        match value {
            Ok(_) => UnitValue::ok(),
            Err(e) => UnitValue { success: false, error: e.message() },
        }
    }
}

impl SpellValueT for UnitValue {
    open spec fn succeeded(&self) -> bool {
        self.success
    }

    open spec fn failure_text(&self) -> Seq<char> {
        self.error@
    }

    fn is_success(&self) -> (r: bool) {
        self.success
    }

    fn take_error(self) -> (r: String) {
        self.error
    }
}

impl FromSpecImpl<SpellError> for UnitValue {
    /// `from` is described by its own `ensures`: no spec function can build
    /// the strings of a result.
    open spec fn obeys_from_spec() -> bool {
        false
    }

    open spec fn from_spec(v: SpellError) -> Self {
        arbitrary()
    }
}

impl From<SpellError> for UnitValue {
    fn from(error: SpellError) -> (r: Self)
        ensures
            !r.success,
            r.error@ == debug_text(error@),
    {
        UnitValue::spell_error(error)
    }
}

/// The result of an operation that returns nothing, with its fields kept to
/// itself: they are read through `is_success` and `reason`.
#[derive(Debug, Clone, PartialEq, Eq)]
pub struct UnitResult {
    success: bool,
    error: String,
}

impl UnitResult {
    /// Whether this is a success.
    pub closed spec fn succeeded(&self) -> bool {
        self.success
    }

    /// The reason of a failure.
    pub closed spec fn failure_text(&self) -> Seq<char> {
        self.error@
    }

    /// A success.
    pub fn ok() -> (r: Self)
        ensures
            r.succeeded(),
            r.failure_text() == Seq::<char>::empty(),
    {
        Self { success: true, error: String::new() }
    }

    /// A failure with the given reason.
    pub fn error(error: &str) -> (r: Self)
        ensures
            !r.succeeded(),
            r.failure_text() == error@,
    {
        Self { success: false, error: String::from_str(error) }
    }

    /// Whether this is a success.
    pub fn is_success(&self) -> (r: bool)
        ensures
            r == self.succeeded(),
    {
        self.success
    }

    /// The reason of a failure; empty for a success.
    pub fn reason(&self) -> (r: &str)
        ensures
            r@ == self.failure_text(),
    {
        self.error.as_str()
    }
}

impl FromSpecImpl<Result<(), SpellError>> for UnitResult {
    /// `from` is described by its own `ensures`: no spec function can build
    /// the strings of a result.
    open spec fn obeys_from_spec() -> bool {
        false
    }

    open spec fn from_spec(v: Result<(), SpellError>) -> Self {
        arbitrary()
    }
}

impl From<Result<(), SpellError>> for UnitResult {
    fn from(value: Result<(), SpellError>) -> (r: Self)
        ensures
            r.succeeded() == value.is_ok(),
            value.is_ok() ==> r.failure_text() == Seq::<char>::empty(),
            value matches Err(e) ==> r.failure_text() == error_text(e@),
    {
        match value {
            Ok(_) => UnitResult::ok(),
            Err(e) => {
                let text = e.message();
                UnitResult::error(text.as_str())
            },
        }
    }
}

/// The result of reading a string.
#[derive(Debug, Clone, PartialEq, Eq)]
pub struct StringValue {
    pub value: String,
    pub success: bool,
    pub error: String,
    pub absent: bool,
}

impl FromSpecImpl<Result<Option<String>, SpellError>> for StringValue {
    /// `from` is described by its own `ensures`: no spec function can build
    /// the strings of a result.
    open spec fn obeys_from_spec() -> bool {
        false
    }

    open spec fn from_spec(v: Result<Option<String>, SpellError>) -> Self {
        arbitrary()
    }
}

impl From<Result<Option<String>, SpellError>> for StringValue {
    fn from(value: Result<Option<String>, SpellError>) -> (r: Self)
        ensures
            r.success == value.is_ok(),
            r.absent == (value == Ok::<Option<String>, SpellError>(None)),
            value matches Ok(Some(s)) ==> r.value == s,
            !(value matches Ok(Some(_))) ==> r.value@ == Seq::<char>::empty(),
            value.is_ok() ==> r.error@ == Seq::<char>::empty(),
            value matches Err(e) ==> r.error@ == error_text(e@),
    {
        match value {
            Ok(Some(value)) => StringValue {
                value,
                success: true,
                error: String::new(),
                absent: false,
            },
            Ok(None) => StringValue {
                value: String::new(),
                success: true,
                error: String::new(),
                absent: true,
            },
            Err(e) => StringValue {
                value: String::new(),
                success: false,
                error: e.message(),
                absent: false,
            },
        }
    }
}

impl SpellValueT for StringValue {
    open spec fn succeeded(&self) -> bool {
        self.success
    }

    open spec fn failure_text(&self) -> Seq<char> {
        self.error@
    }

    fn is_success(&self) -> (r: bool) {
        self.success
    }

    fn take_error(self) -> (r: String) {
        self.error
    }
}

/// The result of reading a list of strings.
#[derive(Debug, Clone, PartialEq, Eq)]
pub struct StringListValue {
    pub value: Vec<String>,
    pub success: bool,
    pub error: String,
}

impl FromSpecImpl<Result<Vec<String>, SpellError>> for StringListValue {
    /// `from` is described by its own `ensures`: no spec function can build
    /// the strings of a result.
    open spec fn obeys_from_spec() -> bool {
        false
    }

    open spec fn from_spec(v: Result<Vec<String>, SpellError>) -> Self {
        arbitrary()
    }
}

impl From<Result<Vec<String>, SpellError>> for StringListValue {
    fn from(value: Result<Vec<String>, SpellError>) -> (r: Self)
        ensures
            r.success == value.is_ok(),
            value matches Ok(list) ==> r.value == list,
            value.is_err() ==> r.value@ == Seq::<String>::empty(),
            value.is_ok() ==> r.error@ == Seq::<char>::empty(),
            value matches Err(e) ==> r.error@ == error_text(e@),
    {
        match value {
            Ok(value) => StringListValue { value, success: true, error: String::new() },
            Err(e) => StringListValue {
                value: Vec::new(),
                success: false,
                error: e.message(),
            },
        }
    }
}

impl SpellValueT for StringListValue {
    open spec fn succeeded(&self) -> bool {
        self.success
    }

    open spec fn failure_text(&self) -> Seq<char> {
        self.error@
    }

    fn is_success(&self) -> (r: bool) {
        self.success
    }

    fn take_error(self) -> (r: String) {
        self.error
    }
}

/// The result of reading a number.
#[derive(Debug, Clone, PartialEq, Eq)]
pub struct U32Value {
    pub value: u32,
    pub success: bool,
    pub error: String,
    pub absent: bool,
}

impl FromSpecImpl<Result<Option<u32>, SpellError>> for U32Value {
    /// `from` is described by its own `ensures`: no spec function can build
    /// the strings of a result.
    open spec fn obeys_from_spec() -> bool {
        false
    }

    open spec fn from_spec(v: Result<Option<u32>, SpellError>) -> Self {
        arbitrary()
    }
}

impl From<Result<Option<u32>, SpellError>> for U32Value {
    fn from(value: Result<Option<u32>, SpellError>) -> (r: Self)
        ensures
            r.success == value.is_ok(),
            r.absent == (value == Ok::<Option<u32>, SpellError>(None)),
            value matches Ok(Some(n)) ==> r.value == n,
            !(value matches Ok(Some(_))) ==> r.value == 0,
            value.is_ok() ==> r.error@ == Seq::<char>::empty(),
            value matches Err(e) ==> r.error@ == error_text(e@),
    {
        match value {
            Ok(Some(value)) => U32Value {
                value,
                success: true,
                error: String::new(),
                absent: false,
            },
            Ok(None) => U32Value { value: 0, success: true, error: String::new(), absent: true },
            Err(e) => U32Value {
                value: 0,
                success: false,
                error: e.message(),
                absent: false,
            },
        }
    }
}

impl SpellValueT for U32Value {
    open spec fn succeeded(&self) -> bool {
        self.success
    }

    open spec fn failure_text(&self) -> Seq<char> {
        self.error@
    }

    fn is_success(&self) -> (r: bool) {
        self.success
    }

    fn take_error(self) -> (r: String) {
        self.error
    }
}

/// The result of reading the script.
#[derive(Debug, Clone, PartialEq, Eq)]
pub struct ScriptValue {
    pub value: String,
    pub success: bool,
    pub error: String,
}

impl SpellValueT for ScriptValue {
    open spec fn succeeded(&self) -> bool {
        self.success
    }

    open spec fn failure_text(&self) -> Seq<char> {
        self.error@
    }

    fn is_success(&self) -> (r: bool) {
        self.success
    }

    fn take_error(self) -> (r: String) {
        self.error
    }
}

/// The result of asking for the script's content identifier.
#[derive(Debug, Clone, PartialEq, Eq)]
pub struct CIDv1Value {
    pub value: String,
    pub success: bool,
    pub error: String,
}

impl SpellValueT for CIDv1Value {
    open spec fn succeeded(&self) -> bool {
        self.success
    }

    open spec fn failure_text(&self) -> Seq<char> {
        self.error@
    }

    fn is_success(&self) -> (r: bool) {
        self.success
    }

    fn take_error(self) -> (r: String) {
        self.error
    }
}

/// The result of reading the script's source code.
#[derive(Debug, Clone, PartialEq, Eq)]
pub struct Script {
    pub source_code: String,
    pub success: bool,
    pub error: String,
}

/// A content identifier of version 1, as text.
#[derive(Debug, Clone, PartialEq, Eq)]
pub struct CID {
    pub v1_str: String,
    pub success: bool,
    pub error: String,
}

/// The result of a yes-or-no question.
#[derive(Debug, Clone, PartialEq, Eq)]
pub struct BoolValue {
    pub value: bool,
    pub success: bool,
    pub error: String,
}

impl SpellValueT for BoolValue {
    open spec fn succeeded(&self) -> bool {
        self.success
    }

    open spec fn failure_text(&self) -> Seq<char> {
        self.error@
    }

    fn is_success(&self) -> (r: bool) {
        self.success
    }

    fn take_error(self) -> (r: String) {
        self.error
    }
}

impl FromSpecImpl<Result<bool, SpellError>> for BoolValue {
    /// `from` is described by its own `ensures`: no spec function can build
    /// the strings of a result.
    open spec fn obeys_from_spec() -> bool {
        false
    }

    open spec fn from_spec(v: Result<bool, SpellError>) -> Self {
        arbitrary()
    }
}

impl From<Result<bool, SpellError>> for BoolValue {
    fn from(value: Result<bool, SpellError>) -> (r: Self)
        ensures
            r.success == value.is_ok(),
            value matches Ok(b) ==> r.value == b,
            value.is_err() ==> !r.value,
            value.is_ok() ==> r.error@ == Seq::<char>::empty(),
            value matches Err(e) ==> r.error@ == error_text(e@),
    {
        match value {
            Ok(value) => BoolValue { value, success: true, error: String::new() },
            Err(e) => BoolValue { value: false, success: false, error: e.message() },
        }
    }
}

/// A message in the mailbox.
#[derive(Debug, Clone, PartialEq, Eq)]
pub struct MailboxMessage {
    /// Who sent it.
    pub init_peer_id: String,
    /// When it was put in.
    pub timestamp: u64,
    pub message: String,
}

/// The mailbox: up to its capacity of the latest messages, newest first.
#[derive(Debug, Clone, PartialEq, Eq)]
pub struct GetMailboxResult {
    pub messages: Vec<MailboxMessage>,
    pub success: bool,
    pub error: String,
}

impl FromSpecImpl<Result<Vec<MailboxMessage>, SpellError>> for GetMailboxResult {
    /// `from` is described by its own `ensures`: no spec function can build
    /// the strings of a result.
    open spec fn obeys_from_spec() -> bool {
        false
    }

    open spec fn from_spec(v: Result<Vec<MailboxMessage>, SpellError>) -> Self {
        arbitrary()
    }
}

impl From<Result<Vec<MailboxMessage>, SpellError>> for GetMailboxResult {
    fn from(result: Result<Vec<MailboxMessage>, SpellError>) -> (r: Self)
        ensures
            r.success == result.is_ok(),
            result matches Ok(messages) ==> r.messages == messages,
            result.is_err() ==> r.messages@ == Seq::<MailboxMessage>::empty(),
            result.is_ok() ==> r.error@ == Seq::<char>::empty(),
            result matches Err(e) ==> r.error@ == "get_mailbox error: "@ + error_text(e@),
    {
        match result {
            Ok(messages) => GetMailboxResult { messages, success: true, error: String::new() },
            Err(e) => GetMailboxResult {
                success: false,
                error: String::from_str("get_mailbox error: ").concat(e.message().as_str()),
                messages: Vec::new(),
            },
        }
    }
}

/// The message taken from the mailbox. Where there was none, `message` is
/// empty and `absent` is true.
#[derive(Debug, Clone, PartialEq, Eq)]
pub struct PopMailboxResult {
    pub message: Vec<MailboxMessage>,
    pub success: bool,
    pub absent: bool,
    pub error: String,
}

impl FromSpecImpl<Result<Option<MailboxMessage>, SpellError>> for PopMailboxResult {
    /// `from` is described by its own `ensures`: no spec function can build
    /// the strings of a result.
    open spec fn obeys_from_spec() -> bool {
        false
    }

    open spec fn from_spec(v: Result<Option<MailboxMessage>, SpellError>) -> Self {
        arbitrary()
    }
}

impl From<Result<Option<MailboxMessage>, SpellError>> for PopMailboxResult {
    fn from(value: Result<Option<MailboxMessage>, SpellError>) -> (r: Self)
        ensures
            r.success == value.is_ok(),
            r.absent == (value == Ok::<Option<MailboxMessage>, SpellError>(None)),
            value matches Ok(Some(m)) ==> r.message@ == seq![m],
            !(value matches Ok(Some(_))) ==> r.message@ == Seq::<MailboxMessage>::empty(),
            value.is_ok() ==> r.error@ == Seq::<char>::empty(),
            value matches Err(e) ==> r.error@ == error_text(e@),
    {
        match value {
            Ok(Some(message)) => {
                let mut list: Vec<MailboxMessage> = Vec::new();
                list.push(message);
                assert(list@ =~= seq![message]);
                PopMailboxResult {
                    message: list,
                    success: true,
                    error: String::new(),
                    absent: false,
                }
            },
            Ok(None) => PopMailboxResult {
                message: Vec::new(),
                success: true,
                error: String::new(),
                absent: true,
            },
            Err(e) => PopMailboxResult {
                message: Vec::new(),
                success: false,
                error: e.message(),
                absent: false,
            },
        }
    }
}

/// A line of the log.
#[derive(Debug, Clone, PartialEq, Eq)]
pub struct Log {
    pub timestamp: u64,
    pub message: String,
}

/// The log: up to its capacity of the latest lines, oldest first.
#[derive(Debug, Clone, PartialEq, Eq)]
pub struct GetLogsResult {
    pub logs: Vec<Log>,
    pub success: bool,
    pub error: String,
}

impl FromSpecImpl<Result<Vec<Log>, SpellError>> for GetLogsResult {
    /// `from` is described by its own `ensures`: no spec function can build
    /// the strings of a result.
    open spec fn obeys_from_spec() -> bool {
        false
    }

    open spec fn from_spec(v: Result<Vec<Log>, SpellError>) -> Self {
        arbitrary()
    }
}

impl From<Result<Vec<Log>, SpellError>> for GetLogsResult {
    fn from(result: Result<Vec<Log>, SpellError>) -> (r: Self)
        ensures
            r.success == result.is_ok(),
            result matches Ok(logs) ==> r.logs == logs,
            result.is_err() ==> r.logs@ == Seq::<Log>::empty(),
            result.is_ok() ==> r.error@ == Seq::<char>::empty(),
            result matches Err(e) ==> r.error@ == "get_logs error: "@ + error_text(e@),
    {
        match result {
            Ok(logs) => GetLogsResult { logs, success: true, error: String::new() },
            Err(e) => GetLogsResult {
                success: false,
                error: String::from_str("get_logs error: ").concat(e.message().as_str()),
                logs: Vec::new(),
            },
        }
    }
}

/// Where the spell runs.
#[derive(Debug, Clone, PartialEq, Eq)]
pub struct LocationValue {
    pub relay: String,
    pub host: String,
    pub service_id: String,
    pub success: bool,
    pub error: String,
}

impl LocationValue {
    /// A failure whose reason is the message of `error`.
    pub fn error(error: &SpellError) -> (r: Self)
        ensures
            !r.success,
            r.error@ == error_text(error@),
            r.relay@ == Seq::<char>::empty(),
            r.host@ == Seq::<char>::empty(),
            r.service_id@ == Seq::<char>::empty(),
    {
        Self {
            relay: String::new(),
            host: String::new(),
            service_id: String::new(),
            success: false,
            error: error.message(),
        }
    }

    /// The location of the spell that serves the call `ctx`, behind `relay`.
    pub fn success(relay: String, ctx: &CallContext) -> (r: Self)
        ensures
            r.success,
            r.error@ == Seq::<char>::empty(),
            r.relay == relay,
            r.host@ == ctx.host_id@,
            r.service_id@ == ctx.service_id@,
    {
        Self {
            relay,
            host: ctx.host_id.clone(),
            service_id: ctx.service_id.clone(),
            success: true,
            error: String::new(),
        }
    }
}

} // verus!
