//! The API that application code calls from inside the sandbox.
//!
//! The host answers a call with an encoded result; the functions here decide
//! what the caller gets for each answer. Moving the arguments and the answer
//! across the sandbox boundary is the embedding program's part.

use crate::content::{Address, HashString, JsonString};
use vstd::pervasive::unreached;
use vstd::prelude::*;

verus! {

/// An opaque JSON value, as application code hands it to the API.
#[verifier::external_type_specification]
#[verifier::external_body]
pub struct ExJsonValue(serde_json::Value);

/// What can go wrong in a call of the API.
#[derive(Debug)]
pub enum RibosomeError {
    RibosomeFailed(String),
    FunctionNotImplemented,
    HashNotFound,
    ValidationFailed(String),
}

/// The JSON text that stands for the string `text`.
pub uninterp spec fn json_text(text: Seq<char>) -> Seq<char>;

/// The JSON text of a string.
///
/// Calls `serde_json::to_string` on a string slice. For a string it writes a
/// JSON string literal into a buffer in memory, which cannot fail, so the
/// result is always there; it depends on the text alone.
#[verifier::external_body]
fn encode_text(text: &str) -> (json: Option<String>)
    ensures
        json is Some,
        json matches Some(encoded) ==> encoded@ == json_text(text@),
{
    serde_json::to_string(text).ok()
}

impl RibosomeError {
    /// The text that describes the error.
    pub open spec fn message(&self) -> Seq<char> {
        match self {
            RibosomeError::RibosomeFailed(description) => description@,
            RibosomeError::FunctionNotImplemented => "Function not implemented"@,
            RibosomeError::HashNotFound => "Hash not found"@,
            RibosomeError::ValidationFailed(reason) => "Validation failed: "@ + reason@,
        }
    }

    /// The text that describes the error: what the error is written as.
    pub fn to_string(&self) -> (text: String)
        ensures
            text@ == self.message(),
    {
        match self {
            RibosomeError::RibosomeFailed(description) => description.clone(),
            RibosomeError::FunctionNotImplemented => String::from_str("Function not implemented"),
            RibosomeError::HashNotFound => String::from_str("Hash not found"),
            RibosomeError::ValidationFailed(reason) => {
                let mut text = String::from_str("Validation failed: ");
                text.append(reason.as_str());
                text
            },
        }
    }

    /// The error as JSON: its message as a JSON string.
    pub fn to_json(&self) -> (json: JsonString)
        ensures
            json@ == json_text(self.message()),
    {
        let text = self.to_string();
        match encode_text(text.as_str()) {
            Some(encoded) => JsonString::new(encoded),
            None => unreached(),
        }
    }
}

/// What `close_bundle` is to do with the bundle.
#[derive(Debug)]
pub enum BundleOnClose {
    Commit,
    Discard,
}

/// An entry in the form in which it crosses the sandbox boundary.
#[derive(Debug, PartialEq, Eq)]
pub struct SerializedEntry {
    pub value: String,
    pub entry_type: String,
}

/// The host's answer to a commit.
#[derive(Debug)]
pub struct CommitEntryResult {
    /// The address under which the entry was committed.
    pub address: Address,
    /// Why validation refused the entry; empty where it did not.
    pub validation_failure: String,
}

/// Whether the host found the entry that was asked for.
#[derive(Debug)]
pub enum GetResultStatus {
    Found,
    NotFound,
}

/// The host's answer to a get.
#[derive(Debug)]
pub struct GetEntryResult {
    pub status: GetResultStatus,
    pub maybe_serialized_entry: Option<SerializedEntry>,
}

/// What the caller of a commit gets for the host's answer.
///
/// `reply` is the decoded answer, or the text of the failure where the
/// exchange with the host broke down. A breakdown is a failed ribosome; an
/// answer with a validation failure is that failure; any other answer is the
/// address of the committed entry.
pub fn commit_entry(reply: Result<CommitEntryResult, String>) -> (committed: Result<
    HashString,
    RibosomeError,
>)
    ensures
        committed == match reply {
            Err(failure) => Err::<HashString, RibosomeError>(
                RibosomeError::RibosomeFailed(failure),
            ),
            Ok(output) => if output.validation_failure@.len() > 0 {
                Err(RibosomeError::ValidationFailed(output.validation_failure))
            } else {
                Ok(output.address)
            },
        },
{
    match reply {
        Err(failure) => Err(RibosomeError::RibosomeFailed(failure)),
        Ok(output) => {
            if !output.validation_failure.as_str().is_empty() {
                Err(RibosomeError::ValidationFailed(output.validation_failure))
            } else {
                Ok(output.address)
            }
        },
    }
}

/// What the caller of a get gets for the host's answer.
///
/// `reply` is the decoded answer, or the text of the failure where the
/// exchange with the host broke down. A breakdown is a failed ribosome; a
/// found entry is handed on as the host gave it; an entry that was not found
/// is no error.
pub fn get_entry(reply: Result<GetEntryResult, String>) -> (found: Result<
    Option<SerializedEntry>,
    RibosomeError,
>)
    ensures
        found == match reply {
            Err(failure) => Err::<Option<SerializedEntry>, RibosomeError>(
                RibosomeError::RibosomeFailed(failure),
            ),
            Ok(output) => match output.status {
                GetResultStatus::Found => Ok(output.maybe_serialized_entry),
                GetResultStatus::NotFound => Ok(None),
            },
        },
{
    match reply {
        Err(failure) => Err(RibosomeError::RibosomeFailed(failure)),
        Ok(output) => match output.status {
            GetResultStatus::Found => Ok(output.maybe_serialized_entry),
            GetResultStatus::NotFound => Ok(None),
        },
    }
}

/// What the caller of a debug message gets for the host's answer.
///
/// `reply` says whether the message reached the host, or gives the text of
/// the failure where the exchange with the host broke down. A breakdown is a
/// failed ribosome.
pub fn debug(reply: Result<(), String>) -> (logged: Result<(), RibosomeError>)
    ensures
        logged == match reply {
            Err(failure) => Err::<(), RibosomeError>(RibosomeError::RibosomeFailed(failure)),
            Ok(_) => Ok(()),
        },
{
    match reply {
        Err(failure) => Err(RibosomeError::RibosomeFailed(failure)),
        Ok(_) => Ok(()),
    }
}

/// An application property. Not implemented.
pub fn property<S: Into<String>>(_name: S) -> (value: Result<String, RibosomeError>)
    ensures
        value == Err::<String, RibosomeError>(RibosomeError::FunctionNotImplemented),
{
    Err(RibosomeError::FunctionNotImplemented)
}

/// The hash that an entry would have. Not implemented.
pub fn make_hash<S: Into<String>>(_entry_type: S, _entry_data: serde_json::Value) -> (hash: Result<
    HashString,
    RibosomeError,
>)
    ensures
        hash == Err::<HashString, RibosomeError>(RibosomeError::FunctionNotImplemented),
{
    Err(RibosomeError::FunctionNotImplemented)
}

/// Calls a function of another zome. Not implemented.
pub fn call<S: Into<String>>(
    _zome_name: S,
    _function_name: S,
    _arguments: serde_json::Value,
) -> (returned: Result<serde_json::Value, RibosomeError>)
    ensures
        returned == Err::<serde_json::Value, RibosomeError>(
            RibosomeError::FunctionNotImplemented,
        ),
{
    Err(RibosomeError::FunctionNotImplemented)
}

/// Signs a document with the agent's key. Not implemented.
pub fn sign<S: Into<String>>(_doc: S) -> (signature: Result<String, RibosomeError>)
    ensures
        signature == Err::<String, RibosomeError>(RibosomeError::FunctionNotImplemented),
{
    Err(RibosomeError::FunctionNotImplemented)
}

/// Checks a signature against data and a public key. Not implemented.
pub fn verify_signature<S: Into<String>>(_signature: S, _data: S, _pub_key: S) -> (valid: Result<
    bool,
    RibosomeError,
>)
    ensures
        valid == Err::<bool, RibosomeError>(RibosomeError::FunctionNotImplemented),
{
    Err(RibosomeError::FunctionNotImplemented)
}

/// Replaces an entry by a new one. Not implemented.
pub fn update_entry<S: Into<String>>(
    _entry_type: S,
    _entry: serde_json::Value,
    _replaces: HashString,
) -> (updated: Result<HashString, RibosomeError>)
    ensures
        updated == Err::<HashString, RibosomeError>(RibosomeError::FunctionNotImplemented),
{
    Err(RibosomeError::FunctionNotImplemented)
}

/// Commits a new identity entry of the agent. Not implemented.
pub fn update_agent() -> (updated: Result<HashString, RibosomeError>)
    ensures
        updated == Err::<HashString, RibosomeError>(RibosomeError::FunctionNotImplemented),
{
    Err(RibosomeError::FunctionNotImplemented)
}

/// Commits a deletion entry for an entry. Not implemented.
pub fn remove_entry<S: Into<String>>(_entry: HashString, _message: S) -> (removed: Result<
    HashString,
    RibosomeError,
>)
    ensures
        removed == Err::<HashString, RibosomeError>(RibosomeError::FunctionNotImplemented),
{
    Err(RibosomeError::FunctionNotImplemented)
}

/// Links two entries under a tag. Not implemented.
pub fn link_entries<S: Into<String>>(_base: HashString, _target: HashString, _tag: S) -> (linked:
    Result<(), RibosomeError>)
    ensures
        linked == Err::<(), RibosomeError>(RibosomeError::FunctionNotImplemented),
{
    Err(RibosomeError::FunctionNotImplemented)
}

/// The targets of the links from an entry under a tag. Not implemented.
pub fn get_links<S: Into<String>>(_base: HashString, _tag: S) -> (links: Result<
    Vec<HashString>,
    RibosomeError,
>)
    ensures
        links == Err::<Vec<HashString>, RibosomeError>(RibosomeError::FunctionNotImplemented),
{
    Err(RibosomeError::FunctionNotImplemented)
}

/// Queries the local chain. Not implemented.
pub fn query() -> (found: Result<Vec<String>, RibosomeError>)
    ensures
        found == Err::<Vec<String>, RibosomeError>(RibosomeError::FunctionNotImplemented),
{
    Err(RibosomeError::FunctionNotImplemented)
}

/// Sends a message to another node. Not implemented.
pub fn send(_to: HashString, _message: serde_json::Value) -> (answer: Result<
    serde_json::Value,
    RibosomeError,
>)
    ensures
        answer == Err::<serde_json::Value, RibosomeError>(RibosomeError::FunctionNotImplemented),
{
    Err(RibosomeError::FunctionNotImplemented)
}

/// Starts a bundle of commits. Does nothing yet.
pub fn start_bundle(_timeout: usize, _user_param: serde_json::Value) {
}

/// Closes the bundle of commits. Does nothing yet.
pub fn close_bundle(_action: BundleOnClose) {
}

/// The status of an entry: a set of flags.
#[derive(Clone, Copy, Debug, PartialEq, Eq, Hash)]
pub struct EntryStatus {
    bits: u8,
}

impl EntryStatus {
    /// The flags as bits.
    pub closed spec fn value(&self) -> u8 {
        self.bits
    }

    /// Only flags that the set knows are raised.
    pub open spec fn wf(&self) -> bool {
        self.value() & !15u8 == 0
    }

    /// The entry is live.
    pub fn live() -> (flags: Self)
        ensures
            flags.value() == 1,
            flags.wf(),
    {
        assert(1u8 & !15u8 == 0) by (bit_vector);
        EntryStatus { bits: 1 }
    }

    /// The entry was rejected.
    pub fn rejected() -> (flags: Self)
        ensures
            flags.value() == 2,
            flags.wf(),
    {
        assert(2u8 & !15u8 == 0) by (bit_vector);
        EntryStatus { bits: 2 }
    }

    /// The entry was deleted.
    pub fn deleted() -> (flags: Self)
        ensures
            flags.value() == 4,
            flags.wf(),
    {
        assert(4u8 & !15u8 == 0) by (bit_vector);
        EntryStatus { bits: 4 }
    }

    /// The entry was modified.
    pub fn modified() -> (flags: Self)
        ensures
            flags.value() == 8,
            flags.wf(),
    {
        assert(8u8 & !15u8 == 0) by (bit_vector);
        EntryStatus { bits: 8 }
    }

    /// No flag.
    pub fn empty() -> (flags: Self)
        ensures
            flags.value() == 0,
            flags.wf(),
    {
        assert(0u8 & !15u8 == 0) by (bit_vector);
        EntryStatus { bits: 0 }
    }

    /// Every flag.
    pub fn all() -> (flags: Self)
        ensures
            flags.value() == 15,
            flags.wf(),
    {
        assert(15u8 & !15u8 == 0) by (bit_vector);
        EntryStatus { bits: 15 }
    }

    /// The flags as bits.
    pub fn bits(&self) -> (bits: u8)
        ensures
            bits == self.value(),
    {
        self.bits
    }

    /// The set with exactly these bits, unless one of them is no flag.
    pub fn from_bits(bits: u8) -> (flags: Option<Self>)
        ensures
            flags is Some <==> bits & !15u8 == 0,
            flags matches Some(set) ==> set.value() == bits && set.wf(),
    {
        if bits & !15u8 == 0 {
            Some(EntryStatus { bits })
        } else {
            None
        }
    }

    /// Whether every flag of `other` is raised in this set.
    pub fn contains(&self, other: Self) -> (all: bool)
        ensures
            all == (self.value() & other.value() == other.value()),
    {
        self.bits & other.bits == other.bits
    }

    /// The flags of both sets.
    pub fn union(&self, other: Self) -> (flags: Self)
        ensures
            flags.value() == self.value() | other.value(),
            self.wf() && other.wf() ==> flags.wf(),
    {
        let a: u8 = self.bits;
        let b: u8 = other.bits;
        assert(a & !15u8 == 0 && b & !15u8 == 0 ==> (a | b) & !15u8 == 0)
            by (bit_vector);
        EntryStatus { bits: a | b }
    }
}

/// Which parts of an entry a get returns: a set of flags.
#[derive(Clone, Copy, Debug, PartialEq, Eq, Hash)]
pub struct GetEntryMask {
    bits: u8,
}

impl GetEntryMask {
    /// The flags as bits.
    pub closed spec fn value(&self) -> u8 {
        self.bits
    }

    /// Only flags that the set knows are raised.
    pub open spec fn wf(&self) -> bool {
        self.value() & !7u8 == 0
    }

    /// The entry itself.
    pub fn entry() -> (flags: Self)
        ensures
            flags.value() == 1,
            flags.wf(),
    {
        assert(1u8 & !7u8 == 0) by (bit_vector);
        GetEntryMask { bits: 1 }
    }

    /// The type of the entry.
    pub fn entry_type() -> (flags: Self)
        ensures
            flags.value() == 2,
            flags.wf(),
    {
        assert(2u8 & !7u8 == 0) by (bit_vector);
        GetEntryMask { bits: 2 }
    }

    /// The sources of the entry.
    pub fn sources() -> (flags: Self)
        ensures
            flags.value() == 4,
            flags.wf(),
    {
        assert(4u8 & !7u8 == 0) by (bit_vector);
        GetEntryMask { bits: 4 }
    }

    /// No flag.
    pub fn empty() -> (flags: Self)
        ensures
            flags.value() == 0,
            flags.wf(),
    {
        assert(0u8 & !7u8 == 0) by (bit_vector);
        GetEntryMask { bits: 0 }
    }

    /// Every flag.
    pub fn all() -> (flags: Self)
        ensures
            flags.value() == 7,
            flags.wf(),
    {
        assert(7u8 & !7u8 == 0) by (bit_vector);
        GetEntryMask { bits: 7 }
    }

    /// The flags as bits.
    pub fn bits(&self) -> (bits: u8)
        ensures
            bits == self.value(),
    {
        self.bits
    }

    /// The set with exactly these bits, unless one of them is no flag.
    pub fn from_bits(bits: u8) -> (flags: Option<Self>)
        ensures
            flags is Some <==> bits & !7u8 == 0,
            flags matches Some(set) ==> set.value() == bits && set.wf(),
    {
        if bits & !7u8 == 0 {
            Some(GetEntryMask { bits })
        } else {
            None
        }
    }

    /// Whether every flag of `other` is raised in this set.
    pub fn contains(&self, other: Self) -> (all: bool)
        ensures
            all == (self.value() & other.value() == other.value()),
    {
        self.bits & other.bits == other.bits
    }

    /// The flags of both sets.
    pub fn union(&self, other: Self) -> (flags: Self)
        ensures
            flags.value() == self.value() | other.value(),
            self.wf() && other.wf() ==> flags.wf(),
    {
        let a: u8 = self.bits;
        let b: u8 = other.bits;
        assert(a & !7u8 == 0 && b & !7u8 == 0 ==> (a | b) & !7u8 == 0)
            by (bit_vector);
        GetEntryMask { bits: a | b }
    }
}

impl Default for GetEntryMask {
    fn default() -> (flags: Self)
        ensures
            flags.value() == 1,
            flags.wf(),
    {
        GetEntryMask::entry()
    }
}

} // verus!
