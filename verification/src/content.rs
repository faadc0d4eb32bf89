//! Content-addressed data: addresses, entries, chain headers and the
//! validation packages built from them.

use crate::table::Key;
use vstd::prelude::*;
use vstd::std_specs::cmp::PartialEqSpecImpl;

verus! {

/// The address of a piece of content: the text form of its hash.
#[derive(Debug, Eq, Hash)]
pub struct Address {
    pub hash: String,
}

impl View for Address {
    type V = Seq<char>;

    open spec fn view(&self) -> Seq<char> {
        self.hash@
    }
}

impl Address {
    /// The address whose text is `hash`.
    pub fn new(hash: String) -> (a: Address)
        ensures
            a@ == hash@,
    {
        Address { hash }
    }

    /// The address whose text is `hash`.
    pub fn from_str(hash: &str) -> (a: Address)
        ensures
            a@ == hash@,
    {
        Address { hash: String::from_str(hash) }
    }

    /// The text of the address.
    pub fn as_str(&self) -> (s: &str)
        ensures
            s@ == self@,
    {
        self.hash.as_str()
    }
}

impl Clone for Address {
    fn clone(&self) -> (a: Address)
        ensures
            a == *self,
    {
        Address { hash: self.hash.clone() }
    }
}

impl PartialEq for Address {
    fn eq(&self, other: &Address) -> (same: bool)
        ensures
            same == (self@ == other@),
    {
        self.hash == other.hash
    }
}

impl PartialEqSpecImpl for Address {
    open spec fn obeys_eq_spec() -> bool {
        true
    }

    open spec fn eq_spec(&self, other: &Address) -> bool {
        self@ == other@
    }
}

/// A hash in its text form; addresses are such hashes.
pub type HashString = Address;

/// A string that holds JSON text.
#[derive(Debug, PartialEq, Eq, Hash)]
pub struct JsonString {
    pub json: String,
}

impl View for JsonString {
    type V = Seq<char>;

    open spec fn view(&self) -> Seq<char> {
        self.json@
    }
}

impl JsonString {
    /// Takes `json` as JSON text, unchanged.
    pub fn new(json: String) -> (text: JsonString)
        ensures
            text@ == json@,
    {
        JsonString { json }
    }

    /// Takes `json` as JSON text, unchanged.
    pub fn from_str(json: &str) -> (text: JsonString)
        ensures
            text@ == json@,
    {
        JsonString { json: String::from_str(json) }
    }
}

impl Clone for JsonString {
    fn clone(&self) -> (text: JsonString)
        ensures
            text == *self,
    {
        JsonString { json: self.json.clone() }
    }
}

impl Key for Address {
    type Id = Seq<char>;

    open spec fn id(&self) -> Seq<char> {
        self@
    }

    fn same(&self, other: &Self) -> (same: bool) {
        self.hash == other.hash
    }
}

/// The view of an optional value.
pub open spec fn option_view<T: View>(value: Option<T>) -> Option<T::V> {
    match value {
        Some(inner) => Some(inner@),
        None => None,
    }
}

/// The views of the values of a list, in its order.
pub open spec fn list_view<T: View>(values: Seq<T>) -> Seq<T::V> {
    Seq::new(values.len(), |i: int| values[i]@)
}

/// A copy of an optional address.
pub fn clone_option_address(value: &Option<Address>) -> (copy: Option<Address>)
    ensures
        option_view(copy) == option_view(*value),
{
    match value {
        Some(address) => Some(address.clone()),
        None => None,
    }
}

/// A content-addressed unit of application data.
#[derive(Debug, PartialEq, Eq)]
pub struct Entry {
    /// The type of the entry.
    pub entry_type: String,
    /// The payload.
    pub value: JsonString,
    /// The address: the hash of the content.
    pub address: Address,
}

/// An entry as a mathematical value.
pub struct EntryModel {
    pub entry_type: Seq<char>,
    pub value: Seq<char>,
    pub address: Seq<char>,
}

impl View for Entry {
    type V = EntryModel;

    open spec fn view(&self) -> EntryModel {
        EntryModel { entry_type: self.entry_type@, value: self.value@, address: self.address@ }
    }
}

impl Entry {
    /// The entry of the given type and payload that lives at `address`.
    pub fn new(entry_type: &str, value: JsonString, address: Address) -> (entry: Entry)
        ensures
            entry@ == (EntryModel {
                entry_type: entry_type@,
                value: value@,
                address: address@,
            }),
    {
        Entry { entry_type: String::from_str(entry_type), value, address }
    }

    /// The address of the entry.
    pub fn address(&self) -> (address: Address)
        ensures
            address@ == self@.address,
    {
        self.address.clone()
    }
}

impl Clone for Entry {
    fn clone(&self) -> (copy: Entry)
        ensures
            copy@ == self@,
    {
        Entry {
            entry_type: self.entry_type.clone(),
            value: self.value.clone(),
            address: self.address.clone(),
        }
    }
}

/// Where an entry stands in its life.
#[derive(Clone, Copy, Debug, PartialEq, Eq, Structural)]
pub enum CrudStatus {
    Live,
    Rejected,
    Deleted,
    Modified,
}

/// An entry with its status, and the entry that replaced or deleted it.
#[derive(Debug, PartialEq, Eq)]
pub struct EntryWithMeta {
    pub entry: Entry,
    pub crud_status: CrudStatus,
    pub maybe_crud_link: Option<Address>,
}

/// An entry with its status as a mathematical value.
pub struct EntryWithMetaModel {
    pub entry: EntryModel,
    pub crud_status: CrudStatus,
    pub maybe_crud_link: Option<Seq<char>>,
}

impl View for EntryWithMeta {
    type V = EntryWithMetaModel;

    open spec fn view(&self) -> EntryWithMetaModel {
        EntryWithMetaModel {
            entry: self.entry@,
            crud_status: self.crud_status,
            maybe_crud_link: option_view(self.maybe_crud_link),
        }
    }
}

impl Clone for EntryWithMeta {
    fn clone(&self) -> (copy: EntryWithMeta)
        ensures
            copy@ == self@,
    {
        EntryWithMeta {
            entry: self.entry.clone(),
            crud_status: self.crud_status,
            maybe_crud_link: clone_option_address(&self.maybe_crud_link),
        }
    }
}

/// A link from one entry to another under a tag.
#[derive(Debug, PartialEq, Eq)]
pub struct Link {
    pub base: Address,
    pub target: Address,
    pub tag: String,
}

/// A link as a mathematical value.
pub struct LinkModel {
    pub base: Seq<char>,
    pub target: Seq<char>,
    pub tag: Seq<char>,
}

impl View for Link {
    type V = LinkModel;

    open spec fn view(&self) -> LinkModel {
        LinkModel { base: self.base@, target: self.target@, tag: self.tag@ }
    }
}

impl Clone for Link {
    fn clone(&self) -> (copy: Link)
        ensures
            copy@ == self@,
    {
        Link { base: self.base.clone(), target: self.target.clone(), tag: self.tag.clone() }
    }
}

/// The header that the chain keeps for a committed entry.
#[derive(Debug, PartialEq, Eq)]
pub struct ChainHeader {
    /// The type of the entry.
    pub entry_type: String,
    /// The address of the entry.
    pub entry_address: Address,
    /// The agent that committed the entry.
    pub source: Address,
    /// The address of the entry committed before this one, if there is one.
    pub link: Option<Address>,
    /// The address of the entry that this one replaces or deletes, if any.
    pub link_crud: Option<Address>,
}

/// A chain header as a mathematical value.
pub struct ChainHeaderModel {
    pub entry_type: Seq<char>,
    pub entry_address: Seq<char>,
    pub source: Seq<char>,
    pub link: Option<Seq<char>>,
    pub link_crud: Option<Seq<char>>,
}

impl View for ChainHeader {
    type V = ChainHeaderModel;

    open spec fn view(&self) -> ChainHeaderModel {
        ChainHeaderModel {
            entry_type: self.entry_type@,
            entry_address: self.entry_address@,
            source: self.source@,
            link: option_view(self.link),
            link_crud: option_view(self.link_crud),
        }
    }
}

impl Clone for ChainHeader {
    fn clone(&self) -> (copy: ChainHeader)
        ensures
            copy@ == self@,
    {
        ChainHeader {
            entry_type: self.entry_type.clone(),
            entry_address: self.entry_address.clone(),
            source: self.source.clone(),
            link: clone_option_address(&self.link),
            link_crud: clone_option_address(&self.link_crud),
        }
    }
}

/// The proof material that a peer needs to validate an entry that it did not
/// author.
#[derive(Debug, PartialEq, Eq)]
pub struct ValidationPackage {
    /// The header of the entry to validate.
    pub chain_header: ChainHeader,
    /// The entries of the author's chain that the validation rules ask for.
    pub source_chain_entries: Vec<Entry>,
    /// The headers of the author's chain that the validation rules ask for.
    pub source_chain_headers: Vec<ChainHeader>,
}

/// A validation package as a mathematical value.
pub struct ValidationPackageModel {
    pub chain_header: ChainHeaderModel,
    pub source_chain_entries: Seq<EntryModel>,
    pub source_chain_headers: Seq<ChainHeaderModel>,
}

impl View for ValidationPackage {
    type V = ValidationPackageModel;

    open spec fn view(&self) -> ValidationPackageModel {
        ValidationPackageModel {
            chain_header: self.chain_header@,
            source_chain_entries: list_view(self.source_chain_entries@),
            source_chain_headers: list_view(self.source_chain_headers@),
        }
    }
}

impl ValidationPackage {
    /// The package that holds the header alone.
    pub fn only_header(chain_header: ChainHeader) -> (package: ValidationPackage)
        ensures
            package@ == (ValidationPackageModel {
                chain_header: chain_header@,
                source_chain_entries: Seq::empty(),
                source_chain_headers: Seq::empty(),
            }),
    {
        let package = ValidationPackage {
            chain_header,
            source_chain_entries: Vec::new(),
            source_chain_headers: Vec::new(),
        };
        assert(list_view(package.source_chain_entries@) =~= Seq::<EntryModel>::empty());
        assert(list_view(package.source_chain_headers@) =~= Seq::<ChainHeaderModel>::empty());
        package
    }
}

impl Clone for ValidationPackage {
    fn clone(&self) -> (copy: ValidationPackage)
        ensures
            copy@ == self@,
    {
        let mut entries: Vec<Entry> = Vec::new();
        let mut i: usize = 0;
        while i < self.source_chain_entries.len()
            invariant
                i <= self.source_chain_entries.len(),
                entries@.len() == i,
                forall|j: int| 0 <= j < i ==> entries@[j]@ == self.source_chain_entries@[j]@,
            decreases self.source_chain_entries.len() - i,
        {
            entries.push(self.source_chain_entries[i].clone());
            i = i + 1;
        }
        let mut headers: Vec<ChainHeader> = Vec::new();
        let mut k: usize = 0;
        while k < self.source_chain_headers.len()
            invariant
                k <= self.source_chain_headers.len(),
                headers@.len() == k,
                forall|j: int| 0 <= j < k ==> headers@[j]@ == self.source_chain_headers@[j]@,
            decreases self.source_chain_headers.len() - k,
        {
            headers.push(self.source_chain_headers[k].clone());
            k = k + 1;
        }
        assert(list_view(entries@) =~= list_view(self.source_chain_entries@));
        assert(list_view(headers@) =~= list_view(self.source_chain_headers@));
        ValidationPackage {
            chain_header: self.chain_header.clone(),
            source_chain_entries: entries,
            source_chain_headers: headers,
        }
    }
}

/// A copy of an optional validation package.
pub fn clone_option_package(value: &Option<ValidationPackage>) -> (copy: Option<
    ValidationPackage,
>)
    ensures
        option_view(copy) == option_view(*value),
{
    match value {
        Some(package) => Some(package.clone()),
        None => None,
    }
}

/// What can go wrong inside an instance.
#[derive(Debug, PartialEq, Eq)]
pub enum HolochainError {
    ErrorGeneric(String),
    NotImplemented,
    SerializationError(String),
    IoError(String),
    ValidationFailed(String),
    Timeout,
}

/// An error as a mathematical value.
pub enum HolochainErrorModel {
    ErrorGeneric(Seq<char>),
    NotImplemented,
    SerializationError(Seq<char>),
    IoError(Seq<char>),
    ValidationFailed(Seq<char>),
    Timeout,
}

impl View for HolochainError {
    type V = HolochainErrorModel;

    open spec fn view(&self) -> HolochainErrorModel {
        match self {
            HolochainError::ErrorGeneric(text) => HolochainErrorModel::ErrorGeneric(text@),
            HolochainError::NotImplemented => HolochainErrorModel::NotImplemented,
            HolochainError::SerializationError(text) => HolochainErrorModel::SerializationError(
                text@,
            ),
            HolochainError::IoError(text) => HolochainErrorModel::IoError(text@),
            HolochainError::ValidationFailed(text) => HolochainErrorModel::ValidationFailed(text@),
            HolochainError::Timeout => HolochainErrorModel::Timeout,
        }
    }
}

impl Clone for HolochainError {
    fn clone(&self) -> (copy: HolochainError)
        ensures
            copy@ == self@,
    {
        match self {
            HolochainError::ErrorGeneric(text) => HolochainError::ErrorGeneric(text.clone()),
            HolochainError::NotImplemented => HolochainError::NotImplemented,
            HolochainError::SerializationError(text) => HolochainError::SerializationError(
                text.clone(),
            ),
            HolochainError::IoError(text) => HolochainError::IoError(text.clone()),
            HolochainError::ValidationFailed(text) => HolochainError::ValidationFailed(
                text.clone(),
            ),
            HolochainError::Timeout => HolochainError::Timeout,
        }
    }
}

/// The descriptor of an application.
#[derive(Debug, PartialEq, Eq)]
pub struct Dna {
    pub name: String,
    pub descriptor: JsonString,
}

/// An application descriptor as a mathematical value.
pub struct DnaModel {
    pub name: Seq<char>,
    pub descriptor: Seq<char>,
}

impl View for Dna {
    type V = DnaModel;

    open spec fn view(&self) -> DnaModel {
        DnaModel { name: self.name@, descriptor: self.descriptor@ }
    }
}

impl Clone for Dna {
    fn clone(&self) -> (copy: Dna)
        ensures
            copy@ == self@,
    {
        Dna { name: self.name.clone(), descriptor: self.descriptor.clone() }
    }
}

} // verus!
