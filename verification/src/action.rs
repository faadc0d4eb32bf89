//! Actions: the typed requests for a state transition, and the wrapper that
//! gives each dispatched occurrence of one an identity of its own.

use crate::content::{
    clone_option_address, clone_option_package, option_view, Address, ChainHeader,
    ChainHeaderModel, Dna, DnaModel, Entry, EntryModel, EntryWithMeta, EntryWithMetaModel,
    HolochainError, HolochainErrorModel, JsonString, Link, LinkModel, ValidationPackage,
    ValidationPackageModel,
};
use crate::table::Key;
use vstd::prelude::*;
use vstd::std_specs::cmp::PartialEqSpec;
use vstd::std_specs::cmp::PartialEqSpecImpl;

verus! {

/// An identity that is unique within the running process.
#[verifier::external_type_specification]
#[verifier::external_body]
pub struct ExProcessUniqueId(snowflake::ProcessUniqueId);

/// An identity that no earlier call in this process has returned.
///
/// Calls `snowflake::ProcessUniqueId::new`, which counts up a counter of the
/// calling thread under a prefix that the thread took from a counter of the
/// process. What it returns depends on the calls made before, so nothing is
/// stated of it. It panics once the process has used up its prefixes.
#[verifier::external_body]
pub(crate) fn fresh_id() -> (id: snowflake::ProcessUniqueId) {
    snowflake::ProcessUniqueId::new()
}

/// Whether two identities are the same.
///
/// Calls `==` of `snowflake::ProcessUniqueId`, which the crate derives over
/// the prefix and the offset that make up an identity: it holds exactly where
/// the two are the same identity.
#[verifier::external_body]
pub(crate) fn same_id(
    left: &snowflake::ProcessUniqueId,
    right: &snowflake::ProcessUniqueId,
) -> (same: bool)
    ensures
        same == (*left == *right),
{
    left == right
}

impl Key for snowflake::ProcessUniqueId {
    type Id = snowflake::ProcessUniqueId;

    open spec fn id(&self) -> snowflake::ProcessUniqueId {
        *self
    }

    fn same(&self, other: &Self) -> (same: bool) {
        same_id(self, other)
    }
}

/// A message from one node to another.
#[derive(Debug, PartialEq)]
pub enum DirectMessage {
    /// A message of the application's own.
    Custom(JsonString),
    /// Asks the author of the entry at the address for its validation package.
    RequestValidationPackage(Address),
    /// Answers such a request; `None` where the node has no package to offer.
    ValidationPackage(Option<ValidationPackage>),
}

/// A direct message as a mathematical value.
pub enum DirectMessageModel {
    Custom(Seq<char>),
    RequestValidationPackage(Seq<char>),
    ValidationPackage(Option<ValidationPackageModel>),
}

impl View for DirectMessage {
    type V = DirectMessageModel;

    open spec fn view(&self) -> DirectMessageModel {
        match self {
            DirectMessage::Custom(payload) => DirectMessageModel::Custom(payload@),
            DirectMessage::RequestValidationPackage(address) => {
                DirectMessageModel::RequestValidationPackage(address@)
            },
            DirectMessage::ValidationPackage(package) => DirectMessageModel::ValidationPackage(
                option_view(*package),
            ),
        }
    }
}

impl Clone for DirectMessage {
    fn clone(&self) -> (copy: DirectMessage)
        ensures
            copy@ == self@,
    {
        match self {
            DirectMessage::Custom(payload) => DirectMessage::Custom(payload.clone()),
            DirectMessage::RequestValidationPackage(address) => {
                DirectMessage::RequestValidationPackage(address.clone())
            },
            DirectMessage::ValidationPackage(package) => DirectMessage::ValidationPackage(
                clone_option_package(package),
            ),
        }
    }
}

/// Everything the network module needs to know in order to send a direct
/// message.
#[derive(Debug, PartialEq)]
pub struct DirectMessageData {
    /// The address of the node to send the message to.
    pub address: Address,
    /// The message itself.
    pub message: DirectMessage,
    /// The id by which the answer is attributed to its request.
    pub msg_id: String,
    /// Whether this message answers an earlier one; `msg_id` is then the id
    /// of the message that was received.
    pub is_response: bool,
}

/// The data of a direct message as a mathematical value.
pub struct DirectMessageDataModel {
    pub address: Seq<char>,
    pub message: DirectMessageModel,
    pub msg_id: Seq<char>,
    pub is_response: bool,
}

impl View for DirectMessageData {
    type V = DirectMessageDataModel;

    open spec fn view(&self) -> DirectMessageDataModel {
        DirectMessageDataModel {
            address: self.address@,
            message: self.message@,
            msg_id: self.msg_id@,
            is_response: self.is_response,
        }
    }
}

impl Clone for DirectMessageData {
    fn clone(&self) -> (copy: DirectMessageData)
        ensures
            copy@ == self@,
    {
        DirectMessageData {
            address: self.address.clone(),
            message: self.message.clone(),
            msg_id: self.msg_id.clone(),
            is_response: self.is_response,
        }
    }
}

/// Everything the network needs to initialize.
#[derive(Debug, PartialEq)]
pub struct NetworkSettings {
    /// The configuration of the transport, as JSON.
    pub config: JsonString,
    /// The hash of the DNA: it says which network to connect to.
    pub dna_hash: String,
    /// The address of this agent.
    pub agent_id: String,
}

/// Network settings as a mathematical value.
pub struct NetworkSettingsModel {
    pub config: Seq<char>,
    pub dna_hash: Seq<char>,
    pub agent_id: Seq<char>,
}

impl View for NetworkSettings {
    type V = NetworkSettingsModel;

    open spec fn view(&self) -> NetworkSettingsModel {
        NetworkSettingsModel {
            config: self.config@,
            dna_hash: self.dna_hash@,
            agent_id: self.agent_id@,
        }
    }
}

impl Clone for NetworkSettings {
    fn clone(&self) -> (copy: NetworkSettings)
        ensures
            copy@ == self@,
    {
        NetworkSettings {
            config: self.config.clone(),
            dna_hash: self.dna_hash.clone(),
            agent_id: self.agent_id.clone(),
        }
    }
}

/// A peer's request for the entry at an address.
#[derive(Debug, PartialEq)]
pub struct GetDhtData {
    pub msg_id: String,
    pub from_agent_id: String,
    pub address: Address,
}

/// A peer's request as a mathematical value.
pub struct GetDhtDataModel {
    pub msg_id: Seq<char>,
    pub from_agent_id: Seq<char>,
    pub address: Seq<char>,
}

impl View for GetDhtData {
    type V = GetDhtDataModel;

    open spec fn view(&self) -> GetDhtDataModel {
        GetDhtDataModel {
            msg_id: self.msg_id@,
            from_agent_id: self.from_agent_id@,
            address: self.address@,
        }
    }
}

impl Clone for GetDhtData {
    fn clone(&self) -> (copy: GetDhtData)
        ensures
            copy@ == self@,
    {
        GetDhtData {
            msg_id: self.msg_id.clone(),
            from_agent_id: self.from_agent_id.clone(),
            address: self.address.clone(),
        }
    }
}

/// A copy of an optional entry with its status.
pub fn clone_option_entry(value: &Option<EntryWithMeta>) -> (copy: Option<EntryWithMeta>)
    ensures
        option_view(copy) == option_view(*value),
{
    match value {
        Some(entry) => Some(entry.clone()),
        None => None,
    }
}

/// What the network returned for a get.
#[derive(Debug, PartialEq)]
pub struct DhtData {
    pub msg_id: String,
    /// The address that was asked for.
    pub address: Address,
    /// The entry, where a node had it.
    pub content: Option<EntryWithMeta>,
}

/// The answer to a get as a mathematical value.
pub struct DhtDataModel {
    pub msg_id: Seq<char>,
    pub address: Seq<char>,
    pub content: Option<EntryWithMetaModel>,
}

impl View for DhtData {
    type V = DhtDataModel;

    open spec fn view(&self) -> DhtDataModel {
        DhtDataModel {
            msg_id: self.msg_id@,
            address: self.address@,
            content: option_view(self.content),
        }
    }
}

impl Clone for DhtData {
    fn clone(&self) -> (copy: DhtData)
        ensures
            copy@ == self@,
    {
        DhtData {
            msg_id: self.msg_id.clone(),
            address: self.address.clone(),
            content: clone_option_entry(&self.content),
        }
    }
}

/// A call of a zome function.
#[derive(Debug, PartialEq)]
pub struct ZomeFnCall {
    /// The identity of this call.
    pub id: snowflake::ProcessUniqueId,
    pub zome_name: String,
    pub fn_name: String,
    pub parameters: String,
}

/// A call of a zome function as a mathematical value.
pub struct ZomeFnCallModel {
    pub id: snowflake::ProcessUniqueId,
    pub zome_name: Seq<char>,
    pub fn_name: Seq<char>,
    pub parameters: Seq<char>,
}

impl View for ZomeFnCall {
    type V = ZomeFnCallModel;

    open spec fn view(&self) -> ZomeFnCallModel {
        ZomeFnCallModel {
            id: self.id,
            zome_name: self.zome_name@,
            fn_name: self.fn_name@,
            parameters: self.parameters@,
        }
    }
}

impl Clone for ZomeFnCall {
    fn clone(&self) -> (copy: ZomeFnCall)
        ensures
            copy@ == self@,
    {
        ZomeFnCall {
            id: self.id,
            zome_name: self.zome_name.clone(),
            fn_name: self.fn_name.clone(),
            parameters: self.parameters.clone(),
        }
    }
}

/// The view of a result: the view of what it holds.
pub open spec fn result_view<T: View, E: View>(value: Result<T, E>) -> Result<T::V, E::V> {
    match value {
        Ok(inner) => Ok(inner@),
        Err(error) => Err(error@),
    }
}

/// A copy of what a zome function returned.
pub fn clone_zome_result(value: &Result<JsonString, HolochainError>) -> (copy: Result<
    JsonString,
    HolochainError,
>)
    ensures
        result_view(copy) == result_view(*value),
{
    match value {
        Ok(json) => Ok(json.clone()),
        Err(error) => Err(error.clone()),
    }
}

/// What a call of a zome function returned, with the call.
#[derive(Debug, PartialEq)]
pub struct ExecuteZomeFnResponse {
    pub call: ZomeFnCall,
    pub result: Result<JsonString, HolochainError>,
}

/// The response to a call as a mathematical value.
pub struct ExecuteZomeFnResponseModel {
    pub call: ZomeFnCallModel,
    pub result: Result<Seq<char>, HolochainErrorModel>,
}

impl View for ExecuteZomeFnResponse {
    type V = ExecuteZomeFnResponseModel;

    open spec fn view(&self) -> ExecuteZomeFnResponseModel {
        ExecuteZomeFnResponseModel { call: self.call@, result: result_view(self.result) }
    }
}

impl Clone for ExecuteZomeFnResponse {
    fn clone(&self) -> (copy: ExecuteZomeFnResponse)
        ensures
            copy@ == self@,
    {
        ExecuteZomeFnResponse { call: self.call.clone(), result: clone_zome_result(&self.result) }
    }
}

/// What a validation callback returned: nothing, or why the entry is not
/// valid.
pub type ValidationResult = Result<(), String>;

/// A copy of what a validation callback returned.
pub fn clone_validation_result(value: &ValidationResult) -> (copy: ValidationResult)
    ensures
        result_view(copy) == result_view(*value),
{
    match value {
        Ok(_) => Ok(()),
        Err(reason) => Err(reason.clone()),
    }
}

/// A copy of a validation package, or of the reason why none was built.
pub fn clone_package_result(value: &Result<ValidationPackage, HolochainError>) -> (copy: Result<
    ValidationPackage,
    HolochainError,
>)
    ensures
        result_view(copy) == result_view(*value),
{
    match value {
        Ok(package) => Ok(package.clone()),
        Err(error) => Err(error.clone()),
    }
}

/// All actions of an instance.
#[derive(Debug, PartialEq)]
pub enum Action {
    /// Writes an entry to the source chain. Does not validate.
    Commit((Entry, Option<Address>)),
    /// Adds an entry to the local DHT shard. Does not validate.
    Hold(Entry),
    /// Adds a link to the local DHT shard. Does not validate.
    AddLink(Link),
    /// Creates the network proxy from the settings.
    InitNetwork(NetworkSettings),
    /// Makes the network put the entry at the address to the DHT.
    Publish(Address),
    /// Asks the network for the entry at the address.
    GetEntry(Address),
    /// Marks the entry at the first address as replaced by the second.
    UpdateEntry((Address, Address)),
    /// Marks the entry at the first address as deleted by the second.
    RemoveEntry((Address, Address)),
    /// Gives up waiting for the entry at the address.
    GetEntryTimeout(Address),
    /// Lets the network answer a peer's get with what the local shard holds.
    RespondGet((GetDhtData, Option<EntryWithMeta>)),
    /// Takes in the answer to a get of ours.
    HandleGetResult(DhtData),
    /// Makes the network send a direct message.
    SendDirectMessage(DirectMessageData),
    /// Makes the network forget the direct message with the given id.
    ResolveDirectConnection(String),
    /// Asks the author of the entry of the header for its validation package.
    GetValidationPackage(ChainHeader),
    /// Takes in the answer to such a request, for the entry at the address.
    HandleGetValidationPackage((Address, Option<ValidationPackage>)),
    /// Initializes an application from its DNA.
    InitApplication(Dna),
    /// Reports how the initialization ended: `None` where it succeeded.
    ReturnInitializationResult(Option<String>),
    /// Executes a zome function.
    ExecuteZomeFunction(ZomeFnCall),
    /// Reports what a zome function returned.
    ReturnZomeFunctionResult(ExecuteZomeFnResponse),
    /// Executes a zome function on behalf of another zome function.
    Call(ZomeFnCall),
    /// Reports what a validation callback returned, under the identity of the
    /// calling context and the address of the validated entry.
    ReturnValidationResult(((snowflake::ProcessUniqueId, Address), ValidationResult)),
    /// Reports a validation package that was built locally, or why none was
    /// built, under the identity of the calling context.
    ReturnValidationPackage((snowflake::ProcessUniqueId, Result<ValidationPackage, HolochainError>)),
}

/// An action as a mathematical value.
pub enum ActionModel {
    Commit(EntryModel, Option<Seq<char>>),
    Hold(EntryModel),
    AddLink(LinkModel),
    InitNetwork(NetworkSettingsModel),
    Publish(Seq<char>),
    GetEntry(Seq<char>),
    UpdateEntry(Seq<char>, Seq<char>),
    RemoveEntry(Seq<char>, Seq<char>),
    GetEntryTimeout(Seq<char>),
    RespondGet(GetDhtDataModel, Option<EntryWithMetaModel>),
    HandleGetResult(DhtDataModel),
    SendDirectMessage(DirectMessageDataModel),
    ResolveDirectConnection(Seq<char>),
    GetValidationPackage(ChainHeaderModel),
    HandleGetValidationPackage(Seq<char>, Option<ValidationPackageModel>),
    InitApplication(DnaModel),
    ReturnInitializationResult(Option<Seq<char>>),
    ExecuteZomeFunction(ZomeFnCallModel),
    ReturnZomeFunctionResult(ExecuteZomeFnResponseModel),
    Call(ZomeFnCallModel),
    ReturnValidationResult(snowflake::ProcessUniqueId, Seq<char>, Result<(), Seq<char>>),
    ReturnValidationPackage(
        snowflake::ProcessUniqueId,
        Result<ValidationPackageModel, HolochainErrorModel>,
    ),
}

impl View for Action {
    type V = ActionModel;

    open spec fn view(&self) -> ActionModel {
        match self {
            Action::Commit((entry, link)) => ActionModel::Commit(entry@, option_view(*link)),
            Action::Hold(entry) => ActionModel::Hold(entry@),
            Action::AddLink(link) => ActionModel::AddLink(link@),
            Action::InitNetwork(settings) => ActionModel::InitNetwork(settings@),
            Action::Publish(address) => ActionModel::Publish(address@),
            Action::GetEntry(address) => ActionModel::GetEntry(address@),
            Action::UpdateEntry((old_address, new_address)) => ActionModel::UpdateEntry(
                old_address@,
                new_address@,
            ),
            Action::RemoveEntry((address, deletion)) => ActionModel::RemoveEntry(
                address@,
                deletion@,
            ),
            Action::GetEntryTimeout(address) => ActionModel::GetEntryTimeout(address@),
            Action::RespondGet((request, entry)) => ActionModel::RespondGet(
                request@,
                option_view(*entry),
            ),
            Action::HandleGetResult(data) => ActionModel::HandleGetResult(data@),
            Action::SendDirectMessage(data) => ActionModel::SendDirectMessage(data@),
            Action::ResolveDirectConnection(msg_id) => ActionModel::ResolveDirectConnection(
                msg_id@,
            ),
            Action::GetValidationPackage(header) => ActionModel::GetValidationPackage(header@),
            Action::HandleGetValidationPackage((address, package)) => {
                ActionModel::HandleGetValidationPackage(address@, option_view(*package))
            },
            Action::InitApplication(dna) => ActionModel::InitApplication(dna@),
            Action::ReturnInitializationResult(result) => ActionModel::ReturnInitializationResult(
                option_view(*result),
            ),
            Action::ExecuteZomeFunction(call) => ActionModel::ExecuteZomeFunction(call@),
            Action::ReturnZomeFunctionResult(response) => ActionModel::ReturnZomeFunctionResult(
                response@,
            ),
            Action::Call(call) => ActionModel::Call(call@),
            Action::ReturnValidationResult(((id, address), result)) => {
                ActionModel::ReturnValidationResult(*id, address@, result_view(*result))
            },
            Action::ReturnValidationPackage((id, result)) => ActionModel::ReturnValidationPackage(
                *id,
                result_view(*result),
            ),
        }
    }
}

impl Clone for Action {
    fn clone(&self) -> (copy: Action)
        ensures
            copy@ == self@,
    {
        match self {
            Action::Commit((entry, link)) => Action::Commit(
                (entry.clone(), clone_option_address(link)),
            ),
            Action::Hold(entry) => Action::Hold(entry.clone()),
            Action::AddLink(link) => Action::AddLink(link.clone()),
            Action::InitNetwork(settings) => Action::InitNetwork(settings.clone()),
            Action::Publish(address) => Action::Publish(address.clone()),
            Action::GetEntry(address) => Action::GetEntry(address.clone()),
            Action::UpdateEntry((old_address, new_address)) => Action::UpdateEntry(
                (old_address.clone(), new_address.clone()),
            ),
            Action::RemoveEntry((address, deletion)) => Action::RemoveEntry(
                (address.clone(), deletion.clone()),
            ),
            Action::GetEntryTimeout(address) => Action::GetEntryTimeout(address.clone()),
            Action::RespondGet((request, entry)) => Action::RespondGet(
                (request.clone(), clone_option_entry(entry)),
            ),
            Action::HandleGetResult(data) => Action::HandleGetResult(data.clone()),
            Action::SendDirectMessage(data) => Action::SendDirectMessage(data.clone()),
            Action::ResolveDirectConnection(msg_id) => Action::ResolveDirectConnection(
                msg_id.clone(),
            ),
            Action::GetValidationPackage(header) => Action::GetValidationPackage(header.clone()),
            Action::HandleGetValidationPackage((address, package)) => {
                Action::HandleGetValidationPackage((address.clone(), clone_option_package(package)))
            },
            Action::InitApplication(dna) => Action::InitApplication(dna.clone()),
            Action::ReturnInitializationResult(result) => {
                let copy = match result {
                    Some(text) => Some(text.clone()),
                    None => None,
                };
                Action::ReturnInitializationResult(copy)
            },
            Action::ExecuteZomeFunction(call) => Action::ExecuteZomeFunction(call.clone()),
            Action::ReturnZomeFunctionResult(response) => Action::ReturnZomeFunctionResult(
                response.clone(),
            ),
            Action::Call(call) => Action::Call(call.clone()),
            Action::ReturnValidationResult(((id, address), result)) => {
                Action::ReturnValidationResult(
                    ((*id, address.clone()), clone_validation_result(result)),
                )
            },
            Action::ReturnValidationPackage((id, result)) => Action::ReturnValidationPackage(
                (*id, clone_package_result(result)),
            ),
        }
    }
}

/// An action with an identity: one dispatched occurrence of the action.
///
/// Two wrappers are equal where their identities are, whatever they carry.
#[derive(Debug)]
pub struct ActionWrapper {
    action: Action,
    id: snowflake::ProcessUniqueId,
}

impl ActionWrapper {
    /// The action that the wrapper carries.
    pub closed spec fn spec_action(&self) -> Action {
        self.action
    }

    /// The identity of the wrapper.
    pub closed spec fn spec_id(&self) -> snowflake::ProcessUniqueId {
        self.id
    }

    /// Wraps an action under the given identity.
    pub fn with_id(action: Action, id: snowflake::ProcessUniqueId) -> (wrapper: ActionWrapper)
        ensures
            wrapper.spec_action() == action,
            wrapper.spec_id() == id,
    {
        ActionWrapper { action, id }
    }

    /// Wraps an action under a fresh identity.
    pub fn new(a: Action) -> (wrapper: ActionWrapper)
        ensures
            wrapper.spec_action() == a,
    {
        ActionWrapper::with_id(a, fresh_id())
    }

    /// The action.
    pub fn action(&self) -> (action: &Action)
        ensures
            *action == self.spec_action(),
    {
        &self.action
    }

    /// The identity.
    pub fn id(&self) -> (id: &snowflake::ProcessUniqueId)
        ensures
            *id == self.spec_id(),
    {
        &self.id
    }
}

impl Clone for ActionWrapper {
    fn clone(&self) -> (copy: ActionWrapper)
        ensures
            copy.spec_action()@ == self.spec_action()@,
            copy.spec_id() == self.spec_id(),
    {
        ActionWrapper { action: self.action.clone(), id: self.id }
    }
}

impl PartialEq for ActionWrapper {
    fn eq(&self, other: &ActionWrapper) -> (same: bool)
        ensures
            same == (self.spec_id() == other.spec_id()),
    {
        same_id(&self.id, &other.id)
    }
}

impl PartialEqSpecImpl for ActionWrapper {
    open spec fn obeys_eq_spec() -> bool {
        true
    }

    open spec fn eq_spec(&self, other: &ActionWrapper) -> bool {
        self.spec_id() == other.spec_id()
    }
}

impl Eq for ActionWrapper {

}

impl std::hash::Hash for ActionWrapper {
    /// Feeds the identity, and nothing else, to the hasher: wrappers with the
    /// same identity hash alike.
    ///
    /// Calls `hash` of `snowflake::ProcessUniqueId`, which the crate derives
    /// over the prefix and the offset of the identity.
    #[verifier::external_body]
    fn hash<H: std::hash::Hasher>(&self, state: &mut H) {
        std::hash::Hash::hash(&self.id, state);
    }
}

/// Equality of wrappers is equality of their identities, whatever they
/// carry: wrappers of one action under two identities differ, and wrappers of
/// two actions under one identity are equal.
pub proof fn law_equality_is_identity(left: ActionWrapper, right: ActionWrapper)
    ensures
        PartialEqSpec::eq_spec(&left, &right) <==> left.spec_id() == right.spec_id(),
        left.spec_action() == right.spec_action() && left.spec_id() != right.spec_id()
            ==> !PartialEqSpec::eq_spec(&left, &right),
        left.spec_action() != right.spec_action() && left.spec_id() == right.spec_id()
            ==> PartialEqSpec::eq_spec(&left, &right),
{
}

} // verus!
