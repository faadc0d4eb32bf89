//! The network sub-state: the settings of the transport, the local DHT
//! shard, and the requests that wait for an answer.
//!
//! A request is `Requested` from the action that makes it until its answer
//! or its timeout arrives, whichever comes first; after that nothing changes
//! it any more. A direct message that waits for its answer is held under its
//! message id until that id is resolved.

use crate::action::{
    clone_option_entry, Action, ActionModel, ActionWrapper, DhtDataModel, DirectMessage,
    DirectMessageDataModel, DirectMessageModel, NetworkSettings, NetworkSettingsModel,
};
use crate::content::{
    clone_option_package, list_view, option_view, Address, CrudStatus, EntryWithMeta,
    EntryWithMetaModel, Link, LinkModel, ValidationPackage, ValidationPackageModel,
};
use crate::table::Table;
use vstd::prelude::*;

verus! {

/// Where a request for an entry stands.
#[derive(Debug, PartialEq)]
pub enum EntryRequest {
    /// The request was made and nothing came back yet.
    Requested,
    /// The network answered, with the entry or without one.
    Answered(Option<EntryWithMeta>),
    /// The timeout came before an answer.
    TimedOut,
}

/// A request for an entry as a mathematical value.
pub enum EntryRequestModel {
    Requested,
    Answered(Option<EntryWithMetaModel>),
    TimedOut,
}

impl View for EntryRequest {
    type V = EntryRequestModel;

    open spec fn view(&self) -> EntryRequestModel {
        match self {
            EntryRequest::Requested => EntryRequestModel::Requested,
            EntryRequest::Answered(entry) => EntryRequestModel::Answered(option_view(*entry)),
            EntryRequest::TimedOut => EntryRequestModel::TimedOut,
        }
    }
}

impl Clone for EntryRequest {
    fn clone(&self) -> (copy: EntryRequest)
        ensures
            copy@ == self@,
    {
        match self {
            EntryRequest::Requested => EntryRequest::Requested,
            EntryRequest::Answered(entry) => EntryRequest::Answered(clone_option_entry(entry)),
            EntryRequest::TimedOut => EntryRequest::TimedOut,
        }
    }
}

/// Where a request for a validation package stands.
#[derive(Debug, PartialEq)]
pub enum PackageRequest {
    /// The request was made and nothing came back yet.
    Requested,
    /// The author answered, with a package or without one.
    Answered(Option<ValidationPackage>),
}

/// A request for a validation package as a mathematical value.
pub enum PackageRequestModel {
    Requested,
    Answered(Option<ValidationPackageModel>),
}

impl View for PackageRequest {
    type V = PackageRequestModel;

    open spec fn view(&self) -> PackageRequestModel {
        match self {
            PackageRequest::Requested => PackageRequestModel::Requested,
            PackageRequest::Answered(package) => PackageRequestModel::Answered(
                option_view(*package),
            ),
        }
    }
}

impl Clone for PackageRequest {
    fn clone(&self) -> (copy: PackageRequest)
        ensures
            copy@ == self@,
    {
        match self {
            PackageRequest::Requested => PackageRequest::Requested,
            PackageRequest::Answered(package) => PackageRequest::Answered(
                clone_option_package(package),
            ),
        }
    }
}

/// The network sub-state.
pub struct NetworkState {
    /// The settings that the network was initialized with, if it was.
    settings: Option<NetworkSettings>,
    /// The local DHT shard: the held entries by their addresses.
    shard: Table<Address, EntryWithMeta>,
    /// The links of the local DHT shard, oldest first.
    links: Vec<Link>,
    /// The requests for entries, by the address asked for.
    entry_requests: Table<Address, EntryRequest>,
    /// The requests for validation packages, by the address of the entry.
    package_requests: Table<Address, PackageRequest>,
    /// The direct messages that wait for an answer, by message id.
    direct_messages: Table<String, DirectMessage>,
}

/// The network sub-state as a mathematical value.
pub struct NetworkModel {
    pub settings: Option<NetworkSettingsModel>,
    pub shard: Map<Seq<char>, EntryWithMetaModel>,
    pub links: Seq<LinkModel>,
    pub entry_requests: Map<Seq<char>, EntryRequestModel>,
    pub package_requests: Map<Seq<char>, PackageRequestModel>,
    pub direct_messages: Map<Seq<char>, DirectMessageModel>,
}

/// The shard after the entry at `address`, where it holds one, got the
/// status `status` and the link `link`.
pub open spec fn mark_entry(
    shard: Map<Seq<char>, EntryWithMetaModel>,
    address: Seq<char>,
    status: CrudStatus,
    link: Seq<char>,
) -> Map<Seq<char>, EntryWithMetaModel> {
    if shard.contains_key(address) {
        shard.insert(
            address,
            EntryWithMetaModel {
                entry: shard[address].entry,
                crud_status: status,
                maybe_crud_link: Some(link),
            },
        )
    } else {
        shard
    }
}

/// The requests for entries after `outcome` arrived for `address`: it counts
/// only where the request still waits.
pub open spec fn settle_entry_request(
    requests: Map<Seq<char>, EntryRequestModel>,
    address: Seq<char>,
    outcome: EntryRequestModel,
) -> Map<Seq<char>, EntryRequestModel> {
    if requests.contains_key(address) && requests[address] == EntryRequestModel::Requested {
        requests.insert(address, outcome)
    } else {
        requests
    }
}

/// The requests for validation packages after an answer arrived for
/// `address`: it counts only where the request still waits.
pub open spec fn settle_package_request(
    requests: Map<Seq<char>, PackageRequestModel>,
    address: Seq<char>,
    package: Option<ValidationPackageModel>,
) -> Map<Seq<char>, PackageRequestModel> {
    if requests.contains_key(address) && requests[address] == PackageRequestModel::Requested {
        requests.insert(address, PackageRequestModel::Answered(package))
    } else {
        requests
    }
}

/// What an action makes of the network sub-state.
pub open spec fn reduce_network(state: NetworkModel, action: ActionModel) -> NetworkModel {
    match action {
        ActionModel::Hold(entry) => NetworkModel {
            shard: state.shard.insert(
                entry.address,
                EntryWithMetaModel {
                    entry,
                    crud_status: CrudStatus::Live,
                    maybe_crud_link: None,
                },
            ),
            ..state
        },
        ActionModel::AddLink(link) => NetworkModel { links: state.links.push(link), ..state },
        ActionModel::InitNetwork(settings) => NetworkModel { settings: Some(settings), ..state },
        ActionModel::GetEntry(address) => NetworkModel {
            entry_requests: state.entry_requests.insert(address, EntryRequestModel::Requested),
            ..state
        },
        ActionModel::UpdateEntry(old_address, new_address) => NetworkModel {
            shard: mark_entry(state.shard, old_address, CrudStatus::Modified, new_address),
            ..state
        },
        ActionModel::RemoveEntry(address, deletion) => NetworkModel {
            shard: mark_entry(state.shard, address, CrudStatus::Deleted, deletion),
            ..state
        },
        ActionModel::GetEntryTimeout(address) => NetworkModel {
            entry_requests: settle_entry_request(
                state.entry_requests,
                address,
                EntryRequestModel::TimedOut,
            ),
            ..state
        },
        ActionModel::HandleGetResult(data) => NetworkModel {
            entry_requests: settle_entry_request(
                state.entry_requests,
                data.address,
                EntryRequestModel::Answered(data.content),
            ),
            ..state
        },
        ActionModel::SendDirectMessage(data) => if data.is_response {
            state
        } else {
            NetworkModel {
                direct_messages: state.direct_messages.insert(data.msg_id, data.message),
                ..state
            }
        },
        ActionModel::ResolveDirectConnection(msg_id) => NetworkModel {
            direct_messages: state.direct_messages.remove(msg_id),
            ..state
        },
        ActionModel::GetValidationPackage(header) => NetworkModel {
            package_requests: state.package_requests.insert(
                header.entry_address,
                PackageRequestModel::Requested,
            ),
            ..state
        },
        ActionModel::HandleGetValidationPackage(address, package) => NetworkModel {
            package_requests: settle_package_request(state.package_requests, address, package),
            ..state
        },
        _ => state,
    }
}

impl View for NetworkState {
    type V = NetworkModel;

    closed spec fn view(&self) -> NetworkModel {
        NetworkModel {
            settings: option_view(self.settings),
            shard: self.shard@,
            links: list_view(self.links@),
            entry_requests: self.entry_requests@,
            package_requests: self.package_requests@,
            direct_messages: self.direct_messages@,
        }
    }
}

impl NetworkState {
    /// The sub-state is well formed.
    pub closed spec fn wf(&self) -> bool {
        &&& self.shard.wf()
        &&& self.entry_requests.wf()
        &&& self.package_requests.wf()
        &&& self.direct_messages.wf()
    }

    /// The sub-state of a network that is not initialized, holds nothing and
    /// waits for nothing.
    pub fn new() -> (state: NetworkState)
        ensures
            state.wf(),
            state@ == (NetworkModel {
                settings: None,
                shard: Map::empty(),
                links: Seq::empty(),
                entry_requests: Map::empty(),
                package_requests: Map::empty(),
                direct_messages: Map::empty(),
            }),
    {
        let state = NetworkState {
            settings: None,
            shard: Table::new(),
            links: Vec::new(),
            entry_requests: Table::new(),
            package_requests: Table::new(),
            direct_messages: Table::new(),
        };
        assert(list_view(state.links@) =~= Seq::<LinkModel>::empty());
        state
    }

    /// The settings that the network was initialized with, if it was.
    pub fn settings(&self) -> (settings: Option<&NetworkSettings>)
        ensures
            settings is Some <==> self@.settings is Some,
            settings matches Some(found) ==> Some(found@) == self@.settings,
    {
        match &self.settings {
            Some(settings) => Some(settings),
            None => None,
        }
    }

    /// The entry that the shard holds at `address`, if it holds one.
    pub fn held_entry(&self, address: &Address) -> (found: Option<EntryWithMeta>)
        requires
            self.wf(),
        ensures
            found is Some <==> self@.shard.contains_key(address@),
            found matches Some(entry) ==> entry@ == self@.shard[address@],
    {
        match self.shard.get(address) {
            Some(entry) => Some(entry.clone()),
            None => None,
        }
    }

    /// The number of links in the shard.
    pub fn link_count(&self) -> (count: usize)
        ensures
            count == self@.links.len(),
    {
        self.links.len()
    }

    /// The link at position `at`, the oldest being at 0.
    pub fn link(&self, at: usize) -> (link: &Link)
        requires
            at < self@.links.len(),
        ensures
            link@ == self@.links[at as int],
    {
        &self.links[at]
    }

    /// Where the request for the entry at `address` stands, if one was made.
    pub fn entry_request(&self, address: &Address) -> (found: Option<EntryRequest>)
        requires
            self.wf(),
        ensures
            found is Some <==> self@.entry_requests.contains_key(address@),
            found matches Some(request) ==> request@ == self@.entry_requests[address@],
    {
        match self.entry_requests.get(address) {
            Some(request) => Some(request.clone()),
            None => None,
        }
    }

    /// Where the request for the validation package of the entry at
    /// `address` stands, if one was made.
    pub fn package_request(&self, address: &Address) -> (found: Option<PackageRequest>)
        requires
            self.wf(),
        ensures
            found is Some <==> self@.package_requests.contains_key(address@),
            found matches Some(request) ==> request@ == self@.package_requests[address@],
    {
        match self.package_requests.get(address) {
            Some(request) => Some(request.clone()),
            None => None,
        }
    }

    /// The direct message that waits for an answer under `msg_id`, if one
    /// does.
    pub fn pending_message(&self, msg_id: &str) -> (found: Option<DirectMessage>)
        requires
            self.wf(),
        ensures
            found is Some <==> self@.direct_messages.contains_key(msg_id@),
            found matches Some(message) ==> message@ == self@.direct_messages[msg_id@],
    {
        let key = String::from_str(msg_id);
        match self.direct_messages.get(&key) {
            Some(message) => Some(message.clone()),
            None => None,
        }
    }

    /// The number of direct messages that wait for an answer.
    pub fn pending_count(&self) -> (count: usize)
        requires
            self.wf(),
        ensures
            self@.direct_messages.dom().finite(),
            count == self@.direct_messages.dom().len(),
    {
        self.direct_messages.len()
    }

    /// Gives the held entry at `address` a new status and link.
    fn mark(&mut self, address: &Address, status: CrudStatus, link: &Address)
        requires
            old(self).wf(),
        ensures
            final(self).wf(),
            final(self)@ == (NetworkModel {
                shard: mark_entry(old(self)@.shard, address@, status, link@),
                ..old(self)@
            }),
    {
        let marked = match self.shard.get(address) {
            Some(held) => Some(
                EntryWithMeta {
                    entry: held.entry.clone(),
                    crud_status: status,
                    maybe_crud_link: Some(link.clone()),
                },
            ),
            None => None,
        };
        match marked {
            Some(entry) => {
                self.shard.insert(address.clone(), entry);
            },
            None => {},
        }
    }

    /// Settles the request for the entry at `address`, if it still waits.
    fn settle_entry(&mut self, address: &Address, outcome: EntryRequest)
        requires
            old(self).wf(),
        ensures
            final(self).wf(),
            final(self)@ == (NetworkModel {
                entry_requests: settle_entry_request(
                    old(self)@.entry_requests,
                    address@,
                    outcome@,
                ),
                ..old(self)@
            }),
    {
        let waits = match self.entry_requests.get(address) {
            Some(EntryRequest::Requested) => true,
            _ => false,
        };
        if waits {
            self.entry_requests.insert(address.clone(), outcome);
        }
    }

    /// Settles the request for the validation package of the entry at
    /// `address`, if it still waits.
    fn settle_package(&mut self, address: &Address, package: Option<ValidationPackage>)
        requires
            old(self).wf(),
        ensures
            final(self).wf(),
            final(self)@ == (NetworkModel {
                package_requests: settle_package_request(
                    old(self)@.package_requests,
                    address@,
                    option_view(package),
                ),
                ..old(self)@
            }),
    {
        let waits = match self.package_requests.get(address) {
            Some(PackageRequest::Requested) => true,
            _ => false,
        };
        if waits {
            self.package_requests.insert(address.clone(), PackageRequest::Answered(package));
        }
    }

    /// Applies an action to the sub-state.
    pub fn reduce(&mut self, action_wrapper: &ActionWrapper)
        requires
            old(self).wf(),
        ensures
            final(self).wf(),
            final(self)@ == reduce_network(old(self)@, action_wrapper.spec_action()@),
    {
        match action_wrapper.action() {
            Action::Hold(entry) => {
                let held = EntryWithMeta {
                    entry: entry.clone(),
                    crud_status: CrudStatus::Live,
                    maybe_crud_link: None,
                };
                self.shard.insert(entry.address.clone(), held);
            },
            Action::AddLink(link) => {
                let copy = link.clone();
                assert(list_view(self.links@.push(copy)) =~= list_view(self.links@).push(link@));
                self.links.push(copy);
            },
            Action::InitNetwork(settings) => {
                self.settings = Some(settings.clone());
            },
            Action::GetEntry(address) => {
                self.entry_requests.insert(address.clone(), EntryRequest::Requested);
            },
            Action::UpdateEntry((old_address, new_address)) => {
                self.mark(old_address, CrudStatus::Modified, new_address);
            },
            Action::RemoveEntry((address, deletion)) => {
                self.mark(address, CrudStatus::Deleted, deletion);
            },
            Action::GetEntryTimeout(address) => {
                self.settle_entry(address, EntryRequest::TimedOut);
            },
            Action::HandleGetResult(data) => {
                self.settle_entry(
                    &data.address,
                    EntryRequest::Answered(clone_option_entry(&data.content)),
                );
            },
            Action::SendDirectMessage(data) => {
                if !data.is_response {
                    self.direct_messages.insert(data.msg_id.clone(), data.message.clone());
                }
            },
            Action::ResolveDirectConnection(msg_id) => {
                self.direct_messages.remove(msg_id);
            },
            Action::GetValidationPackage(header) => {
                self.package_requests.insert(
                    header.entry_address.clone(),
                    PackageRequest::Requested,
                );
            },
            Action::HandleGetValidationPackage((address, package)) => {
                self.settle_package(address, clone_option_package(package));
            },
            _ => {},
        }
    }
}

/// A direct message that asks for an answer waits under its message id from
/// the action that sends it; a response that is sent makes nothing wait.
pub proof fn law_request_waits(state: NetworkModel, data: DirectMessageDataModel)
    ensures
        ({
            let after = reduce_network(state, ActionModel::SendDirectMessage(data));
            &&& !data.is_response ==> after.direct_messages.contains_key(data.msg_id)
                && after.direct_messages[data.msg_id] == data.message
            &&& data.is_response ==> after == state
        }),
{
}

/// Resolving a message id takes exactly that id out of the waiting direct
/// messages: every other id waits as before, with the same message.
pub proof fn law_resolve_is_exact(state: NetworkModel, resolved: Seq<char>, msg_id: Seq<char>)
    ensures
        ({
            let after = reduce_network(state, ActionModel::ResolveDirectConnection(resolved));
            &&& !after.direct_messages.contains_key(resolved)
            &&& msg_id != resolved ==> after.direct_messages.contains_key(msg_id)
                == state.direct_messages.contains_key(msg_id)
            &&& msg_id != resolved && state.direct_messages.contains_key(msg_id)
                ==> after.direct_messages[msg_id] == state.direct_messages[msg_id]
        }),
{
}

/// Nothing changes a resolved message id any more: resolving it again leaves
/// the sub-state as it is.
pub proof fn law_resolved_is_final(state: NetworkModel, msg_id: Seq<char>)
    ensures
        ({
            let resolved = reduce_network(state, ActionModel::ResolveDirectConnection(msg_id));
            reduce_network(resolved, ActionModel::ResolveDirectConnection(msg_id)) == resolved
        }),
{
    let resolved = reduce_network(state, ActionModel::ResolveDirectConnection(msg_id));
    assert(resolved.direct_messages.remove(msg_id) =~= resolved.direct_messages);
}

/// A request for an entry leaves `Requested` once, by its answer or by its
/// timeout, whichever comes first: neither changes a request that was
/// answered or timed out.
pub proof fn law_settled_entry_request_is_final(
    state: NetworkModel,
    address: Seq<char>,
    data: DhtDataModel,
)
    requires
        state.entry_requests.contains_key(address),
        state.entry_requests[address] != EntryRequestModel::Requested,
        data.address == address,
    ensures
        reduce_network(state, ActionModel::GetEntryTimeout(address)) == state,
        reduce_network(state, ActionModel::HandleGetResult(data)) == state,
{
}

/// A request for an entry that waits is settled by what comes first: the
/// timeout makes it `TimedOut`, the answer makes it `Answered` with what the
/// network returned.
pub proof fn law_entry_request_settles(
    state: NetworkModel,
    address: Seq<char>,
    data: DhtDataModel,
)
    requires
        state.entry_requests.contains_key(address),
        state.entry_requests[address] == EntryRequestModel::Requested,
        data.address == address,
    ensures
        reduce_network(state, ActionModel::GetEntryTimeout(address)).entry_requests[address]
            == EntryRequestModel::TimedOut,
        reduce_network(state, ActionModel::HandleGetResult(data)).entry_requests[address]
            == EntryRequestModel::Answered(data.content),
{
}

} // verus!
