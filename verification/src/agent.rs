//! The agent sub-state: the local source chain and the content that it
//! refers to.

use crate::action::{ActionModel, ActionWrapper, Action};
use crate::content::{
    clone_option_address, list_view, option_view, Address, ChainHeader, ChainHeaderModel, Entry,
    EntryModel,
};
use crate::table::Table;
use vstd::prelude::*;

verus! {

/// The agent sub-state.
pub struct AgentState {
    /// The address of the agent that owns the chain.
    agent: Address,
    /// The headers of the committed entries, oldest first.
    chain: Vec<ChainHeader>,
    /// The committed entries by their addresses.
    storage: Table<Address, Entry>,
}

/// The agent sub-state as a mathematical value.
pub struct AgentModel {
    pub agent: Seq<char>,
    pub chain: Seq<ChainHeaderModel>,
    pub storage: Map<Seq<char>, EntryModel>,
}

/// The address of the entry committed last, if there is one.
pub open spec fn top_address(chain: Seq<ChainHeaderModel>) -> Option<Seq<char>> {
    if chain.len() == 0 {
        None
    } else {
        Some(chain.last().entry_address)
    }
}

/// The header under which `entry` is committed on top of `state`'s chain.
pub open spec fn commit_header(
    state: AgentModel,
    entry: EntryModel,
    link_crud: Option<Seq<char>>,
) -> ChainHeaderModel {
    ChainHeaderModel {
        entry_type: entry.entry_type,
        entry_address: entry.address,
        source: state.agent,
        link: top_address(state.chain),
        link_crud,
    }
}

/// What an action makes of the agent sub-state: a commit puts the entry into
/// storage under its address and its header on top of the chain; every other
/// action leaves the sub-state as it is.
pub open spec fn reduce_agent(state: AgentModel, action: ActionModel) -> AgentModel {
    match action {
        ActionModel::Commit(entry, link_crud) => AgentModel {
            agent: state.agent,
            chain: state.chain.push(commit_header(state, entry, link_crud)),
            storage: state.storage.insert(entry.address, entry),
        },
        _ => state,
    }
}

impl View for AgentState {
    type V = AgentModel;

    closed spec fn view(&self) -> AgentModel {
        AgentModel {
            agent: self.agent@,
            chain: list_view(self.chain@),
            storage: self.storage@,
        }
    }
}

impl AgentState {
    /// The sub-state is well formed.
    pub closed spec fn wf(&self) -> bool {
        self.storage.wf()
    }

    /// The sub-state of an agent that has committed nothing yet.
    pub fn new(agent: Address) -> (state: AgentState)
        ensures
            state.wf(),
            state@ == (AgentModel { agent: agent@, chain: Seq::empty(), storage: Map::empty() }),
    {
        let state = AgentState { agent, chain: Vec::new(), storage: Table::new() };
        assert(list_view(state.chain@) =~= Seq::<ChainHeaderModel>::empty());
        state
    }

    /// The address of the agent.
    pub fn agent(&self) -> (agent: &Address)
        ensures
            agent@ == self@.agent,
    {
        &self.agent
    }

    /// The number of committed entries.
    pub fn chain_len(&self) -> (count: usize)
        ensures
            count == self@.chain.len(),
    {
        self.chain.len()
    }

    /// The header of the entry committed last, if there is one.
    pub fn top_chain_header(&self) -> (top: Option<&ChainHeader>)
        ensures
            top is Some <==> self@.chain.len() > 0,
            top matches Some(header) ==> header@ == self@.chain.last(),
    {
        if self.chain.len() == 0 {
            None
        } else {
            Some(&self.chain[self.chain.len() - 1])
        }
    }

    /// The entry that storage holds at `address`, if it holds one.
    pub fn get_entry(&self, address: &Address) -> (found: Option<Entry>)
        requires
            self.wf(),
        ensures
            found is Some <==> self@.storage.contains_key(address@),
            found matches Some(entry) ==> entry@ == self@.storage[address@],
    {
        match self.storage.get(address) {
            Some(entry) => Some(entry.clone()),
            None => None,
        }
    }

    /// Applies an action to the sub-state.
    pub fn reduce(&mut self, action_wrapper: &ActionWrapper)
        requires
            old(self).wf(),
        ensures
            final(self).wf(),
            final(self)@ == reduce_agent(old(self)@, action_wrapper.spec_action()@),
    {
        match action_wrapper.action() {
            Action::Commit((entry, link_crud)) => {
                let link = match self.top_chain_header() {
                    Some(header) => Some(header.entry_address.clone()),
                    None => None,
                };
                let header = ChainHeader {
                    entry_type: entry.entry_type.clone(),
                    entry_address: entry.address.clone(),
                    source: self.agent.clone(),
                    link,
                    link_crud: clone_option_address(link_crud),
                };
                assert(list_view(self.chain@.push(header)) =~= list_view(self.chain@).push(
                    header@,
                ));
                self.chain.push(header);
                self.storage.insert(entry.address.clone(), entry.clone());
            },
            _ => {},
        }
    }
}

/// After a commit, storage holds the committed entry unchanged at the
/// entry's address, and the chain is longer by the header of the entry,
/// which links to the entry committed before.
pub proof fn law_commit_then_fetch(
    state: AgentModel,
    entry: EntryModel,
    link_crud: Option<Seq<char>>,
)
    ensures
        ({
            let after = reduce_agent(state, ActionModel::Commit(entry, link_crud));
            &&& after.storage.contains_key(entry.address)
            &&& after.storage[entry.address] == entry
            &&& after.chain.len() == state.chain.len() + 1
            &&& after.chain.last().entry_address == entry.address
            &&& after.chain.last().link == top_address(state.chain)
            &&& top_address(after.chain) == Some(entry.address)
            &&& after.chain.take(state.chain.len() as int) == state.chain
        }),
{
    let after = reduce_agent(state, ActionModel::Commit(entry, link_crud));
}

/// A commit leaves every entry at another address as it was.
pub proof fn law_commit_keeps_others(
    state: AgentModel,
    entry: EntryModel,
    link_crud: Option<Seq<char>>,
    other: Seq<char>,
)
    requires
        other != entry.address,
    ensures
        ({
            let after = reduce_agent(state, ActionModel::Commit(entry, link_crud));
            &&& after.storage.contains_key(other) == state.storage.contains_key(other)
            &&& state.storage.contains_key(other) ==> after.storage[other] == state.storage[other]
        }),
{
}

} // verus!
