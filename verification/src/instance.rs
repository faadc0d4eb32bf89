//! The state of an instance and the dispatcher that changes it.
//!
//! The dispatcher is the only writer. It admits action wrappers one at a
//! time, applies each to the three sub-states, and keeps the admitted
//! wrappers in a log. The state is at every moment what replaying the log
//! from the initial state gives, and no identity occurs twice in the log.

use crate::action::{same_id, ActionModel, ActionWrapper};
use crate::agent::{reduce_agent, AgentModel, AgentState};
use crate::content::Address;
use crate::network::{reduce_network, NetworkModel, NetworkState};
use crate::nucleus::{reduce_nucleus, NucleusModel, NucleusState, NucleusStatusModel};
use vstd::prelude::*;

verus! {

/// The state of an instance: its three sub-states.
pub struct State {
    agent: AgentState,
    network: NetworkState,
    nucleus: NucleusState,
}

/// The state of an instance as a mathematical value.
pub struct StateModel {
    pub agent: AgentModel,
    pub network: NetworkModel,
    pub nucleus: NucleusModel,
}

/// What an action makes of the state: each sub-state is reduced on its own.
pub open spec fn reduce(state: StateModel, action: ActionModel) -> StateModel {
    StateModel {
        agent: reduce_agent(state.agent, action),
        network: reduce_network(state.network, action),
        nucleus: reduce_nucleus(state.nucleus, action),
    }
}

/// The state after the actions were applied to `state` one after the other,
/// the first of the sequence first.
pub open spec fn replay(state: StateModel, actions: Seq<ActionModel>) -> StateModel
    decreases actions.len(),
{
    if actions.len() == 0 {
        state
    } else {
        reduce(replay(state, actions.drop_last()), actions.last())
    }
}

/// An admitted wrapper as a mathematical value: its identity and its action.
pub struct Envelope {
    pub id: snowflake::ProcessUniqueId,
    pub action: ActionModel,
}

/// The actions of a log, in its order.
pub open spec fn actions_of(log: Seq<Envelope>) -> Seq<ActionModel> {
    Seq::new(log.len(), |i: int| log[i].action)
}

/// The log holds a wrapper with the identity `id`.
pub open spec fn seen(log: Seq<Envelope>, id: snowflake::ProcessUniqueId) -> bool {
    exists|i: int| 0 <= i < log.len() && #[trigger] log[i].id == id
}

/// No identity occurs twice in the log.
pub open spec fn unique(log: Seq<Envelope>) -> bool {
    forall|i: int, j: int| 0 <= i < j < log.len() ==> #[trigger] log[i].id != #[trigger] log[j].id
}

/// The log after `envelope` was handed in: it is admitted unless its
/// identity was admitted before.
pub open spec fn accept(log: Seq<Envelope>, envelope: Envelope) -> Seq<Envelope> {
    if seen(log, envelope.id) {
        log
    } else {
        log.push(envelope)
    }
}

/// The log after the envelopes of `batch` were handed in, in their order.
pub open spec fn accept_all(log: Seq<Envelope>, batch: Seq<Envelope>) -> Seq<Envelope>
    decreases batch.len(),
{
    if batch.len() == 0 {
        log
    } else {
        accept(accept_all(log, batch.drop_last()), batch.last())
    }
}

/// The envelope that stands for a wrapper.
pub open spec fn envelope_of(wrapper: ActionWrapper) -> Envelope {
    Envelope { id: wrapper.spec_id(), action: wrapper.spec_action()@ }
}

/// The envelopes that stand for a list of wrappers.
pub open spec fn envelopes_of(wrappers: Seq<ActionWrapper>) -> Seq<Envelope> {
    Seq::new(wrappers.len(), |i: int| envelope_of(wrappers[i]))
}

impl View for State {
    type V = StateModel;

    closed spec fn view(&self) -> StateModel {
        StateModel { agent: self.agent@, network: self.network@, nucleus: self.nucleus@ }
    }
}

impl State {
    /// The state is well formed.
    pub closed spec fn wf(&self) -> bool {
        &&& self.agent.wf()
        &&& self.network.wf()
        &&& self.nucleus.wf()
    }

    /// The state in which an agent starts.
    pub open spec fn initial(agent: Seq<char>) -> StateModel {
        StateModel {
            agent: AgentModel { agent, chain: Seq::empty(), storage: Map::empty() },
            network: NetworkModel {
                settings: None,
                shard: Map::empty(),
                links: Seq::empty(),
                entry_requests: Map::empty(),
                package_requests: Map::empty(),
                direct_messages: Map::empty(),
            },
            nucleus: NucleusModel {
                dna: None,
                status: NucleusStatusModel::New,
                zome_calls: Map::empty(),
                validation_results: Map::empty(),
                validation_packages: Map::empty(),
            },
        }
    }

    /// The state in which the agent at `agent` starts.
    pub fn new(agent: Address) -> (state: State)
        ensures
            state.wf(),
            state@ == State::initial(agent@),
    {
        State {
            agent: AgentState::new(agent),
            network: NetworkState::new(),
            nucleus: NucleusState::new(),
        }
    }

    /// The agent sub-state.
    pub fn agent(&self) -> (agent: &AgentState)
        requires
            self.wf(),
        ensures
            agent.wf(),
            agent@ == self@.agent,
    {
        &self.agent
    }

    /// The network sub-state.
    pub fn network(&self) -> (network: &NetworkState)
        requires
            self.wf(),
        ensures
            network.wf(),
            network@ == self@.network,
    {
        &self.network
    }

    /// The nucleus sub-state.
    pub fn nucleus(&self) -> (nucleus: &NucleusState)
        requires
            self.wf(),
        ensures
            nucleus.wf(),
            nucleus@ == self@.nucleus,
    {
        &self.nucleus
    }

    /// Applies an action to every sub-state.
    pub fn reduce(&mut self, action_wrapper: &ActionWrapper)
        requires
            old(self).wf(),
        ensures
            final(self).wf(),
            final(self)@ == reduce(old(self)@, action_wrapper.spec_action()@),
    {
        self.agent.reduce(action_wrapper);
        self.network.reduce(action_wrapper);
        self.nucleus.reduce(action_wrapper);
    }
}

/// Replaying two sequences of actions one after the other is replaying
/// their concatenation.
pub proof fn law_replay_concat(
    state: StateModel,
    first: Seq<ActionModel>,
    second: Seq<ActionModel>,
)
    ensures
        replay(state, first + second) == replay(replay(state, first), second),
    decreases second.len(),
{
    if second.len() == 0 {
    } else {
        law_replay_concat(state, first, second.drop_last());
        assert((first + second).drop_last() =~= first + second.drop_last());
    }
}

/// Each sub-state after a replay depends on that sub-state before it and on
/// the actions alone: it is the fold of its own reducer over the actions.
pub proof fn law_sub_states_fold_apart(
    first: StateModel,
    second: StateModel,
    actions: Seq<ActionModel>,
)
    ensures
        first.agent == second.agent ==> replay(first, actions).agent == replay(
            second,
            actions,
        ).agent,
        first.network == second.network ==> replay(first, actions).network == replay(
            second,
            actions,
        ).network,
        first.nucleus == second.nucleus ==> replay(first, actions).nucleus == replay(
            second,
            actions,
        ).nucleus,
    decreases actions.len(),
{
    if actions.len() > 0 {
        law_sub_states_fold_apart(first, second, actions.drop_last());
    }
}

/// A batch of envelopes whose identities are new to the log and differ from
/// each other is admitted whole and in its order.
pub proof fn law_accept_all_fresh(log: Seq<Envelope>, batch: Seq<Envelope>)
    requires
        unique(log + batch),
    ensures
        accept_all(log, batch) == log + batch,
    decreases batch.len(),
{
    if batch.len() == 0 {
    } else {
        let all = log + batch;
        let rest = batch.drop_last();
        assert(unique(log + rest)) by {
            assert forall|i: int, j: int| 0 <= i < j < (log + rest).len() implies 
                #[trigger] (log + rest)[i].id != #[trigger] (log + rest)[j].id by {
                assert(all[i].id != all[j].id);
            }
        }
        law_accept_all_fresh(log, rest);
        assert(!seen(log + rest, batch.last().id)) by {
            if seen(log + rest, batch.last().id) {
                let i = choose|i: int|
                    0 <= i < (log + rest).len() && #[trigger] (log + rest)[i].id
                        == batch.last().id;
                assert(all[i].id != all[all.len() - 1].id);
            }
        }
    }
}

/// A log only grows when a batch is handed in: what was admitted before
/// stays where it was.
pub proof fn law_accept_all_extends(log: Seq<Envelope>, batch: Seq<Envelope>)
    ensures
        log.len() <= accept_all(log, batch).len() <= log.len() + batch.len(),
        accept_all(log, batch).take(log.len() as int) == log,
        unique(log) ==> unique(accept_all(log, batch)),
    decreases batch.len(),
{
    if batch.len() == 0 {
    } else {
        law_accept_all_extends(log, batch.drop_last());
        let before = accept_all(log, batch.drop_last());
        let after = accept_all(log, batch);
    }
}

/// The single writer of an instance's state.
pub struct Dispatcher {
    /// The current state.
    state: State,
    /// The admitted wrappers, in the order of their admission.
    history: Vec<ActionWrapper>,
    /// The state that the dispatcher started from.
    start: Ghost<StateModel>,
}

impl Dispatcher {
    /// The admitted envelopes, in the order of their admission.
    pub closed spec fn log(&self) -> Seq<Envelope> {
        envelopes_of(self.history@)
    }

    /// The state that the dispatcher started from.
    pub closed spec fn start(&self) -> StateModel {
        self.start@
    }

    /// The current state.
    pub closed spec fn current(&self) -> StateModel {
        self.state@
    }

    /// The parts of the dispatcher are well formed.
    pub closed spec fn parts_wf(&self) -> bool {
        self.state.wf()
    }

    /// The dispatcher is well formed: no identity was admitted twice, and
    /// the state is what replaying the log from the start gives.
    pub open spec fn wf(&self) -> bool {
        &&& self.parts_wf()
        &&& unique(self.log())
        &&& self.current() == replay(self.start(), actions_of(self.log()))
    }

    /// The dispatcher of an instance of the agent at `agent`: nothing was
    /// admitted yet.
    pub fn new(agent: Address) -> (dispatcher: Dispatcher)
        ensures
            dispatcher.wf(),
            dispatcher.log() == Seq::<Envelope>::empty(),
            dispatcher.start() == State::initial(agent@),
            dispatcher.current() == State::initial(agent@),
    {
        let state = State::new(agent);
        let dispatcher = Dispatcher { state, history: Vec::new(), start: Ghost(state@) };
        dispatcher
    }

    /// The current state, for observers.
    pub fn state(&self) -> (state: &State)
        requires
            self.wf(),
        ensures
            state.wf(),
            state@ == self.current(),
    {
        &self.state
    }

    /// The number of admitted wrappers.
    pub fn history_len(&self) -> (count: usize)
        ensures
            count == self.log().len(),
    {
        self.history.len()
    }

    /// The wrapper that was admitted as number `at`, counting from 0.
    pub fn history_at(&self, at: usize) -> (wrapper: &ActionWrapper)
        requires
            at < self.log().len(),
        ensures
            envelope_of(*wrapper) == self.log()[at as int],
    {
        &self.history[at]
    }

    /// Whether a wrapper with the identity `id` was admitted.
    pub fn was_dispatched(&self, id: &snowflake::ProcessUniqueId) -> (found: bool)
        ensures
            found == seen(self.log(), *id),
    {
        let mut i: usize = 0;
        while i < self.history.len()
            invariant
                i <= self.history.len(),
                forall|j: int| 0 <= j < i ==> self.log()[j].id != *id,
            decreases self.history.len() - i,
        {
            if same_id(self.history[i].id(), id) {
                assert(self.log()[i as int].id == *id);
                return true;
            }
            i = i + 1;
        }
        false
    }

    /// Hands a wrapper in. Unless its identity was admitted before, it is
    /// applied to every sub-state and added to the log; the result says
    /// whether it was.
    pub fn dispatch(&mut self, action_wrapper: ActionWrapper) -> (applied: bool)
        requires
            old(self).wf(),
        ensures
            final(self).wf(),
            final(self).start() == old(self).start(),
            applied == !seen(old(self).log(), action_wrapper.spec_id()),
            final(self).log() == accept(old(self).log(), envelope_of(action_wrapper)),
            final(self).current() == if applied {
                reduce(old(self).current(), action_wrapper.spec_action()@)
            } else {
                old(self).current()
            },
    {
        if self.was_dispatched(action_wrapper.id()) {
            return false;
        }
        self.state.reduce(&action_wrapper);
        proof {
            let log = self.log();
            let envelope = envelope_of(action_wrapper);
            assert(envelopes_of(self.history@.push(action_wrapper)) =~= log.push(envelope));
            assert(actions_of(log.push(envelope)).drop_last() =~= actions_of(log));
        }
        self.history.push(action_wrapper);
        true
    }

    /// Hands the wrappers of a batch in, one after the other in the order of
    /// the batch, and returns how many of them were admitted.
    pub fn dispatch_all(&mut self, batch: &Vec<ActionWrapper>) -> (count: usize)
        requires
            old(self).wf(),
        ensures
            final(self).wf(),
            final(self).start() == old(self).start(),
            final(self).log() == accept_all(old(self).log(), envelopes_of(batch@)),
            count == final(self).log().len() - old(self).log().len(),
            final(self).current() == replay(
                old(self).current(),
                actions_of(final(self).log().skip(old(self).log().len() as int)),
            ),
    {
        let ghost before = self.log();
        let ghost origin = self.current();
        let mut count: usize = 0;
        let mut i: usize = 0;
        while i < batch.len()
            invariant
                i <= batch.len(),
                count <= i,
                self.wf(),
                self.start() == old(self).start(),
                before == old(self).log(),
                origin == old(self).current(),
                self.log() == accept_all(before, envelopes_of(batch@).take(i as int)),
                count == self.log().len() - before.len(),
                self.current() == replay(origin, actions_of(self.log().skip(before.len() as int))),
            decreases batch.len() - i,
        {
            let wrapper = batch[i].clone();
            let ghost log = self.log();
            let applied = self.dispatch(wrapper);
            proof {
                let envelopes = envelopes_of(batch@);
                assert(envelopes.take(i + 1).drop_last() =~= envelopes.take(i as int));
                law_accept_all_extends(before, envelopes.take(i as int));
                if applied {
                    let tail = log.skip(before.len() as int);
                    assert(self.log().skip(before.len() as int) =~= tail.push(
                        envelopes[i as int],
                    ));
                    assert(actions_of(tail.push(envelopes[i as int])).drop_last() =~= actions_of(
                        tail,
                    ));
                }
            }
            if applied {
                count = count + 1;
            }
            i = i + 1;
        }
        assert(envelopes_of(batch@).take(batch@.len() as int) =~= envelopes_of(batch@));
        count
    }
}

/// The state of a dispatcher is the replay of its log: whatever was handed
/// in, and however, the state is what applying the admitted actions to the
/// start, one after the other in the order of their admission, gives; and no
/// identity was admitted twice.
pub proof fn law_state_is_replay_of_log(dispatcher: &Dispatcher)
    requires
        dispatcher.wf(),
    ensures
        dispatcher.current() == replay(dispatcher.start(), actions_of(dispatcher.log())),
        unique(dispatcher.log()),
{
}

/// Two dispatchers that started alike and admitted the same actions in the
/// same order are in the same state.
pub proof fn law_same_log_same_state(first: &Dispatcher, second: &Dispatcher)
    requires
        first.wf(),
        second.wf(),
        first.start() == second.start(),
        actions_of(first.log()) == actions_of(second.log()),
    ensures
        first.current() == second.current(),
{
}

} // verus!
