//! Workflows: the procedures that bridge state and the work done outside it.
//!
//! A workflow never changes state. It reads a snapshot, says what outside
//! work it needs next, takes the outcome of that work, and in the end hands
//! back the one action to dispatch.

use crate::action::{
    result_view, Action, ActionModel, DirectMessage, DirectMessageData, DirectMessageDataModel,
    DirectMessageModel,
};
use crate::content::{
    clone_option_package, list_view, option_view, Address, ChainHeader, ChainHeaderModel, Entry,
    EntryModel, HolochainError, HolochainErrorModel, ValidationPackage, ValidationPackageModel,
};
use crate::instance::{reduce, replay, State, StateModel};
use crate::network::{NetworkModel, NetworkState, PackageRequestModel};
use vstd::prelude::*;

verus! {

/// How the attempt to produce a validation package ended.
///
/// The two ways of having no package are kept apart here; on the wire they
/// are the same answer.
#[derive(Debug, PartialEq)]
pub enum PackageOutcome {
    /// The package was built.
    Built(ValidationPackage),
    /// The entry that was asked about is not in local storage.
    EntryNotFound,
    /// The entry is there, and building the package failed.
    BuildFailed(HolochainError),
}

impl PackageOutcome {
    /// What goes on the wire for this outcome: the package, or nothing. That
    /// the two ways of having no package become one is intended.
    pub open spec fn wire(&self) -> Option<ValidationPackageModel> {
        match self {
            PackageOutcome::Built(package) => Some(package@),
            _ => None,
        }
    }

    /// What goes on the wire for this outcome.
    pub fn collapse(self) -> (package: Option<ValidationPackage>)
        ensures
            option_view(package) == self.wire(),
    {
        match self {
            PackageOutcome::Built(package) => Some(package),
            _ => None,
        }
    }

    /// The outcome of a build that was tried.
    pub fn from_build(built: Result<ValidationPackage, HolochainError>) -> (outcome:
        PackageOutcome)
        ensures
            outcome == match built {
                Ok(package) => PackageOutcome::Built(package),
                Err(error) => PackageOutcome::BuildFailed(error),
            },
    {
        match built {
            Ok(package) => PackageOutcome::Built(package),
            Err(error) => PackageOutcome::BuildFailed(error),
        }
    }
}

/// The answer to a request for a validation package: a direct message to
/// `to_agent_id` that carries `package` under the request's message id and
/// is marked as a response.
pub open spec fn package_response(
    to_agent_id: Seq<char>,
    msg_id: Seq<char>,
    package: Option<ValidationPackageModel>,
) -> ActionModel {
    ActionModel::SendDirectMessage(
        DirectMessageDataModel {
            address: to_agent_id,
            message: DirectMessageModel::ValidationPackage(package),
            msg_id,
            is_response: true,
        },
    )
}

/// The action that answers a peer's request for a validation package, given
/// how the attempt to produce the package ended.
pub fn respond_validation_package_request(
    to_agent_id: Address,
    msg_id: String,
    outcome: PackageOutcome,
) -> (action: Action)
    ensures
        action@ == package_response(to_agent_id@, msg_id@, outcome.wire()),
{
    let direct_message = DirectMessage::ValidationPackage(outcome.collapse());
    Action::SendDirectMessage(
        DirectMessageData {
            address: to_agent_id,
            message: direct_message,
            msg_id,
            is_response: true,
        },
    )
}

/// Where a workflow that answers a request for a validation package stands.
#[derive(Clone, Copy, Debug, PartialEq, Eq, Structural)]
pub enum Stage {
    /// It waits for the lookup of the entry.
    AwaitingEntry,
    /// The entry was found; it waits for the package to be built.
    AwaitingPackage,
    /// It is over: it handed back its action, or was cancelled.
    Finished,
}

/// What happened outside a workflow.
#[derive(Debug, PartialEq)]
pub enum WorkflowEvent {
    /// The entry was looked up in local storage.
    EntryFetched(Option<Entry>),
    /// The build of the validation package ended.
    PackageBuilt(Result<ValidationPackage, HolochainError>),
    /// The workflow is abandoned.
    Cancelled,
}

/// An event as a mathematical value.
pub enum WorkflowEventModel {
    EntryFetched(Option<EntryModel>),
    PackageBuilt(Result<ValidationPackageModel, HolochainErrorModel>),
    Cancelled,
}

impl View for WorkflowEvent {
    type V = WorkflowEventModel;

    open spec fn view(&self) -> WorkflowEventModel {
        match self {
            WorkflowEvent::EntryFetched(entry) => WorkflowEventModel::EntryFetched(
                option_view(*entry),
            ),
            WorkflowEvent::PackageBuilt(built) => WorkflowEventModel::PackageBuilt(
                result_view(*built),
            ),
            WorkflowEvent::Cancelled => WorkflowEventModel::Cancelled,
        }
    }
}

/// What a workflow asks for after an event.
#[derive(Debug, PartialEq)]
pub enum Step {
    /// Build the validation package of this entry, and report how it ended.
    BuildPackage(Entry),
    /// Dispatch this action; the workflow is over.
    Dispatch(Action),
    /// Nothing.
    Nothing,
}

/// A step as a mathematical value.
pub enum StepModel {
    BuildPackage(EntryModel),
    Dispatch(ActionModel),
    Nothing,
}

impl View for Step {
    type V = StepModel;

    open spec fn view(&self) -> StepModel {
        match self {
            Step::BuildPackage(entry) => StepModel::BuildPackage(entry@),
            Step::Dispatch(action) => StepModel::Dispatch(action@),
            Step::Nothing => StepModel::Nothing,
        }
    }
}

/// The workflow that answers a peer's request for the validation package of
/// an entry.
#[derive(Debug)]
pub struct RespondValidationPackageRequest {
    /// The peer that asked.
    to_agent_id: Address,
    /// The message id of the request.
    msg_id: String,
    /// The address of the entry that the request is about.
    requested_entry_address: Address,
    /// Where the workflow stands.
    stage: Stage,
}

/// The workflow as a mathematical value.
pub struct WorkflowModel {
    pub to_agent_id: Seq<char>,
    pub msg_id: Seq<char>,
    pub requested_entry_address: Seq<char>,
    pub stage: Stage,
}

/// The stage of a workflow after an event. A workflow that is over stays
/// over; an event that the stage does not wait for changes nothing.
pub open spec fn next_stage(stage: Stage, event: WorkflowEventModel) -> Stage {
    match (stage, event) {
        (Stage::Finished, _) => Stage::Finished,
        (_, WorkflowEventModel::Cancelled) => Stage::Finished,
        (Stage::AwaitingEntry, WorkflowEventModel::EntryFetched(Some(_))) => {
            Stage::AwaitingPackage
        },
        (Stage::AwaitingEntry, WorkflowEventModel::EntryFetched(None)) => Stage::Finished,
        (Stage::AwaitingPackage, WorkflowEventModel::PackageBuilt(_)) => Stage::Finished,
        _ => stage,
    }
}

/// What a workflow asks for after an event.
///
/// A found entry is to be built into a package. An entry that is not there,
/// and a build that ended either way, are answered to the peer: with the
/// package where there is one, without where there is none. Nothing else
/// asks for anything.
pub open spec fn next_step(workflow: WorkflowModel, event: WorkflowEventModel) -> StepModel {
    match (workflow.stage, event) {
        (Stage::AwaitingEntry, WorkflowEventModel::EntryFetched(Some(entry))) => {
            StepModel::BuildPackage(entry)
        },
        (Stage::AwaitingEntry, WorkflowEventModel::EntryFetched(None)) => StepModel::Dispatch(
            package_response(workflow.to_agent_id, workflow.msg_id, None),
        ),
        (Stage::AwaitingPackage, WorkflowEventModel::PackageBuilt(Ok(package))) => {
            StepModel::Dispatch(
                package_response(workflow.to_agent_id, workflow.msg_id, Some(package)),
            )
        },
        (Stage::AwaitingPackage, WorkflowEventModel::PackageBuilt(Err(_))) => {
            StepModel::Dispatch(package_response(workflow.to_agent_id, workflow.msg_id, None))
        },
        _ => StepModel::Nothing,
    }
}

impl View for RespondValidationPackageRequest {
    type V = WorkflowModel;

    closed spec fn view(&self) -> WorkflowModel {
        WorkflowModel {
            to_agent_id: self.to_agent_id@,
            msg_id: self.msg_id@,
            requested_entry_address: self.requested_entry_address@,
            stage: self.stage,
        }
    }
}

impl RespondValidationPackageRequest {
    /// The workflow for the request with the id `msg_id`, in which the peer
    /// at `to_agent_id` asks about the entry at `requested_entry_address`.
    pub fn new(to_agent_id: Address, msg_id: String, requested_entry_address: Address) -> (workflow:
        Self)
        ensures
            workflow@ == (WorkflowModel {
                to_agent_id: to_agent_id@,
                msg_id: msg_id@,
                requested_entry_address: requested_entry_address@,
                stage: Stage::AwaitingEntry,
            }),
    {
        RespondValidationPackageRequest {
            to_agent_id,
            msg_id,
            requested_entry_address,
            stage: Stage::AwaitingEntry,
        }
    }

    /// Where the workflow stands.
    pub fn stage(&self) -> (stage: Stage)
        ensures
            stage == self@.stage,
    {
        self.stage
    }

    /// The message id of the request that the workflow answers.
    pub fn msg_id(&self) -> (msg_id: &str)
        ensures
            msg_id@ == self@.msg_id,
    {
        self.msg_id.as_str()
    }

    /// The address of the entry that the request is about.
    pub fn requested_entry_address(&self) -> (address: &Address)
        ensures
            address@ == self@.requested_entry_address,
    {
        &self.requested_entry_address
    }

    /// Takes an event in, and says what the workflow asks for next.
    pub fn advance(&mut self, event: WorkflowEvent) -> (step: Step)
        ensures
            step@ == next_step(old(self)@, event@),
            final(self)@ == (WorkflowModel {
                stage: next_stage(old(self)@.stage, event@),
                ..old(self)@
            }),
    {
        match self.stage {
            Stage::Finished => Step::Nothing,
            Stage::AwaitingEntry => match event {
                WorkflowEvent::Cancelled => {
                    self.stage = Stage::Finished;
                    Step::Nothing
                },
                WorkflowEvent::EntryFetched(Some(entry)) => {
                    self.stage = Stage::AwaitingPackage;
                    Step::BuildPackage(entry)
                },
                WorkflowEvent::EntryFetched(None) => {
                    self.stage = Stage::Finished;
                    Step::Dispatch(
                        respond_validation_package_request(
                            self.to_agent_id.clone(),
                            self.msg_id.clone(),
                            PackageOutcome::EntryNotFound,
                        ),
                    )
                },
                WorkflowEvent::PackageBuilt(_) => Step::Nothing,
            },
            Stage::AwaitingPackage => match event {
                WorkflowEvent::Cancelled => {
                    self.stage = Stage::Finished;
                    Step::Nothing
                },
                WorkflowEvent::PackageBuilt(built) => {
                    self.stage = Stage::Finished;
                    Step::Dispatch(
                        respond_validation_package_request(
                            self.to_agent_id.clone(),
                            self.msg_id.clone(),
                            PackageOutcome::from_build(built),
                        ),
                    )
                },
                WorkflowEvent::EntryFetched(_) => Step::Nothing,
            },
        }
    }

    /// Looks the entry up in the agent's storage of a state snapshot, and
    /// takes the outcome in.
    pub fn start(&mut self, state: &State) -> (step: Step)
        requires
            state.wf(),
        ensures
            step@ == next_step(
                old(self)@,
                fetched(state@.agent.storage, old(self)@.requested_entry_address),
            ),
            final(self)@ == (WorkflowModel {
                stage: next_stage(
                    old(self)@.stage,
                    fetched(state@.agent.storage, old(self)@.requested_entry_address),
                ),
                ..old(self)@
            }),
    {
        let found = state.agent().get_entry(&self.requested_entry_address);
        self.advance(WorkflowEvent::EntryFetched(found))
    }

    /// Abandons the workflow: it will ask for nothing any more.
    pub fn cancel(&mut self)
        ensures
            final(self)@ == (WorkflowModel { stage: Stage::Finished, ..old(self)@ }),
    {
        self.stage = Stage::Finished;
    }
}

/// The event of looking `address` up in `storage`.
pub open spec fn fetched(
    storage: Map<Seq<char>, EntryModel>,
    address: Seq<char>,
) -> WorkflowEventModel {
    if storage.contains_key(address) {
        WorkflowEventModel::EntryFetched(Some(storage[address]))
    } else {
        WorkflowEventModel::EntryFetched(None)
    }
}

/// The stage of a workflow after a sequence of events, the first of the
/// sequence first.
pub open spec fn stage_after(stage: Stage, events: Seq<WorkflowEventModel>) -> Stage
    decreases events.len(),
{
    if events.len() == 0 {
        stage
    } else {
        next_stage(stage_after(stage, events.drop_last()), events.last())
    }
}

/// How many actions a workflow hands back for dispatch over a sequence of
/// events.
pub open spec fn dispatches(workflow: WorkflowModel, events: Seq<WorkflowEventModel>) -> nat
    decreases events.len(),
{
    if events.len() == 0 {
        0
    } else {
        let before = WorkflowModel {
            stage: stage_after(workflow.stage, events.drop_last()),
            ..workflow
        };
        let last: nat = if next_step(before, events.last()) is Dispatch {
            1
        } else {
            0
        };
        dispatches(workflow, events.drop_last()) + last
    }
}

/// Whatever happens, a workflow hands back at most one action, and it is
/// over once it did. A workflow that is over hands back nothing more.
pub proof fn law_at_most_one_dispatch(workflow: WorkflowModel, events: Seq<WorkflowEventModel>)
    ensures
        dispatches(workflow, events) <= 1,
        dispatches(workflow, events) == 1 ==> stage_after(workflow.stage, events)
            == Stage::Finished,
        workflow.stage == Stage::Finished ==> dispatches(workflow, events) == 0 && stage_after(
            workflow.stage,
            events,
        ) == Stage::Finished,
    decreases events.len(),
{
    if events.len() > 0 {
        law_at_most_one_dispatch(workflow, events.drop_last());
    }
}

/// A workflow that started fresh and is over without having been cancelled
/// handed back exactly one action.
pub proof fn law_completed_dispatches_once(
    workflow: WorkflowModel,
    events: Seq<WorkflowEventModel>,
)
    requires
        workflow.stage == Stage::AwaitingEntry,
        stage_after(workflow.stage, events) == Stage::Finished,
        forall|i: int| 0 <= i < events.len() ==> events[i] != WorkflowEventModel::Cancelled,
    ensures
        dispatches(workflow, events) == 1,
    decreases events.len(),
{
    if events.len() > 0 {
        let rest = events.drop_last();
        law_at_most_one_dispatch(workflow, rest);
        assert forall|i: int| 0 <= i < rest.len() implies rest[i]
            != WorkflowEventModel::Cancelled by {
            assert(rest[i] == events[i]);
        }
        if stage_after(workflow.stage, rest) == Stage::Finished {
            law_completed_dispatches_once(workflow, rest);
        }
    }
}

/// A workflow that is cancelled before it handed back its action never hands
/// one back.
pub proof fn law_cancelled_dispatches_nothing(
    workflow: WorkflowModel,
    before: Seq<WorkflowEventModel>,
    after: Seq<WorkflowEventModel>,
)
    requires
        dispatches(workflow, before) == 0,
    ensures
        dispatches(workflow, before.push(WorkflowEventModel::Cancelled) + after) == 0,
    decreases after.len(),
{
    let cancelled = before.push(WorkflowEventModel::Cancelled);
    assert(cancelled.drop_last() =~= before);
    if after.len() == 0 {
    } else {
        law_cancelled_dispatches_nothing(workflow, before, after.drop_last());
        assert((cancelled + after).drop_last() =~= cancelled + after.drop_last());
        lemma_finished_stays(workflow.stage, cancelled, after.drop_last());
    }
}

/// Once a workflow is over, further events leave it over.
proof fn lemma_finished_stays(
    stage: Stage,
    before: Seq<WorkflowEventModel>,
    after: Seq<WorkflowEventModel>,
)
    requires
        stage_after(stage, before) == Stage::Finished,
    ensures
        stage_after(stage, before + after) == Stage::Finished,
    decreases after.len(),
{
    if after.len() == 0 {
    } else {
        lemma_finished_stays(stage, before, after.drop_last());
        assert((before + after).drop_last() =~= before + after.drop_last());
    }
}

/// The workflow that a direct message from a peer starts, if it starts one:
/// a request for a validation package that is no response.
pub fn receive_request(data: &DirectMessageData) -> (started: Option<
    RespondValidationPackageRequest,
>)
    ensures
        started is Some <==> !data@.is_response && data@.message
            is RequestValidationPackage,
        started matches Some(workflow) ==> workflow@ == (WorkflowModel {
            to_agent_id: data@.address,
            msg_id: data@.msg_id,
            requested_entry_address: data@.message->RequestValidationPackage_0,
            stage: Stage::AwaitingEntry,
        }),
{
    if data.is_response {
        return None;
    }
    match &data.message {
        DirectMessage::RequestValidationPackage(address) => Some(
            RespondValidationPackageRequest::new(
                data.address.clone(),
                data.msg_id.clone(),
                address.clone(),
            ),
        ),
        _ => None,
    }
}

/// The actions that a direct message from a peer calls for where it is a
/// response.
///
/// A response counts only for the request that waits under exactly its
/// message id. The answer to a request for a validation package is taken in
/// for the entry that the request was about; then, and for any other answer,
/// the message id is resolved.
pub open spec fn response_actions(
    network: NetworkModel,
    data: DirectMessageDataModel,
) -> Seq<ActionModel> {
    if !data.is_response || !network.direct_messages.contains_key(data.msg_id) {
        Seq::empty()
    } else {
        match (network.direct_messages[data.msg_id], data.message) {
            (
                DirectMessageModel::RequestValidationPackage(address),
                DirectMessageModel::ValidationPackage(package),
            ) => seq![
                ActionModel::HandleGetValidationPackage(address, package),
                ActionModel::ResolveDirectConnection(data.msg_id),
            ],
            _ => seq![ActionModel::ResolveDirectConnection(data.msg_id)],
        }
    }
}

/// The actions to dispatch for a direct message that a peer sent.
pub fn receive_response(network: &NetworkState, data: &DirectMessageData) -> (actions: Vec<
    Action,
>)
    requires
        network.wf(),
    ensures
        list_view(actions@) == response_actions(network@, data@),
{
    let mut actions: Vec<Action> = Vec::new();
    if !data.is_response {
        return actions;
    }
    match network.pending_message(data.msg_id.as_str()) {
        None => {},
        Some(request) => {
            match (request, &data.message) {
                (
                    DirectMessage::RequestValidationPackage(address),
                    DirectMessage::ValidationPackage(package),
                ) => {
                    actions.push(
                        Action::HandleGetValidationPackage((address, clone_option_package(package))),
                    );
                },
                _ => {},
            }
            actions.push(Action::ResolveDirectConnection(data.msg_id.clone()));
        },
    }
    actions
}

/// Only the response that bears exactly the message id of a waiting request
/// resolves that request: after the actions of any other message the request
/// still waits, with the message that went out; after those of its own
/// response it waits no more.
pub proof fn law_only_exact_match_resolves(
    state: StateModel,
    msg_id: Seq<char>,
    data: DirectMessageDataModel,
)
    requires
        state.network.direct_messages.contains_key(msg_id),
    ensures
        ({
            let after = replay(state, response_actions(state.network, data)).network;
            &&& after.direct_messages.contains_key(msg_id) <==> !(data.is_response && data.msg_id
                == msg_id)
            &&& after.direct_messages.contains_key(msg_id) ==> after.direct_messages[msg_id]
                == state.network.direct_messages[msg_id]
        }),
{
    let actions = response_actions(state.network, data);
    lemma_replay_short(state, actions);
}

/// Replaying up to two actions is reducing by each in turn.
proof fn lemma_replay_short(state: StateModel, actions: Seq<ActionModel>)
    requires
        actions.len() <= 2,
    ensures
        actions.len() == 0 ==> replay(state, actions) == state,
        actions.len() == 1 ==> replay(state, actions) == reduce(state, actions[0]),
        actions.len() == 2 ==> replay(state, actions) == reduce(
            reduce(state, actions[0]),
            actions[1],
        ),
{
    if actions.len() == 1 {
        assert(replay(state, actions.drop_last()) == state);
    } else if actions.len() == 2 {
        let first = actions.drop_last();
        assert(replay(state, first.drop_last()) == state);
    }
}

/// The actions by which an instance asks the author of an entry for the
/// entry's validation package: the request is filed under the address of the
/// entry, and a direct message that is no response goes to the author under
/// `msg_id`.
pub open spec fn package_request_actions(
    header: ChainHeaderModel,
    msg_id: Seq<char>,
) -> Seq<ActionModel> {
    seq![
        ActionModel::GetValidationPackage(header),
        ActionModel::SendDirectMessage(
            DirectMessageDataModel {
                address: header.source,
                message: DirectMessageModel::RequestValidationPackage(header.entry_address),
                msg_id,
                is_response: false,
            },
        ),
    ]
}

/// The actions to dispatch in order to ask the author of the entry of
/// `header` for the entry's validation package, under the message id
/// `msg_id`.
pub fn request_validation_package(header: ChainHeader, msg_id: String) -> (actions: Vec<Action>)
    ensures
        list_view(actions@) == package_request_actions(header@, msg_id@),
{
    let message = DirectMessageData {
        address: header.source.clone(),
        message: DirectMessage::RequestValidationPackage(header.entry_address.clone()),
        msg_id,
        is_response: false,
    };
    let mut actions: Vec<Action> = Vec::new();
    actions.push(Action::GetValidationPackage(header));
    actions.push(Action::SendDirectMessage(message));
    assert(list_view(actions@) =~= package_request_actions(header@, msg_id@));
    actions
}

/// Asking makes the requester wait: whatever the state was, after the
/// actions of a request the direct message waits under its message id and the
/// request for the package is `Requested`.
pub proof fn law_request_waits_for_its_answer(
    state: StateModel,
    header: ChainHeaderModel,
    msg_id: Seq<char>,
)
    ensures
        ({
            let asked = replay(state, package_request_actions(header, msg_id)).network;
            &&& asked.direct_messages.contains_key(msg_id)
            &&& asked.direct_messages[msg_id] == DirectMessageModel::RequestValidationPackage(
                header.entry_address,
            )
            &&& asked.package_requests.contains_key(header.entry_address)
            &&& asked.package_requests[header.entry_address] == PackageRequestModel::Requested
        }),
{
    lemma_replay_short(state, package_request_actions(header, msg_id));
}

/// The answer to a request for a validation package arrives as it was sent:
/// where the requester waits under the message id for the package of the
/// entry at `address`, the response built for an outcome makes the requester
/// record exactly what the outcome put on the wire, and resolves the message
/// id. So a built package arrives as a package, and an entry that was not
/// found, or a build that failed, arrives as no package.
pub proof fn law_package_round_trip(
    state: StateModel,
    to_agent_id: Seq<char>,
    msg_id: Seq<char>,
    address: Seq<char>,
    wire: Option<ValidationPackageModel>,
)
    requires
        state.network.direct_messages.contains_key(msg_id),
        state.network.direct_messages[msg_id] == DirectMessageModel::RequestValidationPackage(
            address,
        ),
        state.network.package_requests.contains_key(address),
        state.network.package_requests[address] == PackageRequestModel::Requested,
    ensures
        ({
            let response = package_response(to_agent_id, msg_id, wire);
            let data = response->SendDirectMessage_0;
            let after = replay(state, response_actions(state.network, data)).network;
            &&& response is SendDirectMessage
            &&& after.package_requests.contains_key(address)
            &&& after.package_requests[address] == PackageRequestModel::Answered(wire)
            &&& !after.direct_messages.contains_key(msg_id)
        }),
{
    let response = package_response(to_agent_id, msg_id, wire);
    let data = response->SendDirectMessage_0;
    lemma_replay_short(state, response_actions(state.network, data));
}

} // verus!
