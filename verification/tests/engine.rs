use holochain_core::action::{
    Action, ActionWrapper, DhtData, DirectMessage, DirectMessageData, ExecuteZomeFnResponse,
    GetDhtData, NetworkSettings, ZomeFnCall,
};
use holochain_core::agent::AgentState;
use holochain_core::content::{
    Address, ChainHeader, CrudStatus, Dna, Entry, EntryWithMeta, HolochainError, JsonString, Link,
    ValidationPackage,
};
use holochain_core::instance::{Dispatcher, State};
use holochain_core::network::{EntryRequest, NetworkState, PackageRequest};
use holochain_core::nucleus::{NucleusState, NucleusStatus, ZomeCall};
use holochain_core::workflows::{
    receive_request, receive_response, request_validation_package,
    respond_validation_package_request, PackageOutcome, RespondValidationPackageRequest, Stage,
    Step, WorkflowEvent,
};

fn address(text: &str) -> Address {
    Address::from_str(text)
}

fn entry(name: &str) -> Entry {
    let value = format!("\"value of {}\"", name);
    Entry::new("post", JsonString::new(value), address(&format!("Qm{}", name)))
}

fn header(of: &Entry, source: &str, link: Option<&str>) -> ChainHeader {
    ChainHeader {
        entry_type: of.entry_type.clone(),
        entry_address: of.address.clone(),
        source: address(source),
        link: link.map(address),
        link_crud: None,
    }
}

fn package(of: &Entry) -> ValidationPackage {
    ValidationPackage {
        chain_header: header(of, "alice", None),
        source_chain_entries: vec![entry("dna"), entry("agent")],
        source_chain_headers: vec![header(&entry("dna"), "alice", None)],
    }
}

fn wrap(action: Action) -> ActionWrapper {
    ActionWrapper::new(action)
}

fn request_message(from_or_to: &str, msg_id: &str, about: &Address) -> DirectMessageData {
    DirectMessageData {
        address: address(from_or_to),
        message: DirectMessage::RequestValidationPackage(about.clone()),
        msg_id: msg_id.to_string(),
        is_response: false,
    }
}

fn response(to: &str, msg_id: &str, package: Option<ValidationPackage>) -> Action {
    Action::SendDirectMessage(DirectMessageData {
        address: address(to),
        message: DirectMessage::ValidationPackage(package),
        msg_id: msg_id.to_string(),
        is_response: true,
    })
}

#[test]
fn absent_entry_is_answered_without_a_package() {
    let mut dispatcher = Dispatcher::new(address("alice"));
    let addr_x = address("QmX");
    assert!(dispatcher.dispatch(wrap(Action::GetEntry(addr_x.clone()))));

    let mut workflow =
        RespondValidationPackageRequest::new(address("bob"), "msg-1".to_string(), addr_x);
    let step = workflow.start(dispatcher.state());
    assert_eq!(step, Step::Dispatch(response("bob", "msg-1", None)));
    match step {
        Step::Dispatch(Action::SendDirectMessage(data)) => {
            assert_eq!(data.message, DirectMessage::ValidationPackage(None));
            assert!(data.is_response);
            assert_eq!(data.msg_id, "msg-1");
            assert_eq!(data.address, address("bob"));
        }
        other => panic!("unexpected step: {:?}", other),
    }
    assert_eq!(workflow.stage(), Stage::Finished);
}

#[test]
fn committed_entry_is_fetched_unchanged() {
    let mut dispatcher = Dispatcher::new(address("alice"));
    let entry_a = entry("A");
    assert!(dispatcher.dispatch(wrap(Action::Commit((entry_a.clone(), None)))));
    assert!(dispatcher.dispatch(wrap(Action::GetEntry(entry_a.address()))));

    let fetched = dispatcher.state().agent().get_entry(&entry_a.address());
    assert_eq!(fetched, Some(entry_a.clone()));
    assert_eq!(dispatcher.state().agent().get_entry(&address("QmB")), None);
    assert_eq!(
        dispatcher.state().network().entry_request(&entry_a.address()),
        Some(EntryRequest::Requested)
    );
}

#[test]
fn two_workflows_dispatch_one_action_each() {
    let mut dispatcher = Dispatcher::new(address("alice"));
    let entry_a = entry("A");
    dispatcher.dispatch(wrap(Action::Commit((entry_a.clone(), None))));
    let before = dispatcher.history_len();

    let mut for_p =
        RespondValidationPackageRequest::new(address("P"), "p-1".to_string(), entry_a.address());
    let mut for_q =
        RespondValidationPackageRequest::new(address("Q"), "q-1".to_string(), address("QmNone"));

    let mut outbound: Vec<ActionWrapper> = Vec::new();
    // Q's workflow ends first: its entry is not there.
    match for_q.start(dispatcher.state()) {
        Step::Dispatch(action) => outbound.push(wrap(action)),
        other => panic!("unexpected step: {:?}", other),
    }
    match for_p.start(dispatcher.state()) {
        Step::BuildPackage(found) => assert_eq!(found, entry_a),
        other => panic!("unexpected step: {:?}", other),
    }
    match for_p.advance(WorkflowEvent::PackageBuilt(Ok(package(&entry_a)))) {
        Step::Dispatch(action) => outbound.push(wrap(action)),
        other => panic!("unexpected step: {:?}", other),
    }
    // Neither workflow asks for anything more.
    assert_eq!(for_p.advance(WorkflowEvent::PackageBuilt(Ok(package(&entry_a)))), Step::Nothing);
    assert_eq!(for_q.advance(WorkflowEvent::EntryFetched(Some(entry_a.clone()))), Step::Nothing);
    assert_eq!(for_q.start(dispatcher.state()), Step::Nothing);

    assert_eq!(outbound.len(), 2);
    assert_eq!(outbound[0].action(), &response("Q", "q-1", None));
    assert_eq!(outbound[1].action(), &response("P", "p-1", Some(package(&entry_a))));

    // Handing a wrapper in a second time does not apply it again.
    let again = outbound[0].clone();
    assert_eq!(dispatcher.dispatch_all(&outbound), 2);
    assert!(!dispatcher.dispatch(again));
    assert_eq!(dispatcher.dispatch_all(&outbound), 0);
    assert_eq!(dispatcher.history_len() - before, 2);
    assert_eq!(dispatcher.history_at(before), &outbound[0]);
    assert_eq!(dispatcher.history_at(before + 1), &outbound[1]);
    assert_eq!(dispatcher.history_at(before).action(), outbound[0].action());
    // Responses leave nothing waiting.
    assert_eq!(dispatcher.state().network().pending_count(), 0);
}

#[test]
fn cancelled_workflow_leaves_nothing_waiting() {
    let mut dispatcher = Dispatcher::new(address("alice"));
    let entry_a = entry("A");
    dispatcher.dispatch(wrap(Action::Commit((entry_a.clone(), None))));
    let asked = request_message("bob", "msg-7", &entry_a.address());
    let mut workflow = receive_request(&asked).expect("a request starts a workflow");
    assert_eq!(workflow.msg_id(), "msg-7");
    assert_eq!(workflow.requested_entry_address(), &entry_a.address());
    assert_eq!(workflow.stage(), Stage::AwaitingEntry);

    assert!(matches!(workflow.start(dispatcher.state()), Step::BuildPackage(_)));
    assert_eq!(workflow.stage(), Stage::AwaitingPackage);
    workflow.cancel();
    assert_eq!(workflow.stage(), Stage::Finished);
    assert_eq!(workflow.advance(WorkflowEvent::PackageBuilt(Ok(package(&entry_a)))), Step::Nothing);

    assert_eq!(dispatcher.history_len(), 1);
    assert_eq!(dispatcher.state().network().pending_message("msg-7"), None);
    assert_eq!(dispatcher.state().network().pending_count(), 0);

    let mut other =
        RespondValidationPackageRequest::new(address("bob"), "msg-8".to_string(), address("QmA"));
    assert_eq!(other.advance(WorkflowEvent::Cancelled), Step::Nothing);
    assert_eq!(other.stage(), Stage::Finished);
    assert_eq!(other.start(dispatcher.state()), Step::Nothing);
}

#[test]
fn failed_build_is_answered_without_a_package() {
    let mut workflow =
        RespondValidationPackageRequest::new(address("bob"), "m".to_string(), address("QmA"));
    assert_eq!(
        workflow.advance(WorkflowEvent::EntryFetched(Some(entry("A")))),
        Step::BuildPackage(entry("A"))
    );
    // An event that the stage does not wait for changes nothing.
    assert_eq!(workflow.advance(WorkflowEvent::EntryFetched(None)), Step::Nothing);
    assert_eq!(workflow.stage(), Stage::AwaitingPackage);
    let failed = Err(HolochainError::ErrorGeneric("chain is broken".to_string()));
    assert_eq!(
        workflow.advance(WorkflowEvent::PackageBuilt(failed)),
        Step::Dispatch(response("bob", "m", None))
    );
    assert_eq!(workflow.stage(), Stage::Finished);

    let mut early =
        RespondValidationPackageRequest::new(address("bob"), "m".to_string(), address("QmA"));
    assert_eq!(early.advance(WorkflowEvent::PackageBuilt(Ok(package(&entry("A"))))), Step::Nothing);
    assert_eq!(early.stage(), Stage::AwaitingEntry);
}

#[test]
fn outcomes_collapse_to_package_or_nothing() {
    let a = entry("A");
    assert_eq!(PackageOutcome::Built(package(&a)).collapse(), Some(package(&a)));
    assert_eq!(PackageOutcome::EntryNotFound.collapse(), None);
    assert_eq!(PackageOutcome::BuildFailed(HolochainError::Timeout).collapse(), None);
    assert_eq!(PackageOutcome::from_build(Ok(package(&a))), PackageOutcome::Built(package(&a)));
    assert_eq!(
        PackageOutcome::from_build(Err(HolochainError::NotImplemented)),
        PackageOutcome::BuildFailed(HolochainError::NotImplemented)
    );
    assert_eq!(
        respond_validation_package_request(
            address("bob"),
            "m-1".to_string(),
            PackageOutcome::Built(package(&a))
        ),
        response("bob", "m-1", Some(package(&a)))
    );
    assert_eq!(
        respond_validation_package_request(
            address("bob"),
            "m-2".to_string(),
            PackageOutcome::BuildFailed(HolochainError::Timeout)
        ),
        response("bob", "m-2", None)
    );
}

#[test]
fn only_requests_start_a_workflow() {
    let a = entry("A");
    assert!(receive_request(&request_message("bob", "m", &a.address())).is_some());
    let mut answer = request_message("bob", "m", &a.address());
    answer.is_response = true;
    assert!(receive_request(&answer).is_none());
    let custom = DirectMessageData {
        address: address("bob"),
        message: DirectMessage::Custom(JsonString::from_str("{}")),
        msg_id: "m".to_string(),
        is_response: false,
    };
    assert!(receive_request(&custom).is_none());
}

/// The requester's side: asks bob for the package of `about` under `msg_id`.
fn requester(msg_id: &str, about: &Entry) -> Dispatcher {
    let mut dispatcher = Dispatcher::new(address("carol"));
    let actions = request_validation_package(header(about, "bob", None), msg_id.to_string());
    assert_eq!(
        actions,
        vec![
            Action::GetValidationPackage(header(about, "bob", None)),
            Action::SendDirectMessage(request_message("bob", msg_id, &about.address())),
        ]
    );
    for action in actions {
        assert!(dispatcher.dispatch(wrap(action)));
    }
    dispatcher
}

fn data_of(action: Action) -> DirectMessageData {
    match action {
        Action::SendDirectMessage(data) => data,
        other => panic!("not a direct message: {:?}", other),
    }
}

#[test]
fn package_round_trip_yields_the_package() {
    let a = entry("A");
    let mut carol = requester("m-1", &a);
    assert_eq!(
        carol.state().network().pending_message("m-1"),
        Some(DirectMessage::RequestValidationPackage(a.address()))
    );
    assert_eq!(carol.state().network().package_request(&a.address()), Some(PackageRequest::Requested));

    let sent = respond_validation_package_request(
        address("carol"),
        "m-1".to_string(),
        PackageOutcome::Built(package(&a)),
    );
    let actions = receive_response(carol.state().network(), &data_of(sent));
    assert_eq!(
        actions,
        vec![
            Action::HandleGetValidationPackage((a.address(), Some(package(&a)))),
            Action::ResolveDirectConnection("m-1".to_string()),
        ]
    );
    for action in actions {
        assert!(carol.dispatch(wrap(action)));
    }
    assert_eq!(
        carol.state().network().package_request(&a.address()),
        Some(PackageRequest::Answered(Some(package(&a))))
    );
    assert_eq!(carol.state().network().pending_message("m-1"), None);
    assert_eq!(carol.state().network().pending_count(), 0);
}

#[test]
fn package_round_trip_of_a_missing_entry_yields_nothing() {
    let a = entry("A");
    let mut carol = requester("m-1", &a);
    let bob = Dispatcher::new(address("bob"));
    let mut workflow =
        receive_request(&request_message("carol", "m-1", &a.address())).unwrap();
    let sent = match workflow.start(bob.state()) {
        Step::Dispatch(action) => action,
        other => panic!("unexpected step: {:?}", other),
    };
    let actions = receive_response(carol.state().network(), &data_of(sent));
    assert_eq!(
        actions,
        vec![
            Action::HandleGetValidationPackage((a.address(), None)),
            Action::ResolveDirectConnection("m-1".to_string()),
        ]
    );
    let count = carol.dispatch_all(&actions.into_iter().map(wrap).collect());
    assert_eq!(count, 2);
    assert_eq!(
        carol.state().network().package_request(&a.address()),
        Some(PackageRequest::Answered(None))
    );
    // A later answer changes nothing.
    carol.dispatch(wrap(Action::HandleGetValidationPackage((a.address(), Some(package(&a))))));
    assert_eq!(
        carol.state().network().package_request(&a.address()),
        Some(PackageRequest::Answered(None))
    );
}

#[test]
fn response_with_another_message_id_resolves_nothing() {
    let a = entry("A");
    let mut carol = requester("m-1", &a);
    let other = data_of(response("carol", "m-2", Some(package(&a))));
    assert_eq!(receive_response(carol.state().network(), &other), Vec::<Action>::new());

    // The same id on a message that is no response resolves nothing either.
    let mut no_response = data_of(response("carol", "m-1", None));
    no_response.is_response = false;
    assert_eq!(receive_response(carol.state().network(), &no_response), Vec::<Action>::new());

    // Resolving another id leaves the request waiting.
    carol.dispatch(wrap(Action::ResolveDirectConnection("m-2".to_string())));
    carol.dispatch(wrap(Action::ResolveDirectConnection("m-".to_string())));
    assert_eq!(
        carol.state().network().pending_message("m-1"),
        Some(DirectMessage::RequestValidationPackage(a.address()))
    );
    assert_eq!(carol.state().network().pending_count(), 1);

    // Only the exact id resolves it; resolving again changes nothing.
    carol.dispatch(wrap(Action::ResolveDirectConnection("m-1".to_string())));
    assert_eq!(carol.state().network().pending_message("m-1"), None);
    carol.dispatch(wrap(Action::ResolveDirectConnection("m-1".to_string())));
    assert_eq!(carol.state().network().pending_count(), 0);
    assert_eq!(carol.state().network().package_request(&a.address()), Some(PackageRequest::Requested));
}

#[test]
fn response_to_a_custom_message_only_resolves() {
    let mut carol = Dispatcher::new(address("carol"));
    carol.dispatch(wrap(Action::SendDirectMessage(DirectMessageData {
        address: address("bob"),
        message: DirectMessage::Custom(JsonString::from_str("\"ping\"")),
        msg_id: "c-1".to_string(),
        is_response: false,
    })));
    let answer = DirectMessageData {
        address: address("bob"),
        message: DirectMessage::Custom(JsonString::from_str("\"pong\"")),
        msg_id: "c-1".to_string(),
        is_response: true,
    };
    assert_eq!(
        receive_response(carol.state().network(), &answer),
        vec![Action::ResolveDirectConnection("c-1".to_string())]
    );
    let package_answer = data_of(response("carol", "c-1", None));
    assert_eq!(
        receive_response(carol.state().network(), &package_answer),
        vec![Action::ResolveDirectConnection("c-1".to_string())]
    );
}

#[test]
fn commits_build_a_linked_chain() {
    let mut agent = AgentState::new(address("alice"));
    assert_eq!(agent.agent(), &address("alice"));
    assert_eq!(agent.chain_len(), 0);
    assert!(agent.top_chain_header().is_none());

    let a = entry("A");
    let b = entry("B");
    agent.reduce(&wrap(Action::Commit((a.clone(), None))));
    assert_eq!(agent.top_chain_header(), Some(&header(&a, "alice", None)));
    agent.reduce(&wrap(Action::Commit((b.clone(), Some(a.address())))));
    assert_eq!(agent.chain_len(), 2);
    let mut top = header(&b, "alice", Some("QmA"));
    top.link_crud = Some(a.address());
    assert_eq!(agent.top_chain_header(), Some(&top));
    assert_eq!(agent.get_entry(&a.address()), Some(a.clone()));
    assert_eq!(agent.get_entry(&b.address()), Some(b));

    // Actions of other domains leave the agent as it is.
    agent.reduce(&wrap(Action::Hold(entry("C"))));
    agent.reduce(&wrap(Action::GetEntry(a.address())));
    agent.reduce(&wrap(Action::ReturnInitializationResult(None)));
    assert_eq!(agent.chain_len(), 2);
    assert_eq!(agent.get_entry(&address("QmC")), None);
}

#[test]
fn shard_holds_marks_and_links() {
    let mut network = NetworkState::new();
    let a = entry("A");
    network.reduce(&wrap(Action::Hold(a.clone())));
    assert_eq!(
        network.held_entry(&a.address()),
        Some(EntryWithMeta { entry: a.clone(), crud_status: CrudStatus::Live, maybe_crud_link: None })
    );
    network.reduce(&wrap(Action::UpdateEntry((a.address(), address("QmA2")))));
    assert_eq!(
        network.held_entry(&a.address()),
        Some(EntryWithMeta {
            entry: a.clone(),
            crud_status: CrudStatus::Modified,
            maybe_crud_link: Some(address("QmA2")),
        })
    );
    network.reduce(&wrap(Action::RemoveEntry((a.address(), address("QmDel")))));
    assert_eq!(
        network.held_entry(&a.address()),
        Some(EntryWithMeta {
            entry: a.clone(),
            crud_status: CrudStatus::Deleted,
            maybe_crud_link: Some(address("QmDel")),
        })
    );
    // Marking an entry that is not held changes nothing.
    network.reduce(&wrap(Action::UpdateEntry((address("QmB"), address("QmB2")))));
    network.reduce(&wrap(Action::RemoveEntry((address("QmB"), address("QmDel")))));
    assert_eq!(network.held_entry(&address("QmB")), None);
    // A commit is no business of the network.
    network.reduce(&wrap(Action::Commit((entry("B"), None))));
    assert_eq!(network.held_entry(&address("QmB")), None);

    assert_eq!(network.link_count(), 0);
    let first = Link { base: address("QmA"), target: address("QmB"), tag: "likes".to_string() };
    let second = Link { base: address("QmB"), target: address("QmA"), tag: "liked".to_string() };
    network.reduce(&wrap(Action::AddLink(first.clone())));
    network.reduce(&wrap(Action::AddLink(second.clone())));
    assert_eq!(network.link_count(), 2);
    assert_eq!(network.link(0), &first);
    assert_eq!(network.link(1), &second);
}

#[test]
fn network_settings_are_kept() {
    let mut network = NetworkState::new();
    assert!(network.settings().is_none());
    let settings = NetworkSettings {
        config: JsonString::from_str("{\"backend\":\"mock\"}"),
        dna_hash: "QmDna".to_string(),
        agent_id: "alice".to_string(),
    };
    network.reduce(&wrap(Action::InitNetwork(settings.clone())));
    assert_eq!(network.settings(), Some(&settings));
    network.reduce(&wrap(Action::Publish(address("QmA"))));
    network.reduce(&wrap(Action::RespondGet((
        GetDhtData {
            msg_id: "g".to_string(),
            from_agent_id: "bob".to_string(),
            address: address("QmA"),
        },
        None,
    ))));
    assert_eq!(network.settings(), Some(&settings));
    assert_eq!(network.pending_count(), 0);
    assert_eq!(network.entry_request(&address("QmA")), None);
}

fn answer(to: &Address, content: Option<EntryWithMeta>) -> Action {
    Action::HandleGetResult(DhtData { msg_id: "g".to_string(), address: to.clone(), content })
}

#[test]
fn entry_request_is_settled_by_what_comes_first() {
    let a = entry("A");
    let found =
        EntryWithMeta { entry: a.clone(), crud_status: CrudStatus::Live, maybe_crud_link: None };

    // The answer comes first.
    let mut network = NetworkState::new();
    network.reduce(&wrap(answer(&a.address(), Some(found.clone()))));
    assert_eq!(network.entry_request(&a.address()), None);
    network.reduce(&wrap(Action::GetEntry(a.address())));
    assert_eq!(network.entry_request(&a.address()), Some(EntryRequest::Requested));
    network.reduce(&wrap(answer(&address("QmB"), None)));
    assert_eq!(network.entry_request(&a.address()), Some(EntryRequest::Requested));
    network.reduce(&wrap(answer(&a.address(), Some(found.clone()))));
    assert_eq!(network.entry_request(&a.address()), Some(EntryRequest::Answered(Some(found.clone()))));
    network.reduce(&wrap(Action::GetEntryTimeout(a.address())));
    network.reduce(&wrap(answer(&a.address(), None)));
    assert_eq!(network.entry_request(&a.address()), Some(EntryRequest::Answered(Some(found.clone()))));

    // The timeout comes first.
    let mut network = NetworkState::new();
    network.reduce(&wrap(Action::GetEntryTimeout(a.address())));
    assert_eq!(network.entry_request(&a.address()), None);
    network.reduce(&wrap(Action::GetEntry(a.address())));
    network.reduce(&wrap(Action::GetEntryTimeout(a.address())));
    assert_eq!(network.entry_request(&a.address()), Some(EntryRequest::TimedOut));
    network.reduce(&wrap(answer(&a.address(), Some(found))));
    assert_eq!(network.entry_request(&a.address()), Some(EntryRequest::TimedOut));
    // A new request waits again.
    network.reduce(&wrap(Action::GetEntry(a.address())));
    assert_eq!(network.entry_request(&a.address()), Some(EntryRequest::Requested));
}

#[test]
fn nucleus_follows_the_initialization() {
    let dna = Dna { name: "app".to_string(), descriptor: JsonString::from_str("{}") };
    let other = Dna { name: "other".to_string(), descriptor: JsonString::from_str("{}") };
    let mut nucleus = NucleusState::new();
    assert_eq!(nucleus.status(), NucleusStatus::New);
    assert!(nucleus.dna().is_none());
    nucleus.reduce(&wrap(Action::ReturnInitializationResult(None)));
    assert_eq!(nucleus.status(), NucleusStatus::New);

    nucleus.reduce(&wrap(Action::InitApplication(dna.clone())));
    assert_eq!(nucleus.status(), NucleusStatus::Initializing);
    assert_eq!(nucleus.dna(), Some(&dna));
    nucleus.reduce(&wrap(Action::InitApplication(other.clone())));
    assert_eq!(nucleus.dna(), Some(&dna));

    nucleus.reduce(&wrap(Action::ReturnInitializationResult(Some("genesis failed".to_string()))));
    assert_eq!(nucleus.status(), NucleusStatus::InitializationFailed("genesis failed".to_string()));
    nucleus.reduce(&wrap(Action::ReturnInitializationResult(None)));
    assert_eq!(nucleus.status(), NucleusStatus::InitializationFailed("genesis failed".to_string()));

    nucleus.reduce(&wrap(Action::InitApplication(other.clone())));
    assert_eq!(nucleus.status(), NucleusStatus::Initializing);
    assert_eq!(nucleus.dna(), Some(&other));
    nucleus.reduce(&wrap(Action::ReturnInitializationResult(None)));
    assert_eq!(nucleus.status(), NucleusStatus::Initialized);
    nucleus.reduce(&wrap(Action::InitApplication(dna)));
    assert_eq!(nucleus.status(), NucleusStatus::Initialized);
    assert_eq!(nucleus.dna(), Some(&other));
}

#[test]
fn nucleus_files_calls_validations_and_packages() {
    let mut nucleus = NucleusState::new();
    let call = ZomeFnCall {
        id: snowflake::ProcessUniqueId::new(),
        zome_name: "blog".to_string(),
        fn_name: "post".to_string(),
        parameters: "{}".to_string(),
    };
    let inner = ZomeFnCall {
        id: snowflake::ProcessUniqueId::new(),
        zome_name: "blog".to_string(),
        fn_name: "hash".to_string(),
        parameters: "{}".to_string(),
    };
    assert_eq!(nucleus.zome_call(&call.id), None);
    nucleus.reduce(&wrap(Action::ExecuteZomeFunction(call.clone())));
    nucleus.reduce(&wrap(Action::Call(inner.clone())));
    assert_eq!(nucleus.zome_call(&call.id), Some(ZomeCall::Pending));
    assert_eq!(nucleus.zome_call(&inner.id), Some(ZomeCall::Pending));
    nucleus.reduce(&wrap(Action::ReturnZomeFunctionResult(ExecuteZomeFnResponse {
        call: call.clone(),
        result: Ok(JsonString::from_str("\"QmPost\"")),
    })));
    assert_eq!(
        nucleus.zome_call(&call.id),
        Some(ZomeCall::Returned(Ok(JsonString::from_str("\"QmPost\""))))
    );
    assert_eq!(nucleus.zome_call(&inner.id), Some(ZomeCall::Pending));

    let context = snowflake::ProcessUniqueId::new();
    let a = entry("A");
    assert_eq!(nucleus.validation_result(&context, &a.address()), None);
    nucleus.reduce(&wrap(Action::ReturnValidationResult((
        (context, a.address()),
        Err("too long".to_string()),
    ))));
    nucleus.reduce(&wrap(Action::ReturnValidationResult(((context, address("QmB")), Ok(())))));
    assert_eq!(nucleus.validation_result(&context, &a.address()), Some(Err("too long".to_string())));
    assert_eq!(nucleus.validation_result(&context, &address("QmB")), Some(Ok(())));
    assert_eq!(nucleus.validation_result(&call.id, &a.address()), None);

    assert_eq!(nucleus.validation_package(&context), None);
    nucleus.reduce(&wrap(Action::ReturnValidationPackage((context, Ok(package(&a))))));
    assert_eq!(nucleus.validation_package(&context), Some(Ok(package(&a))));
    nucleus.reduce(&wrap(Action::ReturnValidationPackage((
        call.id,
        Err(HolochainError::ErrorGeneric("no chain".to_string())),
    ))));
    assert_eq!(
        nucleus.validation_package(&call.id),
        Some(Err(HolochainError::ErrorGeneric("no chain".to_string())))
    );
}

fn batch() -> Vec<ActionWrapper> {
    let a = entry("A");
    let b = entry("B");
    vec![
        wrap(Action::Commit((a.clone(), None))),
        wrap(Action::Hold(a.clone())),
        wrap(Action::SendDirectMessage(request_message("bob", "m-1", &a.address()))),
        wrap(Action::Commit((b.clone(), None))),
        wrap(Action::GetEntry(b.address())),
        wrap(Action::SendDirectMessage(request_message("bob", "m-2", &b.address()))),
        wrap(Action::ResolveDirectConnection("m-1".to_string())),
        wrap(Action::GetEntryTimeout(b.address())),
        wrap(Action::UpdateEntry((a.address(), b.address()))),
    ]
}

fn observe(state: &State) -> (usize, Option<ChainHeader>, usize, bool, bool, Option<EntryRequest>, Option<EntryWithMeta>) {
    (
        state.agent().chain_len(),
        state.agent().top_chain_header().cloned(),
        state.network().pending_count(),
        state.network().pending_message("m-1").is_some(),
        state.network().pending_message("m-2").is_some(),
        state.network().entry_request(&address("QmB")),
        state.network().held_entry(&address("QmA")),
    )
}

#[test]
fn state_is_the_replay_of_the_admitted_actions() {
    let actions = batch();
    let mut whole = Dispatcher::new(address("alice"));
    assert_eq!(whole.dispatch_all(&actions), actions.len());

    let mut stepwise = Dispatcher::new(address("alice"));
    let mut by_hand = State::new(address("alice"));
    for wrapper in actions.iter() {
        assert!(stepwise.dispatch(wrapper.clone()));
        by_hand.reduce(wrapper);
    }
    assert_eq!(whole.history_len(), actions.len());
    assert_eq!(stepwise.history_len(), actions.len());
    for (i, wrapper) in actions.iter().enumerate() {
        assert_eq!(whole.history_at(i), wrapper);
        assert_eq!(stepwise.history_at(i), wrapper);
    }
    let expected = (
        2,
        Some(header(&entry("B"), "alice", Some("QmA"))),
        1,
        false,
        true,
        Some(EntryRequest::TimedOut),
        Some(EntryWithMeta {
            entry: entry("A"),
            crud_status: CrudStatus::Modified,
            maybe_crud_link: Some(address("QmB")),
        }),
    );
    assert_eq!(observe(whole.state()), expected);
    assert_eq!(observe(stepwise.state()), expected);
    assert_eq!(observe(&by_hand), expected);

    // Another order of admission is another state.
    let mut reversed = Dispatcher::new(address("alice"));
    let mut backwards = batch();
    backwards.reverse();
    reversed.dispatch_all(&backwards);
    assert_eq!(reversed.state().agent().top_chain_header(), Some(&header(&entry("A"), "alice", Some("QmB"))));
    assert!(reversed.state().network().pending_message("m-1").is_some());
}

#[test]
fn a_wrapper_is_applied_once() {
    let mut dispatcher = Dispatcher::new(address("alice"));
    let commit = wrap(Action::Commit((entry("A"), None)));
    assert!(!dispatcher.was_dispatched(commit.id()));
    assert!(dispatcher.dispatch(commit.clone()));
    assert!(dispatcher.was_dispatched(commit.id()));
    assert!(!dispatcher.dispatch(commit.clone()));
    assert_eq!(dispatcher.history_len(), 1);
    assert_eq!(dispatcher.state().agent().chain_len(), 1);

    // The same action under a new identity is another occurrence.
    assert!(dispatcher.dispatch(wrap(Action::Commit((entry("A"), None)))));
    assert_eq!(dispatcher.history_len(), 2);
    assert_eq!(dispatcher.state().agent().chain_len(), 2);

    // A batch that repeats a wrapper admits it once.
    let hold = wrap(Action::Hold(entry("B")));
    let repeated = vec![hold.clone(), commit.clone(), hold.clone()];
    assert_eq!(dispatcher.dispatch_all(&repeated), 1);
    assert_eq!(dispatcher.history_len(), 3);
    assert_eq!(dispatcher.history_at(2), &hold);
    assert_eq!(dispatcher.dispatch_all(&Vec::new()), 0);
}

#[test]
fn new_state_is_empty() {
    let state = State::new(address("alice"));
    assert_eq!(state.agent().agent(), &address("alice"));
    assert_eq!(state.agent().chain_len(), 0);
    assert_eq!(state.network().pending_count(), 0);
    assert_eq!(state.network().link_count(), 0);
    assert!(state.network().settings().is_none());
    assert_eq!(state.nucleus().status(), NucleusStatus::New);
    let dispatcher = Dispatcher::new(address("alice"));
    assert_eq!(dispatcher.history_len(), 0);
    let only = ValidationPackage::only_header(header(&entry("A"), "alice", None));
    assert!(only.source_chain_entries.is_empty());
    assert!(only.source_chain_headers.is_empty());
    assert_eq!(only.chain_header, header(&entry("A"), "alice", None));
    assert_eq!(only.clone(), only);
}
