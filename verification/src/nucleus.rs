//! The nucleus sub-state: the application, and the calls, validation results
//! and validation packages that its computations report.

use crate::action::{
    clone_package_result, clone_validation_result, clone_zome_result, result_view, Action,
    ActionModel, ActionWrapper, ValidationResult,
};
use crate::content::{
    option_view, Address, Dna, DnaModel, HolochainError, HolochainErrorModel, JsonString,
    ValidationPackage, ValidationPackageModel,
};
use crate::table::{Key, Table};
use vstd::prelude::*;

verus! {

/// Where the application stands.
#[derive(Debug, PartialEq)]
pub enum NucleusStatus {
    /// No application was initialized yet.
    New,
    /// The initialization runs.
    Initializing,
    /// The initialization succeeded.
    Initialized,
    /// The initialization failed, for the given reason.
    InitializationFailed(String),
}

/// The status of the application as a mathematical value.
pub enum NucleusStatusModel {
    New,
    Initializing,
    Initialized,
    InitializationFailed(Seq<char>),
}

impl View for NucleusStatus {
    type V = NucleusStatusModel;

    open spec fn view(&self) -> NucleusStatusModel {
        match self {
            NucleusStatus::New => NucleusStatusModel::New,
            NucleusStatus::Initializing => NucleusStatusModel::Initializing,
            NucleusStatus::Initialized => NucleusStatusModel::Initialized,
            NucleusStatus::InitializationFailed(reason) => {
                NucleusStatusModel::InitializationFailed(reason@)
            },
        }
    }
}

impl Clone for NucleusStatus {
    fn clone(&self) -> (copy: NucleusStatus)
        ensures
            copy@ == self@,
    {
        match self {
            NucleusStatus::New => NucleusStatus::New,
            NucleusStatus::Initializing => NucleusStatus::Initializing,
            NucleusStatus::Initialized => NucleusStatus::Initialized,
            NucleusStatus::InitializationFailed(reason) => NucleusStatus::InitializationFailed(
                reason.clone(),
            ),
        }
    }
}

/// Where a call of a zome function stands.
#[derive(Debug, PartialEq)]
pub enum ZomeCall {
    /// The call runs.
    Pending,
    /// The call returned.
    Returned(Result<JsonString, HolochainError>),
}

/// A call of a zome function as a mathematical value.
pub enum ZomeCallModel {
    Pending,
    Returned(Result<Seq<char>, HolochainErrorModel>),
}

impl View for ZomeCall {
    type V = ZomeCallModel;

    open spec fn view(&self) -> ZomeCallModel {
        match self {
            ZomeCall::Pending => ZomeCallModel::Pending,
            ZomeCall::Returned(result) => ZomeCallModel::Returned(result_view(*result)),
        }
    }
}

impl Clone for ZomeCall {
    fn clone(&self) -> (copy: ZomeCall)
        ensures
            copy@ == self@,
    {
        match self {
            ZomeCall::Pending => ZomeCall::Pending,
            ZomeCall::Returned(result) => ZomeCall::Returned(clone_zome_result(result)),
        }
    }
}

/// What a validation is filed under: the identity of the calling context and
/// the address of the validated entry.
pub struct ValidationKey {
    pub id: snowflake::ProcessUniqueId,
    pub address: Address,
}

impl Key for ValidationKey {
    type Id = (snowflake::ProcessUniqueId, Seq<char>);

    open spec fn id(&self) -> (snowflake::ProcessUniqueId, Seq<char>) {
        (self.id, self.address@)
    }

    fn same(&self, other: &Self) -> (same: bool) {
        self.id.same(&other.id) && self.address.same(&other.address)
    }
}

/// What a validation callback returned.
pub struct Validation {
    pub result: ValidationResult,
}

impl View for Validation {
    type V = Result<(), Seq<char>>;

    open spec fn view(&self) -> Result<(), Seq<char>> {
        result_view(self.result)
    }
}

/// A validation package that was built locally, or why none was built.
pub struct BuiltPackage {
    pub result: Result<ValidationPackage, HolochainError>,
}

impl View for BuiltPackage {
    type V = Result<ValidationPackageModel, HolochainErrorModel>;

    open spec fn view(&self) -> Result<ValidationPackageModel, HolochainErrorModel> {
        result_view(self.result)
    }
}

/// The nucleus sub-state.
pub struct NucleusState {
    /// The application, once one was handed in.
    dna: Option<Dna>,
    /// Where the application stands.
    status: NucleusStatus,
    /// The calls of zome functions, by the identity of the call.
    zome_calls: Table<snowflake::ProcessUniqueId, ZomeCall>,
    /// The results of validation callbacks.
    validation_results: Table<ValidationKey, Validation>,
    /// The validation packages built locally, by the identity of the calling
    /// context.
    validation_packages: Table<snowflake::ProcessUniqueId, BuiltPackage>,
}

/// The nucleus sub-state as a mathematical value.
pub struct NucleusModel {
    pub dna: Option<DnaModel>,
    pub status: NucleusStatusModel,
    pub zome_calls: Map<snowflake::ProcessUniqueId, ZomeCallModel>,
    pub validation_results: Map<(snowflake::ProcessUniqueId, Seq<char>), Result<(), Seq<char>>>,
    pub validation_packages: Map<
        snowflake::ProcessUniqueId,
        Result<ValidationPackageModel, HolochainErrorModel>,
    >,
}

/// The status after the initialization reported `failure`.
pub open spec fn initialization_status(failure: Option<Seq<char>>) -> NucleusStatusModel {
    match failure {
        None => NucleusStatusModel::Initialized,
        Some(reason) => NucleusStatusModel::InitializationFailed(reason),
    }
}

/// What an action makes of the nucleus sub-state.
///
/// An application is taken in unless one is initializing or initialized; the
/// report of an initialization counts only while one runs.
pub open spec fn reduce_nucleus(state: NucleusModel, action: ActionModel) -> NucleusModel {
    match action {
        ActionModel::InitApplication(dna) => match state.status {
            NucleusStatusModel::Initializing | NucleusStatusModel::Initialized => state,
            _ => NucleusModel {
                dna: Some(dna),
                status: NucleusStatusModel::Initializing,
                ..state
            },
        },
        ActionModel::ReturnInitializationResult(failure) => match state.status {
            NucleusStatusModel::Initializing => NucleusModel {
                status: initialization_status(failure),
                ..state
            },
            _ => state,
        },
        ActionModel::ExecuteZomeFunction(call) => NucleusModel {
            zome_calls: state.zome_calls.insert(call.id, ZomeCallModel::Pending),
            ..state
        },
        ActionModel::Call(call) => NucleusModel {
            zome_calls: state.zome_calls.insert(call.id, ZomeCallModel::Pending),
            ..state
        },
        ActionModel::ReturnZomeFunctionResult(response) => NucleusModel {
            zome_calls: state.zome_calls.insert(
                response.call.id,
                ZomeCallModel::Returned(response.result),
            ),
            ..state
        },
        ActionModel::ReturnValidationResult(id, address, result) => NucleusModel {
            validation_results: state.validation_results.insert((id, address), result),
            ..state
        },
        ActionModel::ReturnValidationPackage(id, result) => NucleusModel {
            validation_packages: state.validation_packages.insert(id, result),
            ..state
        },
        _ => state,
    }
}

impl View for NucleusState {
    type V = NucleusModel;

    closed spec fn view(&self) -> NucleusModel {
        NucleusModel {
            dna: option_view(self.dna),
            status: self.status@,
            zome_calls: self.zome_calls@,
            validation_results: self.validation_results@,
            validation_packages: self.validation_packages@,
        }
    }
}

impl NucleusState {
    /// The sub-state is well formed.
    pub closed spec fn wf(&self) -> bool {
        &&& self.zome_calls.wf()
        &&& self.validation_results.wf()
        &&& self.validation_packages.wf()
    }

    /// The sub-state of a nucleus without an application.
    pub fn new() -> (state: NucleusState)
        ensures
            state.wf(),
            state@ == (NucleusModel {
                dna: None,
                status: NucleusStatusModel::New,
                zome_calls: Map::empty(),
                validation_results: Map::empty(),
                validation_packages: Map::empty(),
            }),
    {
        NucleusState {
            dna: None,
            status: NucleusStatus::New,
            zome_calls: Table::new(),
            validation_results: Table::new(),
            validation_packages: Table::new(),
        }
    }

    /// The application, once one was handed in.
    pub fn dna(&self) -> (dna: Option<&Dna>)
        ensures
            dna is Some <==> self@.dna is Some,
            dna matches Some(found) ==> Some(found@) == self@.dna,
    {
        match &self.dna {
            Some(dna) => Some(dna),
            None => None,
        }
    }

    /// Where the application stands.
    pub fn status(&self) -> (status: NucleusStatus)
        ensures
            status@ == self@.status,
    {
        self.status.clone()
    }

    /// Where the call with the identity `id` stands, if it was made.
    pub fn zome_call(&self, id: &snowflake::ProcessUniqueId) -> (found: Option<ZomeCall>)
        requires
            self.wf(),
        ensures
            found is Some <==> self@.zome_calls.contains_key(*id),
            found matches Some(call) ==> call@ == self@.zome_calls[*id],
    {
        match self.zome_calls.get(id) {
            Some(call) => Some(call.clone()),
            None => None,
        }
    }

    /// What validation returned for the entry at `address` in the calling
    /// context `id`, if it was reported.
    pub fn validation_result(&self, id: &snowflake::ProcessUniqueId, address: &Address) -> (found:
        Option<ValidationResult>)
        requires
            self.wf(),
        ensures
            found is Some <==> self@.validation_results.contains_key((*id, address@)),
            found matches Some(result) ==> result_view(result) == self@.validation_results[(
                *id,
                address@,
            )],
    {
        let key = ValidationKey { id: *id, address: address.clone() };
        match self.validation_results.get(&key) {
            Some(validation) => Some(clone_validation_result(&validation.result)),
            None => None,
        }
    }

    /// The validation package that the calling context `id` built, or why it
    /// built none, if it was reported.
    pub fn validation_package(&self, id: &snowflake::ProcessUniqueId) -> (found: Option<
        Result<ValidationPackage, HolochainError>,
    >)
        requires
            self.wf(),
        ensures
            found is Some <==> self@.validation_packages.contains_key(*id),
            found matches Some(result) ==> result_view(result) == self@.validation_packages[*id],
    {
        match self.validation_packages.get(id) {
            Some(built) => Some(clone_package_result(&built.result)),
            None => None,
        }
    }

    /// Applies an action to the sub-state.
    pub fn reduce(&mut self, action_wrapper: &ActionWrapper)
        requires
            old(self).wf(),
        ensures
            final(self).wf(),
            final(self)@ == reduce_nucleus(old(self)@, action_wrapper.spec_action()@),
    {
        match action_wrapper.action() {
            Action::InitApplication(dna) => {
                let taken = match &self.status {
                    NucleusStatus::Initializing | NucleusStatus::Initialized => false,
                    _ => true,
                };
                if taken {
                    self.dna = Some(dna.clone());
                    self.status = NucleusStatus::Initializing;
                }
            },
            Action::ReturnInitializationResult(failure) => {
                let runs = match &self.status {
                    NucleusStatus::Initializing => true,
                    _ => false,
                };
                if runs {
                    self.status = match failure {
                        None => NucleusStatus::Initialized,
                        Some(reason) => NucleusStatus::InitializationFailed(reason.clone()),
                    };
                }
            },
            Action::ExecuteZomeFunction(call) => {
                self.zome_calls.insert(call.id, ZomeCall::Pending);
            },
            Action::Call(call) => {
                self.zome_calls.insert(call.id, ZomeCall::Pending);
            },
            Action::ReturnZomeFunctionResult(response) => {
                self.zome_calls.insert(
                    response.call.id,
                    ZomeCall::Returned(clone_zome_result(&response.result)),
                );
            },
            Action::ReturnValidationResult(((id, address), result)) => {
                self.validation_results.insert(
                    ValidationKey { id: *id, address: address.clone() },
                    Validation { result: clone_validation_result(result) },
                );
            },
            Action::ReturnValidationPackage((id, result)) => {
                self.validation_packages.insert(
                    *id,
                    BuiltPackage { result: clone_package_result(result) },
                );
            },
            _ => {},
        }
    }
}

} // verus!
