//! Container configuration: the agents, DNAs, instances, interfaces and
//! bridges that a container is asked to run, and the check that the
//! references between them resolve.
//!
//! Records refer to each other by string id: an instance names its agent and
//! its DNA, an interface names the instances it makes available.

use crate::text::same_text;
use boolinator::Boolinator;
use vstd::prelude::*;

verus! {

/// An opaque TOML value, carried by a custom interface driver.
#[verifier::external_type_specification]
#[verifier::external_body]
pub struct ExTomlValue(toml::value::Value);

/// An agent has an id and is defined by a private key that resides in a file.
#[derive(Debug)]
pub struct AgentConfiguration {
    pub id: String,
    pub key_file: String,
}

impl Clone for AgentConfiguration {
    fn clone(&self) -> (copy: Self)
        ensures
            copy == *self,
    {
        AgentConfiguration { id: self.id.clone(), key_file: self.key_file.clone() }
    }
}

/// A DNA is represented by a DNA file; the hash is kept for a sanity check.
#[derive(Debug)]
pub struct DNAConfiguration {
    pub id: String,
    pub file: String,
    pub hash: String,
}

impl Clone for DNAConfiguration {
    fn clone(&self) -> (copy: Self)
        ensures
            copy == *self,
    {
        DNAConfiguration {
            id: self.id.clone(),
            file: self.file.clone(),
            hash: self.hash.clone(),
        }
    }
}

/// The logger of an instance.
#[derive(Debug)]
pub struct LoggerConfiguration {
    pub logger_type: String,
    pub file: Option<String>,
}

impl Clone for LoggerConfiguration {
    fn clone(&self) -> (copy: Self)
        ensures
            copy == *self,
    {
        let file = match &self.file {
            Some(f) => Some(f.clone()),
            None => None,
        };
        LoggerConfiguration { logger_type: self.logger_type.clone(), file }
    }
}

impl Default for LoggerConfiguration {
    fn default() -> (logger: Self)
        ensures
            logger.logger_type@ == Seq::<char>::empty(),
            logger.file is None,
    {
        LoggerConfiguration { logger_type: String::new(), file: None }
    }
}

/// Where an instance keeps its source chain and its DHT shard.
#[derive(Debug)]
pub enum StorageConfiguration {
    Memory,
    File { path: String },
}

impl Clone for StorageConfiguration {
    fn clone(&self) -> (copy: Self)
        ensures
            copy == *self,
    {
        match self {
            StorageConfiguration::Memory => StorageConfiguration::Memory,
            StorageConfiguration::File { path } => StorageConfiguration::File {
                path: path.clone(),
            },
        }
    }
}

/// An instance combines a DNA with an agent, and has its own logger, storage
/// and network configuration.
#[derive(Debug)]
pub struct InstanceConfiguration {
    pub id: String,
    pub dna: String,
    pub agent: String,
    pub logger: LoggerConfiguration,
    pub storage: StorageConfiguration,
    pub network: Option<String>,
}

impl Clone for InstanceConfiguration {
    fn clone(&self) -> (copy: Self)
        ensures
            copy == *self,
    {
        let network = match &self.network {
            Some(n) => Some(n.clone()),
            None => None,
        };
        InstanceConfiguration {
            id: self.id.clone(),
            dna: self.dna.clone(),
            agent: self.agent.clone(),
            logger: self.logger.clone(),
            storage: self.storage.clone(),
            network,
        }
    }
}

/// A bridge lets one instance call zome functions of another.
#[derive(Debug, PartialEq)]
pub struct Bridge {
    pub caller_id: String,
    pub callee_id: String,
}

impl Clone for Bridge {
    fn clone(&self) -> (copy: Self)
        ensures
            copy == *self,
    {
        Bridge { caller_id: self.caller_id.clone(), callee_id: self.callee_id.clone() }
    }
}

/// How an interface is reached.
#[derive(Debug)]
pub enum InterfaceDriver {
    Websocket { port: u16 },
    Http { port: u16 },
    DomainSocket { file: String },
    Custom(toml::value::Value),
}

/// A copy of a TOML value.
///
/// Calls `toml::value::Value`'s `clone`, which the crate derives: the copy
/// holds the same value as the one it was made from.
#[verifier::external_body]
fn copy_toml_value(value: &toml::value::Value) -> (copy: toml::value::Value)
    ensures
        copy == *value,
{
    value.clone()
}

impl Clone for InterfaceDriver {
    fn clone(&self) -> (copy: Self)
        ensures
            copy == *self,
    {
        match self {
            InterfaceDriver::Websocket { port } => InterfaceDriver::Websocket { port: *port },
            InterfaceDriver::Http { port } => InterfaceDriver::Http { port: *port },
            InterfaceDriver::DomainSocket { file } => InterfaceDriver::DomainSocket {
                file: file.clone(),
            },
            InterfaceDriver::Custom(value) => InterfaceDriver::Custom(copy_toml_value(value)),
        }
    }
}

/// A reference from an interface to an instance.
#[derive(Debug)]
pub struct InstanceReferenceConfiguration {
    pub id: String,
}

impl Clone for InstanceReferenceConfiguration {
    fn clone(&self) -> (copy: Self)
        ensures
            copy == *self,
    {
        InstanceReferenceConfiguration { id: self.id.clone() }
    }
}

/// An interface makes zome functions of the listed instances available to
/// user interfaces; with `admin` it also offers the container's own functions.
#[derive(Debug)]
pub struct InterfaceConfiguration {
    pub id: String,
    pub driver: InterfaceDriver,
    pub admin: bool,
    pub instances: Vec<InstanceReferenceConfiguration>,
}

impl InterfaceConfiguration {
    /// The two records hold the same id, driver, flag and references.
    pub open spec fn same_as(&self, other: &InterfaceConfiguration) -> bool {
        &&& self.id == other.id
        &&& self.driver == other.driver
        &&& self.admin == other.admin
        &&& self.instances@ == other.instances@
    }
}

impl Clone for InterfaceConfiguration {
    fn clone(&self) -> (copy: Self)
        ensures
            copy.same_as(self),
    {
        let mut instances: Vec<InstanceReferenceConfiguration> = Vec::new();
        let mut i: usize = 0;
        while i < self.instances.len()
            invariant
                i <= self.instances.len(),
                instances@ == self.instances@.take(i as int),
            decreases self.instances.len() - i,
        {
            instances.push(self.instances[i].clone());
            i = i + 1;
        }
        assert(self.instances@.take(i as int) =~= self.instances@);
        InterfaceConfiguration {
            id: self.id.clone(),
            driver: self.driver.clone(),
            admin: self.admin,
            instances,
        }
    }
}

/// The root of the configuration tree.
#[derive(Debug)]
pub struct Configuration {
    /// The agents: identities and their keys.
    pub agents: Vec<AgentConfiguration>,
    /// The DNAs, each with the path of its file.
    pub dnas: Vec<DNAConfiguration>,
    /// The instances, each naming an agent and a DNA.
    pub instances: Vec<InstanceConfiguration>,
    /// The interfaces through which a user interface reaches zome functions.
    pub interfaces: Vec<InterfaceConfiguration>,
    /// The bridges between instances.
    pub bridges: Vec<Bridge>,
}

impl Default for Configuration {
    fn default() -> (config: Self)
        ensures
            config.agents@.len() == 0,
            config.dnas@.len() == 0,
            config.instances@.len() == 0,
            config.interfaces@.len() == 0,
            config.bridges@.len() == 0,
    {
        Configuration {
            agents: Vec::new(),
            dnas: Vec::new(),
            instances: Vec::new(),
            interfaces: Vec::new(),
            bridges: Vec::new(),
        }
    }
}

impl Configuration {
    /// The two configurations hold the same records in the same order.
    pub open spec fn same_as(&self, other: &Configuration) -> bool {
        &&& self.agents@ == other.agents@
        &&& self.dnas@ == other.dnas@
        &&& self.instances@ == other.instances@
        &&& self.bridges@ == other.bridges@
        &&& self.interfaces@.len() == other.interfaces@.len()
        &&& forall|i: int|
            0 <= i < self.interfaces@.len() ==> (#[trigger] self.interfaces@[i]).same_as(
                &other.interfaces@[i],
            )
    }
}

impl Clone for Configuration {
    fn clone(&self) -> (copy: Self)
        ensures
            copy.same_as(self),
    {
        let mut agents: Vec<AgentConfiguration> = Vec::new();
        let mut a: usize = 0;
        while a < self.agents.len()
            invariant
                a <= self.agents.len(),
                agents@.len() == a,
                forall|j: int| 0 <= j < a ==> agents@[j] == self.agents@[j],
            decreases self.agents.len() - a,
        {
            agents.push(self.agents[a].clone());
            a = a + 1;
        }
        let mut dnas: Vec<DNAConfiguration> = Vec::new();
        let mut d: usize = 0;
        while d < self.dnas.len()
            invariant
                d <= self.dnas.len(),
                dnas@.len() == d,
                forall|j: int| 0 <= j < d ==> dnas@[j] == self.dnas@[j],
            decreases self.dnas.len() - d,
        {
            dnas.push(self.dnas[d].clone());
            d = d + 1;
        }
        let mut instances: Vec<InstanceConfiguration> = Vec::new();
        let mut i: usize = 0;
        while i < self.instances.len()
            invariant
                i <= self.instances.len(),
                instances@.len() == i,
                forall|j: int| 0 <= j < i ==> instances@[j] == self.instances@[j],
            decreases self.instances.len() - i,
        {
            instances.push(self.instances[i].clone());
            i = i + 1;
        }
        let mut interfaces: Vec<InterfaceConfiguration> = Vec::new();
        let mut k: usize = 0;
        while k < self.interfaces.len()
            invariant
                k <= self.interfaces.len(),
                interfaces@.len() == k,
                forall|j: int| 0 <= j < k ==> (#[trigger] interfaces@[j]).same_as(&self.interfaces@[j]),
            decreases self.interfaces.len() - k,
        {
            interfaces.push(self.interfaces[k].clone());
            k = k + 1;
        }
        let mut bridges: Vec<Bridge> = Vec::new();
        let mut b: usize = 0;
        while b < self.bridges.len()
            invariant
                b <= self.bridges.len(),
                bridges@.len() == b,
                forall|j: int| 0 <= j < b ==> bridges@[j] == self.bridges@[j],
            decreases self.bridges.len() - b,
        {
            bridges.push(self.bridges[b].clone());
            b = b + 1;
        }
        assert(agents@ =~= self.agents@);
        assert(dnas@ =~= self.dnas@);
        assert(instances@ =~= self.instances@);
        assert(bridges@ =~= self.bridges@);
        Configuration { agents, dnas, instances, interfaces, bridges }
    }
}

/// `at` is the first position of `ids` that holds `id`.
pub open spec fn first_at(ids: Seq<Seq<char>>, id: Seq<char>, at: int) -> bool {
    &&& 0 <= at < ids.len()
    &&& ids[at] == id
    &&& forall|j: int| 0 <= j < at ==> ids[j] != id
}

/// The message for an instance that names an agent which is not configured.
pub open spec fn agent_fault(agent: Seq<char>, instance: Seq<char>) -> Seq<char> {
    "Agent configuration "@ + agent + " not found, mentioned in instance "@ + instance
}

/// The message for an instance that names a DNA which is not configured.
pub open spec fn dna_fault(dna: Seq<char>, instance: Seq<char>) -> Seq<char> {
    "DNA configuration \""@ + dna + "\" not found, mentioned in instance \""@ + instance
        + "\""@
}

/// The message for an interface that names an instance which is not
/// configured.
pub open spec fn reference_fault(instance: Seq<char>) -> Seq<char> {
    "Instance configuration \""@ + instance + "\" not found, mentioned in interface"@
}

/// A reference that did not resolve.
enum Fault<'a> {
    Agent { agent: &'a str, instance: &'a str },
    Dna { dna: &'a str, instance: &'a str },
    Reference { instance: &'a str },
}

impl<'a> Fault<'a> {
    spec fn message(&self) -> Seq<char> {
        match self {
            Fault::Agent { agent, instance } => agent_fault(agent@, instance@),
            Fault::Dna { dna, instance } => dna_fault(dna@, instance@),
            Fault::Reference { instance } => reference_fault(instance@),
        }
    }

    fn describe(&self) -> (text: String)
        ensures
            text@ == self.message(),
    {
        match self {
            Fault::Agent { agent, instance } => {
                let mut text = String::from_str("Agent configuration ");
                text.append(agent);
                text.append(" not found, mentioned in instance ");
                text.append(instance);
                text
            },
            Fault::Dna { dna, instance } => {
                let mut text = String::from_str("DNA configuration \"");
                text.append(dna);
                text.append("\" not found, mentioned in instance \"");
                text.append(instance);
                text.append("\"");
                text
            },
            Fault::Reference { instance } => {
                let mut text = String::from_str("Instance configuration \"");
                text.append(instance);
                text.append("\" not found, mentioned in interface");
                text
            },
        }
    }
}

/// `Ok` where `found` holds, else the message of `fault` as the error.
///
/// Calls boolinator's `ok_or_else` on `found`: it returns `Ok(())` for
/// `true`, and for `false` the error that the closure builds, which here is
/// the fault's message.
#[verifier::external_body]
fn found_or(found: bool, fault: &Fault) -> (checked: Result<(), String>)
    ensures
        checked is Ok <==> found,
        checked matches Err(text) ==> text@ == fault.message(),
{
    Boolinator::ok_or_else(found, || fault.describe())
}

impl Configuration {
    /// The ids of the agents, in the order of the list.
    pub open spec fn spec_agent_ids(&self) -> Seq<Seq<char>> {
        Seq::new(self.agents@.len(), |i: int| self.agents@[i].id@)
    }

    /// The ids of the DNAs, in the order of the list.
    pub open spec fn spec_dna_ids(&self) -> Seq<Seq<char>> {
        Seq::new(self.dnas@.len(), |i: int| self.dnas@[i].id@)
    }

    /// The ids of the instances, in the order of the list.
    pub open spec fn spec_instance_ids(&self) -> Seq<Seq<char>> {
        Seq::new(self.instances@.len(), |i: int| self.instances@[i].id@)
    }

    /// The ids of the interfaces, in the order of the list.
    pub open spec fn spec_interface_ids(&self) -> Seq<Seq<char>> {
        Seq::new(self.interfaces@.len(), |i: int| self.interfaces@[i].id@)
    }

    /// The agent configuration with the given id, if there is one: the first
    /// in the list that bears it.
    pub fn agent_by_id(&self, id: &str) -> (found: Option<AgentConfiguration>)
        ensures
            found is None <==> !self.spec_agent_ids().contains(id@),
            found matches Some(record) ==> exists|at: int|
                first_at(self.spec_agent_ids(), id@, at) && #[trigger] self.agents@[at] == record,
    {
        let mut i: usize = 0;
        while i < self.agents.len()
            invariant
                i <= self.agents.len(),
                forall|j: int| 0 <= j < i ==> self.spec_agent_ids()[j] != id@,
            decreases self.agents.len() - i,
        {
            if same_text(self.agents[i].id.as_str(), id) {
                let record = self.agents[i].clone();
                assert(first_at(self.spec_agent_ids(), id@, i as int));
                return Some(record);
            }
            i = i + 1;
        }
        None
    }

    /// The DNA configuration with the given id, if there is one: the first
    /// in the list that bears it.
    pub fn dna_by_id(&self, id: &str) -> (found: Option<DNAConfiguration>)
        ensures
            found is None <==> !self.spec_dna_ids().contains(id@),
            found matches Some(record) ==> exists|at: int|
                first_at(self.spec_dna_ids(), id@, at) && #[trigger] self.dnas@[at] == record,
    {
        let mut i: usize = 0;
        while i < self.dnas.len()
            invariant
                i <= self.dnas.len(),
                forall|j: int| 0 <= j < i ==> self.spec_dna_ids()[j] != id@,
            decreases self.dnas.len() - i,
        {
            if same_text(self.dnas[i].id.as_str(), id) {
                let record = self.dnas[i].clone();
                assert(first_at(self.spec_dna_ids(), id@, i as int));
                return Some(record);
            }
            i = i + 1;
        }
        None
    }

    /// The instance configuration with the given id, if there is one: the first
    /// in the list that bears it.
    pub fn instance_by_id(&self, id: &str) -> (found: Option<InstanceConfiguration>)
        ensures
            found is None <==> !self.spec_instance_ids().contains(id@),
            found matches Some(record) ==> exists|at: int|
                first_at(self.spec_instance_ids(), id@, at) && #[trigger] self.instances@[at] == record,
    {
        let mut i: usize = 0;
        while i < self.instances.len()
            invariant
                i <= self.instances.len(),
                forall|j: int| 0 <= j < i ==> self.spec_instance_ids()[j] != id@,
            decreases self.instances.len() - i,
        {
            if same_text(self.instances[i].id.as_str(), id) {
                let record = self.instances[i].clone();
                assert(first_at(self.spec_instance_ids(), id@, i as int));
                return Some(record);
            }
            i = i + 1;
        }
        None
    }

    /// The interface configuration with the given id, if there is one: the
    /// first in the list that bears it.
    pub fn interface_by_id(&self, id: &str) -> (found: Option<InterfaceConfiguration>)
        ensures
            found is None <==> !self.spec_interface_ids().contains(id@),
            found matches Some(record) ==> exists|at: int|
                first_at(self.spec_interface_ids(), id@, at) && record.same_as(
                    #[trigger] &self.interfaces@[at],
                ),
    {
        let mut i: usize = 0;
        while i < self.interfaces.len()
            invariant
                i <= self.interfaces.len(),
                forall|j: int| 0 <= j < i ==> self.spec_interface_ids()[j] != id@,
            decreases self.interfaces.len() - i,
        {
            if same_text(self.interfaces[i].id.as_str(), id) {
                let record = self.interfaces[i].clone();
                assert(first_at(self.spec_interface_ids(), id@, i as int));
                return Some(record);
            }
            i = i + 1;
        }
        None
    }

    /// The ids of all instances, in the order of the list.
    pub fn instance_ids(&self) -> (ids: Vec<String>)
        ensures
            ids@.len() == self.instances@.len(),
            forall|i: int| 0 <= i < ids@.len() ==> #[trigger] ids@[i]@ == self.instances@[i].id@,
    {
        let mut ids: Vec<String> = Vec::new();
        let mut i: usize = 0;
        while i < self.instances.len()
            invariant
                i <= self.instances.len(),
                ids@.len() == i,
                forall|j: int| 0 <= j < i ==> #[trigger] ids@[j]@ == self.instances@[j].id@,
            decreases self.instances.len() - i,
        {
            ids.push(self.instances[i].id.clone());
            i = i + 1;
        }
        ids
    }

    /// What is wrong with the instance at `at`, if anything: its agent is
    /// looked up first, then its DNA.
    pub open spec fn instance_fault(&self, at: int) -> Option<Seq<char>> {
        let instance = self.instances@[at];
        if !self.spec_agent_ids().contains(instance.agent@) {
            Some(agent_fault(instance.agent@, instance.id@))
        } else if !self.spec_dna_ids().contains(instance.dna@) {
            Some(dna_fault(instance.dna@, instance.id@))
        } else {
            None
        }
    }

    /// What is wrong with reference `r` of the interface at `at`, if anything.
    pub open spec fn interface_fault(&self, at: int, r: int) -> Option<Seq<char>> {
        let reference = self.interfaces@[at].instances@[r];
        if !self.spec_instance_ids().contains(reference.id@) {
            Some(reference_fault(reference.id@))
        } else {
            None
        }
    }

    /// The fault of the first faulty instance at or after `from`.
    pub open spec fn first_instance_fault(&self, from: int) -> Option<Seq<char>>
        decreases self.instances@.len() - from,
    {
        if from < 0 || from >= self.instances@.len() {
            None
        } else if self.instance_fault(from) is Some {
            self.instance_fault(from)
        } else {
            self.first_instance_fault(from + 1)
        }
    }

    /// The fault of the first faulty reference at or after reference `r` of
    /// the interface at `at`, interfaces and their references taken in the
    /// order of the lists.
    pub open spec fn first_interface_fault(&self, at: int, r: int) -> Option<Seq<char>>
        decreases self.interfaces@.len() - at, self.interfaces@[at].instances@.len() - r,
    {
        if at < 0 || at >= self.interfaces@.len() || r < 0 {
            None
        } else if r >= self.interfaces@[at].instances@.len() {
            self.first_interface_fault(at + 1, 0)
        } else if self.interface_fault(at, r) is Some {
            self.interface_fault(at, r)
        } else {
            self.first_interface_fault(at, r + 1)
        }
    }

    /// The first fault of the configuration: instances come before
    /// interfaces.
    pub open spec fn first_fault(&self) -> Option<Seq<char>> {
        if self.first_instance_fault(0) is Some {
            self.first_instance_fault(0)
        } else {
            self.first_interface_fault(0, 0)
        }
    }

    /// Every instance names a configured agent and a configured DNA, and
    /// every interface names configured instances only.
    pub open spec fn is_consistent(&self) -> bool {
        &&& forall|i: int|
            0 <= i < self.instances@.len() ==> {
                &&& self.spec_agent_ids().contains(#[trigger] self.instances@[i].agent@)
                &&& self.spec_dna_ids().contains(self.instances@[i].dna@)
            }
        &&& forall|i: int, r: int|
            0 <= i < self.interfaces@.len() && 0 <= r < self.interfaces@[i].instances@.len()
                ==> self.spec_instance_ids().contains(
                #[trigger] self.interfaces@[i].instances@[r].id@,
            )
    }

    /// Checks that the references between the records resolve.
    ///
    /// Succeeds exactly on a consistent configuration. Otherwise the error is
    /// the message of the first fault.
    pub fn check_consistency(&self) -> (checked: Result<(), String>)
        ensures
            checked is Ok <==> self.is_consistent(),
            checked is Ok <==> self.first_fault() is None,
            checked matches Err(text) ==> self.first_fault() == Some(text@),
    {
        let mut i: usize = 0;
        while i < self.instances.len()
            invariant
                i <= self.instances.len(),
                self.first_instance_fault(0) == self.first_instance_fault(i as int),
                forall|j: int| 0 <= j < i ==> self.instance_fault(j) is None,
            decreases self.instances.len() - i,
        {
            let instance = &self.instances[i];
            let agent = Fault::Agent {
                agent: instance.agent.as_str(),
                instance: instance.id.as_str(),
            };
            match found_or(self.agent_by_id(instance.agent.as_str()).is_some(), &agent) {
                Err(text) => {
                    return Err(text);
                },
                Ok(_) => {},
            }
            let dna = Fault::Dna { dna: instance.dna.as_str(), instance: instance.id.as_str() };
            match found_or(self.dna_by_id(instance.dna.as_str()).is_some(), &dna) {
                Err(text) => {
                    return Err(text);
                },
                Ok(_) => {},
            }
            i = i + 1;
        }
        let mut k: usize = 0;
        while k < self.interfaces.len()
            invariant
                k <= self.interfaces.len(),
                self.first_fault() == self.first_interface_fault(k as int, 0),
                forall|j: int| 0 <= j < self.instances@.len() ==> self.instance_fault(j) is None,
                forall|a: int, b: int|
                    0 <= a < k && 0 <= b < self.interfaces@[a].instances@.len()
                        ==> self.interface_fault(a, b) is None,
            decreases self.interfaces.len() - k,
        {
            let interface = &self.interfaces[k];
            let mut r: usize = 0;
            while r < interface.instances.len()
                invariant
                    k < self.interfaces.len(),
                    interface == &self.interfaces@[k as int],
                    r <= interface.instances.len(),
                    self.first_fault() == self.first_interface_fault(k as int, r as int),
                    forall|j: int|
                        0 <= j < self.instances@.len() ==> self.instance_fault(j) is None,
                    forall|a: int, b: int|
                        0 <= a < k && 0 <= b < self.interfaces@[a].instances@.len()
                            ==> self.interface_fault(a, b) is None,
                    forall|b: int| 0 <= b < r ==> self.interface_fault(k as int, b) is None,
                decreases interface.instances.len() - r,
            {
                let reference = &interface.instances[r];
                let fault = Fault::Reference { instance: reference.id.as_str() };
                match found_or(self.instance_by_id(reference.id.as_str()).is_some(), &fault) {
                    Err(text) => {
                        return Err(text);
                    },
                    Ok(_) => {},
                }
                r = r + 1;
            }
            k = k + 1;
        }
        assert(self.is_consistent()) by {
            assert forall|i: int| 0 <= i < self.instances@.len() implies {
                &&& self.spec_agent_ids().contains(#[trigger] self.instances@[i].agent@)
                &&& self.spec_dna_ids().contains(self.instances@[i].dna@)
            } by {
                assert(self.instance_fault(i) is None);
            }
            assert forall|i: int, r: int|
                0 <= i < self.interfaces@.len() && 0 <= r
                    < self.interfaces@[i].instances@.len() implies self.spec_instance_ids().contains(
                #[trigger] self.interfaces@[i].instances@[r].id@,
            ) by {
                assert(self.interface_fault(i, r) is None);
            }
        }
        Ok(())
    }
}

} // verus!
