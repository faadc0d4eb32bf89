use holochain_core::config::{
    AgentConfiguration, Bridge, Configuration, DNAConfiguration, InstanceConfiguration,
    InstanceReferenceConfiguration, InterfaceConfiguration, InterfaceDriver, LoggerConfiguration,
    StorageConfiguration,
};

fn agent(id: &str, key_file: &str) -> AgentConfiguration {
    AgentConfiguration { id: id.to_string(), key_file: key_file.to_string() }
}

fn dna(id: &str, file: &str, hash: &str) -> DNAConfiguration {
    DNAConfiguration { id: id.to_string(), file: file.to_string(), hash: hash.to_string() }
}

fn instance(id: &str, dna: &str, agent: &str, network: Option<&str>) -> InstanceConfiguration {
    InstanceConfiguration {
        id: id.to_string(),
        dna: dna.to_string(),
        agent: agent.to_string(),
        logger: LoggerConfiguration {
            logger_type: "simple".to_string(),
            file: Some("app_spec.log".to_string()),
        },
        storage: StorageConfiguration::File { path: "app_spec_storage".to_string() },
        network: network.map(|n| n.to_string()),
    }
}

fn interface(id: &str, driver: InterfaceDriver, instances: &[&str]) -> InterfaceConfiguration {
    InterfaceConfiguration {
        id: id.to_string(),
        driver,
        admin: false,
        instances: instances
            .iter()
            .map(|i| InstanceReferenceConfiguration { id: i.to_string() })
            .collect(),
    }
}

fn complete_config(network: Option<&str>) -> Configuration {
    Configuration {
        agents: vec![agent("test agent", "holo_tester.key")],
        dnas: vec![dna("app spec rust", "app_spec.hcpkg", "Qm328wyq38924y")],
        instances: vec![instance("app spec instance", "app spec rust", "test agent", network)],
        interfaces: vec![
            interface(
                "app spec websocket interface",
                InterfaceDriver::Websocket { port: 8888 },
                &["app spec instance"],
            ),
            interface(
                "app spec domainsocket interface",
                InterfaceDriver::DomainSocket { file: "/tmp/holochain.sock".to_string() },
                &["app spec instance"],
            ),
        ],
        bridges: vec![],
    }
}

#[test]
fn test_agent_load() {
    let config = Configuration {
        agents: vec![agent("bob", "file/to/serialize"), agent("alex", "another/file")],
        dnas: vec![dna("dna", "file.dna.json", "QmDontCare")],
        instances: vec![],
        interfaces: vec![],
        bridges: vec![],
    };
    let agents = config.agents;
    assert_eq!(agents.get(0).expect("expected at least 2 agents").id, "bob");
    assert_eq!(
        agents.get(0).expect("expected at least 2 agents").clone().key_file,
        "file/to/serialize"
    );
    assert_eq!(agents.get(1).expect("expected at least 2 agents").id, "alex");
}

#[test]
fn test_dna_load() {
    let config = Configuration {
        agents: vec![agent("agent", "whatever")],
        dnas: vec![dna("app spec rust", "app_spec.hcpkg", "Qm328wyq38924y")],
        instances: vec![],
        interfaces: vec![],
        bridges: vec![],
    };
    let dnas = config.dnas;
    let dna_config = dnas.get(0).expect("expected at least 1 DNA");
    assert_eq!(dna_config.id, "app spec rust");
    assert_eq!(dna_config.file, "app_spec.hcpkg");
    assert_eq!(dna_config.hash, "Qm328wyq38924y");
}

#[test]
fn test_load_complete_config() {
    let config = complete_config(Some("{\"backend\":\"special\"}"));

    assert_eq!(config.check_consistency(), Ok(()));
    let dnas = config.dnas;
    let dna_config = dnas.get(0).expect("expected at least 1 DNA");
    assert_eq!(dna_config.id, "app spec rust");
    assert_eq!(dna_config.file, "app_spec.hcpkg");
    assert_eq!(dna_config.hash, "Qm328wyq38924y");

    let instances = config.instances;
    let instance_config = instances.get(0).unwrap();
    assert_eq!(instance_config.network, Some("{\"backend\":\"special\"}".to_string()));
}

#[test]
fn test_load_complete_config_default_network() {
    let config = complete_config(None);

    assert_eq!(config.check_consistency(), Ok(()));
    let dnas = config.dnas;
    let dna_config = dnas.get(0).expect("expected at least 1 DNA");
    assert_eq!(dna_config.id, "app spec rust");
    assert_eq!(dna_config.file, "app_spec.hcpkg");
    assert_eq!(dna_config.hash, "Qm328wyq38924y");

    let instances = config.instances;
    let instance_config = instances.get(0).unwrap();
    assert_eq!(instance_config.id, "app spec instance");
    assert_eq!(instance_config.dna, "app spec rust");
    assert_eq!(instance_config.agent, "test agent");
    assert_eq!(instance_config.network, None);
}

#[test]
fn test_inconsistent_config() {
    let config = Configuration {
        agents: vec![agent("test agent", "holo_tester.key")],
        dnas: vec![dna("app spec rust", "app_spec.hcpkg", "Qm328wyq38924y")],
        instances: vec![instance("app spec instance", "WRONG DNA ID", "test agent", Some("{}"))],
        interfaces: vec![],
        bridges: vec![],
    };

    assert_eq!(config.check_consistency(), Err("DNA configuration \"WRONG DNA ID\" not found, mentioned in instance \"app spec instance\"".to_string()));
}

#[test]
fn test_inconsistent_config_interface_1() {
    let config = Configuration {
        agents: vec![agent("test agent", "holo_tester.key")],
        dnas: vec![dna("app spec rust", "app_spec.hcpkg", "Qm328wyq38924y")],
        instances: vec![instance("app spec instance", "app spec rust", "test agent", Some("{}"))],
        interfaces: vec![interface(
            "app spec interface",
            InterfaceDriver::Websocket { port: 8888 },
            &["WRONG INSTANCE ID"],
        )],
        bridges: vec![],
    };

    assert_eq!(
        config.check_consistency(),
        Err("Instance configuration \"WRONG INSTANCE ID\" not found, mentioned in interface"
            .to_string())
    );
}

#[test]
fn inconsistent_agent_is_reported_before_dna() {
    let config = Configuration {
        agents: vec![agent("test agent", "holo_tester.key")],
        dnas: vec![dna("app spec rust", "app_spec.hcpkg", "Qm328wyq38924y")],
        instances: vec![
            instance("good", "app spec rust", "test agent", None),
            instance("bad", "WRONG DNA ID", "nobody", None),
        ],
        interfaces: vec![interface("i", InterfaceDriver::Http { port: 80 }, &["missing"])],
        bridges: vec![],
    };
    assert_eq!(
        config.check_consistency(),
        Err("Agent configuration nobody not found, mentioned in instance bad".to_string())
    );
}

#[test]
fn default_configuration_is_empty_and_consistent() {
    let config = Configuration::default();
    assert!(config.agents.is_empty());
    assert!(config.dnas.is_empty());
    assert!(config.instances.is_empty());
    assert!(config.interfaces.is_empty());
    assert!(config.bridges.is_empty());
    assert_eq!(config.check_consistency(), Ok(()));
    assert_eq!(config.instance_ids(), Vec::<String>::new());
    let logger = LoggerConfiguration::default();
    assert_eq!(logger.logger_type, "");
    assert_eq!(logger.file, None);
}

#[test]
fn lookups_return_the_first_record_with_the_id() {
    let mut config = complete_config(None);
    config.agents.push(agent("test agent", "second.key"));
    config.bridges.push(Bridge { caller_id: "a".to_string(), callee_id: "b".to_string() });
    let found = config.agent_by_id("test agent").unwrap();
    assert_eq!(found.key_file, "holo_tester.key");
    assert!(config.agent_by_id("nobody").is_none());
    assert_eq!(config.dna_by_id("app spec rust").unwrap().hash, "Qm328wyq38924y");
    assert!(config.dna_by_id("app spec").is_none());
    assert_eq!(config.instance_by_id("app spec instance").unwrap().agent, "test agent");
    assert!(config.instance_by_id("").is_none());
    let found = config.interface_by_id("app spec domainsocket interface").unwrap();
    assert!(matches!(found.driver, InterfaceDriver::DomainSocket { ref file } if file == "/tmp/holochain.sock"));
    assert_eq!(found.instances.len(), 1);
    assert_eq!(found.instances[0].id, "app spec instance");
    assert!(config.interface_by_id("app spec").is_none());
    assert_eq!(config.instance_ids(), vec!["app spec instance".to_string()]);
    assert_eq!(config.bridges[0].clone(), Bridge { caller_id: "a".to_string(), callee_id: "b".to_string() });
}

#[test]
fn custom_driver_keeps_its_value_when_cloned() {
    let value = toml::value::Value::String("special".to_string());
    let config = interface("custom", InterfaceDriver::Custom(value.clone()), &[]);
    let copy = config.clone();
    assert!(matches!(copy.driver, InterfaceDriver::Custom(ref v) if *v == value));
    assert_eq!(copy.id, "custom");
    assert!(!copy.admin);
}

#[test]
fn cloned_configuration_holds_the_same_records() {
    let mut config = complete_config(Some("{}"));
    config.bridges.push(Bridge { caller_id: "a".to_string(), callee_id: "b".to_string() });
    let copy = config.clone();
    assert_eq!(copy.agents.len(), 1);
    assert_eq!(copy.agents[0].id, "test agent");
    assert_eq!(copy.agents[0].key_file, "holo_tester.key");
    assert_eq!(copy.dnas[0].file, "app_spec.hcpkg");
    assert_eq!(copy.instances[0].network, Some("{}".to_string()));
    assert!(matches!(copy.instances[0].storage, StorageConfiguration::File { ref path } if path == "app_spec_storage"));
    assert_eq!(copy.instances[0].logger.logger_type, "simple");
    assert_eq!(copy.interfaces.len(), 2);
    assert!(matches!(copy.interfaces[0].driver, InterfaceDriver::Websocket { port: 8888 }));
    assert_eq!(copy.interfaces[1].id, "app spec domainsocket interface");
    assert_eq!(copy.bridges, config.bridges);
    assert_eq!(copy.instance_ids(), config.instance_ids());
    assert_eq!(copy.check_consistency(), Ok(()));
}
