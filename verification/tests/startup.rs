use keylime_agent::config::{refuses_payload, runs_payload, AgentConfig};
use keylime_agent::encoding::HexError;
use keylime_agent::startup::{Failure, Outcome, StartError, Startup, Task};

fn config() -> AgentConfig {
    AgentConfig {
        enable_agent_mtls: true,
        enable_insecure_payload: false,
        payload_script: "autorun.sh".to_string(),
        run_as: "keylime:tss".to_string(),
        tpm_ownerpassword: String::new(),
        enable_iak_idevid: false,
        iak_cert: String::new(),
        idevid_cert: String::new(),
        iak_handle: String::new(),
        idevid_handle: String::new(),
        ek_handle: String::new(),
        uuid: "hash_ek".to_string(),
        agent_data_path: String::new(),
        server_key: String::new(),
        server_cert: String::new(),
        trusted_client_ca: "cacert.crt".to_string(),
        revocation_cert: "RevocationNotifier-cert.crt".to_string(),
        revocation_actions: String::new(),
        legacy_python_actions: false,
    }
}

/// Starts, with the outcome that `answer` gives and else the one that leads on.
fn start(config: AgentConfig, answer: impl Fn(Task) -> Option<Outcome>) -> (Vec<Task>, Task) {
    let mut startup = Startup::new(config);
    let mut tasks = Vec::new();
    loop {
        let task = startup.task();
        if task == Task::Serve || matches!(task, Task::Abort(_)) {
            return (tasks, task);
        }
        tasks.push(task);
        let usual = match task {
            Task::ReadEuid => Outcome::Euid(0),
            Task::ListTrustedCa => Outcome::Listed(1),
            Task::FindPythonShim
            | Task::FindIakCert
            | Task::FindIdevidCert
            | Task::FindAgentData
            | Task::ValidateAgentData
            | Task::FindServerKey
            | Task::FindServerCert
            | Task::CheckIdevid
            | Task::CheckIak => Outcome::Yes,
            Task::ReadAddress => Outcome::No,
            _ => Outcome::Done,
        };
        let outcome = answer(task).unwrap_or(usual);
        assert!(startup.takes(outcome));
        startup.step(outcome);
        assert!(tasks.len() <= 56);
    }
}

fn usual(_: Task) -> Option<Outcome> {
    None
}

fn at(task: Task, outcome: Outcome) -> impl Fn(Task) -> Option<Outcome> {
    move |t| if t == task { Some(outcome) } else { None }
}

fn devices() -> AgentConfig {
    let mut c = config();
    c.enable_iak_idevid = true;
    c.iak_cert = "iak.crt".to_string();
    c.idevid_cert = "idevid.crt".to_string();
    c
}

#[test]
fn a_plain_start() {
    let (tasks, end) = start(config(), usual);
    assert_eq!(end, Task::Serve);
    assert_eq!(
        tasks,
        vec![
            Task::MountSecureDir,
            Task::ReadEuid,
            Task::ChownMount,
            Task::DropPrivileges,
            Task::OpenTpm,
            Task::ReadTpmVendor,
            Task::ReadAlgorithms,
            Task::CreateEk,
            Task::HashEk,
            Task::CreateAk,
            Task::LoadNewAk,
            Task::CreateAgentData,
            Task::GenerateServerKey,
            Task::BuildServerCert,
            Task::ListTrustedCa,
            Task::LoadTrustedCa,
            Task::BuildTlsContext,
            Task::ReadPqCert,
            Task::Register,
            Task::ActivateCredential,
            Task::FlushEk,
            Task::ComputeTag,
            Task::SignTag,
            Task::Activate,
            Task::LogRegistration,
            Task::StartRevocation,
            Task::ReadAddress,
            Task::BindTls,
            Task::StartWorkers,
        ]
    );
}

#[test]
fn a_start_with_everything() {
    let mut c = devices();
    c.tpm_ownerpassword = "hex:0102".to_string();
    c.legacy_python_actions = true;
    c.agent_data_path = "agent_data.json".to_string();
    c.server_key = "server.key".to_string();
    c.server_cert = "server.crt".to_string();
    c.ek_handle = "0x81000000".to_string();
    c.idevid_handle = "0x81000001".to_string();
    c.iak_handle = " ".to_string();
    let (tasks, end) = start(c, usual);
    assert_eq!(end, Task::Serve);
    assert_eq!(
        tasks[5..33].to_vec(),
        vec![
            Task::ReadTpmVendor,
            Task::FindPythonShim,
            Task::MakeAuth,
            Task::SetAuth,
            Task::ReadAlgorithms,
            Task::FindIakCert,
            Task::LoadIakCertDer,
            Task::FindIdevidCert,
            Task::LoadIdevidCertDer,
            Task::ChooseTemplate,
            Task::CollectIdevid,
            Task::CheckIdevid,
            Task::RecreateIak,
            Task::CheckIak,
            Task::CreateEk,
            Task::HashEk,
            Task::FindAgentData,
            Task::LoadAgentData,
            Task::ValidateAgentData,
            Task::ExtractAk,
            Task::LoadOldAk,
            Task::CreateAgentData,
            Task::StoreAgentData,
            Task::CertifyAk,
            Task::FindServerKey,
            Task::LoadServerKey,
            Task::FindServerCert,
            Task::LoadServerCert,
        ]
    );
    assert!(!tasks.contains(&Task::FlushEk));
}

#[test]
fn no_task_comes_twice() {
    for failing in [Task::LoadIakCertDer, Task::LoadIdevidCertDer, Task::LoadOldAk] {
        let mut c = devices();
        c.agent_data_path = "agent_data.json".to_string();
        let (tasks, end) = start(c, at(failing, Outcome::Failed));
        assert_eq!(end, Task::Serve);
        for (i, task) in tasks.iter().enumerate() {
            assert!(!tasks[i + 1..].contains(task));
        }
    }
}

#[test]
fn insecure_payloads_are_refused() {
    let mut c = config();
    c.enable_agent_mtls = false;
    assert!(refuses_payload(&c));
    assert!(!runs_payload(&c));
    let (tasks, end) = start(c, usual);
    assert!(tasks.is_empty());
    assert_eq!(end, Task::Abort(Failure::InsecurePayload));
    let mut c = config();
    c.enable_agent_mtls = false;
    c.payload_script = String::new();
    assert!(!refuses_payload(&c));
    let (tasks, end) = start(c, usual);
    assert_eq!(end, Task::Serve);
    assert!(tasks.contains(&Task::BindPlain));
    assert!(!tasks.contains(&Task::BindTls));
    assert!(!tasks.contains(&Task::ListTrustedCa));
    let mut c = config();
    c.enable_agent_mtls = false;
    c.enable_insecure_payload = true;
    assert!(!refuses_payload(&c));
    assert!(runs_payload(&c));
}

#[test]
fn privileges() {
    let (tasks, end) = start(config(), at(Task::ReadEuid, Outcome::Euid(1000)));
    assert_eq!(end, Task::Abort(Failure::NotRoot));
    assert_eq!(tasks, vec![Task::MountSecureDir, Task::ReadEuid]);
    let mut c = config();
    c.run_as = String::new();
    let (tasks, end) = start(c, usual);
    assert_eq!(end, Task::Serve);
    assert!(!tasks.contains(&Task::DropPrivileges));
    let (_, end) = start(config(), at(Task::DropPrivileges, Outcome::Failed));
    assert_eq!(end, Task::Abort(Failure::RunAs));
    let (_, end) = start(config(), at(Task::ChownMount, Outcome::Failed));
    assert_eq!(end, Task::Abort(Failure::Passed));
}

#[test]
fn owner_password_is_checked_before_the_tpm_is_used() {
    let mut c = config();
    c.tpm_ownerpassword = "hex:0".to_string();
    let (tasks, end) = start(c, usual);
    assert_eq!(end, Task::Abort(Failure::OwnerPassword(HexError::OddLength)));
    assert_eq!(tasks.last(), Some(&Task::ReadTpmVendor));
    let mut c = config();
    c.tpm_ownerpassword = "secret".to_string();
    let (_, end) = start(c, at(Task::SetAuth, Outcome::Failed));
    assert_eq!(end, Task::Abort(Failure::SetAuth));
}

#[test]
fn device_identities_need_their_certificates() {
    let (_, end) = start(devices(), at(Task::FindIakCert, Outcome::No));
    assert_eq!(end, Task::Abort(Failure::NoIakCert));
    let (tasks, end) = start(devices(), at(Task::FindIdevidCert, Outcome::No));
    assert_eq!(end, Task::Abort(Failure::NoIdevidCert));
    assert_eq!(tasks.last(), Some(&Task::FlushIdevid));
    let mut c = devices();
    c.iak_cert = String::new();
    assert_eq!(start(c, usual).1, Task::Abort(Failure::NoIakCert));
    let (_, end) = start(devices(), at(Task::CheckIdevid, Outcome::No));
    assert_eq!(end, Task::Abort(Failure::IdevidMismatch));
    let (_, end) = start(devices(), at(Task::CheckIak, Outcome::No));
    assert_eq!(end, Task::Abort(Failure::IakMismatch));
    let (tasks, end) = start(devices(), at(Task::LoadIakCertDer, Outcome::Failed));
    assert_eq!(end, Task::Serve);
    assert!(tasks.contains(&Task::LoadIakCertPem));
    assert!(tasks.contains(&Task::CertifyAk));
}

#[test]
fn an_old_key_that_cannot_be_used_is_replaced() {
    let attempts = [
        (Task::FindAgentData, Outcome::No),
        (Task::LoadAgentData, Outcome::Failed),
        (Task::ValidateAgentData, Outcome::No),
        (Task::LoadOldAk, Outcome::Failed),
    ];
    for (task, outcome) in attempts {
        let mut c = config();
        c.agent_data_path = "agent_data.json".to_string();
        let (tasks, end) = start(c, at(task, outcome));
        assert_eq!(end, Task::Serve);
        assert!(tasks.contains(&Task::CreateAk));
        assert!(tasks.contains(&Task::StoreAgentData));
    }
    let mut c = config();
    c.agent_data_path = "agent_data.json".to_string();
    let (_, end) = start(c, at(Task::ExtractAk, Outcome::Failed));
    assert_eq!(end, Task::Abort(Failure::Passed));
}

#[test]
fn keys_and_certificates_that_are_missing_are_written() {
    let mut c = config();
    c.server_key = "server.key".to_string();
    c.server_cert = "server.crt".to_string();
    let (tasks, end) = start(c, |t| match t {
        Task::FindServerKey | Task::FindServerCert => Some(Outcome::No),
        Task::WriteServerKey => Some(Outcome::Failed),
        _ => None,
    });
    assert_eq!(end, Task::Serve);
    assert!(tasks.contains(&Task::WriteServerKey));
    assert!(tasks.contains(&Task::WriteServerCert));
    let mut c = config();
    c.server_cert = "server.crt".to_string();
    let (_, end) = start(c, |t| match t {
        Task::FindServerCert => Some(Outcome::No),
        Task::WriteServerCert => Some(Outcome::Failed),
        _ => None,
    });
    assert_eq!(end, Task::Abort(Failure::Passed));
}

#[test]
fn mutual_tls_needs_authorities() {
    let mut c = config();
    c.trusted_client_ca = String::new();
    assert_eq!(start(c, usual).1, Task::Abort(Failure::NoTrustedCa));
    let (_, end) = start(config(), at(Task::ListTrustedCa, Outcome::Listed(0)));
    assert_eq!(end, Task::Abort(Failure::EmptyTrustedCa));
    let (_, end) = start(config(), at(Task::ListTrustedCa, Outcome::Failed));
    assert_eq!(end, Task::Abort(Failure::Passed));
}

#[test]
fn the_last_steps() {
    assert_eq!(start(config(), at(Task::ReadPqCert, Outcome::Failed)).1, Task::Serve);
    let (_, end) = start(config(), at(Task::SignTag, Outcome::Failed));
    assert_eq!(end, Task::Abort(Failure::PqSigner));
    let mut c = config();
    c.revocation_cert = String::new();
    let (tasks, end) = start(c, usual);
    assert_eq!(end, Task::Abort(Failure::NoRevocationCert));
    assert_eq!(tasks.last(), Some(&Task::LogRegistration));
    let mut c = config();
    c.legacy_python_actions = true;
    assert_eq!(
        start(c, at(Task::FindPythonShim, Outcome::No)).1,
        Task::Abort(Failure::PythonShim)
    );
    let mut startup = Startup::new(config());
    while startup.task() != Task::ReadAddress {
        let outcome = match startup.task() {
            Task::ReadEuid => Outcome::Euid(0),
            Task::ListTrustedCa => Outcome::Listed(2),
            _ => Outcome::Done,
        };
        startup.step(outcome);
    }
    startup.step(Outcome::Yes);
    assert!(startup.known().ipv6 && startup.known().tls && startup.known().activated);
}

#[test]
fn outcomes_that_a_task_can_have() {
    let mut startup = Startup::new(config());
    assert!(startup.takes(Outcome::Done) && startup.takes(Outcome::Failed));
    assert!(!startup.takes(Outcome::Yes) && !startup.takes(Outcome::Euid(0)));
    startup.step(Outcome::Done);
    assert!(startup.task() == Task::ReadEuid);
    assert!(startup.takes(Outcome::Euid(7)));
    assert!(!startup.takes(Outcome::Done) && !startup.takes(Outcome::Listed(1)));
    startup.step(Outcome::Euid(7));
    assert!(!startup.takes(Outcome::Done) && !startup.takes(Outcome::Failed));
}

fn configuration(failure: Failure, detail: &str) -> String {
    match failure.error(detail) {
        StartError::Configuration(text) => text,
        other => panic!("{other:?}"),
    }
}

fn other(failure: Failure, detail: &str) -> String {
    match failure.error(detail) {
        StartError::Other(text) => text,
        other => panic!("{other:?}"),
    }
}

#[test]
fn errors() {
    assert!(matches!(Failure::Passed.error("x"), StartError::Passed));
    assert!(matches!(
        Failure::OwnerPassword(HexError::OddLength).error(""),
        StartError::Hex(HexError::OddLength)
    ));
    assert_eq!(
        configuration(Failure::InsecurePayload, ""),
        "The agent mTLS is disabled and 'payload_script' is not empty. To allow the agent to run, 'enable_insecure_payload' has to be set to 'True'"
    );
    assert_eq!(
        configuration(Failure::NotRoot, ""),
        "Cannot drop privileges: not enough permission"
    );
    assert_eq!(
        configuration(Failure::RunAs, ""),
        "The user running the Keylime agent should be set in keylime-agent.conf, using the parameter `run_as`, with the format `user:group`"
    );
    assert_eq!(
        configuration(Failure::PythonShim, "/usr/libexec/keylime/shim.py"),
        "Could not find python shim at /usr/libexec/keylime/shim.py"
    );
    assert_eq!(
        configuration(Failure::SetAuth, "bad auth"),
        "Failed to set TPM context password for Endorsement Hierarchy: bad auth"
    );
    assert_eq!(
        other(Failure::NoIakCert, ""),
        "IAK/IDevID enabled but cert could not be used"
    );
    assert_eq!(
        other(Failure::NoIdevidCert, ""),
        "IAK/IDevID enabled but IDevID cert could not be used"
    );
    assert_eq!(
        configuration(Failure::IdevidMismatch, ""),
        "IDevID template does not match certificate. Check template in configuration."
    );
    assert_eq!(
        other(Failure::NoIakCertToCheck, ""),
        "IAK/IDevID enabled but IAK cert could not be used"
    );
    assert_eq!(
        configuration(Failure::IakMismatch, ""),
        "IAK template does not match certificate. Check template in configuration."
    );
    assert_eq!(
        configuration(Failure::NoTrustedCa, ""),
        "Agent mTLS is enabled, but trusted_client_ca option was not provided"
    );
    assert_eq!(
        configuration(Failure::EmptyTrustedCa, ""),
        "Trusted client CA certificate list is empty: could not load any certificate"
    );
    assert_eq!(
        configuration(Failure::NotGenerated, ""),
        "IDevID and IAK are enabled but could not be generated"
    );
    assert_eq!(
        other(Failure::PqSigner, "Other(\"FATAL\")"),
        "Kernel PQ-signature module failure: Other(\"FATAL\")"
    );
    assert_eq!(
        configuration(Failure::NoRevocationCert, ""),
        "No revocation certificate set in 'revocation_cert' option"
    );
}
