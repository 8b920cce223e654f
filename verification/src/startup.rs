//! How the agent starts: which tasks it performs in which order, and on which
//! outcomes it gives up. The program around the library performs the tasks.
use vstd::prelude::*;
use vstd::string::*;

use crate::config::{
    owner_password, payload_is_insecure, read_owner_password, refuses_payload, AgentConfig,
};
use crate::encoding::HexError;
use crate::unicode::{all_whitespace, is_blank};

verus! {

/// Why the agent does not start.
#[derive(Clone, Copy, Debug, PartialEq, Eq, Structural)]
pub enum Failure {
    /// The task that was performed failed, and its error is handed on.
    Passed,
    InsecurePayload,
    NotRoot,
    RunAs,
    PythonShim,
    OwnerPassword(HexError),
    SetAuth,
    NoIakCert,
    NoIdevidCert,
    IdevidMismatch,
    NoIakCertToCheck,
    IakMismatch,
    NoTrustedCa,
    EmptyTrustedCa,
    NotGenerated,
    PqSigner,
    NoRevocationCert,
}

/// What to do next.
#[derive(Clone, Copy, Debug, PartialEq, Eq, Structural)]
pub enum Task {
    /// Mount the secure directory.
    MountSecureDir,
    /// Find out the effective user.
    ReadEuid,
    /// Give the mounted directory to the user to run as.
    ChownMount,
    /// Become the user to run as.
    DropPrivileges,
    /// Open the TPM.
    OpenTpm,
    /// Ask the TPM for its vendor.
    ReadTpmVendor,
    /// Find out whether the shim for actions in Python is installed.
    FindPythonShim,
    /// Make a TPM password of the owner password.
    MakeAuth,
    /// Set the password of the endorsement hierarchy.
    SetAuth,
    /// Read the names of the TPM's algorithms.
    ReadAlgorithms,
    /// Find out whether the file of the IAK certificate exists.
    FindIakCert,
    LoadIakCertDer,
    LoadIakCertPem,
    /// Find out whether the file of the IDevID certificate exists.
    FindIdevidCert,
    LoadIdevidCertDer,
    LoadIdevidCertPem,
    /// Choose the template of the keys by the IAK certificate and the options.
    ChooseTemplate,
    /// Make the IDevID again from its template.
    RecreateIdevid,
    /// Make room in the TPM.
    FlushIdevid,
    /// Take the persisted IDevID.
    CollectIdevid,
    /// Find out whether the IDevID is the key of its certificate.
    CheckIdevid,
    /// Make the IAK again from its template.
    RecreateIak,
    /// Take the persisted IAK.
    CollectIak,
    /// Find out whether the IAK is the key of its certificate.
    CheckIak,
    /// Create the endorsement key, or take the one of the handle.
    CreateEk,
    /// Hash the public part of the endorsement key.
    HashEk,
    /// Find out whether the file of the agent's data exists.
    FindAgentData,
    LoadAgentData,
    /// Find out whether the data belong to this key and these algorithms.
    ValidateAgentData,
    /// Take the attestation key out of the data.
    ExtractAk,
    /// Load the attestation key of the data into the TPM.
    LoadOldAk,
    /// Create a new attestation key.
    CreateAk,
    /// Load the new attestation key into the TPM.
    LoadNewAk,
    /// Gather the agent's data.
    CreateAgentData,
    StoreAgentData,
    /// Let the IAK certify the attestation key.
    CertifyAk,
    /// Find out whether the file of the server's key exists.
    FindServerKey,
    LoadServerKey,
    GenerateServerKey,
    WriteServerKey,
    /// Find out whether the file of the server's certificate exists.
    FindServerCert,
    LoadServerCert,
    BuildServerCert,
    WriteServerCert,
    /// Split the list of trusted authorities.
    ListTrustedCa,
    LoadTrustedCa,
    BuildTlsContext,
    /// Read the post-quantum certificate; an empty one stands for one that cannot
    /// be read.
    ReadPqCert,
    /// Register with the registrar.
    Register,
    /// Let the TPM decrypt the credential that the registrar sent.
    ActivateCredential,
    /// Make room in the TPM.
    FlushEk,
    /// Compute the keyed hash of the authentication tag.
    ComputeTag,
    /// Get the post-quantum signature over the authentication tag.
    SignTag,
    /// Send tag and signature to the registrar.
    Activate,
    /// Record how long the registration took.
    LogRegistration,
    /// Start the worker for revocations.
    StartRevocation,
    /// Read the IP address to listen on.
    ReadAddress,
    /// Listen with TLS.
    BindTls,
    /// Listen without TLS.
    BindPlain,
    /// Start the workers for keys and payloads.
    StartWorkers,
    /// Serve requests until a signal comes.
    Serve,
    /// Give up.
    Abort(Failure),
}

/// How a task ended.
#[derive(Clone, Copy, Debug, PartialEq, Eq, Structural)]
pub enum Outcome {
    Done,
    Failed,
    /// The answer to what a task finds out; of an address: it is an IPv6 address.
    Yes,
    No,
    /// The effective user.
    Euid(u32),
    /// The number of items in a list.
    Listed(usize),
}

/// What is known by now.
#[derive(Clone, Copy, Debug, PartialEq, Eq, Structural)]
pub struct Known {
    /// The effective user is root.
    pub root: bool,
    /// Privileges were dropped.
    pub dropped: bool,
    /// The IAK certificate is loaded.
    pub iak_cert: bool,
    /// The IDevID certificate is loaded.
    pub idevid_cert: bool,
    /// The IAK is there and is the key of its certificate.
    pub iak: bool,
    /// The IDevID is there and is the key of its certificate.
    pub idevid: bool,
    /// The attestation key is loaded.
    pub ak: bool,
    /// The IAK certified the attestation key.
    pub certified: bool,
    /// There is a TLS context.
    pub tls: bool,
    /// The registrar knows the agent.
    pub registered: bool,
    /// The registrar has seen the tag.
    pub activated: bool,
    /// The address to listen on is an IPv6 address.
    pub ipv6: bool,
}

/// An error of the agent.
#[derive(Debug)]
pub enum StartError {
    /// The error of the task that failed.
    Passed,
    Configuration(String),
    Hex(HexError),
    Other(String),
}

pub enum StartErrorModel {
    Passed,
    Configuration(Seq<char>),
    Hex(HexError),
    Other(Seq<char>),
}

impl View for StartError {
    type V = StartErrorModel;

    open spec fn view(&self) -> StartErrorModel {
        match self {
            StartError::Passed => StartErrorModel::Passed,
            StartError::Configuration(text) => StartErrorModel::Configuration(text@),
            StartError::Hex(e) => StartErrorModel::Hex(*e),
            StartError::Other(text) => StartErrorModel::Other(text@),
        }
    }
}

/// Nothing is known yet.
pub open spec fn nothing_known() -> Known {
    Known {
        root: false,
        dropped: false,
        iak_cert: false,
        idevid_cert: false,
        iak: false,
        idevid: false,
        ak: false,
        certified: false,
        tls: false,
        registered: false,
        activated: false,
        ipv6: false,
    }
}

/// The first task.
pub open spec fn first_task(config: AgentConfig) -> Task {
    if payload_is_insecure(config) {
        Task::Abort(Failure::InsecurePayload)
    } else {
        Task::MountSecureDir
    }
}

/// The privileges of root are needed to drop them; they are kept where no user to
/// run as is configured.
pub open spec fn privileges_task(config: AgentConfig, euid: u32) -> Task {
    if euid != 0 {
        Task::Abort(Failure::NotRoot)
    } else if config.run_as@.len() == 0 {
        Task::OpenTpm
    } else {
        Task::ChownMount
    }
}

/// The owner password, where there is one, is set before the algorithms are read.
pub open spec fn password_task(config: AgentConfig) -> Task {
    match owner_password(config.tpm_ownerpassword@) {
        Ok(None) => Task::ReadAlgorithms,
        Ok(Some(_)) => Task::MakeAuth,
        Err(e) => Task::Abort(Failure::OwnerPassword(e)),
    }
}

/// The certificates are looked for only if IAK and IDevID are enabled.
pub open spec fn iak_cert_task(config: AgentConfig) -> Task {
    if !config.enable_iak_idevid {
        Task::CreateEk
    } else if config.iak_cert@.len() == 0 {
        idevid_cert_task(config, false)
    } else {
        Task::FindIakCert
    }
}

/// After the IAK certificate comes the IDevID certificate.
pub open spec fn idevid_cert_task(config: AgentConfig, iak_cert: bool) -> Task {
    if config.idevid_cert@.len() == 0 {
        template_task(iak_cert)
    } else {
        Task::FindIdevidCert
    }
}

/// The template of the keys is told by the IAK certificate.
pub open spec fn template_task(iak_cert: bool) -> Task {
    if iak_cert {
        Task::ChooseTemplate
    } else {
        Task::Abort(Failure::NoIakCert)
    }
}

/// A key is made again where no handle of a persisted one is configured.
pub open spec fn idevid_task(config: AgentConfig) -> Task {
    if all_whitespace(config.idevid_handle@) {
        Task::RecreateIdevid
    } else {
        Task::CollectIdevid
    }
}

/// The IDevID is held against its certificate.
pub open spec fn check_idevid_task(known: Known) -> Task {
    if known.idevid_cert {
        Task::CheckIdevid
    } else {
        Task::Abort(Failure::NoIdevidCert)
    }
}

/// The same for the IAK.
pub open spec fn iak_task(config: AgentConfig) -> Task {
    if all_whitespace(config.iak_handle@) {
        Task::RecreateIak
    } else {
        Task::CollectIak
    }
}

/// The IAK is held against its certificate.
pub open spec fn check_iak_task(known: Known) -> Task {
    if known.iak_cert {
        Task::CheckIak
    } else {
        Task::Abort(Failure::NoIakCertToCheck)
    }
}

/// An attestation key of an earlier run is used again if it can be found.
pub open spec fn agent_data_task(config: AgentConfig) -> Task {
    if config.agent_data_path@.len() == 0 {
        Task::CreateAk
    } else {
        Task::FindAgentData
    }
}

/// The agent's data are stored only where a path is configured.
pub open spec fn store_task(config: AgentConfig) -> Task {
    if config.agent_data_path@.len() == 0 {
        certify_task(config)
    } else {
        Task::StoreAgentData
    }
}

/// The attestation key is certified if there is an IAK.
pub open spec fn certify_task(config: AgentConfig) -> Task {
    if config.enable_iak_idevid {
        Task::CertifyAk
    } else {
        server_key_task(config)
    }
}

/// The server's key comes from its file, and is generated where there is none.
pub open spec fn server_key_task(config: AgentConfig) -> Task {
    if config.server_key@.len() == 0 {
        Task::GenerateServerKey
    } else {
        Task::FindServerKey
    }
}

/// A certificate is needed for mutual TLS only.
pub open spec fn server_cert_task(config: AgentConfig) -> Task {
    if !config.enable_agent_mtls {
        Task::ReadPqCert
    } else if config.server_cert@.len() == 0 {
        Task::BuildServerCert
    } else {
        Task::FindServerCert
    }
}

/// Mutual TLS needs authorities to trust.
pub open spec fn trusted_ca_task(config: AgentConfig) -> Task {
    if config.trusted_client_ca@.len() == 0 {
        Task::Abort(Failure::NoTrustedCa)
    } else {
        Task::ListTrustedCa
    }
}

/// With IAK and IDevID enabled, all that belongs to them must be there.
pub open spec fn register_task(config: AgentConfig, known: Known) -> Task {
    if config.enable_iak_idevid && !(known.iak && known.idevid && known.certified) {
        Task::Abort(Failure::NotGenerated)
    } else {
        Task::Register
    }
}

/// An endorsement key that the agent created is flushed.
pub open spec fn flush_task(config: AgentConfig) -> Task {
    if config.ek_handle@.len() == 0 {
        Task::FlushEk
    } else {
        Task::ComputeTag
    }
}

/// Revocations are checked against a certificate.
pub open spec fn revocation_task(config: AgentConfig) -> Task {
    if config.revocation_cert@.len() == 0 {
        Task::Abort(Failure::NoRevocationCert)
    } else {
        Task::StartRevocation
    }
}

/// The server speaks TLS if mutual TLS is enabled and there is a TLS context.
pub open spec fn bind_task(config: AgentConfig, known: Known) -> Task {
    if config.enable_agent_mtls && known.tls {
        Task::BindTls
    } else {
        Task::BindPlain
    }
}

/// The outcome is one that the task can have.
pub open spec fn can_end(task: Task, outcome: Outcome) -> bool {
    match task {
        Task::Serve | Task::Abort(_) => false,
        Task::ReadEuid => outcome is Euid,
        Task::FindPythonShim
        | Task::FindIakCert
        | Task::FindIdevidCert
        | Task::FindAgentData
        | Task::ValidateAgentData
        | Task::FindServerKey
        | Task::FindServerCert => outcome is Yes || outcome is No,
        Task::CheckIdevid | Task::CheckIak | Task::ReadAddress => outcome is Yes || outcome is No
            || outcome is Failed,
        Task::ListTrustedCa => outcome is Listed || outcome is Failed,
        _ => outcome is Done || outcome is Failed,
    }
}

/// A failure of these tasks does not end the start: another way is tried, or
/// nothing depends on it. Of the others, some failures are reported in words of
/// their own.
pub open spec fn after_failure(task: Task) -> Task {
    match task {
        Task::DropPrivileges => Task::Abort(Failure::RunAs),
        Task::SetAuth => Task::Abort(Failure::SetAuth),
        Task::SignTag => Task::Abort(Failure::PqSigner),
        Task::LoadIakCertDer => Task::LoadIakCertPem,
        Task::LoadIdevidCertDer => Task::LoadIdevidCertPem,
        Task::LoadAgentData | Task::LoadOldAk => Task::CreateAk,
        _ => Task::Abort(Failure::Passed),
    }
}

/// What is known once a task is done.
pub open spec fn learned(known: Known, task: Task, outcome: Outcome) -> Known {
    let done = outcome is Done;
    let yes = outcome is Yes;
    let root = outcome == Outcome::Euid(0);
    match task {
        Task::ReadEuid => Known { root, ..known },
        Task::DropPrivileges => Known { dropped: done, ..known },
        Task::LoadIakCertDer | Task::LoadIakCertPem => Known { iak_cert: done, ..known },
        Task::LoadIdevidCertDer | Task::LoadIdevidCertPem => Known { idevid_cert: done, ..known },
        Task::CheckIdevid => Known { idevid: yes, ..known },
        Task::CheckIak => Known { iak: yes, ..known },
        Task::LoadOldAk | Task::LoadNewAk => Known { ak: done, ..known },
        Task::CertifyAk => Known { certified: done, ..known },
        Task::BuildTlsContext => Known { tls: done, ..known },
        Task::Register => Known { registered: done, ..known },
        Task::Activate => Known { activated: done, ..known },
        Task::ReadAddress => Known { ipv6: yes, ..known },
        _ => known,
    }
}

/// The task that comes next. `known` includes what the outcome has told.
pub open spec fn next_task(
    config: AgentConfig,
    known: Known,
    task: Task,
    outcome: Outcome,
) -> Task {
    let yes = outcome is Yes;
    match task {
        Task::ReadEuid => match outcome {
            Outcome::Euid(euid) => privileges_task(config, euid),
            _ => Task::Abort(Failure::Passed),
        },
        Task::ListTrustedCa => match outcome {
            Outcome::Listed(n) => if n == 0 {
                Task::Abort(Failure::EmptyTrustedCa)
            } else {
                Task::LoadTrustedCa
            },
            _ => Task::Abort(Failure::Passed),
        },
        Task::WriteServerKey => server_cert_task(config),
        Task::ReadPqCert => register_task(config, known),
        _ => if outcome is Failed {
            after_failure(task)
        } else {
            match task {
                Task::MountSecureDir => Task::ReadEuid,
                Task::ChownMount => Task::DropPrivileges,
                Task::DropPrivileges => Task::OpenTpm,
                Task::OpenTpm => Task::ReadTpmVendor,
                Task::ReadTpmVendor => if config.legacy_python_actions {
                    Task::FindPythonShim
                } else {
                    password_task(config)
                },
                Task::FindPythonShim => if yes {
                    password_task(config)
                } else {
                    Task::Abort(Failure::PythonShim)
                },
                Task::MakeAuth => Task::SetAuth,
                Task::SetAuth => Task::ReadAlgorithms,
                Task::ReadAlgorithms => iak_cert_task(config),
                Task::FindIakCert => if yes {
                    Task::LoadIakCertDer
                } else {
                    idevid_cert_task(config, known.iak_cert)
                },
                Task::LoadIakCertDer | Task::LoadIakCertPem => idevid_cert_task(
                    config,
                    known.iak_cert,
                ),
                Task::FindIdevidCert => if yes {
                    Task::LoadIdevidCertDer
                } else {
                    template_task(known.iak_cert)
                },
                Task::LoadIdevidCertDer | Task::LoadIdevidCertPem => template_task(known.iak_cert),
                Task::ChooseTemplate => idevid_task(config),
                Task::RecreateIdevid => Task::FlushIdevid,
                Task::FlushIdevid | Task::CollectIdevid => check_idevid_task(known),
                Task::CheckIdevid => if yes {
                    iak_task(config)
                } else {
                    Task::Abort(Failure::IdevidMismatch)
                },
                Task::RecreateIak | Task::CollectIak => check_iak_task(known),
                Task::CheckIak => if yes {
                    Task::CreateEk
                } else {
                    Task::Abort(Failure::IakMismatch)
                },
                Task::CreateEk => Task::HashEk,
                Task::HashEk => agent_data_task(config),
                Task::FindAgentData => if yes {
                    Task::LoadAgentData
                } else {
                    Task::CreateAk
                },
                Task::LoadAgentData => Task::ValidateAgentData,
                Task::ValidateAgentData => if yes {
                    Task::ExtractAk
                } else {
                    Task::CreateAk
                },
                Task::ExtractAk => Task::LoadOldAk,
                Task::CreateAk => Task::LoadNewAk,
                Task::LoadOldAk | Task::LoadNewAk => Task::CreateAgentData,
                Task::CreateAgentData => store_task(config),
                Task::StoreAgentData => certify_task(config),
                Task::CertifyAk => server_key_task(config),
                Task::FindServerKey => if yes {
                    Task::LoadServerKey
                } else {
                    Task::GenerateServerKey
                },
                Task::LoadServerKey => server_cert_task(config),
                Task::GenerateServerKey => if config.server_key@.len() == 0 {
                    server_cert_task(config)
                } else {
                    Task::WriteServerKey
                },
                Task::FindServerCert => if yes {
                    Task::LoadServerCert
                } else {
                    Task::BuildServerCert
                },
                Task::LoadServerCert | Task::WriteServerCert => trusted_ca_task(config),
                Task::BuildServerCert => if config.server_cert@.len() == 0 {
                    trusted_ca_task(config)
                } else {
                    Task::WriteServerCert
                },
                Task::LoadTrustedCa => Task::BuildTlsContext,
                Task::BuildTlsContext => Task::ReadPqCert,
                Task::Register => Task::ActivateCredential,
                Task::ActivateCredential => flush_task(config),
                Task::FlushEk => Task::ComputeTag,
                Task::ComputeTag => Task::SignTag,
                Task::SignTag => Task::Activate,
                Task::Activate => Task::LogRegistration,
                Task::LogRegistration => revocation_task(config),
                Task::StartRevocation => Task::ReadAddress,
                Task::ReadAddress => bind_task(config, known),
                Task::BindTls | Task::BindPlain => Task::StartWorkers,
                Task::StartWorkers => Task::Serve,
                _ => task,
            }
        },
    }
}

/// A start on its way.
#[derive(Debug)]
pub struct Startup {
    config: AgentConfig,
    /// What is known by now, and what is to be done.
    now: (Known, Task),
}

pub struct StartModel {
    pub config: AgentConfig,
    pub known: Known,
    pub task: Task,
}

impl View for Startup {
    type V = StartModel;

    closed spec fn view(&self) -> StartModel {
        StartModel { config: self.config, known: self.now.0, task: self.now.1 }
    }
}

impl Startup {
    #[verifier::type_invariant]
    spec fn valid(self) -> bool {
        consistent(self.config, self.now.0, self.now.1)
    }

    /// Begins a start.
    pub fn new(config: AgentConfig) -> (res: Startup)
        ensures
            res@.config == config,
            res@.known == nothing_known(),
            res@.task == first_task(config),
    {
        let task = if refuses_payload(&config) {
            Task::Abort(Failure::InsecurePayload)
        } else {
            Task::MountSecureDir
        };
        let known = Known {
            root: false,
            dropped: false,
            iak_cert: false,
            idevid_cert: false,
            iak: false,
            idevid: false,
            ak: false,
            certified: false,
            tls: false,
            registered: false,
            activated: false,
            ipv6: false,
        };
        Startup { config, now: (known, task) }
    }

    /// The options of the agent.
    pub fn config(&self) -> (res: &AgentConfig)
        ensures
            *res == self@.config,
    {
        &self.config
    }

    /// What is known by now.
    pub fn known(&self) -> (res: Known)
        ensures
            res == self@.known,
    {
        self.now.0
    }

    /// What is to be done now.
    pub fn task(&self) -> (res: Task)
        ensures
            res == self@.task,
            consistent(self@.config, self@.known, res),
    {
        proof {
            use_type_invariant(self);
        }
        self.now.1
    }

    /// Whether the task can end with the outcome.
    pub fn takes(&self, outcome: Outcome) -> (res: bool)
        ensures
            res == can_end(self@.task, outcome),
    {
        let (done, failed, answered) = match outcome {
            Outcome::Done => (true, false, false),
            Outcome::Failed => (false, true, false),
            Outcome::Yes | Outcome::No => (false, false, true),
            _ => (false, false, false),
        };
        match self.now.1 {
            Task::Serve | Task::Abort(_) => false,
            Task::ReadEuid => match outcome {
                Outcome::Euid(_) => true,
                _ => false,
            },
            Task::FindPythonShim
            | Task::FindIakCert
            | Task::FindIdevidCert
            | Task::FindAgentData
            | Task::ValidateAgentData
            | Task::FindServerKey
            | Task::FindServerCert => answered,
            Task::CheckIdevid | Task::CheckIak | Task::ReadAddress => answered || failed,
            Task::ListTrustedCa => match outcome {
                Outcome::Listed(_) => true,
                _ => failed,
            },
            _ => done || failed,
        }
    }

    /// Takes in how the task ended and goes on to the next one.
    pub fn step(&mut self, outcome: Outcome)
        requires
            can_end(old(self)@.task, outcome),
        ensures
            final(self)@.config == old(self)@.config,
            final(self)@.known == learned(old(self)@.known, old(self)@.task, outcome),
            final(self)@.task == next_task(
                old(self)@.config,
                final(self)@.known,
                old(self)@.task,
                outcome,
            ),
    {
        proof {
            use_type_invariant(&*self);
        }
        let (known, task) = self.now;
        let learnt = learn(known, task, outcome);
        let next = choose_task(&self.config, learnt, task, outcome);
        proof {
            lemma_stays_consistent(self.config, known, task, outcome);
        }
        self.now = (learnt, next);
    }
}

/// What is known once a task is done.
fn learn(known: Known, task: Task, outcome: Outcome) -> (res: Known)
    ensures
        res == learned(known, task, outcome),
{
    let done = match outcome {
        Outcome::Done => true,
        _ => false,
    };
    let yes = match outcome {
        Outcome::Yes => true,
        _ => false,
    };
    let root = match outcome {
        Outcome::Euid(euid) => euid == 0,
        _ => false,
    };
    match task {
        Task::ReadEuid => Known { root, ..known },
        Task::DropPrivileges => Known { dropped: done, ..known },
        Task::LoadIakCertDer | Task::LoadIakCertPem => Known { iak_cert: done, ..known },
        Task::LoadIdevidCertDer | Task::LoadIdevidCertPem => Known { idevid_cert: done, ..known },
        Task::CheckIdevid => Known { idevid: yes, ..known },
        Task::CheckIak => Known { iak: yes, ..known },
        Task::LoadOldAk | Task::LoadNewAk => Known { ak: done, ..known },
        Task::CertifyAk => Known { certified: done, ..known },
        Task::BuildTlsContext => Known { tls: done, ..known },
        Task::Register => Known { registered: done, ..known },
        Task::Activate => Known { activated: done, ..known },
        Task::ReadAddress => Known { ipv6: yes, ..known },
        _ => known,
    }
}

fn choose_privileges(config: &AgentConfig, euid: u32) -> (res: Task)
    ensures
        res == privileges_task(*config, euid),
{
    if euid != 0 {
        Task::Abort(Failure::NotRoot)
    } else if config.run_as.as_str().is_empty() {
        Task::OpenTpm
    } else {
        Task::ChownMount
    }
}

fn choose_password(config: &AgentConfig) -> (res: Task)
    ensures
        res == password_task(*config),
{
    match read_owner_password(config.tpm_ownerpassword.as_str()) {
        Ok(None) => Task::ReadAlgorithms,
        Ok(Some(_)) => Task::MakeAuth,
        Err(e) => Task::Abort(Failure::OwnerPassword(e)),
    }
}

fn choose_iak_cert(config: &AgentConfig) -> (res: Task)
    ensures
        res == iak_cert_task(*config),
{
    if !config.enable_iak_idevid {
        Task::CreateEk
    } else if config.iak_cert.as_str().is_empty() {
        choose_idevid_cert(config, false)
    } else {
        Task::FindIakCert
    }
}

fn choose_idevid_cert(config: &AgentConfig, iak_cert: bool) -> (res: Task)
    ensures
        res == idevid_cert_task(*config, iak_cert),
{
    if config.idevid_cert.as_str().is_empty() {
        choose_template(iak_cert)
    } else {
        Task::FindIdevidCert
    }
}

fn choose_template(iak_cert: bool) -> (res: Task)
    ensures
        res == template_task(iak_cert),
{
    if iak_cert {
        Task::ChooseTemplate
    } else {
        Task::Abort(Failure::NoIakCert)
    }
}

fn choose_store(config: &AgentConfig) -> (res: Task)
    ensures
        res == store_task(*config),
{
    if config.agent_data_path.as_str().is_empty() {
        choose_certify(config)
    } else {
        Task::StoreAgentData
    }
}

fn choose_certify(config: &AgentConfig) -> (res: Task)
    ensures
        res == certify_task(*config),
{
    if config.enable_iak_idevid {
        Task::CertifyAk
    } else {
        choose_server_key(config)
    }
}

fn choose_server_key(config: &AgentConfig) -> (res: Task)
    ensures
        res == server_key_task(*config),
{
    if config.server_key.as_str().is_empty() {
        Task::GenerateServerKey
    } else {
        Task::FindServerKey
    }
}

fn choose_server_cert(config: &AgentConfig) -> (res: Task)
    ensures
        res == server_cert_task(*config),
{
    if !config.enable_agent_mtls {
        Task::ReadPqCert
    } else if config.server_cert.as_str().is_empty() {
        Task::BuildServerCert
    } else {
        Task::FindServerCert
    }
}

fn choose_trusted_ca(config: &AgentConfig) -> (res: Task)
    ensures
        res == trusted_ca_task(*config),
{
    if config.trusted_client_ca.as_str().is_empty() {
        Task::Abort(Failure::NoTrustedCa)
    } else {
        Task::ListTrustedCa
    }
}

fn choose_register(config: &AgentConfig, known: Known) -> (res: Task)
    ensures
        res == register_task(*config, known),
{
    if config.enable_iak_idevid && !(known.iak && known.idevid && known.certified) {
        Task::Abort(Failure::NotGenerated)
    } else {
        Task::Register
    }
}

/// The task after one that failed.
fn choose_after_failure(task: Task) -> (res: Task)
    ensures
        res == after_failure(task),
{
    match task {
        Task::DropPrivileges => Task::Abort(Failure::RunAs),
        Task::SetAuth => Task::Abort(Failure::SetAuth),
        Task::SignTag => Task::Abort(Failure::PqSigner),
        Task::LoadIakCertDer => Task::LoadIakCertPem,
        Task::LoadIdevidCertDer => Task::LoadIdevidCertPem,
        Task::LoadAgentData | Task::LoadOldAk => Task::CreateAk,
        _ => Task::Abort(Failure::Passed),
    }
}

/// The task that comes next.
fn choose_task(config: &AgentConfig, known: Known, task: Task, outcome: Outcome) -> (res: Task)
    ensures
        res == next_task(*config, known, task, outcome),
{
    let yes = outcome == Outcome::Yes;
    match task {
        Task::ReadEuid => match outcome {
            Outcome::Euid(euid) => choose_privileges(config, euid),
            _ => Task::Abort(Failure::Passed),
        },
        Task::ListTrustedCa => match outcome {
            Outcome::Listed(n) => if n == 0 {
                Task::Abort(Failure::EmptyTrustedCa)
            } else {
                Task::LoadTrustedCa
            },
            _ => Task::Abort(Failure::Passed),
        },
        Task::WriteServerKey => choose_server_cert(config),
        Task::ReadPqCert => choose_register(config, known),
        _ => if outcome == Outcome::Failed {
            choose_after_failure(task)
        } else {
            match task {
                Task::MountSecureDir => Task::ReadEuid,
                Task::ChownMount => Task::DropPrivileges,
                Task::DropPrivileges => Task::OpenTpm,
                Task::OpenTpm => Task::ReadTpmVendor,
                Task::ReadTpmVendor => if config.legacy_python_actions {
                    Task::FindPythonShim
                } else {
                    choose_password(config)
                },
                Task::FindPythonShim => if yes {
                    choose_password(config)
                } else {
                    Task::Abort(Failure::PythonShim)
                },
                Task::MakeAuth => Task::SetAuth,
                Task::SetAuth => Task::ReadAlgorithms,
                Task::ReadAlgorithms => choose_iak_cert(config),
                Task::FindIakCert => if yes {
                    Task::LoadIakCertDer
                } else {
                    choose_idevid_cert(config, known.iak_cert)
                },
                Task::LoadIakCertDer | Task::LoadIakCertPem => choose_idevid_cert(
                    config,
                    known.iak_cert,
                ),
                Task::FindIdevidCert => if yes {
                    Task::LoadIdevidCertDer
                } else {
                    choose_template(known.iak_cert)
                },
                Task::LoadIdevidCertDer | Task::LoadIdevidCertPem => choose_template(
                    known.iak_cert,
                ),
                Task::ChooseTemplate => if is_blank(config.idevid_handle.as_str()) {
                    Task::RecreateIdevid
                } else {
                    Task::CollectIdevid
                },
                Task::RecreateIdevid => Task::FlushIdevid,
                Task::FlushIdevid | Task::CollectIdevid => if known.idevid_cert {
                    Task::CheckIdevid
                } else {
                    Task::Abort(Failure::NoIdevidCert)
                },
                Task::CheckIdevid => if !yes {
                    Task::Abort(Failure::IdevidMismatch)
                } else if is_blank(config.iak_handle.as_str()) {
                    Task::RecreateIak
                } else {
                    Task::CollectIak
                },
                Task::RecreateIak | Task::CollectIak => if known.iak_cert {
                    Task::CheckIak
                } else {
                    Task::Abort(Failure::NoIakCertToCheck)
                },
                Task::CheckIak => if yes {
                    Task::CreateEk
                } else {
                    Task::Abort(Failure::IakMismatch)
                },
                Task::CreateEk => Task::HashEk,
                Task::HashEk => if config.agent_data_path.as_str().is_empty() {
                    Task::CreateAk
                } else {
                    Task::FindAgentData
                },
                Task::FindAgentData => if yes {
                    Task::LoadAgentData
                } else {
                    Task::CreateAk
                },
                Task::LoadAgentData => Task::ValidateAgentData,
                Task::ValidateAgentData => if yes {
                    Task::ExtractAk
                } else {
                    Task::CreateAk
                },
                Task::ExtractAk => Task::LoadOldAk,
                Task::CreateAk => Task::LoadNewAk,
                Task::LoadOldAk | Task::LoadNewAk => Task::CreateAgentData,
                Task::CreateAgentData => choose_store(config),
                Task::StoreAgentData => choose_certify(config),
                Task::CertifyAk => choose_server_key(config),
                Task::FindServerKey => if yes {
                    Task::LoadServerKey
                } else {
                    Task::GenerateServerKey
                },
                Task::LoadServerKey => choose_server_cert(config),
                Task::GenerateServerKey => if config.server_key.as_str().is_empty() {
                    choose_server_cert(config)
                } else {
                    Task::WriteServerKey
                },
                Task::FindServerCert => if yes {
                    Task::LoadServerCert
                } else {
                    Task::BuildServerCert
                },
                Task::LoadServerCert | Task::WriteServerCert => choose_trusted_ca(config),
                Task::BuildServerCert => if config.server_cert.as_str().is_empty() {
                    choose_trusted_ca(config)
                } else {
                    Task::WriteServerCert
                },
                Task::LoadTrustedCa => Task::BuildTlsContext,
                Task::BuildTlsContext => Task::ReadPqCert,
                Task::Register => Task::ActivateCredential,
                Task::ActivateCredential => if config.ek_handle.as_str().is_empty() {
                    Task::FlushEk
                } else {
                    Task::ComputeTag
                },
                Task::FlushEk => Task::ComputeTag,
                Task::ComputeTag => Task::SignTag,
                Task::SignTag => Task::Activate,
                Task::Activate => Task::LogRegistration,
                Task::LogRegistration => if config.revocation_cert.as_str().is_empty() {
                    Task::Abort(Failure::NoRevocationCert)
                } else {
                    Task::StartRevocation
                },
                Task::StartRevocation => Task::ReadAddress,
                Task::ReadAddress => if config.enable_agent_mtls && known.tls {
                    Task::BindTls
                } else {
                    Task::BindPlain
                },
                Task::BindTls | Task::BindPlain => Task::StartWorkers,
                Task::StartWorkers => Task::Serve,
                _ => task,
            }
        },
    }
}

/// The error that the agent ends with. `detail` is what the failure brought with
/// it: the path of the missing shim, or the text of an error.
pub open spec fn start_error(failure: Failure, detail: Seq<char>) -> StartErrorModel {
    match failure {
        Failure::Passed => StartErrorModel::Passed,
        Failure::InsecurePayload => StartErrorModel::Configuration(
            "The agent mTLS is disabled and 'payload_script' is not empty. To allow the agent to run, 'enable_insecure_payload' has to be set to 'True'"@,
        ),
        Failure::NotRoot => StartErrorModel::Configuration(
            "Cannot drop privileges: not enough permission"@,
        ),
        Failure::RunAs => StartErrorModel::Configuration(
            "The user running the Keylime agent should be set in keylime-agent.conf, using the parameter `run_as`, with the format `user:group`"@,
        ),
        Failure::PythonShim => StartErrorModel::Configuration(
            "Could not find python shim at "@ + detail,
        ),
        Failure::OwnerPassword(e) => StartErrorModel::Hex(e),
        Failure::SetAuth => StartErrorModel::Configuration(
            "Failed to set TPM context password for Endorsement Hierarchy: "@ + detail,
        ),
        Failure::NoIakCert => StartErrorModel::Other(
            "IAK/IDevID enabled but cert could not be used"@,
        ),
        Failure::NoIdevidCert => StartErrorModel::Other(
            "IAK/IDevID enabled but IDevID cert could not be used"@,
        ),
        Failure::IdevidMismatch => StartErrorModel::Configuration(
            "IDevID template does not match certificate. Check template in configuration."@,
        ),
        Failure::NoIakCertToCheck => StartErrorModel::Other(
            "IAK/IDevID enabled but IAK cert could not be used"@,
        ),
        Failure::IakMismatch => StartErrorModel::Configuration(
            "IAK template does not match certificate. Check template in configuration."@,
        ),
        Failure::NoTrustedCa => StartErrorModel::Configuration(
            "Agent mTLS is enabled, but trusted_client_ca option was not provided"@,
        ),
        Failure::EmptyTrustedCa => StartErrorModel::Configuration(
            "Trusted client CA certificate list is empty: could not load any certificate"@,
        ),
        Failure::NotGenerated => StartErrorModel::Configuration(
            "IDevID and IAK are enabled but could not be generated"@,
        ),
        Failure::PqSigner => StartErrorModel::Other(
            "Kernel PQ-signature module failure: "@ + detail,
        ),
        Failure::NoRevocationCert => StartErrorModel::Configuration(
            "No revocation certificate set in 'revocation_cert' option"@,
        ),
    }
}

/// One text behind the other.
fn joined_text(head: &str, tail: &str) -> (res: String)
    ensures
        res@ == head@ + tail@,
{
    let mut res = head.to_owned();
    res.append(tail);
    res
}

impl Failure {
    /// The error that the agent ends with.
    pub fn error(self, detail: &str) -> (res: StartError)
        ensures
            res@ == start_error(self, detail@),
    {
        match self {
            Failure::Passed => StartError::Passed,
            Failure::InsecurePayload => StartError::Configuration(
                "The agent mTLS is disabled and 'payload_script' is not empty. To allow the agent to run, 'enable_insecure_payload' has to be set to 'True'".to_owned(),
            ),
            Failure::NotRoot => StartError::Configuration(
                "Cannot drop privileges: not enough permission".to_owned(),
            ),
            Failure::RunAs => StartError::Configuration(
                "The user running the Keylime agent should be set in keylime-agent.conf, using the parameter `run_as`, with the format `user:group`".to_owned(),
            ),
            Failure::PythonShim => StartError::Configuration(
                joined_text("Could not find python shim at ", detail),
            ),
            Failure::OwnerPassword(e) => StartError::Hex(e),
            Failure::SetAuth => StartError::Configuration(
                joined_text(
                    "Failed to set TPM context password for Endorsement Hierarchy: ",
                    detail,
                ),
            ),
            Failure::NoIakCert => StartError::Other(
                "IAK/IDevID enabled but cert could not be used".to_owned(),
            ),
            Failure::NoIdevidCert => StartError::Other(
                "IAK/IDevID enabled but IDevID cert could not be used".to_owned(),
            ),
            Failure::IdevidMismatch => StartError::Configuration(
                "IDevID template does not match certificate. Check template in configuration.".to_owned(),
            ),
            Failure::NoIakCertToCheck => StartError::Other(
                "IAK/IDevID enabled but IAK cert could not be used".to_owned(),
            ),
            Failure::IakMismatch => StartError::Configuration(
                "IAK template does not match certificate. Check template in configuration.".to_owned(),
            ),
            Failure::NoTrustedCa => StartError::Configuration(
                "Agent mTLS is enabled, but trusted_client_ca option was not provided".to_owned(),
            ),
            Failure::EmptyTrustedCa => StartError::Configuration(
                "Trusted client CA certificate list is empty: could not load any certificate".to_owned(),
            ),
            Failure::NotGenerated => StartError::Configuration(
                "IDevID and IAK are enabled but could not be generated".to_owned(),
            ),
            Failure::PqSigner => StartError::Other(
                joined_text("Kernel PQ-signature module failure: ", detail),
            ),
            Failure::NoRevocationCert => StartError::Configuration(
                "No revocation certificate set in 'revocation_cert' option".to_owned(),
            ),
        }
    }
}

/// The position of a task in the order of the start.
pub open spec fn rank(task: Task) -> nat {
    match task {
        Task::MountSecureDir => 0,
        Task::ReadEuid => 1,
        Task::ChownMount => 2,
        Task::DropPrivileges => 3,
        Task::OpenTpm => 4,
        Task::ReadTpmVendor => 5,
        Task::FindPythonShim => 6,
        Task::MakeAuth => 7,
        Task::SetAuth => 8,
        Task::ReadAlgorithms => 9,
        Task::FindIakCert => 10,
        Task::LoadIakCertDer => 11,
        Task::LoadIakCertPem => 12,
        Task::FindIdevidCert => 13,
        Task::LoadIdevidCertDer => 14,
        Task::LoadIdevidCertPem => 15,
        Task::ChooseTemplate => 16,
        Task::RecreateIdevid => 17,
        Task::FlushIdevid => 18,
        Task::CollectIdevid => 18,
        Task::CheckIdevid => 19,
        Task::RecreateIak => 20,
        Task::CollectIak => 20,
        Task::CheckIak => 21,
        Task::CreateEk => 22,
        Task::HashEk => 23,
        Task::FindAgentData => 24,
        Task::LoadAgentData => 25,
        Task::ValidateAgentData => 26,
        Task::ExtractAk => 27,
        Task::LoadOldAk => 28,
        Task::CreateAk => 29,
        Task::LoadNewAk => 30,
        Task::CreateAgentData => 31,
        Task::StoreAgentData => 32,
        Task::CertifyAk => 33,
        Task::FindServerKey => 34,
        Task::LoadServerKey => 35,
        Task::GenerateServerKey => 35,
        Task::WriteServerKey => 36,
        Task::FindServerCert => 37,
        Task::LoadServerCert => 38,
        Task::BuildServerCert => 38,
        Task::WriteServerCert => 39,
        Task::ListTrustedCa => 40,
        Task::LoadTrustedCa => 41,
        Task::BuildTlsContext => 42,
        Task::ReadPqCert => 43,
        Task::Register => 44,
        Task::ActivateCredential => 45,
        Task::FlushEk => 46,
        Task::ComputeTag => 47,
        Task::SignTag => 48,
        Task::Activate => 49,
        Task::LogRegistration => 50,
        Task::StartRevocation => 51,
        Task::ReadAddress => 52,
        Task::BindTls => 53,
        Task::BindPlain => 53,
        Task::StartWorkers => 54,
        Task::Serve => 55,
        Task::Abort(_) => 56,
    }
}

/// What holds whenever a task is to be done.
pub open spec fn consistent(config: AgentConfig, known: Known, task: Task) -> bool {
    let at = rank(task);
    let going = !(task is Abort);
    let device_id = config.enable_iak_idevid;
    &&& going ==> !payload_is_insecure(config)
    &&& going && at > rank(Task::ReadEuid) ==> known.root
    &&& at <= rank(Task::DropPrivileges) ==> !known.dropped
    &&& task is ChownMount || task is DropPrivileges ==> config.run_as@.len() > 0
    &&& going && at > rank(Task::DropPrivileges) ==> (known.dropped <==> config.run_as@.len() > 0)
    &&& rank(Task::ReadAlgorithms) < at < rank(Task::CreateEk) ==> device_id
    &&& going && at >= rank(Task::ChooseTemplate) && device_id ==> known.iak_cert
    &&& going && at >= rank(Task::CheckIdevid) && device_id ==> known.idevid_cert
    &&& going && at > rank(Task::CheckIdevid) && device_id ==> known.idevid
    &&& going && at > rank(Task::CheckIak) && device_id ==> known.iak
    &&& going && at > rank(Task::LoadNewAk) ==> known.ak
    &&& going && at > rank(Task::CertifyAk) && device_id ==> known.certified
    &&& rank(Task::FindServerCert) <= at < rank(Task::ReadPqCert) ==> config.enable_agent_mtls
    &&& rank(Task::ListTrustedCa) <= at < rank(Task::ReadPqCert)
        ==> config.trusted_client_ca@.len() > 0
    &&& at < rank(Task::ReadPqCert) ==> !known.tls
    &&& going && at >= rank(Task::ReadPqCert) ==> (known.tls <==> config.enable_agent_mtls)
    &&& going && at >= rank(Task::ReadPqCert) && config.enable_agent_mtls
        ==> config.trusted_client_ca@.len() > 0
    &&& going && at > rank(Task::Register) ==> known.registered
    &&& going && at > rank(Task::Activate) ==> known.activated
    &&& going && at > rank(Task::LogRegistration) ==> config.revocation_cert@.len() > 0
    &&& task is BindTls ==> config.enable_agent_mtls
    &&& task is BindPlain ==> !config.enable_agent_mtls
    &&& task != Task::Abort(Failure::NotGenerated)
    &&& task != Task::Abort(Failure::NoIakCertToCheck)
}

/// A start stays consistent with every task.
#[verifier::spinoff_prover]
#[verifier::rlimit(60)]
proof fn lemma_stays_consistent(config: AgentConfig, known: Known, task: Task, outcome: Outcome)
    requires
        consistent(config, known, task),
        can_end(task, outcome),
    ensures
        consistent(
            config,
            learned(known, task, outcome),
            next_task(config, learned(known, task, outcome), task, outcome),
        ),
{
}

/// What is known, and what is to be done, after tasks that ended with `outcomes`.
pub open spec fn after(config: AgentConfig, outcomes: Seq<Outcome>) -> (Known, Task)
    decreases outcomes.len(),
{
    if outcomes.len() == 0 {
        (nothing_known(), first_task(config))
    } else {
        let (known, task) = after(config, outcomes.drop_last());
        let now = learned(known, task, outcomes.last());
        (now, next_task(config, now, task, outcomes.last()))
    }
}

/// The tasks of a start can end with `outcomes`, one after the other.
pub open spec fn possible(config: AgentConfig, outcomes: Seq<Outcome>) -> bool
    decreases outcomes.len(),
{
    outcomes.len() > 0 ==> possible(config, outcomes.drop_last()) && can_end(
        after(config, outcomes.drop_last()).1,
        outcomes.last(),
    )
}

/// Whatever the outcomes, a start is consistent at each of its tasks. In
/// particular it never fails for want of keys that it has already checked.
pub proof fn law_start_is_consistent(config: AgentConfig, outcomes: Seq<Outcome>)
    requires
        possible(config, outcomes),
    ensures
        consistent(config, after(config, outcomes).0, after(config, outcomes).1),
    decreases outcomes.len(),
{
    if outcomes.len() > 0 {
        law_start_is_consistent(config, outcomes.drop_last());
        let (known, task) = after(config, outcomes.drop_last());
        lemma_stays_consistent(config, known, task, outcomes.last());
    }
}

/// Every task leads further, so no task comes twice.
pub proof fn law_start_goes_forward(
    config: AgentConfig,
    known: Known,
    task: Task,
    outcome: Outcome,
)
    requires
        can_end(task, outcome),
    ensures
        rank(next_task(config, known, task, outcome)) > rank(task),
{
}

/// A start is over after at most as many tasks as there are positions.
pub proof fn law_start_ends(config: AgentConfig, outcomes: Seq<Outcome>)
    requires
        possible(config, outcomes),
    ensures
        outcomes.len() <= rank(after(config, outcomes).1) <= 56,
    decreases outcomes.len(),
{
    if outcomes.len() > 0 {
        law_start_ends(config, outcomes.drop_last());
        let (known, task) = after(config, outcomes.drop_last());
        law_start_goes_forward(
            config,
            learned(known, task, outcomes.last()),
            task,
            outcomes.last(),
        );
    }
}

/// An agent that serves was started by root and dropped its privileges if it was
/// told to; it has an attestation key, certified by a checked IAK if device
/// identities are enabled; it is registered and activated; and it speaks TLS
/// exactly if mutual TLS is enabled, without which no payload script is set
/// unless insecure payloads are allowed.
pub proof fn law_serving_agent(config: AgentConfig, outcomes: Seq<Outcome>)
    requires
        possible(config, outcomes),
        after(config, outcomes).1 is Serve,
    ensures
        ({
            let known = after(config, outcomes).0;
            &&& known.root
            &&& known.dropped <==> config.run_as@.len() > 0
            &&& known.ak
            &&& config.enable_iak_idevid ==> known.idevid && known.iak && known.certified
            &&& known.registered && known.activated
            &&& known.tls <==> config.enable_agent_mtls
            &&& config.enable_agent_mtls ==> config.trusted_client_ca@.len() > 0
            &&& config.enable_agent_mtls || config.enable_insecure_payload
                || config.payload_script@.len() == 0
            &&& config.revocation_cert@.len() > 0
        }),
{
    law_start_is_consistent(config, outcomes);
}

/// A payload script that is not allowed stops the start before any task.
pub proof fn law_insecure_payload_starts_nothing(config: AgentConfig)
    requires
        payload_is_insecure(config),
    ensures
        first_task(config) == Task::Abort(Failure::InsecurePayload),
{
}

} // verus!
