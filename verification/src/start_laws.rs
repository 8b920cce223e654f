//! When each task of a start comes. The laws go by the task that comes: each names
//! all outcomes after which it comes, and there are no others.
use vstd::prelude::*;

use crate::config::{owner_password, payload_is_insecure, AgentConfig};
use crate::encoding::HexError;
use crate::startup::{
    after, can_end, first_task, law_start_goes_forward, learned, next_task, possible, rank,
    start_error, Failure, Known, Outcome, StartError, StartErrorModel, Task,
};
use crate::unicode::all_whitespace;

verus! {

/// A start begins with the secure directory, unless a payload script is set that
/// may not run.
pub proof fn law_first_task(config: AgentConfig)
    ensures
        ({
            let may_run = config.enable_agent_mtls || config.enable_insecure_payload
                || config.payload_script@.len() == 0;
            first_task(config) == if may_run {
                Task::MountSecureDir
            } else {
                Task::Abort(Failure::InsecurePayload)
            }
        }),
{
}

/// Privileges: only root may start the agent. The directory is given away, and the
/// privileges are dropped, exactly if a user to run as is configured.
pub proof fn law_when_privileges_are_dropped(
    config: AgentConfig,
    known: Known,
    task: Task,
    outcome: Outcome,
)
    requires
        can_end(task, outcome),
    ensures
        ({
            let next = next_task(config, known, task, outcome);
            let done = outcome is Done;
            let as_root = task is ReadEuid && outcome == Outcome::Euid(0);
            let stay = config.run_as@.len() == 0;
            &&& !(next is MountSecureDir)
            &&& next is ReadEuid <==> task is MountSecureDir && done
            &&& next is ChownMount <==> as_root && !stay
            &&& next is DropPrivileges <==> task is ChownMount && done
            &&& next is OpenTpm <==> (as_root && stay) || (task is DropPrivileges && done)
            &&& next is ReadTpmVendor <==> task is OpenTpm && done
            &&& next == Task::Abort(Failure::NotRoot) <==> task is ReadEuid && !as_root
        }),
{
}

/// The owner password: it is set before the algorithms are read, exactly if there
/// is one. One that cannot be read ends the start. Where actions in Python are
/// supported, their shim must be there before that.
pub proof fn law_when_the_password_is_set(
    config: AgentConfig,
    known: Known,
    task: Task,
    outcome: Outcome,
    e: HexError,
)
    requires
        can_end(task, outcome),
    ensures
        ({
            let next = next_task(config, known, task, outcome);
            let done = outcome is Done;
            let password = owner_password(config.tpm_ownerpassword@);
            let vendor_read = task is ReadTpmVendor && done;
            let ready = (vendor_read && !config.legacy_python_actions) || (task is FindPythonShim
                && outcome is Yes);
            &&& next is FindPythonShim <==> vendor_read && config.legacy_python_actions
            &&& next == Task::Abort(Failure::PythonShim) <==> task is FindPythonShim
                && outcome is No
            &&& next is MakeAuth <==> ready && password is Ok && password->Ok_0 is Some
            &&& next is SetAuth <==> task is MakeAuth && done
            &&& next is ReadAlgorithms <==> (ready && password is Ok && password->Ok_0 is None) || (
            task is SetAuth && done)
            &&& next == Task::Abort(Failure::OwnerPassword(e)) <==> ready && password == Err::<
                Option<Seq<u8>>,
                HexError,
            >(e)
        }),
{
}

/// The certificates of IAK and IDevID: they are looked for exactly if device
/// identities are enabled and a path is set, first the one and then the other, each
/// as DER and, if that fails, as PEM. Without the IAK certificate the start ends.
pub proof fn law_when_device_certificates_are_loaded(
    config: AgentConfig,
    known: Known,
    task: Task,
    outcome: Outcome,
)
    requires
        can_end(task, outcome),
    ensures
        ({
            let next = next_task(config, known, task, outcome);
            let (done, failed) = (outcome is Done, outcome is Failed);
            let (yes, no) = (outcome is Yes, outcome is No);
            let wanted = task is ReadAlgorithms && done && config.enable_iak_idevid;
            let iak_set = config.iak_cert@.len() > 0;
            let idevid_set = config.idevid_cert@.len() > 0;
            let iak_loaded = (task is LoadIakCertDer || task is LoadIakCertPem) && done;
            let iak_over = (wanted && !iak_set) || (task is FindIakCert && no) || iak_loaded;
            let idevid_over = (iak_over && !idevid_set) || (task is FindIdevidCert && no) || ((
            task is LoadIdevidCertDer || task is LoadIdevidCertPem) && done);
            let have_iak_cert = known.iak_cert && !wanted;
            &&& next is FindIakCert <==> wanted && iak_set
            &&& next is LoadIakCertDer <==> task is FindIakCert && yes
            &&& next is LoadIakCertPem <==> task is LoadIakCertDer && failed
            &&& next is FindIdevidCert <==> iak_over && idevid_set
            &&& next is LoadIdevidCertDer <==> task is FindIdevidCert && yes
            &&& next is LoadIdevidCertPem <==> task is LoadIdevidCertDer && failed
            &&& next is ChooseTemplate <==> idevid_over && have_iak_cert
            &&& next == Task::Abort(Failure::NoIakCert) <==> idevid_over && !have_iak_cert
        }),
{
}

/// IDevID and IAK: each is made again where no handle is set, and else collected;
/// each is held against its certificate, and one that is not the certificate's key
/// ends the start.
pub proof fn law_when_device_keys_are_checked(
    config: AgentConfig,
    known: Known,
    task: Task,
    outcome: Outcome,
)
    requires
        can_end(task, outcome),
    ensures
        ({
            let next = next_task(config, known, task, outcome);
            let done = outcome is Done;
            let (yes, no) = (outcome is Yes, outcome is No);
            let chosen = task is ChooseTemplate && done;
            let idevid_there = (task is FlushIdevid || task is CollectIdevid) && done;
            let iak_there = (task is RecreateIak || task is CollectIak) && done;
            &&& next is RecreateIdevid <==> chosen && all_whitespace(config.idevid_handle@)
            &&& next is CollectIdevid <==> chosen && !all_whitespace(config.idevid_handle@)
            &&& next is FlushIdevid <==> task is RecreateIdevid && done
            &&& next is CheckIdevid <==> idevid_there && known.idevid_cert
            &&& next == Task::Abort(Failure::NoIdevidCert) <==> idevid_there && !known.idevid_cert
            &&& next == Task::Abort(Failure::IdevidMismatch) <==> task is CheckIdevid && no
            &&& next is RecreateIak <==> task is CheckIdevid && yes && all_whitespace(
                config.iak_handle@,
            )
            &&& next is CollectIak <==> task is CheckIdevid && yes && !all_whitespace(
                config.iak_handle@,
            )
            &&& next is CheckIak <==> iak_there && known.iak_cert
            &&& next == Task::Abort(Failure::NoIakCertToCheck) <==> iak_there && !known.iak_cert
            &&& next == Task::Abort(Failure::IakMismatch) <==> task is CheckIak && no
        }),
{
}

/// The attestation key: one of an earlier run is used if it is found, loaded, valid
/// and taken by the TPM; in every other case a new one is created. The agent's data
/// are stored exactly if a path is set, and the key is certified exactly if device
/// identities are enabled.
pub proof fn law_when_the_attestation_key_is_made(
    config: AgentConfig,
    known: Known,
    task: Task,
    outcome: Outcome,
)
    requires
        can_end(task, outcome),
    ensures
        ({
            let next = next_task(config, known, task, outcome);
            let (done, failed) = (outcome is Done, outcome is Failed);
            let (yes, no) = (outcome is Yes, outcome is No);
            let hashed = task is HashEk && done;
            let path_set = config.agent_data_path@.len() > 0;
            let stored = (task is StoreAgentData && done) || (task is CreateAgentData && done
                && !path_set);
            &&& next is CreateEk <==> (task is ReadAlgorithms && done && !config.enable_iak_idevid)
                || (task is CheckIak && yes)
            &&& next is HashEk <==> task is CreateEk && done
            &&& next is FindAgentData <==> hashed && path_set
            &&& next is LoadAgentData <==> task is FindAgentData && yes
            &&& next is ValidateAgentData <==> task is LoadAgentData && done
            &&& next is ExtractAk <==> task is ValidateAgentData && yes
            &&& next is LoadOldAk <==> task is ExtractAk && done
            &&& next is CreateAk <==> (hashed && !path_set) || (task is FindAgentData && no) || (
            task is LoadAgentData && failed) || (task is ValidateAgentData && no) || (
            task is LoadOldAk && failed)
            &&& next is LoadNewAk <==> task is CreateAk && done
            &&& next is CreateAgentData <==> (task is LoadOldAk || task is LoadNewAk) && done
            &&& next is StoreAgentData <==> task is CreateAgentData && done && path_set
            &&& next is CertifyAk <==> stored && config.enable_iak_idevid
        }),
{
}

/// The server's key: it is looked for exactly if a path is set, whatever the other
/// options are. One that is found is loaded; a new one is generated only where no
/// path is set or none is found, and is written only to a path that is set.
pub proof fn law_when_the_server_key_is_generated(
    config: AgentConfig,
    known: Known,
    task: Task,
    outcome: Outcome,
)
    requires
        can_end(task, outcome),
    ensures
        ({
            let next = next_task(config, known, task, outcome);
            let done = outcome is Done;
            let key_set = config.server_key@.len() > 0;
            let stored = (task is StoreAgentData && done) || (task is CreateAgentData && done
                && config.agent_data_path@.len() == 0);
            let key_wanted = (stored && !config.enable_iak_idevid) || (task is CertifyAk && done);
            &&& next is FindServerKey <==> key_wanted && key_set
            &&& next is LoadServerKey <==> task is FindServerKey && outcome is Yes
            &&& next is GenerateServerKey <==> (key_wanted && !key_set) || (task is FindServerKey
                && outcome is No)
            &&& next is WriteServerKey <==> task is GenerateServerKey && done && key_set
        }),
{
}

/// The server's certificate and the authorities: all of it comes exactly if mutual
/// TLS is enabled. A certificate that is found is loaded; one is built where no path
/// is set or none is found, and is written only to a path that is set. Without
/// authorities to trust the start ends.
pub proof fn law_when_mutual_tls_is_set_up(
    config: AgentConfig,
    known: Known,
    task: Task,
    outcome: Outcome,
)
    requires
        can_end(task, outcome),
    ensures
        ({
            let next = next_task(config, known, task, outcome);
            let done = outcome is Done;
            let cert_set = config.server_cert@.len() > 0;
            let ca_set = config.trusted_client_ca@.len() > 0;
            let key_there = (task is LoadServerKey && done) || (task is GenerateServerKey && done
                && config.server_key@.len() == 0) || task is WriteServerKey;
            let cert_there = ((task is LoadServerCert || task is WriteServerCert) && done) || (
            task is BuildServerCert && done && !cert_set);
            let listed = task is ListTrustedCa && outcome is Listed;
            &&& next is FindServerCert <==> key_there && config.enable_agent_mtls && cert_set
            &&& next is LoadServerCert <==> task is FindServerCert && outcome is Yes
            &&& next is BuildServerCert <==> (key_there && config.enable_agent_mtls && !cert_set)
                || (task is FindServerCert && outcome is No)
            &&& next is WriteServerCert <==> task is BuildServerCert && done && cert_set
            &&& next is ListTrustedCa <==> cert_there && ca_set
            &&& next == Task::Abort(Failure::NoTrustedCa) <==> cert_there && !ca_set
            &&& next is LoadTrustedCa <==> listed && outcome != Outcome::Listed(0)
            &&& next == Task::Abort(Failure::EmptyTrustedCa) <==> listed && outcome
                == Outcome::Listed(0)
            &&& next is BuildTlsContext <==> task is LoadTrustedCa && done
            &&& next is ReadPqCert <==> (key_there && !config.enable_agent_mtls) || (
            task is BuildTlsContext && done)
        }),
{
}

/// Registration: it comes after the post-quantum certificate, read or not, and with
/// device identities enabled only if IAK, IDevID and certification are there. Then
/// the credential, the endorsement key that the agent made itself, the tag, its
/// signature, the activation and the record follow, one after the other.
pub proof fn law_when_the_agent_registers(
    config: AgentConfig,
    known: Known,
    task: Task,
    outcome: Outcome,
)
    requires
        can_end(task, outcome),
    ensures
        ({
            let next = next_task(config, known, task, outcome);
            let done = outcome is Done;
            let complete = !config.enable_iak_idevid || (known.iak && known.idevid
                && known.certified);
            let own_ek = config.ek_handle@.len() == 0;
            let credential = task is ActivateCredential && done;
            &&& next is Register <==> task is ReadPqCert && complete
            &&& next == Task::Abort(Failure::NotGenerated) <==> task is ReadPqCert && !complete
            &&& next is ActivateCredential <==> task is Register && done
            &&& next is FlushEk <==> credential && own_ek
            &&& next is ComputeTag <==> (credential && !own_ek) || (task is FlushEk && done)
            &&& next is SignTag <==> task is ComputeTag && done
            &&& next is Activate <==> task is SignTag && done
            &&& next is LogRegistration <==> task is Activate && done
        }),
{
}

/// Serving: it comes after the worker for revocations, which needs a certificate,
/// the address and the workers. The server speaks TLS exactly if mutual TLS is
/// enabled and there is a context for it.
pub proof fn law_when_the_agent_serves(
    config: AgentConfig,
    known: Known,
    task: Task,
    outcome: Outcome,
)
    requires
        can_end(task, outcome),
    ensures
        ({
            let next = next_task(config, known, task, outcome);
            let done = outcome is Done;
            let logged = task is LogRegistration && done;
            let cert_set = config.revocation_cert@.len() > 0;
            let addressed = task is ReadAddress && !(outcome is Failed);
            let tls = config.enable_agent_mtls && known.tls;
            &&& next is StartRevocation <==> logged && cert_set
            &&& next == Task::Abort(Failure::NoRevocationCert) <==> logged && !cert_set
            &&& next is ReadAddress <==> task is StartRevocation && done
            &&& next is BindTls <==> addressed && tls
            &&& next is BindPlain <==> addressed && !tls
            &&& next is StartWorkers <==> (task is BindTls || task is BindPlain) && done
            &&& next is Serve <==> task is StartWorkers && done
        }),
{
}

/// Failures: that of a task ends the start with the task's own error, but for a few.
/// Dropping the privileges, setting the password and signing the tag have errors in
/// other words; certificates have another form, and an old key has a new one in its
/// place; and nothing depends on writing the server's key or on the post-quantum
/// certificate. A payload script is never an error later on.
pub proof fn law_when_a_failure_ends_the_start(
    config: AgentConfig,
    known: Known,
    task: Task,
    outcome: Outcome,
)
    requires
        can_end(task, outcome),
    ensures
        ({
            let next = next_task(config, known, task, outcome);
            let failed = outcome is Failed;
            &&& next == Task::Abort(Failure::RunAs) <==> task is DropPrivileges && failed
            &&& next == Task::Abort(Failure::SetAuth) <==> task is SetAuth && failed
            &&& next == Task::Abort(Failure::PqSigner) <==> task is SignTag && failed
            &&& next == Task::Abort(Failure::Passed) <==> failed && !(task is DropPrivileges
                || task is SetAuth || task is SignTag || task is LoadIakCertDer
                || task is LoadIdevidCertDer || task is LoadAgentData || task is LoadOldAk
                || task is WriteServerKey || task is ReadPqCert)
            &&& next != Task::Abort(Failure::InsecurePayload)
        }),
{
}

/// What an outcome tells, and that nothing else changes what is known.
pub proof fn law_what_outcomes_tell(known: Known, task: Task, outcome: Outcome)
    ensures
        ({
            let now = learned(known, task, outcome);
            let (done, yes) = (outcome is Done, outcome is Yes);
            let iak_cert = task is LoadIakCertDer || task is LoadIakCertPem;
            let idevid_cert = task is LoadIdevidCertDer || task is LoadIdevidCertPem;
            let ak = task is LoadOldAk || task is LoadNewAk;
            &&& now.root == if task is ReadEuid { outcome == Outcome::Euid(0) } else { known.root }
            &&& now.dropped == if task is DropPrivileges { done } else { known.dropped }
            &&& now.iak_cert == if iak_cert { done } else { known.iak_cert }
            &&& now.idevid_cert == if idevid_cert { done } else { known.idevid_cert }
            &&& now.iak == if task is CheckIak { yes } else { known.iak }
            &&& now.idevid == if task is CheckIdevid { yes } else { known.idevid }
            &&& now.ak == if ak { done } else { known.ak }
            &&& now.certified == if task is CertifyAk { done } else { known.certified }
            &&& now.tls == if task is BuildTlsContext { done } else { known.tls }
            &&& now.registered == if task is Register { done } else { known.registered }
            &&& now.activated == if task is Activate { done } else { known.activated }
            &&& now.ipv6 == if task is ReadAddress { yes } else { known.ipv6 }
        }),
{
}

/// The outcomes that a task can have: what looks something up tells yes or no, what
/// checks or reads may fail as well, the user and the list are told as such, and
/// every other task is done or fails. The last task has none.
pub proof fn law_outcomes_of_tasks(task: Task, euid: u32, listed: usize)
    ensures
        ({
            let ended = task is Serve || task is Abort;
            let looks = task is FindPythonShim || task is FindIakCert || task is FindIdevidCert
                || task is FindAgentData || task is ValidateAgentData || task is FindServerKey
                || task is FindServerCert;
            let checks = task is CheckIdevid || task is CheckIak || task is ReadAddress;
            let plain = !ended && !looks && !checks && !(task is ReadEuid)
                && !(task is ListTrustedCa);
            &&& can_end(task, Outcome::Done) <==> plain
            &&& can_end(task, Outcome::Failed) <==> plain || checks || task is ListTrustedCa
            &&& can_end(task, Outcome::Yes) <==> looks || checks
            &&& can_end(task, Outcome::No) <==> looks || checks
            &&& can_end(task, Outcome::Euid(euid)) <==> task is ReadEuid
            &&& can_end(task, Outcome::Listed(listed)) <==> task is ListTrustedCa
        }),
{
}

/// Nothing is known at first, and the first task is the one that comes with no
/// outcome yet.
pub proof fn law_nothing_is_known_at_first(config: AgentConfig)
    ensures
        after(config, Seq::empty()).1 == first_task(config),
        ({
            let known = after(config, Seq::empty()).0;
            &&& !known.root && !known.dropped
            &&& !known.iak_cert && !known.idevid_cert && !known.iak && !known.idevid
            &&& !known.ak && !known.certified && !known.tls
            &&& !known.registered && !known.activated && !known.ipv6
        }),
        first_task(config) is Abort <==> payload_is_insecure(config),
{
}

/// Once the server's key is found it is kept: the next task loads it, and none that
/// comes later generates or writes one.
pub proof fn law_found_server_key_is_kept(
    config: AgentConfig,
    outcomes: Seq<Outcome>,
    found: int,
    later: int,
)
    requires
        possible(config, outcomes),
        0 <= found < later <= outcomes.len(),
        after(config, outcomes.take(found)).1 is FindServerKey,
        outcomes[found] is Yes,
    ensures
        later == found + 1 ==> after(config, outcomes.take(later)).1 is LoadServerKey,
        !(after(config, outcomes.take(later)).1 is GenerateServerKey),
        !(after(config, outcomes.take(later)).1 is WriteServerKey),
{
    lemma_found_key(config, outcomes, found, later);
}

proof fn lemma_found_key(config: AgentConfig, outcomes: Seq<Outcome>, found: int, later: int)
    requires
        possible(config, outcomes),
        0 <= found < later <= outcomes.len(),
        after(config, outcomes.take(found)).1 is FindServerKey,
        outcomes[found] is Yes,
    ensures
        later == found + 1 ==> after(config, outcomes.take(later)).1 is LoadServerKey,
        after(config, outcomes.take(later)).1 is LoadServerKey || rank(
            after(config, outcomes.take(later)).1,
        ) > rank(Task::WriteServerKey),
    decreases later,
{
    let upto = outcomes.take(later);
    lemma_possible_prefix(config, outcomes, later);
    assert(upto.drop_last() =~= outcomes.take(later - 1));
    assert(upto.last() == outcomes[later - 1]);
    let (known, task) = after(config, outcomes.take(later - 1));
    let now = learned(known, task, upto.last());
    if later > found + 1 {
        lemma_found_key(config, outcomes, found, later - 1);
        law_start_goes_forward(config, now, task, upto.last());
    }
}

proof fn lemma_possible_prefix(config: AgentConfig, outcomes: Seq<Outcome>, n: int)
    requires
        possible(config, outcomes),
        0 <= n <= outcomes.len(),
    ensures
        possible(config, outcomes.take(n)),
    decreases outcomes.len(),
{
    if n == outcomes.len() {
        assert(outcomes.take(n) =~= outcomes);
    } else {
        lemma_possible_prefix(config, outcomes.drop_last(), n);
        assert(outcomes.drop_last().take(n) =~= outcomes.take(n));
    }
}

/// Where a path is set for the server's key, a key is generated only after it was
/// looked for and not found.
pub proof fn law_server_key_is_looked_for(config: AgentConfig, outcomes: Seq<Outcome>)
    requires
        possible(config, outcomes),
        config.server_key@.len() > 0,
        after(config, outcomes).1 is GenerateServerKey,
    ensures
        outcomes.len() > 0,
        outcomes.last() is No,
        after(config, outcomes.drop_last()).1 is FindServerKey,
{
    if outcomes.len() > 0 {
        let (known, task) = after(config, outcomes.drop_last());
        let now = learned(known, task, outcomes.last());
        law_when_the_server_key_is_generated(config, now, task, outcomes.last());
    }
}

/// The error that a start ends with: a failure of its own has words of its own, and
/// those that bring something with them quote it at the end.
pub proof fn law_start_errors(failure: Failure, detail: Seq<char>)
    ensures
        start_error(failure, detail) == match failure {
            Failure::Passed => StartErrorModel::Passed,
            Failure::OwnerPassword(e) => StartErrorModel::Hex(e),
            Failure::NoIakCert => StartErrorModel::Other(
                "IAK/IDevID enabled but cert could not be used"@,
            ),
            Failure::NoIdevidCert => StartErrorModel::Other(
                "IAK/IDevID enabled but IDevID cert could not be used"@,
            ),
            Failure::NoIakCertToCheck => StartErrorModel::Other(
                "IAK/IDevID enabled but IAK cert could not be used"@,
            ),
            Failure::PqSigner => StartErrorModel::Other(
                "Kernel PQ-signature module failure: "@ + detail,
            ),
            _ => StartErrorModel::Configuration(
                match failure {
                    Failure::InsecurePayload => "The agent mTLS is disabled and 'payload_script' is not empty. To allow the agent to run, 'enable_insecure_payload' has to be set to 'True'"@,
                    Failure::NotRoot => "Cannot drop privileges: not enough permission"@,
                    Failure::RunAs => "The user running the Keylime agent should be set in keylime-agent.conf, using the parameter `run_as`, with the format `user:group`"@,
                    Failure::PythonShim => "Could not find python shim at "@ + detail,
                    Failure::SetAuth => "Failed to set TPM context password for Endorsement Hierarchy: "@
                        + detail,
                    Failure::IdevidMismatch => "IDevID template does not match certificate. Check template in configuration."@,
                    Failure::IakMismatch => "IAK template does not match certificate. Check template in configuration."@,
                    Failure::NoTrustedCa => "Agent mTLS is enabled, but trusted_client_ca option was not provided"@,
                    Failure::EmptyTrustedCa => "Trusted client CA certificate list is empty: could not load any certificate"@,
                    Failure::NotGenerated => "IDevID and IAK are enabled but could not be generated"@,
                    _ => "No revocation certificate set in 'revocation_cert' option"@,
                },
            ),
        },
{
}

/// The view of an error shows which error it is and its text.
pub proof fn law_start_error_view(error: StartError)
    ensures
        match error {
            StartError::Passed => error@ == StartErrorModel::Passed,
            StartError::Configuration(text) => error@ == StartErrorModel::Configuration(text@),
            StartError::Hex(e) => error@ == StartErrorModel::Hex(e),
            StartError::Other(text) => error@ == StartErrorModel::Other(text@),
        },
{
}

} // verus!
