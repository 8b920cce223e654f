//! Post-quantum signatures from outside the agent: kernel modules that sign what
//! is written to a device, and a separate program that signs its standard input.
use vstd::prelude::*;
use vstd::string::*;
use vstd::utf8::{decode_utf8, encode_utf8, valid_utf8};

use crate::unicode::{from_utf8_lossy, utf8_lossy};

verus! {

/// The device that takes quotes.
pub const QUOTE_DEV_PATH: &'static str = "/dev/qubip.quote";

/// The file that shows the signature over the last quote.
pub const QUOTE_SIG_PATH: &'static str = "/proc/qubip_pq_quote.sig.bin";

/// The device that takes authentication tags.
pub const TAG_DEV_PATH: &'static str = "/dev/qubip_auth.tag";

/// The file that shows the signature over the last authentication tag.
pub const TAG_SIG_PATH: &'static str = "/proc/qubip_auth.tag.sig";

/// The program that signs authentication tags.
pub const SIGNER_BINARY_PATH: &'static str = "/usr/local/bin/pq_sign_tss";

/// Where the signing program finds its OpenSSL provider.
pub const OPENSSL_MODULES: &'static str = "/opt/quantumsafe/build/lib";

/// Where the signing program finds its OpenSSL configuration.
pub const OPENSSL_CONF: &'static str = "/opt/quantumsafe/build/ssl/openssl.cnf";

/// Where the signing program finds its libraries.
pub const LD_LIBRARY_PATH: &'static str = "/opt/quantumsafe/build/lib64:/opt/quantumsafe/build/lib";

/// What to do next to get a signature.
#[derive(Debug)]
pub enum SignAction {
    /// Open the device for writing.
    Open { path: String },
    /// Start the signing program with piped standard streams and these variables
    /// in its environment: `OPENSSL_MODULES`, `OPENSSL_CONF`, `LD_LIBRARY_PATH`.
    Spawn {
        path: String,
        openssl_modules: String,
        openssl_conf: String,
        ld_library_path: String,
    },
    /// Write to the device, or to the program's standard input, and close that.
    Write { payload: Vec<u8> },
    /// Read the file.
    Read { path: String },
    /// Wait for the program to end and collect what it wrote.
    Wait,
    /// The signature is there.
    Signed { signature: Vec<u8> },
    /// There will be no signature.
    Failed { message: String },
}

/// How a step with a kernel module ended. An error comes as its text.
#[derive(Debug)]
pub enum DeviceEvent {
    Opened(Result<(), String>),
    Written(Result<(), String>),
    ReadBack(Result<Vec<u8>, String>),
}

/// What a program left when it ended.
#[derive(Debug)]
pub struct SignerOutput {
    pub success: bool,
    pub stdout: Vec<u8>,
    pub stderr: Vec<u8>,
}

/// How a step with the signing program ended. An error comes as its text.
#[derive(Debug)]
pub enum SignerEvent {
    /// The program runs; the flag tells whether its standard input can be had.
    Spawned(Result<bool, String>),
    Written(Result<(), String>),
    Ended(Result<SignerOutput, String>),
}

/// The kernel modules, by what they sign.
#[derive(Clone, Copy, Debug, PartialEq, Eq, Structural)]
pub enum Module {
    Quote,
    AuthTag,
}

/// What is waited for from a kernel module.
#[derive(Clone, Copy, Debug, PartialEq, Eq, Structural)]
pub enum DeviceStage {
    Opening,
    Writing,
    Reading,
    Ended,
}

/// What is waited for from the signing program.
#[derive(Clone, Copy, Debug, PartialEq, Eq, Structural)]
pub enum SignerStage {
    Starting,
    Writing,
    Running,
    Ended,
}

/// A signature by a kernel module on its way.
#[derive(Debug)]
pub struct DeviceRun {
    module: Module,
    stage: DeviceStage,
    payload: Vec<u8>,
}

/// A signature by the signing program on its way.
#[derive(Debug)]
pub struct SignerRun {
    stage: SignerStage,
    payload: Vec<u8>,
}

#[verifier::ext_equal]
pub enum SignModel {
    Open { path: Seq<char> },
    Spawn {
        path: Seq<char>,
        openssl_modules: Seq<char>,
        openssl_conf: Seq<char>,
        ld_library_path: Seq<char>,
    },
    Write { payload: Seq<u8> },
    Read { path: Seq<char> },
    Wait,
    Signed { signature: Seq<u8> },
    Failed { message: Seq<char> },
}

#[verifier::ext_equal]
pub struct DeviceModel {
    pub module: Module,
    pub stage: DeviceStage,
    pub payload: Seq<u8>,
}

#[verifier::ext_equal]
pub struct SignerModel {
    pub stage: SignerStage,
    pub payload: Seq<u8>,
}

impl View for SignAction {
    type V = SignModel;

    open spec fn view(&self) -> SignModel {
        match self {
            SignAction::Open { path } => SignModel::Open { path: path@ },
            SignAction::Spawn { path, openssl_modules, openssl_conf, ld_library_path } =>
            SignModel::Spawn {
                path: path@,
                openssl_modules: openssl_modules@,
                openssl_conf: openssl_conf@,
                ld_library_path: ld_library_path@,
            },
            SignAction::Write { payload } => SignModel::Write { payload: payload@ },
            SignAction::Read { path } => SignModel::Read { path: path@ },
            SignAction::Wait => SignModel::Wait,
            SignAction::Signed { signature } => SignModel::Signed { signature: signature@ },
            SignAction::Failed { message } => SignModel::Failed { message: message@ },
        }
    }
}

impl View for DeviceRun {
    type V = DeviceModel;

    closed spec fn view(&self) -> DeviceModel {
        DeviceModel { module: self.module, stage: self.stage, payload: self.payload@ }
    }
}

impl View for SignerRun {
    type V = SignerModel;

    closed spec fn view(&self) -> SignerModel {
        SignerModel { stage: self.stage, payload: self.payload@ }
    }
}

/// Where a module listens.
pub open spec fn device_path(module: Module) -> Seq<char> {
    match module {
        Module::Quote => QUOTE_DEV_PATH@,
        Module::AuthTag => TAG_DEV_PATH@,
    }
}

/// Where a module shows its signature.
pub open spec fn signature_path(module: Module) -> Seq<char> {
    match module {
        Module::Quote => QUOTE_SIG_PATH@,
        Module::AuthTag => TAG_SIG_PATH@,
    }
}

/// What is said of a device that cannot be opened.
pub open spec fn open_failure(module: Module, error: Seq<char>) -> Seq<char> {
    let purpose = match module {
        Module::Quote => " for PQ wrapping – kernel module missing or wrong permissions: "@,
        Module::AuthTag => " for PQ signing – kernel module missing or wrong permissions: "@,
    };
    "FATAL: cannot open "@ + device_path(module) + purpose + error
}

/// What is said of a device that cannot be written to.
pub open spec fn write_failure(module: Module, error: Seq<char>) -> Seq<char> {
    let subject = match module {
        Module::Quote => "FATAL: Failed to write TPM quote to "@,
        Module::AuthTag => "FATAL: Failed to write auth tag to "@,
    };
    subject + device_path(module) + " - kernel module may be unloaded: "@ + error
}

/// What is said of a signature that cannot be read.
pub open spec fn read_failure(module: Module, error: Seq<char>) -> Seq<char> {
    "FATAL: Failed to read PQ signature from "@ + signature_path(module)
        + " - module not functioning: "@ + error
}

/// What is said of a signature that is empty.
pub open spec fn empty_failure(module: Module) -> Seq<char> {
    "FATAL: PQ signature from "@ + signature_path(module)
        + " is empty – invalid module response"@
}

/// The first step with a kernel module: its device is opened.
pub open spec fn device_first(module: Module, payload: Seq<u8>) -> (DeviceModel, SignModel) {
    (
        DeviceModel { module, stage: DeviceStage::Opening, payload },
        SignModel::Open { path: device_path(module) },
    )
}

/// The event is one that is waited for.
pub open spec fn device_awaits(stage: DeviceStage, event: DeviceEvent) -> bool {
    match stage {
        DeviceStage::Opening => event is Opened,
        DeviceStage::Writing => event is Written,
        DeviceStage::Reading => event is ReadBack,
        DeviceStage::Ended => false,
    }
}

/// The steps with a kernel module after the first: the text is written, the
/// signature read. Any failure ends it, and so does an empty signature.
pub open spec fn device_next(run: DeviceModel, event: DeviceEvent) -> (DeviceModel, SignModel) {
    let ended = DeviceModel { stage: DeviceStage::Ended, ..run };
    let module = run.module;
    match event {
        DeviceEvent::Opened(Ok(_)) => (
            DeviceModel { stage: DeviceStage::Writing, ..run },
            SignModel::Write { payload: run.payload },
        ),
        DeviceEvent::Opened(Err(e)) => (
            ended,
            SignModel::Failed { message: open_failure(module, e@) },
        ),
        DeviceEvent::Written(Ok(_)) => (
            DeviceModel { stage: DeviceStage::Reading, ..run },
            SignModel::Read { path: signature_path(module) },
        ),
        DeviceEvent::Written(Err(e)) => (
            ended,
            SignModel::Failed { message: write_failure(module, e@) },
        ),
        DeviceEvent::ReadBack(Ok(signature)) => if signature@.len() == 0 {
            (ended, SignModel::Failed { message: empty_failure(module) })
        } else {
            (ended, SignModel::Signed { signature: signature@ })
        },
        DeviceEvent::ReadBack(Err(e)) => (
            ended,
            SignModel::Failed { message: read_failure(module, e@) },
        ),
    }
}

/// The first step with the signing program: it is started.
pub open spec fn signer_first(payload: Seq<u8>) -> (SignerModel, SignModel) {
    (
        SignerModel { stage: SignerStage::Starting, payload },
        SignModel::Spawn {
            path: SIGNER_BINARY_PATH@,
            openssl_modules: OPENSSL_MODULES@,
            openssl_conf: OPENSSL_CONF@,
            ld_library_path: LD_LIBRARY_PATH@,
        },
    )
}

/// The event is one that is waited for.
pub open spec fn signer_awaits(stage: SignerStage, event: SignerEvent) -> bool {
    match stage {
        SignerStage::Starting => event is Spawned,
        SignerStage::Writing => event is Written,
        SignerStage::Running => event is Ended,
        SignerStage::Ended => false,
    }
}

/// The steps with the signing program after the first: the text is written to its
/// standard input if that can be had, and its end is waited for. It has to end
/// well and to write a signature that is not empty.
pub open spec fn signer_next(run: SignerModel, event: SignerEvent) -> (SignerModel, SignModel) {
    let ended = SignerModel { stage: SignerStage::Ended, ..run };
    let running = SignerModel { stage: SignerStage::Running, ..run };
    match event {
        SignerEvent::Spawned(Ok(has_stdin)) => if has_stdin {
            (
                SignerModel { stage: SignerStage::Writing, ..run },
                SignModel::Write { payload: run.payload },
            )
        } else {
            (running, SignModel::Wait)
        },
        SignerEvent::Spawned(Err(e)) => (
            ended,
            SignModel::Failed {
                message: "FATAL: Failed to spawn external PQ signer "@ + SIGNER_BINARY_PATH@ + ": "@
                    + e@,
            },
        ),
        SignerEvent::Written(Ok(_)) => (running, SignModel::Wait),
        SignerEvent::Written(Err(e)) => (
            ended,
            SignModel::Failed { message: "FATAL: Failed to write to signer stdin: "@ + e@ },
        ),
        SignerEvent::Ended(Ok(output)) => if !output.success {
            (
                ended,
                SignModel::Failed {
                    message: "FATAL: External PQ signer failed with error: "@ + utf8_lossy(
                        output.stderr@,
                    ),
                },
            )
        } else if output.stdout@.len() == 0 {
            (
                ended,
                SignModel::Failed {
                    message: "FATAL: PQ signature returned from external signer is empty"@,
                },
            )
        } else {
            (ended, SignModel::Signed { signature: output.stdout@ })
        },
        SignerEvent::Ended(Err(e)) => (
            ended,
            SignModel::Failed { message: "FATAL: Failed to wait for signer process: "@ + e@ },
        ),
    }
}

/// Fails with four texts, one after the other.
fn failed(a: &str, b: &str, c: &str, d: &str) -> (res: SignAction)
    ensures
        res@ == (SignModel::Failed { message: a@ + b@ + c@ + d@ }),
{
    let mut message = a.to_owned();
    message.append(b);
    message.append(c);
    message.append(d);
    SignAction::Failed { message }
}

/// Fails with two texts, one after the other.
fn failed_with(head: &str, tail: &str) -> (res: SignAction)
    ensures
        res@ == (SignModel::Failed { message: head@ + tail@ }),
{
    let mut message = head.to_owned();
    message.append(tail);
    SignAction::Failed { message }
}

impl Module {
    /// Where the module listens.
    fn device(self) -> (res: &'static str)
        ensures
            res@ == device_path(self),
    {
        match self {
            Module::Quote => QUOTE_DEV_PATH,
            Module::AuthTag => TAG_DEV_PATH,
        }
    }

    /// Where the module shows its signature.
    fn shown_at(self) -> (res: &'static str)
        ensures
            res@ == signature_path(self),
    {
        match self {
            Module::Quote => QUOTE_SIG_PATH,
            Module::AuthTag => TAG_SIG_PATH,
        }
    }

    /// Begins with the module.
    fn begin(self, payload: &str) -> (res: (DeviceRun, SignAction))
        ensures
            (res.0@, res.1@) == device_first(self, encode_utf8(payload@)),
    {
        (
            DeviceRun {
                module: self,
                stage: DeviceStage::Opening,
                payload: payload.as_bytes_vec(),
            },
            SignAction::Open { path: self.device().to_owned() },
        )
    }
}

/// Begins to get a quote signed by the kernel.
pub fn get_pq_signature_for_quote(quote: &str) -> (res: (DeviceRun, SignAction))
    ensures
        (res.0@, res.1@) == device_first(Module::Quote, encode_utf8(quote@)),
{
    Module::Quote.begin(quote)
}

/// Begins to get an authentication tag signed by the kernel.
pub fn get_pq_signature_for_auth_tag_kernel(auth_tag: &str) -> (res: (DeviceRun, SignAction))
    ensures
        (res.0@, res.1@) == device_first(Module::AuthTag, encode_utf8(auth_tag@)),
{
    Module::AuthTag.begin(auth_tag)
}

/// Begins to get an authentication tag signed by the signing program, which keeps
/// the private key out of the agent's memory.
pub fn get_pq_signature_for_auth_tag_userspace(auth_tag: &str) -> (res: (SignerRun, SignAction))
    ensures
        (res.0@, res.1@) == signer_first(encode_utf8(auth_tag@)),
{
    (
        SignerRun { stage: SignerStage::Starting, payload: auth_tag.as_bytes_vec() },
        SignAction::Spawn {
            path: SIGNER_BINARY_PATH.to_owned(),
            openssl_modules: OPENSSL_MODULES.to_owned(),
            openssl_conf: OPENSSL_CONF.to_owned(),
            ld_library_path: LD_LIBRARY_PATH.to_owned(),
        },
    )
}

impl DeviceRun {
    /// What is waited for.
    pub fn stage(&self) -> (res: DeviceStage)
        ensures
            res == self@.stage,
    {
        self.stage
    }

    /// Takes in how the last step ended and says what comes next.
    pub fn step(self, event: DeviceEvent) -> (res: (DeviceRun, SignAction))
        requires
            device_awaits(self@.stage, event),
        ensures
            (res.0@, res.1@) == device_next(self@, event),
    {
        let module = self.module;
        match event {
            DeviceEvent::Opened(Ok(_)) => {
                let payload = self.payload.clone();
                (
                    DeviceRun { stage: DeviceStage::Writing, ..self },
                    SignAction::Write { payload },
                )
            },
            DeviceEvent::Opened(Err(e)) => {
                let purpose = match module {
                    Module::Quote => " for PQ wrapping – kernel module missing or wrong permissions: ",
                    Module::AuthTag => " for PQ signing – kernel module missing or wrong permissions: ",
                };
                self.end(failed("FATAL: cannot open ", module.device(), purpose, e.as_str()))
            },
            DeviceEvent::Written(Ok(_)) => (
                DeviceRun { stage: DeviceStage::Reading, ..self },
                SignAction::Read { path: module.shown_at().to_owned() },
            ),
            DeviceEvent::Written(Err(e)) => {
                let subject = match module {
                    Module::Quote => "FATAL: Failed to write TPM quote to ",
                    Module::AuthTag => "FATAL: Failed to write auth tag to ",
                };
                self.end(
                    failed(
                        subject,
                        module.device(),
                        " - kernel module may be unloaded: ",
                        e.as_str(),
                    ),
                )
            },
            DeviceEvent::ReadBack(Ok(signature)) => if signature.len() == 0 {
                let mut message = "FATAL: PQ signature from ".to_owned();
                message.append(module.shown_at());
                message.append(" is empty – invalid module response");
                self.end(SignAction::Failed { message })
            } else {
                self.end(SignAction::Signed { signature })
            },
            DeviceEvent::ReadBack(Err(e)) => self.end(
                failed(
                    "FATAL: Failed to read PQ signature from ",
                    module.shown_at(),
                    " - module not functioning: ",
                    e.as_str(),
                ),
            ),
        }
    }

    /// Ends with the given action.
    fn end(self, action: SignAction) -> (res: (DeviceRun, SignAction))
        ensures
            res.0@ == (DeviceModel { stage: DeviceStage::Ended, ..self@ }),
            res.1 == action,
    {
        (DeviceRun { stage: DeviceStage::Ended, ..self }, action)
    }
}

/// The message of a signing program that ended badly, given the text of what it
/// wrote to its standard error.
pub fn signer_failure(stderr_text: &str) -> (res: String)
    ensures
        res@ == "FATAL: External PQ signer failed with error: "@ + stderr_text@,
{
    let mut message = "FATAL: External PQ signer failed with error: ".to_owned();
    message.append(stderr_text);
    message
}

impl SignerRun {
    /// What is waited for.
    pub fn stage(&self) -> (res: SignerStage)
        ensures
            res == self@.stage,
    {
        self.stage
    }

    /// Takes in how the last step ended and says what comes next.
    pub fn step(self, event: SignerEvent) -> (res: (SignerRun, SignAction))
        requires
            signer_awaits(self@.stage, event),
        ensures
            (res.0@, res.1@) == signer_next(self@, event),
            event matches SignerEvent::Ended(Ok(output)) ==> !output.success && valid_utf8(
                output.stderr@,
            ) ==> res.1@ == (SignModel::Failed {
                message: "FATAL: External PQ signer failed with error: "@ + decode_utf8(
                    output.stderr@,
                ),
            }),
    {
        match event {
            SignerEvent::Spawned(Ok(has_stdin)) => if has_stdin {
                let payload = self.payload.clone();
                (
                    SignerRun { stage: SignerStage::Writing, ..self },
                    SignAction::Write { payload },
                )
            } else {
                (SignerRun { stage: SignerStage::Running, ..self }, SignAction::Wait)
            },
            SignerEvent::Spawned(Err(e)) => self.end(
                failed(
                    "FATAL: Failed to spawn external PQ signer ",
                    SIGNER_BINARY_PATH,
                    ": ",
                    e.as_str(),
                ),
            ),
            SignerEvent::Written(Ok(_)) => (
                SignerRun { stage: SignerStage::Running, ..self },
                SignAction::Wait,
            ),
            SignerEvent::Written(Err(e)) => self.end(
                failed_with("FATAL: Failed to write to signer stdin: ", e.as_str()),
            ),
            SignerEvent::Ended(Ok(output)) => if !output.success {
                let text = from_utf8_lossy(output.stderr.as_slice());
                self.end(SignAction::Failed { message: signer_failure(text.as_str()) })
            } else if output.stdout.len() == 0 {
                self.end(
                    SignAction::Failed {
                        message: "FATAL: PQ signature returned from external signer is empty".to_owned(),
                    },
                )
            } else {
                self.end(SignAction::Signed { signature: output.stdout })
            },
            SignerEvent::Ended(Err(e)) => self.end(
                failed_with("FATAL: Failed to wait for signer process: ", e.as_str()),
            ),
        }
    }

    /// Ends with the given action.
    fn end(self, action: SignAction) -> (res: (SignerRun, SignAction))
        ensures
            res.0@ == (SignerModel { stage: SignerStage::Ended, ..self@ }),
            res.1 == action,
    {
        (SignerRun { stage: SignerStage::Ended, ..self }, action)
    }
}

/// What a kernel module's device and file answer.
pub struct DeviceAnswers {
    pub opened: Result<(), String>,
    pub written: Result<(), String>,
    pub shown: Result<Vec<u8>, String>,
}

/// The event that tells an answer.
pub open spec fn device_event(stage: DeviceStage, answers: DeviceAnswers) -> DeviceEvent {
    match stage {
        DeviceStage::Opening => DeviceEvent::Opened(answers.opened),
        DeviceStage::Writing => DeviceEvent::Written(answers.written),
        _ => DeviceEvent::ReadBack(answers.shown),
    }
}

/// What is asked for from `action` on, for at most `steps` further steps.
pub open spec fn device_actions(
    run: DeviceModel,
    action: SignModel,
    answers: DeviceAnswers,
    steps: nat,
) -> Seq<SignModel>
    decreases steps,
{
    if steps == 0 || run.stage is Ended {
        seq![action]
    } else {
        let (next, asked) = device_next(run, device_event(run.stage, answers));
        seq![action] + device_actions(next, asked, answers, (steps - 1) as nat)
    }
}

/// What a signature by a kernel module comes to: the first failure, or what the
/// module's file shows, which must not be empty.
pub open spec fn device_signature(module: Module, answers: DeviceAnswers) -> SignModel {
    if answers.opened is Err {
        SignModel::Failed { message: open_failure(module, answers.opened->Err_0@) }
    } else if answers.written is Err {
        SignModel::Failed { message: write_failure(module, answers.written->Err_0@) }
    } else if answers.shown is Err {
        SignModel::Failed { message: read_failure(module, answers.shown->Err_0@) }
    } else if answers.shown->Ok_0@.len() == 0 {
        SignModel::Failed { message: empty_failure(module) }
    } else {
        SignModel::Signed { signature: answers.shown->Ok_0@ }
    }
}

/// The result of a signature: the signature, or what is said of the failure.
pub open spec fn signing_result(end: SignModel) -> Result<Seq<u8>, Seq<char>> {
    match end {
        SignModel::Signed { signature } => Ok(signature),
        SignModel::Failed { message } => Err(message),
        _ => Err(Seq::empty()),
    }
}

/// The module for quotes was opened, was given exactly `quote`, and showed
/// `signature` after that.
pub open spec fn module_signs(
    answers: DeviceAnswers,
    quote: Seq<char>,
    signature: Seq<u8>,
) -> bool {
    let (run, action) = device_first(Module::Quote, encode_utf8(quote));
    device_actions(run, action, answers, 3) == seq![
        SignModel::Open { path: device_path(Module::Quote) },
        SignModel::Write { payload: encode_utf8(quote) },
        SignModel::Read { path: signature_path(Module::Quote) },
        SignModel::Signed { signature },
    ]
}

/// What the signing program and its standard input answer.
pub struct SignerAnswers {
    pub spawned: Result<bool, String>,
    pub written: Result<(), String>,
    pub ended: Result<SignerOutput, String>,
}

/// The event that tells an answer.
pub open spec fn signer_event(stage: SignerStage, answers: SignerAnswers) -> SignerEvent {
    match stage {
        SignerStage::Starting => SignerEvent::Spawned(answers.spawned),
        SignerStage::Writing => SignerEvent::Written(answers.written),
        _ => SignerEvent::Ended(answers.ended),
    }
}

/// What a signature by the signing program comes to: the first failure, or what
/// the program wrote, which must not be empty. A program whose standard input
/// cannot be had is not written to.
pub open spec fn signer_signature(answers: SignerAnswers) -> SignModel {
    if answers.spawned is Err {
        SignModel::Failed {
            message: "FATAL: Failed to spawn external PQ signer "@ + SIGNER_BINARY_PATH@ + ": "@
                + answers.spawned->Err_0@,
        }
    } else if answers.spawned->Ok_0 && answers.written is Err {
        SignModel::Failed {
            message: "FATAL: Failed to write to signer stdin: "@ + answers.written->Err_0@,
        }
    } else if answers.ended is Err {
        SignModel::Failed {
            message: "FATAL: Failed to wait for signer process: "@ + answers.ended->Err_0@,
        }
    } else if !answers.ended->Ok_0.success {
        SignModel::Failed {
            message: "FATAL: External PQ signer failed with error: "@ + utf8_lossy(
                answers.ended->Ok_0.stderr@,
            ),
        }
    } else if answers.ended->Ok_0.stdout@.len() == 0 {
        SignModel::Failed {
            message: "FATAL: PQ signature returned from external signer is empty"@,
        }
    } else {
        SignModel::Signed { signature: answers.ended->Ok_0.stdout@ }
    }
}

/// What is asked for from `action` on, for at most `steps` further steps.
pub open spec fn signer_actions(
    run: SignerModel,
    action: SignModel,
    answers: SignerAnswers,
    steps: nat,
) -> Seq<SignModel>
    decreases steps,
{
    if steps == 0 || run.stage is Ended {
        seq![action]
    } else {
        let (next, asked) = signer_next(run, signer_event(run.stage, answers));
        seq![action] + signer_actions(next, asked, answers, (steps - 1) as nat)
    }
}

/// Every signature by a kernel module comes to an end after at most three steps:
/// with the first failure, or with what the module's file shows.
pub proof fn law_module_signature(module: Module, payload: Seq<u8>, answers: DeviceAnswers)
    ensures
        ({
            let (run, action) = device_first(module, payload);
            device_actions(run, action, answers, 3).last() == device_signature(module, answers)
        }),
{
    reveal_with_fuel(device_actions, 4);
}

/// Where a signature comes out, the device was opened, was given exactly the text
/// and nothing else, and the signature was read after that; it is not empty.
pub proof fn law_module_signs_the_text(module: Module, payload: Seq<u8>, answers: DeviceAnswers)
    ensures
        ({
            let (run, action) = device_first(module, payload);
            let asked = device_actions(run, action, answers, 3);
            asked.last() matches SignModel::Signed { signature } ==> signature.len() > 0 && asked
                == seq![
                SignModel::Open { path: device_path(module) },
                SignModel::Write { payload },
                SignModel::Read { path: signature_path(module) },
                SignModel::Signed { signature },
            ]
        }),
{
    reveal_with_fuel(device_actions, 4);
}

/// What the module for quotes signs is the quote that it was given.
pub(crate) proof fn lemma_module_signs(answers: DeviceAnswers, quote: Seq<char>)
    ensures
        signing_result(device_signature(Module::Quote, answers)) matches Ok(signature)
            ==> signature.len() > 0 && module_signs(answers, quote, signature),
{
    law_module_signature(Module::Quote, encode_utf8(quote), answers);
    law_module_signs_the_text(Module::Quote, encode_utf8(quote), answers);
}

/// Every signature by the signing program comes to an end after at most three
/// steps: with the first failure, or with what the program wrote.
pub proof fn law_signer_signature(payload: Seq<u8>, answers: SignerAnswers)
    ensures
        ({
            let (run, action) = signer_first(payload);
            signer_actions(run, action, answers, 3).last() == signer_signature(answers)
        }),
{
    reveal_with_fuel(signer_actions, 4);
}

/// Where a signature comes out of the signing program, the program was started,
/// was given exactly the text and nothing else on its standard input, and was
/// waited for. No file is read for it.
pub proof fn law_signer_signs_the_text(payload: Seq<u8>, answers: SignerAnswers)
    requires
        answers.spawned == Ok::<bool, String>(true),
    ensures
        ({
            let (run, action) = signer_first(payload);
            let asked = signer_actions(run, action, answers, 3);
            asked.last() matches SignModel::Signed { signature } ==> asked == seq![
                action,
                SignModel::Write { payload },
                SignModel::Wait,
                SignModel::Signed { signature },
            ]
        }),
{
    reveal_with_fuel(signer_actions, 4);
}

/// What is asked of a kernel module, in order: its device is opened, exactly the
/// text is written, the signature is read. The first failure ends it with a message
/// that names the device or the file and quotes the error, and so does an empty
/// signature; nothing is asked for after that.
pub proof fn law_module_actions(module: Module, payload: Seq<u8>, answers: DeviceAnswers)
    ensures
        ({
            let (run, action) = device_first(module, payload);
            let asked = device_actions(run, action, answers, 3);
            let for_quotes = module is Quote;
            let device = if for_quotes {
                "/dev/qubip.quote"@
            } else {
                "/dev/qubip_auth.tag"@
            };
            let file = if for_quotes {
                "/proc/qubip_pq_quote.sig.bin"@
            } else {
                "/proc/qubip_auth.tag.sig"@
            };
            let open = seq![SignModel::Open { path: device }];
            let write = open.push(SignModel::Write { payload });
            let read = write.push(SignModel::Read { path: file });
            match (answers.opened, answers.written, answers.shown) {
                (Err(e), _, _) => asked == open.push(
                    SignModel::Failed {
                        message: "FATAL: cannot open "@ + device + (if for_quotes {
                            " for PQ wrapping – kernel module missing or wrong permissions: "@
                        } else {
                            " for PQ signing – kernel module missing or wrong permissions: "@
                        }) + e@,
                    },
                ),
                (Ok(_), Err(e), _) => asked == write.push(
                    SignModel::Failed {
                        message: (if for_quotes {
                            "FATAL: Failed to write TPM quote to "@
                        } else {
                            "FATAL: Failed to write auth tag to "@
                        }) + device + " - kernel module may be unloaded: "@ + e@,
                    },
                ),
                (Ok(_), Ok(_), Err(e)) => asked == read.push(
                    SignModel::Failed {
                        message: "FATAL: Failed to read PQ signature from "@ + file
                            + " - module not functioning: "@ + e@,
                    },
                ),
                (Ok(_), Ok(_), Ok(shown)) => asked == read.push(
                    if shown@.len() == 0 {
                        SignModel::Failed {
                            message: "FATAL: PQ signature from "@ + file
                                + " is empty – invalid module response"@,
                        }
                    } else {
                        SignModel::Signed { signature: shown@ }
                    },
                ),
            }
        }),
{
    reveal_with_fuel(device_actions, 4);
}

/// What is asked of the signing program, in order: it is started with its OpenSSL
/// provider in the environment, exactly the text is written to its standard input
/// if that can be had, and its end is waited for. The first failure ends it with a
/// message that quotes the error; nothing is asked for after that.
pub proof fn law_signer_actions(payload: Seq<u8>, answers: SignerAnswers)
    ensures
        ({
            let (run, action) = signer_first(payload);
            let asked = signer_actions(run, action, answers, 3);
            let start = seq![
                SignModel::Spawn {
                    path: "/usr/local/bin/pq_sign_tss"@,
                    openssl_modules: "/opt/quantumsafe/build/lib"@,
                    openssl_conf: "/opt/quantumsafe/build/ssl/openssl.cnf"@,
                    ld_library_path: "/opt/quantumsafe/build/lib64:/opt/quantumsafe/build/lib"@,
                },
            ];
            let has_input = answers.spawned == Ok::<bool, String>(true);
            let write = if has_input {
                start.push(SignModel::Write { payload })
            } else {
                start
            };
            let wait = write.push(SignModel::Wait);
            match (answers.spawned, answers.written, answers.ended) {
                (Err(e), _, _) => asked == start.push(
                    SignModel::Failed {
                        message: "FATAL: Failed to spawn external PQ signer "@
                            + "/usr/local/bin/pq_sign_tss"@ + ": "@ + e@,
                    },
                ),
                (Ok(true), Err(e), _) => asked == write.push(
                    SignModel::Failed { message: "FATAL: Failed to write to signer stdin: "@ + e@ },
                ),
                (Ok(_), _, Err(e)) => asked == wait.push(
                    SignModel::Failed {
                        message: "FATAL: Failed to wait for signer process: "@ + e@,
                    },
                ),
                (Ok(_), _, Ok(output)) => asked == wait.push(
                    if !output.success {
                        SignModel::Failed {
                            message: "FATAL: External PQ signer failed with error: "@ + utf8_lossy(
                                output.stderr@,
                            ),
                        }
                    } else if output.stdout@.len() == 0 {
                        SignModel::Failed {
                            message: "FATAL: PQ signature returned from external signer is empty"@,
                        }
                    } else {
                        SignModel::Signed { signature: output.stdout@ }
                    },
                ),
            }
        }),
{
    reveal_with_fuel(signer_actions, 4);
}

/// Exactly the event is waited for that tells how the last step with a kernel
/// module ended.
pub proof fn law_module_waits_for_what_it_asked(
    module: Module,
    payload: Seq<u8>,
    run: DeviceModel,
    event: DeviceEvent,
    later: DeviceEvent,
)
    requires
        device_awaits(run.stage, event),
    ensures
        device_awaits(device_first(module, payload).0.stage, later) <==> later is Opened,
        ({
            let (next, action) = device_next(run, event);
            device_awaits(next.stage, later) <==> match action {
                SignModel::Write { .. } => later is Written,
                SignModel::Read { .. } => later is ReadBack,
                _ => false,
            }
        }),
{
}

/// Exactly the event is waited for that tells how the last step with the signing
/// program ended.
pub proof fn law_signer_waits_for_what_it_asked(
    payload: Seq<u8>,
    run: SignerModel,
    event: SignerEvent,
    later: SignerEvent,
)
    requires
        signer_awaits(run.stage, event),
    ensures
        signer_awaits(signer_first(payload).0.stage, later) <==> later is Spawned,
        ({
            let (next, action) = signer_next(run, event);
            signer_awaits(next.stage, later) <==> match action {
                SignModel::Write { .. } => later is Written,
                SignModel::Wait => later is Ended,
                _ => false,
            }
        }),
{
}

/// The view of an action shows which action it is and what it is about.
pub proof fn law_sign_action_view(action: SignAction)
    ensures
        match action {
            SignAction::Open { path } => action@ == (SignModel::Open { path: path@ }),
            SignAction::Spawn { path, openssl_modules, openssl_conf, ld_library_path } => action@
                == (SignModel::Spawn {
                path: path@,
                openssl_modules: openssl_modules@,
                openssl_conf: openssl_conf@,
                ld_library_path: ld_library_path@,
            }),
            SignAction::Write { payload } => action@ == (SignModel::Write { payload: payload@ }),
            SignAction::Read { path } => action@ == (SignModel::Read { path: path@ }),
            SignAction::Wait => action@ == SignModel::Wait,
            SignAction::Signed { signature } => action@ == (SignModel::Signed {
                signature: signature@,
            }),
            SignAction::Failed { message } => action@ == (SignModel::Failed { message: message@ }),
        },
{
}

} // verus!
