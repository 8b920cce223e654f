//! The integrity quote: a request of the verifier, which checks measurements.
//! The mask says which PCRs the quote includes; the answer brings the quote, the
//! measurement lists and, unless the request is a partial one, the public key.
use vstd::prelude::*;
use vstd::string::*;
use vstd::utf8::{encode_utf8, encode_utf8_decode_utf8};

use crate::encoding::{base64_encode, base64_text};
use crate::numbers::{first_entry, mask_value, parse_entry, parse_mask};
use crate::pq_signature::{
    device_signature, lemma_module_signs, module_signs, signing_result, DeviceAnswers, Module,
};
use crate::quotes::{
    add_tpm_quote, asked_to_wrap, bad_request, blank_quote, internal_error, nonce_size, numbered, numbered_text,
    opt_text, with_tpm_quote, wrap_quote, wrapped, ActionModel, BootLog, BootModel, DataModel,
    EventModel, ImaModel, Integ, IntegModel, KeylimeQuote, PQquote, QuoteAction, QuoteData,
    QuoteEvent, QuoteModel, Reply, ReplyModel, WrappedModel,
};
use crate::text::{decimal, decimal_text, same_text};
use crate::unicode::{all_alphanumeric, alphanumeric, is_all_alphanumeric};

verus! {

/// What the handler waits for.
#[derive(Clone, Copy, Debug, PartialEq, Eq, Structural)]
pub enum IntegrityStage {
    PublicKey,
    Quote,
    Mask,
    MeasuredBoot,
    Ima,
    Wrap,
    Record,
    Replied,
}

/// A request on its way.
#[derive(Debug)]
pub struct IntegrityRun {
    stage: IntegrityStage,
    nonce: Vec<u8>,
    mask: u32,
    nth_entry: u64,
    /// What is known of the quote so far.
    quote: KeylimeQuote,
    /// The number of entries in the measurement list.
    ima_count: u64,
    /// The wrapped quote, once it is signed.
    answer: Option<PQquote>,
}

#[verifier::ext_equal]
pub struct IntegrityModel {
    pub stage: IntegrityStage,
    pub nonce: Seq<u8>,
    pub mask: u32,
    pub nth_entry: u64,
    pub quote: QuoteModel,
    pub ima_count: u64,
    pub answer: Option<WrappedModel>,
}

impl View for IntegrityRun {
    type V = IntegrityModel;

    closed spec fn view(&self) -> IntegrityModel {
        IntegrityModel {
            stage: self.stage,
            nonce: self.nonce@,
            mask: self.mask,
            nth_entry: self.nth_entry,
            quote: self.quote@,
            ima_count: self.ima_count,
            answer: match self.answer {
                Some(answer) => Some(answer@),
                None => None,
            },
        }
    }
}

/// Why a request is refused, if it is. Nonce and mask must be alphanumeric, the
/// mask a hexadecimal 32-bit number, the nonce not longer than the TPM takes, and
/// `partial` must be `0` or `1`; the first of these that fails is named.
pub open spec fn integrity_refusal(
    param: IntegModel,
    nonce_alphanumeric: bool,
    mask_alphanumeric: bool,
    max_nonce_size: nat,
) -> Option<Seq<char>> {
    if !nonce_alphanumeric {
        Some("nonce should be strictly alphanumeric: "@ + param.nonce)
    } else if !mask_alphanumeric {
        Some("mask should be strictly alphanumeric: "@ + param.mask)
    } else if mask_value(param.mask) is None {
        Some("mask should be a hex encoded 32-bit integer: "@ + param.mask)
    } else if nonce_size(param.nonce) > max_nonce_size {
        Some(
            numbered(
                "Nonce is too long (max size: "@,
                max_nonce_size,
                "): "@,
                decimal(nonce_size(param.nonce)),
            ),
        )
    } else if param.partial != "0"@ && param.partial != "1"@ {
        Some("uri must contain key 'partial' and value '0' or '1'"@)
    } else {
        None
    }
}

/// The request is refused.
pub open spec fn refused(param: IntegModel, data: DataModel) -> bool {
    integrity_refusal(
        param,
        all_alphanumeric(param.nonce),
        all_alphanumeric(param.mask),
        data.max_nonce_size,
    ) is Some
}

/// A request that nothing is known of.
pub open spec fn idle_run() -> IntegrityModel {
    IntegrityModel {
        stage: IntegrityStage::Replied,
        nonce: Seq::empty(),
        mask: 0,
        nth_entry: 0,
        quote: blank_quote(),
        ima_count: 0,
        answer: None,
    }
}

/// The first step: a request is refused at once; otherwise the public key is
/// asked for if the answer has to bring it, and else the quote.
pub open spec fn integrity_first(
    param: IntegModel,
    data: DataModel,
) -> (IntegrityModel, ActionModel) {
    let refusal = integrity_refusal(
        param,
        all_alphanumeric(param.nonce),
        all_alphanumeric(param.mask),
        data.max_nonce_size,
    );
    match refusal {
        Some(status) => (
            idle_run(),
            ActionModel::Reply(ReplyModel::Error { code: 400, status }),
        ),
        None => {
            let whole = param.partial == "0"@;
            let run = IntegrityModel {
                stage: if whole {
                    IntegrityStage::PublicKey
                } else {
                    IntegrityStage::Quote
                },
                nonce: encode_utf8(param.nonce),
                mask: mask_value(param.mask).unwrap() as u32,
                nth_entry: first_entry(param.ima_ml_entry) as u64,
                ..idle_run()
            };
            if whole {
                (run, ActionModel::ExportPublicKey)
            } else {
                (run, ActionModel::TpmQuote { nonce: run.nonce, mask: run.mask })
            }
        },
    }
}

/// The event is an answer to what the handler waits for.
pub open spec fn integrity_awaits(stage: IntegrityStage, event: EventModel) -> bool {
    match stage {
        IntegrityStage::PublicKey => event is PublicKey,
        IntegrityStage::Quote => event is Quoted,
        IntegrityStage::Mask => event is MaskChecked,
        IntegrityStage::MeasuredBoot => event is MeasuredBoot,
        IntegrityStage::Ima => event is ImaList,
        IntegrityStage::Wrap => event is Wrapped,
        IntegrityStage::Record => event is Recorded,
        IntegrityStage::Replied => false,
    }
}

/// Asks for the IMA measurement list where there is one, and else for the
/// signature.
pub open spec fn to_ima(run: IntegrityModel, data: DataModel) -> (IntegrityModel, ActionModel) {
    if data.ima_ml_file {
        (
            IntegrityModel { stage: IntegrityStage::Ima, ..run },
            ActionModel::ReadImaList { nth_entry: run.nth_entry },
        )
    } else {
        to_wrap(run)
    }
}

/// Asks for the signature over the quote.
pub open spec fn to_wrap(run: IntegrityModel) -> (IntegrityModel, ActionModel) {
    (
        IntegrityModel { stage: IntegrityStage::Wrap, ..run },
        ActionModel::WrapQuote { quote: run.quote.quote },
    )
}

/// The steps after the first: public key, quote, PCR mask, measured boot log,
/// IMA list, signature, metrics, answer. A boot log that cannot be read is left
/// out; every other failure ends the request. `counted` attestations went before.
pub open spec fn integrity_next(
    run: IntegrityModel,
    data: DataModel,
    counted: nat,
    event: EventModel,
) -> (IntegrityModel, ActionModel) {
    let failed = |status: Seq<char>|
        (
            IntegrityModel { stage: IntegrityStage::Replied, ..run },
            ActionModel::Reply(ReplyModel::Error { code: 500, status }),
        );
    match event {
        EventModel::PublicKey(Some(pem)) => (
            IntegrityModel {
                stage: IntegrityStage::Quote,
                quote: QuoteModel { pubkey: Some(pem), ..run.quote },
                ..run
            },
            ActionModel::TpmQuote { nonce: run.nonce, mask: run.mask },
        ),
        EventModel::PublicKey(None) => failed("Unable to retrieve public key"@),
        EventModel::Quoted(Some(tpm_quote)) => (
            IntegrityModel {
                stage: IntegrityStage::Mask,
                quote: with_tpm_quote(run.quote, tpm_quote, data),
                ..run
            },
            ActionModel::CheckMask { mask: run.mask },
        ),
        EventModel::MaskChecked(Some(selected)) => if selected && data.measuredboot_ml_file {
            (
                IntegrityModel { stage: IntegrityStage::MeasuredBoot, ..run },
                ActionModel::ReadMeasuredBoot,
            )
        } else {
            to_ima(run, data)
        },
        EventModel::MeasuredBoot(BootModel::Read(log)) => to_ima(
            IntegrityModel {
                quote: QuoteModel { mb_measurement_list: Some(base64_text(log)), ..run.quote },
                ..run
            },
            data,
        ),
        EventModel::MeasuredBoot(BootModel::ReadFailed) => to_ima(run, data),
        EventModel::ImaList(Some(entries)) => to_wrap(
            IntegrityModel {
                quote: QuoteModel {
                    ima_measurement_list: Some(entries.list),
                    ima_measurement_list_entry: Some(entries.first),
                    ..run.quote
                },
                ima_count: entries.count,
                ..run
            },
        ),
        EventModel::Wrapped(Ok(signature)) => (
            IntegrityModel {
                stage: IntegrityStage::Record,
                quote: blank_quote(),
                answer: Some(wrapped(run.quote, data, signature)),
                ..run
            },
            ActionModel::RecordMetrics { cycle: counted + 1, ima_count: run.ima_count },
        ),
        EventModel::Recorded => match run.answer {
            Some(answer) => (
                IntegrityModel { stage: IntegrityStage::Replied, answer: None, ..run },
                ActionModel::Reply(ReplyModel::Success { quote: answer }),
            ),
            None => failed("Unable to retrieve quote"@),
        },
        _ => failed("Unable to retrieve quote"@),
    }
}

/// How many attestations are counted once `event` has come: one more with each
/// quote that is signed.
pub open spec fn counted_with(counted: nat, event: EventModel) -> nat {
    match event {
        EventModel::Wrapped(Ok(_)) => counted + 1,
        _ => counted,
    }
}

/// A signed quote is there exactly while the metrics are recorded.
pub open spec fn integrity_valid(run: IntegrityModel) -> bool {
    run.answer is Some <==> run.stage is Record
}

/// Decides whether a request is refused, given whether its nonce and its mask are
/// alphanumeric.
pub fn refuse_integrity(
    param: &Integ,
    nonce_alphanumeric: bool,
    mask_alphanumeric: bool,
    max_nonce_size: usize,
) -> (res: Result<u32, String>)
    ensures
        match res {
            Ok(mask) => integrity_refusal(
                param@,
                nonce_alphanumeric,
                mask_alphanumeric,
                max_nonce_size as nat,
            ) is None && mask_value(param.mask@) == Some(mask as nat),
            Err(status) => integrity_refusal(
                param@,
                nonce_alphanumeric,
                mask_alphanumeric,
                max_nonce_size as nat,
            ) == Some(status@),
        },
{
    if !nonce_alphanumeric {
        let mut status = "nonce should be strictly alphanumeric: ".to_owned();
        status.append(param.nonce.as_str());
        return Err(status);
    }
    if !mask_alphanumeric {
        let mut status = "mask should be strictly alphanumeric: ".to_owned();
        status.append(param.mask.as_str());
        return Err(status);
    }
    let mask: u32 = match parse_mask(param.mask.as_str()) {
        Some(mask) => mask,
        None => {
            let mut status = "mask should be a hex encoded 32-bit integer: ".to_owned();
            status.append(param.mask.as_str());
            return Err(status);
        },
    };
    let size: usize = param.nonce.as_str().as_bytes().len();
    if size > max_nonce_size {
        let shown = decimal_text(size as u128);
        return Err(
            numbered_text("Nonce is too long (max size: ", max_nonce_size, "): ", shown.as_str()),
        );
    }
    if !same_text(param.partial.as_str(), "0") && !same_text(param.partial.as_str(), "1") {
        return Err("uri must contain key 'partial' and value '0' or '1'".to_owned());
    }
    Ok(mask)
}

/// A request that nothing is known of.
fn idle() -> (res: IntegrityRun)
    ensures
        res@ == idle_run(),
{
    IntegrityRun {
        stage: IntegrityStage::Replied,
        nonce: Vec::new(),
        mask: 0,
        nth_entry: 0,
        quote: KeylimeQuote::default(),
        ima_count: 0,
        answer: None,
    }
}

/// Takes an integrity quote request in.
pub fn integrity(param: &Integ, data: &QuoteData) -> (res: (IntegrityRun, QuoteAction))
    ensures
        (res.0@, res.1@) == integrity_first(param@, data@),
        integrity_valid(res.0@),
{
    let nonce_alphanumeric = is_all_alphanumeric(param.nonce.as_str());
    let mask_alphanumeric = is_all_alphanumeric(param.mask.as_str());
    let mask: u32 = match refuse_integrity(
        param,
        nonce_alphanumeric,
        mask_alphanumeric,
        data.max_nonce_size,
    ) {
        Ok(mask) => mask,
        Err(status) => return (idle(), bad_request(status)),
    };
    let nth_entry: u64 = match &param.ima_ml_entry {
        None => parse_entry(None),
        Some(entry) => parse_entry(Some(entry.as_str())),
    };
    let nonce = param.nonce.as_str().as_bytes_vec();
    if same_text(param.partial.as_str(), "0") {
        (
            IntegrityRun { stage: IntegrityStage::PublicKey, nonce, mask, nth_entry, ..idle() },
            QuoteAction::ExportPublicKey,
        )
    } else {
        let shown = param.nonce.as_str().as_bytes_vec();
        (
            IntegrityRun { stage: IntegrityStage::Quote, nonce, mask, nth_entry, ..idle() },
            QuoteAction::TpmQuote { nonce: shown, mask },
        )
    }
}

/// The number of attestations so far.
#[derive(Debug)]
pub struct AttestationCount {
    counted: usize,
}

impl View for AttestationCount {
    type V = nat;

    closed spec fn view(&self) -> nat {
        self.counted as nat
    }
}

impl AttestationCount {
    /// Nothing is counted yet.
    pub fn new() -> (res: AttestationCount)
        ensures
            res@ == 0,
    {
        AttestationCount { counted: 0 }
    }

    /// How many attestations are counted.
    pub fn counted(&self) -> (res: usize)
        ensures
            res == self@,
    {
        self.counted
    }

    /// Counts an attestation and gives its number.
    fn count(&mut self) -> (res: usize)
        requires
            old(self)@ < usize::MAX,
        ensures
            final(self)@ == old(self)@ + 1,
            res == final(self)@,
    {
        self.counted = self.counted + 1;
        self.counted
    }
}

impl IntegrityRun {
    #[verifier::type_invariant]
    spec fn valid(self) -> bool {
        integrity_valid(self@)
    }

    /// What the handler waits for.
    pub fn stage(&self) -> (res: IntegrityStage)
        ensures
            res == self@.stage,
    {
        self.stage
    }

    /// The wrapped quote, while the metrics are recorded.
    pub fn answer(&self) -> (res: Option<&PQquote>)
        ensures
            res is Some <==> self@.stage is Record,
            res matches Some(answer) ==> self@.answer == Some(answer@),
    {
        proof {
            use_type_invariant(self);
        }
        self.answer.as_ref()
    }

    /// Goes on to the signature.
    fn go_to_wrap(self) -> (res: (IntegrityRun, QuoteAction))
        requires
            self@.answer is None,
        ensures
            (res.0@, res.1@) == to_wrap(self@),
    {
        let quote = self.quote.quote.clone();
        (
            IntegrityRun { stage: IntegrityStage::Wrap, ..self },
            QuoteAction::WrapQuote { quote },
        )
    }

    /// Goes on to the IMA list, or to the signature where there is no list.
    fn go_to_ima(self, data: &QuoteData) -> (res: (IntegrityRun, QuoteAction))
        requires
            self@.answer is None,
        ensures
            (res.0@, res.1@) == to_ima(self@, data@),
    {
        if data.ima_ml_file {
            let nth_entry: u64 = self.nth_entry;
            (
                IntegrityRun { stage: IntegrityStage::Ima, ..self },
                QuoteAction::ReadImaList { nth_entry },
            )
        } else {
            self.go_to_wrap()
        }
    }

    /// Gives the request up.
    fn fail(self, status: &str) -> (res: (IntegrityRun, QuoteAction))
        requires
            self@.answer is None,
        ensures
            res.0@ == (IntegrityModel { stage: IntegrityStage::Replied, ..self@ }),
            res.1@ == ActionModel::Reply(ReplyModel::Error { code: 500, status: status@ }),
    {
        (IntegrityRun { stage: IntegrityStage::Replied, ..self }, internal_error(status))
    }

    /// Takes in how the last step ended and says what comes next. The attestation
    /// is counted once its quote is signed.
    pub fn step(self, data: &QuoteData, count: &mut AttestationCount, event: QuoteEvent) -> (res: (
        IntegrityRun,
        QuoteAction,
    ))
        requires
            integrity_awaits(self@.stage, event@),
            event@ matches EventModel::Wrapped(Ok(_)) ==> old(count)@ < usize::MAX,
            event@ matches EventModel::MeasuredBoot(BootModel::Read(log)) ==> 4 * ((log.len() + 2)
                / 3) <= usize::MAX,
        ensures
            (res.0@, res.1@) == integrity_next(self@, data@, old(count)@, event@),
            integrity_valid(res.0@),
            final(count)@ == counted_with(old(count)@, event@),
    {
        proof {
            use_type_invariant(&self);
        }
        match event {
            QuoteEvent::PublicKey(Some(pem)) => {
                let nonce = self.nonce.clone();
                let mask: u32 = self.mask;
                (
                    IntegrityRun {
                        stage: IntegrityStage::Quote,
                        quote: KeylimeQuote { pubkey: Some(pem), ..self.quote },
                        ..self
                    },
                    QuoteAction::TpmQuote { nonce, mask },
                )
            },
            QuoteEvent::PublicKey(None) => self.fail("Unable to retrieve public key"),
            QuoteEvent::Quoted(Some(tpm_quote)) => {
                let mask: u32 = self.mask;
                (
                    IntegrityRun {
                        stage: IntegrityStage::Mask,
                        quote: add_tpm_quote(self.quote, tpm_quote, data),
                        ..self
                    },
                    QuoteAction::CheckMask { mask },
                )
            },
            QuoteEvent::MaskChecked(Some(selected)) => if selected && data.measuredboot_ml_file {
                (
                    IntegrityRun { stage: IntegrityStage::MeasuredBoot, ..self },
                    QuoteAction::ReadMeasuredBoot,
                )
            } else {
                self.go_to_ima(data)
            },
            QuoteEvent::MeasuredBoot(BootLog::Read(log)) => {
                let list = base64_encode(log.as_slice());
                let run = IntegrityRun {
                    quote: KeylimeQuote { mb_measurement_list: Some(list), ..self.quote },
                    ..self
                };
                run.go_to_ima(data)
            },
            QuoteEvent::MeasuredBoot(BootLog::ReadFailed) => self.go_to_ima(data),
            QuoteEvent::ImaList(Some(entries)) => {
                let run = IntegrityRun {
                    quote: KeylimeQuote {
                        ima_measurement_list: Some(entries.list),
                        ima_measurement_list_entry: Some(entries.first),
                        ..self.quote
                    },
                    ima_count: entries.count,
                    ..self
                };
                run.go_to_wrap()
            },
            QuoteEvent::Wrapped(Ok(signature)) => {
                let ima_count: u64 = self.ima_count;
                let cycle: usize = count.count();
                (
                    IntegrityRun {
                        stage: IntegrityStage::Record,
                        quote: KeylimeQuote::default(),
                        answer: Some(wrap_quote(self.quote, data, signature)),
                        ..self
                    },
                    QuoteAction::RecordMetrics { cycle, ima_count },
                )
            },
            QuoteEvent::Recorded => match self.answer {
                Some(answer) => (
                    IntegrityRun { stage: IntegrityStage::Replied, answer: None, ..self },
                    QuoteAction::Reply(Reply::Success { quote: answer }),
                ),
                None => self.fail("Unable to retrieve quote"),
            },
            _ => self.fail("Unable to retrieve quote"),
        }
    }
}

/// What the machine answers to the steps of an integrity request.
pub struct IntegrityAnswers {
    pub pubkey: Option<Seq<char>>,
    pub quote: Option<Seq<char>>,
    pub pcr0_selected: Option<bool>,
    pub boot_log: BootModel,
    pub ima: Option<ImaModel>,
    pub signature: Result<Seq<u8>, Seq<char>>,
}

/// The event that tells the handler the machine's answer.
pub open spec fn integrity_event(stage: IntegrityStage, answers: IntegrityAnswers) -> EventModel {
    match stage {
        IntegrityStage::PublicKey => EventModel::PublicKey(answers.pubkey),
        IntegrityStage::Quote => EventModel::Quoted(answers.quote),
        IntegrityStage::Mask => EventModel::MaskChecked(answers.pcr0_selected),
        IntegrityStage::MeasuredBoot => EventModel::MeasuredBoot(answers.boot_log),
        IntegrityStage::Ima => EventModel::ImaList(answers.ima),
        IntegrityStage::Wrap => EventModel::Wrapped(answers.signature),
        _ => EventModel::Recorded,
    }
}

/// What is asked for in the course of a request, and how many attestations are
/// counted after it.
#[verifier::ext_equal]
pub struct IntegrityCourse {
    /// What is asked for last.
    pub end: ActionModel,
    /// The quotes for which a signature is asked.
    pub wraps: Seq<Seq<char>>,
    /// The numbers, and the list entries, with which metrics are recorded.
    pub metrics: Seq<(nat, u64)>,
    pub counted: nat,
}

/// The number, and the list entries, with which an action records metrics, if it
/// does.
pub open spec fn asked_to_record(action: ActionModel) -> Seq<(nat, u64)> {
    match action {
        ActionModel::RecordMetrics { cycle, ima_count } => seq![(cycle, ima_count)],
        _ => Seq::empty(),
    }
}

/// The course of a request from `action` on, for at most `steps` further steps.
pub open spec fn course_from(
    run: IntegrityModel,
    action: ActionModel,
    data: DataModel,
    answers: IntegrityAnswers,
    counted: nat,
    steps: nat,
) -> IntegrityCourse
    decreases steps,
{
    if steps == 0 || run.stage is Replied {
        IntegrityCourse {
            end: action,
            wraps: asked_to_wrap(action),
            metrics: asked_to_record(action),
            counted,
        }
    } else {
        let event = integrity_event(run.stage, answers);
        let (next, asked) = integrity_next(run, data, counted, event);
        let rest = course_from(
            next,
            asked,
            data,
            answers,
            counted_with(counted, event),
            (steps - 1) as nat,
        );
        IntegrityCourse {
            wraps: asked_to_wrap(action) + rest.wraps,
            metrics: asked_to_record(action) + rest.metrics,
            ..rest
        }
    }
}

/// The course of a request before which `counted` attestations went.
pub open spec fn integrity_course(
    param: IntegModel,
    data: DataModel,
    answers: IntegrityAnswers,
    counted: nat,
) -> IntegrityCourse {
    let (run, action) = integrity_first(param, data);
    course_from(run, action, data, answers, counted, 7)
}

/// What is asked for from `action` on, in order, for at most `steps` further
/// steps.
pub open spec fn actions_from(
    run: IntegrityModel,
    action: ActionModel,
    data: DataModel,
    answers: IntegrityAnswers,
    counted: nat,
    steps: nat,
) -> Seq<ActionModel>
    decreases steps,
{
    if steps == 0 || run.stage is Replied {
        seq![action]
    } else {
        let event = integrity_event(run.stage, answers);
        let (next, asked) = integrity_next(run, data, counted, event);
        seq![action] + actions_from(
            next,
            asked,
            data,
            answers,
            counted_with(counted, event),
            (steps - 1) as nat,
        )
    }
}

/// What is asked for in the course of a request, in order, up to the answer.
/// `counted` attestations went before.
pub open spec fn integrity_actions(
    param: IntegModel,
    data: DataModel,
    answers: IntegrityAnswers,
    counted: nat,
) -> Seq<ActionModel> {
    let (run, action) = integrity_first(param, data);
    actions_from(run, action, data, answers, counted, 7)
}

/// The measured boot log belongs in the answer: PCR 0 is selected and there is a
/// log.
pub open spec fn boot_log_wanted(data: DataModel, answers: IntegrityAnswers) -> bool {
    answers.pcr0_selected == Some(true) && data.measuredboot_ml_file
}

/// The machine did all that an answer needs, apart from the public key.
pub open spec fn evidence_complete(data: DataModel, answers: IntegrityAnswers) -> bool {
    &&& answers.quote is Some
    &&& answers.pcr0_selected is Some
    &&& boot_log_wanted(data, answers) ==> !(answers.boot_log is RewindFailed)
    &&& data.ima_ml_file ==> answers.ima is Some
    &&& answers.signature is Ok
}

/// The quote that answers a request in which nothing failed.
pub open spec fn evidence(
    param: IntegModel,
    data: DataModel,
    answers: IntegrityAnswers,
) -> QuoteModel {
    QuoteModel {
        quote: answers.quote.unwrap(),
        hash_alg: data.hash_alg,
        enc_alg: data.enc_alg,
        sign_alg: data.sign_alg,
        pubkey: if param.partial == "0"@ {
            answers.pubkey
        } else {
            None
        },
        ima_measurement_list: if data.ima_ml_file {
            Some(answers.ima.unwrap().list)
        } else {
            None
        },
        mb_measurement_list: match answers.boot_log {
            BootModel::Read(log) => if boot_log_wanted(data, answers) {
                Some(base64_text(log))
            } else {
                None
            },
            _ => None,
        },
        ima_measurement_list_entry: if data.ima_ml_file {
            Some(answers.ima.unwrap().first)
        } else {
            None
        },
    }
}

/// The answer to an integrity request as a whole.
pub open spec fn integrity_reply(
    param: IntegModel,
    data: DataModel,
    answers: IntegrityAnswers,
) -> ReplyModel {
    let refusal = integrity_refusal(
        param,
        all_alphanumeric(param.nonce),
        all_alphanumeric(param.mask),
        data.max_nonce_size,
    );
    if refusal is Some {
        ReplyModel::Error { code: 400, status: refusal.unwrap() }
    } else if param.partial == "0"@ && answers.pubkey is None {
        ReplyModel::Error { code: 500, status: "Unable to retrieve public key"@ }
    } else if !evidence_complete(data, answers) {
        ReplyModel::Error { code: 500, status: "Unable to retrieve quote"@ }
    } else {
        ReplyModel::Success {
            quote: wrapped(evidence(param, data, answers), data, answers.signature->Ok_0),
        }
    }
}

/// The course of a request that fails with `status` and asked for no signature.
spec fn failing_course(status: Seq<char>, counted: nat) -> IntegrityCourse {
    IntegrityCourse {
        end: ActionModel::Reply(ReplyModel::Error { code: 500, status }),
        wraps: Seq::empty(),
        metrics: Seq::empty(),
        counted,
    }
}

/// The course from the signature on.
spec fn wrap_course(
    quote: QuoteModel,
    ima_count: u64,
    data: DataModel,
    answers: IntegrityAnswers,
    counted: nat,
) -> IntegrityCourse {
    match answers.signature {
        Ok(signature) => IntegrityCourse {
            end: ActionModel::Reply(
                ReplyModel::Success { quote: wrapped(quote, data, signature) },
            ),
            wraps: seq![quote.quote],
            metrics: seq![(counted + 1, ima_count)],
            counted: counted + 1,
        },
        Err(_) => IntegrityCourse {
            wraps: seq![quote.quote],
            ..failing_course("Unable to retrieve quote"@, counted)
        },
    }
}

/// The course from the IMA list on.
spec fn ima_course(
    quote: QuoteModel,
    data: DataModel,
    answers: IntegrityAnswers,
    counted: nat,
) -> IntegrityCourse {
    if !data.ima_ml_file {
        wrap_course(quote, 0, data, answers, counted)
    } else {
        match answers.ima {
            Some(entries) => wrap_course(
                QuoteModel {
                    ima_measurement_list: Some(entries.list),
                    ima_measurement_list_entry: Some(entries.first),
                    ..quote
                },
                entries.count,
                data,
                answers,
                counted,
            ),
            None => failing_course("Unable to retrieve quote"@, counted),
        }
    }
}

/// The course from the PCR mask on.
spec fn mask_course(
    quote: QuoteModel,
    data: DataModel,
    answers: IntegrityAnswers,
    counted: nat,
) -> IntegrityCourse {
    match answers.pcr0_selected {
        None => failing_course("Unable to retrieve quote"@, counted),
        Some(selected) => if selected && data.measuredboot_ml_file {
            match answers.boot_log {
                BootModel::Read(log) => ima_course(
                    QuoteModel { mb_measurement_list: Some(base64_text(log)), ..quote },
                    data,
                    answers,
                    counted,
                ),
                BootModel::ReadFailed => ima_course(quote, data, answers, counted),
                BootModel::RewindFailed => failing_course("Unable to retrieve quote"@, counted),
            }
        } else {
            ima_course(quote, data, answers, counted)
        },
    }
}

proof fn lemma_course_from_wrap(
    run: IntegrityModel,
    data: DataModel,
    answers: IntegrityAnswers,
    counted: nat,
    steps: nat,
)
    requires
        steps >= 2,
    ensures
        ({
            let (next, asked) = to_wrap(run);
            course_from(next, asked, data, answers, counted, steps) =~= wrap_course(
                run.quote,
                run.ima_count,
                data,
                answers,
                counted,
            )
        }),
{
    reveal_with_fuel(course_from, 3);
}

proof fn lemma_course_from_ima(
    run: IntegrityModel,
    data: DataModel,
    answers: IntegrityAnswers,
    counted: nat,
    steps: nat,
)
    requires
        steps >= 3,
        run.ima_count == 0,
    ensures
        ({
            let (next, asked) = to_ima(run, data);
            course_from(next, asked, data, answers, counted, steps) =~= ima_course(
                run.quote,
                data,
                answers,
                counted,
            )
        }),
{
    if !data.ima_ml_file {
        lemma_course_from_wrap(run, data, answers, counted, steps);
    } else {
        let (next, _) = to_ima(run, data);
        match answers.ima {
            Some(entries) => {
                let with_list = IntegrityModel {
                    quote: QuoteModel {
                        ima_measurement_list: Some(entries.list),
                        ima_measurement_list_entry: Some(entries.first),
                        ..next.quote
                    },
                    ima_count: entries.count,
                    ..next
                };
                lemma_course_from_wrap(with_list, data, answers, counted, (steps - 1) as nat);
            },
            None => {
                reveal_with_fuel(course_from, 2);
            },
        }
    }
}

proof fn lemma_course_from_mask(
    run: IntegrityModel,
    data: DataModel,
    answers: IntegrityAnswers,
    counted: nat,
    steps: nat,
)
    requires
        steps >= 5,
        run.ima_count == 0,
        run.stage is Mask,
    ensures
        course_from(
            run,
            ActionModel::CheckMask { mask: run.mask },
            data,
            answers,
            counted,
            steps,
        ) =~= mask_course(run.quote, data, answers, counted),
{
    let asked = ActionModel::CheckMask { mask: run.mask };
    match answers.pcr0_selected {
        None => {
            reveal_with_fuel(course_from, 2);
        },
        Some(selected) => if selected && data.measuredboot_ml_file {
            let boot = IntegrityModel { stage: IntegrityStage::MeasuredBoot, ..run };
            let read = ActionModel::ReadMeasuredBoot;
            match answers.boot_log {
                BootModel::Read(log) => {
                    let with_log = IntegrityModel {
                        quote: QuoteModel {
                            mb_measurement_list: Some(base64_text(log)),
                            ..boot.quote
                        },
                        ..boot
                    };
                    lemma_course_from_ima(with_log, data, answers, counted, (steps - 2) as nat);
                },
                BootModel::ReadFailed => {
                    lemma_course_from_ima(boot, data, answers, counted, (steps - 2) as nat);
                },
                BootModel::RewindFailed => {
                    reveal_with_fuel(course_from, 2);
                },
            }
            assert(course_from(boot, read, data, answers, counted, (steps - 1) as nat)
                =~= mask_course(run.quote, data, answers, counted));
        } else {
            lemma_course_from_ima(run, data, answers, counted, (steps - 1) as nat);
        },
    }
}

proof fn lemma_course_from_quote(
    run: IntegrityModel,
    data: DataModel,
    answers: IntegrityAnswers,
    counted: nat,
    steps: nat,
)
    requires
        steps >= 6,
        run.ima_count == 0,
        run.stage is Quote,
    ensures
        course_from(
            run,
            ActionModel::TpmQuote { nonce: run.nonce, mask: run.mask },
            data,
            answers,
            counted,
            steps,
        ) =~= match answers.quote {
            Some(tpm_quote) => mask_course(
                with_tpm_quote(run.quote, tpm_quote, data),
                data,
                answers,
                counted,
            ),
            None => failing_course("Unable to retrieve quote"@, counted),
        },
{
    match answers.quote {
        Some(tpm_quote) => {
            let quoted = IntegrityModel {
                stage: IntegrityStage::Mask,
                quote: with_tpm_quote(run.quote, tpm_quote, data),
                ..run
            };
            lemma_course_from_mask(quoted, data, answers, counted, (steps - 1) as nat);
        },
        None => {
            reveal_with_fuel(course_from, 2);
        },
    }
}

/// The course of a request that is not refused.
proof fn lemma_course(
    param: IntegModel,
    data: DataModel,
    answers: IntegrityAnswers,
    counted: nat,
)
    requires
        !refused(param, data),
    ensures
        integrity_course(param, data, answers, counted) =~= if param.partial == "0"@
            && answers.pubkey is None {
            failing_course("Unable to retrieve public key"@, counted)
        } else if answers.quote is None {
            failing_course("Unable to retrieve quote"@, counted)
        } else {
            let pubkey = if param.partial == "0"@ {
                answers.pubkey
            } else {
                None
            };
            mask_course(
                with_tpm_quote(
                    QuoteModel { pubkey, ..blank_quote() },
                    answers.quote.unwrap(),
                    data,
                ),
                data,
                answers,
                counted,
            )
        },
{
    let (run, asked) = integrity_first(param, data);
    if param.partial == "0"@ {
        match answers.pubkey {
            Some(pem) => {
                let with_key = IntegrityModel {
                    stage: IntegrityStage::Quote,
                    quote: QuoteModel { pubkey: Some(pem), ..run.quote },
                    ..run
                };
                lemma_course_from_quote(with_key, data, answers, counted, 6);
            },
            None => {
                reveal_with_fuel(course_from, 2);
            },
        }
    } else {
        assert(run.quote == QuoteModel { pubkey: None, ..blank_quote() });
        lemma_course_from_quote(run, data, answers, counted, 7);
    }
}

/// The course of a request that is refused.
proof fn lemma_refused_course(
    param: IntegModel,
    data: DataModel,
    answers: IntegrityAnswers,
    counted: nat,
)
    requires
        refused(param, data),
    ensures
        ({
            let course = integrity_course(param, data, answers, counted);
            &&& course.end == ActionModel::Reply(integrity_reply(param, data, answers))
            &&& course.wraps == Seq::<Seq<char>>::empty()
            &&& course.metrics == Seq::<(nat, u64)>::empty()
            &&& course.counted == counted
        }),
{
}

/// Every integrity request is answered after at most seven steps: with status 400
/// for bad parameters, with 500 where the machine failed, and otherwise with the
/// signed evidence.
pub proof fn law_integrity_reply(
    param: IntegModel,
    data: DataModel,
    answers: IntegrityAnswers,
    counted: nat,
)
    ensures
        integrity_course(param, data, answers, counted).end == ActionModel::Reply(
            integrity_reply(param, data, answers),
        ),
{
    if refused(param, data) {
        lemma_refused_course(param, data, answers, counted);
    } else {
        lemma_course(param, data, answers, counted);
    }
}

/// The number of entries in the measurement list, and 0 where there is no list.
pub open spec fn list_entries(data: DataModel, answers: IntegrityAnswers) -> u64 {
    if data.ima_ml_file {
        answers.ima.unwrap().count
    } else {
        0
    }
}

/// A request that succeeds is counted, and its metrics are recorded exactly once,
/// under the new count and with the number of entries in the measurement list.
/// One that ends with an error is not counted, and nothing is recorded.
pub proof fn law_metrics_are_recorded_once(
    param: IntegModel,
    data: DataModel,
    answers: IntegrityAnswers,
    counted: nat,
)
    ensures
        ({
            let course = integrity_course(param, data, answers, counted);
            if integrity_reply(param, data, answers) is Success {
                &&& course.counted == counted + 1
                &&& course.metrics == seq![(counted + 1, list_entries(data, answers))]
            } else {
                &&& course.counted == counted
                &&& course.metrics == Seq::<(nat, u64)>::empty()
            }
        }),
{
    if refused(param, data) {
        lemma_refused_course(param, data, answers, counted);
    } else {
        lemma_course(param, data, answers, counted);
    }
}

/// In the course of a request that succeeds, a signature is asked for exactly
/// once, over the quote of the answer, and it is the one in the answer.
pub proof fn law_integrity_wraps_its_quote(
    param: IntegModel,
    data: DataModel,
    answers: IntegrityAnswers,
    counted: nat,
)
    ensures
        integrity_reply(param, data, answers) matches ReplyModel::Success { quote }
            ==> integrity_course(param, data, answers, counted).wraps == seq![quote.quote.quote]
            && answers.signature == Ok::<Seq<u8>, Seq<char>>(quote.pq_wrap_signature),
{
    if refused(param, data) {
        lemma_refused_course(param, data, answers, counted);
    } else {
        lemma_course(param, data, answers, counted);
    }
}

/// Where signatures come from the kernel module, an answer that succeeds brings a
/// signature that is not empty. The module was given the answer's own quote and
/// nothing else, and showed that signature.
pub proof fn law_integrity_is_signed_by_the_module(
    param: IntegModel,
    data: DataModel,
    answers: IntegrityAnswers,
    module: DeviceAnswers,
    counted: nat,
)
    requires
        answers.signature == signing_result(device_signature(Module::Quote, module)),
    ensures
        integrity_reply(param, data, answers) matches ReplyModel::Success { quote } ==> {
            &&& quote.pq_wrap_signature.len() > 0
            &&& quote.pq_wrap_signature_len == quote.pq_wrap_signature.len()
            &&& integrity_course(param, data, answers, counted).wraps == seq![quote.quote.quote]
            &&& module_signs(module, quote.quote.quote, quote.pq_wrap_signature)
        },
{
    law_integrity_wraps_its_quote(param, data, answers, counted);
    if integrity_reply(param, data, answers) is Success {
        lemma_module_signs(module, answers.quote.unwrap());
    }
}

/// A request with the state of the agent and of the machine that it meets.
pub struct Served {
    pub param: IntegModel,
    pub data: DataModel,
    pub answers: IntegrityAnswers,
}

/// The request succeeds.
pub open spec fn succeeds(served: Served) -> bool {
    integrity_reply(served.param, served.data, served.answers) is Success
}

/// The number of requests that succeed.
pub open spec fn successes(served: Seq<Served>) -> nat
    decreases served.len(),
{
    if served.len() == 0 {
        0
    } else {
        successes(served.drop_last()) + if succeeds(served.last()) {
            1nat
        } else {
            0
        }
    }
}

/// How many attestations are counted after requests, one after the other, the
/// first of which met none.
pub open spec fn counted_after(served: Seq<Served>) -> nat
    decreases served.len(),
{
    if served.len() == 0 {
        0
    } else {
        last_course(served).counted
    }
}

/// The course of the last of several requests.
pub open spec fn last_course(served: Seq<Served>) -> IntegrityCourse
    decreases served.len(), 0nat,
    when served.len() > 0
{
    let last = served.last();
    integrity_course(last.param, last.data, last.answers, counted_after(served.drop_last()))
}

/// The numbers with which metrics are recorded in the course of several requests.
pub open spec fn cycles_recorded(served: Seq<Served>) -> Seq<nat>
    decreases served.len(),
{
    if served.len() == 0 {
        Seq::empty()
    } else {
        let metrics = last_course(served).metrics;
        cycles_recorded(served.drop_last()) + Seq::new(metrics.len(), |i: int| metrics[i].0)
    }
}

/// Over any requests, one after the other, the successes are counted and no error
/// is: the first success is recorded under 1, and each further one under the next
/// number. A last request that succeeds is recorded under the number of successes
/// up to it.
pub proof fn law_attestations_are_numbered(served: Seq<Served>)
    ensures
        counted_after(served) == successes(served),
        cycles_recorded(served) == Seq::new(successes(served), |i: int| (i + 1) as nat),
        served.len() > 0 && succeeds(served.last()) ==> last_course(served).metrics == seq![
            (successes(served), list_entries(served.last().data, served.last().answers)),
        ],
        served.len() > 0 && !succeeds(served.last()) ==> last_course(served).metrics
            == Seq::<(nat, u64)>::empty() && counted_after(served) == counted_after(
            served.drop_last(),
        ),
    decreases served.len(),
{
    if served.len() > 0 {
        let before = served.drop_last();
        let last = served.last();
        law_attestations_are_numbered(before);
        law_metrics_are_recorded_once(last.param, last.data, last.answers, counted_after(before));
        assert(cycles_recorded(served) =~= Seq::new(
            successes(served),
            |i: int| (i + 1) as nat,
        ));
    }
}

/// A refused request never reaches the TPM, a list or the signer: the refusal is
/// the first thing that the handler asks for.
pub proof fn law_refused_integrity_touches_nothing(param: IntegModel, data: DataModel)
    requires
        refused(param, data),
    ensures
        integrity_first(param, data).0.stage is Replied,
        integrity_first(param, data).1 matches ActionModel::Reply(ReplyModel::Error { code, .. })
            && code == 400,
{
}

/// The TPM quotes over exactly the nonce of the request and the PCRs of its mask,
/// whether or not the public key was asked for before.
pub proof fn law_quote_is_over_the_request(
    param: IntegModel,
    data: DataModel,
    counted: nat,
    pem: Seq<char>,
)
    requires
        !refused(param, data),
    ensures
        ({
            let (run, action) = integrity_first(param, data);
            let quote_action = if param.partial == "0"@ {
                integrity_next(run, data, counted, EventModel::PublicKey(Some(pem))).1
            } else {
                action
            };
            quote_action matches ActionModel::TpmQuote { nonce, mask } && nonce == encode_utf8(
                param.nonce,
            ) && Some(mask as nat) == mask_value(param.mask)
        }),
{
}

/// Without an IMA measurement list an answer brings neither a list nor an entry
/// number, whatever the request asks for.
pub proof fn law_missing_ima_list(param: IntegModel, data: DataModel, answers: IntegrityAnswers)
    requires
        !data.ima_ml_file,
    ensures
        integrity_reply(param, data, answers) matches ReplyModel::Success { quote }
            ==> quote.quote.ima_measurement_list is None
            && quote.quote.ima_measurement_list_entry is None,
{
}

/// The verifier can tell the measured boot log from the answer: different logs
/// give different answers.
pub proof fn law_boot_log_is_told(
    param: IntegModel,
    data: DataModel,
    answers: IntegrityAnswers,
    log: Seq<u8>,
    other: Seq<u8>,
)
    requires
        boot_log_wanted(data, answers),
        evidence(param, data, IntegrityAnswers { boot_log: BootModel::Read(log), ..answers })
            == evidence(
            param,
            data,
            IntegrityAnswers { boot_log: BootModel::Read(other), ..answers },
        ),
    ensures
        log == other,
{
    let one = evidence(
        param,
        data,
        IntegrityAnswers { boot_log: BootModel::Read(log), ..answers },
    );
    let two = evidence(
        param,
        data,
        IntegrityAnswers { boot_log: BootModel::Read(other), ..answers },
    );
    assert(one.mb_measurement_list == Some(base64_text(log)));
    assert(two.mb_measurement_list == Some(base64_text(other)));
    crate::encoding::law_base64_injective(log, other);
}

/// The handler waits for an event as long as it has not answered, and an event
/// for which it waits leads it on.
pub proof fn law_integrity_is_never_stuck(
    run: IntegrityModel,
    data: DataModel,
    counted: nat,
    event: EventModel,
)
    requires
        integrity_valid(run),
        integrity_awaits(run.stage, event),
    ensures
        ({
            let (next, action) = integrity_next(run, data, counted, event);
            &&& integrity_valid(next)
            &&& next.stage is Replied <==> action is Reply
            &&& next.stage != run.stage
        }),
{
}

/// The answer to a request that the machine failed.
spec fn unable() -> ActionModel {
    ActionModel::Reply(ReplyModel::Error { code: 500, status: "Unable to retrieve quote"@ })
}

/// What is asked for from the signature on.
spec fn wrap_actions(
    quote: QuoteModel,
    ima_count: u64,
    data: DataModel,
    answers: IntegrityAnswers,
    counted: nat,
) -> Seq<ActionModel> {
    seq![ActionModel::WrapQuote { quote: quote.quote }] + match answers.signature {
        Ok(signature) => seq![
            ActionModel::RecordMetrics { cycle: counted + 1, ima_count },
            ActionModel::Reply(ReplyModel::Success { quote: wrapped(quote, data, signature) }),
        ],
        Err(_) => seq![unable()],
    }
}

/// What is asked for from the IMA list on.
spec fn ima_actions(
    quote: QuoteModel,
    data: DataModel,
    answers: IntegrityAnswers,
    counted: nat,
    nth_entry: u64,
) -> Seq<ActionModel> {
    if !data.ima_ml_file {
        wrap_actions(quote, 0, data, answers, counted)
    } else {
        seq![ActionModel::ReadImaList { nth_entry }] + match answers.ima {
            Some(entries) => wrap_actions(
                QuoteModel {
                    ima_measurement_list: Some(entries.list),
                    ima_measurement_list_entry: Some(entries.first),
                    ..quote
                },
                entries.count,
                data,
                answers,
                counted,
            ),
            None => seq![unable()],
        }
    }
}

/// What is asked for from the PCR mask on.
spec fn mask_actions(
    quote: QuoteModel,
    data: DataModel,
    answers: IntegrityAnswers,
    counted: nat,
    mask: u32,
    nth_entry: u64,
) -> Seq<ActionModel> {
    seq![ActionModel::CheckMask { mask }] + match answers.pcr0_selected {
        None => seq![unable()],
        Some(selected) => if selected && data.measuredboot_ml_file {
            seq![ActionModel::ReadMeasuredBoot] + match answers.boot_log {
                BootModel::Read(log) => ima_actions(
                    QuoteModel { mb_measurement_list: Some(base64_text(log)), ..quote },
                    data,
                    answers,
                    counted,
                    nth_entry,
                ),
                BootModel::ReadFailed => ima_actions(quote, data, answers, counted, nth_entry),
                BootModel::RewindFailed => seq![unable()],
            }
        } else {
            ima_actions(quote, data, answers, counted, nth_entry)
        },
    }
}

proof fn lemma_actions_from_wrap(
    run: IntegrityModel,
    data: DataModel,
    answers: IntegrityAnswers,
    counted: nat,
    steps: nat,
)
    requires
        steps >= 2,
    ensures
        ({
            let (next, asked) = to_wrap(run);
            actions_from(next, asked, data, answers, counted, steps) == wrap_actions(
                run.quote,
                run.ima_count,
                data,
                answers,
                counted,
            )
        }),
{
    reveal_with_fuel(actions_from, 3);
    let (next, asked) = to_wrap(run);
    assert(actions_from(next, asked, data, answers, counted, steps) =~= wrap_actions(
        run.quote,
        run.ima_count,
        data,
        answers,
        counted,
    ));
}

proof fn lemma_actions_from_ima(
    run: IntegrityModel,
    data: DataModel,
    answers: IntegrityAnswers,
    counted: nat,
    steps: nat,
)
    requires
        steps >= 3,
        run.ima_count == 0,
    ensures
        ({
            let (next, asked) = to_ima(run, data);
            actions_from(next, asked, data, answers, counted, steps) == ima_actions(
                run.quote,
                data,
                answers,
                counted,
                run.nth_entry,
            )
        }),
{
    if !data.ima_ml_file {
        lemma_actions_from_wrap(run, data, answers, counted, steps);
    } else {
        let (next, _) = to_ima(run, data);
        match answers.ima {
            Some(entries) => {
                let with_list = IntegrityModel {
                    quote: QuoteModel {
                        ima_measurement_list: Some(entries.list),
                        ima_measurement_list_entry: Some(entries.first),
                        ..next.quote
                    },
                    ima_count: entries.count,
                    ..next
                };
                lemma_actions_from_wrap(with_list, data, answers, counted, (steps - 1) as nat);
            },
            None => {
                reveal_with_fuel(actions_from, 2);
            },
        }
    }
}

proof fn lemma_actions_from_mask(
    run: IntegrityModel,
    data: DataModel,
    answers: IntegrityAnswers,
    counted: nat,
    steps: nat,
)
    requires
        steps >= 5,
        run.ima_count == 0,
        run.stage is Mask,
    ensures
        actions_from(
            run,
            ActionModel::CheckMask { mask: run.mask },
            data,
            answers,
            counted,
            steps,
        ) == mask_actions(run.quote, data, answers, counted, run.mask, run.nth_entry),
{
    match answers.pcr0_selected {
        None => {
            reveal_with_fuel(actions_from, 2);
        },
        Some(selected) => if selected && data.measuredboot_ml_file {
            let boot = IntegrityModel { stage: IntegrityStage::MeasuredBoot, ..run };
            let read = ActionModel::ReadMeasuredBoot;
            match answers.boot_log {
                BootModel::Read(log) => {
                    let with_log = IntegrityModel {
                        quote: QuoteModel {
                            mb_measurement_list: Some(base64_text(log)),
                            ..boot.quote
                        },
                        ..boot
                    };
                    lemma_actions_from_ima(with_log, data, answers, counted, (steps - 2) as nat);
                },
                BootModel::ReadFailed => {
                    lemma_actions_from_ima(boot, data, answers, counted, (steps - 2) as nat);
                },
                BootModel::RewindFailed => {
                    reveal_with_fuel(actions_from, 2);
                },
            }
            assert(seq![ActionModel::CheckMask { mask: run.mask }] + actions_from(
                boot,
                read,
                data,
                answers,
                counted,
                (steps - 1) as nat,
            ) == mask_actions(run.quote, data, answers, counted, run.mask, run.nth_entry));
        } else {
            lemma_actions_from_ima(run, data, answers, counted, (steps - 1) as nat);
        },
    }
}

/// What is asked for in the course of a request that is not refused.
proof fn lemma_actions(
    param: IntegModel,
    data: DataModel,
    answers: IntegrityAnswers,
    counted: nat,
)
    requires
        !refused(param, data),
    ensures
        ({
            let nonce = encode_utf8(param.nonce);
            let mask = mask_value(param.mask).unwrap() as u32;
            let nth_entry = first_entry(param.ima_ml_entry) as u64;
            let whole = param.partial == "0"@;
            let rest = seq![ActionModel::TpmQuote { nonce, mask }] + match answers.quote {
                None => seq![unable()],
                Some(text) => mask_actions(
                    QuoteModel {
                        quote: text,
                        hash_alg: data.hash_alg,
                        enc_alg: data.enc_alg,
                        sign_alg: data.sign_alg,
                        pubkey: if whole {
                            answers.pubkey
                        } else {
                            None
                        },
                        ima_measurement_list: None,
                        mb_measurement_list: None,
                        ima_measurement_list_entry: None,
                    },
                    data,
                    answers,
                    counted,
                    mask,
                    nth_entry,
                ),
            };
            integrity_actions(param, data, answers, counted) == if whole {
                seq![ActionModel::ExportPublicKey] + match answers.pubkey {
                    None => seq![
                        ActionModel::Reply(
                            ReplyModel::Error {
                                code: 500,
                                status: "Unable to retrieve public key"@,
                            },
                        ),
                    ],
                    Some(_) => rest,
                }
            } else {
                rest
            }
        }),
{
    let (run, asked) = integrity_first(param, data);
    let whole = param.partial == "0"@;
    if whole && answers.pubkey is None {
        reveal_with_fuel(actions_from, 2);
    } else {
        let ready = if whole {
            IntegrityModel {
                stage: IntegrityStage::Quote,
                quote: QuoteModel { pubkey: answers.pubkey, ..run.quote },
                ..run
            }
        } else {
            run
        };
        let steps: nat = if whole {
            6
        } else {
            7
        };
        let quote = ActionModel::TpmQuote { nonce: run.nonce, mask: run.mask };
        match answers.quote {
            None => {
                reveal_with_fuel(actions_from, 3);
            },
            Some(text) => {
                let quoted = IntegrityModel {
                    stage: IntegrityStage::Mask,
                    quote: with_tpm_quote(ready.quote, text, data),
                    ..ready
                };
                lemma_actions_from_mask(quoted, data, answers, counted, (steps - 1) as nat);
                assert(actions_from(ready, quote, data, answers, counted, steps) == seq![quote]
                    + actions_from(
                    quoted,
                    ActionModel::CheckMask { mask: run.mask },
                    data,
                    answers,
                    counted,
                    (steps - 1) as nat,
                ));
            },
        }
    }
}

/// Nonce and mask are alphanumeric, the mask denotes a 32-bit number, the nonce has
/// no more bytes than the TPM takes, and the request says whether it is partial.
pub open spec fn acceptable(param: IntegModel, data: DataModel) -> bool {
    &&& forall|i: int| 0 <= i < param.nonce.len() ==> alphanumeric(#[trigger] param.nonce[i])
    &&& forall|i: int| 0 <= i < param.mask.len() ==> alphanumeric(#[trigger] param.mask[i])
    &&& mask_value(param.mask) is Some
    &&& encode_utf8(param.nonce).len() <= data.max_nonce_size
    &&& param.partial == "0"@ || param.partial == "1"@
}

/// Why a request is refused: the first of its faults, in a fixed order.
pub proof fn law_integrity_refusal(
    param: IntegModel,
    plain_nonce: bool,
    plain_mask: bool,
    max: nat,
)
    ensures
        ({
            let refusal = integrity_refusal(param, plain_nonce, plain_mask, max);
            let long = encode_utf8(param.nonce).len() > max;
            let neither = param.partial != "0"@ && param.partial != "1"@;
            &&& !plain_nonce ==> refusal == Some(
                "nonce should be strictly alphanumeric: "@ + param.nonce,
            )
            &&& plain_nonce && !plain_mask ==> refusal == Some(
                "mask should be strictly alphanumeric: "@ + param.mask,
            )
            &&& plain_nonce && plain_mask && mask_value(param.mask) is None ==> refusal == Some(
                "mask should be a hex encoded 32-bit integer: "@ + param.mask,
            )
            &&& plain_nonce && plain_mask && mask_value(param.mask) is Some && long ==> refusal
                == Some(
                "Nonce is too long (max size: "@ + decimal(max) + "): "@ + decimal(
                    encode_utf8(param.nonce).len(),
                ),
            )
            &&& plain_nonce && plain_mask && mask_value(param.mask) is Some && !long && neither
                ==> refusal == Some("uri must contain key 'partial' and value '0' or '1'"@)
            &&& refusal is None <==> plain_nonce && plain_mask && mask_value(param.mask) is Some
                && !long && !neither
        }),
{
}

/// A request is answered at once, with status 400 and the reason, exactly if it is
/// not acceptable.
pub proof fn law_integrity_accepts(
    param: IntegModel,
    data: DataModel,
    answers: IntegrityAnswers,
    counted: nat,
)
    ensures
        ({
            let actions = integrity_actions(param, data, answers, counted);
            let plain_nonce = forall|i: int|
                0 <= i < param.nonce.len() ==> alphanumeric(#[trigger] param.nonce[i]);
            let plain_mask = forall|i: int|
                0 <= i < param.mask.len() ==> alphanumeric(#[trigger] param.mask[i]);
            let bad = |status: Seq<char>|
                seq![ActionModel::Reply(ReplyModel::Error { code: 400, status })];
            if !plain_nonce {
                actions == bad("nonce should be strictly alphanumeric: "@ + param.nonce)
            } else if !plain_mask {
                actions == bad("mask should be strictly alphanumeric: "@ + param.mask)
            } else if mask_value(param.mask) is None {
                actions == bad("mask should be a hex encoded 32-bit integer: "@ + param.mask)
            } else if encode_utf8(param.nonce).len() > data.max_nonce_size {
                actions == bad(
                    "Nonce is too long (max size: "@ + decimal(data.max_nonce_size) + "): "@
                        + decimal(encode_utf8(param.nonce).len()),
                )
            } else if param.partial == "0"@ {
                actions[0] == ActionModel::ExportPublicKey
            } else if param.partial == "1"@ {
                actions[0] is TpmQuote
            } else {
                actions == bad("uri must contain key 'partial' and value '0' or '1'"@)
            }
        }),
        acceptable(param, data) <==> !(integrity_actions(param, data, answers, counted)[0] is Reply),
{
    if forall|i: int| 0 <= i < param.nonce.len() ==> alphanumeric(#[trigger] param.nonce[i]) {
        assert(all_alphanumeric(param.nonce));
    }
    if forall|i: int| 0 <= i < param.mask.len() ==> alphanumeric(#[trigger] param.mask[i]) {
        assert(all_alphanumeric(param.mask));
    }
    reveal_strlit("0");
    reveal_strlit("1");
    assert("0"@[0] != "1"@[0]);
    if !refused(param, data) {
        lemma_actions(param, data, answers, counted);
    }
}

/// What is asked for in the course of an acceptable request, in order: the public
/// key if the request is not partial; a quote over the bytes of the nonce and the
/// PCRs of the mask; whether that mask selects PCR 0; the measured boot log if it
/// does and there is one; the IMA list from the entry asked for, if there is one;
/// the signature over that quote; the record; the answer. The first failure is
/// answered with status 500 and nothing is asked for after it.
pub proof fn law_integrity_actions(
    param: IntegModel,
    data: DataModel,
    answers: IntegrityAnswers,
    counted: nat,
    mask: u32,
    nth_entry: u64,
)
    requires
        acceptable(param, data),
        mask_value(param.mask) == Some(mask as nat),
        first_entry(param.ima_ml_entry) == nth_entry,
    ensures
        ({
            let unable = ActionModel::Reply(
                ReplyModel::Error { code: 500, status: "Unable to retrieve quote"@ },
            );
            let whole = param.partial == "0"@;
            let boot_wanted = answers.pcr0_selected == Some(true) && data.measuredboot_ml_file;
            let key = if whole {
                seq![ActionModel::ExportPublicKey]
            } else {
                Seq::empty()
            };
            let quote = key.push(ActionModel::TpmQuote { nonce: encode_utf8(param.nonce), mask });
            let check = quote.push(ActionModel::CheckMask { mask });
            let boot = if boot_wanted {
                check.push(ActionModel::ReadMeasuredBoot)
            } else {
                check
            };
            let list = if data.ima_ml_file {
                boot.push(ActionModel::ReadImaList { nth_entry })
            } else {
                boot
            };
            let wrap = list.push(ActionModel::WrapQuote { quote: answers.quote.unwrap() });
            integrity_actions(param, data, answers, counted) == if whole && answers.pubkey is None {
                key.push(
                    ActionModel::Reply(
                        ReplyModel::Error { code: 500, status: "Unable to retrieve public key"@ },
                    ),
                )
            } else if answers.quote is None {
                quote.push(unable)
            } else if answers.pcr0_selected is None {
                check.push(unable)
            } else if boot_wanted && answers.boot_log is RewindFailed {
                boot.push(unable)
            } else if data.ima_ml_file && answers.ima is None {
                list.push(unable)
            } else if answers.signature is Err {
                wrap.push(unable)
            } else {
                let text = answers.quote.unwrap();
                let signature = answers.signature->Ok_0;
                wrap.push(
                    ActionModel::RecordMetrics {
                        cycle: counted + 1,
                        ima_count: if data.ima_ml_file {
                            answers.ima.unwrap().count
                        } else {
                            0
                        },
                    },
                ).push(
                    ActionModel::Reply(
                        ReplyModel::Success {
                            quote: WrappedModel {
                                pq_algorithm: data.pq_algorithm,
                                pq_wrap_signature: signature,
                                pq_wrap_signature_len: signature.len(),
                                quote_len: encode_utf8(text).len(),
                                quote: QuoteModel {
                                    quote: text,
                                    hash_alg: data.hash_alg,
                                    enc_alg: data.enc_alg,
                                    sign_alg: data.sign_alg,
                                    pubkey: if whole {
                                        answers.pubkey
                                    } else {
                                        None
                                    },
                                    ima_measurement_list: if data.ima_ml_file {
                                        Some(answers.ima.unwrap().list)
                                    } else {
                                        None
                                    },
                                    mb_measurement_list: match answers.boot_log {
                                        BootModel::Read(log) if boot_wanted => Some(
                                            base64_text(log),
                                        ),
                                        _ => None,
                                    },
                                    ima_measurement_list_entry: if data.ima_ml_file {
                                        Some(answers.ima.unwrap().first)
                                    } else {
                                        None
                                    },
                                },
                            },
                        },
                    ),
                )
            }
        }),
{
    assert(all_alphanumeric(param.nonce));
    assert(all_alphanumeric(param.mask));
    lemma_actions(param, data, answers, counted);
}

/// Whatever is asked for in the course of an acceptable request is about that
/// request: each quote is over the bytes of its nonce and the PCRs of its mask, each
/// mask that is checked is its mask, the list is read from its entry on, and what is
/// signed is the quote that the TPM gave. Only the last action is an answer.
pub proof fn law_actions_are_about_the_request(
    param: IntegModel,
    data: DataModel,
    answers: IntegrityAnswers,
    counted: nat,
    i: int,
)
    requires
        acceptable(param, data),
        0 <= i < integrity_actions(param, data, answers, counted).len(),
    ensures
        ({
            let actions = integrity_actions(param, data, answers, counted);
            match actions[i] {
                ActionModel::ExportPublicKey => i == 0 && param.partial == "0"@,
                ActionModel::TpmQuote { nonce, mask } => nonce == encode_utf8(param.nonce) && Some(
                    mask as nat,
                ) == mask_value(param.mask),
                ActionModel::CheckMask { mask } => Some(mask as nat) == mask_value(param.mask),
                ActionModel::ReadMeasuredBoot => data.measuredboot_ml_file
                    && answers.pcr0_selected == Some(true),
                ActionModel::ReadImaList { nth_entry } => data.ima_ml_file && nth_entry
                    == first_entry(param.ima_ml_entry),
                ActionModel::WrapQuote { quote } => answers.quote == Some(quote),
                ActionModel::RecordMetrics { cycle, .. } => cycle == counted + 1 && i
                    == actions.len() - 2,
                ActionModel::Reply(_) => i == actions.len() - 1,
            }
        }),
        integrity_actions(param, data, answers, counted).last() is Reply,
{
    let mask = mask_value(param.mask).unwrap() as u32;
    let nth_entry = first_entry(param.ima_ml_entry) as u64;
    law_integrity_actions(param, data, answers, counted, mask, nth_entry);
    let actions = integrity_actions(param, data, answers, counted);
    assert(actions[i] == actions[i]);
}

/// Where the machine tells rightly whether the mask that it is asked about selects
/// PCR 0, which is its lowest bit, an answer that succeeds brings the measured boot
/// log exactly if the lowest bit of the request's mask is set, there is a log and
/// it could be read.
pub proof fn law_boot_log_goes_with_pcr_0(
    param: IntegModel,
    data: DataModel,
    answers: IntegrityAnswers,
    counted: nat,
)
    requires
        acceptable(param, data),
        forall|i: int|
            0 <= i < integrity_actions(param, data, answers, counted).len() ==> (
            #[trigger] integrity_actions(
                param,
                data,
                answers,
                counted,
            )[i] matches ActionModel::CheckMask { mask } ==> answers.pcr0_selected == Some(
                mask % 2 == 1,
            )),
    ensures
        integrity_actions(param, data, answers, counted).last() matches ActionModel::Reply(
            ReplyModel::Success { quote },
        ) ==> quote.quote.mb_measurement_list == match answers.boot_log {
            BootModel::Read(log) if data.measuredboot_ml_file && mask_value(param.mask).unwrap() % 2
                == 1 => Some(base64_text(log)),
            _ => None,
        },
{
    let mask = mask_value(param.mask).unwrap() as u32;
    let nth_entry = first_entry(param.ima_ml_entry) as u64;
    let actions = integrity_actions(param, data, answers, counted);
    law_integrity_actions(param, data, answers, counted, mask, nth_entry);
    if actions.last() matches ActionModel::Reply(ReplyModel::Success { quote }) {
        let at: int = if param.partial == "0"@ {
            2
        } else {
            1
        };
        assert(actions[at] == (ActionModel::CheckMask { mask }));
    }
}

/// Requests with different nonces or masks ask for different quotes.
pub proof fn law_quotes_tell_the_request(
    one: IntegModel,
    two: IntegModel,
    data: DataModel,
    answers: IntegrityAnswers,
    counted: nat,
    i: int,
    j: int,
)
    requires
        acceptable(one, data),
        acceptable(two, data),
        0 <= i < integrity_actions(one, data, answers, counted).len(),
        0 <= j < integrity_actions(two, data, answers, counted).len(),
        integrity_actions(one, data, answers, counted)[i] is TpmQuote,
        integrity_actions(one, data, answers, counted)[i] == integrity_actions(
            two,
            data,
            answers,
            counted,
        )[j],
    ensures
        one.nonce == two.nonce,
        mask_value(one.mask) == mask_value(two.mask),
{
    law_actions_are_about_the_request(one, data, answers, counted, i);
    law_actions_are_about_the_request(two, data, answers, counted, j);
    encode_utf8_decode_utf8(one.nonce);
    encode_utf8_decode_utf8(two.nonce);
}

/// The handler waits for exactly the event that tells how its last action ended.
pub proof fn law_integrity_waits_for_what_it_asked(
    run: IntegrityModel,
    data: DataModel,
    counted: nat,
    event: EventModel,
    later: EventModel,
)
    requires
        integrity_valid(run),
        integrity_awaits(run.stage, event),
    ensures
        ({
            let (next, action) = integrity_next(run, data, counted, event);
            integrity_awaits(next.stage, later) <==> match action {
                ActionModel::TpmQuote { .. } => later is Quoted,
                ActionModel::ExportPublicKey => later is PublicKey,
                ActionModel::CheckMask { .. } => later is MaskChecked,
                ActionModel::ReadMeasuredBoot => later is MeasuredBoot,
                ActionModel::ReadImaList { .. } => later is ImaList,
                ActionModel::WrapQuote { .. } => later is Wrapped,
                ActionModel::RecordMetrics { .. } => later is Recorded,
                ActionModel::Reply(_) => false,
            }
        }),
{
}

/// The handler waits first for the public key or for the quote, whichever it asked
/// for, unless it has refused the request.
pub proof fn law_integrity_waits_first(param: IntegModel, data: DataModel, event: EventModel)
    ensures
        ({
            let (run, action) = integrity_first(param, data);
            integrity_awaits(run.stage, event) <==> match action {
                ActionModel::ExportPublicKey => event is PublicKey,
                ActionModel::TpmQuote { .. } => event is Quoted,
                _ => false,
            }
        }),
{
}

/// Exactly the event of a signature counts an attestation.
pub proof fn law_signatures_are_counted(counted: nat, event: EventModel)
    ensures
        (event is Wrapped && event->Wrapped_0 is Ok) ==> counted_with(counted, event) == counted
            + 1,
        !(event is Wrapped && event->Wrapped_0 is Ok) ==> counted_with(counted, event) == counted,
{
}

} // verus!
