//! The identity quote: a request of the tenant, which checks no measurements.
//! It is answered with a quote over the nonce and the agent's public key.
use vstd::prelude::*;
use vstd::string::*;
use vstd::utf8::{encode_utf8, encode_utf8_decode_utf8};

use crate::pq_signature::{
    device_signature, lemma_module_signs, module_signs, signing_result, DeviceAnswers, Module,
};
use crate::quotes::{
    add_tpm_quote, asked_to_wrap, bad_request, blank_quote, internal_error, nonce_size, numbered, numbered_text,
    opt_text, with_tpm_quote, wrap_quote, wrapped, ActionModel, DataModel, EventModel, Ident,
    KeylimeQuote, QuoteAction, QuoteData, QuoteEvent, QuoteModel, Reply, ReplyModel,
    WrappedModel,
};
use crate::text::decimal;
use crate::unicode::{all_alphanumeric, alphanumeric, is_all_alphanumeric};

verus! {

/// What the handler waits for.
#[derive(Clone, Copy, Debug, PartialEq, Eq, Structural)]
pub enum IdentityStage {
    Quote,
    PublicKey,
    Wrap,
    Replied,
}

/// A request on its way.
#[derive(Debug)]
pub struct IdentityRun {
    stage: IdentityStage,
    quote: KeylimeQuote,
}

pub struct IdentityModel {
    pub stage: IdentityStage,
    pub quote: QuoteModel,
}

impl View for IdentityRun {
    type V = IdentityModel;

    closed spec fn view(&self) -> IdentityModel {
        IdentityModel { stage: self.stage, quote: self.quote@ }
    }
}

/// Why a nonce is refused, if it is: it must be alphanumeric, and its bytes must
/// not be more than the TPM takes.
pub open spec fn identity_refusal(
    nonce: Seq<char>,
    is_alphanumeric: bool,
    max_nonce_size: nat,
) -> Option<Seq<char>> {
    if !is_alphanumeric {
        Some("Parameters should be strictly alphanumeric: "@ + nonce)
    } else if nonce_size(nonce) > max_nonce_size {
        Some(numbered("Nonce is too long (max size "@, max_nonce_size, "): "@, nonce))
    } else {
        None
    }
}

/// The first step: a request is refused at once, or the TPM is asked for a quote
/// over the nonce with no PCRs but its own.
pub open spec fn identity_first(
    nonce: Seq<char>,
    data: DataModel,
) -> (IdentityModel, ActionModel) {
    match identity_refusal(nonce, all_alphanumeric(nonce), data.max_nonce_size) {
        Some(status) => (
            IdentityModel { stage: IdentityStage::Replied, quote: blank_quote() },
            ActionModel::Reply(ReplyModel::Error { code: 400, status }),
        ),
        None => (
            IdentityModel { stage: IdentityStage::Quote, quote: blank_quote() },
            ActionModel::TpmQuote { nonce: encode_utf8(nonce), mask: 0 },
        ),
    }
}

/// The event is an answer to what the handler waits for.
pub open spec fn identity_awaits(stage: IdentityStage, event: EventModel) -> bool {
    match stage {
        IdentityStage::Quote => event is Quoted,
        IdentityStage::PublicKey => event is PublicKey,
        IdentityStage::Wrap => event is Wrapped,
        IdentityStage::Replied => false,
    }
}

/// The steps after the first: quote, public key, signature, answer. The first
/// failure ends the request.
pub open spec fn identity_next(
    run: IdentityModel,
    data: DataModel,
    event: EventModel,
) -> (IdentityModel, ActionModel) {
    let failed = |status: Seq<char>|
        (
            IdentityModel { stage: IdentityStage::Replied, quote: run.quote },
            ActionModel::Reply(ReplyModel::Error { code: 500, status }),
        );
    match event {
        EventModel::Quoted(Some(tpm_quote)) => (
            IdentityModel {
                stage: IdentityStage::PublicKey,
                quote: with_tpm_quote(run.quote, tpm_quote, data),
            },
            ActionModel::ExportPublicKey,
        ),
        EventModel::PublicKey(Some(pem)) => (
            IdentityModel {
                stage: IdentityStage::Wrap,
                quote: QuoteModel { pubkey: Some(pem), ..run.quote },
            },
            ActionModel::WrapQuote { quote: run.quote.quote },
        ),
        EventModel::Wrapped(Ok(signature)) => (
            IdentityModel { stage: IdentityStage::Replied, quote: blank_quote() },
            ActionModel::Reply(ReplyModel::Success { quote: wrapped(run.quote, data, signature) }),
        ),
        EventModel::Wrapped(Err(text)) => failed(
            "Critical error: unable to perform PQ wrap – "@ + text,
        ),
        _ => failed("Unable to retrieve quote"@),
    }
}

/// Decides whether a nonce is refused, given whether it is alphanumeric.
pub fn refuse_identity(nonce: &str, is_alphanumeric: bool, max_nonce_size: usize) -> (res: Option<
    String,
>)
    ensures
        opt_text(res) == identity_refusal(
            nonce@,
            is_alphanumeric,
            max_nonce_size as nat,
        ),
{
    if !is_alphanumeric {
        let mut status = "Parameters should be strictly alphanumeric: ".to_owned();
        status.append(nonce);
        return Some(status);
    }
    if nonce.as_bytes().len() > max_nonce_size {
        return Some(
            numbered_text("Nonce is too long (max size ", max_nonce_size, "): ", nonce),
        );
    }
    None
}

/// Takes an identity quote request in.
pub fn identity(param: &Ident, data: &QuoteData) -> (res: (IdentityRun, QuoteAction))
    ensures
        (res.0@, res.1@) == identity_first(param@, data@),
{
    let alphanumeric = is_all_alphanumeric(param.nonce.as_str());
    match refuse_identity(param.nonce.as_str(), alphanumeric, data.max_nonce_size) {
        Some(status) => (
            IdentityRun { stage: IdentityStage::Replied, quote: KeylimeQuote::default() },
            bad_request(status),
        ),
        None => (
            IdentityRun { stage: IdentityStage::Quote, quote: KeylimeQuote::default() },
            QuoteAction::TpmQuote { nonce: param.nonce.as_str().as_bytes_vec(), mask: 0 },
        ),
    }
}

impl IdentityRun {
    /// What the handler waits for.
    pub fn stage(&self) -> (res: IdentityStage)
        ensures
            res == self@.stage,
    {
        self.stage
    }

    /// Takes in how the last step ended and says what comes next.
    pub fn step(self, data: &QuoteData, event: QuoteEvent) -> (res: (IdentityRun, QuoteAction))
        requires
            identity_awaits(self@.stage, event@),
        ensures
            (res.0@, res.1@) == identity_next(self@, data@, event@),
    {
        let quote = self.quote;
        match event {
            QuoteEvent::Quoted(Some(tpm_quote)) => (
                IdentityRun {
                    stage: IdentityStage::PublicKey,
                    quote: add_tpm_quote(quote, tpm_quote, data),
                },
                QuoteAction::ExportPublicKey,
            ),
            QuoteEvent::PublicKey(Some(pem)) => {
                let text = quote.quote.clone();
                (
                    IdentityRun {
                        stage: IdentityStage::Wrap,
                        quote: KeylimeQuote { pubkey: Some(pem), ..quote },
                    },
                    QuoteAction::WrapQuote { quote: text },
                )
            },
            QuoteEvent::Wrapped(Ok(signature)) => (
                IdentityRun { stage: IdentityStage::Replied, quote: KeylimeQuote::default() },
                QuoteAction::Reply(Reply::Success { quote: wrap_quote(quote, data, signature) }),
            ),
            QuoteEvent::Wrapped(Err(text)) => {
                let mut status = "Critical error: unable to perform PQ wrap – ".to_owned();
                status.append(text.as_str());
                (
                    IdentityRun { stage: IdentityStage::Replied, quote },
                    internal_error(status.as_str()),
                )
            },
            _ => (
                IdentityRun { stage: IdentityStage::Replied, quote },
                internal_error("Unable to retrieve quote"),
            ),
        }
    }
}

/// What the machine answers to the steps of an identity request.
pub struct IdentityAnswers {
    pub quote: Option<Seq<char>>,
    pub pubkey: Option<Seq<char>>,
    pub signature: Result<Seq<u8>, Seq<char>>,
}

/// The event that tells the handler the machine's answer.
pub open spec fn identity_event(stage: IdentityStage, answers: IdentityAnswers) -> EventModel {
    match stage {
        IdentityStage::Quote => EventModel::Quoted(answers.quote),
        IdentityStage::PublicKey => EventModel::PublicKey(answers.pubkey),
        _ => EventModel::Wrapped(answers.signature),
    }
}

/// What is asked for in the course of a request.
#[verifier::ext_equal]
pub struct IdentityCourse {
    /// What is asked for last.
    pub end: ActionModel,
    /// The quotes for which a signature is asked.
    pub wraps: Seq<Seq<char>>,
}

/// The course of a request from `action` on, for at most `steps` further steps.
pub open spec fn course_from(
    run: IdentityModel,
    action: ActionModel,
    data: DataModel,
    answers: IdentityAnswers,
    steps: nat,
) -> IdentityCourse
    decreases steps,
{
    if steps == 0 || run.stage is Replied {
        IdentityCourse { end: action, wraps: asked_to_wrap(action) }
    } else {
        let (next, asked) = identity_next(run, data, identity_event(run.stage, answers));
        let rest = course_from(next, asked, data, answers, (steps - 1) as nat);
        IdentityCourse { wraps: asked_to_wrap(action) + rest.wraps, ..rest }
    }
}

/// The course of a request.
pub open spec fn identity_course(
    nonce: Seq<char>,
    data: DataModel,
    answers: IdentityAnswers,
) -> IdentityCourse {
    let (run, action) = identity_first(nonce, data);
    course_from(run, action, data, answers, 3)
}

/// What is asked for from `action` on, in order, for at most `steps` further
/// steps.
pub open spec fn actions_from(
    run: IdentityModel,
    action: ActionModel,
    data: DataModel,
    answers: IdentityAnswers,
    steps: nat,
) -> Seq<ActionModel>
    decreases steps,
{
    if steps == 0 || run.stage is Replied {
        seq![action]
    } else {
        let (next, asked) = identity_next(run, data, identity_event(run.stage, answers));
        seq![action] + actions_from(next, asked, data, answers, (steps - 1) as nat)
    }
}

/// What is asked for in the course of a request, in order, up to the answer.
pub open spec fn identity_actions(
    nonce: Seq<char>,
    data: DataModel,
    answers: IdentityAnswers,
) -> Seq<ActionModel> {
    let (run, action) = identity_first(nonce, data);
    actions_from(run, action, data, answers, 3)
}

/// The answer to an identity request as a whole.
pub open spec fn identity_reply(
    nonce: Seq<char>,
    data: DataModel,
    answers: IdentityAnswers,
) -> ReplyModel {
    match identity_refusal(nonce, all_alphanumeric(nonce), data.max_nonce_size) {
        Some(status) => ReplyModel::Error { code: 400, status },
        None => match answers {
            IdentityAnswers { quote: Some(quote), pubkey: Some(pem), signature: Ok(signature) } =>
            ReplyModel::Success {
                quote: wrapped(
                    QuoteModel {
                        pubkey: Some(pem),
                        ..with_tpm_quote(blank_quote(), quote, data)
                    },
                    data,
                    signature,
                ),
            },
            IdentityAnswers { quote: Some(_), pubkey: Some(_), signature: Err(text) } =>
            ReplyModel::Error {
                code: 500,
                status: "Critical error: unable to perform PQ wrap – "@ + text,
            },
            _ => ReplyModel::Error { code: 500, status: "Unable to retrieve quote"@ },
        },
    }
}

/// Every identity request is answered after at most three steps: with status 400
/// for a bad nonce, with 500 where quote, key or signature failed, and otherwise
/// with the signed quote, the algorithms and the public key, and no lists.
pub proof fn law_identity_reply(nonce: Seq<char>, data: DataModel, answers: IdentityAnswers)
    ensures
        identity_course(nonce, data, answers).end == ActionModel::Reply(
            identity_reply(nonce, data, answers),
        ),
{
    reveal_with_fuel(course_from, 4);
}

/// In the course of a request that succeeds, a signature is asked for exactly
/// once, over the quote of the answer, and it is the one in the answer.
pub proof fn law_identity_wraps_its_quote(
    nonce: Seq<char>,
    data: DataModel,
    answers: IdentityAnswers,
)
    ensures
        identity_reply(nonce, data, answers) matches ReplyModel::Success { quote }
            ==> identity_course(nonce, data, answers).wraps == seq![quote.quote.quote]
            && answers.signature == Ok::<Seq<u8>, Seq<char>>(quote.pq_wrap_signature),
{
    reveal_with_fuel(course_from, 4);
}

/// Where signatures come from the kernel module, an answer that succeeds brings a
/// signature that is not empty. The module was given the answer's own quote and
/// nothing else, and showed that signature.
pub proof fn law_identity_is_signed_by_the_module(
    nonce: Seq<char>,
    data: DataModel,
    answers: IdentityAnswers,
    module: DeviceAnswers,
)
    requires
        answers.signature == signing_result(device_signature(Module::Quote, module)),
    ensures
        identity_reply(nonce, data, answers) matches ReplyModel::Success { quote } ==> {
            &&& quote.pq_wrap_signature.len() > 0
            &&& quote.pq_wrap_signature_len == quote.pq_wrap_signature.len()
            &&& identity_course(nonce, data, answers).wraps == seq![quote.quote.quote]
            &&& module_signs(module, quote.quote.quote, quote.pq_wrap_signature)
        },
{
    law_identity_wraps_its_quote(nonce, data, answers);
    if identity_reply(nonce, data, answers) is Success {
        lemma_module_signs(module, answers.quote.unwrap());
    }
}

/// A refused request never reaches the TPM, the key or the signer: the refusal is
/// the first thing that the handler asks for.
pub proof fn law_refused_identity_touches_nothing(nonce: Seq<char>, data: DataModel)
    requires
        !all_alphanumeric(nonce) || nonce_size(nonce) > data.max_nonce_size,
    ensures
        identity_first(nonce, data).0.stage is Replied,
        identity_first(nonce, data).1 matches ActionModel::Reply(ReplyModel::Error { code, .. })
            && code == 400,
{
}

/// The handler waits for an event as long as it has not answered, and an event
/// for which it waits leads it on.
pub proof fn law_identity_is_never_stuck(
    run: IdentityModel,
    data: DataModel,
    event: EventModel,
)
    requires
        identity_awaits(run.stage, event),
    ensures
        identity_next(run, data, event).0.stage is Replied <==> identity_next(
            run,
            data,
            event,
        ).1 is Reply,
        identity_next(run, data, event).0.stage != run.stage,
{
}

/// A nonce is accepted exactly if all of its characters are alphanumeric and its
/// bytes are not more than the TPM takes. Any other is answered at once with
/// status 400, and the answer quotes the nonce.
pub proof fn law_identity_accepts(nonce: Seq<char>, data: DataModel, answers: IdentityAnswers)
    ensures
        ({
            let actions = identity_actions(nonce, data, answers);
            let plain = forall|i: int| 0 <= i < nonce.len() ==> alphanumeric(#[trigger] nonce[i]);
            if !plain {
                actions == seq![
                    ActionModel::Reply(
                        ReplyModel::Error {
                            code: 400,
                            status: "Parameters should be strictly alphanumeric: "@ + nonce,
                        },
                    ),
                ]
            } else if encode_utf8(nonce).len() > data.max_nonce_size {
                actions == seq![
                    ActionModel::Reply(
                        ReplyModel::Error {
                            code: 400,
                            status: "Nonce is too long (max size "@ + decimal(data.max_nonce_size)
                                + "): "@ + nonce,
                        },
                    ),
                ]
            } else {
                actions[0] == (ActionModel::TpmQuote { nonce: encode_utf8(nonce), mask: 0 })
            }
        }),
{
    reveal_with_fuel(actions_from, 2);
    if forall|i: int| 0 <= i < nonce.len() ==> alphanumeric(#[trigger] nonce[i]) {
        assert(all_alphanumeric(nonce));
    }
}

/// What is asked for in the course of a request with an accepted nonce, in order:
/// a quote over the bytes of the nonce and no PCRs, the public key, the signature
/// over that quote, and the answer. The first failure is answered with status 500
/// and nothing is asked for after it.
pub proof fn law_identity_actions(nonce: Seq<char>, data: DataModel, answers: IdentityAnswers)
    requires
        forall|i: int| 0 <= i < nonce.len() ==> alphanumeric(#[trigger] nonce[i]),
        encode_utf8(nonce).len() <= data.max_nonce_size,
    ensures
        ({
            let actions = identity_actions(nonce, data, answers);
            let quote = ActionModel::TpmQuote { nonce: encode_utf8(nonce), mask: 0 };
            let unable = ActionModel::Reply(
                ReplyModel::Error { code: 500, status: "Unable to retrieve quote"@ },
            );
            match (answers.quote, answers.pubkey, answers.signature) {
                (None, _, _) => actions == seq![quote, unable],
                (Some(_), None, _) => actions == seq![quote, ActionModel::ExportPublicKey, unable],
                (Some(text), Some(_), Err(why)) => actions == seq![
                    quote,
                    ActionModel::ExportPublicKey,
                    ActionModel::WrapQuote { quote: text },
                    ActionModel::Reply(
                        ReplyModel::Error {
                            code: 500,
                            status: "Critical error: unable to perform PQ wrap – "@ + why,
                        },
                    ),
                ],
                (Some(text), Some(pem), Ok(signature)) => actions == seq![
                    quote,
                    ActionModel::ExportPublicKey,
                    ActionModel::WrapQuote { quote: text },
                    ActionModel::Reply(
                        ReplyModel::Success {
                            quote: WrappedModel {
                                pq_algorithm: data.pq_algorithm,
                                pq_wrap_signature: signature,
                                pq_wrap_signature_len: signature.len(),
                                quote_len: encode_utf8(text).len(),
                                quote: QuoteModel {
                                    quote: text,
                                    hash_alg: data.hash_alg,
                                    enc_alg: data.enc_alg,
                                    sign_alg: data.sign_alg,
                                    pubkey: Some(pem),
                                    ima_measurement_list: None,
                                    mb_measurement_list: None,
                                    ima_measurement_list_entry: None,
                                },
                            },
                        },
                    ),
                ],
            }
        }),
{
    reveal_with_fuel(actions_from, 4);
    assert(all_alphanumeric(nonce));
}

/// The TPM is asked for exactly one quote in the course of a request with an
/// accepted nonce, and requests with different nonces ask for quotes over
/// different bytes.
pub proof fn law_identity_quote_is_over_the_nonce(
    one: Seq<char>,
    two: Seq<char>,
    data: DataModel,
    answers: IdentityAnswers,
    i: int,
    j: int,
)
    requires
        forall|k: int| 0 <= k < one.len() ==> alphanumeric(#[trigger] one[k]),
        encode_utf8(one).len() <= data.max_nonce_size,
        forall|k: int| 0 <= k < two.len() ==> alphanumeric(#[trigger] two[k]),
        encode_utf8(two).len() <= data.max_nonce_size,
        0 <= i < identity_actions(one, data, answers).len(),
        0 <= j < identity_actions(two, data, answers).len(),
    ensures
        identity_actions(one, data, answers)[i] is TpmQuote <==> i == 0,
        identity_actions(one, data, answers)[i] matches ActionModel::TpmQuote { nonce, mask }
            ==> nonce == encode_utf8(one) && mask == 0,
        identity_actions(one, data, answers)[i] is TpmQuote && identity_actions(
            one,
            data,
            answers,
        )[i] == identity_actions(two, data, answers)[j] ==> one == two,
{
    law_identity_actions(one, data, answers);
    law_identity_actions(two, data, answers);
    encode_utf8_decode_utf8(one);
    encode_utf8_decode_utf8(two);
}

/// The handler waits for exactly the event that tells how its last action ended.
pub proof fn law_identity_waits_for_what_it_asked(
    run: IdentityModel,
    data: DataModel,
    event: EventModel,
    later: EventModel,
)
    requires
        identity_awaits(run.stage, event),
    ensures
        ({
            let (next, action) = identity_next(run, data, event);
            identity_awaits(next.stage, later) <==> match action {
                ActionModel::TpmQuote { .. } => later is Quoted,
                ActionModel::ExportPublicKey => later is PublicKey,
                ActionModel::WrapQuote { .. } => later is Wrapped,
                _ => false,
            }
        }),
{
}

/// The handler waits first for the quote, unless it has refused the nonce.
pub proof fn law_identity_waits_first(nonce: Seq<char>, data: DataModel, event: EventModel)
    ensures
        ({
            let (run, action) = identity_first(nonce, data);
            identity_awaits(run.stage, event) <==> action is TpmQuote && event is Quoted
        }),
{
}

/// Why a nonce is refused: it is not alphanumeric, whatever its length, or its
/// bytes are too many.
pub proof fn law_identity_refusal(nonce: Seq<char>, max: nat)
    ensures
        identity_refusal(nonce, false, max) == Some(
            "Parameters should be strictly alphanumeric: "@ + nonce,
        ),
        identity_refusal(nonce, true, max) is None <==> encode_utf8(nonce).len() <= max,
        encode_utf8(nonce).len() > max ==> identity_refusal(nonce, true, max) == Some(
            "Nonce is too long (max size "@ + decimal(max) + "): "@ + nonce,
        ),
{
}

} // verus!
