//! Quote requests and their answers, and what the handlers ask of the program
//! around them.
use vstd::prelude::*;
use vstd::string::*;
use vstd::utf8::encode_utf8;

use crate::text::{decimal, decimal_text};

verus! {

/// The parameters of an identity quote request.
#[derive(Debug)]
pub struct Ident {
    pub nonce: String,
}

/// The parameters of an integrity quote request.
#[derive(Debug)]
pub struct Integ {
    pub nonce: String,
    pub mask: String,
    pub partial: String,
    pub ima_ml_entry: Option<String>,
}

/// What the quote handlers read of the agent's state.
#[derive(Debug)]
pub struct QuoteData {
    /// The names of the algorithms, as they appear in answers.
    pub hash_alg: String,
    pub enc_alg: String,
    pub sign_alg: String,
    pub pq_algorithm: String,
    /// The longest nonce, in bytes, that the TPM takes.
    pub max_nonce_size: usize,
    /// Whether the IMA measurement list could be opened.
    pub ima_ml_file: bool,
    /// Whether the measured boot log could be opened.
    pub measuredboot_ml_file: bool,
}

/// A TPM quote with what belongs to it.
#[derive(Debug)]
pub struct KeylimeQuote {
    /// `r`, the quote, its signature and the PCR values.
    pub quote: String,
    pub hash_alg: String,
    pub enc_alg: String,
    pub sign_alg: String,
    pub pubkey: Option<String>,
    pub ima_measurement_list: Option<String>,
    pub mb_measurement_list: Option<String>,
    pub ima_measurement_list_entry: Option<u64>,
}

/// A quote wrapped in a post-quantum signature.
#[derive(Debug)]
pub struct PQquote {
    pub pq_algorithm: String,
    pub pq_wrap_signature: Vec<u8>,
    pub pq_wrap_signature_len: usize,
    pub quote_len: usize,
    pub quote: String,
    pub hash_alg: String,
    pub enc_alg: String,
    pub sign_alg: String,
    pub pubkey: Option<String>,
    pub ima_measurement_list: Option<String>,
    pub mb_measurement_list: Option<String>,
    pub ima_measurement_list_entry: Option<u64>,
}

/// The answer to a request. The code of an error is both the HTTP status and the
/// code in the body.
#[derive(Debug)]
pub enum Reply {
    Error { code: u16, status: String },
    Success { quote: PQquote },
}

/// What a handler asks for next.
#[derive(Debug)]
pub enum QuoteAction {
    /// Answer the request; nothing comes after it.
    Reply(Reply),
    /// Let the TPM quote the PCRs of the mask over the nonce.
    TpmQuote { nonce: Vec<u8>, mask: u32 },
    /// Write the agent's public key as PEM.
    ExportPublicKey,
    /// Find out whether the mask selects PCR 0.
    CheckMask { mask: u32 },
    /// Read the measured boot log from its start.
    ReadMeasuredBoot,
    /// Read the IMA measurement list from the given entry on.
    ReadImaList { nth_entry: u64 },
    /// Let the post-quantum signer sign the quote.
    WrapQuote { quote: String },
    /// Record how long the steps of the attestation took, under its number.
    RecordMetrics { cycle: usize, ima_count: u64 },
}

/// The part of the IMA measurement list that was read.
#[derive(Debug)]
pub struct ImaEntries {
    pub list: String,
    /// The entry that the part starts with.
    pub first: u64,
    /// The number of entries in the whole list.
    pub count: u64,
}

/// How reading the measured boot log ended.
#[derive(Debug)]
pub enum BootLog {
    /// The file could not be rewound.
    RewindFailed,
    /// The file could not be read.
    ReadFailed,
    Read(Vec<u8>),
}

/// How the step that was asked for ended.
#[derive(Debug)]
pub enum QuoteEvent {
    Quoted(Option<String>),
    PublicKey(Option<String>),
    /// Whether the mask selects PCR 0; `None` where it cannot be told.
    MaskChecked(Option<bool>),
    MeasuredBoot(BootLog),
    ImaList(Option<ImaEntries>),
    /// The signature, or what is said of the failure.
    Wrapped(Result<Vec<u8>, String>),
    Recorded,
}

/// The contents of an optional text.
pub open spec fn opt_text(s: Option<String>) -> Option<Seq<char>> {
    match s {
        Some(s) => Some(s@),
        None => None,
    }
}

pub struct IntegModel {
    pub nonce: Seq<char>,
    pub mask: Seq<char>,
    pub partial: Seq<char>,
    pub ima_ml_entry: Option<Seq<char>>,
}

pub struct DataModel {
    pub hash_alg: Seq<char>,
    pub enc_alg: Seq<char>,
    pub sign_alg: Seq<char>,
    pub pq_algorithm: Seq<char>,
    pub max_nonce_size: nat,
    pub ima_ml_file: bool,
    pub measuredboot_ml_file: bool,
}

#[verifier::ext_equal]
pub struct QuoteModel {
    pub quote: Seq<char>,
    pub hash_alg: Seq<char>,
    pub enc_alg: Seq<char>,
    pub sign_alg: Seq<char>,
    pub pubkey: Option<Seq<char>>,
    pub ima_measurement_list: Option<Seq<char>>,
    pub mb_measurement_list: Option<Seq<char>>,
    pub ima_measurement_list_entry: Option<u64>,
}

#[verifier::ext_equal]
pub struct WrappedModel {
    pub pq_algorithm: Seq<char>,
    pub pq_wrap_signature: Seq<u8>,
    pub pq_wrap_signature_len: nat,
    pub quote_len: nat,
    pub quote: QuoteModel,
}

pub enum ReplyModel {
    Error { code: u16, status: Seq<char> },
    Success { quote: WrappedModel },
}

pub enum ActionModel {
    Reply(ReplyModel),
    TpmQuote { nonce: Seq<u8>, mask: u32 },
    ExportPublicKey,
    CheckMask { mask: u32 },
    ReadMeasuredBoot,
    ReadImaList { nth_entry: u64 },
    WrapQuote { quote: Seq<char> },
    RecordMetrics { cycle: nat, ima_count: u64 },
}

pub struct ImaModel {
    pub list: Seq<char>,
    pub first: u64,
    pub count: u64,
}

pub enum BootModel {
    RewindFailed,
    ReadFailed,
    Read(Seq<u8>),
}

pub enum EventModel {
    Quoted(Option<Seq<char>>),
    PublicKey(Option<Seq<char>>),
    MaskChecked(Option<bool>),
    MeasuredBoot(BootModel),
    ImaList(Option<ImaModel>),
    Wrapped(Result<Seq<u8>, Seq<char>>),
    Recorded,
}

impl View for Ident {
    type V = Seq<char>;

    open spec fn view(&self) -> Seq<char> {
        self.nonce@
    }
}

impl View for Integ {
    type V = IntegModel;

    open spec fn view(&self) -> IntegModel {
        IntegModel {
            nonce: self.nonce@,
            mask: self.mask@,
            partial: self.partial@,
            ima_ml_entry: opt_text(self.ima_ml_entry),
        }
    }
}

impl View for QuoteData {
    type V = DataModel;

    open spec fn view(&self) -> DataModel {
        DataModel {
            hash_alg: self.hash_alg@,
            enc_alg: self.enc_alg@,
            sign_alg: self.sign_alg@,
            pq_algorithm: self.pq_algorithm@,
            max_nonce_size: self.max_nonce_size as nat,
            ima_ml_file: self.ima_ml_file,
            measuredboot_ml_file: self.measuredboot_ml_file,
        }
    }
}

impl View for KeylimeQuote {
    type V = QuoteModel;

    open spec fn view(&self) -> QuoteModel {
        QuoteModel {
            quote: self.quote@,
            hash_alg: self.hash_alg@,
            enc_alg: self.enc_alg@,
            sign_alg: self.sign_alg@,
            pubkey: opt_text(self.pubkey),
            ima_measurement_list: opt_text(self.ima_measurement_list),
            mb_measurement_list: opt_text(self.mb_measurement_list),
            ima_measurement_list_entry: self.ima_measurement_list_entry,
        }
    }
}

impl View for PQquote {
    type V = WrappedModel;

    open spec fn view(&self) -> WrappedModel {
        WrappedModel {
            pq_algorithm: self.pq_algorithm@,
            pq_wrap_signature: self.pq_wrap_signature@,
            pq_wrap_signature_len: self.pq_wrap_signature_len as nat,
            quote_len: self.quote_len as nat,
            quote: QuoteModel {
                quote: self.quote@,
                hash_alg: self.hash_alg@,
                enc_alg: self.enc_alg@,
                sign_alg: self.sign_alg@,
                pubkey: opt_text(self.pubkey),
                ima_measurement_list: opt_text(self.ima_measurement_list),
                mb_measurement_list: opt_text(self.mb_measurement_list),
                ima_measurement_list_entry: self.ima_measurement_list_entry,
            },
        }
    }
}

impl View for Reply {
    type V = ReplyModel;

    open spec fn view(&self) -> ReplyModel {
        match self {
            Reply::Error { code, status } => ReplyModel::Error { code: *code, status: status@ },
            Reply::Success { quote } => ReplyModel::Success { quote: quote@ },
        }
    }
}

impl View for QuoteAction {
    type V = ActionModel;

    open spec fn view(&self) -> ActionModel {
        match self {
            QuoteAction::Reply(reply) => ActionModel::Reply(reply@),
            QuoteAction::TpmQuote { nonce, mask } => ActionModel::TpmQuote {
                nonce: nonce@,
                mask: *mask,
            },
            QuoteAction::ExportPublicKey => ActionModel::ExportPublicKey,
            QuoteAction::CheckMask { mask } => ActionModel::CheckMask { mask: *mask },
            QuoteAction::ReadMeasuredBoot => ActionModel::ReadMeasuredBoot,
            QuoteAction::ReadImaList { nth_entry } => ActionModel::ReadImaList {
                nth_entry: *nth_entry,
            },
            QuoteAction::WrapQuote { quote } => ActionModel::WrapQuote { quote: quote@ },
            QuoteAction::RecordMetrics { cycle, ima_count } => ActionModel::RecordMetrics {
                cycle: *cycle as nat,
                ima_count: *ima_count,
            },
        }
    }
}

impl View for BootLog {
    type V = BootModel;

    open spec fn view(&self) -> BootModel {
        match self {
            BootLog::RewindFailed => BootModel::RewindFailed,
            BootLog::ReadFailed => BootModel::ReadFailed,
            BootLog::Read(bytes) => BootModel::Read(bytes@),
        }
    }
}

impl View for QuoteEvent {
    type V = EventModel;

    open spec fn view(&self) -> EventModel {
        match self {
            QuoteEvent::Quoted(quote) => EventModel::Quoted(opt_text(*quote)),
            QuoteEvent::PublicKey(pem) => EventModel::PublicKey(opt_text(*pem)),
            QuoteEvent::MaskChecked(selected) => EventModel::MaskChecked(*selected),
            QuoteEvent::MeasuredBoot(log) => EventModel::MeasuredBoot(log@),
            QuoteEvent::ImaList(Some(entries)) => EventModel::ImaList(
                Some(ImaModel { list: entries.list@, first: entries.first, count: entries.count }),
            ),
            QuoteEvent::ImaList(None) => EventModel::ImaList(None),
            QuoteEvent::Wrapped(Ok(signature)) => EventModel::Wrapped(Ok(signature@)),
            QuoteEvent::Wrapped(Err(text)) => EventModel::Wrapped(Err(text@)),
            QuoteEvent::Recorded => EventModel::Recorded,
        }
    }
}

/// A quote in which nothing is filled in.
pub open spec fn blank_quote() -> QuoteModel {
    QuoteModel {
        quote: Seq::empty(),
        hash_alg: Seq::empty(),
        enc_alg: Seq::empty(),
        sign_alg: Seq::empty(),
        pubkey: None,
        ima_measurement_list: None,
        mb_measurement_list: None,
        ima_measurement_list_entry: None,
    }
}

/// The quote with the TPM's part and the names of the algorithms filled in.
pub open spec fn with_tpm_quote(
    quote: QuoteModel,
    tpm_quote: Seq<char>,
    data: DataModel,
) -> QuoteModel {
    QuoteModel {
        quote: tpm_quote,
        hash_alg: data.hash_alg,
        enc_alg: data.enc_alg,
        sign_alg: data.sign_alg,
        ..quote
    }
}

/// The quote wrapped: the signature and the quote go with their lengths in bytes.
pub open spec fn wrapped(
    quote: QuoteModel,
    data: DataModel,
    signature: Seq<u8>,
) -> WrappedModel {
    WrappedModel {
        pq_algorithm: data.pq_algorithm,
        pq_wrap_signature: signature,
        pq_wrap_signature_len: signature.len(),
        quote_len: encode_utf8(quote.quote).len(),
        quote,
    }
}

impl Default for KeylimeQuote {
    fn default() -> (res: KeylimeQuote)
        ensures
            res@ == blank_quote(),
    {
        KeylimeQuote {
            quote: String::new(),
            hash_alg: String::new(),
            enc_alg: String::new(),
            sign_alg: String::new(),
            pubkey: None,
            ima_measurement_list: None,
            mb_measurement_list: None,
            ima_measurement_list_entry: None,
        }
    }
}

/// Fills in the TPM's part and the names of the algorithms.
pub fn add_tpm_quote(quote: KeylimeQuote, tpm_quote: String, data: &QuoteData) -> (res: KeylimeQuote)
    ensures
        res@ == with_tpm_quote(quote@, tpm_quote@, data@),
{
    KeylimeQuote {
        quote: tpm_quote,
        hash_alg: data.hash_alg.clone(),
        enc_alg: data.enc_alg.clone(),
        sign_alg: data.sign_alg.clone(),
        ..quote
    }
}

/// Wraps a quote.
pub fn wrap_quote(quote: KeylimeQuote, data: &QuoteData, signature: Vec<u8>) -> (res: PQquote)
    ensures
        res@ == wrapped(quote@, data@, signature@),
{
    PQquote {
        pq_algorithm: data.pq_algorithm.clone(),
        pq_wrap_signature_len: signature.len(),
        pq_wrap_signature: signature,
        quote_len: quote.quote.as_str().as_bytes().len(),
        quote: quote.quote,
        hash_alg: quote.hash_alg,
        enc_alg: quote.enc_alg,
        sign_alg: quote.sign_alg,
        pubkey: quote.pubkey,
        ima_measurement_list: quote.ima_measurement_list,
        mb_measurement_list: quote.mb_measurement_list,
        ima_measurement_list_entry: quote.ima_measurement_list_entry,
    }
}

/// The quote that an action asks a signature for, if it does.
pub open spec fn asked_to_wrap(action: ActionModel) -> Seq<Seq<char>> {
    match action {
        ActionModel::WrapQuote { quote } => seq![quote],
        _ => Seq::empty(),
    }
}

/// The number of bytes of a nonce.
pub open spec fn nonce_size(nonce: Seq<char>) -> nat {
    encode_utf8(nonce).len()
}

/// Refuses a request with status 400.
pub fn bad_request(status: String) -> (res: QuoteAction)
    ensures
        res@ == ActionModel::Reply(ReplyModel::Error { code: 400, status: status@ }),
{
    QuoteAction::Reply(Reply::Error { code: 400, status })
}

/// Gives a request up with status 500.
pub fn internal_error(status: &str) -> (res: QuoteAction)
    ensures
        res@ == ActionModel::Reply(ReplyModel::Error { code: 500, status: status@ }),
{
    QuoteAction::Reply(Reply::Error { code: 500, status: status.to_owned() })
}

/// `head`, `n` in decimal, `middle` and `tail`, one after the other.
pub open spec fn numbered(
    head: Seq<char>,
    n: nat,
    middle: Seq<char>,
    tail: Seq<char>,
) -> Seq<char> {
    head + decimal(n) + middle + tail
}

/// Puts a number between two texts and adds a third.
pub fn numbered_text(head: &str, n: usize, middle: &str, tail: &str) -> (res: String)
    ensures
        res@ == numbered(head@, n as nat, middle@, tail@),
{
    let mut res = head.to_owned();
    res.append(decimal_text(n as u128).as_str());
    res.append(middle);
    res.append(tail);
    res
}

/// The views of requests and of the agent's state show what their fields hold.
pub proof fn law_request_views(ident: Ident, integ: Integ, data: QuoteData, text: String)
    ensures
        ident@ == ident.nonce@,
        integ@.nonce == integ.nonce@,
        integ@.mask == integ.mask@,
        integ@.partial == integ.partial@,
        integ.ima_ml_entry is None ==> integ@.ima_ml_entry is None,
        integ.ima_ml_entry matches Some(entry) ==> integ@.ima_ml_entry == Some(entry@),
        data@.hash_alg == data.hash_alg@,
        data@.enc_alg == data.enc_alg@,
        data@.sign_alg == data.sign_alg@,
        data@.pq_algorithm == data.pq_algorithm@,
        data@.max_nonce_size == data.max_nonce_size,
        data@.ima_ml_file == data.ima_ml_file,
        data@.measuredboot_ml_file == data.measuredboot_ml_file,
        opt_text(Some(text)) == Some(text@),
        opt_text(None) == None::<Seq<char>>,
{
}

/// The views of quotes show what their fields hold.
pub proof fn law_quote_views(quote: KeylimeQuote, wrap: PQquote)
    ensures
        quote@.quote == quote.quote@,
        quote@.hash_alg == quote.hash_alg@,
        quote@.enc_alg == quote.enc_alg@,
        quote@.sign_alg == quote.sign_alg@,
        quote@.pubkey is Some <==> quote.pubkey is Some,
        quote.pubkey matches Some(t) ==> quote@.pubkey == Some(t@),
        quote@.ima_measurement_list is Some <==> quote.ima_measurement_list is Some,
        quote.ima_measurement_list matches Some(t) ==> quote@.ima_measurement_list == Some(t@),
        quote@.mb_measurement_list is Some <==> quote.mb_measurement_list is Some,
        quote.mb_measurement_list matches Some(t) ==> quote@.mb_measurement_list == Some(t@),
        quote@.ima_measurement_list_entry == quote.ima_measurement_list_entry,
        wrap@.pq_algorithm == wrap.pq_algorithm@,
        wrap@.pq_wrap_signature == wrap.pq_wrap_signature@,
        wrap@.pq_wrap_signature_len == wrap.pq_wrap_signature_len,
        wrap@.quote_len == wrap.quote_len,
        wrap@.quote.quote == wrap.quote@,
        wrap@.quote.hash_alg == wrap.hash_alg@,
        wrap@.quote.enc_alg == wrap.enc_alg@,
        wrap@.quote.sign_alg == wrap.sign_alg@,
        wrap@.quote.pubkey is Some <==> wrap.pubkey is Some,
        wrap.pubkey matches Some(t) ==> wrap@.quote.pubkey == Some(t@),
        wrap@.quote.ima_measurement_list is Some <==> wrap.ima_measurement_list is Some,
        wrap.ima_measurement_list matches Some(t) ==> wrap@.quote.ima_measurement_list == Some(t@),
        wrap@.quote.mb_measurement_list is Some <==> wrap.mb_measurement_list is Some,
        wrap.mb_measurement_list matches Some(t) ==> wrap@.quote.mb_measurement_list == Some(t@),
        wrap@.quote.ima_measurement_list_entry == wrap.ima_measurement_list_entry,
{
}

/// The view of an action shows which action it is and what it is about.
pub proof fn law_action_view(action: QuoteAction)
    ensures
        match action {
            QuoteAction::Reply(Reply::Error { code, status }) => action@ == ActionModel::Reply(
                ReplyModel::Error { code, status: status@ },
            ),
            QuoteAction::Reply(Reply::Success { quote }) => action@ == ActionModel::Reply(
                ReplyModel::Success { quote: quote@ },
            ),
            QuoteAction::TpmQuote { nonce, mask } => action@ == (ActionModel::TpmQuote {
                nonce: nonce@,
                mask,
            }),
            QuoteAction::ExportPublicKey => action@ == ActionModel::ExportPublicKey,
            QuoteAction::CheckMask { mask } => action@ == (ActionModel::CheckMask { mask }),
            QuoteAction::ReadMeasuredBoot => action@ == ActionModel::ReadMeasuredBoot,
            QuoteAction::ReadImaList { nth_entry } => action@ == (ActionModel::ReadImaList {
                nth_entry,
            }),
            QuoteAction::WrapQuote { quote } => action@ == (ActionModel::WrapQuote {
                quote: quote@,
            }),
            QuoteAction::RecordMetrics { cycle, ima_count } => action@ == (
            ActionModel::RecordMetrics { cycle: cycle as nat, ima_count }),
        },
{
}

/// The view of an event shows which event it is and what it tells.
pub proof fn law_event_view(event: QuoteEvent)
    ensures
        match event {
            QuoteEvent::Quoted(Some(t)) => event@ == EventModel::Quoted(Some(t@)),
            QuoteEvent::Quoted(None) => event@ == EventModel::Quoted(None),
            QuoteEvent::PublicKey(Some(t)) => event@ == EventModel::PublicKey(Some(t@)),
            QuoteEvent::PublicKey(None) => event@ == EventModel::PublicKey(None),
            QuoteEvent::MaskChecked(selected) => event@ == EventModel::MaskChecked(selected),
            QuoteEvent::MeasuredBoot(BootLog::RewindFailed) => event@ == EventModel::MeasuredBoot(
                BootModel::RewindFailed,
            ),
            QuoteEvent::MeasuredBoot(BootLog::ReadFailed) => event@ == EventModel::MeasuredBoot(
                BootModel::ReadFailed,
            ),
            QuoteEvent::MeasuredBoot(BootLog::Read(log)) => event@ == EventModel::MeasuredBoot(
                BootModel::Read(log@),
            ),
            QuoteEvent::ImaList(Some(e)) => event@ == EventModel::ImaList(
                Some(ImaModel { list: e.list@, first: e.first, count: e.count }),
            ),
            QuoteEvent::ImaList(None) => event@ == EventModel::ImaList(None),
            QuoteEvent::Wrapped(Ok(signature)) => event@ == EventModel::Wrapped(Ok(signature@)),
            QuoteEvent::Wrapped(Err(t)) => event@ == EventModel::Wrapped(Err(t@)),
            QuoteEvent::Recorded => event@ == EventModel::Recorded,
        },
{
}

/// Filling in the TPM's quote sets the quote and the names of the algorithms and
/// leaves the rest alone.
pub proof fn law_tpm_quote_is_filled_in(quote: QuoteModel, tpm_quote: Seq<char>, data: DataModel)
    ensures
        ({
            let filled = with_tpm_quote(quote, tpm_quote, data);
            &&& filled.quote == tpm_quote
            &&& filled.hash_alg == data.hash_alg
            &&& filled.enc_alg == data.enc_alg
            &&& filled.sign_alg == data.sign_alg
            &&& filled.pubkey == quote.pubkey
            &&& filled.ima_measurement_list == quote.ima_measurement_list
            &&& filled.mb_measurement_list == quote.mb_measurement_list
            &&& filled.ima_measurement_list_entry == quote.ima_measurement_list_entry
        }),
{
}

/// A wrapped quote brings the quote unchanged, the signature, the name of its
/// algorithm, and the lengths of both in bytes.
pub proof fn law_wrapping_keeps_the_quote(quote: QuoteModel, data: DataModel, signature: Seq<u8>)
    ensures
        ({
            let wrap = wrapped(quote, data, signature);
            &&& wrap.quote == quote
            &&& wrap.pq_wrap_signature == signature
            &&& wrap.pq_wrap_signature_len == signature.len()
            &&& wrap.quote_len == encode_utf8(quote.quote).len()
            &&& wrap.pq_algorithm == data.pq_algorithm
        }),
{
}

/// A blank quote holds nothing.
pub proof fn law_blank_quote_holds_nothing()
    ensures
        blank_quote().quote.len() == 0,
        blank_quote().hash_alg.len() == 0,
        blank_quote().enc_alg.len() == 0,
        blank_quote().sign_alg.len() == 0,
        blank_quote().pubkey is None,
        blank_quote().ima_measurement_list is None,
        blank_quote().mb_measurement_list is None,
        blank_quote().ima_measurement_list_entry is None,
{
}

/// A numbered text is its parts, with the number in decimal behind the first.
pub proof fn law_numbered_text(head: Seq<char>, n: nat, middle: Seq<char>, tail: Seq<char>)
    ensures
        numbered(head, n, middle, tail) == head + (decimal(n) + (middle + tail)),
{
    assert(numbered(head, n, middle, tail) =~= head + (decimal(n) + (middle + tail)));
}

} // verus!
