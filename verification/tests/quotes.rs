use keylime_agent::identity::{identity, refuse_identity, IdentityStage};
use keylime_agent::integrity::{
    integrity, refuse_integrity, AttestationCount, IntegrityStage,
};
use keylime_agent::pq_signature::{get_pq_signature_for_quote, DeviceEvent, SignAction};
use keylime_agent::quotes::{
    BootLog, Ident, ImaEntries, Integ, PQquote, QuoteAction, QuoteData, QuoteEvent, Reply,
};

const NONCE: &str = "1234567890ABCDEFHIJ";
const PEM: &str = "-----BEGIN PUBLIC KEY-----\nMIIB\n-----END PUBLIC KEY-----\n";
const TPM_QUOTE: &str = "r/1RDR4AY:ABQACw:AQAAAA";
const IMA_LIST: &str = "10 d7026dc672344d3ee372217bdbc7395947788671 ima 6f boot_aggregate\n10 7936eb315fb4e74b99e7d461bc5c96049e1ee092 ima bc /usr/bin/dracut\n";

fn fixture() -> QuoteData {
    QuoteData {
        hash_alg: "sha256".to_string(),
        enc_alg: "rsa".to_string(),
        sign_alg: "rsassa".to_string(),
        pq_algorithm: "ml-dsa-87".to_string(),
        max_nonce_size: 64,
        ima_ml_file: true,
        measuredboot_ml_file: true,
    }
}

fn request(nonce: &str, mask: &str, partial: &str, entry: Option<&str>) -> Integ {
    Integ {
        nonce: nonce.to_string(),
        mask: mask.to_string(),
        partial: partial.to_string(),
        ima_ml_entry: entry.map(|e| e.to_string()),
    }
}

struct Machine {
    pubkey: Option<&'static str>,
    quote: Option<&'static str>,
    pcr0: Option<bool>,
    boot: fn() -> BootLog,
    ima: Option<&'static str>,
    signature: Result<Vec<u8>, &'static str>,
    log: Vec<String>,
}

fn machine() -> Machine {
    Machine {
        pubkey: Some(PEM),
        quote: Some(TPM_QUOTE),
        pcr0: Some(false),
        boot: || BootLog::Read(vec![1, 2, 3, 4]),
        ima: Some(IMA_LIST),
        signature: Ok(vec![9, 8, 7]),
        log: Vec::new(),
    }
}

impl Machine {
    fn perform(&mut self, action: &QuoteAction) -> QuoteEvent {
        self.log.push(format!("{action:?}"));
        match action {
            QuoteAction::TpmQuote { .. } => QuoteEvent::Quoted(self.quote.map(|q| q.to_string())),
            QuoteAction::ExportPublicKey => {
                QuoteEvent::PublicKey(self.pubkey.map(|q| q.to_string()))
            }
            QuoteAction::CheckMask { .. } => QuoteEvent::MaskChecked(self.pcr0),
            QuoteAction::ReadMeasuredBoot => QuoteEvent::MeasuredBoot((self.boot)()),
            QuoteAction::ReadImaList { nth_entry } => {
                QuoteEvent::ImaList(self.ima.map(|list| ImaEntries {
                    list: list.to_string(),
                    first: *nth_entry,
                    count: 2,
                }))
            }
            QuoteAction::WrapQuote { .. } => QuoteEvent::Wrapped(match &self.signature {
                Ok(s) => Ok(s.clone()),
                Err(e) => Err(e.to_string()),
            }),
            QuoteAction::RecordMetrics { .. } => QuoteEvent::Recorded,
            QuoteAction::Reply(_) => panic!("an answer is no step"),
        }
    }
}

fn run_identity(nonce: &str, data: &QuoteData, machine: &mut Machine) -> Reply {
    let (mut run, mut action) = identity(&Ident { nonce: nonce.to_string() }, data);
    loop {
        if let QuoteAction::Reply(reply) = action {
            assert!(run.stage() == IdentityStage::Replied);
            return reply;
        }
        let event = machine.perform(&action);
        (run, action) = run.step(data, event);
    }
}

fn run_integrity(param: &Integ, data: &QuoteData, machine: &mut Machine) -> Reply {
    run_counted(param, data, machine, &mut AttestationCount::new())
}

fn run_counted(
    param: &Integ,
    data: &QuoteData,
    machine: &mut Machine,
    count: &mut AttestationCount,
) -> Reply {
    let (mut run, mut action) = integrity(param, data);
    loop {
        if let QuoteAction::Reply(reply) = action {
            assert!(run.stage() == IntegrityStage::Replied);
            return reply;
        }
        let event = machine.perform(&action);
        (run, action) = run.step(data, count, event);
    }
}

fn success(reply: Reply) -> PQquote {
    match reply {
        Reply::Success { quote } => quote,
        Reply::Error { code, status } => panic!("{code}: {status}"),
    }
}

fn error(reply: Reply) -> (u16, String) {
    match reply {
        Reply::Error { code, status } => (code, status),
        Reply::Success { .. } => panic!("answered"),
    }
}

#[test]
fn test_identity() {
    let data = fixture();
    let mut machine = machine();
    let result = success(run_identity("1234567890ABCDEFHIJ", &data, &mut machine));
    assert_eq!(result.hash_alg.as_str(), "sha256");
    assert_eq!(result.enc_alg.as_str(), "rsa");
    assert_eq!(result.sign_alg.as_str(), "rsassa");
    assert_eq!(result.pubkey.as_deref(), Some(PEM));
    assert!(result.quote.starts_with('r'));
    assert_eq!(
        machine.log[0],
        format!("TpmQuote {{ nonce: {:?}, mask: 0 }}", b"1234567890ABCDEFHIJ".to_vec())
    );
    assert_eq!(result.pq_algorithm, "ml-dsa-87");
    assert_eq!(result.pq_wrap_signature, vec![9, 8, 7]);
    assert_eq!(result.pq_wrap_signature_len, 3);
    assert_eq!(result.quote_len, TPM_QUOTE.len());
    assert!(result.ima_measurement_list.is_none());
    assert!(result.mb_measurement_list.is_none());
    assert!(result.ima_measurement_list_entry.is_none());
}

#[test]
fn test_integrity_pre() {
    let data = fixture();
    let mut machine = machine();
    let param = request("1234567890ABCDEFHIJ", "0x408000", "0", None);
    let result = success(run_integrity(&param, &data, &mut machine));
    assert_eq!(result.hash_alg.as_str(), "sha256");
    assert_eq!(result.enc_alg.as_str(), "rsa");
    assert_eq!(result.sign_alg.as_str(), "rsassa");
    assert_eq!(result.pubkey.as_deref(), Some(PEM));
    assert_eq!(result.ima_measurement_list.unwrap().as_str(), IMA_LIST);
    assert!(result.quote.starts_with('r'));
    assert_eq!(machine.log[0], "ExportPublicKey");
    assert_eq!(
        machine.log[1],
        format!("TpmQuote {{ nonce: {:?}, mask: {} }}", b"1234567890ABCDEFHIJ".to_vec(), 0x408000)
    );
    assert_eq!(machine.log.len(), 6);
}

#[test]
fn test_integrity_post() {
    let data = fixture();
    let mut machine = machine();
    let param = request("1234567890ABCDEFHIJ", "0x408000", "1", None);
    let result = success(run_integrity(&param, &data, &mut machine));
    assert_eq!(result.hash_alg.as_str(), "sha256");
    assert_eq!(result.enc_alg.as_str(), "rsa");
    assert_eq!(result.sign_alg.as_str(), "rsassa");
    assert_eq!(result.ima_measurement_list.unwrap().as_str(), IMA_LIST);
    assert!(result.quote.starts_with('r'));
    assert!(result.pubkey.is_none());
    assert_eq!(
        machine.log[0],
        format!("TpmQuote {{ nonce: {:?}, mask: {} }}", b"1234567890ABCDEFHIJ".to_vec(), 0x408000)
    );
}

#[test]
fn test_missing_ima_file() {
    let mut data = fixture();
    data.ima_ml_file = false;
    let param = request("1234567890ABCDEFHIJ", "0x408000", "0", None);
    let result = success(run_integrity(&param, &data, &mut machine()));
    assert!(result.ima_measurement_list.is_none());
    assert!(result.ima_measurement_list_entry.is_none());
}

#[test]
fn identity_refuses_other_characters() {
    let mut machine = machine();
    let reply = run_identity("12 34", &fixture(), &mut machine);
    assert_eq!(
        error(reply),
        (400, "Parameters should be strictly alphanumeric: 12 34".to_string())
    );
    assert!(machine.log.is_empty());
}

#[test]
fn identity_takes_letters_beyond_ascii() {
    assert_eq!(success(run_identity("京é٣", &fixture(), &mut machine())).quote, TPM_QUOTE);
    let reply = run_identity("💝", &fixture(), &mut machine());
    assert_eq!(error(reply).0, 400);
}

#[test]
fn identity_counts_the_bytes_of_a_nonce() {
    let mut data = fixture();
    data.max_nonce_size = 4;
    assert_eq!(success(run_identity("éé", &data, &mut machine())).quote, TPM_QUOTE);
    assert_eq!(
        error(run_identity("ééa", &data, &mut machine())),
        (400, "Nonce is too long (max size 4): ééa".to_string())
    );
    data.max_nonce_size = 64;
    let long = "a".repeat(65);
    assert_eq!(
        error(run_identity(&long, &data, &mut machine())),
        (400, format!("Nonce is too long (max size 64): {long}"))
    );
}

#[test]
fn identity_refusal_follows_what_is_known_of_the_nonce() {
    assert_eq!(refuse_identity("abc", true, 3), None);
    assert_eq!(
        refuse_identity("abc", false, 3),
        Some("Parameters should be strictly alphanumeric: abc".to_string())
    );
}

#[test]
fn identity_gives_up_where_the_machine_fails() {
    let mut m = machine();
    m.quote = None;
    assert_eq!(
        error(run_identity(NONCE, &fixture(), &mut m)),
        (500, "Unable to retrieve quote".to_string())
    );
    assert_eq!(m.log.len(), 1);
    let mut m = machine();
    m.pubkey = None;
    assert_eq!(
        error(run_identity(NONCE, &fixture(), &mut m)),
        (500, "Unable to retrieve quote".to_string())
    );
    assert_eq!(m.log.len(), 2);
    let mut m = machine();
    m.signature = Err("no module");
    assert_eq!(
        error(run_identity(NONCE, &fixture(), &mut m)),
        (500, "Critical error: unable to perform PQ wrap – no module".to_string())
    );
}

#[test]
fn integrity_refuses_bad_parameters_in_order() {
    let cases = [
        (("a-b", "0x-", "2"), "nonce should be strictly alphanumeric: a-b"),
        (("ab", "0x-", "2"), "mask should be strictly alphanumeric: 0x-"),
        (("ab", "0xg", "2"), "mask should be a hex encoded 32-bit integer: 0xg"),
        (("ab", "", "2"), "mask should be a hex encoded 32-bit integer: "),
        (("ab", "0x100000000", "2"), "mask should be a hex encoded 32-bit integer: 0x100000000"),
        (("ab", "0x1", "2"), "uri must contain key 'partial' and value '0' or '1'"),
        (("ab", "0x1", ""), "uri must contain key 'partial' and value '0' or '1'"),
    ];
    for ((nonce, mask, partial), status) in cases {
        let mut m = machine();
        let reply = run_integrity(&request(nonce, mask, partial, None), &fixture(), &mut m);
        assert_eq!(error(reply), (400, status.to_string()));
        assert!(m.log.is_empty());
    }
    let long = "a".repeat(65);
    let reply = run_integrity(&request(&long, "0x1", "2", None), &fixture(), &mut machine());
    assert_eq!(error(reply), (400, "Nonce is too long (max size: 64): 65".to_string()));
    assert_eq!(
        refuse_integrity(&request("ab", "ff", "0", None), true, false, 64),
        Err("mask should be strictly alphanumeric: ff".to_string())
    );
    assert_eq!(refuse_integrity(&request("ab", "ff", "0", None), true, true, 64), Ok(255));
}

#[test]
fn integrity_gives_up_where_the_machine_fails() {
    let fail = |change: fn(&mut Machine), steps: usize| {
        let mut m = machine();
        change(&mut m);
        let reply = run_integrity(&request(NONCE, "0x1", "0", None), &fixture(), &mut m);
        assert_eq!(m.log.len(), steps);
        error(reply)
    };
    let quote = (500, "Unable to retrieve quote".to_string());
    assert_eq!(
        fail(|m| m.pubkey = None, 1),
        (500, "Unable to retrieve public key".to_string())
    );
    assert_eq!(fail(|m| m.quote = None, 2), quote);
    assert_eq!(fail(|m| m.pcr0 = None, 3), quote);
    assert_eq!(fail(|m| m.ima = None, 4), quote);
    assert_eq!(fail(|m| m.signature = Err("no module"), 5), quote);
    assert_eq!(
        fail(
            |m| {
                m.pcr0 = Some(true);
                m.boot = || BootLog::RewindFailed
            },
            4
        ),
        quote
    );
}

#[test]
fn measured_boot_log_goes_with_pcr_0() {
    let param = request(NONCE, "1", "1", None);
    let mut m = machine();
    m.pcr0 = Some(true);
    m.boot = || BootLog::Read(b"Many hands make light work.".to_vec());
    let result = success(run_integrity(&param, &fixture(), &mut m));
    assert_eq!(
        result.mb_measurement_list.as_deref(),
        Some("TWFueSBoYW5kcyBtYWtlIGxpZ2h0IHdvcmsu")
    );
    m.boot = || BootLog::Read(vec![0xfb, 0xff]);
    let result = success(run_integrity(&param, &fixture(), &mut m));
    assert_eq!(result.mb_measurement_list.as_deref(), Some("+/8="));
    m.boot = || BootLog::Read(vec![0]);
    let result = success(run_integrity(&param, &fixture(), &mut m));
    assert_eq!(result.mb_measurement_list.as_deref(), Some("AA=="));
    m.boot = || BootLog::ReadFailed;
    let result = success(run_integrity(&param, &fixture(), &mut m));
    assert!(result.mb_measurement_list.is_none());
    let mut data = fixture();
    data.measuredboot_ml_file = false;
    m.boot = || BootLog::RewindFailed;
    let result = success(run_integrity(&param, &data, &mut m));
    assert!(result.mb_measurement_list.is_none());
}

#[test]
fn measurement_list_starts_at_the_entry_asked_for() {
    for (entry, nth) in [(None, 0), (Some("7"), 7), (Some("seven"), 0), (Some(""), 0)] {
        let mut m = machine();
        let param = request(NONCE, "0", "1", entry);
        let result = success(run_integrity(&param, &fixture(), &mut m));
        assert_eq!(result.ima_measurement_list_entry, Some(nth));
        assert!(m.log.contains(&format!("ReadImaList {{ nth_entry: {nth} }}")));
        assert!(m.log.contains(&"RecordMetrics { cycle: 1, ima_count: 2 }".to_string()));
    }
}

#[test]
fn metrics_are_recorded_once_for_an_answer_and_never_for_an_error() {
    let recorded = |m: &Machine| m.log.iter().filter(|l| l.starts_with("RecordMetrics")).count();
    let param = request(NONCE, "0x408000", "0", None);
    let mut m = machine();
    let _ = success(run_integrity(&param, &fixture(), &mut m));
    assert_eq!(recorded(&m), 1);
    assert!(m.log.contains(&"RecordMetrics { cycle: 1, ima_count: 2 }".to_string()));
    let mut data = fixture();
    data.ima_ml_file = false;
    let mut m = machine();
    let _ = success(run_integrity(&param, &data, &mut m));
    assert_eq!(m.log.last().map(|l| l.as_str()), Some("RecordMetrics { cycle: 1, ima_count: 0 }"));
    let mut m = machine();
    m.signature = Err("no module");
    let _ = error(run_integrity(&param, &fixture(), &mut m));
    assert_eq!(recorded(&m), 0);
}

#[test]
fn a_signed_quote_is_shown_while_metrics_are_recorded() {
    let data = fixture();
    let mut m = machine();
    let mut count = AttestationCount::new();
    let (mut run, mut action) = integrity(&request(NONCE, "0", "1", None), &data);
    while run.stage() != IntegrityStage::Record {
        assert!(run.answer().is_none());
        let event = m.perform(&action);
        (run, action) = run.step(&data, &mut count, event);
    }
    assert_eq!(run.answer().map(|q| q.pq_wrap_signature_len), Some(3));
    let (run, action) = run.step(&data, &mut count, QuoteEvent::Recorded);
    assert!(run.answer().is_none());
    assert!(matches!(action, QuoteAction::Reply(Reply::Success { .. })));
}

#[test]
fn attestations_are_counted_from_one() {
    let data = fixture();
    let mut count = AttestationCount::new();
    assert_eq!(count.counted(), 0);
    let param = request(NONCE, "0", "1", None);
    let mut recorded = Vec::new();
    for fails in [false, true, false, false, true, true, false] {
        let before = count.counted();
        let mut m = machine();
        if fails {
            m.signature = Err("no module");
        }
        let reply = run_counted(&param, &data, &mut m, &mut count);
        recorded.extend(m.log.into_iter().filter(|l| l.starts_with("RecordMetrics")));
        assert_eq!(matches!(reply, Reply::Error { .. }), fails);
        assert_eq!(count.counted(), if fails { before } else { before + 1 });
    }
    assert_eq!(
        recorded,
        (1..=4)
            .map(|cycle| format!("RecordMetrics {{ cycle: {cycle}, ima_count: 2 }}"))
            .collect::<Vec<String>>()
    );
    let refused = run_counted(&request("!", "0", "1", None), &data, &mut machine(), &mut count);
    assert_eq!(error(refused).0, 400);
    assert_eq!(count.counted(), 4);
}

/// Lets the kernel module answer what is asked of it; the quotes that it is given
/// are noted.
fn sign(quote: &str, shown: &[u8], given: &mut Vec<Vec<u8>>) -> Result<Vec<u8>, String> {
    let (mut run, mut action) = get_pq_signature_for_quote(quote);
    loop {
        let event = match action {
            SignAction::Open { .. } => DeviceEvent::Opened(Ok(())),
            SignAction::Write { payload } => {
                given.push(payload);
                DeviceEvent::Written(Ok(()))
            }
            SignAction::Read { .. } => DeviceEvent::ReadBack(Ok(shown.to_vec())),
            SignAction::Signed { signature } => return Ok(signature),
            SignAction::Failed { message } => return Err(message),
            other => panic!("{other:?}"),
        };
        (run, action) = run.step(event);
    }
}

#[test]
fn answers_are_signed_by_the_kernel_module() {
    let data = fixture();
    let whole = request(NONCE, "0", "0", None);
    for (shown, signed) in [(&b"sig"[..], true), (&b""[..], false)] {
        for identity_asked in [true, false] {
            let mut m = machine();
            let mut given = Vec::new();
            let signature = sign(TPM_QUOTE, shown, &mut given);
            m.signature = match &signature {
                Ok(s) => Ok(s.clone()),
                Err(_) => Err("empty"),
            };
            let reply = if identity_asked {
                run_identity(NONCE, &data, &mut m)
            } else {
                run_integrity(&whole, &data, &mut m)
            };
            let wraps = m.log.iter().filter(|l| l.starts_with("WrapQuote")).count();
            assert_eq!(wraps, 1);
            match reply {
                Reply::Success { quote } => {
                    assert!(signed);
                    assert_eq!(quote.pq_wrap_signature, shown.to_vec());
                    assert_eq!(given, vec![quote.quote.as_bytes().to_vec()]);
                    assert!(m.log.contains(&format!("WrapQuote {{ quote: {:?} }}", quote.quote)));
                }
                Reply::Error { code, .. } => {
                    assert!(!signed);
                    assert_eq!(code, 500);
                }
            }
        }
    }
}
