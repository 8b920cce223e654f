use keylime_agent::pq_signature::{
    get_pq_signature_for_auth_tag_kernel, get_pq_signature_for_auth_tag_userspace,
    get_pq_signature_for_quote, signer_failure, DeviceEvent, DeviceRun, DeviceStage, SignAction,
    SignerEvent, SignerOutput, SignerStage,
};

fn failure(action: SignAction) -> String {
    match action {
        SignAction::Failed { message } => message,
        other => panic!("{other:?}"),
    }
}

fn oops<T>() -> Result<T, String> {
    Err("oops".to_string())
}

/// Hands the events in, in order; nothing may come after the last.
fn device(begun: (DeviceRun, SignAction), events: Vec<DeviceEvent>) -> Vec<SignAction> {
    let (mut run, action) = begun;
    let mut asked = vec![action];
    for event in events {
        let (next, action) = run.step(event);
        run = next;
        asked.push(action);
    }
    assert!(run.stage() == DeviceStage::Ended);
    asked
}

fn good(shown: Result<Vec<u8>, String>) -> Vec<DeviceEvent> {
    vec![DeviceEvent::Opened(Ok(())), DeviceEvent::Written(Ok(())), DeviceEvent::ReadBack(shown)]
}

fn last(mut asked: Vec<SignAction>) -> SignAction {
    asked.pop().unwrap()
}

#[test]
fn a_quote_is_signed_by_the_kernel() {
    let asked = device(get_pq_signature_for_quote("rq"), good(Ok(vec![5])));
    assert_eq!(asked.len(), 4);
    assert!(matches!(&asked[0], SignAction::Open { path } if path == "/dev/qubip.quote"));
    assert!(matches!(&asked[1], SignAction::Write { payload } if payload == b"rq"));
    assert!(
        matches!(&asked[2], SignAction::Read { path } if path == "/proc/qubip_pq_quote.sig.bin")
    );
    assert!(matches!(&asked[3], SignAction::Signed { signature } if signature == &vec![5]));
}

#[test]
fn failures_with_quotes() {
    let fail = |events| failure(last(device(get_pq_signature_for_quote("rq"), events)));
    assert_eq!(
        fail(vec![DeviceEvent::Opened(oops())]),
        "FATAL: cannot open /dev/qubip.quote for PQ wrapping – kernel module missing or wrong permissions: oops"
    );
    assert_eq!(
        fail(vec![DeviceEvent::Opened(Ok(())), DeviceEvent::Written(oops())]),
        "FATAL: Failed to write TPM quote to /dev/qubip.quote - kernel module may be unloaded: oops"
    );
    assert_eq!(
        fail(good(oops())),
        "FATAL: Failed to read PQ signature from /proc/qubip_pq_quote.sig.bin - module not functioning: oops"
    );
    assert_eq!(
        fail(good(Ok(vec![]))),
        "FATAL: PQ signature from /proc/qubip_pq_quote.sig.bin is empty – invalid module response"
    );
}

#[test]
fn a_tag_is_signed_by_the_kernel() {
    let asked = device(get_pq_signature_for_auth_tag_kernel("0af"), good(Ok(vec![1, 2])));
    assert_eq!(asked.len(), 4);
    assert!(matches!(&asked[0], SignAction::Open { path } if path == "/dev/qubip_auth.tag"));
    assert!(matches!(&asked[1], SignAction::Write { payload } if payload == b"0af"));
    assert!(matches!(&asked[2], SignAction::Read { path } if path == "/proc/qubip_auth.tag.sig"));
    assert!(matches!(&asked[3], SignAction::Signed { signature } if signature == &vec![1, 2]));
}

#[test]
fn failures_with_tags() {
    let fail = |events| failure(last(device(get_pq_signature_for_auth_tag_kernel("0af"), events)));
    assert_eq!(
        fail(vec![DeviceEvent::Opened(oops())]),
        "FATAL: cannot open /dev/qubip_auth.tag for PQ signing – kernel module missing or wrong permissions: oops"
    );
    assert_eq!(
        fail(vec![DeviceEvent::Opened(Ok(())), DeviceEvent::Written(oops())]),
        "FATAL: Failed to write auth tag to /dev/qubip_auth.tag - kernel module may be unloaded: oops"
    );
    assert_eq!(
        fail(good(oops())),
        "FATAL: Failed to read PQ signature from /proc/qubip_auth.tag.sig - module not functioning: oops"
    );
    assert_eq!(
        fail(good(Ok(vec![]))),
        "FATAL: PQ signature from /proc/qubip_auth.tag.sig is empty – invalid module response"
    );
}

fn ended(success: bool, stdout: &[u8], stderr: &[u8]) -> SignerEvent {
    SignerEvent::Ended(Ok(SignerOutput {
        success,
        stdout: stdout.to_vec(),
        stderr: stderr.to_vec(),
    }))
}

fn signer(events: Vec<SignerEvent>) -> Vec<SignAction> {
    let (mut run, action) = get_pq_signature_for_auth_tag_userspace("0af");
    let mut asked = vec![action];
    for event in events {
        let (next, action) = run.step(event);
        run = next;
        asked.push(action);
    }
    assert!(run.stage() == SignerStage::Ended);
    asked
}

fn written(end: SignerEvent) -> Vec<SignerEvent> {
    vec![SignerEvent::Spawned(Ok(true)), SignerEvent::Written(Ok(())), end]
}

#[test]
fn a_tag_is_signed_by_the_program() {
    let asked = signer(written(ended(true, b"sig", b"warning")));
    assert_eq!(asked.len(), 4);
    assert_eq!(
        format!("{:?}", asked[0]),
        "Spawn { path: \"/usr/local/bin/pq_sign_tss\", openssl_modules: \"/opt/quantumsafe/build/lib\", openssl_conf: \"/opt/quantumsafe/build/ssl/openssl.cnf\", ld_library_path: \"/opt/quantumsafe/build/lib64:/opt/quantumsafe/build/lib\" }"
    );
    assert!(matches!(&asked[1], SignAction::Write { payload } if payload == b"0af"));
    assert!(matches!(&asked[2], SignAction::Wait));
    assert!(matches!(&asked[3], SignAction::Signed { signature } if signature == b"sig"));
}

#[test]
fn a_program_without_standard_input_is_waited_for() {
    let asked = signer(vec![SignerEvent::Spawned(Ok(false)), ended(true, b"sig", b"")]);
    assert_eq!(asked.len(), 3);
    assert!(matches!(&asked[1], SignAction::Wait));
}

#[test]
fn failures_with_the_program() {
    let fail = |events| failure(last(signer(events)));
    assert_eq!(
        fail(vec![SignerEvent::Spawned(oops())]),
        "FATAL: Failed to spawn external PQ signer /usr/local/bin/pq_sign_tss: oops"
    );
    assert_eq!(
        fail(vec![SignerEvent::Spawned(Ok(true)), SignerEvent::Written(oops())]),
        "FATAL: Failed to write to signer stdin: oops"
    );
    assert_eq!(
        fail(written(SignerEvent::Ended(oops()))),
        "FATAL: Failed to wait for signer process: oops"
    );
    assert_eq!(
        fail(written(ended(true, b"", b""))),
        "FATAL: PQ signature returned from external signer is empty"
    );
    assert_eq!(
        fail(written(ended(false, b"sig", "clé".as_bytes()))),
        "FATAL: External PQ signer failed with error: clé"
    );
    assert_eq!(
        fail(written(ended(false, b"sig", &[b'a', 0xff, b'b']))),
        "FATAL: External PQ signer failed with error: a\u{fffd}b"
    );
    assert_eq!(signer_failure("x"), "FATAL: External PQ signer failed with error: x");
}
