use keylime_agent::benchmark::{
    log_metric, log_registration, pq_milliseconds, Metric, Registration, METRIC_HEADER,
    REGISTRATION_HEADER,
};

use keylime_agent::numbers::FixedPoint;

fn metric() -> Metric {
    Metric {
        cycle: 3,
        since_the_epoch: 1725029869,
        tpm_ms: 120,
        ima_read_ms: 7,
        pq_us: 4500,
        total_hybrid_ms: FixedPoint::read("120.0040000000").unwrap(),
        ratio: FixedPoint::read("1.0000333333").unwrap(),
        ima_count: 2048,
        classical_alg: "rsassa".to_string(),
        pq_alg: "ml-dsa-87".to_string(),
        total_agent_latency_classical_ms: 127,
        total_agent_latency_ms: 131,
        tpm_quote_len: 900,
        classical_pubkey_len: 451,
        pq_pubkey_len: 0,
        ima_log_len: 65536,
        pq_sig_len: 4627,
    }
}

const ROW: &str = "3,1725029869,rsassa,ml-dsa-87,120,7,4500,120.0040000000,1.0000333333,2048,127,131,900,451,0,65536,4627\n";

#[test]
fn attestations_are_rows() {
    assert_eq!(log_metric(1, &metric()), ROW);
}

#[test]
fn an_empty_file_gets_a_header() {
    assert!(METRIC_HEADER.starts_with("cycle,timestamp_unix,"));
    assert!(METRIC_HEADER.ends_with(",ima_log_len,pq_sig_len,"));
    let first = log_metric(0, &metric());
    assert_eq!(first, format!("{METRIC_HEADER}\n{ROW}"));
    let second = log_metric(first.len() as u64, &metric());
    assert_eq!(format!("{first}{second}"), format!("{METRIC_HEADER}\n{ROW}{ROW}"));
}

#[test]
fn registrations_are_rows() {
    let r = Registration {
        since_the_epoch: 1725029869,
        pq_sign_us: 1,
        tpm_activate_ms: 22,
        net_reg_ms: 333,
        net_activate_ms: 0,
        total_ms: u128::MAX,
        pq_alg: "slh-dsa".to_string(),
    };
    let row = "1725029869,slh-dsa,1,22,333,0,340282366920938463463374607431768211455\n";
    assert_eq!(log_registration(5, &r), row);
    assert_eq!(
        REGISTRATION_HEADER,
        "timestamp,pq_algo,pq_sign_us,tpm_activate_ms,net_reg_ms,net_activate_ms,total_ms"
    );
    assert_eq!(log_registration(0, &r), format!("{REGISTRATION_HEADER}\n{row}"));
}

#[test]
fn a_file_of_registrations_begins_with_its_columns() {
    let r = Registration {
        since_the_epoch: 1700000000,
        pq_sign_us: 1,
        tpm_activate_ms: 2,
        net_reg_ms: 3,
        net_activate_ms: 4,
        total_ms: 5,
        pq_alg: "x".to_string(),
    };
    let mut file = String::new();
    for _ in 0..3 {
        let text = log_registration(file.len() as u64, &r);
        file.push_str(&text);
    }
    let lines: Vec<&str> = file.lines().collect();
    assert_eq!(
        lines[0],
        "timestamp,pq_algo,pq_sign_us,tpm_activate_ms,net_reg_ms,net_activate_ms,total_ms"
    );
    assert_eq!(lines[1..].to_vec(), vec!["1700000000,x,1,2,3,4,5"; 3]);
}

#[test]
fn a_file_of_attestations_has_one_header_and_one_row_for_each() {
    let mut file = String::new();
    for cycle in 1..=5 {
        let mut m = metric();
        m.cycle = cycle;
        let text = log_metric(file.len() as u64, &m);
        file.push_str(&text);
    }
    let lines: Vec<&str> = file.lines().collect();
    assert_eq!(lines.len(), 6);
    assert_eq!(lines[0], METRIC_HEADER);
    assert!(lines[0].starts_with("cycle,timestamp_unix,classical_alg,pq_alg,tpm_quote_ms"));
    for (i, line) in lines[1..].iter().enumerate() {
        assert!(line.starts_with(&format!("{},1725029869,", i + 1)));
        assert_eq!(line.split(',').count(), 17);
    }
}

#[test]
fn microseconds_in_milliseconds() {
    assert_eq!(pq_milliseconds(999), 0);
    assert_eq!(pq_milliseconds(4500), 4);
}

#[test]
fn numbers_with_ten_decimals() {
    for value in [0.0, 0.5, 1.0 / 3.0, 124.5, 1e12, u128::MAX as f64] {
        let text = format!("{value:.10}");
        assert_eq!(FixedPoint::read(&text).unwrap().text(), text);
    }
    for bad in ["", "1", "1.5", ".0123456789", "1.01234567890", "inf", "NaN", "-1.0123456789", "1,0123456789", "1.01234567\n9"] {
        assert!(FixedPoint::read(bad).is_none(), "{bad}");
    }
}
