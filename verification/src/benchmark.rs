//! Rows of the CSV files that record how long attestations and registrations take.
use vstd::prelude::*;
use vstd::string::*;
use vstd::utf8::{encode_utf8, encode_utf8_first_scalar};

use crate::measurements::{
    lemma_line_feed_ends_line, lemma_line_length, lemma_no_line_feed_within, line_length, lines_of,
};
use crate::numbers::{
    all_digits, law_fixed_point_holds_digits, lemma_decimal_digits, positional, FixedPoint,
};
use crate::text::{decimal, decimal_text, law_decimal_tells_the_number};

verus! {

/// The header of the file of attestations.
pub const METRIC_HEADER: &'static str = "cycle,timestamp_unix,classical_alg,pq_alg,tpm_quote_ms,ima_read_ms,pq_latency_us,total_hybrid_ms,ratio,ima_entries,total_agent_latency_classical_ms,total_agent_latency_ms,tpm_quote_len,classical_pubkey_len,pq_pubkey_len,ima_log_len,pq_sig_len,";

/// The header of the file of registrations.
pub const REGISTRATION_HEADER: &'static str = "timestamp,pq_algo,pq_sign_us,tpm_activate_ms,net_reg_ms,net_activate_ms,total_ms";

/// The file of attestations.
pub const METRIC_PATH: &'static str = "/tmp/qubip_3_1_agent_metrics.csv";

/// The file of registrations.
pub const REGISTRATION_PATH: &'static str = "/tmp/agent_registration.csv";

/// What was measured of one attestation. The hybrid time and its ratio to the
/// time of the TPM come as they are to be shown.
#[derive(Debug)]
pub struct Metric {
    pub cycle: usize,
    pub since_the_epoch: u64,
    pub tpm_ms: u128,
    pub ima_read_ms: u128,
    pub pq_us: u128,
    pub total_hybrid_ms: FixedPoint,
    pub ratio: FixedPoint,
    pub ima_count: u64,
    pub classical_alg: String,
    pub pq_alg: String,
    pub total_agent_latency_classical_ms: u128,
    pub total_agent_latency_ms: u128,
    pub tpm_quote_len: usize,
    pub classical_pubkey_len: usize,
    pub pq_pubkey_len: usize,
    pub ima_log_len: usize,
    pub pq_sig_len: usize,
}

/// What was measured of one registration.
#[derive(Debug)]
pub struct Registration {
    pub since_the_epoch: u64,
    pub pq_sign_us: u128,
    pub tpm_activate_ms: u128,
    pub net_reg_ms: u128,
    pub net_activate_ms: u128,
    pub total_ms: u128,
    pub pq_alg: String,
}

/// `fields` with a comma between each two, and a line feed at the end.
pub open spec fn row(fields: Seq<Seq<char>>) -> Seq<char> {
    separated(fields).push('\n')
}

/// `fields` with a comma between each two.
pub open spec fn separated(fields: Seq<Seq<char>>) -> Seq<char>
    decreases fields.len(),
{
    if fields.len() == 0 {
        Seq::empty()
    } else if fields.len() == 1 {
        fields[0]
    } else {
        separated(fields.drop_last()).push(',') + fields.last()
    }
}

/// The columns of an attestation.
pub open spec fn metric_fields(m: Metric) -> Seq<Seq<char>> {
    seq![
        decimal(m.cycle as nat),
        decimal(m.since_the_epoch as nat),
        m.classical_alg@,
        m.pq_alg@,
        decimal(m.tpm_ms as nat),
        decimal(m.ima_read_ms as nat),
        decimal(m.pq_us as nat),
        m.total_hybrid_ms@,
        m.ratio@,
        decimal(m.ima_count as nat),
        decimal(m.total_agent_latency_classical_ms as nat),
        decimal(m.total_agent_latency_ms as nat),
        decimal(m.tpm_quote_len as nat),
        decimal(m.classical_pubkey_len as nat),
        decimal(m.pq_pubkey_len as nat),
        decimal(m.ima_log_len as nat),
        decimal(m.pq_sig_len as nat),
    ]
}

/// The columns of a registration.
pub open spec fn registration_fields(r: Registration) -> Seq<Seq<char>> {
    seq![
        decimal(r.since_the_epoch as nat),
        r.pq_alg@,
        decimal(r.pq_sign_us as nat),
        decimal(r.tpm_activate_ms as nat),
        decimal(r.net_reg_ms as nat),
        decimal(r.net_activate_ms as nat),
        decimal(r.total_ms as nat),
    ]
}

/// What is appended to a file of `file_len` bytes: the header first, if the file
/// is empty, then the row.
pub open spec fn appended(file_len: nat, header: Seq<char>, fields: Seq<Seq<char>>) -> Seq<char> {
    if file_len == 0 {
        header.push('\n') + row(fields)
    } else {
        row(fields)
    }
}

/// Adds a text column to a row under way.
fn add_field(line: &mut String, field: &str, Ghost(fields): Ghost<Seq<Seq<char>>>)
    requires
        fields.len() > 0,
        old(line)@ == separated(fields),
    ensures
        final(line)@ == separated(fields.push(field@)),
{
    line.push(',');
    line.append(field);
    assert(fields.push(field@).drop_last() =~= fields);
}

/// Adds a decimal column to a row under way.
fn add_number(line: &mut String, n: u128, Ghost(fields): Ghost<Seq<Seq<char>>>)
    requires
        fields.len() > 0,
        old(line)@ == separated(fields),
    ensures
        final(line)@ == separated(fields.push(decimal(n as nat))),
{
    let text = decimal_text(n);
    add_field(line, text.as_str(), Ghost(fields));
}

/// The header where the file is empty, then the row.
fn with_header(file_len: u64, header: &str, line: String, Ghost(fields): Ghost<Seq<Seq<char>>>) -> (res:
    String)
    requires
        line@ == separated(fields),
    ensures
        res@ == appended(file_len as nat, header@, fields),
{
    let mut out = String::new();
    if file_len == 0 {
        out.append(header);
        out.push('\n');
    }
    out.append(line.as_str());
    out.push('\n');
    assert(out@ =~= appended(file_len as nat, header@, fields));
    out
}

/// The whole milliseconds in `pq_us` microseconds.
pub fn pq_milliseconds(pq_us: u128) -> (res: u128)
    ensures
        res == pq_us / 1000,
{
    pq_us / 1000
}

/// What is appended to the file of attestations, which holds `file_len` bytes.
pub fn log_metric(file_len: u64, m: &Metric) -> (res: String)
    ensures
        res@ == appended(file_len as nat, METRIC_HEADER@, metric_fields(*m)),
{
    let mut line = decimal_text(m.cycle as u128);
    let ghost all = metric_fields(*m);
    proof {
        assert(all.take(1) =~= seq![decimal(m.cycle as nat)]);
        assert(separated(all.take(1)) == line@);
        assert forall|i: int| 1 <= i < 17 implies #[trigger] all.take(i).push(all[i]) == all.take(
            i + 1,
        ) by {
            assert(all.take(i).push(all[i]) =~= all.take(i + 1));
        }
        assert(all.take(17) =~= all);
    }
    add_number(&mut line, m.since_the_epoch as u128, Ghost(all.take(1)));
    add_field(&mut line, m.classical_alg.as_str(), Ghost(all.take(2)));
    add_field(&mut line, m.pq_alg.as_str(), Ghost(all.take(3)));
    add_number(&mut line, m.tpm_ms, Ghost(all.take(4)));
    add_number(&mut line, m.ima_read_ms, Ghost(all.take(5)));
    add_number(&mut line, m.pq_us, Ghost(all.take(6)));
    add_field(&mut line, m.total_hybrid_ms.text().as_str(), Ghost(all.take(7)));
    add_field(&mut line, m.ratio.text().as_str(), Ghost(all.take(8)));
    add_number(&mut line, m.ima_count as u128, Ghost(all.take(9)));
    add_number(&mut line, m.total_agent_latency_classical_ms, Ghost(all.take(10)));
    add_number(&mut line, m.total_agent_latency_ms, Ghost(all.take(11)));
    add_number(&mut line, m.tpm_quote_len as u128, Ghost(all.take(12)));
    add_number(&mut line, m.classical_pubkey_len as u128, Ghost(all.take(13)));
    add_number(&mut line, m.pq_pubkey_len as u128, Ghost(all.take(14)));
    add_number(&mut line, m.ima_log_len as u128, Ghost(all.take(15)));
    add_number(&mut line, m.pq_sig_len as u128, Ghost(all.take(16)));
    with_header(file_len, METRIC_HEADER, line, Ghost(all))
}

/// What is appended to the file of registrations, which holds `file_len` bytes.
pub fn log_registration(file_len: u64, r: &Registration) -> (res: String)
    ensures
        res@ == appended(file_len as nat, REGISTRATION_HEADER@, registration_fields(*r)),
{
    let mut line = decimal_text(r.since_the_epoch as u128);
    let ghost all = registration_fields(*r);
    proof {
        assert(all.take(1) =~= seq![decimal(r.since_the_epoch as nat)]);
        assert(separated(all.take(1)) == line@);
        assert forall|i: int| 1 <= i < 7 implies #[trigger] all.take(i).push(all[i]) == all.take(
            i + 1,
        ) by {
            assert(all.take(i).push(all[i]) =~= all.take(i + 1));
        }
        assert(all.take(7) =~= all);
    }
    add_field(&mut line, r.pq_alg.as_str(), Ghost(all.take(1)));
    add_number(&mut line, r.pq_sign_us, Ghost(all.take(2)));
    add_number(&mut line, r.tpm_activate_ms, Ghost(all.take(3)));
    add_number(&mut line, r.net_reg_ms, Ghost(all.take(4)));
    add_number(&mut line, r.net_activate_ms, Ghost(all.take(5)));
    add_number(&mut line, r.total_ms, Ghost(all.take(6)));
    with_header(file_len, REGISTRATION_HEADER, line, Ghost(all))
}

/// What a file that was empty holds once the rows of `table` were appended to it,
/// one after the other. Its length is counted in bytes.
pub open spec fn file_after(header: Seq<char>, table: Seq<Seq<Seq<char>>>) -> Seq<char>
    decreases table.len(),
{
    if table.len() == 0 {
        Seq::empty()
    } else {
        let before = file_after(header, table.drop_last());
        before + appended(encode_utf8(before).len(), header, table.last())
    }
}

/// The rows of `table`, one after the other.
pub open spec fn rows(table: Seq<Seq<Seq<char>>>) -> Seq<char>
    decreases table.len(),
{
    if table.len() == 0 {
        Seq::empty()
    } else {
        rows(table.drop_last()) + row(table.last())
    }
}

/// The columns of several attestations.
pub open spec fn metric_table(metrics: Seq<Metric>) -> Seq<Seq<Seq<char>>> {
    Seq::new(metrics.len(), |i: int| metric_fields(metrics[i]))
}

/// The columns of several registrations.
pub open spec fn registration_table(registrations: Seq<Registration>) -> Seq<Seq<Seq<char>>> {
    Seq::new(registrations.len(), |i: int| registration_fields(registrations[i]))
}

/// The lines of a file: the header, then one line for each row.
pub open spec fn table_lines(header: Seq<char>, table: Seq<Seq<Seq<char>>>) -> Seq<Seq<char>> {
    seq![header] + Seq::new(table.len(), |i: int| separated(table[i]))
}

/// The text holds no line feed.
pub open spec fn unbroken(text: Seq<char>) -> bool {
    forall|i: int| 0 <= i < text.len() ==> #[trigger] text[i] != '\n'
}

/// Neither of the algorithms' names holds a line feed.
pub open spec fn names_unbroken(m: Metric) -> bool {
    unbroken(m.classical_alg@) && unbroken(m.pq_alg@)
}

/// However many rows are appended, the header comes once and first, and the rows
/// follow in their order.
pub proof fn law_header_is_written_once(header: Seq<char>, table: Seq<Seq<Seq<char>>>)
    requires
        table.len() > 0,
    ensures
        file_after(header, table) == header.push('\n') + rows(table),
    decreases table.len(),
{
    let head = table.drop_last();
    let before = file_after(header, head);
    if head.len() == 0 {
        assert(rows(head) =~= Seq::<char>::empty());
        assert(encode_utf8(before).len() == 0);
        assert(file_after(header, table) =~= header.push('\n') + rows(table));
    } else {
        law_header_is_written_once(header, head);
        assert(before.len() > 0);
        encode_utf8_first_scalar(before);
        assert(encode_utf8(before).len() > 0);
        assert(file_after(header, table) =~= header.push('\n') + rows(table));
    }
}

proof fn lemma_decimal_has_digits_only(n: nat)
    ensures
        decimal(n).len() > 0,
        forall|i: int| 0 <= i < decimal(n).len() ==> '0' <= #[trigger] decimal(n)[i] <= '9',
    decreases n,
{
    if n >= 10 {
        lemma_decimal_has_digits_only(n / 10);
    }
}

proof fn lemma_separated_unbroken(fields: Seq<Seq<char>>)
    requires
        forall|i: int| 0 <= i < fields.len() ==> unbroken(#[trigger] fields[i]),
    ensures
        unbroken(separated(fields)),
    decreases fields.len(),
{
    if fields.len() > 1 {
        assert forall|i: int| 0 <= i < fields.drop_last().len() implies unbroken(
            #[trigger] fields.drop_last()[i],
        ) by {
            assert(fields.drop_last()[i] == fields[i]);
        }
        lemma_separated_unbroken(fields.drop_last());
        assert(unbroken(fields.last()));
    } else if fields.len() == 1 {
        assert(unbroken(fields[0]));
    }
}

/// A row whose columns hold no line feed and whose last column is a number is
/// one line, which no carriage return ends.
proof fn lemma_row_is_a_line(fields: Seq<Seq<char>>, last: nat)
    requires
        fields.len() > 1,
        forall|i: int| 0 <= i < fields.len() ==> unbroken(#[trigger] fields[i]),
        fields.last() == decimal(last),
    ensures
        unbroken(separated(fields)),
        separated(fields).last() != '\r',
{
    lemma_separated_unbroken(fields);
    lemma_decimal_has_digits_only(last);
    assert(separated(fields).last() == decimal(last).last());
}

/// The lines of a text to whose end a line is added.
proof fn lemma_lines_of_longer(text: Seq<char>, line: Seq<char>)
    requires
        text.len() == 0 || text.last() == '\n',
        unbroken(line),
        line.len() > 0 ==> line.last() != '\r',
    ensures
        lines_of(text + line.push('\n')) == lines_of(text).push(line),
    decreases text.len(),
{
    let whole = text + line.push('\n');
    if text.len() == 0 {
        assert(whole =~= line.push('\n'));
        lemma_line_length(whole, line.len() as int);
        assert(whole.take(line.len() as int) =~= line);
        assert(whole.skip((line.len() + 1) as int) =~= Seq::<char>::empty());
        assert(lines_of(Seq::<char>::empty()) =~= Seq::<Seq<char>>::empty());
        assert(lines_of(whole) =~= seq![line]);
        assert(lines_of(text).push(line) =~= seq![line]);
    } else {
        let n = line_length(text) as int;
        assert forall|i: int| 0 <= i < n implies text[i] != '\n' by {
            lemma_no_line_feed_within(text, i);
        }
        lemma_no_line_feed_within(text, 0);
        assert(n < text.len()) by {
            if n == text.len() {
                assert(text[n - 1] != '\n');
            }
        }
        lemma_line_feed_ends_line(text);
        lemma_line_length(whole, n);
        let rest = text.skip(n + 1);
        assert(whole.take(n) =~= text.take(n));
        assert(whole.skip(n + 1) =~= rest + line.push('\n'));
        assert(rest.len() > 0 ==> rest.last() == text.last());
        lemma_lines_of_longer(rest, line);
        assert(lines_of(whole) =~= lines_of(text).push(line));
    }
}

proof fn lemma_table_is_read_back(header: Seq<char>, table: Seq<Seq<Seq<char>>>)
    requires
        unbroken(header),
        header.len() > 0 ==> header.last() != '\r',
        forall|i: int|
            0 <= i < table.len() ==> unbroken(separated(#[trigger] table[i])) && (separated(
                table[i],
            ).len() > 0 ==> separated(table[i]).last() != '\r'),
    ensures
        lines_of(header.push('\n') + rows(table)) == table_lines(header, table),
    decreases table.len(),
{
    let text = header.push('\n') + rows(table);
    if table.len() == 0 {
        assert(text =~= Seq::<char>::empty() + header.push('\n'));
        lemma_lines_of_longer(Seq::empty(), header);
        assert(lines_of(Seq::<char>::empty()) =~= Seq::<Seq<char>>::empty());
        assert(lines_of(text) =~= table_lines(header, table));
    } else {
        let head = table.drop_last();
        let before = header.push('\n') + rows(head);
        assert forall|i: int| 0 <= i < head.len() implies unbroken(separated(#[trigger] head[i]))
            && (separated(head[i]).len() > 0 ==> separated(head[i]).last() != '\r') by {
            assert(head[i] == table[i]);
        }
        lemma_table_is_read_back(header, head);
        assert(before.last() == '\n') by {
            if head.len() > 0 {
                assert(rows(head) == rows(head.drop_last()) + row(head.last()));
            } else {
                assert(before =~= header.push('\n'));
            }
        }
        assert(table.last() == table[table.len() - 1]);
        assert(text =~= before + row(table.last()));
        lemma_lines_of_longer(before, separated(table.last()));
        assert(table_lines(header, head).push(separated(table.last())) =~= table_lines(
            header,
            table,
        ));
    }
}

/// A file of attestations that was empty holds, after any number of them, the
/// header and then one line of 17 columns for each attestation, in their order,
/// provided no name of an algorithm holds a line feed.
pub proof fn law_metric_file(metrics: Seq<Metric>)
    requires
        metrics.len() > 0,
        forall|i: int| 0 <= i < metrics.len() ==> names_unbroken(#[trigger] metrics[i]),
    ensures
        ({
            let table = metric_table(metrics);
            let file = file_after(METRIC_HEADER@, table);
            &&& file == METRIC_HEADER@.push('\n') + rows(table)
            &&& lines_of(file) == table_lines(METRIC_HEADER@, table)
            &&& lines_of(file).len() == metrics.len() + 1
            &&& forall|i: int| 0 <= i < table.len() ==> (#[trigger] table[i]).len() == 17
        }),
{
    let table = metric_table(metrics);
    law_header_is_written_once(METRIC_HEADER@, table);
    lemma_metric_header();
    assert forall|i: int| 0 <= i < table.len() implies unbroken(separated(#[trigger] table[i]))
        && separated(table[i]).last() != '\r' by {
        lemma_metric_row(metrics[i]);
    }
    lemma_table_is_read_back(METRIC_HEADER@, table);
}

/// A file of registrations that was empty holds, after any number of them, the
/// header and then one line of seven columns for each registration, in their
/// order.
pub proof fn law_registration_file(registrations: Seq<Registration>)
    requires
        registrations.len() > 0,
        forall|i: int|
            0 <= i < registrations.len() ==> unbroken((#[trigger] registrations[i]).pq_alg@),
    ensures
        ({
            let table = registration_table(registrations);
            let file = file_after(REGISTRATION_HEADER@, table);
            &&& file == REGISTRATION_HEADER@.push('\n') + rows(table)
            &&& lines_of(file) == table_lines(REGISTRATION_HEADER@, table)
            &&& lines_of(file).len() == registrations.len() + 1
            &&& forall|i: int| 0 <= i < table.len() ==> (#[trigger] table[i]).len() == 7
        }),
{
    let table = registration_table(registrations);
    law_header_is_written_once(REGISTRATION_HEADER@, table);
    lemma_registration_header();
    assert forall|i: int| 0 <= i < table.len() implies unbroken(separated(#[trigger] table[i]))
        && separated(table[i]).last() != '\r' by {
        lemma_registration_row(registrations[i]);
    }
    lemma_table_is_read_back(REGISTRATION_HEADER@, table);
}

proof fn lemma_metric_row(m: Metric)
    requires
        names_unbroken(m),
    ensures
        unbroken(separated(metric_fields(m))),
        separated(metric_fields(m)).last() != '\r',
{
    lemma_decimal_has_digits_only(m.cycle as nat);
    lemma_decimal_has_digits_only(m.since_the_epoch as nat);
    lemma_decimal_has_digits_only(m.tpm_ms as nat);
    lemma_decimal_has_digits_only(m.ima_read_ms as nat);
    lemma_decimal_has_digits_only(m.pq_us as nat);
    lemma_decimal_has_digits_only(m.ima_count as nat);
    lemma_decimal_has_digits_only(m.total_agent_latency_classical_ms as nat);
    lemma_decimal_has_digits_only(m.total_agent_latency_ms as nat);
    lemma_decimal_has_digits_only(m.tpm_quote_len as nat);
    lemma_decimal_has_digits_only(m.classical_pubkey_len as nat);
    lemma_decimal_has_digits_only(m.pq_pubkey_len as nat);
    lemma_decimal_has_digits_only(m.ima_log_len as nat);
    lemma_decimal_has_digits_only(m.pq_sig_len as nat);
    law_fixed_point_holds_digits(m.total_hybrid_ms);
    law_fixed_point_holds_digits(m.ratio);
    lemma_row_is_a_line(metric_fields(m), m.pq_sig_len as nat);
}

proof fn lemma_registration_row(r: Registration)
    requires
        unbroken(r.pq_alg@),
    ensures
        unbroken(separated(registration_fields(r))),
        separated(registration_fields(r)).last() != '\r',
{
    lemma_decimal_has_digits_only(r.since_the_epoch as nat);
    lemma_decimal_has_digits_only(r.pq_sign_us as nat);
    lemma_decimal_has_digits_only(r.tpm_activate_ms as nat);
    lemma_decimal_has_digits_only(r.net_reg_ms as nat);
    lemma_decimal_has_digits_only(r.net_activate_ms as nat);
    lemma_decimal_has_digits_only(r.total_ms as nat);
    lemma_row_is_a_line(registration_fields(r), r.total_ms as nat);
}

proof fn lemma_metric_header()
    ensures
        unbroken(METRIC_HEADER@),
        METRIC_HEADER@.len() > 0,
        METRIC_HEADER@.last() != '\r',
{
    reveal_strlit("cycle,timestamp_unix,classical_alg,pq_alg,tpm_quote_ms,ima_read_ms,pq_latency_us,total_hybrid_ms,ratio,ima_entries,total_agent_latency_classical_ms,total_agent_latency_ms,tpm_quote_len,classical_pubkey_len,pq_pubkey_len,ima_log_len,pq_sig_len,");
}

proof fn lemma_registration_header()
    ensures
        unbroken(REGISTRATION_HEADER@),
        REGISTRATION_HEADER@.len() > 0,
        REGISTRATION_HEADER@.last() != '\r',
{
    reveal_strlit("timestamp,pq_algo,pq_sign_us,tpm_activate_ms,net_reg_ms,net_activate_ms,total_ms");
}

/// The text holds no comma.
spec fn without_comma(text: Seq<char>) -> bool {
    forall|i: int| 0 <= i < text.len() ==> #[trigger] text[i] != ','
}

/// One more column stands behind a comma.
proof fn lemma_one_more_column(all: Seq<Seq<char>>, k: int)
    requires
        1 <= k < all.len(),
    ensures
        separated(all.take(k + 1)) == separated(all.take(k)) + seq![','] + all[k],
{
    assert(all.take(k + 1).drop_last() =~= all.take(k));
    assert(all.take(k + 1).last() == all[k]);
    assert(separated(all.take(k + 1)) =~= separated(all.take(k)) + seq![','] + all[k]);
}

/// Columns without commas can be told from the row.
proof fn lemma_separated_injective(a: Seq<Seq<char>>, b: Seq<Seq<char>>)
    requires
        a.len() == b.len(),
        forall|k: int| 0 <= k < a.len() ==> without_comma(#[trigger] a[k]),
        forall|k: int| 0 <= k < b.len() ==> without_comma(#[trigger] b[k]),
        separated(a) == separated(b),
    ensures
        a == b,
    decreases a.len(),
{
    if a.len() == 0 {
        assert(a =~= b);
    } else if a.len() == 1 {
        assert(a =~= b);
    } else {
        let (p, q) = (a.drop_last(), b.drop_last());
        let (x, y) = (a.last(), b.last());
        let s = separated(a);
        assert(x == a[a.len() - 1] && y == b[b.len() - 1]);
        assert(s == separated(p).push(',') + x);
        assert(s == separated(q).push(',') + y);
        assert(s[s.len() - x.len() - 1] == ',');
        assert(s[s.len() - y.len() - 1] == ',');
        assert(x.len() == y.len()) by {
            if x.len() < y.len() {
                assert(y[y.len() - x.len() - 1] == s[s.len() - x.len() - 1]);
            }
            if y.len() < x.len() {
                assert(x[x.len() - y.len() - 1] == s[s.len() - y.len() - 1]);
            }
        }
        assert(x =~= s.skip(s.len() - x.len()));
        assert(y =~= s.skip(s.len() - y.len()));
        assert(separated(p) =~= s.take(s.len() - x.len() - 1));
        assert(separated(q) =~= s.take(s.len() - y.len() - 1));
        assert forall|k: int| 0 <= k < p.len() implies without_comma(#[trigger] p[k]) by {
            assert(p[k] == a[k]);
        }
        assert forall|k: int| 0 <= k < q.len() implies without_comma(#[trigger] q[k]) by {
            assert(q[k] == b[k]);
        }
        lemma_separated_injective(p, q);
        assert(a =~= p.push(x));
        assert(b =~= q.push(y));
    }
}

/// What is appended for an attestation: the header and a line feed if the file is empty, and
/// in any case the columns in the order of the header, a comma between each two and a
/// line feed at the end, every number in decimal and every text as it is.
pub proof fn law_metric_row(file_len: nat, m: Metric)
    ensures
        appended(file_len, METRIC_HEADER@, metric_fields(m)) == (if file_len == 0 {
            "cycle,timestamp_unix,classical_alg,pq_alg,tpm_quote_ms,ima_read_ms,pq_latency_us,total_hybrid_ms,ratio,ima_entries,total_agent_latency_classical_ms,total_agent_latency_ms,tpm_quote_len,classical_pubkey_len,pq_pubkey_len,ima_log_len,pq_sig_len,"@ + seq!['\n']
        } else {
            Seq::empty()
        }) + (decimal(m.cycle as nat)
            + seq![','] + decimal(m.since_the_epoch as nat)
            + seq![','] + m.classical_alg@
            + seq![','] + m.pq_alg@
            + seq![','] + decimal(m.tpm_ms as nat)
            + seq![','] + decimal(m.ima_read_ms as nat)
            + seq![','] + decimal(m.pq_us as nat)
            + seq![','] + m.total_hybrid_ms@
            + seq![','] + m.ratio@
            + seq![','] + decimal(m.ima_count as nat)
            + seq![','] + decimal(m.total_agent_latency_classical_ms as nat)
            + seq![','] + decimal(m.total_agent_latency_ms as nat)
            + seq![','] + decimal(m.tpm_quote_len as nat)
            + seq![','] + decimal(m.classical_pubkey_len as nat)
            + seq![','] + decimal(m.pq_pubkey_len as nat)
            + seq![','] + decimal(m.ima_log_len as nat)
            + seq![','] + decimal(m.pq_sig_len as nat)
            + seq!['\n']),
        METRIC_PATH@ == "/tmp/qubip_3_1_agent_metrics.csv"@,
{
    let all = metric_fields(m);
    assert(all.take(1) =~= seq![all[0]]);
    assert(separated(all.take(1)) == all[0]);
    lemma_one_more_column(all, 1);
    lemma_one_more_column(all, 2);
    lemma_one_more_column(all, 3);
    lemma_one_more_column(all, 4);
    lemma_one_more_column(all, 5);
    lemma_one_more_column(all, 6);
    lemma_one_more_column(all, 7);
    lemma_one_more_column(all, 8);
    lemma_one_more_column(all, 9);
    lemma_one_more_column(all, 10);
    lemma_one_more_column(all, 11);
    lemma_one_more_column(all, 12);
    lemma_one_more_column(all, 13);
    lemma_one_more_column(all, 14);
    lemma_one_more_column(all, 15);
    lemma_one_more_column(all, 16);
    assert(all.take(17) =~= all);
    let line = decimal(m.cycle as nat)
            + seq![','] + decimal(m.since_the_epoch as nat)
            + seq![','] + m.classical_alg@
            + seq![','] + m.pq_alg@
            + seq![','] + decimal(m.tpm_ms as nat)
            + seq![','] + decimal(m.ima_read_ms as nat)
            + seq![','] + decimal(m.pq_us as nat)
            + seq![','] + m.total_hybrid_ms@
            + seq![','] + m.ratio@
            + seq![','] + decimal(m.ima_count as nat)
            + seq![','] + decimal(m.total_agent_latency_classical_ms as nat)
            + seq![','] + decimal(m.total_agent_latency_ms as nat)
            + seq![','] + decimal(m.tpm_quote_len as nat)
            + seq![','] + decimal(m.classical_pubkey_len as nat)
            + seq![','] + decimal(m.pq_pubkey_len as nat)
            + seq![','] + decimal(m.ima_log_len as nat)
            + seq![','] + decimal(m.pq_sig_len as nat);
    assert(separated(all) =~= line);
    assert(row(all) =~= line + seq!['\n']);
    assert(appended(file_len, METRIC_HEADER@, all) =~= (if file_len == 0 {
        "cycle,timestamp_unix,classical_alg,pq_alg,tpm_quote_ms,ima_read_ms,pq_latency_us,total_hybrid_ms,ratio,ima_entries,total_agent_latency_classical_ms,total_agent_latency_ms,tpm_quote_len,classical_pubkey_len,pq_pubkey_len,ima_log_len,pq_sig_len,"@ + seq!['\n']
    } else {
        Seq::empty()
    }) + (line + seq!['\n']));
}

/// Every number in the row of an attestation can be read back from its column, and every
/// text stands in its column as it is.
pub proof fn law_metric_columns_read_back(m: Metric)
    ensures
        metric_fields(m).len() == 17,
        positional(metric_fields(m)[0], 10) == m.cycle,
        positional(metric_fields(m)[1], 10) == m.since_the_epoch,
        positional(metric_fields(m)[4], 10) == m.tpm_ms,
        positional(metric_fields(m)[5], 10) == m.ima_read_ms,
        positional(metric_fields(m)[6], 10) == m.pq_us,
        positional(metric_fields(m)[9], 10) == m.ima_count,
        positional(metric_fields(m)[10], 10) == m.total_agent_latency_classical_ms,
        positional(metric_fields(m)[11], 10) == m.total_agent_latency_ms,
        positional(metric_fields(m)[12], 10) == m.tpm_quote_len,
        positional(metric_fields(m)[13], 10) == m.classical_pubkey_len,
        positional(metric_fields(m)[14], 10) == m.pq_pubkey_len,
        positional(metric_fields(m)[15], 10) == m.ima_log_len,
        positional(metric_fields(m)[16], 10) == m.pq_sig_len,
        all_digits(metric_fields(m)[0], 10),
        all_digits(metric_fields(m)[1], 10),
        all_digits(metric_fields(m)[4], 10),
        all_digits(metric_fields(m)[5], 10),
        all_digits(metric_fields(m)[6], 10),
        all_digits(metric_fields(m)[9], 10),
        all_digits(metric_fields(m)[10], 10),
        all_digits(metric_fields(m)[11], 10),
        all_digits(metric_fields(m)[12], 10),
        all_digits(metric_fields(m)[13], 10),
        all_digits(metric_fields(m)[14], 10),
        all_digits(metric_fields(m)[15], 10),
        all_digits(metric_fields(m)[16], 10),
        metric_fields(m)[2] == m.classical_alg@,
        metric_fields(m)[3] == m.pq_alg@,
        metric_fields(m)[7] == m.total_hybrid_ms@,
        metric_fields(m)[8] == m.ratio@,
{
    lemma_decimal_digits(m.cycle as nat);
    lemma_decimal_digits(m.since_the_epoch as nat);
    lemma_decimal_digits(m.tpm_ms as nat);
    lemma_decimal_digits(m.ima_read_ms as nat);
    lemma_decimal_digits(m.pq_us as nat);
    lemma_decimal_digits(m.ima_count as nat);
    lemma_decimal_digits(m.total_agent_latency_classical_ms as nat);
    lemma_decimal_digits(m.total_agent_latency_ms as nat);
    lemma_decimal_digits(m.tpm_quote_len as nat);
    lemma_decimal_digits(m.classical_pubkey_len as nat);
    lemma_decimal_digits(m.pq_pubkey_len as nat);
    lemma_decimal_digits(m.ima_log_len as nat);
    lemma_decimal_digits(m.pq_sig_len as nat);
}

/// The row tells all of an attestation: two that give the same row are the same in every
/// column, provided no name holds a comma.
pub proof fn law_metric_row_tells_all(one: Metric, two: Metric)
    requires
        forall|i: int| 0 <= i < one.classical_alg@.len() ==> #[trigger] one.classical_alg@[i] != ',',
        forall|i: int| 0 <= i < one.pq_alg@.len() ==> #[trigger] one.pq_alg@[i] != ',',
        forall|i: int| 0 <= i < two.classical_alg@.len() ==> #[trigger] two.classical_alg@[i] != ',',
        forall|i: int| 0 <= i < two.pq_alg@.len() ==> #[trigger] two.pq_alg@[i] != ',',
        row(metric_fields(one)) == row(metric_fields(two)),
    ensures
        one.cycle == two.cycle,
        one.since_the_epoch == two.since_the_epoch,
        one.classical_alg@ == two.classical_alg@,
        one.pq_alg@ == two.pq_alg@,
        one.tpm_ms == two.tpm_ms,
        one.ima_read_ms == two.ima_read_ms,
        one.pq_us == two.pq_us,
        one.total_hybrid_ms@ == two.total_hybrid_ms@,
        one.ratio@ == two.ratio@,
        one.ima_count == two.ima_count,
        one.total_agent_latency_classical_ms == two.total_agent_latency_classical_ms,
        one.total_agent_latency_ms == two.total_agent_latency_ms,
        one.tpm_quote_len == two.tpm_quote_len,
        one.classical_pubkey_len == two.classical_pubkey_len,
        one.pq_pubkey_len == two.pq_pubkey_len,
        one.ima_log_len == two.ima_log_len,
        one.pq_sig_len == two.pq_sig_len,
{
    let (a, b) = (metric_fields(one), metric_fields(two));
    assert(separated(a) =~= row(a).drop_last());
    assert(separated(b) =~= row(b).drop_last());
    lemma_metric_without_commas(one);
    lemma_metric_without_commas(two);
    lemma_separated_injective(a, b);
    assert(metric_fields(one)[0] == metric_fields(two)[0]);
    law_decimal_tells_the_number(one.cycle as nat, two.cycle as nat);
    assert(metric_fields(one)[1] == metric_fields(two)[1]);
    law_decimal_tells_the_number(one.since_the_epoch as nat, two.since_the_epoch as nat);
    assert(metric_fields(one)[2] == metric_fields(two)[2]);
    assert(metric_fields(one)[3] == metric_fields(two)[3]);
    assert(metric_fields(one)[4] == metric_fields(two)[4]);
    law_decimal_tells_the_number(one.tpm_ms as nat, two.tpm_ms as nat);
    assert(metric_fields(one)[5] == metric_fields(two)[5]);
    law_decimal_tells_the_number(one.ima_read_ms as nat, two.ima_read_ms as nat);
    assert(metric_fields(one)[6] == metric_fields(two)[6]);
    law_decimal_tells_the_number(one.pq_us as nat, two.pq_us as nat);
    assert(metric_fields(one)[7] == metric_fields(two)[7]);
    assert(metric_fields(one)[8] == metric_fields(two)[8]);
    assert(metric_fields(one)[9] == metric_fields(two)[9]);
    law_decimal_tells_the_number(one.ima_count as nat, two.ima_count as nat);
    assert(metric_fields(one)[10] == metric_fields(two)[10]);
    law_decimal_tells_the_number(one.total_agent_latency_classical_ms as nat, two.total_agent_latency_classical_ms as nat);
    assert(metric_fields(one)[11] == metric_fields(two)[11]);
    law_decimal_tells_the_number(one.total_agent_latency_ms as nat, two.total_agent_latency_ms as nat);
    assert(metric_fields(one)[12] == metric_fields(two)[12]);
    law_decimal_tells_the_number(one.tpm_quote_len as nat, two.tpm_quote_len as nat);
    assert(metric_fields(one)[13] == metric_fields(two)[13]);
    law_decimal_tells_the_number(one.classical_pubkey_len as nat, two.classical_pubkey_len as nat);
    assert(metric_fields(one)[14] == metric_fields(two)[14]);
    law_decimal_tells_the_number(one.pq_pubkey_len as nat, two.pq_pubkey_len as nat);
    assert(metric_fields(one)[15] == metric_fields(two)[15]);
    law_decimal_tells_the_number(one.ima_log_len as nat, two.ima_log_len as nat);
    assert(metric_fields(one)[16] == metric_fields(two)[16]);
    law_decimal_tells_the_number(one.pq_sig_len as nat, two.pq_sig_len as nat);
}

proof fn lemma_metric_without_commas(m: Metric)
    requires
        forall|i: int| 0 <= i < m.classical_alg@.len() ==> #[trigger] m.classical_alg@[i] != ',',
        forall|i: int| 0 <= i < m.pq_alg@.len() ==> #[trigger] m.pq_alg@[i] != ',',
    ensures
        forall|k: int| 0 <= k < metric_fields(m).len() ==> without_comma(#[trigger] metric_fields(m)[k]),
{
    lemma_decimal_has_digits_only(m.cycle as nat);
    lemma_decimal_has_digits_only(m.since_the_epoch as nat);
    lemma_decimal_has_digits_only(m.tpm_ms as nat);
    lemma_decimal_has_digits_only(m.ima_read_ms as nat);
    lemma_decimal_has_digits_only(m.pq_us as nat);
    lemma_decimal_has_digits_only(m.ima_count as nat);
    lemma_decimal_has_digits_only(m.total_agent_latency_classical_ms as nat);
    lemma_decimal_has_digits_only(m.total_agent_latency_ms as nat);
    lemma_decimal_has_digits_only(m.tpm_quote_len as nat);
    lemma_decimal_has_digits_only(m.classical_pubkey_len as nat);
    lemma_decimal_has_digits_only(m.pq_pubkey_len as nat);
    lemma_decimal_has_digits_only(m.ima_log_len as nat);
    lemma_decimal_has_digits_only(m.pq_sig_len as nat);
    law_fixed_point_holds_digits(m.total_hybrid_ms);
    law_fixed_point_holds_digits(m.ratio);
}

/// What is appended for a registration: the header and a line feed if the file is empty, and
/// in any case the columns in the order of the header, a comma between each two and a
/// line feed at the end, every number in decimal and every text as it is.
pub proof fn law_registration_row(file_len: nat, r: Registration)
    ensures
        appended(file_len, REGISTRATION_HEADER@, registration_fields(r)) == (if file_len == 0 {
            "timestamp,pq_algo,pq_sign_us,tpm_activate_ms,net_reg_ms,net_activate_ms,total_ms"@ + seq!['\n']
        } else {
            Seq::empty()
        }) + (decimal(r.since_the_epoch as nat)
            + seq![','] + r.pq_alg@
            + seq![','] + decimal(r.pq_sign_us as nat)
            + seq![','] + decimal(r.tpm_activate_ms as nat)
            + seq![','] + decimal(r.net_reg_ms as nat)
            + seq![','] + decimal(r.net_activate_ms as nat)
            + seq![','] + decimal(r.total_ms as nat)
            + seq!['\n']),
        REGISTRATION_PATH@ == "/tmp/agent_registration.csv"@,
{
    let all = registration_fields(r);
    assert(all.take(1) =~= seq![all[0]]);
    assert(separated(all.take(1)) == all[0]);
    lemma_one_more_column(all, 1);
    lemma_one_more_column(all, 2);
    lemma_one_more_column(all, 3);
    lemma_one_more_column(all, 4);
    lemma_one_more_column(all, 5);
    lemma_one_more_column(all, 6);
    assert(all.take(7) =~= all);
    let line = decimal(r.since_the_epoch as nat)
            + seq![','] + r.pq_alg@
            + seq![','] + decimal(r.pq_sign_us as nat)
            + seq![','] + decimal(r.tpm_activate_ms as nat)
            + seq![','] + decimal(r.net_reg_ms as nat)
            + seq![','] + decimal(r.net_activate_ms as nat)
            + seq![','] + decimal(r.total_ms as nat);
    assert(separated(all) =~= line);
    assert(row(all) =~= line + seq!['\n']);
    assert(appended(file_len, REGISTRATION_HEADER@, all) =~= (if file_len == 0 {
        "timestamp,pq_algo,pq_sign_us,tpm_activate_ms,net_reg_ms,net_activate_ms,total_ms"@ + seq!['\n']
    } else {
        Seq::empty()
    }) + (line + seq!['\n']));
}

/// Every number in the row of a registration can be read back from its column, and every
/// text stands in its column as it is.
pub proof fn law_registration_columns_read_back(r: Registration)
    ensures
        registration_fields(r).len() == 7,
        positional(registration_fields(r)[0], 10) == r.since_the_epoch,
        positional(registration_fields(r)[2], 10) == r.pq_sign_us,
        positional(registration_fields(r)[3], 10) == r.tpm_activate_ms,
        positional(registration_fields(r)[4], 10) == r.net_reg_ms,
        positional(registration_fields(r)[5], 10) == r.net_activate_ms,
        positional(registration_fields(r)[6], 10) == r.total_ms,
        all_digits(registration_fields(r)[0], 10),
        all_digits(registration_fields(r)[2], 10),
        all_digits(registration_fields(r)[3], 10),
        all_digits(registration_fields(r)[4], 10),
        all_digits(registration_fields(r)[5], 10),
        all_digits(registration_fields(r)[6], 10),
        registration_fields(r)[1] == r.pq_alg@,
{
    lemma_decimal_digits(r.since_the_epoch as nat);
    lemma_decimal_digits(r.pq_sign_us as nat);
    lemma_decimal_digits(r.tpm_activate_ms as nat);
    lemma_decimal_digits(r.net_reg_ms as nat);
    lemma_decimal_digits(r.net_activate_ms as nat);
    lemma_decimal_digits(r.total_ms as nat);
}

/// The row tells all of a registration: two that give the same row are the same in every
/// column, provided no name holds a comma.
pub proof fn law_registration_row_tells_all(one: Registration, two: Registration)
    requires
        forall|i: int| 0 <= i < one.pq_alg@.len() ==> #[trigger] one.pq_alg@[i] != ',',
        forall|i: int| 0 <= i < two.pq_alg@.len() ==> #[trigger] two.pq_alg@[i] != ',',
        row(registration_fields(one)) == row(registration_fields(two)),
    ensures
        one.since_the_epoch == two.since_the_epoch,
        one.pq_alg@ == two.pq_alg@,
        one.pq_sign_us == two.pq_sign_us,
        one.tpm_activate_ms == two.tpm_activate_ms,
        one.net_reg_ms == two.net_reg_ms,
        one.net_activate_ms == two.net_activate_ms,
        one.total_ms == two.total_ms,
{
    let (a, b) = (registration_fields(one), registration_fields(two));
    assert(separated(a) =~= row(a).drop_last());
    assert(separated(b) =~= row(b).drop_last());
    lemma_registration_without_commas(one);
    lemma_registration_without_commas(two);
    lemma_separated_injective(a, b);
    assert(registration_fields(one)[0] == registration_fields(two)[0]);
    law_decimal_tells_the_number(one.since_the_epoch as nat, two.since_the_epoch as nat);
    assert(registration_fields(one)[1] == registration_fields(two)[1]);
    assert(registration_fields(one)[2] == registration_fields(two)[2]);
    law_decimal_tells_the_number(one.pq_sign_us as nat, two.pq_sign_us as nat);
    assert(registration_fields(one)[3] == registration_fields(two)[3]);
    law_decimal_tells_the_number(one.tpm_activate_ms as nat, two.tpm_activate_ms as nat);
    assert(registration_fields(one)[4] == registration_fields(two)[4]);
    law_decimal_tells_the_number(one.net_reg_ms as nat, two.net_reg_ms as nat);
    assert(registration_fields(one)[5] == registration_fields(two)[5]);
    law_decimal_tells_the_number(one.net_activate_ms as nat, two.net_activate_ms as nat);
    assert(registration_fields(one)[6] == registration_fields(two)[6]);
    law_decimal_tells_the_number(one.total_ms as nat, two.total_ms as nat);
}

proof fn lemma_registration_without_commas(r: Registration)
    requires
        forall|i: int| 0 <= i < r.pq_alg@.len() ==> #[trigger] r.pq_alg@[i] != ',',
    ensures
        forall|k: int| 0 <= k < registration_fields(r).len() ==> without_comma(#[trigger] registration_fields(r)[k]),
{
    lemma_decimal_has_digits_only(r.since_the_epoch as nat);
    lemma_decimal_has_digits_only(r.pq_sign_us as nat);
    lemma_decimal_has_digits_only(r.tpm_activate_ms as nat);
    lemma_decimal_has_digits_only(r.net_reg_ms as nat);
    lemma_decimal_has_digits_only(r.net_activate_ms as nat);
    lemma_decimal_has_digits_only(r.total_ms as nat);
}

} // verus!
