//! Measurement lists: selecting the lines that speak of given paths.
use vstd::prelude::*;

use crate::text::{chars_of, law_occurs_in_the_middle, occurs, occurs_in};

verus! {

/// The number of characters of `s` in front of its first line feed.
pub open spec fn line_length(s: Seq<char>) -> nat
    decreases s.len(),
{
    if s.len() == 0 || s[0] == '\n' {
        0
    } else {
        1 + line_length(s.skip(1))
    }
}

/// A line that a line feed ended, without the carriage return in front of it.
pub open spec fn without_carriage_return(line: Seq<char>) -> Seq<char> {
    if line.len() > 0 && line.last() == '\r' {
        line.drop_last()
    } else {
        line
    }
}

/// The lines of `s`, which end with a line feed or with a carriage return and a
/// line feed. The end of the last line is optional, and a carriage return there
/// belongs to the line.
pub open spec fn lines_of(s: Seq<char>) -> Seq<Seq<char>>
    decreases s.len(),
{
    let n = line_length(s);
    if s.len() == 0 {
        Seq::empty()
    } else if n >= s.len() {
        seq![s]
    } else {
        seq![without_carriage_return(s.take(n as int))] + lines_of(s.skip((n + 1) as int))
    }
}

/// One of `paths` occurs in `line`.
pub open spec fn mentions(line: Seq<char>, paths: Seq<&str>) -> bool {
    exists|i: int| 0 <= i < paths.len() && occurs_in(#[trigger] paths[i]@, line)
}

/// The lines that mention one of `paths`, in their order.
pub open spec fn kept_lines(lines: Seq<Seq<char>>, paths: Seq<&str>) -> Seq<Seq<char>> {
    lines.filter(|line: Seq<char>| mentions(line, paths))
}

/// `lines` with a line feed between each two.
pub open spec fn joined(lines: Seq<Seq<char>>) -> Seq<char>
    decreases lines.len(),
{
    if lines.len() == 0 {
        Seq::empty()
    } else if lines.len() == 1 {
        lines[0]
    } else {
        joined(lines.drop_last()).push('\n') + lines.last()
    }
}

pub(crate) proof fn lemma_line_length(s: Seq<char>, n: int)
    requires
        0 <= n <= s.len(),
        forall|i: int| 0 <= i < n ==> s[i] != '\n',
        n < s.len() ==> s[n] == '\n',
    ensures
        line_length(s) == n,
    decreases n,
{
    if n > 0 {
        assert forall|i: int| 0 <= i < n - 1 implies s.skip(1)[i] != '\n' by {
            assert(s.skip(1)[i] == s[i + 1]);
        }
        lemma_line_length(s.skip(1), n - 1);
    }
}

/// Whether `line` mentions one of `paths`.
fn line_mentions(line: &Vec<char>, paths: &[&str]) -> (res: bool)
    ensures
        res == mentions(line@, paths@),
{
    let mut i: usize = 0;
    while i < paths.len()
        invariant
            i <= paths@.len(),
            forall|j: int| 0 <= j < i ==> !occurs_in(#[trigger] paths@[j]@, line@),
        decreases paths@.len() - i,
    {
        if occurs(&chars_of(paths[i]), line) {
            return true;
        }
        i = i + 1;
    }
    false
}

/// Adds `line` to the text if it mentions one of `paths`. `empty` tells whether
/// no line was added yet.
fn add_line(
    out: &mut String,
    empty: bool,
    line: &Vec<char>,
    paths: &[&str],
    Ghost(lines): Ghost<Seq<Seq<char>>>,
) -> (res: bool)
    requires
        old(out)@ == joined(kept_lines(lines, paths@)),
        empty == (kept_lines(lines, paths@).len() == 0),
    ensures
        final(out)@ == joined(kept_lines(lines.push(line@), paths@)),
        res == (kept_lines(lines.push(line@), paths@).len() == 0),
{
    let ghost kept = kept_lines(lines, paths@);
    let ghost all = lines.push(line@);
    proof {
        reveal(Seq::filter);
        assert(all.drop_last() =~= lines);
        assert(all.last() == line@);
    }
    if !line_mentions(line, paths) {
        assert(kept_lines(all, paths@) == kept);
        return empty;
    }
    assert(kept_lines(all, paths@) == kept.push(line@));
    assert(kept.push(line@).drop_last() =~= kept);
    if !empty {
        out.push('\n');
    }
    let ghost head = out@;
    let mut k: usize = 0;
    while k < line.len()
        invariant
            k <= line@.len(),
            out@ == head + line@.take(k as int),
        decreases line@.len() - k,
    {
        out.push(line[k]);
        k = k + 1;
        assert(line@.take(k as int) =~= line@.take(k - 1).push(line@[k - 1]));
    }
    assert(line@.take(line@.len() as int) =~= line@);
    assert(out@ =~= joined(kept.push(line@)));
    false
}

/// The lines of `measurements` in which one of `paths` occurs, with a line feed
/// between each two and none at the end.
pub fn filter_measurements_by_path(measurements: &str, paths: &[&str]) -> (res: String)
    ensures
        res@ == joined(kept_lines(lines_of(measurements@), paths@)),
{
    let mut out = String::new();
    let mut empty: bool = true;
    let mut line: Vec<char> = Vec::new();
    let ghost mut done: Seq<Seq<char>> = Seq::empty();
    let ghost mut start: int = 0;
    let ghost text = measurements@;
    proof {
        reveal(Seq::filter);
        assert(text.skip(0) =~= text);
        assert(done + lines_of(text) =~= lines_of(text));
    }
    for c in iter: measurements.chars()
        invariant
            iter.seq() == text,
            0 <= start <= iter.index() <= text.len(),
            line@ == text.subrange(start, iter.index() as int),
            forall|j: int| start <= j < iter.index() ==> text[j] != '\n',
            done + lines_of(text.skip(start)) == lines_of(text),
            out@ == joined(kept_lines(done, paths@)),
            empty == (kept_lines(done, paths@).len() == 0),
    {
        let ghost at = iter.index() as int;
        if c == '\n' {
            let ghost rest = text.skip(start);
            let ghost n = at - start;
            proof {
                lemma_line_length(rest, n);
                assert(rest.take(n) =~= line@);
                assert(rest.skip(n + 1) =~= text.skip(at + 1));
            }
            if line.len() > 0 && line[line.len() - 1] == '\r' {
                let _ = line.pop();
            }
            assert(line@ =~= without_carriage_return(rest.take(n)));
            empty = add_line(&mut out, empty, &line, paths, Ghost(done));
            proof {
                assert(done.push(line@) + lines_of(text.skip(at + 1)) =~= done + (seq![line@]
                    + lines_of(text.skip(at + 1))));
                done = done.push(line@);
                start = at + 1;
            }
            line = Vec::new();
        } else {
            line.push(c);
            assert(line@ =~= text.subrange(start, at + 1));
        }
    }
    let ghost rest = text.skip(start);
    assert(rest =~= line@);
    if line.len() > 0 {
        proof {
            lemma_line_length(rest, rest.len() as int);
            assert(done + seq![rest] =~= done.push(rest));
        }
        let _ = add_line(&mut out, empty, &line, paths, Ghost(done));
    } else {
        assert(done + lines_of(rest) =~= done);
    }
    out
}

/// No path, no line: filtering by an empty list of paths leaves nothing.
pub proof fn law_no_paths_keep_nothing(text: Seq<char>)
    ensures
        joined(kept_lines(lines_of(text), Seq::<&str>::empty())) == Seq::<char>::empty(),
{
    let pred = |line: Seq<char>| mentions(line, Seq::<&str>::empty());
    lines_of(text).lemma_all_neg_filter_empty(pred);
}

proof fn lemma_lines_hold_no_line_feed(s: Seq<char>, k: int, i: int)
    requires
        0 <= k < lines_of(s).len(),
        0 <= i < lines_of(s)[k].len(),
    ensures
        lines_of(s)[k][i] != '\n',
    decreases s.len(),
{
    lemma_no_line_feed_within(s, i);
    let n = line_length(s);
    if n < s.len() && k > 0 {
        lemma_lines_hold_no_line_feed(s.skip((n + 1) as int), k - 1, i);
    }
}

pub(crate) proof fn lemma_no_line_feed_within(s: Seq<char>, i: int)
    ensures
        line_length(s) <= s.len(),
        0 <= i < line_length(s) ==> s[i] != '\n',
    decreases s.len(),
{
    if s.len() > 0 && s[0] != '\n' {
        lemma_no_line_feed_within(s.skip(1), i - 1);
    }
}

pub(crate) proof fn lemma_line_feed_ends_line(s: Seq<char>)
    ensures
        line_length(s) < s.len() ==> s[line_length(s) as int] == '\n',
    decreases s.len(),
{
    if s.len() > 0 && s[0] != '\n' {
        lemma_line_feed_ends_line(s.skip(1));
    }
}

proof fn lemma_joined_from_front(lines: Seq<Seq<char>>)
    requires
        lines.len() >= 2,
    ensures
        joined(lines) == lines[0].push('\n') + joined(lines.skip(1)),
    decreases lines.len(),
{
    let tail = lines.skip(1);
    if lines.len() == 2 {
        assert(joined(lines.drop_last()) == lines[0]);
        assert(joined(tail) == lines[1]);
    } else {
        lemma_joined_from_front(lines.drop_last());
        assert(lines.drop_last().skip(1) =~= tail.drop_last());
        assert(joined(lines) =~= lines[0].push('\n') + (joined(tail.drop_last()).push('\n')
            + lines.last()));
    }
}

/// `lines` can be told apart again once they are joined: no line but the last
/// ends with a carriage return, and the last one, if there is any, is not empty.
pub open spec fn separable(lines: Seq<Seq<char>>) -> bool {
    &&& forall|k: int| 0 <= k < lines.len() - 1 && lines[k].len() > 0 ==> #[trigger] lines[k].last() != '\r'
    &&& lines.len() > 0 ==> lines.last().len() > 0
}

proof fn lemma_lines_of_joined(lines: Seq<Seq<char>>)
    requires
        separable(lines),
        forall|k: int, i: int| 0 <= k < lines.len() && 0 <= i < lines[k].len() ==> #[trigger] lines[k][i] != '\n',
    ensures
        lines_of(joined(lines)) == lines,
    decreases lines.len(),
{
    if lines.len() == 0 {
    } else if lines.len() == 1 {
        let only = lines[0];
        assert(only == lines.last());
        lemma_line_length(only, only.len() as int);
        assert(lines =~= seq![only]);
    } else {
        let tail = lines.skip(1);
        let text = joined(lines);
        lemma_joined_from_front(lines);
        assert forall|k: int| 0 <= k < tail.len() - 1 && tail[k].len() > 0 implies #[trigger] tail[k].last()
            != '\r' by {
            assert(tail[k] == lines[k + 1]);
        }
        assert forall|k: int, i: int| 0 <= k < tail.len() && 0 <= i < tail[k].len() implies #[trigger] tail[k][i]
            != '\n' by {
            assert(tail[k] == lines[k + 1]);
        }
        assert(tail.last() == lines.last());
        lemma_lines_of_joined(tail);
        let n = lines[0].len() as int;
        lemma_line_length(text, n);
        assert(text.take(n) =~= lines[0]);
        assert(text.skip(n + 1) =~= joined(tail));
        assert(without_carriage_return(lines[0]) == lines[0]);
        assert(lines =~= seq![lines[0]] + tail);
    }
}

/// Who splits the filtered list into lines finds exactly the lines that were
/// kept, provided they can be told apart.
pub proof fn law_filtered_lines_read_back(text: Seq<char>, paths: Seq<&str>)
    requires
        separable(kept_lines(lines_of(text), paths)),
    ensures
        lines_of(joined(kept_lines(lines_of(text), paths))) == kept_lines(lines_of(text), paths),
{
    let lines = lines_of(text);
    let kept = kept_lines(lines, paths);
    assert forall|k: int, i: int| 0 <= k < kept.len() && 0 <= i < kept[k].len() implies #[trigger] kept[k][i]
        != '\n' by {
        lemma_filter_takes_from(lines, |line: Seq<char>| mentions(line, paths), k);
        let j = choose|j: int| 0 <= j < lines.len() && #[trigger] lines[j] == kept[k];
        lemma_lines_hold_no_line_feed(text, j, i);
    }
    lemma_lines_of_joined(kept);
}

/// Filtering what was filtered by the same paths changes nothing, provided the
/// lines can be told apart.
pub proof fn law_filtering_again_changes_nothing(text: Seq<char>, paths: Seq<&str>)
    requires
        separable(kept_lines(lines_of(text), paths)),
    ensures
        ({
            let once = joined(kept_lines(lines_of(text), paths));
            joined(kept_lines(lines_of(once), paths)) == once
        }),
{
    let pred = |line: Seq<char>| mentions(line, paths);
    law_filtered_lines_read_back(text, paths);
    lemma_filter_of_filtered(lines_of(text), pred);
}

proof fn lemma_filter_of_filtered(s: Seq<Seq<char>>, pred: spec_fn(Seq<char>) -> bool)
    ensures
        s.filter(pred).filter(pred) == s.filter(pred),
    decreases s.len(),
{
    reveal(Seq::filter);
    if s.len() > 0 {
        let head = s.drop_last().filter(pred);
        lemma_filter_of_filtered(s.drop_last(), pred);
        assert(head.push(s.last()).drop_last() =~= head);
    }
}

proof fn lemma_filter_takes_from(s: Seq<Seq<char>>, pred: spec_fn(Seq<char>) -> bool, k: int)
    requires
        0 <= k < s.filter(pred).len(),
    ensures
        exists|j: int| 0 <= j < s.len() && #[trigger] s[j] == s.filter(pred)[k],
    decreases s.len(),
{
    reveal(Seq::filter);
    if s.len() > 0 {
        let head = s.drop_last();
        if k < head.filter(pred).len() {
            lemma_filter_takes_from(head, pred, k);
            let j = choose|j: int| 0 <= j < head.len() && #[trigger] head[j] == head.filter(pred)[k];
            assert(s[j] == s.filter(pred)[k]);
        } else {
            assert(s[s.len() - 1] == s.filter(pred)[k]);
        }
    }
}

/// A line in which one of the paths stands is kept, whatever stands before and
/// behind the path; a line in which none stands is not.
pub proof fn law_lines_with_a_path_are_kept(
    lines: Seq<Seq<char>>,
    line: Seq<char>,
    paths: Seq<&str>,
)
    ensures
        ({
            let holds_a_path = exists|k: int, before: Seq<char>, after: Seq<char>|
                0 <= k < paths.len() && line == #[trigger] (before + paths[k]@ + after);
            kept_lines(lines.push(line), paths) == if holds_a_path {
                kept_lines(lines, paths).push(line)
            } else {
                kept_lines(lines, paths)
            }
        }),
        kept_lines(Seq::empty(), paths) == Seq::<Seq<char>>::empty(),
{
    let holds_a_path = exists|k: int, before: Seq<char>, after: Seq<char>|
        0 <= k < paths.len() && line == #[trigger] (before + paths[k]@ + after);
    assert(mentions(line, paths) <==> holds_a_path) by {
        if mentions(line, paths) {
            let k = choose|k: int| 0 <= k < paths.len() && occurs_in(#[trigger] paths[k]@, line);
            law_occurs_in_the_middle(paths[k]@, line);
            let (before, after) = choose|before: Seq<char>, after: Seq<char>|
                line == #[trigger] (before + paths[k]@ + after);
            assert(line == before + paths[k]@ + after);
        }
        if holds_a_path {
            let (k, before, after) = choose|k: int, before: Seq<char>, after: Seq<char>|
                0 <= k < paths.len() && line == #[trigger] (before + paths[k]@ + after);
            law_occurs_in_the_middle(paths[k]@, line);
            assert(occurs_in(paths[k]@, line));
        }
    }
    reveal(Seq::filter);
    assert(lines.push(line).drop_last() =~= lines);
}

/// A path that stands anywhere in a line keeps the line.
pub proof fn law_path_keeps_its_line(
    before: Seq<char>,
    after: Seq<char>,
    paths: Seq<&str>,
    k: int,
)
    requires
        0 <= k < paths.len(),
    ensures
        kept_lines(seq![before + paths[k]@ + after], paths) == seq![before + paths[k]@ + after],
{
    let line = before + paths[k]@ + after;
    law_lines_with_a_path_are_kept(Seq::empty(), line, paths);
    assert(Seq::<Seq<char>>::empty().push(line) =~= seq![line]);
}

/// A text is cut at its first line feed; a carriage return in front of that goes
/// with it. What no line feed ends is a line if it is not empty.
pub proof fn law_lines_end_with_line_feeds(line: Seq<char>, rest: Seq<char>)
    requires
        forall|i: int| 0 <= i < line.len() ==> #[trigger] line[i] != '\n',
    ensures
        lines_of(line.push('\n') + rest) == seq![
            if line.len() > 0 && line.last() == '\r' {
                line.drop_last()
            } else {
                line
            },
        ] + lines_of(rest),
        line.len() > 0 ==> lines_of(line) == seq![line],
        lines_of(Seq::empty()) == Seq::<Seq<char>>::empty(),
{
    let text = line.push('\n') + rest;
    let n = line.len() as int;
    lemma_line_length(text, n);
    assert(text.take(n) =~= line);
    assert(text.skip(n + 1) =~= rest);
    lemma_line_length(line, n);
    assert(lines_of(text) =~= seq![without_carriage_return(line)] + lines_of(rest));
}

/// Lines are joined by one line feed between each two, and none at the end.
pub proof fn law_lines_are_joined_by_line_feeds(lines: Seq<Seq<char>>, line: Seq<char>)
    ensures
        joined(Seq::empty()) == Seq::<char>::empty(),
        joined(seq![line]) == line,
        lines.len() > 0 ==> joined(lines.push(line)) == joined(lines) + seq!['\n'] + line,
{
    assert(lines.push(line).drop_last() =~= lines);
    assert(lines.push(line).last() == line);
    if lines.len() > 0 {
        assert(joined(lines.push(line)) =~= joined(lines) + seq!['\n'] + line);
    }
}

} // verus!
