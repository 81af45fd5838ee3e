//! Which log files are kept, and what of them belongs to a session.

use vstd::prelude::*;

use crate::text;

verus! {

// ---------------------------------------------------------------------------------------------
// Old files
// ---------------------------------------------------------------------------------------------

/// How many days log files are kept.
pub const KEEP_DAYS: u64 = 7;

/// How many nanoseconds a day has.
pub const DAY_NANOS: u128 = 86_400_000_000_000;

/// Whether a file that was last changed at a time is older than so many days; times in
/// nanoseconds.
pub open spec fn is_old(modified: u64, now: u64, max_days: u64) -> bool {
    modified + max_days * DAY_NANOS < now
}

/// The places of the files that are older than so many days, by when they were last changed; times
/// in nanoseconds. Of a file without a time it is not known that it is old.
pub open spec fn old_places(files: Seq<Option<u64>>, now: u64, max_days: u64) -> Seq<usize>
    decreases files.len(),
{
    if files.len() == 0 {
        Seq::empty()
    } else {
        let rest = old_places(files.drop_last(), now, max_days);
        match files.last() {
            Some(t) => if is_old(t, now, max_days) {
                rest.push((files.len() - 1) as usize)
            } else {
                rest
            },
            None => rest,
        }
    }
}

/// The places of the files that are to be removed.
pub fn cleanup_old_logs(files: &Vec<Option<u64>>, now: u64, max_days: u64) -> (r: Vec<usize>)
    ensures
        r@ == old_places(files@, now, max_days),
{
    let mut old: Vec<usize> = Vec::new();
    let mut i: usize = 0;
    proof {
        assert(files@.take(0) =~= Seq::<Option<u64>>::empty());
        assert(max_days * DAY_NANOS <= u64::MAX * DAY_NANOS) by (nonlinear_arith)
            requires
                max_days <= u64::MAX,
        ;
    }
    let age: u128 = max_days as u128 * DAY_NANOS;
    while i < files.len()
        invariant
            i <= files@.len(),
            age == max_days * DAY_NANOS,
            age <= u64::MAX * DAY_NANOS,
            old@ == old_places(files@.take(i as int), now, max_days),
        decreases files@.len() - i,
    {
        proof {
            assert(files@.take(i as int + 1).drop_last() =~= files@.take(i as int));
            assert(files@.take(i as int + 1).last() == files@[i as int]);
        }
        match files[i] {
            Some(t) => {
                if (t as u128) + age < now as u128 {
                    old.push(i);
                }
            },
            None => {},
        }
        i = i + 1;
    }
    proof {
        assert(files@.take(i as int) =~= files@);
    }
    old
}

/// Exactly the files that are old are removed.
pub proof fn law_exactly_old_files_go(files: Seq<Option<u64>>, now: u64, max_days: u64, i: usize)
    requires
        files.len() <= usize::MAX,
    ensures
        old_places(files, now, max_days).contains(i) <==> i < files.len() && (files[i as int] matches
            Some(t) && is_old(t, now, max_days)),
    decreases files.len(),
{
    if files.len() > 0 {
        let rest = files.drop_last();
        let n = files.len() - 1;
        law_exactly_old_files_go(rest, now, max_days, i);
        let places = old_places(files, now, max_days);
        let before = old_places(rest, now, max_days);
        let gone = files.last() matches Some(t) && is_old(t, now, max_days);
        if gone {
            assert(places == before.push(n as usize));
            if before.contains(i) {
                let k = choose|k: int| 0 <= k < before.len() && before[k] == i;
                assert(places[k] == i);
            }
            assert(places[before.len() as int] == n as usize);
            if places.contains(i) && i != n {
                let k = choose|k: int| 0 <= k < places.len() && places[k] == i;
                assert(before[k] == i);
            }
        }
        if i < n {
            assert(rest[i as int] == files[i as int]);
        }
    }
}

// ---------------------------------------------------------------------------------------------
// The log of a session
// ---------------------------------------------------------------------------------------------

/// How the names of log files begin.
pub const LOG_PREFIX: &'static str = "friday.log";

/// Whether a text stands before another in the order of their characters, or is the same.
pub open spec fn up_to(a: Seq<char>, b: Seq<char>) -> bool
    decreases a.len(),
{
    if a.len() == 0 {
        true
    } else if b.len() == 0 {
        false
    } else if a[0] != b[0] {
        a[0] < b[0]
    } else {
        up_to(a.drop_first(), b.drop_first())
    }
}

fn is_up_to(a: &str, b: &str) -> (r: bool)
    ensures
        r == up_to(a@, b@),
{
    let x: Vec<char> = text::to_chars(a);
    let y: Vec<char> = text::to_chars(b);
    let mut i: usize = 0;
    proof {
        assert(a@.skip(0) =~= a@);
        assert(b@.skip(0) =~= b@);
    }
    while i < x.len() && i < y.len()
        invariant
            x@ == a@,
            y@ == b@,
            i <= x@.len(),
            i <= y@.len(),
            up_to(a@.skip(i as int), b@.skip(i as int)) == up_to(a@, b@),
        decreases x@.len() - i,
    {
        proof {
            assert(a@.skip(i as int)[0] == a@[i as int]);
            assert(b@.skip(i as int)[0] == b@[i as int]);
            assert(a@.skip(i as int).drop_first() =~= a@.skip(i as int + 1));
            assert(b@.skip(i as int).drop_first() =~= b@.skip(i as int + 1));
        }
        if x[i] != y[i] {
            return x[i] < y[i];
        }
        i = i + 1;
    }
    i >= x.len()
}

proof fn lemma_up_to_total(a: Seq<char>, b: Seq<char>)
    ensures
        up_to(a, b) || up_to(b, a),
    decreases a.len(),
{
    if a.len() > 0 && b.len() > 0 {
        lemma_up_to_total(a.drop_first(), b.drop_first());
    }
}

proof fn lemma_up_to_trans(a: Seq<char>, b: Seq<char>, c: Seq<char>)
    requires
        up_to(a, b),
        up_to(b, c),
    ensures
        up_to(a, c),
    decreases a.len(),
{
    if a.len() > 0 && b.len() > 0 && c.len() > 0 && a[0] == b[0] && b[0] == c[0] {
        lemma_up_to_trans(a.drop_first(), b.drop_first(), c.drop_first());
    }
}

/// A log file: its name, and what it holds.
pub struct LogFile {
    pub name: String,
    pub bytes: Vec<u8>,
}

/// The model of [`LogFile`].
pub struct Log {
    pub name: Seq<char>,
    pub bytes: Seq<u8>,
}

impl View for LogFile {
    type V = Log;

    open spec fn view(&self) -> Log {
        Log { name: self.name@, bytes: self.bytes@ }
    }
}

/// What files are, by their models.
pub open spec fn logs(v: Seq<LogFile>) -> Seq<Log> {
    v.map_values(|f: LogFile| f@)
}

/// The files whose names begin as those of log files do.
pub open spec fn only_logs(files: Seq<Log>) -> Seq<Log>
    decreases files.len(),
{
    if files.len() == 0 {
        Seq::empty()
    } else if LOG_PREFIX@.is_prefix_of(files.last().name) {
        only_logs(files.drop_last()).push(files.last())
    } else {
        only_logs(files.drop_last())
    }
}

/// Files in the order of their names.
pub open spec fn by_name(files: Seq<Log>) -> bool {
    forall|i: int, j: int|
        0 <= i < j < files.len() ==> up_to((#[trigger] files[i]).name, (#[trigger] files[j]).name)
}

/// What bytes are as a text.
pub uninterp spec fn lossy(bytes: Seq<u8>) -> Seq<char>;

/// Calls `String::from_utf8_lossy`: the text that the bytes are, where what is no UTF-8 is
/// replaced; the same bytes always give the same text.
#[verifier::external_body]
fn lossy_text(bytes: &Vec<u8>) -> (r: String)
    ensures
        r@ == lossy(bytes@),
{
    String::from_utf8_lossy(bytes).into_owned()
}

/// Where the line ends that begins at `from`, with its line break.
pub open spec fn line_end(bytes: Seq<u8>, from: int) -> int
    decreases bytes.len() - from,
{
    if 0 <= from < bytes.len() {
        if bytes[from] == 10 {
            from + 1
        } else {
            line_end(bytes, from + 1)
        }
    } else {
        bytes.len() as int
    }
}

/// The lines of a log, each with its line break, from `from` on.
pub open spec fn log_lines(bytes: Seq<u8>, from: int) -> Seq<Seq<u8>>
    decreases bytes.len() - from,
{
    if 0 <= from < bytes.len() && from < line_end(bytes, from) <= bytes.len() {
        seq![bytes.subrange(from, line_end(bytes, from))] + log_lines(bytes, line_end(bytes, from))
    } else {
        Seq::empty()
    }
}

proof fn lemma_line_end(bytes: Seq<u8>, from: int)
    requires
        0 <= from < bytes.len(),
    ensures
        from < line_end(bytes, from) <= bytes.len(),
    decreases bytes.len() - from,
{
    if bytes[from] != 10 {
        if from + 1 < bytes.len() {
            lemma_line_end(bytes, from + 1);
        } else {
            assert(line_end(bytes, from + 1) == bytes.len());
        }
    }
}

/// The lines that hold a text.
pub open spec fn lines_with(lines: Seq<Seq<u8>>, id: Seq<char>) -> Seq<Seq<u8>>
    decreases lines.len(),
{
    if lines.len() == 0 {
        Seq::empty()
    } else if text::contains(lossy(lines[0]), id) {
        seq![lines[0]] + lines_with(lines.drop_first(), id)
    } else {
        lines_with(lines.drop_first(), id)
    }
}

/// Lines, one after the other.
pub open spec fn joined(lines: Seq<Seq<u8>>) -> Seq<u8>
    decreases lines.len(),
{
    if lines.len() == 0 {
        Seq::empty()
    } else {
        lines[0] + joined(lines.drop_first())
    }
}

/// The lines of files that hold a text, file after file.
pub open spec fn session_lines(files: Seq<Log>, id: Seq<char>) -> Seq<Seq<u8>>
    decreases files.len(),
{
    if files.len() == 0 {
        Seq::empty()
    } else {
        session_lines(files.drop_last(), id) + lines_with(log_lines(files.last().bytes, 0), id)
    }
}

/// What was found of a session.
#[derive(Debug, PartialEq, Eq)]
pub struct SessionLogExport {
    /// Where it is written to.
    pub path: String,
    pub line_count: u64,
    pub files_scanned: u64,
}

proof fn lemma_joined_add(a: Seq<Seq<u8>>, b: Seq<Seq<u8>>)
    ensures
        joined(a + b) == joined(a) + joined(b),
    decreases a.len(),
{
    if a.len() == 0 {
        assert(a + b =~= b);
        assert(joined(a) + joined(b) =~= joined(b));
    } else {
        assert((a + b).drop_first() =~= a.drop_first() + b);
        assert((a + b)[0] == a[0]);
        lemma_joined_add(a.drop_first(), b);
        assert(joined(a + b) =~= joined(a) + joined(b));
    }
}

proof fn lemma_lines_with_add(a: Seq<Seq<u8>>, b: Seq<Seq<u8>>, id: Seq<char>)
    ensures
        lines_with(a + b, id) == lines_with(a, id) + lines_with(b, id),
    decreases a.len(),
{
    if a.len() == 0 {
        assert(a + b =~= b);
        assert(lines_with(a, id) + lines_with(b, id) =~= lines_with(b, id));
    } else {
        assert((a + b).drop_first() =~= a.drop_first() + b);
        assert((a + b)[0] == a[0]);
        lemma_lines_with_add(a.drop_first(), b, id);
        assert(lines_with(a + b, id) =~= lines_with(a, id) + lines_with(b, id));
    }
}

fn line_end_of(bytes: &Vec<u8>, from: usize) -> (r: usize)
    requires
        from < bytes@.len(),
    ensures
        r == line_end(bytes@, from as int),
        from < r <= bytes@.len(),
{
    proof {
        lemma_line_end(bytes@, from as int);
    }
    let mut i: usize = from;
    while i < bytes.len()
        invariant
            from <= i <= bytes@.len(),
            from < bytes@.len(),
            line_end(bytes@, i as int) == line_end(bytes@, from as int),
            from < line_end(bytes@, from as int) <= bytes@.len(),
        decreases bytes@.len() - i,
    {
        if bytes[i] == 10 {
            return i + 1;
        }
        i = i + 1;
    }
    i
}

/// Appends a part of bytes.
fn append_part(out: &mut Vec<u8>, bytes: &Vec<u8>)
    ensures
        final(out)@ == old(out)@ + bytes@,
{
    let ghost before = out@;
    let mut i: usize = 0;
    proof {
        assert(before + bytes@.take(0) =~= before);
    }
    while i < bytes.len()
        invariant
            i <= bytes@.len(),
            out@ == before + bytes@.take(i as int),
        decreases bytes@.len() - i,
    {
        out.push(bytes[i]);
        i = i + 1;
        proof {
            assert(out@ =~= before + bytes@.take(i as int));
        }
    }
    proof {
        assert(bytes@.take(i as int) =~= bytes@);
    }
}

fn part_of(bytes: &Vec<u8>, from: usize, to: usize) -> (r: Vec<u8>)
    requires
        from <= to <= bytes@.len(),
    ensures
        r@ == bytes@.subrange(from as int, to as int),
{
    let mut part: Vec<u8> = Vec::new();
    let mut i: usize = from;
    while i < to
        invariant
            from <= i <= to <= bytes@.len(),
            part@ == bytes@.subrange(from as int, i as int),
        decreases to - i,
    {
        part.push(bytes[i]);
        i = i + 1;
        proof {
            assert(part@ =~= bytes@.subrange(from as int, i as int));
        }
    }
    part
}

/// Appends the lines of a log that hold a text, and counts them.
fn collect_lines(out: &mut Vec<u8>, bytes: &Vec<u8>, session_id: &str) -> (n: u64)
    requires
        bytes@.len() <= u64::MAX,
    ensures
        final(out)@ == old(out)@ + joined(lines_with(log_lines(bytes@, 0), session_id@)),
        n == lines_with(log_lines(bytes@, 0), session_id@).len(),
        n <= bytes@.len(),
{
    let ghost before = out@;
    let ghost all = log_lines(bytes@, 0);
    let ghost mut done: Seq<Seq<u8>> = Seq::empty();
    let mut n: u64 = 0;
    let mut from: usize = 0;
    proof {
        assert(done + log_lines(bytes@, 0) =~= all);
        assert(out@ =~= before + joined(lines_with(done, session_id@)));
    }
    while from < bytes.len()
        invariant
            from <= bytes@.len(),
            bytes@.len() <= u64::MAX,
            done + log_lines(bytes@, from as int) == all,
            out@ == before + joined(lines_with(done, session_id@)),
            n == lines_with(done, session_id@).len(),
            n <= from,
        decreases bytes@.len() - from,
    {
        let end: usize = line_end_of(bytes, from);
        let line: Vec<u8> = part_of(bytes, from, end);
        let ghost rest = log_lines(bytes@, end as int);
        let ghost one = seq![line@];
        proof {
            assert(log_lines(bytes@, from as int) == one + rest);
            assert(done + (one + rest) =~= (done + one) + rest);
            lemma_lines_with_add(done, one, session_id@);
            assert(one.drop_first() =~= Seq::<Seq<u8>>::empty());
            assert(lines_with(one.drop_first(), session_id@) =~= Seq::<Seq<u8>>::empty());
            assert(joined(one.drop_first()) =~= Seq::<u8>::empty());
            assert(lines_with(one, session_id@) =~= (if text::contains(lossy(line@), session_id@) {
                one
            } else {
                Seq::<Seq<u8>>::empty()
            }));
            lemma_joined_add(lines_with(done, session_id@), lines_with(one, session_id@));
            assert(one[0] + joined(one.drop_first()) =~= line@);
        }
        if text::has(lossy_text(&line).as_str(), session_id) {
            append_part(out, &line);
            n = n + 1;
        }
        proof {
            done = done + one;
            assert(out@ =~= before + joined(lines_with(done, session_id@)));
        }
        from = end;
    }
    proof {
        assert(log_lines(bytes@, from as int) =~= Seq::<Seq<u8>>::empty());
        assert(done =~= all);
    }
    n
}

/// How many bytes files hold.
pub open spec fn total_len(files: Seq<Log>) -> nat
    decreases files.len(),
{
    if files.len() == 0 {
        0
    } else {
        total_len(files.drop_last()) + files.last().bytes.len()
    }
}

/// The log files among files, in the order of their names.
pub fn sorted_logs(files: Vec<LogFile>) -> (r: Vec<LogFile>)
    ensures
        by_name(logs(r@)),
        logs(r@).to_multiset() == only_logs(logs(files@)).to_multiset(),
{
    let ghost all = logs(files@);
    let mut rest: Vec<LogFile> = files;
    let mut sorted: Vec<LogFile> = Vec::new();
    proof {
        assert(logs(sorted@) =~= Seq::<Log>::empty());
        assert(logs(rest@) =~= all);
        assert(only_logs(all).to_multiset() =~= logs(sorted@).to_multiset().add(
            only_logs(logs(rest@)).to_multiset(),
        )) by {
            vstd::seq_lib::lemma_multiset_commutative(logs(sorted@), only_logs(logs(rest@)));
            assert(logs(sorted@) + only_logs(logs(rest@)) =~= only_logs(logs(rest@)));
        }
    }
    while rest.len() > 0
        invariant
            by_name(logs(sorted@)),
            only_logs(all).to_multiset() == logs(sorted@).to_multiset().add(
                only_logs(logs(rest@)).to_multiset(),
            ),
        decreases rest@.len(),
    {
        let ghost was = logs(rest@);
        let ghost before = logs(sorted@);
        match rest.pop() {
            Some(f) => {
                let ghost log = f@;
                proof {
                    assert(logs(rest@) =~= was.drop_last());
                    assert(was.last() == log);
                    vstd::seq_lib::to_multiset_build(only_logs(was.drop_last()), log);
                }
                if text::begins_with(f.name.as_str(), LOG_PREFIX) {
                    insert_by_name(&mut sorted, f);
                    proof {
                        assert(before.to_multiset().insert(log).add(
                            only_logs(was.drop_last()).to_multiset(),
                        ) =~= before.to_multiset().add(
                            only_logs(was.drop_last()).to_multiset().insert(log),
                        ));
                    }
                }
            },
            None => {},
        }
    }
    proof {
        assert(only_logs(logs(rest@)) =~= Seq::<Log>::empty());
        assert(only_logs(all).to_multiset() =~= logs(sorted@).to_multiset()) by {
            vstd::seq_lib::lemma_multiset_commutative(logs(sorted@), Seq::<Log>::empty());
            assert(logs(sorted@) + Seq::<Log>::empty() =~= logs(sorted@));
        }
    }
    sorted
}

/// Puts a file in its place among files in the order of their names.
fn insert_by_name(list: &mut Vec<LogFile>, f: LogFile)
    requires
        by_name(logs(old(list)@)),
    ensures
        by_name(logs(final(list)@)),
        logs(final(list)@).to_multiset() == logs(old(list)@).to_multiset().insert(f@),
{
    let ghost before = logs(list@);
    let mut i: usize = 0;
    while i < list.len() && is_up_to(list[i].name.as_str(), f.name.as_str())
        invariant
            i <= list@.len(),
            before == logs(list@),
            forall|j: int| 0 <= j < i ==> up_to((#[trigger] before[j]).name, f@.name),
        decreases list@.len() - i,
    {
        proof {
            assert(before[i as int] == list@[i as int]@);
        }
        i = i + 1;
    }
    proof {
        if i < list@.len() {
            assert(before[i as int] == list@[i as int]@);
            lemma_up_to_total(before[i as int].name, f@.name);
        }
        vstd::seq_lib::to_multiset_insert(before, i as int, f@);
    }
    list.insert(i, f);
    proof {
        let after = logs(list@);
        assert(after =~= before.insert(i as int, f@));
        assert forall|a: int, b: int| 0 <= a < b < after.len() implies up_to(
            (#[trigger] after[a]).name,
            (#[trigger] after[b]).name,
        ) by {
            let y = b - 1;
            if b < i {
                assert(after[a] == before[a] && after[b] == before[b]);
            } else if b == i {
                assert(after[a] == before[a]);
            } else if a < i {
                assert(after[a] == before[a] && after[b] == before[y]);
            } else if a == i {
                assert(after[b] == before[y]);
                if y > i {
                    assert(up_to(before[i as int].name, before[y].name));
                    lemma_up_to_trans(f@.name, before[i as int].name, before[y].name);
                }
            } else {
                assert(after[a] == before[a - 1] && after[b] == before[y]);
            }
        }
    }
}

/// The lines of log files that belong to a session, in the order of the names of the files, and
/// what was found. `files` are the files of the directory of the logs.
pub fn export_session_logs(files: Vec<LogFile>, out_path: &str, session_id: &str) -> (r: (
    Vec<u8>,
    SessionLogExport,
))
    requires
        total_len(logs(files@)) <= u64::MAX,
    ensures
        exists|sorted: Seq<Log>| #[trigger]
            by_name(sorted) && sorted.to_multiset() == only_logs(logs(files@)).to_multiset()
                && r.0@ == joined(session_lines(sorted, session_id@)) && r.1.path@ == out_path@
                && r.1.line_count == session_lines(sorted, session_id@).len()
                && r.1.files_scanned == sorted.len(),
{
    let ghost all = logs(files@);
    let sorted: Vec<LogFile> = sorted_logs(files);
    let ghost list = logs(sorted@);
    let mut out: Vec<u8> = Vec::new();
    let mut count: u64 = 0;
    let mut i: usize = 0;
    proof {
        lemma_only_logs_len(all);
        lemma_total_same(list, only_logs(all));
        assert(list.take(0) =~= Seq::<Log>::empty());
        assert(list.take(list.len() as int) =~= list);
        assert(out@ =~= Seq::<u8>::empty());
    }
    while i < sorted.len()
        invariant
            list == logs(sorted@),
            i <= sorted@.len(),
            total_len(list) <= u64::MAX,
            count <= total_len(list.take(i as int)),
            count == session_lines(list.take(i as int), session_id@).len(),
            out@ == joined(session_lines(list.take(i as int), session_id@)),
        decreases sorted@.len() - i,
    {
        let ghost so_far = list.take(i as int);
        let ghost next = list.take(i as int + 1);
        let ghost lines = lines_with(log_lines(list[i as int].bytes, 0), session_id@);
        proof {
            assert(next.drop_last() =~= so_far);
            assert(next.last() == list[i as int]);
            assert(list[i as int] == sorted@[i as int]@);
            lemma_total_take(list, i as int + 1);
            lemma_joined_add(session_lines(so_far, session_id@), lines);
        }
        let n: u64 = collect_lines(&mut out, &sorted[i].bytes, session_id);
        count = count + n;
        i = i + 1;
    }
    proof {
        assert(list.take(i as int) =~= list);
        assert(by_name(list));
    }
    let files_scanned: u64 = sorted.len() as u64;
    (out, SessionLogExport { path: out_path.to_owned(), line_count: count, files_scanned })
}

proof fn lemma_total_take(files: Seq<Log>, n: int)
    requires
        0 <= n <= files.len(),
    ensures
        total_len(files.take(n)) <= total_len(files),
    decreases files.len(),
{
    if n == files.len() {
        assert(files.take(n) =~= files);
    } else {
        assert(files.drop_last().take(n) =~= files.take(n));
        lemma_total_take(files.drop_last(), n);
    }
}

proof fn lemma_only_logs_len(files: Seq<Log>)
    ensures
        total_len(only_logs(files)) <= total_len(files),
    decreases files.len(),
{
    if files.len() > 0 {
        lemma_only_logs_len(files.drop_last());
        let rest = only_logs(files.drop_last());
        assert(rest.push(files.last()).drop_last() =~= rest);
    }
}

proof fn lemma_total_remove(files: Seq<Log>, i: int)
    requires
        0 <= i < files.len(),
    ensures
        total_len(files) == total_len(files.remove(i)) + files[i].bytes.len(),
    decreases files.len(),
{
    if i == files.len() - 1 {
        assert(files.remove(i) =~= files.drop_last());
    } else {
        lemma_total_remove(files.drop_last(), i);
        assert(files.remove(i).drop_last() =~= files.drop_last().remove(i));
        assert(files.remove(i).last() == files.last());
    }
}

/// The same files hold the same number of bytes in any order.
proof fn lemma_total_same(a: Seq<Log>, b: Seq<Log>)
    requires
        a.to_multiset() == b.to_multiset(),
    ensures
        total_len(a) == total_len(b),
    decreases a.len(),
{
    broadcast use vstd::seq_lib::group_to_multiset_ensures;

    assert(a.to_multiset().len() == a.len());
    assert(b.to_multiset().len() == b.len());
    if a.len() > 0 {
        let x = a.last();
        let n = a.len() - 1;
        assert(a.contains(x)) by {
            assert(a[n] == x);
        }
        assert(a.to_multiset().count(x) > 0);
        assert(b.to_multiset().count(x) > 0);
        assert(b.contains(x));
        let j = choose|j: int| 0 <= j < b.len() && b[j] == x;
        assert(a.remove(n).to_multiset() =~= a.to_multiset().remove(a[n]));
        assert(b.remove(j).to_multiset() =~= b.to_multiset().remove(b[j]));
        assert(a.remove(n) =~= a.drop_last());
        lemma_total_same(a.drop_last(), b.remove(j));
        lemma_total_remove(b, j);
    }
}

/// The lines of a log, one after the other, are the log.
pub proof fn law_lines_make_the_log(bytes: Seq<u8>, from: int)
    requires
        0 <= from <= bytes.len(),
    ensures
        joined(log_lines(bytes, from)) == bytes.subrange(from, bytes.len() as int),
    decreases bytes.len() - from,
{
    if from < bytes.len() {
        lemma_line_end(bytes, from);
        let end = line_end(bytes, from);
        law_lines_make_the_log(bytes, end);
        let one = seq![bytes.subrange(from, end)];
        let rest = log_lines(bytes, end);
        assert((one + rest)[0] == bytes.subrange(from, end));
        assert((one + rest).drop_first() =~= rest);
        assert(joined(log_lines(bytes, from)) =~= bytes.subrange(from, bytes.len() as int));
    } else {
        assert(bytes.subrange(from, bytes.len() as int) =~= Seq::<u8>::empty());
    }
}

/// A line that is exported holds the name of the session, and stands in a log as it is.
pub proof fn law_exported_lines_match(lines: Seq<Seq<u8>>, id: Seq<char>, line: Seq<u8>)
    requires
        lines_with(lines, id).contains(line),
    ensures
        lines.contains(line),
        text::contains(lossy(line), id),
    decreases lines.len(),
{
    let found = lines_with(lines, id);
    let rest = lines.drop_first();
    let i = choose|i: int| 0 <= i < found.len() && found[i] == line;
    if text::contains(lossy(lines[0]), id) && i == 0 {
        assert(lines[0] == line);
    } else {
        let k = if text::contains(lossy(lines[0]), id) {
            i - 1
        } else {
            i
        };
        assert(lines_with(rest, id)[k] == line);
        law_exported_lines_match(rest, id, line);
        let j = choose|j: int| 0 <= j < rest.len() && rest[j] == line;
        assert(lines[j + 1] == line);
    }
}

/// A file goes as soon as more than so many days of twenty-four hours have passed since it was
/// changed, and not before; the longer files are kept, the fewer go.
pub proof fn law_files_are_kept_for_days(modified: u64, now: u64, days: u64, more: u64)
    requires
        days <= more,
    ensures
        is_old(modified, now, days) <==> now - modified > days * (24 * 60 * 60) * 1_000_000_000,
        is_old(modified, now, more) ==> is_old(modified, now, days),
        modified >= now ==> !is_old(modified, now, days),
{
    assert(days * DAY_NANOS <= more * DAY_NANOS) by (nonlinear_arith)
        requires
            days <= more,
    ;
    assert(days * (24 * 60 * 60) * 1_000_000_000 == days * DAY_NANOS) by (nonlinear_arith);
    assert(days * DAY_NANOS >= 0) by (nonlinear_arith);
}

/// Exactly the files whose names begin with `friday.log` are read, and each of them stands where it
/// stood among them.
pub proof fn law_exactly_log_files_are_read(files: Seq<Log>, more: Seq<Log>, file: Log)
    ensures
        only_logs(files).contains(file) <==> files.contains(file) && text::starts(
            file.name,
            "friday.log"@,
        ),
        only_logs(files + more) == only_logs(files) + only_logs(more),
    decreases files.len() + more.len(),
{
    if more.len() > 0 {
        let rest = more.drop_last();
        law_exactly_log_files_are_read(files, rest, file);
        assert((files + more).drop_last() =~= files + rest);
        assert((files + more).last() == more.last());
        assert(only_logs(files + more) =~= only_logs(files) + only_logs(more));
    } else {
        assert(files + more =~= files);
        assert(only_logs(files) + only_logs(more) =~= only_logs(files));
        if files.len() > 0 {
            let rest = files.drop_last();
            let last = files.last();
            law_exactly_log_files_are_read(rest, more, file);
            let kept = only_logs(files);
            let before = only_logs(rest);
            let n = LOG_PREFIX@.len() as int;
            reveal_strlit("friday.log");
            assert(LOG_PREFIX@.is_prefix_of(file.name) <==> text::starts(file.name, "friday.log"@))
                by {
                if LOG_PREFIX@.is_prefix_of(file.name) {
                    assert(file.name.take(n) =~= LOG_PREFIX@);
                }
                if text::starts(file.name, "friday.log"@) {
                    assert(LOG_PREFIX@ =~= file.name.subrange(0, n));
                }
            }
            if files.contains(file) {
                let k = choose|k: int| 0 <= k < files.len() && files[k] == file;
                if k < rest.len() {
                    assert(rest[k] == file);
                }
            }
            if rest.contains(file) {
                let k = choose|k: int| 0 <= k < rest.len() && rest[k] == file;
                assert(files[k] == file);
            }
            assert(files[files.len() - 1] == last);
            if LOG_PREFIX@.is_prefix_of(last.name) {
                assert(kept == before.push(last));
                if before.contains(file) {
                    let k = choose|k: int| 0 <= k < before.len() && before[k] == file;
                    assert(kept[k] == file);
                }
                assert(kept[before.len() as int] == last);
                if kept.contains(file) && file != last {
                    let k = choose|k: int| 0 <= k < kept.len() && kept[k] == file;
                    assert(before[k] == file);
                }
            }
        }
    }
}

/// Each line of a log ends with its line break and holds no other; only the last one may lack it.
pub proof fn law_lines_end_at_line_breaks(bytes: Seq<u8>, from: int, k: int)
    requires
        0 <= from <= bytes.len(),
        0 <= k < log_lines(bytes, from).len(),
    ensures
        ({
            let all = log_lines(bytes, from);
            let line = all[k];
            &&& line.len() > 0
            &&& forall|j: int| 0 <= j < line.len() - 1 ==> #[trigger] line[j] != 10
            &&& k < all.len() - 1 ==> line.last() == 10
        }),
    decreases bytes.len() - from,
{
    if from < bytes.len() {
        lemma_line_end(bytes, from);
        lemma_line_break(bytes, from);
        let end = line_end(bytes, from);
        let one = bytes.subrange(from, end);
        let rest = log_lines(bytes, end);
        let all = log_lines(bytes, from);
        assert(all == seq![one] + rest);
        if k == 0 {
            assert(all[k] == one);
            assert forall|j: int| 0 <= j < one.len() - 1 implies #[trigger] one[j] != 10 by {
                assert(one[j] == bytes[from + j]);
            }
            if all.len() > 1 {
                assert(end < bytes.len());
                assert(one.last() == bytes[end - 1]);
            }
        } else {
            assert(all[k] == rest[k - 1]);
            law_lines_end_at_line_breaks(bytes, end, k - 1);
        }
    }
}

proof fn lemma_line_break(bytes: Seq<u8>, from: int)
    requires
        0 <= from < bytes.len(),
    ensures
        ({
            let end = line_end(bytes, from);
            &&& forall|j: int| from <= j < end - 1 ==> #[trigger] bytes[j] != 10
            &&& end < bytes.len() ==> bytes[end - 1] == 10
        }),
    decreases bytes.len() - from,
{
    if bytes[from] != 10 {
        if from + 1 < bytes.len() {
            lemma_line_break(bytes, from + 1);
        } else {
            assert(line_end(bytes, from + 1) == bytes.len());
        }
    }
}

/// No line that holds the name of the session is left out, and the lines stand in their order: of
/// two runs of lines, those of the first come first.
pub proof fn law_no_line_of_the_session_is_left_out(
    lines: Seq<Seq<u8>>,
    more: Seq<Seq<u8>>,
    id: Seq<char>,
    line: Seq<u8>,
)
    ensures
        lines.contains(line) && text::contains(lossy(line), id) ==> lines_with(lines, id).contains(
            line,
        ),
        lines_with(lines + more, id) == lines_with(lines, id) + lines_with(more, id),
        joined(lines_with(lines + more, id)) == joined(lines_with(lines, id)) + joined(
            lines_with(more, id),
        ),
{
    if lines.contains(line) && text::contains(lossy(line), id) {
        let k = choose|k: int| 0 <= k < lines.len() && lines[k] == line;
        let before = lines.take(k);
        let one = seq![line];
        let after = lines.skip(k + 1);
        assert(lines =~= before + one + after);
        lemma_lines_with_add(before + one, after, id);
        lemma_lines_with_add(before, one, id);
        assert(one.drop_first() =~= Seq::<Seq<u8>>::empty());
        assert(lines_with(one.drop_first(), id) =~= Seq::<Seq<u8>>::empty());
        assert(lines_with(one, id) =~= one);
        let found = lines_with(before, id) + one + lines_with(after, id);
        assert(lines_with(lines, id) == found);
        assert(found[lines_with(before, id).len() as int] == line);
    }
    lemma_lines_with_add(lines, more, id);
    lemma_joined_add(lines_with(lines, id), lines_with(more, id));
}

/// The lines of the session are taken from every file, file after file.
pub proof fn law_files_are_read_one_after_the_other(files: Seq<Log>, more: Seq<Log>, id: Seq<char>)
    ensures
        session_lines(files + more, id) == session_lines(files, id) + session_lines(more, id),
        more.len() == 1 ==> session_lines(more, id) == lines_with(log_lines(more[0].bytes, 0), id),
    decreases more.len(),
{
    if more.len() == 0 {
        assert(files + more =~= files);
        assert(session_lines(files, id) + session_lines(more, id) =~= session_lines(files, id));
    } else {
        let rest = more.drop_last();
        law_files_are_read_one_after_the_other(files, rest, id);
        assert((files + more).drop_last() =~= files + rest);
        assert((files + more).last() == more.last());
        assert(session_lines(files + more, id) =~= session_lines(files, id) + session_lines(
            more,
            id,
        ));
        if more.len() == 1 {
            assert(session_lines(rest, id) =~= Seq::<Seq<u8>>::empty());
            assert(session_lines(more, id) =~= lines_with(log_lines(more[0].bytes, 0), id));
        }
    }
}

/// Names are ordered by the first character in which they differ, and a name comes before the
/// longer ones that begin with it.
pub proof fn law_first_difference_orders_names(
    p: Seq<char>,
    c: char,
    d: char,
    x: Seq<char>,
    y: Seq<char>,
)
    requires
        c < d,
    ensures
        up_to(p + seq![c] + x, p + seq![d] + y),
        !up_to(p + seq![d] + y, p + seq![c] + x),
        up_to(p, p + x),
        x.len() > 0 ==> !up_to(p + x, p),
    decreases p.len(),
{
    let a = p + seq![c] + x;
    let b = p + seq![d] + y;
    if p.len() == 0 {
        assert(a[0] == c && b[0] == d);
    } else {
        let q = p.drop_first();
        law_first_difference_orders_names(q, c, d, x, y);
        assert(a[0] == p[0] && b[0] == p[0] && (p + x)[0] == p[0]);
        assert(a.drop_first() =~= q + seq![c] + x);
        assert(b.drop_first() =~= q + seq![d] + y);
        assert((p + x).drop_first() =~= q + x);
    }
}

/// Of two log files the one whose name comes first is read first.
pub proof fn law_files_are_in_the_order_of_their_names(files: Seq<Log>, i: int, j: int)
    requires
        by_name(files),
        0 <= i <= j < files.len(),
    ensures
        up_to(files[i].name, files[j].name),
{
    if i == j {
        lemma_up_to_total(files[i].name, files[i].name);
    }
}

} // verus!
