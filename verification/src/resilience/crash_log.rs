//! Crash logs: how report files are named, which file is the newest and
//! which old files a cleanup removes.
//!
//! A report is written to `logs/panic_YYYYMMDD_HHMMSS.json`, so the order of
//! the file names is the order of the crashes.
use vstd::prelude::*;
use vstd::string::*;
use crate::text::chars_of;

verus! {

/// The prefix of every crash log file name.
pub open spec fn crash_log_prefix() -> Seq<char> {
    "panic_"@
}

/// Whether a file name is that of a crash log: it starts with `panic_`.
pub open spec fn is_crash_log(name: Seq<char>) -> bool {
    name.len() >= 6 && name.take(6) == crash_log_prefix()
}

/// Whether `a` comes after `b` in the order of their characters, looking from
/// position `i` on (the characters before `i` being equal).
pub open spec fn after_from(a: Seq<char>, b: Seq<char>, i: int) -> bool
    decreases a.len() - i,
{
    if i >= b.len() {
        i < a.len()
    } else if i >= a.len() {
        false
    } else if a[i] != b[i] {
        (a[i] as u32) > (b[i] as u32)
    } else {
        after_from(a, b, i + 1)
    }
}

/// Whether `a` comes after `b` in lexicographic order by code point (the
/// order of `str`'s comparison).
pub open spec fn text_after(a: Seq<char>, b: Seq<char>) -> bool {
    after_from(a, b, 0)
}

/// No text comes after itself.
pub proof fn lemma_after_irreflexive(a: Seq<char>, i: int)
    requires
        0 <= i <= a.len(),
    ensures
        !after_from(a, a, i),
    decreases a.len() - i,
{
    if i < a.len() {
        lemma_after_irreflexive(a, i + 1);
    }
}

/// Coming after is transitive.
pub proof fn lemma_after_transitive(a: Seq<char>, b: Seq<char>, c: Seq<char>, i: int)
    requires
        0 <= i,
        after_from(a, b, i),
        after_from(b, c, i),
    ensures
        after_from(a, c, i),
    decreases a.len() - i,
{
    if i < c.len() && i < b.len() && i < a.len() && a[i] == b[i] && b[i] == c[i] {
        lemma_after_transitive(a, b, c, i + 1);
    }
}

/// Whether a file name comes after another in `str` order.
pub fn name_after(a: &str, b: &str) -> (r: bool)
    ensures
        r == text_after(a@, b@),
{
    let x = chars_of(a);
    let y = chars_of(b);
    let mut i: usize = 0;
    while i < x.len() && i < y.len() && x[i] == y[i]
        invariant
            i <= x@.len(),
            i <= y@.len(),
            x@ == a@,
            y@ == b@,
            after_from(a@, b@, 0) == after_from(a@, b@, i as int),
        decreases x@.len() - i,
    {
        i += 1;
    }
    if i >= y.len() {
        i < x.len()
    } else if i >= x.len() {
        false
    } else {
        (x[i] as u32) > (y[i] as u32)
    }
}

/// Whether a file name is that of a crash log.
pub fn crash_log_name(name: &str) -> (r: bool)
    ensures
        r == is_crash_log(name@),
{
    let x = chars_of(name);
    proof {
        reveal_strlit("panic_");
    }
    let prefix = chars_of("panic_");
    assert(prefix@.len() == 6);
    if x.len() < 6 {
        return false;
    }
    let mut i: usize = 0;
    while i < 6
        invariant
            i <= 6,
            x@ == name@,
            x@.len() >= 6,
            prefix@ == crash_log_prefix(),
            prefix@.len() == 6,
            forall|k: int| 0 <= k < i ==> x@[k] == prefix@[k],
        decreases 6 - i,
    {
        if x[i] != prefix[i] {
            proof {
                assert(name@.take(6)[i as int] != crash_log_prefix()[i as int]);
            }
            return false;
        }
        i += 1;
    }
    proof {
        assert(name@.take(6) =~= crash_log_prefix());
    }
    true
}

/// The texts of a list of strings.
pub open spec fn texts_of(names: Seq<String>) -> Seq<Seq<char>> {
    names.map_values(|s: String| s@)
}

/// The crash logs among some texts, in their order.
pub open spec fn crash_logs_among(texts: Seq<Seq<char>>) -> Seq<Seq<char>> {
    texts.filter(|n: Seq<char>| is_crash_log(n))
}

/// The crash logs among the file names, in their order.
pub open spec fn crash_logs(names: Seq<String>) -> Seq<Seq<char>> {
    crash_logs_among(texts_of(names))
}

/// How many of the texts come after `n`.
pub open spec fn count_after(texts: Seq<Seq<char>>, n: Seq<char>) -> nat {
    texts.filter(|m: Seq<char>| text_after(m, n)).len()
}

/// Those of `part` with at least `keep` texts of `all` after them.
pub open spec fn with_newer(all: Seq<Seq<char>>, part: Seq<Seq<char>>, keep: nat) -> Seq<Seq<char>> {
    part.filter(|n: Seq<char>| count_after(all, n) >= keep)
}

/// The crash logs that a cleanup keeping the newest `keep` removes: those
/// with at least `keep` newer crash logs.
pub open spec fn logs_to_remove(names: Seq<String>, keep: nat) -> Seq<Seq<char>> {
    with_newer(crash_logs(names), crash_logs(names), keep)
}

fn crash_log_list(names: &Vec<String>) -> (r: Vec<String>)
    ensures
        texts_of(r@) == crash_logs(names@),
{
    let mut out: Vec<String> = Vec::new();
    let mut i: usize = 0;
    while i < names.len()
        invariant
            i <= names@.len(),
            texts_of(out@) == crash_logs_among(texts_of(names@.take(i as int))),
        decreases names@.len() - i,
    {
        let ghost before = out@;
        proof {
            let t1 = texts_of(names@.take(i + 1));
            assert(t1.drop_last() =~= texts_of(names@.take(i as int)));
            assert(t1.last() == names@[i as int]@);
            reveal(Seq::filter);
        }
        if crash_log_name(names[i].as_str()) {
            out.push(names[i].clone());
            proof {
                assert(texts_of(out@) =~= texts_of(before).push(names@[i as int]@));
            }
        }
        i += 1;
    }
    proof {
        assert(names@.take(names@.len() as int) =~= names@);
    }
    out
}

fn count_newer(logs: &Vec<String>, n: &str) -> (c: usize)
    ensures
        c == count_after(texts_of(logs@), n@),
{
    let ghost texts = texts_of(logs@);
    let mut c: usize = 0;
    let mut j: usize = 0;
    while j < logs.len()
        invariant
            j <= logs@.len(),
            texts == texts_of(logs@),
            c == count_after(texts.take(j as int), n@),
            c <= j,
        decreases logs@.len() - j,
    {
        proof {
            assert(texts.take(j + 1).drop_last() =~= texts.take(j as int));
            assert(texts.take(j + 1).last() == logs@[j as int]@);
            reveal(Seq::filter);
            texts.take(j as int).lemma_filter_len(|m: Seq<char>| text_after(m, n@));
        }
        if name_after(logs[j].as_str(), n) {
            c = c + 1;
        }
        j += 1;
    }
    proof {
        assert(texts.take(logs@.len() as int) =~= texts);
    }
    c
}

/// The crash logs that a cleanup keeping the newest `keep` removes, in the
/// order of the names given (see `logs_to_remove`).
pub fn crash_logs_to_remove(names: &Vec<String>, keep: usize) -> (r: Vec<String>)
    ensures
        texts_of(r@) == logs_to_remove(names@, keep as nat),
{
    let logs = crash_log_list(names);
    let ghost all = crash_logs(names@);
    let mut out: Vec<String> = Vec::new();
    let mut i: usize = 0;
    while i < logs.len()
        invariant
            i <= logs@.len(),
            texts_of(logs@) == all,
            all == crash_logs(names@),
            texts_of(out@) == with_newer(all, all.take(i as int), keep as nat),
        decreases logs@.len() - i,
    {
        let ghost before = out@;
        proof {
            assert(all.take(i + 1).drop_last() =~= all.take(i as int));
            assert(all.take(i + 1).last() == all[i as int]);
            assert(all[i as int] == logs@[i as int]@);
            reveal(Seq::filter);
        }
        let newer = count_newer(&logs, logs[i].as_str());
        if newer >= keep {
            out.push(logs[i].clone());
            proof {
                assert(texts_of(out@) =~= texts_of(before).push(all[i as int]));
            }
        }
        i += 1;
    }
    proof {
        assert(all.take(all.len() as int) =~= all);
    }
    out
}

/// The newest crash log among the file names: a crash log that no other
/// crash log comes after; `None` when there is none.
pub fn newest_crash_log(names: &Vec<String>) -> (r: Option<String>)
    ensures
        r is None <==> crash_logs(names@).len() == 0,
        r matches Some(s) ==> crash_logs(names@).contains(s@)
            && forall|k: int| 0 <= k < crash_logs(names@).len() ==> !text_after(#[trigger] crash_logs(names@)[k], s@),
{
    let logs = crash_log_list(names);
    let ghost all = crash_logs(names@);
    if logs.len() == 0 {
        return None;
    }
    let mut best: usize = 0;
    let mut i: usize = 1;
    proof {
        assert(texts_of(logs@)[0] == logs@[0]@);
        lemma_after_irreflexive(logs@[0]@, 0);
    }
    while i < logs.len()
        invariant
            1 <= i <= logs@.len(),
            best < i,
            texts_of(logs@) == all,
            forall|k: int| 0 <= k < i ==> !text_after(#[trigger] all[k], all[best as int]),
        decreases logs@.len() - i,
    {
        proof {
            assert(all[i as int] == logs@[i as int]@);
            assert(all[best as int] == logs@[best as int]@);
        }
        if name_after(logs[i].as_str(), logs[best].as_str()) {
            proof {
                let old_best = all[best as int];
                let new_best = all[i as int];
                assert forall|k: int| 0 <= k < i + 1 implies !text_after(#[trigger] all[k], new_best) by {
                    if k == i {
                        lemma_after_irreflexive(new_best, 0);
                    } else if text_after(all[k], new_best) {
                        lemma_after_transitive(all[k], new_best, old_best, 0);
                    }
                }
            }
            best = i;
        }
        i += 1;
    }
    proof {
        assert(all[best as int] == logs@[best as int]@);
        assert(all.contains(all[best as int]));
    }
    Some(logs[best].clone())
}

/// The text of a wall-clock time, given in milliseconds since the Unix
/// epoch, rendered in UTC as `YYYYMMDD_HHMMSS`; `None` where the time lies
/// outside the range the date library represents.
pub uninterp spec fn compact_utc_text(millis: i64) -> Option<Seq<char>>;

/// Renders a wall-clock time as `YYYYMMDD_HHMMSS` in UTC
/// (`chrono::DateTime::from_timestamp_millis`, then `format("%Y%m%d_%H%M%S")`);
/// the result is named by `compact_utc_text`.
#[verifier::external_body]
fn compact_utc(millis: i64) -> (r: Option<String>)
    ensures
        match compact_utc_text(millis) {
            Some(t) => r matches Some(s) && s@ == t,
            None => r is None,
        },
{
    match chrono::DateTime::from_timestamp_millis(millis) {
        Some(t) => Some(t.format("%Y%m%d_%H%M%S").to_string()),
        None => None,
    }
}

/// The file name of a report stamped `stamp`: `panic_<stamp>.json`.
pub fn crash_log_file_name(stamp: &str) -> (s: String)
    ensures
        s@ == crash_log_prefix() + stamp@ + ".json"@,
{
    let mut s = String::from_str("panic_");
    proof {
        reveal_strlit("panic_");
    }
    s.append(stamp);
    s.append(".json");
    s
}

/// The file name of a report of a crash at wall-clock time `millis`, or
/// `None` where the time cannot be rendered.
pub fn crash_log_filename(millis: i64) -> (r: Option<String>)
    ensures
        match compact_utc_text(millis) {
            Some(t) => r matches Some(s) && s@ == crash_log_prefix() + t + ".json"@,
            None => r is None,
        },
{
    match compact_utc(millis) {
        Some(stamp) => Some(crash_log_file_name(stamp.as_str())),
        None => None,
    }
}

} // verus!
