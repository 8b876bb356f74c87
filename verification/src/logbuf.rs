//! In-memory log ring buffer: a fixed-capacity record of recent
//! events, filterable by level, newest first. Built once at process
//! start and injected into its consumers.

use vstd::prelude::*;
use crate::text::lower_seq;

verus! {

/// How many entries the buffer keeps before the oldest is dropped.
pub const MAX_LOG_ENTRIES: usize = 500;

/// How many entries a query returns when it does not say.
pub const DEFAULT_LOG_QUERY_COUNT: usize = 100;

/// One recorded event.
#[verifier::ext_equal]
pub struct LogEntry {
    /// Monotonic entry number.
    pub id: u64,
    /// Wall-clock time of recording, for display only.
    pub timestamp: String,
    /// The event's severity label.
    pub level: String,
    /// The module the event came from.
    pub source: String,
    /// The rendered message.
    pub message: String,
}

/// Whether an entry passes a level filter: no filter passes all,
/// a filter matches its level ignoring ASCII case.
pub open spec fn level_passes(e: LogEntry, filter: Option<Seq<char>>) -> bool {
    match filter {
        None => true,
        Some(f) => lower_seq(e.level@) == lower_seq(f),
    }
}

/// The entries of `es` that pass the filter, oldest first.
pub open spec fn filtered(es: Seq<LogEntry>, filter: Option<Seq<char>>) -> Seq<LogEntry>
    decreases es.len(),
{
    if es.len() == 0 {
        Seq::empty()
    } else if level_passes(es.last(), filter) {
        filtered(es.drop_last(), filter).push(es.last())
    } else {
        filtered(es.drop_last(), filter)
    }
}

/// The ring buffer of recent events.
pub struct LogBuffer {
    /// The kept entries, oldest first.
    pub entries: Vec<LogEntry>,
    /// The id the next entry receives.
    pub next_id: u64,
}

/// Relies on chrono::Local::now and its formatting with a fixed
/// valid pattern of hours, minutes, seconds and milliseconds; the
/// result depends on the clock, so nothing more is claimed.
#[verifier::external_body]
fn now_local_hms() -> (r: String)
{
    chrono::Local::now().format("%H:%M:%S%.3f").to_string()
}

impl LogBuffer {
    /// The buffer never holds more than its capacity.
    pub open spec fn wf(self) -> bool {
        self.entries@.len() <= MAX_LOG_ENTRIES
    }

    /// An empty buffer whose first entry gets id zero.
    pub fn new() -> (r: LogBuffer)
        ensures
            r.wf(),
            r.entries@.len() == 0,
            r.next_id == 0,
    {
        LogBuffer { entries: Vec::new(), next_id: 0 }
    }

    /// Records one event, stamped with the current wall-clock time:
    /// appended at the newest end, dropping the oldest entry once the
    /// buffer is full; ids count up and wrap only at the type bound.
    pub fn add_log_entry(&mut self, level: &str, source: &str, message: &str)
        requires
            old(self).wf(),
        ensures
            final(self).wf(),
            final(self).entries@.len() == if old(self).entries@.len() < MAX_LOG_ENTRIES {
                old(self).entries@.len() as int + 1
            } else {
                MAX_LOG_ENTRIES as int
            },
            old(self).entries@.len() < MAX_LOG_ENTRIES ==> forall|i: int|
                0 <= i < old(self).entries@.len() ==> final(self).entries@[i] == old(
                    self,
                ).entries@[i],
            old(self).entries@.len() == MAX_LOG_ENTRIES ==> forall|i: int|
                0 <= i < MAX_LOG_ENTRIES - 1 ==> final(self).entries@[i] == old(self).entries@[i
                    + 1],
            final(self).entries@.last().id == old(self).next_id,
            final(self).entries@.last().level@ == level@,
            final(self).entries@.last().source@ == source@,
            final(self).entries@.last().message@ == message@,
            final(self).next_id == if old(self).next_id < u64::MAX {
                old(self).next_id + 1
            } else {
                0
            },
    {
        let entry = LogEntry {
            id: self.next_id,
            timestamp: now_local_hms(),
            level: String::from_str(level),
            source: String::from_str(source),
            message: String::from_str(message),
        };
        if self.entries.len() >= MAX_LOG_ENTRIES {
            self.entries.remove(0);
        }
        self.entries.push(entry);
        self.next_id = if self.next_id < u64::MAX {
            self.next_id + 1
        } else {
            0
        };
    }

    /// Returns the newest entries that pass the level filter, newest
    /// first: at most `count` of them, or the default query count
    /// when `count` is absent.
    pub fn get_recent_logs(&self, count: Option<usize>, level_filter: Option<&str>) -> (r: Vec<
        LogEntry,
    >)
        ensures
            ({
                let f = match level_filter {
                    Some(l) => Some(l@),
                    None => None,
                };
                let kept = filtered(self.entries@, f);
                let asked = match count {
                    Some(c) => c as int,
                    None => DEFAULT_LOG_QUERY_COUNT as int,
                };
                let limit = if asked < kept.len() {
                    asked
                } else {
                    kept.len() as int
                };
                &&& r@.len() == limit
                &&& forall|i: int| 0 <= i < limit ==> r@[i] == kept[kept.len() - 1 - i]
            }),
    {
        let ghost f = match level_filter {
            Some(l) => Some(l@),
            None => None,
        };
        let mut kept: Vec<LogEntry> = Vec::new();
        let mut i: usize = 0;
        proof {
            assert(self.entries@.take(0) =~= Seq::<LogEntry>::empty());
        }
        while i < self.entries.len()
            invariant
                f == (match level_filter {
                    Some(l) => Some(l@),
                    None => None,
                }),
                i <= self.entries@.len(),
                kept@ == filtered(self.entries@.take(i as int), f),
            decreases self.entries@.len() - i,
        {
            let e = &self.entries[i];
            let passes = match level_filter {
                None => true,
                Some(l) => lower_eq_both(e.level.as_str(), l),
            };
            proof {
                assert(self.entries@.take(i + 1).drop_last() =~= self.entries@.take(i as int));
                assert(self.entries@.take(i + 1).last() == self.entries@[i as int]);
            }
            if passes {
                kept.push(clone_entry(e));
            }
            i += 1;
        }
        proof {
            assert(self.entries@.take(self.entries@.len() as int) =~= self.entries@);
        }
        let limit = {
            let c = match count {
                Some(c) => c,
                None => DEFAULT_LOG_QUERY_COUNT,
            };
            if c < kept.len() {
                c
            } else {
                kept.len()
            }
        };
        let mut r: Vec<LogEntry> = Vec::new();
        let mut k: usize = 0;
        while k < limit
            invariant
                limit <= kept@.len(),
                k <= limit,
                r@.len() == k,
                kept@ == filtered(self.entries@, f),
                forall|m: int| 0 <= m < k ==> r@[m] == kept@[kept@.len() - 1 - m],
            decreases limit - k,
        {
            r.push(clone_entry(&kept[kept.len() - 1 - k]));
            k += 1;
        }
        r
    }

    /// Empties the buffer; entry numbering continues where it was.
    pub fn clear_logs(&mut self)
        ensures
            final(self).wf(),
            final(self).entries@.len() == 0,
            final(self).next_id == old(self).next_id,
    {
        self.entries.clear();
    }
}

/// Whether two level labels agree ignoring ASCII case.
fn lower_eq_both(a: &str, b: &str) -> (r: bool)
    ensures
        r == (lower_seq(a@) == lower_seq(b@)),
{
    let la = lower_string(a);
    let lb = lower_string(b);
    la == lb
}

/// The ASCII lower-casing of a string.
fn lower_string(s: &str) -> (r: String)
    ensures
        r@ == lower_seq(s@),
{
    let n = s.unicode_len();
    let mut out = String::new();
    let mut i: usize = 0;
    proof {
        assert(out@ =~= lower_seq(s@).take(0));
    }
    while i < n
        invariant
            n == s@.len(),
            i <= n,
            out@ == lower_seq(s@).take(i as int),
        decreases n - i,
    {
        let c = crate::text::lower_char_exec(s.get_char(i));
        append_char(&mut out, c);
        proof {
            assert(lower_seq(s@).take(i + 1) =~= lower_seq(s@).take(i as int).push(
                crate::text::lower_char(s@[i as int]),
            ));
        }
        i += 1;
    }
    proof {
        assert(lower_seq(s@).take(n as int) =~= lower_seq(s@));
    }
    out
}

/// Relies on String::push: appends exactly the one character.
#[verifier::external_body]
fn append_char(out: &mut String, c: char)
    ensures
        final(out)@ == old(out)@.push(c),
{
    out.push(c);
}

/// A field-for-field copy of an entry.
fn clone_entry(e: &LogEntry) -> (r: LogEntry)
    ensures
        r == *e,
{
    let r = LogEntry {
        id: e.id,
        timestamp: e.timestamp.clone(),
        level: e.level.clone(),
        source: e.source.clone(),
        message: e.message.clone(),
    };
    proof {
        assert(r =~= *e);
    }
    r
}

/// Strips one pair of surrounding double quotes from a rendered
/// field value, as debug formatting adds around plain strings.
pub fn strip_field_quotes(s: &str) -> (r: String)
    ensures
        s@.len() > 1 && s@[0] == '"' && s@.last() == '"' ==> r@ == s@.subrange(
            1,
            s@.len() - 1,
        ),
        !(s@.len() > 1 && s@[0] == '"' && s@.last() == '"') ==> r@ == s@,
{
    let n = s.unicode_len();
    if n > 1 && s.get_char(0) == '"' && s.get_char(n - 1) == '"' {
        String::from_str(s.substring_char(1, n - 1))
    } else {
        String::from_str(s)
    }
}

/// First position of a module separator in `t`, or a negative value.
pub open spec fn find_sep(t: Seq<char>) -> int
    decreases t.len(),
{
    if t.len() < 2 {
        -1
    } else if t[0] == ':' && t[1] == ':' {
        0
    } else if find_sep(t.drop_first()) < 0 {
        -1
    } else {
        find_sep(t.drop_first()) + 1
    }
}

/// What remains of a tracing target after its last module separator:
/// the component the event is attributed to.
pub open spec fn source_of(t: Seq<char>) -> Seq<char>
    decreases t.len(),
{
    let i = find_sep(t);
    if 0 <= i && i + 2 <= t.len() {
        source_of(t.skip(i + 2))
    } else {
        t
    }
}

proof fn lemma_find_sep_at(t: Seq<char>, k: int)
    requires
        0 <= k,
        k + 2 <= t.len(),
        t[k] == ':' && t[k + 1] == ':',
        forall|j: int| 0 <= j < k ==> !(#[trigger] t[j] == ':' && t[j + 1] == ':'),
    ensures
        find_sep(t) == k,
    decreases k,
{
    if k == 0 {
    } else {
        assert(!(t[0] == ':' && t[1] == ':'));
        lemma_find_sep_at(t.drop_first(), k - 1);
    }
}

proof fn lemma_find_sep_none(t: Seq<char>)
    requires
        forall|j: int| 0 <= j && j + 2 <= t.len() ==> !(#[trigger] t[j] == ':' && t[j + 1]
            == ':'),
    ensures
        find_sep(t) < 0,
    decreases t.len(),
{
    if t.len() >= 2 {
        lemma_find_sep_none(t.drop_first());
    }
}

/// The component after the last module separator of a tracing
/// target, read left to right as the separator splits it.
pub fn source_from_target(t: &str) -> (r: String)
    ensures
        r@ == source_of(t@),
{
    let n = t.unicode_len();
    let mut start: usize = 0;
    let mut i: usize = 0;
    proof {
        assert(t@.skip(0) =~= t@);
    }
    while i < n && i + 1 < n
        invariant
            n == t@.len(),
            start <= i,
            i <= n,
            source_of(t@) == source_of(t@.skip(start as int)),
            forall|j: int| start <= j < i ==> !(#[trigger] t@[j] == ':' && t@[j + 1] == ':'),
        decreases n - i,
    {
        if t.get_char(i) == ':' && t.get_char(i + 1) == ':' {
            proof {
                let sub = t@.skip(start as int);
                let k = i - start;
                assert(forall|j: int| 0 <= j < k ==> #[trigger] sub[j] == t@[j + start]);
                assert(forall|j: int| 0 <= j < k + 1 ==> #[trigger] sub[j] == t@[j + start]);
                lemma_find_sep_at(sub, k);
                assert(sub.skip(k + 2) =~= t@.skip(i + 2));
                assert(source_of(sub) == source_of(t@.skip(i + 2)));
            }
            start = i + 2;
            i = i + 2;
        } else {
            i = i + 1;
        }
    }
    proof {
        let sub = t@.skip(start as int);
        assert(forall|j: int|
            0 <= j && j + 2 <= sub.len() ==> #[trigger] sub[j] == t@[j + start] && sub[j + 1]
                == t@[j + start + 1]);
        lemma_find_sep_none(sub);
        assert(source_of(sub) == sub);
        assert(sub =~= t@.subrange(start as int, n as int));
    }
    String::from_str(t.substring_char(start, n))
}

} // verus!
