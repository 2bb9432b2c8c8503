use crate::color::{is_level_tag, level_tag};
use crate::level::{level_named, Level, LevelFilter};
use crate::record::{Metadata, Record};
use crate::rules::{
    ceiling, find_threshold, insert_rule, inserted_by_len, max_ceiling, rules_view, sorted_by_len,
    threshold, Rule,
};
use crate::timestamp::{
    clock_reading, offset_view, opt_text, result_text, timestamp_at, timestamp_spec, TimestampError,
    Timestamps,
};
use std::collections::HashMap;
use vstd::prelude::*;
use vstd::string::*;

verus! {

/// A logger: a default ceiling, per-target overrides and the options of the
/// line layout. Built by chained calls, then handed to the `log` facade.
pub struct SimpleLogger {
    default_level: LevelFilter,
    /// Sorted from the longest prefix to the shortest, so that the first
    /// match is the most specific one.
    module_levels: Vec<Rule>,
    threads: bool,
    timestamps: Timestamps,
    timestamps_format: Option<String>,
    colors: bool,
    /// Lines go to standard error rather than standard output.
    stderr: bool,
}

/// The configuration a logger holds.
pub struct LoggerView {
    pub default_level: LevelFilter,
    pub rules: Seq<(Seq<char>, LevelFilter)>,
    pub threads: bool,
    pub timestamps: Timestamps,
    pub timestamps_format: Option<Seq<char>>,
    pub colors: bool,
    pub stderr: bool,
}

impl LoggerView {
    /// The overrides are sorted from the longest prefix to the shortest.
    pub open spec fn wf(self) -> bool {
        sorted_by_len(self.rules)
    }
}

impl View for SimpleLogger {
    type V = LoggerView;

    closed spec fn view(&self) -> LoggerView {
        LoggerView {
            default_level: self.default_level,
            rules: rules_view(self.module_levels@),
            threads: self.threads,
            timestamps: self.timestamps,
            timestamps_format: opt_text(self.timestamps_format),
            colors: self.colors,
            stderr: self.stderr,
        }
    }
}

/// The configuration of a new logger: everything passes, timestamps in UTC,
/// colours on, no thread names, lines to standard output.
pub open spec fn initial_view() -> LoggerView {
    LoggerView {
        default_level: LevelFilter::Trace,
        rules: Seq::empty(),
        threads: false,
        timestamps: Timestamps::Utc,
        timestamps_format: None,
        colors: true,
        stderr: false,
    }
}

/// Whether a message of `level` for `target` passes: its level is no more
/// verbose than the ceiling of the first matching override, or than the
/// default where none matches.
pub open spec fn decide(v: LoggerView, target: Seq<char>, level: Level) -> bool {
    level.rank() <= threshold(v.rules, target, v.default_level).rank()
}

pub open spec fn opt_view(o: Option<&str>) -> Option<Seq<char>> {
    match o {
        Some(s) => Some(s@),
        None => None,
    }
}

/// The default ceiling after reading `value`: the level it names, or
/// `default` where it names none or is absent.
pub open spec fn env_level(value: Option<Seq<char>>, default: LevelFilter) -> LevelFilter {
    match value {
        Some(s) => match level_named(s) {
            Some(l) => l.spec_to_level_filter(),
            None => default,
        },
        None => default,
    }
}

/// The target column: the record's target, or where that is empty the module
/// path, or nothing.
pub open spec fn shown_target(record: &Record) -> Seq<char> {
    if record.metadata.target@.len() > 0 {
        record.metadata.target@
    } else {
        match record.module {
            Some(p) => p@,
            None => Seq::empty(),
        }
    }
}

/// The thread column: `@` and the thread's name, `@?` for a thread without
/// one; nothing where thread names are off.
pub open spec fn thread_column(threads: bool, name: Option<Seq<char>>) -> Seq<char> {
    if threads {
        seq!['@'] + match name {
            Some(n) => n,
            None => seq!['?'],
        }
    } else {
        Seq::empty()
    }
}

/// `timestamp`, `tag`, ` [`, target, thread, `] `, message.
pub open spec fn line(
    timestamp: Seq<char>,
    tag: Seq<char>,
    target: Seq<char>,
    thread: Seq<char>,
    message: Seq<char>,
) -> Seq<char> {
    timestamp + tag + seq![' ', '['] + target + thread + seq![']', ' '] + message
}

/// The line for `record` from the given timestamp column, level column and
/// thread name.
pub open spec fn rendered(
    v: LoggerView,
    record: &Record,
    timestamp: Seq<char>,
    tag: Seq<char>,
    thread_name: Option<Seq<char>>,
) -> Seq<char> {
    line(
        timestamp,
        tag,
        shown_target(record),
        thread_column(v.threads, thread_name),
        record.message@,
    )
}

/// The line for `record` at clock reading `now`, with local offset
/// `local_offset` and level column `tag`; an error where no timestamp could
/// be written.
pub open spec fn line_spec(
    v: LoggerView,
    record: &Record,
    thread_name: Option<Seq<char>>,
    now: int,
    local_offset: Option<int>,
    tag: Seq<char>,
) -> Result<Seq<char>, TimestampError> {
    match timestamp_spec(v.timestamps, v.timestamps_format, now, local_offset) {
        Ok(ts) => Ok(rendered(v, record, ts, tag, thread_name)),
        Err(e) => Err(e),
    }
}

/// What writing `record` now gives: the line for some clock reading, the
/// local offset at it, and a level column that the configuration allows.
pub open spec fn formats_as(
    v: LoggerView,
    record: &Record,
    thread_name: Option<Seq<char>>,
    r: Result<String, TimestampError>,
) -> bool {
    exists|now: int, local_offset: Option<int>, tag: Seq<char>|
        is_level_tag(v.colors, record.metadata.level, tag) && result_text(r) == #[trigger] line_spec(
            v,
            record,
            thread_name,
            now,
            local_offset,
            tag,
        )
}

/// `x` is an entry of `m`, its key seen as text.
pub open spec fn entry_of(m: Map<String, LevelFilter>, x: (Seq<char>, LevelFilter)) -> bool {
    exists|k: String| m.contains_key(k) && x == (k@, m[k])
}

/// `x` is among the first `n` elements of `s`.
spec fn among_first(s: Seq<(Seq<char>, LevelFilter)>, n: int, x: (Seq<char>, LevelFilter)) -> bool {
    exists|m: int| 0 <= m < n && s[m] == x
}

/// Each element of a sequence after an insertion is the inserted one or an
/// element from before.
proof fn lemma_inserted_members(
    before: Seq<(Seq<char>, LevelFilter)>,
    x: (Seq<char>, LevelFilter),
    after: Seq<(Seq<char>, LevelFilter)>,
)
    requires
        inserted_by_len(before, x, after),
    ensures
        after.len() == before.len() + 1,
        forall|j: int|
            0 <= j < after.len() ==> after[j] == x || exists|m: int|
                0 <= m < before.len() && #[trigger] after[j] == before[m],
{
    let k = choose|k: int|
        0 <= k <= before.len() && after == before.insert(k, x) && (forall|i: int|
            0 <= i < k ==> #[trigger] before[i].0.len() >= x.0.len()) && (forall|i: int|
            k <= i < before.len() ==> #[trigger] before[i].0.len() < x.0.len());
    assert forall|j: int| 0 <= j < after.len() implies after[j] == x || exists|m: int|
        0 <= m < before.len() && #[trigger] after[j] == before[m] by {
        if j < k {
            assert(after[j] == before[j]);
        } else if j > k {
            assert(after[j] == before[j - 1]);
        }
    }
}

/// Where an insertion put its element.
proof fn lemma_insert_index(
    before: Seq<(Seq<char>, LevelFilter)>,
    x: (Seq<char>, LevelFilter),
    after: Seq<(Seq<char>, LevelFilter)>,
) -> (k: int)
    requires
        inserted_by_len(before, x, after),
    ensures
        0 <= k <= before.len(),
        after == before.insert(k, x),
{
    choose|k: int|
        0 <= k <= before.len() && after == before.insert(k, x) && (forall|i: int|
            0 <= i < k ==> #[trigger] before[i].0.len() >= x.0.len()) && (forall|i: int|
            k <= i < before.len() ==> #[trigger] before[i].0.len() < x.0.len())
}

impl SimpleLogger {
    /// A logger that lets every level through, with timestamps in UTC and
    /// colours on.
    pub fn new() -> (r: SimpleLogger)
        ensures
            r@ == initial_view(),
            r@.wf(),
    {
        let r = SimpleLogger {
            default_level: LevelFilter::Trace,
            module_levels: Vec::new(),
            threads: false,
            timestamps: Timestamps::Utc,
            timestamps_format: None,
            colors: true,
            stderr: false,
        };
        assert(r@.rules =~= Seq::empty());
        r
    }

    /// Sets the default ceiling from `value`, the text of `RUST_LOG`: a level
    /// name in any ASCII case. Any other text, or none, leaves it unchanged.
    pub fn env(self, value: Option<&str>) -> (r: SimpleLogger)
        ensures
            r@ == (LoggerView { default_level: env_level(opt_view(value), self@.default_level), ..self@ }),
    {
        let mut r = self;
        if let Some(s) = value {
            if let Some(l) = Level::parse(s) {
                r.default_level = l.to_level_filter();
            }
        }
        r
    }

    /// A new logger whose default ceiling is `Error`, then read from `value`
    /// as `env` does.
    pub fn from_env(value: Option<&str>) -> (r: SimpleLogger)
        ensures
            r@ == (LoggerView {
                default_level: env_level(opt_view(value), LevelFilter::Error),
                ..initial_view()
            }),
            r@.wf(),
    {
        SimpleLogger::new().with_level(LevelFilter::Error).env(value)
    }

    /// Sets the default ceiling.
    pub fn with_level(self, level: LevelFilter) -> (r: SimpleLogger)
        ensures
            r@ == (LoggerView { default_level: level, ..self@ }),
    {
        let mut r = self;
        r.default_level = level;
        r
    }

    /// Sets the ceiling for targets that start with `target`. A longer
    /// matching prefix takes precedence over a shorter one; of two overrides
    /// with prefixes of one length, the one added first is met first.
    pub fn with_module_level(self, target: &str, level: LevelFilter) -> (r: SimpleLogger)
        requires
            self@.wf(),
        ensures
            r@.wf(),
            inserted_by_len(self@.rules, (target@, level), r@.rules),
            r@ == (LoggerView { rules: r@.rules, ..self@ }),
    {
        let mut r = self;
        insert_rule(&mut r.module_levels, (String::from_str(target), level));
        r
    }

    /// Replaces the overrides with those of `target_levels`.
    pub fn with_target_levels(self, target_levels: HashMap<String, LevelFilter>) -> (r: SimpleLogger)
        ensures
            r@.wf(),
            r@.rules.len() == target_levels@.len(),
            forall|i: int| 0 <= i < r@.rules.len() ==> entry_of(target_levels@, #[trigger] r@.rules[i]),
            forall|k: String| #[trigger] target_levels@.contains_key(k) ==> r@.rules.contains((k@, target_levels@[k])),
            forall|i: int, j: int| 0 <= i < j < r@.rules.len() ==> r@.rules[i].0 != r@.rules[j].0,
            r@ == (LoggerView { rules: r@.rules, ..self@ }),
    {
        let entries = crate::rules::map_entries(target_levels);
        let ghost ev = rules_view(entries@);
        let mut rules: Vec<Rule> = Vec::new();
        let mut i: usize = 0;
        assert(rules_view(rules@) =~= Seq::empty());
        assert forall|a: int, b: int| 0 <= a < b < ev.len() implies ev[a].0 != ev[b].0 by {
            assert(ev[a].0 == entries@[a].0@ && ev[b].0 == entries@[b].0@);
        }
        while i < entries.len()
            invariant
                i <= entries.len(),
                ev == rules_view(entries@),
                sorted_by_len(rules_view(rules@)),
                rules@.len() == i,
                forall|j: int|
                    0 <= j < rules@.len() ==> among_first(ev, i as int, #[trigger] rules_view(rules@)[j]),
                forall|n: int| 0 <= n < i ==> rules_view(rules@).contains(#[trigger] ev[n]),
                forall|a: int, b: int| 0 <= a < b < ev.len() ==> ev[a].0 != ev[b].0,
                forall|a: int, b: int|
                    0 <= a < b < rules@.len() ==> rules_view(rules@)[a].0 != rules_view(rules@)[b].0,
            decreases entries.len() - i,
        {
            let ghost before = rules_view(rules@);
            let e = (entries[i].0.clone(), entries[i].1);
            insert_rule(&mut rules, e);
            proof {
                let after = rules_view(rules@);
                lemma_inserted_members(before, (e.0@, e.1), after);
                assert(ev[i as int] == (e.0@, e.1));
                assert forall|j: int| 0 <= j < after.len() implies among_first(ev, i + 1, #[trigger] after[j]) by {
                    if after[j] != (e.0@, e.1) {
                        let m = choose|m: int| 0 <= m < before.len() && after[j] == before[m];
                        assert(among_first(ev, i as int, before[m]));
                    }
                }
                let k = lemma_insert_index(before, (e.0@, e.1), after);
                assert forall|n: int| 0 <= n < i + 1 implies after.contains(#[trigger] ev[n]) by {
                    if n < i {
                        assert(before.contains(ev[n]));
                        let j = choose|j: int| 0 <= j < before.len() && before[j] == ev[n];
                        if j < k {
                            assert(after[j] == before[j]);
                        } else {
                            assert(after[j + 1] == before[j]);
                        }
                    } else {
                        assert(after[k] == ev[n]);
                    }
                }
                assert forall|a: int, b: int| 0 <= a < b < after.len() implies after[a].0 != after[b].0 by {
                    if a != k && b != k {
                        let a0 = if a < k { a } else { a - 1 };
                        let b0 = if b < k { b } else { b - 1 };
                        assert(after[a] == before[a0] && after[b] == before[b0]);
                    } else {
                        let o = if a == k { b } else { a };
                        let o0 = if o < k { o } else { o - 1 };
                        assert(after[o] == before[o0]);
                        assert(among_first(ev, i as int, before[o0]));
                        let n = choose|n: int| 0 <= n < i && ev[n] == before[o0];
                        assert(ev[n].0 != ev[i as int].0);
                    }
                }
            }
            i = i + 1;
        }
        proof {
            let v = rules_view(rules@);
            assert(v.len() == rules@.len());
            assert forall|j: int| 0 <= j < v.len() implies entry_of(target_levels@, #[trigger] v[j]) by {
                assert(among_first(ev, i as int, rules_view(rules@)[j]));
                let n = choose|n: int| 0 <= n < i && ev[n] == v[j];
                assert(target_levels@.contains_key(entries@[n].0));
                assert(v[j] == (entries@[n].0@, target_levels@[entries@[n].0]));
            }
            assert forall|key: String| #[trigger] target_levels@.contains_key(key) implies v.contains(
                (key@, target_levels@[key]),
            ) by {
                let n = choose|n: int| 0 <= n < entries@.len() && entries@[n].0 == key;
                assert(ev[n] == (key@, target_levels@[key]));
                assert(rules_view(rules@).contains(ev[n]));
            }
        }
        let mut r = self;
        r.module_levels = rules;
        r
    }

    /// Turns the thread column on or off.
    pub fn with_threads(self, threads: bool) -> (r: SimpleLogger)
        ensures
            r@ == (LoggerView { threads, ..self@ }),
    {
        let mut r = self;
        r.threads = threads;
        r
    }

    /// Timestamps in the local offset where `timestamps` holds, none else.
    pub fn with_timestamps(self, timestamps: bool) -> (r: SimpleLogger)
        ensures
            r@ == (LoggerView {
                timestamps: if timestamps { Timestamps::Local } else { Timestamps::Off },
                ..self@
            }),
    {
        let mut r = self;
        if timestamps {
            r.timestamps = Timestamps::Local;
        } else {
            r.timestamps = Timestamps::Off;
        }
        r
    }

    /// Writes timestamps in the layout that `format` describes, in the
    /// syntax of the `time` crate's format descriptions, in place of the
    /// default layout.
    pub fn with_timestamp_format(self, format: &str) -> (r: SimpleLogger)
        ensures
            r@ == (LoggerView { timestamps_format: Some(format@), ..self@ }),
    {
        let mut r = self;
        r.timestamps_format = Some(String::from_str(format));
        r
    }

    /// No timestamps.
    pub fn without_timestamps(self) -> (r: SimpleLogger)
        ensures
            r@ == (LoggerView { timestamps: Timestamps::Off, ..self@ }),
    {
        let mut r = self;
        r.timestamps = Timestamps::Off;
        r
    }

    /// Timestamps in the local offset.
    pub fn with_local_timestamps(self) -> (r: SimpleLogger)
        ensures
            r@ == (LoggerView { timestamps: Timestamps::Local, ..self@ }),
    {
        let mut r = self;
        r.timestamps = Timestamps::Local;
        r
    }

    /// Timestamps in UTC.
    pub fn with_utc_timestamps(self) -> (r: SimpleLogger)
        ensures
            r@ == (LoggerView { timestamps: Timestamps::Utc, ..self@ }),
    {
        let mut r = self;
        r.timestamps = Timestamps::Utc;
        r
    }

    /// Timestamps in a fixed offset from UTC, given in whole seconds east of
    /// UTC.
    pub fn with_utc_offset(self, offset_seconds: i32) -> (r: SimpleLogger)
        ensures
            r@ == (LoggerView { timestamps: Timestamps::UtcOffset(offset_seconds), ..self@ }),
    {
        let mut r = self;
        r.timestamps = Timestamps::UtcOffset(offset_seconds);
        r
    }

    /// Turns colours on or off.
    pub fn with_colors(self, colors: bool) -> (r: SimpleLogger)
        ensures
            r@ == (LoggerView { colors, ..self@ }),
    {
        let mut r = self;
        r.colors = colors;
        r
    }

    /// Sends lines to standard error where `stderr` holds, to standard
    /// output else.
    pub fn with_stderr(self, stderr: bool) -> (r: SimpleLogger)
        ensures
            r@ == (LoggerView { stderr, ..self@ }),
    {
        let mut r = self;
        r.stderr = stderr;
        r
    }

    /// The most verbose ceiling among the default and the overrides: the
    /// global ceiling to install beside this logger.
    pub fn max_level(&self) -> (r: LevelFilter)
        ensures
            r == ceiling(self@.rules, self@.default_level),
    {
        max_ceiling(&self.module_levels, self.default_level)
    }

    /// Whether a message with this metadata passes.
    pub fn enabled(&self, metadata: &Metadata) -> (r: bool)
        ensures
            r == decide(self@, metadata.target@, metadata.level),
    {
        let t = find_threshold(&self.module_levels, metadata.target.as_str(), self.default_level);
        metadata.level.verbosity() <= t.verbosity()
    }

    /// Lays out the line for `record` from a timestamp column, a level
    /// column and the name of the current thread.
    pub fn render(
        &self,
        record: &Record,
        timestamp: &str,
        level_tag: &str,
        thread_name: Option<&str>,
    ) -> (r: String)
        ensures
            r@ == rendered(self@, record, timestamp@, level_tag@, opt_view(thread_name)),
    {
        let mut s = String::from_str(timestamp);
        s.append(level_tag);
        s.append(" [");
        if !record.metadata.target.as_str().is_empty() {
            s.append(record.metadata.target.as_str());
        } else if let Some(p) = &record.module {
            s.append(p.as_str());
        }
        if self.threads {
            s.append("@");
            match thread_name {
                Some(n) => s.append(n),
                None => s.append("?"),
            }
        }
        s.append("] ");
        s.append(record.message.as_str());
        proof {
            reveal_strlit(" [");
            reveal_strlit("@");
            reveal_strlit("?");
            reveal_strlit("] ");
            assert(s@ =~= rendered(self@, record, timestamp@, level_tag@, opt_view(thread_name)));
        }
        s
    }

    /// The line for `record` at the clock reading `now` (nanoseconds since
    /// the Unix epoch), with the local offset `local_offset` at that moment
    /// and the level column `level_tag`.
    pub fn line_at(
        &self,
        record: &Record,
        thread_name: Option<&str>,
        now: i128,
        local_offset: Option<i32>,
        level_tag: &str,
    ) -> (r: Result<String, TimestampError>)
        ensures
            result_text(r) == line_spec(
                self@,
                record,
                opt_view(thread_name),
                now as int,
                offset_view(local_offset),
                level_tag@,
            ),
    {
        match timestamp_at(&self.timestamps, &self.timestamps_format, now, local_offset) {
            Ok(ts) => Ok(self.render(record, ts.as_str(), level_tag, thread_name)),
            Err(e) => Err(e),
        }
    }

    /// The line for `record`, with one reading of the clock and the level's
    /// colour as the configuration asks.
    pub fn format_record(&self, record: &Record, thread_name: Option<&str>) -> (r: Result<
        String,
        TimestampError,
    >)
        ensures
            formats_as(self@, record, opt_view(thread_name), r),
    {
        let (now, local_offset) = clock_reading(&self.timestamps);
        let tag = level_tag(record.metadata.level, self.colors);
        let r = self.line_at(record, thread_name, now, local_offset, tag.as_str());
        assert(result_text(r) == line_spec(
            self@,
            record,
            opt_view(thread_name),
            now as int,
            offset_view(local_offset),
            tag@,
        ));
        r
    }

    /// The line to write for `record`, or `None` where its level does not
    /// pass. An error means that no timestamp could be written; for local
    /// time the caller should stop rather than print a time in a wrong
    /// offset.
    pub fn log(&self, record: &Record, thread_name: Option<&str>) -> (r: Option<
        Result<String, TimestampError>,
    >)
        ensures
            r is None <==> !decide(self@, record.metadata.target@, record.metadata.level),
            r matches Some(x) ==> formats_as(self@, record, opt_view(thread_name), x),
    {
        if self.enabled(&record.metadata) {
            Some(self.format_record(record, thread_name))
        } else {
            None
        }
    }

    pub fn default_level(&self) -> (r: LevelFilter)
        ensures
            r == self@.default_level,
    {
        self.default_level
    }

    pub fn threads(&self) -> (r: bool)
        ensures
            r == self@.threads,
    {
        self.threads
    }

    pub fn timestamps(&self) -> (r: &Timestamps)
        ensures
            *r == self@.timestamps,
    {
        &self.timestamps
    }

    pub fn timestamps_format(&self) -> (r: &Option<String>)
        ensures
            opt_text(*r) == self@.timestamps_format,
    {
        &self.timestamps_format
    }

    pub fn colors(&self) -> (r: bool)
        ensures
            r == self@.colors,
    {
        self.colors
    }

    pub fn stderr(&self) -> (r: bool)
        ensures
            r == self@.stderr,
    {
        self.stderr
    }
}

impl Default for SimpleLogger {
    fn default() -> (r: SimpleLogger)
        ensures
            r@ == initial_view(),
    {
        SimpleLogger::new()
    }
}

} // verus!
