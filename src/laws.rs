use crate::level::{Level, LevelFilter};
use crate::logger::{decide, line_spec, opt_view, rendered, SimpleLogger};
use crate::timestamp::{offset_view, result_text, TimestampError, Timestamps};
use crate::record::Record;
use crate::rules::{ceiling, is_prefix_of, threshold};
use vstd::prelude::*;

verus! {

/// Where the first rule that matches is at `i`, its ceiling is the one used.
proof fn lemma_first_match(
    rules: Seq<(Seq<char>, LevelFilter)>,
    target: Seq<char>,
    default: LevelFilter,
    i: int,
)
    requires
        0 <= i < rules.len(),
        is_prefix_of(rules[i].0, target),
        forall|j: int| 0 <= j < i ==> !is_prefix_of(#[trigger] rules[j].0, target),
    ensures
        threshold(rules, target, default) == rules[i].1,
    decreases i,
{
    if i > 0 {
        assert(!is_prefix_of(rules[0].0, target));
        let rest = rules.drop_first();
        assert forall|j: int| 0 <= j < i - 1 implies !is_prefix_of(#[trigger] rest[j].0, target) by {
            assert(rest[j] == rules[j + 1]);
        }
        lemma_first_match(rest, target, default, i - 1);
    }
}

/// Where no rule matches, the default is used.
proof fn lemma_no_match(rules: Seq<(Seq<char>, LevelFilter)>, target: Seq<char>, default: LevelFilter)
    requires
        forall|j: int| 0 <= j < rules.len() ==> !is_prefix_of(#[trigger] rules[j].0, target),
    ensures
        threshold(rules, target, default) == default,
    decreases rules.len(),
{
    if rules.len() > 0 {
        assert(!is_prefix_of(rules[0].0, target));
        let rest = rules.drop_first();
        assert forall|j: int| 0 <= j < rest.len() implies !is_prefix_of(#[trigger] rest[j].0, target) by {
            assert(rest[j] == rules[j + 1]);
        }
        lemma_no_match(rest, target, default);
    }
}

/// The ceiling used for a target is the default or that of some rule.
proof fn lemma_threshold_member(
    rules: Seq<(Seq<char>, LevelFilter)>,
    target: Seq<char>,
    default: LevelFilter,
)
    ensures
        threshold(rules, target, default) == default || exists|k: int|
            0 <= k < rules.len() && threshold(rules, target, default) == #[trigger] rules[k].1,
    decreases rules.len(),
{
    if rules.len() > 0 && !is_prefix_of(rules[0].0, target) {
        let rest = rules.drop_first();
        lemma_threshold_member(rest, target, default);
        if threshold(rest, target, default) != default {
            let k = choose|k: int| 0 <= k < rest.len() && threshold(rest, target, default) == #[trigger] rest[k].1;
            assert(rules[k + 1] == rest[k]);
        }
    } else if rules.len() > 0 {
        assert(threshold(rules, target, default) == rules[0].1);
    }
}

/// The global ceiling is at least as verbose as the default and as every
/// rule.
proof fn lemma_ceiling_bounds(rules: Seq<(Seq<char>, LevelFilter)>, default: LevelFilter)
    ensures
        ceiling(rules, default).rank() >= default.rank(),
        forall|k: int| 0 <= k < rules.len() ==> ceiling(rules, default).rank() >= #[trigger] rules[k].1.rank(),
    decreases rules.len(),
{
    if rules.len() > 0 {
        let pre = rules.drop_last();
        lemma_ceiling_bounds(pre, default);
        assert forall|k: int| 0 <= k < rules.len() implies ceiling(rules, default).rank()
            >= #[trigger] rules[k].1.rank() by {
            if k < rules.len() - 1 {
                assert(pre[k] == rules[k]);
            }
        }
    }
}

/// A message passes at every level at least as severe as one that passes:
/// for one target, if a level passes, so does every level of lower rank.
pub proof fn lemma_enabled_monotone(logger: &SimpleLogger, target: Seq<char>, s1: Level, s2: Level)
    requires
        s1.rank() <= s2.rank(),
        decide(logger@, target, s2),
    ensures
        decide(logger@, target, s1),
{
}

/// The most specific override decides: where the override at `i` matches
/// the target and every other override that matches has a shorter prefix,
/// the target gets the ceiling of the override at `i`, whatever the order in
/// which the overrides were added.
pub proof fn lemma_longest_prefix_decides(logger: &SimpleLogger, target: Seq<char>, i: int, level: Level)
    requires
        logger@.wf(),
        0 <= i < logger@.rules.len(),
        is_prefix_of(logger@.rules[i].0, target),
        forall|j: int|
            0 <= j < logger@.rules.len() && j != i && is_prefix_of(#[trigger] logger@.rules[j].0, target)
                ==> logger@.rules[j].0.len() < logger@.rules[i].0.len(),
    ensures
        threshold(logger@.rules, target, logger@.default_level) == logger@.rules[i].1,
        decide(logger@, target, level) <==> level.rank() <= logger@.rules[i].1.rank(),
{
    let rules = logger@.rules;
    assert forall|j: int| 0 <= j < i implies !is_prefix_of(#[trigger] rules[j].0, target) by {
        assert(rules[j].0.len() >= rules[i].0.len());
    }
    lemma_first_match(rules, target, logger@.default_level, i);
}

/// Where no override matches the target, the default ceiling decides; with
/// no overrides at all, it decides for every target.
pub proof fn lemma_default_decides(logger: &SimpleLogger, target: Seq<char>, level: Level)
    requires
        forall|j: int| 0 <= j < logger@.rules.len() ==> !is_prefix_of(#[trigger] logger@.rules[j].0, target),
    ensures
        decide(logger@, target, level) <==> level.rank() <= logger@.default_level.rank(),
{
    lemma_no_match(logger@.rules, target, logger@.default_level);
}

/// The global ceiling that `max_level` gives lets through every message that
/// the logger lets through.
pub proof fn lemma_max_level_admits_enabled(logger: &SimpleLogger, target: Seq<char>, level: Level)
    requires
        decide(logger@, target, level),
    ensures
        level.rank() <= ceiling(logger@.rules, logger@.default_level).rank(),
{
    lemma_threshold_member(logger@.rules, target, logger@.default_level);
    lemma_ceiling_bounds(logger@.rules, logger@.default_level);
}

/// Writing one record twice, with one configuration, one clock reading, one
/// local offset, one level column and one thread, gives the same line, or
/// the same error, byte for byte: `line_at` depends on nothing else.
pub proof fn lemma_same_reading_same_line(
    logger: &SimpleLogger,
    record: &Record,
    thread_name: Option<&str>,
    now: i128,
    local_offset: Option<i32>,
    tag: &str,
    first: Result<String, TimestampError>,
    second: Result<String, TimestampError>,
)
    requires
        result_text(first) == line_spec(logger@, record, opt_view(thread_name), now as int, offset_view(local_offset), tag@),
        result_text(second) == line_spec(logger@, record, opt_view(thread_name), now as int, offset_view(local_offset), tag@),
    ensures
        result_text(first) == result_text(second),
{
}

/// With timestamps off, the line does not depend on the clock: any two
/// readings, and any two local offsets, give the same line.
pub proof fn lemma_line_ignores_clock_without_timestamps(
    logger: &SimpleLogger,
    record: &Record,
    thread_name: Option<Seq<char>>,
    tag: Seq<char>,
    now1: int,
    now2: int,
    local1: Option<int>,
    local2: Option<int>,
)
    requires
        logger@.timestamps == Timestamps::Off,
    ensures
        line_spec(logger@, record, thread_name, now1, local1, tag) == line_spec(
            logger@,
            record,
            thread_name,
            now2,
            local2,
            tag,
        ),
        line_spec(logger@, record, thread_name, now1, local1, tag) == Ok::<Seq<char>, TimestampError>(
            rendered(logger@, record, Seq::empty(), tag, thread_name),
        ),
{
}

/// In local mode, a clock reading for which the local offset is unknown gives
/// the error for it, never a line in some other offset.
pub proof fn lemma_unknown_local_offset_fails(
    logger: &SimpleLogger,
    record: &Record,
    thread_name: Option<Seq<char>>,
    tag: Seq<char>,
    now: int,
)
    requires
        logger@.timestamps == Timestamps::Local,
    ensures
        line_spec(logger@, record, thread_name, now, None, tag) == Err::<Seq<char>, TimestampError>(
            TimestampError::IndeterminateOffset,
        ),
{
}

} // verus!
