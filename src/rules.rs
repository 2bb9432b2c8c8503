use crate::level::LevelFilter;
use vstd::prelude::*;
use vstd::string::*;

verus! {

/// A per-target override: the target prefix and the ceiling for targets that
/// start with it.
pub type Rule = (String, LevelFilter);

/// `p` is a literal prefix of `t`, character for character.
pub open spec fn is_prefix_of(p: Seq<char>, t: Seq<char>) -> bool {
    p.len() <= t.len() && t.subrange(0, p.len() as int) == p
}

/// The rules as prefixes and ceilings.
pub open spec fn rules_view(rules: Seq<Rule>) -> Seq<(Seq<char>, LevelFilter)> {
    rules.map_values(|r: Rule| (r.0@, r.1))
}

/// Longer prefixes come first; rules with prefixes of equal length keep the
/// order in which they were added.
pub open spec fn sorted_by_len(rules: Seq<(Seq<char>, LevelFilter)>) -> bool {
    forall|i: int, j: int| 0 <= i < j < rules.len() ==> rules[i].0.len() >= rules[j].0.len()
}

/// The ceiling of the first rule whose prefix starts `target`, or `default`
/// where none does.
pub open spec fn threshold(
    rules: Seq<(Seq<char>, LevelFilter)>,
    target: Seq<char>,
    default: LevelFilter,
) -> LevelFilter
    decreases rules.len(),
{
    if rules.len() == 0 {
        default
    } else if is_prefix_of(rules[0].0, target) {
        rules[0].1
    } else {
        threshold(rules.drop_first(), target, default)
    }
}

/// The more verbose of two ceilings.
pub open spec fn max_filter(a: LevelFilter, b: LevelFilter) -> LevelFilter {
    if a.rank() >= b.rank() {
        a
    } else {
        b
    }
}

/// The most verbose ceiling among `default` and those of the rules.
pub open spec fn ceiling(rules: Seq<(Seq<char>, LevelFilter)>, default: LevelFilter) -> LevelFilter
    decreases rules.len(),
{
    if rules.len() == 0 {
        default
    } else {
        max_filter(ceiling(rules.drop_last(), default), rules.last().1)
    }
}

/// Whether `t` starts with `p`, character for character.
pub fn starts_with(t: &str, p: &str) -> (r: bool)
    ensures
        r == is_prefix_of(p@, t@),
{
    let tn = t.unicode_len();
    let pn = p.unicode_len();
    if pn > tn {
        return false;
    }
    let mut i: usize = 0;
    while i < pn
        invariant
            pn == p@.len(),
            tn == t@.len(),
            pn <= tn,
            i <= pn,
            forall|k: int| 0 <= k < i ==> t@[k] == p@[k],
        decreases pn - i,
    {
        if t.get_char(i) != p.get_char(i) {
            assert(t@.subrange(0, pn as int)[i as int] != p@[i as int]);
            return false;
        }
        i = i + 1;
    }
    assert(t@.subrange(0, pn as int) =~= p@);
    true
}

/// The ceiling of the first rule whose prefix starts `target`, or `default`.
pub fn find_threshold(rules: &Vec<Rule>, target: &str, default: LevelFilter) -> (r: LevelFilter)
    ensures
        r == threshold(rules_view(rules@), target@, default),
{
    let ghost v = rules_view(rules@);
    assert(v.subrange(0, v.len() as int) =~= v);
    let mut i: usize = 0;
    while i < rules.len()
        invariant
            v == rules_view(rules@),
            i <= rules.len(),
            threshold(v, target@, default) == threshold(v.subrange(i as int, v.len() as int), target@, default),
        decreases rules.len() - i,
    {
        let ghost rest = v.subrange(i as int, v.len() as int);
        assert(rest[0] == v[i as int]);
        if starts_with(target, rules[i].0.as_str()) {
            return rules[i].1;
        }
        assert(rest.drop_first() =~= v.subrange(i + 1, v.len() as int));
        i = i + 1;
    }
    assert(v.subrange(i as int, v.len() as int).len() == 0);
    default
}

/// The most verbose ceiling among `default` and those of the rules.
pub fn max_ceiling(rules: &Vec<Rule>, default: LevelFilter) -> (r: LevelFilter)
    ensures
        r == ceiling(rules_view(rules@), default),
{
    let ghost v = rules_view(rules@);
    let mut acc = default;
    let mut i: usize = 0;
    while i < rules.len()
        invariant
            v == rules_view(rules@),
            i <= rules.len(),
            acc == ceiling(v.subrange(0, i as int), default),
        decreases rules.len() - i,
    {
        let ghost pre = v.subrange(0, i as int + 1);
        assert(pre.drop_last() =~= v.subrange(0, i as int));
        acc = acc.max(rules[i].1);
        i = i + 1;
    }
    assert(v.subrange(0, v.len() as int) =~= v);
    acc
}

/// `result` is `rules` with `rule` put behind every rule whose prefix is at
/// least as long and ahead of every shorter one.
pub open spec fn inserted_by_len(
    rules: Seq<(Seq<char>, LevelFilter)>,
    rule: (Seq<char>, LevelFilter),
    result: Seq<(Seq<char>, LevelFilter)>,
) -> bool {
    exists|k: int|
        0 <= k <= rules.len() && result == rules.insert(k, rule) && (forall|i: int|
            0 <= i < k ==> #[trigger] rules[i].0.len() >= rule.0.len()) && (forall|i: int|
            k <= i < rules.len() ==> #[trigger] rules[i].0.len() < rule.0.len())
}

/// Adds a rule behind every rule whose prefix is at least as long and ahead
/// of every shorter one, which keeps the table sorted.
pub fn insert_rule(rules: &mut Vec<Rule>, rule: Rule)
    requires
        sorted_by_len(rules_view(old(rules)@)),
    ensures
        sorted_by_len(rules_view(final(rules)@)),
        inserted_by_len(rules_view(old(rules)@), (rule.0@, rule.1), rules_view(final(rules)@)),
{
    let ghost v = rules_view(rules@);
    let ghost rv = (rule.0@, rule.1);
    let n = rule.0.as_str().unicode_len();
    let mut k: usize = 0;
    while k < rules.len() && rules[k].0.as_str().unicode_len() >= n
        invariant
            v == rules_view(rules@),
            k <= rules.len(),
            n == rule.0@.len(),
            forall|i: int| 0 <= i < k ==> rules@[i].0@.len() >= n,
        decreases rules.len() - k,
    {
        k = k + 1;
    }
    assert forall|i: int| k <= i < rules@.len() implies rules@[i].0@.len() < n by {
        if k < rules@.len() {
            assert(v[k as int].0.len() < n);
            assert(v[i].0.len() <= v[k as int].0.len());
        }
    }
    let ghost old_rules = rules@;
    rules.insert(k, rule);
    let ghost w = rules_view(rules@);
    assert(w =~= v.insert(k as int, rv));
    assert forall|i: int| 0 <= i < k implies #[trigger] v[i].0.len() >= rv.0.len() by {
        assert(v[i].0 == old_rules[i].0@);
    }
    assert forall|i: int| k <= i < v.len() implies #[trigger] v[i].0.len() < rv.0.len() by {
        assert(v[i].0 == old_rules[i].0@);
    }
    assert forall|i: int, j: int| 0 <= i < j < w.len() implies w[i].0.len() >= w[j].0.len() by {
        assert(w[i].0 == rules@[i].0@);
        assert(w[j].0 == rules@[j].0@);
        if j < k {
            assert(v[i].0.len() >= v[j].0.len());
        } else if i > k {
            assert(rules@[i] == old_rules[i - 1]);
            assert(rules@[j] == old_rules[j - 1]);
            assert(v[i - 1].0.len() >= v[j - 1].0.len());
        } else if i == k {
            assert(rules@[j] == old_rules[j - 1]);
        } else {
            assert(rules@[i] == old_rules[i]);
        }
    }
}

} // verus!

verus! {

/// Relies on `HashMap::into_iter`: it yields each entry of the map once, in
/// an order the map does not fix. Keys of a map differ, and two `String`s
/// differ only where their text does.
#[verifier::external_body]
pub(crate) fn map_entries(m: std::collections::HashMap<String, LevelFilter>) -> (r: Vec<Rule>)
    ensures
        r@.len() == m@.len(),
        forall|i: int| 0 <= i < r@.len() ==> m@.contains_key(#[trigger] r@[i].0) && m@[r@[i].0] == r@[i].1,
        forall|i: int, j: int| 0 <= i < j < r@.len() ==> r@[i].0@ != r@[j].0@,
        forall|k: String| #[trigger] m@.contains_key(k) ==> exists|i: int| 0 <= i < r@.len() && r@[i].0 == k,
{
    m.into_iter().collect()
}

} // verus!
