//! Synchronisation of filter rules.
//!
//! The manager of a stream knows the rules it wants and the rules it last
//! applied. Before each connect it issues only what is needed to turn the
//! one into the other: the rules to add and the rules to remove.

use crate::util::text::same_text;
use vstd::prelude::*;

verus! {

/// What has to change on the server: rules to add and rules to remove.
#[derive(Debug)]
pub struct RuleDiff {
    /// The desired rules that are not applied, in their desired order.
    pub additions: Vec<String>,
    /// The applied rules that are no longer desired, in their applied order.
    pub removals: Vec<String>,
}

/// The texts of a list of strings.
pub open spec fn texts(list: Seq<String>) -> Seq<Seq<char>> {
    Seq::new(list.len(), |i: int| list[i]@)
}

/// The items of `list` that do not occur in `others`, in their order.
pub open spec fn missing_from(list: Seq<Seq<char>>, others: Seq<Seq<char>>) -> Seq<Seq<char>> {
    list.filter(|rule: Seq<char>| !others.contains(rule))
}

/// Whether `item` occurs in `list`.
pub fn contains_text(list: &Vec<String>, item: &str) -> (found: bool)
    ensures
        found == texts(list@).contains(item@),
{
    let mut i: usize = 0;
    while i < list.len()
        invariant
            i <= list@.len(),
            forall|j: int| 0 <= j < i ==> texts(list@)[j] != item@,
        decreases list@.len() - i,
    {
        if same_text(list[i].as_str(), item) {
            assert(texts(list@)[i as int] == item@);
            return true;
        }
        i += 1;
    }
    false
}

/// A copy of a list of strings.
pub fn copy_texts(list: &Vec<String>) -> (copy: Vec<String>)
    ensures
        texts(copy@) == texts(list@),
{
    let mut copy: Vec<String> = Vec::new();
    let mut i: usize = 0;
    while i < list.len()
        invariant
            i <= list@.len(),
            copy@.len() == i,
            forall|j: int| 0 <= j < i ==> copy@[j]@ == list@[j]@,
        decreases list@.len() - i,
    {
        copy.push(list[i].clone());
        i += 1;
    }
    assert(texts(copy@) =~= texts(list@));
    copy
}

/// The items of `list` that do not occur in `others`, in their order.
pub fn missing(list: &Vec<String>, others: &Vec<String>) -> (out: Vec<String>)
    ensures
        texts(out@) == missing_from(texts(list@), texts(others@)),
{
    let ghost absent = |rule: Seq<char>| !texts(others@).contains(rule);
    let mut out: Vec<String> = Vec::new();
    let mut i: usize = 0;
    assert(texts(list@).subrange(0, 0) =~= Seq::<Seq<char>>::empty());
    assert(texts(out@) =~= Seq::<Seq<char>>::empty());
    while i < list.len()
        invariant
            i <= list@.len(),
            absent == |rule: Seq<char>| !texts(others@).contains(rule),
            texts(out@) == texts(list@).subrange(0, i as int).filter(absent),
        decreases list@.len() - i,
    {
        let ghost before = texts(list@).subrange(0, i as int);
        let ghost upto = texts(list@).subrange(0, i + 1);
        proof {
            reveal(Seq::filter);
            assert(upto.drop_last() =~= before);
            assert(upto.last() == list@[i as int]@);
            assert(upto.filter(absent) == if absent(upto.last()) {
                before.filter(absent).push(upto.last())
            } else {
                before.filter(absent)
            });
        }
        if !contains_text(others, list[i].as_str()) {
            let ghost old_out = texts(out@);
            out.push(list[i].clone());
            assert(texts(out@) =~= old_out.push(list@[i as int]@));
        }
        i += 1;
    }
    assert(texts(list@).subrange(0, i as int) =~= texts(list@));
    out
}

/// What has to change on the server so that the applied rules become the
/// desired ones: the desired rules that are not applied are added, the
/// applied rules that are not desired are removed, and nothing else is
/// touched.
pub fn diff_rules(desired: &Vec<String>, applied: &Vec<String>) -> (diff: RuleDiff)
    ensures
        texts(diff.additions@) == missing_from(texts(desired@), texts(applied@)),
        texts(diff.removals@) == missing_from(texts(applied@), texts(desired@)),
{
    RuleDiff { additions: missing(desired, applied), removals: missing(applied, desired) }
}

/// Every item that [`missing_from`] keeps occurs in the list and not in the
/// others, and every such item of the list is kept.
pub proof fn lemma_missing_from_contents(
    list: Seq<Seq<char>>,
    others: Seq<Seq<char>>,
    rule: Seq<char>,
)
    ensures
        missing_from(list, others).contains(rule) <==> list.contains(rule) && !others.contains(
            rule,
        ),
    decreases list.len(),
{
    reveal(Seq::filter);
    let absent = |r: Seq<char>| !others.contains(r);
    let kept = list.filter(absent);
    if list.len() > 0 {
        let rest = list.drop_last();
        let last = list.last();
        lemma_missing_from_contents(rest, others, rule);
        let kept_rest = rest.filter(absent);
        if kept.contains(rule) {
            let i = choose|i: int| 0 <= i < kept.len() && kept[i] == rule;
            if absent(last) && i == kept.len() - 1 {
                assert(list[list.len() - 1] == rule);
            } else {
                assert(kept_rest[i] == rule);
                assert(kept_rest.contains(rule));
                let j = choose|j: int| 0 <= j < rest.len() && rest[j] == rule;
                assert(list[j] == rule);
            }
        }
        if list.contains(rule) && !others.contains(rule) {
            let i = choose|i: int| 0 <= i < list.len() && list[i] == rule;
            if i == list.len() - 1 {
                assert(absent(last));
                assert(kept[kept.len() - 1] == rule);
            } else {
                assert(rest[i] == rule);
                assert(rest.contains(rule));
                let j = choose|j: int| 0 <= j < kept_rest.len() && kept_rest[j] == rule;
                assert(kept[j] == rule);
            }
        }
    }
}

/// Rules that are applied already are never issued again: when the applied
/// rules are the desired ones, nothing is added and nothing is removed.
pub proof fn lemma_synced_rules_need_nothing(rules: Seq<Seq<char>>)
    ensures
        missing_from(rules, rules) == Seq::<Seq<char>>::empty(),
{
    let kept = missing_from(rules, rules);
    if kept.len() > 0 {
        assert(kept.contains(kept[0]));
        lemma_missing_from_contents(rules, rules, kept[0]);
    }
    assert(kept =~= Seq::<Seq<char>>::empty());
}

} // verus!
