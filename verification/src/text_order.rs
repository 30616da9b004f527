//! The order of strings, and sorting by it.

use vstd::prelude::*;
use vstd::relations::total_ordering;
use vstd::seq_lib::lemma_sorted_unique;

verus! {

/// The texts of a run of strings, in the same order.
pub open spec fn texts(strings: Seq<String>) -> Seq<Seq<char>> {
    strings.map_values(|s: String| s@)
}

/// The order of strings: the first character that differs decides, by its
/// code point, and a text comes before every longer text that it begins.
pub open spec fn text_le(a: Seq<char>, b: Seq<char>) -> bool
    decreases a.len(),
{
    if a.len() == 0 {
        true
    } else if b.len() == 0 {
        false
    } else if a[0] == b[0] {
        text_le(a.drop_first(), b.drop_first())
    } else {
        a[0] < b[0]
    }
}

/// No text stands before one that it should follow.
pub open spec fn ascending(texts: Seq<Seq<char>>) -> bool {
    forall|i: int, j: int| 0 <= i < j < texts.len() ==> text_le(texts[i], texts[j])
}

/// `text_le` as a relation, for the lemmas that take one.
pub open spec fn text_order() -> spec_fn(Seq<char>, Seq<char>) -> bool {
    |a: Seq<char>, b: Seq<char>| text_le(a, b)
}

/// A text comes no later than itself.
pub proof fn text_le_is_reflexive(a: Seq<char>)
    ensures
        text_le(a, a),
    decreases a.len(),
{
    if a.len() > 0 {
        text_le_is_reflexive(a.drop_first());
    }
}

/// Two texts that each come no later than the other are one text.
pub proof fn text_le_is_antisymmetric(a: Seq<char>, b: Seq<char>)
    requires
        text_le(a, b),
        text_le(b, a),
    ensures
        a == b,
    decreases a.len(),
{
    if a.len() == 0 || b.len() == 0 {
        assert(a =~= b);
    } else {
        text_le_is_antisymmetric(a.drop_first(), b.drop_first());
        assert(a =~= seq![a[0]] + a.drop_first());
        assert(b =~= seq![b[0]] + b.drop_first());
    }
}

/// What comes no later than a text comes no later than anything after it.
pub proof fn text_le_is_transitive(a: Seq<char>, b: Seq<char>, c: Seq<char>)
    requires
        text_le(a, b),
        text_le(b, c),
    ensures
        text_le(a, c),
    decreases a.len(),
{
    if a.len() > 0 && a[0] == b[0] && b[0] == c[0] {
        text_le_is_transitive(a.drop_first(), b.drop_first(), c.drop_first());
    }
}

/// Of two texts, one comes no later than the other.
pub proof fn text_le_is_total(a: Seq<char>, b: Seq<char>)
    ensures
        text_le(a, b) || text_le(b, a),
    decreases a.len(),
{
    if a.len() > 0 && b.len() > 0 && a[0] == b[0] {
        text_le_is_total(a.drop_first(), b.drop_first());
    }
}

/// The order of strings is a total order. So every run of texts has an
/// ascending arrangement, and only one.
pub proof fn text_order_is_total_ordering()
    ensures
        total_ordering(text_order()),
{
    let order = text_order();
    assert forall|a: Seq<char>| #[trigger] order(a, a) by {
        text_le_is_reflexive(a);
    }
    assert forall|a: Seq<char>, b: Seq<char>| #[trigger] order(a, b) && #[trigger] order(b, a)
        implies a == b by {
        text_le_is_antisymmetric(a, b);
    }
    assert forall|a: Seq<char>, b: Seq<char>, c: Seq<char>| #[trigger] order(a, b) && #[trigger] order(b, c)
        implies order(a, c) by {
        text_le_is_transitive(a, b, c);
    }
    assert forall|a: Seq<char>, b: Seq<char>| #[trigger] order(a, b) || #[trigger] order(b, a) by {
        text_le_is_total(a, b);
    }
}

/// `sort` of std's slices, applied to a vector of strings. std documents that
/// it leaves a slice in ascending order and only rearranges what is there,
/// and that strings are ordered as `text_le` spells out. None of this is
/// proved here.
#[verifier::external_body]
fn sort_in_place(strings: &mut Vec<String>)
    ensures
        ascending(texts(final(strings)@)),
        texts(final(strings)@).to_multiset() == texts(old(strings)@).to_multiset(),
{
    strings.sort();
}

/// Sorts the strings in place. Afterwards they ascend, and they are the
/// strings that were there, each as often as before; that leaves one
/// arrangement, the one that `sort_by` gives.
pub fn sort_texts(strings: &mut Vec<String>)
    ensures
        texts(final(strings)@) == texts(old(strings)@).sort_by(text_order()),
        ascending(texts(final(strings)@)),
        texts(final(strings)@).to_multiset() == texts(old(strings)@).to_multiset(),
        final(strings)@.len() == old(strings)@.len(),
{
    sort_in_place(strings);
    proof {
        let before = texts(old(strings)@);
        let after = texts(strings@);
        text_order_is_total_ordering();
        before.lemma_sort_by_ensures(text_order());
        lemma_sorted_unique(after, before.sort_by(text_order()), text_order());
        before.to_multiset_ensures();
        after.to_multiset_ensures();
    }
}

/// Two texts sort to the one that comes first and then the other, whichever
/// way round they stood.
pub proof fn sort_of_pair(low: Seq<char>, high: Seq<char>)
    requires
        text_le(low, high),
    ensures
        seq![low, high].sort_by(text_order()) == seq![low, high],
        seq![high, low].sort_by(text_order()) == seq![low, high],
{
    let sorted = seq![low, high];
    let swapped = seq![high, low];
    assert(ascending(sorted));
    assert(swapped.to_multiset() == sorted.to_multiset()) by {
        assert(sorted =~= Seq::empty().push(low).push(high));
        assert(swapped =~= Seq::empty().push(high).push(low));
        Seq::<Seq<char>>::empty().to_multiset_ensures();
        Seq::<Seq<char>>::empty().push(low).to_multiset_ensures();
        Seq::<Seq<char>>::empty().push(high).to_multiset_ensures();
        assert(swapped.to_multiset() =~= sorted.to_multiset());
    }
    text_order_is_total_ordering();
    sorted.lemma_sort_by_ensures(text_order());
    swapped.lemma_sort_by_ensures(text_order());
    lemma_sorted_unique(sorted.sort_by(text_order()), sorted, text_order());
    lemma_sorted_unique(swapped.sort_by(text_order()), sorted, text_order());
}

} // verus!
