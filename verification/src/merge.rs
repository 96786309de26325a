//! The result merger, as a mathematical model: what it means to tag a
//! group's items and to concatenate the groups' items in enumeration
//! order. The page walker is proved against these functions.

use vstd::prelude::*;
use crate::groups::PhaseGroupRef;
use crate::records::{SetRecord, TaggedSet};

verus! {

/// A single record tagged with its owning group's id and label.
pub open spec fn tag_item(g: PhaseGroupRef, r: SetRecord) -> TaggedSet {
    TaggedSet {
        phase_group_id: g.id,
        display_identifier: g.display_identifier,
        record: r,
    }
}

/// A group's items, each tagged with that group, order kept.
pub open spec fn tagged_of(g: PhaseGroupRef, items: Seq<SetRecord>) -> Seq<TaggedSet> {
    items.map_values(|r: SetRecord| tag_item(g, r))
}

/// The views of a sequence of fetched pages or groups.
pub open spec fn views_of(f: Seq<Vec<SetRecord>>) -> Seq<Seq<SetRecord>> {
    f.map_values(|v: Vec<SetRecord>| v@)
}

/// The merged result: group by group in enumeration order, each group's
/// items tagged with that group, concatenated.
pub open spec fn merged_of(groups: Seq<PhaseGroupRef>, items: Seq<Seq<SetRecord>>) -> Seq<
    TaggedSet,
>
    recommends
        groups.len() == items.len(),
    decreases groups.len(),
{
    if groups.len() == 0 {
        Seq::empty()
    } else {
        tagged_of(groups[0], items[0]) + merged_of(groups.skip(1), items.skip(1))
    }
}

/// The number of items the groups before group `i` contribute: the offset
/// at which group `i`'s items stand in the merged result.
pub open spec fn flat_len(items: Seq<Seq<SetRecord>>, i: int) -> int
    decreases i,
{
    if i <= 0 {
        0
    } else {
        flat_len(items, i - 1) + items[i - 1].len()
    }
}

/// Tagging distributes over concatenation.
pub proof fn lemma_tagged_of_concat(g: PhaseGroupRef, a: Seq<SetRecord>, b: Seq<SetRecord>)
    ensures
        tagged_of(g, a + b) == tagged_of(g, a) + tagged_of(g, b),
{
    assert(tagged_of(g, a + b) =~= tagged_of(g, a) + tagged_of(g, b));
}

/// A parent with zero sub-collections merges to the empty sequence: no
/// items, and no error anywhere in the model.
pub proof fn lemma_no_groups_no_items(groups: Seq<PhaseGroupRef>, items: Seq<Seq<SetRecord>>)
    requires
        groups.len() == 0,
    ensures
        merged_of(groups, items) == Seq::<TaggedSet>::empty(),
{
}

/// The offset of a later group grows by exactly the earlier groups'
/// sizes: `flat_len` is monotone.
proof fn lemma_flat_len_mono(items: Seq<Seq<SetRecord>>, a: int, b: int)
    requires
        a <= b,
    ensures
        flat_len(items, a) <= flat_len(items, b),
    decreases b - a,
{
    if a < b {
        lemma_flat_len_mono(items, a, b - 1);
    }
}

/// `flat_len` over the tail: the items before group `i` are group 0's
/// items plus the items before group `i - 1` of the remaining groups.
proof fn lemma_flat_len_skip(items: Seq<Seq<SetRecord>>, i: int)
    requires
        1 <= i <= items.len(),
    ensures
        flat_len(items, i) == items[0].len() + flat_len(items.skip(1), i - 1),
    decreases i,
{
    if i == 1 {
        assert(flat_len(items, 1) == flat_len(items, 0) + items[0].len());
        assert(flat_len(items.skip(1), 0) == 0);
    } else {
        lemma_flat_len_skip(items, i - 1);
        assert(items.skip(1)[i - 2] == items[i - 1]);
        assert(flat_len(items, i) == flat_len(items, i - 1) + items[i - 1].len());
        assert(flat_len(items.skip(1), i - 1) == flat_len(items.skip(1), i - 2) + items.skip(
            1,
        )[i - 2].len());
    }
}

/// Merging preserves order and tags, and neither drops nor duplicates:
/// the merged result is exactly as long as all groups together, and the
/// item `j` of group `i` stands at the offset of group `i` plus `j`,
/// tagged with group `i`'s id and label.
pub proof fn lemma_merge_preserves_order_and_tags(
    groups: Seq<PhaseGroupRef>,
    items: Seq<Seq<SetRecord>>,
)
    requires
        groups.len() == items.len(),
    ensures
        merged_of(groups, items).len() == flat_len(items, groups.len() as int),
        forall|i: int, j: int|
            0 <= i < groups.len() && 0 <= j < items[i].len() ==> merged_of(groups, items)[flat_len(
                items,
                i,
            ) + j] == tag_item(groups[i], items[i][j]),
    decreases groups.len(),
{
    if groups.len() == 0 {
    } else {
        let gs = groups.skip(1);
        let is = items.skip(1);
        lemma_merge_preserves_order_and_tags(gs, is);
        lemma_flat_len_skip(items, groups.len() as int);
        assert forall|i: int, j: int|
            0 <= i < groups.len() && 0 <= j < items[i].len() implies merged_of(groups, items)[
            flat_len(items, i) + j] == tag_item(groups[i], items[i][j]) by {
            if i == 0 {
                lemma_flat_len_mono(is, 0, is.len() as int);
                assert(merged_of(groups, items)[j] == tagged_of(groups[0], items[0])[j]);
            } else {
                lemma_flat_len_mono(is, 0, i - 1);
                lemma_flat_len_skip(items, i);
                assert(is[i - 1] == items[i]);
                assert(gs[i - 1] == groups[i]);
                assert(flat_len(is, i) == flat_len(is, i - 1) + is[i - 1].len());
                lemma_flat_len_mono(is, i, is.len() as int);
                let k = flat_len(is, i - 1) + j;
                assert(merged_of(groups, items)[items[0].len() + k] == merged_of(gs, is)[k]);
            }
        }
    }
}

/// Extending the merge by one more group appends exactly that group's
/// tagged items at the end.
pub proof fn lemma_merged_of_snoc(groups: Seq<PhaseGroupRef>, items: Seq<Seq<SetRecord>>, i: int)
    requires
        0 <= i < groups.len(),
        i < items.len(),
    ensures
        merged_of(groups.take(i + 1), items.take(i + 1)) == merged_of(
            groups.take(i),
            items.take(i),
        ) + tagged_of(groups[i], items[i]),
    decreases i,
{
    if i == 0 {
        let g1 = groups.take(1);
        let i1 = items.take(1);
        assert(g1.skip(1).len() == 0);
        assert(merged_of(g1.skip(1), i1.skip(1)) == Seq::<TaggedSet>::empty());
        assert(g1[0] == groups[0]);
        assert(i1[0] == items[0]);
        assert(merged_of(g1, i1) == tagged_of(groups[0], items[0]) + Seq::<TaggedSet>::empty());
        assert(merged_of(groups.take(0), items.take(0)) == Seq::<TaggedSet>::empty());
        assert(merged_of(g1, i1) =~= merged_of(groups.take(0), items.take(0)) + tagged_of(
            groups[0],
            items[0],
        ));
    } else {
        lemma_merged_of_snoc(groups.skip(1), items.skip(1), i - 1);
        assert(groups.take(i + 1).skip(1) =~= groups.skip(1).take(i));
        assert(items.take(i + 1).skip(1) =~= items.skip(1).take(i));
        assert(groups.take(i).skip(1) =~= groups.skip(1).take(i - 1));
        assert(items.take(i).skip(1) =~= items.skip(1).take(i - 1));
        assert(groups.skip(1)[i - 1] == groups[i]);
        assert(items.skip(1)[i - 1] == items[i]);
        assert(merged_of(groups.take(i + 1), items.take(i + 1)) =~= merged_of(
            groups.take(i),
            items.take(i),
        ) + tagged_of(groups[i], items[i]));
    }
}

} // verus!
