//! The page walker: the pagination decisions of one aggregation request,
//! as a state machine. The caller fetches what [`Walk::next_action`] asks
//! for and feeds the outcome to [`Walk::apply`]; every decision in
//! between is verified here.
//!
//! A page that comes back with fewer items than the page size is short:
//! it ends its group's walk, and the walk moves to the next group. A full
//! page may or may not be the last one, so the walk always asks for one
//! more. Any failure aborts the whole walk: [`Walk::apply`] consumes the
//! state, and on an error nothing of it survives — no partial result.

use vstd::prelude::*;
use crate::errors::FetchError;
use crate::groups::PhaseGroupRef;
use crate::merge::{
    lemma_merged_of_snoc,
    lemma_tagged_of_concat,
    merged_of,
    tag_item,
    tagged_of,
    views_of,
};
use crate::pagination::pages_needed;
use crate::records::{SetRecord, TaggedSet};

verus! {

/// What the walk wants next: one more page request, or nothing — the
/// walk is complete.
#[derive(Debug, PartialEq, Eq)]
pub enum WalkAction {
    Request { group_id: u64, page: usize, per_page: usize },
    Finished,
}

/// The outcome of one page request, as the caller hands it back: the
/// decoded items of the page, or the failure that ended the request.
#[derive(Debug)]
pub enum PageOutcome {
    Page(Vec<SetRecord>),
    TransportFailure,
    MalformedResponse,
}

/// One aggregation request in flight: which groups to walk, where the
/// walk stands, and everything merged so far.
pub struct Walk {
    /// The groups to walk, in upstream enumeration order.
    pub groups: Vec<PhaseGroupRef>,
    /// The fixed number of items a full page carries.
    pub page_size: usize,
    /// The group the walk stands in; equal to `groups.len()` when done.
    pub group_index: usize,
    /// The page the walk asks for next within the current group, from 1.
    pub page: usize,
    /// Every item fetched so far, tagged, in merge order.
    pub merged: Vec<TaggedSet>,
}

impl Walk {
    /// The shape every reachable walk state has.
    pub open spec fn wf(&self) -> bool {
        &&& self.page_size >= 1
        &&& self.page >= 1
        &&& self.group_index <= self.groups@.len()
    }

    /// Whether some group still has pages to fetch.
    pub open spec fn in_progress(&self) -> bool {
        self.group_index < self.groups@.len()
    }

    /// Starts a walk over `groups`, before any page has been fetched.
    pub fn new(groups: Vec<PhaseGroupRef>, page_size: usize) -> (w: Walk)
        requires
            page_size >= 1,
        ensures
            w.wf(),
            w.groups == groups,
            w.page_size == page_size,
            w.group_index == 0,
            w.page == 1,
            w.merged@ == Seq::<TaggedSet>::empty(),
    {
        Walk { groups, page_size, group_index: 0, page: 1, merged: Vec::new() }
    }

    /// The next page request the walk needs, or `Finished` once every
    /// group has ended on a short page.
    pub fn next_action(&self) -> (a: WalkAction)
        requires
            self.wf(),
        ensures
            self.in_progress() ==> a == (WalkAction::Request {
                group_id: self.groups@[self.group_index as int].id,
                page: self.page,
                per_page: self.page_size,
            }),
            !self.in_progress() ==> a == WalkAction::Finished,
    {
        if self.group_index < self.groups.len() {
            let g = &self.groups[self.group_index];
            WalkAction::Request { group_id: g.id, page: self.page, per_page: self.page_size }
        } else {
            WalkAction::Finished
        }
    }

    /// Consumes one page outcome. A failure aborts the whole walk — the
    /// state, items already merged included, is consumed and only the
    /// error comes back. A page appends its items, tagged with the
    /// current group; a short page ends the group, a full one asks for
    /// the next page.
    pub fn apply(self, outcome: PageOutcome) -> (r: Result<Walk, FetchError>)
        requires
            self.wf(),
            self.in_progress(),
            (outcome matches PageOutcome::Page(items) && items@.len() >= self.page_size)
                ==> self.page < usize::MAX,
        ensures
            outcome is TransportFailure ==> r == Err::<Walk, FetchError>(
                FetchError::UpstreamUnavailable,
            ),
            outcome is MalformedResponse ==> r == Err::<Walk, FetchError>(
                FetchError::UpstreamMalformed,
            ),
            outcome matches PageOutcome::Page(items) ==> r matches Ok(w) && {
                &&& w.wf()
                &&& w.groups == self.groups
                &&& w.page_size == self.page_size
                &&& w.merged@ == self.merged@ + tagged_of(
                    self.groups@[self.group_index as int],
                    items@,
                )
                &&& items@.len() < self.page_size ==> w.group_index == self.group_index + 1
                    && w.page == 1
                &&& items@.len() >= self.page_size ==> w.group_index == self.group_index
                    && w.page == self.page + 1
            },
    {
        let Walk { groups, page_size, group_index, page, mut merged } = self;
        match outcome {
            PageOutcome::TransportFailure => Err(FetchError::UpstreamUnavailable),
            PageOutcome::MalformedResponse => Err(FetchError::UpstreamMalformed),
            PageOutcome::Page(items) => {
                let total = groups.len();
                let ghost g = groups@[group_index as int];
                let ghost items0 = items@;
                let ghost merged0 = merged@;
                let group = &groups[group_index];
                let short = items.len() < page_size;
                let mut items = items;
                loop
                    invariant
                        items0.len() - items@.len() >= 0,
                        items@ == items0.skip(items0.len() - items@.len()),
                        merged@ == merged0 + tagged_of(
                            g,
                            items0.take(items0.len() - items@.len()),
                        ),
                        g == groups@[group_index as int],
                        0 <= group_index < groups@.len(),
                        group == groups@[group_index as int],
                    ensures
                        merged@ == merged0 + tagged_of(g, items0),
                    decreases items@.len(),
                {
                    if items.len() == 0 {
                        proof {
                            assert(items0.take(items0.len() as int) =~= items0);
                        }
                        break;
                    }
                    let ghost k = items0.len() - items@.len();
                    let record = items.remove(0);
                    proof {
                        assert(record == items0[k as int]);
                        assert(items0.skip(k as int).remove(0) =~= items0.skip(k + 1));
                        assert(items0.take(k + 1) =~= items0.take(k as int).push(
                            items0[k as int],
                        ));
                        assert(tagged_of(g, items0.take(k + 1)) =~= tagged_of(
                            g,
                            items0.take(k as int),
                        ).push(tag_item(g, items0[k as int])));
                    }
                    merged.push(
                        TaggedSet {
                            phase_group_id: group.id,
                            display_identifier: group.display_identifier.clone(),
                            record,
                        },
                    );
                }
                if short {
                    Ok(
                        Walk {
                            groups,
                            page_size,
                            group_index: group_index + 1,
                            page: 1,
                            merged,
                        },
                    )
                } else {
                    Ok(Walk { groups, page_size, group_index, page: page + 1, merged })
                }
            },
        }
    }

    /// Walks one whole group whose true items are given, page by page,
    /// exactly as a deterministic upstream would serve them: full pages
    /// until the first short page ends the group. Returns the advanced
    /// walk and how many page requests the group cost.
    pub fn walk_one_group(self, items: Vec<SetRecord>) -> (r: (Walk, usize))
        requires
            self.wf(),
            self.in_progress(),
            self.page == 1,
            items@.len() < usize::MAX,
        ensures
            r.0.wf(),
            r.0.groups == self.groups,
            r.0.page_size == self.page_size,
            r.0.group_index == self.group_index + 1,
            r.0.page == 1,
            r.0.merged@ == self.merged@ + tagged_of(
                self.groups@[self.group_index as int],
                items@,
            ),
            r.1 as nat == pages_needed(items@.len() as nat, self.page_size as nat),
    {
        let ghost w0 = self;
        let ghost items0 = items@;
        let ghost g = self.groups@[self.group_index as int];
        let page_size = self.page_size;
        let mut cur = self;
        let mut remaining = items;
        let mut requests: usize = 0;
        let ghost mut processed: int = 0;
        proof {
            assert(items0.skip(0) =~= items0);
            assert(w0.merged@ + tagged_of(g, items0.take(0)) =~= w0.merged@);
        }
        loop
            invariant_except_break
                cur.wf(),
                cur.page_size == page_size,
                page_size == w0.page_size,
                page_size >= 1,
                cur.groups == w0.groups,
                cur.group_index == w0.group_index,
                cur.group_index < cur.groups@.len(),
                0 <= processed <= items0.len(),
                items0.len() < usize::MAX,
                requests <= processed,
                cur.page == requests + 1,
                remaining@ == items0.skip(processed),
                cur.merged@ == w0.merged@ + tagged_of(g, items0.take(processed)),
                g == w0.groups@[w0.group_index as int],
                pages_needed(items0.len() as nat, page_size as nat) == requests + pages_needed(
                    remaining@.len() as nat,
                    page_size as nat,
                ),
            ensures
                cur.wf(),
                cur.groups == w0.groups,
                cur.page_size == page_size,
                cur.group_index == w0.group_index + 1,
                cur.page == 1,
                cur.merged@ == w0.merged@ + tagged_of(g, items0),
                requests as nat == pages_needed(items0.len() as nat, page_size as nat),
            decreases remaining@.len(),
        {
            let ghost rem0 = remaining@;
            let page_items = take_page(&mut remaining, page_size);
            let got = page_items.len();
            proof {
                assert(items0.skip(processed).take(got as int) =~= items0.subrange(
                    processed,
                    processed + got,
                ));
                assert(items0.skip(processed).skip(got as int) =~= items0.skip(processed + got));
                assert(items0.take(processed) + items0.subrange(processed, processed + got)
                    =~= items0.take(processed + got));
                lemma_tagged_of_concat(
                    g,
                    items0.take(processed),
                    items0.subrange(processed, processed + got),
                );
            }
            requests = requests + 1;
            let res = cur.apply(PageOutcome::Page(page_items));
            cur = res.unwrap();
            proof {
                processed = processed + got as int;
            }
            if got < page_size {
                proof {
                    assert(rem0.len() < page_size);
                    assert(pages_needed(rem0.len() as nat, page_size as nat) == 1);
                    assert(processed == items0.len());
                    assert(items0.take(processed) =~= items0);
                }
                break;
            }
            proof {
                assert(rem0.len() >= page_size);
                assert(pages_needed(rem0.len() as nat, page_size as nat) == 1 + pages_needed(
                    (rem0.len() - page_size) as nat,
                    page_size as nat,
                ));
            }
        }
        (cur, requests)
    }

    /// Hands the merged result out once every group has been walked.
    pub fn finish(self) -> (r: Vec<TaggedSet>)
        requires
            !self.in_progress(),
        ensures
            r@ == self.merged@,
    {
        self.merged
    }
}

/// Splits the next page off the front of a group's remaining items: up to
/// `page_size` items, fewer only when the group is nearly exhausted.
fn take_page(remaining: &mut Vec<SetRecord>, page_size: usize) -> (page: Vec<SetRecord>)
    ensures
        page@.len() == if old(remaining)@.len() < page_size {
            old(remaining)@.len() as int
        } else {
            page_size as int
        },
        page@ == old(remaining)@.take(page@.len() as int),
        final(remaining)@ == old(remaining)@.skip(page@.len() as int),
{
    let k = if remaining.len() < page_size {
        remaining.len()
    } else {
        page_size
    };
    let mut rest = remaining.split_off(k);
    core::mem::swap(remaining, &mut rest);
    rest
}

/// Walks every group of one aggregation request against its true item
/// lists, as a fully deterministic upstream would serve them, and merges
/// the result. Returns the merged, tagged items in sub-collection order
/// and, per group, how many page requests the walk issued.
pub fn walk_all_groups(
    groups: Vec<PhaseGroupRef>,
    fixture: Vec<Vec<SetRecord>>,
    page_size: usize,
) -> (r: (Vec<TaggedSet>, Vec<usize>))
    requires
        page_size >= 1,
        fixture@.len() == groups@.len(),
        forall|i: int| 0 <= i < fixture@.len() ==> #[trigger] fixture@[i]@.len() < usize::MAX,
    ensures
        r.0@ == merged_of(groups@, views_of(fixture@)),
        r.1@.len() == groups@.len(),
        forall|i: int|
            0 <= i < groups@.len() ==> #[trigger] r.1@[i] as nat == pages_needed(
                views_of(fixture@)[i].len(),
                page_size as nat,
            ),
{
    let ghost groups0 = groups@;
    let ghost fix0 = views_of(fixture@);
    let mut w = Walk::new(groups, page_size);
    let mut counts: Vec<usize> = Vec::new();
    let mut fixture = fixture;
    proof {
        assert(views_of(fixture@) =~= fix0.skip(0));
    }
    while fixture.len() > 0
        invariant
            w.wf(),
            w.groups@ == groups0,
            w.page_size == page_size,
            page_size >= 1,
            w.page == 1,
            w.group_index + fixture@.len() == groups0.len(),
            views_of(fixture@) == fix0.skip(w.group_index as int),
            fix0.len() == groups0.len(),
            w.merged@ == merged_of(
                groups0.take(w.group_index as int),
                fix0.take(w.group_index as int),
            ),
            counts@.len() == w.group_index,
            forall|i: int|
                0 <= i < counts@.len() ==> #[trigger] counts@[i] as nat == pages_needed(
                    fix0[i].len(),
                    page_size as nat,
                ),
            forall|i: int| 0 <= i < fix0.len() ==> #[trigger] fix0[i].len() < usize::MAX,
        decreases fixture@.len(),
    {
        let ghost gi = w.group_index as int;
        let ghost fixture_pre = fixture@;
        let items = fixture.remove(0);
        proof {
            assert(views_of(fixture_pre)[0] == items@);
            assert(items@ == fix0[gi]);
            assert(fixture@ =~= fixture_pre.skip(1));
            assert forall|j: int| 0 <= j < fixture@.len() implies #[trigger] views_of(fixture@)[j]
                == fix0.skip(gi + 1)[j] by {
                assert(views_of(fixture@)[j] == fixture_pre[j + 1]@);
                assert(views_of(fixture_pre)[j + 1] == fixture_pre[j + 1]@);
                assert(fix0.skip(gi)[j + 1] == fix0.skip(gi + 1)[j]);
            }
            assert(views_of(fixture@) =~= fix0.skip(gi + 1));
        }
        let (w2, n) = w.walk_one_group(items);
        w = w2;
        counts.push(n);
        proof {
            lemma_merged_of_snoc(groups0, fix0, gi);
        }
    }
    proof {
        assert(groups0.take(groups0.len() as int) =~= groups0);
        assert(fix0.take(groups0.len() as int) =~= fix0);
    }
    let merged = w.finish();
    (merged, counts)
}

} // verus!
