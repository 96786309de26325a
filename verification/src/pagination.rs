//! The pagination model of the page walker: how many page requests a
//! sub-collection of a given true size costs when exhaustion is inferred
//! purely from short pages.
//!
//! The walker requests pages of a fixed size until a page comes back
//! short. A collection whose size is an exact multiple of the page size
//! therefore costs one extra request, whose page is empty; any other
//! size is exhausted on its first short page.

use vstd::prelude::*;
use vstd::arithmetic::div_mod::{lemma_fundamental_div_mod, lemma_fundamental_div_mod_converse};

verus! {

/// How many page requests the walker issues for a sub-collection that
/// truly holds `count` items, with pages of `page_size` items: one
/// request per full page, plus the final short page that stops the walk.
pub open spec fn pages_needed(count: nat, page_size: nat) -> nat
    recommends
        page_size >= 1,
    decreases count,
{
    if page_size == 0 {
        0
    } else if count < page_size {
        1
    } else {
        1 + pages_needed((count - page_size) as nat, page_size)
    }
}

/// A collection of `blocks` full pages plus `rem` leftover items costs
/// `blocks + 1` requests: the leftover page (possibly empty) is the short
/// page that stops the walk.
pub proof fn lemma_pages_by_blocks(blocks: nat, page_size: nat, rem: nat)
    requires
        page_size >= 1,
        rem < page_size,
    ensures
        pages_needed(blocks * page_size + rem, page_size) == blocks + 1,
    decreases blocks,
{
    if blocks == 0 {
        assert(blocks * page_size + rem == rem) by (nonlinear_arith)
            requires
                blocks == 0,
        ;
    } else {
        lemma_pages_by_blocks((blocks - 1) as nat, page_size, rem);
        assert(blocks * page_size + rem - page_size == (blocks - 1) * page_size + rem)
            by (nonlinear_arith);
        assert(blocks * page_size + rem >= page_size) by (nonlinear_arith)
            requires
                blocks >= 1,
                page_size >= 1,
                rem >= 0,
        ;
    }
}

/// A sub-collection whose size is an exact multiple of the page size
/// costs `count / page_size + 1` requests: every page before the last
/// comes back full, and only an extra empty page reveals exhaustion.
pub proof fn lemma_requests_exact_multiple(count: nat, page_size: nat)
    requires
        page_size >= 1,
        count % page_size == 0,
    ensures
        pages_needed(count, page_size) == count / page_size + 1,
{
    lemma_fundamental_div_mod(count as int, page_size as int);
    assert(count == page_size * (count / page_size));
    assert((count / page_size) * page_size + 0 == page_size * (count / page_size))
        by (nonlinear_arith);
    lemma_pages_by_blocks(count / page_size, page_size, 0);
}

/// A sub-collection whose size is not a multiple of the page size costs
/// exactly the rounded-up quotient: its last page is already short.
pub proof fn lemma_requests_with_remainder(count: nat, page_size: nat)
    requires
        page_size >= 1,
        count % page_size != 0,
    ensures
        pages_needed(count, page_size) as int == (count + page_size - 1) / (page_size as int),
{
    let q = count / page_size;
    let r = count % page_size;
    lemma_fundamental_div_mod(count as int, page_size as int);
    assert(count == q * page_size + r);
    lemma_pages_by_blocks(q, page_size, r);
    assert(count + page_size - 1 == (q + 1) * page_size + (r - 1)) by (nonlinear_arith)
        requires
            count == q * page_size + r,
    ;
    lemma_fundamental_div_mod_converse(
        count as int + page_size - 1,
        page_size as int,
        q as int + 1,
        r as int - 1,
    );
}

} // verus!
