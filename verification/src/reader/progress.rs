use vstd::prelude::*;

use crate::common::decimal::{pow10,
    dec_at_least, dec_checked_div, dec_checked_mul, dec_le, dec_of, dec_same, decimal_checked_product,
    decimal_checked_quotient, product_rounded, Dec,
};
use crate::common::ids::EntityId;

verus! {

/// Where a reader stands in a library item.
#[derive(Clone, Debug)]
pub struct Progress {
    pub library_item_id: EntityId,
    pub current_page: i32,
    pub total_pages: Option<i32>,
    pub current_locator: Option<String>,
}

/// Why a page was refused.
#[derive(Clone, Copy, Debug, PartialEq, Eq, Structural)]
pub enum ProgressError {
    /// The page (first) is past the last page (second).
    PageExceedsTotal(i32, i32),
    /// The page is below zero.
    NegativePage,
}

/// One hundred, the cap of a percentage.
pub open spec fn hundred() -> Dec {
    Dec { mantissa: 100, scale: 0 }
}

/// The percentage read: `current / total * 100` as `rust_decimal` computes
/// it, capped at one hundred; zero where the total is unknown or not
/// positive.
pub open spec fn percent_read(current: i32, total: Option<i32>) -> Dec {
    if total is Some && total->0 > 0 {
        let q = dec_of(decimal_checked_quotient(current as int, 0, total->0 as int, 0).unwrap());
        let p = dec_of(decimal_checked_product(q.mantissa as int, q.scale as int, 100, 0).unwrap());
        if dec_le(p, hundred()) { p } else { hundred() }
    } else {
        Dec { mantissa: 0, scale: 0 }
    }
}

/// Whether `page` is accepted where the book has `total` pages.
pub open spec fn page_accepted(page: i32, total: Option<i32>) -> bool {
    page >= 0 && (total is Some ==> page <= total->0)
}

impl Progress {
    /// Progress at page zero of an item with `total_pages` pages.
    pub fn new(library_item_id: EntityId, total_pages: Option<i32>) -> (res: Progress)
        ensures
            res.library_item_id == library_item_id,
            res.current_page == 0,
            res.total_pages == total_pages,
            res.current_locator is None,
    {
        Progress { library_item_id, current_page: 0, total_pages, current_locator: None }
    }

    /// Moves to `page`. A negative page is refused first; then a page past
    /// the known last page. A refused page changes nothing.
    pub fn set_page(&mut self, page: i32) -> (res: Result<(), ProgressError>)
        ensures
            page < 0 ==> res == Err::<(), ProgressError>(ProgressError::NegativePage),
            page >= 0 && old(self).total_pages is Some && page > old(self).total_pages->0
                ==> res == Err::<(), ProgressError>(ProgressError::PageExceedsTotal(page, old(self).total_pages->0)),
            res is Ok <==> page_accepted(page, old(self).total_pages),
            res is Ok ==> final(self).current_page == page,
            res is Err ==> final(self).current_page == old(self).current_page,
            final(self).total_pages == old(self).total_pages,
            final(self).current_locator == old(self).current_locator,
            final(self).library_item_id == old(self).library_item_id,
    {
        if page < 0 {
            return Err(ProgressError::NegativePage);
        }
        if let Some(total) = self.total_pages {
            if page > total {
                return Err(ProgressError::PageExceedsTotal(page, total));
            }
        }
        self.current_page = page;
        Ok(())
    }

    /// Records the position inside the item; the page is left as it is.
    pub fn set_locator(&mut self, locator: String)
        ensures
            final(self).current_locator == Some(locator),
            final(self).current_page == old(self).current_page,
            final(self).total_pages == old(self).total_pages,
            final(self).library_item_id == old(self).library_item_id,
    {
        self.current_locator = Some(locator);
    }

    /// The percentage read, never above one hundred; zero where the total
    /// is unknown or not positive. From a page of zero or more it is at
    /// least zero, and it is one hundred exactly when the last page is
    /// reached.
    pub fn pct(&self) -> (res: Dec)
        ensures
            res == percent_read(self.current_page, self.total_pages),
            dec_le(res, hundred()),
            res.wf(),
            !(self.total_pages is Some && self.total_pages->0 > 0) ==> res == (Dec { mantissa: 0, scale: 0 }),
            self.current_page >= 0 ==> dec_le(Dec { mantissa: 0, scale: 0 }, res),
            self.current_page >= 0 && self.total_pages is Some && self.total_pages->0 > 0
                ==> (dec_same(res, hundred()) <==> self.current_page >= self.total_pages->0),
    {
        match self.total_pages {
            Some(total) => {
                if total > 0 {
                    let num = Dec::from_i32(self.current_page);
                    let den = Dec::from_i32(total);
                    assert(pow10(0) == 1) by { reveal_with_fuel(pow10, 1); }
                    let q = match dec_checked_div(num, den) {
                        Some(q) => q,
                        None => {
                            proof { assert(false); }
                            Dec::zero()
                        },
                    };
                    let h = Dec::from_i32(100);
                    let p = match dec_checked_mul(q, h) {
                        Some(p) => p,
                        None => {
                            proof { assert(false); }
                            Dec::zero()
                        },
                    };
                    proof { lemma_percent_bounds(self.current_page, total, q, p); }
                    if dec_at_least(h, p) {
                        p
                    } else {
                        h
                    }
                } else {
                    Dec::zero()
                }
            },
            None => Dec::zero(),
        }
    }

    /// Whether the last page is reached; never for an unknown or zero
    /// total.
    pub fn is_finished(&self) -> (res: bool)
        ensures
            res == (self.total_pages is Some && self.total_pages->0 > 0 && self.current_page >= self.total_pages->0),
    {
        match self.total_pages {
            Some(t) => t > 0 && self.current_page >= t,
            None => false,
        }
    }
}

/// `10^n` is positive.
proof fn lemma_pow10_positive(n: nat)
    ensures
        pow10(n) > 0,
    decreases n,
{
    if n > 0 {
        lemma_pow10_positive((n - 1) as nat);
    }
}

/// `10^(a + b) == 10^a * 10^b`.
proof fn lemma_pow10_add(a: nat, b: nat)
    ensures
        pow10(a + b) == pow10(a) * pow10(b),
    decreases a,
{
    if a > 0 {
        lemma_pow10_add((a - 1) as nat, b);
        assert(pow10(a + b) == 10 * pow10((a - 1 + b) as nat));
        assert(10 * (pow10((a - 1) as nat) * pow10(b)) == (10 * pow10((a - 1) as nat)) * pow10(b)) by (nonlinear_arith);
    } else {
        assert(pow10(0) == 1);
    }
}

/// From what `rust_decimal` promises of a quotient `q` of `current` by
/// `total` and of the product `p` of `q` by one hundred: `p` is at least
/// zero for a page of zero or more, at least one hundred once the last
/// page is reached, and below one hundred before it.
proof fn lemma_percent_bounds(current: i32, total: i32, q: Dec, p: Dec)
    requires
        total > 0,
        current >= 0 ==> dec_le(Dec { mantissa: 0, scale: 0 }, q),
        current >= total ==> dec_le(Dec { mantissa: 1, scale: 0 }, q),
        current < total ==> dec_le(q, Dec { mantissa: 9_999_999_996, scale: 10 }),
        product_rounded(q, Dec { mantissa: 100, scale: 0 }, p),
    ensures
        current >= 0 ==> 0 <= p.mantissa,
        current >= total ==> dec_le(hundred(), p),
        current >= 0 && current < total ==> p.mantissa < 100 * pow10(p.scale as nat),
{
    let qs = q.scale as nat;
    let ps = p.scale as nat;
    let qq = pow10(qs);
    let pp = pow10(ps);
    assert(pow10(0) == 1) by { reveal_with_fuel(pow10, 1); }
    lemma_pow10_positive(qs);
    lemma_pow10_positive(ps);
    lemma_pow10_add(ps, qs);
    assert((q.scale + 0) as nat == qs);
    assert((p.scale + qs) as nat == ps + qs);
    let exact = q.mantissa * 100;
    assert(q.mantissa * 100 == exact);
    if current >= 0 {
        assert(0 <= q.mantissa);
        assert(exact >= 0 * qq);
        assert(0 * pp <= p.mantissa);
    }
    if current >= total {
        assert(1 * qq <= q.mantissa * 1);
        assert(exact >= 100 * qq);
        assert(100 * pp <= p.mantissa);
    }
    if current >= 0 && current < total {
        assert(pow10(10) == 10_000_000_000) by { reveal_with_fuel(pow10, 11); }
        let qm = q.mantissa as int;
        let pm = p.mantissa as int;
        assert(qm * 10_000_000_000 <= 9_999_999_996 * qq);
        assert((pm * qq - qm * 100 * pp) * 100_000_000 <= pp * qq);
        assert(pm < 100 * pp) by (nonlinear_arith)
            requires
                qm * 10_000_000_000 <= 9_999_999_996 * qq,
                (pm * qq - qm * 100 * pp) * 100_000_000 <= pp * qq,
                qq > 0,
                pp > 0,
        {
            assert(qm * 100 * pp * 10_000_000_000 <= 999_999_999_600 * qq * pp);
            assert(pm * qq * 10_000_000_000 <= 100 * pp * qq + qm * 100 * pp * 10_000_000_000);
            assert(pm * qq * 10_000_000_000 < 1_000_000_000_000 * pp * qq);
        }
    }
}

} // verus!
