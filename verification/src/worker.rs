//! The per-partition synchronization worker: load the stored watermark,
//! reset a partition resuming from zero, and drive pagination by the
//! exhaustion rule — a page whose maximum watermark equals the current one
//! ends the partition, checked by watermark equality and never by an empty
//! record list.

use vstd::prelude::*;

use crate::errors::ErrorType;
use crate::records::{CPartnerFinancialsDetailedSalesResult, DetailedSales};
use crate::store::{fact_dated, fact_dated_other, watermark_key, PartitionWatermark, Store};
use crate::lookup::{lemma_filter_all_false, upserted_by_key};

verus! {

use vstd::string::StrSliceExecFns;

/// The numeric value of a decimal digit string.
pub open spec fn dec_val(s: Seq<char>) -> int
    decreases s.len(),
{
    if s.len() == 0 {
        0
    } else {
        dec_val(s.drop_last()) * 10 + (s.last() as int - 48)
    }
}

/// Whether every character of `s` is a decimal digit.
pub open spec fn all_digits(s: Seq<char>) -> bool {
    forall|i: int| 0 <= i < s.len() ==> 48 <= #[trigger] (s[i] as int) <= 57
}

pub proof fn lemma_dec_val_nonneg(s: Seq<char>)
    requires
        all_digits(s),
    ensures
        dec_val(s) >= 0,
    decreases s.len(),
{
    if s.len() > 0 {
        assert(all_digits(s.drop_last())) by {
            assert(forall|i: int|
                0 <= i < s.drop_last().len() ==> s.drop_last()[i] == s[i]);
        }
        lemma_dec_val_nonneg(s.drop_last());
        assert(48 <= s.last() as int <= 57);
    }
}

/// The value of a digit string bounds the value of each of its prefixes.
pub proof fn lemma_dec_val_prefix_le(s: Seq<char>, k: int)
    requires
        all_digits(s),
        0 <= k <= s.len(),
    ensures
        dec_val(s.take(k)) <= dec_val(s),
    decreases s.len() - k,
{
    if k == s.len() {
        assert(s.take(k) =~= s);
    } else {
        assert(s.take(k + 1).drop_last() =~= s.take(k));
        assert(s.take(k + 1).last() == s[k]);
        assert(all_digits(s.take(k))) by {
            assert(forall|i: int| 0 <= i < k ==> s.take(k)[i] == s[i]);
        }
        lemma_dec_val_nonneg(s.take(k));
        assert(48 <= s[k] as int <= 57);
        assert(dec_val(s.take(k + 1)) == dec_val(s.take(k)) * 10 + (s[k] as int - 48));
        lemma_dec_val_prefix_le(s, k + 1);
    }
}

/// Parse a non-empty decimal digit string into a watermark value; anything
/// else, or a value beyond the machine range, is a formatting error.
pub fn parse_watermark(s: &str) -> (r: Result<i64, ErrorType>)
    ensures
        r matches Ok(v) ==> v == dec_val(s@),
        r is Ok <==> s@.len() > 0 && all_digits(s@) && dec_val(s@) <= i64::MAX,
        r matches Err(e) ==> e is BadFormatting,
{
    let n = s.unicode_len();
    if n == 0 {
        return Err(ErrorType::BadFormatting(String::from_str("empty watermark")));
    }
    let mut acc: i64 = 0;
    let mut i: usize = 0;
    proof {
        assert(s@.take(0) =~= Seq::<char>::empty());
    }
    while i < n
        invariant
            n == s@.len(),
            0 < n,
            i <= n,
            all_digits(s@.take(i as int)),
            0 <= acc,
            acc == dec_val(s@.take(i as int)),
        decreases n - i,
    {
        let c = s.get_char(i);
        let code = c as u32;
        if code < 48 || code > 57 {
            proof {
                assert(s@[i as int] == c);
                assert(!all_digits(s@));
            }
            return Err(ErrorType::BadFormatting(String::from_str("watermark is not a number")));
        }
        let d = (code - 48) as i64;
        proof {
            assert(s@.take(i + 1).drop_last() =~= s@.take(i as int));
            assert(s@.take(i + 1).last() == s@[i as int]);
            assert(all_digits(s@.take(i + 1))) by {
                assert(forall|m: int| 0 <= m < i + 1 ==> s@.take(i + 1)[m] == s@[m]);
            }
            assert(dec_val(s@.take(i + 1)) == acc * 10 + (d as int));
        }
        let next = match acc.checked_mul(10) {
            Some(x) => match x.checked_add(d) {
                Some(y) => y,
                None => {
                    proof {
                        if all_digits(s@) {
                            lemma_dec_val_prefix_le(s@, i + 1);
                        }
                    }
                    return Err(
                        ErrorType::BadFormatting(String::from_str("watermark out of range")),
                    );
                },
            },
            None => {
                proof {
                    if all_digits(s@) {
                        lemma_dec_val_prefix_le(s@, i + 1);
                    }
                }
                return Err(ErrorType::BadFormatting(String::from_str("watermark out of range")));
            },
        };
        acc = next;
        i += 1;
    }
    proof {
        assert(s@.take(n as int) =~= s@);
    }
    Ok(acc)
}

/// What handling one page did: advanced the watermark, or found the
/// partition exhausted.
#[derive(Debug, PartialEq, Eq, Structural)]
pub enum PageStep {
    Advanced,
    Exhausted,
}

/// One partition's synchronization state: its date key, the watermark it
/// has committed through, and the enriched rows collected this pass.
#[derive(Debug)]
pub struct PartitionWorker {
    pub date: String,
    pub watermark: i64,
    pub collected: Vec<CPartnerFinancialsDetailedSalesResult>,
}

impl PartitionWorker {
    /// Begin a partition: load its stored local watermark, and where it is
    /// zero purge the partition's prior fact rows — the idempotent reset
    /// that makes an interrupted rebuild converge.
    pub fn begin(store: &mut Store, date: String) -> (w: PartitionWorker)
        requires
            old(store).wf(),
        ensures
            final(store).wf(),
            w.date == date,
            w.watermark == old(store).spec_highwatermark(date@),
            w.collected@.len() == 0,
            w.watermark == 0 ==> final(store).facts@ == old(store).facts@.filter(
                fact_dated_other(date@),
            ) && final(store).settings == old(store).settings
                && final(store).key_requests == old(store).key_requests
                && final(store).packages == old(store).packages
                && final(store).apps == old(store).apps
                && final(store).bundles == old(store).bundles
                && final(store).discounts == old(store).discounts
                && final(store).combined_discounts == old(store).combined_discounts
                && final(store).game_items == old(store).game_items
                && final(store).countries == old(store).countries
                && final(store).partners == old(store).partners
                && final(store).watermarks == old(store).watermarks,
            w.watermark != 0 ==> *final(store) == *old(store),
    {
        let watermark = store.get_highwatermark(&date);
        if watermark == 0 {
            store.delete_sale_detail(&date);
        }
        PartitionWorker { date, watermark, collected: Vec::new() }
    }

    /// Handle one fetched page.  An unparsable page watermark — and only
    /// that — aborts the partition with a formatting error and changes
    /// nothing.  A page watermark equal to the current one means
    /// exhaustion: the partition is done and nothing changes.  Otherwise
    /// the page is committed as one unit — reference rows upserted, fact
    /// rows appended, the stored local watermark advanced to the page
    /// maximum — and the enriched rows are collected.  The local watermark
    /// never decreases as long as the feed's shared numbering does not
    /// regress below the watermark already committed.
    pub fn handle_page(&mut self, store: &mut Store, page: DetailedSales) -> (r: Result<
        PageStep,
        ErrorType,
    >)
        requires
            old(store).wf(),
        ensures
            final(store).wf(),
            !(page.max_id@.len() > 0 && all_digits(page.max_id@) && dec_val(page.max_id@)
                <= i64::MAX) ==> r is Err,
            r is Ok && dec_val(page.max_id@) >= old(self).watermark ==> final(self).watermark
                >= old(self).watermark,
            match r {
                Result::Err(e) => e is BadFormatting && *final(store) == *old(store) && *final(self)
                    == *old(self) && !(page.max_id@.len() > 0 && all_digits(page.max_id@)
                    && dec_val(page.max_id@) <= i64::MAX),
                Result::Ok(PageStep::Exhausted) => dec_val(page.max_id@) == old(self).watermark
                    && *final(store) == *old(store) && *final(self) == *old(self),
                Result::Ok(PageStep::Advanced) => {
                    &&& dec_val(page.max_id@) != old(self).watermark
                    &&& final(self).date == old(self).date
                    &&& final(self).watermark == dec_val(page.max_id@)
                    &&& final(self).collected@ == old(self).collected@
                        + crate::store::enriched_page_rows(page)
                    &&& crate::store::applies_page_tables(*old(store), page, *final(store))
                    &&& final(store).settings == old(store).settings
                    &&& final(store).watermarks@ == upserted_by_key(
                        old(store).watermarks@,
                        (PartitionWatermark {
                            date: old(self).date,
                            highwatermark_id: final(self).watermark,
                        }),
                        watermark_key(),
                    )
                },
            },
    {
        let max_id = match parse_watermark(page.max_id.as_str()) {
            Ok(v) => v,
            Err(e) => {
                return Err(e);
            },
        };
        if max_id == self.watermark {
            return Ok(PageStep::Exhausted);
        }
        self.watermark = max_id;
        let mut new_rows = store.insert_sale_detail(page);
        store.insert_sale_date(self.date.clone(), max_id);
        self.collected.append(&mut new_rows);
        Ok(PageStep::Advanced)
    }
}

/// Reset idempotence.  A partition begun at local watermark zero first has
/// its stored fact rows purged (`begin`), and each committed page only
/// appends rows (`handle_page`).  So among the facts after the pass, the
/// rows of that partition's date are exactly the appended rows of that
/// date: nothing of any earlier, possibly interrupted, pass survives.
pub proof fn lemma_reset_rebuild(
    facts: Seq<CPartnerFinancialsDetailedSalesResult>,
    d: Seq<char>,
    appended: Seq<CPartnerFinancialsDetailedSalesResult>,
)
    ensures
        (facts.filter(fact_dated_other(d)) + appended).filter(fact_dated(d))
            == appended.filter(fact_dated(d)),
{
    broadcast use vstd::seq_lib::group_filter_ensures;

    let kept = facts.filter(fact_dated_other(d));
    Seq::filter_distributes_over_add(kept, appended, fact_dated(d));
    assert forall|i: int| 0 <= i < kept.len() implies !(fact_dated(d)(kept[i])) by {
        facts.lemma_filter_pred(fact_dated_other(d), i);
    }
    lemma_filter_all_false(kept, fact_dated(d));
    assert(kept.filter(fact_dated(d)) + appended.filter(fact_dated(d)) =~= appended.filter(
        fact_dated(d),
    ));
}

} // verus!
