//! The decisions of a synchronization pass: credential resolution, the
//! oldest-first dispatch order, aggregation of partial results, the
//! wholesale watermark commit, and the user-facing classification of a
//! pass.

use vstd::prelude::*;

use crate::errors::ErrorType;
use crate::records::{listed, CPartnerFinancialsDetailedSalesResult, ChangedDates, Settings};

verus! {

/// Resolve the credential a pass will use: an absent or empty key fails
/// permanently with the token class, so the caller can prompt for a new
/// credential rather than retry.
pub fn resolve_credential(key: &Option<String>) -> (r: Result<String, ErrorType>)
    ensures
        match key {
            Option::None => r matches Err(e) && e is BadToken,
            Option::Some(k) => {
                if k@.len() == 0 {
                    r matches Err(e) && e is BadToken
                } else {
                    r matches Ok(s) && s@ == k@
                }
            },
        },
{
    match key {
        Some(k) => {
            if k.as_str().is_empty() {
                Err(ErrorType::BadToken(String::from_str("API key is still missing after start")))
            } else {
                Ok(k.clone())
            }
        },
        None => Err(ErrorType::BadToken(String::from_str("API key is still missing after start"))),
    }
}

/// Whether the pass is the first synchronization: the stored global
/// watermark is absent or the zero sentinel.  This selects notification
/// text only, never a data-handling decision.
pub open spec fn spec_is_first_sync(watermark: Option<String>) -> bool {
    match watermark {
        Option::None => true,
        Option::Some(w) => w@ == "0"@,
    }
}

/// Decide whether a pass is the first synchronization.
pub fn is_first_sync(watermark: &Option<String>) -> (r: bool)
    ensures
        r == spec_is_first_sync(*watermark),
{
    match watermark {
        None => true,
        Some(w) => {
            let zero = String::from_str("0");
            w.eq(&zero)
        },
    }
}

/// Partitions are dispatched oldest first: the remote list, newest first,
/// reversed.
pub fn order_partitions(dates: Vec<String>) -> (r: Vec<String>)
    ensures
        r@ == dates@.reverse(),
{
    let ghost gd = dates@;
    let mut dates = dates;
    let mut out: Vec<String> = Vec::new();
    while dates.len() > 0
        invariant
            dates@ == gd.take(dates@.len() as int),
            out@.len() + dates@.len() == gd.len(),
            forall|m: int| 0 <= m < out@.len() ==> out@[m] == gd[gd.len() - 1 - m],
        decreases dates@.len(),
    {
        let ghost k = dates@.len() as int;
        let x = dates.pop().unwrap();
        proof {
            assert(x == gd[k - 1]);
            assert(dates@ =~= gd.take(k - 1));
        }
        out.push(x);
    }
    proof {
        assert(out@ =~= gd.reverse());
    }
    out
}

/// The dispatch plan a changed-partitions answer yields: the partitions
/// oldest first, and the global watermark the pass will commit.
pub fn partitions_oldest_first(changed: ChangedDates) -> (r: (Vec<String>, String))
    ensures
        r.0@ == listed(changed.dates).reverse(),
        r.1 == changed.result_highwatermark,
{
    let ChangedDates { dates, result_highwatermark } = changed;
    let d: Vec<String> = match dates {
        Some(v) => v,
        None => Vec::new(),
    };
    proof {
        assert(d@ =~= listed(changed.dates));
    }
    (order_partitions(d), result_highwatermark)
}

/// What a pass aggregates: the records of the successful partitions, in
/// dispatch order, each failed partition dropped.
pub open spec fn flatten_oks(
    rs: Seq<Result<Vec<CPartnerFinancialsDetailedSalesResult>, ErrorType>>,
) -> Seq<CPartnerFinancialsDetailedSalesResult>
    decreases rs.len(),
{
    if rs.len() == 0 {
        Seq::empty()
    } else {
        flatten_oks(rs.drop_last()) + (match rs.last() {
            Result::Ok(v) => v@,
            Result::Err(_) => Seq::empty(),
        })
    }
}

/// Aggregate per-partition outcomes into one record list.  A failed
/// partition is dropped, never fatal: the pass is a partial success.
pub fn aggregate_results(
    results: Vec<Result<Vec<CPartnerFinancialsDetailedSalesResult>, ErrorType>>,
) -> (r: Vec<CPartnerFinancialsDetailedSalesResult>)
    ensures
        r@ == flatten_oks(results@),
{
    let ghost grs = results@;
    let total: usize = results.len();
    let mut results = results;
    let mut out: Vec<CPartnerFinancialsDetailedSalesResult> = Vec::new();
    let mut k: usize = 0;
    while results.len() > 0
        invariant
            grs.len() == total,
            k + results@.len() == grs.len(),
            results@ =~= grs.skip(k as int),
            out@ == flatten_oks(grs.take(k as int)),
        decreases results@.len(),
    {
        let item = results.remove(0);
        proof {
            assert(item == grs[k as int]);
            assert(grs.take(k + 1).drop_last() =~= grs.take(k as int));
            assert(grs.take(k + 1).last() == grs[k as int]);
            assert(results@ =~= grs.skip(k + 1 as int));
        }
        match item {
            Ok(mut v) => {
                out.append(&mut v);
            },
            Err(_) => {},
        }
        k += 1;
    }
    proof {
        assert(grs.take(grs.len() as int) =~= grs);
        assert(results@.len() == 0);
    }
    out
}

/// Commit a finished pass: the global watermark is replaced wholesale with
/// the value the change feed returned when the pass began, regardless of
/// per-partition failures; nothing else of the settings changes.
pub fn finish_pass(settings: &mut Settings, new_watermark: String)
    ensures
        final(settings).highwatermark == Some(new_watermark),
        final(settings).id == old(settings).id,
        final(settings).steam_api_key == old(settings).steam_api_key,
        final(settings).poll_interval == old(settings).poll_interval,
{
    settings.highwatermark = Some(new_watermark);
}

/// The poll interval a settings update stores: never below one minute, one
/// minute where none was given.
pub open spec fn clamped_interval(poll_interval: Option<i32>) -> i32 {
    match poll_interval {
        Option::Some(v) => if v >= 60 {
            v
        } else {
            60
        },
        Option::None => 60,
    }
}

/// Clamp a requested poll interval to the stored form.
pub fn sanitize_poll_interval(poll_interval: Option<i32>) -> (r: Option<i32>)
    ensures
        r == Some(clamped_interval(poll_interval)),
{
    match poll_interval {
        Some(v) => {
            if v >= 60 {
                Some(v)
            } else {
                Some(60)
            }
        },
        None => Some(60),
    }
}

/// Adopt a user settings update into the cached settings: the credential
/// as given, the poll interval clamped; the row id and the global
/// watermark stay.  The caller persists the same values in the same
/// logical operation, so cache and store never diverge.
pub fn apply_settings_update(
    settings: &mut Settings,
    steam_api_key: Option<String>,
    poll_interval: Option<i32>,
)
    ensures
        final(settings).steam_api_key == steam_api_key,
        final(settings).poll_interval == Some(clamped_interval(poll_interval)),
        final(settings).id == old(settings).id,
        final(settings).highwatermark == old(settings).highwatermark,
{
    settings.steam_api_key = steam_api_key;
    settings.poll_interval = sanitize_poll_interval(poll_interval);
}

/// The dispatch progress of a pass, in thousandths: how many partitions
/// have been handed out, over the total.  An empty pass reports zero.
pub fn progress_permille(dispatched: usize, total: usize) -> (r: u64)
    requires
        dispatched <= total,
        total <= 0xFFFFFFFF,
    ensures
        total > 0 ==> r == dispatched as int * 1000 / total as int,
        total == 0 ==> r == 0,
{
    if total == 0 {
        return 0;
    }
    ((dispatched as u64) * 1000) / (total as u64)
}

/// The body of the completion notice for a pass that was not the first,
/// chosen by how many records arrived.
pub fn notification_body(sales_amount: usize) -> (r: String)
    ensures
        sales_amount < 10 ==> r@ == "Way to go!"@,
        10 <= sales_amount < 50 ==> r@ == "Well done!"@,
        50 <= sales_amount < 100 ==> r@ == "You are a sale machine!"@,
        100 <= sales_amount < 200 ==> r@ == "You're on fire!"@,
        200 <= sales_amount < 500 ==> r@ == "Ka-ching! You are a sale monster!"@,
        500 <= sales_amount ==> r@ == "Jackpot!"@,
{
    if sales_amount < 10 {
        String::from_str("Way to go!")
    } else if sales_amount < 50 {
        String::from_str("Well done!")
    } else if sales_amount < 100 {
        String::from_str("You are a sale machine!")
    } else if sales_amount < 200 {
        String::from_str("You're on fire!")
    } else if sales_amount < 500 {
        String::from_str("Ka-ching! You are a sale monster!")
    } else {
        String::from_str("Jackpot!")
    }
}

} // verus!
