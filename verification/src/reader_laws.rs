//! What reading the table page by page adds up to.

use vstd::prelude::*;
use crate::codec::decoded;
use crate::json::JsonView;
use crate::reader::{after_page, complaints_among, record_in, records_among, ListingView, PageView};
use crate::record::RecordView;

verus! {

/// The reading after a run of pages, taken in one after the other.
pub open spec fn after_pages(listing: ListingView, pages: Seq<PageView>) -> ListingView
    decreases pages.len(),
{
    if pages.len() == 0 {
        listing
    } else {
        after_page(after_pages(listing, pages.drop_last()), pages.last())
    }
}

/// The records of a run of pages, page after page.
pub open spec fn records_in(pages: Seq<PageView>) -> Seq<RecordView>
    decreases pages.len(),
{
    if pages.len() == 0 {
        Seq::empty()
    } else {
        records_in(pages.drop_last()) + records_among(pages.last().items)
    }
}

/// The records among rows put one behind the other are the records among
/// the first rows followed by those among the second.
pub proof fn law_rows_add_up(first: Seq<JsonView>, second: Seq<JsonView>)
    ensures
        records_among(first + second) == records_among(first) + records_among(second),
    decreases second.len(),
{
    let pick = |row: JsonView| record_in(row);
    if second.len() == 0 {
        assert(first + second =~= first);
        assert(records_among(first) + records_among(second) =~= records_among(first));
    } else {
        let rest = second.drop_last();
        law_rows_add_up(first, rest);
        assert((first + second).drop_last() =~= first + rest);
        assert((first + second).last() == second.last());
        match record_in(second.last()) {
            Some(record) => {
                assert(records_among(first + second) =~= records_among(first) + (records_among(rest) + seq![record]));
            },
            None => {},
        }
    }
}

/// A row that is no record drops out, and the rows before and after it are
/// read as if it had not been there.
pub proof fn law_bad_row_is_skipped(before: Seq<JsonView>, bad: JsonView, after: Seq<JsonView>)
    requires
        decoded(bad) is Err,
    ensures
        records_among(before + seq![bad] + after) == records_among(before) + records_among(after),
{
    law_rows_add_up(before + seq![bad], after);
    law_rows_add_up(before, seq![bad]);
    assert(seq![bad].drop_last() =~= Seq::<JsonView>::empty());
    assert(records_among(seq![bad]) =~= Seq::<RecordView>::empty()) by {
        reveal_with_fuel(Seq::filter_map, 2);
    }
    assert(records_among(before) + Seq::<RecordView>::empty() =~= records_among(before));
}

/// Every row is either read as a record or noted as left out.
pub proof fn law_every_row_is_accounted_for(rows: Seq<JsonView>)
    ensures
        records_among(rows).len() + complaints_among(rows).len() == rows.len(),
    decreases rows.len(),
{
    if rows.len() > 0 {
        law_every_row_is_accounted_for(rows.drop_last());
    }
}

/// After a run of pages the reading holds what it held before and, behind
/// it, the records of every page in turn; it is finished exactly where the
/// last page says that nothing follows.
pub proof fn law_pages_add_up(listing: ListingView, pages: Seq<PageView>)
    ensures
        after_pages(listing, pages).records == listing.records + records_in(pages),
        pages.len() > 0 ==> after_pages(listing, pages).finished == !pages.last().has_more,
    decreases pages.len(),
{
    if pages.len() == 0 {
        assert(listing.records + records_in(pages) =~= listing.records);
    } else {
        law_pages_add_up(listing, pages.drop_last());
        assert(after_pages(listing, pages).records =~= listing.records + records_in(pages));
    }
}

} // verus!
