//! The daily sale report: what was sold of each item, and the totals.

use vstd::prelude::*;

verus! {

/// What was sold of one item on the day. `amount` is the quantity at full
/// price, `netsale` the quantity at the price it sold for, and `discount`
/// the difference; all three in the smallest currency unit.
#[derive(Clone, Debug, PartialEq, Eq)]
pub struct DailySaleReportData {
    pub item_id: i32,
    pub item_name: String,
    pub quantity: i32,
    pub amount: i64,
    pub discount: i64,
    pub netsale: i64,
}

/// The report of a day: the rows and their totals.
#[derive(Clone, Debug, PartialEq, Eq)]
pub struct DailySaleReportSummaryData {
    pub total_quantity: i32,
    pub total_amount: i64,
    pub total_discount: i64,
    pub total_netsale: i64,
    pub data_list: Vec<DailySaleReportData>,
}

/// The four totals of a report.
pub struct Totals {
    pub quantity: int,
    pub amount: int,
    pub discount: int,
    pub netsale: int,
}

/// The totals of the rows.
pub open spec fn totals_of(rows: Seq<DailySaleReportData>) -> Totals
    decreases rows.len(),
{
    if rows.len() == 0 {
        Totals { quantity: 0, amount: 0, discount: 0, netsale: 0 }
    } else {
        let before = totals_of(rows.drop_last());
        Totals {
            quantity: before.quantity + rows.last().quantity,
            amount: before.amount + rows.last().amount,
            discount: before.discount + rows.last().discount,
            netsale: before.netsale + rows.last().netsale,
        }
    }
}

/// Each total is one that the report can hold.
pub open spec fn totals_fit(totals: Totals) -> bool {
    &&& i32::MIN <= totals.quantity <= i32::MAX
    &&& i64::MIN <= totals.amount <= i64::MAX
    &&& i64::MIN <= totals.discount <= i64::MAX
    &&& i64::MIN <= totals.netsale <= i64::MAX
}

/// Draws up the report of a day from its rows: the rows as they are, with
/// their totals. There is no report where a total is more than the report
/// can hold.
pub fn get_daily_sale_report(data_list: Vec<DailySaleReportData>) -> (r: Option<
    DailySaleReportSummaryData,
>)
    ensures
        match r {
            Some(report) => {
                &&& totals_fit(totals_of(data_list@))
                &&& report.data_list == data_list
                &&& report.total_quantity == totals_of(data_list@).quantity
                &&& report.total_amount == totals_of(data_list@).amount
                &&& report.total_discount == totals_of(data_list@).discount
                &&& report.total_netsale == totals_of(data_list@).netsale
            },
            None => !totals_fit(totals_of(data_list@)),
        },
{
    let mut quantity: i128 = 0;
    let mut amount: i128 = 0;
    let mut discount: i128 = 0;
    let mut netsale: i128 = 0;
    let mut i: usize = 0;
    assert(data_list@.subrange(0, 0) =~= Seq::<DailySaleReportData>::empty());
    while i < data_list.len()
        invariant
            0 <= i <= data_list@.len(),
            quantity == totals_of(data_list@.subrange(0, i as int)).quantity,
            amount == totals_of(data_list@.subrange(0, i as int)).amount,
            discount == totals_of(data_list@.subrange(0, i as int)).discount,
            netsale == totals_of(data_list@.subrange(0, i as int)).netsale,
            -(i * 0x8000_0000_0000_0000) <= quantity <= i * 0x8000_0000_0000_0000,
            -(i * 0x8000_0000_0000_0000) <= amount <= i * 0x8000_0000_0000_0000,
            -(i * 0x8000_0000_0000_0000) <= discount <= i * 0x8000_0000_0000_0000,
            -(i * 0x8000_0000_0000_0000) <= netsale <= i * 0x8000_0000_0000_0000,
        decreases data_list@.len() - i,
    {
        let row = &data_list[i];
        assert(data_list@.subrange(0, i + 1).drop_last() =~= data_list@.subrange(0, i as int));
        assert(data_list@.subrange(0, i + 1).last() == *row);
        assert((i + 1) * 0x8000_0000_0000_0000 == i * 0x8000_0000_0000_0000
            + 0x8000_0000_0000_0000) by (nonlinear_arith);
        assert(i * 0x8000_0000_0000_0000 <= 0xffff_ffff_ffff_ffff * 0x8000_0000_0000_0000)
            by (nonlinear_arith)
            requires
                0 <= i <= 0xffff_ffff_ffff_ffff,
        ;
        quantity = quantity + row.quantity as i128;
        amount = amount + row.amount as i128;
        discount = discount + row.discount as i128;
        netsale = netsale + row.netsale as i128;
        i += 1;
    }
    assert(data_list@.subrange(0, i as int) =~= data_list@);
    if quantity < i32::MIN as i128 || quantity > i32::MAX as i128 {
        return None;
    }
    if amount < i64::MIN as i128 || amount > i64::MAX as i128 {
        return None;
    }
    if discount < i64::MIN as i128 || discount > i64::MAX as i128 {
        return None;
    }
    if netsale < i64::MIN as i128 || netsale > i64::MAX as i128 {
        return None;
    }
    Some(
        DailySaleReportSummaryData {
            total_quantity: quantity as i32,
            total_amount: amount as i64,
            total_discount: discount as i64,
            total_netsale: netsale as i64,
            data_list,
        },
    )
}

} // verus!
