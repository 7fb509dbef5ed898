//! Protocol-wide aggregates kept alongside the credit lines: the number of
//! lines, the number of active lines, total utilization and total collateral.

use vstd::prelude::*;
use crate::credit::types::{CreditLineData, CreditStatus, ContractError};

verus! {

/// Aggregates over all credit lines.
#[derive(Clone, Copy, Debug, PartialEq, Eq, Structural)]
pub struct ProtocolTotals {
    pub credit_line_count: u32,
    pub active_line_count: u32,
    pub total_utilized: i128,
    pub total_collateral: i128,
}

/// What the aggregates need to know of a line as it was before a write.
#[derive(Clone, Copy, Debug, PartialEq, Eq, Structural)]
pub struct LineSnapshot {
    pub utilized_amount: i128,
    pub status: CreditStatus,
}

/// The snapshot of a line.
pub open spec fn snapshot_of(line: CreditLineData) -> LineSnapshot {
    LineSnapshot { utilized_amount: line.utilized_amount, status: line.status }
}

/// Take the snapshot of a line before changing it.
pub fn snapshot(line: &CreditLineData) -> (r: LineSnapshot)
    ensures
        r == snapshot_of(*line),
{
    LineSnapshot { utilized_amount: line.utilized_amount, status: line.status }
}

/// 1 for an active line, 0 otherwise.
pub open spec fn active_weight(status: CreditStatus) -> int {
    if status == CreditStatus::Active { 1 } else { 0 }
}

/// The aggregates after a line moves from `previous` (`None` for a new
/// line) to `line`.
pub open spec fn spec_record_line_change(
    totals: ProtocolTotals,
    previous: Option<LineSnapshot>,
    line: CreditLineData,
) -> Result<ProtocolTotals, ContractError> {
    let old_utilized: int = match previous { Some(p) => p.utilized_amount as int, None => 0 };
    let old_active: int = match previous { Some(p) => active_weight(p.status), None => 0 };
    let count = totals.credit_line_count + if previous is None { 1int } else { 0int };
    let total = totals.total_utilized + line.utilized_amount - old_utilized;
    let active = totals.active_line_count + active_weight(line.status) - old_active;
    if count > u32::MAX || total > i128::MAX || total < i128::MIN || active > u32::MAX || active < 0
        || line.utilized_amount - old_utilized > i128::MAX || line.utilized_amount - old_utilized < i128::MIN {
        Err(ContractError::Overflow)
    } else {
        Ok(ProtocolTotals {
            credit_line_count: count as u32,
            active_line_count: active as u32,
            total_utilized: total as i128,
            ..totals
        })
    }
}

/// Update the aggregates for a line written after `previous` (its snapshot
/// before the write, `None` for a newly opened line): utilization moves by
/// the line's own change, the active count follows the status, and a new
/// line is counted.
pub fn record_line_change(
    totals: ProtocolTotals,
    previous: Option<LineSnapshot>,
    line: &CreditLineData,
) -> (r: Result<ProtocolTotals, ContractError>)
    ensures
        r == spec_record_line_change(totals, previous, *line),
{
    let (old_utilized, old_active, is_new): (i128, u32, bool) = match previous {
        Some(p) => (p.utilized_amount, if p.status == CreditStatus::Active { 1 } else { 0 }, false),
        None => (0, 0, true),
    };
    let count = if is_new {
        match totals.credit_line_count.checked_add(1) {
            Some(c) => c,
            None => return Err(ContractError::Overflow),
        }
    } else {
        totals.credit_line_count
    };
    let delta = match line.utilized_amount.checked_sub(old_utilized) {
        Some(d) => d,
        None => return Err(ContractError::Overflow),
    };
    let total = match totals.total_utilized.checked_add(delta) {
        Some(t) => t,
        None => return Err(ContractError::Overflow),
    };
    let new_active: u32 = if line.status == CreditStatus::Active { 1 } else { 0 };
    let active = if new_active >= old_active {
        match totals.active_line_count.checked_add(new_active - old_active) {
            Some(a) => a,
            None => return Err(ContractError::Overflow),
        }
    } else {
        match totals.active_line_count.checked_sub(old_active - new_active) {
            Some(a) => a,
            None => return Err(ContractError::Overflow),
        }
    };
    Ok(ProtocolTotals { credit_line_count: count, active_line_count: active, total_utilized: total, ..totals })
}

/// The aggregates after a borrower's collateral moves from `before` to `after`.
pub open spec fn spec_record_collateral_change(totals: ProtocolTotals, before: i128, after: i128) -> Result<ProtocolTotals, ContractError> {
    let total = totals.total_collateral + after - before;
    if total > i128::MAX || total < i128::MIN || after - before > i128::MAX || after - before < i128::MIN {
        Err(ContractError::Overflow)
    } else {
        Ok(ProtocolTotals { total_collateral: total as i128, ..totals })
    }
}

/// Update total collateral for a borrower balance moving from `before` to `after`.
pub fn record_collateral_change(totals: ProtocolTotals, before: i128, after: i128) -> (r: Result<ProtocolTotals, ContractError>)
    ensures
        r == spec_record_collateral_change(totals, before, after),
{
    let delta = match after.checked_sub(before) {
        Some(d) => d,
        None => return Err(ContractError::Overflow),
    };
    match totals.total_collateral.checked_add(delta) {
        Some(t) => Ok(ProtocolTotals { total_collateral: t, ..totals }),
        None => Err(ContractError::Overflow),
    }
}

/// Number of active lines among `lines`.
pub open spec fn count_active(lines: Seq<CreditLineData>) -> int
    decreases lines.len(),
{
    if lines.len() == 0 {
        0
    } else {
        count_active(lines.drop_last()) + active_weight(lines.last().status)
    }
}

/// Sum of the utilization of `lines`.
pub open spec fn sum_utilized(lines: Seq<CreditLineData>) -> int
    decreases lines.len(),
{
    if lines.len() == 0 {
        0
    } else {
        sum_utilized(lines.drop_last()) + lines.last().utilized_amount
    }
}

/// The aggregates describe exactly the lines in `lines`.
pub open spec fn totals_match(totals: ProtocolTotals, lines: Seq<CreditLineData>) -> bool {
    &&& totals.credit_line_count == lines.len()
    &&& totals.active_line_count == count_active(lines)
    &&& totals.total_utilized == sum_utilized(lines)
}

proof fn lemma_update_counts(lines: Seq<CreditLineData>, i: int, line: CreditLineData)
    requires
        0 <= i < lines.len(),
    ensures
        count_active(lines.update(i, line)) == count_active(lines) - active_weight(lines[i].status) + active_weight(line.status),
        sum_utilized(lines.update(i, line)) == sum_utilized(lines) - lines[i].utilized_amount + line.utilized_amount,
    decreases lines.len(),
{
    let updated = lines.update(i, line);
    if i == lines.len() - 1 {
        assert(updated.drop_last() =~= lines.drop_last());
    } else {
        lemma_update_counts(lines.drop_last(), i, line);
        assert(updated.drop_last() =~= lines.drop_last().update(i, line));
    }
}

/// Recording a write keeps the aggregates exact: when they describe the
/// lines before the write, they describe the lines after it, whether the
/// write changes the line at `i` or appends a newly opened line.
pub proof fn lemma_totals_track_lines(
    totals: ProtocolTotals,
    lines: Seq<CreditLineData>,
    i: int,
    line: CreditLineData,
)
    requires
        totals_match(totals, lines),
        0 <= i <= lines.len(),
        spec_record_line_change(totals, if i < lines.len() { Some(snapshot_of(lines[i])) } else { None }, line) is Ok,
    ensures
        totals_match(
            spec_record_line_change(totals, if i < lines.len() { Some(snapshot_of(lines[i])) } else { None }, line)->Ok_0,
            if i < lines.len() { lines.update(i, line) } else { lines.push(line) },
        ),
{
    if i < lines.len() {
        lemma_update_counts(lines, i, line);
    } else {
        assert(lines.push(line).drop_last() =~= lines);
    }
}

} // verus!
