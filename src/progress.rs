use vstd::prelude::*;

verus! {

/// A point-in-time reading of how far an operation has come: bytes for a
/// copy, items for a move or a delete.
#[derive(Clone, Copy, Debug, PartialEq, Eq)]
pub struct ProgressInfo {
    pub bytes_finished: u64,
    pub total_bytes: u64,
}

impl ProgressInfo {
    pub fn new(bytes_finished: u64, total_bytes: u64) -> (r: ProgressInfo)
        ensures
            r.bytes_finished == bytes_finished,
            r.total_bytes == total_bytes,
    {
        ProgressInfo { bytes_finished, total_bytes }
    }

    /// True once every unit of work has been accounted for.
    pub fn is_complete(&self) -> (r: bool)
        ensures
            r == (self.bytes_finished >= self.total_bytes),
    {
        self.bytes_finished >= self.total_bytes
    }
}

/// The report after item `i` of `n` is finished.
pub open spec fn item_report(i: int, n: int) -> ProgressInfo {
    ProgressInfo { bytes_finished: (i + 1) as u64, total_bytes: n as u64 }
}

/// A run over `n` items that reported once per finished item reported
/// finished counts that never go down and end at `n`.
pub proof fn lemma_item_reports_monotone(reports: Seq<ProgressInfo>, n: int)
    requires
        0 <= n <= u64::MAX,
        reports.len() == n,
        forall|i: int| 0 <= i < n ==> #[trigger] reports[i] == item_report(i, n),
    ensures
        forall|i: int, j: int| 0 <= i <= j < n
            ==> #[trigger] reports[i].bytes_finished <= #[trigger] reports[j].bytes_finished,
        forall|i: int| 0 <= i < n ==> #[trigger] reports[i].total_bytes == n,
        n > 0 ==> reports.last().bytes_finished == n,
{
    assert forall|i: int, j: int| 0 <= i <= j < n
        implies #[trigger] reports[i].bytes_finished <= #[trigger] reports[j].bytes_finished by {
        assert(reports[i] == item_report(i, n));
        assert(reports[j] == item_report(j, n));
    }
    assert forall|i: int| 0 <= i < n implies #[trigger] reports[i].total_bytes == n by {
        assert(reports[i] == item_report(i, n));
    }
    if n > 0 {
        assert(reports[n - 1] == item_report(n - 1, n));
    }
}

} // verus!
