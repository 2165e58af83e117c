//! Update supervisor, decision half.  The driver checks for and downloads
//! application updates in the background; this module holds the bookkeeping
//! of one cycle and turns downloaded chunks into the coarse percentages sent
//! over the event channel.  A deterministic simulation ramp stands in for the
//! real download when the simulation flag is set, bypassing the network.

use vstd::prelude::*;

use crate::types::AppEvent;

verus! {

/// Transient bookkeeping of one update cycle, reset when a cycle starts:
/// whether a newer version exists and how much of it has arrived.  A
/// `total_bytes` of zero means the size is not (or not yet) known.
pub struct UpdateState {
    pub available: bool,
    pub downloaded_bytes: u64,
    pub total_bytes: u64,
}

/// The percentage that `downloaded` of `total` bytes amounts to: zero while
/// the total is unknown (zero), otherwise capped at 100.
pub open spec fn spec_update_percent(downloaded: u64, total: u64) -> u8 {
    if total == 0 {
        0
    } else if downloaded * 100 / (total as int) > 100 {
        100
    } else {
        (downloaded * 100 / (total as int)) as u8
    }
}

/// Computes the download percentage, guarding the division against an unknown
/// (zero) total.
pub fn update_percent(downloaded: u64, total: u64) -> (p: u8)
    ensures
        p == spec_update_percent(downloaded, total),
{
    if total == 0 {
        return 0;
    }
    let q: u128 = (downloaded as u128) * 100 / (total as u128);
    if q > 100 {
        100
    } else {
        q as u8
    }
}

impl UpdateState {
    /// A fresh cycle: nothing known, nothing downloaded.
    pub fn new() -> (r: Self)
        ensures
            r.available == false,
            r.downloaded_bytes == 0,
            r.total_bytes == 0,
    {
        UpdateState { available: false, downloaded_bytes: 0, total_bytes: 0 }
    }

    /// Books one received chunk, mirroring the updater's chunk callback: the
    /// bytes accumulate (saturating), a reported content length is adopted,
    /// and the percentage to emit after this chunk is returned.
    pub fn apply_chunk(&mut self, chunk_length: u64, content_length: Option<u64>) -> (p: u8)
        ensures
            final(self).available == old(self).available,
            final(self).total_bytes == (match content_length {
                Some(t) => t,
                None => old(self).total_bytes,
            }),
            final(self).downloaded_bytes == (if old(self).downloaded_bytes + chunk_length
                <= u64::MAX {
                old(self).downloaded_bytes + chunk_length
            } else {
                u64::MAX as int
            }),
            p == spec_update_percent(final(self).downloaded_bytes, final(self).total_bytes),
    {
        if let Some(t) = content_length {
            self.total_bytes = t;
        }
        if chunk_length <= u64::MAX - self.downloaded_bytes {
            self.downloaded_bytes = self.downloaded_bytes + chunk_length;
        } else {
            self.downloaded_bytes = u64::MAX;
        }
        update_percent(self.downloaded_bytes, self.total_bytes)
    }
}

/// The deterministic test ramp of the simulation mode: progress events for 0,
/// 10, ..., 100 percent, in order, followed by the completion signal, with no
/// network access.
pub fn simulation_events() -> (r: Vec<AppEvent>)
    ensures
        r@.len() == 12,
        forall|i: int| 0 <= i < 11 ==> r@[i] == AppEvent::UpdateProgress((10 * i) as u8),
        r@[11] == AppEvent::UpdateFinished,
{
    let mut r: Vec<AppEvent> = Vec::new();
    let mut i: usize = 0;
    while i < 11
        invariant
            i <= 11,
            r@.len() == i,
            forall|k: int| 0 <= k < i ==> r@[k] == AppEvent::UpdateProgress((10 * k) as u8),
        decreases 11 - i,
    {
        r.push(AppEvent::UpdateProgress((i * 10) as u8));
        i += 1;
    }
    r.push(AppEvent::UpdateFinished);
    r
}

} // verus!
