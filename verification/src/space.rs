//! The space preflight: what an ingestion run needs from the destination
//! volumes, and whether they have room. All comparisons are strict: a volume
//! with exactly as many free bytes as the run requires does not fit.

use vstd::prelude::*;

verus! {

/// What the backup volume reports.
#[derive(Debug, Clone, Copy, PartialEq, Eq, Structural)]
pub struct BackupNeeds {
    /// Free bytes on the backup volume.
    pub free: u64,
    /// Whether the backup lies on the same physical volume as the target.
    pub same_disk: bool,
}

/// A read-only snapshot of what a run requires and what is available.
#[derive(Debug, Clone, Copy, PartialEq, Eq, Structural)]
pub struct Needs {
    /// Bytes required: the sizes of all filter-matching files, summed
    /// (saturating at the largest representable value).
    pub total: u64,
    /// Free bytes on the target volume.
    pub free: u64,
    /// The backup volume's report, when a backup is configured.
    pub backup: Option<BackupNeeds>,
}

/// Whether the volumes fit `total` required bytes plus `extra` spare bytes —
/// `extra` raises the requirement. With no backup, the target needs strictly
/// more free bytes than the raised requirement; with a backup on the same
/// volume, strictly more than twice the total plus the spare (both passes
/// draw from one pool); with a backup on another volume, each volume
/// independently needs strictly more than the raised requirement.
pub open spec fn fits_v(total: int, free: int, backup: Option<BackupNeeds>, extra: int) -> bool {
    match backup {
        None => free > total + extra,
        Some(b) => {
            if b.same_disk {
                free > 2 * total + extra
            } else {
                free > total + extra && b.free > total + extra
            }
        },
    }
}

impl Needs {
    /// Whether the volumes fit the requirement raised by `extra` spare
    /// bytes.
    pub fn fits_with(&self, extra: u64) -> (r: bool)
        ensures
            r == fits_v(self.total as int, self.free as int, self.backup, extra as int),
    {
        let need = self.total as u128 + extra as u128;
        match self.backup {
            None => self.free as u128 > need,
            Some(b) => {
                if b.same_disk {
                    self.free as u128 > 2 * (self.total as u128) + extra as u128
                } else {
                    self.free as u128 > need && b.free as u128 > need
                }
            },
        }
    }

    /// Whether the volumes fit the requirement exactly as stated.
    pub fn fits(&self) -> (r: bool)
        ensures
            r == fits_v(self.total as int, self.free as int, self.backup, 0),
    {
        self.fits_with(0)
    }
}

/// With no backup, free space exactly equal to the requirement does not fit:
/// the comparison is strict.
pub proof fn lemma_fits_requires_strict_surplus(n: Needs, extra: u64)
    requires
        n.backup.is_none(),
        n.free as int == n.total as int + extra as int,
    ensures
        !fits_v(n.total as int, n.free as int, n.backup, extra as int),
{
}

/// With a backup on the same volume, fitting means strictly more free bytes
/// than twice the requirement plus the spare.
pub proof fn lemma_fits_same_disk_doubles(n: Needs, extra: u64)
    requires
        n.backup matches Some(b) && b.same_disk,
    ensures
        fits_v(n.total as int, n.free as int, n.backup, extra as int) == (n.free as int > 2 * (
        n.total as int) + extra as int),
{
}

} // verus!
