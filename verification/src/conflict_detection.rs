//! Conflict checks before pulling and pushing, decided from the lock state
//! of the project.
use vstd::prelude::*;

verus! {

/// Recommended action after a conflict check.
#[derive(Debug, Clone, Copy, PartialEq, Eq, Structural)]
pub enum ConflictRecommendation {
    /// Safe to pull or push.
    Safe,
    /// Acquire the lock first.
    AcquireLock,
    /// Release the lock first.
    ReleaseLock,
    /// Diverged: manual intervention needed.
    ManualMergeRequired,
    /// Check the network connection.
    CheckNetwork,
}

/// Result of a conflict check.
#[derive(Debug, Clone)]
pub struct ConflictCheckResult {
    /// Whether there are potential conflicts.
    pub has_conflicts: bool,
    /// Local commits not in the remote.
    pub local_ahead: usize,
    /// Remote commits not in the local repository.
    pub remote_ahead: usize,
    /// Whether the project is locked by another user.
    pub locked_by_other: bool,
    /// Lock owner, if locked.
    pub lock_owner: Option<String>,
    /// Recommended action.
    pub recommendation: ConflictRecommendation,
}

/// Lock state of a project.
#[derive(Debug, Clone)]
pub struct LockStatus {
    pub is_locked: bool,
    pub locked_by_other: bool,
    pub owner: Option<String>,
}

/// A lock as the lock service reports it: its holder, and whether the
/// current user holds it.
#[derive(Debug, Clone)]
pub struct LockHolder {
    pub locked_by: String,
    pub owned_by_current_user: bool,
}

/// Detects and prevents conflicts.
pub struct ConflictDetector {}

impl ConflictDetector {
    /// A conflict detector.
    pub fn new() -> Self {
        ConflictDetector {}
    }

    /// The lock status given what the lock service answered: a lock, no
    /// lock, or an error (read as no lock).
    pub fn lock_status(lock: Option<LockHolder>) -> (s: LockStatus)
        ensures
            match lock {
                Some(l) => s.is_locked && s.locked_by_other == !l.owned_by_current_user
                    && s.owner == Some(l.locked_by),
                None => !s.is_locked && !s.locked_by_other && s.owner is None,
            },
    {
        match lock {
            Some(l) => LockStatus {
                is_locked: true,
                locked_by_other: !l.owned_by_current_user,
                owner: Some(l.locked_by),
            },
            None => LockStatus { is_locked: false, locked_by_other: false, owner: None },
        }
    }

    /// The check before pulling: pulling is safe unless another user holds
    /// the lock, in which case acquiring it is recommended. Divergence is not
    /// checked (no conflicts, nothing ahead).
    pub fn check_before_pull(&self, lock: LockStatus) -> (r: ConflictCheckResult)
        ensures
            !r.has_conflicts,
            r.local_ahead == 0,
            r.remote_ahead == 0,
            r.locked_by_other == lock.locked_by_other,
            r.lock_owner == lock.owner,
            r.recommendation == (if lock.is_locked && lock.locked_by_other {
                ConflictRecommendation::AcquireLock
            } else {
                ConflictRecommendation::Safe
            }),
    {
        let recommendation = if lock.is_locked && lock.locked_by_other {
            ConflictRecommendation::AcquireLock
        } else {
            ConflictRecommendation::Safe
        };
        ConflictCheckResult {
            has_conflicts: false,
            local_ahead: 0,
            remote_ahead: 0,
            locked_by_other: lock.locked_by_other,
            lock_owner: lock.owner,
            recommendation,
        }
    }

    /// The check before pushing: pushing is safe only while the current user
    /// holds the lock; otherwise acquiring it is recommended. Divergence is
    /// not checked (no conflicts, nothing ahead).
    pub fn check_before_push(&self, lock: LockStatus) -> (r: ConflictCheckResult)
        ensures
            !r.has_conflicts,
            r.local_ahead == 0,
            r.remote_ahead == 0,
            r.locked_by_other == lock.locked_by_other,
            r.lock_owner == lock.owner,
            r.recommendation == (if !lock.is_locked || lock.locked_by_other {
                ConflictRecommendation::AcquireLock
            } else {
                ConflictRecommendation::Safe
            }),
    {
        let recommendation = if !lock.is_locked || lock.locked_by_other {
            ConflictRecommendation::AcquireLock
        } else {
            ConflictRecommendation::Safe
        };
        ConflictCheckResult {
            has_conflicts: false,
            local_ahead: 0,
            remote_ahead: 0,
            locked_by_other: lock.locked_by_other,
            lock_owner: lock.owner,
            recommendation,
        }
    }
}

} // verus!
