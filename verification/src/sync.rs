//! Change detection for the editing client: a watermark holding the last
//! entry count the client has seen. The full-page view resets it; the change
//! probe compares it with the current count and fires exactly once per count
//! change, resetting itself as it fires.
//!
//! The probe is a coarse heuristic by design: it detects changes of the
//! entry count only, never value or metadata changes to existing keys.

use vstd::prelude::*;

use crate::registry::SetError;

verus! {

/// What the probe answers when the watermark is `mark` and the registry now
/// holds `size` entries.
pub open spec fn spec_probe_signal(mark: usize, size: usize) -> bool {
    size != mark
}

/// The watermark after a probe at entry count `size`.
pub open spec fn spec_probe_mark(mark: usize, size: usize) -> usize {
    size
}

/// The last entry count the editing client has observed, either through the
/// full-page view or through a probe that fired.
pub struct SyncState {
    watermark: usize,
}

impl SyncState {
    /// The watermark: the last observed entry count.
    pub closed spec fn mark(self) -> usize {
        self.watermark
    }

    /// A fresh probe state that has observed nothing yet.
    pub fn new() -> (s: SyncState)
        ensures
            s.mark() == 0,
    {
        SyncState { watermark: 0 }
    }

    /// Records that the client has just been served the full view of a
    /// registry with `size` entries.
    pub fn note_full_view(&mut self, size: usize)
        ensures
            final(self).mark() == size,
    {
        self.watermark = size;
    }

    /// Whether the entry count has changed since it was last observed; a
    /// firing probe resets the watermark, so the same change is signalled
    /// only once.
    pub fn should_refresh(&mut self, size: usize) -> (refresh: bool)
        ensures
            refresh == spec_probe_signal(old(self).mark(), size),
            final(self).mark() == spec_probe_mark(old(self).mark(), size),
    {
        if self.watermark == size {
            false
        } else {
            self.watermark = size;
            true
        }
    }
}

/// The change probe's wire body: empty when nothing changed, the word the
/// client reloads on when the entry count moved.
pub fn refresh_body(refresh: bool) -> (r: &'static str)
    ensures
        refresh ==> r@ == ("refresh")@,
        !refresh ==> r@ == ("")@,
{
    if refresh {
        "refresh"
    } else {
        ""
    }
}

/// The response status an update outcome maps to: success answers 200, an
/// unknown key 404, a value of the wrong kind 400.
pub fn update_status(outcome: &Result<(), SetError>) -> (code: u16)
    ensures
        code == 200 <==> outcome is Ok,
        code == 404 <==> outcome == Err::<(), SetError>(SetError::NotFound),
        code == 400 <==> outcome == Err::<(), SetError>(SetError::TypeMismatch),
{
    match outcome {
        Ok(()) => 200,
        Err(SetError::NotFound) => 404,
        Err(SetError::TypeMismatch) => 400,
    }
}

/// Law: with the watermark reset at entry count `n`, the probe stays quiet
/// and keeps its watermark while the count stays `n`; once the count becomes
/// `m`, the probe fires, and because firing resets the watermark to `m`, an
/// immediately repeated probe at count `m` is quiet again.
pub proof fn lemma_probe_fires_once(n: usize, m: usize)
    requires
        m != n,
    ensures
        !spec_probe_signal(n, n),
        spec_probe_mark(n, n) == n,
        spec_probe_signal(n, m),
        !spec_probe_signal(spec_probe_mark(n, m), m),
{
}

} // verus!
