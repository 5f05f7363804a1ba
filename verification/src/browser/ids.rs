//! Typed ids and their allocation.

use vstd::prelude::*;

use crate::browser::error::{BrowserError, ErrorCode, ErrorView};

verus! {

/// Names a browsing context.
#[derive(Clone, Copy, Debug, PartialEq, Eq, PartialOrd, Ord, Hash, Structural)]
pub struct BrowsingContextId {
    pub raw: u64,
}

/// Names the main frame of a context.
#[derive(Clone, Copy, Debug, PartialEq, Eq, PartialOrd, Ord, Hash, Structural)]
pub struct FrameId {
    pub raw: u64,
}

/// Names a navigation.
#[derive(Clone, Copy, Debug, PartialEq, Eq, PartialOrd, Ord, Hash, Structural)]
pub struct NavigationId {
    pub raw: u64,
}

/// Names a document.
#[derive(Clone, Copy, Debug, PartialEq, Eq, PartialOrd, Ord, Hash, Structural)]
pub struct DocumentId {
    pub raw: u64,
}

/// Names a network request.
#[derive(Clone, Copy, Debug, PartialEq, Eq, PartialOrd, Ord, Hash, Structural)]
pub struct RequestId {
    pub raw: u64,
}

/// Names a script runtime.
#[derive(Clone, Copy, Debug, PartialEq, Eq, PartialOrd, Ord, Hash, Structural)]
pub struct RuntimeContextId {
    pub raw: u64,
}

/// The next id of each kind; 0 stands for a kind that has none left.
#[derive(Clone, Copy, Debug, PartialEq, Eq, Structural)]
pub struct IdAllocator {
    pub next_context: u64,
    pub next_frame: u64,
    pub next_navigation: u64,
    pub next_document: u64,
    pub next_request: u64,
    pub next_runtime: u64,
}

/// The counter after the id `raw` was handed out.
pub open spec fn counter_after(raw: u64) -> u64 {
    if raw == 0 || raw == u64::MAX {
        0
    } else {
        (raw + 1) as u64
    }
}

/// Hands out the id that `counter` stands at.
///
/// The ids of one counter are consecutive and never 0. Once the largest is
/// out, every later call fails.
pub fn next_typed_id(counter: &mut u64) -> (r: Result<u64, BrowserError>)
    ensures
        *final(counter) == counter_after(*old(counter)),
        *old(counter) == 0 ==> r is Err && r->Err_0@ == ErrorView::exhausted_ids(),
        *old(counter) != 0 ==> r == Ok::<u64, BrowserError>(*old(counter)),
{
    let raw: u64 = *counter;
    if raw == 0 {
        return Err(BrowserError::new(ErrorCode::IdExhausted, "browser id space is exhausted"));
    }
    *counter = if raw == u64::MAX { 0 } else { raw + 1 };
    Ok(raw)
}

/// Hands out an id from a counter that never wraps: the counter keeps its
/// value once it can grow no more.
pub fn next_process_id(counter: &mut u64) -> (r: Result<u64, BrowserError>)
    ensures
        *old(counter) == u64::MAX ==> *final(counter) == *old(counter) && r is Err && r->Err_0@
            == ErrorView::new(ErrorCode::IdExhausted, "process browser id space is exhausted"@),
        *old(counter) != u64::MAX ==> *final(counter) == *old(counter) + 1,
        0 < *old(counter) < u64::MAX ==> r == Ok::<u64, BrowserError>(*old(counter)),
        *old(counter) == 0 ==> r is Err && r->Err_0@ == ErrorView::new(
            ErrorCode::IdExhausted,
            "process browser id allocation produced zero"@,
        ),
{
    let raw: u64 = *counter;
    if raw == u64::MAX {
        return Err(
            BrowserError::new(ErrorCode::IdExhausted, "process browser id space is exhausted"),
        );
    }
    *counter = raw + 1;
    if raw == 0 {
        return Err(
            BrowserError::new(
                ErrorCode::IdExhausted,
                "process browser id allocation produced zero",
            ),
        );
    }
    Ok(raw)
}

impl IdAllocator {
    /// The allocator before any id is out.
    pub open spec fn fresh() -> IdAllocator {
        IdAllocator {
            next_context: 1,
            next_frame: 1,
            next_navigation: 1,
            next_document: 1,
            next_request: 1,
            next_runtime: 1,
        }
    }

    /// The allocator before any id is out: every kind starts at 1.
    pub fn new() -> (r: IdAllocator)
        ensures
            r == IdAllocator::fresh(),
    {
        IdAllocator {
            next_context: 1,
            next_frame: 1,
            next_navigation: 1,
            next_document: 1,
            next_request: 1,
            next_runtime: 1,
        }
    }

    /// The next context id.
    pub fn context(&mut self) -> (r: Result<BrowsingContextId, BrowserError>)
        ensures
            *final(self) == (IdAllocator {
                next_context: counter_after(old(self).next_context),
                ..*old(self)
            }),
            ErrorView::outcome(r) == if old(self).next_context == 0 {
                Err(ErrorView::exhausted_ids())
            } else {
                Ok(BrowsingContextId { raw: old(self).next_context })
            },
    {
        match next_typed_id(&mut self.next_context) {
            Ok(raw) => Ok(BrowsingContextId { raw }),
            Err(e) => Err(e),
        }
    }

    /// The next frame id.
    pub fn frame(&mut self) -> (r: Result<FrameId, BrowserError>)
        ensures
            *final(self) == (IdAllocator {
                next_frame: counter_after(old(self).next_frame),
                ..*old(self)
            }),
            ErrorView::outcome(r) == if old(self).next_frame == 0 {
                Err(ErrorView::exhausted_ids())
            } else {
                Ok(FrameId { raw: old(self).next_frame })
            },
    {
        match next_typed_id(&mut self.next_frame) {
            Ok(raw) => Ok(FrameId { raw }),
            Err(e) => Err(e),
        }
    }

    /// The next navigation id.
    pub fn navigation(&mut self) -> (r: Result<NavigationId, BrowserError>)
        ensures
            *final(self) == (IdAllocator {
                next_navigation: counter_after(old(self).next_navigation),
                ..*old(self)
            }),
            ErrorView::outcome(r) == if old(self).next_navigation == 0 {
                Err(ErrorView::exhausted_ids())
            } else {
                Ok(NavigationId { raw: old(self).next_navigation })
            },
    {
        match next_typed_id(&mut self.next_navigation) {
            Ok(raw) => Ok(NavigationId { raw }),
            Err(e) => Err(e),
        }
    }

    /// The next document id.
    pub fn document(&mut self) -> (r: Result<DocumentId, BrowserError>)
        ensures
            *final(self) == (IdAllocator {
                next_document: counter_after(old(self).next_document),
                ..*old(self)
            }),
            ErrorView::outcome(r) == if old(self).next_document == 0 {
                Err(ErrorView::exhausted_ids())
            } else {
                Ok(DocumentId { raw: old(self).next_document })
            },
    {
        match next_typed_id(&mut self.next_document) {
            Ok(raw) => Ok(DocumentId { raw }),
            Err(e) => Err(e),
        }
    }

    /// The next request id.
    pub fn request(&mut self) -> (r: Result<RequestId, BrowserError>)
        ensures
            *final(self) == (IdAllocator {
                next_request: counter_after(old(self).next_request),
                ..*old(self)
            }),
            ErrorView::outcome(r) == if old(self).next_request == 0 {
                Err(ErrorView::exhausted_ids())
            } else {
                Ok(RequestId { raw: old(self).next_request })
            },
    {
        match next_typed_id(&mut self.next_request) {
            Ok(raw) => Ok(RequestId { raw }),
            Err(e) => Err(e),
        }
    }

    /// The next runtime id.
    pub fn runtime(&mut self) -> (r: Result<RuntimeContextId, BrowserError>)
        ensures
            *final(self) == (IdAllocator {
                next_runtime: counter_after(old(self).next_runtime),
                ..*old(self)
            }),
            ErrorView::outcome(r) == if old(self).next_runtime == 0 {
                Err(ErrorView::exhausted_ids())
            } else {
                Ok(RuntimeContextId { raw: old(self).next_runtime })
            },
    {
        match next_typed_id(&mut self.next_runtime) {
            Ok(raw) => Ok(RuntimeContextId { raw }),
            Err(e) => Err(e),
        }
    }
}

/// The counter after `n` ids were handed out.
pub open spec fn counter_after_many(counter: u64, n: nat) -> u64
    decreases n,
{
    if n == 0 {
        counter
    } else {
        counter_after(counter_after_many(counter, (n - 1) as nat))
    }
}

/// The ids of one counter never repeat: after any number of further
/// allocations the counter stands at 0, where allocation fails, or at an id
/// larger than the one handed out.
pub proof fn ids_never_repeat(counter: u64, n: nat)
    requires
        counter != 0,
        n > 0,
    ensures
        counter_after_many(counter, n) == 0 || counter_after_many(counter, n) > counter,
    decreases n,
{
    if n > 1 {
        ids_never_repeat(counter, (n - 1) as nat);
    } else {
        assert(counter_after_many(counter, 0) == counter);
    }
}

/// A counter that ran out stays out.
pub proof fn exhausted_counters_stay_exhausted(n: nat)
    ensures
        counter_after_many(0, n) == 0,
    decreases n,
{
    if n > 0 {
        exhausted_counters_stay_exhausted((n - 1) as nat);
    }
}

} // verus!
