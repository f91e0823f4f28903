use vstd::prelude::*;

verus! {

/// The raw descriptor value that stands for "no fence": already signaled, or not supported.
pub const NO_FENCE: i32 = -1;

/// An owned synchronization fence. A value of this type is the single owner of its
/// descriptor: handing it on moves it. It cannot close the descriptor itself; dropping
/// it does not close it. `into_raw` gives the descriptor back to the native side, which
/// closes it exactly once.
#[derive(Debug)]
pub struct Fence {
    fd: i32,
}

impl Fence {
    pub closed spec fn raw_spec(&self) -> i32 {
        self.fd
    }

    /// A fence never holds the "no fence" sentinel.
    pub closed spec fn wf(&self) -> bool {
        self.fd != NO_FENCE
    }

    /// Takes ownership of a raw descriptor coming from the native boundary; the sentinel
    /// becomes `None`.
    pub fn from_raw(fd: i32) -> (r: Option<Fence>)
        ensures
            r is None <==> fd == NO_FENCE,
            r matches Some(f) ==> f.raw_spec() == fd && f.wf(),
    {
        if fd == NO_FENCE {
            None
        } else {
            Some(Fence { fd })
        }
    }

    /// The descriptor, still owned by this fence.
    pub fn raw(&self) -> (r: i32)
        ensures
            r == self.raw_spec(),
    {
        self.fd
    }

    /// Gives up ownership of the descriptor, which the caller must now close or hand on.
    pub fn into_raw(self) -> (r: i32)
        ensures
            r == self.raw_spec(),
    {
        self.fd
    }
}

/// Turns an optional fence into the raw value the native boundary takes, handing over
/// ownership: `None` becomes the sentinel.
pub fn fence_into_raw(f: Option<Fence>) -> (r: i32)
    requires
        f matches Some(g) ==> g.wf(),
    ensures
        r == match f {
            Some(g) => g.raw_spec(),
            None => NO_FENCE,
        },
        r == NO_FENCE <==> f is None,
{
    match f {
        Some(g) => g.into_raw(),
        None => NO_FENCE,
    }
}

} // verus!
