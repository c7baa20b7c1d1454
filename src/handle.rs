//! Opaque native handles and physical sizes.
use vstd::prelude::*;

verus! {

/// An opaque, non-null native handle (a display connection, a surface, a
/// context or a resolved symbol). It can only be made from a non-zero
/// address, and offers no arithmetic.
#[derive(Clone, Copy, Debug, PartialEq, Eq, Structural, Hash)]
pub struct NativeHandle {
    addr: usize,
}

impl View for NativeHandle {
    type V = usize;

    closed spec fn view(&self) -> usize {
        self.addr
    }
}

impl NativeHandle {
    #[verifier::type_invariant]
    spec fn non_null(self) -> bool {
        self.addr != 0
    }

    /// Wraps a raw address; the null address gives `None`.
    pub fn from_addr(addr: usize) -> (r: Option<NativeHandle>)
        ensures
            r is None <==> addr == 0,
            r matches Some(h) ==> h@ == addr,
    {
        if addr == 0 {
            None
        } else {
            Some(NativeHandle { addr })
        }
    }

    /// The address this handle stands for; never null.
    pub fn addr(&self) -> (r: usize)
        ensures
            r == self@,
            r != 0,
    {
        proof {
            use_type_invariant(self);
        }
        self.addr
    }
}

/// A size in physical pixels.
#[derive(Clone, Copy, Debug, PartialEq, Eq, Hash)]
pub struct PhysicalSize {
    pub width: u32,
    pub height: u32,
}

impl PhysicalSize {
    pub fn new(width: u32, height: u32) -> (r: PhysicalSize)
        ensures
            r.width == width,
            r.height == height,
    {
        PhysicalSize { width, height }
    }
}

} // verus!
