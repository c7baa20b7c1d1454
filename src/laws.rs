//! Properties that relate the constructors and operations of a context.
use vstd::prelude::*;

use crate::context::{
    headless_request, negotiated_state, teardowns, windowed_request, Context, Negotiated,
};
use crate::format::{GlAttributes, PixelFormat, PixelFormatRequirements};
use crate::handle::{NativeHandle, PhysicalSize};

verus! {

/// A headless context asked for with a size is an off-screen buffer context;
/// one asked for without a size is surfaceless.
pub proof fn lemma_headless_kind(
    display: NativeHandle,
    pf_reqs: PixelFormatRequirements,
    gl_attr: GlAttributes<&Context>,
    size: Option<PhysicalSize>,
    n: Negotiated,
    c: Context,
)
    requires
        c.wf(),
        c.state() == negotiated_state(headless_request(display, pf_reqs, gl_attr, size), n),
    ensures
        size is Some ==> c is PBuffer,
        size is None ==> c is Surfaceless,
{
}

/// A context asked for on a window's native surface is always windowed.
pub proof fn lemma_windowed_kind(
    display: NativeHandle,
    native: NativeHandle,
    size: PhysicalSize,
    pf_reqs: PixelFormatRequirements,
    gl_attr: GlAttributes<&Context>,
    n: Negotiated,
    c: Context,
)
    requires
        c.wf(),
        c.state() == negotiated_state(windowed_request(display, native, size, pf_reqs, gl_attr), n),
    ensures
        c is Windowed,
{
}

/// Destroying each of a sequence of contexts releases as many native contexts
/// as there were contexts, each context's own handle once, and two contexts
/// with distinct handles never release the same one.
pub proof fn lemma_release_once_each(ctxs: Seq<Context>)
    ensures
        teardowns(ctxs).len() == ctxs.len(),
        forall|i: int|
            0 <= i < ctxs.len() ==> (#[trigger] teardowns(ctxs)[i]).context == ctxs[i].state().context,
        forall|i: int, j: int|
            0 <= i < ctxs.len() && 0 <= j < ctxs.len() && ctxs[i].state().context
                != ctxs[j].state().context ==> (#[trigger] teardowns(ctxs)[i]).context != (
            #[trigger] teardowns(ctxs)[j]).context,
{
}

/// Two reads of a context's pixel format with no change in between agree.
pub proof fn lemma_pixel_format_stable(c: Context, first: PixelFormat, second: PixelFormat)
    requires
        first == c.state().pixel_format,
        second == c.state().pixel_format,
    ensures
        first == second,
{
}

/// At most one context is current on a thread: whatever native context the
/// platform reports current there, two contexts with distinct native
/// contexts are never both reported current.
pub proof fn lemma_one_current_per_thread(
    a: Context,
    b: Context,
    thread_current: Option<NativeHandle>,
)
    requires
        a.state().context != b.state().context,
    ensures
        !(thread_current == Some(a.state().context) && thread_current == Some(b.state().context)),
{
}

} // verus!
