//! The rendering context: a tagged union over the three kinds of drawing
//! target, the request put to the platform to create one, and the operations
//! on a live context.
//!
//! Creation runs in two steps. A constructor checks the native handles it was
//! given and returns a [`Negotiation`]: what to ask of the platform. The
//! caller negotiates natively and hands the outcome to
//! [`Negotiation::finish`], which builds the context of the matching kind.
//! Operations that need the platform (binding, presenting, symbol lookup)
//! likewise take the platform's outcome and return the result and new state.
use vstd::prelude::*;
use vstd::string::StringSliceAdditionalSpecFns;

use crate::error::{ContextError, CreationError};
use crate::format::{Api, GlAttributes, GlRequest, PixelFormat, PixelFormatRequirements};
use crate::handle::{NativeHandle, PhysicalSize};

verus! {

/// The drawing target of a context.
#[derive(Clone, Copy, Debug, PartialEq, Eq)]
pub enum Surface {
    /// A window's native surface, with the window's size in physical pixels.
    Window { native: NativeHandle, size: PhysicalSize },
    /// An off-screen buffer of the given size.
    PBuffer(PhysicalSize),
    /// No drawing target at all.
    Surfaceless,
}

/// What the platform hands back from a successful negotiation.
#[derive(Clone, Copy, Debug, PartialEq, Eq)]
pub struct Negotiated {
    /// The native context.
    pub context: NativeHandle,
    /// The platform surface created for the drawing target, if any.
    pub surface: Option<NativeHandle>,
    pub api: Api,
    pub pixel_format: PixelFormat,
}

/// What to ask of the platform to create a context: the display, the drawing
/// target, the format requirements and the attributes, with a shared context
/// already resolved to its native handle.
#[derive(Clone, Copy, Debug, PartialEq, Eq)]
pub struct Negotiation {
    pub display: NativeHandle,
    pub surface: Surface,
    pub pf_reqs: PixelFormatRequirements,
    pub gl_attr: GlAttributes<NativeHandle>,
}

/// What the platform needs to bind a context to a thread.
#[derive(Clone, Copy, Debug, PartialEq, Eq)]
pub struct Binding {
    pub display: NativeHandle,
    pub surface: Option<NativeHandle>,
    pub context: NativeHandle,
}

/// The native resources a destroyed context leaves to release, once each.
#[derive(Clone, Copy, Debug, PartialEq, Eq)]
pub struct Teardown {
    pub display: NativeHandle,
    pub context: NativeHandle,
    pub surface: Option<NativeHandle>,
}

/// The abstract state of a live native context.
pub ghost struct ContextView {
    pub display: NativeHandle,
    pub context: NativeHandle,
    pub egl_surface: Option<NativeHandle>,
    pub surface: Surface,
    pub api: Api,
    pub pixel_format: PixelFormat,
}

/// A live native context, owned by exactly one [`Context`]. Only
/// [`Negotiation::finish`] makes one.
#[derive(Debug)]
pub struct EglContext {
    display: NativeHandle,
    context: NativeHandle,
    egl_surface: Option<NativeHandle>,
    surface: Surface,
    api: Api,
    pixel_format: PixelFormat,
}

impl View for EglContext {
    type V = ContextView;

    closed spec fn view(&self) -> ContextView {
        ContextView {
            display: self.display,
            context: self.context,
            egl_surface: self.egl_surface,
            surface: self.surface,
            api: self.api,
            pixel_format: self.pixel_format,
        }
    }
}

/// A rendering context, tagged with the kind of drawing target it was
/// created for.
#[derive(Debug)]
pub enum Context {
    Windowed(EglContext),
    PBuffer(EglContext),
    Surfaceless(EglContext),
}

/// The drawing target of a headless context: an off-screen buffer when a
/// size is given, none otherwise.
pub open spec fn headless_surface(size: Option<PhysicalSize>) -> Surface {
    match size {
        Some(s) => Surface::PBuffer(s),
        None => Surface::Surfaceless,
    }
}

/// The attributes with a shared context replaced by its native handle.
pub open spec fn resolve_sharing(a: GlAttributes<&Context>) -> GlAttributes<NativeHandle> {
    GlAttributes {
        sharing: match a.sharing {
            Some(c) => Some(c.state().context),
            None => None,
        },
        version: a.version,
        profile: a.profile,
        debug: a.debug,
        robustness: a.robustness,
        vsync: a.vsync,
    }
}

/// The request for a headless context.
pub open spec fn headless_request(
    display: NativeHandle,
    pf_reqs: PixelFormatRequirements,
    gl_attr: GlAttributes<&Context>,
    size: Option<PhysicalSize>,
) -> Negotiation {
    Negotiation {
        display,
        surface: headless_surface(size),
        pf_reqs,
        gl_attr: resolve_sharing(gl_attr),
    }
}

/// The request for a context that draws to a window's native surface.
pub open spec fn windowed_request(
    display: NativeHandle,
    native: NativeHandle,
    size: PhysicalSize,
    pf_reqs: PixelFormatRequirements,
    gl_attr: GlAttributes<&Context>,
) -> Negotiation {
    Negotiation {
        display,
        surface: Surface::Window { native, size },
        pf_reqs,
        gl_attr: resolve_sharing(gl_attr),
    }
}

/// The state of a context freshly built from a request and the platform's
/// answer.
pub open spec fn negotiated_state(req: Negotiation, n: Negotiated) -> ContextView {
    ContextView {
        display: req.display,
        context: n.context,
        egl_surface: n.surface,
        surface: req.surface,
        api: n.api,
        pixel_format: n.pixel_format,
    }
}

/// Whether a negotiated API is one the version request allows.
pub open spec fn api_fits(version: GlRequest, api: Api) -> bool {
    match version {
        GlRequest::Latest => true,
        GlRequest::Specific(a, _) => api == a,
        GlRequest::GlThenGles { .. } => api == Api::OpenGl || api == Api::OpenGlEs,
    }
}

/// Whether the platform's answer has a surface exactly when the request has
/// a drawing target.
pub open spec fn surface_fits(surface: Surface, n: Negotiated) -> bool {
    (surface is Surfaceless) <==> n.surface is None
}

/// What releasing a context frees.
pub open spec fn teardown_of(c: Context) -> Teardown {
    Teardown { display: c.state().display, context: c.state().context, surface: c.state().egl_surface }
}

/// What destroying each of a sequence of contexts frees, in order.
pub open spec fn teardowns(ctxs: Seq<Context>) -> Seq<Teardown> {
    ctxs.map_values(|c: Context| teardown_of(c))
}

/// Whether a byte string holds a NUL byte.
pub open spec fn has_nul(b: Seq<u8>) -> bool {
    exists|i: int| 0 <= i < b.len() && b[i] == 0
}

/// Whether `r` is a `NotSupported` error with the message `msg`.
pub open spec fn not_supported<T>(r: Result<T, CreationError>, msg: Seq<char>) -> bool {
    r matches Err(CreationError::NotSupported(m)) && m@ == msg
}

/// Whether `r` is an `OsError` with the message `msg`.
pub open spec fn os_error<T>(r: Result<T, CreationError>, msg: Seq<char>) -> bool {
    r matches Err(CreationError::OsError(m)) && m@ == msg
}

/// Whether two contexts are of the same kind.
pub open spec fn same_kind(a: Context, b: Context) -> bool {
    &&& (a is Windowed <==> b is Windowed)
    &&& (a is PBuffer <==> b is PBuffer)
    &&& (a is Surfaceless <==> b is Surfaceless)
}

fn contains_nul(b: &[u8]) -> (r: bool)
    ensures
        r == has_nul(b@),
{
    let mut i: usize = 0;
    while i < b.len()
        invariant
            0 <= i <= b@.len(),
            forall|j: int| 0 <= j < i ==> b@[j] != 0,
        decreases b@.len() - i,
    {
        if b[i] == 0 {
            return true;
        }
        i = i + 1;
    }
    false
}

/// The NUL-terminated form of a GL symbol name, to hand to the platform's
/// symbol lookup; `None` when the name itself holds a NUL byte.
pub fn proc_symbol(addr: &str) -> (r: Option<Vec<u8>>)
    ensures
        r is None <==> has_nul(addr.spec_bytes()),
        r matches Some(v) ==> v@ == addr.spec_bytes().push(0u8),
{
    let b = addr.as_bytes();
    if contains_nul(b) {
        return None;
    }
    let mut v: Vec<u8> = Vec::new();
    let mut i: usize = 0;
    while i < b.len()
        invariant
            0 <= i <= b@.len(),
            b@ == addr.spec_bytes(),
            v@ == b@.subrange(0, i as int),
        decreases b@.len() - i,
    {
        v.push(b[i]);
        i = i + 1;
    }
    v.push(0u8);
    assert(b@.subrange(0, b@.len() as int) == b@);
    Some(v)
}

impl Negotiation {
    /// Builds the context from the platform's answer to this request. Its kind
    /// follows the requested drawing target. A failed negotiation passes its
    /// error on and builds nothing. An answer with an API the version request
    /// does not allow gives `OpenGlVersionNotSupported`. An answer whose
    /// surface does not match the drawing target (a surface for a surfaceless
    /// request, or none for the others) gives an `OsError`.
    pub fn finish(self, outcome: Result<Negotiated, CreationError>) -> (r: Result<Context, CreationError>)
        ensures
            outcome matches Err(e) ==> r == Err::<Context, CreationError>(e),
            outcome matches Ok(n) && !api_fits(self.gl_attr.version, n.api) ==> r == Err::<
                Context,
                CreationError,
            >(CreationError::OpenGlVersionNotSupported),
            outcome matches Ok(n) && api_fits(self.gl_attr.version, n.api) && !surface_fits(
                self.surface,
                n,
            ) ==> os_error(r, "platform surface does not match the drawing target"@),
            outcome is Ok && api_fits(self.gl_attr.version, outcome->Ok_0.api) && surface_fits(
                self.surface,
                outcome->Ok_0,
            ) ==> (r matches Ok(c) && c.wf() && c.state() == negotiated_state(self, outcome->Ok_0)),
    {
        let n = match outcome {
            Err(e) => {
                return Err(e);
            },
            Ok(n) => n,
        };
        let api_ok = match self.gl_attr.version {
            GlRequest::Latest => true,
            GlRequest::Specific(a, _) => n.api == a,
            GlRequest::GlThenGles { .. } => n.api == Api::OpenGl || n.api == Api::OpenGlEs,
        };
        if !api_ok {
            return Err(CreationError::OpenGlVersionNotSupported);
        }
        let surfaceless = match self.surface {
            Surface::Surfaceless => true,
            _ => false,
        };
        if surfaceless != n.surface.is_none() {
            return Err(
                CreationError::OsError(
                    String::from_str("platform surface does not match the drawing target"),
                ),
            );
        }
        let inner = EglContext {
            display: self.display,
            context: n.context,
            egl_surface: n.surface,
            surface: self.surface,
            api: n.api,
            pixel_format: n.pixel_format,
        };
        match self.surface {
            Surface::Window { .. } => Ok(Context::Windowed(inner)),
            Surface::PBuffer(_) => Ok(Context::PBuffer(inner)),
            Surface::Surfaceless => Ok(Context::Surfaceless(inner)),
        }
    }
}

impl Context {
    /// The state of the native context this one wraps.
    pub open spec fn state(self) -> ContextView {
        match self {
            Context::Windowed(c) => c@,
            Context::PBuffer(c) => c@,
            Context::Surfaceless(c) => c@,
        }
    }

    /// The kind of a context matches the drawing target it was created for,
    /// and it has a platform surface exactly when it has a drawing target.
    pub open spec fn wf(self) -> bool {
        &&& (self is Windowed <==> self.state().surface is Window)
        &&& (self is PBuffer <==> self.state().surface is PBuffer)
        &&& (self is Surfaceless <==> self.state().surface is Surfaceless)
        &&& (self is Surfaceless <==> self.state().egl_surface is None)
    }

    /// The native context this one wraps, whatever its kind.
    pub fn inner(&self) -> (r: &EglContext)
        ensures
            r@ == self.state(),
    {
        match self {
            Context::Windowed(c) => c,
            Context::PBuffer(c) => c,
            Context::Surfaceless(c) => c,
        }
    }

    /// Asks for a headless context on `display`: drawing to an off-screen
    /// buffer of `size` when one is given, to no surface otherwise. Without a
    /// native display nothing is asked and the result is `NotSupported`.
    ///
    /// A context named in `gl_attr.sharing` must outlive the one created.
    pub fn new_headless(
        display: Option<NativeHandle>,
        pf_reqs: &PixelFormatRequirements,
        gl_attr: &GlAttributes<&Context>,
        size: Option<PhysicalSize>,
    ) -> (r: Result<Negotiation, CreationError>)
        ensures
            display is None ==> not_supported(r, "native display not found"@),
            display matches Some(d) ==> r == Ok::<Negotiation, CreationError>(
                headless_request(d, *pf_reqs, *gl_attr, size),
            ),
    {
        let display = match display {
            Some(d) => d,
            None => {
                return Err(CreationError::NotSupported(String::from_str("native display not found")));
            },
        };
        let surface = match size {
            Some(s) => Surface::PBuffer(s),
            None => Surface::Surfaceless,
        };
        Ok(Negotiation { display, surface, pf_reqs: *pf_reqs, gl_attr: share_by_handle(gl_attr) })
    }

    /// Asks for a context that draws to a window, from the window's native
    /// display and surface and its size in physical pixels. A missing display
    /// or surface gives `NotSupported`, and nothing is asked.
    ///
    /// A context named in `gl_attr.sharing` must outlive the one created.
    pub fn new(
        display: Option<NativeHandle>,
        surface: Option<NativeHandle>,
        size: PhysicalSize,
        pf_reqs: &PixelFormatRequirements,
        gl_attr: &GlAttributes<&Context>,
    ) -> (r: Result<Negotiation, CreationError>)
        ensures
            display is None ==> not_supported(r, "native display not found"@),
            display is Some && surface is None ==> not_supported(r, "Gbm not found"@),
            (display, surface) matches (Some(d), Some(s)) ==> r == Ok::<
                Negotiation,
                CreationError,
            >(windowed_request(d, s, size, *pf_reqs, *gl_attr)),
    {
        let display = match display {
            Some(d) => d,
            None => {
                return Err(CreationError::NotSupported(String::from_str("native display not found")));
            },
        };
        let surface = match surface {
            Some(s) => s,
            None => {
                return Err(CreationError::NotSupported(String::from_str("Gbm not found")));
            },
        };
        Ok(Self::new_raw_context(display, surface, size.width, size.height, pf_reqs, gl_attr))
    }

    /// Asks for a context that draws to the native surface `surface` on
    /// `display`, both already resolved by the caller.
    ///
    /// A context named in `gl_attr.sharing` must outlive the one created.
    pub fn new_raw_context(
        display: NativeHandle,
        surface: NativeHandle,
        width: u32,
        height: u32,
        pf_reqs: &PixelFormatRequirements,
        gl_attr: &GlAttributes<&Context>,
    ) -> (r: Negotiation)
        ensures
            r == windowed_request(display, surface, PhysicalSize { width, height }, *pf_reqs, *gl_attr),
    {
        Negotiation {
            display,
            surface: Surface::Window { native: surface, size: PhysicalSize { width, height } },
            pf_reqs: *pf_reqs,
            gl_attr: share_by_handle(gl_attr),
        }
    }

    /// What to hand to the platform to bind this context to the calling
    /// thread: its display, its platform surface (to draw to and read from;
    /// none for a surfaceless context) and its native context.
    pub fn binding(&self) -> (r: Binding)
        ensures
            r == (Binding {
                display: self.state().display,
                surface: self.state().egl_surface,
                context: self.state().context,
            }),
    {
        let c = self.inner();
        Binding { display: c.display, surface: c.egl_surface, context: c.context }
    }

    /// Binds this context to the calling thread, given the platform's answer to
    /// binding [`Context::binding`]: that answer is the result.
    ///
    /// The caller must not have this context current on another thread.
    pub fn make_current(&self, outcome: Result<(), ContextError>) -> (r: Result<(), ContextError>)
        ensures
            r == outcome,
    {
        outcome
    }

    /// Whether this context is the calling thread's current one, given the
    /// native context that the platform reports current on the thread.
    pub fn is_current(&self, thread_current: Option<NativeHandle>) -> (r: bool)
        ensures
            r == (thread_current == Some(self.state().context)),
    {
        match thread_current {
            Some(h) => h == self.inner().context,
            None => false,
        }
    }

    /// Unbinds this context from the calling thread, given the native context
    /// that the platform reports current on the thread. A context that is not
    /// current is left as it is and the call succeeds, whatever `outcome`
    /// holds. Otherwise `outcome` is the platform's answer to unbinding it.
    pub fn make_not_current(
        &self,
        thread_current: Option<NativeHandle>,
        outcome: Result<(), ContextError>,
    ) -> (r: Result<(), ContextError>)
        ensures
            thread_current != Some(self.state().context) ==> r is Ok,
            thread_current == Some(self.state().context) ==> r == outcome,
    {
        if !self.is_current(thread_current) {
            return Ok(());
        }
        outcome
    }

    /// The GL flavour the context was negotiated for.
    pub fn get_api(&self) -> (r: Api)
        ensures
            r == self.state().api,
    {
        self.inner().api
    }

    /// The native context handle.
    pub fn raw_handle(&self) -> (r: NativeHandle)
        ensures
            r == self.state().context,
    {
        self.inner().context
    }

    /// The native display the context was created on; always present.
    pub fn get_egl_display(&self) -> (r: Option<NativeHandle>)
        ensures
            r == Some(self.state().display),
    {
        Some(self.inner().display)
    }

    /// Records a new size for a windowed context's surface. Other kinds have
    /// no window to follow and give `FunctionUnavailable`, unchanged.
    pub fn resize(&mut self, width: u32, height: u32) -> (r: Result<(), ContextError>)
        requires
            old(self).wf(),
        ensures
            final(self).wf(),
            same_kind(*final(self), *old(self)),
            *old(self) is Windowed ==> r is Ok && final(self).state() == (ContextView {
                surface: Surface::Window {
                    native: old(self).state().surface->native,
                    size: PhysicalSize { width, height },
                },
                ..old(self).state()
            }),
            !(*old(self) is Windowed) ==> r == Err::<(), ContextError>(ContextError::FunctionUnavailable)
                && *final(self) == *old(self),
    {
        match self {
            Context::Windowed(c) => match c.surface {
                Surface::Window { native, size: _ } => {
                    c.surface = Surface::Window { native, size: PhysicalSize { width, height } };
                    Ok(())
                },
                _ => Err(ContextError::FunctionUnavailable),
            },
            _ => Err(ContextError::FunctionUnavailable),
        }
    }

    /// The address of the GL function `addr`, given what the platform's
    /// symbol lookup of [`proc_symbol`]`(addr)` found. A name that cannot be
    /// looked up (it holds a NUL byte) resolves to nothing.
    pub fn get_proc_address(&self, addr: &str, resolved: Option<NativeHandle>) -> (r: Option<NativeHandle>)
        ensures
            r == (if has_nul(addr.spec_bytes()) {
                None::<NativeHandle>
            } else {
                resolved
            }),
    {
        if contains_nul(addr.as_bytes()) {
            None
        } else {
            resolved
        }
    }

    /// What to hand to the platform to present: the display and the platform
    /// surface; nothing for a surfaceless context.
    pub fn swap_target(&self) -> (r: Option<(NativeHandle, NativeHandle)>)
        requires
            self.wf(),
        ensures
            *self is Surfaceless ==> r is None,
            !(*self is Surfaceless) ==> r == Some(
                (self.state().display, self.state().egl_surface->Some_0),
            ),
    {
        match self {
            Context::Surfaceless(_) => None,
            _ => {
                let c = self.inner();
                match c.egl_surface {
                    Some(s) => Some((c.display, s)),
                    None => None,
                }
            },
        }
    }

    /// Presents the back buffer, given the platform's answer to presenting
    /// [`Context::swap_target`].
    /// A context without a surface has nothing to present and gives
    /// `FunctionUnavailable`.
    pub fn swap_buffers(&self, outcome: Result<(), ContextError>) -> (r: Result<(), ContextError>)
        ensures
            *self is Surfaceless ==> r == Err::<(), ContextError>(ContextError::FunctionUnavailable),
            !(*self is Surfaceless) ==> r == outcome,
    {
        match self {
            Context::Surfaceless(_) => Err(ContextError::FunctionUnavailable),
            _ => outcome,
        }
    }

    /// A copy of the negotiated pixel format.
    pub fn get_pixel_format(&self) -> (r: PixelFormat)
        ensures
            r == self.state().pixel_format,
    {
        self.inner().pixel_format
    }

    /// Destroys the context and hands back the native resources to release.
    /// The context is consumed, so its resources are handed back once.
    pub fn destroy(self) -> (r: Teardown)
        ensures
            r == teardown_of(self),
    {
        let c = self.inner();
        Teardown { display: c.display, context: c.context, surface: c.egl_surface }
    }
}

/// The attributes with a shared context replaced by its native handle.
fn share_by_handle(gl_attr: &GlAttributes<&Context>) -> (r: GlAttributes<NativeHandle>)
    ensures
        r == resolve_sharing(*gl_attr),
{
    let sharing = match gl_attr.sharing {
        Some(c) => Some(c.inner().context),
        None => None,
    };
    GlAttributes {
        sharing,
        version: gl_attr.version,
        profile: gl_attr.profile,
        debug: gl_attr.debug,
        robustness: gl_attr.robustness,
        vsync: gl_attr.vsync,
    }
}

} // verus!
