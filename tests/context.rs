use gbm_context::context::{
    proc_symbol, Binding, Context, Negotiated, Negotiation, Surface, Teardown,
};
use gbm_context::error::{ContextError, CreationError};
use gbm_context::format::{
    Api, GlAttributes, GlRequest, PixelFormat, PixelFormatRequirements, ReleaseBehavior, Robustness,
};
use gbm_context::handle::{NativeHandle, PhysicalSize};

fn handle(addr: usize) -> NativeHandle {
    NativeHandle::from_addr(addr).unwrap()
}

fn es2_attrs<'a>(sharing: Option<&'a Context>) -> GlAttributes<&'a Context> {
    GlAttributes {
        sharing,
        version: GlRequest::Specific(Api::OpenGlEs, (2, 0)),
        profile: None,
        debug: false,
        robustness: Robustness::NotRobust,
        vsync: false,
    }
}

fn rgba8() -> PixelFormat {
    PixelFormat {
        hardware_accelerated: true,
        color_bits: 24,
        alpha_bits: 8,
        depth_bits: 24,
        stencil_bits: 8,
        stereoscopy: false,
        double_buffer: true,
        multisampling: None,
        srgb: false,
    }
}

fn answer(context: usize, surface: Option<usize>) -> Negotiated {
    Negotiated {
        context: handle(context),
        surface: surface.map(handle),
        api: Api::OpenGlEs,
        pixel_format: rgba8(),
    }
}

fn headless(size: Option<PhysicalSize>, context: usize) -> Context {
    let reqs = PixelFormatRequirements::default();
    let req = Context::new_headless(Some(handle(0x10)), &reqs, &es2_attrs(None), size).unwrap();
    req.finish(Ok(answer(context, size.map(|_| context + 1)))).unwrap()
}

fn windowed(context: usize) -> Context {
    let reqs = PixelFormatRequirements::default();
    let req = Context::new(
        Some(handle(0x10)),
        Some(handle(0x20)),
        PhysicalSize::new(640, 480),
        &reqs,
        &es2_attrs(None),
    )
    .unwrap();
    req.finish(Ok(answer(context, Some(context + 1)))).unwrap()
}

#[test]
fn headless_with_size_is_pbuffer() {
    let ctx = headless(Some(PhysicalSize::new(800, 600)), 0x100);
    assert!(matches!(ctx, Context::PBuffer(_)));
}

#[test]
fn headless_without_size_is_surfaceless() {
    let ctx = headless(None, 0x100);
    assert!(matches!(ctx, Context::Surfaceless(_)));
}

#[test]
fn headless_request_carries_inputs() {
    let reqs = PixelFormatRequirements::default();
    let req = Context::new_headless(
        Some(handle(0x10)),
        &reqs,
        &es2_attrs(None),
        Some(PhysicalSize::new(800, 600)),
    )
    .unwrap();
    assert_eq!(req.display, handle(0x10));
    assert_eq!(req.surface, Surface::PBuffer(PhysicalSize::new(800, 600)));
    assert_eq!(req.pf_reqs, reqs);
    assert_eq!(req.gl_attr.sharing, None);
    assert_eq!(req.gl_attr.version, GlRequest::Specific(Api::OpenGlEs, (2, 0)));
}

#[test]
fn windowed_context_is_windowed() {
    let ctx = windowed(0x100);
    assert!(matches!(ctx, Context::Windowed(_)));
}

#[test]
fn raw_context_draws_to_given_surface() {
    let reqs = PixelFormatRequirements::default();
    let req: Negotiation =
        Context::new_raw_context(handle(0x10), handle(0x20), 1920, 1080, &reqs, &es2_attrs(None));
    assert_eq!(
        req.surface,
        Surface::Window { native: handle(0x20), size: PhysicalSize::new(1920, 1080) }
    );
    let ctx = req.finish(Ok(answer(0x100, Some(0x101)))).unwrap();
    assert!(matches!(ctx, Context::Windowed(_)));
}

#[test]
fn missing_surface_is_not_supported() {
    let reqs = PixelFormatRequirements::default();
    let r = Context::new(
        Some(handle(0x10)),
        None,
        PhysicalSize::new(640, 480),
        &reqs,
        &es2_attrs(None),
    );
    assert_eq!(r, Err(CreationError::NotSupported("Gbm not found".to_string())));
}

#[test]
fn missing_display_is_not_supported() {
    let reqs = PixelFormatRequirements::default();
    let attrs = es2_attrs(None);
    let r = Context::new_headless(None, &reqs, &attrs, Some(PhysicalSize::new(800, 600)));
    assert_eq!(r, Err(CreationError::NotSupported("native display not found".to_string())));
    let r = Context::new_headless(None, &reqs, &attrs, None);
    assert!(matches!(r, Err(CreationError::NotSupported(_))));
    let r = Context::new(None, Some(handle(0x20)), PhysicalSize::new(1, 1), &reqs, &attrs);
    assert_eq!(r, Err(CreationError::NotSupported("native display not found".to_string())));
}

#[test]
fn failed_negotiation_passes_error_on() {
    let reqs = PixelFormatRequirements::default();
    let req = Context::new_headless(Some(handle(0x10)), &reqs, &es2_attrs(None), None).unwrap();
    let r = req.finish(Err(CreationError::NoAvailablePixelFormat));
    assert!(matches!(r, Err(CreationError::NoAvailablePixelFormat)));
}

#[test]
fn sharing_resolves_to_native_handle() {
    let shared = headless(None, 0x300);
    let reqs = PixelFormatRequirements::default();
    let req = Context::new_headless(Some(handle(0x10)), &reqs, &es2_attrs(Some(&shared)), None)
        .unwrap();
    assert_eq!(req.gl_attr.sharing, Some(handle(0x300)));
}

#[test]
fn new_context_reports_negotiated_state() {
    let ctx = windowed(0x100);
    assert!(!ctx.is_current(None));
    assert_eq!(ctx.get_api(), Api::OpenGlEs);
    assert_eq!(ctx.raw_handle(), handle(0x100));
    assert_eq!(ctx.get_egl_display(), Some(handle(0x10)));
    assert_eq!(ctx.get_pixel_format(), rgba8());
}

#[test]
fn pixel_format_read_twice_is_equal() {
    let ctx = headless(Some(PhysicalSize::new(800, 600)), 0x100);
    assert_eq!(ctx.get_pixel_format(), ctx.get_pixel_format());
}

#[test]
fn make_current_passes_outcome_on() {
    let ctx = headless(None, 0x100);
    assert_eq!(ctx.make_current(Ok(())), Ok(()));
    assert_eq!(ctx.make_current(Err(ContextError::ContextLost)), Err(ContextError::ContextLost));
}

#[test]
fn binding_names_display_surface_and_context() {
    let win = windowed(0x100);
    assert_eq!(
        win.binding(),
        Binding { display: handle(0x10), surface: Some(handle(0x101)), context: handle(0x100) }
    );
    let surfaceless = headless(None, 0x200);
    assert_eq!(surfaceless.binding().surface, None);
}

#[test]
fn only_the_thread_current_context_is_current() {
    let a = headless(None, 0x100);
    let b = headless(None, 0x200);
    a.make_current(Ok(())).unwrap();
    assert!(a.is_current(Some(handle(0x100))));
    assert!(!b.is_current(Some(handle(0x100))));
    b.make_current(Ok(())).unwrap();
    assert!(b.is_current(Some(handle(0x200))));
    assert!(!a.is_current(Some(handle(0x200))));
}

#[test]
fn make_not_current_when_not_current_succeeds() {
    let ctx = headless(None, 0x100);
    assert!(!ctx.is_current(None));
    assert!(!ctx.is_current(Some(handle(0x999))));
    assert_eq!(ctx.make_not_current(None, Err(ContextError::ContextLost)), Ok(()));
    assert_eq!(ctx.make_not_current(Some(handle(0x999)), Err(ContextError::ContextLost)), Ok(()));
}

#[test]
fn make_not_current_when_current_passes_outcome_on() {
    let ctx = windowed(0x100);
    let current = Some(handle(0x100));
    assert!(ctx.is_current(current));
    let failed = ctx.make_not_current(current, Err(ContextError::OsError("busy".to_string())));
    assert_eq!(failed, Err(ContextError::OsError("busy".to_string())));
    assert_eq!(ctx.make_not_current(current, Ok(())), Ok(()));
}

#[test]
fn api_differing_from_request_is_refused() {
    let reqs = PixelFormatRequirements::default();
    let req = Context::new_headless(Some(handle(0x10)), &reqs, &es2_attrs(None), None).unwrap();
    let mut n = answer(0x100, None);
    n.api = Api::OpenGl;
    assert!(matches!(req.finish(Ok(n)), Err(CreationError::OpenGlVersionNotSupported)));
}

#[test]
fn surface_differing_from_target_is_refused() {
    let reqs = PixelFormatRequirements::default();
    let attrs = es2_attrs(None);
    let req = Context::new_headless(Some(handle(0x10)), &reqs, &attrs, None).unwrap();
    let r = req.finish(Ok(answer(0x100, Some(0x101))));
    assert!(
        matches!(r, Err(CreationError::OsError(m)) if m == "platform surface does not match the drawing target")
    );
    let req = Context::new_headless(
        Some(handle(0x10)),
        &reqs,
        &attrs,
        Some(PhysicalSize::new(8, 8)),
    )
    .unwrap();
    assert!(matches!(req.finish(Ok(answer(0x100, None))), Err(CreationError::OsError(_))));
}

#[test]
fn swap_target_by_kind() {
    let win = windowed(0x100);
    assert_eq!(win.swap_target(), Some((handle(0x10), handle(0x101))));
    let pbuffer = headless(Some(PhysicalSize::new(8, 8)), 0x200);
    assert_eq!(pbuffer.swap_target(), Some((handle(0x10), handle(0x201))));
    assert_eq!(headless(None, 0x300).swap_target(), None);
}

#[test]
fn resize_windowed_records_size() {
    let mut ctx = windowed(0x100);
    assert_eq!(ctx.resize(1024, 768), Ok(()));
    assert!(matches!(ctx, Context::Windowed(_)));
    assert_eq!(ctx.raw_handle(), handle(0x100));
}

#[test]
fn resize_headless_is_unavailable() {
    let mut pbuffer = headless(Some(PhysicalSize::new(800, 600)), 0x100);
    assert_eq!(pbuffer.resize(10, 10), Err(ContextError::FunctionUnavailable));
    assert!(matches!(pbuffer, Context::PBuffer(_)));
    let mut surfaceless = headless(None, 0x200);
    assert_eq!(surfaceless.resize(10, 10), Err(ContextError::FunctionUnavailable));
}

#[test]
fn swap_buffers_by_kind() {
    let win = windowed(0x100);
    assert_eq!(win.swap_buffers(Ok(())), Ok(()));
    assert_eq!(win.swap_buffers(Err(ContextError::ContextLost)), Err(ContextError::ContextLost));
    let pbuffer = headless(Some(PhysicalSize::new(8, 8)), 0x200);
    assert_eq!(pbuffer.swap_buffers(Ok(())), Ok(()));
    let surfaceless = headless(None, 0x300);
    assert_eq!(surfaceless.swap_buffers(Ok(())), Err(ContextError::FunctionUnavailable));
}

#[test]
fn proc_symbol_is_nul_terminated() {
    assert_eq!(proc_symbol("glClear"), Some(b"glClear\0".to_vec()));
    assert_eq!(proc_symbol(""), Some(vec![0u8]));
    assert_eq!(proc_symbol("gl\0Clear"), None);
}

#[test]
fn proc_address_null_for_bad_name() {
    let ctx = headless(None, 0x100);
    assert_eq!(ctx.get_proc_address("glClear", Some(handle(0x4000))), Some(handle(0x4000)));
    assert_eq!(ctx.get_proc_address("glNope", None), None);
    assert_eq!(ctx.get_proc_address("gl\0Clear", Some(handle(0x4000))), None);
}

#[test]
fn destroy_releases_each_once() {
    let ctxs = vec![windowed(0x100), headless(Some(PhysicalSize::new(4, 4)), 0x200), headless(None, 0x300)];
    let released: Vec<Teardown> = ctxs.into_iter().rev().map(|c| c.destroy()).collect();
    assert_eq!(released.len(), 3);
    assert_eq!(
        released[0],
        Teardown { display: handle(0x10), context: handle(0x300), surface: None }
    );
    assert_eq!(released[1].context, handle(0x200));
    assert_eq!(released[1].surface, Some(handle(0x201)));
    assert_eq!(released[2].context, handle(0x100));
}

#[test]
fn null_handle_is_refused() {
    assert_eq!(NativeHandle::from_addr(0), None);
    assert_eq!(handle(42).addr(), 42);
}

#[test]
fn default_requirements() {
    let reqs = PixelFormatRequirements::default();
    assert_eq!(reqs.hardware_accelerated, Some(true));
    assert_eq!(reqs.color_bits, Some(24));
    assert_eq!(reqs.alpha_bits, Some(8));
    assert_eq!(reqs.depth_bits, Some(24));
    assert_eq!(reqs.stencil_bits, Some(8));
    assert_eq!(reqs.double_buffer, None);
    assert_eq!(reqs.multisampling, None);
    assert_eq!(reqs.release_behavior, ReleaseBehavior::Flush);
}
