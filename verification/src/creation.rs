//! The decisions taken while a window is opened.
//!
//! Opening a window is a run of platform calls, each of which may be
//! refused: a window with a rendering context, a display on top of it, the
//! table of OpenGL functions, and a renderer. What is asked for at each
//! stage, and what follows on a refusal, is decided here. The caller makes
//! the platform calls and reports how each one ended.

use vstd::prelude::*;
use crate::error::WindowCreateError;
use crate::options::{RendererType, WindowCreateOptions, WindowMonitorTarget};
use crate::scalar::{ColorF, FloatBits};

verus! {

/// Major version asked of a desktop OpenGL context.
pub const OPENGL_MAJOR: u8 = 3;

/// Minor version asked of a desktop OpenGL context.
pub const OPENGL_MINOR: u8 = 2;

/// Major version asked of an OpenGL ES context.
pub const OPENGLES_MAJOR: u8 = 3;

/// Minor version asked of an OpenGL ES context.
pub const OPENGLES_MINOR: u8 = 0;

/// Target name of the frame buffer binding point.
pub const FRAMEBUFFER: u32 = 0x8D40;

/// What the window builder is told before the window is made.
#[derive(Debug, PartialEq, Eq)]
pub struct WindowBuilderSettings {
    /// Width and height of the content area.
    pub dimensions: (u32, u32),
    pub title: String,
    pub decorations: bool,
    pub visibility: bool,
    pub transparency: bool,
    pub maximized: bool,
    /// Touch input from several fingers is always switched on.
    pub multitouch: bool,
    /// The monitor to cover, if the window starts in fullscreen.
    pub fullscreen: Option<WindowMonitorTarget>,
    pub min_dimensions: Option<(u32, u32)>,
    pub max_dimensions: Option<(u32, u32)>,
}

/// Reads the builder settings off the options a window is opened with.
///
/// The window covers a monitor only if fullscreen is asked for, and then it
/// is the monitor the options name.
pub fn window_builder_settings(options: &WindowCreateOptions) -> (s: WindowBuilderSettings)
    ensures
        s.dimensions == (options.state.size.width, options.state.size.height),
        s.title@ == options.state.title@,
        s.decorations == options.state.has_decorations,
        s.visibility == options.state.is_visible,
        s.transparency == options.state.is_transparent,
        s.maximized == options.state.is_maximized,
        s.multitouch,
        s.fullscreen == if options.state.is_fullscreen {
            Some(options.monitor)
        } else {
            None::<WindowMonitorTarget>
        },
        s.min_dimensions == options.state.size.min_dimensions,
        s.max_dimensions == options.state.size.max_dimensions,
{
    WindowBuilderSettings {
        dimensions: (options.state.size.width, options.state.size.height),
        title: options.state.title.clone(),
        decorations: options.state.has_decorations,
        visibility: options.state.is_visible,
        transparency: options.state.is_transparent,
        maximized: options.state.is_maximized,
        multitouch: true,
        fullscreen: if options.state.is_fullscreen {
            Some(options.monitor)
        } else {
            None
        },
        min_dimensions: options.state.size.min_dimensions,
        max_dimensions: options.state.size.max_dimensions,
    }
}

/// One of the four configurations a rendering context is asked for with,
/// in the order in which they are tried.
#[derive(Clone, Copy, Debug, PartialEq, Eq, Structural)]
pub enum ContextAttempt {
    /// Vertical sync and an sRGB frame buffer.
    VsyncAndSrgb,
    /// Vertical sync only.
    VsyncOnly,
    /// An sRGB frame buffer only.
    SrgbOnly,
    /// Neither of the two.
    Plain,
}

impl ContextAttempt {
    /// Place of the configuration in the order of attempts, from zero.
    pub open spec fn rank(self) -> nat {
        match self {
            ContextAttempt::VsyncAndSrgb => 0,
            ContextAttempt::VsyncOnly => 1,
            ContextAttempt::SrgbOnly => 2,
            ContextAttempt::Plain => 3,
        }
    }

    /// Whether the configuration asks for vertical sync.
    pub open spec fn wants_vsync(self) -> bool {
        self.rank() < 2
    }

    /// Whether the configuration asks for an sRGB frame buffer.
    pub open spec fn wants_srgb(self) -> bool {
        self.rank() % 2 == 0
    }

    /// The configuration tried after this one was refused, if any is left.
    pub open spec fn successor(self) -> Option<ContextAttempt> {
        match self {
            ContextAttempt::VsyncAndSrgb => Some(ContextAttempt::VsyncOnly),
            ContextAttempt::VsyncOnly => Some(ContextAttempt::SrgbOnly),
            ContextAttempt::SrgbOnly => Some(ContextAttempt::Plain),
            ContextAttempt::Plain => None,
        }
    }

    /// The configuration that is tried first.
    pub fn first() -> (a: Self)
        ensures
            a == ContextAttempt::VsyncAndSrgb,
            a.rank() == 0,
    {
        ContextAttempt::VsyncAndSrgb
    }

    /// Whether the configuration asks for vertical sync.
    pub fn vsync(self) -> (b: bool)
        ensures
            b == self.wants_vsync(),
    {
        match self {
            ContextAttempt::VsyncAndSrgb | ContextAttempt::VsyncOnly => true,
            ContextAttempt::SrgbOnly | ContextAttempt::Plain => false,
        }
    }

    /// Whether the configuration asks for an sRGB frame buffer.
    pub fn srgb(self) -> (b: bool)
        ensures
            b == self.wants_srgb(),
    {
        match self {
            ContextAttempt::VsyncAndSrgb | ContextAttempt::SrgbOnly => true,
            ContextAttempt::VsyncOnly | ContextAttempt::Plain => false,
        }
    }

    /// The configuration to try after this one was refused.
    pub fn next(self) -> (n: Option<Self>)
        ensures
            n == self.successor(),
            n is None <==> self.rank() == 3,
            n matches Some(b) ==> b.rank() == self.rank() + 1,
    {
        match self {
            ContextAttempt::VsyncAndSrgb => Some(ContextAttempt::VsyncOnly),
            ContextAttempt::VsyncOnly => Some(ContextAttempt::SrgbOnly),
            ContextAttempt::SrgbOnly => Some(ContextAttempt::Plain),
            ContextAttempt::Plain => None,
        }
    }
}

/// What the context builder is told for one attempt.
#[derive(Clone, Copy, Debug, PartialEq, Eq)]
pub struct ContextSettings {
    /// Desktop OpenGL version to ask for first, as major and minor.
    pub opengl_version: (u8, u8),
    /// OpenGL ES version to ask for if desktop OpenGL cannot be had.
    pub opengles_version: (u8, u8),
    /// Whether the core profile is asked for.
    pub core_profile: bool,
    /// Whether the driver is asked for a debug context.
    pub debug: bool,
    /// Whether vertical sync is switched on.
    pub vsync: bool,
    /// Whether an sRGB frame buffer is asked for.
    pub srgb: bool,
}

/// The settings of a context with or without vertical sync and sRGB.
///
/// Version and profile are the same for every context; `debug` says
/// whether this is a debug build.
pub fn create_context_builder(vsync: bool, srgb: bool, debug: bool) -> (s: ContextSettings)
    ensures
        s == (ContextSettings {
            opengl_version: (OPENGL_MAJOR, OPENGL_MINOR),
            opengles_version: (OPENGLES_MAJOR, OPENGLES_MINOR),
            core_profile: true,
            debug,
            vsync,
            srgb,
        }),
{
    ContextSettings {
        opengl_version: (OPENGL_MAJOR, OPENGL_MINOR),
        opengles_version: (OPENGLES_MAJOR, OPENGLES_MINOR),
        core_profile: true,
        debug,
        vsync,
        srgb,
    }
}

/// The family of OpenGL that a context speaks.
#[derive(Clone, Copy, Debug, PartialEq, Eq, Structural)]
pub enum GlApi {
    OpenGl,
    OpenGlEs,
    WebGl,
}

/// The table of functions that is loaded for a context.
#[derive(Clone, Copy, Debug, PartialEq, Eq, Structural)]
pub enum GlLoader {
    /// Functions of desktop OpenGL.
    Gl,
    /// Functions of OpenGL ES.
    Gles,
}

/// The function table for each family, and the error where there is none.
pub open spec fn gl_loader_of(api: GlApi) -> Result<GlLoader, WindowCreateError> {
    match api {
        GlApi::OpenGl => Ok(GlLoader::Gl),
        GlApi::OpenGlEs => Ok(GlLoader::Gles),
        GlApi::WebGl => Err(WindowCreateError::WebGlNotSupported),
    }
}

/// Picks the function table to load for a context of the given family.
///
/// Fails with `WebGlNotSupported` for WebGL and for nothing else.
pub fn get_gl_context(api: GlApi) -> (r: Result<GlLoader, WindowCreateError>)
    ensures
        r == gl_loader_of(api),
        r is Err <==> api == GlApi::WebGl,
{
    match api {
        GlApi::OpenGl => Ok(GlLoader::Gl),
        GlApi::OpenGlEs => Ok(GlLoader::Gles),
        GlApi::WebGl => Err(WindowCreateError::WebGlNotSupported),
    }
}

/// A call that binds a frame buffer object to a binding point.
#[derive(Clone, Copy, Debug, PartialEq, Eq, Structural)]
pub struct FramebufferBinding {
    /// The function table through which the call is made.
    pub loader: GlLoader,
    /// The binding point.
    pub target: u32,
    /// The object to bind; zero stands for the window's own frame buffer.
    pub framebuffer: u32,
}

/// The call that gives the binding point back to the window's own frame
/// buffer, for a live context of the given family.
///
/// A window never has a WebGL context, so that family is left out.
pub fn unbind_framebuffer(api: GlApi) -> (b: FramebufferBinding)
    requires
        api != GlApi::WebGl,
    ensures
        gl_loader_of(api) matches Ok(loader) && loader == b.loader,
        b.target == FRAMEBUFFER,
        b.framebuffer == 0,
{
    let loader = match api {
        GlApi::OpenGl => GlLoader::Gl,
        _ => GlLoader::Gles,
    };
    FramebufferBinding { loader, target: FRAMEBUFFER, framebuffer: 0 }
}

/// A renderer backend.
#[derive(Clone, Copy, Debug, PartialEq, Eq, Structural)]
pub enum RendererKind {
    /// Rendering on the graphics hardware.
    Native,
    /// Rendering in software.
    OSMesa,
}

/// What the renderer is told when it is built.
#[derive(Clone, Copy, Debug, PartialEq, Eq)]
pub struct RendererSettings {
    /// Whether all shaders are compiled at start-up.
    pub precache_shaders: bool,
    /// Ratio of device pixels to layout units.
    pub device_pixel_ratio: FloatBits,
    pub enable_subpixel_aa: bool,
    pub enable_aa: bool,
    /// Colour the frame is cleared to; not cleared if `None`.
    pub clear_color: Option<ColorF>,
    pub enable_render_on_scroll: bool,
    pub enable_scrollbars: bool,
    /// Whether compiled shader programs are kept in a cache.
    pub cached_programs: bool,
    pub renderer_kind: RendererKind,
}

/// The settings of a hardware (`native`) or software renderer.
pub fn get_renderer_opts(
    native: bool,
    device_pixel_ratio: FloatBits,
    clear_color: Option<ColorF>,
) -> (s: RendererSettings)
    ensures
        s == (RendererSettings {
            precache_shaders: false,
            device_pixel_ratio,
            enable_subpixel_aa: true,
            enable_aa: true,
            clear_color,
            enable_render_on_scroll: true,
            enable_scrollbars: true,
            cached_programs: true,
            renderer_kind: if native {
                RendererKind::Native
            } else {
                RendererKind::OSMesa
            },
        }),
{
    RendererSettings {
        precache_shaders: false,
        device_pixel_ratio,
        enable_subpixel_aa: true,
        enable_aa: true,
        clear_color,
        enable_render_on_scroll: true,
        enable_scrollbars: true,
        cached_programs: true,
        renderer_kind: if native {
            RendererKind::Native
        } else {
            RendererKind::OSMesa
        },
    }
}

impl RendererType {
    /// The backend that is tried first.
    pub open spec fn first_backend(self) -> RendererKind {
        match self {
            RendererType::Software => RendererKind::OSMesa,
            _ => RendererKind::Native,
        }
    }

    /// The backend that is tried after `refused` could not be built, if the
    /// policy allows another.
    pub open spec fn fallback_backend(self, refused: RendererKind) -> Option<RendererKind> {
        if self == RendererType::Default && refused == RendererKind::Native {
            Some(RendererKind::OSMesa)
        } else {
            None
        }
    }

    /// Whether the policy ever builds the given backend.
    pub open spec fn admits(self, kind: RendererKind) -> bool {
        match self {
            RendererType::Default => true,
            RendererType::Hardware => kind == RendererKind::Native,
            RendererType::Software => kind == RendererKind::OSMesa,
        }
    }

    /// The backend to try first.
    pub fn initial_backend(self) -> (k: RendererKind)
        ensures
            k == self.first_backend(),
            self.admits(k),
    {
        match self {
            RendererType::Software => RendererKind::OSMesa,
            _ => RendererKind::Native,
        }
    }

    /// The backend to try after `refused` could not be built.
    ///
    /// Only the default policy has a second choice, and only after the
    /// hardware backend: the software backend.
    pub fn next_backend(self, refused: RendererKind) -> (k: Option<RendererKind>)
        ensures
            k == self.fallback_backend(refused),
            k matches Some(b) ==> self.admits(b) && b != refused,
    {
        match (self, refused) {
            (RendererType::Default, RendererKind::Native) => Some(RendererKind::OSMesa),
            _ => None,
        }
    }
}

/// How far the opening of a window has come.
#[derive(Clone, Copy, Debug, PartialEq, Eq, Structural)]
pub enum CreationState {
    /// A window with a rendering context is being asked for.
    CreatingContext(ContextAttempt),
    /// The display is being made on top of the window.
    CreatingDisplay,
    /// The family of the context is being looked up.
    SelectingGl,
    /// A renderer of the given kind is being built.
    CreatingRenderer(RendererKind),
    /// Everything is in place; the renderer is of the given kind.
    Ready(RendererKind),
    /// The window cannot be opened; the caller gets the error.
    Failed(WindowCreateError),
    /// No renderer that the policy allows could be built. There is no
    /// recovery from this: the process ends.
    Aborted,
}

/// How a platform call ended.
#[derive(Clone, Copy, Debug, PartialEq, Eq, Structural)]
pub enum CreationEvent {
    ContextCreated,
    ContextRefused,
    DisplayCreated,
    DisplayRefused,
    /// The context speaks this family of OpenGL.
    ApiFound(GlApi),
    RendererCreated,
    RendererRefused,
}

impl CreationState {
    /// Whether nothing further happens in this state.
    pub open spec fn is_terminal(self) -> bool {
        self is Ready || self is Failed || self is Aborted
    }

    /// Whether the event reports on the platform call this state waits for.
    pub open spec fn awaits(self, event: CreationEvent) -> bool {
        match self {
            CreationState::CreatingContext(_) => event is ContextCreated || event is ContextRefused,
            CreationState::CreatingDisplay => event is DisplayCreated || event is DisplayRefused,
            CreationState::SelectingGl => event is ApiFound,
            CreationState::CreatingRenderer(_) => event is RendererCreated
                || event is RendererRefused,
            _ => false,
        }
    }

    /// The state that follows when `event` is reported in this state.
    ///
    /// An event that the state does not wait for leaves it as it is.
    pub open spec fn after(self, renderer_type: RendererType, event: CreationEvent) -> CreationState {
        match (self, event) {
            (CreationState::CreatingContext(_), CreationEvent::ContextCreated) => {
                CreationState::CreatingDisplay
            },
            (CreationState::CreatingContext(attempt), CreationEvent::ContextRefused) => {
                match attempt.successor() {
                    Some(next) => CreationState::CreatingContext(next),
                    None => CreationState::Failed(WindowCreateError::CreateError),
                }
            },
            (CreationState::CreatingDisplay, CreationEvent::DisplayCreated) => {
                CreationState::SelectingGl
            },
            (CreationState::CreatingDisplay, CreationEvent::DisplayRefused) => {
                CreationState::Failed(WindowCreateError::Gl)
            },
            (CreationState::SelectingGl, CreationEvent::ApiFound(api)) => {
                match gl_loader_of(api) {
                    Ok(_) => CreationState::CreatingRenderer(renderer_type.first_backend()),
                    Err(e) => CreationState::Failed(e),
                }
            },
            (CreationState::CreatingRenderer(kind), CreationEvent::RendererCreated) => {
                CreationState::Ready(kind)
            },
            (CreationState::CreatingRenderer(kind), CreationEvent::RendererRefused) => {
                match renderer_type.fallback_backend(kind) {
                    Some(next) => CreationState::CreatingRenderer(next),
                    None => CreationState::Aborted,
                }
            },
            _ => self,
        }
    }

    /// An upper bound on the platform calls still to be made from this
    /// state on.
    pub open spec fn remaining(self, renderer_type: RendererType) -> nat {
        match self {
            CreationState::CreatingContext(attempt) => (8 - attempt.rank()) as nat,
            CreationState::CreatingDisplay => 4,
            CreationState::SelectingGl => 3,
            CreationState::CreatingRenderer(kind) => {
                if renderer_type.fallback_backend(kind) is Some {
                    2
                } else {
                    1
                }
            },
            _ => 0,
        }
    }

    /// What holds of every state that a run can be in: a renderer is only
    /// built as the policy allows, and a failure is one of the three that
    /// the stages before the renderer can end in.
    pub open spec fn consistent(self, renderer_type: RendererType) -> bool {
        match self {
            CreationState::CreatingRenderer(kind) => renderer_type.admits(kind),
            CreationState::Ready(kind) => renderer_type.admits(kind),
            CreationState::Failed(e) => {
                ||| e == WindowCreateError::CreateError
                ||| e == WindowCreateError::Gl
                ||| e == WindowCreateError::WebGlNotSupported
            },
            _ => true,
        }
    }

    /// The state after the events were reported one after the other.
    pub open spec fn after_all(
        self,
        renderer_type: RendererType,
        events: Seq<CreationEvent>,
    ) -> CreationState
        decreases events.len(),
    {
        if events.len() == 0 {
            self
        } else {
            self.after_all(renderer_type, events.drop_last()).after(renderer_type, events.last())
        }
    }

    /// The state in which every window starts: the first context
    /// configuration is asked for.
    pub fn start() -> (s: Self)
        ensures
            s == CreationState::CreatingContext(ContextAttempt::VsyncAndSrgb),
    {
        CreationState::CreatingContext(ContextAttempt::first())
    }

    /// Whether nothing further happens in this state.
    pub fn is_finished(self) -> (b: bool)
        ensures
            b == self.is_terminal(),
    {
        match self {
            CreationState::Ready(_) | CreationState::Failed(_) | CreationState::Aborted => true,
            _ => false,
        }
    }

    /// Moves on by one reported event.
    ///
    /// A refused context leads to the next configuration, and to the error
    /// `CreateError` after the fourth. A refused display is the error `Gl`.
    /// A WebGL context is the error `WebGlNotSupported`. A refused renderer
    /// leads to the software backend under the default policy if the
    /// hardware backend was the one refused, and aborts otherwise.
    pub fn step(self, renderer_type: RendererType, event: CreationEvent) -> (next: Self)
        ensures
            next == self.after(renderer_type, event),
    {
        match (self, event) {
            (CreationState::CreatingContext(_), CreationEvent::ContextCreated) => {
                CreationState::CreatingDisplay
            },
            (CreationState::CreatingContext(attempt), CreationEvent::ContextRefused) => {
                match attempt.next() {
                    Some(next) => CreationState::CreatingContext(next),
                    None => CreationState::Failed(WindowCreateError::CreateError),
                }
            },
            (CreationState::CreatingDisplay, CreationEvent::DisplayCreated) => {
                CreationState::SelectingGl
            },
            (CreationState::CreatingDisplay, CreationEvent::DisplayRefused) => {
                CreationState::Failed(WindowCreateError::Gl)
            },
            (CreationState::SelectingGl, CreationEvent::ApiFound(api)) => {
                match get_gl_context(api) {
                    Ok(_) => CreationState::CreatingRenderer(renderer_type.initial_backend()),
                    Err(e) => CreationState::Failed(e),
                }
            },
            (CreationState::CreatingRenderer(kind), CreationEvent::RendererCreated) => {
                CreationState::Ready(kind)
            },
            (CreationState::CreatingRenderer(kind), CreationEvent::RendererRefused) => {
                match renderer_type.next_backend(kind) {
                    Some(next) => CreationState::CreatingRenderer(next),
                    None => CreationState::Aborted,
                }
            },
            (state, _) => state,
        }
    }
}

/// A report that a state does not wait for changes nothing. A finished run
/// waits for nothing, so it stays as it is whatever is reported afterwards.
pub proof fn lemma_unawaited_reports_change_nothing(
    state: CreationState,
    renderer_type: RendererType,
    event: CreationEvent,
)
    requires
        !state.awaits(event),
    ensures
        state.after(renderer_type, event) == state,
        state.is_terminal() ==> forall|e: CreationEvent| !state.awaits(e),
{
}

/// Every report that a state waits for brings the run strictly closer to
/// its end.
pub proof fn lemma_every_report_makes_progress(
    state: CreationState,
    renderer_type: RendererType,
    event: CreationEvent,
)
    requires
        state.awaits(event),
    ensures
        state.after(renderer_type, event).remaining(renderer_type) < state.remaining(
            renderer_type,
        ),
{
}

/// A run is never more than eight platform calls away from its end, and it
/// has ended exactly when no call is left.
pub proof fn lemma_remaining_is_bounded(state: CreationState, renderer_type: RendererType)
    ensures
        state.remaining(renderer_type) <= 8,
        state.remaining(renderer_type) == 0 <==> state.is_terminal(),
{
}

/// One step keeps a consistent state consistent.
pub proof fn lemma_step_keeps_consistency(
    state: CreationState,
    renderer_type: RendererType,
    event: CreationEvent,
)
    requires
        state.consistent(renderer_type),
    ensures
        state.after(renderer_type, event).consistent(renderer_type),
{
}

/// Whatever is reported, in whatever order, a run from the start never
/// builds a renderer that the policy forbids, and if it fails, then with
/// `CreateError`, `Gl` or `WebGlNotSupported`.
pub proof fn lemma_runs_are_consistent(renderer_type: RendererType, events: Seq<CreationEvent>)
    ensures
        CreationState::CreatingContext(ContextAttempt::VsyncAndSrgb).after_all(
            renderer_type,
            events,
        ).consistent(renderer_type),
    decreases events.len(),
{
    let start = CreationState::CreatingContext(ContextAttempt::VsyncAndSrgb);
    if events.len() > 0 {
        lemma_runs_are_consistent(renderer_type, events.drop_last());
        lemma_step_keeps_consistency(
            start.after_all(renderer_type, events.drop_last()),
            renderer_type,
            events.last(),
        );
    }
}

/// The state after the first `refusals` context configurations were
/// refused: the next configuration in the order vertical sync with sRGB,
/// vertical sync, sRGB, neither; after the fourth refusal the run has failed
/// with `CreateError`.
pub open spec fn after_context_refusals(refusals: nat) -> CreationState {
    if refusals == 0 {
        CreationState::CreatingContext(ContextAttempt::VsyncAndSrgb)
    } else if refusals == 1 {
        CreationState::CreatingContext(ContextAttempt::VsyncOnly)
    } else if refusals == 2 {
        CreationState::CreatingContext(ContextAttempt::SrgbOnly)
    } else if refusals == 3 {
        CreationState::CreatingContext(ContextAttempt::Plain)
    } else {
        CreationState::Failed(WindowCreateError::CreateError)
    }
}

/// A run in which every context is refused tries the four configurations
/// in order and then fails with `CreateError`.
pub proof fn lemma_context_fallback_order(renderer_type: RendererType, refusals: nat)
    ensures
        CreationState::CreatingContext(ContextAttempt::VsyncAndSrgb).after_all(
            renderer_type,
            Seq::new(refusals, |i: int| CreationEvent::ContextRefused),
        ) == after_context_refusals(refusals),
    decreases refusals,
{
    let start = CreationState::CreatingContext(ContextAttempt::VsyncAndSrgb);
    let events = Seq::new(refusals, |i: int| CreationEvent::ContextRefused);
    if refusals > 0 {
        let shorter = Seq::new((refusals - 1) as nat, |i: int| CreationEvent::ContextRefused);
        assert(events.drop_last() =~= shorter);
        lemma_context_fallback_order(renderer_type, (refusals - 1) as nat);
    }
}

} // verus!
