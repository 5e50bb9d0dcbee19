//! What is asked of the window system and the display before anything is drawn.
use crate::text::{decimal, decimal_text, join};
use vstd::prelude::*;
use vstd::string::*;

verus! {

/// The title of the window.
pub const WINDOW_TITLE: &'static str =
    "Glutin triangle gradient example (press Escape to exit)";

/// What a window is made with.
#[derive(Debug, Clone, Copy)]
pub struct WindowSettings {
    pub transparent: bool,
    pub title: &'static str,
}

/// What the window is made with.
pub fn window_settings() -> (settings: WindowSettings)
    ensures
        settings.transparent,
        settings.title@ == WINDOW_TITLE@,
{
    WindowSettings { transparent: true, title: WINDOW_TITLE }
}

/// The window that is made before the display. Only WGL needs it by then.
pub fn early_window(wgl_backend: bool) -> (settings: Option<WindowSettings>)
    ensures
        settings is Some <==> wgl_backend,
        settings matches Some(settings) ==> settings.transparent && settings.title@
            == WINDOW_TITLE@,
{
    if wgl_backend {
        Some(window_settings())
    } else {
        None
    }
}

/// What a configuration must offer to be a candidate.
#[derive(Debug, Clone, Copy, PartialEq, Eq, Structural)]
pub struct ConfigTemplate {
    pub alpha_size: u8,
    pub transparency: bool,
}

/// The configurations to choose from. Transparency is demanded under CGL alone:
/// it offers a single configuration, and elsewhere the choice sees to it.
pub fn config_template(cgl_backend: bool) -> (template: ConfigTemplate)
    ensures
        template == (ConfigTemplate { alpha_size: 8, transparency: cgl_backend }),
{
    ConfigTemplate { alpha_size: 8, transparency: cgl_backend }
}

/// The line that reports the configuration that was picked.
pub fn picked_config_line(num_samples: u8) -> (line: String)
    ensures
        line@ == "Picked a config with "@ + decimal_text(num_samples as nat) + " samples"@,
{
    let mut line = join("Picked a config with ", decimal(num_samples).as_str());
    line.append(" samples");
    line
}

/// The version of an API.
#[derive(Debug, Clone, Copy, PartialEq, Eq, Structural)]
pub struct Version {
    pub major: u8,
    pub minor: u8,
}

/// An API that a context is asked to offer, in some version where none is given.
#[derive(Debug, Clone, Copy, PartialEq, Eq, Structural)]
pub enum ContextApi {
    OpenGl(Option<Version>),
    Gles(Option<Version>),
}

/// A context to ask the display for.
#[derive(Debug, Clone, Copy, PartialEq, Eq, Structural)]
pub enum ContextRequest {
    /// A context of the API that the display picks, which is core OpenGL.
    Default,
    /// An OpenGL ES context, where core OpenGL is not present.
    Gles,
    /// An OpenGL 2.1 context, for old devices that have neither.
    Legacy,
}

/// What becomes of a request for a context.
#[derive(Debug, Clone, Copy, PartialEq, Eq, Structural)]
pub enum ContextStep {
    /// The context is there.
    Created,
    /// Make another request.
    Try(ContextRequest),
    /// No request is left: give up with [`CONTEXT_FAILURE`].
    Fail,
}

/// Why there is no context.
pub const CONTEXT_FAILURE: &'static str = "failed to create context";

impl ContextRequest {
    /// The API that is asked for, or none to leave it to the display.
    pub open spec fn spec_api(self) -> Option<ContextApi> {
        match self {
            ContextRequest::Default => None,
            ContextRequest::Gles => Some(ContextApi::Gles(None)),
            ContextRequest::Legacy => Some(
                ContextApi::OpenGl(Some(Version { major: 2, minor: 1 })),
            ),
        }
    }

    /// A request that is refused gives way to the next one.
    pub open spec fn spec_after(self, created: bool) -> ContextStep {
        if created {
            ContextStep::Created
        } else {
            match self {
                ContextRequest::Default => ContextStep::Try(ContextRequest::Gles),
                ContextRequest::Gles => ContextStep::Try(ContextRequest::Legacy),
                ContextRequest::Legacy => ContextStep::Fail,
            }
        }
    }

    /// The first request to make.
    pub fn first() -> (request: ContextRequest)
        ensures
            request == ContextRequest::Default,
    {
        ContextRequest::Default
    }

    /// The API that is asked for, or none to leave it to the display.
    pub fn api(self) -> (api: Option<ContextApi>)
        ensures
            api == self.spec_api(),
    {
        match self {
            ContextRequest::Default => None,
            ContextRequest::Gles => Some(ContextApi::Gles(None)),
            ContextRequest::Legacy => Some(
                ContextApi::OpenGl(Some(Version { major: 2, minor: 1 })),
            ),
        }
    }

    /// How to go on when the display has, or has not, created the context.
    pub fn after(self, created: bool) -> (step: ContextStep)
        ensures
            step == self.spec_after(created),
    {
        if created {
            ContextStep::Created
        } else {
            match self {
                ContextRequest::Default => ContextStep::Try(ContextRequest::Gles),
                ContextRequest::Gles => ContextStep::Try(ContextRequest::Legacy),
                ContextRequest::Legacy => ContextStep::Fail,
            }
        }
    }
}

/// How many requests there are from this one on.
pub open spec fn requests_left(request: ContextRequest) -> nat {
    match request {
        ContextRequest::Default => 3,
        ContextRequest::Gles => 2,
        ContextRequest::Legacy => 1,
    }
}

/// The request that a display fulfils when they are made from this one on,
/// where `supported` says which ones it would fulfil.
pub open spec fn settle(
    request: ContextRequest,
    supported: spec_fn(ContextRequest) -> bool,
) -> Option<ContextRequest>
    decreases requests_left(request),
{
    match request.spec_after(supported(request)) {
        ContextStep::Created => Some(request),
        ContextStep::Try(next) => settle(next, supported),
        ContextStep::Fail => None,
    }
}

/// Whatever the display supports, the context is one of core OpenGL if it can
/// be, else of OpenGL ES, else of OpenGL 2.1. There is none only where the
/// display supports none of them.
pub proof fn first_supported_context_is_used(supported: spec_fn(ContextRequest) -> bool)
    ensures
        settle(ContextRequest::Default, supported) == if supported(ContextRequest::Default) {
            Some(ContextRequest::Default)
        } else if supported(ContextRequest::Gles) {
            Some(ContextRequest::Gles)
        } else if supported(ContextRequest::Legacy) {
            Some(ContextRequest::Legacy)
        } else {
            None
        },
        settle(ContextRequest::Default, supported) is None <==> forall|request: ContextRequest|
            !#[trigger] supported(request),
{
    reveal_with_fuel(settle, 3);
}

/// A request ends the search exactly when it is fulfilled or the last, and the
/// requests differ in what they ask for: whatever core OpenGL the display picks,
/// then any OpenGL ES, then OpenGL 2.1.
pub proof fn requests_are_made_in_turn(request: ContextRequest, created: bool)
    ensures
        request.spec_after(created) is Created <==> created,
        request.spec_after(created) is Fail <==> !created && request is Legacy,
        !created && request is Default ==> request.spec_after(created)->Try_0 is Gles,
        !created && request is Gles ==> request.spec_after(created)->Try_0 is Legacy,
        request is Default <==> request.spec_api() is None,
        request is Gles ==> request.spec_api() == Some(ContextApi::Gles(None)),
        request is Legacy ==> request.spec_api() == Some(
            ContextApi::OpenGl(Some(Version { major: 2, minor: 1 })),
        ),
{
}

} // verus!
