use vstd::prelude::*;

verus! {

/// The largest window side that the windowing layer takes.
pub const MAX_WINDOW_SIDE: usize = 0xffff_ffff;

/// Why the window and its graphics context could not be set up.
#[derive(Debug, Clone, PartialEq, Eq)]
pub enum Error {
    /// The windowing library did not start; holds its message.
    SdlInit(String),
    /// The video subsystem could not be had; holds its message.
    VideoSubsystemInit(String),
    /// The window could not be built; holds the build error's message.
    WindowInit(String),
    /// The graphics context could not be created; holds its message.
    ContextInit(String),
    /// A window side does not fit the windowing layer's size type.
    WindowTooLarge,
}

/// The size of the window, in pixels.
#[derive(Debug, Clone, Copy, PartialEq, Eq, Structural)]
pub struct WindowDimension {
    pub width: usize,
    pub height: usize,
}

impl WindowDimension {
    /// A window of the given width and height.
    pub fn of(width: usize, height: usize) -> (r: Self)
        ensures
            r.width == width,
            r.height == height,
    {
        WindowDimension { width, height }
    }
}

impl Default for WindowDimension {
    fn default() -> (r: Self)
        ensures
            r.width == 900,
            r.height == 700,
    {
        WindowDimension { width: 900, height: 700 }
    }
}

/// The version of the graphics API that the context is asked for.
#[derive(Debug, Clone, Copy, PartialEq, Eq, Structural)]
pub struct OpenGLVersion {
    major: u8,
    minor: u8,
}

impl OpenGLVersion {
    pub closed spec fn spec_major(self) -> u8 {
        self.major
    }

    pub closed spec fn spec_minor(self) -> u8 {
        self.minor
    }

    /// The version `major.minor`.
    pub fn of(major: u8, minor: u8) -> (r: Self)
        ensures
            r.spec_major() == major,
            r.spec_minor() == minor,
    {
        OpenGLVersion { major, minor }
    }

    pub fn major(&self) -> (r: u8)
        ensures
            r == self.spec_major(),
    {
        self.major
    }

    pub fn minor(&self) -> (r: u8)
        ensures
            r == self.spec_minor(),
    {
        self.minor
    }
}

impl Default for OpenGLVersion {
    fn default() -> (r: Self)
        ensures
            r.spec_major() == 4,
            r.spec_minor() == 1,
    {
        Self::of(4, 1)
    }
}

/// One step of setting up the window and its graphics context.
#[derive(Debug, Clone, Copy, PartialEq, Eq, Structural)]
pub enum InitStep {
    /// Start the windowing library.
    InitSdl,
    /// Acquire its video subsystem.
    AcquireVideo,
    /// Ask for the core profile.
    SetCoreProfile,
    /// Ask for this major version.
    SetMajorVersion(u8),
    /// Ask for this minor version.
    SetMinorVersion(u8),
    /// Ask for a debug context.
    SetDebugFlag,
    /// Build the window, resizable and able to hold a graphics context.
    BuildWindow { width: u32, height: u32 },
    /// Create the graphics context of the window.
    CreateContext,
    /// Resolve the graphics function pointers against that context.
    LoadFunctions,
}

/// Whether a step sets an attribute of the context to come.
pub open spec fn is_attribute(step: InitStep) -> bool {
    match step {
        InitStep::SetCoreProfile | InitStep::SetMajorVersion(_) | InitStep::SetMinorVersion(_)
        | InitStep::SetDebugFlag => true,
        _ => false,
    }
}

/// The steps of setting up a window of the given size for the given version,
/// in the order in which they are taken.
pub open spec fn spec_init_steps(width: u32, height: u32, major: u8, minor: u8) -> Seq<InitStep> {
    seq![
        InitStep::InitSdl,
        InitStep::AcquireVideo,
        InitStep::SetCoreProfile,
        InitStep::SetMajorVersion(major),
        InitStep::SetMinorVersion(minor),
        InitStep::SetDebugFlag,
        InitStep::BuildWindow { width, height },
        InitStep::CreateContext,
        InitStep::LoadFunctions,
    ]
}

/// Whether a window of this size can be asked for.
pub open spec fn fits_window(dimension: WindowDimension) -> bool {
    dimension.width <= MAX_WINDOW_SIDE && dimension.height <= MAX_WINDOW_SIDE
}

/// The window's sides in the windowing layer's size type, or `WindowTooLarge`.
pub fn window_size(dimension: &WindowDimension) -> (r: Result<(u32, u32), Error>)
    ensures
        fits_window(*dimension) ==> r == Ok::<(u32, u32), Error>(
            (dimension.width as u32, dimension.height as u32),
        ),
        !fits_window(*dimension) ==> r == Err::<(u32, u32), Error>(Error::WindowTooLarge),
{
    if dimension.width <= MAX_WINDOW_SIDE && dimension.height <= MAX_WINDOW_SIDE {
        Ok((dimension.width as u32, dimension.height as u32))
    } else {
        Err(Error::WindowTooLarge)
    }
}

/// The steps that set up the window and its graphics context, in order, or
/// `WindowTooLarge` before any of them is taken.
pub fn init_steps(dimension: &WindowDimension, version: &OpenGLVersion) -> (r: Result<
    Vec<InitStep>,
    Error,
>)
    ensures
        fits_window(*dimension) ==> (r matches Ok(steps) && steps@ == spec_init_steps(
            dimension.width as u32,
            dimension.height as u32,
            version.spec_major(),
            version.spec_minor(),
        )),
        !fits_window(*dimension) ==> r == Err::<Vec<InitStep>, Error>(Error::WindowTooLarge),
{
    let (width, height) = match window_size(dimension) {
        Ok(size) => size,
        Err(e) => return Err(e),
    };
    let steps = vec![
        InitStep::InitSdl,
        InitStep::AcquireVideo,
        InitStep::SetCoreProfile,
        InitStep::SetMajorVersion(version.major()),
        InitStep::SetMinorVersion(version.minor()),
        InitStep::SetDebugFlag,
        InitStep::BuildWindow { width, height },
        InitStep::CreateContext,
        InitStep::LoadFunctions,
    ];
    assert(steps@ =~= spec_init_steps(width, height, version.spec_major(), version.spec_minor()));
    Ok(steps)
}

impl InitStep {
    /// The error that ends setup when this step fails with `message`; `None`
    /// for the steps that cannot fail.
    pub fn failure(&self, message: String) -> (r: Option<Error>)
        ensures
            r == match *self {
                InitStep::InitSdl => Some(Error::SdlInit(message)),
                InitStep::AcquireVideo => Some(Error::VideoSubsystemInit(message)),
                InitStep::BuildWindow { .. } => Some(Error::WindowInit(message)),
                InitStep::CreateContext => Some(Error::ContextInit(message)),
                _ => None,
            },
    {
        match self {
            InitStep::InitSdl => Some(Error::SdlInit(message)),
            InitStep::AcquireVideo => Some(Error::VideoSubsystemInit(message)),
            InitStep::BuildWindow { .. } => Some(Error::WindowInit(message)),
            InitStep::CreateContext => Some(Error::ContextInit(message)),
            _ => None,
        }
    }
}

/// Every attribute of the context (profile, major and minor version, debug
/// flag) is set before the window is built, so before the context exists;
/// each is set exactly once, and the window is built exactly once.
pub proof fn lemma_attributes_before_window(width: u32, height: u32, major: u8, minor: u8)
    ensures
        ({
            let steps = spec_init_steps(width, height, major, minor);
            &&& forall|i: int, j: int|
                0 <= i < steps.len() && 0 <= j < steps.len() && is_attribute(#[trigger] steps[i])
                    && (#[trigger] steps[j] matches InitStep::BuildWindow { .. }) ==> i < j
            &&& steps.filter(|s: InitStep| s == InitStep::SetCoreProfile).len() == 1
            &&& steps.filter(|s: InitStep| s == InitStep::SetMajorVersion(major)).len() == 1
            &&& steps.filter(|s: InitStep| s == InitStep::SetMinorVersion(minor)).len() == 1
            &&& steps.filter(|s: InitStep| s == InitStep::SetDebugFlag).len() == 1
            &&& steps.filter(|s: InitStep| s matches InitStep::BuildWindow { .. }).len() == 1
        }),
{
    let steps = spec_init_steps(width, height, major, minor);
    assert forall|i: int, j: int|
        0 <= i < steps.len() && 0 <= j < steps.len() && is_attribute(#[trigger] steps[i])
            && (#[trigger] steps[j] matches InitStep::BuildWindow { .. }) implies i < j by {
        assert(2 <= i <= 5);
        assert(j == 6);
    }
    reveal_with_fuel(Seq::filter, 10);
    assert(steps.drop_last().drop_last().drop_last().drop_last().drop_last().drop_last().drop_last().drop_last().drop_last() =~= Seq::<InitStep>::empty());
}

} // verus!
