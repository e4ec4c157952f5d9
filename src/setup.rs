//! The start-up handshake as a state machine.
//!
//! Bringing up the window and the graphics context is a fixed sequence of
//! calls into the window system and the driver, each of which may fail:
//! open the display, choose a framebuffer configuration, get its visual,
//! create a window with that visual, wait until the server has mapped it,
//! create a context for the configuration, make it current, resolve the
//! driver's entry points and build the shader program. [`Setup`] decides
//! what comes next: [`Setup::command`] names the next call, the caller makes
//! it and hands its outcome to [`Setup::report`]. A failure at any point is
//! fatal; the machine then asks for what has been acquired to be released,
//! exactly once, and ends.
use vstd::prelude::*;
use crate::event::Event;

verus! {

pub const X_RENDERABLE: i32 = 0x8012;
pub const DRAWABLE_TYPE: i32 = 0x8010;
pub const RENDER_TYPE: i32 = 0x8011;
pub const RGBA_BIT: i32 = 0x1;
pub const WINDOW_BIT: i32 = 0x1;
pub const RED_SIZE: i32 = 8;
pub const GREEN_SIZE: i32 = 9;
pub const BLUE_SIZE: i32 = 10;
pub const ALPHA_SIZE: i32 = 11;
pub const DEPTH_SIZE: i32 = 12;
pub const DOUBLEBUFFER: i32 = 5;
pub const CONTEXT_MAJOR_VERSION: i32 = 0x2091;
pub const CONTEXT_MINOR_VERSION: i32 = 0x2092;
pub const CONTEXT_PROFILE_MASK: i32 = 0x9126;
pub const CONTEXT_CORE_PROFILE_BIT: i32 = 0x1;

/// Major and minor version of the core-profile context that is asked for.
pub const GL_MAJOR: i32 = 4;
pub const GL_MINOR: i32 = 2;

/// Why start-up stopped.
#[derive(Clone, Copy, Debug, PartialEq, Eq)]
pub enum SetupError {
    CannotOpenDisplay,
    NoMatchingConfiguration,
    NoVisual,
    WindowCreationFailed,
    ContextCreationFailed,
    MakeCurrentFailed,
    EntryPointMissing,
    ProgramBuildFailed,
}

/// Where start-up stands: each waiting stage names the call to be made next.
#[derive(Clone, Copy, Debug, PartialEq, Eq)]
pub enum Stage {
    OpenDisplay,
    ChooseConfig,
    GetVisual,
    CreateWindow,
    AwaitMap,
    CreateContext,
    MakeCurrent,
    LoadFunctions,
    BuildProgram,
    /// Everything is up; the render loop runs.
    Running,
    /// The render loop has ended; resources are being released.
    ShuttingDown,
    /// A step failed; what was acquired is being released.
    Failed(SetupError),
    /// Nothing is held any more: the program ends, with the error if one stopped it.
    Exited(Option<SetupError>),
}

/// The outcome of a call, as the caller reports it.
#[derive(Clone, Copy, Debug, PartialEq, Eq)]
pub enum Report {
    DisplayOpened(bool),
    /// How many configurations matched [`fb_attributes`].
    ConfigsFound(usize),
    VisualFound(bool),
    /// The id the server gave the new window; 0 when creation failed.
    WindowCreated(u64),
    /// An event that arrived while waiting for the window to be mapped.
    Observed(Event),
    ContextCreated(bool),
    MadeCurrent(bool),
    /// Whether every required entry point was resolved.
    FunctionsLoaded(bool),
    ProgramBuilt(bool),
    LoopEnded,
    Released,
}

/// The call to make next.
#[derive(Clone, Copy, Debug, PartialEq, Eq)]
pub enum Command {
    OpenDisplay,
    /// Ask the server for the configurations that match [`fb_attributes`].
    ChooseConfig,
    GetVisual { config: usize },
    /// Create and map a window with the depth and visual of configuration `config`.
    CreateWindow { config: usize },
    /// Wait for the next event; the window is not yet known to be mapped.
    AwaitMap { window: u64 },
    /// Create a context with [`context_attributes`] for configuration `config`.
    CreateContext { config: usize },
    MakeCurrent { window: u64 },
    LoadFunctions,
    BuildProgram,
    RunLoop,
    /// Release what is held after a normal end of the render loop.
    Release { destroy_context: bool, close_display: bool },
    /// Release what is held after `error`.
    Abort { error: SetupError, destroy_context: bool, close_display: bool },
    /// End the program, with failure when `failure` is present.
    Exit { failure: Option<SetupError> },
}

/// The start-up machine's state and the resources it holds.
#[derive(Clone, Copy, Debug, PartialEq, Eq)]
pub struct Setup {
    pub stage: Stage,
    pub display_open: bool,
    /// Index of the chosen framebuffer configuration.
    pub config: Option<usize>,
    pub window: Option<u64>,
    pub context_created: bool,
}

/// The chosen configuration among `count` matches: always the first, and
/// none when nothing matched.
pub open spec fn selection(count: usize) -> Result<usize, SetupError> {
    if count > 0 {
        Ok(0)
    } else {
        Err(SetupError::NoMatchingConfiguration)
    }
}

/// Picks the configuration to use among the `count` that matched.
pub fn select_config(count: usize) -> (r: Result<usize, SetupError>)
    ensures
        r == selection(count),
{
    if count > 0 {
        Ok(0)
    } else {
        Err(SetupError::NoMatchingConfiguration)
    }
}

/// Whether `e` tells that `window` has been mapped.
pub open spec fn maps_window(e: Event, window: u64) -> bool {
    match e {
        Event::MapNotify(m) => m.window == window,
        _ => false,
    }
}

/// Tells whether `e` is the notification that `window` has been mapped.
pub fn is_map_of(e: &Event, window: u64) -> (r: bool)
    ensures
        r == maps_window(*e, window),
{
    match e {
        Event::MapNotify(m) => m.window == window,
        _ => false,
    }
}

/// The attribute list for choosing a framebuffer configuration: renderable
/// into a window, RGBA with 8 bits per channel, a 24-bit depth buffer and
/// double buffering, closed by 0.
pub fn fb_attributes() -> (r: Vec<i32>)
    ensures
        r@ == seq![
            X_RENDERABLE, 1,
            DRAWABLE_TYPE, WINDOW_BIT,
            RENDER_TYPE, RGBA_BIT,
            RED_SIZE, 8i32,
            GREEN_SIZE, 8,
            BLUE_SIZE, 8,
            ALPHA_SIZE, 8,
            DEPTH_SIZE, 24,
            DOUBLEBUFFER, 1,
            0,
        ],
{
    vec![
        X_RENDERABLE, 1,
        DRAWABLE_TYPE, WINDOW_BIT,
        RENDER_TYPE, RGBA_BIT,
        RED_SIZE, 8,
        GREEN_SIZE, 8,
        BLUE_SIZE, 8,
        ALPHA_SIZE, 8,
        DEPTH_SIZE, 24,
        DOUBLEBUFFER, 1,
        0,
    ]
}

/// The attribute list for creating the context: the fixed core-profile
/// version, closed by 0.
pub fn context_attributes() -> (r: Vec<i32>)
    ensures
        r@ == seq![
            CONTEXT_MAJOR_VERSION, GL_MAJOR,
            CONTEXT_MINOR_VERSION, GL_MINOR,
            CONTEXT_PROFILE_MASK, CONTEXT_CORE_PROFILE_BIT,
            0i32,
        ],
{
    vec![
        CONTEXT_MAJOR_VERSION, GL_MAJOR,
        CONTEXT_MINOR_VERSION, GL_MINOR,
        CONTEXT_PROFILE_MASK, CONTEXT_CORE_PROFILE_BIT,
        0,
    ]
}

/// The stage that a failure with `e` leads to.
pub open spec fn fail(s: Setup, e: SetupError) -> Setup {
    Setup { stage: Stage::Failed(e), ..s }
}

/// The state after the outcome `r` of the pending call. An outcome that does
/// not answer the pending call changes nothing.
pub open spec fn next(s: Setup, r: Report) -> Setup {
    match (s.stage, r) {
        (Stage::OpenDisplay, Report::DisplayOpened(ok)) => if ok {
            Setup { stage: Stage::ChooseConfig, display_open: true, ..s }
        } else {
            fail(s, SetupError::CannotOpenDisplay)
        },
        (Stage::ChooseConfig, Report::ConfigsFound(n)) => match selection(n) {
            Ok(i) => Setup { stage: Stage::GetVisual, config: Some(i), ..s },
            Err(e) => fail(s, e),
        },
        (Stage::GetVisual, Report::VisualFound(ok)) => if ok {
            Setup { stage: Stage::CreateWindow, ..s }
        } else {
            fail(s, SetupError::NoVisual)
        },
        (Stage::CreateWindow, Report::WindowCreated(id)) => if id != 0 {
            Setup { stage: Stage::AwaitMap, window: Some(id), ..s }
        } else {
            fail(s, SetupError::WindowCreationFailed)
        },
        (Stage::AwaitMap, Report::Observed(e)) => if maps_window(e, s.window.unwrap()) {
            Setup { stage: Stage::CreateContext, ..s }
        } else {
            s
        },
        (Stage::CreateContext, Report::ContextCreated(ok)) => if ok {
            Setup { stage: Stage::MakeCurrent, context_created: true, ..s }
        } else {
            fail(s, SetupError::ContextCreationFailed)
        },
        (Stage::MakeCurrent, Report::MadeCurrent(ok)) => if ok {
            Setup { stage: Stage::LoadFunctions, ..s }
        } else {
            fail(s, SetupError::MakeCurrentFailed)
        },
        (Stage::LoadFunctions, Report::FunctionsLoaded(ok)) => if ok {
            Setup { stage: Stage::BuildProgram, ..s }
        } else {
            fail(s, SetupError::EntryPointMissing)
        },
        (Stage::BuildProgram, Report::ProgramBuilt(ok)) => if ok {
            Setup { stage: Stage::Running, ..s }
        } else {
            fail(s, SetupError::ProgramBuildFailed)
        },
        (Stage::Running, Report::LoopEnded) => Setup { stage: Stage::ShuttingDown, ..s },
        (Stage::ShuttingDown, Report::Released) => Setup {
            stage: Stage::Exited(None),
            display_open: false,
            context_created: false,
            ..s
        },
        (Stage::Failed(e), Report::Released) => Setup {
            stage: Stage::Exited(Some(e)),
            display_open: false,
            context_created: false,
            ..s
        },
        _ => s,
    }
}

/// The call that state `s` waits on.
pub open spec fn command_of(s: Setup) -> Command {
    match s.stage {
        Stage::OpenDisplay => Command::OpenDisplay,
        Stage::ChooseConfig => Command::ChooseConfig,
        Stage::GetVisual => Command::GetVisual { config: s.config.unwrap() },
        Stage::CreateWindow => Command::CreateWindow { config: s.config.unwrap() },
        Stage::AwaitMap => Command::AwaitMap { window: s.window.unwrap() },
        Stage::CreateContext => Command::CreateContext { config: s.config.unwrap() },
        Stage::MakeCurrent => Command::MakeCurrent { window: s.window.unwrap() },
        Stage::LoadFunctions => Command::LoadFunctions,
        Stage::BuildProgram => Command::BuildProgram,
        Stage::Running => Command::RunLoop,
        Stage::ShuttingDown => Command::Release {
            destroy_context: s.context_created,
            close_display: s.display_open,
        },
        Stage::Failed(e) => Command::Abort {
            error: e,
            destroy_context: s.context_created,
            close_display: s.display_open,
        },
        Stage::Exited(e) => Command::Exit { failure: e },
    }
}

impl Setup {
    /// What each stage implies about the resources held: the display is open
    /// from the configuration choice to the end; a configuration is chosen
    /// before a visual, a window or a context is asked for; the window exists
    /// before the context, and the context before it is made current.
    pub open spec fn wf(self) -> bool {
        match self.stage {
            Stage::OpenDisplay => !self.display_open && self.config is None && self.window is None
                && !self.context_created,
            Stage::ChooseConfig => self.display_open && self.config is None && self.window is None
                && !self.context_created,
            Stage::GetVisual | Stage::CreateWindow => self.display_open && self.config == Some(
                0usize,
            ) && self.window is None && !self.context_created,
            Stage::AwaitMap | Stage::CreateContext => self.display_open && self.config == Some(
                0usize,
            ) && self.window is Some && !self.context_created,
            Stage::MakeCurrent | Stage::LoadFunctions | Stage::BuildProgram | Stage::Running
            | Stage::ShuttingDown => self.display_open && self.config == Some(0usize)
                && self.window is Some && self.context_created,
            Stage::Failed(_) => self.context_created ==> (self.display_open && self.window is Some),
            Stage::Exited(_) => !self.display_open && !self.context_created,
        }
    }

    pub fn new() -> (r: Setup)
        ensures
            r.stage == Stage::OpenDisplay,
            r.wf(),
    {
        Setup {
            stage: Stage::OpenDisplay,
            display_open: false,
            config: None,
            window: None,
            context_created: false,
        }
    }

    /// The call to make next.
    pub fn command(&self) -> (r: Command)
        requires
            self.wf(),
        ensures
            r == command_of(*self),
    {
        match self.stage {
            Stage::OpenDisplay => Command::OpenDisplay,
            Stage::ChooseConfig => Command::ChooseConfig,
            Stage::GetVisual => Command::GetVisual { config: self.config.unwrap() },
            Stage::CreateWindow => Command::CreateWindow { config: self.config.unwrap() },
            Stage::AwaitMap => Command::AwaitMap { window: self.window.unwrap() },
            Stage::CreateContext => Command::CreateContext { config: self.config.unwrap() },
            Stage::MakeCurrent => Command::MakeCurrent { window: self.window.unwrap() },
            Stage::LoadFunctions => Command::LoadFunctions,
            Stage::BuildProgram => Command::BuildProgram,
            Stage::Running => Command::RunLoop,
            Stage::ShuttingDown => Command::Release {
                destroy_context: self.context_created,
                close_display: self.display_open,
            },
            Stage::Failed(e) => Command::Abort {
                error: e,
                destroy_context: self.context_created,
                close_display: self.display_open,
            },
            Stage::Exited(e) => Command::Exit { failure: e },
        }
    }

    fn fail(&mut self, e: SetupError)
        ensures
            *final(self) == fail(*old(self), e),
    {
        self.stage = Stage::Failed(e);
    }

    /// Takes the outcome of the pending call.
    pub fn report(&mut self, r: Report)
        requires
            old(self).wf(),
        ensures
            *final(self) == next(*old(self), r),
            final(self).wf(),
    {
        match (self.stage, r) {
            (Stage::OpenDisplay, Report::DisplayOpened(ok)) => {
                if ok {
                    self.stage = Stage::ChooseConfig;
                    self.display_open = true;
                } else {
                    self.fail(SetupError::CannotOpenDisplay);
                }
            },
            (Stage::ChooseConfig, Report::ConfigsFound(n)) => {
                match select_config(n) {
                    Ok(i) => {
                        self.stage = Stage::GetVisual;
                        self.config = Some(i);
                    },
                    Err(e) => self.fail(e),
                }
            },
            (Stage::GetVisual, Report::VisualFound(ok)) => {
                if ok {
                    self.stage = Stage::CreateWindow;
                } else {
                    self.fail(SetupError::NoVisual);
                }
            },
            (Stage::CreateWindow, Report::WindowCreated(id)) => {
                if id != 0 {
                    self.stage = Stage::AwaitMap;
                    self.window = Some(id);
                } else {
                    self.fail(SetupError::WindowCreationFailed);
                }
            },
            (Stage::AwaitMap, Report::Observed(e)) => {
                if is_map_of(&e, self.window.unwrap()) {
                    self.stage = Stage::CreateContext;
                }
            },
            (Stage::CreateContext, Report::ContextCreated(ok)) => {
                if ok {
                    self.stage = Stage::MakeCurrent;
                    self.context_created = true;
                } else {
                    self.fail(SetupError::ContextCreationFailed);
                }
            },
            (Stage::MakeCurrent, Report::MadeCurrent(ok)) => {
                if ok {
                    self.stage = Stage::LoadFunctions;
                } else {
                    self.fail(SetupError::MakeCurrentFailed);
                }
            },
            (Stage::LoadFunctions, Report::FunctionsLoaded(ok)) => {
                if ok {
                    self.stage = Stage::BuildProgram;
                } else {
                    self.fail(SetupError::EntryPointMissing);
                }
            },
            (Stage::BuildProgram, Report::ProgramBuilt(ok)) => {
                if ok {
                    self.stage = Stage::Running;
                } else {
                    self.fail(SetupError::ProgramBuildFailed);
                }
            },
            (Stage::Running, Report::LoopEnded) => {
                self.stage = Stage::ShuttingDown;
            },
            (Stage::ShuttingDown, Report::Released) => {
                self.stage = Stage::Exited(None);
                self.display_open = false;
                self.context_created = false;
            },
            (Stage::Failed(e), Report::Released) => {
                self.stage = Stage::Exited(Some(e));
                self.display_open = false;
                self.context_created = false;
            },
            _ => {},
        }
    }
}

/// The state after the outcomes `rs`, taken in order from `s`.
pub open spec fn run_setup(s: Setup, rs: Seq<Report>) -> Setup
    decreases rs.len(),
{
    if rs.len() == 0 {
        s
    } else {
        next(run_setup(s, rs.drop_last()), rs.last())
    }
}

/// Whether `c` asks for a call that acquires or uses a resource of start-up
/// or of the render loop, as opposed to releasing or exiting.
pub open spec fn moves_forward(c: Command) -> bool {
    !(c is Release || c is Abort || c is Exit)
}

/// Every outcome keeps the machine well formed.
pub proof fn lemma_next_keeps_wf(s: Setup, r: Report)
    requires
        s.wf(),
    ensures
        next(s, r).wf(),
{
}

/// Any sequence of outcomes keeps the machine well formed.
pub proof fn lemma_run_keeps_wf(s: Setup, rs: Seq<Report>)
    requires
        s.wf(),
    ensures
        run_setup(s, rs).wf(),
    decreases rs.len(),
{
    if rs.len() > 0 {
        lemma_run_keeps_wf(s, rs.drop_last());
        lemma_next_keeps_wf(run_setup(s, rs.drop_last()), rs.last());
    }
}

/// The order of start-up is kept: a window is asked for only with a chosen
/// configuration, a context only once the window exists and is mapped, it
/// is made current only once created, and the entry points, the program and
/// the render loop come only after it is current.
pub proof fn lemma_commands_follow_order(s: Setup)
    requires
        s.wf(),
    ensures
        command_of(s) matches Command::GetVisual { config } ==> s.display_open && s.config
            == Some(config),
        command_of(s) matches Command::CreateWindow { config } ==> s.display_open && s.config
            == Some(config),
        command_of(s) matches Command::CreateContext { config } ==> s.display_open && s.config
            == Some(config) && s.window is Some && s.stage == Stage::CreateContext,
        command_of(s) matches Command::MakeCurrent { window } ==> s.context_created && s.window
            == Some(window),
        (command_of(s) is LoadFunctions || command_of(s) is BuildProgram || command_of(s) is RunLoop)
            ==> s.context_created && s.window is Some,
{
}

/// A context is asked for only after the notification that the window is
/// mapped: from the wait, no other event leads on.
pub proof fn lemma_context_waits_for_map(s: Setup, e: Event)
    requires
        s.wf(),
        s.stage == Stage::AwaitMap,
    ensures
        next(s, Report::Observed(e)).stage == Stage::CreateContext <==> maps_window(
            e,
            s.window.unwrap(),
        ),
        !maps_window(e, s.window.unwrap()) ==> next(s, Report::Observed(e)) == s,
{
}

/// When at least one configuration matches, the first is chosen, the same
/// one every time the same answer comes back.
pub proof fn lemma_first_config_chosen(s1: Setup, s2: Setup, n: usize)
    requires
        s1.wf(),
        s2.wf(),
        s1.stage == Stage::ChooseConfig,
        s2.stage == Stage::ChooseConfig,
        n > 0,
    ensures
        selection(n) == Ok::<usize, SetupError>(0),
        command_of(next(s1, Report::ConfigsFound(n))) == (Command::GetVisual { config: 0 }),
        command_of(next(s2, Report::ConfigsFound(n))) == command_of(
            next(s1, Report::ConfigsFound(n)),
        ),
{
}

/// Once start-up has failed or ended, whatever is reported, it stays failed
/// or ended.
pub proof fn lemma_stopped_stays_stopped(s: Setup, rs: Seq<Report>)
    requires
        s.stage is Failed || s.stage is Exited,
    ensures
        run_setup(s, rs).stage is Failed || run_setup(s, rs).stage is Exited,
        s.stage is Exited ==> run_setup(s, rs) == s,
    decreases rs.len(),
{
    if rs.len() > 0 {
        lemma_stopped_stays_stopped(s, rs.drop_last());
    }
}

/// When no configuration matches, start-up fails with
/// `NoMatchingConfiguration`: the display is closed, and whatever is reported
/// afterwards, no visual, window or context is ever asked for.
pub proof fn lemma_no_match_creates_nothing(s: Setup, rs: Seq<Report>)
    requires
        s.wf(),
        s.stage == Stage::ChooseConfig,
    ensures
        next(s, Report::ConfigsFound(0)).stage == Stage::Failed(
            SetupError::NoMatchingConfiguration,
        ),
        command_of(next(s, Report::ConfigsFound(0))) == (Command::Abort {
            error: SetupError::NoMatchingConfiguration,
            destroy_context: false,
            close_display: true,
        }),
        !moves_forward(command_of(run_setup(next(s, Report::ConfigsFound(0)), rs))),
{
    lemma_stopped_stays_stopped(next(s, Report::ConfigsFound(0)), rs);
}

/// After the release that follows a failure or the end of the loop, nothing
/// is held and the only call left is to exit: nothing is released twice.
pub proof fn lemma_released_once(s: Setup, rs: Seq<Report>)
    requires
        s.wf(),
        s.stage is Failed || s.stage is ShuttingDown,
    ensures
        !run_setup(next(s, Report::Released), rs).display_open,
        !run_setup(next(s, Report::Released), rs).context_created,
        command_of(run_setup(next(s, Report::Released), rs)) is Exit,
{
    lemma_stopped_stays_stopped(next(s, Report::Released), rs);
}

} // verus!
