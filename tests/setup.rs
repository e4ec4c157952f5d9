use glscene::event::{Event, XMapEvent};
use glscene::setup::{
    context_attributes, fb_attributes, is_map_of, select_config, Command, Report, Setup,
    SetupError, Stage,
};

fn mapped(window: u64) -> Event {
    Event::MapNotify(XMapEvent {
        type_: 19,
        serial: 0,
        send_event: 0,
        display: 0,
        event: window,
        window,
        override_redirect: 0,
    })
}

fn up_to_config() -> Setup {
    let mut s = Setup::new();
    assert_eq!(s.command(), Command::OpenDisplay);
    s.report(Report::DisplayOpened(true));
    assert_eq!(s.command(), Command::ChooseConfig);
    s
}

#[test]
fn selection_takes_the_first_match() {
    assert_eq!(select_config(1), Ok(0));
    assert_eq!(select_config(12), Ok(0));
    assert_eq!(select_config(0), Err(SetupError::NoMatchingConfiguration));
}

#[test]
fn same_answer_chooses_same_configuration() {
    let mut a = up_to_config();
    let mut b = up_to_config();
    a.report(Report::ConfigsFound(7));
    b.report(Report::ConfigsFound(7));
    assert_eq!(a.command(), Command::GetVisual { config: 0 });
    assert_eq!(a.command(), b.command());
    assert_eq!(a.config, Some(0));
}

#[test]
fn no_matching_configuration_creates_nothing() {
    let mut s = up_to_config();
    s.report(Report::ConfigsFound(0));
    assert_eq!(s.stage, Stage::Failed(SetupError::NoMatchingConfiguration));
    assert_eq!(
        s.command(),
        Command::Abort {
            error: SetupError::NoMatchingConfiguration,
            destroy_context: false,
            close_display: true,
        }
    );
    s.report(Report::WindowCreated(5));
    s.report(Report::ContextCreated(true));
    assert_eq!(s.window, None);
    assert!(!s.context_created);
    s.report(Report::Released);
    assert_eq!(s.command(), Command::Exit { failure: Some(SetupError::NoMatchingConfiguration) });
    s.report(Report::DisplayOpened(true));
    s.report(Report::Released);
    assert_eq!(s.command(), Command::Exit { failure: Some(SetupError::NoMatchingConfiguration) });
    assert!(!s.display_open);
}

#[test]
fn full_start_up_and_shutdown() {
    let mut s = up_to_config();
    s.report(Report::ConfigsFound(3));
    s.report(Report::VisualFound(true));
    assert_eq!(s.command(), Command::CreateWindow { config: 0 });
    s.report(Report::WindowCreated(0x0420_0002));
    assert_eq!(s.command(), Command::AwaitMap { window: 0x0420_0002 });
    s.report(Report::Observed(Event::Expose));
    s.report(Report::Observed(mapped(0x999)));
    assert_eq!(s.command(), Command::AwaitMap { window: 0x0420_0002 });
    s.report(Report::Observed(mapped(0x0420_0002)));
    assert_eq!(s.command(), Command::CreateContext { config: 0 });
    s.report(Report::ContextCreated(true));
    assert_eq!(s.command(), Command::MakeCurrent { window: 0x0420_0002 });
    s.report(Report::MadeCurrent(true));
    assert_eq!(s.command(), Command::LoadFunctions);
    s.report(Report::FunctionsLoaded(true));
    assert_eq!(s.command(), Command::BuildProgram);
    s.report(Report::ProgramBuilt(true));
    assert_eq!(s.command(), Command::RunLoop);
    s.report(Report::LoopEnded);
    assert_eq!(s.command(), Command::Release { destroy_context: true, close_display: true });
    s.report(Report::Released);
    assert_eq!(s.command(), Command::Exit { failure: None });
}

#[test]
fn each_failure_is_fatal_and_releases_what_is_held() {
    let mut s = Setup::new();
    s.report(Report::DisplayOpened(false));
    assert_eq!(
        s.command(),
        Command::Abort {
            error: SetupError::CannotOpenDisplay,
            destroy_context: false,
            close_display: false,
        }
    );

    let mut s = up_to_config();
    s.report(Report::ConfigsFound(1));
    s.report(Report::VisualFound(false));
    assert_eq!(s.stage, Stage::Failed(SetupError::NoVisual));

    let mut s = up_to_config();
    s.report(Report::ConfigsFound(1));
    s.report(Report::VisualFound(true));
    s.report(Report::WindowCreated(0));
    assert_eq!(s.stage, Stage::Failed(SetupError::WindowCreationFailed));

    let mut s = up_to_config();
    s.report(Report::ConfigsFound(1));
    s.report(Report::VisualFound(true));
    s.report(Report::WindowCreated(9));
    s.report(Report::Observed(mapped(9)));
    s.report(Report::ContextCreated(false));
    assert_eq!(
        s.command(),
        Command::Abort {
            error: SetupError::ContextCreationFailed,
            destroy_context: false,
            close_display: true,
        }
    );

    let mut s = up_to_config();
    s.report(Report::ConfigsFound(1));
    s.report(Report::VisualFound(true));
    s.report(Report::WindowCreated(9));
    s.report(Report::Observed(mapped(9)));
    s.report(Report::ContextCreated(true));
    s.report(Report::MadeCurrent(false));
    assert_eq!(
        s.command(),
        Command::Abort {
            error: SetupError::MakeCurrentFailed,
            destroy_context: true,
            close_display: true,
        }
    );
    s.report(Report::Released);
    assert_eq!(s.command(), Command::Exit { failure: Some(SetupError::MakeCurrentFailed) });
}

#[test]
fn missing_entry_points_and_program_failure() {
    let mut s = up_to_config();
    s.report(Report::ConfigsFound(1));
    s.report(Report::VisualFound(true));
    s.report(Report::WindowCreated(9));
    s.report(Report::Observed(mapped(9)));
    s.report(Report::ContextCreated(true));
    s.report(Report::MadeCurrent(true));
    let mut t = s;
    s.report(Report::FunctionsLoaded(false));
    assert_eq!(s.stage, Stage::Failed(SetupError::EntryPointMissing));
    t.report(Report::FunctionsLoaded(true));
    t.report(Report::ProgramBuilt(false));
    assert_eq!(t.stage, Stage::Failed(SetupError::ProgramBuildFailed));
}

#[test]
fn reports_out_of_turn_are_ignored() {
    let mut s = Setup::new();
    s.report(Report::ConfigsFound(2));
    s.report(Report::ContextCreated(true));
    s.report(Report::Released);
    assert_eq!(s, Setup::new());
    assert_eq!(s.command(), Command::OpenDisplay);
}

#[test]
fn map_check_wants_this_window() {
    assert!(is_map_of(&mapped(4), 4));
    assert!(!is_map_of(&mapped(4), 5));
    assert!(!is_map_of(&Event::Expose, 4));
}

#[test]
fn attribute_lists_are_fixed() {
    assert_eq!(
        fb_attributes(),
        vec![
            0x8012, 1, 0x8010, 1, 0x8011, 1, 8, 8, 9, 8, 10, 8, 11, 8, 12, 24, 5, 1, 0
        ]
    );
    assert_eq!(context_attributes(), vec![0x2091, 4, 0x2092, 2, 0x9126, 1, 0]);
}
