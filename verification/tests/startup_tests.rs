use relm::{Directive, Error, Relm, Report, Stage, Widget};

struct Never;

impl Widget<u8> for Never {
    type Container = ();
    type Task = ();
    type Handle = u8;
    type Stream = u8;

    fn new(_relm: Relm<u8, u8>) -> Self {
        panic!("no widget may be built")
    }

    fn connect_events(&mut self) {}

    fn subscriptions(&self) -> Vec<()> {
        Vec::new()
    }

    fn update(&mut self, _message: u8) {}

    fn container(&self) -> &() {
        &()
    }
}

struct Root {
    handle: u8,
    bus: u8,
    wired: bool,
}

impl Widget<u8> for Root {
    type Container = u16;
    type Task = &'static str;
    type Handle = u8;
    type Stream = u8;

    fn new(relm: Relm<u8, u8>) -> Self {
        Root { handle: *relm.handle(), bus: *relm.stream(), wired: false }
    }

    fn connect_events(&mut self) {
        self.wired = true;
    }

    fn subscriptions(&self) -> Vec<&'static str> {
        vec!["timer"]
    }

    fn update(&mut self, _message: u8) -> &'static str {
        "redraw"
    }

    fn container(&self) -> &u16 {
        &640
    }
}

fn name<D: Widget<u8>>(directive: &Directive<D, u8>) -> &'static str {
    match directive {
        Directive::Reactor => "reactor",
        Directive::Run(_) => "run",
        Directive::Return(Ok(())) => "return ok",
        Directive::Return(Err(Error::GtkInit)) => "return gtk",
        Directive::Return(Err(Error::Io(_))) => "return io",
        Directive::Nothing => "nothing",
    }
}

#[test]
fn failed_toolkit_returns_its_error_and_builds_nothing() {
    let mut stage = Stage::Toolkit;
    let directive = Relm::run::<Never, u8>(&mut stage, Report::Toolkit(Err(())));
    assert!(matches!(directive, Directive::Return(Err(Error::GtkInit))));
    assert!(matches!(stage, Stage::Stopped));
    let late = Relm::run::<Never, u8>(&mut stage, Report::Reactor(Ok((1, 2))));
    assert_eq!(name(&late), "nothing");
    assert!(matches!(stage, Stage::Stopped));
    let later = Relm::run::<Never, u8>(&mut stage, Report::LoopEnded);
    assert_eq!(name(&later), "nothing");
    let again = Relm::run::<Never, u8>(&mut stage, Report::Toolkit(Ok(())));
    assert_eq!(name(&again), "nothing");
    assert!(matches!(stage, Stage::Stopped));
}

#[test]
fn failed_reactor_returns_the_io_error_and_builds_nothing() {
    let mut stage = Stage::Toolkit;
    let first = Relm::run::<Never, u8>(&mut stage, Report::Toolkit(Ok(())));
    assert_eq!(name(&first), "reactor");
    assert!(matches!(stage, Stage::Reactor));
    let failure = std::io::Error::new(std::io::ErrorKind::PermissionDenied, "no epoll");
    match Relm::run::<Never, u8>(&mut stage, Report::Reactor(Err(failure))) {
        Directive::Return(Err(Error::Io(error))) => {
            assert_eq!(error.kind(), std::io::ErrorKind::PermissionDenied);
            assert_eq!(format!("{}", error), "no epoll");
        },
        other => panic!("expected the I/O failure, got {}", name(&other)),
    }
    assert!(matches!(stage, Stage::Stopped));
}

#[test]
fn start_up_runs_through_its_steps() {
    let mut stage = Stage::Toolkit;
    let first = Relm::run::<Root, u8>(&mut stage, Report::Toolkit(Ok(())));
    assert_eq!(name(&first), "reactor");
    match Relm::run::<Root, u8>(&mut stage, Report::Reactor(Ok((3, 4)))) {
        Directive::Run(created) => {
            assert_eq!(created.container, 640);
            assert_eq!(created.subscriptions, vec!["timer"]);
            let root = created.event_loop.widget();
            assert!(root.wired);
            assert_eq!(root.handle, 3);
            assert_eq!(root.bus, 4);
            assert_eq!(*created.event_loop.stream(), 4);
        },
        other => panic!("expected the root widget, got {}", name(&other)),
    }
    assert!(matches!(stage, Stage::Loop));
    let last = Relm::run::<Root, u8>(&mut stage, Report::LoopEnded);
    assert_eq!(name(&last), "return ok");
    assert!(matches!(stage, Stage::Stopped));
}

#[test]
fn a_report_out_of_turn_changes_nothing() {
    let mut stage = Stage::Toolkit;
    let early = Relm::run::<Never, u8>(&mut stage, Report::Reactor(Ok((1, 2))));
    assert_eq!(name(&early), "nothing");
    assert!(matches!(stage, Stage::Toolkit));
    let ended = Relm::run::<Never, u8>(&mut stage, Report::LoopEnded);
    assert_eq!(name(&ended), "nothing");
    assert!(matches!(stage, Stage::Toolkit));
    let mut stage = Stage::Reactor;
    let repeated = Relm::run::<Never, u8>(&mut stage, Report::Toolkit(Err(())));
    assert_eq!(name(&repeated), "nothing");
    assert!(matches!(stage, Stage::Reactor));
    let mut stage = Stage::Loop;
    let rebuilt = Relm::run::<Never, u8>(&mut stage, Report::Reactor(Ok((1, 2))));
    assert_eq!(name(&rebuilt), "nothing");
    assert!(matches!(stage, Stage::Loop));
}
