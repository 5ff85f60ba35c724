use futures::{Async, Poll};
use relm::{create_widget, AddWidget, Created, EventLoop, Job, Relm, Turn, Widget};

#[derive(Clone, Debug, PartialEq)]
enum Msg {
    Add(i64),
    Reset,
}

#[derive(Debug, PartialEq)]
enum Work {
    Subscription(&'static str),
    After(Msg, i64),
}

struct Counter {
    total: i64,
    log: Vec<&'static str>,
    seen: Vec<Msg>,
    container: String,
    handle: u8,
}

impl Widget<Msg> for Counter {
    type Container = String;
    type Task = Work;
    type Handle = u8;
    type Stream = &'static str;

    fn new(relm: Relm<u8, &'static str>) -> Self {
        Counter {
            total: 0,
            log: vec!["new"],
            seen: Vec::new(),
            container: format!("counter on {}", relm.stream()),
            handle: *relm.handle(),
        }
    }

    fn connect_events(&mut self) {
        assert_eq!(self.log, vec!["new"]);
        self.log.push("connect_events");
    }

    fn subscriptions(&self) -> Vec<Work> {
        assert_eq!(self.log, vec!["new", "connect_events"]);
        vec![Work::Subscription("clock"), Work::Subscription("socket")]
    }

    fn update(&mut self, message: Msg) -> Work {
        match message {
            Msg::Add(n) => self.total += n,
            Msg::Reset => self.total = 0,
        }
        self.seen.push(message.clone());
        Work::After(message, self.total)
    }

    fn container(&self) -> &String {
        &self.container
    }
}

fn bring_up() -> Created<Counter, Msg> {
    create_widget::<Counter, Msg>(&9u8, "bus-1")
}

#[test]
fn widget_is_built_then_wired_before_subscriptions_are_taken() {
    let created = bring_up();
    let widget = created.event_loop.widget();
    assert_eq!(widget.log, vec!["new", "connect_events"]);
    assert_eq!(widget.handle, 9u8);
    assert_eq!(
        created.subscriptions,
        vec![Work::Subscription("clock"), Work::Subscription("socket")]
    );
    assert_eq!(created.container, "counter on bus-1");
    assert_eq!(*created.event_loop.stream(), "bus-1");
    assert!(!created.event_loop.is_stopped());
}

#[test]
fn subscriptions_are_started_before_the_loop() {
    let (container, jobs) = bring_up().spawn_order();
    assert_eq!(container, "counter on bus-1");
    assert_eq!(jobs.len(), 3);
    let mut jobs = jobs.into_iter();
    assert!(matches!(jobs.next(), Some(Job::Work(Work::Subscription("clock")))));
    assert!(matches!(jobs.next(), Some(Job::Work(Work::Subscription("socket")))));
    match jobs.next() {
        Some(Job::Consume(event_loop)) => assert_eq!(*event_loop.stream(), "bus-1"),
        _ => panic!("the loop comes last"),
    }
    assert!(jobs.next().is_none());
}

#[test]
fn messages_reach_update_in_order() {
    let mut event_loop = bring_up().event_loop;
    let tasks = event_loop.deliver(vec![Msg::Add(2), Msg::Add(3), Msg::Reset, Msg::Add(5)]);
    assert_eq!(
        tasks,
        vec![
            Work::After(Msg::Add(2), 2),
            Work::After(Msg::Add(3), 5),
            Work::After(Msg::Reset, 0),
            Work::After(Msg::Add(5), 5),
        ]
    );
    assert_eq!(
        event_loop.widget().seen,
        vec![Msg::Add(2), Msg::Add(3), Msg::Reset, Msg::Add(5)]
    );
    assert_eq!(event_loop.widget().total, 5);
}

#[test]
fn delivering_nothing_changes_nothing() {
    let mut event_loop = bring_up().event_loop;
    let tasks = event_loop.deliver(Vec::new());
    assert!(tasks.is_empty());
    assert_eq!(event_loop.widget().total, 0);
}

#[test]
fn one_turn_per_poll_of_the_bus() {
    let mut event_loop: EventLoop<Counter, &'static str> = bring_up().event_loop;
    let nothing: Poll<Option<Msg>, ()> = Ok(Async::NotReady);
    assert!(matches!(event_loop.poll(nothing), Turn::Pending));
    let first: Poll<Option<Msg>, ()> = Ok(Async::Ready(Some(Msg::Add(4))));
    match event_loop.poll(first) {
        Turn::Spawn(task) => assert_eq!(task, Work::After(Msg::Add(4), 4)),
        _ => panic!("a message is handed to update"),
    }
    let second: Poll<Option<Msg>, ()> = Ok(Async::Ready(Some(Msg::Add(1))));
    match event_loop.poll(second) {
        Turn::Spawn(task) => assert_eq!(task, Work::After(Msg::Add(1), 5)),
        _ => panic!("a message is handed to update"),
    }
    assert!(!event_loop.is_stopped());
    let end: Poll<Option<Msg>, ()> = Ok(Async::Ready(None));
    assert!(matches!(event_loop.poll(end), Turn::Finished));
    assert!(event_loop.is_stopped());
    let late: Poll<Option<Msg>, ()> = Ok(Async::Ready(Some(Msg::Add(100))));
    assert!(matches!(event_loop.poll(late), Turn::Finished));
    assert_eq!(event_loop.widget().total, 5);
}

#[test]
fn a_failing_bus_stops_the_loop_with_the_failure() {
    let mut event_loop = bring_up().event_loop;
    let failure: Poll<Option<Msg>, &str> = Err("bus down");
    match event_loop.poll(failure) {
        Turn::Failed(error) => assert_eq!(error, "bus down"),
        _ => panic!("the failure of the bus ends the loop"),
    }
    assert!(event_loop.is_stopped());
}

struct Window {
    children: Vec<String>,
}

impl AddWidget<String> for Window {
    fn add(&mut self, child: &String) {
        self.children.push(child.clone());
    }
}

#[test]
fn a_child_is_attached_and_runs_on_its_own() {
    let mut window = Window { children: Vec::new() };
    let created = window.add_widget::<Counter, Msg>(&1u8, "child-bus");
    assert_eq!(window.children, vec!["counter on child-bus".to_string()]);
    assert_eq!(created.container, "counter on child-bus");
    assert_eq!(created.subscriptions.len(), 2);
    let mut event_loop = created.event_loop;
    let message: Poll<Option<Msg>, ()> = Ok(Async::Ready(Some(Msg::Add(8))));
    assert!(matches!(event_loop.poll(message), Turn::Spawn(_)));
    assert_eq!(event_loop.widget().total, 8);
}

#[test]
fn two_children_do_not_share_a_loop() {
    let mut window = Window { children: Vec::new() };
    let mut left = window.add_widget::<Counter, Msg>(&1u8, "left").event_loop;
    let mut right = window.add_widget::<Counter, Msg>(&1u8, "right").event_loop;
    assert_eq!(
        window.children,
        vec!["counter on left".to_string(), "counter on right".to_string()]
    );
    left.deliver(vec![Msg::Add(1), Msg::Add(1)]);
    right.deliver(vec![Msg::Add(10)]);
    assert_eq!(left.widget().total, 2);
    assert_eq!(right.widget().total, 10);
}

#[test]
fn two_batches_are_one_run() {
    let mut split = bring_up().event_loop;
    let mut first = split.deliver(vec![Msg::Add(1), Msg::Add(2)]);
    let second = split.deliver(vec![Msg::Reset, Msg::Add(7)]);
    first.extend(second);
    let mut whole = bring_up().event_loop;
    let all = whole.deliver(vec![Msg::Add(1), Msg::Add(2), Msg::Reset, Msg::Add(7)]);
    assert_eq!(first, all);
    assert_eq!(split.widget().total, whole.widget().total);
    assert_eq!(split.widget().seen, whole.widget().seen);
}

#[test]
fn a_stopped_loop_hands_on_nothing() {
    let mut event_loop = bring_up().event_loop;
    let end: Poll<Option<Msg>, ()> = Ok(Async::Ready(None));
    assert!(matches!(event_loop.poll(end), Turn::Finished));
    let tasks = event_loop.deliver(vec![Msg::Add(1)]);
    assert!(tasks.is_empty());
    assert_eq!(event_loop.widget().total, 0);
    assert!(event_loop.is_stopped());
}
