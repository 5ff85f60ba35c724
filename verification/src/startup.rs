//! Start-up: the toolkit is initialised, the reactor is built, the root
//! widget is brought up and the main loop is run, in this order, and the
//! first failure ends it. The driver performs each step and reports; what is
//! due next is decided here.

use crate::context::Relm;
use crate::error::Error;
use crate::widget::{create_widget, created, Created, Widget};
use vstd::prelude::*;

verus! {

/// The step of start-up that is due.
pub enum Stage {
    /// The toolkit is to be initialised.
    Toolkit,
    /// The reactor is to be built.
    Reactor,
    /// The root widget is up and the main loop is to be run to its end.
    Loop,
    /// Start-up has returned.
    Stopped,
}

/// What the driver reports of the step it performed.
pub enum Report<H, S> {
    /// The toolkit was initialised, or could not be.
    Toolkit(Result<(), ()>),
    /// The reactor was built and gave a handle, beside which stands the new
    /// bus for the root widget; or it could not be built.
    Reactor(Result<(H, S), std::io::Error>),
    /// The main loop has stopped.
    LoopEnded,
}

/// What start-up asks of the driver next.
pub enum Directive<D: Widget<M>, M: Clone> {
    /// Build the reactor and report.
    Reactor,
    /// The root widget is up: start what `spawn_order` names, mount the
    /// container, run the main loop until it stops, and report.
    Run(Created<D, M>),
    /// Return this to the caller.
    Return(Result<(), Error>),
    /// The report does not answer the step that is due: nothing changes.
    Nothing,
}

/// The step that is due after `report` was given at `stage`.
pub open spec fn stage_after<H, S>(stage: Stage, report: Report<H, S>) -> Stage {
    match (stage, report) {
        (Stage::Toolkit, Report::Toolkit(Ok(_))) => Stage::Reactor,
        (Stage::Toolkit, Report::Toolkit(Err(_))) => Stage::Stopped,
        (Stage::Reactor, Report::Reactor(Ok(_))) => Stage::Loop,
        (Stage::Reactor, Report::Reactor(Err(_))) => Stage::Stopped,
        (Stage::Loop, Report::LoopEnded) => Stage::Stopped,
        _ => stage,
    }
}

/// Whether `report` says that the toolkit was initialised.
pub open spec fn toolkit_up<H, S>(report: Report<H, S>) -> bool {
    report matches Report::Toolkit(Ok(_))
}

/// Whether `report`, given at `stage`, has a widget built.
pub open spec fn mounts<H, S>(stage: Stage, report: Report<H, S>) -> bool {
    stage is Reactor && report matches Report::Reactor(Ok(_))
}

/// What start-up may ask when `report` is given at `stage`.
pub open spec fn directed<D: Widget<M>, M: Clone>(
    stage: Stage,
    report: Report<D::Handle, D::Stream>,
    directive: Directive<D, M>,
) -> bool {
    match (stage, report) {
        (Stage::Toolkit, Report::Toolkit(Ok(_))) => directive is Reactor,
        (Stage::Toolkit, Report::Toolkit(Err(_))) => directive == Directive::<D, M>::Return(
            Err(Error::GtkInit),
        ),
        (Stage::Reactor, Report::Reactor(Ok((handle, stream)))) => {
            &&& directive matches Directive::Run(result)
            &&& created::<D, M>(handle, stream, result)
        },
        (Stage::Reactor, Report::Reactor(Err(error))) => directive == Directive::<D, M>::Return(
            Err(Error::Io(error)),
        ),
        (Stage::Loop, Report::LoopEnded) => directive == Directive::<D, M>::Return(Ok(())),
        _ => directive is Nothing,
    }
}

/// The step that is due before the report at position `at` of `reports`,
/// when start-up began at `stage`.
pub open spec fn stage_at<H, S>(stage: Stage, reports: Seq<Report<H, S>>, at: int) -> Stage
    decreases at,
{
    if at <= 0 || at > reports.len() {
        stage
    } else {
        stage_after(stage_at(stage, reports, at - 1), reports[at - 1])
    }
}

/// Once start-up has returned, no report moves it again.
pub proof fn stopped_stays_stopped<H, S>(
    stage: Stage,
    reports: Seq<Report<H, S>>,
    from: int,
    at: int,
)
    requires
        0 <= from <= at <= reports.len(),
        stage_at(stage, reports, from) is Stopped,
    ensures
        stage_at(stage, reports, at) is Stopped,
    decreases at - from,
{
    if from < at {
        stopped_stays_stopped(stage, reports, from, at - 1);
    }
}

/// If the toolkit cannot be initialised, start-up returns that failure at
/// once, is over from then on, and builds no widget, whatever is reported
/// afterwards.
pub proof fn failed_toolkit_builds_nothing<D: Widget<M>, M: Clone>(
    reports: Seq<Report<D::Handle, D::Stream>>,
)
    requires
        reports.len() > 0,
        reports[0] matches Report::Toolkit(Err(_)),
    ensures
        forall|directive: Directive<D, M>|
            directed::<D, M>(Stage::Toolkit, reports[0], directive) ==> directive == Directive::<
                D,
                M,
            >::Return(Err(Error::GtkInit)),
        forall|k: int|
            1 <= k <= reports.len() ==> #[trigger] stage_at(Stage::Toolkit, reports, k) is Stopped,
        forall|k: int|
            0 <= k < reports.len() ==> !mounts(
                #[trigger] stage_at(Stage::Toolkit, reports, k),
                reports[k],
            ),
{
    assert forall|k: int| 1 <= k <= reports.len() implies #[trigger] stage_at(
        Stage::Toolkit,
        reports,
        k,
    ) is Stopped by {
        assert(stage_at(Stage::Toolkit, reports, 0) is Toolkit);
        assert(stage_at(Stage::Toolkit, reports, 1) is Stopped);
        stopped_stays_stopped(Stage::Toolkit, reports, 1, k);
    }
    assert forall|k: int| 0 <= k < reports.len() implies !mounts(
        #[trigger] stage_at(Stage::Toolkit, reports, k),
        reports[k],
    ) by {
        if k >= 1 {
            assert(stage_at(Stage::Toolkit, reports, k) is Stopped);
        }
    }
}

/// Whatever is reported, a widget is built only after the toolkit was
/// reported as initialised.
pub proof fn widget_follows_toolkit<H, S>(reports: Seq<Report<H, S>>, at: int)
    requires
        0 <= at < reports.len(),
        mounts(stage_at(Stage::Toolkit, reports, at), reports[at]),
    ensures
        exists|j: int| 0 <= j < at && toolkit_up(#[trigger] reports[j]),
{
    reactor_follows_toolkit(reports, at);
}

/// The reactor is due only after the toolkit was reported as initialised.
proof fn reactor_follows_toolkit<H, S>(reports: Seq<Report<H, S>>, at: int)
    requires
        0 <= at <= reports.len(),
        stage_at(Stage::Toolkit, reports, at) is Reactor,
    ensures
        exists|j: int| 0 <= j < at && toolkit_up(#[trigger] reports[j]),
    decreases at,
{
    if at > 0 {
        let before = stage_at(Stage::Toolkit, reports, at - 1);
        if before is Reactor {
            reactor_follows_toolkit(reports, at - 1);
        } else {
            assert(toolkit_up(reports[at - 1]));
        }
    }
}

impl<H: Clone, S: Clone> Relm<H, S> {
    /// One step of start-up. It begins at `Stage::Toolkit`, with the driver
    /// initialising the toolkit and reporting how that went. A toolkit that
    /// cannot be initialised and a reactor that cannot be built each end
    /// start-up with their error, at once. The root widget is brought up when
    /// the reactor's handle arrives, and at no other moment. When the main
    /// loop has stopped, start-up returns success.
    pub fn run<D: Widget<M, Handle = H, Stream = S>, M: Clone>(
        stage: &mut Stage,
        report: Report<H, S>,
    ) -> (directive: Directive<D, M>)
        ensures
            *final(stage) == stage_after(*old(stage), report),
            directed::<D, M>(*old(stage), report, directive),
            directive is Run <==> mounts(*old(stage), report),
    {
        match (&*stage, report) {
            (Stage::Toolkit, Report::Toolkit(Ok(_))) => {
                *stage = Stage::Reactor;
                Directive::Reactor
            },
            (Stage::Toolkit, Report::Toolkit(Err(unit))) => {
                *stage = Stage::Stopped;
                Directive::Return(Err(Error::from(unit)))
            },
            (Stage::Reactor, Report::Reactor(Ok((handle, stream)))) => {
                let result = create_widget::<D, M>(&handle, stream);
                *stage = Stage::Loop;
                Directive::Run(result)
            },
            (Stage::Reactor, Report::Reactor(Err(error))) => {
                *stage = Stage::Stopped;
                Directive::Return(Err(Error::from(error)))
            },
            (Stage::Loop, Report::LoopEnded) => {
                *stage = Stage::Stopped;
                Directive::Return(Ok(()))
            },
            _ => Directive::Nothing,
        }
    }
}

} // verus!
