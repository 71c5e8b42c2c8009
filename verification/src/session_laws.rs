//! What holds of the queue and of the count of downloads over a whole session.

use crate::data::{AppUpdateView, RomView};
use crate::model::{law_requests_keep_valid, AppView};
use crate::progress::Progress;
use crate::removal::without;
use crate::window_laws::law_updates_keep_valid;
use vstd::prelude::*;

verus! {

/// Something that bears on downloads.
pub enum Step {
    /// The user asks for files.
    Ask(Seq<RomView>),
    /// A message comes in.
    Message(AppUpdateView),
    /// The user takes files out of the queue.
    Cancel(Seq<usize>),
    /// The user empties the queue.
    Clear,
}

/// The window, and a record of what has been set going.
pub struct Session {
    pub app: AppView,
    /// How many downloads have started and are not over.
    pub running: nat,
    /// The files that have had to wait, in the order in which they were asked for.
    pub queued: Seq<RomView>,
    /// The files that have started from the queue, in the order in which they did.
    pub dequeued: Seq<RomView>,
}

impl Session {
    /// A session at its beginning: what runs is what the window counts.
    pub open spec fn beginning(app: AppView) -> Session {
        Session {
            app,
            running: app.active_downloads,
            queued: app.download_queue,
            dequeued: Seq::empty(),
        }
    }

    /// The end of a download is only reported where one runs.
    pub open spec fn can_see(self, step: Step) -> bool {
        step matches Step::Message(AppUpdateView::DownloadProgress(_, Progress::Finished))
            ==> self.running > 0
    }

    /// The session after a step.
    pub open spec fn after(self, step: Step) -> Session {
        match step {
            Step::Ask(roms) => {
                let count = self.app.starting(roms.len());
                Session {
                    app: self.app.after_requests(roms),
                    running: self.running + count,
                    queued: self.queued + roms.skip(count as int),
                    ..self
                }
            },
            Step::Message(update) => {
                let over: int = if update matches AppUpdateView::DownloadProgress(
                    _,
                    Progress::Finished,
                ) {
                    1
                } else {
                    0
                };
                match self.app.started_by_update(update) {
                    Some(request) => Session {
                        app: self.app.after_update(update),
                        running: (self.running - over + 1) as nat,
                        dequeued: self.dequeued.push(request.rom),
                        ..self
                    },
                    None => Session {
                        app: self.app.after_update(update),
                        running: (self.running - over) as nat,
                        ..self
                    },
                }
            },
            Step::Cancel(positions) => Session {
                app: AppView {
                    download_queue: without(self.app.download_queue, positions),
                    ..self.app
                },
                ..self
            },
            Step::Clear => Session {
                app: AppView { download_queue: Seq::empty(), ..self.app },
                ..self
            },
        }
    }

    /// The session after steps, in this order.
    pub open spec fn after_steps(self, steps: Seq<Step>) -> Session
        decreases steps.len(),
    {
        if steps.len() == 0 {
            self
        } else {
            self.after_steps(steps.drop_last()).after(steps.last())
        }
    }

    /// Each of the steps can be taken when it comes.
    pub open spec fn can_see_all(self, steps: Seq<Step>) -> bool
        decreases steps.len(),
    {
        steps.len() == 0 || {
            &&& self.can_see_all(steps.drop_last())
            &&& self.after_steps(steps.drop_last()).can_see(steps.last())
        }
    }
}

/// However the session goes, the window's count of active downloads keeps to the
/// limit, and more downloads than it counts run only for as many files as have
/// started from the queue. So while none has, no more run than the limit allows.
pub proof fn law_limit(app: AppView, steps: Seq<Step>)
    requires
        app.valid(),
        Session::beginning(app).can_see_all(steps),
    ensures
        ({
            let session = Session::beginning(app).after_steps(steps);
            &&& session.app.max_concurrent_downloads == app.max_concurrent_downloads
            &&& session.app.active_downloads <= app.max_concurrent_downloads
            &&& session.app.active_downloads <= session.running
            &&& session.running <= session.app.active_downloads + session.dequeued.len()
            &&& session.dequeued.len() == 0 ==> session.running <= app.max_concurrent_downloads
        }),
    decreases steps.len(),
{
    if steps.len() > 0 {
        law_limit(app, steps.drop_last());
    }
}

/// While no more downloads run than the limit allows, only one thing can make them too
/// many: a request that comes when more of them run than the window counts.
pub proof fn law_limit_holds_on_step(session: Session, step: Step)
    requires
        session.app.valid(),
        session.can_see(step),
        session.running <= session.app.max_concurrent_downloads,
        !(step is Ask && session.app.active_downloads < session.running),
    ensures
        session.after(step).running <= session.app.max_concurrent_downloads,
{
}

/// No file is taken out of the queue by the user.
pub open spec fn no_cancelling(steps: Seq<Step>) -> bool {
    forall|i: int|
        0 <= i < steps.len() ==> #[trigger] steps[i] is Ask || steps[i] is Message
}

/// Files start from the queue in the order in which they joined it, and none is lost:
/// those that have started, followed by those that wait, are all that ever had to wait.
pub proof fn law_first_come_first_served(app: AppView, steps: Seq<Step>)
    requires
        no_cancelling(steps),
    ensures
        ({
            let session = Session::beginning(app).after_steps(steps);
            session.dequeued + session.app.download_queue == session.queued
        }),
    decreases steps.len(),
{
    let start = Session::beginning(app);
    if steps.len() == 0 {
        assert(start.dequeued + start.app.download_queue =~= start.queued);
    } else {
        let front = steps.drop_last();
        assert forall|i: int| 0 <= i < front.len() implies #[trigger] front[i] is Ask
            || front[i] is Message by {
            assert(front[i] == steps[i]);
        }
        law_first_come_first_served(app, front);
        let before = start.after_steps(front);
        let after = before.after(steps.last());
        assert(steps[steps.len() - 1] is Ask || steps[steps.len() - 1] is Message);
        assert(after.dequeued + after.app.download_queue =~= after.queued);
    }
}

/// However the session goes, the window's state stays valid.
pub proof fn law_session_stays_valid(session: Session, steps: Seq<Step>)
    requires
        session.app.valid(),
    ensures
        session.after_steps(steps).app.valid(),
    decreases steps.len(),
{
    if steps.len() > 0 {
        law_session_stays_valid(session, steps.drop_last());
        let before = session.after_steps(steps.drop_last());
        match steps.last() {
            Step::Ask(roms) => {
                law_requests_keep_valid(before.app, roms);
            },
            Step::Message(update) => {
                law_updates_keep_valid(before.app, seq![update]);
                reveal_with_fuel(AppView::after_updates, 2);
                assert(seq![update].drop_last() =~= Seq::<AppUpdateView>::empty());
            },
            _ => {},
        }
    }
}

} // verus!
