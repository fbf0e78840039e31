//! Running a plan: one event at a time, in plan order, until the plan is
//! done, an action fails, or the caller cancels.

use std::future::Future;
use std::sync::Arc;
use vstd::prelude::*;

use crate::package_store::PackageStore;
use crate::transaction::plan::views;
use crate::transaction::install::InstallError;
use crate::transaction::uninstall::UninstallError;
use crate::transaction::{
    ActionView, PackageAction, PackageActionType, TransactionError, TransactionEvent,
};

verus! {

/// `stream_cancel::Trigger`, the handle that cancels what is tied to it, when
/// it is used and when it is dropped. Nothing is known of its content here:
/// it is made and handed to the caller.
#[verifier::external_type_specification]
#[verifier::external_body]
pub struct ExTrigger(stream_cancel::Trigger);

/// `stream_cancel::Tripwire`, the future that resolves once its trigger has
/// fired or was disabled. Nothing is known of its content here.
#[verifier::external_type_specification]
#[verifier::external_body]
pub struct ExTripwire(stream_cancel::Tripwire);

/// Makes a tripwire and the trigger that fires it, with
/// `stream_cancel::Tripwire::new`. Nothing is claimed of the two.
#[verifier::external_body]
fn new_tripwire() -> (pair: (stream_cancel::Trigger, stream_cancel::Tripwire)) {
    stream_cancel::Tripwire::new()
}

/// Polls a tripwire once, without waiting, with the `poll` that
/// `stream_cancel` gives `Tripwire` as a `Future`. A tripwire that has
/// resolved comes back as `Ok`, with what it resolved to: `true` when the
/// trigger fired or was dropped, `false` when it was disabled. One that has
/// not comes back itself, to be polled again. Nothing is claimed of which of
/// these happens: that is for whoever holds the trigger, and a poll may come
/// back unresolved although the trigger has fired, so that a later poll
/// tells. A tripwire that has resolved is used up here, so none is polled
/// after that.
#[verifier::external_body]
fn poll_tripwire(wire: stream_cancel::Tripwire) -> (polled: Result<bool, stream_cancel::Tripwire>) {
    let mut wire = wire;
    let mut context = std::task::Context::from_waker(std::task::Waker::noop());
    match std::pin::Pin::new(&mut wire).poll(&mut context) {
        std::task::Poll::Ready(closed) => Ok(closed),
        std::task::Poll::Pending => Err(wire),
    }
}

/// An event as contracts see it: keys and messages by their characters.
pub enum EventView {
    Installing(Seq<char>),
    Uninstalling(Seq<char>),
    Progress(Seq<char>, Seq<char>),
    Error(Seq<char>, TransactionError),
    Complete,
}

impl View for TransactionEvent {
    type V = EventView;

    open spec fn view(&self) -> EventView {
        match *self {
            TransactionEvent::Installing(key) => EventView::Installing(key@),
            TransactionEvent::Uninstalling(key) => EventView::Uninstalling(key@),
            TransactionEvent::Progress(key, message) => EventView::Progress(key@, message@),
            TransactionEvent::Error(key, e) => EventView::Error(key@, e),
            TransactionEvent::Complete => EventView::Complete,
        }
    }
}

/// What a step of a run reports, as contracts see it.
pub open spec fn reported(event: Option<TransactionEvent>) -> Option<EventView> {
    match event {
        Some(e) => Some(e@),
        None => None,
    }
}

/// Where a run stands. The last three are final: a run that has reached one
/// of them stays there and reports nothing more.
#[derive(Debug, Clone, Copy, PartialEq, Eq, Hash, Structural)]
pub enum RunState {
    /// Nothing has been reported yet.
    Idle,
    /// An action has been announced and is under way.
    Running,
    /// Every action was carried out.
    Completed,
    /// An action failed.
    Errored,
    /// The caller cancelled between two actions.
    Cancelled,
}

impl RunState {
    /// Whether the run is over.
    pub open spec fn is_final(self) -> bool {
        self == RunState::Completed || self == RunState::Errored || self == RunState::Cancelled
    }
}

/// The event that announces an action.
pub open spec fn announcement(action: ActionView) -> EventView {
    match action.action {
        PackageActionType::Install => EventView::Installing(action.id),
        PackageActionType::Uninstall => EventView::Uninstalling(action.id),
    }
}

/// The announcements of the first `n` actions of a plan, in order.
pub open spec fn announcements(plan: Seq<ActionView>, n: int) -> Seq<EventView> {
    Seq::new(n as nat, |i: int| announcement(plan[i]))
}

/// What a run does between two actions, `position` being the next action:
/// a cancelled run ends without a word, a run with nothing left reports that
/// it is complete, any other announces the next action.
pub open spec fn at_boundary(plan: Seq<ActionView>, position: int, cancel_requested: bool) -> (
    RunState,
    Option<EventView>,
) {
    if cancel_requested {
        (RunState::Cancelled, None)
    } else if position >= plan.len() {
        (RunState::Completed, Some(EventView::Complete))
    } else {
        (RunState::Running, Some(announcement(plan[position])))
    }
}

/// What a run does once the action at `position` has ended: a failure is
/// reported and ends the run, whether or not the caller has cancelled; after
/// a success the run moves on and stands between two actions.
pub open spec fn after_action(
    plan: Seq<ActionView>,
    position: int,
    outcome: Result<(), TransactionError>,
    cancel_requested: bool,
) -> (RunState, int, Option<EventView>) {
    match outcome {
        Err(e) => (RunState::Errored, position, Some(EventView::Error(plan[position].id, e))),
        Ok(_) => {
            let (state, event) = at_boundary(plan, position + 1, cancel_requested);
            (state, position + 1, event)
        },
    }
}

/// Whether a failure is of the kind that an action of the given type ends
/// with.
pub open spec fn failure_fits(action: PackageActionType, e: TransactionError) -> bool {
    match action {
        PackageActionType::Install => e is Install,
        PackageActionType::Uninstall => e is Uninstall,
    }
}

/// Whether `emitted` is what a run of `plan` has reported when it stands in
/// `state` at `position`.
///
/// A run that is under way, or was cancelled, has announced actions and
/// nothing else. A completed run has announced every action and then said
/// so. A failed run has announced the actions up to the one that failed, and
/// then reported the failure of that one, as an install failure of an
/// install and as an uninstall failure of an uninstall.
pub open spec fn well_formed(
    plan: Seq<ActionView>,
    state: RunState,
    position: int,
    emitted: Seq<EventView>,
) -> bool {
    match state {
        RunState::Idle => position == 0 && emitted == Seq::<EventView>::empty(),
        RunState::Running => 0 <= position < plan.len() && emitted == announcements(
            plan,
            position + 1,
        ),
        RunState::Completed => position == plan.len() && emitted == announcements(
            plan,
            plan.len() as int,
        ).push(EventView::Complete),
        RunState::Errored => {
            &&& 0 <= position < plan.len()
            &&& emitted.len() == position + 2
            &&& emitted.drop_last() == announcements(plan, position + 1)
            &&& emitted.last() matches EventView::Error(key, e) && key == plan[position].id
                && failure_fits(plan[position].action, e)
        },
        RunState::Cancelled => 0 <= position <= plan.len() && emitted == announcements(
            plan,
            position,
        ),
    }
}

/// Whether an event ends a run.
pub open spec fn ends_run(event: EventView) -> bool {
    event is Error || event is Complete
}

/// Whether an event announces an action or tells of its progress.
pub open spec fn tells_of_action(event: EventView) -> bool {
    event is Installing || event is Uninstalling || event is Progress
}

/// The events of a run are linear and finite. Every event but the last tells
/// of an action, and there is at most one event more than the plan has
/// actions; a run that completed or failed has reported exactly one event
/// that ends it, as its last; a run that is under way or was cancelled has
/// reported none, so a cancelled run ends without a word, behind the
/// announcements of the actions that were carried out in full.
pub proof fn lemma_events_linear(
    plan: Seq<ActionView>,
    state: RunState,
    position: int,
    emitted: Seq<EventView>,
)
    requires
        well_formed(plan, state, position, emitted),
    ensures
        emitted.len() <= plan.len() + 1,
        forall|i: int| 0 <= i < emitted.len() - 1 ==> tells_of_action(#[trigger] emitted[i]),
        forall|i: int|
            0 <= i < emitted.len() && !ends_run(#[trigger] emitted[i]) ==> i < plan.len()
                && emitted[i] == announcement(plan[i]),
        state == RunState::Completed ==> emitted.len() == plan.len() + 1 && emitted.last()
            == EventView::Complete,
        state == RunState::Errored ==> emitted.len() == position + 2 && (emitted.last() matches EventView::Error(
            key,
            e,
        ) && key == plan[position].id && failure_fits(plan[position].action, e)),
        state == RunState::Completed || state == RunState::Errored <==> emitted.len() > 0
            && ends_run(emitted.last()),
        state == RunState::Cancelled ==> emitted.len() == position,
{
    if state == RunState::Errored {
        assert forall|i: int| 0 <= i < emitted.len() - 1 implies tells_of_action(
            #[trigger] emitted[i],
        ) && emitted[i] == announcement(plan[i]) by {
            assert(emitted[i] == emitted.drop_last()[i]);
        }
    }
}

/// Decides what a run does between two actions; see [`at_boundary`].
pub fn boundary(plan: &Vec<PackageAction>, position: usize, cancel_requested: bool) -> (next: (
    RunState,
    Option<TransactionEvent>,
))
    ensures
        (next.0, reported(next.1)) == at_boundary(views(plan@), position as int, cancel_requested),
{
    if cancel_requested {
        (RunState::Cancelled, None)
    } else if position >= plan.len() {
        (RunState::Completed, Some(TransactionEvent::Complete))
    } else {
        let action = &plan[position];
        let event = match action.action {
            PackageActionType::Install => TransactionEvent::Installing(action.id.clone()),
            PackageActionType::Uninstall => TransactionEvent::Uninstalling(action.id.clone()),
        };
        (RunState::Running, Some(event))
    }
}

/// Decides what a run does once the action at `position` has ended with
/// `outcome`; see [`after_action`].
pub fn settle(
    plan: &Vec<PackageAction>,
    position: usize,
    outcome: Result<(), TransactionError>,
    cancel_requested: bool,
) -> (next: (RunState, usize, Option<TransactionEvent>))
    requires
        position < plan.len(),
    ensures
        (next.0, next.1 as int, reported(next.2)) == after_action(
            views(plan@),
            position as int,
            outcome,
            cancel_requested,
        ),
{
    match outcome {
        Err(e) => {
            let event = TransactionEvent::Error(plan[position].id.clone(), e);
            (RunState::Errored, position, Some(event))
        },
        Ok(_) => {
            let (state, event) = boundary(plan, position + 1, cancel_requested);
            (state, position + 1, event)
        },
    }
}

/// How an install ended, given what the store answered to it: a failure is
/// an install failure, with what the store reported.
pub open spec fn install_outcome(answer: Result<(), InstallError>) -> Result<(), TransactionError> {
    match answer {
        Ok(_) => Ok(()),
        Err(e) => Err(TransactionError::Install(e)),
    }
}

/// How an uninstall ended, given what the store answered to it: a failure is
/// an uninstall failure, with what the store reported.
pub open spec fn uninstall_outcome(answer: Result<(), UninstallError>) -> Result<
    (),
    TransactionError,
> {
    match answer {
        Ok(_) => Ok(()),
        Err(e) => Err(TransactionError::Uninstall(e)),
    }
}

/// Whether `outcome` is how carrying out `action` on `store` ended: the store
/// was asked to install the package of an install, or to uninstall the
/// package of an uninstall, under the target of the action, and the outcome
/// is what it answered to that.
pub open spec fn carried_out<S: PackageStore>(
    store: &S,
    action: &PackageAction,
    outcome: Result<(), TransactionError>,
) -> bool {
    match action.action {
        PackageActionType::Install => exists|answer: Result<(), InstallError>|
            #[trigger] call_ensures(S::install, (store, &action.id, action.target), answer)
                && outcome == install_outcome(answer),
        PackageActionType::Uninstall => exists|answer: Result<(), UninstallError>|
            #[trigger] call_ensures(S::uninstall, (store, &action.id, action.target), answer)
                && outcome == uninstall_outcome(answer),
    }
}

/// Has the store carry out one action, and tells how it ended: the store is
/// asked, for the package and the target of the action, to install for an
/// install and to uninstall for an uninstall. Its success is the success of
/// the action, and its failure comes back as it reported it, as an install
/// failure from an install and as an uninstall failure from an uninstall.
pub fn carry_out<S: PackageStore>(store: &S, action: &PackageAction) -> (outcome: Result<
    (),
    TransactionError,
>)
    ensures
        carried_out(store, action, outcome),
        outcome matches Err(e) ==> failure_fits(action.action, e),
{
    match action.action {
        PackageActionType::Install => match store.install(&action.id, action.target) {
            Ok(_) => Ok(()),
            Err(e) => Err(TransactionError::Install(e)),
        },
        PackageActionType::Uninstall => match store.uninstall(&action.id, action.target) {
            Ok(_) => Ok(()),
            Err(e) => Err(TransactionError::Uninstall(e)),
        },
    }
}

/// What a run knows after a poll of its tripwire: whether the caller has
/// cancelled, and the tripwire that is left to poll. A tripwire that has
/// resolved tells for good whether the caller cancelled, and is used up; one
/// that has not leaves the run as it was, not cancelled, to poll again.
pub open spec fn looked(polled: Result<bool, stream_cancel::Tripwire>) -> (
    bool,
    Option<stream_cancel::Tripwire>,
) {
    match polled {
        Ok(closed) => (closed, None),
        Err(wire) => (false, Some(wire)),
    }
}

/// Whether `polled` is what a poll of `wire` gave.
pub closed spec fn polled_from(
    wire: stream_cancel::Tripwire,
    polled: Result<bool, stream_cancel::Tripwire>,
) -> bool {
    call_ensures(poll_tripwire, (wire,), polled)
}

/// Whether `yes` is what a run learns of a cancellation at a look at its
/// tripwire, the run knowing `cancelled` and holding `wire` before the look,
/// and `cancelled_after` and `wire_after` behind it.
///
/// What the run says is what it knows afterwards. A run that knew of the
/// cancellation says so, and keeps what it holds. A run without a tripwire
/// was told that the trigger is disabled, and is never cancelled. Any other
/// has polled its tripwire once, and is then as [`looked`] says for what the
/// poll gave.
pub open spec fn cancel_seen(
    cancelled: bool,
    wire: Option<stream_cancel::Tripwire>,
    cancelled_after: bool,
    wire_after: Option<stream_cancel::Tripwire>,
    yes: bool,
) -> bool {
    &&& yes == cancelled_after
    &&& cancelled ==> yes && wire_after == wire
    &&& !cancelled ==> match wire {
        None => !yes && wire_after is None,
        Some(wire) => exists|polled: Result<bool, stream_cancel::Tripwire>|
            #[trigger] polled_from(wire, polled) && (yes, wire_after) == looked(polled),
    }
}

/// A run of a plan against a store.
///
/// A run is pulled: each call of [`TransactionRun::next_event`] takes the
/// run one step further and hands out what that step reports. The store is
/// at work only inside such a call, on one action at a time. A run comes
/// with a trigger: once the trigger has fired, or was dropped, the run ends
/// between two actions.
pub struct TransactionRun<S: PackageStore> {
    store: Arc<S>,
    actions: Arc<Vec<PackageAction>>,
    state: RunState,
    position: usize,
    wire: Option<stream_cancel::Tripwire>,
    cancelled: bool,
    emitted: Ghost<Seq<EventView>>,
}

impl<S: PackageStore> TransactionRun<S> {
    /// The store against which the plan is run.
    pub closed spec fn store(&self) -> Arc<S> {
        self.store
    }

    /// The actions that are run, in order.
    pub closed spec fn actions(&self) -> Seq<PackageAction> {
        self.actions@
    }

    /// The plan that is run: the actions as contracts see them.
    pub open spec fn plan(&self) -> Seq<ActionView> {
        views(self.actions())
    }

    /// Whether the run knows that the caller has cancelled.
    pub closed spec fn cancelled(&self) -> bool {
        self.cancelled
    }

    /// The tripwire that is left to poll: none once it has resolved.
    pub closed spec fn wire(&self) -> Option<stream_cancel::Tripwire> {
        self.wire
    }

    /// Where the run stands.
    pub closed spec fn phase(&self) -> RunState {
        self.state
    }

    /// The action that is under way while the run is running or has failed;
    /// the number of actions carried out in full once it was cancelled or
    /// has completed.
    pub closed spec fn position(&self) -> int {
        self.position as int
    }

    /// Everything that the run has reported so far, in order.
    pub closed spec fn emitted(&self) -> Seq<EventView> {
        self.emitted@
    }

    /// Whether what the run has reported fits where it stands.
    pub open spec fn wf(&self) -> bool {
        well_formed(self.plan(), self.phase(), self.position(), self.emitted())
    }

    /// A run of `actions` against `store` that has not started, and the
    /// trigger that cancels it.
    pub fn new(store: Arc<S>, actions: Arc<Vec<PackageAction>>) -> (started: (
        stream_cancel::Trigger,
        TransactionRun<S>,
    ))
        ensures
            started.1.wf(),
            started.1.store() == store,
            started.1.actions() == actions@,
            started.1.phase() == RunState::Idle,
            started.1.position() == 0,
            started.1.emitted() == Seq::<EventView>::empty(),
            !started.1.cancelled(),
            started.1.wire() is Some,
    {
        let (trigger, wire) = new_tripwire();
        let run = TransactionRun {
            store,
            actions,
            state: RunState::Idle,
            position: 0,
            wire: Some(wire),
            cancelled: false,
            emitted: Ghost(Seq::empty()),
        };
        (trigger, run)
    }

    /// Where the run stands.
    pub fn state(&self) -> (state: RunState)
        ensures
            state == self.phase(),
    {
        self.state
    }

    /// Whether the caller has cancelled, as far as the tripwire tells now.
    /// Once it has told, it is not asked again.
    ///
    /// A run that knows of the cancellation says so, and stays as it is. A
    /// run without a tripwire was told that the trigger is disabled, and is
    /// never cancelled. Any other polls its tripwire once, and is then as
    /// [`looked`] says for what the poll gave; [`cancel_seen`] says all of
    /// this. Where the run stands, what it runs against what, and what it has
    /// reported, is not touched.
    fn cancel_requested(&mut self) -> (yes: bool)
        ensures
            final(self).plan() == old(self).plan(),
            final(self).phase() == old(self).phase(),
            final(self).position() == old(self).position(),
            final(self).emitted() == old(self).emitted(),
            final(self).store() == old(self).store(),
            final(self).actions() == old(self).actions(),
            cancel_seen(
                old(self).cancelled(),
                old(self).wire(),
                final(self).cancelled(),
                final(self).wire(),
                yes,
            ),
    {
        if self.cancelled {
            return true;
        }
        match self.wire.take() {
            None => false,
            Some(wire) => {
                let ghost held = wire;
                let polled = poll_tripwire(wire);
                assert(polled_from(held, polled));
                match polled {
                    Ok(closed) => {
                        self.cancelled = closed;
                        closed
                    },
                    Err(wire) => {
                        self.wire = Some(wire);
                        false
                    },
                }
            },
        }
    }

    /// Takes the run one step further and hands out the event of that step,
    /// or `None` when the run is over.
    ///
    /// A run that has not started stands between two actions, and so does a
    /// run whose action under way has just succeeded: there the trigger is
    /// looked at, and a cancelled run ends. An action under way is carried
    /// out whether or not the caller has cancelled, and its failure is
    /// reported. A run that is over stays as it is.
    ///
    /// What the store and the trigger do is theirs to decide. The outcome
    /// that the run acts on is what its own store answered for the action
    /// under way, as [`carried_out`] says, and the cancellation that it acts
    /// on is what a look at its own tripwire told, as [`cancel_seen`] says.
    /// What the run makes of the two is what [`at_boundary`] and
    /// [`after_action`] say. The run keeps its store and its actions.
    pub fn next_event(&mut self) -> (event: Option<TransactionEvent>)
        requires
            old(self).wf(),
        ensures
            final(self).wf(),
            final(self).store() == old(self).store(),
            final(self).actions() == old(self).actions(),
            final(self).emitted() == match event {
                Some(e) => old(self).emitted().push(e@),
                None => old(self).emitted(),
            },
            event is None ==> final(self).phase().is_final(),
            old(self).phase().is_final() ==> {
                &&& event is None
                &&& final(self).phase() == old(self).phase()
                &&& final(self).position() == old(self).position()
                &&& final(self).cancelled() == old(self).cancelled()
                &&& final(self).wire() == old(self).wire()
            },
            old(self).phase() == RunState::Idle ==> final(self).position() == 0 && exists|
                cancel_requested: bool,
            |
                {
                    &&& cancel_seen(
                        old(self).cancelled(),
                        old(self).wire(),
                        final(self).cancelled(),
                        final(self).wire(),
                        cancel_requested,
                    )
                    &&& #[trigger] at_boundary(old(self).plan(), 0, cancel_requested) == (
                        final(self).phase(),
                        reported(event),
                    )
                },
            old(self).phase() == RunState::Running ==> exists|
                outcome: Result<(), TransactionError>,
                cancel_requested: bool,
            |
                {
                    &&& carried_out(
                        &*old(self).store(),
                        &old(self).actions()[old(self).position()],
                        outcome,
                    )
                    &&& outcome matches Err(e) ==> failure_fits(
                        old(self).plan()[old(self).position()].action,
                        e,
                    )
                    &&& if outcome is Ok {
                        cancel_seen(
                            old(self).cancelled(),
                            old(self).wire(),
                            final(self).cancelled(),
                            final(self).wire(),
                            cancel_requested,
                        )
                    } else {
                        &&& !cancel_requested
                        &&& final(self).cancelled() == old(self).cancelled()
                        &&& final(self).wire() == old(self).wire()
                    }
                    &&& #[trigger] after_action(
                        old(self).plan(),
                        old(self).position(),
                        outcome,
                        cancel_requested,
                    ) == (final(self).phase(), final(self).position(), reported(event))
                },
    {
        let ghost plan = self.plan();
        let ghost before = self.emitted@;
        match self.state {
            RunState::Idle => {
                let cancel_requested = self.cancel_requested();
                let (state, event) = boundary(&self.actions, 0, cancel_requested);
                self.state = state;
                let ghost said = reported(event);
                proof {
                    if let Some(e) = said {
                        self.emitted = Ghost(before.push(e));
                    }
                    assert(announcements(plan, 0) =~= Seq::<EventView>::empty());
                    assert(announcements(plan, 1) =~= Seq::<EventView>::empty().push(
                        announcement(plan[0]),
                    ));
                }
                event
            },
            RunState::Running => {
                let outcome = carry_out(&*self.store, &self.actions[self.position]);
                let ghost at = self.position as int;
                let ghost ended = outcome;
                let cancel_requested = outcome.is_ok() && self.cancel_requested();
                let (state, position, event) = settle(
                    &self.actions,
                    self.position,
                    outcome,
                    cancel_requested,
                );
                self.state = state;
                self.position = position;
                let ghost said = reported(event);
                proof {
                    if let Some(e) = said {
                        self.emitted = Ghost(before.push(e));
                    }
                    assert(announcements(plan, at + 2) =~= announcements(plan, at + 1).push(
                        announcement(plan[at + 1]),
                    ));
                    if ended is Err {
                        assert(self.emitted@.drop_last() =~= before);
                    }
                }
                event
            },
            _ => None,
        }
    }
}

} // verus!
