//! The order of the work that leads from a radio to a stream of
//! notifications, and what each outcome of that work leads to.
//!
//! The pipeline itself touches no radio. It names the next piece of work as
//! an [`Action`]; whoever drives it does that work and hands the outcome back
//! as an [`Event`]. Every failure is fatal: the stage that fails is the last.

use crate::adapter::{adapter_choice, select_adapter};
use crate::error::PipelineError;
use crate::gatt::{resolution, resolve};
use crate::scanner::{
    advertises, lemma_first_match_is_none, scan_choice, scan_for, SCAN_WINDOW_SECS,
};
use crate::uuid::Uuid;
use vstd::prelude::*;

verus! {

/// Where the pipeline stands: the work it is waiting for. Radios, peripherals
/// and characteristics are named by their position in the list in which they
/// were reported.
#[derive(Clone, Copy, Debug, PartialEq, Eq, Structural)]
pub enum Stage {
    ListingAdapters,
    StartingScan { adapter: usize },
    Scanning { adapter: usize },
    StoppingScan { adapter: usize, peripheral: usize },
    Connecting { peripheral: usize },
    Discovering { peripheral: usize },
    Registering { peripheral: usize, characteristic: usize },
    Subscribing { peripheral: usize, characteristic: usize },
    /// Notifications are enabled; nothing is left to set up.
    Streaming,
    /// A stage failed; nothing more will be attempted.
    Failed(PipelineError),
}

/// The next piece of work for whoever drives the pipeline.
#[derive(Clone, Copy, Debug, PartialEq, Eq, Structural)]
pub enum Action {
    /// List the host's radios.
    ListAdapters,
    /// Start an active scan on this radio.
    StartScan { adapter: usize },
    /// Wait this long, then list the peripherals seen so far with their names.
    ListPeripheralsAfter { adapter: usize, seconds: u64 },
    /// Stop the scan on this radio.
    StopScan { adapter: usize },
    /// Connect to this peripheral.
    Connect { peripheral: usize },
    /// Read this peripheral's characteristic table.
    DiscoverCharacteristics { peripheral: usize },
    /// Register the handler that is called once per notification packet.
    RegisterHandler { peripheral: usize },
    /// Enable notifications on this characteristic.
    Subscribe { peripheral: usize, characteristic: usize },
    /// The set-up is complete: hand control to the display.
    Run,
    /// Give up with this failure.
    Abort(PipelineError),
    /// The event did not answer the work in progress: do nothing.
    Ignore,
}

/// The outcome of a piece of work.
#[derive(Debug, PartialEq, Eq)]
pub enum Event {
    /// How many radios the host listed, or `None` if it could not list them.
    AdaptersListed(Option<usize>),
    /// Whether the scan started.
    ScanStarted(bool),
    /// The local name of each peripheral seen so far.
    PeripheralsListed(Vec<Option<String>>),
    /// Whether the scan stopped.
    ScanStopped(bool),
    /// Whether the connection was established.
    ConnectFinished(bool),
    /// The identifier of each characteristic, or `None` if the table could
    /// not be read.
    CharacteristicsDiscovered(Option<Vec<Uuid>>),
    /// The notification handler is in place.
    HandlerRegistered,
    /// Whether the peripheral accepted the subscription.
    SubscribeFinished(bool),
}

/// The pipeline gives up: it comes to rest in failure and says so once.
pub open spec fn failing(reason: PipelineError) -> (Stage, Action) {
    (Stage::Failed(reason), Action::Abort(reason))
}

/// The stage and the action that follow from `event` at `stage`, for a
/// pipeline that looks for a peripheral named with `prefix` and for the
/// characteristic `target`.
///
/// An event that does not answer the work in progress changes nothing. A radio
/// that will not start or stop scanning leaves the scan without a usable
/// device, which is the scan's one failure.
pub open spec fn transition(stage: Stage, prefix: Seq<char>, target: Uuid, event: Event) -> (
    Stage,
    Action,
) {
    match (stage, event) {
        (Stage::ListingAdapters, Event::AdaptersListed(listed)) => match adapter_choice(listed) {
            Ok(adapter) => (Stage::StartingScan { adapter }, Action::StartScan { adapter }),
            Err(reason) => failing(reason),
        },
        (Stage::StartingScan { adapter }, Event::ScanStarted(started)) => if started {
            (
                Stage::Scanning { adapter },
                Action::ListPeripheralsAfter { adapter, seconds: SCAN_WINDOW_SECS },
            )
        } else {
            failing(PipelineError::DeviceNotFound)
        },
        (Stage::Scanning { adapter }, Event::PeripheralsListed(names)) => match scan_choice(
            names@,
            prefix,
        ) {
            Ok(peripheral) => (
                Stage::StoppingScan { adapter, peripheral },
                Action::StopScan { adapter },
            ),
            Err(reason) => failing(reason),
        },
        (Stage::StoppingScan { adapter, peripheral }, Event::ScanStopped(stopped)) => if stopped {
            (Stage::Connecting { peripheral }, Action::Connect { peripheral })
        } else {
            failing(PipelineError::DeviceNotFound)
        },
        (Stage::Connecting { peripheral }, Event::ConnectFinished(connected)) => if connected {
            (Stage::Discovering { peripheral }, Action::DiscoverCharacteristics { peripheral })
        } else {
            failing(PipelineError::ConnectionFailed)
        },
        (
            Stage::Discovering { peripheral },
            Event::CharacteristicsDiscovered(discovered),
        ) => match resolution(discovered, target) {
            Ok(characteristic) => (
                Stage::Registering { peripheral, characteristic },
                Action::RegisterHandler { peripheral },
            ),
            Err(reason) => failing(reason),
        },
        (Stage::Registering { peripheral, characteristic }, Event::HandlerRegistered) => (
            Stage::Subscribing { peripheral, characteristic },
            Action::Subscribe { peripheral, characteristic },
        ),
        (
            Stage::Subscribing { peripheral, characteristic },
            Event::SubscribeFinished(subscribed),
        ) => if subscribed {
            (Stage::Streaming, Action::Run)
        } else {
            failing(PipelineError::SubscribeFailed)
        },
        _ => (stage, Action::Ignore),
    }
}

/// The connection pipeline for one peripheral and one characteristic.
pub struct Pipeline {
    stage: Stage,
    name_prefix: String,
    target: Uuid,
}

impl Pipeline {
    /// Where the pipeline stands.
    pub closed spec fn spec_stage(&self) -> Stage {
        self.stage
    }

    /// The beginning of the name of the peripheral that is looked for.
    pub closed spec fn name_prefix(&self) -> Seq<char> {
        self.name_prefix@
    }

    /// The characteristic that is looked for.
    pub closed spec fn target(&self) -> Uuid {
        self.target
    }

    /// A pipeline at its start, with the first piece of work: to list the
    /// radios.
    pub fn start(name_prefix: String, target: Uuid) -> (started: (Pipeline, Action))
        ensures
            started.0.spec_stage() == Stage::ListingAdapters,
            started.0.name_prefix() == name_prefix@,
            started.0.target() == target,
            started.1 == Action::ListAdapters,
    {
        (Pipeline { stage: Stage::ListingAdapters, name_prefix, target }, Action::ListAdapters)
    }

    /// Where the pipeline stands.
    #[verifier::when_used_as_spec(spec_stage)]
    pub fn stage(&self) -> (stage: Stage)
        ensures
            stage == self.spec_stage(),
    {
        self.stage
    }

    /// The failure that ended the pipeline, if one did.
    pub fn failure(&self) -> (reason: Option<PipelineError>)
        ensures
            reason == match self.spec_stage() {
                Stage::Failed(e) => Some(e),
                _ => None,
            },
    {
        match self.stage {
            Stage::Failed(e) => Some(e),
            _ => None,
        }
    }

    /// Takes in the outcome of the work in progress and names the work that
    /// follows. What the pipeline looks for never changes.
    pub fn step(&mut self, event: &Event) -> (action: Action)
        ensures
            (final(self).spec_stage(), action) == transition(
                old(self).spec_stage(),
                old(self).name_prefix(),
                old(self).target(),
                *event,
            ),
            final(self).name_prefix() == old(self).name_prefix(),
            final(self).target() == old(self).target(),
    {
        let (next, action) = match (self.stage, event) {
            (Stage::ListingAdapters, Event::AdaptersListed(listed)) => match select_adapter(
                *listed,
            ) {
                Ok(adapter) => (Stage::StartingScan { adapter }, Action::StartScan { adapter }),
                Err(reason) => (Stage::Failed(reason), Action::Abort(reason)),
            },
            (Stage::StartingScan { adapter }, Event::ScanStarted(started)) => if *started {
                (
                    Stage::Scanning { adapter },
                    Action::ListPeripheralsAfter { adapter, seconds: SCAN_WINDOW_SECS },
                )
            } else {
                (
                    Stage::Failed(PipelineError::DeviceNotFound),
                    Action::Abort(PipelineError::DeviceNotFound),
                )
            },
            (Stage::Scanning { adapter }, Event::PeripheralsListed(names)) => match scan_for(
                names,
                self.name_prefix.as_str(),
            ) {
                Ok(peripheral) => (
                    Stage::StoppingScan { adapter, peripheral },
                    Action::StopScan { adapter },
                ),
                Err(reason) => (Stage::Failed(reason), Action::Abort(reason)),
            },
            (
                Stage::StoppingScan { adapter, peripheral },
                Event::ScanStopped(stopped),
            ) => if *stopped {
                (Stage::Connecting { peripheral }, Action::Connect { peripheral })
            } else {
                (
                    Stage::Failed(PipelineError::DeviceNotFound),
                    Action::Abort(PipelineError::DeviceNotFound),
                )
            },
            (Stage::Connecting { peripheral }, Event::ConnectFinished(connected)) => if *connected {
                (Stage::Discovering { peripheral }, Action::DiscoverCharacteristics { peripheral })
            } else {
                (
                    Stage::Failed(PipelineError::ConnectionFailed),
                    Action::Abort(PipelineError::ConnectionFailed),
                )
            },
            (
                Stage::Discovering { peripheral },
                Event::CharacteristicsDiscovered(discovered),
            ) => match resolve(discovered, &self.target) {
                Ok(characteristic) => (
                    Stage::Registering { peripheral, characteristic },
                    Action::RegisterHandler { peripheral },
                ),
                Err(reason) => (Stage::Failed(reason), Action::Abort(reason)),
            },
            (Stage::Registering { peripheral, characteristic }, Event::HandlerRegistered) => (
                Stage::Subscribing { peripheral, characteristic },
                Action::Subscribe { peripheral, characteristic },
            ),
            (
                Stage::Subscribing { peripheral, characteristic },
                Event::SubscribeFinished(subscribed),
            ) => if *subscribed {
                (Stage::Streaming, Action::Run)
            } else {
                (
                    Stage::Failed(PipelineError::SubscribeFailed),
                    Action::Abort(PipelineError::SubscribeFailed),
                )
            },
            (stage, _) => (stage, Action::Ignore),
        };
        self.stage = next;
        action
    }
}

/// How far the set-up has come: the number of pieces of work that have
/// succeeded so far. It is telling only while the pipeline has not failed.
pub open spec fn progress(stage: Stage) -> nat {
    match stage {
        Stage::ListingAdapters => 0,
        Stage::StartingScan { .. } => 1,
        Stage::Scanning { .. } => 2,
        Stage::StoppingScan { .. } => 3,
        Stage::Connecting { .. } => 4,
        Stage::Discovering { .. } => 5,
        Stage::Registering { .. } => 6,
        Stage::Subscribing { .. } => 7,
        Stage::Streaming => 8,
        Stage::Failed(_) => 0,
    }
}

/// Where the pipeline stands after a run of events, taken in order.
pub open spec fn after_events(stage: Stage, prefix: Seq<char>, target: Uuid, events: Seq<Event>)
    -> Stage
    decreases events.len(),
{
    if events.len() == 0 {
        stage
    } else {
        let before = after_events(stage, prefix, target, events.drop_last());
        transition(before, prefix, target, events.last()).0
    }
}

/// An event does one of three things. It is ignored, and nothing changes. Or
/// it fails the stage in progress, and the pipeline says so with the failure
/// it comes to rest in. Or it completes the stage in progress, and the
/// pipeline moves on by one stage, never skipping any, and names real work.
pub proof fn lemma_one_stage_at_a_time(
    stage: Stage,
    prefix: Seq<char>,
    target: Uuid,
    event: Event,
)
    ensures
        ({
            let (next, action) = transition(stage, prefix, target, event);
            ||| next == stage && action == Action::Ignore
            ||| !(stage is Failed) && next is Failed && action == Action::Abort(next->Failed_0)
            ||| {
                &&& !(stage is Failed) && !(next is Failed)
                &&& progress(next) == progress(stage) + 1
                &&& !(action is Abort) && !(action is Ignore)
            }
        }),
{
}

/// Failure is final, and so is success: once the pipeline has failed or is
/// streaming, no run of events moves it.
pub proof fn lemma_rest_is_final(stage: Stage, prefix: Seq<char>, target: Uuid, events: Seq<Event>)
    requires
        stage is Failed || stage == Stage::Streaming,
    ensures
        after_events(stage, prefix, target, events) == stage,
    decreases events.len(),
{
    if events.len() > 0 {
        lemma_rest_is_final(stage, prefix, target, events.drop_last());
    }
}

/// Each failure comes from the stage it is named after, and from the event
/// that reports that stage's work.
pub proof fn lemma_failure_names_its_stage(
    stage: Stage,
    prefix: Seq<char>,
    target: Uuid,
    event: Event,
)
    ensures
        match transition(stage, prefix, target, event).1 {
            Action::Abort(PipelineError::NoAdapterFound) => {
                &&& stage == Stage::ListingAdapters
                &&& event matches Event::AdaptersListed(listed)
                &&& (listed is None || listed == Some(0usize))
            },
            Action::Abort(PipelineError::DeviceNotFound) => {
                ||| stage is StartingScan && event == Event::ScanStarted(false)
                ||| stage is StoppingScan && event == Event::ScanStopped(false)
                ||| {
                    &&& stage is Scanning
                    &&& event matches Event::PeripheralsListed(names)
                    &&& scan_choice(names@, prefix) is Err
                }
            },
            Action::Abort(PipelineError::ConnectionFailed) => {
                stage is Connecting && event == Event::ConnectFinished(false)
            },
            Action::Abort(PipelineError::DiscoveryFailed) => {
                stage is Discovering && event == Event::CharacteristicsDiscovered(None)
            },
            Action::Abort(PipelineError::CharacteristicNotFound) => {
                &&& stage is Discovering
                &&& event matches Event::CharacteristicsDiscovered(Some(table))
                &&& !table@.contains(target)
            },
            Action::Abort(PipelineError::SubscribeFailed) => {
                stage is Subscribing && event == Event::SubscribeFinished(false)
            },
            _ => true,
        },
{
    if let Event::CharacteristicsDiscovered(Some(table)) = event {
        table@.index_of_first_ensures(target);
    }
}

/// While the scan runs, a device is reported missing only by the list that
/// is taken once the scan window has elapsed, and then exactly when no
/// peripheral in it carries the wanted name: never before, and for no other
/// event.
pub proof fn lemma_scan_waits_for_the_window(
    adapter: usize,
    prefix: Seq<char>,
    target: Uuid,
    event: Event,
)
    ensures
        transition(Stage::StartingScan { adapter }, prefix, target, Event::ScanStarted(true))
            == (
            Stage::Scanning { adapter },
            Action::ListPeripheralsAfter { adapter, seconds: SCAN_WINDOW_SECS },
        ),
        !(event is PeripheralsListed) ==> transition(
            Stage::Scanning { adapter },
            prefix,
            target,
            event,
        ) == (Stage::Scanning { adapter }, Action::Ignore),
        event matches Event::PeripheralsListed(names) ==> (transition(
            Stage::Scanning { adapter },
            prefix,
            target,
            event,
        ).1 == Action::Abort(PipelineError::DeviceNotFound) <==> forall|j: int|
            0 <= j < names@.len() ==> !advertises(#[trigger] names@[j], prefix)),
{
    if let Event::PeripheralsListed(names) = event {
        lemma_first_match_is_none(names@, prefix);
    }
}

} // verus!
