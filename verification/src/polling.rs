//! Keeping a consumer supplied with the most recent reading.
//!
//! The loop itself runs outside: it fetches, sleeps and hands each outcome
//! back. What is decided here is what an outcome means and what the loop
//! does next. One failed cycle is reported and the loop goes on.

use crate::error::{SensorError, SensorErrorView};
use crate::sensor_data::{decoded_text, LocalSensorData, LocalSensorDataView};
use vstd::prelude::*;

verus! {

/// Seconds between the end of one cycle and the fetch of the next.
pub const REFRESH_SECONDS: u64 = 10;

/// What the transport hands back for one fetch.
#[derive(Clone, Debug, PartialEq, Eq)]
pub enum Fetched {
    /// The device answered, with this HTTP status and body.
    Response { status: u16, body: String },
    /// The request did not complete.
    Failed,
}

/// What the consumer is told.
#[derive(Clone, Debug, PartialEq, Eq)]
pub enum Message {
    /// The consumer has come up.
    Initialized,
    /// A cycle has ended with a reading.
    SnapshotReady(LocalSensorData),
    /// A cycle has ended without one.
    CycleFailed(SensorError),
}

/// What the loop is to do next.
#[derive(Clone, Copy, Debug, PartialEq, Eq, Structural)]
pub enum Command {
    /// Fetch now, on the caller's own context, and hand the outcome back
    /// before anything else happens.
    FetchNow,
    /// Fetch in the background once the seconds have passed.
    FetchAfter { seconds: u64 },
}

/// Where the loop stands.
#[derive(Clone, Copy, Debug, PartialEq, Eq, Structural)]
pub enum Phase {
    /// Not started.
    Idle,
    /// The first fetch is under way.
    Priming,
    /// The background cycle runs.
    Polling,
    /// The loop has been cancelled: no fetch is started any more.
    Stopped,
}

/// The consumer's side of the loop: the most recent reading, and nothing
/// older.
pub struct PurpleAir {
    sensor_data: Option<LocalSensorData>,
    phase: Phase,
    url: String,
}

/// Where a device serves its reading: `http://<device>/json?live=true`.
pub open spec fn sensor_url_of(device: Seq<char>) -> Seq<char> {
    "http://"@ + device + "/json?live=true"@
}

/// The address that the reading of the device at `device`, an IP address or
/// a host name, is fetched from.
pub fn sensor_url(device: &str) -> (url: String)
    ensures
        url@ == sensor_url_of(device@),
{
    let mut url: String = String::from_str("http://");
    url.append(device);
    url.append("/json?live=true");
    url
}

/// Whether an HTTP status reports success.
pub open spec fn is_success(status: u16) -> bool {
    200 <= status < 300
}

/// What one fetch comes to: the reading that its body decodes to, or the
/// error of the cycle.
pub open spec fn cycle_of(fetched: Fetched) -> Result<LocalSensorDataView, SensorErrorView> {
    match fetched {
        Fetched::Response { status, body } => if is_success(status) {
            decoded_text(body@)
        } else {
            Err(SensorErrorView::TransportFailure)
        },
        Fetched::Failed => Err(SensorErrorView::TransportFailure),
    }
}

/// The phase after a message. A cancelled loop stays cancelled.
pub open spec fn next_phase(phase: Phase, message: Message) -> Phase {
    if phase is Stopped {
        Phase::Stopped
    } else {
        match message {
            Message::Initialized => if phase is Idle {
                Phase::Priming
            } else {
                phase
            },
            _ => Phase::Polling,
        }
    }
}

/// The command after a message. The end of the first fetch starts the
/// background cycle at once; the end of every later one waits out the
/// interval. A start that is not the first changes nothing: a fetch is
/// already under way. A cancelled loop starts no fetch.
pub open spec fn next_command(phase: Phase, message: Message) -> Option<Command> {
    if phase is Stopped {
        None
    } else {
        match message {
            Message::Initialized => if phase is Idle {
                Some(Command::FetchNow)
            } else {
                None
            },
            _ => if phase is Priming {
                Some(Command::FetchAfter { seconds: 0 })
            } else {
                Some(Command::FetchAfter { seconds: REFRESH_SECONDS })
            },
        }
    }
}

/// The reading that the consumer holds after a message: a new one takes the
/// place of the old, anything else leaves it.
pub open spec fn next_snapshot(held: Option<LocalSensorData>, message: Message) -> Option<
    LocalSensorData,
> {
    match message {
        Message::SnapshotReady(data) => Some(data),
        _ => held,
    }
}

/// The message that tells the consumer how one fetch ended.
pub fn cycle_message(fetched: Fetched) -> (message: Message)
    ensures
        match message {
            Message::SnapshotReady(data) => cycle_of(fetched) == Ok::<_, SensorErrorView>(data@),
            Message::CycleFailed(e) => cycle_of(fetched) == Err::<LocalSensorDataView, _>(e@),
            Message::Initialized => false,
        },
{
    match fetched {
        Fetched::Response { status, body } => {
            if 200 <= status && status < 300 {
                match LocalSensorData::decode(body.as_str()) {
                    Ok(data) => Message::SnapshotReady(data),
                    Err(e) => Message::CycleFailed(e),
                }
            } else {
                Message::CycleFailed(SensorError::TransportFailure)
            }
        },
        Fetched::Failed => Message::CycleFailed(SensorError::TransportFailure),
    }
}

impl PurpleAir {
    /// The reading that the consumer holds.
    pub closed spec fn snapshot(&self) -> Option<LocalSensorData> {
        self.sensor_data
    }

    /// Where the loop stands.
    pub closed spec fn phase(&self) -> Phase {
        self.phase
    }

    /// The address that every fetch goes to.
    pub closed spec fn endpoint(&self) -> Seq<char> {
        self.url@
    }

    /// A consumer that has no reading yet and whose loop has not started.
    pub fn new(url: String) -> (state: PurpleAir)
        ensures
            state.snapshot().is_none(),
            state.phase() is Idle,
            state.endpoint() == url@,
    {
        PurpleAir { sensor_data: None, phase: Phase::Idle, url }
    }

    /// The most recent reading, if any cycle has brought one yet.
    pub fn sensor_data(&self) -> (data: &Option<LocalSensorData>)
        ensures
            *data == self.snapshot(),
    {
        &self.sensor_data
    }

    /// The address that every fetch goes to.
    pub fn url(&self) -> (url: &str)
        ensures
            url@ == self.endpoint(),
    {
        self.url.as_str()
    }

    /// Whether the loop runs: it has been started and not cancelled.
    pub fn is_running(&self) -> (r: bool)
        ensures
            r == (self.phase() is Priming || self.phase() is Polling),
    {
        match self.phase {
            Phase::Priming => true,
            Phase::Polling => true,
            _ => false,
        }
    }

    /// Cancels the loop. The outcome of a fetch that is still under way is
    /// taken in when it comes, and no fetch follows it.
    pub fn cancel(&mut self)
        ensures
            final(self).phase() is Stopped,
            final(self).snapshot() == old(self).snapshot(),
            final(self).endpoint() == old(self).endpoint(),
    {
        self.phase = Phase::Stopped;
    }

    /// Takes a message in and says what the loop does next.
    pub fn update(&mut self, message: Message) -> (command: Option<Command>)
        ensures
            final(self).snapshot() == next_snapshot(old(self).snapshot(), message),
            final(self).phase() == next_phase(old(self).phase(), message),
            final(self).endpoint() == old(self).endpoint(),
            command == next_command(old(self).phase(), message),
    {
        let was: Phase = self.phase;
        match message {
            Message::Initialized => {
                match was {
                    Phase::Idle => {
                        self.phase = Phase::Priming;
                        Some(Command::FetchNow)
                    },
                    _ => None,
                }
            },
            Message::SnapshotReady(data) => {
                self.sensor_data = Some(data);
                self.after_cycle(was)
            },
            Message::CycleFailed(_) => self.after_cycle(was),
        }
    }

    /// What follows the end of a cycle: the next fetch, unless the loop has
    /// been cancelled.
    fn after_cycle(&mut self, was: Phase) -> (command: Option<Command>)
        requires
            old(self).phase() == was,
        ensures
            final(self).snapshot() == old(self).snapshot(),
            final(self).endpoint() == old(self).endpoint(),
            final(self).phase() == if was is Stopped {
                Phase::Stopped
            } else {
                Phase::Polling
            },
            command == if was is Stopped {
                None
            } else if was is Priming {
                Some(Command::FetchAfter { seconds: 0 })
            } else {
                Some(Command::FetchAfter { seconds: REFRESH_SECONDS })
            },
    {
        match was {
            Phase::Stopped => None,
            Phase::Priming => {
                self.phase = Phase::Polling;
                Some(Command::FetchAfter { seconds: 0 })
            },
            _ => {
                self.phase = Phase::Polling;
                Some(Command::FetchAfter { seconds: REFRESH_SECONDS })
            },
        }
    }
}

/// The end of a cycle never stops the loop: unless the loop has been
/// cancelled, whatever the phase and however the cycle ended, a fetch
/// follows. A failed cycle leaves the reading that the consumer holds; a
/// reading that arrives is the one held afterwards.
pub proof fn lemma_loop_goes_on(phase: Phase, held: Option<LocalSensorData>, message: Message)
    requires
        !(message is Initialized),
        !(phase is Stopped),
    ensures
        next_command(phase, message) matches Some(Command::FetchAfter { seconds })
            && seconds <= REFRESH_SECONDS,
        next_phase(phase, message) is Polling,
        message is CycleFailed ==> next_snapshot(held, message) == held,
        message matches Message::SnapshotReady(data) ==> next_snapshot(held, message) == Some(
            data,
        ),
{
}

/// A cancelled loop stops cleanly: no message starts a fetch again, and the
/// loop stays cancelled. The outcome of a fetch that was under way is still
/// taken in.
pub proof fn lemma_cancelled_loop_stops(held: Option<LocalSensorData>, message: Message)
    ensures
        next_command(Phase::Stopped, message).is_none(),
        next_phase(Phase::Stopped, message) is Stopped,
        message matches Message::SnapshotReady(data) ==> next_snapshot(held, message) == Some(
            data,
        ),
        !(message is SnapshotReady) ==> next_snapshot(held, message) == held,
{
}

/// A fetch that does not complete, or that the device answers without
/// success, never brings a reading.
pub proof fn lemma_transport_failure(fetched: Fetched)
    requires
        fetched matches Fetched::Response { status, .. } ==> !is_success(status),
    ensures
        cycle_of(fetched) == Err::<LocalSensorDataView, _>(SensorErrorView::TransportFailure),
{
}

} // verus!
