//! The channels on which the lines of a task's log are broadcast.

use vstd::prelude::*;

use crate::collections;
use crate::collections::StrMap;
use crate::domain::deploy::LogLine;
use crate::time;
use crate::time::Timestamp;

verus! {

/// How many lines a channel holds for a slow reader.
pub const LOG_CHANNEL_CAPACITY: usize = 256;

/// The sending half of a broadcast channel.
#[verifier::external_type_specification]
#[verifier::external_body]
#[verifier::reject_recursive_types(T)]
pub struct ExSender<T>(tokio::sync::broadcast::Sender<T>);

/// The receiving half of a broadcast channel.
#[verifier::external_type_specification]
#[verifier::external_body]
#[verifier::reject_recursive_types(T)]
pub struct ExReceiver<T>(tokio::sync::broadcast::Receiver<T>);

/// Calls `tokio::sync::broadcast::channel` and drops the receiver that it
/// makes. The capacity must be neither zero nor over half of the address
/// space, where the call panics. Nothing is claimed of the sender, which is
/// new each time.
#[verifier::external_body]
fn new_sender(capacity: usize) -> (r: tokio::sync::broadcast::Sender<LogLine>)
    requires
        0 < capacity <= usize::MAX / 2,
{
    tokio::sync::broadcast::channel(capacity).0
}

/// Calls `clone` of `tokio::sync::broadcast::Sender`: another handle of the
/// same channel, with nothing to tell the two apart.
#[verifier::external_body]
fn same_sender(sender: &tokio::sync::broadcast::Sender<LogLine>) -> (r: tokio::sync::broadcast::Sender<LogLine>)
    ensures
        r == *sender,
{
    sender.clone()
}

/// The sender of the channel that a receiver of
/// `tokio::sync::broadcast::Sender::subscribe` hears.
pub uninterp spec fn heard_channel(
    receiver: tokio::sync::broadcast::Receiver<LogLine>,
) -> tokio::sync::broadcast::Sender<LogLine>;

/// Calls `tokio::sync::broadcast::Sender::subscribe`: a receiver of what is
/// sent on this channel from now on. Which lines it will get is not claimed:
/// that rests on what is sent and on how fast it is read.
#[verifier::external_body]
fn new_receiver(sender: &tokio::sync::broadcast::Sender<LogLine>) -> (r: tokio::sync::broadcast::Receiver<LogLine>)
    ensures
        heard_channel(r) == *sender,
{
    sender.subscribe()
}

/// Calls `tokio::sync::broadcast::Sender::receiver_count`: how many receivers
/// are alive at this moment. Nothing is claimed of the number, which changes
/// as receivers come and go.
#[verifier::external_body]
fn receiver_count(sender: &tokio::sync::broadcast::Sender<LogLine>) -> (r: usize)
{
    sender.receiver_count()
}

/// A line that has been sent, and the channel that it was sent on. Nothing but
/// `broadcast_line` makes one.
pub struct Broadcast {
    sender: tokio::sync::broadcast::Sender<LogLine>,
    line: LogLine,
}

impl Broadcast {
    /// The channel that the line was sent on.
    pub closed spec fn channel(self) -> tokio::sync::broadcast::Sender<LogLine> {
        self.sender
    }

    /// The line that was sent.
    pub closed spec fn content(self) -> LogLine {
        self.line
    }
}

/// Calls `tokio::sync::broadcast::Sender::send`, which hands the line to the
/// receivers that are alive, and drops what it returns: how many there were.
/// The answer says what was sent and where; nothing is claimed of the readers.
#[verifier::external_body]
pub(crate) fn broadcast_line(sender: &tokio::sync::broadcast::Sender<LogLine>, line: &LogLine) -> (r:
    Broadcast)
    ensures
        r.channel() == *sender,
        r.content() == *line,
{
    let _ = sender.send(line.clone());
    Broadcast { sender: sender.clone(), line: line.clone() }
}

/// The channel of one task.
pub struct LogChannel {
    pub sender: tokio::sync::broadcast::Sender<LogLine>,
    pub created_at: Timestamp,
    /// Whether no more lines will come.
    pub finished: bool,
}

/// The channels of all tasks, by the name of the task.
pub struct LogHub {
    channels: StrMap<LogChannel>,
}

/// A channel stays in a cleanup: more lines may come, or somebody reads.
pub open spec fn stays(finished: bool, receivers: int) -> bool {
    !finished || receivers > 0
}

/// A channel stays when old ones are removed: it is not old, or more lines may
/// come.
pub open spec fn stays_unexpired(channel: LogChannel, now: Timestamp, max_age_hours: i64) -> bool {
    time::quotient(now.instant() - channel.created_at.instant(), 3_600_000_000_000)
        < max_age_hours || !channel.finished
}

/// How many of the channels that the first keys name are not finished.
pub open spec fn unfinished(keys: Seq<Seq<char>>, channels: Map<Seq<char>, LogChannel>) -> nat
    decreases keys.len(),
{
    if keys.len() == 0 {
        0
    } else {
        unfinished(keys.drop_last(), channels) + if channels[keys.last()].finished {
            0nat
        } else {
            1nat
        }
    }
}

impl View for LogHub {
    type V = Map<Seq<char>, LogChannel>;

    closed spec fn view(&self) -> Map<Seq<char>, LogChannel> {
        self.channels@
    }
}

impl LogHub {
    /// The names of the tasks in the order in which their channels came.
    pub closed spec fn names(&self) -> Seq<Seq<char>> {
        self.channels.keys()
    }

    /// A hub without channels.
    pub fn new() -> (r: LogHub)
        ensures
            r@ == Map::<Seq<char>, LogChannel>::empty(),
    {
        LogHub { channels: StrMap::new() }
    }

    /// Opens the channel of a task at `now`. A channel that is there stays as
    /// it is, and its sender comes back.
    pub fn create_at(&mut self, task_id: &str, now: Timestamp) -> (r: tokio::sync::broadcast::Sender<
        LogLine,
    >)
        ensures
            old(self)@.dom().contains(task_id@) ==> final(self)@ == old(self)@ && r == old(
                self,
            )@[task_id@].sender,
            !old(self)@.dom().contains(task_id@) ==> final(self)@ == old(self)@.insert(
                task_id@,
                LogChannel { sender: r, created_at: now, finished: false },
            ),
    {
        if let Some(channel) = self.channels.get(task_id) {
            return same_sender(&channel.sender);
        }
        let sender = new_sender(LOG_CHANNEL_CAPACITY);
        let kept = same_sender(&sender);
        self.channels.insert(
            task_id.to_owned(),
            LogChannel { sender: kept, created_at: now, finished: false },
        );
        sender
    }

    /// Opens the channel of a task now. A channel that is there stays as it
    /// is, and its sender comes back.
    pub fn create(&mut self, task_id: &str) -> (r: tokio::sync::broadcast::Sender<LogLine>)
        ensures
            old(self)@.dom().contains(task_id@) ==> final(self)@ == old(self)@,
            !old(self)@.dom().contains(task_id@) ==> final(self)@ == old(self)@.insert(
                task_id@,
                final(self)@[task_id@],
            ) && !final(self)@[task_id@].finished,
            r == final(self)@[task_id@].sender,
    {
        let now = Timestamp::now();
        let r = self.create_at(task_id, now);
        assert(!old(self)@.dom().contains(task_id@) ==> self@ =~= old(self)@.insert(
            task_id@,
            self@[task_id@],
        ));
        r
    }

    /// A receiver of the lines that come from now on; none where the task has
    /// no channel or no more lines will come.
    pub fn subscribe(&self, task_id: &str) -> (r: Option<tokio::sync::broadcast::Receiver<LogLine>>)
        ensures
            r is Some <==> self@.dom().contains(task_id@) && !self@[task_id@].finished,
            r matches Some(rx) ==> heard_channel(rx) == self@[task_id@].sender,
    {
        match self.channels.get(task_id) {
            Some(channel) => if channel.finished {
                None
            } else {
                Some(new_receiver(&channel.sender))
            },
            None => None,
        }
    }

    /// The sender of a task's channel.
    pub fn get_sender(&self, task_id: &str) -> (r: Option<tokio::sync::broadcast::Sender<LogLine>>)
        ensures
            r == if self@.dom().contains(task_id@) {
                Some(self@[task_id@].sender)
            } else {
                None
            },
    {
        match self.channels.get(task_id) {
            Some(channel) => Some(same_sender(&channel.sender)),
            None => None,
        }
    }

    /// Marks that no more lines will come.
    pub fn finish(&mut self, task_id: &str)
        ensures
            final(self)@ == if old(self)@.dom().contains(task_id@) {
                old(self)@.insert(
                    task_id@,
                    LogChannel { finished: true, ..old(self)@[task_id@] },
                )
            } else {
                old(self)@
            },
    {
        if let Some(channel) = self.channels.remove(task_id) {
            self.channels.insert(
                task_id.to_owned(),
                LogChannel {
                    sender: channel.sender,
                    created_at: channel.created_at,
                    finished: true,
                },
            );
            assert(self@ =~= old(self)@.insert(
                task_id@,
                LogChannel { finished: true, ..old(self)@[task_id@] },
            ));
        } else {
            assert(self@ =~= old(self)@);
        }
    }

    /// Whether no more lines will come; so of a task without a channel too.
    pub fn is_finished(&self, task_id: &str) -> (r: bool)
        ensures
            r == (self@.dom().contains(task_id@) ==> self@[task_id@].finished),
    {
        match self.channels.get(task_id) {
            Some(channel) => channel.finished,
            None => true,
        }
    }

    /// Whether a task has a channel.
    pub fn contains(&self, task_id: &str) -> (r: bool)
        ensures
            r == self@.dom().contains(task_id@),
    {
        self.channels.contains_key(task_id)
    }

    /// How many readers each channel has at this moment, in the order of the
    /// names.
    pub fn receiver_counts(&self) -> (r: Vec<usize>)
        ensures
            r@.len() == self.names().len(),
            self.names().no_duplicates(),
            self.names().to_set() == self@.dom(),
    {
        let n = self.channels.len();
        let mut r: Vec<usize> = Vec::new();
        let mut i: usize = 0;
        while i < n
            invariant
                n == self.channels.keys().len(),
                i <= n,
                r@.len() == i,
            decreases n - i,
        {
            r.push(receiver_count(&self.channels.value_at(i).sender));
            i = i + 1;
        }
        r
    }

    /// The channels that stay in a cleanup with these numbers of readers.
    pub open spec fn after_cleanup(self, receivers: Seq<usize>) -> Map<Seq<char>, LogChannel> {
        collections::kept(
            self@,
            |k: Seq<char>, c: LogChannel|
                stays(c.finished, receivers[self.names().index_of(k)] as int),
        )
    }

    /// Removes the channels on which no more lines will come and that nobody
    /// reads, where `receivers` gives the readers of each channel in the order
    /// of the names.
    pub fn cleanup_with(&mut self, receivers: &Vec<usize>)
        requires
            receivers@.len() == old(self).names().len(),
        ensures
            final(self)@ == old(self).after_cleanup(receivers@),
            old(self).names().no_duplicates(),
            old(self).names().to_set() == old(self)@.dom(),
    {
        let n = self.channels.len();
        let ghost test = |k: Seq<char>, c: LogChannel|
            stays(c.finished, receivers@[old(self).names().index_of(k)] as int);
        let mut marks: Vec<bool> = Vec::new();
        let mut i: usize = 0;
        while i < n
            invariant
                n == self.channels.keys().len(),
                n == receivers@.len(),
                i <= n,
                marks@.len() == i,
                *self == *old(self),
                self.channels.keys().no_duplicates(),
                test == (|k: Seq<char>, c: LogChannel|
                    stays(c.finished, receivers@[old(self).names().index_of(k)] as int)),
                forall|j: int|
                    0 <= j < i ==> #[trigger] marks@[j] == test(
                        self.channels.keys()[j],
                        self.channels@[self.channels.keys()[j]],
                    ),
            decreases n - i,
        {
            let finished = self.channels.value_at(i).finished;
            proof {
                let keys = self.channels.keys();
                assert(keys.contains(keys[i as int]));
                assert(keys.index_of(keys[i as int]) == i);
            }
            marks.push(!finished || receivers[i] > 0);
            i = i + 1;
        }
        self.channels.retain_marked(&marks, Ghost(test));
        assert(self@ =~= old(self).after_cleanup(receivers@));
    }

    /// Removes the channels on which no more lines will come and that nobody
    /// reads at this moment. Whatever the numbers of readers are, no channel
    /// that is not finished goes, and none changes.
    pub fn cleanup(&mut self)
        ensures
            exists|receivers: Seq<usize>|
                receivers.len() == old(self).names().len() && final(self)@ == #[trigger] old(
                    self,
                ).after_cleanup(receivers),
            old(self).names().no_duplicates(),
            old(self).names().to_set() == old(self)@.dom(),
    {
        let receivers = self.receiver_counts();
        self.cleanup_with(&receivers);
        assert(self@ == old(self).after_cleanup(receivers@));
    }

    /// The channels that stay when, at `now`, old ones are removed.
    pub open spec fn after_expiry(self, now: Timestamp, max_age_hours: i64) -> Map<
        Seq<char>,
        LogChannel,
    > {
        collections::kept(
            self@,
            |k: Seq<char>, c: LogChannel| stays_unexpired(c, now, max_age_hours),
        )
    }

    /// Removes, at `now`, the channels that are as old as this many hours and
    /// on which no more lines will come.
    pub fn cleanup_expired_at(&mut self, max_age_hours: i64, now: Timestamp)
        ensures
            final(self)@ == old(self).after_expiry(now, max_age_hours),
    {
        let n = self.channels.len();
        let ghost test = |k: Seq<char>, c: LogChannel| stays_unexpired(c, now, max_age_hours);
        let mut marks: Vec<bool> = Vec::new();
        let mut i: usize = 0;
        while i < n
            invariant
                n == self.channels.keys().len(),
                i <= n,
                marks@.len() == i,
                *self == *old(self),
                test == (|k: Seq<char>, c: LogChannel| stays_unexpired(c, now, max_age_hours)),
                forall|j: int|
                    0 <= j < i ==> #[trigger] marks@[j] == test(
                        self.channels.keys()[j],
                        self.channels@[self.channels.keys()[j]],
                    ),
            decreases n - i,
        {
            let channel = self.channels.value_at(i);
            marks.push(now.hours_since(&channel.created_at) < max_age_hours || !channel.finished);
            i = i + 1;
        }
        self.channels.retain_marked(&marks, Ghost(test));
    }

    /// Removes the channels that are as old as this many hours and on which no
    /// more lines will come.
    pub fn cleanup_expired(&mut self, max_age_hours: i64)
        ensures
            exists|now: Timestamp|
                final(self)@ == #[trigger] old(self).after_expiry(now, max_age_hours),
    {
        let now = Timestamp::now();
        self.cleanup_expired_at(max_age_hours, now);
        assert(self@ == old(self).after_expiry(now, max_age_hours));
    }

    /// How many channels there are.
    pub fn count(&self) -> (r: usize)
        ensures
            r == self@.dom().len(),
    {
        self.channels.len()
    }

    /// How many channels are not finished.
    pub fn active_count(&self) -> (r: usize)
        ensures
            r == unfinished(self.names(), self@),
            self.names().no_duplicates(),
            self.names().to_set() == self@.dom(),
    {
        let n = self.channels.len();
        let ghost keys = self.channels.keys();
        let mut r: usize = 0;
        let mut i: usize = 0;
        while i < n
            invariant
                n == keys.len(),
                keys == self.channels.keys(),
                i <= n,
                r <= i,
                r == unfinished(keys.take(i as int), self.channels@),
            decreases n - i,
        {
            assert(keys.take(i + 1).drop_last() =~= keys.take(i as int));
            if !self.channels.value_at(i).finished {
                r = r + 1;
            }
            i = i + 1;
        }
        assert(keys.take(n as int) =~= keys);
        r
    }
}

impl Default for LogHub {
    fn default() -> (r: LogHub)
        ensures
            r@ == Map::<Seq<char>, LogChannel>::empty(),
    {
        LogHub::new()
    }
}

/// No cleanup removes or changes a channel on which lines may still come.
pub proof fn cleanup_keeps_unfinished(
    hub: LogHub,
    receivers: Seq<usize>,
    now: Timestamp,
    max_age_hours: i64,
    id: Seq<char>,
)
    requires
        hub@.dom().contains(id),
        !hub@[id].finished,
    ensures
        hub.after_cleanup(receivers).dom().contains(id),
        hub.after_cleanup(receivers)[id] == hub@[id],
        hub.after_expiry(now, max_age_hours).dom().contains(id),
        hub.after_expiry(now, max_age_hours)[id] == hub@[id],
{
}

/// A cleanup removes a finished channel exactly where nobody reads it.
pub proof fn cleanup_removes_unread(hub: LogHub, receivers: Seq<usize>, id: Seq<char>)
    requires
        hub@.dom().contains(id),
        hub@[id].finished,
    ensures
        hub.after_cleanup(receivers).dom().contains(id) <==> receivers[hub.names().index_of(id)]
            > 0,
{
}

} // verus!
