//! Subscriptions to the live changes of a dataset.
//!
//! A client asks for a dataset by the path in the first message of its
//! exchange. The path is checked, the dataset's channel is looked up in the
//! registry or created there, and the client is given a receiver on it. One
//! channel serves every subscriber of a dataset, present and future; the
//! registry never forgets a channel.
use vstd::prelude::*;
use vstd::string::*;
use tokio::sync::broadcast::Receiver;
use tokio::sync::broadcast::Sender;
use crate::channel::open_channel;
use crate::channel::publish_all;
use crate::channel::receiver_channel;
use crate::channel::sender_channel;
use crate::channel::subscribe_to;
use crate::channel::CHANNEL_CAPACITY;
use crate::dataupdate::append_updates;
use crate::dataupdate::appends;
use crate::dataupdate::Batch;
use crate::dataupdate::DataUpdate;
use crate::descriptor::FlightDescriptor;
use crate::error::fails_with;
use crate::error::ErrorKind;
use crate::error::FlightError;
use crate::text::dot_joined;
use crate::text::join_with_dots;
use crate::text::prefixed;
use crate::text::surround;
use crate::text::views_of;

verus! {

/// What arrived as the first message of an exchange.
#[derive(Clone, Debug)]
pub enum FirstMessage {
    /// The client closed its side without sending anything.
    Missing,
    /// The message could not be read; the text says why.
    Unreadable(String),
    /// A message, with the descriptor it carried if it carried one.
    Message(Option<FlightDescriptor>),
}

pub open spec fn missing_message() -> Seq<char> {
    "Need to send a FlightData message with a FlightDescriptor to subscribe to"@
}

pub open spec fn unreadable_message(reason: Seq<char>) -> Seq<char> {
    "Unable to read subscription request: "@ + reason
}

pub open spec fn no_descriptor_message() -> Seq<char> {
    "Flight descriptor required to indicate which data to subscribe to"@
}

pub open spec fn empty_path_message() -> Seq<char> {
    "Flight descriptor needs to specify a path to indicate which data to subscribe to"@
}

pub open spec fn unknown_dataset_message(path: Seq<char>) -> Seq<char> {
    "Unknown dataset: \""@ + path + "\""@
}

/// The dataset that an exchange asks for: the parts of the descriptor's path
/// joined by dots. A missing or unreadable message, a message without a
/// descriptor and a descriptor with an empty path are each an
/// `InvalidRequest` with a message of its own.
pub fn requested_path(first: FirstMessage) -> (r: Result<String, FlightError>)
    ensures
        match first {
            FirstMessage::Missing => fails_with(r, ErrorKind::InvalidRequest, missing_message()),
            FirstMessage::Unreadable(reason) => fails_with(
                r,
                ErrorKind::InvalidRequest,
                unreadable_message(reason@),
            ),
            FirstMessage::Message(None) => fails_with(
                r,
                ErrorKind::InvalidRequest,
                no_descriptor_message(),
            ),
            FirstMessage::Message(Some(descriptor)) => if descriptor.path@.len() == 0 {
                fails_with(r, ErrorKind::InvalidRequest, empty_path_message())
            } else {
                r matches Ok(path) && path@ == dot_joined(views_of(descriptor.path@))
            },
        },
{
    match first {
        FirstMessage::Missing => Err(
            FlightError::new(
                ErrorKind::InvalidRequest,
                "Need to send a FlightData message with a FlightDescriptor to subscribe to".to_owned(),
            ),
        ),
        FirstMessage::Unreadable(reason) => Err(
            FlightError::new(
                ErrorKind::InvalidRequest,
                prefixed("Unable to read subscription request: ", reason.as_str()),
            ),
        ),
        FirstMessage::Message(None) => Err(
            FlightError::new(
                ErrorKind::InvalidRequest,
                "Flight descriptor required to indicate which data to subscribe to".to_owned(),
            ),
        ),
        FirstMessage::Message(Some(descriptor)) => {
            if descriptor.path.len() == 0 {
                Err(
                    FlightError::new(
                        ErrorKind::InvalidRequest,
                        "Flight descriptor needs to specify a path to indicate which data to subscribe to".to_owned(),
                    ),
                )
            } else {
                Ok(join_with_dots(&descriptor.path))
            }
        },
    }
}

/// The query that fetches every current row of a dataset.
pub fn select_all_query(path: &str) -> (r: String)
    ensures
        r@ == "SELECT * FROM \""@ + path@ + "\""@,
{
    surround("SELECT * FROM \"", path, "\"")
}

/// What a refresh of a dataset publishes: one appending update for each
/// batch of the query's result, in the order of the batches. Where the
/// engine failed, nothing is published; the failure is an `ExecutionFailure`
/// with the engine's message, for the caller to log. Subscribers are not
/// told of it: they go on waiting for the next refresh.
pub fn refresh_updates(result: Result<Vec<Batch>, String>) -> (r: Result<
    Vec<DataUpdate>,
    FlightError,
>)
    ensures
        match result {
            Ok(batches) => r matches Ok(updates) && updates@.len() == batches@.len() && forall|
                i: int,
            |
                0 <= i < batches@.len() ==> appends(#[trigger] updates@[i], batches@[i]),
            Err(message) => fails_with(r, ErrorKind::ExecutionFailure, message@),
        },
{
    match result {
        Ok(batches) => Ok(append_updates(batches)),
        Err(message) => Err(FlightError::new(ErrorKind::ExecutionFailure, message)),
    }
}

/// The channel of one dataset.
pub struct SubscriptionChannel {
    path: String,
    sender: Sender<DataUpdate>,
}

/// The channels of the datasets that have been subscribed to, one for each.
pub struct ChannelRegistry {
    channels: Vec<SubscriptionChannel>,
}

/// A client's place on the channel of a dataset.
pub struct Subscription {
    /// The dataset.
    pub path: String,
    /// Whether this subscription created the dataset's channel.
    pub created: bool,
    /// Receives what is sent into the channel from now on.
    pub receiver: Receiver<DataUpdate>,
}

/// The registered paths after a subscription to `path`: as before where the
/// path is registered, else with the path added at the end.
pub open spec fn subscribed(paths: Seq<Seq<char>>, path: Seq<char>) -> Seq<Seq<char>> {
    if paths.contains(path) {
        paths
    } else {
        paths.push(path)
    }
}

/// Whether no path stands twice in the registry.
pub open spec fn distinct(paths: Seq<Seq<char>>) -> bool {
    forall|i: int, j: int| 0 <= i < j < paths.len() ==> paths[i] != paths[j]
}

/// How many channels a registry holds for one path.
pub open spec fn channels_for(paths: Seq<Seq<char>>, path: Seq<char>) -> nat {
    paths.filter(|p: Seq<char>| p == path).len()
}

/// A subscription never breaks the registry, and after it the path has
/// exactly one channel.
pub proof fn lemma_subscribed_has_one_channel(paths: Seq<Seq<char>>, path: Seq<char>)
    requires
        distinct(paths),
    ensures
        distinct(subscribed(paths, path)),
        subscribed(paths, path).contains(path),
        channels_for(subscribed(paths, path), path) == 1,
{
    let after = subscribed(paths, path);
    if !paths.contains(path) {
        assert(after[paths.len() as int] == path);
    }
    lemma_distinct_count(after, path);
}

/// In a registry without duplicates a registered path has one channel and
/// any other path has none.
pub proof fn lemma_distinct_count(paths: Seq<Seq<char>>, path: Seq<char>)
    requires
        distinct(paths),
    ensures
        channels_for(paths, path) == if paths.contains(path) {
            1nat
        } else {
            0nat
        },
    decreases paths.len(),
{
    let same = |p: Seq<char>| p == path;
    reveal(Seq::filter);
    if paths.len() > 0 {
        let front = paths.drop_last();
        assert(distinct(front));
        lemma_distinct_count(front, path);
        if paths.last() == path {
            if front.contains(path) {
                let i = choose|i: int| 0 <= i < front.len() && front[i] == path;
                assert(paths[i] == paths[paths.len() - 1]);
            }
            assert(paths[paths.len() - 1] == path);
        } else {
            if paths.contains(path) {
                let i = choose|i: int| 0 <= i < paths.len() && paths[i] == path;
                assert(front[i] == path);
            }
        }
    }
}

/// Two subscriptions to one dataset, whatever other subscription comes
/// between them, register one channel for it: the first adds at most one
/// entry to the registry, and the second adds none.
pub proof fn lemma_second_subscription_creates_nothing(
    paths: Seq<Seq<char>>,
    path: Seq<char>,
    other: Seq<char>,
)
    requires
        distinct(paths),
    ensures
        subscribed(paths, path).len() == paths.len() + if paths.contains(path) {
            0nat
        } else {
            1nat
        },
        subscribed(subscribed(paths, path), path) == subscribed(paths, path),
        subscribed(subscribed(subscribed(paths, path), other), path) == subscribed(
            subscribed(paths, path),
            other,
        ),
        channels_for(subscribed(subscribed(paths, path), path), path) == 1,
{
    let once = subscribed(paths, path);
    lemma_subscribed_has_one_channel(paths, path);
    let between = subscribed(once, other);
    let i = choose|i: int| 0 <= i < once.len() && once[i] == path;
    assert(between[i] == path);
}

/// A dataset is served by one channel: two subscribers of one dataset, in
/// whatever order they came, listen on the same channel, the one that is
/// registered for the dataset.
pub proof fn lemma_one_channel_serves(
    registry: ChannelRegistry,
    path: Seq<char>,
    first: int,
    second: int,
)
    requires
        registry.wf(),
        registry.serves(path, first),
        registry.serves(path, second),
    ensures
        first == second,
{
    let i = choose|i: int|
        0 <= i < registry.paths().len() && registry.paths()[i] == path && i
            < registry.channels_of().len() && #[trigger] registry.channels_of()[i] == first;
    let j = choose|j: int|
        0 <= j < registry.paths().len() && registry.paths()[j] == path && j
            < registry.channels_of().len() && #[trigger] registry.channels_of()[j] == second;
    if i < j {
        assert(registry.paths()[i] != registry.paths()[j]);
    } else if j < i {
        assert(registry.paths()[j] != registry.paths()[i]);
    }
}

impl ChannelRegistry {
    /// The paths of the registered channels, in the order of registration.
    pub closed spec fn paths(&self) -> Seq<Seq<char>> {
        Seq::new(self.channels@.len(), |i: int| self.channels@[i].path@)
    }

    /// The channels of the registered datasets, as the numbers of their
    /// senders, in the order of registration.
    pub closed spec fn channels_of(&self) -> Seq<int> {
        Seq::new(self.channels@.len(), |i: int| sender_channel(self.channels@[i].sender))
    }

    /// Whether `channel` is the channel registered for the dataset at
    /// `path`.
    pub open spec fn serves(&self, path: Seq<char>, channel: int) -> bool {
        exists|i: int|
            0 <= i < self.paths().len() && self.paths()[i] == path && i < self.channels_of().len()
                && #[trigger] self.channels_of()[i] == channel
    }

    /// No dataset has two channels.
    pub open spec fn wf(&self) -> bool {
        distinct(self.paths())
    }

    /// A registry without channels.
    pub fn new() -> (r: ChannelRegistry)
        ensures
            r.wf(),
            r.paths() == Seq::<Seq<char>>::empty(),
            r.channels_of() == Seq::<int>::empty(),
    {
        ChannelRegistry { channels: Vec::new() }
    }

    /// How many channels are registered.
    pub fn len(&self) -> (r: usize)
        ensures
            r == self.paths().len(),
            r == self.channels_of().len(),
    {
        self.channels.len()
    }

    /// Where the channel of `path` stands, if it is registered.
    fn position(&self, path: &String) -> (r: Option<usize>)
        ensures
            match r {
                Some(i) => i < self.paths().len() && self.paths()[i as int] == path@,
                None => !self.paths().contains(path@),
            },
    {
        let mut i: usize = 0;
        while i < self.channels.len()
            invariant
                i <= self.channels@.len(),
                forall|j: int| 0 <= j < i ==> self.paths()[j] != path@,
            decreases self.channels@.len() - i,
        {
            if self.channels[i].path == *path {
                return Some(i);
            }
            i += 1;
        }
        None
    }

    /// Whether a channel is registered for `path`.
    pub fn contains(&self, path: &String) -> (r: bool)
        ensures
            r == self.paths().contains(path@),
    {
        self.position(path).is_some()
    }

    /// Joins the channel of the dataset at `path` where it is registered:
    /// the receiver listens on the channel that is registered for the path.
    /// The registry is not changed, so any number of clients can join at
    /// once.
    pub fn join(&self, path: &String) -> (r: Option<Subscription>)
        ensures
            match r {
                Some(subscription) => self.paths().contains(path@) && subscription.path@ == path@
                    && !subscription.created && self.serves(
                    path@,
                    receiver_channel(subscription.receiver),
                ),
                None => !self.paths().contains(path@),
            },
    {
        match self.position(path) {
            Some(i) => {
                let receiver = subscribe_to(&self.channels[i].sender);
                proof {
                    assert(self.channels_of()[i as int] == receiver_channel(receiver));
                }
                Some(Subscription { path: path.clone(), created: false, receiver })
            },
            None => None,
        }
    }

    /// Sends updates to the subscribers of the dataset at `path`, first to
    /// last. The answer is how many of them were sent while at least one
    /// subscriber was there, or `None` where the dataset has no channel.
    pub fn publish(&self, path: &String, updates: Vec<DataUpdate>) -> (r: Option<usize>)
        ensures
            match r {
                Some(delivered) => self.paths().contains(path@) && delivered <= updates@.len(),
                None => !self.paths().contains(path@),
            },
    {
        match self.position(path) {
            Some(i) => Some(publish_all(&self.channels[i].sender, updates)),
            None => None,
        }
    }

    /// Subscribes to the dataset at `path`. `has_publisher` says whether a
    /// publisher is registered for the dataset right now.
    ///
    /// Without a publisher the request fails with `UnknownDataset`, naming
    /// the path, and the registry is as it was: the same paths with the same
    /// channels. With one, the receiver listens on the dataset's channel:
    /// the registered one, which stays as it is with every other channel, or
    /// a new one that this call registers at the end where the dataset had
    /// none.
    pub fn subscribe(&mut self, path: String, has_publisher: bool) -> (r: Result<
        Subscription,
        FlightError,
    >)
        requires
            old(self).wf(),
        ensures
            final(self).wf(),
            !has_publisher ==> final(self).paths() == old(self).paths() && fails_with(
                r,
                ErrorKind::UnknownDataset,
                unknown_dataset_message(path@),
            ),
            has_publisher ==> final(self).paths() == subscribed(old(self).paths(), path@) && (
            r matches Ok(subscription) && subscription.path@ == path@ && subscription.created
                == !old(self).paths().contains(path@)),
            !has_publisher ==> final(self).channels_of() == old(self).channels_of(),
            has_publisher && old(self).paths().contains(path@) ==> final(self).channels_of() == old(
                self,
            ).channels_of(),
            has_publisher ==> (r matches Ok(subscription) && final(self).serves(
                path@,
                receiver_channel(subscription.receiver),
            )),
            has_publisher && !old(self).paths().contains(path@) ==> (r matches Ok(subscription)
                && final(self).channels_of() == old(self).channels_of().push(
                receiver_channel(subscription.receiver),
            )),
    {
        if !has_publisher {
            return Err(
                FlightError::new(
                    ErrorKind::UnknownDataset,
                    surround("Unknown dataset: \"", path.as_str(), "\""),
                ),
            );
        }
        match self.position(&path) {
            Some(i) => {
                let receiver = subscribe_to(&self.channels[i].sender);
                proof {
                    assert(self.channels_of()[i as int] == receiver_channel(receiver));
                }
                Ok(Subscription { path, created: false, receiver })
            },
            None => {
                let (sender, receiver) = open_channel(CHANNEL_CAPACITY);
                let ghost before = self.paths();
                let ghost channels_before = self.channels_of();
                self.channels.push(SubscriptionChannel { path: path.clone(), sender });
                proof {
                    assert(self.paths() =~= before.push(path@));
                    assert(self.channels_of() =~= channels_before.push(
                        receiver_channel(receiver),
                    ));
                    assert(self.paths()[before.len() as int] == path@);
                    assert(self.channels_of()[before.len() as int] == receiver_channel(
                        receiver,
                    ));
                }
                Ok(Subscription { path, created: true, receiver })
            },
        }
    }
}

} // verus!
