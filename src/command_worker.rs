use crate::bindings::{random_token, send_to};
use crate::event::ClientEvent;
use crate::stream::EventType;
use crate::text::{client_key, client_key_of, worker_channel, worker_channel_of};
use futures::channel::mpsc::UnboundedSender;
use std::collections::HashMap;
use vstd::prelude::*;

verus! {

broadcast use vstd::std_specs::hash::group_hash_axioms;

/// Requests on the worker's local queue.
pub enum CmdWorkerMsg {
    /// Make `channel` the delivery target of a connection id.
    Register(usize, UnboundedSender<ClientEvent>),
    /// Forget a connection id.
    Remove(usize),
    /// Deliver a command that originated in this process.
    Dispatch(Command),
}

/// A routing command; the same value travels over the broker.
pub enum Command {
    /// Deliver a payload to a connection.
    Send(usize, String),
}

/// The outcome of trying to deliver a command to a local connection.
#[derive(PartialEq, Eq, Structural, Clone, Copy, Debug)]
pub enum Delivery {
    /// Queued on the connection's channel.
    Delivered,
    /// The connection's receiver is gone; its entry was dropped.
    ReceiverGone,
    /// No local connection has that id.
    NotLocal,
}

/// What the worker asks its surroundings to do after an event.
pub enum WorkerAction {
    /// Write `key → owner` into the directory.
    PutOwner { key: String, owner: String },
    /// Delete `key` from the directory.
    DeleteOwner { key: String },
    /// Look `key` up in the directory and forward `command` to the owner.
    Forward { key: String, command: Command },
    /// The command was handled locally; the delivery outcome says how.
    Handled(Delivery),
    /// A command from the broker for a connection that is not here any
    /// more: it is dropped.
    Dropped,
}

/// The connection a command is addressed to.
pub open spec fn command_target(cmd: Command) -> usize {
    match cmd {
        Command::Send(user, _) => user,
    }
}

/// The payload a command carries.
pub open spec fn command_payload(cmd: Command) -> String {
    match cmd {
        Command::Send(_, payload) => payload,
    }
}

/// The connection a command is addressed to.
pub fn command_target_of(cmd: &Command) -> (r: usize)
    ensures
        r == command_target(*cmd),
{
    match cmd {
        Command::Send(user, _) => *user,
    }
}

/// The channel a command goes to, if its target is registered in `clients`.
pub open spec fn route_of<C>(clients: Map<usize, C>, cmd: Command) -> Option<C> {
    if clients.contains_key(command_target(cmd)) {
        Some(clients[command_target(cmd)])
    } else {
        None
    }
}

/// How an attempted local delivery leaves the channel map: unchanged when
/// the target is not registered or the channel took the payload; without
/// the target when its receiver was gone.
pub open spec fn delivered<C>(before: Map<usize, C>, cmd: Command, after: Map<usize, C>, r: Delivery) -> bool {
    let user = command_target(cmd);
    if !before.contains_key(user) {
        r == Delivery::NotLocal && after == before
    } else {
        (r == Delivery::Delivered && after == before) || (r == Delivery::ReceiverGone && after == before.remove(user))
    }
}

/// The per-instance command worker: it alone owns the map from local
/// connection id to that connection's outbound channel.
pub struct CommandWorker {
    id: String,
    clients: HashMap<usize, UnboundedSender<ClientEvent>>,
}

impl CommandWorker {
    /// The registered connections and their channels.
    pub closed spec fn clients(&self) -> Map<usize, UnboundedSender<ClientEvent>> {
        self.clients@
    }

    /// This instance's identifier.
    pub closed spec fn instance(&self) -> Seq<char> {
        self.id@
    }

    /// A worker for the instance named `id`, with no connections.
    pub fn with_instance_id(id: String) -> (r: CommandWorker)
        ensures
            r.instance() == id@,
            r.clients() == Map::<usize, UnboundedSender<ClientEvent>>::empty(),
    {
        CommandWorker { id, clients: HashMap::new() }
    }

    /// A worker for a new instance with a random identifier.
    pub fn new() -> (r: CommandWorker)
        ensures
            r.instance().len() == 36,
            r.clients() == Map::<usize, UnboundedSender<ClientEvent>>::empty(),
    {
        CommandWorker::with_instance_id(random_token())
    }

    /// This instance's identifier.
    pub fn instance_id(&self) -> (r: &str)
        ensures
            r@ == self.instance(),
    {
        self.id.as_str()
    }

    /// The broker channel `workers:<instance>` this worker listens on.
    pub fn channel_id(&self) -> (r: String)
        ensures
            r@ == worker_channel_of(self.instance()),
    {
        worker_channel(self.id.as_str())
    }

    /// Whether connection `id` is registered here.
    pub fn has_client(&self, id: usize) -> (r: bool)
        ensures
            r == self.clients().contains_key(id),
    {
        self.clients.contains_key(&id)
    }

    /// How many connections are registered here.
    pub fn client_count(&self) -> (r: usize)
        ensures
            r == self.clients().len(),
    {
        self.clients.len()
    }

    /// The channel a command goes to and the event it carries there, if
    /// the target is registered: the target's current channel and the
    /// payload as a raw message.
    pub fn delivery_target(&self, cmd: &Command) -> (r: Option<(&UnboundedSender<ClientEvent>, ClientEvent)>)
        ensures
            r is None <==> route_of(self.clients(), *cmd) is None,
            r matches Some((ch, ev)) ==> route_of(self.clients(), *cmd) == Some(*ch) && ev == ClientEvent::RawMessage(
                command_payload(*cmd),
            ),
    {
        match cmd {
            Command::Send(user, msg) => match self.clients.get(user) {
                Some(ch) => Some((ch, ClientEvent::RawMessage(msg.clone()))),
                None => None,
            },
        }
    }

    /// What follows a send to `user`'s channel: a queued payload leaves the
    /// map as it is; a refused one means the receiver is gone, and its entry
    /// is dropped.
    pub fn after_send(&mut self, user: usize, queued: bool) -> (r: Delivery)
        ensures
            final(self).instance() == old(self).instance(),
            queued ==> r == Delivery::Delivered && final(self).clients() == old(self).clients(),
            !queued ==> r == Delivery::ReceiverGone && final(self).clients() == old(self).clients().remove(user),
    {
        if queued {
            Delivery::Delivered
        } else {
            self.clients.remove(&user);
            Delivery::ReceiverGone
        }
    }

    /// Makes `client` the only delivery target of `id`, replacing any
    /// earlier one, and returns the directory write that claims `id`.
    pub fn register_client(&mut self, id: usize, client: UnboundedSender<ClientEvent>) -> (r: WorkerAction)
        ensures
            final(self).clients() == old(self).clients().insert(id, client),
            final(self).instance() == old(self).instance(),
            r matches WorkerAction::PutOwner { key, owner } && key@ == client_key_of(id as nat)
                && owner@ == old(self).instance(),
    {
        self.clients.insert(id, client);
        WorkerAction::PutOwner { key: client_key(id), owner: self.id.clone() }
    }

    /// Forgets `id` and returns the directory deletion that releases it.
    /// Removing an id that is not registered changes nothing here.
    pub fn remove_client(&mut self, id: usize) -> (r: WorkerAction)
        ensures
            final(self).clients() == old(self).clients().remove(id),
            final(self).instance() == old(self).instance(),
            r matches WorkerAction::DeleteOwner { key } && key@ == client_key_of(id as nat),
    {
        self.clients.remove(&id);
        WorkerAction::DeleteOwner { key: client_key(id) }
    }

    /// Delivers a command to its target's channel if the target is
    /// registered here: the pair from `delivery_target` is handed to the
    /// channel unchanged, and `after_send` decides from the outcome.
    pub fn process(&mut self, cmd: Command) -> (r: Delivery)
        ensures
            delivered(old(self).clients(), cmd, final(self).clients(), r),
            final(self).instance() == old(self).instance(),
    {
        let user = command_target_of(&cmd);
        let queued = match self.delivery_target(&cmd) {
            Some((ch, ev)) => send_to(ch, ev),
            None => return Delivery::NotLocal,
        };
        self.after_send(user, queued)
    }

    /// Applies one event of the merged stream: local requests come as
    /// `A`, commands from the broker as `B`. A locally originated command
    /// for a connection that is not here is forwarded through the
    /// directory; one from the broker is dropped, since the broker only
    /// brings commands for connections this instance owned.
    pub fn handle(&mut self, ev: EventType<CmdWorkerMsg, Command>) -> (r: WorkerAction)
        ensures
            final(self).instance() == old(self).instance(),
            match ev {
                EventType::A(CmdWorkerMsg::Register(id, ch)) => {
                    &&& final(self).clients() == old(self).clients().insert(id, ch)
                    &&& r matches WorkerAction::PutOwner { key, owner } && key@ == client_key_of(id as nat)
                        && owner@ == old(self).instance()
                },
                EventType::A(CmdWorkerMsg::Remove(id)) => {
                    &&& final(self).clients() == old(self).clients().remove(id)
                    &&& r matches WorkerAction::DeleteOwner { key } && key@ == client_key_of(id as nat)
                },
                EventType::A(CmdWorkerMsg::Dispatch(cmd)) => {
                    if old(self).clients().contains_key(command_target(cmd)) {
                        r matches WorkerAction::Handled(d) && delivered(old(self).clients(), cmd, final(self).clients(), d)
                    } else {
                        &&& final(self).clients() == old(self).clients()
                        &&& r matches WorkerAction::Forward { key, command } && key@ == client_key_of(
                            command_target(cmd) as nat,
                        ) && command == cmd
                    }
                },
                EventType::B(cmd) => {
                    if old(self).clients().contains_key(command_target(cmd)) {
                        r matches WorkerAction::Handled(d) && delivered(old(self).clients(), cmd, final(self).clients(), d)
                    } else {
                        &&& final(self).clients() == old(self).clients()
                        &&& r is Dropped
                    }
                },
            },
    {
        match ev {
            EventType::A(CmdWorkerMsg::Register(id, ch)) => self.register_client(id, ch),
            EventType::A(CmdWorkerMsg::Remove(id)) => self.remove_client(id),
            EventType::A(CmdWorkerMsg::Dispatch(cmd)) => {
                let target = command_target_of(&cmd);
                if self.clients.contains_key(&target) {
                    WorkerAction::Handled(self.process(cmd))
                } else {
                    WorkerAction::Forward { key: client_key(target), command: cmd }
                }
            },
            EventType::B(cmd) => {
                let target = command_target_of(&cmd);
                if self.clients.contains_key(&target) {
                    WorkerAction::Handled(self.process(cmd))
                } else {
                    WorkerAction::Dropped
                }
            },
        }
    }

    /// Where a forwarded command goes once the directory answered with the
    /// target's owner: that owner's broker channel, unless there is no
    /// owner or the directory still names this instance (a stale entry).
    pub fn forward_channel(&self, owner: Option<String>) -> (r: Option<String>)
        ensures
            match owner {
                Some(o) => if o@ == self.instance() {
                    r is None
                } else {
                    r matches Some(c) && c@ == worker_channel_of(o@)
                },
                None => r is None,
            },
    {
        match owner {
            Some(o) => {
                if o == self.id {
                    None
                } else {
                    Some(worker_channel(o.as_str()))
                }
            },
            None => None,
        }
    }
}

/// Re-registering a connection id replaces its delivery target rather than
/// adding a second one: the map is as if only the latest channel had been
/// registered, the set of ids is unchanged, and commands for the id route to
/// the latest channel.
pub proof fn lemma_reregister_replaces<C>(clients: Map<usize, C>, id: usize, first: C, latest: C, payload: String)
    ensures
        clients.insert(id, first).insert(id, latest) == clients.insert(id, latest),
        clients.insert(id, first).insert(id, latest).dom() == clients.insert(id, first).dom(),
        route_of(clients.insert(id, first).insert(id, latest), Command::Send(id, payload)) == Some(latest),
{
    assert(clients.insert(id, first).insert(id, latest) =~= clients.insert(id, latest));
    assert(clients.insert(id, first).insert(id, latest).dom() =~= clients.insert(id, first).dom());
}

/// After a connection id is registered and then removed, a command for it
/// reaches no local channel: delivery reports it as not local and leaves the
/// map as it was.
pub proof fn lemma_removed_receives_nothing<C>(
    clients: Map<usize, C>,
    id: usize,
    ch: C,
    payload: String,
    after: Map<usize, C>,
    r: Delivery,
)
    requires
        delivered(clients.insert(id, ch).remove(id), Command::Send(id, payload), after, r),
    ensures
        route_of(clients.insert(id, ch).remove(id), Command::Send(id, payload)) is None,
        r == Delivery::NotLocal,
        after == clients.insert(id, ch).remove(id),
{
}

/// The channel map after applying a run of local requests in order, as
/// `handle` applies registrations and removals; dispatches leave it as it is.
pub open spec fn apply_msgs(
    clients: Map<usize, UnboundedSender<ClientEvent>>,
    msgs: Seq<CmdWorkerMsg>,
) -> Map<usize, UnboundedSender<ClientEvent>>
    decreases msgs.len(),
{
    if msgs.len() == 0 {
        clients
    } else {
        let before = apply_msgs(clients, msgs.drop_last());
        match msgs.last() {
            CmdWorkerMsg::Register(id, ch) => before.insert(id, ch),
            CmdWorkerMsg::Remove(id) => before.remove(id),
            CmdWorkerMsg::Dispatch(_) => before,
        }
    }
}

/// The last registration or removal of `id` in `msgs`: `Some(Some(ch))`
/// for a registration with channel `ch`, `Some(None)` for a removal, and
/// `None` when there is neither.
pub open spec fn last_registration(msgs: Seq<CmdWorkerMsg>, id: usize) -> Option<Option<UnboundedSender<ClientEvent>>>
    decreases msgs.len(),
{
    if msgs.len() == 0 {
        None
    } else {
        match msgs.last() {
            CmdWorkerMsg::Register(i, ch) => if i == id {
                Some(Some(ch))
            } else {
                last_registration(msgs.drop_last(), id)
            },
            CmdWorkerMsg::Remove(i) => if i == id {
                Some(None)
            } else {
                last_registration(msgs.drop_last(), id)
            },
            CmdWorkerMsg::Dispatch(_) => last_registration(msgs.drop_last(), id),
        }
    }
}

/// After any run of registrations and removals, however interleaved, an id
/// is registered exactly when its last such request was a registration, and
/// then with the channel that request named; ids the run never names keep
/// their earlier state.
pub proof fn lemma_registered_ids(clients: Map<usize, UnboundedSender<ClientEvent>>, msgs: Seq<CmdWorkerMsg>, id: usize)
    ensures
        match last_registration(msgs, id) {
            Some(Some(ch)) => apply_msgs(clients, msgs).contains_key(id) && apply_msgs(clients, msgs)[id] == ch,
            Some(None) => !apply_msgs(clients, msgs).contains_key(id),
            None => apply_msgs(clients, msgs).contains_key(id) == clients.contains_key(id) && (clients.contains_key(id)
                ==> apply_msgs(clients, msgs)[id] == clients[id]),
        },
    decreases msgs.len(),
{
    if msgs.len() > 0 {
        lemma_registered_ids(clients, msgs.drop_last(), id);
    }
}

} // verus!
