//! The session: the sockets and devices of the reactor, and the replies it
//! owes to the user API.

use vstd::prelude::*;
use std::collections::HashMap;
use crate::api::{IoError, Reply};
use crate::bus::EventLoopBus;
use crate::ids::{DeviceId, SocketId};
use crate::network::{Device, Socket};

verus! {

/// A device with its identifier and the two sockets that it links.
pub struct DeviceEntry<D> {
    pub id: DeviceId,
    pub left: SocketId,
    pub right: SocketId,
    pub device: D,
}

impl<D> DeviceEntry<D> {
    /// Whether the device links socket `sid`, on either side.
    pub open spec fn links(&self, sid: SocketId) -> bool {
        self.left == sid || self.right == sid
    }

    /// The same entry around another state of its device.
    pub open spec fn with(&self, device: D) -> DeviceEntry<D> {
        DeviceEntry { id: self.id, left: self.left, right: self.right, device }
    }
}

/// Whether `index` is the first device of `devices` that meets `wanted`.
pub open spec fn is_first<D>(devices: Seq<DeviceEntry<D>>, index: int, wanted: spec_fn(DeviceEntry<D>) -> bool) -> bool {
    &&& 0 <= index < devices.len()
    &&& wanted(devices[index])
    &&& forall|j: int| 0 <= j < index ==> !wanted(#[trigger] devices[j])
}

/// Whether no device of `devices` meets `wanted`.
pub open spec fn none_of<D>(devices: Seq<DeviceEntry<D>>, wanted: spec_fn(DeviceEntry<D>) -> bool) -> bool {
    forall|j: int| 0 <= j < devices.len() ==> !wanted(#[trigger] devices[j])
}

/// The place of the first device of `devices` that meets `wanted`, if any does.
pub open spec fn first_device<D>(devices: Seq<DeviceEntry<D>>, wanted: spec_fn(DeviceEntry<D>) -> bool) -> Option<int> {
    if exists|i: int| is_first(devices, i, wanted) {
        Some(choose|i: int| is_first(devices, i, wanted))
    } else {
        None
    }
}

/// The first device that meets `wanted` stands at one place only.
pub proof fn lemma_first_device<D>(devices: Seq<DeviceEntry<D>>, wanted: spec_fn(DeviceEntry<D>) -> bool, index: int)
    requires
        is_first(devices, index, wanted),
    ensures
        first_device(devices, wanted) == Some(index),
{
    let chosen = choose|i: int| is_first(devices, i, wanted);
    assert(is_first(devices, chosen, wanted));
    if chosen < index {
        assert(!wanted(devices[chosen]));
    } else if index < chosen {
        assert(!wanted(devices[index]));
    }
}

/// Where no device meets `wanted`, none is the first to.
pub proof fn lemma_no_device<D>(devices: Seq<DeviceEntry<D>>, wanted: spec_fn(DeviceEntry<D>) -> bool)
    requires
        none_of(devices, wanted),
    ensures
        first_device(devices, wanted) is None,
{
    if exists|i: int| is_first(devices, i, wanted) {
        let chosen = choose|i: int| is_first(devices, i, wanted);
        assert(!wanted(devices[chosen]));
    }
}

/// The sockets by identifier, the devices in the order of their creation, and
/// the replies not yet collected.
pub struct Session<S, D> {
    sockets: HashMap<usize, S>,
    devices: Vec<DeviceEntry<D>>,
    replies: EventLoopBus<Reply>,
}

impl<S, D> Session<S, D> {
    /// The live sockets, by identifier.
    pub closed spec fn sockets(&self) -> Map<usize, S> {
        self.sockets@
    }

    /// The devices, oldest first.
    pub closed spec fn devices(&self) -> Seq<DeviceEntry<D>> {
        self.devices@
    }

    /// The replies that wait to be collected, oldest first.
    pub closed spec fn replies(&self) -> Seq<Reply> {
        self.replies@
    }

    /// Whether `other` holds the same sockets, devices and replies.
    pub open spec fn agrees(&self, other: &Self) -> bool {
        &&& other.sockets() == self.sockets()
        &&& other.devices() == self.devices()
        &&& other.replies() == self.replies()
    }

    /// Whether `other` differs at most in the state of the sockets in
    /// `touched`: the same sockets live, every other socket is as it was, and
    /// devices and replies are the same.
    pub open spec fn kept(&self, other: &Self, touched: Set<usize>) -> bool {
        &&& other.sockets().dom() == self.sockets().dom()
        &&& forall|id: usize| #![trigger other.sockets()[id]]
            self.sockets().contains_key(id) && !touched.contains(id) ==> other.sockets()[id] == self.sockets()[id]
        &&& other.devices() == self.devices()
        &&& other.replies() == self.replies()
    }

    /// How `add_socket` with the identifier `drawn` relates the session
    /// before (`self`) to the session after: a socket under that identifier
    /// and the reply that names it; or, where none was drawn or the one drawn
    /// names a socket already, only the reply that none was left.
    pub open spec fn socket_added<P>(&self, after: &Self, drawn: Option<usize>, ctor: S::Ctor) -> bool where S: Socket<P> {
        &&& after.devices() == self.devices()
        &&& match drawn {
            Some(id) if !self.sockets().contains_key(id) => {
                &&& after.sockets().contains_key(id)
                &&& after.sockets() == self.sockets().insert(id, after.sockets()[id])
                &&& S::created(ctor, SocketId(id), &after.sockets()[id])
                &&& after.replies() == self.replies().push(Reply::SocketCreated(SocketId(id)))
            },
            _ => {
                &&& after.sockets() == self.sockets()
                &&& after.replies() == self.replies().push(Reply::Failed(IoError::Exhausted))
            },
        }
    }

    /// How `add_device` with the identifier `drawn` relates the session
    /// before (`self`) to the session after: a device that links `left` and
    /// `right` behind the others, under that identifier, and the reply that
    /// names it; or, where none was drawn, only the reply that none was
    /// left.
    pub open spec fn device_added(&self, after: &Self, drawn: Option<usize>, left: SocketId, right: SocketId) -> bool where D: Device {
        &&& after.sockets() == self.sockets()
        &&& match drawn {
            Some(id) => {
                &&& after.devices().len() == self.devices().len() + 1
                &&& after.devices() == self.devices().push(after.devices().last())
                &&& after.devices().last().id == DeviceId(id)
                &&& after.devices().last().left == left
                &&& after.devices().last().right == right
                &&& D::linked(left, right, &after.devices().last().device)
                &&& after.replies() == self.replies().push(Reply::DeviceCreated(DeviceId(id)))
            },
            None => {
                &&& after.devices() == self.devices()
                &&& after.replies() == self.replies().push(Reply::Failed(IoError::Exhausted))
            },
        }
    }

    /// A session without sockets, devices or replies.
    pub fn new() -> (session: Self)
        ensures
            session.sockets() == Map::<usize, S>::empty(),
            session.devices() == Seq::<DeviceEntry<D>>::empty(),
            session.replies() == Seq::<Reply>::empty(),
    {
        Session { sockets: HashMap::new(), devices: Vec::new(), replies: EventLoopBus::new() }
    }

    /// Creates a socket from `ctor` under the identifier `drawn` from the
    /// reactor's sequence and replies `SocketCreated` with it. Where none was
    /// drawn, or the one drawn names a socket already, nothing is created
    /// and the reply is `Failed(Exhausted)`.
    pub fn add_socket<P>(&mut self, drawn: Option<usize>, ctor: S::Ctor) -> (sid: Option<SocketId>)
        where S: Socket<P>
        ensures
            old(self).socket_added::<P>(final(self), drawn, ctor),
            sid == (match drawn {
                Some(id) if !old(self).sockets().contains_key(id) => Some(SocketId(id)),
                _ => None,
            }),
    {
        broadcast use vstd::std_specs::hash::group_hash_axioms;
        match drawn {
            Some(id) => {
                if self.sockets.contains_key(&id) {
                    self.replies.send(Reply::Failed(IoError::Exhausted));
                    None
                } else {
                    let socket = S::create(ctor, SocketId(id));
                    self.sockets.insert(id, socket);
                    self.replies.send(Reply::SocketCreated(SocketId(id)));
                    Some(SocketId(id))
                }
            },
            None => {
                self.replies.send(Reply::Failed(IoError::Exhausted));
                None
            },
        }
    }

    /// Records a new device that links `left` and `right` under the
    /// identifier `drawn` from the reactor's sequence and replies
    /// `DeviceCreated` with it. Where none was drawn, nothing is recorded and
    /// the reply is `Failed(Exhausted)`.
    pub fn add_device(&mut self, drawn: Option<usize>, left: SocketId, right: SocketId) -> (did: Option<DeviceId>)
        where D: Device
        ensures
            old(self).device_added(final(self), drawn, left, right),
            did == (match drawn {
                Some(id) => Some(DeviceId(id)),
                None => None,
            }),
    {
        match drawn {
            Some(id) => {
                let device = D::link(left, right);
                self.devices.push(DeviceEntry { id: DeviceId(id), left, right, device });
                proof {
                    assert(self.devices@ =~= old(self).devices().push(self.devices@.last()));
                }
                self.replies.send(Reply::DeviceCreated(DeviceId(id)));
                Some(DeviceId(id))
            },
            None => {
                self.replies.send(Reply::Failed(IoError::Exhausted));
                None
            },
        }
    }

    /// Drops socket `sid`, if there is one.
    pub fn remove_socket(&mut self, sid: SocketId)
        ensures
            final(self).sockets() == old(self).sockets().remove(sid.0),
            final(self).devices() == old(self).devices(),
            final(self).replies() == old(self).replies(),
    {
        broadcast use vstd::std_specs::hash::group_hash_axioms;
        let mut sockets = HashMap::new();
        std::mem::swap(&mut sockets, &mut self.sockets);
        let _ = sockets.remove(&sid.0);
        self.sockets = sockets;
    }

    pub fn contains_socket(&self, sid: SocketId) -> (found: bool)
        ensures
            found == self.sockets().contains_key(sid.0),
    {
        broadcast use vstd::std_specs::hash::group_hash_axioms;
        self.sockets.contains_key(&sid.0)
    }

    /// The socket `sid`, if there is one.
    pub fn get_socket(&self, sid: SocketId) -> (socket: Option<&S>)
        ensures
            socket is Some <==> self.sockets().contains_key(sid.0),
            socket matches Some(s) ==> *s == self.sockets()[sid.0],
    {
        broadcast use vstd::std_specs::hash::group_hash_axioms;
        self.sockets.get(&sid.0)
    }

    /// Number of live sockets.
    pub fn socket_count(&self) -> (n: usize)
        ensures
            n == self.sockets().len(),
    {
        broadcast use vstd::std_specs::hash::group_hash_axioms;
        self.sockets.len()
    }

    /// Number of devices.
    pub fn device_count(&self) -> (n: usize)
        ensures
            n == self.devices().len(),
    {
        self.devices.len()
    }

    /// The device at `index`, in the order of creation.
    pub fn get_device(&self, index: usize) -> (entry: Option<&DeviceEntry<D>>)
        ensures
            entry is Some <==> index < self.devices().len(),
            entry matches Some(e) ==> *e == self.devices()[index as int],
    {
        if index < self.devices.len() {
            Some(&self.devices[index])
        } else {
            None
        }
    }

    /// Takes the oldest reply that waits to be collected.
    pub fn take_reply(&mut self) -> (reply: Option<Reply>)
        ensures
            reply is None <==> old(self).replies().len() == 0,
            reply is None ==> final(self).replies() == old(self).replies(),
            reply matches Some(r) ==> r == old(self).replies()[0] && final(self).replies() == old(self).replies().skip(1),
            final(self).sockets() == old(self).sockets(),
            final(self).devices() == old(self).devices(),
    {
        let mut replies = EventLoopBus::new();
        std::mem::swap(&mut replies, &mut self.replies);
        let reply = replies.recv();
        self.replies = replies;
        reply
    }

    /// Takes socket `sid` out of the session for the time of a callback.
    pub(crate) fn take_socket(&mut self, sid: SocketId) -> (socket: Option<S>)
        ensures
            socket is Some <==> old(self).sockets().contains_key(sid.0),
            socket matches Some(s) ==> s == old(self).sockets()[sid.0],
            final(self).sockets() == old(self).sockets().remove(sid.0),
            final(self).devices() == old(self).devices(),
            final(self).replies() == old(self).replies(),
    {
        broadcast use vstd::std_specs::hash::group_hash_axioms;
        let mut sockets = HashMap::new();
        std::mem::swap(&mut sockets, &mut self.sockets);
        let socket = sockets.remove(&sid.0);
        self.sockets = sockets;
        socket
    }

    /// Puts a socket back after its callback.
    pub(crate) fn restore_socket(&mut self, sid: SocketId, socket: S)
        ensures
            final(self).sockets() == old(self).sockets().insert(sid.0, socket),
            final(self).devices() == old(self).devices(),
            final(self).replies() == old(self).replies(),
    {
        broadcast use vstd::std_specs::hash::group_hash_axioms;
        let mut sockets = HashMap::new();
        std::mem::swap(&mut sockets, &mut self.sockets);
        sockets.insert(sid.0, socket);
        self.sockets = sockets;
    }

    /// The place of the first device with identifier `id`.
    pub fn find_device(&self, id: DeviceId) -> (index: Option<usize>)
        ensures
            index matches Some(i) ==> is_first(self.devices(), i as int, |e: DeviceEntry<D>| e.id == id),
            index is None ==> none_of(self.devices(), |e: DeviceEntry<D>| e.id == id),
    {
        let mut i: usize = 0;
        while i < self.devices.len()
            invariant
                i <= self.devices().len(),
                forall|j: int| 0 <= j < i ==> (#[trigger] self.devices()[j]).id != id,
            decreases self.devices().len() - i,
        {
            if self.devices[i].id.0 == id.0 {
                return Some(i);
            }
            i += 1;
        }
        None
    }

    /// The place of the first device that links socket `sid`.
    pub fn find_link(&self, sid: SocketId) -> (index: Option<usize>)
        ensures
            index matches Some(i) ==> is_first(self.devices(), i as int, |e: DeviceEntry<D>| e.links(sid)),
            index is None ==> none_of(self.devices(), |e: DeviceEntry<D>| e.links(sid)),
    {
        let mut i: usize = 0;
        while i < self.devices.len()
            invariant
                i <= self.devices().len(),
                forall|j: int| 0 <= j < i ==> !(#[trigger] self.devices()[j]).links(sid),
            decreases self.devices().len() - i,
        {
            if self.devices[i].left.0 == sid.0 || self.devices[i].right.0 == sid.0 {
                return Some(i);
            }
            i += 1;
        }
        None
    }
}

impl<S, D: Device> Session<S, D> {
    /// Lets the device `id` do one forwarding sweep. Returns the place of the
    /// device; without such a device nothing happens.
    pub fn check_device(&mut self, id: DeviceId) -> (index: Option<usize>)
        ensures
            index matches Some(i) ==> {
                &&& is_first(old(self).devices(), i as int, |e: DeviceEntry<D>| e.id == id)
                &&& final(self).devices().len() == old(self).devices().len()
                &&& final(self).devices() == old(self).devices().update(
                    i as int,
                    old(self).devices()[i as int].with(final(self).devices()[i as int].device),
                )
            },
            index matches Some(i) ==> old(self).devices()[i as int].device.swept(&final(self).devices()[i as int].device),
            index is None ==> none_of(old(self).devices(), |e: DeviceEntry<D>| e.id == id) && final(self).devices() == old(self).devices(),
            final(self).sockets() == old(self).sockets(),
            final(self).replies() == old(self).replies(),
    {
        let index = self.find_device(id);
        match index {
            Some(i) => {
                let mut devices = Vec::new();
                std::mem::swap(&mut devices, &mut self.devices);
                let mut entry = devices.remove(i);
                entry.device.check();
                devices.insert(i, entry);
                proof {
                    assert(devices@ =~= old(self).devices().update(
                        i as int,
                        old(self).devices()[i as int].with(devices@[i as int].device),
                    ));
                }
                self.devices = devices;
            },
            None => {},
        }
        index
    }

    /// Tells the first device that links socket `sid` that the socket can
    /// receive. Returns the place of the device; without such a device
    /// nothing happens.
    pub fn notify_can_recv(&mut self, sid: SocketId) -> (index: Option<usize>)
        ensures
            index matches Some(i) ==> {
                &&& is_first(old(self).devices(), i as int, |e: DeviceEntry<D>| e.links(sid))
                &&& final(self).devices().len() == old(self).devices().len()
                &&& final(self).devices() == old(self).devices().update(
                    i as int,
                    old(self).devices()[i as int].with(final(self).devices()[i as int].device),
                )
            },
            index matches Some(i) ==> old(self).devices()[i as int].device.notified(sid, &final(self).devices()[i as int].device),
            index is None ==> none_of(old(self).devices(), |e: DeviceEntry<D>| e.links(sid)) && final(self).devices() == old(self).devices(),
            final(self).sockets() == old(self).sockets(),
            final(self).replies() == old(self).replies(),
    {
        let index = self.find_link(sid);
        match index {
            Some(i) => {
                let mut devices = Vec::new();
                std::mem::swap(&mut devices, &mut self.devices);
                let mut entry = devices.remove(i);
                entry.device.on_socket_can_recv(sid);
                devices.insert(i, entry);
                proof {
                    assert(devices@ =~= old(self).devices().update(
                        i as int,
                        old(self).devices()[i as int].with(devices@[i as int].device),
                    ));
                }
                self.devices = devices;
            },
            None => {},
        }
        index
    }
}

} // verus!
