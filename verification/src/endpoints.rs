//! The endpoint collection: every live pipe and acceptor by its identifier,
//! and the transports that create them.

use vstd::prelude::*;
use std::collections::HashMap;
use crate::api::{Command, EndpointSpec, IoError, Signal};
use crate::bus::EventLoopBus;
use crate::event_loop::EventLoop;
use crate::ids::{is_reserved, EndpointId, Ready, Sequence, SocketId, ID_LIMIT};
use crate::network::{lent, place_of, Acceptor, Pipe, Place, Transport};

verus! {

/// Whether `url` begins with `scheme` followed by `://`.
pub open spec fn has_scheme(url: Seq<u8>, scheme: Seq<u8>) -> bool {
    let n = scheme.len() as int;
    &&& url.len() >= n + 3
    &&& url.subrange(0, n) == scheme
    &&& url[n] == 0x3au8
    &&& url[n + 1] == 0x2fu8
    &&& url[n + 2] == 0x2fu8
}

/// The bytes of a string.
pub open spec fn bytes_of(text: Seq<char>) -> Seq<u8> {
    vstd::utf8::encode_utf8(text)
}

/// Decides `has_scheme` on the bytes of a URL and of a scheme.
pub fn starts_with_scheme(url: &[u8], scheme: &[u8]) -> (found: bool)
    ensures
        found == has_scheme(url@, scheme@),
{
    let n = scheme.len();
    if url.len() < n || url.len() - n < 3 {
        return false;
    }
    let mut i: usize = 0;
    while i < n
        invariant
            i <= n,
            n == scheme@.len(),
            n + 3 <= url@.len(),
            forall|j: int| 0 <= j < i ==> url@[j] == scheme@[j],
        decreases n - i,
    {
        if url[i] != scheme[i] {
            assert(url@.subrange(0, n as int)[i as int] != scheme@[i as int]);
            return false;
        }
        i += 1;
    }
    assert(url@.subrange(0, n as int) =~= scheme@);
    url[n] == 0x3au8 && url[n + 1] == 0x2fu8 && url[n + 2] == 0x2fu8
}

/// Whether some transport of `registry` is registered for `scheme`.
pub open spec fn names_scheme<T>(registry: Seq<(String, T)>, scheme: Seq<char>) -> bool {
    exists|i: int| 0 <= i < registry.len() && (#[trigger] registry[i]).0@ == scheme
}

/// Whether no scheme occurs twice in `registry`.
pub open spec fn distinct_schemes<T>(registry: Seq<(String, T)>) -> bool {
    forall|i: int, j: int| 0 <= i < j < registry.len() ==> (#[trigger] registry[i]).0@ != (#[trigger] registry[j]).0@
}

/// `registry` without the transports whose scheme an earlier one has: of
/// each scheme the first transport, in the order of registration.
pub open spec fn first_of_each<T>(registry: Seq<(String, T)>) -> Seq<(String, T)>
    decreases registry.len(),
{
    if registry.len() == 0 {
        Seq::empty()
    } else {
        let earlier = first_of_each(registry.drop_last());
        if names_scheme(earlier, registry.last().0@) {
            earlier
        } else {
            earlier.push(registry.last())
        }
    }
}

/// Decides `names_scheme`.
pub fn registry_names<T>(registry: &Vec<(String, T)>, scheme: &String) -> (named: bool)
    ensures
        named == names_scheme(registry@, scheme@),
{
    let mut i: usize = 0;
    while i < registry.len()
        invariant
            i <= registry@.len(),
            forall|j: int| 0 <= j < i ==> (#[trigger] registry@[j]).0@ != scheme@,
        decreases registry@.len() - i,
    {
        if registry[i].0 == *scheme {
            assert(registry@[i as int].0@ == scheme@);
            return true;
        }
        i += 1;
    }
    false
}

/// The pipes and acceptors of the reactor, each with the socket it belongs
/// to, and the registry of transports by scheme.
pub struct EndpointCollection<P, A, T> {
    ids: Sequence,
    pipes: HashMap<usize, (SocketId, P)>,
    acceptors: HashMap<usize, (SocketId, A)>,
    transports: Vec<(String, T)>,
}

impl<P, A, T> EndpointCollection<P, A, T> {
    /// Every identifier in use was handed out by the sequence, and none names
    /// both a pipe and an acceptor.
    #[verifier::type_invariant]
    pub closed spec fn wf(&self) -> bool {
        &&& self.ids.peek() <= ID_LIMIT
        &&& forall|id: usize| #[trigger]
            self.pipes@.contains_key(id) ==> id < self.ids.peek() && !self.acceptors@.contains_key(
                id,
            )
        &&& forall|id: usize| #[trigger] self.acceptors@.contains_key(id) ==> id < self.ids.peek()
        &&& distinct_schemes(self.transports@)
    }

    /// The live pipes, each with its socket, by identifier.
    pub closed spec fn pipes(&self) -> Map<usize, (SocketId, P)> {
        self.pipes@
    }

    /// The live acceptors, each with its socket, by identifier.
    pub closed spec fn acceptors(&self) -> Map<usize, (SocketId, A)> {
        self.acceptors@
    }

    /// The identifier that the next new endpoint gets.
    pub closed spec fn next_id(&self) -> usize {
        self.ids.peek()
    }

    /// The registered transports with their schemes, in the order of registration.
    pub closed spec fn transports(&self) -> Seq<(String, T)> {
        self.transports@
    }

    /// Whether `other` holds the same pipes, acceptors and transports, and
    /// gives the same identifier next.
    pub open spec fn agrees(&self, other: &Self) -> bool {
        &&& other.pipes() == self.pipes()
        &&& other.acceptors() == self.acceptors()
        &&& other.next_id() == self.next_id()
        &&& other.transports() == self.transports()
    }

    /// Whether `id` names a live endpoint.
    pub open spec fn contains(&self, id: usize) -> bool {
        self.pipes().contains_key(id) || self.acceptors().contains_key(id)
    }

    /// Token uniqueness: a live endpoint's token is its identifier, which is
    /// below the next identifier and never a reserved token; and no identifier
    /// names a pipe and an acceptor at once.
    pub proof fn lemma_tokens(&self)
        requires
            self.wf(),
        ensures
            self.next_id() <= ID_LIMIT,
            forall|id: usize| self.contains(id) ==> id < self.next_id() && !is_reserved(id),
            forall|id: usize| !(self.pipes().contains_key(id) && self.acceptors().contains_key(id)),
            distinct_schemes(self.transports()),
    {
    }

    /// An empty collection, which draws its identifiers from `ids`, around
    /// the given transports: of each scheme the first one given, so that no
    /// scheme is registered twice.
    pub fn new(ids: Sequence, transports: Vec<(String, T)>) -> (endpoints: Self)
        ensures
            endpoints.pipes() == Map::<usize, (SocketId, P)>::empty(),
            endpoints.acceptors() == Map::<usize, (SocketId, A)>::empty(),
            endpoints.transports() == first_of_each(transports@),
            distinct_schemes(endpoints.transports()),
            endpoints.next_id() == ids.peek(),
    {
        proof {
            use_type_invariant(&ids);
        }
        let mut rest = transports;
        let mut registry: Vec<(String, T)> = Vec::new();
        let ghost given = transports@;
        proof {
            assert(given.take(0) =~= Seq::<(String, T)>::empty());
        }
        while rest.len() > 0
            invariant
                rest@.len() <= given.len(),
                rest@ == given.skip(given.len() - rest@.len()),
                registry@ == first_of_each(given.take(given.len() - rest@.len())),
                distinct_schemes(registry@),
            decreases rest@.len(),
        {
            let ghost done = given.len() - rest@.len();
            let entry = rest.remove(0);
            proof {
                assert(entry == given[done]);
                assert(rest@ =~= given.skip(done + 1));
                let next = given.take(done + 1);
                assert(next.last() == entry);
                assert(next.drop_last() =~= given.take(done));
            }
            if !registry_names(&registry, &entry.0) {
                registry.push(entry);
            }
        }
        proof {
            assert(given.take(given.len() as int) =~= given);
        }
        EndpointCollection { ids, pipes: HashMap::new(), acceptors: HashMap::new(), transports: registry }
    }

    /// Draws the next identifier of the sequence for a socket or a device of
    /// the session, which shares the sequence with the endpoints. `None`,
    /// with nothing changed, when no identifier is left.
    pub fn draw(&mut self) -> (id: Option<usize>)
        ensures
            id == (if old(self).next_id() < ID_LIMIT { Some(old(self).next_id()) } else { None }),
            id matches Some(v) ==> !old(self).contains(v) && !is_reserved(v),
            final(self).next_id() == (if id is Some { old(self).next_id() + 1 } else { old(self).next_id() as int }),
            final(self).pipes() == old(self).pipes(),
            final(self).acceptors() == old(self).acceptors(),
            final(self).transports() == old(self).transports(),
    {
        proof {
            use_type_invariant(&*self);
        }
        self.ids.next()
    }

    /// Adds a pipe of socket `sid` under a fresh identifier, which is returned.
    /// `None`, with nothing changed, when no identifier is left.
    pub fn insert_pipe(&mut self, sid: SocketId, pipe: P) -> (eid: Option<EndpointId>)
        ensures
            eid is Some <==> old(self).next_id() < ID_LIMIT,
            eid matches Some(id) ==> {
                &&& id.0 == old(self).next_id()
                &&& !old(self).contains(id.0)
                &&& !is_reserved(id.0)
                &&& final(self).next_id() == id.0 + 1
                &&& final(self).pipes() == old(self).pipes().insert(id.0, (sid, pipe))
            },
            eid is None ==> final(self).next_id() == old(self).next_id() && final(self).pipes() == old(self).pipes(),
            final(self).acceptors() == old(self).acceptors(),
            final(self).transports() == old(self).transports(),
    {
        broadcast use vstd::std_specs::hash::group_hash_axioms;
        proof {
            use_type_invariant(&*self);
        }
        match self.ids.next() {
            Some(id) => {
                let mut pipes = HashMap::new();
                std::mem::swap(&mut pipes, &mut self.pipes);
                pipes.insert(id, (sid, pipe));
                self.pipes = pipes;
                Some(EndpointId(id))
            },
            None => None,
        }
    }

    /// Adds an acceptor of socket `sid` under a fresh identifier, which is
    /// returned. `None`, with nothing changed, when no identifier is left.
    pub fn insert_acceptor(&mut self, sid: SocketId, acceptor: A) -> (eid: Option<EndpointId>)
        ensures
            eid is Some <==> old(self).next_id() < ID_LIMIT,
            eid matches Some(id) ==> {
                &&& id.0 == old(self).next_id()
                &&& !old(self).contains(id.0)
                &&& !is_reserved(id.0)
                &&& final(self).next_id() == id.0 + 1
                &&& final(self).acceptors() == old(self).acceptors().insert(id.0, (sid, acceptor))
            },
            eid is None ==> final(self).next_id() == old(self).next_id() && final(self).acceptors() == old(self).acceptors(),
            final(self).pipes() == old(self).pipes(),
            final(self).transports() == old(self).transports(),
    {
        broadcast use vstd::std_specs::hash::group_hash_axioms;
        proof {
            use_type_invariant(&*self);
        }
        match self.ids.next() {
            Some(id) => {
                let mut acceptors = HashMap::new();
                std::mem::swap(&mut acceptors, &mut self.acceptors);
                acceptors.insert(id, (sid, acceptor));
                self.acceptors = acceptors;
                Some(EndpointId(id))
            },
            None => None,
        }
    }

    /// Puts `pipe` in the place of identifier `eid`, as a socket does when it
    /// reconnects. The identifier must have been handed out before and must
    /// not name an acceptor: otherwise `NotFound`, and nothing changes.
    pub fn replace_pipe(&mut self, sid: SocketId, eid: EndpointId, pipe: P) -> (result: Result<(), IoError>)
        ensures
            result is Ok <==> eid.0 < old(self).next_id() && !old(self).acceptors().contains_key(eid.0),
            result is Ok ==> final(self).pipes() == old(self).pipes().insert(eid.0, (sid, pipe)),
            result matches Err(e) ==> e == IoError::NotFound && final(self).pipes() == old(self).pipes(),
            final(self).acceptors() == old(self).acceptors(),
            final(self).next_id() == old(self).next_id(),
            final(self).transports() == old(self).transports(),
    {
        broadcast use vstd::std_specs::hash::group_hash_axioms;
        proof {
            use_type_invariant(&*self);
        }
        if !self.issued(eid) || self.acceptors.contains_key(&eid.0) {
            return Err(IoError::NotFound);
        }
        let mut pipes = HashMap::new();
        std::mem::swap(&mut pipes, &mut self.pipes);
        pipes.insert(eid.0, (sid, pipe));
        self.pipes = pipes;
        Ok(())
    }

    /// Puts `acceptor` in the place of identifier `eid`, as a socket does when
    /// it rebinds. The identifier must have been handed out before and must
    /// not name a pipe: otherwise `NotFound`, and nothing changes.
    pub fn replace_acceptor(&mut self, sid: SocketId, eid: EndpointId, acceptor: A) -> (result: Result<(), IoError>)
        ensures
            result is Ok <==> eid.0 < old(self).next_id() && !old(self).pipes().contains_key(eid.0),
            result is Ok ==> final(self).acceptors() == old(self).acceptors().insert(eid.0, (sid, acceptor)),
            result matches Err(e) ==> e == IoError::NotFound && final(self).acceptors() == old(self).acceptors(),
            final(self).pipes() == old(self).pipes(),
            final(self).next_id() == old(self).next_id(),
            final(self).transports() == old(self).transports(),
    {
        broadcast use vstd::std_specs::hash::group_hash_axioms;
        proof {
            use_type_invariant(&*self);
        }
        if !self.issued(eid) || self.pipes.contains_key(&eid.0) {
            return Err(IoError::NotFound);
        }
        let mut acceptors = HashMap::new();
        std::mem::swap(&mut acceptors, &mut self.acceptors);
        acceptors.insert(eid.0, (sid, acceptor));
        self.acceptors = acceptors;
        Ok(())
    }

    /// Whether the sequence has handed `eid` out.
    pub fn issued(&self, eid: EndpointId) -> (issued: bool)
        ensures
            issued == (eid.0 < self.next_id()),
    {
        proof {
            use_type_invariant(self);
        }
        match self.ids.peek_next() {
            Some(next) => eid.0 < next,
            None => eid.0 < ID_LIMIT,
        }
    }

    /// Drops the pipe `eid`, if there is one.
    pub fn remove_pipe(&mut self, eid: EndpointId)
        ensures
            final(self).pipes() == old(self).pipes().remove(eid.0),
            final(self).acceptors() == old(self).acceptors(),
            final(self).next_id() == old(self).next_id(),
            final(self).transports() == old(self).transports(),
    {
        broadcast use vstd::std_specs::hash::group_hash_axioms;
        proof {
            use_type_invariant(&*self);
        }
        let mut pipes = HashMap::new();
        std::mem::swap(&mut pipes, &mut self.pipes);
        let _ = pipes.remove(&eid.0);
        self.pipes = pipes;
    }

    /// Drops the acceptor `eid`, if there is one.
    pub fn remove_acceptor(&mut self, eid: EndpointId)
        ensures
            final(self).acceptors() == old(self).acceptors().remove(eid.0),
            final(self).pipes() == old(self).pipes(),
            final(self).next_id() == old(self).next_id(),
            final(self).transports() == old(self).transports(),
    {
        broadcast use vstd::std_specs::hash::group_hash_axioms;
        proof {
            use_type_invariant(&*self);
        }
        let mut acceptors = HashMap::new();
        std::mem::swap(&mut acceptors, &mut self.acceptors);
        let _ = acceptors.remove(&eid.0);
        self.acceptors = acceptors;
    }

    pub fn contains_pipe(&self, eid: EndpointId) -> (found: bool)
        ensures
            found == self.pipes().contains_key(eid.0),
    {
        broadcast use vstd::std_specs::hash::group_hash_axioms;
        self.pipes.contains_key(&eid.0)
    }

    pub fn contains_acceptor(&self, eid: EndpointId) -> (found: bool)
        ensures
            found == self.acceptors().contains_key(eid.0),
    {
        broadcast use vstd::std_specs::hash::group_hash_axioms;
        self.acceptors.contains_key(&eid.0)
    }

    /// The pipe `eid`, if there is one.
    pub fn get_pipe(&self, eid: EndpointId) -> (pipe: Option<&P>)
        ensures
            pipe is Some <==> self.pipes().contains_key(eid.0),
            pipe matches Some(p) ==> *p == self.pipes()[eid.0].1,
    {
        broadcast use vstd::std_specs::hash::group_hash_axioms;
        match self.pipes.get(&eid.0) {
            Some(entry) => Some(&entry.1),
            None => None,
        }
    }

    /// The acceptor `eid`, if there is one.
    pub fn get_acceptor(&self, eid: EndpointId) -> (acceptor: Option<&A>)
        ensures
            acceptor is Some <==> self.acceptors().contains_key(eid.0),
            acceptor matches Some(a) ==> *a == self.acceptors()[eid.0].1,
    {
        broadcast use vstd::std_specs::hash::group_hash_axioms;
        match self.acceptors.get(&eid.0) {
            Some(entry) => Some(&entry.1),
            None => None,
        }
    }

    /// The socket that endpoint `eid` belongs to.
    pub fn owner(&self, eid: EndpointId) -> (sid: Option<SocketId>)
        ensures
            self.pipes().contains_key(eid.0) ==> sid == Some(self.pipes()[eid.0].0),
            !self.pipes().contains_key(eid.0) && self.acceptors().contains_key(eid.0) ==> sid == Some(
                self.acceptors()[eid.0].0,
            ),
            !self.contains(eid.0) ==> sid is None,
    {
        broadcast use vstd::std_specs::hash::group_hash_axioms;
        match self.pipes.get(&eid.0) {
            Some(entry) => Some(entry.0),
            None => match self.acceptors.get(&eid.0) {
                Some(entry) => Some(entry.0),
                None => None,
            },
        }
    }

    /// Number of live pipes.
    pub fn pipe_count(&self) -> (n: usize)
        ensures
            n == self.pipes().len(),
    {
        broadcast use vstd::std_specs::hash::group_hash_axioms;
        self.pipes.len()
    }

    /// Number of live acceptors.
    pub fn acceptor_count(&self) -> (n: usize)
        ensures
            n == self.acceptors().len(),
    {
        broadcast use vstd::std_specs::hash::group_hash_axioms;
        self.acceptors.len()
    }
}

impl<P, A, T> EndpointCollection<P, A, T> {
    /// Whether the transport registered at `index` serves the scheme of `url`.
    pub open spec fn serves(&self, index: int, url: Seq<char>) -> bool {
        has_scheme(bytes_of(url), bytes_of(self.transports()[index].0@))
    }

    /// Whether some registered transport serves the scheme of `url`.
    pub open spec fn resolvable(&self, url: Seq<char>) -> bool {
        exists|i: int| 0 <= i < self.transports().len() && self.serves(i, url)
    }

    /// The place in the registry of the first transport that serves the
    /// scheme of `url`.
    pub open spec fn first_serving(&self, url: Seq<char>) -> int {
        choose|i: int| 0 <= i < self.transports().len() && self.serves(i, url) && forall|j: int| 0 <= j < i ==> !self.serves(j, url)
    }

    /// How `admit_pipe` relates the collection before (`self`) to the
    /// collection after and to its result: a pipe that a transport made joins
    /// under the next identifier, if one is left; a failure is passed on.
    pub open spec fn pipe_admitted(&self, after: Self, sid: SocketId, outcome: Result<P, IoError>, result: Result<EndpointId, IoError>) -> bool {
        &&& result == (match outcome {
            Ok(_) => if self.next_id() < ID_LIMIT {
                Ok(EndpointId(self.next_id()))
            } else {
                Err(IoError::Exhausted)
            },
            Err(e) => Err(e),
        })
        &&& after.pipes() == (match (outcome, result) {
            (Ok(pipe), Ok(eid)) => self.pipes().insert(eid.0, (sid, pipe)),
            _ => self.pipes(),
        })
        &&& after.next_id() == (if result is Ok { self.next_id() + 1 } else { self.next_id() as int })
        &&& result matches Ok(eid) ==> !self.contains(eid.0) && !is_reserved(eid.0)
        &&& after.acceptors() == self.acceptors()
        &&& after.transports() == self.transports()
    }

    /// How `admit_acceptor` relates the collection before (`self`) to the
    /// collection after and to its result; as `pipe_admitted`.
    pub open spec fn acceptor_admitted(&self, after: Self, sid: SocketId, outcome: Result<A, IoError>, result: Result<EndpointId, IoError>) -> bool {
        &&& result == (match outcome {
            Ok(_) => if self.next_id() < ID_LIMIT {
                Ok(EndpointId(self.next_id()))
            } else {
                Err(IoError::Exhausted)
            },
            Err(e) => Err(e),
        })
        &&& after.acceptors() == (match (outcome, result) {
            (Ok(acceptor), Ok(eid)) => self.acceptors().insert(eid.0, (sid, acceptor)),
            _ => self.acceptors(),
        })
        &&& after.next_id() == (if result is Ok { self.next_id() + 1 } else { self.next_id() as int })
        &&& result matches Ok(eid) ==> !self.contains(eid.0) && !is_reserved(eid.0)
        &&& after.pipes() == self.pipes()
        &&& after.transports() == self.transports()
    }

    /// How `readmit_pipe` relates the collection before (`self`) to the
    /// collection after and to its result: a pipe that a transport made takes
    /// the place of `eid`, where that identifier was handed out and names no
    /// acceptor; a failure is passed on.
    pub open spec fn pipe_readmitted(&self, after: Self, sid: SocketId, eid: EndpointId, outcome: Result<P, IoError>, result: Result<(), IoError>) -> bool {
        &&& result == (match outcome {
            Ok(_) => if eid.0 < self.next_id() && !self.acceptors().contains_key(eid.0) {
                Ok(())
            } else {
                Err(IoError::NotFound)
            },
            Err(e) => Err(e),
        })
        &&& after.pipes() == (match (outcome, result) {
            (Ok(pipe), Ok(_)) => self.pipes().insert(eid.0, (sid, pipe)),
            _ => self.pipes(),
        })
        &&& after.acceptors() == self.acceptors()
        &&& after.next_id() == self.next_id()
        &&& after.transports() == self.transports()
    }

    /// How `readmit_acceptor` relates the collection before (`self`) to the
    /// collection after and to its result; as `pipe_readmitted`.
    pub open spec fn acceptor_readmitted(&self, after: Self, sid: SocketId, eid: EndpointId, outcome: Result<A, IoError>, result: Result<(), IoError>) -> bool {
        &&& result == (match outcome {
            Ok(_) => if eid.0 < self.next_id() && !self.pipes().contains_key(eid.0) {
                Ok(())
            } else {
                Err(IoError::NotFound)
            },
            Err(e) => Err(e),
        })
        &&& after.acceptors() == (match (outcome, result) {
            (Ok(acceptor), Ok(_)) => self.acceptors().insert(eid.0, (sid, acceptor)),
            _ => self.acceptors(),
        })
        &&& after.pipes() == self.pipes()
        &&& after.next_id() == self.next_id()
        &&& after.transports() == self.transports()
    }

    /// The place in the registry of the transport for the scheme of `url`:
    /// the first one registered for it.
    pub fn resolve(&self, url: &str) -> (index: Option<usize>)
        ensures
            index is Some <==> self.resolvable(url@),
            index matches Some(i) ==> {
                &&& i < self.transports().len()
                &&& self.serves(i as int, url@)
                &&& forall|j: int| 0 <= j < i ==> !self.serves(j, url@)
            },
    {
        let bytes = url.as_bytes();
        let mut i: usize = 0;
        while i < self.transports.len()
            invariant
                i <= self.transports().len(),
                bytes@ == bytes_of(url@),
                forall|j: int| 0 <= j < i ==> !self.serves(j, url@),
            decreases self.transports().len() - i,
        {
            let scheme = self.transports[i].0.as_str().as_bytes();
            if starts_with_scheme(bytes, scheme) {
                assert(self.serves(i as int, url@));
                return Some(i);
            }
            i += 1;
        }
        None
    }

    /// Takes in what a transport made of a connect: a new pipe gets the next
    /// identifier, a failure is passed on.
    pub fn admit_pipe(&mut self, sid: SocketId, outcome: Result<P, IoError>) -> (result: Result<EndpointId, IoError>)
        ensures
            old(self).pipe_admitted(*final(self), sid, outcome, result),
    {
        match outcome {
            Ok(pipe) => match self.insert_pipe(sid, pipe) {
                Some(eid) => Ok(eid),
                None => Err(IoError::Exhausted),
            },
            Err(e) => Err(e),
        }
    }

    /// Takes in what a transport made of a bind: a new acceptor gets the next
    /// identifier, a failure is passed on.
    pub fn admit_acceptor(&mut self, sid: SocketId, outcome: Result<A, IoError>) -> (result: Result<EndpointId, IoError>)
        ensures
            old(self).acceptor_admitted(*final(self), sid, outcome, result),
    {
        match outcome {
            Ok(acceptor) => match self.insert_acceptor(sid, acceptor) {
                Some(eid) => Ok(eid),
                None => Err(IoError::Exhausted),
            },
            Err(e) => Err(e),
        }
    }

    /// Takes in what a transport made of a reconnect: a new pipe takes the
    /// place of `eid`, a failure is passed on.
    pub fn readmit_pipe(&mut self, sid: SocketId, eid: EndpointId, outcome: Result<P, IoError>) -> (result: Result<(), IoError>)
        ensures
            old(self).pipe_readmitted(*final(self), sid, eid, outcome, result),
    {
        match outcome {
            Ok(pipe) => match self.replace_pipe(sid, eid, pipe) {
                Ok(_) => Ok(()),
                Err(e) => Err(e),
            },
            Err(e) => Err(e),
        }
    }

    /// Takes in what a transport made of a rebind: a new acceptor takes the
    /// place of `eid`, a failure is passed on.
    pub fn readmit_acceptor(&mut self, sid: SocketId, eid: EndpointId, outcome: Result<A, IoError>) -> (result: Result<(), IoError>)
        ensures
            old(self).acceptor_readmitted(*final(self), sid, eid, outcome, result),
    {
        match outcome {
            Ok(acceptor) => match self.replace_acceptor(sid, eid, acceptor) {
                Ok(_) => Ok(()),
                Err(e) => Err(e),
            },
            Err(e) => Err(e),
        }
    }
}

impl<P, A, T: Transport<P, A>> EndpointCollection<P, A, T> {
    /// How `connect` for socket `sid` and `url` relates the collection before
    /// (`self`) to the collection after and to its result: `InvalidInput`,
    /// with nothing changed, where no transport serves the scheme; otherwise
    /// what `admit_pipe` makes of what the first transport that serves the
    /// scheme made of a connect to `url`.
    pub open spec fn connected(&self, after: Self, sid: SocketId, url: Seq<char>, result: Result<EndpointId, IoError>) -> bool {
        if self.resolvable(url) {
            exists|outcome: Result<P, IoError>| #[trigger]
                self.transports()[self.first_serving(url)].1.connects(url, outcome) && self.pipe_admitted(
                    after,
                    sid,
                    outcome,
                    result,
                )
        } else {
            result == Err::<EndpointId, IoError>(IoError::InvalidInput) && self.agrees(&after)
        }
    }

    /// How `bind` for socket `sid` and `url` relates the collection before
    /// (`self`) to the collection after and to its result; as `connected`,
    /// with a bind and `admit_acceptor`.
    pub open spec fn bound(&self, after: Self, sid: SocketId, url: Seq<char>, result: Result<EndpointId, IoError>) -> bool {
        if self.resolvable(url) {
            exists|outcome: Result<A, IoError>| #[trigger]
                self.transports()[self.first_serving(url)].1.binds(url, outcome) && self.acceptor_admitted(
                    after,
                    sid,
                    outcome,
                    result,
                )
        } else {
            result == Err::<EndpointId, IoError>(IoError::InvalidInput) && self.agrees(&after)
        }
    }

    /// How `reconnect` of pipe `eid` relates the collection before (`self`)
    /// to the collection after and to its result; as `connected`, with
    /// `readmit_pipe`.
    pub open spec fn reconnected(&self, after: Self, sid: SocketId, eid: EndpointId, url: Seq<char>, result: Result<(), IoError>) -> bool {
        if self.resolvable(url) {
            exists|outcome: Result<P, IoError>| #[trigger]
                self.transports()[self.first_serving(url)].1.connects(url, outcome) && self.pipe_readmitted(
                    after,
                    sid,
                    eid,
                    outcome,
                    result,
                )
        } else {
            result == Err::<(), IoError>(IoError::InvalidInput) && self.agrees(&after)
        }
    }

    /// How `rebind` of acceptor `eid` relates the collection before (`self`)
    /// to the collection after and to its result; as `bound`, with
    /// `readmit_acceptor`.
    pub open spec fn rebound(&self, after: Self, sid: SocketId, eid: EndpointId, url: Seq<char>, result: Result<(), IoError>) -> bool {
        if self.resolvable(url) {
            exists|outcome: Result<A, IoError>| #[trigger]
                self.transports()[self.first_serving(url)].1.binds(url, outcome) && self.acceptor_readmitted(
                    after,
                    sid,
                    eid,
                    outcome,
                    result,
                )
        } else {
            result == Err::<(), IoError>(IoError::InvalidInput) && self.agrees(&after)
        }
    }

    /// The transport that `resolve` finds is the first that serves the scheme.
    proof fn lemma_first_serving(&self, url: Seq<char>, index: int)
        requires
            0 <= index < self.transports().len(),
            self.serves(index, url),
            forall|j: int| 0 <= j < index ==> !self.serves(j, url),
        ensures
            self.first_serving(url) == index,
            self.resolvable(url),
    {
        let first = self.first_serving(url);
        assert(0 <= first < self.transports().len() && self.serves(first, url) && forall|j: int| 0 <= j < first ==> !self.serves(j, url));
    }

    /// Creates an outbound endpoint for `spec` through the transport of its
    /// scheme and adds it as a pipe of socket `sid`.
    pub fn connect(&mut self, sid: SocketId, spec: &EndpointSpec) -> (result: Result<EndpointId, IoError>)
        ensures
            old(self).connected(*final(self), sid, spec.url@, result),
    {
        match self.resolve(spec.url.as_str()) {
            Some(i) => {
                let outcome = self.transports[i].1.connect(spec.url.as_str());
                let result = self.admit_pipe(sid, outcome);
                proof {
                    old(self).lemma_first_serving(spec.url@, i as int);
                    assert(old(self).transports()[i as int].1.connects(spec.url@, outcome));
                }
                result
            },
            None => Err(IoError::InvalidInput),
        }
    }

    /// Creates a listener for `spec` through the transport of its scheme and
    /// adds it as an acceptor of socket `sid`.
    pub fn bind(&mut self, sid: SocketId, spec: &EndpointSpec) -> (result: Result<EndpointId, IoError>)
        ensures
            old(self).bound(*final(self), sid, spec.url@, result),
    {
        match self.resolve(spec.url.as_str()) {
            Some(i) => {
                let outcome = self.transports[i].1.bind(spec.url.as_str());
                let result = self.admit_acceptor(sid, outcome);
                proof {
                    old(self).lemma_first_serving(spec.url@, i as int);
                    assert(old(self).transports()[i as int].1.binds(spec.url@, outcome));
                }
                result
            },
            None => Err(IoError::InvalidInput),
        }
    }

    /// Creates a new outbound endpoint for `spec` and puts it in the place of
    /// pipe `eid`.
    pub fn reconnect(&mut self, sid: SocketId, eid: EndpointId, spec: &EndpointSpec) -> (result: Result<(), IoError>)
        ensures
            old(self).reconnected(*final(self), sid, eid, spec.url@, result),
    {
        match self.resolve(spec.url.as_str()) {
            Some(i) => {
                let outcome = self.transports[i].1.connect(spec.url.as_str());
                let result = self.readmit_pipe(sid, eid, outcome);
                proof {
                    old(self).lemma_first_serving(spec.url@, i as int);
                    assert(old(self).transports()[i as int].1.connects(spec.url@, outcome));
                }
                result
            },
            None => Err(IoError::InvalidInput),
        }
    }

    /// Creates a new listener for `spec` and puts it in the place of acceptor
    /// `eid`.
    pub fn rebind(&mut self, sid: SocketId, eid: EndpointId, spec: &EndpointSpec) -> (result: Result<(), IoError>)
        ensures
            old(self).rebound(*final(self), sid, eid, spec.url@, result),
    {
        match self.resolve(spec.url.as_str()) {
            Some(i) => {
                let outcome = self.transports[i].1.bind(spec.url.as_str());
                let result = self.readmit_acceptor(sid, eid, outcome);
                proof {
                    old(self).lemma_first_serving(spec.url@, i as int);
                    assert(old(self).transports()[i as int].1.binds(spec.url@, outcome));
                }
                result
            },
            None => Err(IoError::InvalidInput),
        }
    }
}

impl<P, A, T> EndpointCollection<P, A, T> {
    /// Tells pipe `eid` that its source is ready. Without such a pipe nothing
    /// happens; with it, only that pipe, the loop and the bus can have changed.
    pub fn pipe_ready<R>(&mut self, eid: EndpointId, el: &mut EventLoop<R>, bus: &mut EventLoopBus<Signal<P>>, events: Ready) -> (found: bool)
        where P: Pipe<R>
        ensures
            found == old(self).pipes().contains_key(eid.0),
            !found ==> final(self).pipes() == old(self).pipes() && *final(el) == *old(el) && final(bus)@ == old(bus)@,
            found ==> final(self).pipes().contains_key(eid.0) && final(self).pipes() == old(self).pipes().insert(
                eid.0,
                (old(self).pipes()[eid.0].0, final(self).pipes()[eid.0].1),
            ),
            final(self).acceptors() == old(self).acceptors(),
            found ==> old(self).pipes()[eid.0].1.readied(
                lent(*old(el), old(bus)@),
                place_of(old(self).pipes()[eid.0].0, eid),
                events,
                &final(self).pipes()[eid.0].1,
                lent(*final(el), final(bus)@),
            ),
            final(self).next_id() == old(self).next_id(),
            final(self).transports() == old(self).transports(),
    {
        broadcast use vstd::std_specs::hash::group_hash_axioms;
        proof {
            use_type_invariant(&*self);
        }
        let mut pipes = HashMap::new();
        std::mem::swap(&mut pipes, &mut self.pipes);
        let found = match pipes.remove(&eid.0) {
            Some(entry) => {
                let mut pipe = entry.1;
                pipe.ready(el, bus, Place { socket: entry.0, endpoint: eid }, events);
                pipes.insert(eid.0, (entry.0, pipe));
                true
            },
            None => false,
        };
        proof {
            if found {
                assert(pipes@ =~= old(self).pipes().insert(eid.0, (old(self).pipes()[eid.0].0, pipes@[eid.0].1)));
            } else {
                assert(pipes@ =~= old(self).pipes());
            }
        }
        self.pipes = pipes;
        found
    }

    /// Hands `cmd` to pipe `eid`. Without such a pipe the command is dropped
    /// and nothing happens; with it, only that pipe, the loop and the bus can
    /// have changed.
    pub fn pipe_process<R>(&mut self, eid: EndpointId, el: &mut EventLoop<R>, bus: &mut EventLoopBus<Signal<P>>, cmd: Command) -> (found: bool)
        where P: Pipe<R>
        ensures
            found == old(self).pipes().contains_key(eid.0),
            !found ==> final(self).pipes() == old(self).pipes() && *final(el) == *old(el) && final(bus)@ == old(bus)@,
            found ==> final(self).pipes().contains_key(eid.0) && final(self).pipes() == old(self).pipes().insert(
                eid.0,
                (old(self).pipes()[eid.0].0, final(self).pipes()[eid.0].1),
            ),
            final(self).acceptors() == old(self).acceptors(),
            found ==> old(self).pipes()[eid.0].1.processed(
                lent(*old(el), old(bus)@),
                place_of(old(self).pipes()[eid.0].0, eid),
                cmd,
                &final(self).pipes()[eid.0].1,
                lent(*final(el), final(bus)@),
            ),
            final(self).next_id() == old(self).next_id(),
            final(self).transports() == old(self).transports(),
    {
        broadcast use vstd::std_specs::hash::group_hash_axioms;
        proof {
            use_type_invariant(&*self);
        }
        let mut pipes = HashMap::new();
        std::mem::swap(&mut pipes, &mut self.pipes);
        let found = match pipes.remove(&eid.0) {
            Some(entry) => {
                let mut pipe = entry.1;
                pipe.process(el, bus, Place { socket: entry.0, endpoint: eid }, cmd);
                pipes.insert(eid.0, (entry.0, pipe));
                true
            },
            None => false,
        };
        proof {
            if found {
                assert(pipes@ =~= old(self).pipes().insert(eid.0, (old(self).pipes()[eid.0].0, pipes@[eid.0].1)));
            } else {
                assert(pipes@ =~= old(self).pipes());
            }
        }
        self.pipes = pipes;
        found
    }

    /// Tells acceptor `eid` that its source is ready. Without such an acceptor
    /// nothing happens; with it, only that acceptor, the loop and the bus can
    /// have changed.
    pub fn acceptor_ready<R>(&mut self, eid: EndpointId, el: &mut EventLoop<R>, bus: &mut EventLoopBus<Signal<P>>, events: Ready) -> (found: bool)
        where A: Acceptor<R, P>
        ensures
            found == old(self).acceptors().contains_key(eid.0),
            !found ==> final(self).acceptors() == old(self).acceptors() && *final(el) == *old(el) && final(bus)@ == old(bus)@,
            found ==> final(self).acceptors().contains_key(eid.0) && final(self).acceptors() == old(self).acceptors().insert(
                eid.0,
                (old(self).acceptors()[eid.0].0, final(self).acceptors()[eid.0].1),
            ),
            final(self).pipes() == old(self).pipes(),
            found ==> old(self).acceptors()[eid.0].1.readied(
                lent(*old(el), old(bus)@),
                place_of(old(self).acceptors()[eid.0].0, eid),
                events,
                &final(self).acceptors()[eid.0].1,
                lent(*final(el), final(bus)@),
            ),
            final(self).next_id() == old(self).next_id(),
            final(self).transports() == old(self).transports(),
    {
        broadcast use vstd::std_specs::hash::group_hash_axioms;
        proof {
            use_type_invariant(&*self);
        }
        let mut acceptors = HashMap::new();
        std::mem::swap(&mut acceptors, &mut self.acceptors);
        let found = match acceptors.remove(&eid.0) {
            Some(entry) => {
                let mut acceptor = entry.1;
                acceptor.ready(el, bus, Place { socket: entry.0, endpoint: eid }, events);
                acceptors.insert(eid.0, (entry.0, acceptor));
                true
            },
            None => false,
        };
        proof {
            if found {
                assert(acceptors@ =~= old(self).acceptors().insert(eid.0, (old(self).acceptors()[eid.0].0, acceptors@[eid.0].1)));
            } else {
                assert(acceptors@ =~= old(self).acceptors());
            }
        }
        self.acceptors = acceptors;
        found
    }

    /// Hands `cmd` to acceptor `eid`. Without such an acceptor the command is
    /// dropped and nothing happens; with it, only that acceptor, the loop and
    /// the bus can have changed.
    pub fn acceptor_process<R>(&mut self, eid: EndpointId, el: &mut EventLoop<R>, bus: &mut EventLoopBus<Signal<P>>, cmd: Command) -> (found: bool)
        where A: Acceptor<R, P>
        ensures
            found == old(self).acceptors().contains_key(eid.0),
            !found ==> final(self).acceptors() == old(self).acceptors() && *final(el) == *old(el) && final(bus)@ == old(bus)@,
            found ==> final(self).acceptors().contains_key(eid.0) && final(self).acceptors() == old(self).acceptors().insert(
                eid.0,
                (old(self).acceptors()[eid.0].0, final(self).acceptors()[eid.0].1),
            ),
            final(self).pipes() == old(self).pipes(),
            found ==> old(self).acceptors()[eid.0].1.processed(
                lent(*old(el), old(bus)@),
                place_of(old(self).acceptors()[eid.0].0, eid),
                cmd,
                &final(self).acceptors()[eid.0].1,
                lent(*final(el), final(bus)@),
            ),
            final(self).next_id() == old(self).next_id(),
            final(self).transports() == old(self).transports(),
    {
        broadcast use vstd::std_specs::hash::group_hash_axioms;
        proof {
            use_type_invariant(&*self);
        }
        let mut acceptors = HashMap::new();
        std::mem::swap(&mut acceptors, &mut self.acceptors);
        let found = match acceptors.remove(&eid.0) {
            Some(entry) => {
                let mut acceptor = entry.1;
                acceptor.process(el, bus, Place { socket: entry.0, endpoint: eid }, cmd);
                acceptors.insert(eid.0, (entry.0, acceptor));
                true
            },
            None => false,
        };
        proof {
            if found {
                assert(acceptors@ =~= old(self).acceptors().insert(eid.0, (old(self).acceptors()[eid.0].0, acceptors@[eid.0].1)));
            } else {
                assert(acceptors@ =~= old(self).acceptors());
            }
        }
        self.acceptors = acceptors;
        found
    }
}

} // verus!
