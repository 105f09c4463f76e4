//! The registration table of the epoll-backed I/O poller.
//!
//! Every registered event source gets a token, which is a key of a
//! [`slab::Slab`] holding the registration.  A second table maps each
//! raw file descriptor to its token and to the notifier that was recorded
//! for it.  The registration syscalls themselves are made by the caller,
//! with the token that [`Poller::push_token_entry`] hands back.

use std::collections::HashMap;

use slab::Slab;
use vstd::prelude::*;

verus! {

broadcast use vstd::std_specs::hash::group_hash_axioms;

/// Raw file descriptor.
pub type RawFd = i32;

/// Identifies a notification channel that the caller keeps; events of a
/// source are forwarded to the notifier recorded for it.
pub type NotifierId = u64;

/// Interest bit: readable events.
pub const INTEREST_READABLE: u8 = 1;
/// Interest bit: writable events.
pub const INTEREST_WRITABLE: u8 = 2;
/// Interest bit: priority (out-of-band) events.
pub const INTEREST_PRIORITY: u8 = 16;

/// Interests that every registration is made with: readable, writable
/// and priority events.
pub const RW_INTERESTS: u8 = 19;

/// An I/O operation submitted to the poller.
#[derive(Clone, Copy, Debug, PartialEq, Eq, Structural)]
pub enum Operation {
    /// Register a file descriptor as a raw event source.
    RegistrationFdAdd { fd: RawFd, interest: u8, notify: Option<NotifierId> },
    /// Register a TCP listener, identified by its raw file descriptor.
    RegistrationTcpAdd { fd: RawFd, interest: u8, notify: Option<NotifierId> },
    /// Modify the registration of a registered descriptor.
    ModifyRegistration { fd: RawFd, interest: u8, notify: Option<NotifierId> },
    /// Delete the registration of a descriptor.
    DeleteRegistration { fd: RawFd },
}

impl Operation {
    /// The file descriptor the operation is about.
    pub open spec fn spec_fd(self) -> RawFd {
        match self {
            Operation::RegistrationFdAdd { fd, .. } => fd,
            Operation::RegistrationTcpAdd { fd, .. } => fd,
            Operation::ModifyRegistration { fd, .. } => fd,
            Operation::DeleteRegistration { fd } => fd,
        }
    }
}

// ---------------------------------------------------------------------
// The slab of registrations (outside crate `slab`).

#[verifier::external_type_specification]
#[verifier::external_body]
#[verifier::reject_recursive_types(T)]
pub struct ExSlab<T>(Slab<T>);

/// The occupied entries of a slab of registrations, by key.
pub uninterp spec fn slab_entries(s: Slab<Operation>) -> Map<usize, Operation>;

/// The key that the next insertion into a slab of registrations uses.
pub uninterp spec fn slab_next_key(s: Slab<Operation>) -> usize;

/// `Slab::new`: the new slab has no entries.
#[verifier::external_body]
fn slab_new() -> (slab: Slab<Operation>)
    ensures
        slab_entries(slab).dom().is_empty(),
        slab_next_key(slab) == 0,
{
    Slab::new()
}

/// `Slab::vacant_key`: returns the key the next insertion will use, which
/// is never occupied.
#[verifier::external_body]
fn slab_vacant_key(s: &Slab<Operation>) -> (k: usize)
    ensures
        k == slab_next_key(*s),
        !slab_entries(*s).contains_key(k),
{
    s.vacant_key()
}

/// `Slab::insert`: stores the value under the vacant key and returns that
/// key; no other entry changes.
#[verifier::external_body]
fn slab_insert(s: &mut Slab<Operation>, val: Operation) -> (k: usize)
    ensures
        k == slab_next_key(*old(s)),
        slab_entries(*final(s)) == slab_entries(*old(s)).insert(k, val),
        !slab_entries(*final(s)).contains_key(slab_next_key(*final(s))),
{
    s.insert(val)
}

/// `Slab::index_mut` followed by an assignment: replaces the value of an
/// occupied key; the vacant key does not move.
#[verifier::external_body]
fn slab_replace(s: &mut Slab<Operation>, key: usize, val: Operation)
    requires
        slab_entries(*old(s)).contains_key(key),
    ensures
        slab_entries(*final(s)) == slab_entries(*old(s)).insert(key, val),
        slab_next_key(*final(s)) == slab_next_key(*old(s)),
{
    s[key] = val;
}

/// `Slab::get`: the value stored under a key, if the key is occupied.
#[verifier::external_body]
fn slab_get(s: &Slab<Operation>, key: usize) -> (r: Option<Operation>)
    ensures
        match r {
            Some(v) => slab_entries(*s).contains_key(key) && slab_entries(*s)[key] == v,
            None => !slab_entries(*s).contains_key(key),
        },
{
    s.get(key).copied()
}

// ---------------------------------------------------------------------

/// What the caller is to do after a registration was recorded.
#[derive(Clone, Copy, Debug, PartialEq, Eq, Structural)]
pub enum RegisterAction {
    /// Register the raw descriptor with the epoll instance under this token.
    RegisterFd { fd: RawFd, token: usize },
    /// Register the TCP listener with the epoll instance under this token.
    RegisterTcp { fd: RawFd, token: usize },
    /// Nothing is registered with the epoll instance.
    Nothing,
}

/// Where the events of a token go.
#[derive(Clone, Copy, Debug, PartialEq, Eq, Structural)]
pub enum EventRoute {
    /// The token has no registration.
    Unknown,
    /// The registration has no notifier: the event is dropped.
    Silent,
    /// Forward the event to this notifier.
    Notify(NotifierId),
    /// The registration is of a kind whose events are not handled.
    Unhandled,
}

/// The registration table of an I/O poller.
pub struct Poller {
    event_src_ids: HashMap<RawFd, (usize, Option<NotifierId>)>,
    tokens: Slab<Operation>,
}

impl Poller {
    /// The descriptor table: for each registered descriptor, its token and
    /// the notifier recorded for it.
    pub closed spec fn sources(&self) -> Map<RawFd, (usize, Option<NotifierId>)> {
        self.event_src_ids@
    }

    /// The registrations, by token.
    pub closed spec fn registrations(&self) -> Map<usize, Operation> {
        slab_entries(self.tokens)
    }

    /// The token the next new registration receives.
    pub closed spec fn next_token(&self) -> usize {
        slab_next_key(self.tokens)
    }

    /// Every recorded descriptor owns a registration of its own, about that
    /// descriptor, and every registration belongs to a recorded descriptor.
    pub open spec fn wf(&self) -> bool {
        &&& forall|fd: RawFd| #[trigger] self.sources().contains_key(fd) ==> {
            let id = self.sources()[fd].0;
            &&& self.registrations().contains_key(id)
            &&& self.registrations()[id].spec_fd() == fd
        }
        &&& forall|id: usize| #[trigger] self.registrations().contains_key(id) ==> {
            let fd = self.registrations()[id].spec_fd();
            &&& self.sources().contains_key(fd)
            &&& self.sources()[fd].0 == id
        }
    }

    /// An empty registration table.
    pub fn new() -> (p: Self)
        ensures
            p.wf(),
            p.sources() == Map::<RawFd, (usize, Option<NotifierId>)>::empty(),
            p.registrations() == Map::<usize, Operation>::empty(),
            p.next_token() == 0,
    {
        Poller { event_src_ids: HashMap::new(), tokens: slab_new() }
    }

    /// The token a registration of `fd` is stored under: its existing
    /// token, or the next free one.
    pub open spec fn token_for(&self, fd: RawFd) -> usize {
        if self.sources().contains_key(fd) {
            self.sources()[fd].0
        } else {
            self.next_token()
        }
    }

    /// The notifier a registration for `fd` is stored with: an already
    /// registered descriptor keeps the notifier recorded for it, a new one
    /// gets the notifier the operation carries.
    pub open spec fn stored_notify(&self, fd: RawFd, notify: Option<NotifierId>) -> Option<
        NotifierId,
    > {
        if self.sources().contains_key(fd) {
            self.sources()[fd].1
        } else {
            notify
        }
    }

    /// What recording an operation does (see [`Poller::push_token_entry`]).
    pub open spec fn push_post(old: Poller, new: Poller, op: Operation, action: RegisterAction) -> bool {
        let fd = op.spec_fd();
        let id = old.token_for(fd);
        let known = old.sources().contains_key(fd);
        &&& known ==> new.next_token() == old.next_token()
        &&& new.sources().contains_key(fd)
        &&& new.token_for(fd) == id
        &&& new.registrations().contains_key(id)
        &&& match op {
            Operation::RegistrationFdAdd { fd, interest, notify } => {
                &&& new.registrations() == old.registrations().insert(
                    id,
                    Operation::RegistrationFdAdd {
                        fd,
                        interest,
                        notify: old.stored_notify(fd, notify),
                    },
                )
                &&& new.sources() == if known {
                    old.sources()
                } else {
                    old.sources().insert(fd, (id, None))
                }
                &&& action == RegisterAction::RegisterFd { fd, token: id }
            },
            Operation::RegistrationTcpAdd { fd, interest, notify } => {
                &&& new.registrations() == old.registrations().insert(
                    id,
                    Operation::RegistrationTcpAdd {
                        fd,
                        interest,
                        notify: old.stored_notify(fd, notify),
                    },
                )
                &&& new.sources() == if known {
                    old.sources()
                } else {
                    old.sources().insert(fd, (id, notify))
                }
                &&& action == RegisterAction::RegisterTcp { fd, token: id }
            },
            Operation::ModifyRegistration { fd, interest, notify } => {
                &&& new.registrations() == old.registrations().insert(
                    id,
                    Operation::ModifyRegistration {
                        fd,
                        interest,
                        notify: old.stored_notify(fd, notify),
                    },
                )
                &&& new.sources() == if notify is Some {
                    old.sources().insert(fd, (id, notify))
                } else if known {
                    old.sources()
                } else {
                    old.sources().insert(fd, (id, None))
                }
                &&& action == RegisterAction::Nothing
            },
            Operation::DeleteRegistration { .. } => false,
        }
    }

    /// Storing a registration for `fd` under `id` keeps the table
    /// well-formed when `id` is `fd`'s token, or both are new.
    proof fn lemma_store_keeps_wf(old: Poller, new: Poller, fd: RawFd, id: usize, n: Option<NotifierId>)
        requires
            old.wf(),
            old.sources().contains_key(fd) ==> old.sources()[fd].0 == id,
            !old.sources().contains_key(fd) ==> !old.registrations().contains_key(id),
            new.registrations().contains_key(id),
            new.registrations()[id].spec_fd() == fd,
            forall|k: usize| k != id ==> #[trigger] new.registrations().contains_key(k) == old.registrations().contains_key(k),
            forall|k: usize| k != id && #[trigger] new.registrations().contains_key(k) ==> new.registrations()[k] == old.registrations()[k],
            new.sources() == old.sources().insert(fd, (id, n)),
        ensures
            new.wf(),
    {
        assert forall|f: RawFd| #[trigger] new.sources().contains_key(f) implies {
            let k = new.sources()[f].0;
            &&& new.registrations().contains_key(k)
            &&& new.registrations()[k].spec_fd() == f
        } by {
            if f != fd {
                assert(old.sources().contains_key(f));
                assert(new.sources()[f] == old.sources()[f]);
                let k = old.sources()[f].0;
                assert(old.registrations().contains_key(k));
                if k == id {
                    assert(old.registrations()[k].spec_fd() == f);
                    if old.sources().contains_key(fd) {
                        assert(old.registrations()[id].spec_fd() == fd);
                    }
                    assert(false);
                } else {
                    assert(new.registrations().contains_key(k) == old.registrations().contains_key(k));
                    assert(new.registrations()[k] == old.registrations()[k]);
                }
            }
        }
        assert forall|k: usize| #[trigger] new.registrations().contains_key(k) implies {
            let f = new.registrations()[k].spec_fd();
            &&& new.sources().contains_key(f)
            &&& new.sources()[f].0 == k
        } by {
            if k != id {
                assert(old.registrations().contains_key(k));
                let f = old.registrations()[k].spec_fd();
                assert(old.sources().contains_key(f));
                if f == fd {
                    assert(old.sources()[fd].0 == k);
                }
            }
        }
    }

    /// Records an I/O operation in the table and says which registration
    /// the caller has to make with the epoll instance.
    ///
    /// A descriptor that is already recorded keeps its token and its
    /// recorded notifier; its registration is overwritten.  A new
    /// descriptor receives the next free token; for a raw descriptor the
    /// table records no notifier, for a TCP listener or a modification the
    /// operation's notifier.  A modification that carries a notifier records
    /// it for an already recorded descriptor too.
    pub fn push_token_entry(&mut self, op: Operation) -> (action: RegisterAction)
        requires
            old(self).wf(),
            !(op is DeleteRegistration),
        ensures
            final(self).wf(),
            Self::push_post(*old(self), *final(self), op, action),
            op matches Operation::ModifyRegistration { fd, notify: None, .. } && old(
                self,
            ).sources().contains_key(fd) ==> final(self).sources() == old(self).sources(),
    {
        match op {
            Operation::RegistrationFdAdd { fd, interest, notify } => {
                let id = match self.event_src_ids.get(&fd) {
                    Some(entry) => {
                        let (id, existing_notify) = *entry;
                        assert(old(self).sources().contains_key(fd));
                        slab_replace(
                            &mut self.tokens,
                            id,
                            Operation::RegistrationFdAdd { fd, interest, notify: existing_notify },
                        );
                        id
                    },
                    None => {
                        let new_id = slab_vacant_key(&self.tokens);
                        self.event_src_ids.insert(fd, (new_id, None));
                        let k = slab_insert(
                            &mut self.tokens,
                            Operation::RegistrationFdAdd { fd, interest, notify },
                        );
                        assert(k == new_id);
                        new_id
                    },
                };
                proof {
                    assert(self.sources() =~= old(self).sources().insert(fd, (id, self.sources()[fd].1)));
                    Self::lemma_store_keeps_wf(*old(self), *self, fd, id, self.sources()[fd].1);
                }
                let action = RegisterAction::RegisterFd { fd, token: id };
                assert(final(self).wf());
                assert(Self::push_post(*old(self), *final(self), op, action));
                action
            },
            Operation::ModifyRegistration { fd, interest, notify } => {
                let id = match self.event_src_ids.get(&fd) {
                    Some(entry) => {
                        let (id, existing_notify) = *entry;
                        assert(old(self).sources().contains_key(fd));
                        slab_replace(
                            &mut self.tokens,
                            id,
                            Operation::ModifyRegistration { fd, interest, notify: existing_notify },
                        );
                        id
                    },
                    None => {
                        let new_id = slab_vacant_key(&self.tokens);
                        self.event_src_ids.insert(fd, (new_id, None));
                        let k = slab_insert(
                            &mut self.tokens,
                            Operation::ModifyRegistration { fd, interest, notify },
                        );
                        assert(k == new_id);
                        new_id
                    },
                };
                if let Some(n) = notify {
                    self.event_src_ids.insert(fd, (id, Some(n)));
                }
                proof {
                    assert(self.sources() =~= old(self).sources().insert(fd, (id, self.sources()[fd].1)));
                    Self::lemma_store_keeps_wf(*old(self), *self, fd, id, self.sources()[fd].1);
                }
                let action = RegisterAction::Nothing;
                assert(final(self).wf());
                assert(Self::push_post(*old(self), *final(self), op, action));
                action
            },
            Operation::RegistrationTcpAdd { fd, interest, notify } => {
                let id = match self.event_src_ids.get(&fd) {
                    Some(entry) => {
                        let (id, existing_notify) = *entry;
                        assert(old(self).sources().contains_key(fd));
                        slab_replace(
                            &mut self.tokens,
                            id,
                            Operation::RegistrationTcpAdd { fd, interest, notify: existing_notify },
                        );
                        id
                    },
                    None => {
                        let new_id = slab_vacant_key(&self.tokens);
                        self.event_src_ids.insert(fd, (new_id, notify));
                        let k = slab_insert(
                            &mut self.tokens,
                            Operation::RegistrationTcpAdd { fd, interest, notify },
                        );
                        assert(k == new_id);
                        new_id
                    },
                };
                proof {
                    assert(self.sources() =~= old(self).sources().insert(fd, (id, self.sources()[fd].1)));
                    Self::lemma_store_keeps_wf(*old(self), *self, fd, id, self.sources()[fd].1);
                }
                let action = RegisterAction::RegisterTcp { fd, token: id };
                assert(final(self).wf());
                assert(Self::push_post(*old(self), *final(self), op, action));
                action
            },
            Operation::DeleteRegistration { .. } => RegisterAction::Nothing,
        }
    }

    /// Where the events that arrive for `token` are to be forwarded.
    pub fn route_event(&self, token: usize) -> (route: EventRoute)
        ensures
            route == if !self.registrations().contains_key(token) {
                EventRoute::Unknown
            } else {
                match self.registrations()[token] {
                    Operation::RegistrationFdAdd { notify, .. } | Operation::RegistrationTcpAdd {
                        notify,
                        ..
                    } => match notify {
                        Some(n) => EventRoute::Notify(n),
                        None => EventRoute::Silent,
                    },
                    _ => EventRoute::Unhandled,
                }
            },
    {
        match slab_get(&self.tokens, token) {
            None => EventRoute::Unknown,
            Some(op) => match op {
                Operation::RegistrationFdAdd { notify, .. } | Operation::RegistrationTcpAdd {
                    notify,
                    ..
                } => match notify {
                    Some(n) => EventRoute::Notify(n),
                    None => EventRoute::Silent,
                },
                _ => EventRoute::Unhandled,
            },
        }
    }

    /// The registration stored under `token`, if any.
    pub fn registration(&self, token: usize) -> (r: Option<Operation>)
        ensures
            match r {
                Some(op) => self.registrations().contains_key(token) && self.registrations()[token]
                    == op,
                None => !self.registrations().contains_key(token),
            },
    {
        slab_get(&self.tokens, token)
    }
}

/// The interests a registration asks for when the caller names none:
/// readable, writable and priority events.
pub fn default_interest() -> (i: u8)
    ensures
        i == RW_INTERESTS,
{
    RW_INTERESTS
}

/// The operation that registers a raw file descriptor, with the given
/// interests or, when none are given, the default ones.
pub fn fd_registration(fd: RawFd, interest: Option<u8>, notify: Option<NotifierId>) -> (op:
    Operation)
    ensures
        op == (Operation::RegistrationFdAdd {
            fd,
            interest: match interest {
                Some(i) => i,
                None => RW_INTERESTS,
            },
            notify,
        }),
{
    let interest = match interest {
        Some(i) => i,
        None => default_interest(),
    };
    Operation::RegistrationFdAdd { fd, interest, notify }
}

/// The operation that registers a TCP listener, with the given interests
/// or, when none are given, the default ones.
pub fn tcp_registration(fd: RawFd, interest: Option<u8>, notify: Option<NotifierId>) -> (op:
    Operation)
    ensures
        op == (Operation::RegistrationTcpAdd {
            fd,
            interest: match interest {
                Some(i) => i,
                None => RW_INTERESTS,
            },
            notify,
        }),
{
    let interest = match interest {
        Some(i) => i,
        None => default_interest(),
    };
    Operation::RegistrationTcpAdd { fd, interest, notify }
}

/// A request to the I/O poller actor.
#[derive(Clone, Copy, Debug, PartialEq, Eq, Structural)]
pub enum IoOp {
    /// Record an I/O operation.
    Submit { op: Operation },
    /// Wait briefly for readiness events and forward them.
    Poll,
    /// Complete finished operations (nothing to do with epoll).
    Process,
    /// Poll, then process.
    PollAndProcess,
}

/// What the poller actor does with the epoll instance after a request.
#[derive(Clone, Copy, Debug, PartialEq, Eq, Structural)]
pub enum IoAction {
    /// Make this registration.
    Register(RegisterAction),
    /// Poll for readiness events and forward them.
    PollEvents,
    /// Nothing.
    Idle,
}

impl Poller {
    /// Serves one request of the poller actor: a submitted operation is
    /// recorded, and the registration it needs is handed back; a poll
    /// request asks for a poll of the epoll instance.
    pub fn handle_op(&mut self, op: IoOp) -> (action: IoAction)
        requires
            old(self).wf(),
            !(op matches IoOp::Submit { op } && op is DeleteRegistration),
        ensures
            final(self).wf(),
            match op {
                IoOp::Submit { op } => action matches IoAction::Register(a) && Self::push_post(
                    *old(self),
                    *final(self),
                    op,
                    a,
                ),
                IoOp::Poll | IoOp::PollAndProcess => {
                    &&& action == IoAction::PollEvents
                    &&& final(self).sources() == old(self).sources()
                    &&& final(self).registrations() == old(self).registrations()
                },
                IoOp::Process => {
                    &&& action == IoAction::Idle
                    &&& final(self).sources() == old(self).sources()
                    &&& final(self).registrations() == old(self).registrations()
                },
            },
    {
        match op {
            IoOp::Submit { op } => IoAction::Register(self.push_token_entry(op)),
            IoOp::Poll | IoOp::PollAndProcess => IoAction::PollEvents,
            IoOp::Process => IoAction::Idle,
        }
    }
}

/// A descriptor keeps its token: registering (or modifying) the same
/// descriptor again stores the new registration under the token it got
/// the first time.
pub proof fn lemma_reregistration_keeps_token(
    p0: Poller,
    p1: Poller,
    p2: Poller,
    op1: Operation,
    op2: Operation,
    a1: RegisterAction,
    a2: RegisterAction,
)
    requires
        op1.spec_fd() == op2.spec_fd(),
        Poller::push_post(p0, p1, op1, a1),
        Poller::push_post(p1, p2, op2, a2),
    ensures
        p1.token_for(op1.spec_fd()) == p0.token_for(op1.spec_fd()),
        p2.token_for(op2.spec_fd()) == p0.token_for(op1.spec_fd()),
        p2.next_token() == p1.next_token(),
{
}

/// A modification without a notifier leaves what is on record for an
/// already registered descriptor untouched: its token and its notifier
/// stay, so a later registration of the descriptor is stored with the
/// notifier recorded before.
pub proof fn lemma_modify_without_notifier_keeps_record(
    p0: Poller,
    p1: Poller,
    p2: Poller,
    fd: RawFd,
    interest: u8,
    op2: Operation,
    a1: RegisterAction,
    a2: RegisterAction,
)
    requires
        p0.sources().contains_key(fd),
        Poller::push_post(
            p0,
            p1,
            Operation::ModifyRegistration { fd, interest, notify: None },
            a1,
        ),
        op2 matches Operation::RegistrationTcpAdd { fd: f, .. } && f == fd,
        Poller::push_post(p1, p2, op2, a2),
    ensures
        p1.sources() == p0.sources(),
        p2.registrations()[p0.sources()[fd].0] == (Operation::RegistrationTcpAdd {
            fd,
            interest: op2->RegistrationTcpAdd_interest,
            notify: p0.sources()[fd].1,
        }),
{
}

} // verus!
