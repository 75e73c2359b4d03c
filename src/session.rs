use vstd::prelude::*;

verus! {

/// The two independent channels to the daemon.
#[derive(Clone, Copy, Debug, PartialEq, Eq, Structural)]
pub enum SessionKind {
    /// The channel for random bytes, status and entropy queries.
    Unprivileged,
    /// The channel for operations that change the daemon's entropy accounting.
    Privileged,
}

/// The gateway call that a session's bookkeeping asks for.
#[derive(Clone, Copy, Debug, PartialEq, Eq, Structural)]
pub enum SessionAction {
    /// Establish the connection (the channel's init call).
    Connect,
    /// Tear the connection down (the channel's fini call).
    Disconnect,
    /// No gateway call: the connection is shared or stays up.
    Nothing,
}

/// The gateway call that an open request needs when `refs` references are held.
pub open spec fn open_action_for(refs: nat) -> SessionAction {
    if refs == 0 {
        SessionAction::Connect
    } else {
        SessionAction::Nothing
    }
}

/// Whether an open request is granted when `refs` references are held and the
/// connect call, where one was needed, answered `connect_code`.
pub open spec fn open_granted(refs: nat, connect_code: Option<i32>) -> bool {
    refs > 0 || connect_code == Some(0i32)
}

/// The number of references held after such an open request.
pub open spec fn refs_after_open(refs: nat, connect_code: Option<i32>) -> nat {
    if open_granted(refs, connect_code) {
        refs + 1
    } else {
        refs
    }
}

/// The gateway call that a close request needs when `refs` references are held.
pub open spec fn close_action_for(refs: nat) -> SessionAction {
    if refs == 1 {
        SessionAction::Disconnect
    } else {
        SessionAction::Nothing
    }
}

/// The connect code that a daemon which accepts every connection gives to an open
/// request when `refs` references are held.
pub open spec fn healthy_connect_code(refs: nat) -> Option<i32> {
    if open_action_for(refs) == SessionAction::Connect {
        Some(0i32)
    } else {
        None
    }
}

/// The references held and the connect calls made after `n` open requests, one
/// after the other, starting from `refs` references, on a daemon that accepts
/// every connection.
pub open spec fn run_opens(refs: nat, n: nat) -> (nat, nat)
    decreases n,
{
    if n == 0 {
        (refs, 0)
    } else {
        let rest = run_opens(refs_after_open(refs, healthy_connect_code(refs)), (n - 1) as nat);
        (rest.0, rest.1 + if open_action_for(refs) == SessionAction::Connect { 1nat } else { 0nat })
    }
}

/// The references held and the disconnect calls made after `n` close requests, one
/// after the other, starting from `refs` references.
pub open spec fn run_closes(refs: nat, n: nat) -> (nat, nat)
    decreases n,
{
    if n == 0 || refs == 0 {
        (refs, 0)
    } else {
        let rest = run_closes((refs - 1) as nat, (n - 1) as nat);
        (rest.0, rest.1 + if close_action_for(refs) == SessionAction::Disconnect { 1nat } else { 0nat })
    }
}

proof fn lemma_shared_opens(refs: nat, n: nat)
    requires
        refs > 0,
    ensures
        run_opens(refs, n) == (refs + n, 0nat),
    decreases n,
{
    if n > 0 {
        lemma_shared_opens(refs + 1, (n - 1) as nat);
    }
}

proof fn lemma_closes(refs: nat, n: nat)
    requires
        n <= refs,
    ensures
        run_closes(refs, n) == ((refs - n) as nat, if n == refs && n > 0 { 1nat } else { 0nat }),
    decreases n,
{
    if n > 0 {
        lemma_closes((refs - 1) as nat, (n - 1) as nat);
    }
}

/// Reference counting shares one connection: starting from a closed session, `n`
/// open requests followed by `n` close requests leave no reference held, and make
/// exactly one connect call and one disconnect call.
pub proof fn lemma_balanced_opens_and_closes(n: nat)
    requires
        n > 0,
    ensures
        run_opens(0, n) == (n, 1nat),
        run_closes(n, n) == (0nat, 1nat),
{
    lemma_shared_opens(1, (n - 1) as nat);
    lemma_closes(n, n);
}

/// The reference-counted state of one channel to the daemon. The connection is
/// established on the first open and torn down on the last close; callers in
/// between share it.
pub struct Session {
    kind: SessionKind,
    refs: u32,
}

impl View for Session {
    type V = nat;

    /// The number of open references.
    closed spec fn view(&self) -> nat {
        self.refs as nat
    }
}

impl Session {
    pub closed spec fn spec_kind(&self) -> SessionKind {
        self.kind
    }

    /// A session of the given kind with no reference held and no connection.
    pub fn new(kind: SessionKind) -> (s: Session)
        ensures
            s@ == 0,
            s.spec_kind() == kind,
    {
        Session { kind, refs: 0 }
    }

    /// Which channel this session guards.
    pub fn kind(&self) -> (k: SessionKind)
        ensures
            k == self.spec_kind(),
    {
        self.kind
    }

    /// The number of open references.
    pub fn refs(&self) -> (r: u32)
        ensures
            r == self@,
    {
        self.refs
    }

    /// Whether a connection is held.
    pub fn is_open(&self) -> (r: bool)
        ensures
            r == (self@ > 0),
    {
        self.refs > 0
    }

    /// The gateway call to make before `open`: a connect when no reference is held.
    pub fn open_action(&self) -> (a: SessionAction)
        ensures
            a == open_action_for(self@),
    {
        if self.refs == 0 {
            SessionAction::Connect
        } else {
            SessionAction::Nothing
        }
    }

    /// Whether `open` would grant the request, given the connect call's answer.
    pub fn would_open(&self, connect_code: Option<i32>) -> (r: bool)
        ensures
            r == open_granted(self@, connect_code),
    {
        self.refs > 0 || connect_code == Some(0i32)
    }

    /// Completes an open request. `connect_code` is the status code of the connect
    /// call that `open_action` asked for (`0` on success), and `None` when none was
    /// made. A held connection is shared: the request is granted and the code is
    /// not looked at. Without one, the request is granted exactly when the connect
    /// call succeeded.
    pub fn open(&mut self, connect_code: Option<i32>) -> (granted: bool)
        requires
            old(self)@ < u32::MAX,
        ensures
            granted == open_granted(old(self)@, connect_code),
            final(self)@ == refs_after_open(old(self)@, connect_code),
            final(self).spec_kind() == old(self).spec_kind(),
    {
        if self.refs > 0 {
            self.refs = self.refs + 1;
            true
        } else if connect_code == Some(0i32) {
            self.refs = 1;
            true
        } else {
            false
        }
    }

    /// Gives one reference back, and says whether the connection must now be torn
    /// down: on the last reference.
    pub fn close(&mut self) -> (a: SessionAction)
        requires
            old(self)@ > 0,
        ensures
            a == close_action_for(old(self)@),
            final(self)@ == old(self)@ - 1,
            final(self).spec_kind() == old(self).spec_kind(),
    {
        let a = if self.refs == 1 {
            SessionAction::Disconnect
        } else {
            SessionAction::Nothing
        };
        self.refs = self.refs - 1;
        a
    }
}

/// Opens the unprivileged session: see `Session::open`. Returns whether a
/// connection to the daemon is now held for the caller.
pub fn esdm_rng_init(session: &mut Session, connect_code: Option<i32>) -> (granted: bool)
    requires
        old(session).spec_kind() == SessionKind::Unprivileged,
        old(session)@ < u32::MAX,
    ensures
        granted == open_granted(old(session)@, connect_code),
        final(session)@ == refs_after_open(old(session)@, connect_code),
        final(session).spec_kind() == SessionKind::Unprivileged,
{
    session.open(connect_code)
}

/// Opens the unprivileged session where the caller cannot go on without it: the
/// request must be one that is granted.
pub fn esdm_rng_init_checked(session: &mut Session, connect_code: Option<i32>)
    requires
        old(session).spec_kind() == SessionKind::Unprivileged,
        old(session)@ < u32::MAX,
        open_granted(old(session)@, connect_code),
    ensures
        final(session)@ == old(session)@ + 1,
        final(session).spec_kind() == SessionKind::Unprivileged,
{
    let granted = session.open(connect_code);
    assert(granted);
}

/// Closes the unprivileged session: see `Session::close`.
pub fn esdm_rng_fini(session: &mut Session) -> (a: SessionAction)
    requires
        old(session).spec_kind() == SessionKind::Unprivileged,
        old(session)@ > 0,
    ensures
        a == close_action_for(old(session)@),
        final(session)@ == old(session)@ - 1,
        final(session).spec_kind() == SessionKind::Unprivileged,
{
    session.close()
}

/// Opens the privileged session: see `Session::open`. Returns whether a connection
/// to the daemon is now held for the caller.
pub fn esdm_rng_init_priv(session: &mut Session, connect_code: Option<i32>) -> (granted: bool)
    requires
        old(session).spec_kind() == SessionKind::Privileged,
        old(session)@ < u32::MAX,
    ensures
        granted == open_granted(old(session)@, connect_code),
        final(session)@ == refs_after_open(old(session)@, connect_code),
        final(session).spec_kind() == SessionKind::Privileged,
{
    session.open(connect_code)
}

/// Opens the privileged session where the caller cannot go on without it: the
/// request must be one that is granted.
pub fn esdm_rng_init_priv_checked(session: &mut Session, connect_code: Option<i32>)
    requires
        old(session).spec_kind() == SessionKind::Privileged,
        old(session)@ < u32::MAX,
        open_granted(old(session)@, connect_code),
    ensures
        final(session)@ == old(session)@ + 1,
        final(session).spec_kind() == SessionKind::Privileged,
{
    let granted = session.open(connect_code);
    assert(granted);
}

/// Closes the privileged session: see `Session::close`.
pub fn esdm_rng_fini_priv(session: &mut Session) -> (a: SessionAction)
    requires
        old(session).spec_kind() == SessionKind::Privileged,
        old(session)@ > 0,
    ensures
        a == close_action_for(old(session)@),
        final(session)@ == old(session)@ - 1,
        final(session).spec_kind() == SessionKind::Privileged,
{
    session.close()
}

} // verus!
