use vstd::prelude::*;

use crate::addr::{
    c_string, c_string_of, copy_bytes, encoded, marked_encoded, pack_marked, pack_path, path_field,
    PackedAddr, ABSTRACT_MARKER,
};

verus! {

/// Backlog handed to `listen` for sockets built by system calls.
pub const LISTEN_BACKLOG: i32 = 50;

/// The socket types that are built by system calls rather than by the runtime.
#[derive(Clone, Copy, Debug, PartialEq, Eq, Structural)]
pub enum SockType {
    Dgram,
    Seqpacket,
}

/// What to build: a socket of the Unix family, then the optional steps in this
/// order: remove a file, bind, connect, listen.
pub struct RawPlan {
    pub sock_type: SockType,
    /// Path to remove before binding; failure to remove it is ignored.
    pub unlink: Option<Vec<u8>>,
    pub bind: Option<PackedAddr>,
    pub connect: Option<PackedAddr>,
    pub listen: bool,
}

impl RawPlan {
    pub open spec fn wf(&self) -> bool {
        &&& (self.bind is Some ==> self.bind.unwrap().wf())
        &&& (self.connect is Some ==> self.connect.unwrap().wf())
    }

    /// Whether the step with the given number is part of the plan
    /// (0 create, 1 unlink, 2 bind, 3 connect, 4 listen).
    pub open spec fn has_step(&self, i: int) -> bool {
        if i == 0 {
            true
        } else if i == 1 {
            self.unlink is Some
        } else if i == 2 {
            self.bind is Some
        } else if i == 3 {
            self.connect is Some
        } else if i == 4 {
            self.listen
        } else {
            false
        }
    }

    /// The first step of the plan numbered `i` or later; 5 when none is left.
    pub open spec fn next_step(&self, i: int) -> int
        decreases 5 - i,
    {
        if i >= 5 {
            5
        } else if self.has_step(i) {
            i
        } else {
            self.next_step(i + 1)
        }
    }
}

/// A datagram socket bound to one path and connected to another.
pub open spec fn is_dgram_plan(p: RawPlan, bind: Seq<u8>, connect: Seq<u8>) -> bool {
    &&& p.wf()
    &&& p.sock_type == SockType::Dgram
    &&& p.unlink is None
    &&& p.bind is Some && p.bind.unwrap()@ == encoded(bind)
    &&& p.connect is Some && p.connect.unwrap()@ == encoded(connect)
    &&& !p.listen
}

/// A sequenced-packet socket connected to a path, where `@` marks an abstract name.
pub open spec fn is_seqpacket_connect_plan(p: RawPlan, addr: Seq<u8>) -> bool {
    &&& p.wf()
    &&& p.sock_type == SockType::Seqpacket
    &&& p.unlink is None
    &&& p.bind is None
    &&& p.connect is Some && p.connect.unwrap()@ == marked_encoded(addr)
    &&& !p.listen
}

/// A listening sequenced-packet socket bound to a path, where `@` marks an
/// abstract name. For a filesystem path with `unlink` set, the file that the
/// bound address names is removed first.
pub open spec fn is_seqpacket_listen_plan(p: RawPlan, addr: Seq<u8>, unlink: bool) -> bool {
    let on_disk = path_field(addr)[0] != ABSTRACT_MARKER;
    &&& p.wf()
    &&& p.sock_type == SockType::Seqpacket
    &&& p.connect is None
    &&& p.listen
    &&& p.bind is Some && p.bind.unwrap()@ == marked_encoded(addr)
    &&& if on_disk && unlink {
        p.unlink is Some && p.unlink.unwrap()@ == c_string(path_field(addr))
    } else {
        p.unlink is None
    }
}

impl RawPlan {
    /// Plan for a datagram socket bound to `bind` and connected to `connect`.
    pub fn dgram(bind: &[u8], connect: &[u8]) -> (r: RawPlan)
        ensures
            is_dgram_plan(r, bind@, connect@),
    {
        RawPlan {
            sock_type: SockType::Dgram,
            unlink: None,
            bind: Some(pack_path(bind)),
            connect: Some(pack_path(connect)),
            listen: false,
        }
    }

    /// Plan for a sequenced-packet socket connected to `addr`.
    pub fn seqpacket_connect(addr: &[u8]) -> (r: RawPlan)
        ensures
            is_seqpacket_connect_plan(r, addr@),
    {
        RawPlan {
            sock_type: SockType::Seqpacket,
            unlink: None,
            bind: None,
            connect: Some(pack_marked(addr)),
            listen: false,
        }
    }

    /// Plan for a sequenced-packet socket listening on `addr`.
    pub fn seqpacket_listen(addr: &[u8], unlink: bool) -> (r: RawPlan)
        ensures
            is_seqpacket_listen_plan(r, addr@, unlink),
    {
        let plain = pack_path(addr);
        let on_disk = plain.path_bytes()[0] != ABSTRACT_MARKER;
        let unlink_target = if on_disk && unlink {
            Some(c_string_of(plain.path_bytes()))
        } else {
            None
        };
        RawPlan {
            sock_type: SockType::Seqpacket,
            unlink: unlink_target,
            bind: Some(pack_marked(addr)),
            connect: None,
            listen: true,
        }
    }
}

/// What the caller is asked to do next.
pub enum Action {
    /// Create a socket of this type; hand back the descriptor or a negative value.
    Socket(SockType),
    /// Remove the file at this path; the result is ignored.
    Unlink(Vec<u8>),
    /// Bind the descriptor to the address; hand back the call's result.
    Bind(i32, PackedAddr),
    /// Connect the descriptor to the address; hand back the call's result.
    Connect(i32, PackedAddr),
    /// Listen on the descriptor with this backlog; hand back the call's result.
    Listen(i32, i32),
    /// Done: the descriptor is ready and now belongs to the caller.
    Ready(i32),
    /// Failed: close the descriptor; nothing else stays open.
    Abandon(i32),
    /// Failed before any descriptor was opened.
    Fail,
}

/// The mathematical value of an `Action`.
pub enum ActionView {
    Socket(SockType),
    Unlink(Seq<u8>),
    Bind(i32, (Seq<u8>, nat)),
    Connect(i32, (Seq<u8>, nat)),
    Listen(i32, i32),
    Ready(i32),
    Abandon(i32),
    Fail,
}

impl View for Action {
    type V = ActionView;

    open spec fn view(&self) -> ActionView {
        match self {
            Action::Socket(t) => ActionView::Socket(*t),
            Action::Unlink(p) => ActionView::Unlink(p@),
            Action::Bind(fd, a) => ActionView::Bind(*fd, a@),
            Action::Connect(fd, a) => ActionView::Connect(*fd, a@),
            Action::Listen(fd, n) => ActionView::Listen(*fd, *n),
            Action::Ready(fd) => ActionView::Ready(*fd),
            Action::Abandon(fd) => ActionView::Abandon(*fd),
            Action::Fail => ActionView::Fail,
        }
    }
}

impl Action {
    /// Whether the action ends the build.
    pub open spec fn is_final(&self) -> bool {
        self is Ready || self is Abandon || self is Fail
    }
}

/// The action that asks for step `i` of the plan, with descriptor `fd`.
pub open spec fn step_action(plan: RawPlan, i: int, fd: i32) -> ActionView {
    if i == 0 {
        ActionView::Socket(plan.sock_type)
    } else if i == 1 {
        ActionView::Unlink(plan.unlink.unwrap()@)
    } else if i == 2 {
        ActionView::Bind(fd, plan.bind.unwrap()@)
    } else if i == 3 {
        ActionView::Connect(fd, plan.connect.unwrap()@)
    } else if i == 4 {
        ActionView::Listen(fd, LISTEN_BACKLOG)
    } else {
        ActionView::Ready(fd)
    }
}

/// The answer to the result `ret` of step `stage`, while holding `fd`.
pub open spec fn response(plan: RawPlan, stage: int, fd: i32, ret: i32) -> ActionView {
    if stage == 0 {
        if ret < 0 {
            ActionView::Fail
        } else {
            step_action(plan, plan.next_step(1), ret)
        }
    } else if stage == 1 {
        step_action(plan, plan.next_step(2), fd)
    } else if ret < 0 {
        ActionView::Abandon(fd)
    } else {
        step_action(plan, plan.next_step(stage + 1), fd)
    }
}

/// The step awaited after the result `ret` of step `stage`: 5 when done, 6 when failed.
pub open spec fn next_stage(plan: RawPlan, stage: int, ret: i32) -> int {
    if stage == 0 {
        if ret < 0 {
            6
        } else {
            plan.next_step(1)
        }
    } else if stage == 1 {
        plan.next_step(2)
    } else if ret < 0 {
        6
    } else {
        plan.next_step(stage + 1)
    }
}

/// Drives the building of a socket by system calls. It owns the descriptor from
/// its creation until it hands it out as ready or asks for it to be closed.
pub struct RawBuilder {
    plan: RawPlan,
    /// The step whose result is awaited (0 to 4), 5 when done, 6 when failed.
    stage: usize,
    fd: i32,
}

impl RawBuilder {
    pub closed spec fn spec_plan(&self) -> RawPlan {
        self.plan
    }

    pub closed spec fn stage(&self) -> nat {
        self.stage as nat
    }

    pub closed spec fn fd(&self) -> i32 {
        self.fd
    }

    pub open spec fn wf(&self) -> bool {
        &&& self.spec_plan().wf()
        &&& self.stage() <= 6
        &&& (self.stage() <= 4 ==> self.spec_plan().has_step(self.stage() as int))
    }

    /// The descriptor that the builder owns: one is open from a successful creation
    /// until the build ends.
    pub open spec fn held(&self) -> Option<i32> {
        if 1 <= self.stage() <= 4 {
            Some(self.fd())
        } else {
            None
        }
    }

    /// Whether the build has ended.
    pub open spec fn finished(&self) -> bool {
        self.stage() > 4
    }

    /// Starts a build; the first action creates the socket.
    pub fn start(plan: RawPlan) -> (r: (RawBuilder, Action))
        requires
            plan.wf(),
        ensures
            r.0.wf(),
            r.0.spec_plan() == plan,
            r.0.stage() == 0,
            r.0.held() is None,
            r.1@ == step_action(plan, 0, 0),
    {
        let t = plan.sock_type;
        (RawBuilder { plan, stage: 0, fd: 0 }, Action::Socket(t))
    }

    fn action_for(&self, i: usize, fd: i32) -> (a: Action)
        requires
            self.plan.wf(),
            i <= 5,
            i <= 4 ==> self.plan.has_step(i as int),
        ensures
            a@ == step_action(self.plan, i as int, fd),
    {
        if i == 0 {
            Action::Socket(self.plan.sock_type)
        } else if i == 1 {
            match &self.plan.unlink {
                Some(p) => Action::Unlink(copy_bytes(p.as_slice())),
                None => Action::Fail,
            }
        } else if i == 2 {
            match &self.plan.bind {
                Some(a) => Action::Bind(fd, a.duplicate()),
                None => Action::Fail,
            }
        } else if i == 3 {
            match &self.plan.connect {
                Some(a) => Action::Connect(fd, a.duplicate()),
                None => Action::Fail,
            }
        } else if i == 4 {
            Action::Listen(fd, LISTEN_BACKLOG)
        } else {
            Action::Ready(fd)
        }
    }

    fn next_step(&self, from: usize) -> (r: usize)
        requires
            from <= 5,
        ensures
            r == self.plan.next_step(from as int),
            from <= r <= 5,
            r <= 4 ==> self.plan.has_step(r as int),
    {
        let mut i = from;
        while i < 5
            invariant
                from <= i <= 5,
                self.plan.next_step(from as int) == self.plan.next_step(i as int),
            decreases 5 - i,
        {
            let present = if i == 1 {
                self.plan.unlink.is_some()
            } else if i == 2 {
                self.plan.bind.is_some()
            } else if i == 3 {
                self.plan.connect.is_some()
            } else {
                self.plan.listen
            };
            if i == 0 || present {
                return i;
            }
            i = i + 1;
        }
        i
    }

    /// Takes the result of the step last asked for and says what to do next.
    /// A negative result of a create, bind, connect or listen fails the build;
    /// the result of an unlink is ignored.
    pub fn on_result(&mut self, ret: i32) -> (a: Action)
        requires
            old(self).wf(),
            !old(self).finished(),
        ensures
            final(self).wf(),
            final(self).spec_plan() == old(self).spec_plan(),
            final(self).stage() > old(self).stage(),
            final(self).stage() == next_stage(
                old(self).spec_plan(),
                old(self).stage() as int,
                ret,
            ),
            a@ == response(old(self).spec_plan(), old(self).stage() as int, old(self).fd(), ret),
            a.is_final() <==> final(self).finished(),
            a is Ready <==> final(self).stage() == 5,
            final(self).finished() ==> final(self).held() is None,
            a is Fail ==> old(self).held() is None,
            a is Abandon ==> old(self).held() == Some(a->Abandon_0),
            a is Ready ==> old(self).held() == Some(a->Ready_0) || (old(self).stage() == 0
                && a->Ready_0 == ret),
            !final(self).finished() ==> final(self).held() == if old(self).stage() == 0 {
                Some(ret)
            } else {
                old(self).held()
            },
    {
        if self.stage == 0 {
            if ret < 0 {
                self.stage = 6;
                return Action::Fail;
            }
            self.fd = ret;
            let n = self.next_step(1);
            self.stage = n;
            self.action_for(n, ret)
        } else if self.stage == 1 {
            let n = self.next_step(2);
            self.stage = n;
            self.action_for(n, self.fd)
        } else if ret < 0 {
            self.stage = 6;
            Action::Abandon(self.fd)
        } else {
            let n = self.next_step(self.stage + 1);
            self.stage = n;
            self.action_for(n, self.fd)
        }
    }
}

/// Listening on a filesystem path with unlinking asked for: once the socket is
/// created, the file at the path is removed, and binding follows whatever the
/// removal returned.
pub proof fn lemma_unlink_before_bind(p: RawPlan, addr: Seq<u8>, fd: i32, unlink_ret: i32)
    requires
        is_seqpacket_listen_plan(p, addr, true),
        path_field(addr)[0] != ABSTRACT_MARKER,
        fd >= 0,
    ensures
        next_stage(p, 0, fd) == 1,
        response(p, 0, 0, fd) == ActionView::Unlink(c_string(path_field(addr))),
        next_stage(p, 1, unlink_ret) == 2,
        response(p, 1, fd, unlink_ret) == ActionView::Bind(fd, marked_encoded(addr)),
{
    assert(p.next_step(1) == 1);
    assert(p.next_step(2) == 2);
}

/// The result of the `k`-th system call in a recorded list; a call past its end
/// returns 0.
pub open spec fn result_at(results: Seq<i32>, k: int) -> i32 {
    if 0 <= k < results.len() {
        results[k]
    } else {
        0
    }
}

/// Whether a build that awaits step `stage` after `k` system calls reaches the end
/// when the calls return `results`: every create, bind, connect and listen from
/// there on returns a non-negative value.
pub open spec fn completes(plan: RawPlan, results: Seq<i32>, stage: int, k: int) -> bool
    decreases 6 - stage,
{
    if stage < 0 || stage > 4 {
        stage == 5
    } else {
        let n = next_stage(plan, stage, result_at(results, k));
        if n <= stage || n > 6 {
            false
        } else {
            completes(plan, results, n, k + 1)
        }
    }
}

/// The outcome of a build against a fake kernel, with its count of descriptors.
pub struct FakeRun {
    /// The descriptor handed out, if the build succeeded.
    pub fd: Option<i32>,
    /// Descriptors created.
    pub opened: usize,
    /// Descriptors closed.
    pub closed: usize,
}

/// Runs a build against a fake kernel whose `k`-th system call returns
/// `results[k]` (0 past the end), counting descriptors. However the calls fail,
/// a failed build leaves every descriptor it created closed, and a successful one
/// leaves open exactly the descriptor that it hands out.
pub fn run_fake(plan: RawPlan, results: &Vec<i32>) -> (r: FakeRun)
    requires
        plan.wf(),
    ensures
        r.fd is Some <==> completes(plan, results@, 0, 0),
        r.fd is None ==> r.opened == r.closed,
        r.fd is Some ==> r.opened == r.closed + 1 && r.fd == Some(result_at(results@, 0)),
        r.opened <= 1,
        result_at(results@, 0) < 0 ==> r.fd is None && r.opened == 0,
        r.opened == 1 <==> result_at(results@, 0) >= 0,
{
    let (mut b, _first) = RawBuilder::start(plan);
    let mut k: usize = 0;
    let mut opened: usize = 0;
    let mut closed: usize = 0;
    loop
        invariant
            b.wf(),
            !b.finished(),
            k <= b.stage(),
            k == 0 <==> b.stage() == 0,
            closed == 0,
            opened == if b.stage() >= 1 { 1usize } else { 0usize },
            b.stage() >= 1 ==> b.held() == Some(result_at(results@, 0)) && result_at(results@, 0) >= 0,
            b.spec_plan() == plan,
            completes(plan, results@, 0, 0) == completes(plan, results@, b.stage() as int, k as int),
        decreases 5 - b.stage(),
    {
        let ret: i32 = if k < results.len() {
            results[k]
        } else {
            0
        };
        if k == 0 && ret >= 0 {
            opened = 1;
        }
        let ghost before = b.stage() as int;
        let ghost calls = k as int;
        k = k + 1;
        let a = b.on_result(ret);
        assert(completes(plan, results@, before, calls) == completes(
            plan,
            results@,
            b.stage() as int,
            k as int,
        ));
        match a {
            Action::Ready(fd) => {
                return FakeRun { fd: Some(fd), opened, closed };
            },
            Action::Abandon(_) => {
                closed = closed + 1;
                return FakeRun { fd: None, opened, closed };
            },
            Action::Fail => {
                return FakeRun { fd: None, opened, closed };
            },
            _ => {},
        }
    }
}

} // verus!
