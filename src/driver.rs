//! Device drivers and the protocol that brings them up.
use vstd::prelude::*;
use crate::registers::RegisterWrite;

verus! {

/// The stores that bring a device up, to be issued in order to the register
/// block at `base_addr`.
pub struct DeviceStores {
    pub base_addr: usize,
    pub stores: Vec<RegisterWrite>,
}

/// A device driver.
pub trait DeviceDriver: Sized {
    /// The name the driver is known by.
    fn compatible(&self) -> &'static str;

    /// Brings the driver up and returns the register stores that bring its
    /// device up, in order. A driver with nothing to do succeeds with no stores
    /// and no change.
    fn init(&mut self) -> (r: Result<Vec<RegisterWrite>, ()>)
        default_ensures
            r is Ok,
            r->Ok_0@.len() == 0,
            *final(self) == *old(self),
    {
        Ok(Vec::new())
    }
}

/// Owner of the board's drivers, in initialization order.
pub trait DriverManager {
    /// The names of the drivers, in initialization order.
    closed spec fn spec_driver_names(&self) -> Seq<Seq<char>> {
        Seq::empty()
    }

    /// The indices passed to `init_device_driver` so far, in call order.
    closed spec fn spec_init_calls(&self) -> Seq<usize> {
        Seq::empty()
    }

    /// How many times `post_device_driver_init` has run.
    closed spec fn spec_post_init_calls(&self) -> nat {
        0
    }

    /// The names of all drivers, in initialization order.
    fn all_device_drivers(&self) -> (r: Vec<&'static str>)
        ensures
            r@.map_values(|s: &'static str| s@) == self.spec_driver_names(),
    ;

    /// Runs `init` on the driver at `index`; on success, the stores to issue to
    /// its device.
    fn init_device_driver(&mut self, index: usize) -> (r: Result<DeviceStores, ()>)
        requires
            index < old(self).spec_driver_names().len(),
        ensures
            final(self).spec_driver_names() == old(self).spec_driver_names(),
            final(self).spec_init_calls() == old(self).spec_init_calls().push(index),
            final(self).spec_post_init_calls() == old(self).spec_post_init_calls(),
    ;

    /// Wiring between drivers, run once after every driver's `init` succeeded.
    fn post_device_driver_init(&mut self)
        ensures
            final(self).spec_driver_names() == old(self).spec_driver_names(),
            final(self).spec_init_calls() == old(self).spec_init_calls(),
            final(self).spec_post_init_calls() == old(self).spec_post_init_calls() + 1,
    ;
}

/// What the initialization protocol asks for next.
#[derive(Clone, Copy, Debug, PartialEq, Eq, Structural)]
pub enum InitAction {
    /// Run `init` on the driver at this index and report the outcome.
    InitDriver(usize),
    /// Every driver is up: run the post-initialization hook and report it.
    PostInit,
    /// The driver at this index failed: initialization is fatal.
    Fatal(usize),
    /// All drivers and the hook have run.
    Finished,
}

/// Progress of bringing up `count` drivers in table order: each `init` runs
/// only after every earlier one succeeded, and the post-initialization hook
/// runs only after all of them succeeded.
pub struct DriverInit {
    count: usize,
    done: usize,
    failed: bool,
    post_init_run: bool,
}

impl DriverInit {
    pub closed spec fn spec_count(&self) -> nat {
        self.count as nat
    }

    /// Number of drivers whose `init` succeeded.
    pub closed spec fn spec_done(&self) -> nat {
        self.done as nat
    }

    /// Whether the `init` of driver `spec_done()` failed.
    pub closed spec fn spec_failed(&self) -> bool {
        self.failed
    }

    pub closed spec fn spec_post_init_run(&self) -> bool {
        self.post_init_run
    }

    pub open spec fn wf(&self) -> bool {
        &&& self.spec_done() <= self.spec_count()
        &&& self.spec_failed() ==> self.spec_done() < self.spec_count()
        &&& self.spec_post_init_run() ==> !self.spec_failed() && self.spec_done()
            == self.spec_count()
    }

    pub open spec fn next_action_spec(&self) -> InitAction {
        if self.spec_failed() {
            InitAction::Fatal(self.spec_done() as usize)
        } else if self.spec_done() < self.spec_count() {
            InitAction::InitDriver(self.spec_done() as usize)
        } else if !self.spec_post_init_run() {
            InitAction::PostInit
        } else {
            InitAction::Finished
        }
    }

    /// The protocol for a table of `count` drivers, before anything ran.
    pub fn new(count: usize) -> (r: DriverInit)
        ensures
            r.wf(),
            r.spec_count() == count,
            r.spec_done() == 0,
            !r.spec_failed(),
            !r.spec_post_init_run(),
    {
        DriverInit { count, done: 0, failed: false, post_init_run: false }
    }

    /// Number of drivers whose `init` succeeded.
    pub fn succeeded(&self) -> (r: usize)
        ensures
            r == self.spec_done(),
    {
        self.done
    }

    /// Whether the post-initialization hook ran.
    pub fn post_init_run(&self) -> (r: bool)
        ensures
            r == self.spec_post_init_run(),
    {
        self.post_init_run
    }

    /// What to do next.
    pub fn next_action(&self) -> (r: InitAction)
        requires
            self.wf(),
        ensures
            r == self.next_action_spec(),
    {
        if self.failed {
            InitAction::Fatal(self.done)
        } else if self.done < self.count {
            InitAction::InitDriver(self.done)
        } else if !self.post_init_run {
            InitAction::PostInit
        } else {
            InitAction::Finished
        }
    }

    /// Records the outcome of the `init` that `next_action` asked for.
    pub fn record_init(&mut self, succeeded: bool)
        requires
            old(self).wf(),
            old(self).next_action_spec() is InitDriver,
        ensures
            final(self).wf(),
            final(self).spec_count() == old(self).spec_count(),
            final(self).spec_post_init_run() == old(self).spec_post_init_run(),
            succeeded ==> final(self).spec_done() == old(self).spec_done() + 1
                && !final(self).spec_failed(),
            !succeeded ==> final(self).spec_done() == old(self).spec_done()
                && final(self).spec_failed(),
    {
        if succeeded {
            self.done = self.done + 1;
        } else {
            self.failed = true;
        }
    }

    /// Records that the post-initialization hook ran.
    pub fn record_post_init(&mut self)
        requires
            old(self).wf(),
            old(self).next_action_spec() is PostInit,
        ensures
            final(self).wf(),
            final(self).spec_count() == old(self).spec_count(),
            final(self).spec_done() == old(self).spec_done(),
            !final(self).spec_failed(),
            final(self).spec_post_init_run(),
            final(self).next_action_spec() == InitAction::Finished,
    {
        self.post_init_run = true;
    }
}

/// Once a driver's `init` has failed, the protocol asks for nothing but the
/// fatal escalation naming that driver: no later `init` runs and the
/// post-initialization hook never runs. The hook is asked for, or has run,
/// only when every driver's `init` succeeded.
pub proof fn lemma_failure_stops_initialization(s: DriverInit)
    requires
        s.wf(),
    ensures
        s.spec_failed() ==> s.next_action_spec() == InitAction::Fatal(s.spec_done() as usize),
        s.spec_failed() ==> !s.spec_post_init_run(),
        s.next_action_spec() is PostInit || s.spec_post_init_run() ==> !s.spec_failed()
            && s.spec_done() == s.spec_count(),
{
}

/// The indices `0, 1, ..., n - 1`.
pub open spec fn indices_up_to(n: nat) -> Seq<usize> {
    Seq::new(n, |i: int| i as usize)
}

/// How a run of the initialization protocol ended.
pub struct InitReport {
    /// The protocol's final record.
    pub progress: DriverInit,
    /// `Ok` when every driver and the hook ran; else the name of the driver
    /// whose `init` failed.
    pub result: Result<(), &'static str>,
}

/// Brings up every driver of `m` in table order and then runs its
/// post-initialization hook. Stops at the first driver whose `init` fails and
/// reports its name, without running any later `init` or the hook.
pub fn init_drivers<M: DriverManager>(m: &mut M) -> (r: InitReport)
    ensures
        r.progress.wf(),
        r.result is Ok <==> r.progress.next_action_spec() == InitAction::Finished,
        r.result is Err <==> r.progress.spec_failed(),
        r.progress.spec_post_init_run() <==> r.result is Ok,
        r.result is Ok ==> r.progress.spec_done() == r.progress.spec_count(),
        r.progress.spec_count() == old(m).spec_driver_names().len(),
        r.result is Err ==> r.result->Err_0@ == old(m).spec_driver_names()[r.progress.spec_done() as int],
        final(m).spec_driver_names() == old(m).spec_driver_names(),
        r.result is Ok ==> final(m).spec_init_calls() == old(m).spec_init_calls() + indices_up_to(
            r.progress.spec_count(),
        ),
        r.result is Err ==> final(m).spec_init_calls() == old(m).spec_init_calls() + indices_up_to(
            r.progress.spec_done() + 1,
        ),
        final(m).spec_post_init_calls() == old(m).spec_post_init_calls() + (if r.result is Ok {
            1nat
        } else {
            0nat
        }),
{
    let names = m.all_device_drivers();
    let mut p = DriverInit::new(names.len());
    loop
        invariant
            p.wf(),
            p.spec_count() == names.len(),
            names@.map_values(|s: &'static str| s@) == m.spec_driver_names(),
            m.spec_driver_names() == old(m).spec_driver_names(),
            m.spec_init_calls() == old(m).spec_init_calls() + indices_up_to(
                p.spec_done() + (if p.spec_failed() { 1nat } else { 0nat }),
            ),
            m.spec_post_init_calls() == old(m).spec_post_init_calls() + (if p.spec_post_init_run() {
                1nat
            } else {
                0nat
            }),
        decreases p.spec_count() - p.spec_done() + (if p.spec_post_init_run() { 0int } else { 1int }) + (if p.spec_failed() { 0int } else { 1int }),
    {
        match p.next_action() {
            InitAction::InitDriver(i) => {
                let ghost before = m.spec_init_calls();
                let ok = m.init_device_driver(i).is_ok();
                p.record_init(ok);
                assert(indices_up_to(i as nat + 1) =~= indices_up_to(i as nat).push(i));
                assert(old(m).spec_init_calls() + indices_up_to(i as nat + 1) =~= before.push(i));
            },
            InitAction::PostInit => {
                m.post_device_driver_init();
                p.record_post_init();
            },
            InitAction::Fatal(i) => {
                let name = names[i];
                assert(names@.map_values(|s: &'static str| s@)[i as int] == name@);
                return InitReport { progress: p, result: Err(name) };
            },
            InitAction::Finished => {
                return InitReport { progress: p, result: Ok(()) };
            },
        }
    }
}

} // verus!
