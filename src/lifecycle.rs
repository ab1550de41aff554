use vstd::prelude::*;
use crate::decimal::{decimal, decimal_string};
use crate::readiness::Readiness;
use crate::text::same_text;

verus! {

/// The sidecar process as the shell sees it.
#[derive(Clone, Copy, Debug, PartialEq, Eq, Structural)]
pub enum Stage {
    /// Nothing spawned yet.
    Unstarted,
    /// A child was spawned and sits in the slot.
    Running,
    /// Locating or spawning failed; the shell runs on without a child.
    Failed,
    /// The shell is exiting; the slot has been drained for good.
    Reaped,
}

/// An item of the tray menu.
#[derive(Clone, Copy, Debug, PartialEq, Eq, Structural)]
pub enum TrayCommand {
    Open,
    GenerateReport,
    ToggleAutostart,
    Quit,
}

/// The tray item that a menu id names.
pub open spec fn command_of_id(id: Seq<char>) -> Option<TrayCommand> {
    if id == "open"@ {
        Some(TrayCommand::Open)
    } else if id == "generate_report"@ {
        Some(TrayCommand::GenerateReport)
    } else if id == "autolaunch"@ {
        Some(TrayCommand::ToggleAutostart)
    } else if id == "quit"@ {
        Some(TrayCommand::Quit)
    } else {
        None
    }
}

impl TrayCommand {
    /// The tray item with menu id `id`.
    pub fn from_id(id: &str) -> (r: Option<TrayCommand>)
        ensures
            r == command_of_id(id@),
    {
        if same_text(id, "open") {
            Some(TrayCommand::Open)
        } else if same_text(id, "generate_report") {
            Some(TrayCommand::GenerateReport)
        } else if same_text(id, "autolaunch") {
            Some(TrayCommand::ToggleAutostart)
        } else if same_text(id, "quit") {
            Some(TrayCommand::Quit)
        } else {
            None
        }
    }

    /// The menu id of this tray item.
    pub fn id(self) -> (r: &'static str)
        ensures
            command_of_id(r@) == Some(self),
    {
        proof {
            reveal_strlit("open");
            reveal_strlit("generate_report");
            reveal_strlit("autolaunch");
            reveal_strlit("quit");
            assert("generate_report"@.len() != "open"@.len());
            assert("autolaunch"@.len() != "open"@.len());
            assert("autolaunch"@.len() != "generate_report"@.len());
            assert("quit"@[0] != "open"@[0]);
            assert("quit"@.len() != "generate_report"@.len());
            assert("quit"@.len() != "autolaunch"@.len());
        }
        match self {
            TrayCommand::Open => "open",
            TrayCommand::GenerateReport => "generate_report",
            TrayCommand::ToggleAutostart => "autolaunch",
            TrayCommand::Quit => "quit",
        }
    }
}

/// Something the host framework reports to the shell.
#[derive(Clone, Copy, Debug, PartialEq, Eq, Structural)]
pub enum HostEvent {
    Menu(TrayCommand),
    /// A left click released on the tray icon.
    TrayClicked,
    /// The framework is about to exit.
    ExitRequested,
    /// A window close was asked for; `hide_on_close` holds on platforms where
    /// closing only hides the window.
    CloseRequested { hide_on_close: bool },
}

/// What the host does in answer to a `HostEvent`.
pub enum Reaction<T> {
    Nothing,
    /// Unminimize, show and focus the main window.
    ShowWindow,
    /// Hide the main window and keep it from closing.
    HideWindow,
    /// Post the report request to the sidecar.
    TriggerReport,
    /// Flip the launch-at-login setting.
    ToggleAutostart,
    /// Kill and reap `child` when there is one, then let the host exit
    /// (asking it to when `exit_host` holds).
    Shutdown { child: Option<T>, exit_host: bool },
}

/// The events that drive the slot and the lifecycle.
pub enum Input<T> {
    Spawned(T),
    SpawnFailed,
    Waited(Readiness),
    Host(HostEvent),
}

/// The abstract state: the slot's content and what the shell has seen and done.
pub struct SidecarModel<T> {
    pub port: u16,
    pub child: Option<T>,
    pub stage: Stage,
    pub ready_seen: bool,
    pub navigated: bool,
}

/// The two exit paths that drain the slot: Quit from the tray and the
/// framework's exit request. A window close is not one of them.
pub open spec fn is_stop(ev: HostEvent) -> bool {
    ev == HostEvent::Menu(TrayCommand::Quit) || ev == HostEvent::ExitRequested
}

/// `http://localhost:<port>`, the address the web view is sent to.
pub open spec fn navigate_url(port: nat) -> Seq<char> {
    "http://localhost:"@ + decimal(port)
}

impl<T> SidecarModel<T> {
    pub open spec fn fresh(port: u16) -> Self {
        SidecarModel { port, child: None, stage: Stage::Unstarted, ready_seen: false, navigated: false }
    }

    pub open spec fn wf(self) -> bool {
        &&& (self.child is Some ==> self.stage == Stage::Running)
        &&& (self.navigated ==> self.ready_seen)
    }

    pub open spec fn held(self) -> nat {
        if self.child is Some { 1 } else { 0 }
    }

    /// A spawned child is adopted only by a shell that never spawned one and is not exiting.
    pub open spec fn adopts(self) -> bool {
        self.stage == Stage::Unstarted
    }

    /// The web view is navigated on the first `Ready`, unless the shell is exiting.
    pub open spec fn navigates(self, r: Readiness) -> bool {
        r == Readiness::Ready && !self.navigated && self.stage != Stage::Reaped
    }

    pub open spec fn apply(self, i: Input<T>) -> Self {
        match i {
            Input::Spawned(c) => if self.adopts() {
                SidecarModel { child: Some(c), stage: Stage::Running, ..self }
            } else {
                self
            },
            Input::SpawnFailed => if self.stage == Stage::Unstarted {
                SidecarModel { stage: Stage::Failed, ..self }
            } else {
                self
            },
            Input::Waited(r) => if r == Readiness::Ready {
                SidecarModel { ready_seen: true, navigated: self.navigated || self.navigates(r), ..self }
            } else {
                self
            },
            Input::Host(ev) => if is_stop(ev) {
                SidecarModel { child: None, stage: Stage::Reaped, ..self }
            } else {
                self
            },
        }
    }

    /// The state after a sequence of inputs.
    pub open spec fn run(self, s: Seq<Input<T>>) -> Self
        decreases s.len(),
    {
        if s.len() == 0 {
            self
        } else {
            self.apply(s[0]).run(s.drop_first())
        }
    }

    /// How many spawned children were adopted into the slot along `s`.
    pub open spec fn adoptions(self, s: Seq<Input<T>>) -> nat
        decreases s.len(),
    {
        if s.len() == 0 {
            0
        } else {
            (if s[0] is Spawned && self.adopts() { 1nat } else { 0nat }) + self.apply(s[0]).adoptions(
                s.drop_first(),
            )
        }
    }

    /// How many children were handed out to be killed along `s`.
    pub open spec fn releases(self, s: Seq<Input<T>>) -> nat
        decreases s.len(),
    {
        if s.len() == 0 {
            0
        } else {
            (if s[0] matches Input::Host(ev) && is_stop(ev) { self.held() } else { 0nat })
                + self.apply(s[0]).releases(s.drop_first())
        }
    }

    /// How many times the web view was navigated along `s`.
    pub open spec fn navigations(self, s: Seq<Input<T>>) -> nat
        decreases s.len(),
    {
        if s.len() == 0 {
            0
        } else {
            (if s[0] matches Input::Waited(r) && self.navigates(r) { 1nat } else { 0nat })
                + self.apply(s[0]).navigations(s.drop_first())
        }
    }
}

/// The slot that owns the sidecar's child handle, together with the lifecycle
/// decisions around it. The host keeps one per process behind a mutex and
/// holds the lock only while calling into it, never across a kill or a wait.
pub struct Sidecar<T> {
    port: u16,
    child: Option<T>,
    stage: Stage,
    ready_seen: bool,
    navigated: bool,
}

impl<T> View for Sidecar<T> {
    type V = SidecarModel<T>;

    closed spec fn view(&self) -> SidecarModel<T> {
        SidecarModel {
            port: self.port,
            child: self.child,
            stage: self.stage,
            ready_seen: self.ready_seen,
            navigated: self.navigated,
        }
    }
}

impl<T> Sidecar<T> {
    /// An empty slot for a sidecar on `port`.
    pub fn new(port: u16) -> (r: Sidecar<T>)
        ensures
            r@ == SidecarModel::<T>::fresh(port),
    {
        Sidecar { port, child: None, stage: Stage::Unstarted, ready_seen: false, navigated: false }
    }

    pub fn stage(&self) -> (r: Stage)
        ensures
            r == self@.stage,
    {
        self.stage
    }

    pub fn is_occupied(&self) -> (r: bool)
        ensures
            r == self@.child is Some,
    {
        self.child.is_some()
    }

    /// Stores a freshly spawned child. Only the first child of a shell that is
    /// not exiting is kept; any other is handed back, to be killed by the caller.
    pub fn spawned(&mut self, child: T) -> (r: Result<(), T>)
        requires
            old(self)@.wf(),
        ensures
            final(self)@ == old(self)@.apply(Input::Spawned(child)),
            final(self)@.wf(),
            r is Ok <==> old(self)@.adopts(),
            r matches Err(c) ==> c == child,
    {
        if self.stage == Stage::Unstarted {
            self.child = Some(child);
            self.stage = Stage::Running;
            Ok(())
        } else {
            Err(child)
        }
    }

    /// Records that the sidecar could not be located or spawned.
    pub fn spawn_failed(&mut self)
        requires
            old(self)@.wf(),
        ensures
            final(self)@ == old(self)@.apply(Input::SpawnFailed),
            final(self)@.wf(),
    {
        if self.stage == Stage::Unstarted {
            self.stage = Stage::Failed;
        }
    }

    /// Records the poller's outcome; gives the address to navigate the web
    /// view to, the first time the sidecar is ready and unless the shell is exiting.
    pub fn waited(&mut self, outcome: Readiness) -> (r: Option<String>)
        requires
            old(self)@.wf(),
        ensures
            final(self)@ == old(self)@.apply(Input::Waited(outcome)),
            final(self)@.wf(),
            r is Some <==> old(self)@.navigates(outcome),
            r matches Some(url) ==> url@ == navigate_url(old(self)@.port as nat),
    {
        if outcome == Readiness::Ready {
            let go = !self.navigated && self.stage != Stage::Reaped;
            self.ready_seen = true;
            if go {
                self.navigated = true;
                proof {
                    reveal_strlit("http://localhost:");
                }
                let mut url = String::from_str("http://localhost:");
                url.append(decimal_string(self.port as u64).as_str());
                return Some(url);
            }
        }
        None
    }

    /// Drains the slot for good: hands out the child, if one is held, to be
    /// killed and reaped by the caller. Further calls hand out nothing.
    pub fn terminate(&mut self) -> (r: Option<T>)
        requires
            old(self)@.wf(),
        ensures
            final(self)@ == old(self)@.apply(Input::Host(HostEvent::ExitRequested)),
            final(self)@.wf(),
            r == old(self)@.child,
    {
        self.stage = Stage::Reaped;
        self.child.take()
    }

    /// Answers an event of the host framework. Quit and the exit request drain
    /// the slot; a window close never does.
    pub fn on_host_event(&mut self, ev: HostEvent) -> (r: Reaction<T>)
        requires
            old(self)@.wf(),
        ensures
            final(self)@ == old(self)@.apply(Input::Host(ev)),
            final(self)@.wf(),
            match ev {
                HostEvent::Menu(TrayCommand::Open) | HostEvent::TrayClicked => r is ShowWindow,
                HostEvent::Menu(TrayCommand::GenerateReport) => r is TriggerReport,
                HostEvent::Menu(TrayCommand::ToggleAutostart) => r is ToggleAutostart,
                HostEvent::Menu(TrayCommand::Quit) => r matches Reaction::Shutdown { child, exit_host }
                    && child == old(self)@.child && exit_host,
                HostEvent::ExitRequested => r matches Reaction::Shutdown { child, exit_host }
                    && child == old(self)@.child && !exit_host,
                HostEvent::CloseRequested { hide_on_close } => if hide_on_close {
                    r is HideWindow
                } else {
                    r is Nothing
                },
            },
    {
        match ev {
            HostEvent::Menu(TrayCommand::Open) | HostEvent::TrayClicked => Reaction::ShowWindow,
            HostEvent::Menu(TrayCommand::GenerateReport) => Reaction::TriggerReport,
            HostEvent::Menu(TrayCommand::ToggleAutostart) => Reaction::ToggleAutostart,
            HostEvent::Menu(TrayCommand::Quit) => {
                let child = self.terminate();
                Reaction::Shutdown { child, exit_host: true }
            },
            HostEvent::ExitRequested => {
                let child = self.terminate();
                Reaction::Shutdown { child, exit_host: false }
            },
            HostEvent::CloseRequested { hide_on_close } => if hide_on_close {
                Reaction::HideWindow
            } else {
                Reaction::Nothing
            },
        }
    }
}

/// How many inputs of `s` report the poller's `Ready`.
pub open spec fn ready_count<T>(s: Seq<Input<T>>) -> nat
    decreases s.len(),
{
    if s.len() == 0 {
        0
    } else {
        (if s[0] matches Input::Waited(r) && r == Readiness::Ready { 1nat } else { 0nat })
            + ready_count(s.drop_first())
    }
}

proof fn lemma_apply_wf<T>(m: SidecarModel<T>, i: Input<T>)
    requires
        m.wf(),
    ensures
        m.apply(i).wf(),
        m.apply(i).port == m.port,
        !m.adopts() ==> !m.apply(i).adopts(),
{
}

proof fn lemma_run_wf<T>(m: SidecarModel<T>, s: Seq<Input<T>>)
    requires
        m.wf(),
    ensures
        m.run(s).wf(),
    decreases s.len(),
{
    if s.len() > 0 {
        lemma_apply_wf(m, s[0]);
        lemma_run_wf(m.apply(s[0]), s.drop_first());
    }
}

proof fn lemma_adoptions_bound<T>(m: SidecarModel<T>, s: Seq<Input<T>>)
    requires
        m.wf(),
    ensures
        m.adoptions(s) <= (if m.adopts() { 1nat } else { 0nat }),
    decreases s.len(),
{
    if s.len() > 0 {
        lemma_apply_wf(m, s[0]);
        lemma_adoptions_bound(m.apply(s[0]), s.drop_first());
    }
}

proof fn lemma_conservation<T>(m: SidecarModel<T>, s: Seq<Input<T>>)
    requires
        m.wf(),
    ensures
        m.releases(s) + m.run(s).held() == m.held() + m.adoptions(s),
    decreases s.len(),
{
    if s.len() > 0 {
        lemma_apply_wf(m, s[0]);
        lemma_conservation(m.apply(s[0]), s.drop_first());
    }
}

proof fn lemma_reaped_stays<T>(m: SidecarModel<T>, s: Seq<Input<T>>)
    requires
        m.stage == Stage::Reaped,
        m.child is None,
    ensures
        m.run(s).stage == Stage::Reaped,
        m.run(s).child is None,
        m.adoptions(s) == 0,
    decreases s.len(),
{
    if s.len() > 0 {
        lemma_reaped_stays(m.apply(s[0]), s.drop_first());
    }
}

proof fn lemma_drained_after_stop<T>(m: SidecarModel<T>, s: Seq<Input<T>>, i: int)
    requires
        0 <= i < s.len(),
        s[i] matches Input::Host(ev) && is_stop(ev),
    ensures
        m.run(s).child is None,
    decreases s.len(),
{
    if i == 0 {
        lemma_reaped_stays(m.apply(s[0]), s.drop_first());
    } else {
        assert(s.drop_first()[i - 1] == s[i]);
        lemma_drained_after_stop(m.apply(s[0]), s.drop_first(), i - 1);
    }
}

proof fn lemma_navigations_bound<T>(m: SidecarModel<T>, s: Seq<Input<T>>)
    ensures
        m.navigations(s) <= (if m.navigated { 0nat } else { 1nat }),
        m.navigations(s) <= ready_count(s),
    decreases s.len(),
{
    if s.len() > 0 {
        lemma_navigations_bound(m.apply(s[0]), s.drop_first());
    }
}

/// Single child: from a fresh slot, whatever the inputs, at most one spawned
/// child is ever adopted, and the slot, which holds at most one handle, holds
/// one only while the sidecar is running.
pub proof fn lemma_single_child<T>(port: u16, s: Seq<Input<T>>)
    ensures
        SidecarModel::<T>::fresh(port).adoptions(s) <= 1,
        SidecarModel::<T>::fresh(port).run(s).wf(),
{
    lemma_adoptions_bound(SidecarModel::<T>::fresh(port), s);
    lemma_run_wf(SidecarModel::<T>::fresh(port), s);
}

/// No leak on exit: once Quit or the exit request has been handled, the slot is
/// empty for good, and every child the slot ever held has been handed out to
/// be killed, exactly once.
pub proof fn lemma_no_leak_on_exit<T>(m: SidecarModel<T>, s: Seq<Input<T>>, i: int)
    requires
        m.wf(),
        0 <= i < s.len(),
        s[i] matches Input::Host(ev) && is_stop(ev),
    ensures
        m.run(s).child is None,
        m.releases(s) == m.held() + m.adoptions(s),
{
    lemma_drained_after_stop(m, s, i);
    lemma_conservation(m, s);
}

/// Idempotent terminate: one or more exit paths taken in a row hand out the
/// child held, if any, exactly once, and leave the slot empty.
pub proof fn lemma_terminate_idempotent<T>(m: SidecarModel<T>, s: Seq<Input<T>>)
    requires
        m.wf(),
        s.len() >= 1,
        forall|j: int| 0 <= j < s.len() ==> (#[trigger] s[j] matches Input::Host(ev) && is_stop(ev)),
    ensures
        m.releases(s) == m.held(),
        m.run(s).child is None,
{
    lemma_no_leak_on_exit(m, s, 0);
    lemma_reaped_stays(m.apply(s[0]), s.drop_first());
}

/// Navigate implies ready: the web view is navigated only on a `Ready` outcome
/// of the poller, at most once, and a navigated shell has seen the sidecar ready.
pub proof fn lemma_navigate_implies_ready<T>(port: u16, s: Seq<Input<T>>)
    ensures
        SidecarModel::<T>::fresh(port).navigations(s) <= 1,
        SidecarModel::<T>::fresh(port).navigations(s) <= ready_count(s),
        SidecarModel::<T>::fresh(port).run(s).navigated ==> SidecarModel::<T>::fresh(port).run(s).ready_seen,
{
    lemma_navigations_bound(SidecarModel::<T>::fresh(port), s);
    lemma_run_wf(SidecarModel::<T>::fresh(port), s);
}

/// Ready leads to navigation: a shell that has not navigated yet and is not
/// exiting navigates on the poller's `Ready`, whether or not its own spawn
/// succeeded, and a timeout never navigates.
pub proof fn lemma_ready_navigates<T>(m: SidecarModel<T>)
    requires
        m.wf(),
        !m.navigated,
        m.stage != Stage::Reaped,
    ensures
        m.navigates(Readiness::Ready),
        m.apply(Input::Waited(Readiness::Ready)).navigated,
        !m.navigates(Readiness::TimedOut),
        !m.apply(Input::Waited(Readiness::TimedOut)).navigated,
{
}

} // verus!
