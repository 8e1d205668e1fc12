//! The course of one execution: the orb is looked for in the search
//! directories in order, the first that holds it is loaded from, the sandbox
//! is launched, and the outcome is answered.
//!
//! Both parts are state machines: the caller performs each action (checking
//! a directory, loading the orb, launching the sandbox) and hands back what
//! came of it.
use vstd::prelude::*;
use crate::config::DEFAULT_FUEL_LIMIT;
use crate::hosted::{
    orb_not_found_message, orb_not_found_text, planned_config, success_output, success_response,
    LocalExecutionRequest, LocalExecutionResponse,
};
use crate::limits::{fuel_burned, fuel_consumed};

verus! {

/// Whether none of `probes` found the orb.
pub open spec fn none_found(probes: Seq<bool>) -> bool {
    forall|j: int| 0 <= j < probes.len() ==> !#[trigger] probes[j]
}

/// Whether `i` is the first directory that holds the orb, after the
/// checks `probes`.
pub open spec fn first_found_at(probes: Seq<bool>, i: int) -> bool {
    &&& 0 <= i < probes.len()
    &&& probes[i]
    &&& forall|j: int| 0 <= j < i ==> !#[trigger] probes[j]
}

/// What the search asks for next.
#[derive(Debug, Clone, Copy, PartialEq, Eq, Structural)]
pub enum SearchStep {
    /// Check whether the directory with this index holds the orb.
    Probe(usize),
    /// The directory with this index is the first that holds the orb.
    Found(usize),
    /// No directory holds the orb.
    NotFound,
}

/// The search for an orb over an ordered list of directories.
pub struct OrbSearch {
    dir_count: usize,
    next: usize,
    done: bool,
    probes: Ghost<Seq<bool>>,
}

impl OrbSearch {
    /// The number of directories searched.
    pub closed spec fn dir_count(&self) -> nat {
        self.dir_count as nat
    }

    /// The results of the checks made so far, in directory order.
    pub closed spec fn probes(&self) -> Seq<bool> {
        self.probes@
    }

    /// Whether the search has come to its end.
    pub closed spec fn is_done(&self) -> bool {
        self.done
    }

    /// While the search goes on, every check so far found nothing and a
    /// further directory is left.
    pub closed spec fn wf(&self) -> bool {
        &&& self.probes@.len() <= self.dir_count
        &&& !self.done ==> {
            &&& self.next < self.dir_count
            &&& self.probes@.len() == self.next
            &&& none_found(self.probes@)
        }
    }

    /// Starts a search over `dir_count` directories.
    pub fn start(dir_count: usize) -> (r: (OrbSearch, SearchStep))
        ensures
            r.0.wf(),
            r.0.dir_count() == dir_count,
            r.0.probes() == Seq::<bool>::empty(),
            dir_count == 0 ==> r.0.is_done() && r.1 == SearchStep::NotFound,
            dir_count > 0 ==> !r.0.is_done() && r.1 == SearchStep::Probe(0),
    {
        if dir_count == 0 {
            (OrbSearch { dir_count, next: 0, done: true, probes: Ghost(Seq::empty()) }, SearchStep::NotFound)
        } else {
            (OrbSearch { dir_count, next: 0, done: false, probes: Ghost(Seq::empty()) }, SearchStep::Probe(0))
        }
    }

    /// Whether the search still waits for a check.
    pub fn is_searching(&self) -> (r: bool)
        ensures
            r == !self.is_done(),
    {
        !self.done
    }

    /// Records whether the directory last asked about holds the orb, and
    /// says what comes next: the next directory, this directory, or that no
    /// directory holds the orb.
    pub fn record(&mut self, holds_orb: bool) -> (r: SearchStep)
        requires
            old(self).wf(),
            !old(self).is_done(),
        ensures
            final(self).wf(),
            final(self).dir_count() == old(self).dir_count(),
            final(self).probes() == old(self).probes().push(holds_orb),
            match r {
                SearchStep::Probe(i) => !final(self).is_done() && i == old(self).probes().len()
                    + 1 && none_found(final(self).probes()),
                SearchStep::Found(i) => final(self).is_done() && first_found_at(
                    final(self).probes(),
                    i as int,
                ),
                SearchStep::NotFound => final(self).is_done() && none_found(final(self).probes())
                    && final(self).probes().len() == final(self).dir_count(),
            },
            holds_orb ==> r == SearchStep::Found(old(self).probes().len() as usize),
            !holds_orb && old(self).probes().len() + 1 < old(self).dir_count() ==> r
                == SearchStep::Probe((old(self).probes().len() + 1) as usize),
            !holds_orb && old(self).probes().len() + 1 == old(self).dir_count() ==> r
                == SearchStep::NotFound,
    {
        let ghost before = self.probes@;
        let i = self.next;
        self.probes = Ghost(before.push(holds_orb));
        if holds_orb {
            self.done = true;
            SearchStep::Found(i)
        } else if i + 1 < self.dir_count {
            self.next = i + 1;
            SearchStep::Probe(i + 1)
        } else {
            self.done = true;
            SearchStep::NotFound
        }
    }
}

/// Where an execution stands.
#[derive(Debug, Clone, Copy, PartialEq, Eq, Structural)]
pub enum ExecutionPhase {
    /// Looking for the orb.
    Searching,
    /// Loading the orb from the directory found.
    Loading,
    /// Running the orb in its sandbox.
    Running,
    /// Answered.
    Finished,
}

/// What came of the last action of an execution.
#[derive(Debug)]
pub enum ExecutionEvent {
    /// Whether the directory asked about holds the orb.
    Probed(bool),
    /// The orb was loaded.
    Loaded,
    /// The orb could not be loaded.
    LoadFailed,
    /// The sandbox ran the orb to its end; this much fuel was left.
    Ran(u64),
    /// The sandbox could not be made, or the run failed.
    RunFailed,
}

/// What an execution asks for next.
#[derive(Debug)]
pub enum ExecutionAction {
    /// Check whether the directory with this index holds the orb.
    Probe(usize),
    /// Load the orb from the directory with this index.
    Load(usize),
    /// Make the sandbox for the request and run the loaded orb in it.
    Launch,
    /// Answer with this response.
    Respond(LocalExecutionResponse),
    /// Answer with this error: the orb is in no search directory.
    Fail(String),
    /// Answer with the error of the load or the run that failed.
    Abort,
}

/// Whether `event` can follow the action taken in `phase`.
pub open spec fn execution_accepts(phase: ExecutionPhase, event: ExecutionEvent) -> bool {
    match phase {
        ExecutionPhase::Searching => event is Probed,
        ExecutionPhase::Loading => event is Loaded || event is LoadFailed,
        ExecutionPhase::Running => event is Ran || event is RunFailed,
        ExecutionPhase::Finished => false,
    }
}

/// One execution of a request.
pub struct Execution {
    orb_name: String,
    fuel_budget: u64,
    search: OrbSearch,
    phase: ExecutionPhase,
    dir: usize,
}

impl Execution {
    /// The name of the orb executed.
    pub closed spec fn orb_name(&self) -> Seq<char> {
        self.orb_name@
    }

    /// The fuel the sandbox is given.
    pub closed spec fn fuel_budget(&self) -> u64 {
        self.fuel_budget
    }

    /// Where the execution stands.
    pub closed spec fn phase(&self) -> ExecutionPhase {
        self.phase
    }

    /// The results of the directory checks made so far.
    pub closed spec fn probes(&self) -> Seq<bool> {
        self.search.probes()
    }

    /// The number of search directories.
    pub closed spec fn dir_count(&self) -> nat {
        self.search.dir_count()
    }

    /// The directory the orb is loaded from, once it is found.
    pub closed spec fn dir(&self) -> int {
        self.dir as int
    }

    /// The search runs while the execution searches; once past it, the
    /// directory in use is the first that holds the orb.
    pub closed spec fn wf(&self) -> bool {
        &&& self.search.wf()
        &&& (self.phase == ExecutionPhase::Searching) == !self.search.is_done()
        &&& (self.phase == ExecutionPhase::Loading || self.phase == ExecutionPhase::Running)
            ==> first_found_at(self.search.probes(), self.dir as int)
    }

    /// The phase of the execution.
    pub fn current_phase(&self) -> (r: ExecutionPhase)
        ensures
            r == self.phase(),
    {
        self.phase
    }

    /// Whether `event` can follow the action taken last.
    pub fn accepts(&self, event: &ExecutionEvent) -> (r: bool)
        ensures
            r == execution_accepts(self.phase(), *event),
    {
        match self.phase {
            ExecutionPhase::Searching => match event {
                ExecutionEvent::Probed(_) => true,
                _ => false,
            },
            ExecutionPhase::Loading => match event {
                ExecutionEvent::Loaded | ExecutionEvent::LoadFailed => true,
                _ => false,
            },
            ExecutionPhase::Running => match event {
                ExecutionEvent::Ran(_) | ExecutionEvent::RunFailed => true,
                _ => false,
            },
            ExecutionPhase::Finished => false,
        }
    }

    /// Starts the execution of `req` over `dir_count` search directories:
    /// the first directory is checked, or, with none, the orb is not found.
    pub fn start(req: &LocalExecutionRequest, dir_count: usize) -> (r: (Execution, ExecutionAction))
        ensures
            r.0.wf(),
            r.0.orb_name() == req.orb_name@,
            r.0.fuel_budget() == planned_config(req@).fuel_limit,
            r.0.dir_count() == dir_count,
            r.0.probes() == Seq::<bool>::empty(),
            dir_count > 0 ==> r.0.phase() == ExecutionPhase::Searching && (r.1 matches ExecutionAction::Probe(i) && i == 0),
            dir_count == 0 ==> r.0.phase() == ExecutionPhase::Finished && (r.1 matches ExecutionAction::Fail(m) && m@ == orb_not_found_text(req.orb_name@)),
    {
        let fuel_budget = match req.fuel_limit {
            Some(f) => f,
            None => DEFAULT_FUEL_LIMIT,
        };
        let (search, first) = OrbSearch::start(dir_count);
        let orb_name = req.orb_name.clone();
        match first {
            SearchStep::Probe(i) => (
                Execution { orb_name, fuel_budget, search, phase: ExecutionPhase::Searching, dir: 0 },
                ExecutionAction::Probe(i),
            ),
            _ => {
                let m = orb_not_found_message(req.orb_name.as_str());
                (
                    Execution { orb_name, fuel_budget, search, phase: ExecutionPhase::Finished, dir: 0 },
                    ExecutionAction::Fail(m),
                )
            },
        }
    }

    /// The next action of the execution, after `event`.
    ///
    /// The orb is loaded from the first directory that holds it; with none,
    /// the answer is the not-found error. A failed load or run is answered
    /// with its own error; a completed run with the success response and the
    /// fuel the run burned.
    pub fn step(&mut self, event: ExecutionEvent) -> (r: ExecutionAction)
        requires
            old(self).wf(),
            execution_accepts(old(self).phase(), event),
        ensures
            final(self).wf(),
            final(self).orb_name() == old(self).orb_name(),
            final(self).fuel_budget() == old(self).fuel_budget(),
            final(self).dir_count() == old(self).dir_count(),
            match event {
                ExecutionEvent::Probed(b) => {
                    &&& final(self).probes() == old(self).probes().push(b)
                    &&& match r {
                        ExecutionAction::Probe(i) => final(self).phase()
                            == ExecutionPhase::Searching && i == old(self).probes().len() + 1
                            && none_found(final(self).probes()),
                        ExecutionAction::Load(i) => final(self).phase() == ExecutionPhase::Loading
                            && i == final(self).dir() && first_found_at(
                            final(self).probes(),
                            i as int,
                        ),
                        ExecutionAction::Fail(m) => final(self).phase()
                            == ExecutionPhase::Finished && m@ == orb_not_found_text(
                            old(self).orb_name(),
                        ) && none_found(final(self).probes()) && final(self).probes().len()
                            == final(self).dir_count(),
                        _ => false,
                    }
                    &&& b ==> (r matches ExecutionAction::Load(_))
                    &&& !b && old(self).probes().len() + 1 < old(self).dir_count() ==> (r matches ExecutionAction::Probe(_))
                    &&& !b && old(self).probes().len() + 1 == old(self).dir_count() ==> (r matches ExecutionAction::Fail(_))
                },
                ExecutionEvent::Loaded => final(self).phase() == ExecutionPhase::Running
                    && r is Launch && final(self).dir() == old(self).dir(),
                ExecutionEvent::LoadFailed => final(self).phase() == ExecutionPhase::Finished
                    && r is Abort,
                ExecutionEvent::Ran(remaining) => {
                    &&& final(self).phase() == ExecutionPhase::Finished
                    &&& r matches ExecutionAction::Respond(resp)
                    &&& resp.output_json@ == success_output(old(self).orb_name())
                    &&& resp.fuel_consumed == fuel_burned(old(self).fuel_budget(), remaining)
                },
                ExecutionEvent::RunFailed => final(self).phase() == ExecutionPhase::Finished
                    && r is Abort,
            },
    {
        match event {
            ExecutionEvent::Probed(b) => {
                let next = self.search.record(b);
                match next {
                    SearchStep::Probe(i) => ExecutionAction::Probe(i),
                    SearchStep::Found(i) => {
                        self.phase = ExecutionPhase::Loading;
                        self.dir = i;
                        ExecutionAction::Load(i)
                    },
                    SearchStep::NotFound => {
                        self.phase = ExecutionPhase::Finished;
                        ExecutionAction::Fail(orb_not_found_message(self.orb_name.as_str()))
                    },
                }
            },
            ExecutionEvent::Loaded => {
                self.phase = ExecutionPhase::Running;
                ExecutionAction::Launch
            },
            ExecutionEvent::LoadFailed => {
                self.phase = ExecutionPhase::Finished;
                ExecutionAction::Abort
            },
            ExecutionEvent::Ran(remaining) => {
                self.phase = ExecutionPhase::Finished;
                let burned = fuel_consumed(self.fuel_budget, remaining);
                ExecutionAction::Respond(success_response(self.orb_name.as_str(), burned))
            },
            ExecutionEvent::RunFailed => {
                self.phase = ExecutionPhase::Finished;
                ExecutionAction::Abort
            },
        }
    }
}

/// The orb is loaded from the first directory that holds it: any two
/// directories both reported as the place of the first match are the same.
pub proof fn lemma_first_match_unique(probes: Seq<bool>, i: int, k: int)
    requires
        first_found_at(probes, i),
        first_found_at(probes, k),
    ensures
        i == k,
{
    if i < k {
        assert(!probes[i]);
    } else if k < i {
        assert(!probes[k]);
    }
}

} // verus!
