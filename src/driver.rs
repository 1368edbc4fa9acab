use vstd::prelude::*;
use crate::collaborator::Collaborator;
use crate::commit::{
    authored_by_one_of, filter_any_commits_that_do_not_match_collaborators, lemma_filter_is_exact,
    matching_commits, Commit,
};
use crate::poll::{local_now, rfc3339_of, PollWindow, Timestamp};
use crate::repository::GitRepository;
use crate::transport::{HttpRequest, TransportError};

verus! {

/// Seconds between the end of one cycle and the next poll.
pub const SLEEP_SECONDS: u64 = 300;

/// Where the cycle stands.
#[derive(Debug, Clone, Copy, PartialEq, Eq, Structural)]
pub enum CycleState {
    /// About to query for commits.
    Polling,
    /// The commit query is out.
    Fetching,
    /// An approval comment is being posted.
    Approving,
    /// Waiting for the next cycle.
    Sleeping,
    /// Ended by an error or by a stop signal; nothing follows.
    Stopped,
}

/// Why the cycle stopped. Each error ends the run: nothing is retried.
#[derive(Debug)]
pub enum CycleError {
    /// Both routes failed for one request.
    Transport(TransportError),
    /// A response did not have the expected shape.
    Deserialization(String),
    /// The window's start cannot be written as a timestamp.
    InvalidTimestamp,
}

/// What the caller does next, and reports back on.
#[derive(Debug)]
pub enum CycleAction {
    /// Send the history query, then report the commits it returned.
    FetchCommits(HttpRequest),
    /// Send the approval comment, then report whether it was posted.
    PostApproval(HttpRequest),
    /// Sleep this many seconds, then start the next cycle.
    Sleep(u64),
    /// Stop.
    Stop(CycleError),
}

/// The poll cycle: query, approve each matching commit in order, advance the
/// window, sleep, and again. There is no record of commits approved in earlier
/// cycles.
pub struct CycleDriver {
    repository: GitRepository,
    selection: Vec<Collaborator>,
    window: PollWindow,
    state: CycleState,
    queue: Vec<Commit>,
    next: usize,
    next_window: PollWindow,
}

impl CycleDriver {
    pub closed spec fn repository(&self) -> GitRepository {
        self.repository
    }

    pub closed spec fn selection(&self) -> Seq<Collaborator> {
        self.selection@
    }

    pub closed spec fn window(&self) -> PollWindow {
        self.window
    }

    pub closed spec fn state(&self) -> CycleState {
        self.state
    }

    /// The commits of this cycle that are approved, in order.
    pub closed spec fn queue(&self) -> Seq<Commit> {
        self.queue@
    }

    /// The position in `queue` of the approval in flight.
    pub closed spec fn next(&self) -> int {
        self.next as int
    }

    /// The window that the current cycle ends with.
    pub closed spec fn next_window(&self) -> PollWindow {
        self.next_window
    }

    pub closed spec fn wf(&self) -> bool {
        self.state == CycleState::Approving ==> self.next < self.queue@.len()
    }

    /// The part of the driver that no step changes.
    pub open spec fn same_setting(&self, other: &CycleDriver) -> bool {
        &&& self.repository() == other.repository()
        &&& self.selection() == other.selection()
    }

    pub fn new(repository: GitRepository, selection: Vec<Collaborator>, start: PollWindow) -> (r: Self)
        ensures
            r.wf(),
            r.repository() == repository,
            r.selection() == selection@,
            r.window() == start,
            r.state() == CycleState::Polling,
            r.queue().len() == 0,
    {
        CycleDriver {
            repository,
            selection,
            window: start,
            state: CycleState::Polling,
            queue: Vec::new(),
            next: 0,
            next_window: start,
        }
    }

    pub fn get_state(&self) -> (r: CycleState)
        ensures
            r == self.state(),
    {
        self.state
    }

    pub fn get_window(&self) -> (r: PollWindow)
        ensures
            r == self.window(),
    {
        self.window
    }

    /// Starts a cycle: the history query since the window's start.
    pub fn begin_cycle(&mut self) -> (r: CycleAction)
        requires
            old(self).wf(),
            old(self).state() == CycleState::Polling || old(self).state() == CycleState::Sleeping,
        ensures
            final(self).wf(),
            final(self).same_setting(old(self)),
            final(self).window() == old(self).window(),
            ({
                let since = old(self).window().since;
                match rfc3339_of(since.unix_seconds, since.nanos, since.offset_seconds) {
                    Some(text) => {
                        &&& final(self).state() == CycleState::Fetching
                        &&& r matches CycleAction::FetchCommits(q)
                        &&& q@ == old(self).repository().history_request_view(text)
                    },
                    None => {
                        &&& final(self).state() == CycleState::Stopped
                        &&& r matches CycleAction::Stop(CycleError::InvalidTimestamp)
                    },
                }
            }),
    {
        match self.repository.history_request(&self.window) {
            Some(q) => {
                self.state = CycleState::Fetching;
                CycleAction::FetchCommits(q)
            },
            None => {
                self.state = CycleState::Stopped;
                CycleAction::Stop(CycleError::InvalidTimestamp)
            },
        }
    }

    /// Takes what the history query returned, with `now` the time at which it
    /// returned. The commits by selected collaborators are queued for approval
    /// in the order received; the cycle ends with the window starting at `now`,
    /// whatever the commits' own times.
    pub fn on_commits_fetched_at(
        &mut self,
        fetched: Result<Vec<Commit>, CycleError>,
        now: Timestamp,
    ) -> (r: CycleAction)
        requires
            old(self).wf(),
            old(self).state() == CycleState::Fetching,
        ensures
            final(self).wf(),
            final(self).same_setting(old(self)),
            match fetched {
                Err(e) => {
                    &&& final(self).state() == CycleState::Stopped
                    &&& final(self).window() == old(self).window()
                    &&& r == CycleAction::Stop(e)
                },
                Ok(commits) => {
                    let m = matching_commits(commits@, old(self).selection());
                    &&& final(self).queue() == m
                    &&& final(self).next_window() == PollWindow { since: now }
                    &&& if m.len() == 0 {
                        &&& final(self).state() == CycleState::Sleeping
                        &&& final(self).window() == PollWindow { since: now }
                        &&& r == CycleAction::Sleep(SLEEP_SECONDS)
                    } else {
                        &&& final(self).state() == CycleState::Approving
                        &&& final(self).next() == 0
                        &&& final(self).window() == old(self).window()
                        &&& r matches CycleAction::PostApproval(q)
                        &&& q@ == old(self).repository().approval_request_view(m[0].oid())
                    }
                },
            },
    {
        match fetched {
            Err(e) => {
                self.state = CycleState::Stopped;
                CycleAction::Stop(e)
            },
            Ok(commits) => {
                let matching = filter_any_commits_that_do_not_match_collaborators(
                    commits,
                    &self.selection,
                );
                self.queue = matching;
                self.next = 0;
                self.next_window = PollWindow::new(now);
                if self.queue.len() == 0 {
                    self.window = self.next_window;
                    self.state = CycleState::Sleeping;
                    CycleAction::Sleep(SLEEP_SECONDS)
                } else {
                    self.state = CycleState::Approving;
                    CycleAction::PostApproval(self.repository.approval_request(&self.queue[0]))
                }
            },
        }
    }

    /// Takes what the history query returned, reading the clock once it has
    /// returned; see `on_commits_fetched_at`.
    pub fn on_commits_fetched(&mut self, fetched: Result<Vec<Commit>, CycleError>) -> (r: CycleAction)
        requires
            old(self).wf(),
            old(self).state() == CycleState::Fetching,
        ensures
            final(self).wf(),
            final(self).same_setting(old(self)),
            match fetched {
                Err(e) => {
                    &&& final(self).state() == CycleState::Stopped
                    &&& r == CycleAction::Stop(e)
                },
                Ok(commits) => {
                    let m = matching_commits(commits@, old(self).selection());
                    &&& final(self).queue() == m
                    &&& if m.len() == 0 {
                        &&& final(self).state() == CycleState::Sleeping
                        &&& final(self).window() == final(self).next_window()
                        &&& r == CycleAction::Sleep(SLEEP_SECONDS)
                    } else {
                        &&& final(self).state() == CycleState::Approving
                        &&& final(self).next() == 0
                        &&& r matches CycleAction::PostApproval(q)
                        &&& q@ == old(self).repository().approval_request_view(m[0].oid())
                    }
                },
            },
    {
        let now = local_now();
        self.on_commits_fetched_at(fetched, now)
    }

    /// Takes the outcome of the approval in flight. A failure stops the run; a
    /// success moves to the next queued commit, or ends the cycle by advancing
    /// the window and sleeping.
    pub fn on_approval_result(&mut self, posted: Result<(), TransportError>) -> (r: CycleAction)
        requires
            old(self).wf(),
            old(self).state() == CycleState::Approving,
        ensures
            final(self).wf(),
            final(self).same_setting(old(self)),
            final(self).queue() == old(self).queue(),
            final(self).next_window() == old(self).next_window(),
            match posted {
                Err(e) => {
                    &&& final(self).state() == CycleState::Stopped
                    &&& final(self).window() == old(self).window()
                    &&& r == CycleAction::Stop(CycleError::Transport(e))
                },
                Ok(_) => if old(self).next() + 1 == old(self).queue().len() {
                    &&& final(self).state() == CycleState::Sleeping
                    &&& final(self).window() == old(self).next_window()
                    &&& r == CycleAction::Sleep(SLEEP_SECONDS)
                } else {
                    &&& final(self).state() == CycleState::Approving
                    &&& final(self).next() == old(self).next() + 1
                    &&& final(self).window() == old(self).window()
                    &&& r matches CycleAction::PostApproval(q)
                    &&& q@ == old(self).repository().approval_request_view(
                        old(self).queue()[old(self).next() + 1].oid(),
                    )
                },
            },
    {
        match posted {
            Err(e) => {
                self.state = CycleState::Stopped;
                CycleAction::Stop(CycleError::Transport(e))
            },
            Ok(_) => {
                let queued = self.queue.len();
                self.next = self.next + 1;
                if self.next == queued {
                    self.window = self.next_window;
                    self.state = CycleState::Sleeping;
                    CycleAction::Sleep(SLEEP_SECONDS)
                } else {
                    CycleAction::PostApproval(self.repository.approval_request(&self.queue[self.next]))
                }
            },
        }
    }

    /// Stops the run; no action follows.
    pub fn stop(&mut self)
        ensures
            final(self).wf(),
            final(self).same_setting(old(self)),
            final(self).window() == old(self).window(),
            final(self).state() == CycleState::Stopped,
    {
        self.state = CycleState::Stopped;
    }
}

/// No commit is remembered from one cycle to the next: a matching commit that
/// two consecutive fetches both return (an overlap of their windows) is queued
/// for approval in both cycles, and so approved twice.
pub proof fn lemma_overlap_is_approved_twice(
    c: Commit,
    first: Seq<Commit>,
    second: Seq<Commit>,
    selection: Seq<Collaborator>,
)
    requires
        first.contains(c),
        second.contains(c),
        authored_by_one_of(c, selection),
    ensures
        matching_commits(first, selection).contains(c),
        matching_commits(second, selection).contains(c),
{
    lemma_filter_is_exact(first, selection);
    lemma_filter_is_exact(second, selection);
    let i = choose|i: int| 0 <= i < first.len() && first[i] == c;
    let j = choose|j: int| 0 <= j < second.len() && second[j] == c;
    assert(authored_by_one_of(first[i], selection));
    assert(authored_by_one_of(second[j], selection));
}

} // verus!
