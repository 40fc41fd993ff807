//! The session lifecycle: a phase tag and a count of live handles, packed into one machine word
//! that callers mutate only by compare-and-swap.
use vstd::prelude::*;

verus! {

/// Lifecycle phase of the process-wide session.
#[derive(Clone, Copy, Debug, PartialEq, Eq, Structural)]
pub enum Phase {
    Disabled,
    Enabling,
    Enabled,
    Disabling,
}

/// The two-bit tag of a phase inside the packed word.
pub open spec fn phase_tag(p: Phase) -> nat {
    match p {
        Phase::Disabled => 0,
        Phase::Enabling => 1,
        Phase::Enabled => 2,
        Phase::Disabling => 3,
    }
}

/// The phase that a two-bit tag stands for.
pub open spec fn tag_phase(t: nat) -> Phase {
    if t == 0 {
        Phase::Disabled
    } else if t == 1 {
        Phase::Enabling
    } else if t == 2 {
        Phase::Enabled
    } else {
        Phase::Disabling
    }
}

/// The largest number of live handles that the packed word can count.
pub const MAX_HANDLES: usize = (usize::MAX - 3) / 4;

/// A session state: the phase and the number of live handles.
#[derive(Clone, Copy, Debug, PartialEq, Eq, Structural)]
pub struct SessionState {
    pub phase: Phase,
    pub count: usize,
}

impl SessionState {
    /// The state in which a process starts: disabled, with no handles.
    pub open spec fn initial() -> SessionState {
        SessionState { phase: Phase::Disabled, count: 0 }
    }

    /// A state that fits in the packed word.
    pub open spec fn fits(self) -> bool {
        self.count <= MAX_HANDLES
    }

    /// The packed word of this state: the count above the two tag bits.
    pub open spec fn word(self) -> nat {
        self.count as nat * 4 + phase_tag(self.phase)
    }

    /// The state that a packed word holds.
    pub open spec fn of_word(w: nat) -> SessionState {
        SessionState { phase: tag_phase(w % 4), count: (w / 4) as usize }
    }
}

/// Packs a state into the word that the shared atomic holds.
pub fn encode_state(s: SessionState) -> (w: usize)
    requires
        s.fits(),
    ensures
        w as nat == s.word(),
        SessionState::of_word(w as nat) == s,
{
    let tag: usize = match s.phase {
        Phase::Disabled => 0,
        Phase::Enabling => 1,
        Phase::Enabled => 2,
        Phase::Disabling => 3,
    };
    let w = s.count * 4 + tag;
    assert((s.count as nat * 4 + tag as nat) % 4 == tag as nat && (s.count as nat * 4 + tag as nat)
        / 4 == s.count as nat) by (nonlinear_arith)
        requires
            tag < 4,
    ;
    w
}

/// Reads the state out of a packed word.
pub fn decode_state(w: usize) -> (s: SessionState)
    ensures
        s == SessionState::of_word(w as nat),
        s.fits(),
        s.word() == w as nat,
{
    let tag = w % 4;
    let phase = if tag == 0 {
        Phase::Disabled
    } else if tag == 1 {
        Phase::Enabling
    } else if tag == 2 {
        Phase::Enabled
    } else {
        Phase::Disabling
    };
    let s = SessionState { phase, count: w / 4 };
    assert(s.word() == w as nat);
    s
}


/// What a caller of `start` does after reading the state.
#[derive(Clone, Copy, Debug, PartialEq, Eq, Structural)]
pub enum StartStep {
    /// Swap the observed state for this one; on success the caller alone performs the backend
    /// start-up and then publishes the `Enabled` phase.
    Claim(SessionState),
    /// Swap the observed state for this one; on success the caller holds a handle as soon as the
    /// phase reads `Enabled`.
    Join(SessionState),
    /// Another caller is mid-transition: spin, read again and retry.
    Wait,
}

/// What the owner of a handle does after reading the state, when it gives the handle up.
#[derive(Clone, Copy, Debug, PartialEq, Eq, Structural)]
pub enum ReleaseStep {
    /// Swap the observed state for this one; nothing else to do.
    Decrement(SessionState),
    /// Swap the observed state for this one; on success the caller alone performs the backend
    /// shutdown and then retires the session.
    Shutdown(SessionState),
    /// The observed state holds no handle to give up: nothing to do.
    Ignore,
}

/// The decision of `start` on an observed state.
pub open spec fn start_step(s: SessionState) -> StartStep {
    match s.phase {
        Phase::Disabled => StartStep::Claim(SessionState { phase: Phase::Enabling, count: 1 }),
        Phase::Enabling | Phase::Enabled => if s.count < MAX_HANDLES {
            StartStep::Join(SessionState { phase: s.phase, count: (s.count + 1) as usize })
        } else {
            StartStep::Wait
        },
        Phase::Disabling => StartStep::Wait,
    }
}

/// The decision of `running` on an observed state: a new handle only while enabled.
pub open spec fn running_step(s: SessionState) -> Option<SessionState> {
    if s.phase == Phase::Enabled && s.count < MAX_HANDLES {
        Some(SessionState { phase: Phase::Enabled, count: (s.count + 1) as usize })
    } else {
        None
    }
}

/// The state that the start-up winner publishes once the backend is initialized.
pub open spec fn publish_step(s: SessionState) -> Option<SessionState> {
    if s.phase == Phase::Enabling {
        Some(SessionState { phase: Phase::Enabled, count: s.count })
    } else {
        None
    }
}

/// The decision of a handle's release on an observed state.
pub open spec fn release_step(s: SessionState) -> ReleaseStep {
    if s.phase == Phase::Enabled && s.count > 1 {
        ReleaseStep::Decrement(SessionState { phase: Phase::Enabled, count: (s.count - 1) as usize })
    } else if s.phase == Phase::Enabled && s.count == 1 {
        ReleaseStep::Shutdown(SessionState { phase: Phase::Disabling, count: 0 })
    } else {
        ReleaseStep::Ignore
    }
}

/// The state that the shutdown winner stores once the backend is finalized.
pub open spec fn retire_step(s: SessionState) -> Option<SessionState> {
    if s.phase == Phase::Disabling {
        Some(SessionState::initial())
    } else {
        None
    }
}

/// A handle on a running session. Holding one means that the backend has been initialized.
pub struct Client {
    _private: (),
}

impl Client {
    /// Decides one attempt of `start` on the state just read from the shared word.
    pub fn start(observed: SessionState) -> (r: StartStep)
        ensures
            r == start_step(observed),
    {
        match observed.phase {
            Phase::Disabled => StartStep::Claim(SessionState { phase: Phase::Enabling, count: 1 }),
            Phase::Enabling | Phase::Enabled => {
                if observed.count < MAX_HANDLES {
                    StartStep::Join(SessionState { phase: observed.phase, count: observed.count + 1 })
                } else {
                    StartStep::Wait
                }
            },
            Phase::Disabling => StartStep::Wait,
        }
    }

    /// Decides `running` on the state just read: the state to swap in for a new handle, only if
    /// the session is already enabled. Never starts anything.
    pub fn running(observed: SessionState) -> (r: Option<SessionState>)
        ensures
            r == running_step(observed),
    {
        if Self::is_running(observed) && observed.count < MAX_HANDLES {
            Some(SessionState { phase: Phase::Enabled, count: observed.count + 1 })
        } else {
            None
        }
    }

    /// Whether the state just read is that of a running session.
    pub fn is_running(observed: SessionState) -> (r: bool)
        ensures
            r == (observed.phase == Phase::Enabled),
    {
        match observed.phase {
            Phase::Enabled => true,
            _ => false,
        }
    }

    /// The state to publish after the backend start-up has completed.
    pub fn publish(observed: SessionState) -> (r: Option<SessionState>)
        ensures
            r == publish_step(observed),
    {
        match observed.phase {
            Phase::Enabling => Some(SessionState { phase: Phase::Enabled, count: observed.count }),
            _ => None,
        }
    }

    /// Decides the release of one handle on the state just read.
    pub fn release(observed: SessionState) -> (r: ReleaseStep)
        ensures
            r == release_step(observed),
    {
        if Self::is_running(observed) && observed.count > 1 {
            ReleaseStep::Decrement(SessionState { phase: Phase::Enabled, count: observed.count - 1 })
        } else if Self::is_running(observed) && observed.count == 1 {
            ReleaseStep::Shutdown(SessionState { phase: Phase::Disabling, count: 0 })
        } else {
            ReleaseStep::Ignore
        }
    }

    /// The state to store after the backend shutdown has completed.
    pub fn retire(observed: SessionState) -> (r: Option<SessionState>)
        ensures
            r == retire_step(observed),
    {
        match observed.phase {
            Phase::Disabling => Some(SessionState { phase: Phase::Disabled, count: 0 }),
            _ => None,
        }
    }

    /// A handle, granted only on a state that reads `Enabled`.
    pub fn granted(observed: SessionState) -> (r: Option<Client>)
        ensures
            r.is_some() == (observed.phase == Phase::Enabled),
    {
        if Self::is_running(observed) {
            Some(Client { _private: () })
        } else {
            None
        }
    }
}


/// One successful transition of the shared word, as some thread performs it.
#[derive(Clone, Copy, Debug, PartialEq, Eq, Structural)]
pub enum Move {
    /// The swap that `start` decides.
    Start,
    /// The start-up winner's publication of `Enabled`.
    Publish,
    /// The swap that the release of a handle decides.
    Release,
    /// The shutdown winner's return to `Disabled`.
    Retire,
}

/// The state after one move.
pub open spec fn apply(s: SessionState, m: Move) -> SessionState {
    match m {
        Move::Start => match start_step(s) {
            StartStep::Claim(n) => n,
            StartStep::Join(n) => n,
            StartStep::Wait => s,
        },
        Move::Publish => match publish_step(s) {
            Some(n) => n,
            None => s,
        },
        Move::Release => match release_step(s) {
            ReleaseStep::Decrement(n) => n,
            ReleaseStep::Shutdown(n) => n,
            ReleaseStep::Ignore => s,
        },
        Move::Retire => match retire_step(s) {
            Some(n) => n,
            None => s,
        },
    }
}

/// Whether a move obliges its thread to start the backend up.
pub open spec fn starts_backend(s: SessionState, m: Move) -> bool {
    m == Move::Start && start_step(s) is Claim
}

/// Whether a move obliges its thread to shut the backend down.
pub open spec fn stops_backend(s: SessionState, m: Move) -> bool {
    m == Move::Release && release_step(s) is Shutdown
}

/// The state after a sequence of moves.
pub open spec fn run(s: SessionState, moves: Seq<Move>) -> SessionState
    decreases moves.len(),
{
    if moves.len() == 0 {
        s
    } else {
        apply(run(s, moves.drop_last()), moves.last())
    }
}

/// How many backend start-ups a sequence of moves performs.
pub open spec fn startups(s: SessionState, moves: Seq<Move>) -> nat
    decreases moves.len(),
{
    if moves.len() == 0 {
        0
    } else {
        startups(s, moves.drop_last()) + if starts_backend(run(s, moves.drop_last()), moves.last()) {
            1nat
        } else {
            0nat
        }
    }
}

/// How many backend shutdowns a sequence of moves performs.
pub open spec fn shutdowns(s: SessionState, moves: Seq<Move>) -> nat
    decreases moves.len(),
{
    if moves.len() == 0 {
        0
    } else {
        shutdowns(s, moves.drop_last()) + if stops_backend(run(s, moves.drop_last()), moves.last()) {
            1nat
        } else {
            0nat
        }
    }
}

/// `k` copies of one move.
pub open spec fn repeat(m: Move, k: nat) -> Seq<Move> {
    Seq::new(k, |_i: int| m)
}

proof fn lemma_race_invariant(moves: Seq<Move>)
    requires
        forall|i: int| 0 <= i < moves.len() ==> (moves[i] == Move::Start || moves[i] == Move::Publish),
    ensures
        run(SessionState::initial(), moves).phase != Phase::Disabling,
        startups(SessionState::initial(), moves) <= 1,
        (startups(SessionState::initial(), moves) == 0) == (run(SessionState::initial(), moves).phase
            == Phase::Disabled),
        (exists|i: int| 0 <= i < moves.len() && moves[i] == Move::Start) ==> startups(
            SessionState::initial(),
            moves,
        ) == 1,
    decreases moves.len(),
{
    let init = SessionState::initial();
    if moves.len() > 0 {
        let prefix = moves.drop_last();
        assert forall|i: int| 0 <= i < prefix.len() implies (prefix[i] == Move::Start || prefix[i]
            == Move::Publish) by {
            assert(prefix[i] == moves[i]);
        }
        lemma_race_invariant(prefix);
        if exists|i: int| 0 <= i < moves.len() && moves[i] == Move::Start {
            let i = choose|i: int| 0 <= i < moves.len() && moves[i] == Move::Start;
            if i < moves.len() - 1 {
                assert(prefix[i] == Move::Start);
            }
        }
    }
}

/// However many callers race through `start`, together with the start-up winner's publication,
/// the backend is started up at most once, and exactly once as soon as anyone has called `start`.
/// The session reads `Enabled`, the only phase in which a handle is granted, only after that
/// start-up.
pub proof fn lemma_start_is_idempotent(moves: Seq<Move>)
    requires
        forall|i: int| 0 <= i < moves.len() ==> (moves[i] == Move::Start || moves[i] == Move::Publish),
    ensures
        startups(SessionState::initial(), moves) <= 1,
        (exists|i: int| 0 <= i < moves.len() && moves[i] == Move::Start) ==> startups(
            SessionState::initial(),
            moves,
        ) == 1,
        run(SessionState::initial(), moves).phase == Phase::Enabled ==> startups(
            SessionState::initial(),
            moves,
        ) == 1,
{
    lemma_race_invariant(moves);
}

proof fn lemma_run_append(s: SessionState, a: Seq<Move>, b: Seq<Move>)
    ensures
        run(s, a + b) == run(run(s, a), b),
        startups(s, a + b) == startups(s, a) + startups(run(s, a), b),
        shutdowns(s, a + b) == shutdowns(s, a) + shutdowns(run(s, a), b),
    decreases b.len(),
{
    if b.len() == 0 {
        assert(a + b =~= a);
    } else {
        assert((a + b).drop_last() =~= a + b.drop_last());
        lemma_run_append(s, a, b.drop_last());
    }
}

proof fn lemma_run_starts(k: nat)
    requires
        1 <= k <= MAX_HANDLES,
    ensures
        run(SessionState::initial(), repeat(Move::Start, k)) == (SessionState {
            phase: Phase::Enabling,
            count: k as usize,
        }),
        startups(SessionState::initial(), repeat(Move::Start, k)) == 1,
        shutdowns(SessionState::initial(), repeat(Move::Start, k)) == 0,
    decreases k,
{
    assert(repeat(Move::Start, k).drop_last() =~= repeat(Move::Start, (k - 1) as nat));
    assert(repeat(Move::Start, k).last() == Move::Start);
    let init = SessionState::initial();
    let prev = repeat(Move::Start, (k - 1) as nat);
    if k > 1 {
        lemma_run_starts((k - 1) as nat);
        assert(!starts_backend(run(init, prev), Move::Start));
        assert(!stops_backend(run(init, prev), Move::Start));
    } else {
        assert(prev =~= Seq::<Move>::empty());
        assert(run(init, prev) == init);
        assert(startups(init, prev) == 0);
        assert(shutdowns(init, prev) == 0);
        assert(starts_backend(run(init, prev), Move::Start));
    }
}

proof fn lemma_run_releases(n: nat, j: nat)
    requires
        j <= n <= MAX_HANDLES,
        n >= 1,
    ensures
        j < n ==> run(SessionState { phase: Phase::Enabled, count: n as usize }, repeat(Move::Release, j))
            == (SessionState { phase: Phase::Enabled, count: (n - j) as usize }),
        j < n ==> shutdowns(
            SessionState { phase: Phase::Enabled, count: n as usize },
            repeat(Move::Release, j),
        ) == 0,
        j == n ==> run(SessionState { phase: Phase::Enabled, count: n as usize }, repeat(Move::Release, j))
            == (SessionState { phase: Phase::Disabling, count: 0 }),
        j == n ==> shutdowns(
            SessionState { phase: Phase::Enabled, count: n as usize },
            repeat(Move::Release, j),
        ) == 1,
        startups(SessionState { phase: Phase::Enabled, count: n as usize }, repeat(Move::Release, j))
            == 0,
    decreases j,
{
    if j == 0 {
        assert(repeat(Move::Release, j) =~= Seq::<Move>::empty());
    } else {
        assert(repeat(Move::Release, j).drop_last() =~= repeat(Move::Release, (j - 1) as nat));
        assert(repeat(Move::Release, j).last() == Move::Release);
        lemma_run_releases(n, (j - 1) as nat);
    }
}

/// Start `k` handles, let the start-up winner publish, then release `j` of them. While any of the
/// `k` handles lives the session stays enabled and the backend is not shut down; the release of
/// the last one shuts it down, exactly once, and the backend was started up exactly once.
pub proof fn lemma_last_release_shuts_down(k: nat, j: nat)
    requires
        1 <= k <= MAX_HANDLES,
        j <= k,
    ensures
        ({
            let moves = repeat(Move::Start, k) + seq![Move::Publish] + repeat(Move::Release, j);
            &&& startups(SessionState::initial(), moves) == 1
            &&& j < k ==> run(SessionState::initial(), moves) == (SessionState {
                phase: Phase::Enabled,
                count: (k - j) as usize,
            })
            &&& j < k ==> shutdowns(SessionState::initial(), moves) == 0
            &&& j == k ==> run(SessionState::initial(), moves) == (SessionState {
                phase: Phase::Disabling,
                count: 0,
            })
            &&& j == k ==> shutdowns(SessionState::initial(), moves) == 1
        }),
{
    let init = SessionState::initial();
    let starts = repeat(Move::Start, k);
    let head = starts + seq![Move::Publish];
    lemma_run_starts(k);
    lemma_run_append(init, starts, seq![Move::Publish]);
    let one = seq![Move::Publish];
    assert(one.drop_last() =~= Seq::<Move>::empty());
    let enabled = SessionState { phase: Phase::Enabled, count: k as usize };
    assert(run(run(init, starts), one) == enabled);
    assert(startups(run(init, starts), Seq::<Move>::empty()) == 0);
    assert(shutdowns(run(init, starts), Seq::<Move>::empty()) == 0);
    assert(startups(run(init, starts), one) == 0);
    assert(shutdowns(run(init, starts), one) == 0);
    assert(run(init, head) == enabled);
    lemma_run_append(init, head, repeat(Move::Release, j));
    lemma_run_releases(k, j);
}

/// How many handles a sequence of moves leaves alive: one more for each start that swaps,
/// one fewer for each release that swaps.
pub open spec fn live_handles(s: SessionState, moves: Seq<Move>) -> int
    decreases moves.len(),
{
    if moves.len() == 0 {
        0
    } else {
        let before = run(s, moves.drop_last());
        live_handles(s, moves.drop_last()) + match moves.last() {
            Move::Start => if start_step(before) is Wait {
                0int
            } else {
                1int
            },
            Move::Release => if release_step(before) is Ignore {
                0int
            } else {
                -1int
            },
            _ => 0int,
        }
    }
}

/// Whether the backend is started in a phase: from the swap that claims the start-up to the
/// swap that decides the shutdown.
pub open spec fn backend_up(p: Phase) -> bool {
    p == Phase::Enabling || p == Phase::Enabled
}

/// Whatever the interleaving of starts, publications, releases and retirements, the count in the
/// word is the number of live handles; the backend is up exactly while some handle lives; and
/// once no handle is left, every start-up has been matched by exactly one shutdown, performed by
/// the release of the last handle.
pub proof fn lemma_handles_are_counted(moves: Seq<Move>)
    ensures
        run(SessionState::initial(), moves).count == live_handles(SessionState::initial(), moves),
        backend_up(run(SessionState::initial(), moves).phase) == (live_handles(
            SessionState::initial(),
            moves,
        ) > 0),
        live_handles(SessionState::initial(), moves) > 0 ==> startups(SessionState::initial(), moves)
            == shutdowns(SessionState::initial(), moves) + 1,
        live_handles(SessionState::initial(), moves) == 0 ==> startups(SessionState::initial(), moves)
            == shutdowns(SessionState::initial(), moves),
    decreases moves.len(),
{
    if moves.len() > 0 {
        lemma_handles_are_counted(moves.drop_last());
    }
}

} // verus!
