//! The connect handshake of the orchestrated backend, as an explicit
//! state machine: create the client session, authenticate it, create
//! the realtime session from it, connect that, and finally issue a
//! matchmaking request. Progress is strictly forward; a failed
//! authentication or realtime connection ends the handshake with an
//! error before matchmaking is ever attempted.
//!
//! The machine is pure: a driver performs the host action that
//! `next_action` asks for, waits for the host state to settle, and
//! feeds what it observed back in through `advance`.

use vstd::prelude::*;

use crate::model::NakamaError;

verus! {

/// Where the handshake stands. The realtime session is never created
/// before the client session exists and is authenticated.
#[derive(Clone, Copy, Debug, PartialEq, Eq, Structural)]
pub enum HandshakeState {
    Disconnected,
    ClientCreated,
    Authenticated,
    RealtimeCreated,
    RealtimeConnected,
    Matchmaking,
}

/// What the driver must perform against the host before the machine
/// can advance out of the current state.
#[derive(Clone, Copy, Debug, PartialEq, Eq, Structural)]
pub enum HostAction {
    /// Initialize the client session handle.
    CreateClient,
    /// Authenticate the client session.
    Authenticate,
    /// Construct the realtime session from the authenticated client.
    CreateRealtime,
    /// Ask the realtime session to connect.
    ConnectRealtime,
    /// Issue the matchmaking request on the realtime session.
    MatchMake,
    /// Nothing is left to perform: the handshake is complete.
    Idle,
}

/// What the driver observed of the host after performing an action and
/// letting the host state settle.
#[derive(Clone, Copy, Debug, PartialEq, Eq, Structural)]
pub enum Observation {
    /// The client session handle exists.
    ClientReady,
    /// Whether an authenticated session is present.
    AuthResult(bool),
    /// The realtime session handle exists.
    RealtimeReady,
    /// Whether the realtime session reports itself connected.
    RealtimeConnectResult(bool),
    /// The matchmaking request was dispatched.
    MatchMakeIssued,
}

/// How far along the handshake a state is. Advancing never lowers it.
pub open spec fn rank(s: HandshakeState) -> int {
    match s {
        HandshakeState::Disconnected => 0,
        HandshakeState::ClientCreated => 1,
        HandshakeState::Authenticated => 2,
        HandshakeState::RealtimeCreated => 3,
        HandshakeState::RealtimeConnected => 4,
        HandshakeState::Matchmaking => 5,
    }
}

/// One transition of the handshake machine. An observation that does
/// not answer the current state's question leaves the state alone; a
/// negative answer to an authentication or connection check is fatal
/// to the handshake.
pub open spec fn spec_advance(s: HandshakeState, o: Observation) -> Result<
    HandshakeState,
    NakamaError,
> {
    match (s, o) {
        (HandshakeState::Disconnected, Observation::ClientReady) => Ok(
            HandshakeState::ClientCreated,
        ),
        (HandshakeState::ClientCreated, Observation::AuthResult(ok)) => if ok {
            Ok(HandshakeState::Authenticated)
        } else {
            Err(NakamaError::AuthFailed)
        },
        (HandshakeState::Authenticated, Observation::RealtimeReady) => Ok(
            HandshakeState::RealtimeCreated,
        ),
        (HandshakeState::RealtimeCreated, Observation::RealtimeConnectResult(ok)) => if ok {
            Ok(HandshakeState::RealtimeConnected)
        } else {
            Err(NakamaError::RealtimeConnectFailed)
        },
        (HandshakeState::RealtimeConnected, Observation::MatchMakeIssued) => Ok(
            HandshakeState::Matchmaking,
        ),
        (_, _) => Ok(s),
    }
}

/// Runs the machine over a whole sequence of observations, stopping at
/// the first fatal one.
pub open spec fn spec_run(s: HandshakeState, obs: Seq<Observation>) -> Result<
    HandshakeState,
    NakamaError,
>
    decreases obs.len(),
{
    if obs.len() == 0 {
        Ok(s)
    } else {
        match spec_advance(s, obs[0]) {
            Ok(s2) => spec_run(s2, obs.drop_first()),
            Err(e) => Err(e),
        }
    }
}

/// Law: progress is strictly forward — no observation ever moves the
/// machine to an earlier state; a check that fails ends the handshake
/// instead of rewinding it.
pub proof fn lemma_advance_never_goes_back(s: HandshakeState, o: Observation)
    ensures
        spec_advance(s, o) matches Ok(s2) ==> rank(s2) >= rank(s),
{
}

proof fn lemma_run_needs_auth(s: HandshakeState, obs: Seq<Observation>, t: HandshakeState)
    requires
        spec_run(s, obs) == Ok::<HandshakeState, NakamaError>(t),
        rank(s) < rank(HandshakeState::Authenticated),
        rank(t) >= rank(HandshakeState::Authenticated),
    ensures
        exists|i: int| 0 <= i < obs.len() && obs[i] == Observation::AuthResult(true),
    decreases obs.len(),
{
    let o = obs[0];
    if s == HandshakeState::ClientCreated && o == Observation::AuthResult(true) {
        assert(obs[0] == Observation::AuthResult(true));
    } else {
        let s2 = spec_advance(s, o)->Ok_0;
        lemma_run_needs_auth(s2, obs.drop_first(), t);
        let i = choose|i: int|
            0 <= i < obs.drop_first().len() && obs.drop_first()[i] == Observation::AuthResult(
                true,
            );
        assert(obs[i + 1] == Observation::AuthResult(true));
    }
}

proof fn lemma_run_needs_rt_connect(s: HandshakeState, obs: Seq<Observation>, t: HandshakeState)
    requires
        spec_run(s, obs) == Ok::<HandshakeState, NakamaError>(t),
        rank(s) < rank(HandshakeState::RealtimeConnected),
        rank(t) >= rank(HandshakeState::RealtimeConnected),
    ensures
        exists|i: int| 0 <= i < obs.len() && obs[i] == Observation::RealtimeConnectResult(true),
    decreases obs.len(),
{
    let o = obs[0];
    if s == HandshakeState::RealtimeCreated && o == Observation::RealtimeConnectResult(true) {
        assert(obs[0] == Observation::RealtimeConnectResult(true));
    } else {
        let s2 = spec_advance(s, o)->Ok_0;
        lemma_run_needs_rt_connect(s2, obs.drop_first(), t);
        let i = choose|i: int|
            0 <= i < obs.drop_first().len() && obs.drop_first()[i]
                == Observation::RealtimeConnectResult(true);
        assert(obs[i + 1] == Observation::RealtimeConnectResult(true));
    }
}

/// Law: a handshake run from scratch reaches `Matchmaking` only if
/// along the way the driver observed both a successful authentication
/// and a successfully connected realtime session — every intermediate
/// check held. (A negative check instead ends the run at once with
/// `AuthFailed` or `RealtimeConnectFailed`, as `spec_advance` states.)
pub proof fn lemma_matchmaking_needs_all_checks(obs: Seq<Observation>)
    requires
        spec_run(HandshakeState::Disconnected, obs) == Ok::<HandshakeState, NakamaError>(
            HandshakeState::Matchmaking,
        ),
    ensures
        exists|i: int| 0 <= i < obs.len() && obs[i] == Observation::AuthResult(true),
        exists|j: int| 0 <= j < obs.len() && obs[j] == Observation::RealtimeConnectResult(true),
{
    lemma_run_needs_auth(HandshakeState::Disconnected, obs, HandshakeState::Matchmaking);
    lemma_run_needs_rt_connect(HandshakeState::Disconnected, obs, HandshakeState::Matchmaking);
}

/// How many matchmaking requests a run accepts: the number of times it
/// crosses into `Matchmaking`. Each crossing consumes one
/// `MatchMakeIssued` observation, which the driver produces by issuing
/// one matchmaking request on the realtime session.
pub open spec fn matchmake_transitions(s: HandshakeState, obs: Seq<Observation>) -> int
    decreases obs.len(),
{
    if obs.len() == 0 {
        0
    } else {
        match spec_advance(s, obs[0]) {
            Ok(s2) => (
            if s != HandshakeState::Matchmaking && s2 == HandshakeState::Matchmaking {
                1int
            } else {
                0int
            }) + matchmake_transitions(s2, obs.drop_first()),
            Err(_) => 0,
        }
    }
}

proof fn lemma_run_monotonic(s: HandshakeState, obs: Seq<Observation>, t: HandshakeState)
    requires
        spec_run(s, obs) == Ok::<HandshakeState, NakamaError>(t),
    ensures
        rank(t) >= rank(s),
    decreases obs.len(),
{
    if obs.len() > 0 {
        let s2 = spec_advance(s, obs[0])->Ok_0;
        lemma_run_monotonic(s2, obs.drop_first(), t);
    }
}

proof fn lemma_run_absorbing(obs: Seq<Observation>)
    ensures
        spec_run(HandshakeState::Matchmaking, obs) == Ok::<HandshakeState, NakamaError>(
            HandshakeState::Matchmaking,
        ),
    decreases obs.len(),
{
    if obs.len() > 0 {
        lemma_run_absorbing(obs.drop_first());
    }
}

proof fn lemma_matchmake_count(s: HandshakeState, obs: Seq<Observation>, t: HandshakeState)
    requires
        spec_run(s, obs) == Ok::<HandshakeState, NakamaError>(t),
    ensures
        matchmake_transitions(s, obs) == (
        if s != HandshakeState::Matchmaking && t == HandshakeState::Matchmaking {
            1int
        } else {
            0int
        }),
    decreases obs.len(),
{
    if obs.len() > 0 {
        let s2 = spec_advance(s, obs[0])->Ok_0;
        lemma_matchmake_count(s2, obs.drop_first(), t);
        lemma_run_monotonic(s2, obs.drop_first(), t);
    }
}

proof fn lemma_matchmake_count_on_error(s: HandshakeState, obs: Seq<Observation>)
    requires
        spec_run(s, obs) is Err,
    ensures
        matchmake_transitions(s, obs) == 0,
    decreases obs.len(),
{
    if obs.len() > 0 && spec_advance(s, obs[0]) is Ok {
        let s2 = spec_advance(s, obs[0])->Ok_0;
        if s != HandshakeState::Matchmaking && s2 == HandshakeState::Matchmaking {
            lemma_run_absorbing(obs.drop_first());
        }
        lemma_matchmake_count_on_error(s2, obs.drop_first());
    }
}

/// Law: a handshake run from scratch accepts exactly one matchmaking
/// request when it ends in `Matchmaking`, and none when it ends
/// anywhere short of it — `Matchmaking` is absorbing, so the crossing
/// can never repeat. A driver that issues one host request per
/// `MatchMake` action it is asked to perform therefore issues exactly
/// one during a successful connect, and none during a failed one (see
/// `lemma_no_matchmake_on_failure`).
pub proof fn lemma_matchmake_accepted_once(obs: Seq<Observation>, t: HandshakeState)
    requires
        spec_run(HandshakeState::Disconnected, obs) == Ok::<HandshakeState, NakamaError>(t),
    ensures
        matchmake_transitions(HandshakeState::Disconnected, obs) == (
        if t == HandshakeState::Matchmaking {
            1int
        } else {
            0int
        }),
{
    lemma_matchmake_count(HandshakeState::Disconnected, obs, t);
}

/// Law: a handshake run that ends with an error accepts no matchmaking
/// request at all — the failure comes before the crossing.
pub proof fn lemma_no_matchmake_on_failure(obs: Seq<Observation>, e: NakamaError)
    requires
        spec_run(HandshakeState::Disconnected, obs) == Err::<HandshakeState, NakamaError>(e),
    ensures
        matchmake_transitions(HandshakeState::Disconnected, obs) == 0,
{
    lemma_matchmake_count_on_error(HandshakeState::Disconnected, obs);
}

/// Law: the realtime session is never created before the client
/// session exists and is authenticated — a run from scratch stands in
/// `RealtimeCreated` or beyond only if the driver observed a
/// successful authentication on the way there.
pub proof fn lemma_realtime_needs_auth(obs: Seq<Observation>, t: HandshakeState)
    requires
        spec_run(HandshakeState::Disconnected, obs) == Ok::<HandshakeState, NakamaError>(t),
        rank(t) >= rank(HandshakeState::RealtimeCreated),
    ensures
        exists|i: int| 0 <= i < obs.len() && obs[i] == Observation::AuthResult(true),
{
    lemma_run_needs_auth(HandshakeState::Disconnected, obs, t);
}

/// What the driver must perform next in a given state.
pub fn next_action(s: HandshakeState) -> (r: HostAction)
    ensures
        r == (match s {
            HandshakeState::Disconnected => HostAction::CreateClient,
            HandshakeState::ClientCreated => HostAction::Authenticate,
            HandshakeState::Authenticated => HostAction::CreateRealtime,
            HandshakeState::RealtimeCreated => HostAction::ConnectRealtime,
            HandshakeState::RealtimeConnected => HostAction::MatchMake,
            HandshakeState::Matchmaking => HostAction::Idle,
        }),
{
    match s {
        HandshakeState::Disconnected => HostAction::CreateClient,
        HandshakeState::ClientCreated => HostAction::Authenticate,
        HandshakeState::Authenticated => HostAction::CreateRealtime,
        HandshakeState::RealtimeCreated => HostAction::ConnectRealtime,
        HandshakeState::RealtimeConnected => HostAction::MatchMake,
        HandshakeState::Matchmaking => HostAction::Idle,
    }
}

/// Feeds one observation to the machine.
pub fn advance(s: HandshakeState, o: Observation) -> (r: Result<HandshakeState, NakamaError>)
    ensures
        r == spec_advance(s, o),
{
    match (s, o) {
        (HandshakeState::Disconnected, Observation::ClientReady) => Ok(
            HandshakeState::ClientCreated,
        ),
        (HandshakeState::ClientCreated, Observation::AuthResult(ok)) => if ok {
            Ok(HandshakeState::Authenticated)
        } else {
            Err(NakamaError::AuthFailed)
        },
        (HandshakeState::Authenticated, Observation::RealtimeReady) => Ok(
            HandshakeState::RealtimeCreated,
        ),
        (HandshakeState::RealtimeCreated, Observation::RealtimeConnectResult(ok)) => if ok {
            Ok(HandshakeState::RealtimeConnected)
        } else {
            Err(NakamaError::RealtimeConnectFailed)
        },
        (HandshakeState::RealtimeConnected, Observation::MatchMakeIssued) => Ok(
            HandshakeState::Matchmaking,
        ),
        (_, _) => Ok(s),
    }
}

/// Runs the machine over every observation the driver gathered,
/// stopping at the first fatal one.
pub fn run_handshake(s: HandshakeState, observations: &Vec<Observation>) -> (r: Result<
    HandshakeState,
    NakamaError,
>)
    ensures
        r == spec_run(s, observations@),
{
    let mut cur = s;
    let mut i: usize = 0;
    proof {
        assert(observations@.skip(0) =~= observations@);
    }
    while i < observations.len()
        invariant
            0 <= i <= observations@.len(),
            spec_run(s, observations@) == spec_run(cur, observations@.skip(i as int)),
        decreases observations@.len() - i,
    {
        proof {
            assert(observations@.skip(i as int)[0] == observations@[i as int]);
            assert(observations@.skip(i as int).drop_first() =~= observations@.skip(i + 1));
        }
        match advance(cur, observations[i]) {
            Ok(s2) => {
                cur = s2;
            },
            Err(e) => {
                return Err(e);
            },
        }
        i = i + 1;
    }
    proof {
        assert(observations@.skip(i as int) =~= Seq::<Observation>::empty());
    }
    Ok(cur)
}

} // verus!
