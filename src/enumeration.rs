use vstd::prelude::*;

use crate::error::{OsError, E_UNEXPECTED};
use crate::lifecycle::WinMix;
use crate::path::{is_clean_path, path_from_query, query_path, PathQuery};

verus! {

/// One audio session attributed to a process: its id, its best-effort
/// executable path, and the handle that controls its volume.
pub struct Session<V> {
    /// The id of the process that controls this audio session.
    pub pid: u32,
    /// The executable path of that process, or empty if it could not be read.
    pub path: String,
    /// The volume control bound to this session.
    pub vol: V,
}

/// What a session contributes to the model of an enumeration.
pub open spec fn session_record<V>(s: Session<V>) -> (u32, Seq<char>, V) {
    (s.pid, s.path@, s.vol)
}

/// The model of a list of sessions.
pub open spec fn records_of<V>(sessions: Seq<Session<V>>) -> Seq<(u32, Seq<char>, V)> {
    sessions.map_values(|s: Session<V>| session_record(s))
}

/// Where an enumeration stands.
#[derive(Clone, Copy, Debug, PartialEq, Eq, Structural)]
pub enum Stage {
    /// Waiting for the number of active output endpoints.
    Listing,
    /// Waiting for the number of sessions of the current endpoint.
    Opening,
    /// Waiting for the process id of the current session.
    Reading,
    /// Waiting for the executable path query of the current session's process.
    Resolving,
    /// Waiting for the volume control of the current session.
    Attaching,
    /// Every session of every endpoint has been visited.
    Finished,
    /// A platform call failed; the partial result is discarded.
    Failed(OsError),
}

/// The platform work that the caller must do next, and answer with an `Event`.
#[derive(Clone, Copy, Debug, PartialEq, Eq, Structural)]
pub enum Action {
    /// List the active output endpoints; answer `Count`.
    ListEndpoints,
    /// Open the session list of this endpoint; answer `Count`.
    OpenEndpoint { endpoint: u32 },
    /// Read the owning process id of this session; answer `ProcessId`.
    ReadProcessId { endpoint: u32, session: u32 },
    /// Query the executable path of this process; answer `ModulePath`.
    ResolvePath { pid: u32 },
    /// Obtain the volume control of this session; answer `Volume`.
    AttachVolume { endpoint: u32, session: u32 },
    /// Nothing is left to do: take the outcome with `finish`.
    Done,
}

/// The answer to an `Action`.
pub enum Event<V> {
    /// The requested platform call failed.
    Failed(OsError),
    /// The number of endpoints, or of sessions of the current endpoint.
    Count(u32),
    /// The owning process id of the current session.
    ProcessId(u32),
    /// What the executable path query reported.
    ModulePath(PathQuery),
    /// The volume control of the current session.
    Volume(V),
}

/// The error that an event ends an enumeration with, when it is not the
/// answer that was asked for.
pub open spec fn failure_of<V>(e: Event<V>) -> OsError {
    match e {
        Event::Failed(err) => err,
        _ => OsError { code: E_UNEXPECTED },
    }
}

/// The counters of an enumeration: the stage, the endpoint and session being
/// visited, and the process id of the session being attached.
#[derive(Clone, Copy, Debug, PartialEq, Eq, Structural)]
pub struct Position {
    pub stage: Stage,
    pub endpoint_count: u32,
    pub endpoint: u32,
    pub session_count: u32,
    pub session: u32,
    pub pid: u32,
}

impl Position {
    pub open spec fn wf(self) -> bool {
        &&& self.endpoint <= self.endpoint_count
        &&& self.session <= self.session_count
        &&& (self.stage is Opening || self.stage is Reading || self.stage is Resolving
            || self.stage is Attaching) ==> self.endpoint < self.endpoint_count
        &&& (self.stage is Reading || self.stage is Resolving || self.stage is Attaching)
            ==> self.session < self.session_count
        &&& (self.stage is Resolving || self.stage is Attaching) ==> self.pid != 0
    }

    /// Visits endpoint `self.endpoint`, or finishes when none is left.
    pub open spec fn spec_enter_endpoint(self) -> Position {
        if self.endpoint < self.endpoint_count {
            Position { stage: Stage::Opening, ..self }
        } else {
            Position { stage: Stage::Finished, ..self }
        }
    }

    /// Visits session `self.session` of the current endpoint, or moves on to
    /// the next endpoint when none is left.
    pub open spec fn spec_enter_session(self) -> Position {
        if self.session < self.session_count {
            Position { stage: Stage::Reading, ..self }
        } else {
            Position { endpoint: (self.endpoint + 1) as u32, ..self }.spec_enter_endpoint()
        }
    }

    pub open spec fn spec_action(self) -> Action {
        match self.stage {
            Stage::Listing => Action::ListEndpoints,
            Stage::Opening => Action::OpenEndpoint { endpoint: self.endpoint },
            Stage::Reading => Action::ReadProcessId { endpoint: self.endpoint, session: self.session },
            Stage::Resolving => Action::ResolvePath { pid: self.pid },
            Stage::Attaching => Action::AttachVolume {
                endpoint: self.endpoint,
                session: self.session,
            },
            _ => Action::Done,
        }
    }

    fn enter_endpoint(self) -> (r: Position)
        requires
            self.endpoint <= self.endpoint_count,
        ensures
            r == self.spec_enter_endpoint(),
    {
        if self.endpoint < self.endpoint_count {
            Position { stage: Stage::Opening, ..self }
        } else {
            Position { stage: Stage::Finished, ..self }
        }
    }

    fn enter_session(self) -> (r: Position)
        requires
            self.endpoint < self.endpoint_count,
            self.session <= self.session_count,
        ensures
            r == self.spec_enter_session(),
    {
        if self.session < self.session_count {
            Position { stage: Stage::Reading, ..self }
        } else {
            Position { endpoint: self.endpoint + 1, ..self }.enter_endpoint()
        }
    }

    fn action(self) -> (r: Action)
        ensures
            r == self.spec_action(),
    {
        match self.stage {
            Stage::Listing => Action::ListEndpoints,
            Stage::Opening => Action::OpenEndpoint { endpoint: self.endpoint },
            Stage::Reading => Action::ReadProcessId { endpoint: self.endpoint, session: self.session },
            Stage::Resolving => Action::ResolvePath { pid: self.pid },
            Stage::Attaching => Action::AttachVolume {
                endpoint: self.endpoint,
                session: self.session,
            },
            _ => Action::Done,
        }
    }
}

/// The model of an enumeration: its counters, the path resolved for the
/// session being attached, and the sessions collected so far.
pub struct EnumerationView<V> {
    pub pos: Position,
    pub path: Seq<char>,
    pub records: Seq<(u32, Seq<char>, V)>,
}

/// Every record has a real process id and a clean path.
pub open spec fn records_ok<V>(records: Seq<(u32, Seq<char>, V)>) -> bool {
    forall|i: int|
        0 <= i < records.len() ==> #[trigger] records[i].0 != 0 && is_clean_path(records[i].1)
}

impl<V> EnumerationView<V> {
    /// A fresh enumeration, about to list the endpoints.
    pub open spec fn start() -> EnumerationView<V> {
        EnumerationView {
            pos: Position {
                stage: Stage::Listing,
                endpoint_count: 0,
                endpoint: 0,
                session_count: 0,
                session: 0,
                pid: 0,
            },
            path: Seq::empty(),
            records: Seq::empty(),
        }
    }

    /// Every collected session has a real process id and a clean path.
    pub open spec fn wf(self) -> bool {
        &&& self.pos.wf()
        &&& self.pos.stage is Attaching ==> is_clean_path(self.path)
        &&& records_ok(self.records)
    }

    pub open spec fn with_pos(self, pos: Position) -> EnumerationView<V> {
        EnumerationView { pos, path: self.path, records: self.records }
    }

    /// Ends the enumeration with the error that `e` carries.
    pub open spec fn failed(self, e: Event<V>) -> EnumerationView<V> {
        self.with_pos(Position { stage: Stage::Failed(failure_of(e)), ..self.pos })
    }

    /// Listing: the endpoint count starts the walk at the first endpoint.
    pub open spec fn on_listing(self, e: Event<V>) -> EnumerationView<V> {
        match e {
            Event::Count(n) => self.with_pos(
                Position { endpoint_count: n, endpoint: 0, ..self.pos }.spec_enter_endpoint(),
            ),
            _ => self.failed(e),
        }
    }

    /// Opening: the session count starts the walk at the endpoint's first session.
    pub open spec fn on_opening(self, e: Event<V>) -> EnumerationView<V> {
        match e {
            Event::Count(n) => self.with_pos(
                Position { session_count: n, session: 0, ..self.pos }.spec_enter_session(),
            ),
            _ => self.failed(e),
        }
    }

    /// Reading: the shared system sounds session (process id 0) belongs to no
    /// process and is skipped; any other session goes on to path resolution.
    pub open spec fn on_reading(self, e: Event<V>) -> EnumerationView<V> {
        match e {
            Event::ProcessId(pid) => if pid == 0 {
                self.with_pos(
                    Position { session: (self.pos.session + 1) as u32, ..self.pos }.spec_enter_session(),
                )
            } else {
                self.with_pos(Position { stage: Stage::Resolving, pid, ..self.pos })
            },
            _ => self.failed(e),
        }
    }

    /// Resolving: the query result becomes the session's path; it never fails.
    pub open spec fn on_resolving(self, e: Event<V>) -> EnumerationView<V> {
        match e {
            Event::ModulePath(q) => EnumerationView {
                pos: Position { stage: Stage::Attaching, ..self.pos },
                path: query_path(q),
                records: self.records,
            },
            _ => self.failed(e),
        }
    }

    /// Attaching: the session is collected, and the walk goes on.
    pub open spec fn on_attaching(self, e: Event<V>) -> EnumerationView<V> {
        match e {
            Event::Volume(v) => EnumerationView {
                pos: Position { session: (self.pos.session + 1) as u32, ..self.pos }.spec_enter_session(),
                path: Seq::empty(),
                records: self.records.push((self.pos.pid, self.path, v)),
            },
            _ => self.failed(e),
        }
    }

    /// How an event moves the enumeration on. A failed call, or an answer to
    /// another question than the one asked, ends it in `Failed`; once it is
    /// `Finished` or `Failed`, nothing changes it.
    pub open spec fn next(self, e: Event<V>) -> EnumerationView<V> {
        match self.pos.stage {
            Stage::Listing => self.on_listing(e),
            Stage::Opening => self.on_opening(e),
            Stage::Reading => self.on_reading(e),
            Stage::Resolving => self.on_resolving(e),
            Stage::Attaching => self.on_attaching(e),
            _ => self,
        }
    }
}

/// An enumeration of the audio sessions of all active output endpoints, driven
/// one platform call at a time.
pub struct Enumeration<V> {
    pos: Position,
    path: String,
    sessions: Vec<Session<V>>,
}

impl<V> View for Enumeration<V> {
    type V = EnumerationView<V>;

    closed spec fn view(&self) -> EnumerationView<V> {
        model(self.pos, self.path@, self.sessions@)
    }
}

spec fn model<V>(pos: Position, path: Seq<char>, sessions: Seq<Session<V>>) -> EnumerationView<V> {
    EnumerationView { pos, path, records: records_of(sessions) }
}

/// A process that could not be opened (it exited after its session was
/// listed, or access was denied) does not end the enumeration: its session goes
/// on to be attached, with the empty path and its process id.
pub proof fn lemma_unavailable_process_keeps_session<V>(s: EnumerationView<V>)
    requires
        s.wf(),
        s.pos.stage is Resolving,
    ensures
        s.next(Event::ModulePath(PathQuery::Unavailable)).pos.stage is Attaching,
        s.next(Event::ModulePath(PathQuery::Unavailable)).pos.pid == s.pos.pid,
        s.next(Event::ModulePath(PathQuery::Unavailable)).path == Seq::<char>::empty(),
        s.next(Event::ModulePath(PathQuery::Unavailable)).records == s.records,
{
}

/// The state reached by answering with `evs`, one event after another.
pub open spec fn run<V>(s: EnumerationView<V>, evs: Seq<Event<V>>) -> EnumerationView<V>
    decreases evs.len(),
{
    if evs.len() == 0 {
        s
    } else {
        run(s.next(evs[0]), evs.drop_first())
    }
}

/// The successful answers about one session with process id `pid`: the system
/// sounds session is only asked for its id, any other session also for its
/// path and its volume control.
pub open spec fn session_answers<V>(pid: u32, q: PathQuery, v: V) -> Seq<Event<V>> {
    if pid == 0 {
        seq![Event::ProcessId(pid)]
    } else {
        seq![Event::ProcessId(pid), Event::ModulePath(q), Event::Volume(v)]
    }
}

/// The successful answers about the sessions of one endpoint, in order.
pub open spec fn sessions_answers<V>(pids: Seq<u32>, qs: Seq<PathQuery>, vols: Seq<V>) -> Seq<
    Event<V>,
>
    decreases pids.len(),
{
    if pids.len() == 0 || qs.len() == 0 || vols.len() == 0 {
        Seq::empty()
    } else {
        session_answers(pids[0], qs[0], vols[0]) + sessions_answers(
            pids.drop_first(),
            qs.drop_first(),
            vols.drop_first(),
        )
    }
}

/// The sessions that one endpoint contributes: those with a non-zero process
/// id, in order, each with its resolved path and volume control.
pub open spec fn kept_sessions<V>(pids: Seq<u32>, qs: Seq<PathQuery>, vols: Seq<V>) -> Seq<
    (u32, Seq<char>, V),
>
    decreases pids.len(),
{
    if pids.len() == 0 || qs.len() == 0 || vols.len() == 0 {
        Seq::empty()
    } else {
        (if pids[0] == 0 {
            Seq::empty()
        } else {
            seq![(pids[0], query_path(qs[0]), vols[0])]
        }) + kept_sessions(pids.drop_first(), qs.drop_first(), vols.drop_first())
    }
}

proof fn lemma_run_append<V>(s: EnumerationView<V>, a: Seq<Event<V>>, b: Seq<Event<V>>)
    ensures
        run(s, a + b) == run(run(s, a), b),
    decreases a.len(),
{
    if a.len() == 0 {
        assert(a + b =~= b);
    } else {
        assert((a + b).drop_first() =~= a.drop_first() + b);
        assert((a + b)[0] == a[0]);
        lemma_run_append(s.next(a[0]), a.drop_first(), b);
    }
}

proof fn lemma_run_one<V>(s: EnumerationView<V>, e: Event<V>)
    ensures
        run(s, seq![e]) == s.next(e),
{
    assert(seq![e].drop_first() =~= Seq::<Event<V>>::empty());
    assert(run(s.next(e), Seq::<Event<V>>::empty()) == s.next(e));
}

proof fn lemma_walk_sessions<V>(
    s: EnumerationView<V>,
    pids: Seq<u32>,
    qs: Seq<PathQuery>,
    vols: Seq<V>,
)
    requires
        s.pos.wf(),
        s.pos.stage is Reading,
        pids.len() == qs.len(),
        pids.len() == vols.len(),
        s.pos.session_count - s.pos.session == pids.len(),
    ensures
        run(s, sessions_answers(pids, qs, vols)).records == s.records + kept_sessions(
            pids,
            qs,
            vols,
        ),
        run(s, sessions_answers(pids, qs, vols)).pos.endpoint == s.pos.endpoint + 1,
        run(s, sessions_answers(pids, qs, vols)).pos.endpoint_count == s.pos.endpoint_count,
        run(s, sessions_answers(pids, qs, vols)).pos.stage == (if s.pos.endpoint + 1
            < s.pos.endpoint_count {
            Stage::Opening
        } else {
            Stage::Finished
        }),
    decreases pids.len(),
{
    let one = session_answers(pids[0], qs[0], vols[0]);
    let rest = sessions_answers(pids.drop_first(), qs.drop_first(), vols.drop_first());
    assert(sessions_answers(pids, qs, vols) == one + rest);
    lemma_run_append(s, one, rest);
    let t = run(s, one);
    let head: Seq<(u32, Seq<char>, V)> = if pids[0] == 0 {
        Seq::empty()
    } else {
        seq![(pids[0], query_path(qs[0]), vols[0])]
    };
    let np = Position {
        session: (s.pos.session + 1) as u32,
        pid: if pids[0] == 0 {
            s.pos.pid
        } else {
            pids[0]
        },
        ..s.pos
    };
    if pids[0] == 0 {
        lemma_run_one(s, Event::<V>::ProcessId(0));
        assert(t == s.next(Event::ProcessId(0)));
    } else {
        let e1 = Event::<V>::ProcessId(pids[0]);
        let e2 = Event::<V>::ModulePath(qs[0]);
        let e3 = Event::<V>::Volume(vols[0]);
        let s1 = s.next(e1);
        let s2 = s1.next(e2);
        assert(one =~= seq![e1] + (seq![e2] + seq![e3]));
        lemma_run_append(s, seq![e1], seq![e2] + seq![e3]);
        lemma_run_one(s, e1);
        lemma_run_append(s1, seq![e2], seq![e3]);
        lemma_run_one(s1, e2);
        lemma_run_one(s2, e3);
        assert(t == s2.next(e3));
        assert(s2.records.push((pids[0], query_path(qs[0]), vols[0])) =~= s.records + head);
    }
    assert(t.pos == np.spec_enter_session());
    assert(t.records =~= s.records + head);
    lemma_enter_session_wf(np);
    if pids.len() == 1 {
        assert(pids.drop_first().len() == 0);
        assert(rest =~= Seq::<Event<V>>::empty());
        assert(one + rest =~= one);
        assert(kept_sessions(pids.drop_first(), qs.drop_first(), vols.drop_first()) =~= Seq::<
            (u32, Seq<char>, V),
        >::empty());
        assert(s.records + kept_sessions(pids, qs, vols) =~= s.records + head);
    } else {
        lemma_walk_sessions(t, pids.drop_first(), qs.drop_first(), vols.drop_first());
        assert(s.records + kept_sessions(pids, qs, vols) =~= (s.records + head) + kept_sessions(
            pids.drop_first(),
            qs.drop_first(),
            vols.drop_first(),
        ));
    }
}

/// Walking one endpoint: answering the request for its session list with the
/// count `pids.len()`, and then each question about its sessions successfully
/// and in order, adds to the result exactly its sessions with a non-zero
/// process id, in the order the platform listed them, each with the path its
/// query resolves to and its volume control; the walk then moves on to the
/// next endpoint, or finishes after the last one.
pub proof fn lemma_endpoint_walk<V>(
    s: EnumerationView<V>,
    pids: Seq<u32>,
    qs: Seq<PathQuery>,
    vols: Seq<V>,
)
    requires
        s.wf(),
        s.pos.stage is Opening,
        pids.len() == qs.len(),
        pids.len() == vols.len(),
        pids.len() <= u32::MAX,
    ensures
        run(s, seq![Event::Count(pids.len() as u32)] + sessions_answers(pids, qs, vols)).records
            == s.records + kept_sessions(pids, qs, vols),
        run(s, seq![Event::Count(pids.len() as u32)] + sessions_answers(pids, qs, vols)).pos.endpoint
            == s.pos.endpoint + 1,
        run(s, seq![Event::Count(pids.len() as u32)] + sessions_answers(pids, qs, vols)).pos.stage
            == (if s.pos.endpoint + 1 < s.pos.endpoint_count {
            Stage::Opening
        } else {
            Stage::Finished
        }),
{
    let n = pids.len() as u32;
    let first = seq![Event::<V>::Count(n)];
    let answers = sessions_answers(pids, qs, vols);
    lemma_run_append(s, first, answers);
    lemma_run_one(s, Event::<V>::Count(n));
    let t = s.next(Event::Count(n));
    assert(run(s, first) == t);
    let p = Position { session_count: n, session: 0, ..s.pos };
    lemma_enter_session_wf(p);
    if pids.len() == 0 {
        assert(answers =~= Seq::<Event<V>>::empty());
        assert(first + answers =~= first);
        assert(kept_sessions(pids, qs, vols) =~= Seq::<(u32, Seq<char>, V)>::empty());
        assert(s.records + kept_sessions(pids, qs, vols) =~= s.records);
    } else {
        lemma_walk_sessions(t, pids, qs, vols);
    }
}

proof fn lemma_enter_session_wf(p: Position)
    requires
        p.endpoint < p.endpoint_count,
        p.session <= p.session_count,
    ensures
        p.spec_enter_session().wf(),
        !(p.spec_enter_session().stage is Resolving),
        !(p.spec_enter_session().stage is Attaching),
{
}

impl<V> Enumeration<V> {
    #[verifier::type_invariant]
    spec fn inv(self) -> bool {
        self@.wf()
    }

    fn assemble(pos: Position, path: String, sessions: Vec<Session<V>>) -> (r: (
        Enumeration<V>,
        Action,
    ))
        requires
            model(pos, path@, sessions@).wf(),
        ensures
            r.0@ == model(pos, path@, sessions@),
            r.1 == pos.spec_action(),
    {
        let action = pos.action();
        (Enumeration { pos, path, sessions }, action)
    }

    fn fail(pos: Position, path: String, sessions: Vec<Session<V>>, event: Event<V>) -> (r: (
        Enumeration<V>,
        Action,
    ))
        requires
            model(pos, path@, sessions@).wf(),
        ensures
            r.0@ == model(pos, path@, sessions@).failed(event),
            r.1 == Action::Done,
    {
        let err = match event {
            Event::Failed(err) => err,
            _ => OsError::unexpected(),
        };
        Self::assemble(Position { stage: Stage::Failed(err), ..pos }, path, sessions)
    }

    fn on_listing(pos: Position, path: String, sessions: Vec<Session<V>>, event: Event<V>) -> (r: (
        Enumeration<V>,
        Action,
    ))
        requires
            model(pos, path@, sessions@).wf(),
            pos.stage is Listing,
        ensures
            r.0@ == model(pos, path@, sessions@).on_listing(event),
            r.1 == r.0@.pos.spec_action(),
    {
        match event {
            Event::Count(n) => {
                let p = Position { endpoint_count: n, endpoint: 0, ..pos }.enter_endpoint();
                Self::assemble(p, path, sessions)
            },
            _ => Self::fail(pos, path, sessions, event),
        }
    }

    fn on_opening(pos: Position, path: String, sessions: Vec<Session<V>>, event: Event<V>) -> (r: (
        Enumeration<V>,
        Action,
    ))
        requires
            model(pos, path@, sessions@).wf(),
            pos.stage is Opening,
        ensures
            r.0@ == model(pos, path@, sessions@).on_opening(event),
            r.1 == r.0@.pos.spec_action(),
    {
        match event {
            Event::Count(n) => {
                let p = Position { session_count: n, session: 0, ..pos }.enter_session();
                proof {
                    lemma_enter_session_wf(Position { session_count: n, session: 0, ..pos });
                }
                Self::assemble(p, path, sessions)
            },
            _ => Self::fail(pos, path, sessions, event),
        }
    }

    fn on_reading(pos: Position, path: String, sessions: Vec<Session<V>>, event: Event<V>) -> (r: (
        Enumeration<V>,
        Action,
    ))
        requires
            model(pos, path@, sessions@).wf(),
            pos.stage is Reading,
        ensures
            r.0@ == model(pos, path@, sessions@).on_reading(event),
            r.1 == r.0@.pos.spec_action(),
    {
        match event {
            Event::ProcessId(pid) => {
                if pid == 0 {
                    let p = Position { session: pos.session + 1, ..pos }.enter_session();
                    proof {
                        lemma_enter_session_wf(Position { session: (pos.session + 1) as u32, ..pos });
                    }
                    Self::assemble(p, path, sessions)
                } else {
                    Self::assemble(Position { stage: Stage::Resolving, pid, ..pos }, path, sessions)
                }
            },
            _ => Self::fail(pos, path, sessions, event),
        }
    }

    fn on_resolving(pos: Position, path: String, sessions: Vec<Session<V>>, event: Event<V>) -> (r: (
        Enumeration<V>,
        Action,
    ))
        requires
            model(pos, path@, sessions@).wf(),
            pos.stage is Resolving,
        ensures
            r.0@ == model(pos, path@, sessions@).on_resolving(event),
            r.1 == r.0@.pos.spec_action(),
    {
        match event {
            Event::ModulePath(q) => {
                let resolved = path_from_query(&q);
                Self::assemble(Position { stage: Stage::Attaching, ..pos }, resolved, sessions)
            },
            _ => Self::fail(pos, path, sessions, event),
        }
    }

    fn on_attaching(pos: Position, path: String, sessions: Vec<Session<V>>, event: Event<V>) -> (r: (
        Enumeration<V>,
        Action,
    ))
        requires
            model(pos, path@, sessions@).wf(),
            pos.stage is Attaching,
        ensures
            r.0@ == model(pos, path@, sessions@).on_attaching(event),
            r.1 == r.0@.pos.spec_action(),
    {
        match event {
            Event::Volume(v) => {
                let ghost before = records_of(sessions@);
                let ghost rec = (pos.pid, path@, v);
                let mut sessions = sessions;
                sessions.push(Session { pid: pos.pid, path, vol: v });
                assert(records_of(sessions@) =~= before.push(rec));
                assert(records_ok(before.push(rec))) by {
                    assert forall|i: int| 0 <= i < before.push(rec).len() implies #[trigger] before.push(
                        rec,
                    )[i].0 != 0 && is_clean_path(before.push(rec)[i].1) by {
                        if i < before.len() {
                            assert(before.push(rec)[i] == before[i]);
                            assert(before[i].0 != 0);
                        } else {
                            assert(before.push(rec)[i] == rec);
                            assert(pos.pid != 0 && is_clean_path(path@));
                        }
                    }
                }
                let p = Position { session: pos.session + 1, ..pos }.enter_session();
                proof {
                    lemma_enter_session_wf(Position { session: (pos.session + 1) as u32, ..pos });
                }
                Self::assemble(p, String::new(), sessions)
            },
            _ => Self::fail(pos, path, sessions, event),
        }
    }

    /// Moves the enumeration on by the answer to the last action, and says
    /// what to do next.
    pub fn step(self, event: Event<V>) -> (r: (Enumeration<V>, Action))
        ensures
            r.0@ == self@.next(event),
            r.0@.wf(),
            r.1 == r.0@.pos.spec_action(),
    {
        proof {
            use_type_invariant(&self);
        }
        let Enumeration { pos, path, sessions } = self;
        assert(model(pos, path@, sessions@) == self@);
        let r = match pos.stage {
            Stage::Listing => Self::on_listing(pos, path, sessions, event),
            Stage::Opening => Self::on_opening(pos, path, sessions, event),
            Stage::Reading => Self::on_reading(pos, path, sessions, event),
            Stage::Resolving => Self::on_resolving(pos, path, sessions, event),
            Stage::Attaching => Self::on_attaching(pos, path, sessions, event),
            _ => Self::assemble(pos, path, sessions),
        };
        proof {
            use_type_invariant(&r.0);
        }
        r
    }

    /// The outcome: the collected sessions once every endpoint has been
    /// visited, the platform error if a call failed, and `E_UNEXPECTED` if the
    /// enumeration is still under way. Every returned session has a real
    /// process id and a path free of NUL padding.
    pub fn finish(self) -> (r: Result<Vec<Session<V>>, OsError>)
        ensures
            self@.pos.stage is Finished ==> r is Ok && records_of(r->Ok_0@) == self@.records,
            self@.pos.stage is Failed ==> r == Err::<Vec<Session<V>>, OsError>(
                self@.pos.stage->Failed_0,
            ),
            !(self@.pos.stage is Finished || self@.pos.stage is Failed) ==> r == Err::<
                Vec<Session<V>>,
                OsError,
            >(OsError { code: E_UNEXPECTED }),
            r is Ok ==> forall|i: int|
                0 <= i < r->Ok_0@.len() ==> #[trigger] r->Ok_0@[i].pid != 0 && is_clean_path(
                    r->Ok_0@[i].path@,
                ),
    {
        proof {
            use_type_invariant(&self);
        }
        let ghost v = self@;
        assert(v.wf());
        let Enumeration { pos, path, sessions } = self;
        let ghost records = records_of(sessions@);
        assert(v.records == records);
        match pos.stage {
            Stage::Finished => {
                assert forall|i: int| 0 <= i < sessions@.len() implies #[trigger] sessions@[i].pid
                    != 0 && is_clean_path(sessions@[i].path@) by {
                    assert(records[i] == session_record(sessions@[i]));
                    assert(records[i].0 != 0);
                }
                Ok(sessions)
            },
            Stage::Failed(e) => Err(e),
            _ => Err(OsError::unexpected()),
        }
    }
}

impl WinMix {
    /// Starts enumerating the audio sessions of every active output endpoint;
    /// the first action lists the endpoints.
    pub fn enumerate<V>(&self) -> (r: (Enumeration<V>, Action))
        ensures
            r.0@ == EnumerationView::<V>::start(),
            r.1 == Action::ListEndpoints,
    {
        let pos = Position {
            stage: Stage::Listing,
            endpoint_count: 0,
            endpoint: 0,
            session_count: 0,
            session: 0,
            pid: 0,
        };
        let sessions: Vec<Session<V>> = Vec::new();
        assert(records_of(sessions@) =~= Seq::empty());
        Enumeration::assemble(pos, String::new(), sessions)
    }
}

} // verus!
