use vstd::prelude::*;

verus! {

/// Why an unlock request failed.
#[derive(Clone, Copy, Debug, PartialEq, Eq, Structural)]
pub enum UnlockError {
    /// No usable backend session: the unlock could not even be attempted.
    Unavailable,
    /// The backend was reachable but refused the request (e.g. an unknown id).
    Rejected,
}

/// Receives the unlock requests that a backend sees, for observability.
pub trait UnlockLog {
    fn unlock_requested(&mut self, achievement_id: &str);
}

/// The abstract state of a live backend.
pub struct LiveModel {
    /// Whether a session with the achievement service is established.
    pub session: bool,
    /// The achievement ids that the service defines for this application.
    pub catalog: Seq<Seq<char>>,
    /// The ids unlocked so far, in the order they were first unlocked.
    pub unlocked: Seq<Seq<char>>,
}

/// The abstract state of a backend.
pub enum BackendModel {
    Stub,
    Live(LiveModel),
}

impl BackendModel {
    /// Whether a live service is usable: never for the stub.
    pub open spec fn available(self) -> bool {
        match self {
            BackendModel::Stub => false,
            BackendModel::Live(l) => l.session,
        }
    }

    /// What unlocking `id` returns: the stub always succeeds; a live backend
    /// needs a session, and an id that its service defines.
    pub open spec fn unlock_result(self, id: Seq<char>) -> Result<(), UnlockError> {
        match self {
            BackendModel::Stub => Ok(()),
            BackendModel::Live(l) => {
                if !l.session {
                    Err(UnlockError::Unavailable)
                } else if !l.catalog.contains(id) {
                    Err(UnlockError::Rejected)
                } else {
                    Ok(())
                }
            },
        }
    }

    /// The state after unlocking `id`: a newly accepted id is appended; an
    /// id already unlocked, or a failed request, changes nothing.
    pub open spec fn after_unlock(self, id: Seq<char>) -> BackendModel {
        match self {
            BackendModel::Stub => BackendModel::Stub,
            BackendModel::Live(l) => {
                if self.unlock_result(id) is Ok && !l.unlocked.contains(id) {
                    BackendModel::Live(LiveModel { unlocked: l.unlocked.push(id), ..l })
                } else {
                    self
                }
            },
        }
    }

    /// The ids that a snapshot lists: none for the stub.
    pub open spec fn listed(self) -> Seq<Seq<char>> {
        match self {
            BackendModel::Stub => Seq::empty(),
            BackendModel::Live(l) => l.unlocked,
        }
    }

    /// The state after unlocking each of `ids` in turn.
    pub open spec fn unlock_all(self, ids: Seq<Seq<char>>) -> BackendModel
        decreases ids.len(),
    {
        if ids.len() == 0 {
            self
        } else {
            self.after_unlock(ids[0]).unlock_all(ids.drop_first())
        }
    }

    /// The ids among `ids` whose unlock succeeded, unlocking them in turn.
    pub open spec fn accepted(self, ids: Seq<Seq<char>>) -> Set<Seq<char>>
        decreases ids.len(),
    {
        if ids.len() == 0 {
            Set::empty()
        } else {
            let rest = self.after_unlock(ids[0]).accepted(ids.drop_first());
            if self.unlock_result(ids[0]) is Ok {
                rest.insert(ids[0])
            } else {
                rest
            }
        }
    }
}

/// On the stub, unlocking the same id twice in succession succeeds both
/// times, and changes nothing.
pub proof fn lemma_stub_unlock_twice(id: Seq<char>)
    ensures
        BackendModel::Stub.unlock_result(id) is Ok,
        BackendModel::Stub.after_unlock(id) == BackendModel::Stub,
        BackendModel::Stub.after_unlock(id).unlock_result(id) is Ok,
{
}

/// The stub is never available, and a live backend is not available while
/// it has no session.
pub proof fn lemma_available_needs_session(m: BackendModel)
    ensures
        m is Stub ==> !m.available(),
        m is Live && !m->Live_0.session ==> !m.available(),
{
}

/// On a live backend, after a run of unlocks, the listed ids are those that
/// were listed before together with those whose unlock succeeded, each
/// listed once.
pub proof fn lemma_live_lists_accepted(m: BackendModel, ids: Seq<Seq<char>>)
    requires
        m is Live,
        m.listed().no_duplicates(),
    ensures
        m.unlock_all(ids) is Live,
        m.unlock_all(ids).listed().no_duplicates(),
        forall|x: Seq<char>|
            #[trigger] m.unlock_all(ids).listed().contains(x) <==> (m.listed().contains(x)
                || m.accepted(ids).contains(x)),
    decreases ids.len(),
{
    if ids.len() > 0 {
        let id = ids[0];
        let next = m.after_unlock(id);
        let l = m->Live_0;
        if m.unlock_result(id) is Ok && !l.unlocked.contains(id) {
            assert forall|x: Seq<char>| #[trigger] next.listed().contains(x) <==> (
            m.listed().contains(x) || x == id) by {
                if x == id {
                    assert(l.unlocked.push(id)[l.unlocked.len() as int] == id);
                }
                if l.unlocked.push(id).contains(x) && x != id {
                    let k = choose|k: int| 0 <= k < l.unlocked.len() + 1 && l.unlocked.push(id)[k] == x;
                    assert(l.unlocked[k] == x);
                }
                if l.unlocked.contains(x) {
                    let k = choose|k: int| 0 <= k < l.unlocked.len() && l.unlocked[k] == x;
                    assert(l.unlocked.push(id)[k] == x);
                }
            }
        }
        lemma_live_lists_accepted(next, ids.drop_first());
    }
}

/// On a live backend with nothing unlocked, a run of unlocks leaves listed
/// exactly the ids whose unlock succeeded, each once.
pub proof fn lemma_fresh_live_lists_exactly_accepted(m: BackendModel, ids: Seq<Seq<char>>)
    requires
        m is Live,
        m.listed().len() == 0,
    ensures
        m.unlock_all(ids).listed().no_duplicates(),
        m.unlock_all(ids).listed().to_set() == m.accepted(ids),
{
    lemma_live_lists_accepted(m, ids);
    assert(m.unlock_all(ids).listed().to_set() =~= m.accepted(ids));
}

/// The stub lists nothing, whatever was unlocked before.
pub proof fn lemma_stub_lists_nothing(ids: Seq<Seq<char>>)
    ensures
        BackendModel::Stub.unlock_all(ids).listed().len() == 0,
    decreases ids.len(),
{
    if ids.len() > 0 {
        lemma_stub_lists_nothing(ids.drop_first());
    }
}

/// A backend bound to a live achievement service.
pub struct LiveBackend {
    session: bool,
    catalog: Vec<String>,
    unlocked: Vec<String>,
}

/// The text of each string in `v`.
pub open spec fn views(v: Seq<String>) -> Seq<Seq<char>> {
    v.map_values(|s: String| s@)
}

impl View for LiveBackend {
    type V = LiveModel;

    closed spec fn view(&self) -> LiveModel {
        LiveModel {
            session: self.session,
            catalog: views(self.catalog@),
            unlocked: views(self.unlocked@),
        }
    }
}

/// Whether `v` holds a string equal to `id`.
fn holds(v: &Vec<String>, id: &String) -> (r: bool)
    ensures
        r == views(v@).contains(id@),
{
    let mut i: usize = 0;
    while i < v.len()
        invariant
            i <= v.len(),
            forall|j: int| 0 <= j < i ==> v@[j]@ != id@,
        decreases v.len() - i,
    {
        if v[i] == *id {
            assert(views(v@)[i as int] == id@);
            return true;
        }
        i = i + 1;
    }
    assert forall|j: int| 0 <= j < views(v@).len() implies views(v@)[j] != id@ by {
        assert(views(v@)[j] == v@[j]@);
    }
    false
}

impl LiveBackend {
    /// Each id is unlocked at most once.
    #[verifier::type_invariant]
    spec fn unlocked_once(&self) -> bool {
        views(self.unlocked@).no_duplicates()
    }

    /// A live backend with no session established.
    pub fn new() -> (r: LiveBackend)
        ensures
            !r@.session,
            r@.catalog.len() == 0,
            r@.unlocked.len() == 0,
    {
        let r = LiveBackend { session: false, catalog: Vec::new(), unlocked: Vec::new() };
        assert(r@.unlocked =~= Seq::empty());
        r
    }

    /// A live backend with an established session whose service defines the
    /// achievements `catalog`, none of them unlocked yet.
    pub fn with_session(catalog: Vec<String>) -> (r: LiveBackend)
        ensures
            r@.session,
            r@.catalog == views(catalog@),
            r@.unlocked.len() == 0,
    {
        let r = LiveBackend { session: true, catalog, unlocked: Vec::new() };
        assert(r@.unlocked =~= Seq::empty());
        r
    }

    /// Whether a session with the service is established.
    pub fn is_available(&self) -> (r: bool)
        ensures
            r == BackendModel::Live(self@).available(),
    {
        self.session
    }

    /// Requests that `achievement_id` be marked unlocked; already unlocked
    /// counts as success.
    pub fn unlock(&mut self, achievement_id: &String) -> (r: Result<(), UnlockError>)
        ensures
            final(self)@.unlocked.no_duplicates(),
            r == BackendModel::Live(old(self)@).unlock_result(achievement_id@),
            BackendModel::Live(final(self)@) == BackendModel::Live(old(self)@).after_unlock(
                achievement_id@,
            ),
    {
        proof {
            use_type_invariant(&*self);
        }
        if !self.session {
            return Err(UnlockError::Unavailable);
        }
        if !holds(&self.catalog, achievement_id) {
            return Err(UnlockError::Rejected);
        }
        if !holds(&self.unlocked, achievement_id) {
            let mut unlocked = self.list_unlocked();
            let ghost pre = unlocked@;
            unlocked.push(achievement_id.clone());
            assert(views(unlocked@) =~= views(pre).push(achievement_id@));
            self.unlocked = unlocked;
        }
        Ok(())
    }

    /// A snapshot of the unlocked ids, in the order they were unlocked.
    pub fn list_unlocked(&self) -> (r: Vec<String>)
        ensures
            views(r@) == self@.unlocked,
            r@.len() == self@.unlocked.len(),
            self@.unlocked.no_duplicates(),
    {
        proof {
            use_type_invariant(self);
        }
        let mut r: Vec<String> = Vec::new();
        let mut i: usize = 0;
        while i < self.unlocked.len()
            invariant
                i <= self.unlocked.len(),
                r@.len() == i,
                forall|j: int| 0 <= j < i ==> r@[j]@ == self.unlocked@[j]@,
            decreases self.unlocked.len() - i,
        {
            r.push(self.unlocked[i].clone());
            i = i + 1;
        }
        assert(views(r@) =~= views(self.unlocked@));
        r
    }
}

/// Which backend a build uses, and whether it runs with diagnostics.
#[derive(Clone, Copy, Debug, PartialEq, Eq, Structural)]
pub struct BuildMode {
    /// A debug build: diagnostic logging is attached at startup.
    pub debug: bool,
    /// Built against the live achievement service rather than the stub.
    pub live: bool,
}

/// The achievement backend that a process uses; chosen once at startup.
pub enum Backend {
    /// Always unavailable; logs unlock requests, which always succeed.
    Stub,
    Live(LiveBackend),
}

impl View for Backend {
    type V = BackendModel;

    open spec fn view(&self) -> BackendModel {
        match self {
            Backend::Stub => BackendModel::Stub,
            Backend::Live(l) => BackendModel::Live(l@),
        }
    }
}

impl Backend {
    /// The backend for `mode`: the stub, or a live backend that has no
    /// session yet.
    pub fn select(mode: BuildMode) -> (r: Backend)
        ensures
            !mode.live ==> r@ == BackendModel::Stub,
            mode.live ==> r@ is Live && !r@->Live_0.session && r@->Live_0.unlocked.len() == 0,
    {
        if mode.live {
            Backend::Live(LiveBackend::new())
        } else {
            Backend::Stub
        }
    }

    /// Whether a live service is usable right now.
    pub fn is_available(&self) -> (r: bool)
        ensures
            r == self@.available(),
    {
        match self {
            Backend::Stub => false,
            Backend::Live(l) => l.is_available(),
        }
    }

    /// Requests that `achievement_id` be marked unlocked. Unlocking an id
    /// that is already unlocked succeeds and changes nothing.
    pub fn unlock<L: UnlockLog>(&mut self, achievement_id: &String, log: &mut L) -> (r: Result<
        (),
        UnlockError,
    >)
        ensures
            final(self)@.listed().no_duplicates(),
            r == old(self)@.unlock_result(achievement_id@),
            final(self)@ == old(self)@.after_unlock(achievement_id@),
    {
        match self {
            Backend::Stub => {
                log.unlock_requested(achievement_id.as_str());
                Ok(())
            },
            Backend::Live(l) => l.unlock(achievement_id),
        }
    }

    /// A snapshot of the unlocked ids; always empty for the stub.
    pub fn list_unlocked(&self) -> (r: Vec<String>)
        ensures
            views(r@) == self@.listed(),
            r@.len() == self@.listed().len(),
            self@.listed().no_duplicates(),
    {
        match self {
            Backend::Stub => {
                let r: Vec<String> = Vec::new();
                assert(views(r@) =~= Seq::empty());
                r
            },
            Backend::Live(l) => l.list_unlocked(),
        }
    }
}

} // verus!
