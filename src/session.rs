use crate::ids::{id_in_range, next_id};
use crate::locator::{build_url, problem_url};
use crate::store::NewProblem;
use vstd::prelude::*;

verus! {

/// How long a fetch may stay unanswered before its candidate stops loading.
pub const FETCH_TIMEOUT_MS: u64 = 10000;

/// How long the message of the last action stays visible.
pub const ACTION_MESSAGE_MS: u64 = 1000;

/// What the user did last.
#[derive(Clone, Copy, Debug, PartialEq, Eq, Structural)]
pub enum AppAction {
    Generated,
    Opened,
    Copied,
    Saved,
    Deleted,
}

/// The feedback shown after each action.
pub open spec fn action_text(action: AppAction) -> Seq<char> {
    match action {
        AppAction::Generated => "✅ URL згенеровано!"@,
        AppAction::Opened => "🌐 URL відкрито в браузері!"@,
        AppAction::Copied => "📋 Скопійовано в буфер обміну!"@,
        AppAction::Saved => "💾 Задачу збережено"@,
        AppAction::Deleted => "🗑 Задачу видалено"@,
    }
}

/// The feedback message of `action`.
pub fn action_message(action: AppAction) -> (r: String)
    ensures
        r@ == action_text(action),
{
    match action {
        AppAction::Generated => String::from_str("✅ URL згенеровано!"),
        AppAction::Opened => String::from_str("🌐 URL відкрито в браузері!"),
        AppAction::Copied => String::from_str("📋 Скопійовано в буфер обміну!"),
        AppAction::Saved => String::from_str("💾 Задачу збережено"),
        AppAction::Deleted => String::from_str("🗑 Задачу видалено"),
    }
}

/// A request for a background fetch of `url`, tagged with the generation it serves.
pub struct FetchRequest {
    pub generation: u64,
    pub url: String,
}

/// A title that a background fetch found, tagged with its request's generation.
pub struct FetchResult {
    pub generation: u64,
    pub title: String,
}

/// The state of a session as contracts see it.
pub struct SessionView {
    pub problem_id: Option<u32>,
    pub url: Seq<char>,
    pub name: Option<Seq<char>>,
    pub is_loading: bool,
    pub generation: u64,
    pub started_ms: u64,
    pub last_action: Option<AppAction>,
    pub action_ms: u64,
}

/// The generation that follows `g`; it wraps around after `u64::MAX`.
pub open spec fn next_generation(g: u64) -> u64 {
    if g == u64::MAX {
        0
    } else {
        (g + 1) as u64
    }
}

/// The state after a new candidate `id` is generated at time `now`.
pub open spec fn generated(v: SessionView, id: u32, now: u64) -> SessionView {
    SessionView {
        problem_id: Some(id),
        url: problem_url(id as nat),
        name: None,
        is_loading: true,
        generation: next_generation(v.generation),
        started_ms: now,
        last_action: Some(AppAction::Generated),
        action_ms: now,
    }
}

/// Whether a result of generation `g` belongs to the candidate that is loading.
pub open spec fn is_awaited(v: SessionView, g: u64) -> bool {
    v.is_loading && g == v.generation
}

/// The state after a result of generation `g` with title `title` arrives: it is
/// attached where it is awaited, and dropped otherwise.
pub open spec fn accepted(v: SessionView, g: u64, title: Seq<char>) -> SessionView {
    if is_awaited(v, g) {
        SessionView { name: Some(title), is_loading: false, ..v }
    } else {
        v
    }
}

/// Whether the fetch of the loading candidate has run out of time at `now`.
pub open spec fn is_overdue(v: SessionView, now: u64) -> bool {
    v.is_loading && v.started_ms <= now && now - v.started_ms >= FETCH_TIMEOUT_MS
}

/// The state at time `now`: an overdue candidate stops loading, with no title.
pub open spec fn expired(v: SessionView, now: u64) -> SessionView {
    if is_overdue(v, now) {
        SessionView { name: None, is_loading: false, ..v }
    } else {
        v
    }
}

/// The decisions of an interactive session: the current candidate, the generation of
/// the fetch it waits for, and the last action with its time. Times are milliseconds
/// on a clock of the caller's.
pub struct Session {
    problem_id: Option<u32>,
    url: String,
    name: Option<String>,
    is_loading: bool,
    generation: u64,
    started_ms: u64,
    last_action: Option<AppAction>,
    action_ms: u64,
}

impl View for Session {
    type V = SessionView;

    closed spec fn view(&self) -> SessionView {
        SessionView {
            problem_id: self.problem_id,
            url: self.url@,
            name: self.name.deep_view(),
            is_loading: self.is_loading,
            generation: self.generation,
            started_ms: self.started_ms,
            last_action: self.last_action,
            action_ms: self.action_ms,
        }
    }
}

impl Session {
    /// A session with no candidate and no action.
    pub fn new() -> (s: Session)
        ensures
            s@ == (SessionView {
                problem_id: None,
                url: Seq::empty(),
                name: None,
                is_loading: false,
                generation: 0,
                started_ms: 0,
                last_action: None,
                action_ms: 0,
            }),
    {
        let s = Session {
            problem_id: None,
            url: String::new(),
            name: None,
            is_loading: false,
            generation: 0,
            started_ms: 0,
            last_action: None,
            action_ms: 0,
        };
        assert(s@.url =~= Seq::<char>::empty());
        s
    }

    /// Makes `id` the candidate, waiting for its title, and returns the fetch to start.
    /// The request's generation supersedes every earlier one.
    pub fn generate_with(&mut self, id: u32, now_ms: u64) -> (req: FetchRequest)
        ensures
            final(self)@ == generated(old(self)@, id, now_ms),
            req.generation == final(self)@.generation,
            req.url@ == problem_url(id as nat),
    {
        let url = build_url(id);
        let generation = if self.generation == u64::MAX {
            0
        } else {
            self.generation + 1
        };
        self.problem_id = Some(id);
        self.url = url.clone();
        self.name = None;
        self.is_loading = true;
        self.generation = generation;
        self.started_ms = now_ms;
        self.set_action(AppAction::Generated, now_ms);
        FetchRequest { generation, url }
    }

    /// Draws a random candidate and makes it current, as `generate_with` does.
    pub fn generate_url(&mut self, now_ms: u64) -> (req: FetchRequest)
        ensures
            final(self)@.problem_id matches Some(id) && id_in_range(id) && final(self)@
                == generated(old(self)@, id, now_ms),
            req.generation == final(self)@.generation,
            req.url@ == final(self)@.url,
    {
        let id = next_id();
        self.generate_with(id, now_ms)
    }

    /// Attaches a fetched title to the candidate where it is the awaited one; a result
    /// of an earlier generation, or one that comes after the timeout, is dropped.
    pub fn accept(&mut self, result: FetchResult) -> (applied: bool)
        ensures
            applied == is_awaited(old(self)@, result.generation),
            final(self)@ == accepted(old(self)@, result.generation, result.title@),
    {
        if self.is_loading && result.generation == self.generation {
            self.name = Some(result.title);
            self.is_loading = false;
            true
        } else {
            false
        }
    }

    /// Gives up on a fetch that has been unanswered for `FETCH_TIMEOUT_MS`: the
    /// candidate stops loading and has no title.
    pub fn expire(&mut self, now_ms: u64) -> (gave_up: bool)
        ensures
            gave_up == is_overdue(old(self)@, now_ms),
            final(self)@ == expired(old(self)@, now_ms),
    {
        if self.is_loading && self.started_ms <= now_ms && now_ms - self.started_ms
            >= FETCH_TIMEOUT_MS {
            self.name = None;
            self.is_loading = false;
            true
        } else {
            false
        }
    }

    /// One poll of the consumer loop: takes the result that arrived, if any, then
    /// applies the timeout.
    pub fn check_for_title(&mut self, received: Option<FetchResult>, now_ms: u64)
        ensures
            final(self)@ == match received {
                Some(res) => expired(accepted(old(self)@, res.generation, res.title@), now_ms),
                None => expired(old(self)@, now_ms),
            },
    {
        match received {
            Some(res) => {
                self.accept(res);
            },
            None => {},
        }
        self.expire(now_ms);
    }

    /// Whether there is a candidate to open, copy or save.
    pub fn is_url_valid(&self) -> (r: bool)
        ensures
            r == self@.problem_id is Some,
    {
        self.problem_id.is_some()
    }

    /// The row to save for the candidate: present once it has a title, and where its
    /// identifier fits the store's integer.
    pub fn save_request(&self) -> (r: Option<NewProblem>)
        ensures
            r is Some <==> (self@.problem_id matches Some(id) && id <= i32::MAX && self@.name
                is Some),
            r matches Some(p) ==> self@.problem_id == Some(p.problem_id as u32) && 0
                <= p.problem_id && self@.name == Some(p.name@) && p.url@ == self@.url,
    {
        match (self.problem_id, &self.name) {
            (Some(id), Some(name)) => {
                if id <= i32::MAX as u32 {
                    Some(NewProblem { problem_id: id as i32, name: name.clone(), url: self.url.clone() })
                } else {
                    None
                }
            },
            _ => None,
        }
    }

    /// Records `action` as the last one, done at `now_ms`.
    pub fn set_action(&mut self, action: AppAction, now_ms: u64)
        ensures
            final(self)@ == (SessionView {
                last_action: Some(action),
                action_ms: now_ms,
                ..old(self)@
            }),
    {
        self.last_action = Some(action);
        self.action_ms = now_ms;
    }

    /// The message of the last action while it is under `ACTION_MESSAGE_MS` old.
    pub fn get_action_message(&self, now_ms: u64) -> (r: Option<String>)
        ensures
            r.deep_view() == match self@.last_action {
                Some(a) => if self@.action_ms <= now_ms && now_ms - self@.action_ms
                    < ACTION_MESSAGE_MS {
                    Some(action_text(a))
                } else {
                    None
                },
                None => None,
            },
    {
        match self.last_action {
            Some(action) => {
                if self.action_ms <= now_ms && now_ms - self.action_ms < ACTION_MESSAGE_MS {
                    Some(action_message(action))
                } else {
                    None
                }
            },
            None => None,
        }
    }

    /// The candidate's identifier.
    pub fn problem_id(&self) -> (r: Option<u32>)
        ensures
            r == self@.problem_id,
    {
        self.problem_id
    }

    /// The candidate's address; empty before the first generation.
    pub fn url(&self) -> (r: &str)
        ensures
            r@ == self@.url,
    {
        self.url.as_str()
    }

    /// The candidate's title, once fetched.
    pub fn name(&self) -> (r: Option<String>)
        ensures
            r.deep_view() == self@.name,
    {
        match &self.name {
            Some(n) => Some(n.clone()),
            None => None,
        }
    }

    /// Whether the candidate waits for its title.
    pub fn is_loading(&self) -> (r: bool)
        ensures
            r == self@.is_loading,
    {
        self.is_loading
    }

    /// The generation of the fetch that the candidate waits for.
    pub fn generation(&self) -> (r: u64)
        ensures
            r == self@.generation,
    {
        self.generation
    }
}

/// Once a fetch has been unanswered for the timeout, polling leaves the candidate
/// settled: not loading, with no title, still the same identifier.
pub proof fn lemma_timeout_settles(v: SessionView, id: u32, start: u64, now: u64)
    requires
        start <= now,
        now - start >= FETCH_TIMEOUT_MS,
    ensures
        ({
            let e = expired(generated(v, id, start), now);
            &&& !e.is_loading
            &&& e.name is None
            &&& e.problem_id == Some(id)
        }),
{
}

/// A result of the fetch that a newer generation superseded changes nothing: it cannot
/// attach its title to the new candidate.
pub proof fn lemma_superseded_result_dropped(
    v: SessionView,
    id: u32,
    now: u64,
    title: Seq<char>,
)
    ensures
        ({
            let g = generated(v, id, now);
            accepted(g, v.generation, title) == g
        }),
{
}

} // verus!
