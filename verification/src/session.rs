//! Sessions: the tokens that name them and the registry that remembers them.

use crate::text::same_text;
use vstd::prelude::*;

verus! {

/// A lower-case hexadecimal digit.
pub open spec fn is_lower_hex(c: char) -> bool {
    ('0' <= c && c <= '9') || ('a' <= c && c <= 'f')
}

/// The shape of a session token: a version-4 UUID in its hyphenated
/// lower-case form, `xxxxxxxx-xxxx-4xxx-yxxx-xxxxxxxxxxxx`, where `y` is one
/// of `8`, `9`, `a` and `b`.
pub open spec fn is_session_token(token: Seq<char>) -> bool {
    &&& token.len() == 36
    &&& forall|i: int|
        0 <= i < 36 ==> if i == 8 || i == 13 || i == 18 || i == 23 {
            #[trigger] token[i] == '-'
        } else {
            is_lower_hex(token[i])
        }
    &&& token[14] == '4'
    &&& (token[19] == '8' || token[19] == '9' || token[19] == 'a' || token[19] == 'b')
}

/// A new session token.
///
/// Trusted: wraps `uuid::Uuid::new_v4` and the `Display` of the value it
/// returns.  `new_v4` fills the UUID with random bits and sets the version
/// to 4 and the variant to RFC 9562; `Display` writes a UUID in hyphenated
/// lower-case form.  Nothing is claimed about which token comes out: two
/// calls may return the same one.  `new_v4` panics where the system has no
/// random bytes to give.
#[verifier::external_body]
pub(crate) fn fresh_session_id() -> (token: String)
    ensures
        is_session_token(token@),
{
    uuid::Uuid::new_v4().to_string()
}

/// What is remembered of a session.
#[derive(Clone, Debug, PartialEq, Eq)]
pub struct SessionInfo {
    pub id: String,
    pub cwd: String,
}

/// The mapping that a list of sessions stands for: from the token of each
/// session to its directory, a later entry taking the place of an earlier
/// one with the same token.
pub open spec fn registry(sessions: Seq<SessionInfo>) -> Map<Seq<char>, Seq<char>>
    decreases sessions.len(),
{
    if sessions.len() == 0 {
        Map::empty()
    } else {
        registry(sessions.drop_last()).insert(sessions.last().id@, sessions.last().cwd@)
    }
}

/// What the agent remembers for as long as it lives: whether the client has
/// initialized it, and the sessions that were opened.
#[derive(Clone, Debug, PartialEq, Eq)]
pub struct AgentState {
    pub initialized: bool,
    pub sessions: Vec<SessionInfo>,
}

/// The view of an [`AgentState`].
pub struct AgentStateView {
    pub initialized: bool,
    pub sessions: Map<Seq<char>, Seq<char>>,
}

impl View for AgentState {
    type V = AgentStateView;

    open spec fn view(&self) -> AgentStateView {
        AgentStateView { initialized: self.initialized, sessions: registry(self.sessions@) }
    }
}

impl AgentStateView {
    /// The state of an agent that has seen nothing yet.
    pub open spec fn new() -> AgentStateView {
        AgentStateView { initialized: false, sessions: Map::empty() }
    }
}

impl AgentState {
    /// The state of an agent that has seen nothing yet.
    pub fn new() -> (state: Self)
        ensures
            state@ == AgentStateView::new(),
    {
        AgentState { initialized: false, sessions: Vec::new() }
    }

    /// Remembers the session `id` with its directory `cwd`, in place of what
    /// was remembered under that token before.
    pub fn insert_session(&mut self, id: String, cwd: String)
        ensures
            final(self)@ == (AgentStateView {
                sessions: old(self)@.sessions.insert(id@, cwd@),
                ..old(self)@
            }),
    {
        self.sessions.push(SessionInfo { id, cwd });
        assert(self.sessions@.drop_last() =~= old(self).sessions@);
    }

    /// The directory of the session `id`, if such a session is remembered.
    pub fn session_cwd(&self, id: &str) -> (cwd: Option<&str>)
        ensures
            match cwd {
                Some(dir) => self@.sessions.contains_key(id@) && self@.sessions[id@] == dir@,
                None => !self@.sessions.contains_key(id@),
            },
    {
        let mut i: usize = self.sessions.len();
        assert(self.sessions@.take(i as int) =~= self.sessions@);
        while i > 0
            invariant
                i <= self.sessions.len(),
                !registry(self.sessions@).contains_key(id@) <==> !registry(
                    self.sessions@.take(i as int),
                ).contains_key(id@),
                registry(self.sessions@).contains_key(id@) ==> registry(self.sessions@)[id@]
                    == registry(self.sessions@.take(i as int))[id@],
            decreases i,
        {
            proof {
                assert(self.sessions@.take(i as int).drop_last() =~= self.sessions@.take(i - 1));
                assert(self.sessions@.take(i as int).last() == self.sessions@[i - 1]);
            }
            i = i - 1;
            if same_text(self.sessions[i].id.as_str(), id) {
                return Some(self.sessions[i].cwd.as_str());
            }
        }
        None
    }
}

} // verus!
