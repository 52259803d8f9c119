//! Per-client session state: who is signed in, the anti-forgery token of a
//! pending authorization, and the flash messages waiting for the next page.

use vstd::prelude::*;

verus! {

/// How a flash message is to be shown.
#[derive(Clone, Copy, Debug, PartialEq, Eq, Structural)]
pub enum Level {
    Success,
    Error,
}

/// How long a session may lie idle before it ends: 30 days, in seconds.
/// Each request starts the count anew.
pub const SESSION_IDLE_SECONDS: i64 = 2_592_000;

/// A message shown once, on the next page.
#[derive(Debug)]
pub struct FlashMessage {
    pub level: Level,
    pub message: String,
}

impl View for FlashMessage {
    type V = (Level, Seq<char>);

    open spec fn view(&self) -> (Level, Seq<char>) {
        (self.level, self.message@)
    }
}

/// Flash messages as plain values.
pub open spec fn flashes_of(flashes: Seq<FlashMessage>) -> Seq<(Level, Seq<char>)> {
    flashes.map_values(|f: FlashMessage| f@)
}

/// What the server keeps for one client.
pub struct Session {
    pub user: Option<u128>,
    pub csrf_token: Option<String>,
    pub flashes: Vec<FlashMessage>,
}

/// A session as plain values.
pub struct SessionView {
    pub user: Option<u128>,
    pub csrf_token: Option<Seq<char>>,
    pub flashes: Seq<(Level, Seq<char>)>,
}

impl View for Session {
    type V = SessionView;

    open spec fn view(&self) -> SessionView {
        SessionView {
            user: self.user,
            csrf_token: match self.csrf_token {
                Some(t) => Some(t@),
                None => None,
            },
            flashes: flashes_of(self.flashes@),
        }
    }
}

/// The session after the user `user_id` has signed in.
pub open spec fn signed_in(before: SessionView, user_id: u128) -> SessionView {
    SessionView { user: Some(user_id), ..before }
}

/// The session after a sign-out.
pub open spec fn signed_out(before: SessionView) -> SessionView {
    SessionView { user: None, ..before }
}

/// The session with one more message waiting.
pub open spec fn with_flash(before: SessionView, level: Level, message: Seq<char>) -> SessionView {
    SessionView { flashes: before.flashes.push((level, message)), ..before }
}

impl Session {
    /// The session of a client that has not been seen before.
    pub fn new() -> (s: Session)
        ensures
            s@ == (SessionView { user: None, csrf_token: None, flashes: Seq::empty() }),
    {
        let s = Session { user: None, csrf_token: None, flashes: Vec::new() };
        assert(s@.flashes =~= Seq::empty());
        s
    }

    /// Records that the user `user_id` has signed in.
    pub fn set_authenticated(&mut self, user_id: u128)
        ensures
            final(self)@ == signed_in(old(self)@, user_id),
    {
        self.user = Some(user_id);
    }

    /// Records that nobody is signed in.
    pub fn clear_authenticated(&mut self)
        ensures
            final(self)@ == signed_out(old(self)@),
    {
        self.user = None;
    }

    /// The user who is signed in, if anyone is.
    pub fn is_authenticated(&self) -> (user: Option<u128>)
        ensures
            user == self@.user,
    {
        self.user
    }

    /// Keeps the anti-forgery token of an authorization that has just been
    /// requested, in place of any earlier one.
    pub fn stash_csrf_token(&mut self, token: String)
        ensures
            final(self)@ == (SessionView { csrf_token: Some(token@), ..old(self)@ }),
    {
        self.csrf_token = Some(token);
    }

    /// Forgets the anti-forgery token.
    pub fn clear_csrf_token(&mut self)
        ensures
            final(self)@ == (SessionView { csrf_token: None, ..old(self)@ }),
    {
        self.csrf_token = None;
    }

    /// Adds a message for the next page, behind those already waiting.
    pub fn push_flash(&mut self, level: Level, message: String)
        ensures
            final(self)@ == with_flash(old(self)@, level, message@),
    {
        self.flashes.push(FlashMessage { level, message });
        assert(self@.flashes =~= old(self)@.flashes.push((level, message@)));
    }

    /// Hands out the waiting messages, oldest first, and leaves none behind.
    pub fn take_flashes(&mut self) -> (taken: Vec<FlashMessage>)
        ensures
            flashes_of(taken@) == old(self)@.flashes,
            final(self)@ == (SessionView { flashes: Seq::empty(), ..old(self)@ }),
    {
        let mut taken: Vec<FlashMessage> = Vec::new();
        std::mem::swap(&mut taken, &mut self.flashes);
        assert(self@.flashes =~= Seq::empty());
        taken
    }
}

/// After a sign-in the session names the user who signed in, whatever it
/// held before; after a sign-out it names nobody. Neither touches the
/// waiting messages.
pub proof fn lemma_sign_in_then_out(before: SessionView, user_id: u128)
    ensures
        signed_in(before, user_id).user == Some(user_id),
        signed_out(signed_in(before, user_id)).user is None,
        signed_out(before).user is None,
        signed_in(before, user_id).flashes == before.flashes,
        signed_out(before).flashes == before.flashes,
{
}

} // verus!
