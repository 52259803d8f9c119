//! The sign-up, sign-in and sign-out flows. Each flow that needs the store
//! is a machine: it is handed what has happened and says what to do next,
//! and whoever drives it talks to the store.

use crate::error_map::{distinct_fields, lemma_map_of_distinct, map_of, ErrorMap, Pairs};
use crate::forms::{validate_signin, validate_signup, SignInData, SignUpData};
use crate::models::{ErrorKind, NewUser, UpsertUser, User};
use crate::password::credential_matches;
use crate::session::{signed_in, signed_out, with_flash, Level, Session, SessionView};
use vstd::prelude::*;

verus! {

/// How a request ends.
#[derive(Debug)]
pub enum Reply {
    /// Send the client to `location`; `error` says what went wrong, if
    /// anything did.
    Redirect { error: Option<ErrorKind>, location: String },
    /// Something failed that the client cannot mend.
    ServerError,
}

/// How a request ends, as plain values.
pub enum ReplyView {
    Redirect { error: Option<ErrorKind>, location: Seq<char> },
    ServerError,
}

impl View for Reply {
    type V = ReplyView;

    open spec fn view(&self) -> ReplyView {
        match self {
            Reply::Redirect { error, location } => ReplyView::Redirect {
                error: *error,
                location: location@,
            },
            Reply::ServerError => ReplyView::ServerError,
        }
    }
}

/// The reply that sends the client to `location`.
pub open spec fn redirect(error: Option<ErrorKind>, location: Seq<char>) -> ReplyView {
    ReplyView::Redirect { error, location }
}

/// One error flash for each message, in the order of the pairs.
pub open spec fn error_flashes(pairs: Pairs) -> Seq<(Level, Seq<char>)> {
    Seq::new(pairs.len(), |i: int| (Level::Error, pairs[i].1))
}

/// `after` is `before` with one more error flash for each field of
/// `messages`, in some order, and is otherwise unchanged.
pub open spec fn shows_messages(
    before: SessionView,
    after: SessionView,
    messages: Map<Seq<char>, Seq<char>>,
) -> bool {
    exists|pairs: Pairs|
        {
            &&& distinct_fields(pairs)
            &&& map_of(pairs) == messages
            &&& after == (SessionView {
                flashes: before.flashes + #[trigger] error_flashes(pairs),
                ..before
            })
        }
}

/// Adds one error flash to the session for each message of `messages`.
pub fn flash_errors(session: &mut Session, messages: &ErrorMap)
    requires
        messages.wf(),
    ensures
        shows_messages(old(session)@, final(session)@, messages@),
        final(session)@.flashes.len() == old(session)@.flashes.len() + messages@.dom().len(),
{
    let texts = messages.messages();
    let ghost pairs = messages.pairs();
    let ghost before = session@;
    proof {
        lemma_map_of_distinct(pairs);
    }
    let mut i: usize = 0;
    while i < texts.len()
        invariant
            i <= texts.len(),
            texts@.len() == pairs.len(),
            forall|j: int| 0 <= j < texts@.len() ==> (#[trigger] texts@[j])@ == pairs[j].1,
            session@ == (SessionView {
                flashes: before.flashes + error_flashes(pairs.take(i as int)),
                ..before
            }),
        decreases texts.len() - i,
    {
        session.push_flash(Level::Error, texts[i].clone());
        proof {
            assert(error_flashes(pairs.take(i as int + 1)) =~= error_flashes(
                pairs.take(i as int),
            ).push((Level::Error, pairs[i as int].1)));
            assert(session@.flashes =~= before.flashes + error_flashes(
                pairs.take(i as int + 1),
            ));
        }
        i = i + 1;
    }
    assert(pairs.take(i as int) =~= pairs);
}

/// Where a sign-up stands.
pub enum SignUpState {
    /// Nothing has been submitted yet.
    Start,
    /// The form was valid; the store is asked whether the username is taken.
    ProbingUsername(UpsertUser),
    /// The username is free; the store is asked whether the e-mail address
    /// is taken.
    ProbingEmail(UpsertUser),
    /// Both are free; the store is asked to write the row.
    Creating,
    /// The reply has been given.
    Done,
}

/// What has happened in a sign-up.
pub enum SignUpEvent {
    /// The visitor sent the form.
    Submitted(SignUpData),
    /// The store said whether the username is taken.
    UsernameProbed(bool),
    /// The store said whether the e-mail address is taken.
    EmailProbed(bool),
    /// The store wrote the row, or said why it could not.
    Created(Result<(), ErrorKind>),
}

/// What to do next in a sign-up.
pub enum SignUpAction {
    /// Ask the store whether an account has this username.
    ProbeUsername(String),
    /// Ask the store whether an account has this e-mail address.
    ProbeEmail(String),
    /// Ask the store to write this row.
    Create(NewUser),
    /// Answer the client.
    Answer(Reply),
}

/// The step of a sign-up: from the state `state`, the event `event` and the
/// session `before` to the state `next`, the action `action` and the session
/// `after`.
pub open spec fn signup_step(
    state: SignUpState,
    event: SignUpEvent,
    before: SessionView,
    next: SignUpState,
    action: SignUpAction,
    after: SessionView,
) -> bool {
    match (state, event) {
        (SignUpState::Start, SignUpEvent::Submitted(form)) => if form.is_valid() {
            &&& after == before
            &&& next matches SignUpState::ProbingUsername(user) && user.username@
                == form.username@ && user.email@ == form.email@ && user.password@
                == form.password@
            &&& action matches SignUpAction::ProbeUsername(name) && name@ == form.username@
        } else {
            &&& next is Done
            &&& action matches SignUpAction::Answer(reply) && reply@ == redirect(
                Some(ErrorKind::Validation),
                "/signup"@,
            )
            &&& shows_messages(before, after, form.messages())
        },
        (SignUpState::ProbingUsername(user), SignUpEvent::UsernameProbed(taken)) => if taken {
            &&& next is Done
            &&& action matches SignUpAction::Answer(reply) && reply@ == redirect(
                Some(ErrorKind::Conflict),
                "/signup"@,
            )
            &&& after == with_flash(before, Level::Error, "Username is already taken"@)
        } else {
            &&& after == before
            &&& next matches SignUpState::ProbingEmail(kept) && kept.username@ == user.username@
                && kept.email@ == user.email@ && kept.password@ == user.password@
            &&& action matches SignUpAction::ProbeEmail(email) && email@ == user.email@
        },
        (SignUpState::ProbingEmail(user), SignUpEvent::EmailProbed(taken)) => if taken {
            &&& next is Done
            &&& action matches SignUpAction::Answer(reply) && reply@ == redirect(
                Some(ErrorKind::Conflict),
                "/signup"@,
            )
            &&& after == with_flash(before, Level::Error, "Email is already taken"@)
        } else {
            &&& after == before
            &&& {
                ||| (next is Creating && (action matches SignUpAction::Create(row) && User::opens(
                    user,
                    row,
                )))
                ||| (next is Done && (action matches SignUpAction::Answer(reply) && reply@
                    == ReplyView::ServerError))
            }
        },
        (SignUpState::Creating, SignUpEvent::Created(Ok(()))) => {
            &&& next is Done
            &&& after == before
            &&& action matches SignUpAction::Answer(reply) && reply@ == redirect(None, "/users"@)
        },
        (SignUpState::Creating, SignUpEvent::Created(Err(ErrorKind::Conflict))) => {
            &&& next is Done
            &&& action matches SignUpAction::Answer(reply) && reply@ == redirect(
                Some(ErrorKind::Conflict),
                "/signup"@,
            )
            &&& after == with_flash(before, Level::Error, "Username or email is already taken"@)
        },
        _ => {
            &&& next is Done
            &&& after == before
            &&& action matches SignUpAction::Answer(reply) && reply@ == ReplyView::ServerError
        },
    }
}

/// Takes a sign-up one step further. An event that does not belong to the
/// state ends the sign-up with a server error.
pub fn signup(state: SignUpState, event: SignUpEvent, session: &mut Session) -> (r: (
    SignUpState,
    SignUpAction,
))
    ensures
        signup_step(state, event, old(session)@, r.0, r.1, final(session)@),
{
    match state {
        SignUpState::Start => match event {
            SignUpEvent::Submitted(form) => match validate_signup(&form) {
                Ok(()) => {
                    let name = form.username.clone();
                    let user = UpsertUser {
                        email: form.email,
                        password: form.password,
                        username: form.username,
                    };
                    (SignUpState::ProbingUsername(user), SignUpAction::ProbeUsername(name))
                },
                Err(messages) => {
                    flash_errors(session, &messages);
                    (SignUpState::Done, answer(Some(ErrorKind::Validation), "/signup"))
                },
            },
            _ => (SignUpState::Done, SignUpAction::Answer(Reply::ServerError)),
        },
        SignUpState::ProbingUsername(user) => match event {
            SignUpEvent::UsernameProbed(taken) => {
                if taken {
                    session.push_flash(Level::Error, "Username is already taken".to_owned());
                    (SignUpState::Done, answer(Some(ErrorKind::Conflict), "/signup"))
                } else {
                    let email = user.email.clone();
                    (SignUpState::ProbingEmail(user), SignUpAction::ProbeEmail(email))
                }
            },
            _ => (SignUpState::Done, SignUpAction::Answer(Reply::ServerError)),
        },
        SignUpState::ProbingEmail(user) => match event {
            SignUpEvent::EmailProbed(taken) => {
                if taken {
                    session.push_flash(Level::Error, "Email is already taken".to_owned());
                    (SignUpState::Done, answer(Some(ErrorKind::Conflict), "/signup"))
                } else {
                    match User::create(user) {
                        Ok(row) => (SignUpState::Creating, SignUpAction::Create(row)),
                        Err(_) => (SignUpState::Done, SignUpAction::Answer(Reply::ServerError)),
                    }
                }
            },
            _ => (SignUpState::Done, SignUpAction::Answer(Reply::ServerError)),
        },
        SignUpState::Creating => match event {
            SignUpEvent::Created(Ok(())) => (SignUpState::Done, answer(None, "/users")),
            SignUpEvent::Created(Err(ErrorKind::Conflict)) => {
                session.push_flash(Level::Error, "Username or email is already taken".to_owned());
                (SignUpState::Done, answer(Some(ErrorKind::Conflict), "/signup"))
            },
            _ => (SignUpState::Done, SignUpAction::Answer(Reply::ServerError)),
        },
        SignUpState::Done => (SignUpState::Done, SignUpAction::Answer(Reply::ServerError)),
    }
}

/// The action that sends the client to `location`.
fn answer(error: Option<ErrorKind>, location: &str) -> (action: SignUpAction)
    ensures
        action matches SignUpAction::Answer(reply) && reply@ == redirect(error, location@),
{
    SignUpAction::Answer(Reply::Redirect { error, location: location.to_owned() })
}

/// A sign-up that finds the username or the e-mail address taken, before it
/// writes or when the store refuses the row, ends with a conflict: it sends
/// the client back to the form with an error flash, and asks the store to
/// write nothing.
pub proof fn lemma_signup_conflict(
    state: SignUpState,
    event: SignUpEvent,
    before: SessionView,
    next: SignUpState,
    action: SignUpAction,
    after: SessionView,
)
    requires
        signup_step(state, event, before, next, action, after),
        ({
            ||| (state is ProbingUsername && event == SignUpEvent::UsernameProbed(true))
            ||| (state is ProbingEmail && event == SignUpEvent::EmailProbed(true))
            ||| (state is Creating && event == SignUpEvent::Created(Err(ErrorKind::Conflict)))
        }),
    ensures
        !(action is Create),
        next is Done,
        action matches SignUpAction::Answer(reply) && reply@ == redirect(
            Some(ErrorKind::Conflict),
            "/signup"@,
        ),
        after.flashes.len() == before.flashes.len() + 1,
        after.flashes.last().0 == Level::Error,
        after.user == before.user,
{
}

/// A sign-up asks the store to write a row only after the store has said
/// that the e-mail address is free, and it asks about the e-mail address
/// only after the store has said that the username is free. The row then
/// holds a hash of the password that was submitted.
pub proof fn lemma_signup_writes_only_when_free(
    state: SignUpState,
    event: SignUpEvent,
    before: SessionView,
    next: SignUpState,
    action: SignUpAction,
    after: SessionView,
)
    requires
        signup_step(state, event, before, next, action, after),
    ensures
        action is Create ==> state is ProbingEmail && event == SignUpEvent::EmailProbed(false)
            && next is Creating,
        action matches SignUpAction::Create(row) ==> User::opens(state->ProbingEmail_0, row),
        next is ProbingEmail ==> state is ProbingUsername && event == SignUpEvent::UsernameProbed(
            false,
        ),
        next is ProbingUsername ==> state is Start && event is Submitted
            && event->Submitted_0.is_valid(),
        next is Creating ==> action is Create,
{
}

/// How many steps a sign-up has left at most.
pub open spec fn signup_steps_left(state: SignUpState) -> nat {
    match state {
        SignUpState::Start => 4,
        SignUpState::ProbingUsername(_) => 3,
        SignUpState::ProbingEmail(_) => 2,
        SignUpState::Creating => 1,
        SignUpState::Done => 0,
    }
}

/// Every step of a sign-up either answers the client and ends, or asks the
/// store and comes closer to the end: whoever drives it is done after four
/// steps.
pub proof fn lemma_signup_ends(
    state: SignUpState,
    event: SignUpEvent,
    before: SessionView,
    next: SignUpState,
    action: SignUpAction,
    after: SessionView,
)
    requires
        signup_step(state, event, before, next, action, after),
    ensures
        action is Answer <==> next is Done,
        !(state is Done) ==> signup_steps_left(next) < signup_steps_left(state),
        after.user == before.user,
        after.csrf_token == before.csrf_token,
{
}

/// What the store holds of an account, as far as a sign-up can clash with
/// it.
pub struct Account {
    pub username: Seq<char>,
    pub email: Seq<char>,
}

/// Some account has the username.
pub open spec fn username_taken(accounts: Seq<Account>, username: Seq<char>) -> bool {
    exists|i: int| 0 <= i < accounts.len() && (#[trigger] accounts[i]).username == username
}

/// Some account has the e-mail address.
pub open spec fn email_taken(accounts: Seq<Account>, email: Seq<char>) -> bool {
    exists|i: int| 0 <= i < accounts.len() && (#[trigger] accounts[i]).email == email
}

/// No two accounts share a username or an e-mail address.
pub open spec fn accounts_apart(accounts: Seq<Account>) -> bool {
    forall|i: int, j: int|
        0 <= i < j < accounts.len() ==> (#[trigger] accounts[i]).username != (
        #[trigger] accounts[j]).username && accounts[i].email != accounts[j].email
}

/// What one step of a sign-up gave.
pub struct SignUpTurn {
    pub next: SignUpState,
    pub action: SignUpAction,
    pub after: SessionView,
}

/// The first three steps of a sign-up with `form`, driven against a store
/// that holds `accounts` and answers each question truthfully.
pub open spec fn signup_against(
    accounts: Seq<Account>,
    form: SignUpData,
    before: SessionView,
    first: SignUpTurn,
    second: SignUpTurn,
    third: SignUpTurn,
) -> bool {
    &&& signup_step(
        SignUpState::Start,
        SignUpEvent::Submitted(form),
        before,
        first.next,
        first.action,
        first.after,
    )
    &&& first.action matches SignUpAction::ProbeUsername(name) ==> signup_step(
        first.next,
        SignUpEvent::UsernameProbed(username_taken(accounts, name@)),
        first.after,
        second.next,
        second.action,
        second.after,
    )
    &&& first.action is ProbeUsername ==> (second.action matches SignUpAction::ProbeEmail(email)
        ==> signup_step(
        second.next,
        SignUpEvent::EmailProbed(email_taken(accounts, email@)),
        second.after,
        third.next,
        third.action,
        third.after,
    ))
}

/// The row that the sign-up asked the store to write, if it came that far.
pub open spec fn row_asked_for(first: SignUpTurn, second: SignUpTurn, third: SignUpTurn) -> Option<
    NewUser,
> {
    if first.action is ProbeUsername && second.action is ProbeEmail {
        match third.action {
            SignUpAction::Create(row) => Some(row),
            _ => None,
        }
    } else {
        None
    }
}

/// The reply that a conflict ends in.
pub open spec fn ends_in_conflict(turn: SignUpTurn) -> bool {
    &&& turn.next is Done
    &&& turn.action matches SignUpAction::Answer(reply) && reply@ == redirect(
        Some(ErrorKind::Conflict),
        "/signup"@,
    )
}

/// A valid sign-up whose username or e-mail address belongs to an account
/// ends in a conflict and asks the store to write nothing. Where it does
/// ask for a row, the row clashes with no account, so the accounts stay
/// apart once it is written.
pub proof fn lemma_signup_keeps_accounts_apart(
    accounts: Seq<Account>,
    form: SignUpData,
    before: SessionView,
    first: SignUpTurn,
    second: SignUpTurn,
    third: SignUpTurn,
)
    requires
        form.is_valid(),
        signup_against(accounts, form, before, first, second, third),
    ensures
        first.action is ProbeUsername,
        !(second.action is Create),
        username_taken(accounts, form.username@) ==> ends_in_conflict(second),
        !username_taken(accounts, form.username@) ==> second.action is ProbeEmail,
        !username_taken(accounts, form.username@) && email_taken(accounts, form.email@)
            ==> ends_in_conflict(third),
        username_taken(accounts, form.username@) || email_taken(accounts, form.email@)
            ==> row_asked_for(first, second, third) is None,
        row_asked_for(first, second, third) matches Some(row) ==> {
            &&& row.username@ == form.username@
            &&& row.email@ == form.email@
            &&& credential_matches(form.password@, row.password@)
            &&& accounts_apart(accounts) ==> accounts_apart(
                accounts.push(Account { username: row.username@, email: row.email@ }),
            )
        },
{
    if row_asked_for(first, second, third) is Some && accounts_apart(accounts) {
        let row = third.action->Create_0;
        let added = Account { username: row.username@, email: row.email@ };
        let grown = accounts.push(added);
        assert forall|i: int, j: int| 0 <= i < j < grown.len() implies (#[trigger] grown[i]).username
            != (#[trigger] grown[j]).username && grown[i].email != grown[j].email by {
            if j == accounts.len() {
                assert(grown[i] == accounts[i]);
            } else {
                assert(grown[i] == accounts[i]);
                assert(grown[j] == accounts[j]);
            }
        }
    }
}

/// Where a sign-in stands.
pub enum SignInState {
    /// Nothing has been submitted yet.
    Start,
    /// The form was valid; the store is asked for the account of the
    /// username.
    LookingUp(SignInData),
    /// The reply has been given.
    Done,
}

/// What has happened in a sign-in.
pub enum SignInEvent {
    /// The visitor sent the form.
    Submitted(SignInData),
    /// The store gave the account of the username, or found none.
    LookedUp(Option<User>),
}

/// What to do next in a sign-in.
pub enum SignInAction {
    /// Ask the store for the account with this username.
    LookUp(String),
    /// Answer the client.
    Answer(Reply),
}

/// The step of a sign-in: from the state `state`, the event `event` and the
/// session `before` to the state `next`, the action `action` and the session
/// `after`.
pub open spec fn signin_step(
    state: SignInState,
    event: SignInEvent,
    before: SessionView,
    next: SignInState,
    action: SignInAction,
    after: SessionView,
) -> bool {
    match (state, event) {
        (SignInState::Start, SignInEvent::Submitted(form)) => if form.is_valid() {
            &&& after == before
            &&& next matches SignInState::LookingUp(kept) && kept.username@ == form.username@
                && kept.password@ == form.password@
            &&& action matches SignInAction::LookUp(name) && name@ == form.username@
        } else {
            &&& next is Done
            &&& action matches SignInAction::Answer(reply) && reply@ == redirect(
                Some(ErrorKind::Validation),
                "/signin"@,
            )
            &&& shows_messages(before, after, form.messages())
        },
        (SignInState::LookingUp(form), SignInEvent::LookedUp(found)) => if User::admits(
            found,
            form,
        ) {
            &&& next is Done
            &&& action matches SignInAction::Answer(reply) && reply@ == redirect(None, "/"@)
            &&& after == with_flash(
                signed_in(before, found->0.id),
                Level::Success,
                "Welcome to our website"@,
            )
        } else {
            &&& next is Done
            &&& action matches SignInAction::Answer(reply) && reply@ == redirect(
                Some(ErrorKind::Auth),
                "/signin"@,
            )
            &&& after == with_flash(before, Level::Error, "invalid credentials"@)
        },
        _ => {
            &&& next is Done
            &&& after == before
            &&& action matches SignInAction::Answer(reply) && reply@ == ReplyView::ServerError
        },
    }
}

/// Takes a sign-in one step further. An event that does not belong to the
/// state ends the sign-in with a server error.
pub fn signin(state: SignInState, event: SignInEvent, session: &mut Session) -> (r: (
    SignInState,
    SignInAction,
))
    ensures
        signin_step(state, event, old(session)@, r.0, r.1, final(session)@),
{
    match state {
        SignInState::Start => match event {
            SignInEvent::Submitted(form) => match validate_signin(&form) {
                Ok(()) => {
                    let name = form.username.clone();
                    (SignInState::LookingUp(form), SignInAction::LookUp(name))
                },
                Err(messages) => {
                    flash_errors(session, &messages);
                    (
                        SignInState::Done,
                        SignInAction::Answer(
                            Reply::Redirect {
                                error: Some(ErrorKind::Validation),
                                location: "/signin".to_owned(),
                            },
                        ),
                    )
                },
            },
            _ => (SignInState::Done, SignInAction::Answer(Reply::ServerError)),
        },
        SignInState::LookingUp(form) => match event {
            SignInEvent::LookedUp(found) => match User::signin(found, &form) {
                Ok(user) => {
                    session.set_authenticated(user.id);
                    session.push_flash(Level::Success, "Welcome to our website".to_owned());
                    (
                        SignInState::Done,
                        SignInAction::Answer(
                            Reply::Redirect { error: None, location: "/".to_owned() },
                        ),
                    )
                },
                Err(_) => {
                    session.push_flash(Level::Error, "invalid credentials".to_owned());
                    (
                        SignInState::Done,
                        SignInAction::Answer(
                            Reply::Redirect {
                                error: Some(ErrorKind::Auth),
                                location: "/signin".to_owned(),
                            },
                        ),
                    )
                },
            },
            _ => (SignInState::Done, SignInAction::Answer(Reply::ServerError)),
        },
        SignInState::Done => (SignInState::Done, SignInAction::Answer(Reply::ServerError)),
    }
}

/// How many steps a sign-in has left at most.
pub open spec fn signin_steps_left(state: SignInState) -> nat {
    match state {
        SignInState::Start => 2,
        SignInState::LookingUp(_) => 1,
        SignInState::Done => 0,
    }
}

/// Every step of a sign-in either answers the client and ends, or asks the
/// store and comes closer to the end. Only a sign-in that is admitted
/// changes who is signed in.
pub proof fn lemma_signin_ends(
    state: SignInState,
    event: SignInEvent,
    before: SessionView,
    next: SignInState,
    action: SignInAction,
    after: SessionView,
)
    requires
        signin_step(state, event, before, next, action, after),
    ensures
        action is Answer <==> next is Done,
        !(state is Done) ==> signin_steps_left(next) < signin_steps_left(state),
        after.user != before.user ==> state is LookingUp && event is LookedUp && User::admits(
            event->LookedUp_0,
            state->LookingUp_0,
        ),
        after.csrf_token == before.csrf_token,
{
}

/// Ends the session's sign-in and sends the client to the sign-in form.
pub fn signout(session: &mut Session) -> (reply: Reply)
    ensures
        final(session)@ == signed_out(old(session)@),
        reply@ == redirect(None, "/signin"@),
{
    session.clear_authenticated();
    Reply::Redirect { error: None, location: "/signin".to_owned() }
}

/// What a sign-in action shows the client: the reply, if it is one.
pub open spec fn shown_reply(action: SignInAction) -> Option<ReplyView> {
    match action {
        SignInAction::Answer(reply) => Some(reply@),
        SignInAction::LookUp(_) => None,
    }
}

/// A sign-in with a wrong password and a sign-in with an unknown username
/// end alike: the same reply, the same flash, the same session.
pub proof fn lemma_signin_failures_alike(
    form: SignInData,
    user: User,
    before: SessionView,
    wrong_next: SignInState,
    wrong_action: SignInAction,
    wrong_after: SessionView,
    unknown_next: SignInState,
    unknown_action: SignInAction,
    unknown_after: SessionView,
)
    requires
        !credential_matches(form.password@, user.password@),
        signin_step(
            SignInState::LookingUp(form),
            SignInEvent::LookedUp(Some(user)),
            before,
            wrong_next,
            wrong_action,
            wrong_after,
        ),
        signin_step(
            SignInState::LookingUp(form),
            SignInEvent::LookedUp(None),
            before,
            unknown_next,
            unknown_action,
            unknown_after,
        ),
    ensures
        wrong_next is Done && unknown_next is Done,
        shown_reply(wrong_action) == shown_reply(unknown_action),
        shown_reply(wrong_action) == Some(redirect(Some(ErrorKind::Auth), "/signin"@)),
        wrong_after == unknown_after,
        wrong_after == with_flash(before, Level::Error, "invalid credentials"@),
{
}

/// After a sign-in that succeeds, the session names the account that signed
/// in; after the sign-out that follows, it names nobody.
pub proof fn lemma_signin_then_signout(
    form: SignInData,
    user: User,
    before: SessionView,
    next: SignInState,
    action: SignInAction,
    after: SessionView,
)
    requires
        User::admits(Some(user), form),
        signin_step(
            SignInState::LookingUp(form),
            SignInEvent::LookedUp(Some(user)),
            before,
            next,
            action,
            after,
        ),
    ensures
        after.user == Some(user.id),
        shown_reply(action) == Some(redirect(None, "/"@)),
        signed_out(after).user is None,
{
}

/// Who has signed up can sign in: where a sign-up with `form` asked for a
/// row and the store kept it as `user`, a sign-in with the same username
/// and password is admitted, and the session then names that account.
pub proof fn lemma_signup_then_signin(
    accounts: Seq<Account>,
    form: SignUpData,
    start: SessionView,
    first: SignUpTurn,
    second: SignUpTurn,
    third: SignUpTurn,
    user: User,
    attempt: SignInData,
    before: SessionView,
    next: SignInState,
    action: SignInAction,
    after: SessionView,
)
    requires
        form.is_valid(),
        signup_against(accounts, form, start, first, second, third),
        row_asked_for(first, second, third) matches Some(row) && user.id == row.id
            && user.username@ == row.username@ && user.password@ == row.password@,
        attempt.username@ == form.username@,
        attempt.password@ == form.password@,
        signin_step(
            SignInState::LookingUp(attempt),
            SignInEvent::LookedUp(Some(user)),
            before,
            next,
            action,
            after,
        ),
    ensures
        attempt.is_valid(),
        User::admits(Some(user), attempt),
        after.user == Some(user.id),
        shown_reply(action) == Some(redirect(None, "/"@)),
{
    lemma_signup_keeps_accounts_apart(accounts, form, start, first, second, third);
}

} // verus!
