//! The sign-up and sign-in forms, and the rules that their fields must meet.

use crate::error_map::ErrorMap;
use crate::validation::{
    all_have_messages, breaks_of, email_accepted, extract_errors, has_messages, messages_of,
    password_is_strong, username_matches, username_well_formed, validate_email,
    validate_password, KindView, Records, RuleBreak, ValidationError,
    ValidationErrors, ValidationErrorsKind,
};
use vstd::prelude::*;

verus! {

/// What a visitor sends to open an account. It holds the password as
/// typed, so it is never printed.
pub struct SignUpData {
    pub username: String,
    pub email: String,
    pub password: String,
    pub password2: String,
}

/// What a visitor sends to sign in. It holds the password as typed, so it
/// is never printed.
pub struct SignInData {
    pub username: String,
    pub password: String,
}

/// What the identity provider sends back after the visitor has consented:
/// the code to exchange, and the anti-forgery token that the consent link
/// carried.
pub struct RedirectQuery {
    pub code: String,
    pub state: String,
}

/// A broken rule with a message.
pub open spec fn rule_break(code: Seq<char>, message: Seq<char>) -> RuleBreak {
    RuleBreak { code, message: Some(message) }
}

/// The rules that a username breaks, in the order in which they are checked:
/// at least 4 characters, then the shape of a username.
pub open spec fn username_breaks(username: Seq<char>) -> Seq<RuleBreak> {
    (if username.len() < 4 {
        seq![rule_break("length"@, "Username must be greater than 4 chars"@)]
    } else {
        seq![]
    }) + (if !username_well_formed(username) {
        seq![rule_break("regex"@, "Username must be alphanumeric and/or dashes only"@)]
    } else {
        seq![]
    })
}

/// The rule that an e-mail address breaks, if it is not acceptable.
pub open spec fn email_breaks(email: Seq<char>) -> Seq<RuleBreak> {
    if !email_accepted(email) {
        seq![rule_break("email"@, "invalid email"@)]
    } else {
        seq![]
    }
}

/// The rules that a password breaks, in the order in which they are checked:
/// at least 4 characters, then the password rule.
pub open spec fn password_breaks(password: Seq<char>) -> Seq<RuleBreak> {
    (if password.len() < 4 {
        seq![rule_break("length"@, "Password must be greater than 4 chars"@)]
    } else {
        seq![]
    }) + (if !password_is_strong(password) {
        seq![
            rule_break(
                "Password Validation Failed"@,
                "password must be 4-50 characters long, contain letters and numbers, and must not contain spaces, special characters, or emoji"@,
            ),
        ]
    } else {
        seq![]
    })
}

/// The rule that a repeated password breaks, if it differs from the password.
pub open spec fn confirmation_breaks(password: Seq<char>, password2: Seq<char>) -> Seq<RuleBreak> {
    if password != password2 {
        seq![rule_break("must_match"@, "passwords are not identical"@)]
    } else {
        seq![]
    }
}

/// The record of a field: none where it broke no rule.
pub open spec fn field_record(field: Seq<char>, breaks: Seq<RuleBreak>) -> Records {
    if breaks.len() == 0 {
        seq![]
    } else {
        seq![(field, KindView::Field(breaks))]
    }
}

/// The message shown for a username: where it breaks a rule, it breaks the
/// one on its shape, which is checked last.
pub open spec fn username_message(username: Seq<char>) -> Option<Seq<char>> {
    if !username_well_formed(username) {
        Some("Username must be alphanumeric and/or dashes only"@)
    } else {
        None
    }
}

/// The message shown for an e-mail address.
pub open spec fn email_message(email: Seq<char>) -> Option<Seq<char>> {
    if !email_accepted(email) {
        Some("invalid email"@)
    } else {
        None
    }
}

/// The message shown for a password: that of the password rule where it is
/// broken, else that of the length rule.
pub open spec fn password_message(password: Seq<char>) -> Option<Seq<char>> {
    if !password_is_strong(password) {
        Some(
            "password must be 4-50 characters long, contain letters and numbers, and must not contain spaces, special characters, or emoji"@,
        )
    } else if password.len() < 4 {
        Some("Password must be greater than 4 chars"@)
    } else {
        None
    }
}

/// The message shown for a repeated password.
pub open spec fn confirmation_message(password: Seq<char>, password2: Seq<char>) -> Option<
    Seq<char>,
> {
    if password != password2 {
        Some("passwords are not identical"@)
    } else {
        None
    }
}

/// The map with the message for `field`, where there is one.
pub open spec fn with_message(
    messages: Map<Seq<char>, Seq<char>>,
    field: Seq<char>,
    message: Option<Seq<char>>,
) -> Map<Seq<char>, Seq<char>> {
    match message {
        Some(m) => messages.insert(field, m),
        None => messages,
    }
}

/// The message of the rule that was checked last among those broken.
pub open spec fn last_message(breaks: Seq<RuleBreak>) -> Option<Seq<char>> {
    if breaks.len() == 0 {
        None
    } else {
        breaks.last().message
    }
}

/// Adding the record of a field adds the message of the last rule it broke.
pub proof fn lemma_messages_of_field(records: Records, field: Seq<char>, breaks: Seq<RuleBreak>)
    requires
        breaks.len() > 0 ==> breaks.last().message is Some,
    ensures
        messages_of(records + field_record(field, breaks)) == with_message(
            messages_of(records),
            field,
            last_message(breaks),
        ),
{
    let all = records + field_record(field, breaks);
    if breaks.len() == 0 {
        assert(all =~= records);
    } else {
        assert(all.drop_last() =~= records);
        assert(all.last() == (field, KindView::Field(breaks)));
    }
}

impl SignUpData {
    /// The records of the fields that break a rule: username, e-mail
    /// address, password, repeated password.
    pub open spec fn records(&self) -> Records {
        field_record("username"@, username_breaks(self.username@)) + field_record(
            "email"@,
            email_breaks(self.email@),
        ) + field_record("password"@, password_breaks(self.password@)) + field_record(
            "password2"@,
            confirmation_breaks(self.password@, self.password2@),
        )
    }

    /// Every field meets its rules.
    pub open spec fn is_valid(&self) -> bool {
        &&& username_well_formed(self.username@)
        &&& email_accepted(self.email@)
        &&& self.password@.len() >= 4
        &&& password_is_strong(self.password@)
        &&& self.password2@ == self.password@
    }

    /// The message shown for each field that breaks a rule.
    pub open spec fn messages(&self) -> Map<Seq<char>, Seq<char>> {
        with_message(
            with_message(
                with_message(
                    with_message(Map::empty(), "username"@, username_message(self.username@)),
                    "email"@,
                    email_message(self.email@),
                ),
                "password"@,
                password_message(self.password@),
            ),
            "password2"@,
            confirmation_message(self.password@, self.password2@),
        )
    }

    /// The records of a form turn into its messages, and a form is valid
    /// exactly when it has no record.
    pub proof fn lemma_records(&self)
        ensures
            messages_of(self.records()) == self.messages(),
            all_have_messages(self.records()),
            self.records().len() == 0 <==> self.is_valid(),
    {
        let r0 = Records::empty();
        let u = username_breaks(self.username@);
        let e = email_breaks(self.email@);
        let p = password_breaks(self.password@);
        let c = confirmation_breaks(self.password@, self.password2@);
        let r1 = r0 + field_record("username"@, u);
        let r2 = r1 + field_record("email"@, e);
        let r3 = r2 + field_record("password"@, p);
        let r4 = r3 + field_record("password2"@, c);
        assert(r1 =~= field_record("username"@, u));
        assert(r4 == self.records());
        lemma_messages_of_field(r0, "username"@, u);
        lemma_messages_of_field(r1, "email"@, e);
        lemma_messages_of_field(r2, "password"@, p);
        lemma_messages_of_field(r3, "password2"@, c);
        assert(messages_of(r0) == Map::<Seq<char>, Seq<char>>::empty());
        assert forall|i: int| 0 <= i < r4.len() implies has_messages((#[trigger] r4[i]).1) by {}
    }

    /// Checks every field against its rules and records the rules broken.
    pub fn validate(&self) -> (r: Result<(), ValidationErrors>)
        ensures
            r is Ok <==> self.is_valid(),
            r matches Err(errors) ==> errors@ == self.records(),
    {
        let mut entries: Vec<(String, ValidationErrorsKind)> = Vec::new();
        assert(entries@.map_values(|e: (String, ValidationErrorsKind)| (e.0@, e.1@)) =~= Records::empty());
        let mut errors = ValidationErrors { entries };
        record_field(&mut errors, "username", check_username(&self.username));
        record_field(&mut errors, "email", check_email(&self.email));
        record_field(&mut errors, "password", check_password(&self.password));
        record_field(&mut errors, "password2", check_confirmation(&self.password, &self.password2));
        proof {
            self.lemma_records();
            assert(errors@ =~= self.records());
        }
        if errors.entries.len() == 0 {
            Ok(())
        } else {
            Err(errors)
        }
    }
}

impl SignInData {
    /// The records of the fields that break a rule: username, password.
    pub open spec fn records(&self) -> Records {
        field_record("username"@, username_breaks(self.username@)) + field_record(
            "password"@,
            password_breaks(self.password@),
        )
    }

    /// Every field meets its rules.
    pub open spec fn is_valid(&self) -> bool {
        &&& username_well_formed(self.username@)
        &&& self.password@.len() >= 4
        &&& password_is_strong(self.password@)
    }

    /// The message shown for each field that breaks a rule.
    pub open spec fn messages(&self) -> Map<Seq<char>, Seq<char>> {
        with_message(
            with_message(Map::empty(), "username"@, username_message(self.username@)),
            "password"@,
            password_message(self.password@),
        )
    }

    /// The records of a form turn into its messages, and a form is valid
    /// exactly when it has no record.
    pub proof fn lemma_records(&self)
        ensures
            messages_of(self.records()) == self.messages(),
            all_have_messages(self.records()),
            self.records().len() == 0 <==> self.is_valid(),
    {
        let r0 = Records::empty();
        let u = username_breaks(self.username@);
        let p = password_breaks(self.password@);
        let r1 = r0 + field_record("username"@, u);
        let r2 = r1 + field_record("password"@, p);
        assert(r1 =~= field_record("username"@, u));
        assert(r2 == self.records());
        lemma_messages_of_field(r0, "username"@, u);
        lemma_messages_of_field(r1, "password"@, p);
        assert(messages_of(r0) == Map::<Seq<char>, Seq<char>>::empty());
        assert forall|i: int| 0 <= i < r2.len() implies has_messages((#[trigger] r2[i]).1) by {}
    }

    /// Checks every field against its rules and records the rules broken.
    pub fn validate(&self) -> (r: Result<(), ValidationErrors>)
        ensures
            r is Ok <==> self.is_valid(),
            r matches Err(errors) ==> errors@ == self.records(),
    {
        let mut entries: Vec<(String, ValidationErrorsKind)> = Vec::new();
        assert(entries@.map_values(|e: (String, ValidationErrorsKind)| (e.0@, e.1@)) =~= Records::empty());
        let mut errors = ValidationErrors { entries };
        record_field(&mut errors, "username", check_username(&self.username));
        record_field(&mut errors, "password", check_password(&self.password));
        proof {
            self.lemma_records();
            assert(errors@ =~= self.records());
        }
        if errors.entries.len() == 0 {
            Ok(())
        } else {
            Err(errors)
        }
    }
}

/// Appends the record of `field` to `errors`, where `broken` is not empty.
fn record_field(errors: &mut ValidationErrors, field: &str, broken: Vec<ValidationError>)
    ensures
        final(errors)@ == old(errors)@ + field_record(field@, breaks_of(broken@)),
{
    if broken.len() > 0 {
        let ghost breaks = breaks_of(broken@);
        errors.entries.push((field.to_owned(), ValidationErrorsKind::Field(broken)));
        assert(errors@ =~= old(errors)@ + field_record(field@, breaks));
    } else {
        assert(errors@ =~= old(errors)@ + field_record(field@, breaks_of(broken@)));
    }
}

/// The rules that `username` breaks.
pub fn check_username(username: &str) -> (broken: Vec<ValidationError>)
    ensures
        breaks_of(broken@) == username_breaks(username@),
{
    let mut broken: Vec<ValidationError> = Vec::new();
    if username.unicode_len() < 4 {
        broken.push(
            ValidationError::with_message("length", "Username must be greater than 4 chars"),
        );
    }
    if !username_matches(username) {
        broken.push(
            ValidationError::with_message(
                "regex",
                "Username must be alphanumeric and/or dashes only",
            ),
        );
    }
    assert(breaks_of(broken@) =~= username_breaks(username@));
    broken
}

/// The rule that `email` breaks, if any.
pub fn check_email(email: &str) -> (broken: Vec<ValidationError>)
    ensures
        breaks_of(broken@) == email_breaks(email@),
{
    let mut broken: Vec<ValidationError> = Vec::new();
    if !validate_email(email) {
        broken.push(ValidationError::with_message("email", "invalid email"));
    }
    assert(breaks_of(broken@) =~= email_breaks(email@));
    broken
}

/// The rules that `password` breaks.
pub fn check_password(password: &str) -> (broken: Vec<ValidationError>)
    ensures
        breaks_of(broken@) == password_breaks(password@),
{
    let mut broken: Vec<ValidationError> = Vec::new();
    if password.unicode_len() < 4 {
        broken.push(
            ValidationError::with_message("length", "Password must be greater than 4 chars"),
        );
    }
    match validate_password(password) {
        Ok(()) => {},
        Err(e) => {
            let ValidationError { code, message: _ } = e;
            broken.push(
                ValidationError {
                    code,
                    message: Some(
                        "password must be 4-50 characters long, contain letters and numbers, and must not contain spaces, special characters, or emoji".to_owned(),
                    ),
                },
            );
        },
    }
    assert(breaks_of(broken@) =~= password_breaks(password@));
    broken
}

/// The rule that the repeated password breaks, if any.
pub fn check_confirmation(password: &String, password2: &String) -> (broken: Vec<ValidationError>)
    ensures
        breaks_of(broken@) == confirmation_breaks(password@, password2@),
{
    let mut broken: Vec<ValidationError> = Vec::new();
    if !(*password == *password2) {
        broken.push(ValidationError::with_message("must_match", "passwords are not identical"));
    }
    assert(breaks_of(broken@) =~= confirmation_breaks(password@, password2@));
    broken
}

/// Checks a sign-up form and gives one message for each field that breaks
/// a rule.
pub fn validate_signup(form: &SignUpData) -> (r: Result<(), ErrorMap>)
    ensures
        r is Ok <==> form.is_valid(),
        r matches Err(messages) ==> messages.wf() && messages@ == form.messages(),
{
    match form.validate() {
        Ok(()) => Ok(()),
        Err(errors) => {
            proof {
                form.lemma_records();
            }
            Err(extract_errors(&errors))
        },
    }
}

/// Checks a sign-in form and gives one message for each field that breaks
/// a rule.
pub fn validate_signin(form: &SignInData) -> (r: Result<(), ErrorMap>)
    ensures
        r is Ok <==> form.is_valid(),
        r matches Err(messages) ==> messages.wf() && messages@ == form.messages(),
{
    match form.validate() {
        Ok(()) => Ok(()),
        Err(errors) => {
            proof {
                form.lemma_records();
            }
            Err(extract_errors(&errors))
        },
    }
}

} // verus!
