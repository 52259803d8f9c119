//! Rules for the fields of the sign-up and sign-in forms.

use crate::error_map::ErrorMap;
use vstd::prelude::*;
use vstd::utf8::encode_utf8;

verus! {

/// Whether `validator::validate_email` accepts the address `s`.
pub uninterp spec fn email_accepted(s: Seq<char>) -> bool;

/// Whether Unicode counts `c` as white space, as `char::is_whitespace` answers.
pub uninterp spec fn char_is_whitespace(c: char) -> bool;

/// Whether Unicode counts `c` as a lowercase letter, as `char::is_lowercase` answers.
pub uninterp spec fn char_is_lowercase(c: char) -> bool;

/// Whether Unicode counts `c` as an uppercase letter, as `char::is_uppercase` answers.
pub uninterp spec fn char_is_uppercase(c: char) -> bool;

/// `char::is_whitespace` looks `c` up in the Unicode `White_Space` property;
/// the contract only gives that answer a name.
pub assume_specification[ char::is_whitespace ](c: char) -> (r: bool)
    ensures
        r == char_is_whitespace(c),
;

/// `char::is_lowercase` looks `c` up in the Unicode `Lowercase` property;
/// the contract only gives that answer a name.
pub assume_specification[ char::is_lowercase ](c: char) -> (r: bool)
    ensures
        r == char_is_lowercase(c),
;

/// `char::is_uppercase` looks `c` up in the Unicode `Uppercase` property;
/// the contract only gives that answer a name.
pub assume_specification[ char::is_uppercase ](c: char) -> (r: bool)
    ensures
        r == char_is_uppercase(c),
;

/// A decimal digit, `0` to `9`.
pub open spec fn is_decimal_digit(c: char) -> bool {
    '0' <= c <= '9'
}

/// A character that a username may hold: an ASCII letter, a decimal digit,
/// an underscore or a hyphen.
pub open spec fn is_username_char(c: char) -> bool {
    ||| 'a' <= c <= 'z'
    ||| 'A' <= c <= 'Z'
    ||| '0' <= c <= '9'
    ||| c == '_'
    ||| c == '-'
}

/// The shape of a username: 4 to 50 characters, each of them a username
/// character.
pub open spec fn username_well_formed(s: Seq<char>) -> bool {
    &&& 4 <= s.len() <= 50
    &&& forall|i: int| 0 <= i < s.len() ==> is_username_char(#[trigger] s[i])
}

/// The number of bytes that `s` takes in UTF-8.
pub open spec fn byte_len(s: Seq<char>) -> nat {
    encode_utf8(s).len()
}

/// The password rule: at least 8 bytes long, with an uppercase letter, a
/// lowercase letter and a decimal digit, and without white space.
pub open spec fn password_is_strong(p: Seq<char>) -> bool {
    &&& forall|i: int| 0 <= i < p.len() ==> !char_is_whitespace(#[trigger] p[i])
    &&& exists|i: int| 0 <= i < p.len() && char_is_uppercase(#[trigger] p[i])
    &&& exists|i: int| 0 <= i < p.len() && char_is_lowercase(#[trigger] p[i])
    &&& exists|i: int| 0 <= i < p.len() && is_decimal_digit(#[trigger] p[i])
    &&& byte_len(p) >= 8
}

/// Tells whether `username` has the shape of a username.
pub fn username_matches(username: &str) -> (ok: bool)
    ensures
        ok == username_well_formed(username@),
{
    let mut count: usize = 0;
    let mut all_allowed = true;
    for c in it: username.chars()
        invariant
            it.seq() == username@,
            count == (if it.index() <= 51 { it.index() } else { 51 }),
            all_allowed == (forall|i: int| 0 <= i < it.index() ==> is_username_char(#[trigger] username@[i])),
    {
        let allowed = ('a' <= c && c <= 'z') || ('A' <= c && c <= 'Z') || ('0' <= c && c <= '9')
            || c == '_' || c == '-';
        all_allowed = all_allowed && allowed;
        if count <= 50 {
            count = count + 1;
        }
    }
    all_allowed && 4 <= count && count <= 50
}

/// One broken rule: the rule's code and the message to show, if any.
#[derive(Debug)]
pub struct ValidationError {
    pub code: String,
    pub message: Option<String>,
}

/// A broken rule as plain values.
pub struct RuleBreak {
    pub code: Seq<char>,
    pub message: Option<Seq<char>>,
}

impl View for ValidationError {
    type V = RuleBreak;

    open spec fn view(&self) -> RuleBreak {
        RuleBreak {
            code: self.code@,
            message: match self.message {
                Some(m) => Some(m@),
                None => None,
            },
        }
    }
}

impl ValidationError {
    /// A broken rule with the code `code` and no message.
    pub fn new(code: &str) -> (e: ValidationError)
        ensures
            e@ == (RuleBreak { code: code@, message: None }),
    {
        ValidationError { code: code.to_owned(), message: None }
    }

    /// A broken rule with the code `code` and the message `message`.
    pub fn with_message(code: &str, message: &str) -> (e: ValidationError)
        ensures
            e@ == (RuleBreak { code: code@, message: Some(message@) }),
    {
        ValidationError { code: code.to_owned(), message: Some(message.to_owned()) }
    }
}

/// What is recorded for one field: the errors of a nested form, those of a
/// list of nested forms, or the rules that the field itself broke.
#[derive(Debug)]
pub enum ValidationErrorsKind {
    Struct,
    List,
    Field(Vec<ValidationError>),
}

/// What is recorded for one field, as plain values.
pub enum KindView {
    Struct,
    List,
    Field(Seq<RuleBreak>),
}

/// The broken rules of a list of errors, as plain values.
pub open spec fn breaks_of(errors: Seq<ValidationError>) -> Seq<RuleBreak> {
    errors.map_values(|e: ValidationError| e@)
}

impl View for ValidationErrorsKind {
    type V = KindView;

    open spec fn view(&self) -> KindView {
        match self {
            ValidationErrorsKind::Struct => KindView::Struct,
            ValidationErrorsKind::List => KindView::List,
            ValidationErrorsKind::Field(errors) => KindView::Field(breaks_of(errors@)),
        }
    }
}

/// The fields of a form that broke a rule, each with what is recorded for it.
#[derive(Debug)]
pub struct ValidationErrors {
    pub entries: Vec<(String, ValidationErrorsKind)>,
}

/// The entries of a `ValidationErrors` as plain values.
pub type Records = Seq<(Seq<char>, KindView)>;

impl View for ValidationErrors {
    type V = Records;

    open spec fn view(&self) -> Records {
        self.entries@.map_values(|e: (String, ValidationErrorsKind)| (e.0@, e.1@))
    }
}

/// The record can be turned into messages: it is not for a nested form, and
/// every broken rule in it has a message.
pub open spec fn has_messages(kind: KindView) -> bool {
    match kind {
        KindView::Struct => false,
        KindView::List => true,
        KindView::Field(breaks) => forall|j: int|
            0 <= j < breaks.len() ==> (#[trigger] breaks[j]).message is Some,
    }
}

/// Every record can be turned into messages.
pub open spec fn all_have_messages(records: Records) -> bool {
    forall|i: int| 0 <= i < records.len() ==> has_messages((#[trigger] records[i]).1)
}

/// The map after one more record: a field that broke rules gets the message
/// of the last of them.
pub open spec fn with_record(
    messages: Map<Seq<char>, Seq<char>>,
    record: (Seq<char>, KindView),
) -> Map<Seq<char>, Seq<char>> {
    match record.1 {
        KindView::Field(breaks) if breaks.len() > 0 => messages.insert(
            record.0,
            breaks.last().message->0,
        ),
        _ => messages,
    }
}

/// The message of each field that broke a rule: that of the last rule
/// recorded for it, in the last record that names it.
pub open spec fn messages_of(records: Records) -> Map<Seq<char>, Seq<char>>
    decreases records.len(),
{
    if records.len() == 0 {
        Map::empty()
    } else {
        with_record(messages_of(records.drop_last()), records.last())
    }
}

/// Checks `password` against the password rule.
pub fn validate_password(password: &str) -> (r: Result<(), ValidationError>)
    ensures
        r is Ok <==> password_is_strong(password@),
        r matches Err(e) ==> e@ == (RuleBreak {
            code: "Password Validation Failed"@,
            message: None,
        }),
{
    let mut has_whitespace = false;
    let mut has_upper = false;
    let mut has_lower = false;
    let mut has_digit = false;

    for c in it: password.chars()
        invariant
            it.seq() == password@,
            has_whitespace == (exists|i: int|
                0 <= i < it.index() && char_is_whitespace(#[trigger] password@[i])),
            has_upper == (exists|i: int|
                0 <= i < it.index() && char_is_uppercase(#[trigger] password@[i])),
            has_lower == (exists|i: int|
                0 <= i < it.index() && char_is_lowercase(#[trigger] password@[i])),
            has_digit == (exists|i: int|
                0 <= i < it.index() && is_decimal_digit(#[trigger] password@[i])),
    {
        has_whitespace = has_whitespace || c.is_whitespace();
        has_lower = has_lower || c.is_lowercase();
        has_upper = has_upper || c.is_uppercase();
        has_digit = has_digit || ('0' <= c && c <= '9');
    }

    if !has_whitespace && has_upper && has_lower && has_digit && password.as_bytes().len() >= 8 {
        Ok(())
    } else {
        Err(ValidationError::new("Password Validation Failed"))
    }
}

/// Calls `validator::validate_email`, which splits the address at its last
/// `@` and holds the two parts to the HTML5 rules for e-mail addresses. The
/// contract gives the answer a name, and adds what the function's first
/// lines show: an address without `@` is refused.
#[verifier::external_body]
fn email_is_valid(email: &str) -> (ok: bool)
    ensures
        ok == email_accepted(email@),
        ok ==> email@.contains('@'),
{
    validator::validate_email(email)
}

/// Tells whether `email` is an acceptable e-mail address.
pub fn validate_email(email: &str) -> (ok: bool)
    ensures
        ok == email_accepted(email@),
        !email@.contains('@') ==> !ok,
{
    email_is_valid(email)
}

/// Turns recorded errors into one message for each field.
pub fn extract_errors(errors: &ValidationErrors) -> (out: ErrorMap)
    requires
        all_have_messages(errors@),
    ensures
        out.wf(),
        out@ == messages_of(errors@),
{
    let mut out = ErrorMap::new();
    let mut i: usize = 0;
    while i < errors.entries.len()
        invariant
            i <= errors.entries.len(),
            all_have_messages(errors@),
            out.wf(),
            out@ == messages_of(errors@.take(i as int)),
        decreases errors.entries.len() - i,
    {
        let ghost record = errors@[i as int];
        let ghost before = out@;
        proof {
            assert(errors@.take(i as int + 1).drop_last() =~= errors@.take(i as int));
            assert(errors@.take(i as int + 1).last() == record);
        }
        match &errors.entries[i].1 {
            ValidationErrorsKind::Struct => {
                assert(has_messages(record.1));
            },
            ValidationErrorsKind::List => {},
            ValidationErrorsKind::Field(errs) => {
                assert(record.1 == KindView::Field(breaks_of(errs@)));
                assert(has_messages(record.1));
                let mut j: usize = 0;
                while j < errs.len()
                    invariant
                        j <= errs.len(),
                        i < errors.entries.len(),
                        record == errors@[i as int],
                        record.0 == errors.entries[i as int].0@,
                        record.1 == KindView::Field(breaks_of(errs@)),
                        forall|k: int|
                            0 <= k < errs.len() ==> (#[trigger] breaks_of(errs@)[k]).message is Some,
                        out.wf(),
                        out@ == (if j == 0 {
                            before
                        } else {
                            before.insert(record.0, breaks_of(errs@)[j - 1].message->0)
                        }),
                    decreases errs.len() - j,
                {
                    let ghost shown = breaks_of(errs@)[j as int];
                    match &errs[j].message {
                        Some(msg) => {
                            out.insert(errors.entries[i].0.clone(), msg.clone());
                            assert(out@ =~= before.insert(record.0, shown.message->0));
                        },
                        None => {
                            assert(shown.message is Some);
                        },
                    }
                    j = j + 1;
                }
            },
        }
        i = i + 1;
    }
    assert(errors@.take(i as int) =~= errors@);
    out
}

} // verus!
