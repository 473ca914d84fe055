//! The submitted account form and the rules it has to satisfy.

use validator::{ValidateEmail, ValidateLength};
use vstd::prelude::*;
use vstd::string::*;
use vstd::utf8::{encode_utf8, is_ascii_chars, is_ascii_chars_encode_utf8};

verus! {

/// Whether a character has the Unicode `Lowercase` property, as
/// `char::is_lowercase` reports it.
pub uninterp spec fn lowercase_letter(c: char) -> bool;

/// Whether a character has the Unicode `Uppercase` property, as
/// `char::is_uppercase` reports it.
pub uninterp spec fn uppercase_letter(c: char) -> bool;

/// Whether `validator`'s email rule accepts an address.
pub uninterp spec fn email_grammar(address: Seq<char>) -> bool;

/// `char::is_lowercase` of std: the result is a function of the character
/// alone, and is given the name `lowercase_letter`. Among the ASCII
/// characters the property belongs to `a` to `z` and to no other.
pub assume_specification[ char::is_lowercase ](c: char) -> (r: bool)
    ensures
        r == lowercase_letter(c),
        'a' <= c && c <= 'z' ==> r,
        c <= '\u{7f}' && !('a' <= c && c <= 'z') ==> !r,
;

/// `char::is_uppercase` of std: the result is a function of the character
/// alone, and is given the name `uppercase_letter`. Among the ASCII
/// characters the property belongs to `A` to `Z` and to no other.
pub assume_specification[ char::is_uppercase ](c: char) -> (r: bool)
    ensures
        r == uppercase_letter(c),
        'A' <= c && c <= 'Z' ==> r,
        c <= '\u{7f}' && !('A' <= c && c <= 'Z') ==> !r,
;

/// `validator::ValidateEmail::validate_email` on a string slice: the verdict
/// depends on the address alone and is named `email_grammar`; an address
/// without an `@` (the empty one among them) is turned down.
#[verifier::external_body]
fn email_matches_grammar(address: &str) -> (r: bool)
    ensures
        r == email_grammar(address@),
        !address@.contains('@') ==> !r,
{
    address.validate_email()
}

/// `validator::ValidateLength::validate_length` on a string slice with only
/// a minimum: true exactly when the number of characters reaches it.
#[verifier::external_body]
fn has_min_length(text: &str, min: u64) -> (r: bool)
    ensures
        r == (text@.len() >= min),
{
    text.validate_length(Some(min), None, None)
}

/// `validator::validate_must_match` on two string slices: plain equality.
#[verifier::external_body]
fn texts_match(a: &str, b: &str) -> (r: bool)
    ensures
        r == (a@ == b@),
{
    validator::validate_must_match(a, b)
}

/// The least number of bytes a password may have.
pub const MIN_PASSWORD_BYTES: usize = 8;

/// The least number of characters a username may have.
pub const MIN_USERNAME_CHARS: u64 = 3;

pub open spec fn decimal_digit(c: char) -> bool {
    '0' <= c && c <= '9'
}

pub open spec fn ascii_lowercase(c: char) -> bool {
    'a' <= c && c <= 'z'
}

pub open spec fn ascii_uppercase(c: char) -> bool {
    'A' <= c && c <= 'Z'
}

pub open spec fn has_ascii_lowercase(p: Seq<char>) -> bool {
    exists|i: int| 0 <= i < p.len() && ascii_lowercase(#[trigger] p[i])
}

pub open spec fn has_ascii_uppercase(p: Seq<char>) -> bool {
    exists|i: int| 0 <= i < p.len() && ascii_uppercase(#[trigger] p[i])
}

/// The password rule read over ASCII alone: eight characters, one of `a` to
/// `z`, one of `A` to `Z`, one of `0` to `9`.
pub open spec fn ascii_password_rule(p: Seq<char>) -> bool {
    &&& p.len() >= MIN_PASSWORD_BYTES
    &&& has_ascii_lowercase(p)
    &&& has_ascii_uppercase(p)
    &&& has_digit(p)
}

/// On an ASCII character the two letter properties are those of `a` to `z`
/// and of `A` to `Z`.
pub open spec fn letters_as_in_ascii(c: char) -> bool {
    &&& ascii_lowercase(c) ==> lowercase_letter(c)
    &&& ascii_uppercase(c) ==> uppercase_letter(c)
    &&& c <= '\u{7f}' && lowercase_letter(c) ==> ascii_lowercase(c)
    &&& c <= '\u{7f}' && uppercase_letter(c) ==> ascii_uppercase(c)
}

pub open spec fn has_lowercase(p: Seq<char>) -> bool {
    exists|i: int| 0 <= i < p.len() && lowercase_letter(#[trigger] p[i])
}

pub open spec fn has_uppercase(p: Seq<char>) -> bool {
    exists|i: int| 0 <= i < p.len() && uppercase_letter(#[trigger] p[i])
}

pub open spec fn has_digit(p: Seq<char>) -> bool {
    exists|i: int| 0 <= i < p.len() && decimal_digit(#[trigger] p[i])
}

/// The password rule: a lowercase letter, an uppercase letter, a decimal
/// digit, and at least eight bytes of UTF-8.
pub open spec fn password_acceptable(p: Seq<char>) -> bool {
    &&& has_lowercase(p)
    &&& has_uppercase(p)
    &&& has_digit(p)
    &&& encode_utf8(p).len() >= MIN_PASSWORD_BYTES
}

/// The encoding of a text has a byte or more for each character.
proof fn encoding_is_no_shorter(p: Seq<char>)
    ensures
        encode_utf8(p).len() >= p.len(),
    decreases p.len(),
{
    if p.len() > 0 {
        encoding_is_no_shorter(p.drop_first());
    }
}

/// Where the letter properties of every character of a password are those
/// of ASCII, the ASCII rule is enough for the password rule, and on an
/// ASCII password the two are one.
proof fn ascii_rule_agrees(p: Seq<char>)
    requires
        forall|j: int| 0 <= j < p.len() ==> letters_as_in_ascii(#[trigger] p[j]),
    ensures
        ascii_password_rule(p) ==> password_acceptable(p),
        is_ascii_chars(p) ==> password_acceptable(p) == ascii_password_rule(p),
{
    encoding_is_no_shorter(p);
    if has_ascii_lowercase(p) {
        let j = choose|j: int| 0 <= j < p.len() && ascii_lowercase(#[trigger] p[j]);
        assert(lowercase_letter(p[j]));
    }
    if has_ascii_uppercase(p) {
        let j = choose|j: int| 0 <= j < p.len() && ascii_uppercase(#[trigger] p[j]);
        assert(uppercase_letter(p[j]));
    }
    if is_ascii_chars(p) {
        is_ascii_chars_encode_utf8(p);
        if has_lowercase(p) {
            let j = choose|j: int| 0 <= j < p.len() && lowercase_letter(#[trigger] p[j]);
            assert(ascii_lowercase(p[j]));
        }
        if has_uppercase(p) {
            let j = choose|j: int| 0 <= j < p.len() && uppercase_letter(#[trigger] p[j]);
            assert(ascii_uppercase(p[j]));
        }
    }
}

/// Decides the password rule. A password of eight characters or more with
/// one of `a` to `z`, one of `A` to `Z` and one of `0` to `9` is accepted,
/// and an ASCII password is accepted only if it is such.
pub fn validate_password(password: &str) -> (ok: bool)
    ensures
        ok == password_acceptable(password@),
        ascii_password_rule(password@) ==> ok,
        is_ascii_chars(password@) ==> ok == ascii_password_rule(password@),
{
    let n: usize = password.unicode_len();
    let mut lower: bool = false;
    let mut upper: bool = false;
    let mut digit: bool = false;
    let mut i: usize = 0;
    while i < n
        invariant
            n == password@.len(),
            i <= n,
            lower == has_lowercase(password@.take(i as int)),
            upper == has_uppercase(password@.take(i as int)),
            digit == has_digit(password@.take(i as int)),
            forall|j: int| 0 <= j < i ==> letters_as_in_ascii(#[trigger] password@[j]),
        decreases n - i,
    {
        let c: char = password.get_char(i);
        let ghost before = password@.take(i as int);
        let ghost after = password@.take(i + 1);
        proof {
            assert(after[i as int] == c);
            assert(forall|j: int| 0 <= j < i ==> before[j] == after[j]);
            assert(has_lowercase(after) == (has_lowercase(before) || lowercase_letter(c))) by {
                if has_lowercase(before) {
                    let j = choose|j: int| 0 <= j < before.len() && lowercase_letter(before[j]);
                    assert(lowercase_letter(after[j]));
                }
                if has_lowercase(after) {
                    let j = choose|j: int| 0 <= j < after.len() && lowercase_letter(after[j]);
                    if j < i {
                        assert(lowercase_letter(before[j]));
                    }
                }
            }
            assert(has_uppercase(after) == (has_uppercase(before) || uppercase_letter(c))) by {
                if has_uppercase(before) {
                    let j = choose|j: int| 0 <= j < before.len() && uppercase_letter(before[j]);
                    assert(uppercase_letter(after[j]));
                }
                if has_uppercase(after) {
                    let j = choose|j: int| 0 <= j < after.len() && uppercase_letter(after[j]);
                    if j < i {
                        assert(uppercase_letter(before[j]));
                    }
                }
            }
            assert(has_digit(after) == (has_digit(before) || decimal_digit(c))) by {
                if has_digit(before) {
                    let j = choose|j: int| 0 <= j < before.len() && decimal_digit(before[j]);
                    assert(decimal_digit(after[j]));
                }
                if has_digit(after) {
                    let j = choose|j: int| 0 <= j < after.len() && decimal_digit(after[j]);
                    if j < i {
                        assert(decimal_digit(before[j]));
                    }
                }
            }
        }
        let is_lower: bool = c.is_lowercase();
        let is_upper: bool = c.is_uppercase();
        if is_lower {
            lower = true;
        }
        if is_upper {
            upper = true;
        }
        if '0' <= c && c <= '9' {
            digit = true;
        }
        i = i + 1;
    }
    proof {
        assert(password@.take(n as int) =~= password@);
        ascii_rule_agrees(password@);
    }
    let long_enough: bool = password.as_bytes().len() >= MIN_PASSWORD_BYTES;
    lower && upper && digit && long_enough
}

/// Why a single rule turned a value down.
pub struct ValidationError {
    pub code: String,
}

pub open spec fn invalid_password_code() -> Seq<char> {
    "Invalid Password"@
}

/// The password rule as a check that names its failure.
pub fn password_is_valid(password: &str) -> (r: Result<(), ValidationError>)
    ensures
        r is Ok <==> password_acceptable(password@),
        ascii_password_rule(password@) ==> r is Ok,
        is_ascii_chars(password@) ==> (r is Ok <==> ascii_password_rule(password@)),
        r matches Err(e) ==> e.code@ == invalid_password_code(),
{
    if !validate_password(password) {
        Err(ValidationError { code: "Invalid Password".to_owned() })
    } else {
        Ok(())
    }
}

/// The part after the last `@` holds a `.`: some `.` has no `@` behind it.
pub open spec fn domain_has_dot(address: Seq<char>) -> bool {
    exists|i: int|
        0 <= i < address.len() && #[trigger] address[i] == '.' && forall|j: int|
            i < j < address.len() ==> address[j] != '@'
}

/// Decides `domain_has_dot` by reading the address from its end.
pub fn domain_is_dotted(address: &str) -> (r: bool)
    ensures
        r == domain_has_dot(address@),
{
    let n: usize = address.unicode_len();
    let mut i: usize = n;
    while i > 0
        invariant
            n == address@.len(),
            i <= n,
            forall|j: int| i <= j < n ==> address@[j] != '@' && address@[j] != '.',
        decreases i,
    {
        let c: char = address.get_char(i - 1);
        if c == '.' {
            return true;
        }
        if c == '@' {
            return false;
        }
        i = i - 1;
    }
    false
}

/// The email rule: the address grammar accepts it, and its domain holds a dot.
pub open spec fn email_acceptable(address: Seq<char>) -> bool {
    email_grammar(address) && domain_has_dot(address)
}

/// Decides the email rule. An address without an `@`, the empty one among
/// them, is turned down, and so is one with nothing behind its last `@`.
pub fn validate_email_address(address: &str) -> (ok: bool)
    ensures
        ok == email_acceptable(address@),
        !address@.contains('@') ==> !ok,
        address@.len() > 0 && address@.last() == '@' ==> !ok,
{
    let grammar: bool = email_matches_grammar(address);
    let dotted: bool = domain_is_dotted(address);
    grammar && dotted
}

pub open spec fn username_acceptable(name: Seq<char>) -> bool {
    name.len() >= MIN_USERNAME_CHARS
}

/// What a signup or login form submits.
pub struct AuthFormModel {
    pub email: String,
    pub password: String,
    pub confirm_password: String,
    pub username: String,
}

/// An `AuthFormModel` as plain text.
pub struct Submission {
    pub email: Seq<char>,
    pub password: Seq<char>,
    pub confirm_password: Seq<char>,
    pub username: Seq<char>,
}

impl View for AuthFormModel {
    type V = Submission;

    open spec fn view(&self) -> Submission {
        Submission {
            email: self.email@,
            password: self.password@,
            confirm_password: self.confirm_password@,
            username: self.username@,
        }
    }
}

/// The messages of a rejected form, one at most for each field.
pub struct FieldErrors {
    pub email: Option<String>,
    pub password: Option<String>,
    pub confirm_password: Option<String>,
    pub username: Option<String>,
}

/// A `FieldErrors` as plain text.
pub struct FieldMessages {
    pub email: Option<Seq<char>>,
    pub password: Option<Seq<char>>,
    pub confirm_password: Option<Seq<char>>,
    pub username: Option<Seq<char>>,
}

/// The text of an optional string.
pub open spec fn text_of(s: Option<String>) -> Option<Seq<char>> {
    match s {
        Some(t) => Some(t@),
        None => None,
    }
}

impl View for FieldErrors {
    type V = FieldMessages;

    open spec fn view(&self) -> FieldMessages {
        FieldMessages {
            email: text_of(self.email),
            password: text_of(self.password),
            confirm_password: text_of(self.confirm_password),
            username: text_of(self.username),
        }
    }
}

pub open spec fn email_message() -> Seq<char> {
    "Please enter a valid email."@
}

pub open spec fn password_message() -> Seq<char> {
    "Password must be at least 8 characters long and include an uppercase letter, a lowercase letter, and a number."@
}

pub open spec fn mismatch_message() -> Seq<char> {
    "The passwords do not match."@
}

pub open spec fn username_message() -> Seq<char> {
    "Username must be at least 3 characters long."@
}

/// Every rule holds of the submission.
pub open spec fn submission_valid(s: Submission) -> bool {
    &&& email_acceptable(s.email)
    &&& password_acceptable(s.password)
    &&& s.confirm_password == s.password
    &&& username_acceptable(s.username)
}

/// The message of each violated rule, and no entry for a rule that holds.
pub open spec fn violations(s: Submission) -> FieldMessages {
    FieldMessages {
        email: if email_acceptable(s.email) {
            None
        } else {
            Some(email_message())
        },
        password: if password_acceptable(s.password) {
            None
        } else {
            Some(password_message())
        },
        confirm_password: if s.confirm_password == s.password {
            None
        } else {
            Some(mismatch_message())
        },
        username: if username_acceptable(s.username) {
            None
        } else {
            Some(username_message())
        },
    }
}

impl FieldMessages {
    /// No field has a message.
    pub open spec fn is_empty(self) -> bool {
        self.email is None && self.password is None && self.confirm_password is None
            && self.username is None
    }

    /// No message is the empty text.
    pub open spec fn messages_nonempty(self) -> bool {
        &&& self.email matches Some(m) ==> m.len() > 0
        &&& self.password matches Some(m) ==> m.len() > 0
        &&& self.confirm_password matches Some(m) ==> m.len() > 0
        &&& self.username matches Some(m) ==> m.len() > 0
    }
}

impl AuthFormModel {
    /// Applies every rule. All four are evaluated: one that fails hides no
    /// other.
    pub fn validate(&self) -> (r: Result<(), FieldErrors>)
        ensures
            r is Ok <==> submission_valid(self@),
            r matches Err(e) ==> e@ == violations(self@),
            r matches Err(e) ==> !e@.is_empty() && e@.messages_nonempty(),
            self.password@ != self.confirm_password@ ==> (r matches Err(e)
                && e@.confirm_password == Some(mismatch_message())),
    {
        proof {
            violations_are_reported(self@);
        }
        let email_ok: bool = validate_email_address(self.email.as_str());
        let password_ok: bool = password_is_valid(self.password.as_str()).is_ok();
        let confirm_ok: bool = texts_match(self.confirm_password.as_str(), self.password.as_str());
        let username_ok: bool = has_min_length(self.username.as_str(), MIN_USERNAME_CHARS);
        if email_ok && password_ok && confirm_ok && username_ok {
            return Ok(());
        }
        let email: Option<String> = if email_ok {
            None
        } else {
            Some("Please enter a valid email.".to_owned())
        };
        let password: Option<String> = if password_ok {
            None
        } else {
            Some(
                "Password must be at least 8 characters long and include an uppercase letter, a lowercase letter, and a number.".to_owned(),
            )
        };
        let confirm_password: Option<String> = if confirm_ok {
            None
        } else {
            Some("The passwords do not match.".to_owned())
        };
        let username: Option<String> = if username_ok {
            None
        } else {
            Some("Username must be at least 3 characters long.".to_owned())
        };
        Err(FieldErrors { email, password, confirm_password, username })
    }
}

/// A rejected form names at least one field, and none of its messages is
/// empty; an accepted form names none.
pub proof fn violations_are_reported(s: Submission)
    ensures
        violations(s).is_empty() <==> submission_valid(s),
        violations(s).messages_nonempty(),
{
    reveal_strlit("Please enter a valid email.");
    reveal_strlit(
        "Password must be at least 8 characters long and include an uppercase letter, a lowercase letter, and a number.",
    );
    reveal_strlit("The passwords do not match.");
    reveal_strlit("Username must be at least 3 characters long.");
}

/// A password is accepted exactly when it has a lowercase letter, an
/// uppercase letter, a decimal digit and eight bytes or more; a form whose
/// password is not accepted is not valid.
pub proof fn password_rule(s: Submission)
    ensures
        password_acceptable(s.password) <==> (has_lowercase(s.password) && has_uppercase(
            s.password,
        ) && has_digit(s.password) && encode_utf8(s.password).len() >= 8),
        !password_acceptable(s.password) ==> !submission_valid(s) && violations(s).password
            == Some(password_message()),
{
}

/// A form whose two passwords differ is never valid, whatever else it holds,
/// and the confirmation field carries the message.
pub proof fn mismatch_is_reported(s: Submission)
    requires
        s.password != s.confirm_password,
    ensures
        !submission_valid(s),
        violations(s).confirm_password == Some(mismatch_message()),
{
}

} // verus!
