//! Account creation: a username, an e-mail address and a password are checked
//! against patterns before a user is made.
use vstd::prelude::*;

verus! {

/// A user name: at least five letters, digits or underscores.
pub const USERNAME_PATTERN: &'static str = r"^[A-Za-z\d_]{5,}$";

/// An e-mail address: `name@domain.tld`, each part of letters, digits or underscores.
pub const EMAIL_PATTERN: &'static str = r"^[A-Za-z\d_]+@[A-Za-z\d_]+\.[A-Za-z\d_]+$";

/// A password: at least five letters, digits or underscores.
pub const PASSWORD_PATTERN: &'static str = r"^[A-Za-z\d_]{5,}$";

/// Whether the regular expression `pattern` compiles and matches somewhere in
/// `haystack`.
pub uninterp spec fn regex_accepts(pattern: Seq<char>, haystack: Seq<char>) -> bool;

/// Relies on regex::Regex::new, which compiles the pattern, and on
/// regex::Regex::is_match, which tells whether it matches anywhere in the
/// haystack. A pattern that does not compile matches nothing.
#[verifier::external_body]
fn pattern_matches(pattern: &str, haystack: &str) -> (r: bool)
    ensures
        r == regex_accepts(pattern@, haystack@),
{
    match regex::Regex::new(pattern) {
        Ok(re) => re.is_match(haystack),
        Err(_) => false,
    }
}

/// A registered user.
#[derive(Debug)]
pub struct User {
    pub username: String,
    pub email: String,
    pub password: String,
}

impl User {
    pub fn new(username: String, email: String, password: String) -> (r: User)
        ensures
            r.username == username,
            r.email == email,
            r.password == password,
    {
        User { username, email, password }
    }
}

/// Why a user could not be created.
#[derive(Debug, Clone, Copy, PartialEq, Eq, Structural)]
pub enum CreateUserError {
    InvalidUsername,
    InvalidEmail,
    InvalidPassword,
    /// More than one field is invalid.
    InvalidUserData,
}

pub open spec fn create_user_error_text(e: CreateUserError) -> Seq<char> {
    match e {
        CreateUserError::InvalidUsername => "Invalid username"@,
        CreateUserError::InvalidEmail => "Invalid email"@,
        CreateUserError::InvalidPassword => "Invalid password"@,
        CreateUserError::InvalidUserData => "Invalid user data"@,
    }
}

impl CreateUserError {
    /// The human-readable message of the error.
    pub fn to_string(&self) -> (r: String)
        ensures
            r@ == create_user_error_text(*self),
    {
        match self {
            CreateUserError::InvalidUsername => String::from_str("Invalid username"),
            CreateUserError::InvalidEmail => String::from_str("Invalid email"),
            CreateUserError::InvalidPassword => String::from_str("Invalid password"),
            CreateUserError::InvalidUserData => String::from_str("Invalid user data"),
        }
    }
}

/// The verdict on three fields, given which of them passed: success when all
/// did, the field's own error when exactly one failed, `InvalidUserData` when
/// more than one failed.
pub open spec fn validation_outcome(username_ok: bool, email_ok: bool, password_ok: bool) -> Result<
    (),
    CreateUserError,
> {
    let failures = (if username_ok { 0int } else { 1int }) + (if email_ok { 0int } else { 1int })
        + (if password_ok { 0int } else { 1int });
    if failures == 0 {
        Ok(())
    } else if failures > 1 {
        Err(CreateUserError::InvalidUserData)
    } else if !username_ok {
        Err(CreateUserError::InvalidUsername)
    } else if !email_ok {
        Err(CreateUserError::InvalidEmail)
    } else {
        Err(CreateUserError::InvalidPassword)
    }
}

/// Checks of the user fields.
pub struct Validate;

impl Validate {
    pub fn username(input: &str) -> (r: bool)
        ensures
            r == regex_accepts(USERNAME_PATTERN@, input@),
    {
        pattern_matches(USERNAME_PATTERN, input)
    }

    pub fn email(input: &str) -> (r: bool)
        ensures
            r == regex_accepts(EMAIL_PATTERN@, input@),
    {
        pattern_matches(EMAIL_PATTERN, input)
    }

    pub fn password(input: &str) -> (r: bool)
        ensures
            r == regex_accepts(PASSWORD_PATTERN@, input@),
    {
        pattern_matches(PASSWORD_PATTERN, input)
    }

    /// Combines the results of the three field checks into one verdict.
    pub fn combine(username_ok: bool, email_ok: bool, password_ok: bool) -> (r: Result<
        (),
        CreateUserError,
    >)
        ensures
            r == validation_outcome(username_ok, email_ok, password_ok),
    {
        let mut errors: Vec<CreateUserError> = Vec::new();
        if !username_ok {
            errors.push(CreateUserError::InvalidUsername);
        }
        if !email_ok {
            errors.push(CreateUserError::InvalidEmail);
        }
        if !password_ok {
            errors.push(CreateUserError::InvalidPassword);
        }
        if errors.len() == 0 {
            Ok(())
        } else if errors.len() == 1 {
            Err(errors[0])
        } else {
            Err(CreateUserError::InvalidUserData)
        }
    }

    /// Checks all three fields and reports every failure at once.
    pub fn user_data(username: &str, email: &str, password: &str) -> (r: Result<(), CreateUserError>)
        ensures
            r == validation_outcome(
                regex_accepts(USERNAME_PATTERN@, username@),
                regex_accepts(EMAIL_PATTERN@, email@),
                regex_accepts(PASSWORD_PATTERN@, password@),
            ),
    {
        let username_ok = Validate::username(username);
        let email_ok = Validate::email(email);
        let password_ok = Validate::password(password);
        Validate::combine(username_ok, email_ok, password_ok)
    }
}

/// Makes a user from the three fields once they pass the checks.
pub fn create_user(username: String, email: String, password: String) -> (r: Result<
    User,
    CreateUserError,
>)
    ensures
        ({
            let verdict = validation_outcome(
                regex_accepts(USERNAME_PATTERN@, username@),
                regex_accepts(EMAIL_PATTERN@, email@),
                regex_accepts(PASSWORD_PATTERN@, password@),
            );
            match r {
                Ok(user) => verdict is Ok && user.username == username && user.email == email
                    && user.password == password,
                Err(e) => verdict == Err::<(), CreateUserError>(e),
            }
        }),
{
    match Validate::user_data(username.as_str(), email.as_str(), password.as_str()) {
        Ok(()) => Ok(User::new(username, email, password)),
        Err(e) => Err(e),
    }
}

} // verus!
