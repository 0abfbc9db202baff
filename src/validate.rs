//! Checks on form input: email, password, confirmation and one-time code.

use vstd::prelude::*;
use crate::error::ErrorKind;

verus! {

#[verifier::external_type_specification]
#[verifier::external_body]
pub struct ExRegex(fancy_regex::Regex);

#[verifier::external_type_specification]
#[verifier::external_body]
pub struct ExRegexError(fancy_regex::Error);

/// Whether the regular expression `pattern` matches somewhere in `text`.
pub uninterp spec fn regex_matches(pattern: Seq<char>, text: Seq<char>) -> bool;

/// A compiled regular expression together with its source text.
pub struct Pattern {
    source: String,
    re: fancy_regex::Regex,
}

impl Pattern {
    /// The source text the expression was compiled from.
    pub closed spec fn spec_source(&self) -> Seq<char> {
        self.source@
    }
}

/// Relies on fancy_regex::Regex::new: compiles `pattern`, or says why it
/// cannot be compiled.
#[verifier::external_body]
fn compile(pattern: &str) -> (r: Result<Pattern, fancy_regex::Error>)
    ensures
        r matches Ok(p) ==> p.spec_source() == pattern@,
{
    match fancy_regex::Regex::new(pattern) {
        Ok(re) => Ok(Pattern { source: pattern.to_string(), re }),
        Err(e) => Err(e),
    }
}

/// Relies on fancy_regex::Regex::is_match: whether the expression matches
/// somewhere in `text`; a run that exceeds the backtracking limit fails.
#[verifier::external_body]
fn is_match(p: &Pattern, text: &str) -> (r: Result<bool, fancy_regex::Error>)
    ensures
        r matches Ok(b) ==> b == regex_matches(p.spec_source(), text@),
{
    p.re.is_match(text)
}

/// An expression that failed to compile or to run, as an error of the library.
fn regex_failure(e: fancy_regex::Error) -> (r: ErrorKind)
    ensures
        r is OtherError,
{
    ErrorKind::OtherError(e.to_string())
}

/// Pattern of an email address.
pub const EMAIL_PATTERN: &'static str = "\\w[-\\w.+]*@([A-Za-z0-9][-A-Za-z0-9]+\\.)+[A-Za-z]{2,14}";

/// Pattern of a password: six to eighteen letters and digits, with a lower-case
/// letter and a digit somewhere after the start of the match.
pub const PASSWORD_PATTERN: &'static str = "(?=.*[a-z])(?=.*[0-9])[a-zA-Z0-9]{6,18}";

/// Pattern of a one-time code: exactly six digits.
pub const CODE_PATTERN: &'static str = "^\\d{6}$";

/// What a check of `value` against `pattern` may return: the `empty` message
/// for empty input; success only where the pattern matches; the `invalid`
/// message only where it does not; any other error only where the expression
/// failed to compile or run.
pub open spec fn checked(
    r: Result<(), ErrorKind>,
    value: Seq<char>,
    pattern: Seq<char>,
    empty: Seq<char>,
    invalid: Seq<char>,
) -> bool {
    &&& value.len() == 0 ==> (r matches Err(ErrorKind::ValidationError(m)) && m@ == empty)
    &&& value.len() > 0 ==> match r {
        Ok(_) => regex_matches(pattern, value),
        Err(ErrorKind::ValidationError(m)) => m@ == invalid && !regex_matches(pattern, value),
        Err(e) => e is OtherError,
    }
}

fn check(value: &str, pattern: &str, empty: &str, invalid: &str) -> (r: Result<(), ErrorKind>)
    ensures
        checked(r, value@, pattern@, empty@, invalid@),
{
    if value.unicode_len() == 0 {
        return Err(ErrorKind::ValidationError(empty.to_owned()));
    }
    let p = match compile(pattern) {
        Ok(p) => p,
        Err(e) => {
            return Err(regex_failure(e));
        },
    };
    match is_match(&p, value) {
        Ok(true) => Ok(()),
        Ok(false) => Err(ErrorKind::ValidationError(invalid.to_owned())),
        Err(e) => Err(regex_failure(e)),
    }
}

/// Checks an email address.
pub fn validate_email(email: &str) -> (r: Result<(), ErrorKind>)
    ensures
        checked(r, email@, EMAIL_PATTERN@, "please type in email"@, "invalid email"@),
{
    check(email, EMAIL_PATTERN, "please type in email", "invalid email")
}

/// Checks a password.
pub fn validate_pwd(pwd: &str) -> (r: Result<(), ErrorKind>)
    ensures
        checked(
            r,
            pwd@,
            PASSWORD_PATTERN@,
            "please type in password"@,
            "invalid passowrd: length>=6, a-z and 0-9 is demanded"@,
        ),
{
    check(
        pwd,
        PASSWORD_PATTERN,
        "please type in password",
        "invalid passowrd: length>=6, a-z and 0-9 is demanded",
    )
}

/// What a check of a password confirmation may return: the password
/// messages where `confirm` fails as a password, the mismatch message only
/// where it passes and differs from `pwd`, success only where it passes and
/// equals `pwd`, any other error only where the expression failed.
pub open spec fn confirmed(r: Result<(), ErrorKind>, pwd: Seq<char>, confirm: Seq<char>) -> bool {
    let pattern = PASSWORD_PATTERN@;
    match r {
        Ok(_) => confirm.len() > 0 && regex_matches(pattern, confirm) && pwd == confirm,
        Err(ErrorKind::ValidationError(m)) => {
            ||| confirm.len() == 0 && m@ == "please type in password"@
            ||| confirm.len() > 0 && !regex_matches(pattern, confirm)
                && m@ == "invalid passowrd: length>=6, a-z and 0-9 is demanded"@
            ||| confirm.len() > 0 && regex_matches(pattern, confirm) && pwd != confirm
                && m@ == "confirm password must as same as password"@
        },
        Err(e) => confirm.len() > 0 && e is OtherError,
    }
}

/// Checks a password confirmation: it must pass as a password and equal `pwd`.
pub fn validate_pwd_confirm(pwd: &str, pwd_confirm: &str) -> (r: Result<(), ErrorKind>)
    ensures
        confirmed(r, pwd@, pwd_confirm@),
{
    match validate_pwd(pwd_confirm) {
        Ok(()) => {},
        Err(e) => {
            return Err(e);
        },
    }
    if pwd.to_owned() != pwd_confirm.to_owned() {
        return Err(ErrorKind::ValidationError("confirm password must as same as password".to_owned()));
    }
    Ok(())
}

/// Checks a one-time code.
pub fn validate_code(code: &str) -> (r: Result<(), ErrorKind>)
    ensures
        checked(
            r,
            code@,
            CODE_PATTERN@,
            "please type in code"@,
            "invalid code: length=6 and 0-9 is demanded"@,
        ),
{
    check(code, CODE_PATTERN, "please type in code", "invalid code: length=6 and 0-9 is demanded")
}

} // verus!
