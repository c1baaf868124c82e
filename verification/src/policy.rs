//! Validation rules for passwords and identity fields.
//!
//! Password complexity follows a fixed policy: length at least 8, at
//! least one uppercase letter, one lowercase letter, one digit, and one
//! character from a fixed special-character set. Identity fields
//! (username, first name, last name, email) must each be at least 3
//! characters long. Each validator reports the first rule that is not
//! met.
//!
//! Lengths are counted in characters, the unit the rules and their
//! messages name ("at least 8 characters"), not in the bytes of the
//! UTF-8 encoding; the two readings agree on ASCII and differ only on
//! multi-byte characters, where counting bytes would overstate a
//! password's length.

use vstd::prelude::*;
use vstd::string::StrSliceExecFns;

verus! {

broadcast use vstd::string::to_string_from_display_ensures_for_str;

/// What `char::is_uppercase` returns beyond ASCII: a fixed Unicode
/// character property.
pub uninterp spec fn char_is_uppercase_unicode(c: char) -> bool;

/// What `char::is_lowercase` returns beyond ASCII: a fixed Unicode
/// character property.
pub uninterp spec fn char_is_lowercase_unicode(c: char) -> bool;

/// What `char::is_numeric` returns beyond ASCII: a fixed Unicode
/// character property.
pub uninterp spec fn char_is_numeric_unicode(c: char) -> bool;

/// What `char::is_uppercase` returns: on ASCII exactly the letters
/// `'A'..='Z'` (codepoints 65 to 90), as its documentation states; beyond
/// ASCII the named Unicode property.
pub open spec fn char_is_uppercase(c: char) -> bool {
    if (c as int) < 128 {
        65 <= c as int && c as int <= 90
    } else {
        char_is_uppercase_unicode(c)
    }
}

/// What `char::is_lowercase` returns: on ASCII exactly the letters
/// `'a'..='z'` (codepoints 97 to 122); beyond ASCII the named Unicode
/// property.
pub open spec fn char_is_lowercase(c: char) -> bool {
    if (c as int) < 128 {
        97 <= c as int && c as int <= 122
    } else {
        char_is_lowercase_unicode(c)
    }
}

/// What `char::is_numeric` returns: on ASCII exactly the digits
/// `'0'..='9'` (codepoints 48 to 57); beyond ASCII the named Unicode
/// property.
pub open spec fn char_is_numeric(c: char) -> bool {
    if (c as int) < 128 {
        48 <= c as int && c as int <= 57
    } else {
        char_is_numeric_unicode(c)
    }
}

/// Relies on `char::is_uppercase`: the result is a property of the
/// character alone, and on ASCII it holds of `'A'..='Z'` exactly.
pub assume_specification[ char::is_uppercase ](c: char) -> (r: bool)
    ensures
        r == char_is_uppercase(c),
        (c as int) >= 128 ==> r == char_is_uppercase_unicode(c),
;

/// Relies on `char::is_lowercase`: the result is a property of the
/// character alone, and on ASCII it holds of `'a'..='z'` exactly.
pub assume_specification[ char::is_lowercase ](c: char) -> (r: bool)
    ensures
        r == char_is_lowercase(c),
        (c as int) >= 128 ==> r == char_is_lowercase_unicode(c),
;

/// Relies on `char::is_numeric`: the result is a property of the
/// character alone, and on ASCII it holds of `'0'..='9'` exactly.
pub assume_specification[ char::is_numeric ](c: char) -> (r: bool)
    ensures
        r == char_is_numeric(c),
        (c as int) >= 128 ==> r == char_is_numeric_unicode(c),
;

/// Membership in the fixed special-character set of the password policy.
pub open spec fn is_special_char(c: char) -> bool {
    ||| c == '!'
    ||| c == '@'
    ||| c == '#'
    ||| c == '$'
    ||| c == '%'
    ||| c == '^'
    ||| c == '&'
    ||| c == '*'
    ||| c == '('
    ||| c == ')'
    ||| c == '-'
    ||| c == '_'
    ||| c == '='
    ||| c == '+'
    ||| c == '['
    ||| c == ']'
    ||| c == '{'
    ||| c == '}'
    ||| c == '|'
    ||| c == ';'
    ||| c == ':'
    ||| c == '\''
    ||| c == '"'
    ||| c == ','
    ||| c == '.'
    ||| c == '<'
    ||| c == '>'
    ||| c == '?'
    ||| c == '/'
    ||| c == '`'
    ||| c == '~'
}

fn is_special(c: char) -> (r: bool)
    ensures
        r == is_special_char(c),
{
    matches!(c,
        '!' | '@' | '#' | '$' | '%' | '^' | '&' | '*' | '(' | ')' | '-' | '_' | '='
        | '+' | '[' | ']' | '{' | '}' | '|' | ';' | ':' | '\'' | '"' | ',' | '.'
        | '<' | '>' | '?' | '/' | '`' | '~')
}

pub open spec fn has_uppercase(s: Seq<char>) -> bool {
    exists|i: int| 0 <= i < s.len() && char_is_uppercase(s[i])
}

pub open spec fn has_lowercase(s: Seq<char>) -> bool {
    exists|i: int| 0 <= i < s.len() && char_is_lowercase(s[i])
}

pub open spec fn has_digit(s: Seq<char>) -> bool {
    exists|i: int| 0 <= i < s.len() && char_is_numeric(s[i])
}

pub open spec fn has_special(s: Seq<char>) -> bool {
    exists|i: int| 0 <= i < s.len() && is_special_char(s[i])
}

/// The whole password policy: minimal length, and one character of each
/// required class.
pub open spec fn password_policy_ok(s: Seq<char>) -> bool {
    &&& s.len() >= 8
    &&& has_uppercase(s)
    &&& has_lowercase(s)
    &&& has_digit(s)
    &&& has_special(s)
}

/// The message naming the first policy rule the password fails.
pub open spec fn password_policy_error(s: Seq<char>) -> Seq<char> {
    if s.len() < 8 {
        "Password must be at least 8 characters long"@
    } else if !has_uppercase(s) {
        "Password must contain at least one uppercase letter"@
    } else if !has_lowercase(s) {
        "Password must contain at least one lowercase letter"@
    } else if !has_digit(s) {
        "Password must contain at least one number"@
    } else {
        "Password must contain at least one special character"@
    }
}

fn contains_uppercase(s: &str) -> (r: bool)
    ensures
        r == has_uppercase(s@),
{
    let n = s.unicode_len();
    let mut i: usize = 0;
    while i < n
        invariant
            n == s@.len(),
            i <= n,
            forall|j: int| 0 <= j < i ==> !char_is_uppercase(s@[j]),
        decreases n - i,
    {
        if s.get_char(i).is_uppercase() {
            assert(char_is_uppercase(s@[i as int]));
            return true;
        }
        i += 1;
    }
    false
}

fn contains_lowercase(s: &str) -> (r: bool)
    ensures
        r == has_lowercase(s@),
{
    let n = s.unicode_len();
    let mut i: usize = 0;
    while i < n
        invariant
            n == s@.len(),
            i <= n,
            forall|j: int| 0 <= j < i ==> !char_is_lowercase(s@[j]),
        decreases n - i,
    {
        if s.get_char(i).is_lowercase() {
            assert(char_is_lowercase(s@[i as int]));
            return true;
        }
        i += 1;
    }
    false
}

fn contains_digit(s: &str) -> (r: bool)
    ensures
        r == has_digit(s@),
{
    let n = s.unicode_len();
    let mut i: usize = 0;
    while i < n
        invariant
            n == s@.len(),
            i <= n,
            forall|j: int| 0 <= j < i ==> !char_is_numeric(s@[j]),
        decreases n - i,
    {
        if s.get_char(i).is_numeric() {
            assert(char_is_numeric(s@[i as int]));
            return true;
        }
        i += 1;
    }
    false
}

fn contains_special(s: &str) -> (r: bool)
    ensures
        r == has_special(s@),
{
    let n = s.unicode_len();
    let mut i: usize = 0;
    while i < n
        invariant
            n == s@.len(),
            i <= n,
            forall|j: int| 0 <= j < i ==> !is_special_char(s@[j]),
        decreases n - i,
    {
        if is_special(s.get_char(i)) {
            assert(is_special_char(s@[i as int]));
            return true;
        }
        i += 1;
    }
    false
}

/// Checks a new password against the complexity policy; on failure the
/// message names the first rule that is not met. The length rule counts
/// characters, as its message says.
pub fn validate_password(password: &str) -> (r: Result<(), String>)
    ensures
        r is Ok <==> password_policy_ok(password@),
        r matches Err(m) ==> m@ == password_policy_error(password@),
{
    if password.unicode_len() < 8 {
        return Err("Password must be at least 8 characters long".to_string());
    }
    if !contains_uppercase(password) {
        return Err("Password must contain at least one uppercase letter".to_string());
    }
    if !contains_lowercase(password) {
        return Err("Password must contain at least one lowercase letter".to_string());
    }
    if !contains_digit(password) {
        return Err("Password must contain at least one number".to_string());
    }
    if !contains_special(password) {
        return Err("Password must contain at least one special character".to_string());
    }
    Ok(())
}

/// The spec image of an optional borrowed string.
pub open spec fn opt_view(o: Option<&str>) -> Option<Seq<char>> {
    match o {
        Some(s) => Some(s@),
        None => None,
    }
}

/// The spec image of an optional owned string.
pub open spec fn opt_string_view(o: Option<String>) -> Option<Seq<char>> {
    match o {
        Some(s) => Some(s@),
        None => None,
    }
}

/// A provided field meets the minimal length rule (3 characters); an
/// absent field passes.
pub open spec fn field_long_enough(f: Option<Seq<char>>) -> bool {
    f matches Some(s) ==> s.len() >= 3
}

/// All four identity fields meet the minimal length rule.
pub open spec fn user_fields_ok(
    username: Option<Seq<char>>,
    first_name: Option<Seq<char>>,
    last_name: Option<Seq<char>>,
    email: Option<Seq<char>>,
) -> bool {
    &&& field_long_enough(username)
    &&& field_long_enough(first_name)
    &&& field_long_enough(last_name)
    &&& field_long_enough(email)
}

/// The message naming the first identity field that is too short.
pub open spec fn user_fields_error(
    username: Option<Seq<char>>,
    first_name: Option<Seq<char>>,
    last_name: Option<Seq<char>>,
    email: Option<Seq<char>>,
) -> Seq<char> {
    if !field_long_enough(username) {
        "Username must be at least 3 characters long"@
    } else if !field_long_enough(first_name) {
        "First name must be at least 3 characters long"@
    } else if !field_long_enough(last_name) {
        "Last name must be at least 3 characters long"@
    } else if !field_long_enough(email) {
        "Email must be at least 3 characters long"@
    } else {
        "Email must be at least 3 characters long"@
    }
}

/// Checks the provided identity fields for minimal length; absent fields
/// pass. On failure the message names the first field that is too short.
pub fn validate_user_fields(
    username: Option<&str>,
    first_name: Option<&str>,
    last_name: Option<&str>,
    email: Option<&str>,
) -> (r: Result<(), String>)
    ensures
        r is Ok <==> user_fields_ok(
            opt_view(username),
            opt_view(first_name),
            opt_view(last_name),
            opt_view(email),
        ),
        r matches Err(m) ==> m@ == user_fields_error(
            opt_view(username),
            opt_view(first_name),
            opt_view(last_name),
            opt_view(email),
        ),
{
    if let Some(u) = username {
        if u.unicode_len() < 3 {
            return Err("Username must be at least 3 characters long".to_string());
        }
    }
    if let Some(f) = first_name {
        if f.unicode_len() < 3 {
            return Err("First name must be at least 3 characters long".to_string());
        }
    }
    if let Some(l) = last_name {
        if l.unicode_len() < 3 {
            return Err("Last name must be at least 3 characters long".to_string());
        }
    }
    if let Some(e) = email {
        if e.unicode_len() < 3 {
            return Err("Email must be at least 3 characters long".to_string());
        }
    }
    Ok(())
}

} // verus!
