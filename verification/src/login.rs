//! Decision logic of the login flow: field validation, the request form,
//! and the interpretation of the login response. Prompting, password entry
//! and the HTTP request happen outside the library.

use vstd::prelude::*;
use vstd::string::{StrSliceExecFns, StringExecFns};

verus! {

/// What a successful login returns.
#[derive(Debug)]
pub struct AuthData {
    pub username: String,
    pub token: String,
}

/// Why a candidate password is rejected.
#[derive(Clone, Copy, PartialEq, Eq, Structural, Debug)]
pub enum PasswordIssue {
    Empty,
    TooShort,
}

/// ASCII whitespace, the characters stripped around interactive input.
pub open spec fn is_ascii_space(c: char) -> bool {
    c == ' ' || c == '\t' || c == '\n' || c == '\r'
}

/// A string is blank when every character is whitespace (so trimming it
/// leaves nothing).
pub open spec fn spec_blank(s: Seq<char>) -> bool {
    forall|i: int| 0 <= i < s.len() ==> is_ascii_space(s[i])
}

/// Whether `c` occurs in `s`.
pub open spec fn seq_contains_char(s: Seq<char>, c: char) -> bool {
    exists|i: int| 0 <= i < s.len() && s[i] == c
}

/// Whether `c` occurs in `s`.
pub fn str_contains_char(s: &str, c: char) -> (r: bool)
    ensures
        r == seq_contains_char(s@, c),
{
    let n = s.unicode_len();
    let mut i: usize = 0;
    while i < n
        invariant
            i <= n,
            n == s@.len(),
            forall|j: int| 0 <= j < i ==> s@[j] != c,
        decreases n - i,
    {
        if s.get_char(i) == c {
            return true;
        }
        i = i + 1;
    }
    false
}

/// Whether the string is blank, i.e. trimming it would leave nothing.
pub fn is_blank(s: &str) -> (r: bool)
    ensures
        r == spec_blank(s@),
{
    let n = s.unicode_len();
    let mut i: usize = 0;
    while i < n
        invariant
            i <= n,
            n == s@.len(),
            forall|j: int| 0 <= j < i ==> is_ascii_space(s@[j]),
        decreases n - i,
    {
        let c = s.get_char(i);
        if !(c == ' ' || c == '\t' || c == '\n' || c == '\r') {
            return false;
        }
        i = i + 1;
    }
    true
}

/// Whether two strings hold the same characters.
pub fn str_eq(a: &str, b: &str) -> (r: bool)
    ensures
        r == (a@ == b@),
{
    let na = a.unicode_len();
    let nb = b.unicode_len();
    if na != nb {
        proof {
            assert(a@ != b@);
        }
        return false;
    }
    let mut i: usize = 0;
    while i < na
        invariant
            i <= na,
            na == a@.len(),
            na == b@.len(),
            forall|j: int| 0 <= j < i ==> a@[j] == b@[j],
        decreases na - i,
    {
        if a.get_char(i) != b.get_char(i) {
            proof {
                assert(a@ != b@);
            }
            return false;
        }
        i = i + 1;
    }
    proof {
        assert(a@ =~= b@);
    }
    true
}

/// A login may only be attempted with both fields filled in: a blank email
/// or a blank password is rejected with the matching prompt.
pub fn check_login_fields(email: &str, password: &str) -> (r: Result<(), String>)
    ensures
        spec_blank(email@) ==> (r is Err && r->Err_0@ == "请输入邮箱"@),
        !spec_blank(email@) && spec_blank(password@) ==> (r is Err && r->Err_0@ == "请输入密码"@),
        !spec_blank(email@) && !spec_blank(password@) ==> r is Ok,
{
    if is_blank(email) {
        Err(String::from_str("请输入邮箱"))
    } else if is_blank(password) {
        Err(String::from_str("请输入密码"))
    } else {
        Ok(())
    }
}

/// Whether a trimmed interactive email entry is accepted: non-empty and
/// containing both an at sign and a dot.
pub fn acceptable_email(s: &str) -> (r: bool)
    ensures
        r == (s@.len() > 0 && seq_contains_char(s@, '@') && seq_contains_char(s@, '.')),
{
    !s.is_empty() && str_contains_char(s, '@') && str_contains_char(s, '.')
}

/// Whether a trimmed interactive password entry is accepted: non-empty and
/// at least six characters long.
pub fn check_password(s: &str) -> (r: Result<(), PasswordIssue>)
    ensures
        s@.len() == 0 ==> r == Result::<(), PasswordIssue>::Err(PasswordIssue::Empty),
        0 < s@.len() < 6 ==> r == Result::<(), PasswordIssue>::Err(PasswordIssue::TooShort),
        s@.len() >= 6 ==> r is Ok,
{
    let n = s.unicode_len();
    if n == 0 {
        Err(PasswordIssue::Empty)
    } else if n < 6 {
        Err(PasswordIssue::TooShort)
    } else {
        Ok(())
    }
}

/// Answer to a yes/no prompt, already trimmed and lowercased: `y`/`yes`
/// and `n`/`no` decide, anything else asks again.
pub fn parse_yes_no(s: &str) -> (r: Option<bool>)
    ensures
        s@ == "y"@ || s@ == "yes"@ ==> r == Some(true),
        s@ == "n"@ || s@ == "no"@ ==> r == Some(false),
        s@ != "y"@ && s@ != "yes"@ && s@ != "n"@ && s@ != "no"@ ==> r is None,
{
    proof {
        reveal_strlit("y");
        reveal_strlit("yes");
        reveal_strlit("n");
        reveal_strlit("no");
        assert("n"@[0] == 'n' && "y"@[0] == 'y' && "no"@.len() == 2 && "yes"@.len() == 3);
        assert("n"@ != "y"@ && "n"@ != "yes"@ && "no"@ != "y"@ && "no"@ != "yes"@);
    }
    if str_eq(s, "y") || str_eq(s, "yes") {
        Some(true)
    } else if str_eq(s, "n") || str_eq(s, "no") {
        Some(false)
    } else {
        None
    }
}

/// The form the login request posts: email and password, and the
/// two-factor key when one was given.
pub fn login_form(email: &str, password: &str, twofa: Option<&str>) -> (form: Vec<
    (String, String),
>)
    ensures
        form@.len() == (if twofa is Some {
            3int
        } else {
            2int
        }),
        form@[0].0@ == "email"@ && form@[0].1@ == email@,
        form@[1].0@ == "password"@ && form@[1].1@ == password@,
        twofa matches Some(c) ==> form@[2].0@ == "twoFactorAuthKey"@ && form@[2].1@ == c@,
{
    let mut form: Vec<(String, String)> = Vec::new();
    form.push((String::from_str("email"), String::from_str(email)));
    form.push((String::from_str("password"), String::from_str(password)));
    match twofa {
        Some(code) => {
            form.push((String::from_str("twoFactorAuthKey"), String::from_str(code)));
        },
        None => {},
    }
    form
}

/// Read the login response: a code other than 200 fails with the server's
/// message, a success without data fails with a fixed message, otherwise
/// the account data is returned.
pub fn interpret_login_response(code: u32, message: String, data: Option<AuthData>) -> (r: Result<
    AuthData,
    String,
>)
    ensures
        code != 200 ==> r == Result::<AuthData, String>::Err(message),
        code == 200 ==> (match data {
            Some(d) => r == Result::<AuthData, String>::Ok(d),
            None => r is Err && r->Err_0@ == "登录失败: 无返回数据"@,
        }),
{
    if code != 200 {
        Err(message)
    } else {
        match data {
            Some(d) => Ok(d),
            None => Err(String::from_str("登录失败: 无返回数据")),
        }
    }
}

} // verus!
