//! Validation of user account input: user names, e-mail addresses, display
//! names and passwords, and trimming of free-text input.
use vstd::prelude::*;
use vstd::utf8::encode_utf8;
use crate::config_loader::PasswordConfig;
use crate::error::AppError;
use crate::text::{blank, trim, dec, join, owned, is_blank, trim_str, chars_of, u64_to_string};

verus! {

/// The e-mail pattern of the account rules: a local part of lowercase
/// letters, digits, `_`, `+` and inner dots, `@`, then lowercase labels
/// joined by `-` or `.` and a final dot and 2 to 6 letters, at the start of
/// the text (anything may follow).
pub const EMAIL_PATTERN: &'static str = r"^([a-z0-9_+]([a-z0-9_+.]*[a-z0-9_+])?)@([a-z0-9]+([\-\.]{1}[a-z0-9]+)*\.[a-z]{2,6})";

/// The user name pattern: 3 to 30 letters, digits, `_` or `-`, nothing else.
pub const USERNAME_PATTERN: &'static str = r"^[a-zA-Z0-9_-]{3,30}$";

/// A character of the local part of an address: `[a-z0-9_+]`.
pub open spec fn is_local_char(c: char) -> bool {
    ('a' <= c && c <= 'z') || ('0' <= c && c <= '9') || c == '_' || c == '+'
}

/// A character of a domain label: `[a-z0-9]`.
pub open spec fn is_label_char(c: char) -> bool {
    ('a' <= c && c <= 'z') || ('0' <= c && c <= '9')
}

/// `s[lo..hi]` is a local part: local characters and dots, beginning and
/// ending with a local character (`[a-z0-9_+]([a-z0-9_+.]*[a-z0-9_+])?`).
pub open spec fn local_part_at(s: Seq<char>, lo: int, hi: int) -> bool {
    &&& lo < hi
    &&& is_local_char(s[lo])
    &&& is_local_char(s[hi - 1])
    &&& forall|i: int| lo <= i < hi ==> #[trigger] is_local_char(s[i]) || s[i] == '.'
}

/// `s[lo..hi]` is a chain of labels joined by single `-` or `.`
/// (`[a-z0-9]+([\-\.]{1}[a-z0-9]+)*`).
pub open spec fn label_chain_at(s: Seq<char>, lo: int, hi: int) -> bool {
    &&& lo < hi
    &&& is_label_char(s[lo])
    &&& is_label_char(s[hi - 1])
    &&& forall|i: int| lo <= i < hi ==> #[trigger] is_label_char(s[i])
            || ((s[i] == '-' || s[i] == '.') && is_label_char(s[i + 1]))
}

/// `EMAIL_PATTERN` matches `s` with its `@` at `at` and its last dot at
/// `dot`: a local part, `@`, a label chain, `.` and at least two lowercase
/// letters (the pattern takes up to six, and what follows is not looked at).
pub open spec fn email_split(s: Seq<char>, at: int, dot: int) -> bool {
    &&& 0 <= at < dot
    &&& dot + 2 < s.len()
    &&& local_part_at(s, 0, at)
    &&& s[at] == '@'
    &&& label_chain_at(s, at + 1, dot)
    &&& s[dot] == '.'
    &&& 'a' <= s[dot + 1] <= 'z'
    &&& 'a' <= s[dot + 2] <= 'z'
}

/// What `EMAIL_PATTERN` accepts: a match that begins at the start of the
/// text (the pattern is not anchored at the end).
pub open spec fn email_pattern_accepts(s: Seq<char>) -> bool {
    exists|at: int, dot: int| #[trigger] email_split(s, at, dot)
}

/// A character allowed in a user name.
pub open spec fn is_username_char(c: char) -> bool {
    ('a' <= c && c <= 'z') || ('A' <= c && c <= 'Z') || ('0' <= c && c <= '9') || c == '_' || c == '-'
}

/// What `USERNAME_PATTERN` accepts: the whole text is 3 to 30 allowed characters.
pub open spec fn username_pattern_accepts(s: Seq<char>) -> bool {
    3 <= s.len() <= 30 && forall|i: int| 0 <= i < s.len() ==> #[trigger] is_username_char(s[i])
}

/// Whether the whole text is 3 to 30 user name characters
/// (`USERNAME_PATTERN`).
pub fn matches_username(text: &str) -> (b: bool)
    ensures
        b == username_pattern_accepts(text@),
{
    let v = chars_of(text);
    if v.len() < 3 || v.len() > 30 {
        return false;
    }
    let mut i: usize = 0;
    while i < v.len()
        invariant
            v@ == text@,
            i <= v@.len(),
            forall|k: int| 0 <= k < i ==> #[trigger] is_username_char(v@[k]),
        decreases v.len() - i,
    {
        let c = v[i];
        if !(('a' <= c && c <= 'z') || ('A' <= c && c <= 'Z') || ('0' <= c && c <= '9') || c == '_' || c == '-') {
            assert(!is_username_char(v@[i as int]));
            return false;
        }
        i = i + 1;
    }
    true
}

/// Whether `EMAIL_PATTERN` matches at the start of the text.
pub fn matches_email(text: &str) -> (b: bool)
    ensures
        b == email_pattern_accepts(text@),
{
    let v = chars_of(text);
    let n = v.len();
    // The local part ends at the first `@`, which it cannot contain.
    let mut at: usize = 0;
    while at < n && v[at] != '@'
        invariant
            v@ == text@,
            n == v@.len(),
            at <= n,
            forall|k: int| 0 <= k < at ==> v@[k] != '@',
        decreases n - at,
    {
        at = at + 1;
    }
    if at == n {
        assert forall|a: int, d: int| !#[trigger] email_split(v@, a, d) by {
            if email_split(v@, a, d) {
                assert(v@[a] == '@');
            }
        }
        return false;
    }
    let mut k: usize = 0;
    let mut local_ok = at > 0;
    while k < at
        invariant
            v@ == text@,
            n == v@.len(),
            at < n,
            k <= at,
            local_ok ==> at > 0,
            local_ok ==> forall|j: int| 0 <= j < k ==> #[trigger] is_local_char(v@[j]) || v@[j] == '.',
            !local_ok ==> !local_part_at(v@, 0, at as int),
        decreases at - k,
    {
        let c = v[k];
        if !(('a' <= c && c <= 'z') || ('0' <= c && c <= '9') || c == '_' || c == '+' || c == '.') {
            assert(!(is_local_char(v@[k as int]) || v@[k as int] == '.'));
            local_ok = false;
        }
        k = k + 1;
    }
    if local_ok {
        let f = v[0];
        let l = v[at - 1];
        if !(('a' <= f && f <= 'z') || ('0' <= f && f <= '9') || f == '_' || f == '+')
            || !(('a' <= l && l <= 'z') || ('0' <= l && l <= '9') || l == '_' || l == '+') {
            local_ok = false;
        }
    }
    proof {
        assert forall|a: int, d: int| #[trigger] email_split(v@, a, d) implies a == at by {
            if a < at {
                assert(v@[a] != '@');
            } else if a > at {
                assert(is_local_char(v@[at as int]) || v@[at as int] == '.');
            }
        }
    }
    if !local_ok {
        assert forall|a: int, d: int| !#[trigger] email_split(v@, a, d) by {}
        return false;
    }
    assert(local_part_at(v@, 0, at as int));
    // Walk the longest label chain after the `@`, trying each end of a chain
    // as the last dot.
    let start = at + 1;
    let mut i: usize = start;
    while i < n
        invariant
            v@ == text@,
            n == v@.len(),
            start == at + 1,
            at < n,
            start <= i <= n,
            local_part_at(v@, 0, at as int),
            v@[at as int] == '@',
            i > start ==> label_chain_at(v@, start as int, i as int),
            forall|a: int, d: int| #[trigger] email_split(v@, a, d) ==> a == at,
            forall|d: int| d < i ==> !#[trigger] email_split(v@, at as int, d),
        decreases n - i,
    {
        let c = v[i];
        if i > start && c == '.' && n - i > 2 && 'a' <= v[i + 1] && v[i + 1] <= 'z' && 'a' <= v[i + 2] && v[i + 2] <= 'z' {
            assert(email_split(v@, at as int, i as int));
            return true;
        }
        assert(!email_split(v@, at as int, i as int));
        if ('a' <= c && c <= 'z') || ('0' <= c && c <= '9') {
            proof {
                assert forall|j: int| start <= j < i + 1 implies #[trigger] is_label_char(v@[j])
                    || ((v@[j] == '-' || v@[j] == '.') && is_label_char(v@[j + 1])) by {
                    if j < i {
                        assert(label_chain_at(v@, start as int, i as int));
                    }
                }
                assert(label_chain_at(v@, start as int, (i + 1) as int));
            }
            i = i + 1;
        } else if i > start && (c == '-' || c == '.') && n - i > 1 && (('a' <= v[i + 1] && v[i + 1] <= 'z') || ('0' <= v[i + 1] && v[i + 1] <= '9')) {
            proof {
                assert forall|j: int| start <= j < i + 2 implies #[trigger] is_label_char(v@[j])
                    || ((v@[j] == '-' || v@[j] == '.') && is_label_char(v@[j + 1])) by {
                    if j < i {
                        assert(label_chain_at(v@, start as int, i as int));
                    }
                }
                assert(label_chain_at(v@, start as int, (i + 2) as int));
                assert(!label_chain_at(v@, start as int, (i + 1) as int));
                assert(!email_split(v@, at as int, (i + 1) as int));
            }
            i = i + 2;
        } else {
            proof {
                assert forall|a: int, d: int| !#[trigger] email_split(v@, a, d) by {
                    if email_split(v@, a, d) {
                        assert(a == at);
                        assert(d > i);
                        assert(label_chain_at(v@, start as int, d));
                        let ci = v@[i as int];
                        assert(start <= i < d);
                        assert(is_label_char(ci) || ((ci == '-' || ci == '.') && is_label_char(v@[i + 1])));
                    }
                }
            }
            return false;
        }
    }
    assert forall|a: int, d: int| !#[trigger] email_split(v@, a, d) by {
        if email_split(v@, a, d) {
            assert(a == at);
        }
    }
    false
}

/// Checks a user name: not blank, and matching the user name pattern.
pub fn validate_username(username: &str) -> (r: Result<(), AppError>)
    ensures
        blank(username@) ==> r == Err::<(), AppError>(AppError::ValidationError(r->Err_0->ValidationError_0))
            && r->Err_0->ValidationError_0@ == "Username cannot be empty"@,
        !blank(username@) && !username_pattern_accepts(username@) ==> r is Err && r->Err_0 is ValidationError
            && r->Err_0->ValidationError_0@ == "Username must be 3-30 characters long and can only contain letters, numbers, underscores, and hyphens"@,
        r is Ok <==> !blank(username@) && username_pattern_accepts(username@),
{
    if is_blank(username) {
        return Err(AppError::ValidationError(owned("Username cannot be empty")));
    }
    if !matches_username(username) {
        return Err(AppError::ValidationError(owned(
            "Username must be 3-30 characters long and can only contain letters, numbers, underscores, and hyphens",
        )));
    }
    Ok(())
}

/// Checks an e-mail address: not blank, and the e-mail pattern found in it.
pub fn validate_email(email: &str) -> (r: Result<(), AppError>)
    ensures
        blank(email@) ==> r is Err && r->Err_0 is ValidationError && r->Err_0->ValidationError_0@ == "Email cannot be empty"@,
        !blank(email@) && !email_pattern_accepts(email@) ==> r is Err && r->Err_0 is ValidationError
            && r->Err_0->ValidationError_0@ == "Invalid email format"@,
        r is Ok <==> !blank(email@) && email_pattern_accepts(email@),
{
    if is_blank(email) {
        return Err(AppError::ValidationError(owned("Email cannot be empty")));
    }
    if !matches_email(email) {
        return Err(AppError::ValidationError(owned("Invalid email format")));
    }
    Ok(())
}

/// The problem with a display name, if any: blank, or its trimmed UTF-8
/// length outside 2 to 100 bytes.
pub open spec fn name_problem(name: Seq<char>) -> Option<Seq<char>> {
    let n = encode_utf8(trim(name)).len();
    if blank(name) {
        Some("Name cannot be empty"@)
    } else if n < 2 {
        Some("Name must be at least 2 characters long"@)
    } else if n > 100 {
        Some("Name cannot exceed 100 characters"@)
    } else {
        None
    }
}

/// Checks a display name.
pub fn validate_name(name: &str) -> (r: Result<(), AppError>)
    requires
        encode_utf8(trim(name@)).len() <= usize::MAX,
    ensures
        match name_problem(name@) {
            None => r is Ok,
            Some(m) => r is Err && r->Err_0 is ValidationError && r->Err_0->ValidationError_0@ == m,
        },
{
    if is_blank(name) {
        return Err(AppError::ValidationError(owned("Name cannot be empty")));
    }
    let trimmed = trim_str(name);
    let n = trimmed.as_str().len();
    if n < 2 {
        return Err(AppError::ValidationError(owned("Name must be at least 2 characters long")));
    }
    if n > 100 {
        return Err(AppError::ValidationError(owned("Name cannot exceed 100 characters")));
    }
    Ok(())
}

/// A character that counts as special in a password.
pub open spec fn is_special(c: char) -> bool {
    c == '@' || c == '$' || c == '!' || c == '%' || c == '*' || c == '?' || c == '&' || c == '#' || c == '^'
        || c == '-' || c == '_' || c == '+' || c == '=' || c == '.' || c == ',' || c == ':' || c == ';'
}

/// Some character of `s` lies between `lo` and `hi`.
pub open spec fn has_in_range(s: Seq<char>, lo: char, hi: char) -> bool {
    exists|i: int| 0 <= i < s.len() && lo <= #[trigger] s[i] && s[i] <= hi
}

/// Some character of `s` is special.
pub open spec fn has_special_char(s: Seq<char>) -> bool {
    exists|i: int| 0 <= i < s.len() && #[trigger] is_special(s[i])
}

/// The character classes a password lacks, in the order they are reported.
pub open spec fn missing_classes(p: Seq<char>, c: PasswordConfig) -> Seq<Seq<char>> {
    (if c.require_lowercase && !has_in_range(p, 'a', 'z') { seq!["lowercase letter"@] } else { Seq::empty() })
    + (if c.require_uppercase && !has_in_range(p, 'A', 'Z') { seq!["uppercase letter"@] } else { Seq::empty() })
    + (if c.require_number && !has_in_range(p, '0', '9') { seq!["number"@] } else { Seq::empty() })
    + (if c.require_special && !has_special_char(p) { seq!["special character (@$!%*?&#^-_+=.,:;)"@] } else { Seq::empty() })
}

/// The problem with a password under the rules of `c`, if any.
pub open spec fn password_problem(p: Seq<char>, c: PasswordConfig) -> Option<Seq<char>> {
    if blank(p) {
        Some("Password cannot be empty"@)
    } else if encode_utf8(p).len() < c.min_length {
        Some("Password must be at least "@ + dec(c.min_length as nat) + " characters long"@)
    } else if missing_classes(p, c).len() > 0 {
        Some("Password must contain at least one "@ + join(missing_classes(p, c), ", one "@))
    } else {
        None
    }
}

/// The special characters a password may use, as the requirement's message lists them.
pub open spec fn listed_specials() -> Seq<char> {
    "@$!%*?&#^-_+=.,:;"@
}

/// Law: the special characters are exactly those the requirement's message
/// lists: a password has a special character exactly when one of its
/// characters is in that list, so any listed character meets the
/// requirement and no other character does.
pub proof fn law_specials_are_the_listed_characters(p: Seq<char>)
    ensures
        has_special_char(p) <==> exists|i: int| 0 <= i < p.len() && #[trigger] listed_specials().contains(p[i]),
        forall|j: int| 0 <= j < listed_specials().len() ==> has_special_char(seq![#[trigger] listed_specials()[j]]),
{
    reveal_strlit("@$!%*?&#^-_+=.,:;");
    let l = listed_specials();
    assert forall|c: char| #[trigger] l.contains(c) <==> is_special(c) by {
        if is_special(c) {
            if c == '@' { assert(l[0] == c); } else if c == '$' { assert(l[1] == c); } else if c == '!' { assert(l[2] == c); }
            else if c == '%' { assert(l[3] == c); } else if c == '*' { assert(l[4] == c); } else if c == '?' { assert(l[5] == c); }
            else if c == '&' { assert(l[6] == c); } else if c == '#' { assert(l[7] == c); } else if c == '^' { assert(l[8] == c); }
            else if c == '-' { assert(l[9] == c); } else if c == '_' { assert(l[10] == c); } else if c == '+' { assert(l[11] == c); }
            else if c == '=' { assert(l[12] == c); } else if c == '.' { assert(l[13] == c); } else if c == ',' { assert(l[14] == c); }
            else if c == ':' { assert(l[15] == c); } else { assert(l[16] == c); }
        }
    }
    assert forall|j: int| 0 <= j < l.len() implies has_special_char(seq![#[trigger] l[j]]) by {
        assert(l.contains(l[j]));
        assert(seq![l[j]][0] == l[j]);
    }
    if has_special_char(p) {
        let i = choose|i: int| 0 <= i < p.len() && #[trigger] is_special(p[i]);
        assert(l.contains(p[i]));
    }
    if exists|i: int| 0 <= i < p.len() && #[trigger] l.contains(p[i]) {
        let i = choose|i: int| 0 <= i < p.len() && #[trigger] l.contains(p[i]);
        assert(is_special(p[i]));
    }
}

fn has_char_in(v: &Vec<char>, lo: char, hi: char) -> (b: bool)
    ensures
        b == has_in_range(v@, lo, hi),
{
    let mut i: usize = 0;
    while i < v.len()
        invariant
            i <= v@.len(),
            forall|k: int| 0 <= k < i ==> !(lo <= #[trigger] v@[k] && v@[k] <= hi),
        decreases v.len() - i,
    {
        if lo <= v[i] && v[i] <= hi {
            return true;
        }
        i = i + 1;
    }
    false
}

fn has_special(v: &Vec<char>) -> (b: bool)
    ensures
        b == has_special_char(v@),
{
    let mut i: usize = 0;
    while i < v.len()
        invariant
            i <= v@.len(),
            forall|k: int| 0 <= k < i ==> !#[trigger] is_special(v@[k]),
        decreases v.len() - i,
    {
        let c = v[i];
        if c == '@' || c == '$' || c == '!' || c == '%' || c == '*' || c == '?' || c == '&' || c == '#' || c == '^'
            || c == '-' || c == '_' || c == '+' || c == '=' || c == '.' || c == ',' || c == ':' || c == ';' {
            assert(is_special(v@[i as int]));
            return true;
        }
        i = i + 1;
    }
    false
}

fn push_class(missing: &mut Vec<String>, cond: bool, name: &str)
    ensures
        crate::text::views(final(missing)@) == crate::text::views(old(missing)@)
            + (if cond { seq![name@] } else { Seq::<Seq<char>>::empty() }),
{
    let ghost before = crate::text::views(missing@);
    if cond {
        missing.push(owned(name));
    }
    assert(crate::text::views(missing@) =~= before + (if cond { seq![name@] } else { Seq::<Seq<char>>::empty() }));
}

/// Checks a password against the rules of `config`: not blank, long enough
/// in UTF-8 bytes, and holding each required class of character.
pub fn validate_password(password: &str, config: &PasswordConfig) -> (r: Result<(), AppError>)
    requires
        encode_utf8(password@).len() <= usize::MAX,
    ensures
        match password_problem(password@, *config) {
            None => r is Ok,
            Some(m) => r is Err && r->Err_0 is ValidationError && r->Err_0->ValidationError_0@ == m,
        },
{
    if is_blank(password) {
        return Err(AppError::ValidationError(owned("Password cannot be empty")));
    }
    if password.len() < config.min_length {
        let mut msg = owned("Password must be at least ");
        let n = u64_to_string(config.min_length as u64);
        msg.append(n.as_str());
        msg.append(" characters long");
        return Err(AppError::ValidationError(msg));
    }
    let v = chars_of(password);
    let has_lowercase = has_char_in(&v, 'a', 'z');
    let has_uppercase = has_char_in(&v, 'A', 'Z');
    let has_digit = has_char_in(&v, '0', '9');
    let has_spec = has_special(&v);
    let mut missing: Vec<String> = Vec::new();
    push_class(&mut missing, config.require_lowercase && !has_lowercase, "lowercase letter");
    push_class(&mut missing, config.require_uppercase && !has_uppercase, "uppercase letter");
    push_class(&mut missing, config.require_number && !has_digit, "number");
    push_class(&mut missing, config.require_special && !has_spec, "special character (@$!%*?&#^-_+=.,:;)");
    assert(crate::text::views(missing@) =~= missing_classes(password@, *config));
    if missing.len() > 0 {
        let mut msg = owned("Password must contain at least one ");
        let joined = crate::text::join_strings(&missing, ", one ");
        msg.append(joined.as_str());
        return Err(AppError::ValidationError(msg));
    }
    Ok(())
}

/// Free-text input with surrounding whitespace removed.
pub fn sanitize_string(input: &str) -> (r: String)
    ensures
        r@ == trim(input@),
{
    trim_str(input)
}

} // verus!
