//! Credential validation: the email address grammar and the password rules.
//! Both checks are pure and run before any storage is touched.

use vstd::prelude::*;
use vstd::utf8::encode_utf8;

verus! {

/// A character allowed in the local part of an address besides the dot.
pub open spec fn is_atext(c: char) -> bool {
    ('a' <= c && c <= 'z') || ('0' <= c && c <= '9') || c == '!' || c == '#' || c == '$'
        || c == '%' || c == '&' || c == '\'' || c == '*' || c == '+' || c == '/' || c == '='
        || c == '?' || c == '^' || c == '_' || c == '`' || c == '{' || c == '|' || c == '}'
        || c == '~' || c == '-'
}

/// A lower-case ASCII letter or a digit.
pub open spec fn is_alnum(c: char) -> bool {
    ('a' <= c && c <= 'z') || ('0' <= c && c <= '9')
}

/// Dot-separated, non-empty runs of `is_atext` characters.
pub open spec fn local_part_ok(l: Seq<char>) -> bool {
    &&& l.len() > 0
    &&& forall|k: int| 0 <= k < l.len() ==> is_atext(#[trigger] l[k]) || l[k] == '.'
    &&& l[0] != '.'
    &&& l[l.len() - 1] != '.'
    &&& forall|k: int| 0 <= k < l.len() - 1 ==> !(#[trigger] l[k] == '.' && l[k + 1] == '.')
}

/// Two or more dot-separated labels; each label is made of letters, digits
/// and hyphens, and starts and ends with a letter or a digit.
pub open spec fn domain_ok(d: Seq<char>) -> bool {
    &&& d.len() > 0
    &&& forall|k: int| 0 <= k < d.len() ==> is_alnum(#[trigger] d[k]) || d[k] == '-' || d[k] == '.'
    &&& is_alnum(d[0])
    &&& is_alnum(d[d.len() - 1])
    &&& forall|k: int|
        0 < k < d.len() - 1 && #[trigger] d[k] == '.' ==> is_alnum(d[k - 1]) && is_alnum(d[k + 1])
    &&& exists|k: int| 0 <= k < d.len() && #[trigger] d[k] == '.'
}

/// The address grammar: a local part, one `@`, a domain.
pub open spec fn email_ok(s: Seq<char>) -> bool {
    exists|i: int|
        0 <= i < s.len() && #[trigger] s[i] == '@' && local_part_ok(s.subrange(0, i))
            && domain_ok(s.subrange(i + 1, s.len() as int))
}

/// The address grammar written as a regular expression.
pub const EMAIL_VALIDATION_REGEX: &'static str = "^[a-z0-9!#$%&'*+/=?^_`{|}~-]+(\\.[a-z0-9!#$%&'*+/=?^_`{|}~-]+)*@[a-z0-9]+([a-z0-9-]*[a-z0-9])?(\\.[a-z0-9]+([a-z0-9-]*[a-z0-9])?)+$";

fn char_is_atext(c: char) -> (r: bool)
    ensures
        r == is_atext(c),
{
    ('a' <= c && c <= 'z') || ('0' <= c && c <= '9') || c == '!' || c == '#' || c == '$'
        || c == '%' || c == '&' || c == '\'' || c == '*' || c == '+' || c == '/' || c == '='
        || c == '?' || c == '^' || c == '_' || c == '`' || c == '{' || c == '|' || c == '}'
        || c == '~' || c == '-'
}

fn char_is_alnum(c: char) -> (r: bool)
    ensures
        r == is_alnum(c),
{
    ('a' <= c && c <= 'z') || ('0' <= c && c <= '9')
}

/// Checks `local_part_ok` on the first `hi` characters of `s`.
fn check_local_part(s: &str, hi: usize) -> (r: bool)
    requires
        hi <= s@.len(),
    ensures
        r == local_part_ok(s@.subrange(0, hi as int)),
{
    let ghost l = s@.subrange(0, hi as int);
    if hi == 0 {
        return false;
    }
    let mut k: usize = 0;
    let mut prev_dot = false;
    while k < hi
        invariant
            0 < hi <= s@.len(),
            l == s@.subrange(0, hi as int),
            k <= hi,
            forall|j: int| 0 <= j < k ==> is_atext(#[trigger] l[j]) || l[j] == '.',
            k > 0 ==> l[0] != '.',
            forall|j: int| 0 <= j < k - 1 ==> !(#[trigger] l[j] == '.' && l[j + 1] == '.'),
            prev_dot == (k > 0 && l[k - 1] == '.'),
        decreases hi - k,
    {
        let c = s.get_char(k);
        assert(l[k as int] == c);
        if !(char_is_atext(c) || c == '.') {
            return false;
        }
        if c == '.' && (k == 0 || prev_dot) {
            assert(k > 0 ==> l[k - 1] == '.' && l[k as int] == '.');
            return false;
        }
        prev_dot = c == '.';
        k = k + 1;
    }
    !prev_dot
}

/// Checks `domain_ok` on the characters of `s` from `lo` on.
fn check_domain(s: &str, lo: usize) -> (r: bool)
    requires
        lo <= s@.len(),
    ensures
        r == domain_ok(s@.subrange(lo as int, s@.len() as int)),
{
    let ghost d = s@.subrange(lo as int, s@.len() as int);
    let n = s.unicode_len();
    if lo == n {
        return false;
    }
    let len = n - lo;
    let mut k: usize = 0;
    let mut prev_alnum = false;
    let mut prev_dot = false;
    let mut saw_dot = false;
    while k < len
        invariant
            n == s@.len(),
            lo < n,
            len == n - lo,
            d == s@.subrange(lo as int, s@.len() as int),
            k <= len,
            forall|j: int| 0 <= j < k ==> is_alnum(#[trigger] d[j]) || d[j] == '-' || d[j] == '.',
            k > 0 ==> is_alnum(d[0]),
            forall|j: int|
                0 < j < k - 1 && #[trigger] d[j] == '.' ==> is_alnum(d[j - 1]) && is_alnum(d[j + 1]),
            prev_alnum == (k > 0 && is_alnum(d[k - 1])),
            prev_dot == (k > 0 && d[k - 1] == '.'),
            k > 1 && d[k - 1] == '.' ==> is_alnum(d[k - 2]),
            saw_dot == (exists|j: int| 0 <= j < k && #[trigger] d[j] == '.'),
        decreases len - k,
    {
        let c = s.get_char(lo + k);
        assert(d[k as int] == c);
        let alnum = char_is_alnum(c);
        if !(alnum || c == '-' || c == '.') {
            return false;
        }
        if k == 0 && !alnum {
            return false;
        }
        if c == '.' && !prev_alnum {
            assert(k > 0 && d[k as int] == '.' && !is_alnum(d[k - 1]));
            return false;
        }
        if prev_dot && !alnum {
            assert(d[k - 1] == '.' && !is_alnum(d[k as int]));
            return false;
        }
        if c == '.' {
            saw_dot = true;
        }
        prev_alnum = alnum;
        prev_dot = c == '.';
        k = k + 1;
    }
    prev_alnum && saw_dot
}

/// True exactly when `email` is an address of the grammar `email_ok`.
pub fn is_valid_email(email: &str) -> (r: bool)
    ensures
        r == email_ok(email@),
{
    let n = email.unicode_len();
    let mut p: usize = 0;
    while p < n
        invariant
            n == email@.len(),
            p <= n,
            forall|j: int| 0 <= j < p ==> #[trigger] email@[j] != '@',
        ensures
            p <= n,
            p < n ==> email@[p as int] == '@',
            forall|j: int| 0 <= j < p ==> #[trigger] email@[j] != '@',
        decreases n - p,
    {
        if email.get_char(p) == '@' {
            break;
        }
        p = p + 1;
    }
    if p == n {
        return false;
    }
    let r = check_local_part(email, p) && check_domain(email, p + 1);
    proof {
        let s = email@;
        if r {
            assert(s[p as int] == '@');
        } else if email_ok(s) {
            let i = choose|i: int|
                0 <= i < s.len() && #[trigger] s[i] == '@' && local_part_ok(s.subrange(0, i))
                    && domain_ok(s.subrange(i + 1, s.len() as int));
            let l = s.subrange(0, i);
            if i > p {
                assert(l[p as int] == '@');
                assert(!is_atext('@'));
            }
            assert(i == p);
        }
    }
    r
}

/// Whether `char::is_uppercase` holds of a character (Unicode `Uppercase`).
pub uninterp spec fn unicode_upper(c: char) -> bool;

/// Whether `char::is_lowercase` holds of a character (Unicode `Lowercase`).
pub uninterp spec fn unicode_lower(c: char) -> bool;

/// Relies on `char::is_uppercase`: the Unicode `Uppercase` property, which
/// among ASCII characters holds of `A` to `Z` alone.
#[verifier::external_body]
fn char_is_uppercase(c: char) -> (r: bool)
    ensures
        r == unicode_upper(c),
        c <= '\u{7f}' ==> (r <==> ('A' <= c && c <= 'Z')),
{
    c.is_uppercase()
}

/// Relies on `char::is_lowercase`: the Unicode `Lowercase` property, which
/// among ASCII characters holds of `a` to `z` alone.
#[verifier::external_body]
fn char_is_lowercase(c: char) -> (r: bool)
    ensures
        r == unicode_lower(c),
        c <= '\u{7f}' ==> (r <==> ('a' <= c && c <= 'z')),
{
    c.is_lowercase()
}

/// One of the special characters a password must draw on.
pub open spec fn is_special(c: char) -> bool {
    c == '@' || c == '$' || c == '!' || c == '%' || c == '*' || c == '?' || c == '&' || c == '#'
}

pub open spec fn is_digit(c: char) -> bool {
    '0' <= c && c <= '9'
}

pub open spec fn has_upper(pw: Seq<char>) -> bool {
    exists|j: int| 0 <= j < pw.len() && unicode_upper(#[trigger] pw[j])
}

/// A lower-case character that is not also upper-case.
pub open spec fn has_lower(pw: Seq<char>) -> bool {
    exists|j: int| 0 <= j < pw.len() && !unicode_upper(#[trigger] pw[j]) && unicode_lower(pw[j])
}

pub open spec fn has_digit(pw: Seq<char>) -> bool {
    exists|j: int| 0 <= j < pw.len() && is_digit(#[trigger] pw[j])
}

pub open spec fn has_special(pw: Seq<char>) -> bool {
    exists|j: int| 0 <= j < pw.len() && is_special(#[trigger] pw[j])
}

/// At least eight bytes of UTF-8, and at least one character of each of the
/// four classes. No character is forbidden.
pub open spec fn password_ok(pw: Seq<char>) -> bool {
    &&& encode_utf8(pw).len() >= 8
    &&& has_upper(pw)
    &&& has_lower(pw)
    &&& has_digit(pw)
    &&& has_special(pw)
}

pub open spec fn is_ascii_char(c: char) -> bool {
    c <= '\u{7f}'
}

/// The password rule on ASCII text, where upper case is `A` to `Z` and
/// lower case is `a` to `z`.
pub open spec fn password_ok_ascii(pw: Seq<char>) -> bool {
    &&& encode_utf8(pw).len() >= 8
    &&& exists|j: int| 0 <= j < pw.len() && 'A' <= #[trigger] pw[j] && pw[j] <= 'Z'
    &&& exists|j: int| 0 <= j < pw.len() && 'a' <= #[trigger] pw[j] && pw[j] <= 'z'
    &&& has_digit(pw)
    &&& has_special(pw)
}

/// Password strength check: one pass over the characters that stops as soon
/// as all four classes have been seen.
pub fn pw_regex_custom(pw: &str) -> (r: bool)
    ensures
        r == password_ok(pw@),
        (forall|j: int| 0 <= j < pw@.len() ==> is_ascii_char(#[trigger] pw@[j])) ==> r
            == password_ok_ascii(pw@),
{
    if pw.as_bytes().len() < 8 {
        return false;
    }
    let n = pw.unicode_len();
    let ghost s = pw@;
    let mut upper = false;
    let mut lower = false;
    let mut digit = false;
    let mut special = false;
    let mut k: usize = 0;
    while k < n
        invariant
            n == s.len(),
            s == pw@,
            encode_utf8(s).len() >= 8,
            k <= n,
            upper == (exists|j: int| 0 <= j < k && unicode_upper(#[trigger] s[j])),
            lower == (exists|j: int|
                0 <= j < k && !unicode_upper(#[trigger] s[j]) && unicode_lower(s[j])),
            digit == (exists|j: int| 0 <= j < k && is_digit(#[trigger] s[j])),
            special == (exists|j: int| 0 <= j < k && is_special(#[trigger] s[j])),
            !(upper && lower && digit && special),
            (forall|j: int| 0 <= j < k ==> is_ascii_char(#[trigger] s[j])) ==> {
                &&& upper == (exists|j: int| 0 <= j < k && 'A' <= #[trigger] s[j] && s[j] <= 'Z')
                &&& lower == (exists|j: int| 0 <= j < k && 'a' <= #[trigger] s[j] && s[j] <= 'z')
            },
        decreases n - k,
    {
        let c = pw.get_char(k);
        assert(s[k as int] == c);
        if char_is_uppercase(c) {
            upper = true;
        } else if char_is_lowercase(c) {
            lower = true;
        } else if '0' <= c && c <= '9' {
            digit = true;
        } else if c == '@' || c == '$' || c == '!' || c == '%' || c == '*' || c == '?' || c == '&'
            || c == '#' {
            special = true;
        }
        proof {
            if is_digit(c) || is_special(c) {
                assert(c <= '\u{7f}');
            }
        }
        k = k + 1;
        if upper && lower && digit && special {
            return true;
        }
    }
    false
}

/// Whether `regex::Regex::new` accepts a pattern text: it is valid and its
/// compiled form fits the default size limit.
pub uninterp spec fn regex_parses(pattern: Seq<char>) -> bool;

/// Whether the regex of `pattern` matches somewhere in `haystack`.
pub uninterp spec fn regex_matches(pattern: Seq<char>, haystack: Seq<char>) -> bool;

/// Relies on `regex::Regex::new`, which fails on an invalid pattern or one
/// whose compiled form exceeds the default size limit, and on
/// `Regex::is_match`, a match anywhere in the haystack. Both depend on the
/// texts alone.
#[verifier::external_body]
fn regex_match(pattern: &str, haystack: &str) -> (r: Option<bool>)
    ensures
        r is Some <==> regex_parses(pattern@),
        r matches Some(b) ==> b == regex_matches(pattern@, haystack@),
{
    regex::Regex::new(pattern).ok().map(|re| re.is_match(haystack))
}

/// A pattern that compiles. The address pattern `EMAIL_VALIDATION_REGEX`
/// is matched by the grammar `email_ok`; any other pattern by the regex
/// crate, which compiles it again for each match.
pub struct CompiledRegex {
    pattern: String,
}

/// A pattern text that does not compile.
#[derive(Debug, PartialEq, Eq, Structural)]
pub struct PatternError {}

impl CompiledRegex {
    #[verifier::type_invariant]
    spec fn inv(&self) -> bool {
        regex_parses(self.pattern@)
    }

    pub closed spec fn pattern(&self) -> Seq<char> {
        self.pattern@
    }

    /// Whether `s` matches the pattern.
    pub fn is_match(&self, s: &str) -> (r: bool)
        ensures
            r == if self.pattern() == EMAIL_VALIDATION_REGEX@ {
                email_ok(s@)
            } else {
                regex_matches(self.pattern(), s@)
            },
    {
        if same_text(self.pattern.as_str(), EMAIL_VALIDATION_REGEX) {
            is_valid_email(s)
        } else {
            proof {
                use_type_invariant(self);
            }
            match regex_match(self.pattern.as_str(), s) {
                Some(b) => b,
                None => false,
            }
        }
    }
}

pub(crate) fn same_text(a: &str, b: &str) -> (r: bool)
    ensures
        r == (a@ == b@),
{
    let n = a.unicode_len();
    if n != b.unicode_len() {
        return false;
    }
    let mut k: usize = 0;
    while k < n
        invariant
            n == a@.len() == b@.len(),
            k <= n,
            forall|j: int| 0 <= j < k ==> a@[j] == b@[j],
        decreases n - k,
    {
        if a.get_char(k) != b.get_char(k) {
            return false;
        }
        k = k + 1;
    }
    assert(a@ =~= b@);
    true
}

/// Compiles a pattern text; an error exactly when the regex crate refuses
/// it.
pub fn compile_regex(regex: &str) -> (r: Result<CompiledRegex, PatternError>)
    ensures
        r is Ok <==> regex_parses(regex@),
        r matches Ok(c) ==> c.pattern() == regex@,
{
    match regex_match(regex, "") {
        Some(_) => Ok(CompiledRegex { pattern: regex.to_owned() }),
        None => Err(PatternError {}),
    }
}

/// The patterns the server compiles once at start-up.
pub struct CompiledRegexes {
    email_validation_regex: CompiledRegex,
}

impl CompiledRegexes {
    pub fn compile() -> (r: Result<CompiledRegexes, PatternError>)
        ensures
            r is Ok <==> regex_parses(EMAIL_VALIDATION_REGEX@),
            r matches Ok(c) ==> c.email_regex_pattern() == EMAIL_VALIDATION_REGEX@,
    {
        match compile_regex(EMAIL_VALIDATION_REGEX) {
            Ok(p) => Ok(CompiledRegexes { email_validation_regex: p }),
            Err(e) => Err(e),
        }
    }

    pub closed spec fn email_regex_pattern(&self) -> Seq<char> {
        self.email_validation_regex.pattern()
    }

    pub fn email_regex(&self) -> (r: &CompiledRegex)
        ensures
            r.pattern() == self.email_regex_pattern(),
    {
        &self.email_validation_regex
    }
}

} // verus!
