use vstd::prelude::*;
use crate::banned_names::{banned_names, is_listed, lower_of, lowercase};
use crate::text::same_text;

verus! {

/// The longest name accepted, in characters.
pub const MAX_LEN: usize = 214;

/// Why a package name is rejected.
#[derive(Debug, PartialEq, Eq)]
pub enum Error {
    NameEmpty,
    InvalidStartingChar,
    LeadingOrTrailingSpaces,
    NameNotAllowed,
    NameTooLong,
    CapsNotAllowed,
    ScopedPackageNameInvalid,
    NameMustBeUrlFriendly,
}

impl Error {
    /// A sentence describing the rejection.
    pub fn message(&self) -> String {
        match self {
            Error::NameEmpty => String::from_str("package name must not be empty"),
            Error::InvalidStartingChar => String::from_str(
                "package name cannot start with a period or underscore",
            ),
            Error::LeadingOrTrailingSpaces => String::from_str(
                "package name cannot contain leading or trailing spaces",
            ),
            Error::NameNotAllowed => String::from_str(
                "package name is blacklisted or is a core module name",
            ),
            Error::NameTooLong => String::from_str(
                "package name cannot contain more than 214 characters",
            ),
            Error::CapsNotAllowed => String::from_str("package name cannot contain capital letters"),
            Error::ScopedPackageNameInvalid => String::from_str("scoped package name is invalid"),
            Error::NameMustBeUrlFriendly => String::from_str(
                "package name can only contain URL-friendly characters",
            ),
        }
    }
}

/// A character that percent-encoding leaves as it is: an ASCII letter or
/// digit, or one of `-`, `_`, `.`, `~`.
pub open spec fn unreserved(c: char) -> bool {
    ('a' <= c && c <= 'z') || ('A' <= c && c <= 'Z') || ('0' <= c && c <= '9') || c == '-'
        || c == '_' || c == '.' || c == '~'
}

/// A string that percent-encoding leaves unchanged.
pub open spec fn url_safe(s: Seq<char>) -> bool {
    forall|i: int| 0 <= i < s.len() ==> unreserved(#[trigger] s[i])
}

/// A string without `/`.
pub open spec fn no_slash(s: Seq<char>) -> bool {
    forall|i: int| 0 <= i < s.len() ==> #[trigger] s[i] != '/'
}

/// `s` reads `@scope/pkg` with the slash at `k`, `scope` and `pkg` non-empty
/// and free of slashes.
pub open spec fn scoped_at(s: Seq<char>, k: int) -> bool {
    &&& s.len() > 0
    &&& s[0] == '@'
    &&& 1 < k < s.len() - 1
    &&& s[k] == '/'
    &&& no_slash(s.subrange(1, k))
    &&& no_slash(s.subrange(k + 1, s.len() as int))
}

/// `s` is a scoped name whose scope and package are both URL-safe.
pub open spec fn url_safe_scoped(s: Seq<char>) -> bool {
    exists|k: int|
        #![trigger scoped_at(s, k)]
        scoped_at(s, k) && url_safe(s.subrange(1, k)) && url_safe(s.subrange(k + 1, s.len() as int))
}

/// What `str::trim` makes of a string (Unicode `White_Space` removed at both ends).
pub uninterp spec fn trimmed_of(s: Seq<char>) -> Seq<char>;

/// The outcome for `name`, given its trimmed and its lower-cased forms.
pub open spec fn verdict(name: Seq<char>, trimmed: Seq<char>, lowered: Seq<char>) -> Result<(), Error> {
    if name.len() == 0 {
        Err(Error::NameEmpty)
    } else if name[0] == '.' || name[0] == '_' {
        Err(Error::InvalidStartingChar)
    } else if trimmed != name {
        Err(Error::LeadingOrTrailingSpaces)
    } else if banned_names().contains(lowered) {
        Err(Error::NameNotAllowed)
    } else if name.len() > MAX_LEN {
        Err(Error::NameTooLong)
    } else if lowered != name {
        Err(Error::CapsNotAllowed)
    } else if url_safe(name) {
        Ok(())
    } else if no_slash(name) {
        Err(Error::ScopedPackageNameInvalid)
    } else if url_safe_scoped(name) {
        Ok(())
    } else {
        Err(Error::NameMustBeUrlFriendly)
    }
}

/// Relies on `str::trim`: its result depends on the characters alone.
#[verifier::external_body]
fn trim(s: &str) -> (r: &str)
    ensures
        r@ == trimmed_of(s@),
{
    s.trim()
}

/// Relies on `urlencoding::encode`, which percent-encodes every byte but
/// ASCII letters, digits and `-`, `_`, `.`, `~`: so the result equals the
/// input exactly when every character is one of those.
#[verifier::external_body]
fn url_encode(s: &str) -> (r: String)
    ensures
        (r@ == s@) == url_safe(s@),
{
    urlencoding::encode(s).into_owned()
}

/// Relies on `regex::Regex::new` and `Regex::captures` with the pattern
/// `^(?:@([^/]+?)[/])?([^/]+?)$`: it matches a non-empty name without a
/// slash (no scope group), or `@scope/pkg` with both parts non-empty and
/// slash-free; the pattern is valid, so `new` does not fail.
#[verifier::external_body]
fn scoped_captures(s: &str) -> (r: Option<(Option<String>, Option<String>)>)
    ensures
        match r {
            None => !(s@.len() > 0 && no_slash(s@)) && forall|k: int| !scoped_at(s@, k),
            Some((None, Some(p))) => s@.len() > 0 && no_slash(s@) && p@ == s@,
            Some((Some(a), Some(b))) => {
                &&& scoped_at(s@, a@.len() as int + 1)
                &&& a@ == s@.subrange(1, a@.len() as int + 1)
                &&& b@ == s@.subrange(a@.len() as int + 2, s@.len() as int)
            },
            _ => false,
        },
{
    let re = regex::Regex::new("^(?:@([^/]+?)[/])?([^/]+?)$").unwrap();
    re.captures(s).map(
        |c| (c.get(1).map(|m| m.as_str().to_string()), c.get(2).map(|m| m.as_str().to_string())),
    )
}

fn is_url_safe(s: &str) -> (r: bool)
    ensures
        r == url_safe(s@),
{
    let encoded = url_encode(s);
    same_text(encoded.as_str(), s)
}

proof fn lemma_slash_position_unique(s: Seq<char>, k: int, m: int)
    requires
        scoped_at(s, k),
        scoped_at(s, m),
    ensures
        k == m,
{
    if k < m {
        assert(s.subrange(1, m)[k - 1] == s[k]);
    } else if m < k {
        assert(s.subrange(1, k)[m - 1] == s[m]);
    }
}

/// Validates `name` given its trimmed form and its lower-cased form.
pub fn validate_prepared(name: &str, trimmed: &str, lowered: &str) -> (r: Result<(), Error>)
    ensures
        r == verdict(name@, trimmed@, lowered@),
{
    let len = name.unicode_len();
    if len == 0 {
        return Err(Error::NameEmpty);
    }
    let first = name.get_char(0);
    if first == '.' || first == '_' {
        return Err(Error::InvalidStartingChar);
    }
    if !same_text(trimmed, name) {
        return Err(Error::LeadingOrTrailingSpaces);
    }
    if is_listed(lowered) {
        return Err(Error::NameNotAllowed);
    }
    if len > MAX_LEN {
        return Err(Error::NameTooLong);
    }
    if !same_text(lowered, name) {
        return Err(Error::CapsNotAllowed);
    }
    if is_url_safe(name) {
        return Ok(());
    }
    match scoped_captures(name) {
        Some((Some(scope), Some(pkg))) => {
            let k = Ghost(scope@.len() as int + 1);
            if is_url_safe(scope.as_str()) && is_url_safe(pkg.as_str()) {
                assert(scoped_at(name@, k@));
                return Ok(());
            }
            assert forall|m: int|
                scoped_at(name@, m) implies !(url_safe(name@.subrange(1, m)) && url_safe(
                    name@.subrange(m + 1, name@.len() as int),
                )) by {
                lemma_slash_position_unique(name@, k@, m);
            }
            assert(!no_slash(name@));
            Err(Error::NameMustBeUrlFriendly)
        },
        Some(_) => Err(Error::ScopedPackageNameInvalid),
        None => {
            assert(!url_safe_scoped(name@));
            Err(Error::NameMustBeUrlFriendly)
        },
    }
}

/// Validates an npm package name: the first rule that the name breaks is
/// reported, in the order of the variants of [`Error`].
pub fn validate(name: &String) -> (r: Result<(), Error>)
    ensures
        r == verdict(name@, trimmed_of(name@), lower_of(name@)),
{
    let trimmed = trim(name.as_str());
    let lowered = lowercase(name.as_str());
    validate_prepared(name.as_str(), trimmed, lowered.as_str())
}

} // verus!
