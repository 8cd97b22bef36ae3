use vstd::prelude::*;

verus! {

/// The longest keyspace name that the database accepts, in characters.
pub const MAX_KEYSPACE_NAME_LEN: usize = 48;

/// Why a keyspace name was refused.
#[derive(Debug, Clone, PartialEq, Eq)]
pub enum BadKeyspaceName {
    /// The name is empty.
    Empty,
    /// The name, and its length in characters, which is over the limit.
    TooLong(String, usize),
    /// The name, and its first character that is not an ASCII letter, digit or `_`.
    IllegalCharacter(String, char),
}

/// Whether `c` may stand in a keyspace name.
pub open spec fn keyspace_char(c: char) -> bool {
    ('a' <= c && c <= 'z') || ('A' <= c && c <= 'Z') || ('0' <= c && c <= '9') || c == '_'
}

/// The name `s` is a valid keyspace name.
pub open spec fn valid_keyspace_name(s: Seq<char>) -> bool {
    &&& 0 < s.len() <= MAX_KEYSPACE_NAME_LEN
    &&& forall|i: int| 0 <= i < s.len() ==> keyspace_char(#[trigger] s[i])
}

/// `e` is the error that the name `s` is refused with: the first check that
/// fails of emptiness, length and characters, in that order.
pub open spec fn keyspace_name_error(s: Seq<char>, e: BadKeyspaceName) -> bool {
    match e {
        BadKeyspaceName::Empty => s.len() == 0,
        BadKeyspaceName::TooLong(n, l) => s.len() > MAX_KEYSPACE_NAME_LEN && n@ == s && l == s.len(),
        BadKeyspaceName::IllegalCharacter(n, c) => {
            &&& n@ == s
            &&& 0 < s.len() <= MAX_KEYSPACE_NAME_LEN
            &&& exists|i: int|
                0 <= i < s.len() && s[i] == c && !keyspace_char(c) && forall|j: int|
                    0 <= j < i ==> keyspace_char(#[trigger] s[j])
        },
    }
}

/// A keyspace name that passed validation, so that binding to it cannot fail
/// locally and needs no network round trip to be refused.
#[derive(Debug, Clone)]
pub struct VerifiedKeyspaceName {
    name: String,
    is_case_sensitive: bool,
}

fn is_keyspace_char(c: char) -> (r: bool)
    ensures
        r == keyspace_char(c),
{
    ('a' <= c && c <= 'z') || ('A' <= c && c <= 'Z') || ('0' <= c && c <= '9') || c == '_'
}

/// Checks a keyspace name: not empty, at most 48 characters, each an ASCII
/// letter, digit or `_`. The first failing check gives the error.
pub fn verify_keyspace_name(name: &str) -> (r: Result<(), BadKeyspaceName>)
    ensures
        r is Ok <==> valid_keyspace_name(name@),
        r matches Err(e) ==> keyspace_name_error(name@, e),
{
    let len = name.unicode_len();
    if len == 0 {
        return Err(BadKeyspaceName::Empty);
    }
    if len > MAX_KEYSPACE_NAME_LEN {
        return Err(BadKeyspaceName::TooLong(String::from_str(name), len));
    }
    let mut i: usize = 0;
    while i < len
        invariant
            len == name@.len(),
            0 < len <= MAX_KEYSPACE_NAME_LEN,
            i <= len,
            forall|j: int| 0 <= j < i ==> keyspace_char(#[trigger] name@[j]),
        decreases len - i,
    {
        let c = name.get_char(i);
        if !is_keyspace_char(c) {
            return Err(BadKeyspaceName::IllegalCharacter(String::from_str(name), c));
        }
        i = i + 1;
    }
    Ok(())
}

impl VerifiedKeyspaceName {
    /// Validates `name`; a case-sensitive name is quoted when it is sent.
    pub fn new(name: String, is_case_sensitive: bool) -> (r: Result<VerifiedKeyspaceName, BadKeyspaceName>)
        ensures
            r is Ok <==> valid_keyspace_name(name@),
            r matches Ok(k) ==> k.name() == name@ && k.is_case_sensitive() == is_case_sensitive,
            r matches Err(e) ==> keyspace_name_error(name@, e),
    {
        match verify_keyspace_name(name.as_str()) {
            Ok(()) => Ok(VerifiedKeyspaceName { name, is_case_sensitive }),
            Err(e) => Err(e),
        }
    }

    pub closed spec fn name(&self) -> Seq<char> {
        self.name@
    }

    pub closed spec fn is_case_sensitive(&self) -> bool {
        self.is_case_sensitive
    }

    /// The name as given.
    pub fn as_str(&self) -> (r: &str)
        ensures
            r@ == self.name(),
    {
        self.name.as_str()
    }

    /// Whether the name is sent quoted, keeping its case.
    pub fn case_sensitive(&self) -> (r: bool)
        ensures
            r == self.is_case_sensitive(),
    {
        self.is_case_sensitive
    }
}

} // verus!
