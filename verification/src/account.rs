//! Account identifiers and their well-formedness rules.
//!
//! An account identifier is 2 to 64 characters long, built from lowercase
//! letters, digits and the separators `-`, `_` and `.`, where no separator
//! may start or end the identifier and no two separators may be adjacent.

use vstd::prelude::*;

verus! {

/// A non-separator character of an account identifier: a lowercase
/// letter or a digit.
pub open spec fn is_name_char(c: char) -> bool {
    ('a' <= c && c <= 'z') || ('0' <= c && c <= '9')
}

/// A separator character of an account identifier.
pub open spec fn is_separator_char(c: char) -> bool {
    c == '-' || c == '_' || c == '.'
}

/// Any character that may occur in an account identifier.
pub open spec fn is_account_char(c: char) -> bool {
    is_name_char(c) || is_separator_char(c)
}

/// A well-formed account identifier: 2 to 64 characters, each of them a
/// lowercase letter, a digit or a separator; the first and the last
/// character are not separators; no two separators are adjacent.
pub open spec fn is_valid_account_seq(s: Seq<char>) -> bool {
    &&& 2 <= s.len() <= 64
    &&& forall|i: int| 0 <= i < s.len() ==> is_account_char(#[trigger] s[i])
    &&& is_name_char(s[0])
    &&& is_name_char(s[s.len() - 1])
    &&& forall|i: int|
        0 <= i < s.len() - 1 ==> !(is_separator_char(#[trigger] s[i]) && is_separator_char(
            s[i + 1],
        ))
}

fn is_name_char_exec(c: char) -> (b: bool)
    ensures
        b == is_name_char(c),
{
    ('a' <= c && c <= 'z') || ('0' <= c && c <= '9')
}

fn is_separator_char_exec(c: char) -> (b: bool)
    ensures
        b == is_separator_char(c),
{
    c == '-' || c == '_' || c == '.'
}

/// Decides whether `s` is a well-formed account identifier.
pub fn is_valid_account_str(s: &str) -> (b: bool)
    ensures
        b == is_valid_account_seq(s@),
{
    let n = s.unicode_len();
    if n < 2 || n > 64 {
        return false;
    }
    let mut i: usize = 0;
    // Sentinel: treating the position before the string as a separator
    // rejects a leading separator.
    let mut prev_sep = true;
    while i < n
        invariant
            n == s@.len(),
            2 <= n <= 64,
            0 <= i <= n,
            forall|j: int| 0 <= j < i ==> is_account_char(#[trigger] s@[j]),
            i > 0 ==> is_name_char(s@[0]),
            forall|j: int|
                0 <= j < i - 1 ==> !(is_separator_char(#[trigger] s@[j]) && is_separator_char(
                    s@[j + 1],
                )),
            prev_sep == if i == 0 {
                true
            } else {
                is_separator_char(s@[i - 1])
            },
        decreases n - i,
    {
        let c = s.get_char(i);
        let name = is_name_char_exec(c);
        let sep = is_separator_char_exec(c);
        if !name && !sep {
            return false;
        }
        if sep && prev_sep {
            return false;
        }
        prev_sep = sep;
        i = i + 1;
    }
    !prev_sep
}

/// An account identifier, held only in well-formed textual form.
pub struct AccountId {
    id: String,
}

impl View for AccountId {
    type V = Seq<char>;

    closed spec fn view(&self) -> Seq<char> {
        self.id@
    }
}

impl AccountId {
    /// Holds of every value of this type: the identifier is well formed.
    #[verifier::type_invariant]
    pub open spec fn well_formed(self) -> bool {
        is_valid_account_seq(self@)
    }

    /// Parses an account identifier, accepting exactly the well-formed
    /// strings.
    pub fn parse(s: &str) -> (r: Option<AccountId>)
        ensures
            (r is Some) == is_valid_account_seq(s@),
            r matches Some(a) ==> a@ == s@,
    {
        if is_valid_account_str(s) {
            Some(AccountId { id: s.to_owned() })
        } else {
            None
        }
    }

    /// The textual form of the identifier.
    pub fn as_str(&self) -> (r: &str)
        ensures
            r@ == self@,
    {
        self.id.as_str()
    }

    /// A fresh `String` holding the textual form of the identifier.
    pub fn to_text(&self) -> (r: String)
        ensures
            r@ == self@,
    {
        self.id.clone()
    }

    /// Whether the identifier's textual form equals the given text.
    pub fn text_is(&self, s: &String) -> (b: bool)
        ensures
            b == (self@ == s@),
    {
        self.id == *s
    }

    /// Equality of two account identifiers.
    pub fn same_as(&self, other: &AccountId) -> (b: bool)
        ensures
            b == (self@ == other@),
    {
        self.id == other.id
    }

}

impl Clone for AccountId {
    fn clone(&self) -> (r: Self)
        ensures
            r@ == self@,
    {
        proof {
            use_type_invariant(self);
        }
        AccountId { id: self.id.clone() }
    }
}

} // verus!
