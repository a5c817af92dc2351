//! Checks and clean-up of what users type into their profile and what
//! administrators type as ban reasons.

use vstd::prelude::*;
use crate::error::Error;
use crate::text::{char_is_whitespace, is_white_space, trim, trimmed};
use crate::uid::Uid;

verus! {

/// A profile as it is stored: trimmed name and email, and an organization that is
/// trimmed and absent when blank.
#[derive(Debug, Clone)]
pub struct ProfileInput {
    pub name: String,
    pub email: String,
    pub organization: Option<String>,
}

/// Why a profile is refused.
#[derive(Debug, Clone, Copy, PartialEq, Eq, Structural)]
pub enum ProfileError {
    /// The name or the email is blank.
    MissingIdentity,
    /// The email is not of the form `local@domain.tld`.
    InvalidEmail,
}

/// What `clean_optional_text` gives: the trimmed text, or nothing when it is blank.
pub open spec fn cleaned(value: Option<Seq<char>>) -> Option<Seq<char>> {
    match value {
        Some(v) => if trimmed(v).len() == 0 { None } else { Some(trimmed(v)) },
        None => None,
    }
}

/// The view of an optional string.
pub open spec fn text_of(value: Option<String>) -> Option<Seq<char>> {
    match value {
        Some(v) => Some(v@),
        None => None,
    }
}

/// Trims an optional text and drops it when nothing is left.
pub fn clean_optional_text(value: Option<String>) -> (r: Option<String>)
    ensures
        text_of(r) == cleaned(text_of(value)),
{
    match value {
        Some(v) => {
            let t = trim(v.as_str());
            if t.as_str().unicode_len() == 0 {
                None
            } else {
                Some(t)
            }
        },
        None => None,
    }
}

/// Whether `c` is an email address as the registration form accepts it: no white
/// space, exactly one `@` with text before it, and after it a domain that holds a
/// dot and neither starts nor ends with one.
pub open spec fn is_email(c: Seq<char>) -> bool {
    &&& forall|i: int| 0 <= i < c.len() ==> !is_white_space(#[trigger] c[i])
    &&& exists|p: int| #[trigger] email_split_at(c, p)
}

/// The one `@` of `c` is at `p`, with text before it, and after it a domain that
/// holds a dot and neither starts nor ends with one.
pub open spec fn email_split_at(c: Seq<char>, p: int) -> bool {
    &&& 0 < p < c.len() - 1
    &&& forall|j: int| 0 <= j < c.len() ==> (#[trigger] c[j] == '@' <==> j == p)
    &&& exists|d: int| p < d < c.len() && #[trigger] c[d] == '.'
    &&& c[p + 1] != '.'
    &&& c.last() != '.'
}

/// Whether `email` is an email address (see [`is_email`]).
pub fn is_valid_email(email: &str) -> (r: bool)
    ensures
        r == is_email(email@),
{
    let c = email;
    let n = c.unicode_len();
    let mut i: usize = 0;
    let mut at: Option<usize> = None;
    while i < n
        invariant
            n == c@.len(),
            c@ == email@,
            i <= n,
            forall|j: int| 0 <= j < i ==> !is_white_space(#[trigger] c@[j]),
            match at {
                Some(p) => p < i && c@[p as int] == '@' && forall|j: int| 0 <= j < p ==> #[trigger] c@[j] != '@',
                None => forall|j: int| 0 <= j < i ==> #[trigger] c@[j] != '@',
            },
        decreases n - i,
    {
        let ch = c.get_char(i);
        if char_is_whitespace(ch) {
            assert(!is_email(c@)) by {
                assert(is_white_space(c@[i as int]));
            }
            return false;
        }
        if ch == '@' && at.is_none() {
            at = Some(i);
        }
        i = i + 1;
    }
    let p = match at {
        Some(p) => p,
        None => {
            proof {
                if is_email(c@) {
                    let q = choose|q: int| email_split_at(c@, q);
                    assert(c@[q] == '@');
                }
            }
            return false;
        },
    };
    if p == 0 || p + 1 >= n {
        proof {
            if is_email(c@) {
                let q = choose|q: int| email_split_at(c@, q);
                assert(c@[p as int] == '@');
            }
        }
        return false;
    }
    let mut k: usize = p + 1;
    let mut dot = false;
    while k < n
        invariant
            n == c@.len(),
            c@ == email@,
            p + 1 <= k <= n,
            c@[p as int] == '@',
            dot <==> exists|d: int| p < d < k && #[trigger] c@[d] == '.',
            forall|j: int| p < j < k ==> #[trigger] c@[j] != '@',
        decreases n - k,
    {
        let ch = c.get_char(k);
        if ch == '@' {
            proof {
                if is_email(c@) {
                    let q = choose|q: int| email_split_at(c@, q);
                    assert(c@[p as int] == '@');
                    assert(c@[k as int] == '@');
                }
            }
            return false;
        }
        if ch == '.' {
            dot = true;
        }
        k = k + 1;
    }
    let r = dot && c.get_char(p + 1) != '.' && c.get_char(n - 1) != '.';
    proof {
        assert forall|j: int| 0 <= j < c@.len() implies (#[trigger] c@[j] == '@' <==> j == p) by {}
        if is_email(c@) {
            let q = choose|q: int| email_split_at(c@, q);
            assert(c@[p as int] == '@');
            assert(q == p);
        }
        if r {
            let d = choose|d: int| p < d < n && #[trigger] c@[d] == '.';
            assert(c@[d] == '.');
            assert(email_split_at(c@, p as int));
        }
    }
    r
}

/// Trims the fields of a profile and checks them.
///
/// # Errors
///
/// `MissingIdentity` when the trimmed name or email is empty, else `InvalidEmail`
/// when the trimmed email is no email address.
pub fn normalize_profile(name: String, email: String, organization: Option<String>) -> (r: Result<
    ProfileInput,
    ProfileError,
>)
    ensures
        (trimmed(name@).len() == 0 || trimmed(email@).len() == 0) ==> r == Err::<ProfileInput, ProfileError>(ProfileError::MissingIdentity),
        (trimmed(name@).len() > 0 && trimmed(email@).len() > 0 && !is_email(trimmed(email@)))
            ==> r == Err::<ProfileInput, ProfileError>(ProfileError::InvalidEmail),
        (trimmed(name@).len() > 0 && trimmed(email@).len() > 0 && is_email(trimmed(email@))) <==> r is Ok,
        r matches Ok(p) ==> p.name@ == trimmed(name@) && p.email@ == trimmed(email@)
            && text_of(p.organization) == cleaned(text_of(organization)),
{
    let name = trim(name.as_str());
    let email = trim(email.as_str());
    let organization = clean_optional_text(organization);
    if name.as_str().unicode_len() == 0 || email.as_str().unicode_len() == 0 {
        return Err(ProfileError::MissingIdentity);
    }
    if !is_valid_email(email.as_str()) {
        return Err(ProfileError::InvalidEmail);
    }
    Ok(ProfileInput { name, email, organization })
}

/// A ban reason as it is stored: trimmed.
pub fn normalize_reason(reason: String) -> (r: String)
    ensures
        r@ == trimmed(reason@),
{
    trim(reason.as_str())
}

/// The bytes to store for an RFID card UID sent by a client: `None` stays `None`,
/// and bytes are kept when they form a UID.
///
/// # Errors
///
/// `InvalidUidLength` with the byte count when it is neither 4, 7 nor 10.
pub fn uid_bytes_from_proto(uid: Option<Vec<u8>>) -> (r: Result<Option<Vec<u8>>, Error>)
    ensures
        match uid {
            None => r matches Ok(None),
            Some(v) => if v@.len() == 4 || v@.len() == 7 || v@.len() == 10 {
                r matches Ok(Some(w)) && w@ == v@
            } else {
                r matches Err(e) && e == Error::InvalidUidLength(v@.len() as usize)
            },
        },
{
    match uid {
        None => Ok(None),
        Some(v) => match Uid::from_bytes(v.as_slice()) {
            Ok(core_uid) => {
                let bytes = core_uid.as_bytes();
                let mut out: Vec<u8> = Vec::new();
                let mut i: usize = 0;
                while i < bytes.len()
                    invariant
                        i <= bytes@.len(),
                        out@ == bytes@.take(i as int),
                    decreases bytes.len() - i,
                {
                    out.push(bytes[i]);
                    proof {
                        assert(bytes@.take(i + 1) =~= bytes@.take(i as int).push(bytes@[i as int]));
                    }
                    i = i + 1;
                }
                assert(bytes@.take(i as int) =~= bytes@);
                Ok(Some(out))
            },
            Err(e) => Err(e),
        },
    }
}

} // verus!
