use crate::errors::AuthError;
use vstd::prelude::*;

verus! {

/// A credential taken from the `authorization` header.
#[derive(Debug)]
pub enum Credential {
    /// `OAuth <token>`: a token of the identity provider.
    OAuth(String),
    /// `Bearer <token>`: a refresh token issued here.
    Refresh(String),
}

/// `i` is the position of the one and only space in `h`.
pub open spec fn sole_space(h: Seq<char>, i: int) -> bool {
    &&& 0 <= i < h.len()
    &&& h[i] == ' '
    &&& forall|j: int| 0 <= j < h.len() && j != i ==> h[j] != ' '
}

/// `h` reads `<scheme> <token>`, split at its only space.
pub open spec fn splits_as(h: Seq<char>, scheme: Seq<char>, token: Seq<char>) -> bool {
    exists|i: int|
        sole_space(h, i) && h.subrange(0, i) == scheme && h.subrange(i + 1, h.len() as int)
            == token
}

/// `h` names one of the two schemes and a token.
pub open spec fn well_formed_header(h: Seq<char>) -> bool {
    exists|i: int|
        sole_space(h, i) && (h.subrange(0, i) == "OAuth"@ || h.subrange(0, i) == "Bearer"@)
}

/// Classifies the `authorization` header. `None` stands for a missing header,
/// `Some(Err(()))` for one that is not valid UTF-8.
pub fn parse_authorization(header: Option<Result<&str, ()>>) -> (r: Result<Credential, AuthError>)
    ensures
        header is None ==> r == Err::<Credential, AuthError>(AuthError::MissingAuthHeader),
        header matches Some(Err(_)) ==> r == Err::<Credential, AuthError>(
            AuthError::MalformedAuthHeader,
        ),
        header matches Some(Ok(h)) ==> {
            &&& r is Ok <==> well_formed_header(h@)
            &&& r is Err ==> r == Err::<Credential, AuthError>(AuthError::MalformedAuthHeader)
            &&& r matches Ok(Credential::OAuth(t)) ==> splits_as(h@, "OAuth"@, t@)
            &&& r matches Ok(Credential::Refresh(t)) ==> splits_as(h@, "Bearer"@, t@)
        },
{
    let h = match header {
        None => return Err(AuthError::MissingAuthHeader),
        Some(Err(_)) => return Err(AuthError::MalformedAuthHeader),
        Some(Ok(h)) => h,
    };
    let len = h.unicode_len();
    let mut pos: usize = 0;
    let mut found = false;
    let mut i: usize = 0;
    while i < len
        invariant
            len == h@.len(),
            header == Some(Ok::<&str, ()>(h)),
            i <= len,
            !found ==> forall|j: int| 0 <= j < i ==> h@[j] != ' ',
            found ==> pos < i && h@[pos as int] == ' ',
            found ==> forall|j: int| 0 <= j < i && j != pos ==> h@[j] != ' ',
        decreases len - i,
    {
        if h.get_char(i) == ' ' {
            if found {
                assert forall|k: int| !sole_space(h@, k) by {
                    if sole_space(h@, k) {
                        assert(h@[pos as int] == ' ');
                        assert(h@[i as int] == ' ');
                    }
                }
                return Err(AuthError::MalformedAuthHeader);
            }
            found = true;
            pos = i;
        }
        i = i + 1;
    }
    if !found {
        assert forall|k: int| !sole_space(h@, k) by {
            if sole_space(h@, k) {
                assert(h@[k] == ' ');
            }
        }
        return Err(AuthError::MalformedAuthHeader);
    }
    assert(sole_space(h@, pos as int));
    assert forall|k: int| sole_space(h@, k) implies k == pos by {
        assert(h@[k] == ' ');
    }
    let scheme = h.substring_char(0, pos).to_owned();
    let token = h.substring_char(pos + 1, len).to_owned();
    if scheme == "OAuth".to_owned() {
        Ok(Credential::OAuth(token))
    } else if scheme == "Bearer".to_owned() {
        Ok(Credential::Refresh(token))
    } else {
        Err(AuthError::MalformedAuthHeader)
    }
}

} // verus!
