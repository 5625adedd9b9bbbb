use vstd::prelude::*;

use crate::response::error::ResponseError;

verus! {

/// The scheme word, with its trailing space, that an `Authorization` header starts with.
pub const BEARER_PREFIX: &'static str = "Bearer ";

/// The token an `Authorization` header carries: what follows `Bearer `. A missing header
/// or one without that prefix is unauthorized.
pub open spec fn bearer_token_of(header: Option<Seq<char>>) -> Option<Seq<char>> {
    match header {
        Some(h) => if h.len() >= 7 && h.take(7) == BEARER_PREFIX@ {
            Some(h.skip(7))
        } else {
            None
        },
        None => None,
    }
}

/// Reads the bearer token of a request's `Authorization` header (given as text, `None` when
/// absent or not text).
pub fn bearer_token(header: Option<&str>) -> (r: Result<&str, ResponseError>)
    ensures
        match bearer_token_of(
            match header {
                Some(h) => Some(h@),
                None => None,
            },
        ) {
            Some(t) => r matches Ok(x) && x@ == t,
            None => r == Err::<&str, ResponseError>(ResponseError::Unauthorized),
        },
{
    let h = match header {
        Some(h) => h,
        None => return Err(ResponseError::Unauthorized),
    };
    let n = h.unicode_len();
    let prefix = BEARER_PREFIX;
    proof {
        reveal_strlit("Bearer ");
    }
    if n < 7 {
        return Err(ResponseError::Unauthorized);
    }
    let mut i: usize = 0;
    while i < 7
        invariant
            i <= 7,
            7 <= n,
            header == Some(h),
            n == h@.len(),
            prefix@ == BEARER_PREFIX@,
            prefix@.len() == 7,
            forall|j: int| 0 <= j < i ==> h@[j] == prefix@[j],
        decreases 7 - i,
    {
        if h.get_char(i) != prefix.get_char(i) {
            proof {
                assert(h@.take(7)[i as int] != BEARER_PREFIX@[i as int]);
                assert(h@.take(7) != BEARER_PREFIX@);
            }
            return Err(ResponseError::Unauthorized);
        }
        i = i + 1;
    }
    assert(h@.take(7) =~= BEARER_PREFIX@);
    Ok(h.substring_char(7, n))
}

} // verus!
