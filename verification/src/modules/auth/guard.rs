//! The authentication guard: what it takes from the `Authorization` header
//! and how it answers a request it refuses.

use vstd::prelude::*;
use vstd::string::StrSliceExecFns;
use crate::error::AppError;

verus! {

/// The token in an `Authorization` header value: what follows `Bearer `,
/// or `None` when the value does not start with it.
pub open spec fn bearer_of(header: Seq<char>) -> Option<Seq<char>> {
    if "Bearer "@.is_prefix_of(header) {
        Some(header.subrange("Bearer "@.len() as int, header.len() as int))
    } else {
        None
    }
}

/// The refusal of the guard.
pub open spec fn is_unauthorized(e: AppError) -> bool {
    e matches AppError::Unauthorized(m) && m@ == "Unauthorized"@
}

fn unauthorized() -> (e: AppError)
    ensures
        is_unauthorized(e),
{
    AppError::Unauthorized(String::from_str("Unauthorized"))
}

/// The token of a request, from its `Authorization` header (`None` when the
/// request has none, or one that is not visible ASCII text). Anything but
/// `Bearer ` followed by the token is refused.
pub fn bearer_token<'a>(header: Option<&'a str>) -> (res: Result<&'a str, AppError>)
    ensures
        match header {
            Some(h) => match bearer_of(h@) {
                Some(t) => res matches Ok(r) && r@ == t,
                None => res matches Err(e) && is_unauthorized(e),
            },
            None => res matches Err(e) && is_unauthorized(e),
        },
{
    match header {
        None => Err(unauthorized()),
        Some(h) => {
            let prefix = "Bearer ";
            proof {
                reveal_strlit("Bearer ");
            }
            let n = h.unicode_len();
            let p = prefix.unicode_len();
            if n < p {
                return Err(unauthorized());
            }
            let mut i: usize = 0;
            while i < p
                invariant
                    p == prefix@.len(),
                    prefix@ == "Bearer "@,
                    header == Some(h),
                    n == h@.len(),
                    p <= n,
                    i <= p,
                    forall|k: int| 0 <= k < i ==> h@[k] == prefix@[k],
                decreases p - i,
            {
                if h.get_char(i) != prefix.get_char(i) {
                    assert(!prefix@.is_prefix_of(h@)) by {
                        if prefix@.is_prefix_of(h@) {
                            assert(h@.subrange(0, p as int)[i as int] == h@[i as int]);
                        }
                    }
                    return Err(unauthorized());
                }
                i = i + 1;
            }
            assert(h@.subrange(0, p as int) =~= prefix@);
            Ok(h.substring_char(p, n))
        },
    }
}

/// The guard's answer: a request it lets through keeps its value; every
/// refusal, whatever its reason, is answered with `Unauthorized`.
pub fn authorize<T>(step: Result<T, AppError>) -> (res: Result<T, AppError>)
    ensures
        step matches Ok(v) ==> res == Ok::<T, AppError>(v),
        step is Err ==> (res matches Err(e) && is_unauthorized(e)),
{
    match step {
        Ok(v) => Ok(v),
        Err(_) => Err(unauthorized()),
    }
}

} // verus!
