//! The bearer credential of a request, checked against the shared secret.

use vstd::prelude::*;
use vstd::string::*;
use crate::response::{invalid_request_kind, unauthorized_message, HttpReply};

verus! {

/// The only header value that carries `token`: the prefix `Bearer `, with its
/// capital and its single space, and then the token to its end.
pub open spec fn bearer_header(token: Seq<char>) -> Seq<char> {
    "Bearer "@ + token
}

/// The request is authorized: it has the header, and the header carries the
/// secret.
pub open spec fn authorized(header: Option<&str>, token: Seq<char>) -> bool {
    match header {
        Some(h) => h@ == bearer_header(token),
        None => false,
    }
}

/// Checks the `Authorization` header of a request against the secret.
///
/// `header` is `None` where the request has no such header or its value is
/// no text.
pub fn verify_bearer_token(header: Option<&str>, expected_token: &str) -> (r: Result<
    (),
    HttpReply,
>)
    ensures
        r is Ok <==> authorized(header, expected_token@),
        match r {
            Ok(_) => true,
            Err(e) => e.is_error(401, invalid_request_kind(), unauthorized_message()),
        },
{
    match header {
        Some(h) => {
            let mut wanted = String::from_str("Bearer ");
            wanted.append(expected_token);
            let given = String::from_str(h);
            if given == wanted {
                return Ok(());
            }
        },
        None => {},
    }
    Err(HttpReply::unauthorized())
}

/// A header carries the token exactly when its first seven characters are
/// `Bearer ` and what follows them, to the end, is the token.
pub proof fn lemma_bearer_header_parts(header: Seq<char>, token: Seq<char>)
    ensures
        header == bearer_header(token) <==> (header.len() >= 7 && header.subrange(0, 7)
            == "Bearer "@ && header.subrange(7, header.len() as int) == token),
{
    reveal_strlit("Bearer ");
    let prefix = "Bearer "@;
    if header == bearer_header(token) {
        assert(header.subrange(0, 7) =~= prefix);
        assert(header.subrange(7, header.len() as int) =~= token);
    }
    if header.len() >= 7 && header.subrange(0, 7) == prefix && header.subrange(
        7,
        header.len() as int,
    ) == token {
        assert(header =~= header.subrange(0, 7) + header.subrange(7, header.len() as int));
    }
}

} // verus!
