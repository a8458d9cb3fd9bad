//! Client authentication for the token endpoint.

use vstd::prelude::*;
use crate::model::{Fetched, Notice, OAuthClient, Reply, Status, TokenRequest};
use crate::text::same_text;

verus! {

/// Whether some entry of the list has this text.
pub open spec fn lists(list: Seq<String>, item: Seq<char>) -> bool {
    exists|i: int| 0 <= i < list.len() && (#[trigger] list[i])@ == item
}

/// Looks an item up in a list of strings.
pub fn contains_text(list: &Vec<String>, item: &str) -> (found: bool)
    ensures
        found == lists(list@, item@),
{
    let n = list.len();
    let mut i: usize = 0;
    while i < n
        invariant
            n == list@.len(),
            i <= n,
            forall|j: int| 0 <= j < i ==> (#[trigger] list@[j])@ != item@,
        decreases n - i,
    {
        if same_text(list[i].as_str(), item) {
            return true;
        }
        i = i + 1;
    }
    false
}

/// The text of an optional string, the empty text when absent.
pub open spec fn text_or_empty(s: Option<String>) -> Seq<char> {
    match s {
        Some(t) => t@,
        None => Seq::empty(),
    }
}

/// The secret a token request presents; none presents the empty secret.
pub open spec fn presented_secret(request: TokenRequest) -> Seq<char> {
    text_or_empty(request.client_secret)
}

/// The secret stored for a client; none is matched by the empty secret.
pub open spec fn stored_secret(client: OAuthClient) -> Seq<char> {
    text_or_empty(client.client_secret_hash)
}

pub open spec fn unauthorized(notice: Notice) -> Reply {
    Reply::Error(Status::Unauthorized, notice)
}

pub open spec fn bad_request(notice: Notice) -> Reply {
    Reply::Error(Status::BadRequest, notice)
}

/// A client is accepted when it is registered and the presented secret is
/// its stored one, verbatim.
pub open spec fn client_check(found: Fetched<OAuthClient>, secret: Seq<char>) -> Result<
    OAuthClient,
    Reply,
> {
    match found {
        Fetched::Found(client) => {
            if stored_secret(client) == secret {
                Ok(client)
            } else {
                Err(unauthorized(Notice::InvalidSecret))
            }
        },
        _ => Err(unauthorized(Notice::InvalidClient)),
    }
}

/// The text of an optional string, the empty text when absent.
pub fn str_or_empty(s: &Option<String>) -> (t: &str)
    ensures
        t@ == text_or_empty(*s),
{
    match s {
        Some(t) => t.as_str(),
        None => {
            proof {
                reveal_strlit("");
            }
            ""
        },
    }
}

/// Authenticates the client of a token request from the result of looking
/// it up: an unknown client or a failed lookup is `401 Invalid Client`, a
/// secret that is not the stored one is `401 Invalid Secret`.
pub fn validate_client(found: Fetched<OAuthClient>, client_secret: &str) -> (res: Result<
    OAuthClient,
    Reply,
>)
    ensures
        res == client_check(found, client_secret@),
        (found matches Fetched::Found(c) && text_or_empty(c.client_secret_hash) == client_secret@) ==> res
            == Ok::<OAuthClient, Reply>(found->Found_0),
        (found matches Fetched::Found(c) && text_or_empty(c.client_secret_hash) != client_secret@) ==> res
            == Err::<OAuthClient, Reply>(Reply::Error(Status::Unauthorized, Notice::InvalidSecret)),
        !(found is Found) ==> res == Err::<OAuthClient, Reply>(
            Reply::Error(Status::Unauthorized, Notice::InvalidClient),
        ),
{
    match found {
        Fetched::Found(client) => {
            let matches = same_text(str_or_empty(&client.client_secret_hash), client_secret);
            if matches {
                Ok(client)
            } else {
                Err(Reply::Error(Status::Unauthorized, Notice::InvalidSecret))
            }
        },
        _ => Err(Reply::Error(Status::Unauthorized, Notice::InvalidClient)),
    }
}

} // verus!
