//! The platform side of an upload: which of the stored variants to keep, and
//! the public address of a file the platform hosts.
use vstd::prelude::*;
use vstd::string::*;
use crate::error::UploadError;

verus! {

/// The fixed start of every public file address on the platform; the bot's
/// credential follows it.
pub open spec fn file_base() -> Seq<char> {
    "https://api.telegram.org/file/bot"@
}

/// The public address of the file the platform stores at `path`, reached with
/// the credential `token`.
pub open spec fn url_of(token: Seq<char>, path: Seq<char>) -> Seq<char> {
    file_base() + token + seq!['/'] + path
}

/// The variant reference to resolve, or the failure, for the list of size
/// variants the platform returned (in its own order): the last one, which is
/// the largest.
pub open spec fn chosen_variant(variants: Option<Seq<Seq<char>>>) -> Result<Seq<char>, UploadError> {
    match variants {
        None => Err(UploadError::NoMediaInResponse),
        Some(v) => if v.len() == 0 {
            Err(UploadError::EmptyMediaSet)
        } else {
            Ok(v.last())
        },
    }
}

/// The references of the size variants, as plain sequences.
pub open spec fn variant_refs(variants: &Option<Vec<String>>) -> Option<Seq<Seq<char>>> {
    match variants {
        None => None,
        Some(v) => Some(v@.map_values(|s: String| s@)),
    }
}

/// Picks the media reference to resolve from the size variants of an
/// uploaded photo: the last, largest one.
pub fn pick_largest(variants: &Option<Vec<String>>) -> (r: Result<String, UploadError>)
    ensures
        match (r, chosen_variant(variant_refs(variants))) {
            (Ok(s), Ok(t)) => s@ == t,
            (Err(e), Err(f)) => e == f,
            _ => false,
        },
{
    match variants {
        None => Err(UploadError::NoMediaInResponse),
        Some(v) => {
            if v.len() == 0 {
                Err(UploadError::EmptyMediaSet)
            } else {
                Ok(v[v.len() - 1].clone())
            }
        },
    }
}

/// The public address of the file the platform stores at `path`.
pub fn public_url(token: &str, path: &str) -> (r: String)
    ensures
        r@ == url_of(token@, path@),
{
    let mut r = String::from_str("https://api.telegram.org/file/bot");
    r.append(token);
    r.append("/");
    r.append(path);
    proof {
        reveal_strlit("/");
        assert(r@ =~= url_of(token@, path@));
    }
    r
}

/// A resolved file path comes back inside the public address unchanged: the
/// address ends with it, and two different paths never share an address.
pub proof fn lemma_url_embeds_path(token: Seq<char>, path: Seq<char>, other: Seq<char>)
    ensures
        ({
            let u = url_of(token, path);
            u.subrange(u.len() - path.len(), u.len() as int) == path
        }),
        url_of(token, path) == url_of(token, other) ==> path == other,
{
    let u = url_of(token, path);
    let head = file_base() + token + seq!['/'];
    assert(u == head + path);
    assert(u.subrange(u.len() - path.len(), u.len() as int) =~= path);
    if url_of(token, path) == url_of(token, other) {
        assert(url_of(token, other) == head + other);
        assert(path =~= u.subrange(head.len() as int, u.len() as int));
        assert(other =~= url_of(token, other).subrange(head.len() as int, u.len() as int));
    }
}

} // verus!
