//! The identities that are bound into the key exchange.

use opaque_ke::Identifiers;
use vstd::prelude::*;
use vstd::utf8::encode_utf8;

verus! {

/// `opaque_ke::Identifiers`, with its two public fields as they are: the
/// client's and the server's identity, each an optional byte string.
#[verifier::external_type_specification]
pub struct ExIdentifiers<'a>(Identifiers<'a>);

/// The names that the client and the server go by. One that is absent
/// leaves the engine to use that side's public key.
#[derive(Debug)]
pub struct CustomIdentifiers {
    pub client: Option<String>,
    pub server: Option<String>,
}

/// The bytes of a name: its UTF-8 encoding.
pub open spec fn name_bytes(name: Option<String>) -> Option<Seq<u8>> {
    match name {
        Some(text) => Some(encode_utf8(text@)),
        None => None,
    }
}

/// The client's identity in `identifiers`, as bytes.
pub open spec fn client_identity(identifiers: Option<CustomIdentifiers>) -> Option<Seq<u8>> {
    match identifiers {
        Some(ids) => name_bytes(ids.client),
        None => None,
    }
}

/// The server's identity in `identifiers`, as bytes.
pub open spec fn server_identity(identifiers: Option<CustomIdentifiers>) -> Option<Seq<u8>> {
    match identifiers {
        Some(ids) => name_bytes(ids.server),
        None => None,
    }
}

/// The content of an identity that the engine is given.
pub open spec fn identity_view(identity: Option<&[u8]>) -> Option<Seq<u8>> {
    match identity {
        Some(bytes) => Some(bytes@),
        None => None,
    }
}

/// The identities as the engine takes them: each name that is present goes
/// through as its bytes, each absent one stays absent.
pub fn get_identifiers<'a>(identifiers: &'a Option<CustomIdentifiers>) -> (r: Identifiers<'a>)
    ensures
        identity_view(r.client) == client_identity(*identifiers),
        identity_view(r.server) == server_identity(*identifiers),
{
    match identifiers {
        Some(ids) => Identifiers {
            client: match &ids.client {
                Some(name) => Some(name.as_str().as_bytes()),
                None => None,
            },
            server: match &ids.server {
                Some(name) => Some(name.as_str().as_bytes()),
                None => None,
            },
        },
        None => Identifiers { client: None, server: None },
    }
}

} // verus!
