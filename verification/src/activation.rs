//! The proof that an agent holds the key to which a registrar encrypted: a tag
//! over its identifier.
use vstd::prelude::*;
use vstd::string::*;
use vstd::utf8::encode_utf8;

use crate::encoding::{base64_encode, base64_text, hex_encode, hex_text};

verus! {

/// What the tag is computed from.
#[derive(Debug)]
pub struct TagInput {
    /// The key: the text of the activated credential in Base64.
    pub key: Vec<u8>,
    /// The message: the identifier of the agent.
    pub message: Vec<u8>,
}

/// The key and the message of the keyed hash that makes the tag.
pub fn tag_input(credential: &[u8], agent_uuid: &str) -> (res: TagInput)
    requires
        4 * ((credential@.len() + 2) / 3) <= usize::MAX,
    ensures
        res.key@ == encode_utf8(base64_text(credential@)),
        res.message@ == encode_utf8(agent_uuid@),
{
    let key = base64_encode(credential);
    TagInput { key: key.as_str().as_bytes_vec(), message: agent_uuid.as_bytes_vec() }
}

/// The tag as it is sent: the keyed hash in hexadecimal.
pub fn auth_tag(hmac: &[u8]) -> (res: String)
    requires
        2 * hmac@.len() <= usize::MAX,
    ensures
        res@ == hex_text(hmac@),
{
    hex_encode(hmac)
}

/// Different credentials give different keys for the tag.
pub proof fn law_tag_key_tells_the_credential(one: Seq<u8>, two: Seq<u8>)
    requires
        encode_utf8(base64_text(one)) == encode_utf8(base64_text(two)),
    ensures
        one == two,
{
    vstd::utf8::encode_utf8_decode_utf8(base64_text(one));
    vstd::utf8::encode_utf8_decode_utf8(base64_text(two));
    crate::encoding::law_base64_injective(one, two);
}

} // verus!
