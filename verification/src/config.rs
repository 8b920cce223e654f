//! The agent's options and what follows from them alone.
use vstd::prelude::*;
use vstd::string::*;
use vstd::utf8::{encode_utf8, encode_utf8_decode_utf8};

use crate::encoding::{hex_decode, hex_decoded, HexError};
use crate::quotes::opt_text;
use crate::text::{
    chars_of, decimal, decimal_text, law_occurs_in_the_middle, occurs, occurs_in, same_text, string_of,
};

verus! {

/// The options that decide how the agent starts.
#[derive(Debug)]
pub struct AgentConfig {
    pub enable_agent_mtls: bool,
    pub enable_insecure_payload: bool,
    pub payload_script: String,
    /// User and group to run as, with a colon between them.
    pub run_as: String,
    /// The password of the endorsement hierarchy, in hexadecimal behind `hex:`.
    pub tpm_ownerpassword: String,
    pub enable_iak_idevid: bool,
    pub iak_cert: String,
    pub idevid_cert: String,
    pub iak_handle: String,
    pub idevid_handle: String,
    pub ek_handle: String,
    pub uuid: String,
    pub agent_data_path: String,
    pub server_key: String,
    pub server_cert: String,
    /// A list of the certificates of authorities that clients are trusted by.
    pub trusted_client_ca: String,
    pub revocation_cert: String,
    pub revocation_actions: String,
    /// Whether revocation actions in Python are supported.
    pub legacy_python_actions: bool,
}

/// A payload script may run only over mutual TLS, unless insecure payloads are
/// allowed.
pub open spec fn payload_is_insecure(config: AgentConfig) -> bool {
    &&& !config.enable_agent_mtls
    &&& !config.enable_insecure_payload
    &&& config.payload_script@.len() > 0
}

/// The password that `option` gives for the endorsement hierarchy: none where it
/// is empty, the bytes that it denotes in hexadecimal behind `hex:`, and else its
/// own bytes.
pub open spec fn owner_password(option: Seq<char>) -> Result<Option<Seq<u8>>, HexError> {
    if option.len() == 0 {
        Ok(None)
    } else if is_hex_option(option) {
        match hex_decoded(encode_utf8(option.skip(4))) {
            Ok(bytes) => Ok(Some(bytes)),
            Err(e) => Err(e),
        }
    } else {
        Ok(Some(encode_utf8(option)))
    }
}

/// `option` starts with `hex:`.
pub open spec fn is_hex_option(option: Seq<char>) -> bool {
    option.len() >= 4 && option[0] == 'h' && option[1] == 'e' && option[2] == 'x' && option[3]
        == ':'
}

/// The result of reading a password, with the bytes as a sequence.
pub open spec fn password_view(res: Result<Option<Vec<u8>>, HexError>) -> Result<
    Option<Seq<u8>>,
    HexError,
> {
    match res {
        Ok(Some(bytes)) => Ok(Some(bytes@)),
        Ok(None) => Ok(None),
        Err(e) => Err(e),
    }
}

/// An option that is not set is empty.
pub open spec fn set_option(option: Seq<char>) -> Option<Seq<char>> {
    if option.len() == 0 {
        None
    } else {
        Some(option)
    }
}

/// The address to listen on: the port behind the IP address, which stands in
/// brackets if it is an IPv6 address.
pub open spec fn address(ip: Seq<char>, ipv6: bool, port: nat) -> Seq<char> {
    if ipv6 {
        "["@ + ip + "]"@ + ":"@ + decimal(port)
    } else {
        ip + ":"@ + decimal(port)
    }
}

/// Whether the payload script is refused.
pub fn refuses_payload(config: &AgentConfig) -> (res: bool)
    ensures
        res == payload_is_insecure(*config),
{
    !config.enable_agent_mtls && !config.enable_insecure_payload
        && !config.payload_script.as_str().is_empty()
}

/// Whether payload scripts are run.
pub fn runs_payload(config: &AgentConfig) -> (res: bool)
    ensures
        res == (config.enable_agent_mtls || config.enable_insecure_payload),
{
    config.enable_agent_mtls || config.enable_insecure_payload
}

/// Reads the password of the endorsement hierarchy.
pub fn read_owner_password(option: &str) -> (res: Result<Option<Vec<u8>>, HexError>)
    ensures
        password_view(res) == owner_password(option@),
{
    if option.is_empty() {
        return Ok(None);
    }
    let chars = chars_of(option);
    if chars.len() >= 4 && chars[0] == 'h' && chars[1] == 'e' && chars[2] == 'x' && chars[3]
        == ':' {
        let digits = string_of(&chars, 4, chars.len());
        assert(digits@ =~= option@.skip(4));
        match hex_decode(digits.as_str()) {
            Ok(bytes) => Ok(Some(bytes)),
            Err(e) => Err(e),
        }
    } else {
        Ok(Some(option.as_bytes_vec()))
    }
}

/// The value of an option, if it is set.
pub fn option_value(option: &str) -> (res: Option<String>)
    ensures
        opt_text(res) == set_option(option@),
{
    if option.is_empty() {
        None
    } else {
        Some(option.to_owned())
    }
}

/// The identifier of the agent: the hash of its endorsement key where `hash_ek`
/// is asked for, and else what is configured.
pub fn agent_uuid(uuid: &str, ek_hash: &str) -> (res: String)
    ensures
        res@ == if uuid@ == "hash_ek"@ {
            ek_hash@
        } else {
            uuid@
        },
{
    if same_text(uuid, "hash_ek") {
        ek_hash.to_owned()
    } else {
        uuid.to_owned()
    }
}

/// The address to listen on.
pub fn bind_address(ip: &str, ipv6: bool, port: u32) -> (res: String)
    ensures
        res@ == address(ip@, ipv6, port as nat),
{
    let number = decimal_text(port as u128);
    let mut res = String::new();
    if ipv6 {
        res.append("[");
        res.append(ip);
        res.append("]");
    } else {
        res.append(ip);
    }
    res.append(":");
    res.append(number.as_str());
    assert(res@ =~= address(ip@, ipv6, port as nat));
    res
}

/// Whether a TPM is an emulator, by the name of its vendor.
pub fn is_software_tpm(vendor: &str) -> (res: bool)
    ensures
        res == occurs_in("SW"@, vendor@),
{
    occurs(&chars_of("SW"), &chars_of(vendor))
}

/// A password given in hexadecimal is read as the bytes that were written.
pub proof fn law_hex_password(bytes: Seq<u8>)
    ensures
        owner_password(seq!['h', 'e', 'x', ':'] + crate::encoding::hex_text(bytes)) == Ok::<
            Option<Seq<u8>>,
            HexError,
        >(Some(bytes)),
{
    let text = crate::encoding::hex_text(bytes);
    let option = seq!['h', 'e', 'x', ':'] + text;
    assert(option.skip(4) =~= text);
    crate::encoding::law_hex_round_trip(bytes);
}

/// A payload script is refused exactly if there is one, mutual TLS is disabled and
/// insecure payloads are not allowed.
pub proof fn law_payload_is_refused(config: AgentConfig)
    ensures
        payload_is_insecure(config) == !(config.enable_agent_mtls || config.enable_insecure_payload
            || config.payload_script@ == Seq::<char>::empty()),
{
    if config.payload_script@.len() == 0 {
        assert(config.payload_script@ =~= Seq::<char>::empty());
    }
}

/// No option, no password. Behind `hex:` the password is what the text denotes in
/// hexadecimal, and a text that denotes nothing is an error. Any other option is
/// the password itself, byte by byte.
pub proof fn law_owner_password(option: Seq<char>)
    ensures
        owner_password(Seq::empty()) == Ok::<Option<Seq<u8>>, HexError>(None),
        owner_password(seq!['h', 'e', 'x', ':'] + option) == match hex_decoded(
            encode_utf8(option),
        ) {
            Ok(bytes) => Ok::<Option<Seq<u8>>, HexError>(Some(bytes)),
            Err(e) => Err(e),
        },
        option.len() > 0 && !(seq!['h', 'e', 'x', ':'].is_prefix_of(option)) ==> owner_password(
            option,
        ) == Ok::<Option<Seq<u8>>, HexError>(Some(encode_utf8(option))),
{
    let hex = seq!['h', 'e', 'x', ':'];
    assert((hex + option).skip(4) =~= option);
    if option.len() >= 4 && option[0] == 'h' && option[1] == 'e' && option[2] == 'x' && option[3]
        == ':' {
        assert(option.subrange(0, 4) =~= hex);
        assert(hex.is_prefix_of(option));
    }
}

/// Passwords that are not in hexadecimal are told apart.
pub proof fn law_plain_passwords_differ(one: Seq<char>, two: Seq<char>)
    requires
        one.len() > 0,
        two.len() > 0,
        !seq!['h', 'e', 'x', ':'].is_prefix_of(one),
        !seq!['h', 'e', 'x', ':'].is_prefix_of(two),
        owner_password(one) == owner_password(two),
    ensures
        one == two,
{
    law_owner_password(one);
    law_owner_password(two);
    encode_utf8_decode_utf8(one);
    encode_utf8_decode_utf8(two);
}

/// What a result holds is what its view shows.
pub proof fn law_password_view(bytes: Vec<u8>, e: HexError)
    ensures
        password_view(Ok(Some(bytes))) == Ok::<Option<Seq<u8>>, HexError>(Some(bytes@)),
        password_view(Ok(None)) == Ok::<Option<Seq<u8>>, HexError>(None),
        password_view(Err(e)) == Err::<Option<Seq<u8>>, HexError>(e),
{
}

/// Only the empty option is not set, and one that is set is taken as it is.
pub proof fn law_set_option(option: Seq<char>)
    ensures
        set_option(Seq::empty()) == None::<Seq<char>>,
        option.len() > 0 ==> set_option(option) == Some(option),
{
}

/// An address ends with a colon and the port. In front of that stands the IP
/// address, in brackets exactly if it is an IPv6 address.
pub proof fn law_address(ip: Seq<char>, port: nat)
    ensures
        address(ip, false, port) == ip + seq![':'] + decimal(port),
        address(ip, true, port) == seq!['['] + ip + seq![']', ':'] + decimal(port),
{
    reveal_strlit("[");
    reveal_strlit("]");
    reveal_strlit(":");
    assert("["@ =~= seq!['[']);
    assert("]"@ =~= seq![']']);
    assert(":"@ =~= seq![':']);
    assert(address(ip, true, port) =~= seq!['['] + ip + seq![']', ':'] + decimal(port));
}

/// A vendor is taken for an emulator exactly if `SW` stands somewhere in its name.
pub proof fn law_software_vendor(vendor: Seq<char>)
    ensures
        occurs_in("SW"@, vendor) <==> exists|before: Seq<char>, after: Seq<char>|
            vendor == #[trigger] (before + "SW"@ + after),
{
    law_occurs_in_the_middle("SW"@, vendor);
}

} // verus!
