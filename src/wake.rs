use vstd::prelude::*;

verus! {

#[verifier::external_type_specification]
#[verifier::external_body]
pub struct ExMacAddrError(wol::MacAddrError);

/// The six bytes that the wake-signal crate reads from a textual MAC
/// address, or `None` where it rejects the text.
pub uninterp spec fn mac_of(text: Seq<char>) -> Option<Seq<u8>>;

/// Relies on wol::MacAddr::from_str: parses a textual MAC address (such as
/// "00:0a:0b:0c:0d:0e"); the outcome depends on the text alone.
#[verifier::external_body]
fn read_mac(text: &str) -> (r: Result<[u8; 6], wol::MacAddrError>)
    ensures
        match r {
            Ok(b) => mac_of(text@) == Some(b@),
            Err(_) => mac_of(text@) is None,
        },
{
    <wol::MacAddr as std::str::FromStr>::from_str(text).map(|m| m.0)
}

/// The hardware address that a wake signal for a device is sent to, or
/// `None` where the device's stored MAC text is malformed.
pub fn mac_address(text: &str) -> (r: Option<[u8; 6]>)
    ensures
        match r {
            Some(b) => mac_of(text@) == Some(b@),
            None => mac_of(text@) is None,
        },
{
    match read_mac(text) {
        Ok(b) => Some(b),
        Err(_) => None,
    }
}

} // verus!
