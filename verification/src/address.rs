//! Addresses as text, and what the `bitcoin` crate says of them.

use vstd::prelude::*;
use miniscript::bitcoin::address::NetworkUnchecked;
use miniscript::bitcoin::{Address, Network};

verus! {

/// Whether the address that a text denotes can be used on regtest; `None`
/// for a text that denotes no address.
pub uninterp spec fn address_on_regtest(text: Seq<char>) -> Option<bool>;

/// Reads an address with bitcoin's `FromStr` for `Address` and asks
/// `Address::is_valid_for_network` whether it can be used on regtest. The
/// result depends on the text alone and is named by `address_on_regtest`;
/// nothing else is claimed.
#[verifier::external_body]
pub(crate) fn check_regtest_address(text: &str) -> (usable: Option<bool>)
    ensures
        usable == address_on_regtest(text@),
{
    match text.parse::<Address<NetworkUnchecked>>() {
        Ok(address) => Some(address.is_valid_for_network(Network::Regtest)),
        Err(_) => None,
    }
}

} // verus!
