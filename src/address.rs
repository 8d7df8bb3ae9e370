use vstd::prelude::*;

verus! {

/// The networks an address can be bound to.
#[derive(Debug, Clone, Copy, PartialEq, Eq, Structural)]
pub enum Network {
    Bitcoin,
    Testnet,
    Testnet4,
    Signet,
    Regtest,
}

/// Whether a string parses as an address of some network.
pub uninterp spec fn address_parses(text: Seq<char>) -> bool;

/// Whether a string that parses as an address is valid on `network`.
pub uninterp spec fn address_valid_on(text: Seq<char>, network: Network) -> bool;

/// The output script that pays to the address a string names.
pub uninterp spec fn address_script_of(text: Seq<char>) -> Seq<u8>;

/// Why an address string was not accepted.
#[derive(Debug, Clone, Copy, PartialEq, Eq, Structural)]
pub enum AddressError {
    /// The string is not an address.
    Malformed,
    /// The string is an address, but not one of the network asked for.
    WrongNetwork,
}

/// An output script, or why an address string gave none.
pub type ScriptOrError = Result<Vec<u8>, AddressError>;

/// Relies on parsing into `bitcoin::Address<NetworkUnchecked>` (`FromStr`),
/// on `Address::require_network`, which accepts the address exactly when it
/// is valid for the network, and on `Address::script_pubkey`.
#[verifier::external_body]
fn parse_for_network(text: &str, network: Network) -> (r: ScriptOrError)
    ensures
        r is Ok <==> (address_parses(text@) && address_valid_on(text@, network)),
        r matches Ok(s) ==> s@ == address_script_of(text@),
        r matches Err(e) ==> (e == AddressError::Malformed <==> !address_parses(text@)),
{
    let net = match network {
        Network::Bitcoin => bitcoin::Network::Bitcoin,
        Network::Testnet => bitcoin::Network::Testnet,
        Network::Testnet4 => bitcoin::Network::Testnet4,
        Network::Signet => bitcoin::Network::Signet,
        Network::Regtest => bitcoin::Network::Regtest,
    };
    match text.parse::<bitcoin::Address<bitcoin::address::NetworkUnchecked>>() {
        Err(_) => Err(AddressError::Malformed),
        Ok(a) => match a.require_network(net) {
            Ok(c) => Ok(c.script_pubkey().into_bytes()),
            Err(_) => Err(AddressError::WrongNetwork),
        },
    }
}

/// An address that has been confirmed to belong to one network, held as that
/// network and the output script that pays to it.
#[derive(Debug, Clone, PartialEq, Eq)]
pub struct CheckedAddress {
    network: Network,
    script_pubkey: Vec<u8>,
}

impl View for CheckedAddress {
    type V = (Network, Seq<u8>);

    closed spec fn view(&self) -> (Network, Seq<u8>) {
        (self.network, self.script_pubkey@)
    }
}

impl CheckedAddress {
    /// Parses `text` and accepts it only if it is an address valid on
    /// `network`.
    pub fn parse_checked(text: &str, network: Network) -> (r: Result<CheckedAddress, AddressError>)
        ensures
            r matches Err(AddressError::Malformed) <==> !address_parses(text@),
            r matches Err(AddressError::WrongNetwork) <==> address_parses(text@) && !address_valid_on(
                text@,
                network,
            ),
            r is Ok <==> (address_parses(text@) && address_valid_on(text@, network)),
            r matches Ok(a) ==> a@ == (network, address_script_of(text@)),
    {
        match parse_for_network(text, network) {
            Ok(script_pubkey) => Ok(CheckedAddress { network, script_pubkey }),
            Err(e) => Err(e),
        }
    }

    /// The network the address was confirmed against.
    pub fn network(&self) -> (r: Network)
        ensures
            r == self@.0,
    {
        self.network
    }

    /// The output script that pays to the address.
    pub fn script_pubkey(&self) -> (r: &Vec<u8>)
        ensures
            r@ == self@.1,
    {
        &self.script_pubkey
    }
}

} // verus!
