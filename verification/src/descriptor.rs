//! Resolution of an output descriptor and a derivation index to a regtest
//! address.
//!
//! A descriptor is handled as text. Parsing, splitting a multipath
//! descriptor and deriving keys are the work of the `miniscript` crate; which
//! path receives, and which failure is reported, is decided here.

use vstd::prelude::*;
use vstd::string::*;
use std::str::FromStr;
use miniscript::bitcoin::Network;
use miniscript::bitcoin::secp256k1::Secp256k1;
use miniscript::descriptor::Wildcard;
use miniscript::{Descriptor, DescriptorPublicKey, ForEachKey};
use crate::bitcoind::BitcoinD;
use crate::error::{Error, ErrorView};

verus! {

/// The single-path descriptors that a descriptor text stands for, each as
/// text and in the order of its paths; `None` for a text that is no
/// descriptor.
pub uninterp spec fn single_descriptors_of(text: Seq<char>) -> Option<Seq<Seq<char>>>;

/// The regtest address of a single-path descriptor at a derivation index;
/// `None` where the text is no descriptor, the index cannot be derived, or
/// the descriptor has no address.
pub uninterp spec fn regtest_address_of(single: Seq<char>, index: u32) -> Option<Seq<char>>;

/// What a key of a descriptor looks like to a derivation.
#[derive(Debug, Clone, Copy, PartialEq, Eq, Structural)]
pub enum KeyShape {
    /// A plain public key.
    Single,
    /// An extended key with several derivation paths.
    Multipath,
    /// An extended key at `depth` with a derivation path of `steps` steps,
    /// one of them hardened or not, and no wildcard.
    Fixed { depth: u8, steps: usize, hardened_step: bool },
    /// An extended key at `depth` with a derivation path of `steps` steps,
    /// one of them hardened or not, and an unhardened wildcard after it.
    Ranged { depth: u8, steps: usize, hardened_step: bool },
    /// An extended key with a hardened wildcard.
    HardenedRange,
}

/// The shapes of the keys of a descriptor text, in the order in which the
/// descriptor holds them; `None` for a text that is no descriptor.
pub uninterp spec fn key_shapes_of(single: Seq<char>) -> Option<Seq<KeyShape>>;

/// Deepest level of an extended key.
pub const MAX_KEY_DEPTH: usize = 255;

impl KeyShape {
    /// Whether a public key can be derived from a key of this shape: it
    /// has one path, no hardened step and no hardened wildcard, and the
    /// derived key is no deeper than `MAX_KEY_DEPTH`.
    pub open spec fn is_derivable(self) -> bool {
        match self {
            KeyShape::Single => true,
            KeyShape::Multipath => false,
            KeyShape::Fixed { depth, steps, hardened_step } => !hardened_step && depth + steps
                <= MAX_KEY_DEPTH,
            KeyShape::Ranged { depth, steps, hardened_step } => !hardened_step && depth + steps
                + 1 <= MAX_KEY_DEPTH,
            KeyShape::HardenedRange => false,
        }
    }

    /// Tells whether a public key can be derived from a key of this shape.
    pub fn derivable(&self) -> (yes: bool)
        ensures
            yes == self.is_derivable(),
    {
        match *self {
            KeyShape::Single => true,
            KeyShape::Multipath => false,
            KeyShape::Fixed { depth, steps, hardened_step } => !hardened_step && steps
                <= MAX_KEY_DEPTH - depth as usize,
            KeyShape::Ranged { depth, steps, hardened_step } => !hardened_step && depth < 255
                && steps <= MAX_KEY_DEPTH - depth as usize - 1,
            KeyShape::HardenedRange => false,
        }
    }
}

/// Whether every key of a list can be derived from.
pub open spec fn all_derivable(shapes: Seq<KeyShape>) -> bool {
    forall|i: int| 0 <= i < shapes.len() ==> (#[trigger] shapes[i]).is_derivable()
}

/// Whether the single-path descriptor `single` can be derived: it is a
/// descriptor, and every one of its keys can be derived from.
pub open spec fn is_derivable(single: Seq<char>) -> bool {
    match key_shapes_of(single) {
        Some(shapes) => all_derivable(shapes),
        None => false,
    }
}

/// Parses `text` with miniscript's `Descriptor::<DescriptorPublicKey>::from_str`
/// and splits it with `Descriptor::into_single_descriptors`, handing each
/// part back in its textual form. Both are functions of the text alone, so
/// the result is named by `single_descriptors_of`; nothing else is claimed.
/// `None` stands for a failure of either call.
#[verifier::external_body]
fn split_descriptor(text: &str) -> (parts: Option<Vec<String>>)
    ensures
        parts.deep_view() == single_descriptors_of(text@),
{
    let parsed = Descriptor::<DescriptorPublicKey>::from_str(text).ok()?;
    let singles = parsed.into_single_descriptors().ok()?;
    Some(singles.iter().map(|single| single.to_string()).collect())
}

/// Parses a descriptor with miniscript's
/// `Descriptor::<DescriptorPublicKey>::from_str` and visits its keys with
/// `ForEachKey::for_each_key`, handing back of each key what a derivation
/// depends on: the kind of key, the depth of an extended key
/// (`Xpub::depth`), the length of its derivation path
/// (`DerivationPath::len`), whether the path has a hardened step
/// (`DescriptorPublicKey::has_hardened_step`), and its wildcard. All of it
/// is read off the text, so the result is named by `key_shapes_of`; nothing
/// else is claimed. `None` stands for a text that does not parse.
#[verifier::external_body]
fn key_shapes(single: &str) -> (shapes: Option<Vec<KeyShape>>)
    ensures
        shapes_view(shapes) == key_shapes_of(single@),
{
    let (parsed, mut shapes) = (Descriptor::<DescriptorPublicKey>::from_str(single).ok()?, Vec::new());
    parsed.for_each_key(|key| {
        let hardened_step = key.has_hardened_step();
        shapes.push(match key {
            DescriptorPublicKey::Single(_) => KeyShape::Single,
            DescriptorPublicKey::MultiXPub(_) => KeyShape::Multipath,
            DescriptorPublicKey::XPub(x) => match x.wildcard {
                Wildcard::None => KeyShape::Fixed { depth: x.xkey.depth, steps: x.derivation_path.len(), hardened_step },
                Wildcard::Unhardened => KeyShape::Ranged { depth: x.xkey.depth, steps: x.derivation_path.len(), hardened_step },
                Wildcard::Hardened => KeyShape::HardenedRange,
            },
        });
        true
    });
    Some(shapes)
}

/// Parses a single-path descriptor with miniscript's
/// `Descriptor::<DescriptorPublicKey>::from_str`, derives it at `index` with
/// `Descriptor::derived_descriptor`, in a context from
/// `Secp256k1::verification_only`, and renders the regtest address that
/// `Descriptor::address` computes. The result depends on the text and the
/// index alone and is named by `regtest_address_of`; nothing else is
/// claimed. `None` stands for a failure of any of the calls.
///
/// The derivation does not return on every descriptor that parses: it
/// stops the program where an extended key has a hardened step in its path
/// or a hardened wildcard, and where a derived key would lie deeper than
/// `MAX_KEY_DEPTH`. The precondition leaves those descriptors out.
#[verifier::external_body]
fn derive_regtest_address(single: &str, index: u32) -> (address: Option<String>)
    requires
        is_derivable(single@),
    ensures
        address.deep_view() == regtest_address_of(single@, index),
{
    let parsed = Descriptor::<DescriptorPublicKey>::from_str(single).ok()?;
    let derived = parsed.derived_descriptor(&Secp256k1::verification_only(), index).ok()?;
    Some(derived.address(Network::Regtest).ok()?.to_string())
}

/// The path of a split descriptor that receives payments: the first one.
pub open spec fn receive_path(parts: Option<Seq<Seq<char>>>) -> Result<Seq<char>, ErrorView> {
    match parts {
        Some(list) if list.len() > 0 => Ok(list[0]),
        _ => Err(ErrorView::ParseDescriptor),
    }
}

/// What resolving a receive path at an index gives: its address, or the
/// failure to derive one. A path that cannot be derived has no address.
pub open spec fn address_on_path(
    path: Result<Seq<char>, ErrorView>,
    index: u32,
) -> Result<Seq<char>, ErrorView> {
    match path {
        Ok(single) => if is_derivable(single) {
            match regtest_address_of(single, index) {
                Some(address) => Ok(address),
                None => Err(ErrorView::DeriveDescriptor),
            }
        } else {
            Err(ErrorView::DeriveDescriptor)
        },
        Err(e) => Err(e),
    }
}

/// The address that descriptor `text` resolves to at `index`.
pub open spec fn descriptor_address(text: Seq<char>, index: u32) -> Result<Seq<char>, ErrorView> {
    address_on_path(receive_path(single_descriptors_of(text)), index)
}

/// Whether `text` is a descriptor with a receive path.
pub open spec fn is_descriptor(text: Seq<char>) -> bool {
    receive_path(single_descriptors_of(text)).is_ok()
}

/// Model of a list of key shapes that may be missing.
pub open spec fn shapes_view(shapes: Option<Vec<KeyShape>>) -> Option<Seq<KeyShape>> {
    match shapes {
        Some(list) => Some(list@),
        None => None,
    }
}

/// Model of a library result whose success is a text.
pub open spec fn text_result(result: Result<String, Error>) -> Result<Seq<char>, ErrorView> {
    match result {
        Ok(text) => Ok(text@),
        Err(e) => Err(e@),
    }
}

/// Selects the receive path among the parts of a split descriptor: the first
/// part. A descriptor that could not be split, or that has no part, is
/// malformed.
pub fn select_receive_path(parts: Option<Vec<String>>) -> (path: Result<String, Error>)
    ensures
        text_result(path) == receive_path(parts.deep_view()),
{
    match parts {
        Some(mut list) => {
            if list.len() > 0 {
                let ghost before = list.deep_view();
                let first = list.swap_remove(0);
                Ok(first)
            } else {
                Err(Error::ParseDescriptor)
            }
        },
        None => Err(Error::ParseDescriptor),
    }
}

/// Turns the outcome of a derivation into the resolver's result: the
/// address, or `DeriveDescriptor` where there is none.
pub fn derivation_result(address: Option<String>) -> (result: Result<String, Error>)
    ensures
        text_result(result) == match address.deep_view() {
            Some(text) => Ok(text),
            None => Err(ErrorView::DeriveDescriptor),
        },
{
    match address {
        Some(text) => Ok(text),
        None => Err(Error::DeriveDescriptor),
    }
}

/// Tells whether every key of a descriptor can be derived from, given the
/// shapes of its keys; a descriptor without them cannot.
pub fn can_derive(shapes: Option<Vec<KeyShape>>) -> (yes: bool)
    ensures
        yes == match shapes_view(shapes) {
            Some(list) => all_derivable(list),
            None => false,
        },
{
    match shapes {
        Some(list) => {
            let mut i: usize = 0;
            while i < list.len()
                invariant
                    i <= list.len(),
                    shapes == Some(list),
                    forall|j: int| 0 <= j < i ==> (#[trigger] list@[j]).is_derivable(),
                decreases list.len() - i,
            {
                if !list[i].derivable() {
                    assert(!list@[i as int].is_derivable());
                    return false;
                }
                i += 1;
            }
            true
        },
        None => false,
    }
}

/// Checks that `descriptor` is well formed, without deriving anything.
pub fn check_descriptor(descriptor: &str) -> (result: Result<(), Error>)
    ensures
        result.is_ok() == is_descriptor(descriptor@),
        result matches Err(e) ==> e@ == ErrorView::ParseDescriptor,
{
    match select_receive_path(split_descriptor(descriptor)) {
        Ok(_) => Ok(()),
        Err(e) => Err(e),
    }
}

impl BitcoinD {
    /// Resolves `descriptor` at `index` to a regtest address.
    ///
    /// The text is parsed and split into its single-path descriptors, the
    /// first of which receives; that one is derived at `index`. Fails with
    /// `ParseDescriptor` on a malformed text and with `DeriveDescriptor`
    /// where a key cannot be derived from, the index cannot be derived or
    /// the descriptor has no address. The result is a function of the two
    /// arguments.
    pub fn address_from_descriptor(descriptor: &str, index: u32) -> (result: Result<String, Error>)
        ensures
            text_result(result) == descriptor_address(descriptor@, index),
    {
        match select_receive_path(split_descriptor(descriptor)) {
            Ok(single) => {
                if can_derive(key_shapes(single.as_str())) {
                    derivation_result(derive_regtest_address(single.as_str(), index))
                } else {
                    Err(Error::DeriveDescriptor)
                }
            },
            Err(e) => Err(e),
        }
    }
}

/// Resolving is deterministic: any two results for the same descriptor text
/// and index are the same, address or failure.
pub proof fn address_from_descriptor_is_deterministic(
    descriptor: Seq<char>,
    index: u32,
    first: Result<Seq<char>, ErrorView>,
    second: Result<Seq<char>, ErrorView>,
)
    requires
        first == descriptor_address(descriptor, index),
        second == descriptor_address(descriptor, index),
    ensures
        first == second,
{
}

} // verus!
