use vstd::prelude::*;
use starknet_core::types::contract::{CompiledClass, SierraClass};
use starknet_core::types::FieldElement;
use starknet_core::utils::get_contract_address;
use starknet_core::utils::get_selector_from_name;
use starknet_signers::SigningKey;
use crate::felt::is_canonical_felt_hex;

verus! {

/// The selector a function name hashes to, canonically serialized. A pure
/// function of the name: the network's keccak-based selector hash.
pub uninterp spec fn selector_hex_of(name: Seq<char>) -> Seq<char>;

/// The class hash of a class-definition artifact, canonically serialized.
/// A pure function of the artifact bytes.
pub uninterp spec fn sierra_class_hash_of(artifact: Seq<u8>) -> Seq<char>;

/// The bytes parse as a class-definition artifact whose class hash
/// computes. A pure function of the artifact bytes: it decides when
/// digesting them succeeds.
pub uninterp spec fn sierra_digests(artifact: Seq<u8>) -> bool;

/// The class hash of a compiled-class artifact, canonically serialized.
/// A pure function of the artifact bytes.
pub uninterp spec fn casm_class_hash_of(artifact: Seq<u8>) -> Seq<char>;

/// The bytes parse as a compiled-class artifact whose class hash
/// computes. A pure function of the artifact bytes: it decides when
/// digesting them succeeds.
pub uninterp spec fn casm_digests(artifact: Seq<u8>) -> bool;

/// The deterministic deployed-contract address, canonically serialized.
/// A pure function of the salt, the class hash, the constructor calldata
/// and the deployer address, each given canonically serialized.
pub uninterp spec fn contract_address_hex_of(
    salt: Seq<char>,
    class_hash: Seq<char>,
    ctor: Seq<Seq<char>>,
    deployer: Seq<char>,
) -> Seq<char>;

/// Relies on `starknet_core::utils::get_selector_from_name`: succeeds
/// exactly on ASCII names, and the selector is a field element computed
/// from the name alone.
#[verifier::external_body]
pub(crate) fn selector_from_name(name: &str) -> (r: Result<String, String>)
    ensures
        r is Ok <==> vstd::string::is_ascii(name),
        r matches Ok(h) ==> h@ == selector_hex_of(name@) && is_canonical_felt_hex(h@),
{
    match get_selector_from_name(name) {
        Ok(f) => Ok(format!("0x{:064x}", f)),
        Err(e) => Err(format!("{}", e)),
    }
}

/// Relies on `serde_json` deserialization of a class-definition artifact
/// and `SierraClass::class_hash`: whether the bytes parse and the hash
/// computes is decided by the bytes alone, and so is the resulting field
/// element.
#[verifier::external_body]
pub(crate) fn sierra_class_hash(artifact: &Vec<u8>) -> (r: Result<String, String>)
    ensures
        r is Ok <==> sierra_digests(artifact@),
        r matches Ok(h) ==> h@ == sierra_class_hash_of(artifact@) && is_canonical_felt_hex(h@),
{
    let class: SierraClass = match serde_json::from_slice(artifact) {
        Ok(c) => c,
        Err(e) => return Err(format!("{}", e)),
    };
    match class.class_hash() {
        Ok(f) => Ok(format!("0x{:064x}", f)),
        Err(e) => Err(format!("{}", e)),
    }
}

/// Relies on `serde_json` deserialization of a compiled-class artifact and
/// `CompiledClass::class_hash`: whether the bytes parse and the hash
/// computes is decided by the bytes alone, and so is the resulting field
/// element.
#[verifier::external_body]
pub(crate) fn casm_class_hash(artifact: &Vec<u8>) -> (r: Result<String, String>)
    ensures
        r is Ok <==> casm_digests(artifact@),
        r matches Ok(h) ==> h@ == casm_class_hash_of(artifact@) && is_canonical_felt_hex(h@),
{
    let class: CompiledClass = match serde_json::from_slice(artifact) {
        Ok(c) => c,
        Err(e) => return Err(format!("{}", e)),
    };
    match class.class_hash() {
        Ok(f) => Ok(format!("0x{:064x}", f)),
        Err(e) => Err(format!("{}", e)),
    }
}

/// Relies on `starknet_core::utils::get_contract_address`: a total pure
/// function of its four felt arguments, here carried as canonical hex.
#[verifier::external_body]
pub(crate) fn contract_address_from_parts(
    salt: &String,
    class_hash: &String,
    ctor: &Vec<String>,
    deployer: &String,
) -> (r: String)
    requires
        is_canonical_felt_hex(salt@),
        is_canonical_felt_hex(class_hash@),
        forall|i: int| 0 <= i < ctor@.len() ==> is_canonical_felt_hex(#[trigger] ctor@[i]@),
        is_canonical_felt_hex(deployer@),
    ensures
        r@ == contract_address_hex_of(salt@, class_hash@, ctor.deep_view(), deployer@),
        is_canonical_felt_hex(r@),
{
    let salt_fe = FieldElement::from_hex_be(salt).unwrap();
    let class_fe = FieldElement::from_hex_be(class_hash).unwrap();
    let deployer_fe = FieldElement::from_hex_be(deployer).unwrap();
    let mut ctor_fe: Vec<FieldElement> = Vec::new();
    for c in ctor.iter() {
        ctor_fe.push(FieldElement::from_hex_be(c).unwrap());
    }
    let addr = get_contract_address(salt_fe, class_fe, &ctor_fe, deployer_fe);
    format!("0x{:064x}", addr)
}

/// Relies on `starknet_signers::SigningKey::from_random`: a fresh key from
/// the operating system's randomness, whose secret scalar is a field
/// element. Nothing relates one call's result to another's.
#[verifier::external_body]
pub(crate) fn random_salt_hex() -> (r: String)
    ensures
        is_canonical_felt_hex(r@),
{
    format!("0x{:064x}", SigningKey::from_random().secret_scalar())
}

} // verus!
