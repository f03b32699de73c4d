use vstd::prelude::*;
use vstd::string::StringExecFns;
use crate::errors::Error;
use crate::felt::{
    felt_from_hex, felt_from_hex_spec, felt_seq_hex, felt_zero, is_canonical_felt_hex,
    lemma_canonical_decodes, Felt,
};
use crate::protocol::{contract_address_from_parts, contract_address_hex_of, random_salt_hex};

verus! {

/// A deploy operation fully resolved: the class to instantiate, the
/// decoded constructor arguments, the salt — supplied or drawn — and the
/// deterministic address the deployment will land on.
#[derive(Clone, Debug)]
pub struct DeployPlan {
    pub class_hash: Felt,
    pub ctor_args: Vec<Felt>,
    pub salt: Felt,
    pub deployed_address: Felt,
}

/// What a deploy hands back to the script: the transaction's hash and the
/// deployed address, canonically serialized.
#[derive(Clone, Debug)]
pub struct DeployOutput {
    pub transaction_hash: String,
    pub deployed_address: String,
}

/// The salt was taken as supplied, or else is some well-formed felt a
/// cryptographically sound generator drew.
pub open spec fn salt_resolved(salt: Option<String>, chosen: Felt) -> bool {
    match salt {
        Some(s) => felt_from_hex_spec(s@) == Some(chosen),
        None => chosen.wf(),
    }
}

/// Builds a deploy plan: decodes the class hash and the constructor
/// arguments, takes the salt given or draws a fresh random one, and
/// computes the deterministic deployed address from the salt, the class,
/// the arguments and the zero deployer — deployments go through the
/// universal deployer without the uniqueness setting.
pub fn deploy_plan(sierra_class_hash: &str, args: &Vec<String>, salt: &Option<String>) -> (r:
    Result<DeployPlan, Error>)
    ensures
        match r {
            Ok(p) => felt_from_hex_spec(sierra_class_hash@) == Some(p.class_hash)
                && p.ctor_args@.len() == args@.len() && (forall|j: int|
                0 <= j < args@.len() ==> felt_from_hex_spec(#[trigger] args@[j]@) == Some(
                    p.ctor_args@[j],
                )) && salt_resolved(*salt, p.salt) && felt_from_hex_spec(
                contract_address_hex_of(
                    p.salt.to_hex_spec(),
                    p.class_hash.to_hex_spec(),
                    felt_seq_hex(p.ctor_args@),
                    felt_zero().to_hex_spec(),
                ),
            ) == Some(p.deployed_address),
            Err(e) => (felt_from_hex_spec(sierra_class_hash@) is None || (exists|j: int|
                0 <= j < args@.len() && felt_from_hex_spec(#[trigger] args@[j]@) is None) || (
            salt matches Some(s) && felt_from_hex_spec(s@) is None))
                && e is InvalidFieldElement,
        },
{
    let class_hash = match felt_from_hex(sierra_class_hash) {
        Ok(f) => f,
        Err(e) => return Err(e),
    };
    let n = args.len();
    let mut ctor_args: Vec<Felt> = Vec::new();
    let mut i: usize = 0;
    while i < n
        invariant
            i <= n,
            n == args@.len(),
            ctor_args@.len() == i,
            felt_from_hex_spec(sierra_class_hash@) == Some(class_hash),
            class_hash.wf(),
            forall|j: int|
                0 <= j < i ==> felt_from_hex_spec(#[trigger] args@[j]@) == Some(ctor_args@[j]),
            forall|j: int| 0 <= j < i ==> (#[trigger] ctor_args@[j]).wf(),
        decreases n - i,
    {
        let f = match felt_from_hex(args[i].as_str()) {
            Ok(f) => f,
            Err(e) => return Err(e),
        };
        ctor_args.push(f);
        i += 1;
    }
    let salt_felt: Felt = match salt {
        Some(s) => match felt_from_hex(s.as_str()) {
            Ok(f) => f,
            Err(e) => return Err(e),
        },
        None => {
            let h = random_salt_hex();
            match felt_from_hex(h.as_str()) {
                Ok(f) => f,
                Err(e) => {
                    proof {
                        lemma_canonical_decodes(h@);
                        assert(false);
                    }
                    return Err(e);
                },
            }
        },
    };
    let m = ctor_args.len();
    let mut ctor_hex: Vec<String> = Vec::new();
    let mut k: usize = 0;
    while k < m
        invariant
            k <= m,
            m == ctor_args@.len(),
            ctor_args@.len() == args@.len(),
            ctor_hex@.len() == k,
            felt_from_hex_spec(sierra_class_hash@) == Some(class_hash),
            class_hash.wf(),
            salt_resolved(*salt, salt_felt),
            salt_felt.wf(),
            forall|j: int|
                0 <= j < args@.len() ==> felt_from_hex_spec(#[trigger] args@[j]@) == Some(
                    ctor_args@[j],
                ),
            forall|j: int| 0 <= j < args@.len() ==> (#[trigger] ctor_args@[j]).wf(),
            forall|j: int|
                0 <= j < k ==> #[trigger] ctor_hex@[j]@ == ctor_args@[j].to_hex_spec()
                    && is_canonical_felt_hex(ctor_hex@[j]@),
        decreases m - k,
    {
        let h = ctor_args[k].to_hex();
        ctor_hex.push(h);
        k += 1;
    }
    let salt_hex = salt_felt.to_hex();
    let class_hex = class_hash.to_hex();
    let zero_hex = Felt::zero().to_hex();
    let addr_hex = contract_address_from_parts(&salt_hex, &class_hex, &ctor_hex, &zero_hex);
    proof {
        assert(ctor_hex.deep_view() =~= felt_seq_hex(ctor_args@));
    }
    let deployed_address = match felt_from_hex(addr_hex.as_str()) {
        Ok(f) => f,
        Err(e) => {
            proof {
                lemma_canonical_decodes(addr_hex@);
                assert(false);
            }
            return Err(e);
        },
    };
    Ok(DeployPlan { class_hash, ctor_args, salt: salt_felt, deployed_address })
}

/// The output of a submitted deploy: the transaction's hash and the
/// address the plan computed.
pub fn deploy_output(plan: &DeployPlan, tx_hash: &Felt) -> (r: DeployOutput)
    ensures
        r.transaction_hash@ == tx_hash.to_hex_spec(),
        r.deployed_address@ == plan.deployed_address.to_hex_spec(),
{
    DeployOutput {
        transaction_hash: tx_hash.to_hex(),
        deployed_address: plan.deployed_address.to_hex(),
    }
}

} // verus!
