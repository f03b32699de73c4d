use vstd::prelude::*;
use vstd::string::StringExecFns;
use crate::block::BlockReference;
use crate::errors::Error;
use crate::felt::{felt_from_hex, felt_from_hex_spec, lemma_canonical_decodes, Felt};
use crate::protocol::{
    casm_class_hash, casm_class_hash_of, casm_digests, sierra_class_hash, sierra_class_hash_of,
    sierra_digests,
};

verus! {

/// A declare operation with both artifacts digested: the two class hashes
/// computed from the artifact bytes, and whether an existence check
/// precedes submission.
#[derive(Clone, Debug)]
pub struct DeclarePlan {
    pub sierra_class_hash: Felt,
    pub casm_class_hash: Felt,
    pub check_existence_first: bool,
}

/// The first move of a declare: query the class's existence, or submit
/// straight away.
#[derive(Clone, Debug, PartialEq, Eq, Structural)]
pub enum DeclareStep {
    /// Ask the endpoint whether the class already exists, at the given
    /// block.
    QueryExistence(BlockReference),
    /// Build and submit the declare transaction.
    SubmitNow,
}

/// What the class-existence query answered, as the transport hands it
/// back.
#[derive(Clone, Debug)]
pub enum ClassQueryOutcome {
    /// The endpoint returned the class: it is already declared.
    Exists,
    /// The endpoint answered "class hash not found": not declared yet.
    ClassHashNotFound,
    /// The query failed some other way; the message passes through.
    Failed(String),
}

/// How the declare proceeds after the existence query.
#[derive(Clone, Debug)]
pub enum DeclareDecision {
    /// The class is already declared: return its hash, submit nothing.
    SkipAlreadyDeclared,
    /// The class is not declared yet: build and submit the transaction.
    Submit,
    /// The query failed; the declare aborts with that error.
    Abort(Error),
}

/// What a declare hands back to the script: the transaction hash — absent
/// exactly when the declaration was skipped because the class already
/// existed — and the class hash, canonically serialized.
#[derive(Clone, Debug)]
pub struct DeclareOutput {
    pub transaction_hash: Option<String>,
    pub sierra_class_hash: String,
}

/// Digests the two artifacts into a declare plan: it succeeds exactly
/// when both artifacts digest — parse and hash — and each class hash is
/// then the digest of its artifact's bytes alone. An artifact that does
/// not digest aborts with the underlying message.
pub fn declare_plan(
    sierra_artifact: &Vec<u8>,
    casm_artifact: &Vec<u8>,
    skip_if_declared: bool,
) -> (r: Result<DeclarePlan, Error>)
    ensures
        r is Ok <==> sierra_digests(sierra_artifact@) && casm_digests(casm_artifact@),
        match r {
            Ok(p) => felt_from_hex_spec(sierra_class_hash_of(sierra_artifact@)) == Some(
                p.sierra_class_hash,
            ) && felt_from_hex_spec(casm_class_hash_of(casm_artifact@)) == Some(
                p.casm_class_hash,
            ) && p.check_existence_first == skip_if_declared,
            Err(e) => e is Other,
        },
{
    let sierra_hex = match sierra_class_hash(sierra_artifact) {
        Ok(h) => h,
        Err(msg) => return Err(Error::Other(msg)),
    };
    let casm_hex = match casm_class_hash(casm_artifact) {
        Ok(h) => h,
        Err(msg) => return Err(Error::Other(msg)),
    };
    let sierra = match felt_from_hex(sierra_hex.as_str()) {
        Ok(f) => f,
        Err(_) => {
            proof {
                lemma_canonical_decodes(sierra_hex@);
                assert(false);
            }
            return Err(Error::Other(sierra_hex));
        },
    };
    let casm = match felt_from_hex(casm_hex.as_str()) {
        Ok(f) => f,
        Err(_) => {
            proof {
                lemma_canonical_decodes(casm_hex@);
                assert(false);
            }
            return Err(Error::Other(casm_hex));
        },
    };
    Ok(
        DeclarePlan {
            sierra_class_hash: sierra,
            casm_class_hash: casm,
            check_existence_first: skip_if_declared,
        },
    )
}

/// The declare's first move: with `skip_if_declared` set it queries the
/// class's existence — at the pending block only, the narrow check — and
/// otherwise it submits without asking.
pub fn declare_first_step(plan: &DeclarePlan) -> (r: DeclareStep)
    ensures
        plan.check_existence_first ==> r == DeclareStep::QueryExistence(BlockReference::Pending),
        !plan.check_existence_first ==> r == DeclareStep::SubmitNow,
{
    if plan.check_existence_first {
        DeclareStep::QueryExistence(BlockReference::Pending)
    } else {
        DeclareStep::SubmitNow
    }
}

/// Decides the declare after the existence query: a present class is
/// skipped, the "class hash not found" answer proceeds to declare, and
/// any other failure aborts with the error passed through unchanged.
pub fn declare_on_class_query(outcome: ClassQueryOutcome) -> (r: DeclareDecision)
    ensures
        match outcome {
            ClassQueryOutcome::Exists => r is SkipAlreadyDeclared,
            ClassQueryOutcome::ClassHashNotFound => r is Submit,
            ClassQueryOutcome::Failed(msg) => r matches DeclareDecision::Abort(e) && (e matches
                Error::TransportError(m) && m@ == msg@),
        },
{
    match outcome {
        ClassQueryOutcome::Exists => DeclareDecision::SkipAlreadyDeclared,
        ClassQueryOutcome::ClassHashNotFound => DeclareDecision::Submit,
        ClassQueryOutcome::Failed(msg) => DeclareDecision::Abort(Error::TransportError(msg)),
    }
}

/// The output of a declare skipped because the class already existed:
/// no transaction hash — the only case that lawfully omits one — and the
/// computed class hash.
pub fn declare_skipped_output(plan: &DeclarePlan) -> (r: DeclareOutput)
    ensures
        r.transaction_hash is None,
        r.sierra_class_hash@ == plan.sierra_class_hash.to_hex_spec(),
{
    DeclareOutput {
        transaction_hash: None,
        sierra_class_hash: plan.sierra_class_hash.to_hex(),
    }
}

/// The output of a submitted declare: the transaction's hash and the
/// computed class hash.
pub fn declare_submitted_output(plan: &DeclarePlan, tx_hash: &Felt) -> (r: DeclareOutput)
    ensures
        r.transaction_hash matches Some(h) && h@ == tx_hash.to_hex_spec(),
        r.sierra_class_hash@ == plan.sierra_class_hash.to_hex_spec(),
{
    DeclareOutput {
        transaction_hash: Some(tx_hash.to_hex()),
        sierra_class_hash: plan.sierra_class_hash.to_hex(),
    }
}

} // verus!
