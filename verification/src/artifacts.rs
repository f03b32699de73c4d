use vstd::prelude::*;
use vstd::string::{StrSliceExecFns, StringExecFns};
use crate::errors::Error;

verus! {

/// The two artifact roles a contract build produces: the class definition
/// and the compiled class.
#[derive(Clone, Copy, Debug, PartialEq, Eq, Structural)]
pub enum ArtifactKind {
    Sierra,
    Casm,
}

pub open spec fn seq_starts_with(s: Seq<char>, p: Seq<char>) -> bool {
    s.len() >= p.len() && s.take(p.len() as int) == p
}

pub open spec fn seq_ends_with(s: Seq<char>, p: Seq<char>) -> bool {
    s.len() >= p.len() && s.skip((s.len() - p.len()) as int) == p
}

/// How a file name is classified for a contract: it must start with the
/// contract's name; the class-definition suffixes are tried first, then
/// the compiled-class suffixes; any other name is no artifact.
pub open spec fn artifact_kind_of(name: Seq<char>, contract: Seq<char>) -> Option<ArtifactKind> {
    if !seq_starts_with(name, contract) {
        None
    } else if seq_ends_with(name, ".contract_class.json"@) || seq_ends_with(
        name,
        "sierra.json"@,
    ) {
        Some(ArtifactKind::Sierra)
    } else if seq_ends_with(name, ".compiled_contract_class.json"@) || seq_ends_with(
        name,
        "casm.json"@,
    ) {
        Some(ArtifactKind::Casm)
    } else {
        None
    }
}

/// Exactly one of the names is classified as `kind`.
pub open spec fn unique_artifact(names: Seq<String>, contract: Seq<char>, kind: ArtifactKind) -> bool {
    exists|i: int|
        0 <= i < names.len() && #[trigger] artifact_kind_of(names[i]@, contract) == Some(kind)
            && forall|j: int|
            0 <= j < names.len() && j != i ==> #[trigger] artifact_kind_of(names[j]@, contract)
                != Some(kind)
}

fn str_starts_with(s: &str, p: &str) -> (r: bool)
    ensures
        r == seq_starts_with(s@, p@),
{
    let n = s.unicode_len();
    let m = p.unicode_len();
    if n < m {
        return false;
    }
    let mut i: usize = 0;
    while i < m
        invariant
            i <= m,
            m <= n,
            n == s@.len(),
            m == p@.len(),
            forall|j: int| 0 <= j < i ==> s@[j] == p@[j],
        decreases m - i,
    {
        if s.get_char(i) != p.get_char(i) {
            proof {
                assert(s@.take(m as int)[i as int] != p@[i as int]);
            }
            return false;
        }
        i += 1;
    }
    proof {
        assert(s@.take(m as int) =~= p@);
    }
    true
}

fn str_ends_with(s: &str, p: &str) -> (r: bool)
    ensures
        r == seq_ends_with(s@, p@),
{
    let n = s.unicode_len();
    let m = p.unicode_len();
    if n < m {
        return false;
    }
    let off = n - m;
    let mut i: usize = 0;
    while i < m
        invariant
            i <= m,
            m <= n,
            n == s@.len(),
            m == p@.len(),
            off == n - m,
            forall|j: int| 0 <= j < i ==> s@[off + j] == p@[j],
        decreases m - i,
    {
        if s.get_char(off + i) != p.get_char(i) {
            proof {
                assert(s@.skip(off as int)[i as int] != p@[i as int]);
            }
            return false;
        }
        i += 1;
    }
    proof {
        assert(s@.skip(off as int) =~= p@);
    }
    true
}

/// Classifies one file name for a contract.
pub fn classify_artifact(name: &str, contract: &str) -> (r: Option<ArtifactKind>)
    ensures
        r == artifact_kind_of(name@, contract@),
{
    if !str_starts_with(name, contract) {
        None
    } else if str_ends_with(name, ".contract_class.json") || str_ends_with(name, "sierra.json") {
        Some(ArtifactKind::Sierra)
    } else if str_ends_with(name, ".compiled_contract_class.json") || str_ends_with(
        name,
        "casm.json",
    ) {
        Some(ArtifactKind::Casm)
    } else {
        None
    }
}

/// Resolves the artifact search root: the option's value when given, else
/// the default root `./target/dev`.
pub fn resolve_artifacts_root(artifacts_path: &Option<String>) -> (r: String)
    ensures
        match artifacts_path {
            Some(p) => r@ == p@,
            None => r@ == "./target/dev"@,
        },
{
    match artifacts_path {
        Some(p) => p.clone(),
        None => String::from_str("./target/dev"),
    }
}

/// Finds, among the file names the locator listed, the one class
/// definition and the one compiled class belonging to the contract, and
/// returns their positions.
///
/// Zero matches or more than one match for either role is
/// `ArtifactsMissing`, its message naming the contract and the artifact
/// kind that failed — the class definition checked first: an ambiguous
/// build directory is an error, not a silent pick.
pub fn select_artifacts(contract_name: &str, file_names: &Vec<String>) -> (r: Result<
    (usize, usize),
    Error,
>)
    ensures
        match r {
            Ok(t) => t.0 < file_names@.len() && t.1 < file_names@.len() && artifact_kind_of(
                file_names@[t.0 as int]@,
                contract_name@,
            ) == Some(ArtifactKind::Sierra) && artifact_kind_of(
                file_names@[t.1 as int]@,
                contract_name@,
            ) == Some(ArtifactKind::Casm) && unique_artifact(
                file_names@,
                contract_name@,
                ArtifactKind::Sierra,
            ) && unique_artifact(file_names@, contract_name@, ArtifactKind::Casm),
            Err(e) => e matches Error::ArtifactsMissing(m) && ((!unique_artifact(
                file_names@,
                contract_name@,
                ArtifactKind::Sierra,
            ) && m@ == "sierra artifact missing or ambiguous for contract "@ + contract_name@)
                || (unique_artifact(file_names@, contract_name@, ArtifactKind::Sierra)
                && !unique_artifact(file_names@, contract_name@, ArtifactKind::Casm) && m@
                == "casm artifact missing or ambiguous for contract "@ + contract_name@)),
        },
{
    let ghost names = file_names@;
    let ghost contract = contract_name@;
    let n = file_names.len();
    let mut sierra: Option<usize> = None;
    let mut sierra_count: usize = 0;
    let ghost mut sierra_other: int = 0;
    let mut casm: Option<usize> = None;
    let mut casm_count: usize = 0;
    let ghost mut casm_other: int = 0;
    let mut i: usize = 0;
    while i < n
        invariant
            i <= n,
            n == names.len(),
            names == file_names@,
            contract == contract_name@,
            sierra_count == 0 <==> sierra is None,
            sierra is None ==> forall|j: int|
                0 <= j < i ==> #[trigger] artifact_kind_of(names[j]@, contract) != Some(
                    ArtifactKind::Sierra,
                ),
            sierra matches Some(si) ==> si < i && artifact_kind_of(names[si as int]@, contract)
                == Some(ArtifactKind::Sierra),
            sierra_count == 1 ==> (sierra matches Some(si) && forall|j: int|
                0 <= j < i && j != si ==> #[trigger] artifact_kind_of(names[j]@, contract)
                    != Some(ArtifactKind::Sierra)),
            sierra_count >= 2 ==> (sierra matches Some(si) && 0 <= sierra_other < i
                && sierra_other != si && artifact_kind_of(names[sierra_other]@, contract) == Some(
                ArtifactKind::Sierra,
            )),
            casm_count == 0 <==> casm is None,
            casm is None ==> forall|j: int|
                0 <= j < i ==> #[trigger] artifact_kind_of(names[j]@, contract) != Some(
                    ArtifactKind::Casm,
                ),
            casm matches Some(ci) ==> ci < i && artifact_kind_of(names[ci as int]@, contract)
                == Some(ArtifactKind::Casm),
            casm_count == 1 ==> (casm matches Some(ci) && forall|j: int|
                0 <= j < i && j != ci ==> #[trigger] artifact_kind_of(names[j]@, contract)
                    != Some(ArtifactKind::Casm)),
            casm_count >= 2 ==> (casm matches Some(ci) && 0 <= casm_other < i && casm_other != ci
                && artifact_kind_of(names[casm_other]@, contract) == Some(ArtifactKind::Casm)),
        decreases n - i,
    {
        let kind = classify_artifact(file_names[i].as_str(), contract_name);
        match kind {
            Some(ArtifactKind::Sierra) => {
                if sierra.is_none() {
                    sierra = Some(i);
                    sierra_count = 1;
                } else {
                    proof {
                        sierra_other = i as int;
                    }
                    if sierra_count < 2 {
                        sierra_count = 2;
                    }
                }
            },
            Some(ArtifactKind::Casm) => {
                if casm.is_none() {
                    casm = Some(i);
                    casm_count = 1;
                } else {
                    proof {
                        casm_other = i as int;
                    }
                    if casm_count < 2 {
                        casm_count = 2;
                    }
                }
            },
            None => {},
        }
        i += 1;
    }
    if sierra_count == 1 && casm_count == 1 {
        match (sierra, casm) {
            (Some(si), Some(ci)) => {
                proof {
                    assert(unique_artifact(names, contract, ArtifactKind::Sierra)) by {
                        assert(artifact_kind_of(names[si as int]@, contract) == Some(
                            ArtifactKind::Sierra,
                        ));
                    }
                    assert(unique_artifact(names, contract, ArtifactKind::Casm)) by {
                        assert(artifact_kind_of(names[ci as int]@, contract) == Some(
                            ArtifactKind::Casm,
                        ));
                    }
                }
                Ok((si, ci))
            },
            _ => {
                proof {
                    assert(false);
                }
                Err(Error::ArtifactsMissing(String::from_str(contract_name)))
            },
        }
    } else if sierra_count != 1 {
        proof {
            if sierra_count == 0 {
                assert(!unique_artifact(names, contract, ArtifactKind::Sierra));
            } else {
                assert(sierra_count >= 2);
                assert(!unique_artifact(names, contract, ArtifactKind::Sierra)) by {
                    if unique_artifact(names, contract, ArtifactKind::Sierra) {
                        let u = choose|u: int|
                            0 <= u < names.len() && #[trigger] artifact_kind_of(
                                names[u]@,
                                contract,
                            ) == Some(ArtifactKind::Sierra) && forall|j: int|
                                0 <= j < names.len() && j != u
                                    ==> #[trigger] artifact_kind_of(names[j]@, contract) != Some(
                                    ArtifactKind::Sierra,
                                );
                    }
                }
            }
        }
        let mut msg = String::from_str("sierra artifact missing or ambiguous for contract ");
        msg.append(contract_name);
        Err(Error::ArtifactsMissing(msg))
    } else {
        match sierra {
            Some(si) => {
                proof {
                    assert(unique_artifact(names, contract, ArtifactKind::Sierra)) by {
                        assert(artifact_kind_of(names[si as int]@, contract) == Some(
                            ArtifactKind::Sierra,
                        ));
                    }
                    if casm_count == 0 {
                        assert(!unique_artifact(names, contract, ArtifactKind::Casm));
                    } else {
                        assert(casm_count >= 2);
                        assert(!unique_artifact(names, contract, ArtifactKind::Casm)) by {
                            if unique_artifact(names, contract, ArtifactKind::Casm) {
                                let u = choose|u: int|
                                    0 <= u < names.len() && #[trigger] artifact_kind_of(
                                        names[u]@,
                                        contract,
                                    ) == Some(ArtifactKind::Casm) && forall|j: int|
                                        0 <= j < names.len() && j != u
                                            ==> #[trigger] artifact_kind_of(names[j]@, contract)
                                            != Some(ArtifactKind::Casm);
                            }
                        }
                    }
                }
                let mut msg = String::from_str(
                    "casm artifact missing or ambiguous for contract ",
                );
                msg.append(contract_name);
                Err(Error::ArtifactsMissing(msg))
            },
            None => {
                proof {
                    assert(false);
                }
                Err(Error::ArtifactsMissing(String::from_str(contract_name)))
            },
        }
    }
}

} // verus!
