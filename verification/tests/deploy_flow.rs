use kipt::deploy::{deploy_output, deploy_plan};
use kipt::errors::Error;
use kipt::felt::{felt_from_hex, Felt};

#[test]
fn deployed_address_matches_the_protocol_computation() {
    // One constructor argument, a fixed salt, zero deployer: the address
    // is the deterministic protocol value for these inputs.
    let class = "0x0750cd490a7cd1572411169eaa8be292325990d33c5d4733655fe6b926985062";
    let salt = Some(String::from(
        "0x0018a7a329d1d85b621350f2b5fc9c64b2e57dfe708525f0aff2c90de1e5b9c8",
    ));
    let args = vec![String::from("0x1")];
    let plan = deploy_plan(class, &args, &salt).unwrap();
    assert_eq!(
        plan.deployed_address.to_hex(),
        "0x00da27ef7c3869c3a6cc6a0f7bf07a51c3e590825adba8a51cae27d815839eec"
    );
    assert_eq!(plan.class_hash, felt_from_hex(class).unwrap());
    assert_eq!(plan.ctor_args, vec![felt_from_hex("0x1").unwrap()]);
    assert_eq!(plan.salt, felt_from_hex(salt.as_deref().unwrap()).unwrap());
}

#[test]
fn absent_salt_is_drawn_fresh_each_time() {
    let class = "0x0750cd490a7cd1572411169eaa8be292325990d33c5d4733655fe6b926985062";
    let args: Vec<String> = vec![];
    let a = deploy_plan(class, &args, &None).unwrap();
    let b = deploy_plan(class, &args, &None).unwrap();
    // A cryptographically sound 252-bit draw never repeats in practice.
    assert_ne!(a.salt, b.salt);
    assert_ne!(a.deployed_address, b.deployed_address);
}

#[test]
fn bad_class_hash_fails_the_plan() {
    let args: Vec<String> = vec![];
    assert!(matches!(
        deploy_plan("not-hex", &args, &None),
        Err(Error::InvalidFieldElement(_))
    ));
}

#[test]
fn bad_constructor_argument_fails_the_plan() {
    let args = vec![String::from("0x1"), String::from("oops")];
    assert!(matches!(
        deploy_plan("0x123", &args, &None),
        Err(Error::InvalidFieldElement(_))
    ));
}

#[test]
fn bad_salt_fails_the_plan() {
    let args: Vec<String> = vec![];
    assert!(matches!(
        deploy_plan("0x123", &args, &Some(String::from("salty"))),
        Err(Error::InvalidFieldElement(_))
    ));
}

#[test]
fn deploy_output_serializes_both_felts() {
    let class = "0x0750cd490a7cd1572411169eaa8be292325990d33c5d4733655fe6b926985062";
    let args: Vec<String> = vec![];
    let plan = deploy_plan(class, &args, &Some(String::from("0x5"))).unwrap();
    let tx = Felt { d0: 0x99, d1: 0, d2: 0, d3: 0 };
    let out = deploy_output(&plan, &tx);
    assert_eq!(out.transaction_hash, tx.to_hex());
    assert_eq!(out.deployed_address, plan.deployed_address.to_hex());
    assert_eq!(out.deployed_address.len(), 66);
}
