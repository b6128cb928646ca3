use state_machine::balances;
use state_machine::proof_of_existence;
use state_machine::runtime::{Runtime, RuntimeCall};
use state_machine::support::{DispatchError, Dispatch};
use state_machine::types::{Block, Extrinsic, Header};

fn transfer(caller: &str, to: &str, amount: u128) -> Extrinsic {
    Extrinsic {
        caller: caller.to_string(),
        call: RuntimeCall::Balances(balances::Call::transfer { to: to.to_string(), amount }),
    }
}

fn create_claim(caller: &str, claim: &str) -> Extrinsic {
    Extrinsic {
        caller: caller.to_string(),
        call: RuntimeCall::ProofOfExistence(proof_of_existence::Call::create_claim {
            claim: claim.to_string(),
        }),
    }
}

fn revoke_claim(caller: &str, claim: &str) -> Extrinsic {
    Extrinsic {
        caller: caller.to_string(),
        call: RuntimeCall::ProofOfExistence(proof_of_existence::Call::revoke_claim {
            claim: claim.to_string(),
        }),
    }
}

fn block(number: u32, extrinsics: Vec<Extrinsic>) -> Block {
    Block { header: Header { block_number: number }, extrinsics }
}

#[test]
fn new_runtime_is_empty() {
    let runtime = Runtime::new();
    assert_eq!(runtime.system.block_number(), 0);
    assert_eq!(runtime.system.nonce(&"Alice".to_string()), 0);
    assert_eq!(runtime.balances.balance(&"Alice".to_string()), 0);
    assert_eq!(runtime.proof_of_existence.get_claim(&"doc1".to_string()), None);
}

#[test]
fn end_to_end_scenario() {
    let alice = "Alice".to_string();
    let bob = "Bob".to_string();
    let charlie = "Charlie".to_string();
    let mut runtime = Runtime::new();
    runtime.balances.set_balance(&alice, 100);

    let outcomes = runtime
        .execute_block(block(1, vec![transfer("Alice", "Bob", 30), transfer("Alice", "Charlie", 20)]))
        .unwrap();
    assert_eq!(outcomes, vec![Ok(()), Ok(())]);
    assert_eq!(runtime.balances.balance(&alice), 50);
    assert_eq!(runtime.balances.balance(&bob), 30);
    assert_eq!(runtime.balances.balance(&charlie), 20);
    assert_eq!(runtime.system.nonce(&alice), 2);
    assert_eq!(runtime.system.block_number(), 1);

    let outcomes = runtime
        .execute_block(block(2, vec![create_claim("Alice", "doc1"), create_claim("Bob", "doc2")]))
        .unwrap();
    assert_eq!(outcomes, vec![Ok(()), Ok(())]);
    assert_eq!(runtime.proof_of_existence.get_claim(&"doc1".to_string()), Some(&alice));
    assert_eq!(runtime.proof_of_existence.get_claim(&"doc2".to_string()), Some(&bob));
    assert_eq!(runtime.system.block_number(), 2);
    assert_eq!(runtime.system.nonce(&alice), 3);

    let outcomes = runtime.execute_block(block(3, vec![create_claim("Alice", "doc2")])).unwrap();
    assert_eq!(outcomes, vec![Err(DispatchError::ClaimAlreadyExists)]);
    assert_eq!(runtime.proof_of_existence.get_claim(&"doc2".to_string()), Some(&bob));
    assert_eq!(runtime.system.block_number(), 3);
    assert_eq!(runtime.system.nonce(&alice), 4);
}

#[test]
fn block_number_mismatch_still_advances_counter() {
    let mut runtime = Runtime::new();
    runtime.balances.set_balance(&"Alice".to_string(), 100);

    let result = runtime.execute_block(block(5, vec![transfer("Alice", "Bob", 30)]));
    assert_eq!(result, Err(DispatchError::BlockNumberMismatch));
    assert_eq!(result.unwrap_err().message(), "Block number mismatch");
    assert_eq!(runtime.system.block_number(), 1);
    assert_eq!(runtime.system.nonce(&"Alice".to_string()), 0);
    assert_eq!(runtime.balances.balance(&"Alice".to_string()), 100);

    // Block 1 was used up by the failed block: the next one must be 2.
    let result = runtime.execute_block(block(1, vec![]));
    assert_eq!(result, Err(DispatchError::BlockNumberMismatch));
    assert_eq!(runtime.system.block_number(), 2);
    assert_eq!(runtime.execute_block(block(3, vec![])), Ok(vec![]));
    assert_eq!(runtime.system.block_number(), 3);
}

#[test]
fn nonce_counts_failed_extrinsics() {
    let mut runtime = Runtime::new();
    runtime.balances.set_balance(&"Alice".to_string(), 10);

    let outcomes = runtime
        .execute_block(block(
            1,
            vec![
                transfer("Alice", "Bob", 5),
                transfer("Alice", "Bob", 50),
                transfer("Bob", "Alice", 1),
                revoke_claim("Alice", "doc"),
            ],
        ))
        .unwrap();
    assert_eq!(
        outcomes,
        vec![
            Ok(()),
            Err(DispatchError::InsufficientBalance),
            Ok(()),
            Err(DispatchError::ClaimNotFound),
        ]
    );
    assert_eq!(runtime.system.nonce(&"Alice".to_string()), 3);
    assert_eq!(runtime.system.nonce(&"Bob".to_string()), 1);
    assert_eq!(runtime.balances.balance(&"Alice".to_string()), 6);
    assert_eq!(runtime.balances.balance(&"Bob".to_string()), 4);
}

#[test]
fn extrinsics_see_earlier_effects() {
    let mut runtime = Runtime::new();
    runtime.balances.set_balance(&"Alice".to_string(), 10);

    let outcomes = runtime
        .execute_block(block(
            1,
            vec![
                transfer("Alice", "Bob", 10),
                transfer("Bob", "Charlie", 7),
                create_claim("Bob", "doc"),
                revoke_claim("Charlie", "doc"),
                revoke_claim("Bob", "doc"),
            ],
        ))
        .unwrap();
    assert_eq!(
        outcomes,
        vec![Ok(()), Ok(()), Ok(()), Err(DispatchError::NotOwner), Ok(())]
    );
    assert_eq!(runtime.balances.balance(&"Alice".to_string()), 0);
    assert_eq!(runtime.balances.balance(&"Bob".to_string()), 3);
    assert_eq!(runtime.balances.balance(&"Charlie".to_string()), 7);
    assert_eq!(runtime.proof_of_existence.get_claim(&"doc".to_string()), None);
}

#[test]
fn runtime_dispatch_routes_to_module() {
    let mut runtime = Runtime::new();
    runtime.balances.set_balance(&"Alice".to_string(), 10);

    let call = RuntimeCall::Balances(balances::Call::transfer { to: "Bob".to_string(), amount: 4 });
    assert_eq!(runtime.dispatch("Alice".to_string(), call), Ok(()));
    assert_eq!(runtime.balances.balance(&"Bob".to_string()), 4);
    // Dispatch alone does not touch nonces.
    assert_eq!(runtime.system.nonce(&"Alice".to_string()), 0);

    let call = RuntimeCall::ProofOfExistence(proof_of_existence::Call::create_claim {
        claim: "doc".to_string(),
    });
    assert_eq!(runtime.dispatch("Bob".to_string(), call), Ok(()));
    assert_eq!(runtime.proof_of_existence.get_claim(&"doc".to_string()), Some(&"Bob".to_string()));
}
