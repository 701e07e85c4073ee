use promise_batch::{Action, Promise, PromiseError, Request, Scheduler};

fn account(name: &str) -> String {
    name.to_string()
}

#[test]
fn create_account_is_appended() {
    let mut host = Scheduler::new();
    let promise = Promise::new(&mut host, &account("alice")).create_account(&mut host);
    assert_eq!(promise.index(), 0);
    assert!(!promise.should_return());
    assert_eq!(host.len(), 2);
    assert_eq!(
        host.request(1),
        &Request::Append { promise: 0, action: Action::CreateAccount }
    );
}

#[test]
fn deploy_contract_keeps_the_code() {
    let mut host = Scheduler::new();
    let _ = Promise::new(&mut host, &account("alice")).deploy_contract(&mut host, &[0, 97, 115, 109]);
    assert_eq!(
        host.batch(0),
        vec![Action::DeployContract { code: vec![0, 97, 115, 109] }]
    );
}

#[test]
fn deploy_contract_takes_empty_code() {
    let mut host = Scheduler::new();
    let _ = Promise::new(&mut host, &account("alice")).deploy_contract(&mut host, &[]);
    assert_eq!(host.batch(0), vec![Action::DeployContract { code: vec![] }]);
}

#[test]
fn function_call_keeps_its_parameters() {
    let mut host = Scheduler::new();
    let _ = Promise::new(&mut host, &account("alice")).function_call(
        &mut host,
        "set_status",
        b"{\"message\":\"hi\"}",
        5,
        30_000_000_000_000,
    );
    assert_eq!(
        host.batch(0),
        vec![Action::FunctionCall {
            function_name: "set_status".to_string(),
            arguments: b"{\"message\":\"hi\"}".to_vec(),
            amount: 5,
            gas: 30_000_000_000_000,
        }]
    );
}

#[test]
fn amounts_are_not_checked() {
    let mut host = Scheduler::new();
    let _ = Promise::new(&mut host, &account("alice"))
        .transfer(&mut host, 0)
        .transfer(&mut host, u128::MAX)
        .function_call(&mut host, "", &[], u128::MAX, u64::MAX);
    assert_eq!(
        host.batch(0),
        vec![
            Action::Transfer { amount: 0 },
            Action::Transfer { amount: u128::MAX },
            Action::FunctionCall {
                function_name: String::new(),
                arguments: vec![],
                amount: u128::MAX,
                gas: u64::MAX,
            },
        ]
    );
}

#[test]
fn stake_keeps_amount_and_key() {
    let mut host = Scheduler::new();
    let key = vec![0u8, 1, 2, 3];
    let _ = Promise::new(&mut host, &account("alice")).stake(&mut host, 250, &key);
    assert_eq!(host.batch(0), vec![Action::Stake { amount: 250, public_key: key }]);
}

#[test]
fn full_access_key_has_nonce_zero() {
    let mut host = Scheduler::new();
    let key = vec![0u8, 9, 9];
    let _ = Promise::new(&mut host, &account("alice")).add_full_access_key(&mut host, &key);
    assert_eq!(
        host.batch(0),
        vec![Action::AddFullAccessKey { public_key: key, nonce: 0 }]
    );
}

#[test]
fn full_access_key_keeps_its_nonce() {
    let mut host = Scheduler::new();
    let key = vec![0u8, 9, 9];
    let _ = Promise::new(&mut host, &account("alice"))
        .add_full_access_key_with_nonce(&mut host, &key, 42);
    assert_eq!(
        host.batch(0),
        vec![Action::AddFullAccessKey { public_key: key, nonce: 42 }]
    );
}

#[test]
fn access_key_has_nonce_zero() {
    let mut host = Scheduler::new();
    let key = vec![0u8, 5];
    let _ = Promise::new(&mut host, &account("alice")).add_access_key(
        &mut host,
        &key,
        1_000,
        &account("market"),
        "buy,sell",
    );
    assert_eq!(
        host.batch(0),
        vec![Action::AddAccessKey {
            public_key: key,
            nonce: 0,
            allowance: 1_000,
            receiver_id: account("market"),
            function_names: "buy,sell".to_string(),
        }]
    );
}

#[test]
fn access_key_keeps_its_nonce() {
    let mut host = Scheduler::new();
    let key = vec![0u8, 5];
    let _ = Promise::new(&mut host, &account("alice")).add_access_key_with_nonce(
        &mut host,
        &key,
        1_000,
        &account("market"),
        "buy,sell",
        17,
    );
    assert_eq!(
        host.batch(0),
        vec![Action::AddAccessKey {
            public_key: key,
            nonce: 17,
            allowance: 1_000,
            receiver_id: account("market"),
            function_names: "buy,sell".to_string(),
        }]
    );
}

#[test]
fn delete_key_keeps_the_key() {
    let mut host = Scheduler::new();
    let key = vec![1u8, 2, 3];
    let _ = Promise::new(&mut host, &account("alice")).delete_key(&mut host, &key);
    assert_eq!(host.batch(0), vec![Action::DeleteKey { public_key: key }]);
}

#[test]
fn delete_account_keeps_the_beneficiary() {
    let mut host = Scheduler::new();
    let _ = Promise::new(&mut host, &account("alice")).delete_account(&mut host, &account("bob"));
    assert_eq!(
        host.batch(0),
        vec![Action::DeleteAccount { beneficiary_id: account("bob") }]
    );
}

#[test]
fn batch_holds_the_actions_in_call_order() {
    let mut host = Scheduler::new();
    let key = vec![0u8, 7, 7, 7];
    let promise = Promise::new(&mut host, &account("alice"))
        .create_account(&mut host)
        .transfer(&mut host, 1000)
        .add_full_access_key(&mut host, &key)
        .deploy_contract(&mut host, &[1, 2, 3])
        .function_call(&mut host, "init", &[4, 5], 1, 2)
        .stake(&mut host, 10, &key)
        .delete_key(&mut host, &key)
        .delete_account(&mut host, &account("bob"));
    assert_eq!(promise.index(), 0);
    assert_eq!(host.len(), 9);
    assert_eq!(
        host.batch(0),
        vec![
            Action::CreateAccount,
            Action::Transfer { amount: 1000 },
            Action::AddFullAccessKey { public_key: key.clone(), nonce: 0 },
            Action::DeployContract { code: vec![1, 2, 3] },
            Action::FunctionCall {
                function_name: "init".to_string(),
                arguments: vec![4, 5],
                amount: 1,
                gas: 2,
            },
            Action::Stake { amount: 10, public_key: key.clone() },
            Action::DeleteKey { public_key: key },
            Action::DeleteAccount { beneficiary_id: account("bob") },
        ]
    );
}

#[test]
fn the_same_action_twice_is_kept_twice() {
    let mut host = Scheduler::new();
    let _ = Promise::new(&mut host, &account("alice"))
        .transfer(&mut host, 1)
        .transfer(&mut host, 1);
    assert_eq!(
        host.batch(0),
        vec![Action::Transfer { amount: 1 }, Action::Transfer { amount: 1 }]
    );
}

#[test]
fn batches_filled_in_turn_stay_apart() {
    let mut host = Scheduler::new();
    let first = Promise::new(&mut host, &account("alice"));
    let second = Promise::new(&mut host, &account("bob"));
    let first = first.transfer(&mut host, 1);
    let second = second.transfer(&mut host, 2);
    let first = first.create_account(&mut host);
    let second = second.delete_account(&mut host, &account("alice"));
    assert_eq!(
        host.batch(first.index()),
        vec![Action::Transfer { amount: 1 }, Action::CreateAccount]
    );
    assert_eq!(
        host.batch(second.index()),
        vec![
            Action::Transfer { amount: 2 },
            Action::DeleteAccount { beneficiary_id: account("alice") },
        ]
    );
    assert_eq!(
        host.request(4),
        &Request::Append { promise: 0, action: Action::CreateAccount }
    );
}

#[test]
fn appending_keeps_the_mark() {
    let mut host = Scheduler::new();
    let promise = Promise::new(&mut host, &account("alice"))
        .as_return()
        .transfer(&mut host, 3);
    assert!(promise.should_return());
    assert_eq!(promise.index(), 0);
}

#[test]
fn actions_go_to_the_batch_of_a_single_handle() {
    let mut host = Scheduler::new();
    let _ = Promise::new(&mut host, &account("alice"));
    let second = Promise::new(&mut host, &account("bob"));
    assert_eq!(second.action_index(), Ok(1));
}

#[test]
fn a_join_takes_no_action() {
    let mut host = Scheduler::new();
    let left = Promise::new(&mut host, &account("alice"));
    let right = Promise::new(&mut host, &account("bob"));
    let joint = left.and(&mut host, right);
    assert_eq!(joint.action_index(), Err(PromiseError::JointAction));
    assert_eq!(host.len(), 3);
}

#[test]
fn the_error_says_what_went_wrong() {
    assert_eq!(
        PromiseError::JointAction.message(),
        "Cannot add action to a joint promise."
    );
}

#[test]
fn a_copy_of_an_action_equals_it() {
    let actions = vec![
        Action::CreateAccount,
        Action::DeployContract { code: vec![1, 2] },
        Action::FunctionCall {
            function_name: "f".to_string(),
            arguments: vec![3],
            amount: 4,
            gas: 5,
        },
        Action::Transfer { amount: 6 },
        Action::Stake { amount: 7, public_key: vec![8] },
        Action::AddFullAccessKey { public_key: vec![9], nonce: 10 },
        Action::AddAccessKey {
            public_key: vec![11],
            nonce: 12,
            allowance: 13,
            receiver_id: account("r"),
            function_names: "a,b".to_string(),
        },
        Action::DeleteKey { public_key: vec![14] },
        Action::DeleteAccount { beneficiary_id: account("b") },
    ];
    for action in &actions {
        assert_eq!(&action.duplicate(), action);
    }
}
