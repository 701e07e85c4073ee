//! The operations that a batch can hold.

use vstd::prelude::*;
use vstd::slice::slice_to_vec;

verus! {

/// The name of an account, as the host spells it.
pub type AccountId = String;

/// An amount of tokens.
pub type Balance = u128;

/// An amount of gas.
pub type Gas = u64;

/// A public key in its wire encoding.
pub type PublicKey = Vec<u8>;

/// One operation of a batch, with its parameters.
#[derive(Debug, PartialEq, Eq)]
pub enum Action {
    CreateAccount,
    DeployContract { code: Vec<u8> },
    FunctionCall { function_name: String, arguments: Vec<u8>, amount: Balance, gas: Gas },
    Transfer { amount: Balance },
    Stake { amount: Balance, public_key: PublicKey },
    AddFullAccessKey { public_key: PublicKey, nonce: u64 },
    AddAccessKey {
        public_key: PublicKey,
        nonce: u64,
        allowance: Balance,
        receiver_id: AccountId,
        function_names: String,
    },
    DeleteKey { public_key: PublicKey },
    DeleteAccount { beneficiary_id: AccountId },
}

/// What an [`Action`] is, as a mathematical value.
pub enum ActionView {
    CreateAccount,
    DeployContract { code: Seq<u8> },
    FunctionCall { function_name: Seq<char>, arguments: Seq<u8>, amount: Balance, gas: Gas },
    Transfer { amount: Balance },
    Stake { amount: Balance, public_key: Seq<u8> },
    AddFullAccessKey { public_key: Seq<u8>, nonce: u64 },
    AddAccessKey {
        public_key: Seq<u8>,
        nonce: u64,
        allowance: Balance,
        receiver_id: Seq<char>,
        function_names: Seq<char>,
    },
    DeleteKey { public_key: Seq<u8> },
    DeleteAccount { beneficiary_id: Seq<char> },
}

impl View for Action {
    type V = ActionView;

    open spec fn view(&self) -> ActionView {
        match *self {
            Action::CreateAccount => ActionView::CreateAccount,
            Action::DeployContract { code } => ActionView::DeployContract { code: code@ },
            Action::FunctionCall { function_name, arguments, amount, gas } => {
                ActionView::FunctionCall {
                    function_name: function_name@,
                    arguments: arguments@,
                    amount,
                    gas,
                }
            },
            Action::Transfer { amount } => ActionView::Transfer { amount },
            Action::Stake { amount, public_key } => {
                ActionView::Stake { amount, public_key: public_key@ }
            },
            Action::AddFullAccessKey { public_key, nonce } => {
                ActionView::AddFullAccessKey { public_key: public_key@, nonce }
            },
            Action::AddAccessKey { public_key, nonce, allowance, receiver_id, function_names } => {
                ActionView::AddAccessKey {
                    public_key: public_key@,
                    nonce,
                    allowance,
                    receiver_id: receiver_id@,
                    function_names: function_names@,
                }
            },
            Action::DeleteKey { public_key } => ActionView::DeleteKey { public_key: public_key@ },
            Action::DeleteAccount { beneficiary_id } => {
                ActionView::DeleteAccount { beneficiary_id: beneficiary_id@ }
            },
        }
    }
}

/// The actions `actions`, each as its mathematical value.
pub open spec fn action_views(actions: Seq<Action>) -> Seq<ActionView> {
    actions.map_values(|a: Action| a@)
}

impl Action {
    /// A second copy of this action, with the same parameters.
    pub fn duplicate(&self) -> (copy: Action)
        ensures
            copy@ == self@,
    {
        match self {
            Action::CreateAccount => Action::CreateAccount,
            Action::DeployContract { code } => {
                Action::DeployContract { code: slice_to_vec(code.as_slice()) }
            },
            Action::FunctionCall { function_name, arguments, amount, gas } => {
                Action::FunctionCall {
                    function_name: function_name.clone(),
                    arguments: slice_to_vec(arguments.as_slice()),
                    amount: *amount,
                    gas: *gas,
                }
            },
            Action::Transfer { amount } => Action::Transfer { amount: *amount },
            Action::Stake { amount, public_key } => {
                Action::Stake { amount: *amount, public_key: slice_to_vec(public_key.as_slice()) }
            },
            Action::AddFullAccessKey { public_key, nonce } => {
                Action::AddFullAccessKey {
                    public_key: slice_to_vec(public_key.as_slice()),
                    nonce: *nonce,
                }
            },
            Action::AddAccessKey { public_key, nonce, allowance, receiver_id, function_names } => {
                Action::AddAccessKey {
                    public_key: slice_to_vec(public_key.as_slice()),
                    nonce: *nonce,
                    allowance: *allowance,
                    receiver_id: receiver_id.clone(),
                    function_names: function_names.clone(),
                }
            },
            Action::DeleteKey { public_key } => {
                Action::DeleteKey { public_key: slice_to_vec(public_key.as_slice()) }
            },
            Action::DeleteAccount { beneficiary_id } => {
                Action::DeleteAccount { beneficiary_id: beneficiary_id.clone() }
            },
        }
    }
}

} // verus!
