//! Handles on requested work, and what a call hands back.

use vstd::prelude::*;
use vstd::slice::slice_to_vec;
use std::collections::HashMap;
use crate::action::{AccountId, Action, ActionView, Balance, Gas, PublicKey};
use crate::scheduler::{
    appended, batch_of, is_batch, is_joint, PromiseIndex, RequestView, Scheduler,
};
use crate::schema::{unit_add_definitions, unit_declaration, unit_declaration_name};

verus! {

/// What a handle stands for: one batch of actions, or the join of others.
#[derive(Clone, Copy, Debug, PartialEq, Eq, Structural)]
pub enum PromiseSubtype {
    Single(PromiseIndex),
    Joint(PromiseIndex),
}

impl PromiseSubtype {
    /// The number of the handle, whichever kind it is of.
    pub open spec fn handle(self) -> PromiseIndex {
        match self {
            PromiseSubtype::Single(x) => x,
            PromiseSubtype::Joint(x) => x,
        }
    }

    /// The number of the handle, whichever kind it is of.
    pub fn index(&self) -> (handle: PromiseIndex)
        ensures
            handle == self.handle(),
    {
        match self {
            PromiseSubtype::Single(x) => *x,
            PromiseSubtype::Joint(x) => *x,
        }
    }
}

/// Why a request on a handle cannot be made.
#[derive(Clone, Copy, Debug, PartialEq, Eq, Structural)]
pub enum PromiseError {
    /// An action was to be added to a join, which has no batch of its own.
    JointAction,
}

impl PromiseError {
    /// The words with which a call that ran into this error is to abort.
    pub fn message(&self) -> (text: String)
        ensures
            text@ == "Cannot add action to a joint promise."@,
    {
        "Cannot add action to a joint promise.".to_owned()
    }
}

/// A handle on work that was requested: a batch of actions on one account, or
/// the join of two handles. It also says whether the outcome of that work is to
/// stand for the outcome of the call that requested it.
#[derive(Debug)]
pub struct Promise {
    index: PromiseSubtype,
    should_return: bool,
}

/// What a [`Promise`] is, as a mathematical value.
pub struct PromiseView {
    pub subtype: PromiseSubtype,
    pub should_return: bool,
}

impl View for Promise {
    type V = PromiseView;

    closed spec fn view(&self) -> PromiseView {
        PromiseView { subtype: self.index, should_return: self.should_return }
    }
}

impl PromiseView {
    /// The record `log` gave this handle out, and for the kind that it claims.
    pub open spec fn issued_by(self, log: Seq<RequestView>) -> bool {
        match self.subtype {
            PromiseSubtype::Single(handle) => is_batch(log, handle),
            PromiseSubtype::Joint(handle) => is_joint(log, handle),
        }
    }

    /// Actions can be added through this handle: it is on a batch of `log`.
    pub open spec fn appendable_in(self, log: Seq<RequestView>) -> bool {
        self.subtype is Single && self.issued_by(log)
    }

    /// The same handle, marked as the one whose outcome the call returns.
    pub open spec fn marked(self) -> PromiseView {
        PromiseView { subtype: self.subtype, should_return: true }
    }
}

/// A handle that a record gave out is still one that it gave out, and of the
/// same kind, after any further request.
pub proof fn lemma_issued_stays(log: Seq<RequestView>, request: RequestView, promise: PromiseView)
    requires
        promise.issued_by(log),
    ensures
        promise.issued_by(log.push(request)),
        promise.appendable_in(log) ==> promise.appendable_in(log.push(request)),
{
}

impl Promise {
    /// Opens a batch on `account_id` and gives the handle on it.
    pub fn new(host: &mut Scheduler, account_id: &AccountId) -> (promise: Promise)
        ensures
            final(host)@ == old(host)@.push(RequestView::Open { account_id: account_id@ }),
            promise@.subtype is Single,
            promise@.subtype.handle() == old(host)@.len(),
            !promise@.should_return,
            promise@.appendable_in(final(host)@),
            batch_of(final(host)@, promise@.subtype.handle()) == Seq::<ActionView>::empty(),
    {
        Promise { index: PromiseSubtype::Single(host.open(account_id)), should_return: false }
    }

    /// The kind and number of this handle.
    pub fn subtype(&self) -> (subtype: PromiseSubtype)
        ensures
            subtype == self@.subtype,
    {
        self.index
    }

    /// The number of this handle.
    pub fn index(&self) -> (handle: PromiseIndex)
        ensures
            handle == self@.subtype.handle(),
    {
        self.index.index()
    }

    /// Whether the outcome of this handle is to stand for the call's own.
    pub fn should_return(&self) -> (marked: bool)
        ensures
            marked == self@.should_return,
    {
        self.should_return
    }

    /// Whether `host` gave this handle out, and for the kind that it claims.
    pub fn is_issued_by(&self, host: &Scheduler) -> (yes: bool)
        ensures
            yes == self@.issued_by(host@),
    {
        match self.index {
            PromiseSubtype::Single(handle) => host.is_batch(handle),
            PromiseSubtype::Joint(handle) => host.is_joint(handle),
        }
    }

    /// The batch to which actions added through this handle go. A join has
    /// none.
    pub fn action_index(&self) -> (batch: Result<PromiseIndex, PromiseError>)
        ensures
            batch == match self@.subtype {
                PromiseSubtype::Single(handle) => Ok::<PromiseIndex, PromiseError>(handle),
                PromiseSubtype::Joint(_) => Err::<PromiseIndex, PromiseError>(
                    PromiseError::JointAction,
                ),
            },
    {
        match self.index {
            PromiseSubtype::Single(handle) => Ok(handle),
            PromiseSubtype::Joint(_) => Err(PromiseError::JointAction),
        }
    }

    fn add_action(self, host: &mut Scheduler, action: Action) -> (promise: Promise)
        requires
            self@.appendable_in(old(host)@),
        ensures
            promise == self,
            appended(old(host)@, final(host)@, self@.subtype.handle(), action@),
    {
        host.append(self.index.index(), action);
        self
    }

    /// Adds the creation of the account on which this batch acts.
    pub fn create_account(self, host: &mut Scheduler) -> (promise: Promise)
        requires
            self@.appendable_in(old(host)@),
        ensures
            promise == self,
            appended(
                old(host)@,
                final(host)@,
                self@.subtype.handle(),
                ActionView::CreateAccount,
            ),
    {
        self.add_action(host, Action::CreateAccount)
    }

    /// Adds the deployment of the contract `code` to the account on which this
    /// batch acts.
    pub fn deploy_contract(self, host: &mut Scheduler, code: &[u8]) -> (promise: Promise)
        requires
            self@.appendable_in(old(host)@),
        ensures
            promise == self,
            appended(
                old(host)@,
                final(host)@,
                self@.subtype.handle(),
                ActionView::DeployContract { code: code@ },
            ),
    {
        self.add_action(host, Action::DeployContract { code: slice_to_vec(code) })
    }

    /// Adds a call of the method `function_name` of the account on which this
    /// batch acts, with `arguments`, `amount` tokens attached and at most `gas`.
    pub fn function_call(
        self,
        host: &mut Scheduler,
        function_name: &str,
        arguments: &[u8],
        amount: Balance,
        gas: Gas,
    ) -> (promise: Promise)
        requires
            self@.appendable_in(old(host)@),
        ensures
            promise == self,
            appended(
                old(host)@,
                final(host)@,
                self@.subtype.handle(),
                ActionView::FunctionCall {
                    function_name: function_name@,
                    arguments: arguments@,
                    amount,
                    gas,
                },
            ),
    {
        self.add_action(
            host,
            Action::FunctionCall {
                function_name: function_name.to_owned(),
                arguments: slice_to_vec(arguments),
                amount,
                gas,
            },
        )
    }

    /// Adds a transfer of `amount` tokens to the account on which this batch
    /// acts.
    pub fn transfer(self, host: &mut Scheduler, amount: Balance) -> (promise: Promise)
        requires
            self@.appendable_in(old(host)@),
        ensures
            promise == self,
            appended(
                old(host)@,
                final(host)@,
                self@.subtype.handle(),
                ActionView::Transfer { amount },
            ),
    {
        self.add_action(host, Action::Transfer { amount })
    }

    /// Adds the staking of `amount` tokens of the account under `public_key`.
    pub fn stake(self, host: &mut Scheduler, amount: Balance, public_key: &PublicKey) -> (promise:
        Promise)
        requires
            self@.appendable_in(old(host)@),
        ensures
            promise == self,
            appended(
                old(host)@,
                final(host)@,
                self@.subtype.handle(),
                ActionView::Stake { amount, public_key: public_key@ },
            ),
    {
        self.add_action(
            host,
            Action::Stake { amount, public_key: slice_to_vec(public_key.as_slice()) },
        )
    }

    /// Adds a key with full access to the account, with nonce 0.
    pub fn add_full_access_key(self, host: &mut Scheduler, public_key: &PublicKey) -> (promise:
        Promise)
        requires
            self@.appendable_in(old(host)@),
        ensures
            promise == self,
            appended(
                old(host)@,
                final(host)@,
                self@.subtype.handle(),
                ActionView::AddFullAccessKey { public_key: public_key@, nonce: 0 },
            ),
    {
        self.add_full_access_key_with_nonce(host, public_key, 0)
    }

    /// Adds a key with full access to the account, with the nonce given.
    pub fn add_full_access_key_with_nonce(
        self,
        host: &mut Scheduler,
        public_key: &PublicKey,
        nonce: u64,
    ) -> (promise: Promise)
        requires
            self@.appendable_in(old(host)@),
        ensures
            promise == self,
            appended(
                old(host)@,
                final(host)@,
                self@.subtype.handle(),
                ActionView::AddFullAccessKey { public_key: public_key@, nonce },
            ),
    {
        self.add_action(
            host,
            Action::AddFullAccessKey { public_key: slice_to_vec(public_key.as_slice()), nonce },
        )
    }

    /// Adds a key that may only call the methods `function_names` (their names
    /// with commas between them) of `receiver_id`, spending at most `allowance`,
    /// with nonce 0.
    pub fn add_access_key(
        self,
        host: &mut Scheduler,
        public_key: &PublicKey,
        allowance: Balance,
        receiver_id: &AccountId,
        function_names: &str,
    ) -> (promise: Promise)
        requires
            self@.appendable_in(old(host)@),
        ensures
            promise == self,
            appended(
                old(host)@,
                final(host)@,
                self@.subtype.handle(),
                ActionView::AddAccessKey {
                    public_key: public_key@,
                    nonce: 0,
                    allowance,
                    receiver_id: receiver_id@,
                    function_names: function_names@,
                },
            ),
    {
        self.add_access_key_with_nonce(host, public_key, allowance, receiver_id, function_names, 0)
    }

    /// Adds a key that may only call the methods `function_names` (their names
    /// with commas between them) of `receiver_id`, spending at most `allowance`,
    /// with the nonce given.
    pub fn add_access_key_with_nonce(
        self,
        host: &mut Scheduler,
        public_key: &PublicKey,
        allowance: Balance,
        receiver_id: &AccountId,
        function_names: &str,
        nonce: u64,
    ) -> (promise: Promise)
        requires
            self@.appendable_in(old(host)@),
        ensures
            promise == self,
            appended(
                old(host)@,
                final(host)@,
                self@.subtype.handle(),
                ActionView::AddAccessKey {
                    public_key: public_key@,
                    nonce,
                    allowance,
                    receiver_id: receiver_id@,
                    function_names: function_names@,
                },
            ),
    {
        self.add_action(
            host,
            Action::AddAccessKey {
                public_key: slice_to_vec(public_key.as_slice()),
                nonce,
                allowance,
                receiver_id: receiver_id.clone(),
                function_names: function_names.to_owned(),
            },
        )
    }

    /// Adds the removal of the key `public_key` from the account.
    pub fn delete_key(self, host: &mut Scheduler, public_key: &PublicKey) -> (promise: Promise)
        requires
            self@.appendable_in(old(host)@),
        ensures
            promise == self,
            appended(
                old(host)@,
                final(host)@,
                self@.subtype.handle(),
                ActionView::DeleteKey { public_key: public_key@ },
            ),
    {
        self.add_action(host, Action::DeleteKey { public_key: slice_to_vec(public_key.as_slice()) })
    }

    /// Adds the deletion of the account, whose remaining tokens go to
    /// `beneficiary_id`.
    pub fn delete_account(self, host: &mut Scheduler, beneficiary_id: &AccountId) -> (promise:
        Promise)
        requires
            self@.appendable_in(old(host)@),
        ensures
            promise == self,
            appended(
                old(host)@,
                final(host)@,
                self@.subtype.handle(),
                ActionView::DeleteAccount { beneficiary_id: beneficiary_id@ },
            ),
    {
        self.add_action(host, Action::DeleteAccount { beneficiary_id: beneficiary_id.clone() })
    }

    /// Joins this handle with `other`: the handle given completes once both
    /// have. Nothing can be added through it, nor through the two any more.
    pub fn and(self, host: &mut Scheduler, other: Promise) -> (promise: Promise)
        requires
            self@.issued_by(old(host)@),
            other@.issued_by(old(host)@),
        ensures
            final(host)@ == old(host)@.push(
                RequestView::Join {
                    left: self@.subtype.handle(),
                    right: other@.subtype.handle(),
                },
            ),
            promise@.subtype is Joint,
            promise@.subtype.handle() == old(host)@.len(),
            promise@.subtype.handle() != self@.subtype.handle(),
            promise@.subtype.handle() != other@.subtype.handle(),
            !promise@.should_return,
            promise@.issued_by(final(host)@),
    {
        let joint = host.join(self.index.index(), other.index.index());
        Promise { index: PromiseSubtype::Joint(joint), should_return: false }
    }

    /// Opens a batch on `other` that is to run once the work of this handle has
    /// completed, and gives the handle on it.
    pub fn then(self, host: &mut Scheduler, other: &AccountId) -> (promise: Promise)
        requires
            self@.issued_by(old(host)@),
        ensures
            final(host)@ == old(host)@.push(
                RequestView::Chain { after: self@.subtype.handle(), account_id: other@ },
            ),
            promise@.subtype is Single,
            promise@.subtype.handle() == old(host)@.len(),
            promise@.subtype.handle() != self@.subtype.handle(),
            !promise@.should_return,
            promise@.appendable_in(final(host)@),
            batch_of(final(host)@, promise@.subtype.handle()) == Seq::<ActionView>::empty(),
    {
        let batch = host.chain(self.index.index(), other);
        Promise { index: PromiseSubtype::Single(batch), should_return: false }
    }

    /// The name of the shape under which a handle is described: that of the
    /// unit type, whatever the work behind the handle will yield.
    pub fn declaration() -> (name: String)
        ensures
            name@ == unit_declaration_name(),
    {
        unit_declaration()
    }

    /// Adds to `definitions` what the shape of a handle needs: nothing, as for
    /// the unit type.
    pub fn add_definitions_recursively(
        definitions: &mut HashMap<String, borsh::schema::Definition>,
    )
        ensures
            final(definitions)@ == old(definitions)@,
    {
        unit_add_definitions(definitions)
    }

    /// Marks this handle as the one whose outcome the call returns.
    pub fn as_return(self) -> (promise: Promise)
        ensures
            promise@ == self@.marked(),
    {
        Promise { index: self.index, should_return: true }
    }

    /// Writes this handle as a call's result: no byte at all, and the handle is
    /// marked as the one whose outcome the call returns.
    pub fn serialize(&mut self, writer: &mut Vec<u8>)
        ensures
            final(self)@ == old(self)@.marked(),
            final(writer)@ == old(writer)@,
    {
        self.should_return = true;
    }
}

/// What a call hands back: a value, or a handle on work whose outcome is to
/// stand for the call's own.
#[derive(Debug)]
pub enum PromiseOrValue<T> {
    Promise(Promise),
    Value(T),
}

impl<T> From<Promise> for PromiseOrValue<T> {
    fn from(promise: Promise) -> (wrapped: Self) {
        PromiseOrValue::Promise(promise)
    }
}

impl<T> vstd::std_specs::convert::FromSpecImpl<Promise> for PromiseOrValue<T> {
    open spec fn obeys_from_spec() -> bool {
        true
    }

    open spec fn from_spec(promise: Promise) -> Self {
        PromiseOrValue::Promise(promise)
    }
}

impl<T> PromiseOrValue<T> {
    /// The name of the shape under which what the call hands back is
    /// described: that of the value's type, `value_declaration`, also where a
    /// handle is handed back in its place.
    pub fn declaration(value_declaration: String) -> (name: String)
        ensures
            name == value_declaration,
    {
        value_declaration
    }

    /// Writes what the call hands back. `encoded` is the contained value as
    /// its codec writes it; it is written as it stands. A handle is written as
    /// [`Promise::serialize`] writes it, and `encoded` is not looked at.
    pub fn serialize(&mut self, encoded: &[u8], writer: &mut Vec<u8>)
        ensures
            match *old(self) {
                PromiseOrValue::Promise(promise) => {
                    &&& *final(self) matches PromiseOrValue::Promise(marked)
                    &&& marked@ == promise@.marked()
                    &&& final(writer)@ == old(writer)@
                },
                PromiseOrValue::Value(_) => {
                    &&& *final(self) == *old(self)
                    &&& final(writer)@ == old(writer)@ + encoded@
                },
            },
    {
        match self {
            PromiseOrValue::Promise(promise) => promise.serialize(writer),
            PromiseOrValue::Value(_) => {
                writer.extend_from_slice(encoded);
                assert(writer@ =~= old(writer)@ + encoded@);
            },
        }
    }
}

} // verus!
