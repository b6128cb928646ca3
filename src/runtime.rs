//! The runtime: one instance of each module, the aggregate call, and the
//! block executor.
use vstd::prelude::*;
use crate::balances;
use crate::proof_of_existence;
use crate::support::{Dispatch, DispatchError, DispatchResult};
use crate::system;
use crate::system::nonce_in;
use crate::types::{AccountId, Balance, Block, BlockNumber, Content, Extrinsic, Nonce};

verus! {

/// A call to any module of the runtime.
pub enum RuntimeCall {
    Balances(balances::Call<RuntimeConfig>),
    ProofOfExistence(proof_of_existence::Call<RuntimeConfig>),
}

/// The abstract state of a runtime: the union of its modules' states.
pub struct RuntimeState {
    pub block_number: nat,
    pub nonces: Map<Seq<char>, nat>,
    pub balances: Map<Seq<char>, nat>,
    pub claims: Map<Seq<char>, Seq<char>>,
}

/// The state after, and the outcome of, routing `call` to its module.
pub open spec fn dispatch_spec(s: RuntimeState, caller: Seq<char>, call: RuntimeCall) -> (
    RuntimeState,
    DispatchResult,
) {
    match call {
        RuntimeCall::Balances(c) => {
            let (b, r) = balances::dispatch_spec::<RuntimeConfig>(s.balances, caller, c);
            (RuntimeState { balances: b, ..s }, r)
        },
        RuntimeCall::ProofOfExistence(c) => {
            let (p, r) = proof_of_existence::dispatch_spec::<RuntimeConfig>(s.claims, caller, c);
            (RuntimeState { claims: p, ..s }, r)
        },
    }
}

/// The state after, and the outcome of, one extrinsic: the caller's nonce
/// advances whatever the call's outcome, then the call is dispatched. Where
/// the nonce cannot advance, nothing changes and the call is not dispatched.
pub open spec fn extrinsic_spec(s: RuntimeState, caller: Seq<char>, call: RuntimeCall) -> (
    RuntimeState,
    DispatchResult,
) {
    let n = nonce_in(s.nonces, caller);
    if n >= Nonce::MAX {
        (s, Err(DispatchError::NonceOverflow))
    } else {
        dispatch_spec(RuntimeState { nonces: s.nonces.insert(caller, n + 1), ..s }, caller, call)
    }
}

/// The state after a sequence of extrinsics, each applied in order, and the
/// outcome of each.
pub open spec fn extrinsics_spec(s: RuntimeState, exts: Seq<Extrinsic>) -> (
    RuntimeState,
    Seq<DispatchResult>,
)
    decreases exts.len(),
{
    if exts.len() == 0 {
        (s, Seq::empty())
    } else {
        let (s1, rs) = extrinsics_spec(s, exts.drop_last());
        let (s2, r) = extrinsic_spec(s1, exts.last().caller@, exts.last().call);
        (s2, rs.push(r))
    }
}

/// How many of `exts` were made by `who`.
pub open spec fn count_caller(exts: Seq<Extrinsic>, who: Seq<char>) -> nat
    decreases exts.len(),
{
    if exts.len() == 0 {
        0
    } else {
        count_caller(exts.drop_last(), who) + if exts.last().caller@ == who {
            1nat
        } else {
            0nat
        }
    }
}

proof fn lemma_extrinsics_advance_nonce(s: RuntimeState, exts: Seq<Extrinsic>, who: Seq<char>)
    requires
        nonce_in(s.nonces, who) + count_caller(exts, who) <= Nonce::MAX,
    ensures
        nonce_in(extrinsics_spec(s, exts).0.nonces, who) == nonce_in(s.nonces, who)
            + count_caller(exts, who),
    decreases exts.len(),
{
    if exts.len() > 0 {
        lemma_extrinsics_advance_nonce(s, exts.drop_last(), who);
    }
}

/// Executing a block's extrinsics advances an account's nonce by exactly the
/// number of them that it made, whatever their outcomes, where the nonce
/// does not reach its largest value before.
pub proof fn lemma_block_advances_nonce(s: RuntimeState, block: Block, who: Seq<char>)
    requires
        nonce_in(s.nonces, who) + count_caller(block.extrinsics@, who) <= Nonce::MAX,
    ensures
        nonce_in(extrinsics_spec(advance_block(s), block.extrinsics@).0.nonces, who) == nonce_in(
            s.nonces,
            who,
        ) + count_caller(block.extrinsics@, who),
{
    lemma_extrinsics_advance_nonce(advance_block(s), block.extrinsics@, who);
}

/// The state with its block number advanced by one.
pub open spec fn advance_block(s: RuntimeState) -> RuntimeState {
    RuntimeState { block_number: s.block_number + 1, ..s }
}

/// The configuration that binds the types of every module of the runtime.
pub struct RuntimeConfig;

impl system::Config for RuntimeConfig {
    type AccountId = AccountId;
    type BlockNumber = BlockNumber;
    type Nonce = Nonce;
}

impl balances::Config for RuntimeConfig {
    type Balance = Balance;
}

impl proof_of_existence::Config for RuntimeConfig {
    type Content = Content;
}

/// A runtime: one instance of each module, with no state shared between them.
pub struct Runtime {
    pub system: system::Pallet<RuntimeConfig>,
    pub balances: balances::Pallet<RuntimeConfig>,
    pub proof_of_existence: proof_of_existence::Pallet<RuntimeConfig>,
}

impl View for Runtime {
    type V = RuntimeState;

    open spec fn view(&self) -> RuntimeState {
        RuntimeState {
            block_number: self.system.spec_block_number(),
            nonces: self.system.nonces(),
            balances: self.balances@,
            claims: self.proof_of_existence@,
        }
    }
}

impl Runtime {
    /// Every module's internal invariant holds.
    pub open spec fn wf(&self) -> bool {
        &&& self.system.wf()
        &&& self.balances.wf()
        &&& self.proof_of_existence.wf()
    }

    /// A runtime with every module's state zeroed or empty.
    pub fn new() -> (r: Self)
        ensures
            r.wf(),
            r@.block_number == 0,
            r@.nonces == Map::<Seq<char>, nat>::empty(),
            r@.balances == Map::<Seq<char>, nat>::empty(),
            r@.claims == Map::<Seq<char>, Seq<char>>::empty(),
    {
        Runtime {
            system: system::Pallet::new(),
            balances: balances::Pallet::new(),
            proof_of_existence: proof_of_existence::Pallet::new(),
        }
    }

    /// Advances the caller's nonce, then dispatches the call.
    fn apply_extrinsic(&mut self, caller: AccountId, call: RuntimeCall) -> (r: DispatchResult)
        requires
            old(self).wf(),
        ensures
            final(self).wf(),
            (final(self)@, r) == extrinsic_spec(old(self)@, caller@, call),
    {
        if self.system.nonce(&caller) == Nonce::MAX {
            return Err(DispatchError::NonceOverflow);
        }
        self.system.inc_nonce(&caller);
        self.dispatch(caller, call)
    }

    /// Executes a block: advances the block number, checks it against the
    /// block's header, then applies each extrinsic in order. A failing
    /// extrinsic does not stop the block; its failure is in the returned
    /// outcomes, one per extrinsic. A block whose number does not follow the
    /// current one fails with `BlockNumberMismatch`, after the block number
    /// has advanced (it stays where it is at its largest value).
    pub fn execute_block(&mut self, block: Block) -> (r: Result<Vec<DispatchResult>, DispatchError>)
        requires
            old(self).wf(),
        ensures
            final(self).wf(),
            old(self)@.block_number == BlockNumber::MAX ==> {
                &&& r == Err::<Vec<DispatchResult>, DispatchError>(DispatchError::BlockNumberMismatch)
                &&& final(self)@ == old(self)@
            },
            old(self)@.block_number < BlockNumber::MAX && block.header.block_number != old(self)@.block_number + 1 ==> {
                &&& r == Err::<Vec<DispatchResult>, DispatchError>(DispatchError::BlockNumberMismatch)
                &&& final(self)@ == advance_block(old(self)@)
            },
            old(self)@.block_number < BlockNumber::MAX ==> final(self)@.block_number
                == old(self)@.block_number + 1,
            old(self)@.block_number < BlockNumber::MAX && block.header.block_number == old(self)@.block_number + 1 ==> {
                &&& r is Ok
                &&& (final(self)@, r->Ok_0@) == extrinsics_spec(advance_block(old(self)@), block.extrinsics@)
            },
    {
        if self.system.block_number() == BlockNumber::MAX {
            return Err(DispatchError::BlockNumberMismatch);
        }
        self.system.inc_block_number();
        if self.system.block_number() != block.header.block_number {
            return Err(DispatchError::BlockNumberMismatch);
        }
        let ghost start = self@;
        let ghost exts = block.extrinsics@;
        let mut outcomes: Vec<DispatchResult> = Vec::new();
        proof {
            assert(exts.take(0) =~= Seq::<Extrinsic>::empty());
        }
        for ext in iter: block.extrinsics.into_iter()
            invariant
                iter.seq() == exts,
                self.wf(),
                self@.block_number == start.block_number,
                (self@, outcomes@) == extrinsics_spec(start, exts.take(iter.index() as int)),
        {
            let ghost i = iter.index() as int;
            proof {
                assert(exts.take(i + 1).drop_last() =~= exts.take(i));
            }
            let r = self.apply_extrinsic(ext.caller, ext.call);
            outcomes.push(r);
        }
        proof {
            assert(exts.take(exts.len() as int) =~= exts);
        }
        Ok(outcomes)
    }
}

impl Dispatch for Runtime {
    type Caller = AccountId;

    type Call = RuntimeCall;

    open spec fn well_formed(&self) -> bool {
        self.wf()
    }

    fn dispatch(&mut self, caller: AccountId, runtime_call: RuntimeCall) -> (r: DispatchResult)
        ensures
            (final(self)@, r) == dispatch_spec(old(self)@, caller@, runtime_call),
    {
        match runtime_call {
            RuntimeCall::Balances(call) => self.balances.dispatch(caller, call),
            RuntimeCall::ProofOfExistence(call) => self.proof_of_existence.dispatch(caller, call),
        }
    }
}

} // verus!
