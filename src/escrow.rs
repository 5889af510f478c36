//! The escrow state machine: one claimable balance at a time, paid out to
//! exactly one claimant or forfeited by the administrator.
//!
//! An operation that moves funds is decided in two steps. `deposit` and
//! `claim` check every guard and return a [`Pending`] step: the transfer to
//! perform and the change of state that goes with it. The caller performs the
//! transfer and hands its outcome to `commit`, which applies the change only
//! when the transfer went through. A failed check or transfer leaves the state
//! as it was.

use vstd::prelude::*;

use crate::principal::{ids, is_member, Principal, TokenId};

verus! {

/// The largest number of claimants a deposit may name, unless configured otherwise.
pub const MAX_CLAIMANTS: usize = 20;

/// The revision of the escrow's logic.
pub const VERSION: u32 = 1;

/// The records that a deposit creates and a claim or a reset removes.
#[derive(Clone, Copy, Debug, PartialEq, Eq, Structural)]
pub enum DataKey {
    /// Marks that a balance is held.
    Init,
    /// The claimable balance itself.
    Balance,
}

/// A deposited amount with the conditions under which it may be claimed.
#[derive(Clone, Debug, PartialEq, Eq)]
pub struct ClaimableBalance {
    pub token: TokenId,
    pub amount: i128,
    pub claimants: Vec<Principal>,
    pub pumping_level_target: i128,
}

pub struct BalanceView {
    pub token: Seq<u8>,
    pub amount: i128,
    pub claimants: Seq<Seq<u8>>,
    pub pumping_level_target: i128,
}

impl View for ClaimableBalance {
    type V = BalanceView;

    open spec fn view(&self) -> BalanceView {
        BalanceView {
            token: self.token@,
            amount: self.amount,
            claimants: ids(self.claimants@),
            pumping_level_target: self.pumping_level_target,
        }
    }
}

/// Why an operation was refused. A refused operation changes nothing.
#[derive(Clone, Copy, Debug, PartialEq, Eq, Structural)]
pub enum EscrowError {
    /// The principal did not authorize this exact call.
    AuthorizationFailure,
    /// A balance is already held.
    AlreadyInitialized,
    /// No balance is held.
    NotInitialized,
    /// The deposit names more claimants than allowed.
    ClaimantLimitExceeded,
    /// The principal is not among the balance's claimants.
    UnauthorizedClaimant,
    /// The presented level is below the balance's target.
    ThresholdNotMet,
    /// The token service rejected the transfer.
    TransferFailure,
    /// No administrator has been recorded.
    AdminNotSet,
}

/// The direction of a transfer, seen from the escrow's custodial address.
#[derive(Clone, Debug, PartialEq, Eq)]
pub enum Flow {
    IntoCustody { from: Principal },
    OutOfCustody { to: Principal },
}

pub enum FlowView {
    IntoCustody(Seq<u8>),
    OutOfCustody(Seq<u8>),
}

impl View for Flow {
    type V = FlowView;

    open spec fn view(&self) -> FlowView {
        match self {
            Flow::IntoCustody { from } => FlowView::IntoCustody(from@),
            Flow::OutOfCustody { to } => FlowView::OutOfCustody(to@),
        }
    }
}

/// A movement of `amount` of `token` that the token service is asked to make.
#[derive(Clone, Debug, PartialEq, Eq)]
pub struct Transfer {
    pub token: TokenId,
    pub amount: i128,
    pub flow: Flow,
}

pub struct TransferView {
    pub token: Seq<u8>,
    pub amount: i128,
    pub flow: FlowView,
}

impl View for Transfer {
    type V = TransferView;

    open spec fn view(&self) -> TransferView {
        TransferView { token: self.token@, amount: self.amount, flow: self.flow@ }
    }
}

/// The change of state that a successful transfer makes.
#[derive(Clone, Debug, PartialEq, Eq)]
pub enum Effect {
    Store(ClaimableBalance),
    Clear,
}

pub enum EffectView {
    Store(BalanceView),
    Clear,
}

impl View for Effect {
    type V = EffectView;

    open spec fn view(&self) -> EffectView {
        match self {
            Effect::Store(b) => EffectView::Store(b@),
            Effect::Clear => EffectView::Clear,
        }
    }
}

/// An operation that passed its checks and waits for its transfer.
#[derive(Clone, Debug, PartialEq, Eq)]
pub struct Pending {
    pub transfer: Transfer,
    pub effect: Effect,
}

pub struct PendingView {
    pub transfer: TransferView,
    pub effect: EffectView,
}

impl View for Pending {
    type V = PendingView;

    open spec fn view(&self) -> PendingView {
        PendingView { transfer: self.transfer@, effect: self.effect@ }
    }
}

/// The escrow's state: the administrator, the balance held if any, and the
/// configured limit on claimants.
pub struct EscrowState {
    pub admin: Option<Seq<u8>>,
    pub balance: Option<BalanceView>,
    pub max_claimants: nat,
}

pub open spec fn spec_deposit(
    s: EscrowState,
    from: Seq<u8>,
    from_authorized: bool,
    token: Seq<u8>,
    amount: i128,
    claimants: Seq<Seq<u8>>,
    pumping_level_target: i128,
) -> Result<PendingView, EscrowError> {
    if !from_authorized {
        Err(EscrowError::AuthorizationFailure)
    } else if s.balance is Some {
        Err(EscrowError::AlreadyInitialized)
    } else if claimants.len() > s.max_claimants {
        Err(EscrowError::ClaimantLimitExceeded)
    } else {
        Ok(
            PendingView {
                transfer: TransferView { token, amount, flow: FlowView::IntoCustody(from) },
                effect: EffectView::Store(
                    BalanceView { token, amount, claimants, pumping_level_target },
                ),
            },
        )
    }
}

pub open spec fn spec_claim(
    s: EscrowState,
    claimant: Seq<u8>,
    claimant_authorized: bool,
    pumping_level: i128,
) -> Result<PendingView, EscrowError> {
    if !claimant_authorized {
        Err(EscrowError::AuthorizationFailure)
    } else {
        match s.balance {
            None => Err(EscrowError::NotInitialized),
            Some(b) => if !b.claimants.contains(claimant) {
                Err(EscrowError::UnauthorizedClaimant)
            } else if pumping_level < b.pumping_level_target {
                Err(EscrowError::ThresholdNotMet)
            } else {
                Ok(
                    PendingView {
                        transfer: TransferView {
                            token: b.token,
                            amount: b.amount,
                            flow: FlowView::OutOfCustody(claimant),
                        },
                        effect: EffectView::Clear,
                    },
                )
            },
        }
    }
}

pub open spec fn spec_commit(s: EscrowState, p: PendingView, transfer_succeeded: bool) -> Result<
    EscrowState,
    EscrowError,
> {
    if !transfer_succeeded {
        Err(EscrowError::TransferFailure)
    } else {
        match p.effect {
            EffectView::Store(b) => if s.balance is Some {
                Err(EscrowError::AlreadyInitialized)
            } else if b.claimants.len() > s.max_claimants {
                Err(EscrowError::ClaimantLimitExceeded)
            } else {
                Ok(EscrowState { balance: Some(b), ..s })
            },
            EffectView::Clear => if s.balance is None {
                Err(EscrowError::NotInitialized)
            } else {
                Ok(EscrowState { balance: None, ..s })
            },
        }
    }
}

/// Whether `caller`, with the given outcome of its authorization, acts as the administrator.
pub open spec fn spec_admin_check(s: EscrowState, caller: Seq<u8>, caller_authorized: bool) -> Result<
    (),
    EscrowError,
> {
    match s.admin {
        None => Err(EscrowError::AdminNotSet),
        Some(a) => if !caller_authorized || a != caller {
            Err(EscrowError::AuthorizationFailure)
        } else {
            Ok(())
        },
    }
}

pub open spec fn spec_reset(s: EscrowState, caller: Seq<u8>, caller_authorized: bool) -> Result<
    EscrowState,
    EscrowError,
> {
    match spec_admin_check(s, caller, caller_authorized) {
        Err(e) => Err(e),
        Ok(()) => Ok(EscrowState { balance: None, ..s }),
    }
}

/// The escrow: the administrator record, the marker of a held balance, the
/// balance, and the limit on claimants.
pub struct ClaimableBalanceContract {
    admin: Option<Principal>,
    initialized: bool,
    balance: Option<ClaimableBalance>,
    max_claimants: usize,
}

impl View for ClaimableBalanceContract {
    type V = EscrowState;

    closed spec fn view(&self) -> EscrowState {
        EscrowState {
            admin: match self.admin {
                Some(a) => Some(a@),
                None => None,
            },
            balance: match self.balance {
                Some(b) => Some(b@),
                None => None,
            },
            max_claimants: self.max_claimants as nat,
        }
    }
}

impl ClaimableBalanceContract {
    /// The marker of a held balance agrees with the balance, and a held
    /// balance names no more claimants than allowed.
    pub closed spec fn wf(&self) -> bool {
        &&& self.initialized == self.balance is Some
        &&& self.balance matches Some(b) ==> b.claimants.len() <= self.max_claimants
    }

    /// An escrow with no administrator and no balance, allowing deposits with
    /// up to `max_claimants` claimants.
    pub fn new(max_claimants: usize) -> (r: ClaimableBalanceContract)
        ensures
            r.wf(),
            r@ == (EscrowState { admin: None, balance: None, max_claimants: max_claimants as nat }),
    {
        ClaimableBalanceContract { admin: None, initialized: false, balance: None, max_claimants }
    }

    /// Rebuilds an escrow from its stored records: the administrator and the
    /// balance held, if any. A balance naming more claimants than
    /// `max_claimants` is refused.
    pub fn from_records(
        max_claimants: usize,
        admin: Option<Principal>,
        balance: Option<ClaimableBalance>,
    ) -> (r: Result<ClaimableBalanceContract, EscrowError>)
        ensures
            match r {
                Ok(c) => c.wf() && c@ == (EscrowState {
                    admin: match admin {
                        Some(a) => Some(a@),
                        None => None,
                    },
                    balance: match balance {
                        Some(b) => Some(b@),
                        None => None,
                    },
                    max_claimants: max_claimants as nat,
                }),
                Err(e) => e == EscrowError::ClaimantLimitExceeded && (balance matches Some(b)
                    && b.claimants.len() > max_claimants),
            },
    {
        let initialized = match &balance {
            Some(b) => {
                if b.claimants.len() > max_claimants {
                    return Err(EscrowError::ClaimantLimitExceeded);
                }
                true
            },
            None => false,
        };
        Ok(ClaimableBalanceContract { admin, initialized, balance, max_claimants })
    }

    /// Records `admin` as the administrator, replacing any earlier one.
    pub fn init(&mut self, admin: Principal)
        requires
            old(self).wf(),
        ensures
            final(self).wf(),
            final(self)@ == (EscrowState { admin: Some(admin@), ..old(self)@ }),
    {
        self.admin = Some(admin);
    }

    pub fn version() -> (r: u32)
        ensures
            r == VERSION,
    {
        VERSION
    }

    /// Whether the record under `key` is present.
    pub fn has(&self, key: DataKey) -> (r: bool)
        requires
            self.wf(),
        ensures
            r == self@.balance is Some,
    {
        match key {
            DataKey::Init => self.initialized,
            DataKey::Balance => self.balance.is_some(),
        }
    }

    /// Whether a balance is held.
    pub fn is_initialized(&self) -> (r: bool)
        requires
            self.wf(),
        ensures
            r == self@.balance is Some,
    {
        self.has(DataKey::Init)
    }

    /// Checks a deposit of `amount` of `token` by `from`, claimable by any of
    /// `claimants` once a level of at least `pumping_level_target` is presented.
    /// `from_authorized` is whether `from` authorized this exact call. On
    /// success the step moves the amount from `from` into custody and stores
    /// the balance.
    pub fn deposit(
        &self,
        from: &Principal,
        from_authorized: bool,
        token: TokenId,
        amount: i128,
        claimants: Vec<Principal>,
        pumping_level_target: i128,
    ) -> (r: Result<Pending, EscrowError>)
        requires
            self.wf(),
        ensures
            match r {
                Ok(p) => spec_deposit(
                    self@,
                    from@,
                    from_authorized,
                    token@,
                    amount,
                    ids(claimants@),
                    pumping_level_target,
                ) == Ok::<PendingView, EscrowError>(p@),
                Err(e) => spec_deposit(
                    self@,
                    from@,
                    from_authorized,
                    token@,
                    amount,
                    ids(claimants@),
                    pumping_level_target,
                ) == Err::<PendingView, EscrowError>(e),
            },
    {
        if !from_authorized {
            return Err(EscrowError::AuthorizationFailure);
        }
        if self.is_initialized() {
            return Err(EscrowError::AlreadyInitialized);
        }
        if claimants.len() > self.max_claimants {
            return Err(EscrowError::ClaimantLimitExceeded);
        }
        let transfer = Transfer {
            token: token.duplicate(),
            amount,
            flow: Flow::IntoCustody { from: from.duplicate() },
        };
        let balance = ClaimableBalance { token, amount, claimants, pumping_level_target };
        Ok(Pending { transfer, effect: Effect::Store(balance) })
    }

    /// Checks a claim by `claimant` presenting `pumping_level`.
    /// `claimant_authorized` is whether `claimant` authorized this exact call.
    /// On success the step pays the whole stored amount out of custody to
    /// `claimant` and removes the balance.
    pub fn claim(&self, claimant: &Principal, claimant_authorized: bool, pumping_level: i128) -> (r:
        Result<Pending, EscrowError>)
        requires
            self.wf(),
        ensures
            match r {
                Ok(p) => spec_claim(self@, claimant@, claimant_authorized, pumping_level) == Ok::<
                    PendingView,
                    EscrowError,
                >(p@),
                Err(e) => spec_claim(self@, claimant@, claimant_authorized, pumping_level) == Err::<
                    PendingView,
                    EscrowError,
                >(e),
            },
    {
        if !claimant_authorized {
            return Err(EscrowError::AuthorizationFailure);
        }
        if !self.is_initialized() {
            return Err(EscrowError::NotInitialized);
        }
        let b = match &self.balance {
            Some(b) => b,
            None => {
                return Err(EscrowError::NotInitialized);
            },
        };
        if !is_member(&b.claimants, claimant) {
            return Err(EscrowError::UnauthorizedClaimant);
        }
        if pumping_level < b.pumping_level_target {
            return Err(EscrowError::ThresholdNotMet);
        }
        let transfer = Transfer {
            token: b.token.duplicate(),
            amount: b.amount,
            flow: Flow::OutOfCustody { to: claimant.duplicate() },
        };
        Ok(Pending { transfer, effect: Effect::Clear })
    }

    /// Applies a checked step once its transfer has been attempted:
    /// `transfer_succeeded` is whether the token service made the transfer.
    /// The state changes only when the transfer went through and the step
    /// still fits the state.
    pub fn commit(&mut self, pending: Pending, transfer_succeeded: bool) -> (r: Result<
        (),
        EscrowError,
    >)
        requires
            old(self).wf(),
        ensures
            final(self).wf(),
            match r {
                Ok(()) => spec_commit(old(self)@, pending@, transfer_succeeded) == Ok::<
                    EscrowState,
                    EscrowError,
                >(final(self)@),
                Err(e) => spec_commit(old(self)@, pending@, transfer_succeeded) == Err::<
                    EscrowState,
                    EscrowError,
                >(e) && final(self)@ == old(self)@,
            },
    {
        if !transfer_succeeded {
            return Err(EscrowError::TransferFailure);
        }
        match pending.effect {
            Effect::Store(b) => {
                if self.is_initialized() {
                    return Err(EscrowError::AlreadyInitialized);
                }
                if b.claimants.len() > self.max_claimants {
                    return Err(EscrowError::ClaimantLimitExceeded);
                }
                self.balance = Some(b);
                self.initialized = true;
                Ok(())
            },
            Effect::Clear => {
                if !self.is_initialized() {
                    return Err(EscrowError::NotInitialized);
                }
                self.clear_balance();
                Ok(())
            },
        }
    }

    /// Forfeits the balance held, if any, without moving funds. Only the
    /// administrator may do so: `caller_authorized` is whether `caller`
    /// authorized this exact call.
    pub fn reset(&mut self, caller: &Principal, caller_authorized: bool) -> (r: Result<
        (),
        EscrowError,
    >)
        requires
            old(self).wf(),
        ensures
            final(self).wf(),
            match r {
                Ok(()) => spec_reset(old(self)@, caller@, caller_authorized) == Ok::<
                    EscrowState,
                    EscrowError,
                >(final(self)@),
                Err(e) => spec_reset(old(self)@, caller@, caller_authorized) == Err::<
                    EscrowState,
                    EscrowError,
                >(e) && final(self)@ == old(self)@,
            },
    {
        match self.check_admin(caller, caller_authorized) {
            Err(e) => Err(e),
            Ok(()) => {
                self.clear_balance();
                Ok(())
            },
        }
    }

    /// Checks a request to replace the escrow's code with the code whose hash
    /// is `new_wasm_hash`. Only the administrator may ask; on success the hash
    /// is handed back for the host to deploy.
    pub fn upgrade(&self, caller: &Principal, caller_authorized: bool, new_wasm_hash: [u8; 32]) -> (r:
        Result<[u8; 32], EscrowError>)
        ensures
            match r {
                Ok(h) => spec_admin_check(self@, caller@, caller_authorized) is Ok && h
                    == new_wasm_hash,
                Err(e) => spec_admin_check(self@, caller@, caller_authorized) == Err::<
                    (),
                    EscrowError,
                >(e),
            },
    {
        match self.check_admin(caller, caller_authorized) {
            Err(e) => Err(e),
            Ok(()) => Ok(new_wasm_hash),
        }
    }

    fn check_admin(&self, caller: &Principal, caller_authorized: bool) -> (r: Result<
        (),
        EscrowError,
    >)
        ensures
            r == spec_admin_check(self@, caller@, caller_authorized),
    {
        match &self.admin {
            None => Err(EscrowError::AdminNotSet),
            Some(a) => {
                if !caller_authorized || !a.same_as(caller) {
                    Err(EscrowError::AuthorizationFailure)
                } else {
                    Ok(())
                }
            },
        }
    }

    /// Removes the balance and its marker.
    fn clear_balance(&mut self)
        ensures
            final(self).wf(),
            final(self)@ == (EscrowState { balance: None, ..old(self)@ }),
    {
        self.balance = None;
        self.initialized = false;
    }

    /// The recorded administrator, if any.
    pub fn admin(&self) -> (r: Option<&Principal>)
        ensures
            match r {
                Some(a) => self@.admin == Some(a@),
                None => self@.admin is None,
            },
    {
        self.admin.as_ref()
    }

    /// The balance held, if any.
    pub fn balance(&self) -> (r: Option<&ClaimableBalance>)
        ensures
            match r {
                Some(b) => self@.balance == Some(b@),
                None => self@.balance is None,
            },
    {
        self.balance.as_ref()
    }

    /// The configured limit on claimants.
    pub fn max_claimants(&self) -> (r: usize)
        ensures
            r == self@.max_claimants,
    {
        self.max_claimants
    }
}

} // verus!
