//! The registry as a whole: the aggregate together with every identity record,
//! and what holds of the two jointly.

use vstd::prelude::*;
use crate::admin::{initial_state, initialize, Initialize};
use crate::error::ErrorCode;
use crate::fee::{fee, BASE_FEE, MAX_FEE};
use crate::handle::{check_handle_format, check_vanity_suffix, is_valid_handle};
use crate::identity::{
    issue_error, issue_identity_at, issued_identity, reissue_error, reissue_identity,
    update_agent_status, update_status_error, updated_total, IssueIdentity, ReissueIdentity,
    UpdateAgentStatus,
};
use crate::pubkey::{base58_text, Pubkey};
use crate::reputation::{
    action_payment, process_recommendation, process_report, recommended, reported,
    total_following, ActionAgent, RECOMMEND_FEE, REPORT_FEE,
};
use crate::state::{
    AgentIdentity, AgentIdentityView, GlobalState, GlobalStateView, Mint, TokenAccount, MAX_TIER,
    MIN_TIER,
};
use crate::transfer::TokenTransfer;

verus! {

/// The aggregate and the identity records, in the order of their creation.
#[derive(Clone, Debug, PartialEq, Eq)]
pub struct Registry {
    pub global_state: GlobalState,
    pub identities: Vec<AgentIdentity>,
}

/// The value of a `Registry`.
pub struct RegistryView {
    pub state: GlobalStateView,
    pub identities: Seq<AgentIdentityView>,
}

/// Why the registry as a whole refuses an operation.
#[derive(Clone, Copy, Debug, PartialEq, Eq, Structural)]
pub enum RegistryError {
    /// The operation's own rules refuse it.
    Rejected(ErrorCode),
    /// A record exists under the handle already.
    DuplicateHandle,
    /// No active record exists under the handle.
    UnknownHandle,
}

/// A status update as a value: whose record, and what it is set to.
pub struct StatusUpdate {
    pub handle: Seq<char>,
    pub new_score: u64,
    pub tier: u8,
    pub new_uri: Option<Seq<char>>,
}

/// A change of one record's score, as a value.
pub enum ScoreMutation {
    /// An admin sets score and tier.
    Status(StatusUpdate),
    /// A peer recommends the record of a handle.
    Recommendation { handle: Seq<char> },
    /// A peer reports the record of a handle.
    Report { handle: Seq<char> },
}

impl ScoreMutation {
    /// The handle whose active record the change is for.
    pub open spec fn target(self) -> Seq<char> {
        match self {
            ScoreMutation::Status(update) => update.handle,
            ScoreMutation::Recommendation { handle } => handle,
            ScoreMutation::Report { handle } => handle,
        }
    }
}

/// The sum of the scores of the active records.
pub open spec fn active_score_sum(identities: Seq<AgentIdentityView>) -> nat
    decreases identities.len(),
{
    if identities.len() == 0 {
        0
    } else {
        active_score_sum(identities.drop_last()) + counted_score(identities.last())
    }
}

/// What a record adds to the sum of active scores.
pub open spec fn counted_score(identity: AgentIdentityView) -> nat {
    if identity.is_active {
        identity.score as nat
    } else {
        0
    }
}

impl RegistryView {
    /// Whether any record, active or not, goes by `handle`.
    pub open spec fn has_handle(self, handle: Seq<char>) -> bool {
        exists|i: int| 0 <= i < self.identities.len() && self.identities[i].handle == handle
    }

    /// Whether the record at `i` is the active one of `handle`.
    pub open spec fn is_active_at(self, handle: Seq<char>, i: int) -> bool {
        0 <= i < self.identities.len() && self.identities[i].handle == handle
            && self.identities[i].is_active
    }

    /// Where the active record of `handle` is, if it has one.
    pub open spec fn active_index(self, handle: Seq<char>) -> Option<int> {
        if exists|i: int| self.is_active_at(handle, i) {
            Some(choose|i: int| self.is_active_at(handle, i))
        } else {
            None
        }
    }

    /// The registry is in order: so is its admin list, and no handle has two
    /// active records.
    pub open spec fn wf(self) -> bool {
        &&& self.state.wf()
        &&& forall|i: int, j: int|
            0 <= i < j < self.identities.len() && self.identities[i].handle
                == self.identities[j].handle ==> !(self.identities[i].is_active
                && self.identities[j].is_active)
    }

    /// The running total is the sum of the scores of the active records.
    pub open spec fn score_consistent(self) -> bool {
        self.state.total_score == active_score_sum(self.identities)
    }

    /// The registry after a status update that was granted: the active record
    /// of the handle has its new score and tier, and its new metadata pointer
    /// where one was given, and the running total has followed the score.
    pub open spec fn after_status_update(self, update: StatusUpdate) -> RegistryView {
        let i = self.active_index(update.handle)->0;
        let target = self.identities[i];
        RegistryView {
            state: GlobalStateView {
                total_score: updated_total(
                    self.state.total_score,
                    target.score,
                    update.new_score,
                ) as u64,
                ..self.state
            },
            identities: self.identities.update(
                i,
                AgentIdentityView {
                    score: update.new_score,
                    tier: update.tier,
                    uri: match update.new_uri {
                        Some(uri) => uri,
                        None => target.uri,
                    },
                    ..target
                },
            ),
        }
    }

    /// The registry after a recommendation of the active record of `handle`.
    pub open spec fn after_recommendation(self, handle: Seq<char>) -> RegistryView {
        let i = self.active_index(handle)->0;
        let target = self.identities[i];
        RegistryView {
            state: total_following(self.state, target, recommended(target).score),
            identities: self.identities.update(i, recommended(target)),
        }
    }

    /// The registry after a report of the active record of `handle`.
    pub open spec fn after_report(self, handle: Seq<char>) -> RegistryView {
        let i = self.active_index(handle)->0;
        let target = self.identities[i];
        RegistryView {
            state: total_following(self.state, target, reported(target).score),
            identities: self.identities.update(i, reported(target)),
        }
    }

    /// The registry after one change of a score that was granted.
    pub open spec fn after_score_mutation(self, mutation: ScoreMutation) -> RegistryView {
        match mutation {
            ScoreMutation::Status(update) => self.after_status_update(update),
            ScoreMutation::Recommendation { handle } => self.after_recommendation(handle),
            ScoreMutation::Report { handle } => self.after_report(handle),
        }
    }

    /// The registry after a run of changes of scores, each of them granted.
    pub open spec fn after_score_mutations(self, mutations: Seq<ScoreMutation>) -> RegistryView
        decreases mutations.len(),
    {
        if mutations.len() == 0 {
            self
        } else {
            self.after_score_mutations(mutations.drop_last()).after_score_mutation(
                mutations.last(),
            )
        }
    }

    /// Whether every change of a run finds an active record under its handle
    /// and leaves a sum of active scores that fits in a `u64`.
    pub open spec fn admits(self, mutations: Seq<ScoreMutation>) -> bool
        decreases mutations.len(),
    {
        mutations.len() == 0 || {
            let reached = self.after_score_mutations(mutations.drop_last());
            &&& self.admits(mutations.drop_last())
            &&& reached.active_index(mutations.last().target()) is Some
            &&& active_score_sum(reached.after_score_mutation(mutations.last()).identities)
                <= u64::MAX
        }
    }

    /// Why an issuance is refused, if it is: by the operation's own rules
    /// first, then because the handle is taken.
    pub open spec fn issue_error(self, mint_address: Seq<char>, handle: Seq<char>) -> Option<
        RegistryError,
    > {
        match issue_error(mint_address, handle) {
            Some(e) => Some(RegistryError::Rejected(e)),
            None => if self.has_handle(handle) {
                Some(RegistryError::DuplicateHandle)
            } else {
                None
            },
        }
    }

    /// Why a status update is refused, if it is. The signer's authority comes
    /// first, then the record, then the tier.
    pub open spec fn update_status_error(self, signer: Pubkey, handle: Seq<char>, tier: u8) -> Option<
        RegistryError,
    > {
        if !self.state.is_admin(signer) {
            Some(RegistryError::Rejected(ErrorCode::Unauthorized))
        } else if self.active_index(handle) is None {
            Some(RegistryError::UnknownHandle)
        } else {
            match update_status_error(self.state, signer, tier) {
                Some(e) => Some(RegistryError::Rejected(e)),
                None => None,
            }
        }
    }

    /// Why a reissuance is refused, if it is: for want of an active record
    /// first, then by the operation's own rules.
    pub open spec fn reissue_error(self, signer: Pubkey, handle: Seq<char>) -> Option<
        RegistryError,
    > {
        match self.active_index(handle) {
            None => Some(RegistryError::UnknownHandle),
            Some(i) => match reissue_error(self.identities[i], signer) {
                Some(e) => Some(RegistryError::Rejected(e)),
                None => None,
            },
        }
    }
}

impl View for Registry {
    type V = RegistryView;

    open spec fn view(&self) -> RegistryView {
        RegistryView {
            state: self.global_state@,
            identities: self.identities@.map_values(|identity: AgentIdentity| identity@),
        }
    }
}

/// Adding a record adds what it counts for.
pub proof fn lemma_sum_push(identities: Seq<AgentIdentityView>, identity: AgentIdentityView)
    ensures
        active_score_sum(identities.push(identity)) == active_score_sum(identities)
            + counted_score(identity),
{
    assert(identities.push(identity).drop_last() =~= identities);
}

/// Replacing a record replaces what it counts for.
pub proof fn lemma_sum_update(
    identities: Seq<AgentIdentityView>,
    i: int,
    identity: AgentIdentityView,
)
    requires
        0 <= i < identities.len(),
    ensures
        active_score_sum(identities.update(i, identity)) == active_score_sum(identities)
            - counted_score(identities[i]) + counted_score(identity),
        active_score_sum(identities) >= counted_score(identities[i]),
    decreases identities.len(),
{
    let last = identities.len() - 1;
    if i == last {
        assert(identities.update(i, identity).drop_last() =~= identities.drop_last());
    } else {
        lemma_sum_update(identities.drop_last(), i, identity);
        assert(identities.update(i, identity).drop_last() =~= identities.drop_last().update(
            i,
            identity,
        ));
    }
}

/// One change of a score, be it a status update, a recommendation or a report,
/// keeps the running total equal to the sum of the active scores, as long as
/// that sum fits in a `u64`.
pub proof fn lemma_score_mutation_keeps_total(registry: RegistryView, mutation: ScoreMutation)
    requires
        registry.score_consistent(),
        registry.active_index(mutation.target()) is Some,
        active_score_sum(registry.after_score_mutation(mutation).identities) <= u64::MAX,
    ensures
        registry.after_score_mutation(mutation).score_consistent(),
{
    let i = registry.active_index(mutation.target())->0;
    assert(registry.is_active_at(mutation.target(), i));
    lemma_sum_update(registry.identities, i, registry.after_score_mutation(mutation).identities[i]);
}

/// Through any run of status updates, recommendations and reports the running
/// total equals the sum of the active scores after each of them, as long as
/// each finds its record and the sum fits in a `u64`.
pub proof fn lemma_score_mutations_keep_total(registry: RegistryView, mutations: Seq<ScoreMutation>)
    requires
        registry.score_consistent(),
        registry.admits(mutations),
    ensures
        forall|k: int|
            0 <= k <= mutations.len() ==> #[trigger] registry.after_score_mutations(
                mutations.take(k),
            ).score_consistent(),
    decreases mutations.len(),
{
    if mutations.len() == 0 {
        assert forall|k: int|
            0 <= k <= mutations.len() implies #[trigger] registry.after_score_mutations(
            mutations.take(k),
        ).score_consistent() by {
            assert(mutations.take(k) =~= mutations);
        }
    } else {
        let earlier = mutations.drop_last();
        lemma_score_mutations_keep_total(registry, earlier);
        assert(earlier.take(earlier.len() as int) =~= earlier);
        lemma_score_mutation_keeps_total(
            registry.after_score_mutations(earlier),
            mutations.last(),
        );
        assert forall|k: int|
            0 <= k <= mutations.len() implies #[trigger] registry.after_score_mutations(
            mutations.take(k),
        ).score_consistent() by {
            if k == mutations.len() {
                assert(mutations.take(k) =~= mutations);
            } else {
                assert(mutations.take(k) =~= earlier.take(k));
            }
        }
    }
}

impl Registry {
    /// Sets the registry up, without any record.
    pub fn new(ctx: Initialize, reward_mint: Pubkey) -> (registry: Registry)
        ensures
            registry@.state == initial_state(ctx, reward_mint),
            registry@.identities.len() == 0,
            registry@.wf(),
            registry@.score_consistent(),
    {
        Registry { global_state: initialize(ctx, reward_mint), identities: Vec::new() }
    }

    /// Whether any record, active or not, goes by `handle`.
    pub fn has_handle(&self, handle: &String) -> (found: bool)
        ensures
            found == self@.has_handle(handle@),
    {
        let mut i: usize = 0;
        while i < self.identities.len()
            invariant
                i <= self.identities.len(),
                forall|j: int| 0 <= j < i ==> self@.identities[j].handle != handle@,
            decreases self.identities.len() - i,
        {
            if self.identities[i].handle == *handle {
                assert(self@.identities[i as int].handle == handle@);
                return true;
            }
            i += 1;
        }
        false
    }

    /// Where the active record of `handle` is kept, if it has one.
    pub fn find_active(&self, handle: &String) -> (found: Option<usize>)
        requires
            self@.wf(),
        ensures
            match found {
                Some(i) => self@.active_index(handle@) == Some(i as int) && self@.is_active_at(
                    handle@,
                    i as int,
                ),
                None => self@.active_index(handle@) is None,
            },
    {
        let mut i: usize = 0;
        while i < self.identities.len()
            invariant
                i <= self.identities.len(),
                self@.wf(),
                forall|j: int| 0 <= j < i ==> !self@.is_active_at(handle@, j),
            decreases self.identities.len() - i,
        {
            if self.identities[i].is_active && self.identities[i].handle == *handle {
                proof {
                    assert(self@.is_active_at(handle@, i as int));
                    let k = choose|k: int| self@.is_active_at(handle@, k);
                    assert(k == i);
                }
                return Some(i);
            }
            i += 1;
        }
        None
    }

    /// Issues an identity and stores its record, given the written form of the
    /// identity token's address. A handle that any record goes by already is
    /// refused, and then nothing has changed. The result is the fee that the
    /// owner pays into the registry. A request that is granted is counted, so
    /// the count has to have room for it.
    pub fn issue_identity_at(
        &mut self,
        owner: Pubkey,
        sbt_mint: Pubkey,
        unix_timestamp: i64,
        mint_address: &str,
        handle: String,
        name: String,
        uri: String,
        hex_id: [u8; 512],
    ) -> (r: Result<u64, RegistryError>)
        requires
            old(self)@.issue_error(mint_address@, handle@) is None
                ==> old(self).global_state.total_agents < u64::MAX,
        ensures
            match r {
                Ok(paid) => {
                    &&& old(self)@.issue_error(mint_address@, handle@) is None
                    &&& paid == fee(old(self).global_state.total_agents as nat)
                    &&& BASE_FEE <= paid <= MAX_FEE
                    &&& final(self)@ == (RegistryView {
                        state: GlobalStateView {
                            total_agents: (old(self).global_state.total_agents + 1) as u64,
                            ..old(self)@.state
                        },
                        identities: old(self)@.identities.push(
                            issued_identity(owner, sbt_mint, handle@, uri@, hex_id, unix_timestamp),
                        ),
                    })
                },
                Err(e) => {
                    &&& old(self)@.issue_error(mint_address@, handle@) == Some(e)
                    &&& *final(self) == *old(self)
                },
            },
            old(self)@.has_handle(handle@) ==> r is Err,
            old(self)@.wf() ==> final(self)@.wf(),
            old(self)@.score_consistent() ==> final(self)@.score_consistent(),
    {
        if !check_vanity_suffix(mint_address) {
            return Err(RegistryError::Rejected(ErrorCode::InvalidMintAddress));
        }
        if !check_handle_format(handle.as_str()) {
            return Err(RegistryError::Rejected(ErrorCode::InvalidHandleFormat));
        }
        if self.has_handle(&handle) {
            return Err(RegistryError::DuplicateHandle);
        }
        let ghost before = self@;
        let ghost created = issued_identity(owner, sbt_mint, handle@, uri@, hex_id, unix_timestamp);
        let ctx = IssueIdentity { global_state: &mut self.global_state, owner, sbt_mint, unix_timestamp };
        match issue_identity_at(ctx, mint_address, handle, name, uri, hex_id) {
            Err(e) => Err(RegistryError::Rejected(e)),
            Ok(issuance) => {
                let paid: u64 = issuance.fee;
                self.identities.push(issuance.identity);
                proof {
                    assert(self@.identities =~= before.identities.push(created));
                    lemma_sum_push(before.identities, created);
                    if before.wf() {
                        assert forall|i: int, j: int|
                            0 <= i < j < self@.identities.len() && self@.identities[i].handle
                                == self@.identities[j].handle implies !(self@.identities[i].is_active
                            && self@.identities[j].is_active) by {
                            if j == before.identities.len() {
                                assert(before.identities[i].handle == created.handle);
                            } else {
                                assert(before.identities[i] == self@.identities[i]);
                                assert(before.identities[j] == self@.identities[j]);
                            }
                        }
                    }
                }
                Ok(paid)
            },
        }
    }

    /// Issues an identity and stores its record: writes the identity token's
    /// address out and goes on as `issue_identity_at` does.
    pub fn issue_identity(
        &mut self,
        owner: Pubkey,
        sbt_mint: Pubkey,
        unix_timestamp: i64,
        handle: String,
        name: String,
        uri: String,
        hex_id: [u8; 512],
    ) -> (r: Result<u64, RegistryError>)
        requires
            is_valid_handle(handle@) && !old(self)@.has_handle(handle@)
                ==> old(self).global_state.total_agents < u64::MAX,
        ensures
            match r {
                Ok(paid) => {
                    &&& old(self)@.issue_error(base58_text(sbt_mint.bytes@), handle@) is None
                    &&& paid == fee(old(self).global_state.total_agents as nat)
                    &&& BASE_FEE <= paid <= MAX_FEE
                    &&& final(self)@ == (RegistryView {
                        state: GlobalStateView {
                            total_agents: (old(self).global_state.total_agents + 1) as u64,
                            ..old(self)@.state
                        },
                        identities: old(self)@.identities.push(
                            issued_identity(owner, sbt_mint, handle@, uri@, hex_id, unix_timestamp),
                        ),
                    })
                },
                Err(e) => {
                    &&& old(self)@.issue_error(base58_text(sbt_mint.bytes@), handle@) == Some(e)
                    &&& *final(self) == *old(self)
                },
            },
            old(self)@.has_handle(handle@) ==> r is Err,
            old(self)@.wf() ==> final(self)@.wf(),
            old(self)@.score_consistent() ==> final(self)@.score_consistent(),
    {
        let mint_address = sbt_mint.to_base58();
        self.issue_identity_at(
            owner,
            sbt_mint,
            unix_timestamp,
            mint_address.as_str(),
            handle,
            name,
            uri,
            hex_id,
        )
    }

    /// Sets the score and tier of the active record of `handle`, and its
    /// metadata pointer where one is given, and carries the change of score
    /// over to the running total. Only an admin may do so.
    ///
    /// The running total stays the sum of the active scores as long as that sum
    /// fits in a `u64`.
    pub fn update_agent_status(
        &mut self,
        admin: Pubkey,
        handle: &String,
        new_score: u64,
        tier: u8,
        new_uri: Option<String>,
    ) -> (r: Result<(), RegistryError>)
        requires
            old(self)@.wf(),
        ensures
            r == match old(self)@.update_status_error(admin, handle@, tier) {
                Some(e) => Err::<(), RegistryError>(e),
                None => Ok(()),
            },
            !old(self)@.state.is_admin(admin) ==> r == Err::<(), RegistryError>(
                RegistryError::Rejected(ErrorCode::Unauthorized),
            ),
            r is Err ==> *final(self) == *old(self),
            r is Ok ==> final(self)@ == old(self)@.after_status_update(
                StatusUpdate {
                    handle: handle@,
                    new_score,
                    tier,
                    new_uri: match new_uri {
                        Some(uri) => Some(uri@),
                        None => None,
                    },
                },
            ),
            final(self)@.wf(),
            old(self)@.score_consistent() && active_score_sum(final(self)@.identities) <= u64::MAX
                ==> final(self)@.score_consistent(),
    {
        if !self.global_state.is_admin(&admin) {
            return Err(RegistryError::Rejected(ErrorCode::Unauthorized));
        }
        let i: usize = match self.find_active(handle) {
            None => {
                return Err(RegistryError::UnknownHandle);
            },
            Some(i) => i,
        };
        if tier < MIN_TIER || tier > MAX_TIER {
            return Err(RegistryError::Rejected(ErrorCode::InvalidTier));
        }
        let ghost before = self@;
        let ghost target = before.identities[i as int];
        let ghost changed = AgentIdentityView {
            score: new_score,
            tier,
            uri: if new_uri is Some {
                new_uri->0@
            } else {
                target.uri
            },
            ..target
        };
        let ctx = UpdateAgentStatus {
            global_state: &mut self.global_state,
            identity: &mut self.identities[i],
            admin,
        };
        match update_agent_status(ctx, new_score, tier, new_uri) {
            Err(e) => Err(RegistryError::Rejected(e)),
            Ok(()) => {
                proof {
                    assert(self@.identities =~= before.identities.update(i as int, changed));
                    lemma_sum_update(before.identities, i as int, changed);
                    assert forall|a: int, b: int|
                        0 <= a < b < self@.identities.len() && self@.identities[a].handle
                            == self@.identities[b].handle implies !(self@.identities[a].is_active
                        && self@.identities[b].is_active) by {
                        assert(before.identities[a].handle == self@.identities[a].handle);
                        assert(before.identities[b].handle == self@.identities[b].handle);
                        assert(before.identities[a].is_active == self@.identities[a].is_active);
                        assert(before.identities[b].is_active == self@.identities[b].is_active);
                    }
                }
                Ok(())
            },
        }
    }

    /// Hands the active record of `handle` over to a new record, which is
    /// stored beside it. The signer has to control the old record. The old
    /// record is retired for good; handle and opaque identifier pass to the new
    /// one as they are.
    pub fn reissue_identity(
        &mut self,
        owner: Pubkey,
        handle: &String,
        new_owner: Pubkey,
        new_mint: Pubkey,
        unix_timestamp: i64,
    ) -> (r: Result<(), RegistryError>)
        requires
            old(self)@.wf(),
        ensures
            r == match old(self)@.reissue_error(owner, handle@) {
                Some(e) => Err::<(), RegistryError>(e),
                None => Ok(()),
            },
            r is Err ==> *final(self) == *old(self),
            r is Ok ==> ({
                let i = old(self)@.active_index(handle@)->0;
                let retired = old(self)@.identities[i];
                final(self)@ == (RegistryView {
                    state: old(self)@.state,
                    identities: old(self)@.identities.update(
                        i,
                        AgentIdentityView { is_active: false, ..retired },
                    ).push(
                        AgentIdentityView {
                            owner: new_owner,
                            mint: new_mint,
                            last_claim_ts: unix_timestamp,
                            ..retired
                        },
                    ),
                })
            }),
            final(self)@.wf(),
            old(self)@.score_consistent() ==> final(self)@.score_consistent(),
    {
        let i: usize = match self.find_active(handle) {
            None => {
                return Err(RegistryError::UnknownHandle);
            },
            Some(i) => i,
        };
        if self.identities[i].owner != owner {
            return Err(RegistryError::Rejected(ErrorCode::Unauthorized));
        }
        let ghost before = self@;
        let ghost retired = before.identities[i as int];
        let ghost closed = AgentIdentityView { is_active: false, ..retired };
        let ghost opened = AgentIdentityView {
            owner: new_owner,
            mint: new_mint,
            last_claim_ts: unix_timestamp,
            ..retired
        };
        let ctx = ReissueIdentity {
            identity: &mut self.identities[i],
            owner,
            new_owner,
            new_mint,
            unix_timestamp,
        };
        match reissue_identity(ctx) {
            Err(e) => Err(RegistryError::Rejected(e)),
            Ok(reissued) => {
                self.identities.push(reissued);
                proof {
                    let middle = before.identities.update(i as int, closed);
                    assert(self@.identities =~= middle.push(opened));
                    lemma_sum_update(before.identities, i as int, closed);
                    lemma_sum_push(middle, opened);
                    assert forall|a: int, b: int|
                        0 <= a < b < self@.identities.len() && self@.identities[a].handle
                            == self@.identities[b].handle implies !(self@.identities[a].is_active
                        && self@.identities[b].is_active) by {
                        if b == before.identities.len() {
                            if a != i {
                                assert(before.identities[a] == self@.identities[a]);
                                assert(before.identities[a].handle == retired.handle);
                            }
                        } else {
                            assert(before.identities[a].handle == self@.identities[a].handle);
                            assert(before.identities[b].handle == self@.identities[b].handle);
                            assert(self@.identities[a].is_active ==> before.identities[a].is_active);
                            assert(self@.identities[b].is_active ==> before.identities[b].is_active);
                        }
                    }
                }
                Ok(())
            },
        }
    }

    /// Recommends the active record of `handle` and lets the running total follow
    /// its score. The result is the payment that the actor owes the vault.
    ///
    /// The running total stays the sum of the active scores as long as that sum
    /// fits in a `u64`.
    pub fn recommend(
        &mut self,
        actor: Pubkey,
        actor_token_account: TokenAccount,
        reward_vault: TokenAccount,
        reward_mint: Mint,
        handle: &String,
    ) -> (r: Result<TokenTransfer, RegistryError>)
        requires
            old(self)@.wf(),
        ensures
            match old(self)@.active_index(handle@) {
                None => r == Err::<TokenTransfer, RegistryError>(RegistryError::UnknownHandle)
                    && *final(self) == *old(self),
                Some(_) => r == Ok::<TokenTransfer, RegistryError>(
                    action_payment(
                        actor,
                        actor_token_account,
                        reward_vault,
                        reward_mint,
                        RECOMMEND_FEE,
                    ),
                ) && final(self)@ == old(self)@.after_recommendation(handle@),
            },
            final(self)@.wf(),
            old(self)@.score_consistent() && active_score_sum(final(self)@.identities) <= u64::MAX
                ==> final(self)@.score_consistent(),
    {
        let i: usize = match self.find_active(handle) {
            None => {
                return Err(RegistryError::UnknownHandle);
            },
            Some(i) => i,
        };
        let ghost before = self@;
        let ghost changed = recommended(before.identities[i as int]);
        let ctx = ActionAgent {
            global_state: &mut self.global_state,
            target_identity: &mut self.identities[i],
            actor,
            actor_token_account,
            reward_vault,
            reward_mint,
        };
        let payment = process_recommendation(ctx);
        proof {
            assert(self@.identities =~= before.identities.update(i as int, changed));
            lemma_sum_update(before.identities, i as int, changed);
            assert forall|a: int, b: int|
                0 <= a < b < self@.identities.len() && self@.identities[a].handle
                    == self@.identities[b].handle implies !(self@.identities[a].is_active
                && self@.identities[b].is_active) by {
                assert(before.identities[a].handle == self@.identities[a].handle);
                assert(before.identities[b].handle == self@.identities[b].handle);
                assert(before.identities[a].is_active == self@.identities[a].is_active);
                assert(before.identities[b].is_active == self@.identities[b].is_active);
            }
        }
        Ok(payment)
    }

    /// Reports the active record of `handle` and lets the running total follow
    /// its score. The result is the payment that the actor owes the vault.
    ///
    /// The running total stays the sum of the active scores as long as that sum
    /// fits in a `u64`.
    pub fn report(
        &mut self,
        actor: Pubkey,
        actor_token_account: TokenAccount,
        reward_vault: TokenAccount,
        reward_mint: Mint,
        handle: &String,
    ) -> (r: Result<TokenTransfer, RegistryError>)
        requires
            old(self)@.wf(),
        ensures
            match old(self)@.active_index(handle@) {
                None => r == Err::<TokenTransfer, RegistryError>(RegistryError::UnknownHandle)
                    && *final(self) == *old(self),
                Some(_) => r == Ok::<TokenTransfer, RegistryError>(
                    action_payment(
                        actor,
                        actor_token_account,
                        reward_vault,
                        reward_mint,
                        REPORT_FEE,
                    ),
                ) && final(self)@ == old(self)@.after_report(handle@),
            },
            final(self)@.wf(),
            old(self)@.score_consistent() && active_score_sum(final(self)@.identities) <= u64::MAX
                ==> final(self)@.score_consistent(),
    {
        let i: usize = match self.find_active(handle) {
            None => {
                return Err(RegistryError::UnknownHandle);
            },
            Some(i) => i,
        };
        let ghost before = self@;
        let ghost changed = reported(before.identities[i as int]);
        let ctx = ActionAgent {
            global_state: &mut self.global_state,
            target_identity: &mut self.identities[i],
            actor,
            actor_token_account,
            reward_vault,
            reward_mint,
        };
        let payment = process_report(ctx);
        proof {
            assert(self@.identities =~= before.identities.update(i as int, changed));
            lemma_sum_update(before.identities, i as int, changed);
            assert forall|a: int, b: int|
                0 <= a < b < self@.identities.len() && self@.identities[a].handle
                    == self@.identities[b].handle implies !(self@.identities[a].is_active
                && self@.identities[b].is_active) by {
                assert(before.identities[a].handle == self@.identities[a].handle);
                assert(before.identities[b].handle == self@.identities[b].handle);
                assert(before.identities[a].is_active == self@.identities[a].is_active);
                assert(before.identities[b].is_active == self@.identities[b].is_active);
            }
        }
        Ok(payment)
    }
}

} // verus!
