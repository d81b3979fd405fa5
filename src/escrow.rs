use vstd::prelude::*;

use crate::address::Address;
use crate::table::AmountTable;
use crate::token::{Error as TokenError, Token};
use crate::u256::{lemma_u256_of_view, modulus, u256_of, U256};

verus! {

/// A fundraising campaign.
#[derive(Clone, Debug, PartialEq, Eq)]
pub struct Campaign {
    pub id: u32,
    pub title: String,
    pub description: String,
    pub goal: U256,
    pub deadline: u64,
    pub owner: Address,
    pub raised: U256,
    pub completed: bool,
}

impl Campaign {
    /// A field-by-field copy.
    pub fn duplicate(&self) -> (r: Campaign)
        ensures
            r == *self,
    {
        Campaign {
            id: self.id,
            title: self.title.clone(),
            description: self.description.clone(),
            goal: self.goal,
            deadline: self.deadline,
            owner: self.owner,
            raised: self.raised,
            completed: self.completed,
        }
    }
}

/// `c` is `before` with `raised` and `completed` replaced.
pub open spec fn campaign_with(c: Campaign, before: Campaign, raised: nat, completed: bool) -> bool {
    &&& c.id == before.id
    &&& c.title == before.title
    &&& c.description == before.description
    &&& c.goal == before.goal
    &&& c.deadline == before.deadline
    &&& c.owner == before.owner
    &&& c.raised@ == raised
    &&& c.completed == completed
}

/// Why an escrow operation failed.
#[derive(Clone, Copy, Debug, PartialEq, Eq, Structural)]
pub enum Error {
    /// No campaign has this id.
    CampaignNotFound,
    /// The campaign's deadline has not passed yet.
    DeadlineNotReached,
    /// The campaign's deadline has passed.
    DeadlineReached,
    /// The campaign is already finalized; from `claim_refund`: not finalized yet.
    CampaignCompleted,
    /// The campaign reached its goal, so nothing is refunded.
    GoalNotMet,
    /// The caller has no pledge to reclaim.
    NoContribution,
    /// Only the campaign's owner may do this.
    OnlyOwner,
    /// The ledger refused the transfer.
    TokenError(TokenError),
    /// A zero goal, or a deadline that is not in the future.
    InvalidParameters,
}

impl From<TokenError> for Error {
    fn from(error: TokenError) -> (r: Error) {
        Error::TokenError(error)
    }
}

impl vstd::std_specs::convert::FromSpecImpl<TokenError> for Error {
    open spec fn obeys_from_spec() -> bool {
        true
    }

    open spec fn from_spec(error: TokenError) -> Error {
        Error::TokenError(error)
    }
}

/// Record of a new campaign.
#[derive(Clone, Copy, Debug, PartialEq, Eq)]
pub struct CampaignCreated {
    pub id: u32,
    pub owner: Address,
    pub goal: U256,
    pub deadline: u64,
}

/// Record of a pledge added to a campaign.
#[derive(Clone, Copy, Debug, PartialEq, Eq)]
pub struct ContributionMade {
    pub campaign_id: u32,
    pub contributor: Address,
    pub amount: U256,
}

/// Record of a campaign's finalization and whether it met its goal.
#[derive(Clone, Copy, Debug, PartialEq, Eq)]
pub struct CampaignFinalized {
    pub campaign_id: u32,
    pub success: bool,
}

/// Record of a pledge paid back.
#[derive(Clone, Copy, Debug, PartialEq, Eq)]
pub struct RefundClaimed {
    pub campaign_id: u32,
    pub contributor: Address,
    pub amount: U256,
}

/// A record appended to the escrow's log by a successful operation.
#[derive(Clone, Copy, Debug, PartialEq, Eq)]
pub enum FundEvent {
    CampaignCreated(CampaignCreated),
    ContributionMade(ContributionMade),
    CampaignFinalized(CampaignFinalized),
    RefundClaimed(RefundClaimed),
}

/// The escrow: campaigns in creation order and the pledges made to them.
pub struct InkFundMe {
    token_contract: Address,
    address: Address,
    campaigns: Vec<Campaign>,
    contributions: AmountTable<(u32, Address)>,
    next_campaign_id: u32,
    events: Vec<FundEvent>,
}

impl InkFundMe {
    /// Ids are dense and zero-based, goals are positive, and the counter
    /// names the next free id.
    pub closed spec fn wf(&self) -> bool {
        &&& self.contributions.wf()
        &&& self.next_campaign_id as nat == self.campaigns@.len()
        &&& forall|i: int| #![trigger self.campaigns@[i]]
            0 <= i < self.campaigns@.len() ==> {
                &&& self.campaigns@[i].id == i
                &&& self.campaigns@[i].goal@ > 0
            }
    }

    /// The campaigns, in creation order.
    pub closed spec fn spec_campaigns(&self) -> Seq<Campaign> {
        self.campaigns@
    }

    /// The pledge of `contributor` to campaign `id`, zero if none.
    pub closed spec fn spec_contribution(&self, id: u32, contributor: Address) -> nat {
        self.contributions.get((id, contributor))
    }

    pub closed spec fn spec_token_address(&self) -> Address {
        self.token_contract
    }

    /// The escrow's own account on the ledger.
    pub closed spec fn spec_address(&self) -> Address {
        self.address
    }

    /// The records emitted so far, oldest first.
    pub closed spec fn spec_events(&self) -> Seq<FundEvent> {
        self.events@
    }

    /// The two escrows agree on both addresses.
    pub open spec fn same_addresses(&self, other: &InkFundMe) -> bool {
        &&& self.spec_token_address() == other.spec_token_address()
        &&& self.spec_address() == other.spec_address()
    }

    /// The two escrows hold the same pledges.
    pub open spec fn same_contributions(&self, other: &InkFundMe) -> bool {
        forall|c: u32, a: Address| #[trigger]
            self.spec_contribution(c, a) == other.spec_contribution(c, a)
    }

    /// `self` is `before` with campaign `id` given `raised` and `completed`,
    /// and the other campaigns untouched.
    pub open spec fn campaign_changed(&self, before: &InkFundMe, id: u32, raised: nat, completed: bool) -> bool {
        &&& self.spec_campaigns().len() == before.spec_campaigns().len()
        &&& forall|i: int| #![trigger self.spec_campaigns()[i]]
            0 <= i < self.spec_campaigns().len() && i != id ==> self.spec_campaigns()[i]
                == before.spec_campaigns()[i]
        &&& campaign_with(
            self.spec_campaigns()[id as int],
            before.spec_campaigns()[id as int],
            raised,
            completed,
        )
    }

    /// In a well-formed escrow each campaign's id is its position, and its
    /// goal is positive: ids are dense, zero-based and never shared.
    pub proof fn lemma_ids_dense(&self)
        requires
            self.wf(),
        ensures
            forall|i: int| #![trigger self.spec_campaigns()[i]]
                0 <= i < self.spec_campaigns().len() ==> {
                    &&& self.spec_campaigns()[i].id == i
                    &&& self.spec_campaigns()[i].goal@ > 0
                },
    {
    }

    /// A campaign is finalized once: after a successful `finalize`, a second
    /// call on the same campaign by its owner, no earlier in time, fails with
    /// `CampaignCompleted` (and, failing, changes nothing).
    pub proof fn lemma_no_double_finalize(
        before: InkFundMe,
        after: InkFundMe,
        token_before: Token,
        token_after: Token,
        token_later: Token,
        caller: Address,
        now: u64,
        later: u64,
        campaign_id: u32,
    )
        requires
            before.finalize_outcome(&token_before, caller, now, campaign_id) is Ok,
            after.finalized(&before, &token_after, &token_before, campaign_id),
            now <= later,
        ensures
            after.finalize_outcome(&token_later, caller, later, campaign_id) == Err::<(), Error>(
                Error::CampaignCompleted,
            ),
    {
    }

    /// A refund is paid only from a finalized campaign that missed its goal.
    pub proof fn lemma_refund_only_after_failure(
        e: InkFundMe,
        token: Token,
        caller: Address,
        campaign_id: u32,
    )
        requires
            e.refund_outcome(&token, caller, campaign_id) is Ok,
        ensures
            campaign_id < e.spec_campaigns().len(),
            e.spec_campaigns()[campaign_id as int].completed,
            e.spec_campaigns()[campaign_id as int].raised@ < e.spec_campaigns()[campaign_id
                as int].goal@,
    {
    }

    /// After a successful refund, the same contributor's next claim on the
    /// same campaign fails with `NoContribution`.
    pub proof fn lemma_refund_once(
        before: InkFundMe,
        after: InkFundMe,
        token_before: Token,
        token_later: Token,
        caller: Address,
        campaign_id: u32,
        amount: U256,
    )
        requires
            before.refund_outcome(&token_before, caller, campaign_id) is Ok,
            after.refunded(&before, caller, campaign_id, amount),
        ensures
            after.refund_outcome(&token_later, caller, campaign_id) == Err::<(), Error>(
                Error::NoContribution,
            ),
    {
        assert(after.spec_contribution(campaign_id, caller) == 0);
    }

    /// A pledge to an open campaign needs an allowance to the escrow of at
    /// least the amount, and then a balance of at least the amount.
    pub proof fn lemma_contribution_gated(
        e: InkFundMe,
        token: Token,
        caller: Address,
        now: u64,
        campaign_id: u32,
        amount: U256,
    )
        requires
            campaign_id < e.spec_campaigns().len(),
            now <= e.spec_campaigns()[campaign_id as int].deadline,
            !e.spec_campaigns()[campaign_id as int].completed,
        ensures
            token.spec_allowance(caller, e.spec_address()) < amount@ ==> e.contribute_outcome(
                &token,
                caller,
                now,
                campaign_id,
                amount,
            ) == Err::<(), Error>(Error::TokenError(TokenError::InsufficientAllowance)),
            token.spec_allowance(caller, e.spec_address()) >= amount@ && token.spec_balance(caller)
                < amount@ ==> e.contribute_outcome(&token, caller, now, campaign_id, amount)
                == Err::<(), Error>(Error::TokenError(TokenError::InsufficientBalance)),
    {
    }

    /// An escrow at `address` that moves value on the ledger at `token_address`.
    pub fn new(address: Address, token_address: Address) -> (r: InkFundMe)
        ensures
            r.wf(),
            r.spec_campaigns().len() == 0,
            forall|c: u32, a: Address| #[trigger] r.spec_contribution(c, a) == 0,
            r.spec_token_address() == token_address,
            r.spec_address() == address,
            r.spec_events().len() == 0,
    {
        InkFundMe {
            token_contract: token_address,
            address,
            campaigns: Vec::new(),
            contributions: AmountTable::new(),
            next_campaign_id: 0,
            events: Vec::new(),
        }
    }

    /// What `contribute` returns on these arguments.
    pub open spec fn contribute_outcome(
        &self,
        token: &Token,
        caller: Address,
        now: u64,
        campaign_id: u32,
        amount: U256,
    ) -> Result<(), Error> {
        let cs = self.spec_campaigns();
        if campaign_id >= cs.len() {
            Err(Error::CampaignNotFound)
        } else if now > cs[campaign_id as int].deadline {
            Err(Error::DeadlineReached)
        } else if cs[campaign_id as int].completed {
            Err(Error::CampaignCompleted)
        } else if token.spec_allowance(caller, self.spec_address()) < amount@ {
            Err(Error::TokenError(TokenError::InsufficientAllowance))
        } else if token.spec_balance(caller) < amount@ {
            Err(Error::TokenError(TokenError::InsufficientBalance))
        } else if cs[campaign_id as int].raised@ + amount@ >= modulus()
            || self.spec_contribution(campaign_id, caller) + amount@ >= modulus() {
            Err(Error::TokenError(TokenError::Overflow))
        } else {
            Ok(())
        }
    }

    /// `self` is `before` after `caller` pledged `amount` to campaign `id`.
    pub open spec fn contributed(&self, before: &InkFundMe, caller: Address, id: u32, amount: U256) -> bool {
        &&& self.campaign_changed(
            before,
            id,
            before.spec_campaigns()[id as int].raised@ + amount@,
            false,
        )
        &&& forall|c: u32, a: Address| #[trigger]
            self.spec_contribution(c, a) == if c == id && a == caller {
                before.spec_contribution(c, a) + amount@
            } else {
                before.spec_contribution(c, a)
            }
        &&& self.same_addresses(before)
        &&& self.spec_events() == before.spec_events().push(
            FundEvent::ContributionMade(
                ContributionMade { campaign_id: id, contributor: caller, amount },
            ),
        )
    }

    /// What `finalize` returns on these arguments.
    pub open spec fn finalize_outcome(
        &self,
        token: &Token,
        caller: Address,
        now: u64,
        campaign_id: u32,
    ) -> Result<(), Error> {
        let cs = self.spec_campaigns();
        if campaign_id >= cs.len() {
            Err(Error::CampaignNotFound)
        } else if caller != cs[campaign_id as int].owner {
            Err(Error::OnlyOwner)
        } else if now <= cs[campaign_id as int].deadline {
            Err(Error::DeadlineNotReached)
        } else if cs[campaign_id as int].completed {
            Err(Error::CampaignCompleted)
        } else if cs[campaign_id as int].raised@ >= cs[campaign_id as int].goal@
            && token.spec_balance(self.spec_address()) < cs[campaign_id as int].raised@ {
            Err(Error::TokenError(TokenError::InsufficientBalance))
        } else {
            Ok(())
        }
    }

    /// `self` and `token` are `before` and `token_before` after campaign `id`
    /// was finalized: it is completed, and where it met its goal what it
    /// raised went to its owner.
    pub open spec fn finalized(
        &self,
        before: &InkFundMe,
        token: &Token,
        token_before: &Token,
        id: u32,
    ) -> bool {
        let c = before.spec_campaigns()[id as int];
        let success = c.raised@ >= c.goal@;
        &&& self.campaign_changed(before, id, c.raised@, true)
        &&& self.same_contributions(before)
        &&& self.same_addresses(before)
        &&& self.spec_events() == before.spec_events().push(
            FundEvent::CampaignFinalized(CampaignFinalized { campaign_id: id, success }),
        )
        &&& if success {
            token.transferred(token_before, before.spec_address(), c.owner, c.raised)
        } else {
            *token == *token_before
        }
    }

    /// What `claim_refund` returns on these arguments.
    pub open spec fn refund_outcome(&self, token: &Token, caller: Address, campaign_id: u32) -> Result<
        (),
        Error,
    > {
        let cs = self.spec_campaigns();
        if campaign_id >= cs.len() {
            Err(Error::CampaignNotFound)
        } else if !cs[campaign_id as int].completed {
            Err(Error::CampaignCompleted)
        } else if cs[campaign_id as int].raised@ >= cs[campaign_id as int].goal@ {
            Err(Error::GoalNotMet)
        } else if self.spec_contribution(campaign_id, caller) == 0 {
            Err(Error::NoContribution)
        } else if token.spec_balance(self.spec_address()) < self.spec_contribution(
            campaign_id,
            caller,
        ) {
            Err(Error::TokenError(TokenError::InsufficientBalance))
        } else {
            Ok(())
        }
    }

    /// `self` is `before` after `caller` took back its pledge to campaign `id`.
    pub open spec fn refunded(&self, before: &InkFundMe, caller: Address, id: u32, amount: U256) -> bool {
        &&& self.spec_campaigns() == before.spec_campaigns()
        &&& forall|c: u32, a: Address| #[trigger]
            self.spec_contribution(c, a) == if c == id && a == caller {
                0
            } else {
                before.spec_contribution(c, a)
            }
        &&& self.same_addresses(before)
        &&& self.spec_events() == before.spec_events().push(
            FundEvent::RefundClaimed(RefundClaimed { campaign_id: id, contributor: caller, amount }),
        )
    }

    /// Opens a campaign owned by `caller`, at block time `now`; returns its id.
    pub fn create_campaign(
        &mut self,
        caller: Address,
        now: u64,
        title: String,
        description: String,
        goal: U256,
        deadline: u64,
    ) -> (r: Result<u32, Error>)
        requires
            old(self).wf(),
            old(self).spec_campaigns().len() < u32::MAX,
        ensures
            final(self).wf(),
            r == if goal@ == 0 || deadline <= now {
                Err::<u32, Error>(Error::InvalidParameters)
            } else {
                Ok(old(self).spec_campaigns().len() as u32)
            },
            r.is_err() ==> *final(self) == *old(self),
            r.is_ok() ==> {
                &&& final(self).spec_campaigns() == old(self).spec_campaigns().push(
                    Campaign {
                        id: r->Ok_0,
                        title,
                        description,
                        goal,
                        deadline,
                        owner: caller,
                        raised: u256_of(0),
                        completed: false,
                    },
                )
                &&& final(self).same_contributions(old(self))
                &&& final(self).same_addresses(old(self))
                &&& final(self).spec_events() == old(self).spec_events().push(
                    FundEvent::CampaignCreated(
                        CampaignCreated { id: r->Ok_0, owner: caller, goal, deadline },
                    ),
                )
            },
    {
        if goal.is_zero() || deadline <= now {
            return Err(Error::InvalidParameters);
        }
        let campaign_id = self.next_campaign_id;
        let owner = caller;
        let raised = U256::zero();
        proof {
            lemma_u256_of_view(raised);
        }
        let campaign = Campaign {
            id: campaign_id,
            title,
            description,
            goal,
            deadline,
            owner,
            raised,
            completed: false,
        };
        self.campaigns.push(campaign);
        self.next_campaign_id = self.next_campaign_id + 1;
        self.events.push(
            FundEvent::CampaignCreated(CampaignCreated { id: campaign_id, owner, goal, deadline }),
        );
        Ok(campaign_id)
    }

    /// Pledges `amount` of the caller's units to campaign `campaign_id`; the
    /// units move to the escrow's account on the caller's allowance to it.
    pub fn contribute(
        &mut self,
        token: &mut Token,
        caller: Address,
        now: u64,
        campaign_id: u32,
        amount: U256,
    ) -> (r: Result<(), Error>)
        requires
            old(self).wf(),
            old(token).wf(),
        ensures
            final(self).wf(),
            final(token).wf(),
            r == old(self).contribute_outcome(old(token), caller, now, campaign_id, amount),
            r.is_err() ==> *final(self) == *old(self) && *final(token) == *old(token),
            r.is_ok() ==> {
                &&& final(self).contributed(old(self), caller, campaign_id, amount)
                &&& final(token).transferred_from(
                    old(token),
                    old(self).spec_address(),
                    caller,
                    old(self).spec_address(),
                    amount,
                )
            },
    {
        let mut campaign = match self.get_campaign_mut(campaign_id) {
            Ok(c) => c,
            Err(e) => {
                return Err(e);
            },
        };
        if now > campaign.deadline {
            return Err(Error::DeadlineReached);
        }
        if campaign.completed {
            return Err(Error::CampaignCompleted);
        }
        let contributor = caller;
        let contract_address = self.address;
        let current_contribution = self.contributions.get_amount(&(campaign_id, contributor));
        let new_raised = campaign.raised.checked_add(&amount);
        let new_contribution = current_contribution.checked_add(&amount);
        if new_raised.is_none() || new_contribution.is_none() {
            // The ledger's own refusal comes first, as the transfer would report it.
            if token.allowance(contributor, contract_address).lt(&amount) {
                return Err(Error::TokenError(TokenError::InsufficientAllowance));
            }
            if token.balance_of(contributor).lt(&amount) {
                return Err(Error::TokenError(TokenError::InsufficientBalance));
            }
            return Err(Error::TokenError(TokenError::Overflow));
        }
        match token.transfer_from(contract_address, contributor, contract_address, amount) {
            Ok(()) => {},
            Err(e) => {
                return Err(Error::from(e));
            },
        }
        campaign.raised = new_raised.unwrap();
        self.contributions.set_amount((campaign_id, contributor), new_contribution.unwrap());
        self.campaigns.set(campaign_id as usize, campaign);
        self.events.push(
            FundEvent::ContributionMade(ContributionMade { campaign_id, contributor, amount }),
        );
        Ok(())
    }

    /// Closes campaign `campaign_id` after its deadline; where it met its goal,
    /// what it raised goes to its owner.
    pub fn finalize(&mut self, token: &mut Token, caller: Address, now: u64, campaign_id: u32) -> (r:
        Result<(), Error>)
        requires
            old(self).wf(),
            old(token).wf(),
        ensures
            final(self).wf(),
            final(token).wf(),
            r == old(self).finalize_outcome(old(token), caller, now, campaign_id),
            r.is_err() ==> *final(self) == *old(self) && *final(token) == *old(token),
            r.is_ok() ==> final(self).finalized(old(self), final(token), old(token), campaign_id),
    {
        let mut campaign = match self.get_campaign_mut(campaign_id) {
            Ok(c) => c,
            Err(e) => {
                return Err(e);
            },
        };
        if caller != campaign.owner {
            return Err(Error::OnlyOwner);
        }
        if now <= campaign.deadline {
            return Err(Error::DeadlineNotReached);
        }
        if campaign.completed {
            return Err(Error::CampaignCompleted);
        }
        let success = campaign.raised.ge(&campaign.goal);
        campaign.completed = true;
        if success {
            match token.transfer(self.address, campaign.owner, campaign.raised) {
                Ok(()) => {},
                Err(e) => {
                    return Err(Error::from(e));
                },
            }
        }
        self.campaigns.set(campaign_id as usize, campaign);
        self.events.push(FundEvent::CampaignFinalized(CampaignFinalized { campaign_id, success }));
        Ok(())
    }

    /// Pays the caller's pledge to a finalized campaign that missed its goal
    /// back to the caller.
    pub fn claim_refund(&mut self, token: &mut Token, caller: Address, campaign_id: u32) -> (r: Result<
        (),
        Error,
    >)
        requires
            old(self).wf(),
            old(token).wf(),
        ensures
            final(self).wf(),
            final(token).wf(),
            r == old(self).refund_outcome(old(token), caller, campaign_id),
            r.is_err() ==> *final(self) == *old(self) && *final(token) == *old(token),
            r.is_ok() ==> {
                let amount = u256_of(old(self).spec_contribution(campaign_id, caller));
                &&& final(self).refunded(old(self), caller, campaign_id, amount)
                &&& final(token).transferred(old(token), old(self).spec_address(), caller, amount)
            },
    {
        let campaign = match self.get_campaign(campaign_id) {
            Ok(c) => c,
            Err(e) => {
                return Err(e);
            },
        };
        let contributor = caller;
        if !campaign.completed {
            return Err(Error::CampaignCompleted);
        }
        if campaign.raised.ge(&campaign.goal) {
            return Err(Error::GoalNotMet);
        }
        let contribution = self.contributions.get_amount(&(campaign_id, contributor));
        if contribution.is_zero() {
            return Err(Error::NoContribution);
        }
        proof {
            lemma_u256_of_view(contribution);
        }
        match token.transfer(self.address, contributor, contribution) {
            Ok(()) => {},
            Err(e) => {
                return Err(Error::from(e));
            },
        }
        self.contributions.set_amount((campaign_id, contributor), U256::zero());
        self.events.push(
            FundEvent::RefundClaimed(RefundClaimed { campaign_id, contributor, amount: contribution }),
        );
        Ok(())
    }

    /// Campaign `campaign_id`, or `CampaignNotFound`.
    pub fn get_campaign(&self, campaign_id: u32) -> (r: Result<Campaign, Error>)
        requires
            self.wf(),
        ensures
            r == if campaign_id < self.spec_campaigns().len() {
                Ok::<Campaign, Error>(self.spec_campaigns()[campaign_id as int])
            } else {
                Err(Error::CampaignNotFound)
            },
    {
        if campaign_id as usize >= self.campaigns.len() {
            return Err(Error::CampaignNotFound);
        }
        Ok(self.campaigns[campaign_id as usize].duplicate())
    }

    /// All campaigns, in creation order.
    pub fn get_all_campaigns(&self) -> (r: Vec<Campaign>)
        requires
            self.wf(),
        ensures
            r@ == self.spec_campaigns(),
    {
        let mut campaigns: Vec<Campaign> = Vec::new();
        let mut i: usize = 0;
        while i < self.campaigns.len()
            invariant
                i <= self.campaigns@.len(),
                campaigns@ == self.campaigns@.subrange(0, i as int),
            decreases self.campaigns@.len() - i,
        {
            campaigns.push(self.campaigns[i].duplicate());
            i = i + 1;
            proof {
                assert(campaigns@ =~= self.campaigns@.subrange(0, i as int));
            }
        }
        proof {
            assert(campaigns@ =~= self.campaigns@);
        }
        campaigns
    }

    /// The pledge of `contributor` to campaign `campaign_id`, zero if none.
    pub fn get_contribution(&self, campaign_id: u32, contributor: Address) -> (r: U256)
        requires
            self.wf(),
        ensures
            r@ == self.spec_contribution(campaign_id, contributor),
    {
        self.contributions.get_amount(&(campaign_id, contributor))
    }

    /// The address of the ledger this escrow uses.
    pub fn get_token_address(&self) -> (r: Address)
        ensures
            r == self.spec_token_address(),
    {
        self.token_contract
    }

    /// How many campaigns were created.
    pub fn get_campaign_count(&self) -> (r: u32)
        requires
            self.wf(),
        ensures
            r == self.spec_campaigns().len(),
    {
        self.next_campaign_id
    }

    /// Mints `amount` new units to the caller through the ledger.
    pub fn mint_faucet(&mut self, token: &mut Token, caller: Address, amount: U256) -> (r: Result<
        (),
        Error,
    >)
        requires
            old(token).wf(),
        ensures
            final(token).wf(),
            *final(self) == *old(self),
            r == if old(token).spec_total_supply() + amount@ >= modulus() {
                Err(Error::TokenError(TokenError::Overflow))
            } else {
                Ok(())
            },
            r.is_err() ==> *final(token) == *old(token),
            r.is_ok() ==> final(token).minted(old(token), caller, amount),
    {
        let to = caller;
        match token.mint(to, amount) {
            Ok(()) => Ok(()),
            Err(e) => Err(Error::from(e)),
        }
    }

    /// A working copy of campaign `campaign_id`, for an operation to change
    /// and store back.
    fn get_campaign_mut(&mut self, campaign_id: u32) -> (r: Result<Campaign, Error>)
        requires
            old(self).wf(),
        ensures
            *final(self) == *old(self),
            r == if campaign_id < old(self).spec_campaigns().len() {
                Ok::<Campaign, Error>(old(self).spec_campaigns()[campaign_id as int])
            } else {
                Err(Error::CampaignNotFound)
            },
    {
        if campaign_id as usize >= self.campaigns.len() {
            return Err(Error::CampaignNotFound);
        }
        Ok(self.campaigns[campaign_id as usize].duplicate())
    }

    /// The events emitted so far, oldest first.
    pub fn events(&self) -> (r: &Vec<FundEvent>)
        ensures
            r@ == self.spec_events(),
    {
        &self.events
    }
}

} // verus!
