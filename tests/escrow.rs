use inkfundme::escrow::{
    CampaignCreated, CampaignFinalized, ContributionMade, Error, FundEvent, RefundClaimed,
};
use inkfundme::token::Error as TokenError;
use inkfundme::{Address, InkFundMe, Token, U256};

const T: u64 = 1_000;

fn escrow_address() -> Address {
    Address::from([0xee; 20])
}

fn token_address() -> Address {
    Address::from([0x42; 20])
}

fn owner() -> Address {
    Address::from([0x0a; 20])
}

fn backer() -> Address {
    Address::from([0x0c; 20])
}

fn setup() -> (InkFundMe, Token) {
    let token = Token::new(
        Address::from([0x01; 20]),
        token_address(),
        String::from("Test Token"),
        String::from("TEST"),
        18,
        U256::from(1000),
    );
    (InkFundMe::new(escrow_address(), token_address()), token)
}

/// A campaign with goal 1000 and deadline `T + 100`, created at `T`.
fn open_campaign(contract: &mut InkFundMe) -> u32 {
    contract
        .create_campaign(
            owner(),
            T,
            String::from("Campaign"),
            String::from("Description"),
            U256::from(1000),
            T + 100,
        )
        .unwrap()
}

fn fund_backer(contract: &mut InkFundMe, token: &mut Token, minted: u128, approved: u128) {
    assert_eq!(contract.mint_faucet(token, backer(), U256::from(minted)), Ok(()));
    assert_eq!(token.approve(backer(), escrow_address(), U256::from(approved)), Ok(()));
}

#[test]
fn create_campaign_works() {
    let mut contract = InkFundMe::new(escrow_address(), token_address());
    let now = 500000000;

    let title = String::from("Test Campaign");
    let description = String::from("A test campaign");
    let goal = U256::from(1000);
    let deadline = 1000000000;

    let result = contract.create_campaign(
        Address::from([0x01; 20]),
        now,
        title.clone(),
        description.clone(),
        goal,
        deadline,
    );
    assert!(result.is_ok());

    let campaign_id = result.unwrap();
    assert_eq!(campaign_id, 0);
    assert_eq!(contract.get_campaign_count(), 1);

    let campaign = contract.get_campaign(campaign_id).unwrap();
    assert_eq!(campaign.title, title);
    assert_eq!(campaign.description, description);
    assert_eq!(campaign.goal, goal);
    assert_eq!(campaign.deadline, deadline);
    assert_eq!(campaign.raised, U256::zero());
    assert!(!campaign.completed);
}

#[test]
fn create_campaign_invalid_parameters() {
    let mut contract = InkFundMe::new(escrow_address(), token_address());
    let now = 500000000;
    let caller = Address::from([0x01; 20]);

    let result = contract.create_campaign(
        caller,
        now,
        String::from("Test"),
        String::from("Test"),
        U256::zero(),
        1000000000,
    );
    assert_eq!(result, Err(Error::InvalidParameters));

    let result = contract.create_campaign(
        caller,
        now,
        String::from("Test"),
        String::from("Test"),
        U256::from(1000),
        0,
    );
    assert_eq!(result, Err(Error::InvalidParameters));
}

#[test]
fn get_campaign_not_found() {
    let contract = InkFundMe::new(escrow_address(), token_address());
    let result = contract.get_campaign(0);
    assert_eq!(result, Err(Error::CampaignNotFound));
}

#[test]
fn get_contribution_works() {
    let contract = InkFundMe::new(escrow_address(), token_address());
    let contributor = Address::from([0x01; 20]);
    let contribution = contract.get_contribution(0, contributor);
    assert_eq!(contribution, U256::zero());
}

#[test]
fn get_all_campaigns_works() {
    let mut contract = InkFundMe::new(escrow_address(), token_address());

    let campaigns = contract.get_all_campaigns();
    assert_eq!(campaigns.len(), 0);

    let result = contract.create_campaign(
        Address::from([0x01; 20]),
        500000000,
        String::from("Test Campaign"),
        String::from("Description"),
        U256::from(1000),
        1000000000,
    );
    assert!(result.is_ok());

    let campaigns = contract.get_all_campaigns();
    assert_eq!(campaigns.len(), 1);
    assert_eq!(campaigns[0].title, "Test Campaign");
}

#[test]
fn multiple_campaigns_work() {
    let mut contract = InkFundMe::new(escrow_address(), token_address());

    for i in 0..3 {
        let result = contract.create_campaign(
            Address::from([0x01; 20]),
            500000000,
            format!("Campaign {}", i),
            format!("Description {}", i),
            U256::from(1000 + i as u128),
            1000000000 + i as u64,
        );
        assert!(result.is_ok());
        assert_eq!(result.unwrap(), i as u32);
    }

    assert_eq!(contract.get_campaign_count(), 3);

    for i in 0..3 {
        let campaign = contract.get_campaign(i as u32).unwrap();
        assert_eq!(campaign.title, format!("Campaign {}", i));
        assert_eq!(campaign.goal, U256::from(1000 + i as u128));
    }
}

#[test]
fn create_campaign_records_owner_and_event() {
    let (mut contract, _token) = setup();
    let id = open_campaign(&mut contract);
    let campaign = contract.get_campaign(id).unwrap();
    assert_eq!(campaign.id, 0);
    assert_eq!(campaign.owner, owner());
    assert_eq!(
        contract.events().clone(),
        vec![FundEvent::CampaignCreated(CampaignCreated {
            id: 0,
            owner: owner(),
            goal: U256::from(1000),
            deadline: T + 100,
        })]
    );
    assert_eq!(contract.get_token_address(), token_address());
}

#[test]
fn create_campaign_deadline_equal_to_now_is_rejected() {
    let (mut contract, _token) = setup();
    let result = contract.create_campaign(
        owner(),
        T,
        String::from("x"),
        String::from("y"),
        U256::from(1),
        T,
    );
    assert_eq!(result, Err(Error::InvalidParameters));
    assert_eq!(contract.get_campaign_count(), 0);
    assert!(contract.events().is_empty());
}

#[test]
fn failed_create_does_not_use_up_an_id() {
    let (mut contract, _token) = setup();
    let bad = contract.create_campaign(
        owner(),
        T,
        String::from("x"),
        String::from("y"),
        U256::zero(),
        T + 1,
    );
    assert_eq!(bad, Err(Error::InvalidParameters));
    assert_eq!(open_campaign(&mut contract), 0);
    assert_eq!(open_campaign(&mut contract), 1);
}

#[test]
fn scenario_goal_met_pays_owner() {
    let (mut contract, mut token) = setup();
    let id = open_campaign(&mut contract);
    fund_backer(&mut contract, &mut token, 2000, 1200);

    assert_eq!(contract.contribute(&mut token, backer(), T + 50, id, U256::from(1200)), Ok(()));
    assert_eq!(contract.get_contribution(id, backer()), U256::from(1200));
    assert_eq!(token.balance_of(escrow_address()), U256::from(1200));

    let before = token.balance_of(owner());
    assert_eq!(contract.finalize(&mut token, owner(), T + 101, id), Ok(()));
    assert_eq!(token.balance_of(owner()), before.checked_add(&U256::from(1200)).unwrap());
    assert_eq!(token.balance_of(escrow_address()), U256::zero());
    let campaign = contract.get_campaign(id).unwrap();
    assert!(campaign.completed);
    assert_eq!(campaign.raised, U256::from(1200));
    assert_eq!(
        contract.events().last().copied(),
        Some(FundEvent::CampaignFinalized(CampaignFinalized { campaign_id: id, success: true }))
    );
}

#[test]
fn scenario_goal_missed_refunds_backer() {
    let (mut contract, mut token) = setup();
    let id = open_campaign(&mut contract);
    fund_backer(&mut contract, &mut token, 300, 300);

    assert_eq!(contract.contribute(&mut token, backer(), T + 10, id, U256::from(300)), Ok(()));
    assert_eq!(token.balance_of(backer()), U256::zero());
    assert_eq!(contract.finalize(&mut token, owner(), T + 101, id), Ok(()));
    assert_eq!(
        contract.events().last().copied(),
        Some(FundEvent::CampaignFinalized(CampaignFinalized { campaign_id: id, success: false }))
    );
    assert_eq!(token.balance_of(owner()), U256::zero());

    assert_eq!(contract.claim_refund(&mut token, backer(), id), Ok(()));
    assert_eq!(token.balance_of(backer()), U256::from(300));
    assert_eq!(contract.get_contribution(id, backer()), U256::zero());
    assert_eq!(
        contract.events().last().copied(),
        Some(FundEvent::RefundClaimed(RefundClaimed {
            campaign_id: id,
            contributor: backer(),
            amount: U256::from(300),
        }))
    );
}

#[test]
fn second_refund_fails_with_no_contribution() {
    let (mut contract, mut token) = setup();
    let id = open_campaign(&mut contract);
    fund_backer(&mut contract, &mut token, 300, 300);
    assert_eq!(contract.contribute(&mut token, backer(), T, id, U256::from(300)), Ok(()));
    assert_eq!(contract.finalize(&mut token, owner(), T + 101, id), Ok(()));
    assert_eq!(contract.claim_refund(&mut token, backer(), id), Ok(()));
    assert_eq!(contract.claim_refund(&mut token, backer(), id), Err(Error::NoContribution));
    assert_eq!(token.balance_of(backer()), U256::from(300));
}

#[test]
fn refund_errors() {
    let (mut contract, mut token) = setup();
    assert_eq!(contract.claim_refund(&mut token, backer(), 0), Err(Error::CampaignNotFound));
    let id = open_campaign(&mut contract);
    fund_backer(&mut contract, &mut token, 1500, 1500);
    assert_eq!(contract.contribute(&mut token, backer(), T, id, U256::from(200)), Ok(()));
    // not finalized yet
    assert_eq!(contract.claim_refund(&mut token, backer(), id), Err(Error::CampaignCompleted));

    let met = open_campaign(&mut contract);
    assert_eq!(contract.contribute(&mut token, backer(), T, met, U256::from(1000)), Ok(()));
    assert_eq!(contract.finalize(&mut token, owner(), T + 101, met), Ok(()));
    assert_eq!(contract.claim_refund(&mut token, backer(), met), Err(Error::GoalNotMet));

    assert_eq!(contract.finalize(&mut token, owner(), T + 101, id), Ok(()));
    assert_eq!(contract.claim_refund(&mut token, owner(), id), Err(Error::NoContribution));
}

#[test]
fn finalize_twice_fails_with_campaign_completed() {
    let (mut contract, mut token) = setup();
    let id = open_campaign(&mut contract);
    fund_backer(&mut contract, &mut token, 1000, 1000);
    assert_eq!(contract.contribute(&mut token, backer(), T, id, U256::from(1000)), Ok(()));
    assert_eq!(contract.finalize(&mut token, owner(), T + 101, id), Ok(()));
    let after_first = contract.get_campaign(id).unwrap();
    let owner_balance = token.balance_of(owner());
    assert_eq!(
        contract.finalize(&mut token, owner(), T + 200, id),
        Err(Error::CampaignCompleted)
    );
    assert_eq!(contract.get_campaign(id).unwrap(), after_first);
    assert_eq!(token.balance_of(owner()), owner_balance);
}

#[test]
fn finalize_errors() {
    let (mut contract, mut token) = setup();
    assert_eq!(contract.finalize(&mut token, owner(), T + 101, 0), Err(Error::CampaignNotFound));
    let id = open_campaign(&mut contract);
    assert_eq!(contract.finalize(&mut token, backer(), T + 101, id), Err(Error::OnlyOwner));
    assert_eq!(contract.finalize(&mut token, owner(), T + 100, id), Err(Error::DeadlineNotReached));
    assert!(!contract.get_campaign(id).unwrap().completed);
}

#[test]
fn finalize_without_escrowed_funds_fails_and_stays_open() {
    let (mut contract, mut token) = setup();
    let id = open_campaign(&mut contract);
    fund_backer(&mut contract, &mut token, 1000, 1000);
    assert_eq!(contract.contribute(&mut token, backer(), T, id, U256::from(1000)), Ok(()));
    // the escrow's units leave through a second, successful campaign first
    let other = open_campaign(&mut contract);
    assert_eq!(contract.finalize(&mut token, owner(), T + 101, other), Ok(()));
    assert_eq!(token.transfer(escrow_address(), owner(), U256::from(1)), Ok(()));
    assert_eq!(
        contract.finalize(&mut token, owner(), T + 101, id),
        Err(Error::TokenError(TokenError::InsufficientBalance))
    );
    assert!(!contract.get_campaign(id).unwrap().completed);
}

#[test]
fn contribute_needs_allowance_then_balance() {
    let (mut contract, mut token) = setup();
    let id = open_campaign(&mut contract);
    assert_eq!(contract.mint_faucet(&mut token, backer(), U256::from(100)), Ok(()));
    assert_eq!(
        contract.contribute(&mut token, backer(), T, id, U256::from(50)),
        Err(Error::TokenError(TokenError::InsufficientAllowance))
    );
    assert_eq!(token.approve(backer(), escrow_address(), U256::from(500)), Ok(()));
    assert_eq!(
        contract.contribute(&mut token, backer(), T, id, U256::from(200)),
        Err(Error::TokenError(TokenError::InsufficientBalance))
    );
    assert_eq!(contract.get_campaign(id).unwrap().raised, U256::zero());
    assert_eq!(contract.get_contribution(id, backer()), U256::zero());
    assert_eq!(token.allowance(backer(), escrow_address()), U256::from(500));
}

#[test]
fn contributions_accumulate() {
    let (mut contract, mut token) = setup();
    let id = open_campaign(&mut contract);
    fund_backer(&mut contract, &mut token, 500, 500);
    assert_eq!(contract.contribute(&mut token, backer(), T, id, U256::from(100)), Ok(()));
    assert_eq!(contract.contribute(&mut token, backer(), T + 100, id, U256::from(150)), Ok(()));
    assert_eq!(contract.get_contribution(id, backer()), U256::from(250));
    assert_eq!(contract.get_campaign(id).unwrap().raised, U256::from(250));
    assert_eq!(token.allowance(backer(), escrow_address()), U256::from(250));
    assert_eq!(
        contract.events().last().copied(),
        Some(FundEvent::ContributionMade(ContributionMade {
            campaign_id: id,
            contributor: backer(),
            amount: U256::from(150),
        }))
    );
}

#[test]
fn contribute_errors() {
    let (mut contract, mut token) = setup();
    fund_backer(&mut contract, &mut token, 500, 500);
    assert_eq!(
        contract.contribute(&mut token, backer(), T, 0, U256::from(1)),
        Err(Error::CampaignNotFound)
    );
    let id = open_campaign(&mut contract);
    assert_eq!(
        contract.contribute(&mut token, backer(), T + 101, id, U256::from(1)),
        Err(Error::DeadlineReached)
    );
    assert_eq!(contract.finalize(&mut token, owner(), T + 101, id), Ok(()));
    // a host that lets time run backwards reaches the completed check
    assert_eq!(
        contract.contribute(&mut token, backer(), T, id, U256::from(1)),
        Err(Error::CampaignCompleted)
    );
    assert_eq!(token.balance_of(backer()), U256::from(500));
}

#[test]
fn mint_faucet_overflow_is_reported() {
    let (mut contract, mut token) = setup();
    let max = U256 { hi: u128::MAX, lo: u128::MAX };
    assert_eq!(
        contract.mint_faucet(&mut token, backer(), max),
        Err(Error::TokenError(TokenError::Overflow))
    );
    assert_eq!(token.total_supply(), U256::from(1000));
}

#[test]
fn token_errors_convert() {
    assert_eq!(Error::from(TokenError::Overflow), Error::TokenError(TokenError::Overflow));
}
