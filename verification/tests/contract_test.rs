use proof_of_heart::{Category, ContractEvent, Env, Error, Party, ProofOfHeart};

struct Setup {
    env: Env,
    admin: String,
    creator: String,
    contributor1: String,
    contributor2: String,
    token: String,
}

fn setup_env() -> Setup {
    let mut env = Env::new(0);
    let admin = String::from("GADMIN");
    let token = String::from("CTOKEN");
    ProofOfHeart::init(&mut env, admin.clone(), token.clone(), 300).unwrap();
    Setup {
        env,
        admin,
        creator: String::from("GCREATOR"),
        contributor1: String::from("GCONTRIBUTOR1"),
        contributor2: String::from("GCONTRIBUTOR2"),
        token,
    }
}

/// What `party` received less what it sent, over all requested transfers.
fn net(env: &Env, party: &Party) -> i128 {
    let mut total = 0;
    for t in env.transfers.iter() {
        if &t.to == party {
            total += t.amount;
        }
        if &t.from == party {
            total -= t.amount;
        }
    }
    total
}

fn account(a: &str) -> Party {
    Party::Account(a.to_string())
}

fn create(env: &mut Env, creator: &str, goal: i128, days: u64, category: Category, rs: bool, pct: u32) -> u32 {
    ProofOfHeart::create_campaign(
        env,
        creator.to_string(),
        String::from("Title"),
        String::from("Description"),
        goal,
        days,
        category,
        rs,
        pct,
    )
    .unwrap()
}

#[test]
fn test_create_and_validation() {
    let Setup { mut env, creator, .. } = setup_env();
    let title = String::from("Science Book");
    let desc = String::from("Teaching science to kids");

    let res = ProofOfHeart::create_campaign(&mut env, creator.clone(), title.clone(), desc.clone(), 0, 30, Category::Publisher, false, 0);
    assert_eq!(res.unwrap_err(), Error::FundingGoalMustBePositive);

    let res = ProofOfHeart::create_campaign(&mut env, creator.clone(), title.clone(), desc.clone(), 500, 0, Category::Publisher, false, 0);
    assert_eq!(res.unwrap_err(), Error::InvalidDuration);

    let res = ProofOfHeart::create_campaign(&mut env, creator.clone(), title.clone(), desc.clone(), 500, 400, Category::Publisher, false, 0);
    assert_eq!(res.unwrap_err(), Error::InvalidDuration);

    let res = ProofOfHeart::create_campaign(&mut env, creator.clone(), title.clone(), desc.clone(), 500, 30, Category::Educator, true, 1000);
    assert_eq!(res.unwrap_err(), Error::RevenueShareOnlyForStartup);

    let campaign_id = ProofOfHeart::create_campaign(
        &mut env, creator.clone(), title, desc, 2000, 30, Category::EducationalStartup, true, 1500,
    )
    .unwrap();
    assert_eq!(campaign_id, 1);

    let campaign = ProofOfHeart::get_campaign(&env, campaign_id).unwrap();
    assert_eq!(campaign.id, 1);
    assert_eq!(campaign.funding_goal, 2000);
    assert!(campaign.is_active);
    assert!(!campaign.is_verified);
    assert_eq!(campaign.deadline, 30 * 86400);
    assert_eq!(campaign.creator, creator);
}

#[test]
fn test_create_campaign_text_and_share_limits() {
    let Setup { mut env, creator, .. } = setup_env();
    let long_title = "t".repeat(101);
    let res = ProofOfHeart::create_campaign(&mut env, creator.clone(), long_title, String::from("d"), 10, 1, Category::Learner, false, 0);
    assert_eq!(res.unwrap_err(), Error::ValidationFailed);

    let res = ProofOfHeart::create_campaign(&mut env, creator.clone(), String::new(), String::from("d"), 10, 1, Category::Learner, false, 0);
    assert_eq!(res.unwrap_err(), Error::ValidationFailed);

    let res = ProofOfHeart::create_campaign(&mut env, creator.clone(), String::from("t"), "d".repeat(1001), 10, 1, Category::Learner, false, 0);
    assert_eq!(res.unwrap_err(), Error::ValidationFailed);

    // Multi-byte characters count by their UTF-8 bytes: 51 two-byte characters exceed 100 bytes.
    let res = ProofOfHeart::create_campaign(&mut env, creator.clone(), "é".repeat(51), String::from("d"), 10, 1, Category::Learner, false, 0);
    assert_eq!(res.unwrap_err(), Error::ValidationFailed);
    let res = ProofOfHeart::create_campaign(&mut env, creator.clone(), "é".repeat(50), String::from("d"), 10, 1, Category::Learner, false, 0);
    assert_eq!(res.unwrap(), 1);

    let res = ProofOfHeart::create_campaign(&mut env, creator.clone(), String::from("t"), String::from("d"), 10, 1, Category::EducationalStartup, true, 0);
    assert_eq!(res.unwrap_err(), Error::InvalidRevenueShare);
    let res = ProofOfHeart::create_campaign(&mut env, creator.clone(), String::from("t"), String::from("d"), 10, 1, Category::EducationalStartup, true, 5001);
    assert_eq!(res.unwrap_err(), Error::InvalidRevenueShare);
    let res = ProofOfHeart::create_campaign(&mut env, creator.clone(), String::from("t"), String::from("d"), 10, 365, Category::EducationalStartup, true, 5000);
    assert_eq!(res.unwrap(), 2);
    assert_eq!(ProofOfHeart::get_campaign_count(&env), 2);
    assert_eq!(ProofOfHeart::get_revenue_pool(&env, 2), 0);
}

#[test]
fn test_contribute_and_withdraw_success() {
    let Setup { mut env, admin, creator, contributor1, .. } = setup_env();
    let minted = 5000;

    let campaign_id = create(&mut env, &creator, 1000, 30, Category::Educator, false, 0);
    ProofOfHeart::contribute(&mut env, campaign_id, contributor1.clone(), 1000).unwrap();

    assert_eq!(minted + net(&env, &account(&contributor1)), 4000);
    assert_eq!(net(&env, &Party::Contract), 1000);
    assert_eq!(ProofOfHeart::get_contribution(&env, campaign_id, contributor1.clone()), 1000);

    ProofOfHeart::withdraw_funds(&mut env, campaign_id).unwrap();

    assert_eq!(net(&env, &Party::Admin), 30);
    assert_eq!(net(&env, &account(&creator)), 970);
    assert_eq!(net(&env, &Party::Contract), 0);

    let campaign = ProofOfHeart::get_campaign(&env, campaign_id).unwrap();
    assert!(!campaign.is_active);
    assert!(campaign.funds_withdrawn);

    let res = ProofOfHeart::withdraw_funds(&mut env, campaign_id);
    assert_eq!(res.unwrap_err(), Error::FundsAlreadyWithdrawn);
    let res = ProofOfHeart::cancel_campaign(&mut env, campaign_id);
    assert_eq!(res.unwrap_err(), Error::ValidationFailed);
    assert_eq!(ProofOfHeart::get_admin(&env), admin);
}

#[test]
fn test_creator_cannot_contribute_to_own_campaign() {
    let Setup { mut env, creator, .. } = setup_env();
    let campaign_id = create(&mut env, &creator, 1000, 30, Category::Educator, false, 0);
    let res = ProofOfHeart::contribute(&mut env, campaign_id, creator.clone(), 100);
    assert_eq!(res.unwrap_err(), Error::NotAuthorized);
}

#[test]
fn test_contribution_errors() {
    let Setup { mut env, creator, contributor1, .. } = setup_env();
    let res = ProofOfHeart::contribute(&mut env, 1, contributor1.clone(), 0);
    assert_eq!(res.unwrap_err(), Error::ContributionMustBePositive);
    let res = ProofOfHeart::contribute(&mut env, 1, contributor1.clone(), 10);
    assert_eq!(res.unwrap_err(), Error::CampaignNotFound);
    let campaign_id = create(&mut env, &creator, 1000, 30, Category::Educator, false, 0);
    ProofOfHeart::cancel_campaign(&mut env, campaign_id).unwrap();
    let res = ProofOfHeart::contribute(&mut env, campaign_id, contributor1.clone(), 10);
    assert_eq!(res.unwrap_err(), Error::CampaignNotActive);
    assert!(env.transfers.is_empty());
}

#[test]
fn test_cancel_and_refund() {
    let Setup { mut env, creator, contributor1, contributor2, .. } = setup_env();

    let campaign_id = create(&mut env, &creator, 5000, 10, Category::Learner, false, 0);
    ProofOfHeart::contribute(&mut env, campaign_id, contributor1.clone(), 1000).unwrap();
    ProofOfHeart::contribute(&mut env, campaign_id, contributor2.clone(), 500).unwrap();

    ProofOfHeart::cancel_campaign(&mut env, campaign_id).unwrap();
    let campaign = ProofOfHeart::get_campaign(&env, campaign_id).unwrap();
    assert!(campaign.is_cancelled);

    ProofOfHeart::claim_refund(&mut env, campaign_id, contributor1.clone()).unwrap();
    ProofOfHeart::claim_refund(&mut env, campaign_id, contributor2.clone()).unwrap();

    assert_eq!(2000 + net(&env, &account(&contributor1)), 2000);
    assert_eq!(1000 + net(&env, &account(&contributor2)), 1000);
    assert_eq!(net(&env, &Party::Contract), 0);

    let res = ProofOfHeart::withdraw_funds(&mut env, campaign_id);
    assert_eq!(res.unwrap_err(), Error::CampaignNotActive);
}

#[test]
fn test_double_refund_prevention() {
    let Setup { mut env, creator, contributor1, .. } = setup_env();
    let campaign_id = create(&mut env, &creator, 5000, 10, Category::Learner, false, 0);
    ProofOfHeart::contribute(&mut env, campaign_id, contributor1.clone(), 1000).unwrap();
    ProofOfHeart::cancel_campaign(&mut env, campaign_id).unwrap();

    ProofOfHeart::claim_refund(&mut env, campaign_id, contributor1.clone()).unwrap();
    assert_eq!(2000 + net(&env, &account(&contributor1)), 2000);

    let res = ProofOfHeart::claim_refund(&mut env, campaign_id, contributor1.clone());
    assert_eq!(res.unwrap_err(), Error::NoFundsToWithdraw);
    assert_eq!(2000 + net(&env, &account(&contributor1)), 2000);
}

#[test]
fn test_refund_refused_while_campaign_runs() {
    let Setup { mut env, creator, contributor1, .. } = setup_env();
    let campaign_id = create(&mut env, &creator, 5000, 10, Category::Learner, false, 0);
    ProofOfHeart::contribute(&mut env, campaign_id, contributor1.clone(), 1000).unwrap();
    let res = ProofOfHeart::claim_refund(&mut env, campaign_id, contributor1.clone());
    assert_eq!(res.unwrap_err(), Error::ValidationFailed);
}

#[test]
fn test_pull_based_revenue_distribution() {
    let Setup { mut env, creator, contributor1, contributor2, .. } = setup_env();

    let campaign_id = create(&mut env, &creator, 2000, 30, Category::EducationalStartup, true, 2000);
    ProofOfHeart::contribute(&mut env, campaign_id, contributor1.clone(), 1000).unwrap();
    ProofOfHeart::contribute(&mut env, campaign_id, contributor2.clone(), 1000).unwrap();
    ProofOfHeart::withdraw_funds(&mut env, campaign_id).unwrap();

    ProofOfHeart::deposit_revenue(&mut env, campaign_id, 5000).unwrap();
    assert_eq!(ProofOfHeart::get_revenue_pool(&env, campaign_id), 5000);

    // The contributors' pool is 20% of 5000 = 1000; contributor1 gave half of what was raised.
    ProofOfHeart::claim_revenue(&mut env, campaign_id, contributor1.clone()).unwrap();
    assert_eq!(net(&env, &account(&contributor1)), -1000 + 500);
    assert_eq!(ProofOfHeart::get_revenue_claimed(&env, campaign_id, contributor1.clone()), 500);

    let res = ProofOfHeart::claim_revenue(&mut env, campaign_id, contributor1.clone());
    assert_eq!(res.unwrap_err(), Error::NoFundsToWithdraw);

    ProofOfHeart::deposit_revenue(&mut env, campaign_id, 1000).unwrap();
    assert_eq!(ProofOfHeart::get_revenue_pool(&env, campaign_id), 6000);

    ProofOfHeart::claim_revenue(&mut env, campaign_id, contributor1.clone()).unwrap();
    assert_eq!(net(&env, &account(&contributor1)), -1000 + 600);

    ProofOfHeart::claim_revenue(&mut env, campaign_id, contributor2.clone()).unwrap();
    assert_eq!(net(&env, &account(&contributor2)), -1000 + 600);

    // The creator keeps the other 80%.
    ProofOfHeart::claim_creator_revenue(&mut env, campaign_id).unwrap();
    let withdrawn = 2000 - 60;
    assert_eq!(net(&env, &account(&creator)), withdrawn - 6000 + 4800);
    let res = ProofOfHeart::claim_creator_revenue(&mut env, campaign_id);
    assert_eq!(res.unwrap_err(), Error::NoFundsToWithdraw);

    let res = ProofOfHeart::claim_revenue(&mut env, campaign_id, String::from("GSTRANGER"));
    assert_eq!(res.unwrap_err(), Error::ValidationFailed);
}

#[test]
fn test_revenue_requires_revenue_sharing() {
    let Setup { mut env, creator, contributor1, .. } = setup_env();
    let campaign_id = create(&mut env, &creator, 2000, 30, Category::Educator, false, 0);
    let res = ProofOfHeart::deposit_revenue(&mut env, campaign_id, 100);
    assert_eq!(res.unwrap_err(), Error::ValidationFailed);
    let res = ProofOfHeart::deposit_revenue(&mut env, campaign_id, 0);
    assert_eq!(res.unwrap_err(), Error::ValidationFailed);
    let res = ProofOfHeart::claim_revenue(&mut env, campaign_id, contributor1.clone());
    assert_eq!(res.unwrap_err(), Error::ValidationFailed);
    let res = ProofOfHeart::claim_creator_revenue(&mut env, campaign_id);
    assert_eq!(res.unwrap_err(), Error::ValidationFailed);
    let res = ProofOfHeart::claim_creator_revenue(&mut env, 42);
    assert_eq!(res.unwrap_err(), Error::CampaignNotFound);
}

#[test]
fn test_failure_states() {
    let Setup { mut env, creator, contributor1, .. } = setup_env();
    let duration_days = 2;
    let campaign_id = create(&mut env, &creator, 1000, duration_days, Category::Educator, false, 0);

    let res = ProofOfHeart::withdraw_funds(&mut env, campaign_id);
    assert_eq!(res.unwrap_err(), Error::NoFundsToWithdraw);

    ProofOfHeart::contribute(&mut env, campaign_id, contributor1.clone(), 500).unwrap();

    let res = ProofOfHeart::withdraw_funds(&mut env, campaign_id);
    assert_eq!(res.unwrap_err(), Error::FundingGoalNotReached);

    env.timestamp += duration_days * 86450;

    let res = ProofOfHeart::contribute(&mut env, campaign_id, contributor1.clone(), 500);
    assert_eq!(res.unwrap_err(), Error::DeadlinePassed);

    let res = ProofOfHeart::withdraw_funds(&mut env, campaign_id);
    assert_eq!(res.unwrap_err(), Error::CampaignNotActive);

    ProofOfHeart::claim_refund(&mut env, campaign_id, contributor1.clone()).unwrap();
    assert_eq!(5000 + net(&env, &account(&contributor1)), 5000);
}

#[test]
fn test_multiple_concurrent_campaigns_are_isolated() {
    let Setup { mut env, creator: creator1, contributor1, contributor2, .. } = setup_env();
    let creator2 = "GCREATOR2";
    let creator3 = "GCREATOR3";

    let campaign_1 = create(&mut env, &creator1, 1000, 30, Category::Educator, false, 0);
    let campaign_2 = create(&mut env, creator2, 1500, 30, Category::Learner, false, 0);
    let campaign_3 = create(&mut env, creator3, 2000, 30, Category::EducationalStartup, true, 1500);

    assert_eq!(campaign_1, 1);
    assert_eq!(campaign_2, 2);
    assert_eq!(campaign_3, 3);
    assert_eq!(ProofOfHeart::get_campaign_count(&env), 3);

    ProofOfHeart::contribute(&mut env, campaign_1, contributor1.clone(), 1000).unwrap();
    ProofOfHeart::contribute(&mut env, campaign_2, contributor1.clone(), 400).unwrap();
    ProofOfHeart::contribute(&mut env, campaign_2, contributor2.clone(), 500).unwrap();
    ProofOfHeart::contribute(&mut env, campaign_3, contributor1.clone(), 1200).unwrap();
    ProofOfHeart::contribute(&mut env, campaign_3, contributor2.clone(), 800).unwrap();

    assert_eq!(ProofOfHeart::get_contribution(&env, campaign_1, contributor1.clone()), 1000);
    assert_eq!(ProofOfHeart::get_contribution(&env, campaign_1, contributor2.clone()), 0);
    assert_eq!(ProofOfHeart::get_contribution(&env, campaign_2, contributor1.clone()), 400);
    assert_eq!(ProofOfHeart::get_contribution(&env, campaign_2, contributor2.clone()), 500);
    assert_eq!(ProofOfHeart::get_contribution(&env, campaign_3, contributor1.clone()), 1200);
    assert_eq!(ProofOfHeart::get_contribution(&env, campaign_3, contributor2.clone()), 800);

    ProofOfHeart::withdraw_funds(&mut env, campaign_1).unwrap();

    let c1 = ProofOfHeart::get_campaign(&env, campaign_1).unwrap();
    let c2 = ProofOfHeart::get_campaign(&env, campaign_2).unwrap();
    let c3 = ProofOfHeart::get_campaign(&env, campaign_3).unwrap();
    assert!(c1.funds_withdrawn);
    assert!(!c1.is_active);
    assert_eq!(c2.amount_raised, 900);
    assert!(!c2.funds_withdrawn);
    assert!(c2.is_active);
    assert!(!c2.is_cancelled);
    assert_eq!(c3.amount_raised, 2000);
    assert!(!c3.funds_withdrawn);
    assert!(c3.is_active);

    ProofOfHeart::cancel_campaign(&mut env, campaign_2).unwrap();
    let c1 = ProofOfHeart::get_campaign(&env, campaign_1).unwrap();
    let c2 = ProofOfHeart::get_campaign(&env, campaign_2).unwrap();
    let c3 = ProofOfHeart::get_campaign(&env, campaign_3).unwrap();
    assert!(c2.is_cancelled);
    assert!(!c2.is_active);
    assert!(c1.funds_withdrawn);
    assert!(!c1.is_cancelled);
    assert!(c3.is_active);
    assert!(!c3.is_cancelled);

    assert_eq!(ProofOfHeart::get_revenue_pool(&env, campaign_1), 0);
    assert_eq!(ProofOfHeart::get_revenue_pool(&env, campaign_2), 0);

    ProofOfHeart::deposit_revenue(&mut env, campaign_3, 3000).unwrap();
    assert_eq!(ProofOfHeart::get_revenue_pool(&env, campaign_1), 0);
    assert_eq!(ProofOfHeart::get_revenue_pool(&env, campaign_2), 0);
    assert_eq!(ProofOfHeart::get_revenue_pool(&env, campaign_3), 3000);

    assert_eq!(net(&env, &Party::Contract), 5900);
    assert_eq!(10000 + net(&env, &account(creator3)), 7000);
}

#[test]
fn test_get_version() {
    let Setup { env, .. } = setup_env();
    assert_eq!(ProofOfHeart::get_version(&env), 1);
    assert_eq!(ProofOfHeart::get_version(&Env::new(0)), 0);
}

#[test]
fn test_admin_verify_campaign_success() {
    let Setup { mut env, creator, .. } = setup_env();
    let campaign_id = create(&mut env, &creator, 1000, 30, Category::Educator, false, 0);
    ProofOfHeart::verify_campaign(&mut env, campaign_id).unwrap();
    assert!(ProofOfHeart::get_campaign(&env, campaign_id).unwrap().is_verified);
    assert_eq!(env.events.last(), Some(&ContractEvent::CampaignVerified { campaign_id }));
}

#[test]
fn test_admin_verify_campaign_duplicate_attempt() {
    let Setup { mut env, creator, .. } = setup_env();
    let campaign_id = create(&mut env, &creator, 1000, 30, Category::Publisher, false, 0);
    ProofOfHeart::verify_campaign(&mut env, campaign_id).unwrap();
    let res = ProofOfHeart::verify_campaign(&mut env, campaign_id);
    assert_eq!(res.unwrap_err(), Error::CampaignAlreadyVerified);
    let res = ProofOfHeart::verify_campaign(&mut env, 9);
    assert_eq!(res.unwrap_err(), Error::CampaignNotFound);
}

#[test]
fn test_community_voting_verification_success() {
    let Setup { mut env, creator, contributor1, contributor2, .. } = setup_env();
    let voter3 = String::from("GVOTER3");
    env.set_token_balance(contributor1.clone(), 100);
    env.set_token_balance(contributor2.clone(), 100);
    env.set_token_balance(voter3.clone(), 100);

    let campaign_id = create(&mut env, &creator, 1000, 30, Category::Educator, false, 0);
    ProofOfHeart::vote_on_campaign(&mut env, campaign_id, contributor1.clone(), true).unwrap();
    ProofOfHeart::vote_on_campaign(&mut env, campaign_id, contributor2.clone(), true).unwrap();
    ProofOfHeart::vote_on_campaign(&mut env, campaign_id, voter3.clone(), false).unwrap();

    assert_eq!(ProofOfHeart::get_approve_votes(&env, campaign_id), 2);
    assert_eq!(ProofOfHeart::get_reject_votes(&env, campaign_id), 1);
    assert!(ProofOfHeart::has_voted(&env, campaign_id, contributor1.clone()));
    assert!(!ProofOfHeart::has_voted(&env, campaign_id, creator.clone()));

    ProofOfHeart::verify_campaign_with_votes(&mut env, campaign_id).unwrap();
    assert!(ProofOfHeart::get_campaign(&env, campaign_id).unwrap().is_verified);
    assert_eq!(
        env.events.last(),
        Some(&ContractEvent::CampaignVerifiedByVotes { campaign_id, approve_votes: 2 })
    );

    let res = ProofOfHeart::vote_on_campaign(&mut env, campaign_id, String::from("GLATE"), true);
    assert_eq!(res.unwrap_err(), Error::CampaignAlreadyVerified);
}

#[test]
fn test_vote_prevents_double_voting_and_requires_token_holder() {
    let Setup { mut env, creator, contributor1, .. } = setup_env();
    let non_holder = String::from("GNONHOLDER");
    env.set_token_balance(contributor1.clone(), 100);

    let campaign_id = create(&mut env, &creator, 500, 30, Category::Learner, false, 0);
    ProofOfHeart::vote_on_campaign(&mut env, campaign_id, contributor1.clone(), true).unwrap();

    let res = ProofOfHeart::vote_on_campaign(&mut env, campaign_id, contributor1.clone(), false);
    assert_eq!(res.unwrap_err(), Error::AlreadyVoted);

    let res = ProofOfHeart::vote_on_campaign(&mut env, campaign_id, non_holder, true);
    assert_eq!(res.unwrap_err(), Error::NotTokenHolder);
}

#[test]
fn test_verify_campaign_quorum_and_threshold_edges() {
    let Setup { mut env, admin, creator, contributor1, contributor2, .. } = setup_env();
    let voter3 = String::from("GVOTER3");
    let voter4 = String::from("GVOTER4");
    for v in [&contributor1, &contributor2, &voter3, &voter4] {
        env.set_token_balance(v.clone(), 100);
    }

    ProofOfHeart::set_voting_params(&mut env, admin.clone(), 4, 7500).unwrap();
    assert_eq!(ProofOfHeart::get_min_votes_quorum(&env), 4);
    assert_eq!(ProofOfHeart::get_approval_threshold_bps(&env), 7500);

    let campaign_id_1 = create(&mut env, &creator, 700, 30, Category::Publisher, false, 0);
    ProofOfHeart::vote_on_campaign(&mut env, campaign_id_1, contributor1.clone(), true).unwrap();
    ProofOfHeart::vote_on_campaign(&mut env, campaign_id_1, contributor2.clone(), true).unwrap();
    ProofOfHeart::vote_on_campaign(&mut env, campaign_id_1, voter3.clone(), true).unwrap();

    let res = ProofOfHeart::verify_campaign_with_votes(&mut env, campaign_id_1);
    assert_eq!(res.unwrap_err(), Error::VotingQuorumNotMet);

    ProofOfHeart::vote_on_campaign(&mut env, campaign_id_1, voter4.clone(), false).unwrap();
    // 3 of 4 approvals is exactly 7500 basis points.
    ProofOfHeart::verify_campaign_with_votes(&mut env, campaign_id_1).unwrap();
    assert!(ProofOfHeart::get_campaign(&env, campaign_id_1).unwrap().is_verified);

    let campaign_id_2 = create(&mut env, &creator, 700, 30, Category::Publisher, false, 0);
    ProofOfHeart::vote_on_campaign(&mut env, campaign_id_2, contributor1.clone(), true).unwrap();
    ProofOfHeart::vote_on_campaign(&mut env, campaign_id_2, contributor2.clone(), true).unwrap();
    ProofOfHeart::vote_on_campaign(&mut env, campaign_id_2, voter3.clone(), false).unwrap();
    ProofOfHeart::vote_on_campaign(&mut env, campaign_id_2, voter4.clone(), false).unwrap();

    let res = ProofOfHeart::verify_campaign_with_votes(&mut env, campaign_id_2);
    assert_eq!(res.unwrap_err(), Error::VotingThresholdNotMet);
}

#[test]
fn test_set_voting_params_validation() {
    let Setup { mut env, admin, creator, .. } = setup_env();
    assert_eq!(ProofOfHeart::get_min_votes_quorum(&env), 3);
    assert_eq!(ProofOfHeart::get_approval_threshold_bps(&env), 6000);
    let res = ProofOfHeart::set_voting_params(&mut env, creator, 4, 7500);
    assert_eq!(res.unwrap_err(), Error::NotAuthorized);
    let res = ProofOfHeart::set_voting_params(&mut env, admin.clone(), 0, 7500);
    assert_eq!(res.unwrap_err(), Error::ValidationFailed);
    let res = ProofOfHeart::set_voting_params(&mut env, admin.clone(), 4, 0);
    assert_eq!(res.unwrap_err(), Error::ValidationFailed);
    let res = ProofOfHeart::set_voting_params(&mut env, admin.clone(), 4, 10001);
    assert_eq!(res.unwrap_err(), Error::ValidationFailed);
    ProofOfHeart::set_voting_params(&mut env, admin, 1, 10000).unwrap();
    assert_eq!(ProofOfHeart::get_min_votes_quorum(&env), 1);
    assert_eq!(ProofOfHeart::get_approval_threshold_bps(&env), 10000);
}

#[test]
fn test_update_platform_fee() {
    let Setup { mut env, creator, contributor1, .. } = setup_env();
    assert!(ProofOfHeart::update_platform_fee(&mut env, 500).is_ok());
    assert_eq!(ProofOfHeart::get_platform_fee(&env), 500);
    assert!(ProofOfHeart::update_platform_fee(&mut env, 5000).is_ok());
    assert_eq!(ProofOfHeart::get_platform_fee(&env), 1000);
    assert_eq!(env.events.last(), Some(&ContractEvent::FeeUpdated { old_fee: 500, new_fee: 1000 }));

    let campaign_id = create(&mut env, &creator, 1000, 30, Category::Educator, false, 0);
    ProofOfHeart::contribute(&mut env, campaign_id, contributor1, 1234).unwrap();
    ProofOfHeart::withdraw_funds(&mut env, campaign_id).unwrap();
    assert_eq!(net(&env, &Party::Admin), 123);
    assert_eq!(net(&env, &account(&creator)), 1111);
}

#[test]
fn test_init_caps_fee_and_records_event() {
    let mut env = Env::new(7);
    ProofOfHeart::init(&mut env, String::from("GADMIN"), String::from("CTOKEN"), 2500).unwrap();
    assert_eq!(ProofOfHeart::get_platform_fee(&env), 1000);
    assert_eq!(ProofOfHeart::get_token(&env), "CTOKEN");
    assert_eq!(ProofOfHeart::get_campaign_count(&env), 0);
    assert_eq!(
        env.events,
        vec![ContractEvent::Initialized {
            admin: String::from("GADMIN"),
            token: String::from("CTOKEN"),
            platform_fee: 1000
        }]
    );
    // Before any fee is stored, the default is 3%.
    assert_eq!(ProofOfHeart::get_platform_fee(&Env::new(0)), 300);
}

#[test]
fn test_get_campaign_not_found() {
    let Setup { env, .. } = setup_env();
    assert_eq!(ProofOfHeart::get_campaign(&env, 999).unwrap_err(), Error::CampaignNotFound);
}

#[test]
fn test_deadline_boundary() {
    let Setup { mut env, creator, contributor1, .. } = setup_env();
    let campaign_id = create(&mut env, &creator, 1000, 2, Category::Educator, false, 0);
    let deadline = ProofOfHeart::get_campaign(&env, campaign_id).unwrap().deadline;

    env.timestamp = deadline;
    ProofOfHeart::contribute(&mut env, campaign_id, contributor1.clone(), 500).unwrap();
    assert_eq!(ProofOfHeart::get_contribution(&env, campaign_id, contributor1.clone()), 500);

    env.timestamp = deadline + 1;
    let res = ProofOfHeart::contribute(&mut env, campaign_id, contributor1.clone(), 500);
    assert_eq!(res.unwrap_err(), Error::DeadlinePassed);
}

#[test]
fn test_reinit_prevention() {
    let Setup { mut env, admin, token, .. } = setup_env();
    let res = ProofOfHeart::init(&mut env, String::from("GATTACKER"), String::from("CFAKE"), 0);
    assert_eq!(res.unwrap_err(), Error::AlreadyInitialized);
    assert_eq!(ProofOfHeart::get_admin(&env), admin);
    assert_eq!(ProofOfHeart::get_token(&env), token);
    assert_eq!(ProofOfHeart::get_platform_fee(&env), 300);
}

#[test]
fn test_update_campaign_rules() {
    let Setup { mut env, creator, contributor1, .. } = setup_env();
    let campaign_id = create(&mut env, &creator, 1000, 30, Category::Educator, false, 0);
    ProofOfHeart::update_campaign(&mut env, campaign_id, String::from("New"), String::from("New desc")).unwrap();
    let c = ProofOfHeart::get_campaign(&env, campaign_id).unwrap();
    assert_eq!(c.title, "New");
    assert_eq!(c.description, "New desc");
    let res = ProofOfHeart::update_campaign(&mut env, campaign_id, String::new(), String::from("x"));
    assert_eq!(res.unwrap_err(), Error::ValidationFailed);

    ProofOfHeart::contribute(&mut env, campaign_id, contributor1, 10).unwrap();
    let res = ProofOfHeart::update_campaign(&mut env, campaign_id, String::from("Late"), String::from("x"));
    assert_eq!(res.unwrap_err(), Error::ValidationFailed);

    ProofOfHeart::update_campaign_description(&mut env, campaign_id, String::from("Still editable")).unwrap();
    assert_eq!(ProofOfHeart::get_campaign(&env, campaign_id).unwrap().description, "Still editable");
    let res = ProofOfHeart::update_campaign_description(&mut env, campaign_id, String::new());
    assert_eq!(res.unwrap_err(), Error::ValidationFailed);

    ProofOfHeart::cancel_campaign(&mut env, campaign_id).unwrap();
    let res = ProofOfHeart::update_campaign_description(&mut env, campaign_id, String::from("x"));
    assert_eq!(res.unwrap_err(), Error::CampaignNotActive);
    let res = ProofOfHeart::update_campaign_description(&mut env, 77, String::from("x"));
    assert_eq!(res.unwrap_err(), Error::CampaignNotFound);
}

#[test]
fn test_error_codes() {
    assert_eq!(Error::NotAuthorized.code(), 1);
    assert_eq!(Error::CampaignNotFound.code(), 2);
    assert_eq!(Error::DeadlineNotPassed.code(), 10);
    assert_eq!(Error::ValidationFailed.code(), 15);
    assert_eq!(Error::AlreadyInitialized.code(), 20);
}

/// The accounts asked to authorize calls since `from` accounts had been.
fn auths_since(env: &Env, from: usize) -> Vec<String> {
    env.auths[from..].to_vec()
}

#[test]
fn test_claim_refund_requires_contributor_auth() {
    let Setup { mut env, creator, contributor1, .. } = setup_env();
    let id = ProofOfHeart::create_campaign(
        &mut env,
        creator.clone(),
        String::from("Auth Refund"),
        String::from("Only contributor can claim"),
        5000,
        10,
        Category::Learner,
        false,
        0,
    )
    .unwrap();
    ProofOfHeart::contribute(&mut env, id, contributor1.clone(), 1000).unwrap();
    ProofOfHeart::cancel_campaign(&mut env, id).unwrap();

    let before = env.auths.len();
    assert_eq!(ProofOfHeart::claim_refund(&mut env, id, contributor1.clone()), Ok(()));
    assert_eq!(auths_since(&env, before), vec![contributor1.clone()]);
    // Minted 2000, gave 1000, got 1000 back: the balance is 2000 again.
    assert_eq!(2000 + net(&env, &account(&contributor1)), 2000);
}

#[test]
fn test_init_requires_new_admin_auth_once() {
    let mut env = Env::new(0);
    ProofOfHeart::init(&mut env, String::from("GADMIN"), String::from("CTOKEN"), 300).unwrap();
    assert_eq!(env.auths, vec![String::from("GADMIN")]);
    let res = ProofOfHeart::init(&mut env, String::from("GOTHER"), String::from("CTOKEN"), 300);
    assert_eq!(res, Err(Error::AlreadyInitialized));
    assert_eq!(env.auths, vec![String::from("GADMIN")]);
}

#[test]
fn test_campaign_operations_require_creator_auth() {
    let Setup { mut env, creator, contributor1, .. } = setup_env();
    let before = env.auths.len();
    let id = create(&mut env, &creator, 1000, 30, Category::EducationalStartup, true, 2000);
    assert_eq!(auths_since(&env, before), vec![creator.clone()]);

    let before = env.auths.len();
    ProofOfHeart::contribute(&mut env, id, contributor1.clone(), 1000).unwrap();
    assert_eq!(auths_since(&env, before), vec![contributor1.clone()]);

    let before = env.auths.len();
    ProofOfHeart::update_campaign_description(&mut env, id, String::from("New")).unwrap();
    ProofOfHeart::withdraw_funds(&mut env, id).unwrap();
    ProofOfHeart::deposit_revenue(&mut env, id, 1000).unwrap();
    ProofOfHeart::claim_creator_revenue(&mut env, id).unwrap();
    assert_eq!(auths_since(&env, before), vec![creator.clone(); 4]);

    // Refused after the campaign was found: the creator was still asked.
    let before = env.auths.len();
    assert_eq!(ProofOfHeart::cancel_campaign(&mut env, id), Err(Error::ValidationFailed));
    assert_eq!(
        ProofOfHeart::update_campaign(&mut env, id, String::from("T"), String::from("D")),
        Err(Error::ValidationFailed)
    );
    assert_eq!(auths_since(&env, before), vec![creator.clone(); 2]);

    // A campaign that is not found asks nobody.
    let before = env.auths.len();
    assert_eq!(ProofOfHeart::withdraw_funds(&mut env, 99), Err(Error::CampaignNotFound));
    assert_eq!(ProofOfHeart::cancel_campaign(&mut env, 99), Err(Error::CampaignNotFound));
    assert_eq!(auths_since(&env, before), Vec::<String>::new());

    // A contributor's revenue claim needs no authorization.
    let before = env.auths.len();
    assert_eq!(ProofOfHeart::claim_revenue(&mut env, id, contributor1.clone()), Ok(()));
    assert_eq!(auths_since(&env, before), Vec::<String>::new());
}

#[test]
fn test_admin_operations_require_admin_auth() {
    let Setup { mut env, admin, creator, .. } = setup_env();
    let id = create(&mut env, &creator, 1000, 30, Category::Learner, false, 0);

    let before = env.auths.len();
    ProofOfHeart::verify_campaign(&mut env, id).unwrap();
    ProofOfHeart::update_platform_fee(&mut env, 500).unwrap();
    ProofOfHeart::set_voting_params(&mut env, admin.clone(), 2, 5000).unwrap();
    assert_eq!(auths_since(&env, before), vec![admin.clone(); 3]);

    // Someone else claiming to be the admin is asked, and refused.
    let before = env.auths.len();
    assert_eq!(ProofOfHeart::set_voting_params(&mut env, creator.clone(), 2, 5000), Err(Error::NotAuthorized));
    assert_eq!(ProofOfHeart::update_admin(&mut env, creator.clone(), creator.clone()), Err(Error::NotAuthorized));
    assert_eq!(auths_since(&env, before), vec![creator.clone(); 2]);
    assert_eq!(ProofOfHeart::get_admin(&env), admin);

    // Verification asks the admin even when it is refused.
    let before = env.auths.len();
    assert_eq!(ProofOfHeart::verify_campaign(&mut env, id), Err(Error::CampaignAlreadyVerified));
    assert_eq!(auths_since(&env, before), vec![admin.clone()]);
}

#[test]
fn test_vote_requires_voter_auth_and_tally_none() {
    let Setup { mut env, creator, contributor1, .. } = setup_env();
    let id = create(&mut env, &creator, 1000, 30, Category::Learner, false, 0);
    env.set_token_balance(contributor1.clone(), 10);
    let before = env.auths.len();
    ProofOfHeart::vote_on_campaign(&mut env, id, contributor1.clone(), true).unwrap();
    assert_eq!(auths_since(&env, before), vec![contributor1.clone()]);
    let before = env.auths.len();
    assert_eq!(ProofOfHeart::verify_campaign_with_votes(&mut env, id), Err(Error::VotingQuorumNotMet));
    assert_eq!(auths_since(&env, before), Vec::<String>::new());
}

#[test]
fn test_campaign_pays_out_once_across_calls() {
    let Setup { mut env, creator, contributor1, contributor2, .. } = setup_env();
    let id = create(&mut env, &creator, 1000, 30, Category::EducationalStartup, true, 2000);
    ProofOfHeart::contribute(&mut env, id, contributor1.clone(), 1000).unwrap();
    ProofOfHeart::withdraw_funds(&mut env, id).unwrap();
    // Other calls in between.
    ProofOfHeart::verify_campaign(&mut env, id).unwrap();
    ProofOfHeart::update_platform_fee(&mut env, 0).unwrap();
    assert_eq!(ProofOfHeart::cancel_campaign(&mut env, id), Err(Error::ValidationFailed));
    assert_eq!(ProofOfHeart::contribute(&mut env, id, contributor2.clone(), 10), Err(Error::CampaignNotActive));
    env.timestamp = 100 * 86400;
    let transfers = env.transfers.len();
    assert_eq!(ProofOfHeart::withdraw_funds(&mut env, id), Err(Error::FundsAlreadyWithdrawn));
    assert_eq!(ProofOfHeart::claim_refund(&mut env, id, contributor1.clone()), Err(Error::ValidationFailed));
    assert_eq!(env.transfers.len(), transfers);
    assert_eq!(ProofOfHeart::get_contribution(&env, id, contributor1), 1000);
}

#[test]
fn test_creator_claim_settled_until_next_deposit() {
    let Setup { mut env, creator, contributor1, .. } = setup_env();
    let id = create(&mut env, &creator, 1000, 30, Category::EducationalStartup, true, 2000);
    ProofOfHeart::contribute(&mut env, id, contributor1.clone(), 1000).unwrap();
    ProofOfHeart::withdraw_funds(&mut env, id).unwrap();
    ProofOfHeart::deposit_revenue(&mut env, id, 1000).unwrap();
    ProofOfHeart::claim_creator_revenue(&mut env, id).unwrap();
    // Calls other than a deposit leave nothing for the creator to claim.
    ProofOfHeart::claim_revenue(&mut env, id, contributor1.clone()).unwrap();
    ProofOfHeart::verify_campaign(&mut env, id).unwrap();
    assert_eq!(ProofOfHeart::claim_creator_revenue(&mut env, id), Err(Error::NoFundsToWithdraw));
    // A new deposit gives the creator 80% of it.
    ProofOfHeart::deposit_revenue(&mut env, id, 500).unwrap();
    let before = net(&env, &account(&creator));
    ProofOfHeart::claim_creator_revenue(&mut env, id).unwrap();
    assert_eq!(net(&env, &account(&creator)) - before, 400);
}

#[test]
fn test_vote_counts_number_voters() {
    let Setup { mut env, creator, contributor1, contributor2, .. } = setup_env();
    let id = create(&mut env, &creator, 1000, 30, Category::Learner, false, 0);
    let voters = [contributor1.clone(), contributor2.clone(), String::from("GV3")];
    for (i, v) in voters.iter().enumerate() {
        env.set_token_balance(v.clone(), 1);
        ProofOfHeart::vote_on_campaign(&mut env, id, v.clone(), i != 1).unwrap();
        assert_eq!(ProofOfHeart::vote_on_campaign(&mut env, id, v.clone(), true), Err(Error::AlreadyVoted));
    }
    let recorded = voters.iter().filter(|v| ProofOfHeart::has_voted(&env, id, (*v).clone())).count() as u32;
    assert_eq!(ProofOfHeart::get_approve_votes(&env, id) + ProofOfHeart::get_reject_votes(&env, id), recorded);
    assert_eq!(recorded, 3);
}

#[test]
fn test_revenue_paid_stays_within_pool() {
    let Setup { mut env, creator, contributor1, contributor2, .. } = setup_env();
    let c3 = String::from("GCONTRIBUTOR3");
    let id = create(&mut env, &creator, 1000, 30, Category::EducationalStartup, true, 3333);
    ProofOfHeart::contribute(&mut env, id, contributor1.clone(), 333).unwrap();
    ProofOfHeart::contribute(&mut env, id, contributor2.clone(), 333).unwrap();
    ProofOfHeart::contribute(&mut env, id, c3.clone(), 334).unwrap();
    ProofOfHeart::withdraw_funds(&mut env, id).unwrap();
    let contract_before = net(&env, &Party::Contract);
    for amount in [7, 101, 999] {
        ProofOfHeart::deposit_revenue(&mut env, id, amount).unwrap();
        for who in [&contributor1, &contributor2, &c3] {
            let _ = ProofOfHeart::claim_revenue(&mut env, id, who.clone());
        }
        let _ = ProofOfHeart::claim_creator_revenue(&mut env, id);
        let pool = ProofOfHeart::get_revenue_pool(&env, id);
        let contributors_pool = pool * 3333 / 10000;
        let claimed: i128 = [&contributor1, &contributor2, &c3]
            .iter()
            .map(|w| ProofOfHeart::get_revenue_claimed(&env, id, (*w).clone()))
            .sum();
        assert!(claimed <= contributors_pool);
        // The contract never holds less revenue than it has left to pay.
        assert!(net(&env, &Party::Contract) - contract_before >= 0);
    }
    assert_eq!(ProofOfHeart::get_revenue_pool(&env, id), 1107);
}
