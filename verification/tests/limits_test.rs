use proof_of_heart::limits::{
    claim_revenue_within_limits, contribute_within_limits, create_campaign_within_limits,
    deposit_revenue_within_limits, verify_campaign_with_votes_within_limits, vote_on_campaign_within_limits,
    withdraw_funds_within_limits,
};
use proof_of_heart::{Category, Env, ProofOfHeart};

#[test]
fn test_limits_flag_overflowing_calls() {
    let mut env = Env::new(u64::MAX - 10);
    let title = String::from("t");
    let desc = String::from("d");
    // The deadline would pass the largest timestamp.
    assert!(!create_campaign_within_limits(&env, &title, &desc, 10, 1, Category::Learner, false, 0));
    // A call refused for another reason is within limits.
    assert!(create_campaign_within_limits(&env, &title, &desc, 0, 1, Category::Learner, false, 0));

    env.timestamp = 0;
    ProofOfHeart::init(&mut env, String::from("GADMIN"), String::from("CTOKEN"), 300).unwrap();
    let id = ProofOfHeart::create_campaign(&mut env, String::from("GC"), title.clone(), desc.clone(), 10, 1,
        Category::EducationalStartup, true, 5000).unwrap();
    let donor = String::from("GDONOR");
    assert!(contribute_within_limits(&env, id, &donor, 5));
    ProofOfHeart::contribute(&mut env, id, donor.clone(), i128::MAX - 1).unwrap();
    assert!(!contribute_within_limits(&env, id, &donor, 5));
    assert!(contribute_within_limits(&env, id, &donor, -5));
    // Fee arithmetic would overflow: the amount raised times the fee.
    assert!(!withdraw_funds_within_limits(&env, id));
    assert!(deposit_revenue_within_limits(&env, id, 100));
    ProofOfHeart::deposit_revenue(&mut env, id, 100).unwrap();
    assert!(!claim_revenue_within_limits(&env, id, &donor));
    assert!(claim_revenue_within_limits(&env, id, &String::from("GNOBODY")));

    let voter = String::from("GVOTER");
    assert!(vote_on_campaign_within_limits(&env, id, &voter, true));
    assert!(verify_campaign_with_votes_within_limits(&env, id));
    // Without a configured token there is no balance to ask for.
    let mut bare = Env::new(0);
    let id2 = ProofOfHeart::create_campaign(&mut bare, String::from("GC"), title, desc, 10, 1, Category::Learner,
        false, 0).unwrap();
    assert!(!vote_on_campaign_within_limits(&bare, id2, &voter, true));
    assert!(vote_on_campaign_within_limits(&bare, 99, &voter, true));
}
