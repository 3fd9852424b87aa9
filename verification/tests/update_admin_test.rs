use proof_of_heart::{Env, Error, ProofOfHeart};

fn setup_env() -> (Env, String, String) {
    let mut env = Env::new(0);
    let admin = String::from("GADMIN");
    let creator = String::from("GCREATOR");
    let token_address = String::from("CTOKEN");
    ProofOfHeart::init(&mut env, admin.clone(), token_address, 300).unwrap();
    (env, admin, creator)
}

#[test]
fn test_update_admin_success() {
    let (mut env, admin, _creator) = setup_env();
    let new_admin = String::from("GNEWADMIN");

    let res = ProofOfHeart::update_admin(&mut env, admin, new_admin.clone());
    assert!(res.is_ok());
    assert_eq!(ProofOfHeart::get_admin(&env), new_admin);
}

#[test]
fn test_update_admin_rejects_non_admin() {
    let (mut env, _admin, creator) = setup_env();
    let new_admin = String::from("GNEWADMIN");

    let res = ProofOfHeart::update_admin(&mut env, creator, new_admin);
    assert_eq!(res.unwrap_err(), Error::NotAuthorized);
}
