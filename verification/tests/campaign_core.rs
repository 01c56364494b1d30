use std::collections::HashMap;

use stellarfund::campaign::{Action, CampaignContract};
use stellarfund::error::Error;

const CAMPAIGN: &str = "CCAMPAIGN";
const TOKEN: &str = "CTOKEN";

/// A token that keeps balances and refuses to move more than an account holds.
struct Token {
    balances: HashMap<String, i128>,
}

impl Token {
    fn new() -> Token {
        Token { balances: HashMap::new() }
    }

    fn mint(&mut self, to: &str, amount: i128) {
        *self.balances.entry(to.to_string()).or_insert(0) += amount;
    }

    fn balance(&self, who: &str) -> i128 {
        *self.balances.get(who).unwrap_or(&0)
    }

    fn transfer(&mut self, from: &str, to: &str, amount: i128) {
        assert!(amount >= 0);
        assert!(self.balance(from) >= amount, "balance is not sufficient");
        *self.balances.entry(from.to_string()).or_insert(0) -= amount;
        *self.balances.entry(to.to_string()).or_insert(0) += amount;
    }

    fn perform(&mut self, acts: &[Action]) {
        for a in acts {
            match a {
                Action::Collect { token, from, amount } => {
                    assert_eq!(token, TOKEN);
                    self.transfer(from, CAMPAIGN, *amount);
                }
                Action::Pay { token, to, amount } => {
                    assert_eq!(token, TOKEN);
                    self.transfer(CAMPAIGN, to, *amount);
                }
                _ => {}
            }
        }
    }
}

fn s(x: &str) -> String {
    x.to_string()
}

/// A campaign, a creator, a contributor holding 1000 tokens, and the token.
fn setup_test() -> (CampaignContract, String, String, Token) {
    let creator = s("GCREATOR");
    let contributor = s("GCONTRIBUTOR");
    let mut token = Token::new();
    token.mint(&contributor, 1000);
    (CampaignContract::new(), creator, contributor, token)
}

fn init_default(client: &mut CampaignContract, creator: &str) {
    client
        .init(s("CFACTORY"), s(creator), s("Test"), s("Desc"), 100, 1000, s(TOKEN))
        .unwrap();
}

fn contribute(client: &mut CampaignContract, token: &mut Token, now: u64, who: &str, amount: i128) {
    let acts = client.contribute(now, &s(who), amount).unwrap();
    token.perform(&acts);
}

#[test]
fn test_create_campaign_success() {
    let (mut client, creator, _contributor, _token) = setup_test();
    init_default(&mut client, &creator);

    let data = client.get_campaign().unwrap();
    assert_eq!(data.title, "Test");
    assert_eq!(data.goal, 100);
}

#[test]
fn test_contribute_increases_total() {
    let (mut client, creator, contributor, mut token) = setup_test();
    init_default(&mut client, &creator);

    contribute(&mut client, &mut token, 0, &contributor, 50);

    let data = client.get_campaign().unwrap();
    assert_eq!(data.total_raised, 50);

    let balance = token.balance(CAMPAIGN);
    assert_eq!(balance, 50);
}

#[test]
fn test_contribute_fails_after_deadline() {
    let (mut client, creator, contributor, _token) = setup_test();
    init_default(&mut client, &creator);

    let result = client.contribute(1001, &contributor, 50);
    assert_eq!(result, Err(Error::DeadlinePassed));
}

#[test]
fn test_withdraw_success_when_goal_met() {
    let (mut client, creator, contributor, mut token) = setup_test();
    init_default(&mut client, &creator);

    contribute(&mut client, &mut token, 0, &contributor, 100);

    let acts = client.withdraw(&creator).unwrap();
    token.perform(&acts);

    let balance = token.balance(&creator);
    assert_eq!(balance, 100);
}

#[test]
fn test_withdraw_fails_when_goal_not_met() {
    let (mut client, creator, contributor, mut token) = setup_test();
    init_default(&mut client, &creator);

    contribute(&mut client, &mut token, 0, &contributor, 50);

    let result = client.withdraw(&creator);
    assert_eq!(result, Err(Error::GoalNotReached));
}

#[test]
fn test_refund_success_when_goal_not_met() {
    let (mut client, creator, contributor, mut token) = setup_test();
    init_default(&mut client, &creator);

    contribute(&mut client, &mut token, 0, &contributor, 50);

    let acts = client.refund(1001, &contributor).unwrap();
    token.perform(&acts);

    let balance = token.balance(&contributor);
    assert_eq!(balance, 1000); // 1000 initial - 50 + 50 refunded
}

#[test]
fn test_refund_fails_when_goal_met() {
    let (mut client, creator, contributor, mut token) = setup_test();
    init_default(&mut client, &creator);

    contribute(&mut client, &mut token, 0, &contributor, 100); // Goal reached

    let result = client.refund(1001, &contributor);
    assert_eq!(result, Err(Error::GoalReached));
}

#[test]
fn test_unauthorized_withdraw_fails() {
    let (mut client, creator, contributor, _token) = setup_test();
    init_default(&mut client, &creator);

    let result = client.withdraw(&contributor);
    assert_eq!(result, Err(Error::Unauthorized));
}
