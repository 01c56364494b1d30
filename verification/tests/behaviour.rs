use stellarfund::campaign::{Action, CampaignContract, CampaignData, Contribution, Event};
use stellarfund::error::Error;
use stellarfund::campaign::InitRequest;
use stellarfund::factory::{CampaignFactory, CampaignMeta, StatusUpdated};

fn s(x: &str) -> String {
    x.to_string()
}

fn campaign(goal: i128, deadline: u64) -> CampaignContract {
    let mut c = CampaignContract::new();
    c.init(s("CFACTORY"), s("GCREATOR"), s("Title"), s("About"), goal, deadline, s("CTOKEN")).unwrap();
    c
}

fn net_inflow(acts: &[Action]) -> i128 {
    acts.iter()
        .map(|a| match a {
            Action::Collect { amount, .. } => *amount,
            Action::Pay { amount, .. } => -*amount,
            _ => 0,
        })
        .sum()
}

#[test]
fn init_records_the_campaign() {
    let c = campaign(100, 1000);
    let d = c.get_campaign().unwrap();
    assert_eq!(
        d,
        CampaignData {
            creator: s("GCREATOR"),
            title: s("Title"),
            description: s("About"),
            goal: 100,
            deadline: 1000,
            token: s("CTOKEN"),
            total_raised: 0,
            active: true,
            factory: s("CFACTORY"),
        }
    );
}

#[test]
fn init_announces_the_campaign() {
    let mut c = CampaignContract::new();
    let acts = c.init(s("CF"), s("GC"), s("T"), s("D"), 7, 9, s("CT")).unwrap();
    assert_eq!(acts, vec![Action::Publish(Event::Initialized { creator: s("GC"), goal: 7, deadline: 9 })]);
}

#[test]
fn init_only_once() {
    let mut c = campaign(100, 1000);
    let r = c.init(s("X"), s("Y"), s("Other"), s("D"), 5, 6, s("Z"));
    assert_eq!(r, Err(Error::AlreadyInitialized));
    assert_eq!(c.get_campaign().unwrap().title, "Title");
    assert_eq!(c.get_campaign().unwrap().goal, 100);
}

#[test]
fn uninitialized_refuses_everything() {
    let mut c = CampaignContract::new();
    assert_eq!(c.get_campaign(), Err(Error::NotInitialized));
    assert_eq!(c.contribute(0, &s("A"), 10), Err(Error::NotInitialized));
    assert_eq!(c.withdraw(&s("A")), Err(Error::NotInitialized));
    assert_eq!(c.refund(5000, &s("A")), Err(Error::NotInitialized));
    assert_eq!(c.get_contribution(&s("A")), 0);
}

#[test]
fn contributions_are_recorded_per_contributor() {
    let mut c = campaign(100, 1000);
    let a1 = c.contribute(10, &s("A"), 30).unwrap();
    let a2 = c.contribute(20, &s("A"), 20).unwrap();
    let a3 = c.contribute(30, &s("B"), 5).unwrap();
    assert_eq!(c.get_contribution(&s("A")), 50);
    assert_eq!(c.get_contribution(&s("B")), 5);
    assert_eq!(c.get_contribution(&s("C")), 0);
    assert_eq!(c.get_campaign().unwrap().total_raised, 55);
    assert_eq!(net_inflow(&a1) + net_inflow(&a2) + net_inflow(&a3), 55);
}

#[test]
fn contribute_actions_below_goal() {
    let mut c = campaign(100, 1000);
    let acts = c.contribute(0, &s("A"), 40).unwrap();
    assert_eq!(
        acts,
        vec![
            Action::Collect { token: s("CTOKEN"), from: s("A"), amount: 40 },
            Action::Publish(Event::ContributionMade { contributor: s("A"), amount: 40 }),
        ]
    );
    assert!(c.get_campaign().unwrap().active);
}

#[test]
fn reaching_the_goal_deactivates_and_notifies_once() {
    let mut c = campaign(100, 1000);
    c.contribute(0, &s("A"), 60).unwrap();
    let acts = c.contribute(1, &s("B"), 50).unwrap();
    assert_eq!(
        acts,
        vec![
            Action::Collect { token: s("CTOKEN"), from: s("B"), amount: 50 },
            Action::Publish(Event::ContributionMade { contributor: s("B"), amount: 50 }),
            Action::Publish(Event::StatusChanged { active: false, total_raised: 110 }),
            Action::NotifyFactory { factory: s("CFACTORY"), active: false },
        ]
    );
    assert!(!c.get_campaign().unwrap().active);
    // Already inactive: no second notification.
    let later = c.contribute(2, &s("C"), 1).unwrap();
    assert_eq!(later.len(), 2);
    assert_eq!(c.get_campaign().unwrap().total_raised, 111);
}

#[test]
fn contribution_at_the_deadline_is_accepted() {
    let mut c = campaign(100, 1000);
    assert!(c.contribute(1000, &s("A"), 1).is_ok());
    assert_eq!(c.contribute(1001, &s("A"), 1), Err(Error::DeadlinePassed));
}

#[test]
fn refund_before_deadline_refused() {
    let mut c = campaign(100, 1000);
    c.contribute(0, &s("A"), 10).unwrap();
    assert_eq!(c.refund(1000, &s("A")), Err(Error::DeadlineNotPassed));
}

#[test]
fn refund_only_once() {
    let mut c = campaign(100, 1000);
    c.contribute(0, &s("A"), 10).unwrap();
    let acts = c.refund(1001, &s("A")).unwrap();
    assert_eq!(
        acts,
        vec![
            Action::Pay { token: s("CTOKEN"), to: s("A"), amount: 10 },
            Action::Publish(Event::RefundIssued { contributor: s("A"), amount: 10 }),
        ]
    );
    assert_eq!(net_inflow(&acts), -10);
    assert_eq!(c.get_contribution(&s("A")), 0);
    assert_eq!(c.get_campaign().unwrap().total_raised, 10);
    assert_eq!(c.refund(1002, &s("A")), Err(Error::NoContribution));
    assert_eq!(c.refund(1001, &s("B")), Err(Error::NoContribution));
}

#[test]
fn withdraw_only_once() {
    let mut c = campaign(100, 1000);
    c.contribute(0, &s("A"), 120).unwrap();
    let acts = c.withdraw(&s("GCREATOR")).unwrap();
    assert_eq!(
        acts,
        vec![
            Action::Pay { token: s("CTOKEN"), to: s("GCREATOR"), amount: 120 },
            Action::Publish(Event::FundsWithdrawn { creator: s("GCREATOR"), amount: 120 }),
        ]
    );
    assert_eq!(net_inflow(&acts), -120);
    let d = c.get_campaign().unwrap();
    assert_eq!(d.total_raised, 0);
    assert!(!d.active);
    assert_eq!(c.withdraw(&s("GCREATOR")), Err(Error::GoalNotReached));
}

#[test]
fn withdraw_with_nothing_raised() {
    let mut c = campaign(0, 1000);
    assert_eq!(c.withdraw(&s("GCREATOR")), Err(Error::NoFundsToWithdraw));
}

#[test]
fn withdraw_and_refund_exclude_each_other() {
    let mut c = campaign(100, 1000);
    c.contribute(0, &s("A"), 100).unwrap();
    assert_eq!(c.refund(2000, &s("A")), Err(Error::GoalReached));
    let mut d = campaign(100, 1000);
    d.contribute(0, &s("A"), 99).unwrap();
    assert_eq!(d.withdraw(&s("GCREATOR")), Err(Error::GoalNotReached));
    assert!(d.refund(2000, &s("A")).is_ok());
}

#[test]
fn overflow_is_detected() {
    let mut c = campaign(i128::MAX, 1000);
    c.contribute(0, &s("A"), i128::MAX - 1).unwrap();
    assert!(c.contribution_overflows(0, &s("B"), 2));
    assert!(!c.contribution_overflows(0, &s("B"), 1));
    assert!(c.contribution_overflows(0, &s("A"), 2));
    // Past the deadline the request is refused before any addition.
    assert!(!c.contribution_overflows(1001, &s("B"), 2));
    assert!(!CampaignContract::new().contribution_overflows(0, &s("B"), i128::MAX));
}

#[test]
fn latest_write_counts() {
    let c = CampaignContract::from_parts(
        None,
        vec![
            Contribution { contributor: s("A"), amount: 5 },
            Contribution { contributor: s("B"), amount: 7 },
            Contribution { contributor: s("A"), amount: 9 },
        ],
    );
    assert_eq!(c.get_contribution(&s("A")), 9);
    assert_eq!(c.get_contribution(&s("B")), 7);
    assert_eq!(c.get_campaign(), Err(Error::NotInitialized));
}

#[test]
fn error_codes() {
    let all = [
        Error::AlreadyInitialized,
        Error::NotInitialized,
        Error::DeadlinePassed,
        Error::DeadlineNotPassed,
        Error::GoalReached,
        Error::GoalNotReached,
        Error::Unauthorized,
        Error::NoFundsToWithdraw,
        Error::NoContribution,
    ];
    for (i, e) in all.iter().enumerate() {
        assert_eq!(e.code(), i as u32 + 1);
        assert_eq!(Error::from_code(i as u32 + 1), Some(*e));
    }
    assert_eq!(Error::from_code(0), None);
    assert_eq!(Error::from_code(10), None);
}

#[test]
fn deployment_salt_is_a_hash_of_the_title() {
    let a = CampaignFactory::deployment_salt(&s("Campaign"));
    let b = CampaignFactory::deployment_salt(&s("Campaign"));
    let c = CampaignFactory::deployment_salt(&s("Another"));
    assert_eq!(a.len(), 32);
    assert_eq!(a, b);
    assert_ne!(a, c);
    assert_ne!(a, b"Campaign".to_vec());
}

fn meta(addr: &str, active: bool) -> CampaignMeta {
    CampaignMeta { campaign_address: s(addr), creator: s("G"), title: s(addr), goal: 1, active }
}

#[test]
fn update_status_touches_only_the_first_match() {
    let mut f = CampaignFactory::from_campaigns(vec![meta("C1", true), meta("C2", true), meta("C2", true)]);
    let ev = f.update_status(&s("C2"), false);
    assert_eq!(ev, Some(StatusUpdated { campaign_address: s("C2"), active: false }));
    let r = f.get_campaigns();
    assert_eq!(r, vec![meta("C1", true), meta("C2", false), meta("C2", true)]);
    assert_eq!(f.update_status(&s("C9"), false), None);
    assert_eq!(f.get_campaigns(), r);
}

#[test]
fn registry_keeps_creation_order() {
    let mut f = CampaignFactory::new();
    assert!(f.get_campaigns().is_empty());
    let (req, _) = f.create_campaign(s("CF"), s("C1"), s("G1"), s("T1"), s("D1"), 10, 100, s("CT"));
    assert_eq!(
        req,
        InitRequest {
            factory: s("CF"),
            creator: s("G1"),
            title: s("T1"),
            description: s("D1"),
            goal: 10,
            deadline: 100,
            token: s("CT"),
        }
    );
    f.create_campaign(s("CF"), s("C2"), s("G2"), s("T2"), s("D2"), 20, 200, s("CT"));
    let r = f.get_campaigns();
    assert_eq!(r.len(), 2);
    assert_eq!(r[0].campaign_address, "C1");
    assert_eq!(r[1].goal, 20);
    assert!(r[1].active);
}

#[test]
fn no_refund_after_withdrawal() {
    let mut c = campaign(100, 1000);
    c.contribute(0, &s("A"), 100).unwrap();
    c.withdraw(&s("GCREATOR")).unwrap();
    assert_eq!(c.get_campaign().unwrap().total_raised, 0);
    assert_eq!(c.refund(1001, &s("A")), Err(Error::GoalReached));
    assert_eq!(c.get_contribution(&s("A")), 100);
}

#[test]
fn no_refund_once_goal_met_even_for_later_contributors() {
    let mut c = campaign(100, 1000);
    c.contribute(0, &s("A"), 100).unwrap();
    c.withdraw(&s("GCREATOR")).unwrap();
    c.contribute(10, &s("B"), 30).unwrap();
    assert_eq!(c.refund(1001, &s("B")), Err(Error::GoalReached));
    assert_eq!(c.withdraw(&s("GCREATOR")), Err(Error::GoalNotReached));
}
