use stellarfund::campaign::{Action, CampaignContract};
use stellarfund::factory::CampaignFactory;

fn s(x: &str) -> String {
    x.to_string()
}

/// What the factory contract does for `create_campaign`: derive the address
/// from the title's salt, initialize the campaign there, register it.
fn create(
    factory: &mut CampaignFactory,
    factory_address: &str,
    creator: &str,
    title: &str,
    goal: i128,
    deadline: u64,
) -> (String, CampaignContract) {
    let salt = CampaignFactory::deployment_salt(&s(title));
    let address: String = format!("C{}", salt.iter().map(|b| format!("{:02x}", b)).collect::<String>());
    let (init, created) = factory.create_campaign(
        s(factory_address),
        address.clone(),
        s(creator),
        s(title),
        s("Desc"),
        goal,
        deadline,
        s("CTOKEN"),
    );
    assert_eq!(created.creator, creator);
    assert_eq!(created.campaign_address, address);
    let mut campaign = CampaignContract::new();
    campaign
        .init(init.factory, init.creator, init.title, init.description, init.goal, init.deadline, init.token)
        .unwrap();
    (address, campaign)
}

#[test]
fn test_create_campaign() {
    let creator = "GCREATOR";
    let mut factory_client = CampaignFactory::new();
    let title = "My First Campaign";

    let (_campaign_addr, core_client) = create(&mut factory_client, "CFACTORY", creator, title, 100, 1000);

    let campaigns = factory_client.get_campaigns();
    assert_eq!(campaigns.len(), 1);

    let meta = &campaigns[0];
    assert_eq!(meta.creator, creator);
    assert_eq!(meta.title, title);
    assert_eq!(meta.goal, 100);
    assert_eq!(meta.active, true);

    // Verify core contract was initialized
    let data = core_client.get_campaign().unwrap();
    assert_eq!(data.title, title);
    assert_eq!(data.goal, 100);
}

#[test]
fn test_inter_contract_call_updates_factory_status() {
    let creator = "GCREATOR";
    let contributor = "GCONTRIBUTOR";
    let mut factory_client = CampaignFactory::new();

    let (campaign_addr, mut core_client) = create(&mut factory_client, "CFACTORY", creator, "Campaign", 100, 1000);

    // Initial state: active
    let campaigns = factory_client.get_campaigns();
    assert_eq!(campaigns[0].active, true);

    // Goal reached
    let acts = core_client.contribute(0, &s(contributor), 100).unwrap();
    for a in &acts {
        if let Action::NotifyFactory { factory, active } = a {
            assert_eq!(factory, "CFACTORY");
            let ev = factory_client.update_status(&campaign_addr, *active).unwrap();
            assert_eq!(ev.campaign_address, campaign_addr);
            assert!(!ev.active);
        }
    }

    // Inter-contract call should have updated factory
    let campaigns_after = factory_client.get_campaigns();
    assert_eq!(campaigns_after[0].active, false);
}
