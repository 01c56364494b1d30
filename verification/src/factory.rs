//! The factory: the registry of the campaigns it deployed, and the salt from
//! which a campaign's address is derived.

use vstd::prelude::*;
use soroban_sdk::xdr::ToXdr;
use crate::campaign::{InitRequest, InitRequestView};

verus! {

/// What the factory's registry holds about one campaign.
#[derive(Debug, PartialEq, Eq)]
pub struct CampaignMeta {
    pub campaign_address: String,
    pub creator: String,
    pub title: String,
    pub goal: i128,
    pub active: bool,
}

pub struct CampaignMetaView {
    pub campaign_address: Seq<char>,
    pub creator: Seq<char>,
    pub title: Seq<char>,
    pub goal: int,
    pub active: bool,
}

impl View for CampaignMeta {
    type V = CampaignMetaView;

    open spec fn view(&self) -> CampaignMetaView {
        CampaignMetaView {
            campaign_address: self.campaign_address@,
            creator: self.creator@,
            title: self.title@,
            goal: self.goal as int,
            active: self.active,
        }
    }
}

impl CampaignMeta {
    /// A copy of this entry.
    pub fn snapshot(&self) -> (r: CampaignMeta)
        ensures
            r@ == self@,
    {
        CampaignMeta {
            campaign_address: self.campaign_address.clone(),
            creator: self.creator.clone(),
            title: self.title.clone(),
            goal: self.goal,
            active: self.active,
        }
    }
}

/// The event the factory publishes when it registers a campaign.
#[derive(Debug, PartialEq, Eq)]
pub struct CampaignCreated {
    pub creator: String,
    pub campaign_address: String,
}

/// The event the factory publishes when it changes a campaign's active flag.
#[derive(Debug, PartialEq, Eq)]
pub struct StatusUpdated {
    pub campaign_address: String,
    pub active: bool,
}

/// The entry the factory registers for a new campaign.
pub open spec fn registry_entry(addr: Seq<char>, creator: Seq<char>, title: Seq<char>, goal: int) -> CampaignMetaView {
    CampaignMetaView { campaign_address: addr, creator, title, goal, active: true }
}

/// The request with which the factory initializes a new campaign.
pub open spec fn init_request_for(
    factory: Seq<char>,
    creator: Seq<char>,
    title: Seq<char>,
    description: Seq<char>,
    goal: int,
    deadline: u64,
    token: Seq<char>,
) -> InitRequestView {
    InitRequestView { factory, creator, title, description, goal, deadline, token }
}

/// The views of a list of registry entries.
pub open spec fn metas_view(v: Seq<CampaignMeta>) -> Seq<CampaignMetaView> {
    v.map_values(|m: CampaignMeta| m@)
}

/// The position of the first entry of `reg` for the campaign `addr`, or -1.
pub open spec fn index_of_campaign(reg: Seq<CampaignMetaView>, addr: Seq<char>) -> int
    decreases reg.len(),
{
    if reg.len() == 0 {
        -1
    } else {
        let i = index_of_campaign(reg.drop_last(), addr);
        if i >= 0 {
            i
        } else if reg.last().campaign_address == addr {
            reg.len() - 1
        } else {
            -1
        }
    }
}

/// The registry after the active flag of the first entry for `addr` is set
/// to `active`; unchanged when there is no such entry.
pub open spec fn with_status(reg: Seq<CampaignMetaView>, addr: Seq<char>, active: bool) -> Seq<CampaignMetaView> {
    let i = index_of_campaign(reg, addr);
    if i < 0 {
        reg
    } else {
        reg.update(i, CampaignMetaView { active, ..reg[i] })
    }
}

/// `index_of_campaign` finds the first entry for the address, or reports
/// that there is none.
pub proof fn lemma_index_of_campaign(reg: Seq<CampaignMetaView>, addr: Seq<char>)
    ensures
        -1 <= index_of_campaign(reg, addr) < reg.len(),
        index_of_campaign(reg, addr) >= 0 ==> reg[index_of_campaign(reg, addr)].campaign_address == addr,
        forall|j: int| 0 <= j < reg.len() && (index_of_campaign(reg, addr) < 0 || j < index_of_campaign(reg, addr))
            ==> #[trigger] reg[j].campaign_address != addr,
    decreases reg.len(),
{
    if reg.len() > 0 {
        let w = reg.drop_last();
        lemma_index_of_campaign(w, addr);
        assert forall|j: int| 0 <= j < reg.len() && (index_of_campaign(reg, addr) < 0 || j < index_of_campaign(reg, addr))
            implies #[trigger] reg[j].campaign_address != addr by {
            if j < w.len() {
                assert(w[j] == reg[j]);
            }
        }
    }
}

/// The 32 bytes that Soroban's keccak-256 host function yields for the XDR
/// encoding of a campaign title as a Soroban string.
pub uninterp spec fn title_salt(title: Seq<char>) -> Seq<u8>;

/// The longest title, in characters, whose salt is computed: the host meters
/// the hashing against its default budget (100,000,000 CPU instructions and
/// 40 MiB), and keccak-256 costs it about 47 instructions per byte, so a
/// title of at most this many characters (at most four times as many UTF-8
/// bytes) stays far inside that budget.
pub const MAX_TITLE_CHARS: usize = 65536;

/// Calls `soroban_sdk::crypto::Crypto::keccak256` on the XDR encoding
/// (`soroban_sdk::xdr::ToXdr::to_xdr`) of `title` as a `soroban_sdk::String`,
/// in a fresh `soroban_sdk::Env`. Trusted: the result is `title_salt` of the
/// title and is 32 bytes long (a `Hash<32>`); nothing else is claimed of the
/// hash. Titles longer than `MAX_TITLE_CHARS` are left out, since the host's
/// budget could run out on them and the call would then panic.
#[verifier::external_body]
fn keccak_title_salt(title: &String) -> (salt: Vec<u8>)
    requires
        title@.len() <= MAX_TITLE_CHARS,
    ensures
        salt@ == title_salt(title@),
        salt@.len() == 32,
{
    let env = soroban_sdk::Env::default();
    let s = soroban_sdk::String::from_str(&env, title.as_str());
    env.crypto().keccak256(&s.to_xdr(&env)).to_array().to_vec()
}

/// The factory's registry of campaigns, in the order they were created.
pub struct CampaignFactory {
    campaigns: Vec<CampaignMeta>,
}

impl View for CampaignFactory {
    type V = Seq<CampaignMetaView>;

    closed spec fn view(&self) -> Seq<CampaignMetaView> {
        metas_view(self.campaigns@)
    }
}

impl CampaignFactory {
    /// A factory that has registered nothing.
    pub fn new() -> (f: CampaignFactory)
        ensures
            f@ == Seq::<CampaignMetaView>::empty(),
    {
        let f = CampaignFactory { campaigns: Vec::new() };
        assert(f@ =~= Seq::<CampaignMetaView>::empty());
        f
    }

    /// A factory whose registry holds `campaigns`.
    pub fn from_campaigns(campaigns: Vec<CampaignMeta>) -> (f: CampaignFactory)
        ensures
            f@ == metas_view(campaigns@),
    {
        CampaignFactory { campaigns }
    }

    /// The salt of the deployment for a campaign titled `title`: campaigns
    /// with the same title are deployed to the same address.
    pub fn deployment_salt(title: &String) -> (salt: Vec<u8>)
        requires
            title@.len() <= MAX_TITLE_CHARS,
        ensures
            salt@ == title_salt(title@),
            salt@.len() == 32,
    {
        keccak_title_salt(title)
    }

    /// `create_campaign`, once the campaign is deployed at
    /// `campaign_address` by the factory at `factory_address`: appends an
    /// active entry to the registry and returns the request with which the
    /// new campaign is to be initialized and the event to publish.
    pub fn create_campaign(
        &mut self,
        factory_address: String,
        campaign_address: String,
        creator: String,
        title: String,
        description: String,
        goal: i128,
        deadline: u64,
        token: String,
    ) -> (r: (InitRequest, CampaignCreated))
        ensures
            final(self)@ == old(self)@.push(registry_entry(campaign_address@, creator@, title@, goal as int)),
            r.0@ == init_request_for(
                factory_address@,
                creator@,
                title@,
                description@,
                goal as int,
                deadline,
                token@,
            ),
            r.1.creator@ == creator@,
            r.1.campaign_address@ == campaign_address@,
    {
        let e = CampaignCreated { creator: creator.clone(), campaign_address: campaign_address.clone() };
        let req = InitRequest {
            factory: factory_address,
            creator: creator.clone(),
            title: title.clone(),
            description,
            goal,
            deadline,
            token,
        };
        self.campaigns.push(CampaignMeta { campaign_address, creator, title, goal, active: true });
        assert(self@ =~= old(self)@.push(self.campaigns@.last()@));
        (req, e)
    }

    /// `get_campaigns`: the registry, in the order of creation.
    pub fn get_campaigns(&self) -> (r: Vec<CampaignMeta>)
        ensures
            metas_view(r@) == self@,
    {
        let mut r: Vec<CampaignMeta> = Vec::new();
        let mut i: usize = 0;
        while i < self.campaigns.len()
            invariant
                i <= self.campaigns.len(),
                r@.len() == i,
                forall|j: int| 0 <= j < i ==> #[trigger] r@[j]@ == self.campaigns@[j]@,
            decreases self.campaigns.len() - i,
        {
            r.push(self.campaigns[i].snapshot());
            i = i + 1;
        }
        assert(metas_view(r@) =~= self@);
        r
    }

    /// `update_status`: sets the active flag of the first entry for
    /// `campaign` and returns the event that announces it; leaves the
    /// registry unchanged, and returns no event, when there is no such entry.
    pub fn update_status(&mut self, campaign: &String, active: bool) -> (ev: Option<StatusUpdated>)
        ensures
            final(self)@ == with_status(old(self)@, campaign@, active),
            ev is Some <==> index_of_campaign(old(self)@, campaign@) >= 0,
            final(self)@.len() == old(self)@.len(),
            index_of_campaign(old(self)@, campaign@) >= 0 ==> ({
                let i = index_of_campaign(old(self)@, campaign@);
                &&& final(self)@[i].active == active
                &&& final(self)@[i].campaign_address == old(self)@[i].campaign_address
                &&& final(self)@[i].creator == old(self)@[i].creator
                &&& final(self)@[i].title == old(self)@[i].title
                &&& final(self)@[i].goal == old(self)@[i].goal
                &&& forall|k: int| 0 <= k < old(self)@.len() && k != i ==> #[trigger] final(self)@[k] == old(self)@[k]
            }),
            ev matches Some(e) ==> e.campaign_address@ == campaign@ && e.active == active,
    {
        let ghost reg = self@;
        proof {
            lemma_index_of_campaign(reg, campaign@);
        }
        let mut i: usize = 0;
        let mut found = false;
        while i < self.campaigns.len()
            invariant_except_break
                !found,
                i <= self.campaigns.len(),
                self@ == reg,
                reg.len() == self.campaigns.len(),
                forall|j: int| 0 <= j < i ==> #[trigger] reg[j].campaign_address != campaign@,
            ensures
                self@ == reg,
                reg.len() == self.campaigns.len(),
                found ==> i < self.campaigns.len() && reg[i as int].campaign_address == campaign@,
                forall|j: int| 0 <= j < (if found { i as int } else { reg.len() as int }) ==> #[trigger] reg[j].campaign_address != campaign@,
            decreases self.campaigns.len() - i,
        {
            if self.campaigns[i].campaign_address == *campaign {
                found = true;
                break;
            }
            i = i + 1;
        }
        if found {
            assert(index_of_campaign(reg, campaign@) == i as int);
            let m = self.campaigns[i].snapshot();
            self.campaigns.set(i, CampaignMeta { active, ..m });
            assert(self@ =~= with_status(reg, campaign@, active));
            Some(StatusUpdated { campaign_address: campaign.clone(), active })
        } else {
            assert(index_of_campaign(reg, campaign@) < 0);
            None
        }
    }
}

} // verus!
