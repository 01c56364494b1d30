//! Properties that hold across the requests of a campaign and between a
//! campaign and the factory's registry.

use vstd::prelude::*;
use crate::error::Error;
use crate::campaign::{
    ActionView, EventView, CampaignDataView, CampaignState, InitRequestView, contribution_of, empty_state,
    init_step, init_request_step, contribute_step, contribute_overflows, withdraw_step,
    refund_step,
};
use crate::factory::{
    CampaignMetaView, index_of_campaign, with_status, lemma_index_of_campaign, registry_entry,
    init_request_for,
};

verus! {

/// The net amount of tokens that a list of actions moves into the campaign.
pub open spec fn net_inflow(acts: Seq<ActionView>) -> int
    decreases acts.len(),
{
    if acts.len() == 0 {
        0
    } else {
        net_inflow(acts.drop_last()) + match acts.last() {
            ActionView::Collect { amount, .. } => amount,
            ActionView::Pay { amount, .. } => -amount,
            _ => 0,
        }
    }
}

/// A campaign that is still active has not met its goal, unless nothing was
/// raised at all.
pub open spec fn active_means_open(s: CampaignState) -> bool {
    s.data matches Some(d) ==> (d.active ==> d.total_raised < d.goal || d.total_raised == 0)
}

/// The registry after it received the factory notifications among `acts`
/// from the campaign at `addr`.
pub open spec fn deliver_notifications(reg: Seq<CampaignMetaView>, addr: Seq<char>, acts: Seq<ActionView>) -> Seq<CampaignMetaView>
    decreases acts.len(),
{
    if acts.len() == 0 {
        reg
    } else {
        let r = deliver_notifications(reg, addr, acts.drop_last());
        match acts.last() {
            ActionView::NotifyFactory { active, .. } => with_status(r, addr, active),
            _ => r,
        }
    }
}

/// The registry has an entry for the campaign at `addr`, and that entry's
/// active flag is the campaign's.
pub open spec fn registry_in_sync(reg: Seq<CampaignMetaView>, addr: Seq<char>, s: CampaignState) -> bool {
    let i = index_of_campaign(reg, addr);
    &&& i >= 0
    &&& s.data matches Some(d)
    &&& reg[i].active == d.active
}

/// A campaign is initialized at most once: after a successful `init`, every
/// further `init` is refused with `AlreadyInitialized`.
pub proof fn law_init_once(
    s: CampaignState,
    factory: Seq<char>, creator: Seq<char>, title: Seq<char>, description: Seq<char>,
    goal: int, deadline: u64, token: Seq<char>,
    factory2: Seq<char>, creator2: Seq<char>, title2: Seq<char>, description2: Seq<char>,
    goal2: int, deadline2: u64, token2: Seq<char>,
)
    requires
        init_step(s, factory, creator, title, description, goal, deadline, token) is Ok,
    ensures
        init_step(
            init_step(s, factory, creator, title, description, goal, deadline, token)->Ok_0.0,
            factory2, creator2, title2, description2, goal2, deadline2, token2,
        ) == Err::<(CampaignState, Seq<ActionView>), Error>(Error::AlreadyInitialized),
{
}

/// Before `init`, every contribution, withdrawal and refund is refused with
/// `NotInitialized`.
pub proof fn law_uninitialized_refuses(s: CampaignState, now: u64, who: Seq<char>, amount: int)
    requires
        s.data is None,
    ensures
        contribute_step(s, now, who, amount) == Err::<(CampaignState, Seq<ActionView>), Error>(Error::NotInitialized),
        withdraw_step(s, who) == Err::<(CampaignState, Seq<ActionView>), Error>(Error::NotInitialized),
        refund_step(s, now, who) == Err::<(CampaignState, Seq<ActionView>), Error>(Error::NotInitialized),
{
}

/// A contribution is read back: the contributor's running contribution and
/// the total both grow by the amount, nobody else's contribution changes,
/// and the tokens collected are exactly the amount.
pub proof fn law_contribution_recorded(s: CampaignState, now: u64, who: Seq<char>, amount: int, other: Seq<char>)
    requires
        contribute_step(s, now, who, amount) is Ok,
    ensures
        ({
            let (s2, acts) = contribute_step(s, now, who, amount)->Ok_0;
            &&& contribution_of(s2, who) == contribution_of(s, who) + amount
            &&& other != who ==> contribution_of(s2, other) == contribution_of(s, other)
            &&& s2.data->Some_0.total_raised == s.data->Some_0.total_raised + amount
            &&& net_inflow(acts) == amount
        }),
{
    let (s2, acts) = contribute_step(s, now, who, amount)->Ok_0;
    reveal_with_fuel(net_inflow, 5);
    assert(s2.contributions.dom().contains(who));
}

/// A refund pays back exactly the running contribution and clears it, so a
/// second refund of the same contributor is always refused (with
/// `NoContribution` once the deadline has passed); the total is unchanged.
pub proof fn law_refund_once(s: CampaignState, now: u64, who: Seq<char>, now2: u64)
    requires
        refund_step(s, now, who) is Ok,
    ensures
        ({
            let (s2, acts) = refund_step(s, now, who)->Ok_0;
            &&& net_inflow(acts) == -contribution_of(s, who)
            &&& contribution_of(s2, who) == 0
            &&& s2.data == s.data
            &&& refund_step(s2, now2, who) is Err
            &&& now2 > s.data->Some_0.deadline ==> refund_step(s2, now2, who)
                == Err::<(CampaignState, Seq<ActionView>), Error>(Error::NoContribution)
        }),
{
    let (s2, acts) = refund_step(s, now, who)->Ok_0;
    reveal_with_fuel(net_inflow, 3);
    assert(s2.contributions.dom().contains(who));
}

/// A withdrawal pays the creator exactly the total raised and empties it, so
/// any further withdrawal is refused.
pub proof fn law_withdraw_once(s: CampaignState, who: Seq<char>, who2: Seq<char>)
    requires
        withdraw_step(s, who) is Ok,
    ensures
        ({
            let (s2, acts) = withdraw_step(s, who)->Ok_0;
            &&& net_inflow(acts) == -s.data->Some_0.total_raised
            &&& s2.data->Some_0.total_raised == 0
            &&& s2.contributions == s.contributions
            &&& withdraw_step(s2, who2) is Err
        }),
{
    reveal_with_fuel(net_inflow, 3);
}

/// In no state can both the creator withdraw and a contributor be refunded.
/// It holds across states too: a withdrawal leaves the campaign inactive for
/// good, and an inactive campaign refuses every refund
/// (`law_no_refund_once_goal_met`).
pub proof fn law_withdraw_excludes_refund(s: CampaignState, creator: Seq<char>, now: u64, who: Seq<char>)
    ensures
        !(withdraw_step(s, creator) is Ok && refund_step(s, now, who) is Ok),
{
}

/// At no moment can one both contribute and be refunded: contributions are
/// taken up to the deadline, refunds only after it.
pub proof fn law_deadline_separates(s: CampaignState, now: u64, who: Seq<char>, amount: int, who2: Seq<char>)
    ensures
        !(contribute_step(s, now, who, amount) is Ok && refund_step(s, now, who2) is Ok),
{
}

/// Every request keeps an active campaign short of its goal (or with
/// nothing raised): `init` establishes it and each accepted request keeps it.
pub proof fn law_active_means_open(
    s: CampaignState,
    now: u64, who: Seq<char>, amount: int,
    factory: Seq<char>, creator: Seq<char>, title: Seq<char>, description: Seq<char>,
    goal: int, deadline: u64, token: Seq<char>,
)
    requires
        active_means_open(s),
    ensures
        init_step(s, factory, creator, title, description, goal, deadline, token) matches Ok((s2, _))
            ==> active_means_open(s2),
        contribute_step(s, now, who, amount) matches Ok((s2, _)) ==> active_means_open(s2),
        withdraw_step(s, who) matches Ok((s2, _)) ==> active_means_open(s2),
        refund_step(s, now, who) matches Ok((s2, _)) ==> active_means_open(s2),
{
}

/// Setting an entry's active flag does not move the first entry of any
/// campaign.
pub proof fn lemma_with_status_keeps_index(reg: Seq<CampaignMetaView>, addr: Seq<char>, active: bool, other: Seq<char>)
    ensures
        index_of_campaign(with_status(reg, addr, active), other) == index_of_campaign(reg, other),
        with_status(reg, addr, active).len() == reg.len(),
{
    let r2 = with_status(reg, addr, active);
    lemma_index_of_campaign(reg, addr);
    lemma_same_addresses_same_index(reg, r2, other);
}

/// Registries with the same addresses in the same places find the same
/// first entry for a campaign.
pub proof fn lemma_same_addresses_same_index(a: Seq<CampaignMetaView>, b: Seq<CampaignMetaView>, addr: Seq<char>)
    requires
        a.len() == b.len(),
        forall|j: int| 0 <= j < a.len() ==> #[trigger] a[j].campaign_address == b[j].campaign_address,
    ensures
        index_of_campaign(a, addr) == index_of_campaign(b, addr),
    decreases a.len(),
{
    if a.len() > 0 {
        let (da, db) = (a.drop_last(), b.drop_last());
        assert forall|j: int| 0 <= j < da.len() implies #[trigger] da[j].campaign_address == db[j].campaign_address by {
            assert(da[j] == a[j]);
            assert(db[j] == b[j]);
        }
        lemma_same_addresses_same_index(da, db, addr);
        assert(a.last().campaign_address == b.last().campaign_address);
    }
}

/// The factory's registry stays in step with a campaign: if its entry for
/// the campaign agrees on the active flag, it still agrees after any request
/// the campaign accepts, once the notifications that request calls for have
/// been delivered.
pub proof fn law_registry_stays_in_sync(
    reg: Seq<CampaignMetaView>, addr: Seq<char>, s: CampaignState,
    now: u64, who: Seq<char>, amount: int,
)
    requires
        active_means_open(s),
        registry_in_sync(reg, addr, s),
    ensures
        contribute_step(s, now, who, amount) matches Ok((s2, acts))
            ==> registry_in_sync(deliver_notifications(reg, addr, acts), addr, s2),
        withdraw_step(s, who) matches Ok((s2, acts))
            ==> registry_in_sync(deliver_notifications(reg, addr, acts), addr, s2),
        refund_step(s, now, who) matches Ok((s2, acts))
            ==> registry_in_sync(deliver_notifications(reg, addr, acts), addr, s2),
{
    reveal_with_fuel(deliver_notifications, 5);
    lemma_index_of_campaign(reg, addr);
    lemma_with_status_keeps_index(reg, addr, false, addr);
}

/// A campaign that the factory registers and then initializes, on its fresh
/// storage, with the request `create_campaign` returns, is accepted, holds
/// exactly the arguments given to `create_campaign` (with nothing raised, and
/// the factory as its factory), agrees with its registry entry on creator,
/// title and goal, and starts in step with the registry.
pub proof fn law_created_campaign_in_sync(
    reg: Seq<CampaignMetaView>, factory: Seq<char>, addr: Seq<char>,
    creator: Seq<char>, title: Seq<char>, description: Seq<char>,
    goal: int, deadline: u64, token: Seq<char>,
)
    requires
        index_of_campaign(reg, addr) < 0,
    ensures
        ({
            let reg2 = reg.push(registry_entry(addr, creator, title, goal));
            let req = init_request_for(factory, creator, title, description, goal, deadline, token);
            let i = index_of_campaign(reg2, addr);
            &&& init_request_step(empty_state(), req) is Ok
            &&& init_request_step(empty_state(), req)->Ok_0.0.data == Some(
                CampaignDataView {
                    creator, title, description, goal, deadline, token,
                    total_raised: 0, active: true, factory,
                },
            )
            &&& registry_in_sync(reg2, addr, init_request_step(empty_state(), req)->Ok_0.0)
            &&& active_means_open(init_request_step(empty_state(), req)->Ok_0.0)
            &&& reg2[i].creator == creator && reg2[i].title == title && reg2[i].goal == goal
        }),
{
    let reg2 = reg.push(registry_entry(addr, creator, title, goal));
    assert(reg2.drop_last() =~= reg);
}

/// A request made of a campaign.
pub enum CampaignRequest {
    Init(InitRequestView),
    Contribute { now: u64, who: Seq<char>, amount: int },
    Withdraw { who: Seq<char> },
    Refund { now: u64, who: Seq<char> },
}

/// What an accepted request leads to: the new state and the actions; `None`
/// when the request is refused or would overflow (and so abort).
pub open spec fn request_outcome(s: CampaignState, r: CampaignRequest) -> Option<(CampaignState, Seq<ActionView>)> {
    match r {
        CampaignRequest::Init(req) => match init_request_step(s, req) {
            Ok(x) => Some(x),
            Err(_) => None,
        },
        CampaignRequest::Contribute { now, who, amount } => if contribute_overflows(s, now, who, amount) {
            None
        } else {
            match contribute_step(s, now, who, amount) {
                Ok(x) => Some(x),
                Err(_) => None,
            }
        },
        CampaignRequest::Withdraw { who } => match withdraw_step(s, who) {
            Ok(x) => Some(x),
            Err(_) => None,
        },
        CampaignRequest::Refund { now, who } => match refund_step(s, now, who) {
            Ok(x) => Some(x),
            Err(_) => None,
        },
    }
}

/// The state after a request: the new state when the request is accepted,
/// the same state when it is refused or would overflow (and so abort).
pub open spec fn apply_request(s: CampaignState, r: CampaignRequest) -> CampaignState {
    match request_outcome(s, r) {
        Some((s2, _)) => s2,
        None => s,
    }
}

/// The state after a series of requests, in order.
pub open spec fn run_requests(s: CampaignState, rs: Seq<CampaignRequest>) -> CampaignState
    decreases rs.len(),
{
    if rs.len() == 0 {
        s
    } else {
        apply_request(run_requests(s, rs.drop_last()), rs.last())
    }
}

/// What `who` has contributed since their last accepted refund in `rs`: the
/// sum of the amounts of their accepted contributions after it, plus, when
/// `rs` holds no accepted refund of theirs, what they had to start with.
pub open spec fn contributed_since_refund(s: CampaignState, rs: Seq<CampaignRequest>, who: Seq<char>) -> int
    decreases rs.len(),
{
    if rs.len() == 0 {
        contribution_of(s, who)
    } else {
        let prev = run_requests(s, rs.drop_last());
        let before = contributed_since_refund(s, rs.drop_last(), who);
        match rs.last() {
            CampaignRequest::Contribute { now, who: w, amount } => if w == who
                && !contribute_overflows(prev, now, w, amount) && contribute_step(prev, now, w, amount) is Ok {
                before + amount
            } else {
                before
            },
            CampaignRequest::Refund { now, who: w } => if w == who && refund_step(prev, now, w) is Ok {
                0
            } else {
                before
            },
            _ => before,
        }
    }
}

/// A contributor's recorded contribution is always the sum of what they
/// contributed since their last refund: over any series of requests, from
/// any state.
pub proof fn law_contribution_is_sum_since_refund(s: CampaignState, rs: Seq<CampaignRequest>, who: Seq<char>)
    ensures
        contribution_of(run_requests(s, rs), who) == contributed_since_refund(s, rs, who),
    decreases rs.len(),
{
    if rs.len() > 0 {
        law_contribution_is_sum_since_refund(s, rs.drop_last(), who);
        let prev = run_requests(s, rs.drop_last());
        match rs.last() {
            CampaignRequest::Contribute { now, who: w, amount } => {
                if !contribute_overflows(prev, now, w, amount) && contribute_step(prev, now, w, amount) is Ok {
                    let s2 = contribute_step(prev, now, w, amount)->Ok_0.0;
                    assert(s2.contributions.dom().contains(w));
                }
            },
            CampaignRequest::Refund { now, who: w } => {
                if refund_step(prev, now, w) is Ok {
                    let s2 = refund_step(prev, now, w)->Ok_0.0;
                    assert(s2.contributions.dom().contains(w));
                }
            },
            _ => {},
        }
    }
}

/// A contribution request is accepted from `s`: it would not overflow and is
/// not refused.
pub open spec fn contribute_accepted(s: CampaignState, now: u64, who: Seq<char>, amount: int) -> bool {
    !contribute_overflows(s, now, who, amount) && contribute_step(s, now, who, amount) is Ok
}

/// No contribution in `rs` is accepted when the requests run from `s`.
pub open spec fn no_contribution_accepted(s: CampaignState, rs: Seq<CampaignRequest>) -> bool
    decreases rs.len(),
{
    if rs.len() == 0 {
        true
    } else {
        &&& no_contribution_accepted(s, rs.drop_last())
        &&& match rs.last() {
            CampaignRequest::Contribute { now, who, amount } =>
                !contribute_accepted(run_requests(s, rs.drop_last()), now, who, amount),
            _ => true,
        }
    }
}

/// No contribution of `who` in `rs` is accepted when the requests run from `s`.
pub open spec fn no_contribution_of_accepted(s: CampaignState, rs: Seq<CampaignRequest>, who: Seq<char>) -> bool
    decreases rs.len(),
{
    if rs.len() == 0 {
        true
    } else {
        &&& no_contribution_of_accepted(s, rs.drop_last(), who)
        &&& match rs.last() {
            CampaignRequest::Contribute { now, who: w, amount } =>
                !(w == who && contribute_accepted(run_requests(s, rs.drop_last()), now, w, amount)),
            _ => true,
        }
    }
}

/// Once a campaign is inactive (its goal was met, by a contribution, and
/// possibly withdrawn since), it stays inactive, keeps its deadline, and
/// refuses every refund, whatever requests follow: with `GoalReached` once
/// the deadline has passed. In particular nothing is refunded after a
/// withdrawal.
pub proof fn law_no_refund_once_goal_met(s: CampaignState, rs: Seq<CampaignRequest>, now: u64, who: Seq<char>)
    requires
        s.data matches Some(d) && !d.active,
    ensures
        run_requests(s, rs).data matches Some(d2) && !d2.active && d2.deadline == s.data->Some_0.deadline,
        refund_step(run_requests(s, rs), now, who) is Err,
        now > s.data->Some_0.deadline ==> refund_step(run_requests(s, rs), now, who)
            == Err::<(CampaignState, Seq<ActionView>), Error>(Error::GoalReached),
    decreases rs.len(),
{
    if rs.len() > 0 {
        law_no_refund_once_goal_met(s, rs.drop_last(), now, who);
    }
}

/// After an accepted withdrawal the campaign is inactive, so the law above
/// applies: no refund follows a withdrawal.
pub proof fn law_withdraw_ends_refunds(s: CampaignState, creator: Seq<char>, rs: Seq<CampaignRequest>, now: u64, who: Seq<char>)
    requires
        withdraw_step(s, creator) is Ok,
    ensures
        refund_step(run_requests(withdraw_step(s, creator)->Ok_0.0, rs), now, who) is Err,
{
    law_no_refund_once_goal_met(withdraw_step(s, creator)->Ok_0.0, rs, now, who);
}

/// With nothing raised and no contribution accepted, nothing is ever raised:
/// every withdrawal is refused (`GoalNotReached` for a positive goal,
/// `NoFundsToWithdraw` otherwise) and the total stays zero.
pub proof fn lemma_nothing_raised_stays(s: CampaignState, rs: Seq<CampaignRequest>)
    requires
        s.data matches Some(d) && d.total_raised == 0,
        no_contribution_accepted(s, rs),
    ensures
        run_requests(s, rs).data matches Some(d2) && d2.total_raised == 0 && d2.goal == s.data->Some_0.goal,
    decreases rs.len(),
{
    if rs.len() > 0 {
        lemma_nothing_raised_stays(s, rs.drop_last());
    }
}

/// The raised funds are paid out once: after an accepted withdrawal, and as
/// long as no contribution is accepted since, every further withdrawal is
/// refused, with `GoalNotReached` for a positive goal and
/// `NoFundsToWithdraw` otherwise.
pub proof fn law_withdraw_pays_once(s: CampaignState, creator: Seq<char>, rs: Seq<CampaignRequest>, who: Seq<char>)
    requires
        withdraw_step(s, creator) is Ok,
        no_contribution_accepted(withdraw_step(s, creator)->Ok_0.0, rs),
    ensures
        ({
            let s2 = run_requests(withdraw_step(s, creator)->Ok_0.0, rs);
            &&& withdraw_step(s2, who) is Err
            &&& who == s.data->Some_0.creator ==> withdraw_step(s2, who) == Err::<(CampaignState, Seq<ActionView>), Error>(
                if s.data->Some_0.goal > 0 { Error::GoalNotReached } else { Error::NoFundsToWithdraw },
            )
        }),
{
    let s1 = withdraw_step(s, creator)->Ok_0.0;
    lemma_nothing_raised_stays(s1, rs);
    lemma_creator_stays(s1, rs);
}

/// The creator never changes once the campaign is initialized.
pub proof fn lemma_creator_stays(s: CampaignState, rs: Seq<CampaignRequest>)
    requires
        s.data is Some,
    ensures
        run_requests(s, rs).data matches Some(d2) && d2.creator == s.data->Some_0.creator,
    decreases rs.len(),
{
    if rs.len() > 0 {
        lemma_creator_stays(s, rs.drop_last());
    }
}

/// Each recorded contribution is refunded at most once: after an accepted
/// refund of `who`, as long as no contribution of theirs is accepted since,
/// their recorded contribution stays zero and every further refund of theirs
/// is refused; once the deadline has passed and the goal is still unmet, with
/// `NoContribution`.
pub proof fn law_refund_pays_once(s: CampaignState, now: u64, who: Seq<char>, rs: Seq<CampaignRequest>, now2: u64)
    requires
        refund_step(s, now, who) is Ok,
        no_contribution_of_accepted(refund_step(s, now, who)->Ok_0.0, rs, who),
    ensures
        ({
            let s2 = run_requests(refund_step(s, now, who)->Ok_0.0, rs);
            &&& contribution_of(s2, who) == 0
            &&& refund_step(s2, now2, who) is Err
            &&& (s2.data matches Some(d) && now2 > d.deadline && d.total_raised < d.goal && d.active)
                ==> refund_step(s2, now2, who) == Err::<(CampaignState, Seq<ActionView>), Error>(Error::NoContribution)
        }),
{
    let s1 = refund_step(s, now, who)->Ok_0.0;
    assert(s1.contributions.dom().contains(who));
    lemma_no_contribution_keeps_zero(s1, rs, who);
}

/// Without an accepted contribution of `who`, a zero contribution stays zero.
pub proof fn lemma_no_contribution_keeps_zero(s: CampaignState, rs: Seq<CampaignRequest>, who: Seq<char>)
    requires
        contribution_of(s, who) == 0,
        no_contribution_of_accepted(s, rs, who),
    ensures
        contribution_of(run_requests(s, rs), who) == 0,
    decreases rs.len(),
{
    if rs.len() > 0 {
        lemma_no_contribution_keeps_zero(s, rs.drop_last(), who);
        law_contribution_is_sum_since_refund(s, rs, who);
        law_contribution_is_sum_since_refund(s, rs.drop_last(), who);
    }
}

/// Something that happens to a campaign at `addr` or to the factory's
/// registry.
pub enum SystemEvent {
    /// A request to the campaign; the factory notifications it calls for
    /// are delivered to the registry.
    Campaign(CampaignRequest),
    /// The factory's `update_status` for some campaign.
    Status { campaign: Seq<char>, active: bool },
    /// The factory registers a campaign.
    Register(CampaignMetaView),
}

/// The campaign's state and the registry after a series of events.
pub open spec fn run_system(
    s: CampaignState,
    reg: Seq<CampaignMetaView>,
    addr: Seq<char>,
    evs: Seq<SystemEvent>,
) -> (CampaignState, Seq<CampaignMetaView>)
    decreases evs.len(),
{
    if evs.len() == 0 {
        (s, reg)
    } else {
        let (s1, r1) = run_system(s, reg, addr, evs.drop_last());
        match evs.last() {
            SystemEvent::Campaign(r) => match request_outcome(s1, r) {
                Some((s2, acts)) => (s2, deliver_notifications(r1, addr, acts)),
                None => (s1, r1),
            },
            SystemEvent::Status { campaign, active } => (s1, with_status(r1, campaign, active)),
            SystemEvent::Register(m) => (s1, r1.push(m)),
        }
    }
}

/// The factory's registry stays in step with the campaign at `addr` over
/// any series of requests to the campaign (their notifications delivered)
/// interleaved with registry changes for other campaigns: status updates of
/// other campaigns and new registrations. It needs only that the two start
/// in step (as `law_created_campaign_in_sync` gives for a new campaign) and
/// that only the campaign itself sets its own status.
pub proof fn law_registry_always_in_sync(
    s: CampaignState,
    reg: Seq<CampaignMetaView>,
    addr: Seq<char>,
    evs: Seq<SystemEvent>,
)
    requires
        active_means_open(s),
        registry_in_sync(reg, addr, s),
        forall|i: int| 0 <= i < evs.len() ==> (#[trigger] evs[i] matches SystemEvent::Status { campaign, .. } ==> campaign != addr),
    ensures
        active_means_open(run_system(s, reg, addr, evs).0),
        registry_in_sync(run_system(s, reg, addr, evs).1, addr, run_system(s, reg, addr, evs).0),
    decreases evs.len(),
{
    if evs.len() > 0 {
        let w = evs.drop_last();
        assert forall|i: int| 0 <= i < w.len() implies (#[trigger] w[i] matches SystemEvent::Status { campaign, .. } ==> campaign != addr) by {
            assert(w[i] == evs[i]);
        }
        law_registry_always_in_sync(s, reg, addr, w);
        let (s1, r1) = run_system(s, reg, addr, w);
        let i = index_of_campaign(r1, addr);
        lemma_index_of_campaign(r1, addr);
        match evs.last() {
            SystemEvent::Campaign(r) => {
                match r {
                    CampaignRequest::Init(req) => {},
                    CampaignRequest::Contribute { now, who, amount } => {
                        law_registry_stays_in_sync(r1, addr, s1, now, who, amount);
                        law_active_means_open(s1, now, who, amount, addr, addr, addr, addr, 0, 0, addr);
                    },
                    CampaignRequest::Withdraw { who } => {
                        law_registry_stays_in_sync(r1, addr, s1, 0, who, 0);
                        law_active_means_open(s1, 0, who, 0, addr, addr, addr, addr, 0, 0, addr);
                    },
                    CampaignRequest::Refund { now, who } => {
                        law_registry_stays_in_sync(r1, addr, s1, now, who, 0);
                        law_active_means_open(s1, now, who, 0, addr, addr, addr, addr, 0, 0, addr);
                    },
                }
            },
            SystemEvent::Status { campaign, active } => {
                assert(evs[evs.len() - 1] == evs.last());
                lemma_with_status_keeps_index(r1, campaign, active, addr);
                lemma_index_of_campaign(r1, campaign);
            },
            SystemEvent::Register(m) => {
                assert(r1.push(m).drop_last() =~= r1);
            },
        }
    }
}

/// `update_status` sets the flag to the value asked for: when the registry
/// has an entry for `addr`, the first such entry ends with `active` equal to
/// the argument (whatever it was before) and its address, creator, title and
/// goal unchanged; every other entry, and the registry's length, stay as they
/// were. Without such an entry the registry is unchanged.
pub proof fn law_update_status_sets_flag(reg: Seq<CampaignMetaView>, addr: Seq<char>, active: bool)
    ensures
        ({
            let reg2 = with_status(reg, addr, active);
            let i = index_of_campaign(reg, addr);
            &&& reg2.len() == reg.len()
            &&& (exists|j: int| 0 <= j < reg.len() && #[trigger] reg[j].campaign_address == addr) ==> {
                &&& 0 <= i < reg.len()
                &&& reg[i].campaign_address == addr
                &&& forall|k: int| 0 <= k < i ==> #[trigger] reg[k].campaign_address != addr
                &&& reg2[i].active == active
                &&& reg2[i].campaign_address == reg[i].campaign_address
                &&& reg2[i].creator == reg[i].creator
                &&& reg2[i].title == reg[i].title
                &&& reg2[i].goal == reg[i].goal
                &&& forall|k: int| 0 <= k < reg.len() && k != i ==> #[trigger] reg2[k] == reg[k]
            }
            &&& !(exists|j: int| 0 <= j < reg.len() && #[trigger] reg[j].campaign_address == addr) ==> reg2 == reg
        }),
{
    lemma_index_of_campaign(reg, addr);
    if exists|j: int| 0 <= j < reg.len() && #[trigger] reg[j].campaign_address == addr {
        let j = choose|j: int| 0 <= j < reg.len() && #[trigger] reg[j].campaign_address == addr;
        assert(index_of_campaign(reg, addr) >= 0);
    }
}

/// An accepted contribution collects exactly the contributed amount from the
/// contributor, first, and then announces the contribution with that same
/// amount; every contribution event among its actions names the contributor
/// and carries exactly the contributed amount (not a running total).
pub proof fn law_contribution_event(s: CampaignState, now: u64, who: Seq<char>, amount: int)
    requires
        contribute_step(s, now, who, amount) is Ok,
    ensures
        ({
            let acts = contribute_step(s, now, who, amount)->Ok_0.1;
            &&& acts.len() >= 2
            &&& acts[0] == ActionView::Collect { token: s.data->Some_0.token, from: who, amount }
            &&& acts[1] == ActionView::Publish(EventView::ContributionMade { contributor: who, amount })
            &&& forall|k: int| 0 <= k < acts.len() ==> (#[trigger] acts[k] matches ActionView::Publish(EventView::ContributionMade { contributor, amount: a })
                ==> contributor == who && a == amount)
            &&& forall|k: int| 0 <= k < acts.len() ==> (#[trigger] acts[k] matches ActionView::Collect { from, amount: a, .. }
                ==> from == who && a == amount)
        }),
{
}

/// An accepted refund pays the contributor exactly their recorded
/// contribution before the refund and announces the refund with that same
/// amount; nothing else happens.
pub proof fn law_refund_event(s: CampaignState, now: u64, who: Seq<char>)
    requires
        refund_step(s, now, who) is Ok,
    ensures
        refund_step(s, now, who)->Ok_0.1 == seq![
            ActionView::Pay { token: s.data->Some_0.token, to: who, amount: contribution_of(s, who) },
            ActionView::Publish(EventView::RefundIssued { contributor: who, amount: contribution_of(s, who) }),
        ],
        contribution_of(s, who) != 0,
{
}

/// An accepted withdrawal pays the creator exactly the total raised before
/// it and announces the withdrawal with that same amount; nothing else
/// happens.
pub proof fn law_withdraw_event(s: CampaignState, who: Seq<char>)
    requires
        withdraw_step(s, who) is Ok,
    ensures
        who == s.data->Some_0.creator,
        withdraw_step(s, who)->Ok_0.1 == seq![
            ActionView::Pay { token: s.data->Some_0.token, to: who, amount: s.data->Some_0.total_raised },
            ActionView::Publish(EventView::FundsWithdrawn { creator: who, amount: s.data->Some_0.total_raised }),
        ],
        s.data->Some_0.total_raised >= s.data->Some_0.goal,
        s.data->Some_0.total_raised != 0,
{
}

} // verus!
