//! A single crowdfunding campaign: its state, the requests it answers and
//! the outside actions (token transfers, events, a registry update) that each
//! accepted request calls for.

use vstd::prelude::*;
use crate::error::Error;
use crate::ledger::{ledger_map, is_latest_write, lemma_ledger_absent, lemma_ledger_latest, lemma_ledger_push, lemma_ledger_overwrite};

verus! {

// ---------------------------------------------------------------------------
// Data
// ---------------------------------------------------------------------------

/// What a campaign stores about itself. Accounts and contracts are written
/// by their string key.
#[derive(Debug, PartialEq, Eq)]
pub struct CampaignData {
    pub creator: String,
    pub title: String,
    pub description: String,
    pub goal: i128,
    pub deadline: u64,
    pub token: String,
    pub total_raised: i128,
    pub active: bool,
    pub factory: String,
}

pub struct CampaignDataView {
    pub creator: Seq<char>,
    pub title: Seq<char>,
    pub description: Seq<char>,
    pub goal: int,
    pub deadline: u64,
    pub token: Seq<char>,
    pub total_raised: int,
    pub active: bool,
    pub factory: Seq<char>,
}

impl View for CampaignData {
    type V = CampaignDataView;

    open spec fn view(&self) -> CampaignDataView {
        CampaignDataView {
            creator: self.creator@,
            title: self.title@,
            description: self.description@,
            goal: self.goal as int,
            deadline: self.deadline,
            token: self.token@,
            total_raised: self.total_raised as int,
            active: self.active,
            factory: self.factory@,
        }
    }
}

impl CampaignData {
    /// A copy of this record.
    pub fn snapshot(&self) -> (r: CampaignData)
        ensures
            r@ == self@,
    {
        CampaignData {
            creator: self.creator.clone(),
            title: self.title.clone(),
            description: self.description.clone(),
            goal: self.goal,
            deadline: self.deadline,
            token: self.token.clone(),
            total_raised: self.total_raised,
            active: self.active,
            factory: self.factory.clone(),
        }
    }
}

/// One recorded write of a contributor's running contribution.
#[derive(Debug, PartialEq, Eq)]
pub struct Contribution {
    pub contributor: String,
    pub amount: i128,
}

impl View for Contribution {
    type V = (Seq<char>, int);

    open spec fn view(&self) -> (Seq<char>, int) {
        (self.contributor@, self.amount as int)
    }
}

/// The events a campaign publishes.
#[derive(Debug, PartialEq, Eq)]
pub enum Event {
    Initialized { creator: String, goal: i128, deadline: u64 },
    ContributionMade { contributor: String, amount: i128 },
    StatusChanged { active: bool, total_raised: i128 },
    FundsWithdrawn { creator: String, amount: i128 },
    RefundIssued { contributor: String, amount: i128 },
}

pub enum EventView {
    Initialized { creator: Seq<char>, goal: int, deadline: u64 },
    ContributionMade { contributor: Seq<char>, amount: int },
    StatusChanged { active: bool, total_raised: int },
    FundsWithdrawn { creator: Seq<char>, amount: int },
    RefundIssued { contributor: Seq<char>, amount: int },
}

impl View for Event {
    type V = EventView;

    open spec fn view(&self) -> EventView {
        match self {
            Event::Initialized { creator, goal, deadline } => EventView::Initialized {
                creator: creator@,
                goal: *goal as int,
                deadline: *deadline,
            },
            Event::ContributionMade { contributor, amount } => EventView::ContributionMade {
                contributor: contributor@,
                amount: *amount as int,
            },
            Event::StatusChanged { active, total_raised } => EventView::StatusChanged {
                active: *active,
                total_raised: *total_raised as int,
            },
            Event::FundsWithdrawn { creator, amount } => EventView::FundsWithdrawn {
                creator: creator@,
                amount: *amount as int,
            },
            Event::RefundIssued { contributor, amount } => EventView::RefundIssued {
                contributor: contributor@,
                amount: *amount as int,
            },
        }
    }
}

/// What the host must do, in this order, for a request that the campaign
/// accepted.
#[derive(Debug, PartialEq, Eq)]
pub enum Action {
    /// Move `amount` of `token` from the account `from` to the campaign.
    Collect { token: String, from: String, amount: i128 },
    /// Move `amount` of `token` from the campaign to the account `to`.
    Pay { token: String, to: String, amount: i128 },
    /// Publish an event.
    Publish(Event),
    /// Tell the factory `factory` that this campaign's active flag is now
    /// `active`.
    NotifyFactory { factory: String, active: bool },
}

pub enum ActionView {
    Collect { token: Seq<char>, from: Seq<char>, amount: int },
    Pay { token: Seq<char>, to: Seq<char>, amount: int },
    Publish(EventView),
    NotifyFactory { factory: Seq<char>, active: bool },
}

impl View for Action {
    type V = ActionView;

    open spec fn view(&self) -> ActionView {
        match self {
            Action::Collect { token, from, amount } => ActionView::Collect {
                token: token@,
                from: from@,
                amount: *amount as int,
            },
            Action::Pay { token, to, amount } => ActionView::Pay {
                token: token@,
                to: to@,
                amount: *amount as int,
            },
            Action::Publish(e) => ActionView::Publish(e@),
            Action::NotifyFactory { factory, active } => ActionView::NotifyFactory {
                factory: factory@,
                active: *active,
            },
        }
    }
}

/// The views of a list of actions.
pub open spec fn actions_view(acts: Seq<Action>) -> Seq<ActionView> {
    acts.map_values(|a: Action| a@)
}

// ---------------------------------------------------------------------------
// The model
// ---------------------------------------------------------------------------

/// The whole stored state of a campaign: its record, once initialized, and
/// the running contribution of each account that ever contributed.
pub struct CampaignState {
    pub data: Option<CampaignDataView>,
    pub contributions: Map<Seq<char>, int>,
}

/// The running contribution of `who`: zero when nothing was recorded.
pub open spec fn contribution_of(s: CampaignState, who: Seq<char>) -> int {
    if s.contributions.dom().contains(who) {
        s.contributions[who]
    } else {
        0
    }
}

/// The state of a campaign that has not been initialized.
pub open spec fn empty_state() -> CampaignState {
    CampaignState { data: None, contributions: Map::empty() }
}

/// `init`: records the campaign, with nothing raised yet and active, and
/// publishes that it was set up, unless it was initialized before.
pub open spec fn init_step(
    s: CampaignState,
    factory: Seq<char>,
    creator: Seq<char>,
    title: Seq<char>,
    description: Seq<char>,
    goal: int,
    deadline: u64,
    token: Seq<char>,
) -> Result<(CampaignState, Seq<ActionView>), Error> {
    if s.data is Some {
        Err(Error::AlreadyInitialized)
    } else {
        Ok(
            (
                CampaignState {
                    data: Some(
                        CampaignDataView {
                            creator,
                            title,
                            description,
                            goal,
                            deadline,
                            token,
                            total_raised: 0,
                            active: true,
                            factory,
                        },
                    ),
                    contributions: s.contributions,
                },
                seq![ActionView::Publish(EventView::Initialized { creator, goal, deadline })],
            ),
        )
    }
}

/// The arguments with which a campaign is to be initialized.
#[derive(Debug, PartialEq, Eq)]
pub struct InitRequest {
    pub factory: String,
    pub creator: String,
    pub title: String,
    pub description: String,
    pub goal: i128,
    pub deadline: u64,
    pub token: String,
}

pub struct InitRequestView {
    pub factory: Seq<char>,
    pub creator: Seq<char>,
    pub title: Seq<char>,
    pub description: Seq<char>,
    pub goal: int,
    pub deadline: u64,
    pub token: Seq<char>,
}

impl View for InitRequest {
    type V = InitRequestView;

    open spec fn view(&self) -> InitRequestView {
        InitRequestView {
            factory: self.factory@,
            creator: self.creator@,
            title: self.title@,
            description: self.description@,
            goal: self.goal as int,
            deadline: self.deadline,
            token: self.token@,
        }
    }
}

/// `init_step` applied to the arguments of a request.
pub open spec fn init_request_step(s: CampaignState, req: InitRequestView) -> Result<
    (CampaignState, Seq<ActionView>),
    Error,
> {
    init_step(s, req.factory, req.creator, req.title, req.description, req.goal, req.deadline, req.token)
}

/// Whether the goal counts as reached once the total is `total`.
pub open spec fn goal_met(d: CampaignDataView, total: int) -> bool {
    total >= d.goal
}

/// `contribute`: before or at the deadline, collects `amount` from the
/// contributor, adds it to the total and to the contributor's running
/// contribution, and publishes the contribution; when this makes an active
/// campaign reach its goal, the campaign turns inactive, publishes the change
/// and tells its factory.
pub open spec fn contribute_step(s: CampaignState, now: u64, who: Seq<char>, amount: int) -> Result<
    (CampaignState, Seq<ActionView>),
    Error,
> {
    match s.data {
        None => Err(Error::NotInitialized),
        Some(d) => if now > d.deadline {
            Err(Error::DeadlinePassed)
        } else {
            let total = d.total_raised + amount;
            let reached = d.active && goal_met(d, total);
            let d2 = CampaignDataView { total_raised: total, active: d.active && !reached, ..d };
            let first = seq![
                ActionView::Collect { token: d.token, from: who, amount },
                ActionView::Publish(EventView::ContributionMade { contributor: who, amount }),
            ];
            let acts = if reached {
                first + seq![
                    ActionView::Publish(EventView::StatusChanged { active: false, total_raised: total }),
                    ActionView::NotifyFactory { factory: d.factory, active: false },
                ]
            } else {
                first
            };
            Ok(
                (
                    CampaignState {
                        data: Some(d2),
                        contributions: s.contributions.insert(who, contribution_of(s, who) + amount),
                    },
                    acts,
                ),
            )
        },
    }
}

/// The inputs on which `contribute` would overflow a 128-bit amount (the
/// total or the contributor's running contribution) and abort.
pub open spec fn contribute_overflows(s: CampaignState, now: u64, who: Seq<char>, amount: int) -> bool {
    match s.data {
        None => false,
        Some(d) => now <= d.deadline && (
            d.total_raised + amount < i128::MIN || d.total_raised + amount > i128::MAX
            || contribution_of(s, who) + amount < i128::MIN
            || contribution_of(s, who) + amount > i128::MAX),
    }
}

/// `withdraw`: the creator takes everything raised, once the goal is met and
/// something was raised; the campaign turns inactive with nothing raised.
pub open spec fn withdraw_step(s: CampaignState, who: Seq<char>) -> Result<
    (CampaignState, Seq<ActionView>),
    Error,
> {
    match s.data {
        None => Err(Error::NotInitialized),
        Some(d) => if who != d.creator {
            Err(Error::Unauthorized)
        } else if d.total_raised < d.goal {
            Err(Error::GoalNotReached)
        } else if d.total_raised == 0 {
            Err(Error::NoFundsToWithdraw)
        } else {
            let amount = d.total_raised;
            Ok(
                (
                    CampaignState {
                        data: Some(CampaignDataView { total_raised: 0, active: false, ..d }),
                        contributions: s.contributions,
                    },
                    seq![
                        ActionView::Pay { token: d.token, to: who, amount },
                        ActionView::Publish(EventView::FundsWithdrawn { creator: who, amount }),
                    ],
                ),
            )
        },
    }
}

/// `refund`: after the deadline, for a campaign that never met its goal,
/// pays a contributor back their running contribution and records it as
/// zero. A campaign that met its goal is inactive from then on (even after
/// the creator withdrew and the total went back to zero), so it refuses
/// refunds with `GoalReached`.
pub open spec fn refund_step(s: CampaignState, now: u64, who: Seq<char>) -> Result<
    (CampaignState, Seq<ActionView>),
    Error,
> {
    match s.data {
        None => Err(Error::NotInitialized),
        Some(d) => if now <= d.deadline {
            Err(Error::DeadlineNotPassed)
        } else if d.total_raised >= d.goal || !d.active {
            Err(Error::GoalReached)
        } else if contribution_of(s, who) == 0 {
            Err(Error::NoContribution)
        } else {
            let amount = contribution_of(s, who);
            Ok(
                (
                    CampaignState { data: s.data, contributions: s.contributions.insert(who, 0) },
                    seq![
                        ActionView::Pay { token: d.token, to: who, amount },
                        ActionView::Publish(EventView::RefundIssued { contributor: who, amount }),
                    ],
                ),
            )
        },
    }
}

// ---------------------------------------------------------------------------
// The campaign
// ---------------------------------------------------------------------------

/// A campaign's stored state.
pub struct CampaignContract {
    data: Option<CampaignData>,
    contributions: Vec<Contribution>,
}

impl View for CampaignContract {
    type V = CampaignState;

    closed spec fn view(&self) -> CampaignState {
        CampaignState {
            data: match self.data {
                Some(d) => Some(d@),
                None => None,
            },
            contributions: ledger_map(self.writes()),
        }
    }
}

/// A step's outcome matches the model's: the same error with the state
/// unchanged, or success with the model's new state and actions.
pub open spec fn step_matches(
    model: Result<(CampaignState, Seq<ActionView>), Error>,
    before: CampaignState,
    after: CampaignState,
    r: Result<Vec<Action>, Error>,
) -> bool {
    match model {
        Ok((s, acts)) => r matches Ok(v) && after == s && actions_view(v@) == acts,
        Err(e) => r == Err::<Vec<Action>, Error>(e) && after == before,
    }
}

impl CampaignContract {
    /// The contribution writes, as views.
    pub closed spec fn writes(&self) -> Seq<(Seq<char>, int)> {
        self.contributions@.map_values(|c: Contribution| c@)
    }

    /// A campaign that has not been initialized.
    pub fn new() -> (c: CampaignContract)
        ensures
            c@ == empty_state(),
    {
        let c = CampaignContract { data: None, contributions: Vec::new() };
        assert(c@.contributions =~= Map::empty());
        c
    }

    /// A campaign with the given record and contribution writes, the latest
    /// write for an account counting.
    pub fn from_parts(data: Option<CampaignData>, contributions: Vec<Contribution>) -> (c: CampaignContract)
        ensures
            c@.data == (match data {
                Some(d) => Some(d@),
                None => None::<CampaignDataView>,
            }),
            c@.contributions == ledger_map(contributions@.map_values(|w: Contribution| w@)),
    {
        CampaignContract { data, contributions }
    }

    /// Position of the latest write for `who`, if any.
    fn latest_write(&self, who: &String) -> (r: Option<usize>)
        ensures
            match r {
                Some(i) => is_latest_write(self.writes(), who@, i as int),
                None => forall|j: int| 0 <= j < self.writes().len() ==> #[trigger] self.writes()[j].0 != who@,
            },
    {
        let mut i = self.contributions.len();
        while i > 0
            invariant
                i <= self.contributions.len(),
                self.writes().len() == self.contributions@.len(),
                forall|j: int| i <= j < self.writes().len() ==> #[trigger] self.writes()[j].0 != who@,
            decreases i,
        {
            i = i - 1;
            if self.contributions[i].contributor == *who {
                return Some(i);
            }
        }
        None
    }

    /// `init`: records the campaign and returns the event that announces it;
    /// refused with `AlreadyInitialized` if it was initialized before.
    pub fn init(
        &mut self,
        factory: String,
        creator: String,
        title: String,
        description: String,
        goal: i128,
        deadline: u64,
        token: String,
    ) -> (r: Result<Vec<Action>, Error>)
        ensures
            step_matches(
                init_step(old(self)@, factory@, creator@, title@, description@, goal as int, deadline, token@),
                old(self)@,
                final(self)@,
                r,
            ),
    {
        if self.data.is_some() {
            return Err(Error::AlreadyInitialized);
        }
        let mut acts: Vec<Action> = Vec::new();
        acts.push(Action::Publish(Event::Initialized { creator: creator.clone(), goal, deadline }));
        self.data = Some(CampaignData {
            creator,
            title,
            description,
            goal,
            deadline,
            token,
            total_raised: 0,
            active: true,
            factory,
        });
        proof {
            let ghost model_acts = seq![ActionView::Publish(EventView::Initialized { creator: creator@, goal: goal as int, deadline })];
            assert(actions_view(acts@) =~= model_acts);
        }
        Ok(acts)
    }

    /// The campaign's record; `NotInitialized` before `init`.
    pub fn get_campaign(&self) -> (r: Result<CampaignData, Error>)
        ensures
            match self@.data {
                Some(d) => r matches Ok(v) && v@ == d,
                None => r == Err::<CampaignData, Error>(Error::NotInitialized),
            },
    {
        match &self.data {
            Some(d) => Ok(d.snapshot()),
            None => Err(Error::NotInitialized),
        }
    }

    /// The running contribution of `contributor`, zero if none.
    pub fn get_contribution(&self, contributor: &String) -> (r: i128)
        ensures
            r as int == contribution_of(self@, contributor@),
    {
        match self.latest_write(contributor) {
            Some(i) => {
                proof {
                    lemma_ledger_latest(self.writes(), contributor@, i as int);
                }
                self.contributions[i].amount
            },
            None => {
                proof {
                    lemma_ledger_absent(self.writes(), contributor@);
                }
                0
            },
        }
    }
}


impl CampaignContract {
    /// Sets the running contribution of `who` to `amount`.
    fn record_contribution(&mut self, who: &String, amount: i128)
        ensures
            final(self)@ == (CampaignState {
                data: old(self)@.data,
                contributions: old(self)@.contributions.insert(who@, amount as int),
            }),
    {
        match self.latest_write(who) {
            Some(i) => {
                proof {
                    lemma_ledger_overwrite(self.writes(), who@, i as int, amount as int);
                }
                self.contributions.set(i, Contribution { contributor: who.clone(), amount });
                assert(self.writes() =~= old(self).writes().update(i as int, (who@, amount as int)));
            },
            None => {
                proof {
                    lemma_ledger_push(self.writes(), (who@, amount as int));
                }
                self.contributions.push(Contribution { contributor: who.clone(), amount });
                assert(self.writes() =~= old(self).writes().push((who@, amount as int)));
            },
        }
    }

    /// Whether `contribute` with these inputs would overflow a 128-bit amount
    /// (and abort); callers test this before `contribute`.
    pub fn contribution_overflows(&self, now: u64, contributor: &String, amount: i128) -> (r: bool)
        ensures
            r == contribute_overflows(self@, now, contributor@, amount as int),
    {
        let current = self.get_contribution(contributor);
        match &self.data {
            None => false,
            Some(d) => now <= d.deadline && (d.total_raised.checked_add(amount).is_none()
                || current.checked_add(amount).is_none()),
        }
    }

    /// `contribute`: refused with `NotInitialized` before `init` and with
    /// `DeadlinePassed` after the deadline; otherwise adds `amount` to the
    /// total and to the contributor's running contribution and returns the
    /// token collection, the event, and, when this makes an active campaign
    /// reach its goal, the change of status and the factory notification.
    pub fn contribute(&mut self, now: u64, contributor: &String, amount: i128) -> (r: Result<Vec<Action>, Error>)
        requires
            !contribute_overflows(old(self)@, now, contributor@, amount as int),
        ensures
            step_matches(contribute_step(old(self)@, now, contributor@, amount as int), old(self)@, final(self)@, r),
    {
        let ghost before = self@;
        let current = self.get_contribution(contributor);
        let d = match self.data.take() {
            None => return Err(Error::NotInitialized),
            Some(d) => d,
        };
        if now > d.deadline {
            self.data = Some(d);
            return Err(Error::DeadlinePassed);
        }
        let total = d.total_raised + amount;
        let reached = d.active && total >= d.goal;
        let mut acts: Vec<Action> = Vec::new();
        acts.push(Action::Collect { token: d.token.clone(), from: contributor.clone(), amount });
        acts.push(Action::Publish(Event::ContributionMade { contributor: contributor.clone(), amount }));
        if reached {
            acts.push(Action::Publish(Event::StatusChanged { active: false, total_raised: total }));
            acts.push(Action::NotifyFactory { factory: d.factory.clone(), active: false });
        }
        let new_active = d.active && !reached;
        self.data = Some(CampaignData { total_raised: total, active: new_active, ..d });
        self.record_contribution(contributor, current + amount);
        proof {
            let (s2, model_acts) = contribute_step(before, now, contributor@, amount as int)->Ok_0;
            assert(actions_view(acts@) =~= model_acts);
            assert(self@.data == s2.data);
        }
        Ok(acts)
    }

    /// `withdraw`: refused with `NotInitialized` before `init`,
    /// `Unauthorized` for anyone but the creator, `GoalNotReached` while the
    /// total is under the goal and `NoFundsToWithdraw` when nothing was
    /// raised; otherwise the total goes to the creator, the total becomes
    /// zero and the campaign inactive.
    pub fn withdraw(&mut self, creator: &String) -> (r: Result<Vec<Action>, Error>)
        ensures
            step_matches(withdraw_step(old(self)@, creator@), old(self)@, final(self)@, r),
    {
        let ghost before = self@;
        let d = match self.data.take() {
            None => return Err(Error::NotInitialized),
            Some(d) => d,
        };
        if *creator != d.creator {
            self.data = Some(d);
            return Err(Error::Unauthorized);
        }
        if d.total_raised < d.goal {
            self.data = Some(d);
            return Err(Error::GoalNotReached);
        }
        if d.total_raised == 0 {
            self.data = Some(d);
            return Err(Error::NoFundsToWithdraw);
        }
        let amount = d.total_raised;
        let mut acts: Vec<Action> = Vec::new();
        acts.push(Action::Pay { token: d.token.clone(), to: creator.clone(), amount });
        acts.push(Action::Publish(Event::FundsWithdrawn { creator: creator.clone(), amount }));
        self.data = Some(CampaignData { total_raised: 0, active: false, ..d });
        proof {
            let (s2, model_acts) = withdraw_step(before, creator@)->Ok_0;
            assert(actions_view(acts@) =~= model_acts);
        }
        Ok(acts)
    }

    /// `refund`: refused with `NotInitialized` before `init`,
    /// `DeadlineNotPassed` until the deadline has passed, `GoalReached` while
    /// the goal is met or once it was met (the campaign is then inactive),
    /// and `NoContribution` when the contributor's running
    /// contribution is zero; otherwise it is paid back and recorded as zero.
    pub fn refund(&mut self, now: u64, contributor: &String) -> (r: Result<Vec<Action>, Error>)
        ensures
            step_matches(refund_step(old(self)@, now, contributor@), old(self)@, final(self)@, r),
    {
        let ghost before = self@;
        let amount = self.get_contribution(contributor);
        let (token, deadline, total, goal, active) = match &self.data {
            None => return Err(Error::NotInitialized),
            Some(d) => (d.token.clone(), d.deadline, d.total_raised, d.goal, d.active),
        };
        if now <= deadline {
            return Err(Error::DeadlineNotPassed);
        }
        if total >= goal || !active {
            return Err(Error::GoalReached);
        }
        if amount == 0 {
            return Err(Error::NoContribution);
        }
        self.record_contribution(contributor, 0);
        let mut acts: Vec<Action> = Vec::new();
        acts.push(Action::Pay { token, to: contributor.clone(), amount });
        acts.push(Action::Publish(Event::RefundIssued { contributor: contributor.clone(), amount }));
        proof {
            let (s2, model_acts) = refund_step(before, now, contributor@)->Ok_0;
            assert(actions_view(acts@) =~= model_acts);
        }
        Ok(acts)
    }
}

} // verus!
