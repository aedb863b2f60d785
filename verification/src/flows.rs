//! The form routes that change a bill run as a dialogue between these state
//! machines, which decide, and the web server, which does the network and
//! storage work that each decision asks for and reports back how it went.

use vstd::prelude::*;
use crate::issue::{IssueKind, IssuePlan, issue_plan, spec_issue_plan};
use crate::pages::FormStatus;

verus! {

/// The operations on an existing bill that a form asks for.
#[derive(Clone, Copy, Debug, PartialEq, Eq, Structural)]
pub enum BillOperation {
    Endorse,
    RequestToPay,
    RequestToAccept,
    Accept,
}

/// How far an operation on a bill has come.
#[derive(Clone, Copy, Debug, PartialEq, Eq, Structural)]
pub enum OperationState {
    Start,
    LookingUpEndorsee,
    FetchingTime,
    Applying,
    Publishing,
    NotifyingEndorsee,
    Done,
}

/// What the server reports back.
#[derive(Clone, Copy, Debug, PartialEq, Eq, Structural)]
pub enum OperationEvent {
    Started { identity_exists: bool },
    EndorseeFound,
    TimeFetched { timestamp: i64 },
    Applied { correct: bool },
    Published,
    EndorseeNotified,
}

/// What the server is asked to do next.
#[derive(Clone, Copy, Debug, PartialEq, Eq, Structural)]
pub enum OperationAction {
    /// Fetch the endorsee's public data.
    LookUpEndorsee,
    /// Fetch the atomic time.
    FetchTime,
    /// Write the operation into the bill's chain at this time.
    Apply { timestamp: i64 },
    /// Send the chain's latest block to the bill's topic.
    PublishLatestBlock,
    /// Record the bill for the endorsee's node.
    NotifyEndorsee,
    /// Answer the form.
    Finish { status: FormStatus },
    /// The report does not fit the state: nothing to do.
    Wait,
}

pub open spec fn spec_operation_step(op: BillOperation, state: OperationState, event: OperationEvent) -> (OperationState, OperationAction) {
    match (state, event) {
        (OperationState::Start, OperationEvent::Started { identity_exists }) =>
            if !identity_exists {
                (OperationState::Done, OperationAction::Finish { status: FormStatus::NotAcceptable })
            } else if op == BillOperation::Endorse {
                (OperationState::LookingUpEndorsee, OperationAction::LookUpEndorsee)
            } else {
                (OperationState::FetchingTime, OperationAction::FetchTime)
            },
        (OperationState::LookingUpEndorsee, OperationEvent::EndorseeFound) =>
            (OperationState::FetchingTime, OperationAction::FetchTime),
        (OperationState::FetchingTime, OperationEvent::TimeFetched { timestamp }) =>
            (OperationState::Applying, OperationAction::Apply { timestamp }),
        (OperationState::Applying, OperationEvent::Applied { correct }) =>
            if correct {
                (OperationState::Publishing, OperationAction::PublishLatestBlock)
            } else {
                (OperationState::Done, OperationAction::Finish { status: FormStatus::Accepted })
            },
        (OperationState::Publishing, OperationEvent::Published) =>
            if op == BillOperation::Endorse {
                (OperationState::NotifyingEndorsee, OperationAction::NotifyEndorsee)
            } else {
                (OperationState::Done, OperationAction::Finish { status: FormStatus::Accepted })
            },
        (OperationState::NotifyingEndorsee, OperationEvent::EndorseeNotified) =>
            (OperationState::Done, OperationAction::Finish { status: FormStatus::Accepted }),
        _ => (state, OperationAction::Wait),
    }
}

/// One step of an operation on a bill.
pub fn operation_step(op: BillOperation, state: OperationState, event: OperationEvent) -> (r: (OperationState, OperationAction))
    ensures
        r == spec_operation_step(op, state, event),
{
    match (state, event) {
        (OperationState::Start, OperationEvent::Started { identity_exists }) => {
            if !identity_exists {
                (OperationState::Done, OperationAction::Finish { status: FormStatus::NotAcceptable })
            } else {
                match op {
                    BillOperation::Endorse => (OperationState::LookingUpEndorsee, OperationAction::LookUpEndorsee),
                    _ => (OperationState::FetchingTime, OperationAction::FetchTime),
                }
            }
        },
        (OperationState::LookingUpEndorsee, OperationEvent::EndorseeFound) => (
            OperationState::FetchingTime,
            OperationAction::FetchTime,
        ),
        (OperationState::FetchingTime, OperationEvent::TimeFetched { timestamp }) => (
            OperationState::Applying,
            OperationAction::Apply { timestamp },
        ),
        (OperationState::Applying, OperationEvent::Applied { correct }) => {
            if correct {
                (OperationState::Publishing, OperationAction::PublishLatestBlock)
            } else {
                (OperationState::Done, OperationAction::Finish { status: FormStatus::Accepted })
            }
        },
        (OperationState::Publishing, OperationEvent::Published) => {
            match op {
                BillOperation::Endorse => (OperationState::NotifyingEndorsee, OperationAction::NotifyEndorsee),
                _ => (OperationState::Done, OperationAction::Finish { status: FormStatus::Accepted }),
            }
        },
        (OperationState::NotifyingEndorsee, OperationEvent::EndorseeNotified) => (
            OperationState::Done,
            OperationAction::Finish { status: FormStatus::Accepted },
        ),
        _ => (state, OperationAction::Wait),
    }
}

/// The state and the actions after a run of reports from the start.
pub open spec fn operation_run(op: BillOperation, events: Seq<OperationEvent>) -> (OperationState, Seq<OperationAction>)
    decreases events.len(),
{
    if events.len() == 0 {
        (OperationState::Start, Seq::empty())
    } else {
        let (state, actions) = operation_run(op, events.drop_last());
        let (next, action) = spec_operation_step(op, state, events.last());
        (next, actions.push(action))
    }
}

/// A block is published only right after the operation was written into the
/// chain with success, and the chain is touched only once an identity exists.
pub proof fn lemma_operation_publishes_only_after_success(op: BillOperation, state: OperationState, event: OperationEvent)
    ensures
        spec_operation_step(op, state, event).1 == OperationAction::PublishLatestBlock
            ==> state == OperationState::Applying && event == (OperationEvent::Applied { correct: true }),
        (state == OperationState::Start && event == (OperationEvent::Started { identity_exists: false }))
            ==> spec_operation_step(op, state, event) == (OperationState::Done, OperationAction::Finish { status: FormStatus::NotAcceptable }),
{
}

/// Every operation publishes the chain's latest block after a successful
/// write, and answers the form without publishing after a refused one; only
/// an endorsement goes on to notify an endorsee, every other operation is
/// answered right after publishing.
pub proof fn lemma_operation_publishes_and_finishes(op: BillOperation, state: OperationState, event: OperationEvent)
    ensures
        spec_operation_step(op, OperationState::Applying, OperationEvent::Applied { correct: true })
            == (OperationState::Publishing, OperationAction::PublishLatestBlock),
        spec_operation_step(op, OperationState::Applying, OperationEvent::Applied { correct: false })
            == (OperationState::Done, OperationAction::Finish { status: FormStatus::Accepted }),
        op != BillOperation::Endorse ==> spec_operation_step(op, OperationState::Publishing, OperationEvent::Published)
            == (OperationState::Done, OperationAction::Finish { status: FormStatus::Accepted }),
        op == BillOperation::Endorse ==> spec_operation_step(op, OperationState::Publishing, OperationEvent::Published)
            == (OperationState::NotifyingEndorsee, OperationAction::NotifyEndorsee),
        spec_operation_step(op, state, event).1 == OperationAction::NotifyEndorsee ==> op == BillOperation::Endorse,
        spec_operation_step(op, state, event).1 == OperationAction::LookUpEndorsee ==> op == BillOperation::Endorse,
        (state == OperationState::Start && event == (OperationEvent::Started { identity_exists: true })
            && op != BillOperation::Endorse) ==> spec_operation_step(op, state, event)
            == (OperationState::FetchingTime, OperationAction::FetchTime),
        spec_operation_step(BillOperation::Endorse, OperationState::Start, OperationEvent::Started { identity_exists: true })
            == (OperationState::LookingUpEndorsee, OperationAction::LookUpEndorsee),
        spec_operation_step(op, OperationState::Start, OperationEvent::Started { identity_exists: false })
            == (OperationState::Done, OperationAction::Finish { status: FormStatus::NotAcceptable }),
        spec_operation_step(op, OperationState::LookingUpEndorsee, OperationEvent::EndorseeFound)
            == (OperationState::FetchingTime, OperationAction::FetchTime),
        event matches OperationEvent::TimeFetched { timestamp } ==> spec_operation_step(op, OperationState::FetchingTime, event)
            == (OperationState::Applying, OperationAction::Apply { timestamp }),
        spec_operation_step(op, OperationState::NotifyingEndorsee, OperationEvent::EndorseeNotified)
            == (OperationState::Done, OperationAction::Finish { status: FormStatus::Accepted }),
        spec_operation_step(op, OperationState::Done, event) == (OperationState::Done, OperationAction::Wait),
        spec_operation_step(op, state, event).1 == OperationAction::PublishLatestBlock
            ==> event == (OperationEvent::Applied { correct: true }),
{
}

/// Once an operation is done it stays done and asks for nothing more; and
/// a run that is done has answered the form exactly once.
pub proof fn lemma_operation_done_is_final(op: BillOperation, events: Seq<OperationEvent>)
    ensures
        operation_run(op, events).1.len() == events.len(),
        operation_run(op, events).0 != OperationState::Done ==> forall|i: int|
            0 <= i < events.len() ==> !(#[trigger] operation_run(op, events).1[i] is Finish),
        operation_run(op, events).0 == OperationState::Done ==> exists|i: int|
            0 <= i < events.len() && (#[trigger] operation_run(op, events).1[i] is Finish) && forall|j: int|
                0 <= j < events.len() && j != i ==> !(#[trigger] operation_run(op, events).1[j] is Finish),
    decreases events.len(),
{
    if events.len() > 0 {
        let init = events.drop_last();
        lemma_operation_done_is_final(op, init);
        let (state, actions) = operation_run(op, init);
        let (next, action) = spec_operation_step(op, state, events.last());
        let all = actions.push(action);
        assert(operation_run(op, events) == (next, all));
        if state == OperationState::Done {
            assert(next == OperationState::Done && action == OperationAction::Wait);
            let i = choose|i: int| 0 <= i < init.len() && (#[trigger] actions[i] is Finish) && forall|j: int|
                0 <= j < init.len() && j != i ==> !(#[trigger] actions[j] is Finish);
            assert(all[i] is Finish);
            assert forall|j: int| 0 <= j < events.len() && j != i implies !(#[trigger] all[j] is Finish) by {
                if j < init.len() {
                    assert(all[j] == actions[j]);
                }
            }
        } else if next == OperationState::Done {
            assert(action is Finish);
            let i = init.len() as int;
            assert(all[i] is Finish);
            assert forall|j: int| 0 <= j < events.len() && j != i implies !(#[trigger] all[j] is Finish) by {
                assert(all[j] == actions[j]);
            }
        } else {
            assert(!(action is Finish));
            assert forall|i: int| 0 <= i < events.len() implies !(#[trigger] all[i] is Finish) by {
                if i < init.len() {
                    assert(all[i] == actions[i]);
                }
            }
        }
    }
}

/// How far issuing a bill has come; the plan is kept from the form, the
/// time from the first clock reading.
#[derive(Clone, Copy, Debug, PartialEq, Eq, Structural)]
pub enum IssueState {
    Start,
    FetchingTime { plan: IssuePlan },
    LookingUpDrawee { plan: IssuePlan, timestamp: i64 },
    LookingUpPayee { plan: IssuePlan, timestamp: i64 },
    Issuing { plan: IssuePlan },
    Notifying { plan: IssuePlan },
    Subscribing { plan: IssuePlan },
    Storing { plan: IssuePlan },
    FetchingAcceptTime,
    Accepting,
    Publishing,
    Done,
}

/// What the server reports back while a bill is issued.
#[derive(Clone, Copy, Debug, PartialEq, Eq, Structural)]
pub enum IssueEvent {
    Started { identity_exists: bool, drawer_is_payee: bool, drawer_is_drawee: bool },
    TimeFetched { timestamp: i64 },
    PartyFound,
    Issued,
    NodesNotified,
    Subscribed,
    Stored,
    Applied { correct: bool },
    Published,
}

/// What the server is asked to do next while a bill is issued.
#[derive(Clone, Copy, Debug, PartialEq, Eq, Structural)]
pub enum IssueAction {
    /// Fetch the atomic time.
    FetchTime,
    /// Fetch the drawee's public data by the name on the form.
    LookUpDrawee,
    /// Fetch the payee's public data by the name on the form.
    LookUpPayee,
    /// Draw the bill of this kind at this time.
    Issue { kind: IssueKind, timestamp: i64 },
    /// Record the bill for each node of [`crate::issue::bill_nodes`].
    NotifyNodes,
    /// Subscribe to the bill's topic.
    Subscribe,
    /// Store the bill in the distributed table.
    Store,
    /// Accept the bill at this time.
    Apply { timestamp: i64 },
    /// Send the chain's latest block to the bill's topic.
    PublishLatestBlock,
    /// Answer the form.
    Finish { status: FormStatus },
    /// The report does not fit the state: nothing to do.
    Wait,
}

pub open spec fn spec_issue_step(state: IssueState, event: IssueEvent) -> (IssueState, IssueAction) {
    match (state, event) {
        (IssueState::Start, IssueEvent::Started { identity_exists, drawer_is_payee, drawer_is_drawee }) =>
            if !identity_exists {
                (IssueState::Done, IssueAction::Finish { status: FormStatus::NotAcceptable })
            } else {
                (IssueState::FetchingTime { plan: spec_issue_plan(drawer_is_payee, drawer_is_drawee) }, IssueAction::FetchTime)
            },
        (IssueState::FetchingTime { plan }, IssueEvent::TimeFetched { timestamp }) =>
            if plan.kind == IssueKind::DrawerIsDrawee {
                (IssueState::LookingUpPayee { plan, timestamp }, IssueAction::LookUpPayee)
            } else {
                (IssueState::LookingUpDrawee { plan, timestamp }, IssueAction::LookUpDrawee)
            },
        (IssueState::LookingUpDrawee { plan, timestamp }, IssueEvent::PartyFound) =>
            if plan.kind == IssueKind::ThreeParties {
                (IssueState::LookingUpPayee { plan, timestamp }, IssueAction::LookUpPayee)
            } else {
                (IssueState::Issuing { plan }, IssueAction::Issue { kind: plan.kind, timestamp })
            },
        (IssueState::LookingUpPayee { plan, timestamp }, IssueEvent::PartyFound) =>
            (IssueState::Issuing { plan }, IssueAction::Issue { kind: plan.kind, timestamp }),
        (IssueState::Issuing { plan }, IssueEvent::Issued) =>
            (IssueState::Notifying { plan }, IssueAction::NotifyNodes),
        (IssueState::Notifying { plan }, IssueEvent::NodesNotified) =>
            (IssueState::Subscribing { plan }, IssueAction::Subscribe),
        (IssueState::Subscribing { plan }, IssueEvent::Subscribed) =>
            (IssueState::Storing { plan }, IssueAction::Store),
        (IssueState::Storing { plan }, IssueEvent::Stored) =>
            if plan.accept_on_issue {
                (IssueState::FetchingAcceptTime, IssueAction::FetchTime)
            } else {
                (IssueState::Done, IssueAction::Finish { status: FormStatus::Accepted })
            },
        (IssueState::FetchingAcceptTime, IssueEvent::TimeFetched { timestamp }) =>
            (IssueState::Accepting, IssueAction::Apply { timestamp }),
        (IssueState::Accepting, IssueEvent::Applied { correct }) =>
            if correct {
                (IssueState::Publishing, IssueAction::PublishLatestBlock)
            } else {
                (IssueState::Done, IssueAction::Finish { status: FormStatus::Accepted })
            },
        (IssueState::Publishing, IssueEvent::Published) =>
            (IssueState::Done, IssueAction::Finish { status: FormStatus::Accepted }),
        _ => (state, IssueAction::Wait),
    }
}

/// One step of issuing a bill.
pub fn issue_step(state: IssueState, event: IssueEvent) -> (r: (IssueState, IssueAction))
    ensures
        r == spec_issue_step(state, event),
{
    match (state, event) {
        (IssueState::Start, IssueEvent::Started { identity_exists, drawer_is_payee, drawer_is_drawee }) => {
            if !identity_exists {
                (IssueState::Done, IssueAction::Finish { status: FormStatus::NotAcceptable })
            } else {
                (IssueState::FetchingTime { plan: issue_plan(drawer_is_payee, drawer_is_drawee) }, IssueAction::FetchTime)
            }
        },
        (IssueState::FetchingTime { plan }, IssueEvent::TimeFetched { timestamp }) => {
            match plan.kind {
                IssueKind::DrawerIsDrawee => (IssueState::LookingUpPayee { plan, timestamp }, IssueAction::LookUpPayee),
                _ => (IssueState::LookingUpDrawee { plan, timestamp }, IssueAction::LookUpDrawee),
            }
        },
        (IssueState::LookingUpDrawee { plan, timestamp }, IssueEvent::PartyFound) => {
            match plan.kind {
                IssueKind::ThreeParties => (IssueState::LookingUpPayee { plan, timestamp }, IssueAction::LookUpPayee),
                _ => (IssueState::Issuing { plan }, IssueAction::Issue { kind: plan.kind, timestamp }),
            }
        },
        (IssueState::LookingUpPayee { plan, timestamp }, IssueEvent::PartyFound) => (
            IssueState::Issuing { plan },
            IssueAction::Issue { kind: plan.kind, timestamp },
        ),
        (IssueState::Issuing { plan }, IssueEvent::Issued) => (IssueState::Notifying { plan }, IssueAction::NotifyNodes),
        (IssueState::Notifying { plan }, IssueEvent::NodesNotified) => (IssueState::Subscribing { plan }, IssueAction::Subscribe),
        (IssueState::Subscribing { plan }, IssueEvent::Subscribed) => (IssueState::Storing { plan }, IssueAction::Store),
        (IssueState::Storing { plan }, IssueEvent::Stored) => {
            if plan.accept_on_issue {
                (IssueState::FetchingAcceptTime, IssueAction::FetchTime)
            } else {
                (IssueState::Done, IssueAction::Finish { status: FormStatus::Accepted })
            }
        },
        (IssueState::FetchingAcceptTime, IssueEvent::TimeFetched { timestamp }) => (
            IssueState::Accepting,
            IssueAction::Apply { timestamp },
        ),
        (IssueState::Accepting, IssueEvent::Applied { correct }) => {
            if correct {
                (IssueState::Publishing, IssueAction::PublishLatestBlock)
            } else {
                (IssueState::Done, IssueAction::Finish { status: FormStatus::Accepted })
            }
        },
        (IssueState::Publishing, IssueEvent::Published) => (
            IssueState::Done,
            IssueAction::Finish { status: FormStatus::Accepted },
        ),
        _ => (state, IssueAction::Wait),
    }
}

/// The state and the actions after a run of reports from the start.
pub open spec fn issue_run(events: Seq<IssueEvent>) -> (IssueState, Seq<IssueAction>)
    decreases events.len(),
{
    if events.len() == 0 {
        (IssueState::Start, Seq::empty())
    } else {
        let (state, actions) = issue_run(events.drop_last());
        let (next, action) = spec_issue_step(state, events.last());
        (next, actions.push(action))
    }
}

/// The plan that a state carries, if any.
pub open spec fn issue_state_plan(state: IssueState) -> Option<IssuePlan> {
    match state {
        IssueState::FetchingTime { plan } => Some(plan),
        IssueState::LookingUpDrawee { plan, .. } => Some(plan),
        IssueState::LookingUpPayee { plan, .. } => Some(plan),
        IssueState::Issuing { plan } => Some(plan),
        IssueState::Notifying { plan } => Some(plan),
        IssueState::Subscribing { plan } => Some(plan),
        IssueState::Storing { plan } => Some(plan),
        _ => None,
    }
}

/// Whatever the plan, the nodes are told of a drawn bill before anything
/// else: the report that the bill is drawn is answered with `NotifyNodes`,
/// and `Subscribe` is asked only once the nodes are notified.
pub proof fn lemma_issue_notifies_before_subscribing(plan: IssuePlan, state: IssueState, event: IssueEvent)
    ensures
        spec_issue_step(IssueState::Issuing { plan }, IssueEvent::Issued)
            == (IssueState::Notifying { plan }, IssueAction::NotifyNodes),
        spec_issue_step(IssueState::Notifying { plan }, IssueEvent::NodesNotified)
            == (IssueState::Subscribing { plan }, IssueAction::Subscribe),
        spec_issue_step(state, event).1 == IssueAction::Subscribe
            ==> state is Notifying && event == IssueEvent::NodesNotified,
        spec_issue_step(state, event).0 is Notifying
            ==> spec_issue_step(state, event).1 == IssueAction::NotifyNodes || state is Notifying,
{
}

/// The course of issuing: the time is read first, then the drawee is looked
/// up unless the drawer is the drawee, then the payee unless the drawer is
/// the payee; the bill is drawn with the first time read, subscribed,
/// stored, and accepted afterwards only when the plan says so.
pub proof fn lemma_issue_course(plan: IssuePlan, timestamp: i64, correct: bool, d: bool, p: bool)
    ensures
        spec_issue_step(IssueState::Start, IssueEvent::Started { identity_exists: false, drawer_is_payee: p, drawer_is_drawee: d })
            == (IssueState::Done, IssueAction::Finish { status: FormStatus::NotAcceptable }),
        spec_issue_step(IssueState::Start, IssueEvent::Started { identity_exists: true, drawer_is_payee: p, drawer_is_drawee: d }).1
            == IssueAction::FetchTime,
        plan.kind == IssueKind::DrawerIsDrawee ==> spec_issue_step(IssueState::FetchingTime { plan }, IssueEvent::TimeFetched { timestamp })
            == (IssueState::LookingUpPayee { plan, timestamp }, IssueAction::LookUpPayee),
        plan.kind != IssueKind::DrawerIsDrawee ==> spec_issue_step(IssueState::FetchingTime { plan }, IssueEvent::TimeFetched { timestamp })
            == (IssueState::LookingUpDrawee { plan, timestamp }, IssueAction::LookUpDrawee),
        plan.kind == IssueKind::ThreeParties ==> spec_issue_step(IssueState::LookingUpDrawee { plan, timestamp }, IssueEvent::PartyFound)
            == (IssueState::LookingUpPayee { plan, timestamp }, IssueAction::LookUpPayee),
        plan.kind == IssueKind::DrawerIsPayee ==> spec_issue_step(IssueState::LookingUpDrawee { plan, timestamp }, IssueEvent::PartyFound)
            == (IssueState::Issuing { plan }, IssueAction::Issue { kind: IssueKind::DrawerIsPayee, timestamp }),
        spec_issue_step(IssueState::LookingUpPayee { plan, timestamp }, IssueEvent::PartyFound)
            == (IssueState::Issuing { plan }, IssueAction::Issue { kind: plan.kind, timestamp }),
        spec_issue_step(IssueState::Subscribing { plan }, IssueEvent::Subscribed)
            == (IssueState::Storing { plan }, IssueAction::Store),
        plan.accept_on_issue ==> spec_issue_step(IssueState::Storing { plan }, IssueEvent::Stored)
            == (IssueState::FetchingAcceptTime, IssueAction::FetchTime),
        !plan.accept_on_issue ==> spec_issue_step(IssueState::Storing { plan }, IssueEvent::Stored)
            == (IssueState::Done, IssueAction::Finish { status: FormStatus::Accepted }),
        spec_issue_step(IssueState::FetchingAcceptTime, IssueEvent::TimeFetched { timestamp })
            == (IssueState::Accepting, IssueAction::Apply { timestamp }),
        correct ==> spec_issue_step(IssueState::Accepting, IssueEvent::Applied { correct })
            == (IssueState::Publishing, IssueAction::PublishLatestBlock),
        !correct ==> spec_issue_step(IssueState::Accepting, IssueEvent::Applied { correct })
            == (IssueState::Done, IssueAction::Finish { status: FormStatus::Accepted }),
        spec_issue_step(IssueState::Publishing, IssueEvent::Published)
            == (IssueState::Done, IssueAction::Finish { status: FormStatus::Accepted }),
{
}

/// In every run of issuing, a `Subscribe` comes after a `NotifyNodes`.
pub proof fn lemma_issue_run_notifies_first(events: Seq<IssueEvent>)
    ensures
        issue_run(events).1.len() == events.len(),
        issue_run(events).0 is Notifying ==> exists|j: int|
            0 <= j < events.len() && #[trigger] issue_run(events).1[j] == IssueAction::NotifyNodes,
        forall|i: int| 0 <= i < events.len() && #[trigger] issue_run(events).1[i] == IssueAction::Subscribe
            ==> exists|j: int| 0 <= j < i && issue_run(events).1[j] == IssueAction::NotifyNodes,
    decreases events.len(),
{
    if events.len() > 0 {
        let init = events.drop_last();
        lemma_issue_run_notifies_first(init);
        let (state, actions) = issue_run(init);
        let (next, action) = spec_issue_step(state, events.last());
        let all = actions.push(action);
        assert(issue_run(events) == (next, all));
        lemma_issue_notifies_before_subscribing(IssuePlan { kind: IssueKind::ThreeParties, accept_on_issue: false }, state, events.last());
        let n = init.len() as int;
        if next is Notifying {
            if action == IssueAction::NotifyNodes {
                assert(all[n] == IssueAction::NotifyNodes);
            } else {
                let j = choose|j: int| 0 <= j < init.len() && #[trigger] actions[j] == IssueAction::NotifyNodes;
                assert(all[j] == IssueAction::NotifyNodes);
            }
        }
        assert forall|i: int| 0 <= i < events.len() && #[trigger] all[i] == IssueAction::Subscribe
            implies exists|j: int| 0 <= j < i && all[j] == IssueAction::NotifyNodes by {
            if i < n {
                assert(all[i] == actions[i]);
                let j = choose|j: int| 0 <= j < i && actions[j] == IssueAction::NotifyNodes;
                assert(all[j] == IssueAction::NotifyNodes);
            } else {
                assert(state is Notifying);
                let j = choose|j: int| 0 <= j < init.len() && #[trigger] actions[j] == IssueAction::NotifyNodes;
                assert(all[j] == IssueAction::NotifyNodes);
            }
        }
    }
}

/// Issuing a bill draws it with the kind that the form's flags give, and
/// accepts it afterwards only when the form says the drawer is the drawee:
/// in every run, an `Issue` action carries the kind of the plan made at the
/// start, and an `Apply` action comes only for a plan that accepts on issue.
pub proof fn lemma_issue_follows_the_form(events: Seq<IssueEvent>, identity_exists: bool, drawer_is_payee: bool, drawer_is_drawee: bool)
    requires
        events.len() > 0,
        events[0] == (IssueEvent::Started { identity_exists, drawer_is_payee, drawer_is_drawee }),
    ensures
        forall|i: int| 0 <= i < events.len() ==> (#[trigger] issue_run(events).1[i] matches IssueAction::Issue { kind, .. }
            ==> kind == spec_issue_plan(drawer_is_payee, drawer_is_drawee).kind),
        forall|i: int| 0 <= i < events.len() ==> (#[trigger] issue_run(events).1[i] is Apply
            ==> drawer_is_drawee),
        !identity_exists ==> forall|i: int| 1 <= i < events.len() ==> #[trigger] issue_run(events).1[i] == IssueAction::Wait,
        issue_run(events).0 is Done || issue_run(events).0 is FetchingAcceptTime || issue_run(events).0 is Accepting
            || issue_run(events).0 is Publishing
            || issue_state_plan(issue_run(events).0) == Some(spec_issue_plan(drawer_is_payee, drawer_is_drawee)),
        !identity_exists ==> issue_run(events).0 is Done,
        (issue_run(events).0 is FetchingAcceptTime || issue_run(events).0 is Accepting || issue_run(events).0 is Publishing)
            ==> drawer_is_drawee,
        issue_run(events).1.len() == events.len(),
    decreases events.len(),
{
    let plan = spec_issue_plan(drawer_is_payee, drawer_is_drawee);
    if events.len() == 1 {
        assert(events.drop_last() =~= Seq::<IssueEvent>::empty());
        assert(events.last() == events[0]);
    } else {
        let init = events.drop_last();
        assert(init[0] == events[0]);
        lemma_issue_follows_the_form(init, identity_exists, drawer_is_payee, drawer_is_drawee);
        let (state, actions) = issue_run(init);
        let (next, action) = spec_issue_step(state, events.last());
        let all = actions.push(action);
        assert(issue_run(events) == (next, all));
        assert forall|i: int| 0 <= i < events.len() implies (#[trigger] all[i] matches IssueAction::Issue { kind, .. }
            ==> kind == plan.kind) by {
            if i < init.len() {
                assert(all[i] == actions[i]);
            }
        }
        assert forall|i: int| 0 <= i < events.len() implies (#[trigger] all[i] is Apply ==> drawer_is_drawee) by {
            if i < init.len() {
                assert(all[i] == actions[i]);
            }
        }
        if !identity_exists {
            assert forall|i: int| 1 <= i < events.len() implies #[trigger] all[i] == IssueAction::Wait by {
                if i < init.len() {
                    assert(all[i] == actions[i]);
                }
            }
        }
    }
}

} // verus!
