use bitcredit::flows::{
    issue_step, operation_step, BillOperation, IssueAction, IssueEvent, IssueState, OperationAction,
    OperationEvent, OperationState,
};
use bitcredit::issue::{IssueKind, IssuePlan};
use bitcredit::pages::FormStatus;

fn run_operation(op: BillOperation, events: &[OperationEvent]) -> (OperationState, Vec<OperationAction>) {
    let mut state = OperationState::Start;
    let mut actions = Vec::new();
    for e in events {
        let (next, action) = operation_step(op, state, *e);
        state = next;
        actions.push(action);
    }
    (state, actions)
}

fn run_issue(events: &[IssueEvent]) -> (IssueState, Vec<IssueAction>) {
    let mut state = IssueState::Start;
    let mut actions = Vec::new();
    for e in events {
        let (next, action) = issue_step(state, *e);
        state = next;
        actions.push(action);
    }
    (state, actions)
}

#[test]
fn request_to_pay_publishes_after_success() {
    let (state, actions) = run_operation(
        BillOperation::RequestToPay,
        &[
            OperationEvent::Started { identity_exists: true },
            OperationEvent::TimeFetched { timestamp: 1_700_000_000 },
            OperationEvent::Applied { correct: true },
            OperationEvent::Published,
        ],
    );
    assert_eq!(state, OperationState::Done);
    assert_eq!(
        actions,
        vec![
            OperationAction::FetchTime,
            OperationAction::Apply { timestamp: 1_700_000_000 },
            OperationAction::PublishLatestBlock,
            OperationAction::Finish { status: FormStatus::Accepted },
        ]
    );
}

#[test]
fn refused_operation_publishes_nothing() {
    let (state, actions) = run_operation(
        BillOperation::Accept,
        &[
            OperationEvent::Started { identity_exists: true },
            OperationEvent::TimeFetched { timestamp: 5 },
            OperationEvent::Applied { correct: false },
        ],
    );
    assert_eq!(state, OperationState::Done);
    assert_eq!(actions.last(), Some(&OperationAction::Finish { status: FormStatus::Accepted }));
    assert!(!actions.contains(&OperationAction::PublishLatestBlock));
}

#[test]
fn endorsement_looks_up_and_notifies_the_endorsee() {
    let (_, actions) = run_operation(
        BillOperation::Endorse,
        &[
            OperationEvent::Started { identity_exists: true },
            OperationEvent::EndorseeFound,
            OperationEvent::TimeFetched { timestamp: 9 },
            OperationEvent::Applied { correct: true },
            OperationEvent::Published,
            OperationEvent::EndorseeNotified,
        ],
    );
    assert_eq!(actions[0], OperationAction::LookUpEndorsee);
    assert_eq!(actions[4], OperationAction::NotifyEndorsee);
    assert_eq!(actions[5], OperationAction::Finish { status: FormStatus::Accepted });
}

#[test]
fn operation_without_identity_is_refused_and_stays_done() {
    let (state, actions) = run_operation(
        BillOperation::RequestToAccept,
        &[
            OperationEvent::Started { identity_exists: false },
            OperationEvent::TimeFetched { timestamp: 1 },
            OperationEvent::Applied { correct: true },
        ],
    );
    assert_eq!(state, OperationState::Done);
    assert_eq!(
        actions,
        vec![
            OperationAction::Finish { status: FormStatus::NotAcceptable },
            OperationAction::Wait,
            OperationAction::Wait,
        ]
    );
}

#[test]
fn out_of_order_reports_are_waited_out() {
    assert_eq!(
        operation_step(BillOperation::Accept, OperationState::FetchingTime, OperationEvent::Published),
        (OperationState::FetchingTime, OperationAction::Wait)
    );
}

#[test]
fn three_party_issue_looks_up_both_and_accepts_nothing() {
    let (state, actions) = run_issue(&[
        IssueEvent::Started { identity_exists: true, drawer_is_payee: false, drawer_is_drawee: false },
        IssueEvent::TimeFetched { timestamp: 77 },
        IssueEvent::PartyFound,
        IssueEvent::PartyFound,
        IssueEvent::Issued,
        IssueEvent::NodesNotified,
        IssueEvent::Subscribed,
        IssueEvent::Stored,
    ]);
    assert_eq!(state, IssueState::Done);
    assert_eq!(
        actions,
        vec![
            IssueAction::FetchTime,
            IssueAction::LookUpDrawee,
            IssueAction::LookUpPayee,
            IssueAction::Issue { kind: IssueKind::ThreeParties, timestamp: 77 },
            IssueAction::NotifyNodes,
            IssueAction::Subscribe,
            IssueAction::Store,
            IssueAction::Finish { status: FormStatus::Accepted },
        ]
    );
}

#[test]
fn drawer_is_drawee_accepts_after_issue() {
    let (state, actions) = run_issue(&[
        IssueEvent::Started { identity_exists: true, drawer_is_payee: false, drawer_is_drawee: true },
        IssueEvent::TimeFetched { timestamp: 1 },
        IssueEvent::PartyFound,
        IssueEvent::Issued,
        IssueEvent::NodesNotified,
        IssueEvent::Subscribed,
        IssueEvent::Stored,
        IssueEvent::TimeFetched { timestamp: 2 },
        IssueEvent::Applied { correct: true },
        IssueEvent::Published,
    ]);
    assert_eq!(state, IssueState::Done);
    assert_eq!(actions[1], IssueAction::LookUpPayee);
    assert_eq!(actions[2], IssueAction::Issue { kind: IssueKind::DrawerIsDrawee, timestamp: 1 });
    assert_eq!(actions[6], IssueAction::FetchTime);
    assert_eq!(actions[7], IssueAction::Apply { timestamp: 2 });
    assert_eq!(actions[8], IssueAction::PublishLatestBlock);
    assert_eq!(actions[9], IssueAction::Finish { status: FormStatus::Accepted });
}

#[test]
fn drawer_is_payee_wins_but_acceptance_follows_drawee_flag() {
    let (state, actions) = run_issue(&[
        IssueEvent::Started { identity_exists: true, drawer_is_payee: true, drawer_is_drawee: true },
        IssueEvent::TimeFetched { timestamp: 3 },
        IssueEvent::PartyFound,
        IssueEvent::Issued,
        IssueEvent::NodesNotified,
        IssueEvent::Subscribed,
        IssueEvent::Stored,
    ]);
    assert_eq!(actions[1], IssueAction::LookUpDrawee);
    assert_eq!(actions[2], IssueAction::Issue { kind: IssueKind::DrawerIsPayee, timestamp: 3 });
    assert_eq!(actions[6], IssueAction::FetchTime);
    assert_eq!(state, IssueState::FetchingAcceptTime);
}

#[test]
fn issue_without_identity_is_refused() {
    let (state, actions) = run_issue(&[
        IssueEvent::Started { identity_exists: false, drawer_is_payee: true, drawer_is_drawee: false },
        IssueEvent::TimeFetched { timestamp: 3 },
    ]);
    assert_eq!(state, IssueState::Done);
    assert_eq!(actions, vec![IssueAction::Finish { status: FormStatus::NotAcceptable }, IssueAction::Wait]);
}

#[test]
fn issue_states_keep_the_plan() {
    let (state, _) = run_issue(&[
        IssueEvent::Started { identity_exists: true, drawer_is_payee: false, drawer_is_drawee: false },
        IssueEvent::TimeFetched { timestamp: 4 },
    ]);
    assert_eq!(
        state,
        IssueState::LookingUpDrawee {
            plan: IssuePlan { kind: IssueKind::ThreeParties, accept_on_issue: false },
            timestamp: 4
        }
    );
}
