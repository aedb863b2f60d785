//! Issuing a bill: which parties' public data is looked up, whether the
//! drawer accepts at once, and which nodes hear of the new bill.

use vstd::prelude::*;

verus! {

/// The three ways to draw a bill.
#[derive(Clone, Copy, Debug, PartialEq, Eq, Structural)]
pub enum IssueKind {
    /// The drawer pays itself: only the drawee is looked up.
    DrawerIsPayee,
    /// The drawer owes the bill: only the payee is looked up.
    DrawerIsDrawee,
    /// Three parties: drawee and payee are looked up.
    ThreeParties,
}

/// What the issue form asks for.
#[derive(Clone, Copy, Debug, PartialEq, Eq, Structural)]
pub struct IssuePlan {
    pub kind: IssueKind,
    /// The drawer accepts the bill right after issuing it.
    pub accept_on_issue: bool,
}

pub open spec fn spec_issue_plan(drawer_is_payee: bool, drawer_is_drawee: bool) -> IssuePlan {
    IssuePlan {
        kind: if drawer_is_payee {
            IssueKind::DrawerIsPayee
        } else if drawer_is_drawee {
            IssueKind::DrawerIsDrawee
        } else {
            IssueKind::ThreeParties
        },
        accept_on_issue: drawer_is_drawee,
    }
}

/// The plan for the issue form's two flags; "drawer is payee" wins when both
/// are set, and acceptance follows "drawer is drawee" alone.
pub fn issue_plan(drawer_is_payee: bool, drawer_is_drawee: bool) -> (r: IssuePlan)
    ensures
        r == spec_issue_plan(drawer_is_payee, drawer_is_drawee),
        drawer_is_payee ==> r.kind == IssueKind::DrawerIsPayee,
        !drawer_is_payee && drawer_is_drawee ==> r.kind == IssueKind::DrawerIsDrawee,
        !drawer_is_payee && !drawer_is_drawee ==> r.kind == IssueKind::ThreeParties,
        r.accept_on_issue == drawer_is_drawee,
{
    let kind = if drawer_is_payee {
        IssueKind::DrawerIsPayee
    } else if drawer_is_drawee {
        IssueKind::DrawerIsDrawee
    } else {
        IssueKind::ThreeParties
    };
    IssuePlan { kind, accept_on_issue: drawer_is_drawee }
}

/// The texts of a vector of strings.
pub open spec fn texts(v: Seq<String>) -> Seq<Seq<char>> {
    v.map_values(|s: String| s@)
}

/// The non-empty entries of `ids`, in their order.
pub open spec fn non_empty_ids(ids: Seq<Seq<char>>) -> Seq<Seq<char>>
    decreases ids.len(),
{
    if ids.len() == 0 {
        Seq::empty()
    } else if ids.last().len() > 0 {
        non_empty_ids(ids.drop_last()).push(ids.last())
    } else {
        non_empty_ids(ids.drop_last())
    }
}

/// The node ids that are not empty, in their order.
pub fn non_empty_nodes(nodes: &Vec<String>) -> (r: Vec<String>)
    ensures
        texts(r@) == non_empty_ids(texts(nodes@)),
{
    let mut r: Vec<String> = Vec::new();
    let n = nodes.len();
    for i in 0..n
        invariant
            n == nodes@.len(),
            texts(r@) == non_empty_ids(texts(nodes@).take(i as int)),
    {
        let ghost before = texts(nodes@).take(i as int);
        let ghost after = texts(nodes@).take(i + 1);
        assert(after.drop_last() =~= before);
        assert(after.last() == nodes@[i as int]@);
        if !nodes[i].as_str().is_empty() {
            let id = nodes[i].clone();
            r.push(id);
            assert(texts(r@) =~= non_empty_ids(before).push(nodes@[i as int]@));
        }
    }
    assert(texts(nodes@).take(n as int) =~= texts(nodes@));
    r
}

/// The nodes that are told of a new bill: the drawer's own node, the
/// drawee's and the payee's, leaving out the empty ones.
pub fn bill_nodes(my_peer_id: &str, drawee_peer_id: &str, payee_peer_id: &str) -> (r: Vec<String>)
    ensures
        texts(r@) == non_empty_ids(seq![my_peer_id@, drawee_peer_id@, payee_peer_id@]),
{
    let mut nodes: Vec<String> = Vec::new();
    nodes.push(my_peer_id.to_owned());
    nodes.push(drawee_peer_id.to_owned());
    nodes.push(payee_peer_id.to_owned());
    assert(texts(nodes@) =~= seq![my_peer_id@, drawee_peer_id@, payee_peer_id@]);
    non_empty_nodes(&nodes)
}

/// An id is kept exactly when it is one of the given ids and is not empty.
pub proof fn lemma_non_empty_ids_members(ids: Seq<Seq<char>>, id: Seq<char>)
    ensures
        non_empty_ids(ids).contains(id) <==> (ids.contains(id) && id.len() > 0),
    decreases ids.len(),
{
    if ids.len() > 0 {
        let init = ids.drop_last();
        lemma_non_empty_ids_members(init, id);
        assert(ids =~= init.push(ids.last()));
        assert(ids.contains(id) <==> (init.contains(id) || id == ids.last())) by {
            if ids.contains(id) {
                let k = choose|k: int| 0 <= k < ids.len() && ids[k] == id;
                if k < ids.len() - 1 {
                    assert(init[k] == id);
                }
            }
            if init.contains(id) {
                let k = choose|k: int| 0 <= k < init.len() && init[k] == id;
                assert(ids[k] == id);
            }
            if id == ids.last() {
                assert(ids[ids.len() - 1] == id);
            }
        }
        if ids.last().len() > 0 {
            let rest = non_empty_ids(init);
            assert(rest.push(ids.last()).contains(id) <==> (rest.contains(id) || id == ids.last())) by {
                let p = rest.push(ids.last());
                if p.contains(id) {
                    let k = choose|k: int| 0 <= k < p.len() && p[k] == id;
                    if k < rest.len() {
                        assert(rest[k] == id);
                    }
                }
                if rest.contains(id) {
                    let k = choose|k: int| 0 <= k < rest.len() && rest[k] == id;
                    assert(p[k] == id);
                }
                if id == ids.last() {
                    assert(p[rest.len() as int] == id);
                }
            }
        }
    }
}

} // verus!
