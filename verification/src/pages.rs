//! Which page each route shows, and the answer of each form route, given
//! what is on disk.

use vstd::prelude::*;
use vstd::string::StringExecFns;

verus! {

/// The pages of the front end, one per handlebars template.
#[derive(Clone, Copy, Debug, PartialEq, Eq, Structural)]
pub enum Page {
    CreateIdentity,
    Home,
    Info,
    Identity,
    BillsList,
    BillHistory,
    BillChain,
    Block,
    Bill,
    NewTwoPartyBillDrawerIsPayee,
    NewTwoPartyBillDrawerIsDrawee,
    NewContact,
    Contacts,
}

pub open spec fn spec_template_name(page: Page) -> Seq<char> {
    match page {
        Page::CreateIdentity => "hbs/create_identity"@,
        Page::Home => "hbs/home"@,
        Page::Info => "hbs/info"@,
        Page::Identity => "hbs/identity"@,
        Page::BillsList => "hbs/bills_list"@,
        Page::BillHistory => "hbs/bill_history"@,
        Page::BillChain => "hbs/bill_chain"@,
        Page::Block => "hbs/block"@,
        Page::Bill => "hbs/bill"@,
        Page::NewTwoPartyBillDrawerIsPayee => "hbs/new_two_party_bill_drawer_is_payee"@,
        Page::NewTwoPartyBillDrawerIsDrawee => "hbs/new_two_party_bill_drawer_is_drawee"@,
        Page::NewContact => "hbs/new_contact"@,
        Page::Contacts => "hbs/contacts"@,
    }
}

/// The template that renders a page.
pub fn template_name(page: Page) -> (r: &'static str)
    ensures
        r@ == spec_template_name(page),
{
    match page {
        Page::CreateIdentity => "hbs/create_identity",
        Page::Home => "hbs/home",
        Page::Info => "hbs/info",
        Page::Identity => "hbs/identity",
        Page::BillsList => "hbs/bills_list",
        Page::BillHistory => "hbs/bill_history",
        Page::BillChain => "hbs/bill_chain",
        Page::Block => "hbs/block",
        Page::Bill => "hbs/bill",
        Page::NewTwoPartyBillDrawerIsPayee => "hbs/new_two_party_bill_drawer_is_payee",
        Page::NewTwoPartyBillDrawerIsDrawee => "hbs/new_two_party_bill_drawer_is_drawee",
        Page::NewContact => "hbs/new_contact",
        Page::Contacts => "hbs/contacts",
    }
}

/// Each page has a template of its own, under `hbs/`: distinct pages never
/// share a template, and each page's template is named after it.
pub proof fn lemma_templates_are_distinct(p: Page, q: Page)
    ensures
        p != q ==> spec_template_name(p) != spec_template_name(q),
        spec_template_name(Page::NewTwoPartyBillDrawerIsPayee) == "hbs/new_two_party_bill_drawer_is_payee"@,
        spec_template_name(Page::NewTwoPartyBillDrawerIsDrawee) == "hbs/new_two_party_bill_drawer_is_drawee"@,
        spec_template_name(Page::CreateIdentity) == "hbs/create_identity"@,
        spec_template_name(Page::Home) == "hbs/home"@,
        spec_template_name(Page::Info) == "hbs/info"@,
        spec_template_name(Page::Identity) == "hbs/identity"@,
        spec_template_name(Page::BillsList) == "hbs/bills_list"@,
        spec_template_name(Page::BillHistory) == "hbs/bill_history"@,
        spec_template_name(Page::BillChain) == "hbs/bill_chain"@,
        spec_template_name(Page::Block) == "hbs/block"@,
        spec_template_name(Page::Bill) == "hbs/bill"@,
        spec_template_name(Page::NewContact) == "hbs/new_contact"@,
        spec_template_name(Page::Contacts) == "hbs/contacts"@,
        spec_template_name(p).len() > 4,
        spec_template_name(p).subrange(0, 4) == "hbs/"@,
{
    reveal_strlit("hbs/");
    reveal_strlit("hbs/create_identity");
    reveal_strlit("hbs/home");
    reveal_strlit("hbs/info");
    reveal_strlit("hbs/identity");
    reveal_strlit("hbs/bills_list");
    reveal_strlit("hbs/bill_history");
    reveal_strlit("hbs/bill_chain");
    reveal_strlit("hbs/block");
    reveal_strlit("hbs/bill");
    reveal_strlit("hbs/new_two_party_bill_drawer_is_payee");
    reveal_strlit("hbs/new_two_party_bill_drawer_is_drawee");
    reveal_strlit("hbs/new_contact");
    reveal_strlit("hbs/contacts");
    let a = spec_template_name(p);
    let b = spec_template_name(q);
    assert(a.subrange(0, 4) =~= "hbs/"@);
    if p != q {
        if a.len() == b.len() {
            if a.len() == 8 {
                assert(a[4] != b[4]);
            } else if a.len() == 12 {
                assert(a[4] != b[4]);
            } else if a.len() == 14 {
                assert(a[8] != b[8]);
            } else if a.len() == 38 {
                assert(a[33] != b[33]);
            }
        }
    }
}

/// The page of a route that needs an identity: the identity creation page
/// until one exists, the route's own page after.
pub fn identity_page(identity_exists: bool, page: Page) -> (r: Page)
    ensures
        !identity_exists ==> r == Page::CreateIdentity,
        identity_exists ==> r == page,
{
    if !identity_exists {
        Page::CreateIdentity
    } else {
        page
    }
}

/// The page of a route about one bill: the identity creation page without an
/// identity, the route's own page when the bill's file exists, the home page
/// when it does not.
pub fn bill_page(identity_exists: bool, bill_file_exists: bool, page: Page) -> (r: Page)
    ensures
        !identity_exists ==> r == Page::CreateIdentity,
        identity_exists && bill_file_exists ==> r == page,
        identity_exists && !bill_file_exists ==> r == Page::Home,
{
    if !identity_exists {
        Page::CreateIdentity
    } else if bill_file_exists {
        page
    } else {
        Page::Home
    }
}

/// The answer of a form route.
#[derive(Clone, Copy, Debug, PartialEq, Eq, Structural)]
pub enum FormStatus {
    Accepted,
    NotAcceptable,
}

/// Form routes act only once an identity exists, and refuse before.
pub fn form_status(identity_exists: bool) -> (r: FormStatus)
    ensures
        identity_exists <==> r == FormStatus::Accepted,
        !identity_exists <==> r == FormStatus::NotAcceptable,
{
    if !identity_exists {
        FormStatus::NotAcceptable
    } else {
        FormStatus::Accepted
    }
}

/// The file that holds the bill `id`: `<folder>/<id>.json`.
pub fn bill_file_path(folder: &str, id: &str) -> (r: String)
    ensures
        r@ == folder@ + "/"@ + id@ + ".json"@,
{
    let mut r = String::from_str(folder);
    r.append("/");
    r.append(id);
    r.append(".json");
    r
}

/// The answer to a request for a path that no route serves.
pub fn not_found(uri: &str) -> (r: String)
    ensures
        r@ == "We couldn't find the requested path '"@ + uri@ + "'"@,
{
    let mut r = String::from_str("We couldn't find the requested path '");
    r.append(uri);
    r.append("'");
    r
}

} // verus!
