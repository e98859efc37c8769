//! Row projection: the flat tuple shapes the host engine consumes, and the
//! projection of a decoded status into them.
//!
//! A status has exactly one effective content source: with a reblog present
//! the row is labelled "Boost" and carries the reblog's content, the status's
//! own content discarded; without one it is labelled "Toot" and carries the
//! status's own content. The home-timeline row carries the author's id and
//! bot flag; the account-timeline row deliberately omits them.

use vstd::prelude::*;
use vstd::string::StringExecFns;

use crate::resources::{AccessTokenView, Status, StatusView};

verus! {

/// Row of the home timeline: nine fields.
#[derive(Debug)]
pub struct HomeRow {
    pub toot_id: String,
    pub created_at: String,
    pub sensitive: bool,
    pub visibility: String,
    pub acct: String,
    pub account_id: String,
    pub bot: bool,
    pub kind: String,
    pub content: String,
}

/// Mathematical image of a [`HomeRow`].
pub struct HomeRowView {
    pub toot_id: Seq<char>,
    pub created_at: Seq<char>,
    pub sensitive: bool,
    pub visibility: Seq<char>,
    pub acct: Seq<char>,
    pub account_id: Seq<char>,
    pub bot: bool,
    pub kind: Seq<char>,
    pub content: Seq<char>,
}

impl View for HomeRow {
    type V = HomeRowView;

    open spec fn view(&self) -> HomeRowView {
        HomeRowView {
            toot_id: self.toot_id@,
            created_at: self.created_at@,
            sensitive: self.sensitive,
            visibility: self.visibility@,
            acct: self.acct@,
            account_id: self.account_id@,
            bot: self.bot,
            kind: self.kind@,
            content: self.content@,
        }
    }
}

/// Row of an account timeline: seven fields, author id and bot flag omitted.
#[derive(Debug)]
pub struct AccountRow {
    pub id: String,
    pub created_at: String,
    pub sensitive: bool,
    pub visibility: String,
    pub acct: String,
    pub kind: String,
    pub content: String,
}

/// Mathematical image of an [`AccountRow`].
pub struct AccountRowView {
    pub id: Seq<char>,
    pub created_at: Seq<char>,
    pub sensitive: bool,
    pub visibility: Seq<char>,
    pub acct: Seq<char>,
    pub kind: Seq<char>,
    pub content: Seq<char>,
}

impl View for AccountRow {
    type V = AccountRowView;

    open spec fn view(&self) -> AccountRowView {
        AccountRowView {
            id: self.id@,
            created_at: self.created_at@,
            sensitive: self.sensitive,
            visibility: self.visibility@,
            acct: self.acct@,
            kind: self.kind@,
            content: self.content@,
        }
    }
}

/// The single row a successful login returns.
#[derive(Debug)]
pub struct LoginRow {
    pub token_type: String,
    pub scope: String,
    pub created_at: i64,
}

/// Mathematical image of a [`LoginRow`].
pub struct LoginRowView {
    pub token_type: Seq<char>,
    pub scope: Seq<char>,
    pub created_at: i64,
}

impl View for LoginRow {
    type V = LoginRowView;

    open spec fn view(&self) -> LoginRowView {
        LoginRowView {
            token_type: self.token_type@,
            scope: self.scope@,
            created_at: self.created_at,
        }
    }
}

/// The login row an access-token response yields: the token itself is stored,
/// not returned.
pub open spec fn login_row_of(t: AccessTokenView) -> LoginRowView {
    LoginRowView { token_type: t.token_type, scope: t.scope, created_at: t.created_at }
}

/// The label of a status: "Boost" with a reblog present, "Toot" without.
pub open spec fn kind_of(s: StatusView) -> Seq<char> {
    if s.reblog is Some {
        "Boost"@
    } else {
        "Toot"@
    }
}

/// The effective content of a status: the reblog's content with a reblog
/// present, the status's own content without.
pub open spec fn content_of(s: StatusView) -> Seq<char> {
    match s.reblog {
        Some(r) => r.content,
        None => s.content,
    }
}

/// The home-timeline row a status projects to.
pub open spec fn home_row_of(s: StatusView) -> HomeRowView {
    HomeRowView {
        toot_id: s.id,
        created_at: s.created_at,
        sensitive: s.sensitive,
        visibility: s.visibility,
        acct: s.account.acct,
        account_id: s.account.id,
        bot: s.account.bot,
        kind: kind_of(s),
        content: content_of(s),
    }
}

/// The account-timeline row a status projects to.
pub open spec fn account_row_of(s: StatusView) -> AccountRowView {
    AccountRowView {
        id: s.id,
        created_at: s.created_at,
        sensitive: s.sensitive,
        visibility: s.visibility,
        acct: s.account.acct,
        kind: kind_of(s),
        content: content_of(s),
    }
}

/// The images of a home-row list.
pub open spec fn home_rows_view(rows: Seq<HomeRow>) -> Seq<HomeRowView> {
    rows.map_values(|r: HomeRow| r@)
}

/// The images of an account-row list.
pub open spec fn account_rows_view(rows: Seq<AccountRow>) -> Seq<AccountRowView> {
    rows.map_values(|r: AccountRow| r@)
}

/// The home rows of a status list, in the list's order.
pub open spec fn home_rows_of(s: Seq<StatusView>) -> Seq<HomeRowView> {
    s.map_values(|x: StatusView| home_row_of(x))
}

/// The account rows of a status list, in the list's order.
pub open spec fn account_rows_of(s: Seq<StatusView>) -> Seq<AccountRowView> {
    s.map_values(|x: StatusView| account_row_of(x))
}

/// The label and effective content of a status, as owned strings.
fn kind_and_content(s: &Status) -> (r: (String, String))
    ensures
        r.0@ == kind_of(s@),
        r.1@ == content_of(s@),
{
    match &s.reblog {
        Some(rb) => (String::from_str("Boost"), rb.content.clone()),
        None => (String::from_str("Toot"), s.content.clone()),
    }
}

/// Projects one status to its home-timeline row.
pub fn project_home_row(s: &Status) -> (r: HomeRow)
    ensures
        r@ == home_row_of(s@),
{
    let (kind, content) = kind_and_content(s);
    HomeRow {
        toot_id: s.id.clone(),
        created_at: s.created_at.clone(),
        sensitive: s.sensitive,
        visibility: s.visibility.clone(),
        acct: s.account.acct.clone(),
        account_id: s.account.id.clone(),
        bot: s.account.bot,
        kind,
        content,
    }
}

/// Projects one status to its account-timeline row.
pub fn project_account_row(s: &Status) -> (r: AccountRow)
    ensures
        r@ == account_row_of(s@),
{
    let (kind, content) = kind_and_content(s);
    AccountRow {
        id: s.id.clone(),
        created_at: s.created_at.clone(),
        sensitive: s.sensitive,
        visibility: s.visibility.clone(),
        acct: s.account.acct.clone(),
        kind,
        content,
    }
}

/// Projects a status list to home rows, order kept.
pub fn project_home_rows(statuses: &Vec<Status>) -> (rows: Vec<HomeRow>)
    ensures
        home_rows_view(rows@) == home_rows_of(crate::resources::statuses_view(statuses@)),
{
    let mut rows: Vec<HomeRow> = Vec::new();
    let mut i: usize = 0;
    while i < statuses.len()
        invariant
            i <= statuses.len(),
            rows@.len() == i,
            forall|k: int| 0 <= k < i ==> (#[trigger] rows@[k])@ == home_row_of(statuses@[k]@),
        decreases statuses.len() - i,
    {
        rows.push(project_home_row(&statuses[i]));
        i = i + 1;
    }
    proof {
        assert(home_rows_view(rows@) =~= home_rows_of(
            crate::resources::statuses_view(statuses@),
        ));
    }
    rows
}

/// Projects a status list to account rows, order kept.
pub fn project_account_rows(statuses: &Vec<Status>) -> (rows: Vec<AccountRow>)
    ensures
        account_rows_view(rows@) == account_rows_of(crate::resources::statuses_view(statuses@)),
{
    let mut rows: Vec<AccountRow> = Vec::new();
    let mut i: usize = 0;
    while i < statuses.len()
        invariant
            i <= statuses.len(),
            rows@.len() == i,
            forall|k: int| 0 <= k < i ==> (#[trigger] rows@[k])@ == account_row_of(statuses@[k]@),
        decreases statuses.len() - i,
    {
        rows.push(project_account_row(&statuses[i]));
        i = i + 1;
    }
    proof {
        assert(account_rows_view(rows@) =~= account_rows_of(
            crate::resources::statuses_view(statuses@),
        ));
    }
    rows
}

/// Law: a status with a reblog projects, in both row shapes, as a "Boost"
/// whose content is the reblog's content, whatever the status's own content.
pub proof fn lemma_reblog_projects_boost(s: StatusView)
    requires
        s.reblog is Some,
    ensures
        home_row_of(s).kind == "Boost"@,
        account_row_of(s).kind == "Boost"@,
        s.reblog matches Some(r) ==> home_row_of(s).content == r.content,
        s.reblog matches Some(r) ==> account_row_of(s).content == r.content,
{
}

/// Law: a status without a reblog projects, in both row shapes, as a "Toot"
/// carrying the status's own content.
pub proof fn lemma_plain_projects_toot(s: StatusView)
    requires
        s.reblog is None,
    ensures
        home_row_of(s).kind == "Toot"@,
        account_row_of(s).kind == "Toot"@,
        home_row_of(s).content == s.content,
        account_row_of(s).content == s.content,
{
}

} // verus!
