//! The remote service's resource shapes and their decoders: access-token
//! response, account, status ("toot") with its optional reblog, and the
//! identifier-only publish response.
//!
//! Each decoder is total over [`Json`] and returns `Some` exactly on the
//! documents its spec-level counterpart accepts: the required fields present
//! with the required types, unknown fields ignored.

use vstd::prelude::*;

use crate::json::{
    bool_field, get_bool_field, get_field, get_int_field, get_str_field, int_field, lookup_field,
    str_field, Json,
};

verus! {

/// Access-token response of a password-grant login. Transient: consumed to
/// populate the credential store and the login row.
#[derive(Debug)]
pub struct AccessTokenResponse {
    pub access_token: String,
    pub token_type: String,
    pub scope: String,
    pub created_at: i64,
}

/// Mathematical image of an [`AccessTokenResponse`].
pub struct AccessTokenView {
    pub access_token: Seq<char>,
    pub token_type: Seq<char>,
    pub scope: Seq<char>,
    pub created_at: i64,
}

impl View for AccessTokenResponse {
    type V = AccessTokenView;

    open spec fn view(&self) -> AccessTokenView {
        AccessTokenView {
            access_token: self.access_token@,
            token_type: self.token_type@,
            scope: self.scope@,
            created_at: self.created_at,
        }
    }
}

/// The author of a status.
#[derive(Debug)]
pub struct Account {
    pub id: String,
    pub acct: String,
    pub bot: bool,
}

/// Mathematical image of an [`Account`].
pub struct AccountView {
    pub id: Seq<char>,
    pub acct: Seq<char>,
    pub bot: bool,
}

impl View for Account {
    type V = AccountView;

    open spec fn view(&self) -> AccountView {
        AccountView { id: self.id@, acct: self.acct@, bot: self.bot }
    }
}

/// The reshared substructure of a status; only its content is surfaced.
#[derive(Debug)]
pub struct Reblog {
    pub content: String,
}

/// Mathematical image of a [`Reblog`].
pub struct ReblogView {
    pub content: Seq<char>,
}

impl View for Reblog {
    type V = ReblogView;

    open spec fn view(&self) -> ReblogView {
        ReblogView { content: self.content@ }
    }
}

/// A status as delivered by a timeline: its creation time stays the ISO-8601
/// string the remote service sent, unparsed.
#[derive(Debug)]
pub struct Status {
    pub id: String,
    pub created_at: String,
    pub sensitive: bool,
    pub visibility: String,
    pub account: Account,
    pub reblog: Option<Reblog>,
    pub content: String,
}

/// Mathematical image of a [`Status`].
pub struct StatusView {
    pub id: Seq<char>,
    pub created_at: Seq<char>,
    pub sensitive: bool,
    pub visibility: Seq<char>,
    pub account: AccountView,
    pub reblog: Option<ReblogView>,
    pub content: Seq<char>,
}

impl View for Status {
    type V = StatusView;

    open spec fn view(&self) -> StatusView {
        StatusView {
            id: self.id@,
            created_at: self.created_at@,
            sensitive: self.sensitive,
            visibility: self.visibility@,
            account: self.account@,
            reblog: match self.reblog {
                Some(r) => Some(r@),
                None => None,
            },
            content: self.content@,
        }
    }
}

/// The image of a status list.
pub open spec fn statuses_view(s: Seq<Status>) -> Seq<StatusView> {
    s.map_values(|x: Status| x@)
}

/// The access-token response a document describes, if it has the required
/// shape: an object with string `access_token`, `token_type` and `scope`, and
/// integer `created_at` (epoch seconds).
pub open spec fn token_of_json(j: Json) -> Option<AccessTokenView> {
    match j {
        Json::Obj(fields) => match (
            str_field(fields@, "access_token"@),
            str_field(fields@, "token_type"@),
            str_field(fields@, "scope"@),
            int_field(fields@, "created_at"@),
        ) {
            (Some(access_token), Some(token_type), Some(scope), Some(created_at)) => Some(
                AccessTokenView { access_token, token_type, scope, created_at },
            ),
            _ => None,
        },
        _ => None,
    }
}

/// The account a document describes: an object with string `id` and `acct`
/// and boolean `bot`.
pub open spec fn account_of_json(j: Json) -> Option<AccountView> {
    match j {
        Json::Obj(fields) => match (
            str_field(fields@, "id"@),
            str_field(fields@, "acct"@),
            bool_field(fields@, "bot"@),
        ) {
            (Some(id), Some(acct), Some(bot)) => Some(AccountView { id, acct, bot }),
            _ => None,
        },
        _ => None,
    }
}

/// The reblog a document describes: an object with string `content`.
pub open spec fn reblog_of_json(j: Json) -> Option<ReblogView> {
    match j {
        Json::Obj(fields) => match str_field(fields@, "content"@) {
            Some(content) => Some(ReblogView { content }),
            _ => None,
        },
        _ => None,
    }
}

/// The optional reblog of a status object: an absent or null `reblog` field
/// means no reblog, an object is decoded, anything else is a decode failure
/// (the outer `None`).
pub open spec fn optional_reblog_of_fields(fields: Seq<(String, Json)>) -> Option<
    Option<ReblogView>,
> {
    match lookup_field(fields, "reblog"@) {
        None => Some(None),
        Some(Json::Null) => Some(None),
        Some(j) => match reblog_of_json(j) {
            Some(r) => Some(Some(r)),
            None => None,
        },
    }
}

/// The status a document describes: an object with string `id`, `created_at`,
/// `visibility` and `content`, boolean `sensitive`, an `account` object, and
/// an optional `reblog`.
pub open spec fn status_of_json(j: Json) -> Option<StatusView> {
    match j {
        Json::Obj(fields) => {
            let account = match lookup_field(fields@, "account"@) {
                Some(a) => account_of_json(a),
                None => None,
            };
            match (
                str_field(fields@, "id"@),
                str_field(fields@, "created_at"@),
                bool_field(fields@, "sensitive"@),
                str_field(fields@, "visibility"@),
                account,
                optional_reblog_of_fields(fields@),
                str_field(fields@, "content"@),
            ) {
                (
                    Some(id),
                    Some(created_at),
                    Some(sensitive),
                    Some(visibility),
                    Some(account),
                    Some(reblog),
                    Some(content),
                ) => Some(
                    StatusView { id, created_at, sensitive, visibility, account, reblog, content },
                ),
                _ => None,
            }
        },
        _ => None,
    }
}

/// The status list a document describes: an array whose every element is a
/// status. One element of the wrong shape fails the whole list.
pub open spec fn statuses_of_json_seq(elems: Seq<Json>) -> Option<Seq<StatusView>>
    decreases elems.len(),
{
    if elems.len() == 0 {
        Some(Seq::<StatusView>::empty())
    } else {
        match (status_of_json(elems[0]), statuses_of_json_seq(elems.drop_first())) {
            (Some(head), Some(tail)) => Some(seq![head] + tail),
            _ => None,
        }
    }
}

/// The status list a document describes, or `None` where the document is not
/// an array of statuses.
pub open spec fn statuses_of_json(j: Json) -> Option<Seq<StatusView>> {
    match j {
        Json::Arr(elems) => statuses_of_json_seq(elems@),
        _ => None,
    }
}

/// The identifier of a newly created status: an object with string `id`.
pub open spec fn just_id_of_json(j: Json) -> Option<Seq<char>> {
    match j {
        Json::Obj(fields) => str_field(fields@, "id"@),
        _ => None,
    }
}

/// Decodes an access-token response.
pub fn decode_token(j: &Json) -> (r: Option<AccessTokenResponse>)
    ensures
        match r {
            Some(t) => token_of_json(*j) == Some(t@),
            None => token_of_json(*j) is None,
        },
{
    match j {
        Json::Obj(fields) => {
            let access_token = get_str_field(fields, "access_token");
            let token_type = get_str_field(fields, "token_type");
            let scope = get_str_field(fields, "scope");
            let created_at = get_int_field(fields, "created_at");
            match (access_token, token_type, scope, created_at) {
                (Some(access_token), Some(token_type), Some(scope), Some(created_at)) => Some(
                    AccessTokenResponse { access_token, token_type, scope, created_at },
                ),
                _ => None,
            }
        },
        _ => None,
    }
}

/// Decodes an account.
pub fn decode_account(j: &Json) -> (r: Option<Account>)
    ensures
        match r {
            Some(a) => account_of_json(*j) == Some(a@),
            None => account_of_json(*j) is None,
        },
{
    match j {
        Json::Obj(fields) => {
            let id = get_str_field(fields, "id");
            let acct = get_str_field(fields, "acct");
            let bot = get_bool_field(fields, "bot");
            match (id, acct, bot) {
                (Some(id), Some(acct), Some(bot)) => Some(Account { id, acct, bot }),
                _ => None,
            }
        },
        _ => None,
    }
}

/// Decodes a reblog.
pub fn decode_reblog(j: &Json) -> (r: Option<Reblog>)
    ensures
        match r {
            Some(b) => reblog_of_json(*j) == Some(b@),
            None => reblog_of_json(*j) is None,
        },
{
    match j {
        Json::Obj(fields) => match get_str_field(fields, "content") {
            Some(content) => Some(Reblog { content }),
            None => None,
        },
        _ => None,
    }
}

/// Decodes a status.
pub fn decode_status(j: &Json) -> (r: Option<Status>)
    ensures
        match r {
            Some(s) => status_of_json(*j) == Some(s@),
            None => status_of_json(*j) is None,
        },
{
    match j {
        Json::Obj(fields) => {
            let id = get_str_field(fields, "id");
            let created_at = get_str_field(fields, "created_at");
            let sensitive = get_bool_field(fields, "sensitive");
            let visibility = get_str_field(fields, "visibility");
            let content = get_str_field(fields, "content");
            let account = match get_field(fields, "account") {
                Some(a) => decode_account(a),
                None => None,
            };
            let reblog: Option<Option<Reblog>> = match get_field(fields, "reblog") {
                None => Some(None),
                Some(Json::Null) => Some(None),
                Some(r) => match decode_reblog(r) {
                    Some(b) => Some(Some(b)),
                    None => None,
                },
            };
            match (id, created_at, sensitive, visibility, account, reblog, content) {
                (
                    Some(id),
                    Some(created_at),
                    Some(sensitive),
                    Some(visibility),
                    Some(account),
                    Some(reblog),
                    Some(content),
                ) => Some(
                    Status { id, created_at, sensitive, visibility, account, reblog, content },
                ),
                _ => None,
            }
        },
        _ => None,
    }
}

/// Decodes a status list.
pub fn decode_statuses(j: &Json) -> (r: Option<Vec<Status>>)
    ensures
        match r {
            Some(v) => statuses_of_json(*j) == Some(statuses_view(v@)),
            None => statuses_of_json(*j) is None,
        },
{
    match j {
        Json::Arr(elems) => {
            let mut out: Vec<Status> = Vec::new();
            let mut i: usize = 0;
            proof {
                assert(elems@.skip(0) =~= elems@);
                assert(statuses_view(out@) =~= Seq::<StatusView>::empty());
            }
            while i < elems.len()
                invariant
                    i <= elems.len(),
                    *j == Json::Arr(*elems),
                    match statuses_of_json_seq(elems@.skip(i as int)) {
                        Some(tail) => statuses_of_json_seq(elems@) == Some(
                            statuses_view(out@) + tail,
                        ),
                        None => statuses_of_json_seq(elems@) is None,
                    },
                decreases elems.len() - i,
            {
                proof {
                    assert(elems@.skip(i as int).drop_first() =~= elems@.skip(i as int + 1));
                    assert(elems@.skip(i as int)[0] == elems@[i as int]);
                }
                match decode_status(&elems[i]) {
                    Some(s) => {
                        let ghost prev = statuses_view(out@);
                        let ghost sv = s@;
                        out.push(s);
                        proof {
                            assert(statuses_view(out@) =~= prev.push(sv));
                            if let Some(tail) = statuses_of_json_seq(
                                elems@.skip(i as int + 1),
                            ) {
                                assert(prev + (seq![sv] + tail) =~= prev.push(sv) + tail);
                            }
                        }
                    },
                    None => {
                        proof {
                            assert(statuses_of_json_seq(elems@.skip(i as int)) is None);
                        }
                        return None;
                    },
                }
                i = i + 1;
            }
            proof {
                assert(elems@.skip(elems@.len() as int) =~= Seq::<Json>::empty());
                assert(statuses_view(out@) + Seq::<StatusView>::empty() =~= statuses_view(out@));
            }
            Some(out)
        },
        _ => None,
    }
}

/// Decodes the identifier-only publish response.
pub fn decode_just_id(j: &Json) -> (r: Option<String>)
    ensures
        match r {
            Some(s) => just_id_of_json(*j) == Some(s@),
            None => just_id_of_json(*j) is None,
        },
{
    match j {
        Json::Obj(fields) => get_str_field(fields, "id"),
        _ => None,
    }
}

} // verus!
