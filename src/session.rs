use vstd::prelude::*;
use vstd::string::*;
use crate::authentication::Authentication;
use crate::ids::{is_uuid_v4_text, new_uuid};
use crate::query::{
    fields_of, insert_params_of, insert_query, insert_sql, params_view, table_of, text_view,
    update_params_of, update_query, update_sql, value_views, values_of, Param, Query,
};
use crate::resource::DatabaseResource;
use crate::values::DatabaseValue;

verus! {

/// How long a session lives after it was created or last refreshed: thirty days,
/// in seconds.
pub const SESSION_LIFETIME: i64 = 30 * 24 * 60 * 60;

/// A session row as the contracts see it: id, owning user, expiry in seconds.
pub type SessionView = (Seq<char>, Seq<char>, Option<int>);

pub open spec fn session_view(a: Authentication) -> SessionView {
    (
        a.id@,
        a.user_id@,
        match a.expires_at {
            Some(e) => Some(e as int),
            None => None,
        },
    )
}

pub open spec fn session_views(v: Seq<Authentication>) -> Seq<SessionView> {
    v.map_values(|a: Authentication| session_view(a))
}

/// The session has not expired at `now`.
pub open spec fn is_live(s: SessionView, now: int) -> bool {
    s.2 matches Some(e) && now <= e
}

/// The first index from `k` on of a live session, or -1.
pub open spec fn live_from(rows: Seq<SessionView>, now: int, k: int) -> int
    decreases rows.len() - k,
{
    if k < 0 || k >= rows.len() {
        -1
    } else if is_live(rows[k], now) {
        k
    } else {
        live_from(rows, now, k + 1)
    }
}

/// The sessions of one user after a login at `now`: the first live one is
/// refreshed to expire a lifetime after `now`; without one, a session with id
/// `fresh` is added.
pub open spec fn login_effect(rows: Seq<SessionView>, user: Seq<char>, now: int, fresh: Seq<char>) -> Seq<
    SessionView,
> {
    let j = live_from(rows, now, 0);
    let e = Some(now + SESSION_LIFETIME);
    if j >= 0 {
        rows.update(j, (rows[j].0, rows[j].1, e))
    } else {
        rows.push((fresh, user, e))
    }
}

/// What a login does with the user's sessions.
#[derive(Debug)]
pub enum LoginAction {
    /// Refresh the live session with this id.
    Refresh(String),
    /// Create a new session.
    Create,
}

/// The expiry of a session created or refreshed at `now`; `None` where it does
/// not fit in an `i64`.
pub fn session_expiry(now: i64) -> (r: Option<i64>)
    ensures
        r matches Some(e) ==> e == now + SESSION_LIFETIME,
        r is None <==> now + SESSION_LIFETIME > i64::MAX,
{
    if now > i64::MAX - SESSION_LIFETIME {
        None
    } else {
        Some(now + SESSION_LIFETIME)
    }
}

/// Chooses between refreshing a session and creating one, given all the
/// sessions of the user: the first that is live at `now` is refreshed.
pub fn login_action(sessions: &Vec<Authentication>, now: i64) -> (r: LoginAction)
    ensures
        ({
            let j = live_from(session_views(sessions@), now as int, 0);
            &&& j >= 0 ==> (r matches LoginAction::Refresh(id) && id@ == sessions@[j].id@)
            &&& j < 0 ==> r is Create
        }),
{
    let ghost rows = session_views(sessions@);
    let mut i: usize = 0;
    while i < sessions.len()
        invariant
            i <= sessions@.len(),
            rows == session_views(sessions@),
            live_from(rows, now as int, 0) == live_from(rows, now as int, i as int),
        decreases sessions@.len() - i,
    {
        let live = match sessions[i].expires_at {
            Some(e) => now <= e,
            None => false,
        };
        proof {
            assert(rows[i as int] == session_view(sessions@[i as int]));
        }
        if live {
            return LoginAction::Refresh(sessions[i].id.clone());
        }
        i = i + 1;
    }
    LoginAction::Create
}

/// The statement a login runs once the user is known: the UPDATE that refreshes
/// the user's first live session, or else the INSERT of a session with a fresh
/// random token. `now` and `expires` are the texts of the current time and of
/// the expiry.
pub fn login_statement(
    user_id: &String,
    sessions: &Vec<Authentication>,
    now: i64,
    now_text: &String,
    expires_text: &String,
) -> (r: Query)
    ensures
        ({
            let j = live_from(session_views(sessions@), now as int, 0);
            let table = table_of(Authentication::spec_name());
            &&& j >= 0 ==> {
                let ps = update_params_of::<Authentication>(Seq::empty(), now_text@, expires_text@);
                &&& r.sql@ == update_sql(table, fields_of(ps))
                &&& value_views(r.binds@) == values_of(ps).push(text_view(sessions@[j].id@))
            }
            &&& j < 0 ==> exists|token: Seq<char>, id: Seq<char>|
                #![trigger is_uuid_v4_text(token), is_uuid_v4_text(id)]
                {
                    let ps = insert_params_of::<Authentication>(
                        seq![("user_id"@, text_view(user_id@)), ("token"@, text_view(token))],
                        id,
                        now_text@,
                        expires_text@,
                    );
                    &&& is_uuid_v4_text(token)
                    &&& is_uuid_v4_text(id)
                    &&& r.sql@ == insert_sql(table, ps)
                    &&& value_views(r.binds@) == values_of(ps)
                }
        }),
{
    match login_action(sessions, now) {
        LoginAction::Refresh(id) => {
            let empty: Vec<Param> = Vec::new();
            proof {
                assert(params_view(empty@) =~= Seq::empty());
            }
            update_query::<Authentication>(empty, &DatabaseValue::String(id), now_text, expires_text)
        },
        LoginAction::Create => {
            let token = new_uuid();
            let id = new_uuid();
            let mut ps: Vec<Param> = Vec::new();
            ps.push((String::from_str("user_id"), DatabaseValue::String(user_id.clone())));
            ps.push((String::from_str("token"), DatabaseValue::String(token.clone())));
            proof {
                assert(params_view(ps@) =~= seq![
                    ("user_id"@, text_view(user_id@)),
                    ("token"@, text_view(token@)),
                ]);
            }
            insert_query::<Authentication>(ps, &id, now_text, expires_text)
        },
    }
}

/// A first login creates exactly one session, and a second login before that
/// session expires refreshes the same session instead of creating another.
pub proof fn lemma_login_reuses_live_session(
    user: Seq<char>,
    now: int,
    later: int,
    first_id: Seq<char>,
    second_id: Seq<char>,
)
    requires
        now <= later <= now + SESSION_LIFETIME,
    ensures
        ({
            let once = login_effect(Seq::empty(), user, now, first_id);
            let twice = login_effect(once, user, later, second_id);
            &&& once.len() == 1
            &&& once[0].0 == first_id
            &&& once[0].1 == user
            &&& twice.len() == 1
            &&& twice[0].0 == first_id
            &&& twice[0].1 == user
            &&& twice[0].2 == Some(later + SESSION_LIFETIME)
        }),
{
    let once = login_effect(Seq::empty(), user, now, first_id);
    assert(live_from(Seq::<SessionView>::empty(), now, 0) == -1);
    assert(is_live(once[0], later));
    assert(live_from(once, later, 0) == 0);
}

} // verus!
