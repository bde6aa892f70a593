//! Which profile the following tool calls act for.
use vstd::prelude::*;
use crate::error::{ErrorView, ToolError};
use crate::profile::{ProfileView, SsoProfile, profiles_view};

verus! {

/// The session's choice of profile.
#[derive(Debug, Default)]
pub struct AuthState {
    pub active_profile: Option<SsoProfile>,
}

/// The view of an optional profile.
pub open spec fn opt_profile(o: Option<SsoProfile>) -> Option<ProfileView> {
    match o {
        Some(p) => Some(p@),
        None => None,
    }
}

impl View for AuthState {
    type V = Option<ProfileView>;

    open spec fn view(&self) -> Option<ProfileView> {
        opt_profile(self.active_profile)
    }
}

/// A session with no profile chosen.
pub fn new_shared_state() -> (s: AuthState)
    ensures
        s@ is None,
{
    AuthState { active_profile: None }
}

/// What `active_profile` gives for a session: its profile, or the request to
/// choose one.
pub open spec fn spec_active(s: Option<ProfileView>) -> Result<ProfileView, ErrorView> {
    match s {
        Some(p) => Ok(p),
        None => Err(ErrorView::NoActiveProfile),
    }
}

/// The view of a result that carries a profile.
pub open spec fn result_view(r: Result<SsoProfile, ToolError>) -> Result<ProfileView, ErrorView> {
    match r {
        Ok(p) => Ok(p@),
        Err(e) => Err(e@),
    }
}

/// The chosen profile, or `NoActiveProfile` when none is chosen.
pub fn active_profile(state: &AuthState) -> (r: Result<SsoProfile, ToolError>)
    ensures
        result_view(r) == spec_active(state@),
{
    match &state.active_profile {
        Some(p) => Ok(p.duplicate()),
        None => Err(ToolError::NoActiveProfile),
    }
}

/// The position of the first profile named `name`, or `ps.len()`.
pub open spec fn first_named(ps: Seq<ProfileView>, name: Seq<char>) -> int
    decreases ps.len(),
{
    if ps.len() == 0 {
        0
    } else if ps[0].name == name {
        0
    } else {
        1 + first_named(ps.drop_first(), name)
    }
}

/// The first profile named `name`, or `ProfileNotFound`.
pub open spec fn spec_find(ps: Seq<ProfileView>, name: Seq<char>) -> Result<ProfileView, ErrorView> {
    let i = first_named(ps, name);
    if i < ps.len() {
        Ok(ps[i])
    } else {
        Err(ErrorView::ProfileNotFound(name))
    }
}

pub proof fn lemma_first_named(ps: Seq<ProfileView>, name: Seq<char>)
    ensures
        0 <= first_named(ps, name) <= ps.len(),
        first_named(ps, name) < ps.len() ==> ps[first_named(ps, name)].name == name,
        forall|k: int| 0 <= k < first_named(ps, name) ==> ps[k].name != name,
    decreases ps.len(),
{
    if ps.len() > 0 && ps[0].name != name {
        lemma_first_named(ps.drop_first(), name);
        assert forall|k: int| 0 <= k < first_named(ps, name) implies ps[k].name != name by {
            if k > 0 {
                assert(ps[k] == ps.drop_first()[k - 1]);
            }
        }
    }
}

/// The first profile of `profiles` named `name`, or `ProfileNotFound`.
pub fn find_profile(candidates: Vec<SsoProfile>, name: &str) -> (r: Result<SsoProfile, ToolError>)
    ensures
        result_view(r) == spec_find(profiles_view(candidates@), name@),
{
    let ghost ps = profiles_view(candidates@);
    proof {
        lemma_first_named(ps, name@);
    }
    let target = String::from_str(name);
    let mut profiles = candidates;
    let n = profiles.len();
    let mut i: usize = 0;
    while i < n
        invariant
            n == profiles@.len(),
            ps == profiles_view(profiles@),
            ps == profiles_view(candidates@),
            target@ == name@,
            0 <= i <= n,
            i <= first_named(ps, name@),
            0 <= first_named(ps, name@) <= ps.len(),
            first_named(ps, name@) < ps.len() ==> ps[first_named(ps, name@)].name == name@,
            forall|k: int| 0 <= k < first_named(ps, name@) ==> ps[k].name != name@,
        decreases n - i,
    {
        if profiles[i].name == target {
            assert(ps[i as int].name == name@);
            let mut rest = profiles.split_off(i);
            let p = rest.swap_remove(0);
            assert(p@ == ps[i as int]);
            assert(first_named(ps, name@) == i);
            return Ok(p);
        }
        assert(ps[i as int].name != name@);
        i = i + 1;
    }
    Err(ToolError::ProfileNotFound(target))
}

/// The session after choosing the first profile named `name`; unchanged when
/// there is none.
pub open spec fn spec_switch(s: Option<ProfileView>, ps: Seq<ProfileView>, name: Seq<char>) -> Option<ProfileView> {
    match spec_find(ps, name) {
        Ok(p) => Some(p),
        Err(_) => s,
    }
}

/// Chooses the first profile named `name` and answers with that name;
/// `ProfileNotFound`, with the session unchanged, when there is none.
pub fn switch_account(state: &mut AuthState, profiles: Vec<SsoProfile>, name: &str) -> (r: Result<String, ToolError>)
    ensures
        final(state)@ == spec_switch(old(state)@, profiles_view(profiles@), name@),
        match (r, spec_find(profiles_view(profiles@), name@)) {
            (Ok(switched), Ok(_)) => switched@ == name@,
            (Err(e), Err(f)) => e@ == f,
            _ => false,
        },
{
    match find_profile(profiles, name) {
        Ok(p) => {
            state.active_profile = Some(p);
            Ok(String::from_str(name))
        },
        Err(e) => Err(e),
    }
}

/// Makes `profile` the chosen one (after a successful login).
pub fn activate(state: &mut AuthState, profile: SsoProfile)
    ensures
        final(state)@ == Some(profile@),
{
    state.active_profile = Some(profile);
}

/// The session after signing out of the profile named `name`: no profile
/// when that one was chosen, else unchanged.
pub open spec fn spec_sign_out(s: Option<ProfileView>, name: Seq<char>) -> Option<ProfileView> {
    match s {
        Some(p) => if p.name == name {
            None
        } else {
            s
        },
        None => None,
    }
}

/// Forgets the chosen profile if it is named `name`.
pub fn sign_out(state: &mut AuthState, name: &str)
    ensures
        final(state)@ == spec_sign_out(old(state)@, name@),
{
    let target = String::from_str(name);
    let matches = match &state.active_profile {
        Some(p) => p.name == target,
        None => false,
    };
    if matches {
        state.active_profile = None;
    }
}

/// After a successful switch to `name`, the session's profile is the first
/// profile of that name; after a failed one, the session is unchanged.
pub proof fn lemma_switch_then_active(s: Option<ProfileView>, ps: Seq<ProfileView>, name: Seq<char>)
    ensures
        spec_find(ps, name) is Ok ==> spec_active(spec_switch(s, ps, name)) == spec_find(ps, name)
            && spec_active(spec_switch(s, ps, name))->Ok_0.name == name,
        spec_find(ps, name) is Err ==> spec_switch(s, ps, name) == s,
{
    lemma_first_named(ps, name);
}

/// Signing out of the chosen profile leaves no profile chosen, so that the
/// next tool call is refused with `NoActiveProfile`; signing out of another
/// profile changes nothing.
pub proof fn lemma_sign_out(s: Option<ProfileView>, name: Seq<char>)
    ensures
        (s matches Some(p) && p.name == name) ==> spec_active(spec_sign_out(s, name)) == Err::<
            ProfileView,
            ErrorView,
        >(ErrorView::NoActiveProfile),
        !(s matches Some(p) && p.name == name) ==> spec_sign_out(s, name) == s,
{
}

/// After a successful switch to `name`, the account list marks exactly the
/// accounts named `name` as active.
pub proof fn lemma_switch_marks_active(
    s: Option<ProfileView>,
    ps: Seq<ProfileView>,
    name: Seq<char>,
    q: ProfileView,
)
    requires
        spec_find(ps, name) is Ok,
    ensures
        is_active_account(spec_switch(s, ps, name), q) <==> q.name == name,
{
    lemma_first_named(ps, name);
}

/// One line of the account list.
#[derive(Debug, Clone, PartialEq, Eq)]
pub struct AccountSummary {
    pub name: String,
    pub account_id: String,
    pub role: String,
    pub region: String,
    pub active: bool,
}

/// Whether the account of profile `p` is the chosen one.
pub open spec fn is_active_account(s: Option<ProfileView>, p: ProfileView) -> bool {
    match s {
        Some(a) => a.name == p.name,
        None => false,
    }
}

/// One summary per profile, in order, with the chosen profile's name marked
/// active.
pub fn list_accounts(profiles: &Vec<SsoProfile>, state: &AuthState) -> (r: Vec<AccountSummary>)
    ensures
        r@.len() == profiles@.len(),
        forall|i: int|
            0 <= i < r@.len() ==> {
                let a = #[trigger] r@[i];
                let p = profiles@[i]@;
                &&& a.name@ == p.name
                &&& a.account_id@ == p.sso_account_id
                &&& a.role@ == p.sso_role_name
                &&& a.region@ == p.region
                &&& a.active == is_active_account(state@, p)
            },
{
    let mut r: Vec<AccountSummary> = Vec::new();
    let mut i: usize = 0;
    while i < profiles.len()
        invariant
            i <= profiles@.len(),
            r@.len() == i,
            forall|k: int|
                0 <= k < i ==> {
                    let a = #[trigger] r@[k];
                    let p = profiles@[k]@;
                    &&& a.name@ == p.name
                    &&& a.account_id@ == p.sso_account_id
                    &&& a.role@ == p.sso_role_name
                    &&& a.region@ == p.region
                    &&& a.active == is_active_account(state@, p)
                },
        decreases profiles@.len() - i,
    {
        let p = &profiles[i];
        let active = match &state.active_profile {
            Some(a) => a.name == p.name,
            None => false,
        };
        r.push(
            AccountSummary {
                name: p.name.clone(),
                account_id: p.sso_account_id.clone(),
                role: p.sso_role_name.clone(),
                region: p.region.clone(),
                active,
            },
        );
        i = i + 1;
    }
    r
}

} // verus!
