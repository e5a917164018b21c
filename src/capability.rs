use vstd::prelude::*;
use crate::activity::Activity;
use crate::user::User;
use crate::user_skill::UserSkill;
use crate::values::opt_text;
use crate::query::texts;

verus! {

/// A member of a team who has a skill, at a level, and whether they are free to
/// take on work.
#[derive(Debug, Clone)]
pub struct Capability {
    pub user: User,
    pub skill: String,
    pub level: i32,
    pub available: bool,
}

/// A capability as the contracts see it: the user's id, skill, level, availability.
pub type CapView = (Option<Seq<char>>, Seq<char>, i32, bool);

pub open spec fn cap_view(c: Capability) -> CapView {
    (opt_text(c.user.id), c.skill@, c.level, c.available)
}

/// The lowercase form of a text, as `str::to_lowercase` gives it.
pub uninterp spec fn lower_of(s: Seq<char>) -> Seq<char>;

/// Relies on `str::to_lowercase`: the lowercase form, which depends on the text
/// alone.
#[verifier::external_body]
pub(crate) fn lowercase(s: &str) -> (r: String)
    ensures
        r@ == lower_of(s@),
{
    s.to_lowercase()
}

/// The activity is assigned to the user with id `user_id`.
pub open spec fn is_assigned(a: Activity, user_id: Seq<char>) -> bool {
    opt_text(a.assigned_to) == Some(user_id)
}

/// A user is free when no activity of the team is assigned to them.
pub open spec fn is_free(user_id: Option<Seq<char>>, activities: Seq<Activity>) -> bool {
    match user_id {
        Some(u) => forall|i: int| 0 <= i < activities.len() ==> !is_assigned(#[trigger] activities[i], u),
        None => true,
    }
}

/// The capability that a member's skill gives, when the skill has a name and a
/// level: the skill's name lowercased, and the member's availability.
pub open spec fn skill_capability(user: User, skill: UserSkill, activities: Seq<Activity>) -> Option<
    CapView,
> {
    match (skill.skill_name, skill.skill_level) {
        (Some(name), Some(level)) => Some(
            (opt_text(user.id), lower_of(name@), level, is_free(opt_text(user.id), activities)),
        ),
        _ => None,
    }
}

/// The views of a sequence of capabilities.
pub open spec fn cap_views(caps: Seq<Capability>) -> Seq<CapView> {
    caps.map_values(|c: Capability| cap_view(c))
}

/// The capabilities that the skills of one member give, in order: one for each
/// skill with a name and a level.
pub open spec fn skills_capabilities(user: User, skills: Seq<UserSkill>, activities: Seq<Activity>) -> Seq<
    CapView,
>
    decreases skills.len(),
{
    if skills.len() == 0 {
        Seq::empty()
    } else {
        skills_capabilities(user, skills.drop_last(), activities) + match skill_capability(
            user,
            skills.last(),
            activities,
        ) {
            Some(cv) => seq![cv],
            None => Seq::empty(),
        }
    }
}

/// The capabilities of all the members, member by member.
pub open spec fn all_capabilities(members: Seq<(User, Vec<UserSkill>)>, activities: Seq<Activity>) -> Seq<
    CapView,
>
    decreases members.len(),
{
    if members.len() == 0 {
        Seq::empty()
    } else {
        all_capabilities(members.drop_last(), activities) + skills_capabilities(
            members.last().0,
            members.last().1@,
            activities,
        )
    }
}

/// The distinct skill names of the capabilities, in order of first appearance.
pub open spec fn distinct_skills(cvs: Seq<CapView>) -> Seq<Seq<char>>
    decreases cvs.len(),
{
    if cvs.len() == 0 {
        Seq::empty()
    } else {
        let prev = distinct_skills(cvs.drop_last());
        if prev.contains(cvs.last().1) {
            prev
        } else {
            prev.push(cvs.last().1)
        }
    }
}

/// The capabilities of the skill `k`, in order.
pub open spec fn with_skill(cvs: Seq<CapView>, k: Seq<char>) -> Seq<CapView> {
    cvs.filter(|c: CapView| c.1 == k)
}

/// The skill names of the groups, in order.
pub open spec fn group_keys(groups: Seq<(String, Vec<Capability>)>) -> Seq<Seq<char>> {
    groups.map_values(|g: (String, Vec<Capability>)| g.0@)
}

/// Whether the user with id `user_id` is free: no activity is assigned to them.
pub fn is_available(user_id: &Option<String>, activities: &Vec<Activity>) -> (r: bool)
    ensures
        r == is_free(opt_text(*user_id), activities@),
{
    match user_id.as_ref() {
        None => true,
        Some(u) => {
            let mut i: usize = 0;
            while i < activities.len()
                invariant
                    i <= activities@.len(),
                    opt_text(*user_id) == Some(u@),
                    forall|k: int| 0 <= k < i ==> !is_assigned(#[trigger] activities@[k], u@),
                decreases activities@.len() - i,
            {
                match &activities[i].assigned_to {
                    Some(a) => {
                        if a.eq(u) {
                            proof {
                                assert(is_assigned(activities@[i as int], u@));
                            }
                            return false;
                        }
                    },
                    None => {},
                }
                i = i + 1;
            }
            true
        },
    }
}

impl Capability {
    /// A copy of the capability.
    pub fn duplicate(&self) -> (r: Capability)
        ensures
            cap_view(r) == cap_view(*self),
    {
        Capability {
            user: self.user.duplicate(),
            skill: self.skill.clone(),
            level: self.level,
            available: self.available,
        }
    }
}

/// `cv` is the capability of some skill of some member.
pub open spec fn from_some_skill(
    members: Seq<(User, Vec<UserSkill>)>,
    activities: Seq<Activity>,
    cv: CapView,
) -> bool {
    exists|m: int, s: int|
        0 <= m < members.len() && 0 <= s < members[m].1@.len() && #[trigger] skill_capability(
            members[m].0,
            members[m].1@[s],
            activities,
        ) == Some(cv)
}

/// Some capability of `caps` is `cv`.
pub open spec fn listed(caps: Seq<Capability>, cv: CapView) -> bool {
    exists|k: int| 0 <= k < caps.len() && cap_view(#[trigger] caps[k]) == cv
}

proof fn lemma_listed_push(caps: Seq<Capability>, c: Capability, cv: CapView)
    requires
        listed(caps, cv) || cap_view(c) == cv,
    ensures
        listed(caps.push(c), cv),
{
    if listed(caps, cv) {
        let k = choose|k: int| 0 <= k < caps.len() && cap_view(#[trigger] caps[k]) == cv;
        assert(caps.push(c)[k] == caps[k]);
    } else {
        assert(caps.push(c)[caps.len() as int] == c);
    }
}

/// One capability per skill with a name and a level, member by member, each
/// marked available exactly when no activity is assigned to its member.
pub fn member_capabilities(members: &Vec<(User, Vec<UserSkill>)>, activities: &Vec<Activity>) -> (r:
    Vec<Capability>)
    ensures
        forall|k: int|
            0 <= k < r@.len() ==> from_some_skill(members@, activities@, cap_view(#[trigger] r@[k])),
        forall|m: int, s: int|
            0 <= m < members@.len() && 0 <= s < members@[m].1@.len() ==> (#[trigger] skill_capability(
                members@[m].0,
                members@[m].1@[s],
                activities@,
            ) matches Some(cv) ==> listed(r@, cv)),
        cap_views(r@) == all_capabilities(members@, activities@),
{
    let mut out: Vec<Capability> = Vec::new();
    let mut m: usize = 0;
    while m < members.len()
        invariant
            m <= members@.len(),
            cap_views(out@) == all_capabilities(members@.take(m as int), activities@),
            forall|k: int|
                0 <= k < out@.len() ==> from_some_skill(
                    members@,
                    activities@,
                    cap_view(#[trigger] out@[k]),
                ),
            forall|mm: int, ss: int|
                0 <= mm < m && 0 <= ss < members@[mm].1@.len() ==> (#[trigger] skill_capability(
                    members@[mm].0,
                    members@[mm].1@[ss],
                    activities@,
                ) matches Some(cv) ==> listed(out@, cv)),
        decreases members@.len() - m,
    {
        let user = &members[m].0;
        let skills = &members[m].1;
        let free = is_available(&user.id, activities);
        let mut s: usize = 0;
        while s < skills.len()
            invariant
                m < members@.len(),
                *user == members@[m as int].0,
                *skills == members@[m as int].1,
                free == is_free(opt_text(user.id), activities@),
                s <= skills@.len(),
                cap_views(out@) == all_capabilities(members@.take(m as int), activities@)
                    + skills_capabilities(*user, skills@.take(s as int), activities@),
                forall|k: int|
                    0 <= k < out@.len() ==> from_some_skill(
                        members@,
                        activities@,
                        cap_view(#[trigger] out@[k]),
                    ),
                forall|mm: int, ss: int|
                    ((0 <= mm < m && 0 <= ss < members@[mm].1@.len()) || (mm == m && 0 <= ss < s))
                        ==> (#[trigger] skill_capability(
                        members@[mm].0,
                        members@[mm].1@[ss],
                        activities@,
                    ) matches Some(cv) ==> listed(out@, cv)),
            decreases skills@.len() - s,
        {
            let skill = &skills[s];
            let ghost before = out@;
            proof {
                assert(skills@.take(s + 1).drop_last() =~= skills@.take(s as int));
                assert(skills@.take(s + 1).last() == skills@[s as int]);
            }
            match (&skill.skill_name, &skill.skill_level) {
                (Some(name), Some(level)) => {
                    let c = Capability {
                        user: user.duplicate(),
                        skill: lowercase(name.as_str()),
                        level: *level,
                        available: free,
                    };
                    let ghost prev = out@;
                    out.push(c);
                    proof {
                        let ghost mine = skill_capability(
                            members@[m as int].0,
                            members@[m as int].1@[s as int],
                            activities@,
                        );
                        assert(mine == Some(cap_view(c)));
                        assert(cap_views(out@) =~= cap_views(before).push(cap_view(c)));
                        assert(skill_capability(*user, skills@[s as int], activities@) == Some(
                            cap_view(c),
                        ));
                        assert(from_some_skill(members@, activities@, cap_view(c)));
                        assert forall|k: int| 0 <= k < out@.len() implies from_some_skill(
                            members@,
                            activities@,
                            cap_view(#[trigger] out@[k]),
                        ) by {
                            if k < prev.len() {
                                assert(out@[k] == prev[k]);
                            } else {
                                assert(out@[k] == c);
                            }
                        }
                        assert forall|mm: int, ss: int|
                            ((0 <= mm < m && 0 <= ss < members@[mm].1@.len()) || (mm == m && 0
                                <= ss < s + 1)) implies (#[trigger] skill_capability(
                            members@[mm].0,
                            members@[mm].1@[ss],
                            activities@,
                        ) matches Some(cv) ==> listed(out@, cv)) by {
                            if let Some(cv) = skill_capability(
                                members@[mm].0,
                                members@[mm].1@[ss],
                                activities@,
                            ) {
                                if mm == m && ss == s {
                                    lemma_listed_push(prev, c, cv);
                                } else {
                                    lemma_listed_push(prev, c, cv);
                                }
                            }
                        }
                    }
                },
                _ => {
                    proof {
                        assert(skills@[s as int] == members@[m as int].1@[s as int]);
                        assert(skill_capability(*user, skills@[s as int], activities@) is None);
                        assert(out@ == before);
                    }
                },
            }
            proof {
                assert(cap_views(out@) =~= all_capabilities(members@.take(m as int), activities@)
                    + skills_capabilities(*user, skills@.take(s + 1), activities@));
            }
            s = s + 1;
        }
        proof {
            assert(skills@.take(s as int) =~= skills@);
            assert(members@.take(m + 1).drop_last() =~= members@.take(m as int));
            assert(members@.take(m + 1).last() == members@[m as int]);
            assert(cap_views(out@) =~= all_capabilities(members@.take(m + 1), activities@));
        }
        m = m + 1;
    }
    assert(members@.take(m as int) =~= members@);
    out
}

/// Capabilities grouped by skill name, groups in order of first appearance.
pub type SkillGroups = Vec<(String, Vec<Capability>)>;

/// Some key of `keys` is `k`.
pub open spec fn has_key(keys: Seq<String>, k: Seq<char>) -> bool {
    exists|i: int| 0 <= i < keys.len() && (#[trigger] keys[i])@ == k
}

fn key_position(keys: &Vec<String>, k: &String) -> (r: Option<usize>)
    ensures
        r matches Some(i) ==> i < keys@.len() && keys@[i as int]@ == k@,
        r is None ==> !has_key(keys@, k@),
{
    let mut i: usize = 0;
    while i < keys.len()
        invariant
            i <= keys@.len(),
            forall|j: int| 0 <= j < i ==> (#[trigger] keys@[j])@ != k@,
        decreases keys@.len() - i,
    {
        if keys[i].eq(k) {
            return Some(i);
        }
        i = i + 1;
    }
    None
}

/// The distinct skill names of the capabilities, in order of first appearance.
fn skill_keys(caps: &Vec<Capability>) -> (r: Vec<String>)
    ensures
        forall|i: int, j: int| 0 <= i < j < r@.len() ==> (#[trigger] r@[i])@ != (#[trigger] r@[j])@,
        forall|j: int| 0 <= j < caps@.len() ==> has_key(r@, (#[trigger] caps@[j]).skill@),
        texts(r@) == distinct_skills(cap_views(caps@)),
{
    let ghost cv = cap_views(caps@);
    let mut keys: Vec<String> = Vec::new();
    let mut j: usize = 0;
    while j < caps.len()
        invariant
            j <= caps@.len(),
            forall|a: int, b: int|
                0 <= a < b < keys@.len() ==> (#[trigger] keys@[a])@ != (#[trigger] keys@[b])@,
            forall|jj: int| 0 <= jj < j ==> has_key(keys@, (#[trigger] caps@[jj]).skill@),
            cv == cap_views(caps@),
            texts(keys@) == distinct_skills(cv.take(j as int)),
        decreases caps@.len() - j,
    {
        let ghost prev = keys@;
        proof {
            assert(cv.take(j + 1).drop_last() =~= cv.take(j as int));
            assert(cv.take(j + 1).last() == cap_view(caps@[j as int]));
        }
        match key_position(&keys, &caps[j].skill) {
            Some(pos) => {
                proof {
                    assert(texts(keys@)[pos as int] == caps@[j as int].skill@);
                    assert(texts(keys@).contains(caps@[j as int].skill@));
                }
            },
            None => {
                proof {
                    if texts(prev).contains(caps@[j as int].skill@) {
                        let idx = choose|idx: int|
                            0 <= idx < texts(prev).len() && texts(prev)[idx] == caps@[j as int].skill@;
                        assert(prev[idx]@ == caps@[j as int].skill@);
                    }
                }
                let k = caps[j].skill.clone();
                keys.push(k);
                proof {
                    assert(keys@[prev.len() as int] == k);
                    assert(texts(keys@) =~= texts(prev).push(k@));
                    assert forall|jj: int| 0 <= jj < j + 1 implies has_key(
                        keys@,
                        (#[trigger] caps@[jj]).skill@,
                    ) by {
                        if jj < j {
                            let i = choose|i: int|
                                0 <= i < prev.len() && (#[trigger] prev[i])@ == caps@[jj].skill@;
                            assert(keys@[i] == prev[i]);
                        }
                    }
                    assert forall|a: int, b: int| 0 <= a < b < keys@.len() implies (
                    #[trigger] keys@[a])@ != (#[trigger] keys@[b])@ by {
                        if b == prev.len() {
                            assert(keys@[a] == prev[a]);
                        } else {
                            assert(keys@[a] == prev[a]);
                            assert(keys@[b] == prev[b]);
                        }
                    }
                }
            },
        }
        j = j + 1;
    }
    assert(cv.take(j as int) =~= cv);
    keys
}

/// The capabilities whose skill is `key`, in order.
fn capabilities_with_skill(caps: &Vec<Capability>, key: &String) -> (r: Vec<Capability>)
    ensures
        forall|k: int|
            0 <= k < r@.len() ==> (#[trigger] r@[k]).skill@ == key@ && listed(caps@, cap_view(r@[k])),
        forall|j: int|
            0 <= j < caps@.len() && (#[trigger] caps@[j]).skill@ == key@ ==> listed(
                r@,
                cap_view(caps@[j]),
            ),
        cap_views(r@) == with_skill(cap_views(caps@), key@),
{
    let ghost cv = cap_views(caps@);
    let mut out: Vec<Capability> = Vec::new();
    let mut j: usize = 0;
    while j < caps.len()
        invariant
            j <= caps@.len(),
            forall|k: int|
                0 <= k < out@.len() ==> (#[trigger] out@[k]).skill@ == key@ && listed(
                    caps@,
                    cap_view(out@[k]),
                ),
            forall|jj: int|
                0 <= jj < j && (#[trigger] caps@[jj]).skill@ == key@ ==> listed(
                    out@,
                    cap_view(caps@[jj]),
                ),
            cv == cap_views(caps@),
            cap_views(out@) == with_skill(cv.take(j as int), key@),
        decreases caps@.len() - j,
    {
        proof {
            assert(cv.take(j + 1) =~= cv.take(j as int).push(cv[j as int]));
            cv.take(j as int).lemma_filter_push(cv[j as int], |c: CapView| c.1 == key@);
            assert(cv[j as int] == cap_view(caps@[j as int]));
        }
        let ghost before = out@;
        if caps[j].skill.eq(key) {
            let c = caps[j].duplicate();
            let ghost prev = out@;
            out.push(c);
            proof {
                assert(cap_view(caps@[j as int]) == cap_view(c));
                assert(c.skill@ == cap_view(c).1);
                assert forall|k: int| 0 <= k < out@.len() implies (#[trigger] out@[k]).skill@
                    == key@ && listed(caps@, cap_view(out@[k])) by {
                    if k < prev.len() {
                        assert(out@[k] == prev[k]);
                    } else {
                        assert(out@[k] == c);
                        assert(caps@[j as int].skill@ == key@);
                    }
                }
                assert forall|jj: int|
                    0 <= jj < j + 1 && (#[trigger] caps@[jj]).skill@ == key@ implies listed(
                    out@,
                    cap_view(caps@[jj]),
                ) by {
                    lemma_listed_push(prev, c, cap_view(caps@[jj]));
                }
                assert(cap_views(out@) =~= cap_views(before).push(cap_view(c)));
            }
        }
        j = j + 1;
    }
    assert(cv.take(j as int) =~= cv);
    out
}

/// Groups capabilities by skill name: one group per distinct name, in order of
/// first appearance, each holding the capabilities of that skill in order.
pub fn group_by_skill(caps: &Vec<Capability>) -> (r: SkillGroups)
    ensures
        forall|a: int, b: int| 0 <= a < b < r@.len() ==> (#[trigger] r@[a]).0@ != (#[trigger] r@[b]).0@,
        forall|i: int, k: int|
            0 <= i < r@.len() && 0 <= k < r@[i].1@.len() ==> (#[trigger] r@[i].1@[k]).skill@ == r@[i].0@
                && listed(caps@, cap_view(r@[i].1@[k])),
        forall|j: int|
            0 <= j < caps@.len() ==> exists|i: int|
                0 <= i < r@.len() && (#[trigger] r@[i]).0@ == (#[trigger] caps@[j]).skill@ && listed(
                    r@[i].1@,
                    cap_view(caps@[j]),
                ),
        group_keys(r@) == distinct_skills(cap_views(caps@)),
        forall|i: int|
            0 <= i < r@.len() ==> cap_views((#[trigger] r@[i]).1@) == with_skill(
                cap_views(caps@),
                r@[i].0@,
            ),
{
    let keys = skill_keys(caps);
    let mut groups: SkillGroups = Vec::new();
    let mut i: usize = 0;
    while i < keys.len()
        invariant
            i <= keys@.len(),
            groups@.len() == i,
            forall|a: int, b: int|
                0 <= a < b < keys@.len() ==> (#[trigger] keys@[a])@ != (#[trigger] keys@[b])@,
            forall|j: int| 0 <= j < caps@.len() ==> has_key(keys@, (#[trigger] caps@[j]).skill@),
            forall|a: int| 0 <= a < i ==> (#[trigger] groups@[a]).0@ == keys@[a]@,
            forall|a: int, k: int|
                0 <= a < i && 0 <= k < groups@[a].1@.len() ==> (#[trigger] groups@[a].1@[k]).skill@
                    == groups@[a].0@ && listed(caps@, cap_view(groups@[a].1@[k])),
            forall|a: int, j: int|
                0 <= a < i && 0 <= j < caps@.len() && (#[trigger] caps@[j]).skill@ == (
                #[trigger] groups@[a]).0@ ==> listed(groups@[a].1@, cap_view(caps@[j])),
            group_keys(groups@) == texts(keys@).take(i as int),
            texts(keys@) == distinct_skills(cap_views(caps@)),
            forall|a: int|
                0 <= a < i ==> cap_views((#[trigger] groups@[a]).1@) == with_skill(
                    cap_views(caps@),
                    groups@[a].0@,
                ),
        decreases keys@.len() - i,
    {
        let key = keys[i].clone();
        let members = capabilities_with_skill(caps, &key);
        let ghost prev = groups@;
        groups.push((key, members));
        proof {
            assert(groups@[i as int] == (key, members));
            assert(group_keys(groups@) =~= texts(keys@).take(i + 1));
            assert forall|a: int| 0 <= a < i + 1 implies cap_views((#[trigger] groups@[a]).1@)
                == with_skill(cap_views(caps@), groups@[a].0@) by {
                if a < i {
                    assert(groups@[a] == prev[a]);
                }
            }
            assert forall|a: int| 0 <= a < i + 1 implies (#[trigger] groups@[a]).0@ == keys@[a]@ by {
                if a < i {
                    assert(groups@[a] == prev[a]);
                }
            }
            assert forall|a: int, k: int|
                0 <= a < i + 1 && 0 <= k < groups@[a].1@.len() implies (
                #[trigger] groups@[a].1@[k]).skill@ == groups@[a].0@ && listed(
                caps@,
                cap_view(groups@[a].1@[k]),
            ) by {
                if a < i {
                    assert(groups@[a] == prev[a]);
                }
            }
            assert forall|a: int, j: int|
                0 <= a < i + 1 && 0 <= j < caps@.len() && (#[trigger] caps@[j]).skill@ == (
                #[trigger] groups@[a]).0@ implies listed(groups@[a].1@, cap_view(caps@[j])) by {
                if a < i {
                    assert(groups@[a] == prev[a]);
                }
            }
        }
        i = i + 1;
    }
    proof {
        assert forall|a: int, b: int| 0 <= a < b < groups@.len() implies (
        #[trigger] groups@[a]).0@ != (#[trigger] groups@[b]).0@ by {
            assert(keys@[a]@ != keys@[b]@);
        }
        assert forall|j: int| 0 <= j < caps@.len() implies exists|a: int|
            0 <= a < groups@.len() && (#[trigger] groups@[a]).0@ == (#[trigger] caps@[j]).skill@
                && listed(groups@[a].1@, cap_view(caps@[j])) by {
            assert(has_key(keys@, caps@[j].skill@));
            let a = choose|a: int| 0 <= a < keys@.len() && (#[trigger] keys@[a])@ == caps@[j].skill@;
            assert(groups@[a].0@ == keys@[a]@);
        }
        assert(texts(keys@).take(i as int) =~= texts(keys@));
    }
    groups
}

/// The capability map of a team: for each member (with their skills), each
/// skill with a name and a level becomes a capability under its lowercased name,
/// and a member who is assigned any of the team's activities is unavailable in
/// every entry.
pub fn team_capabilities(members: &Vec<(User, Vec<UserSkill>)>, activities: &Vec<Activity>) -> (r:
    SkillGroups)
    ensures
        forall|a: int, b: int| 0 <= a < b < r@.len() ==> (#[trigger] r@[a]).0@ != (#[trigger] r@[b]).0@,
        forall|i: int, k: int|
            0 <= i < r@.len() && 0 <= k < r@[i].1@.len() ==> {
                let c = #[trigger] r@[i].1@[k];
                &&& c.skill@ == r@[i].0@
                &&& c.available == is_free(opt_text(c.user.id), activities@)
                &&& from_some_skill(members@, activities@, cap_view(c))
            },
        forall|m: int, s: int|
            0 <= m < members@.len() && 0 <= s < members@[m].1@.len() ==> (#[trigger] skill_capability(
                members@[m].0,
                members@[m].1@[s],
                activities@,
            ) matches Some(cv) ==> exists|i: int|
                0 <= i < r@.len() && (#[trigger] r@[i]).0@ == cv.1 && listed(r@[i].1@, cv)),
        group_keys(r@) == distinct_skills(all_capabilities(members@, activities@)),
        forall|i: int|
            0 <= i < r@.len() ==> cap_views((#[trigger] r@[i]).1@) == with_skill(
                all_capabilities(members@, activities@),
                r@[i].0@,
            ),
{
    let caps = member_capabilities(members, activities);
    let groups = group_by_skill(&caps);
    proof {
        assert forall|i: int, k: int| 0 <= i < groups@.len() && 0 <= k < groups@[i].1@.len() implies {
            let c = #[trigger] groups@[i].1@[k];
            &&& c.skill@ == groups@[i].0@
            &&& c.available == is_free(opt_text(c.user.id), activities@)
            &&& from_some_skill(members@, activities@, cap_view(c))
        } by {
            let c = groups@[i].1@[k];
            assert(listed(caps@, cap_view(c)));
            let j = choose|j: int| 0 <= j < caps@.len() && cap_view(#[trigger] caps@[j]) == cap_view(c);
            assert(from_some_skill(members@, activities@, cap_view(caps@[j])));
            let (mm, ss) = choose|mm: int, ss: int|
                0 <= mm < members@.len() && 0 <= ss < members@[mm].1@.len() && #[trigger] skill_capability(
                    members@[mm].0,
                    members@[mm].1@[ss],
                    activities@,
                ) == Some(cap_view(c));
        }
        assert forall|m: int, s: int| 0 <= m < members@.len() && 0 <= s < members@[m].1@.len() implies (
        #[trigger] skill_capability(members@[m].0, members@[m].1@[s], activities@) matches Some(cv)
            ==> exists|i: int| 0 <= i < groups@.len() && (#[trigger] groups@[i]).0@ == cv.1 && listed(
            groups@[i].1@,
            cv,
        )) by {
            if let Some(cv) = skill_capability(members@[m].0, members@[m].1@[s], activities@) {
                assert(listed(caps@, cv));
                let j = choose|j: int| 0 <= j < caps@.len() && cap_view(#[trigger] caps@[j]) == cv;
                let i = choose|i: int|
                    0 <= i < groups@.len() && (#[trigger] groups@[i]).0@ == (#[trigger] caps@[j]).skill@
                        && listed(groups@[i].1@, cap_view(caps@[j]));
                assert(groups@[i].0@ == cv.1);
            }
        }
    }
    groups
}

} // verus!
