//! Requests on the skills of the signed-in user; skill names are stored lowercased.

use vstd::prelude::*;
use crate::api::plan::{
    finds,
    inserts,
    updates,
    deletes,
    find_step,
    insert_step,
    update_step,
    delete_step,
    text_param,
    int_param,
    lowered_param,
    Stamps,
    Step,
    NOT_FOUND,
    INTERNAL_SERVER_ERROR,
};
use crate::query::{params_view, text_view, ArchiveFilter, Param};
use crate::capability::lower_of;
use crate::strings::signed_decimal_of;
use crate::authentication::AuthenticationError;
use crate::user::{User, UserError};
use crate::user_skill::{UserSkill, UserSkillError};

verus! {

/// The failure of a request, by the part of the system that raised it.
#[derive(Debug, Clone, Copy, PartialEq, Eq, Structural)]
pub enum ResponseError {
    Authentication(AuthenticationError),
    User(UserError),
    UserSkill(UserSkillError),
}

#[derive(Debug, Clone)]
pub struct CreateUserSkillRequest {
    pub skill_name: String,
    pub skill_level: i32,
}

#[derive(Debug, Clone)]
pub struct UpdateUserSkillRequest {
    pub skill_name: String,
    pub skill_level: i32,
}

/// The statements of listing the user's skills.
pub fn get_user_skills_plan(user_id: &String) -> (r: Vec<Step<ResponseError>>)
    ensures
        r@.len() == 2,
        finds::<User, ResponseError>(
            r@[0],
            ArchiveFilter::Unarchived,
            true,
            seq![("id"@, text_view(user_id@))],
            NOT_FOUND,
            ResponseError::User(UserError::UserNotFound),
        ),
        finds::<UserSkill, ResponseError>(
            r@[1],
            ArchiveFilter::Any,
            false,
            seq![("user_id"@, text_view(user_id@))],
            INTERNAL_SERVER_ERROR,
            ResponseError::UserSkill(UserSkillError::UserSkillsNotFound),
        ),
{
    let mut steps: Vec<Step<ResponseError>> = Vec::new();
    let ps: Vec<Param> = vec![text_param("id", user_id)];
    proof {
        assert(params_view(ps@) =~= seq![("id"@, text_view(user_id@))]);
    }
    steps.push(find_step::<User, ResponseError>(
        ps,
        ArchiveFilter::Unarchived,
        true,
        NOT_FOUND,
        ResponseError::User(UserError::UserNotFound),
    ));
    let ps: Vec<Param> = vec![text_param("user_id", user_id)];
    proof {
        assert(params_view(ps@) =~= seq![("user_id"@, text_view(user_id@))]);
    }
    steps.push(find_step::<UserSkill, ResponseError>(
        ps,
        ArchiveFilter::Any,
        false,
        INTERNAL_SERVER_ERROR,
        ResponseError::UserSkill(UserSkillError::UserSkillsNotFound),
    ));
    steps
}

/// The statements of adding a skill to the user.
pub fn create_user_skill_plan(user_id: &String, request: &CreateUserSkillRequest, stamps: &Stamps) -> (r: Vec<Step<ResponseError>>)
    ensures
        r@.len() == 2,
        finds::<User, ResponseError>(
            r@[0],
            ArchiveFilter::Unarchived,
            true,
            seq![("id"@, text_view(user_id@))],
            NOT_FOUND,
            ResponseError::User(UserError::UserNotFound),
        ),
        inserts::<UserSkill, ResponseError>(
            r@[1],
            seq![
                ("user_id"@, text_view(user_id@)),
                ("skill_name"@, text_view(lower_of(request.skill_name@))),
                ("skill_level"@, (3nat, Some(signed_decimal_of(request.skill_level as int)))),
            ],
            *stamps,
            INTERNAL_SERVER_ERROR,
            ResponseError::UserSkill(UserSkillError::UserSkillCreationFailed),
        ),
{
    let mut steps: Vec<Step<ResponseError>> = Vec::new();
    let ps: Vec<Param> = vec![text_param("id", user_id)];
    proof {
        assert(params_view(ps@) =~= seq![("id"@, text_view(user_id@))]);
    }
    steps.push(find_step::<User, ResponseError>(
        ps,
        ArchiveFilter::Unarchived,
        true,
        NOT_FOUND,
        ResponseError::User(UserError::UserNotFound),
    ));
    let ps: Vec<Param> = vec![
        text_param("user_id", user_id),
        lowered_param("skill_name", &request.skill_name),
        int_param("skill_level", request.skill_level),
    ];
    proof {
        assert(params_view(ps@) =~= seq![
            ("user_id"@, text_view(user_id@)),
            ("skill_name"@, text_view(lower_of(request.skill_name@))),
            ("skill_level"@, (3nat, Some(signed_decimal_of(request.skill_level as int)))),
        ]);
    }
    steps.push(insert_step::<UserSkill, ResponseError>(
        ps,
        stamps,
        INTERNAL_SERVER_ERROR,
        ResponseError::UserSkill(UserSkillError::UserSkillCreationFailed),
    ));
    steps
}

/// The statements of changing one of the user's skills. The updated row is then
/// read again by its id.
pub fn update_user_skill_plan(user_id: &String, skill_id: &String, request: &UpdateUserSkillRequest, stamps: &Stamps) -> (r: Vec<Step<ResponseError>>)
    ensures
        r@.len() == 3,
        finds::<User, ResponseError>(
            r@[0],
            ArchiveFilter::Unarchived,
            true,
            seq![("id"@, text_view(user_id@))],
            NOT_FOUND,
            ResponseError::User(UserError::UserNotFound),
        ),
        updates::<UserSkill, ResponseError>(
            r@[1],
            seq![
                ("user_id"@, text_view(user_id@)),
                ("skill_name"@, text_view(lower_of(request.skill_name@))),
                ("skill_level"@, (3nat, Some(signed_decimal_of(request.skill_level as int)))),
            ],
            skill_id@,
            *stamps,
            INTERNAL_SERVER_ERROR,
            ResponseError::UserSkill(UserSkillError::UserSkillUpdateFailed),
        ),
        finds::<UserSkill, ResponseError>(
            r@[2],
            ArchiveFilter::Any,
            true,
            seq![("id"@, text_view(skill_id@))],
            INTERNAL_SERVER_ERROR,
            ResponseError::UserSkill(UserSkillError::UserSkillUpdateFailed),
        ),
{
    let mut steps: Vec<Step<ResponseError>> = Vec::new();
    let ps: Vec<Param> = vec![text_param("id", user_id)];
    proof {
        assert(params_view(ps@) =~= seq![("id"@, text_view(user_id@))]);
    }
    steps.push(find_step::<User, ResponseError>(
        ps,
        ArchiveFilter::Unarchived,
        true,
        NOT_FOUND,
        ResponseError::User(UserError::UserNotFound),
    ));
    let ps: Vec<Param> = vec![
        text_param("user_id", user_id),
        lowered_param("skill_name", &request.skill_name),
        int_param("skill_level", request.skill_level),
    ];
    proof {
        assert(params_view(ps@) =~= seq![
            ("user_id"@, text_view(user_id@)),
            ("skill_name"@, text_view(lower_of(request.skill_name@))),
            ("skill_level"@, (3nat, Some(signed_decimal_of(request.skill_level as int)))),
        ]);
    }
    steps.push(update_step::<UserSkill, ResponseError>(
        ps,
        skill_id,
        stamps,
        INTERNAL_SERVER_ERROR,
        ResponseError::UserSkill(UserSkillError::UserSkillUpdateFailed),
    ));
    let ps: Vec<Param> = vec![text_param("id", skill_id)];
    proof {
        assert(params_view(ps@) =~= seq![("id"@, text_view(skill_id@))]);
    }
    steps.push(find_step::<UserSkill, ResponseError>(
        ps,
        ArchiveFilter::Any,
        true,
        INTERNAL_SERVER_ERROR,
        ResponseError::UserSkill(UserSkillError::UserSkillUpdateFailed),
    ));
    steps
}

/// The statements of removing one of the user's skills.
pub fn delete_user_skill_plan(user_id: &String, skill_id: &String, stamps: &Stamps) -> (r: Vec<Step<ResponseError>>)
    ensures
        r@.len() == 2,
        finds::<User, ResponseError>(
            r@[0],
            ArchiveFilter::Unarchived,
            true,
            seq![("id"@, text_view(user_id@))],
            NOT_FOUND,
            ResponseError::User(UserError::UserNotFound),
        ),
        deletes::<UserSkill, ResponseError>(
            r@[1],
            seq![("id"@, text_view(skill_id@)), ("user_id"@, text_view(user_id@))],
            *stamps,
            INTERNAL_SERVER_ERROR,
            ResponseError::UserSkill(UserSkillError::UserSkillDeletionFailed),
        ),
{
    let mut steps: Vec<Step<ResponseError>> = Vec::new();
    let ps: Vec<Param> = vec![text_param("id", user_id)];
    proof {
        assert(params_view(ps@) =~= seq![("id"@, text_view(user_id@))]);
    }
    steps.push(find_step::<User, ResponseError>(
        ps,
        ArchiveFilter::Unarchived,
        true,
        NOT_FOUND,
        ResponseError::User(UserError::UserNotFound),
    ));
    let ps: Vec<Param> = vec![text_param("id", skill_id), text_param("user_id", user_id)];
    proof {
        assert(params_view(ps@) =~= seq![("id"@, text_view(skill_id@)), ("user_id"@, text_view(user_id@))]);
    }
    steps.push(delete_step::<UserSkill, ResponseError>(
        ps,
        stamps,
        INTERNAL_SERVER_ERROR,
        ResponseError::UserSkill(UserSkillError::UserSkillDeletionFailed),
    ));
    steps
}


} // verus!
