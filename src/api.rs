pub mod authentications;
pub mod invitations;
pub mod my_activities;
pub mod my_backup_codes;
pub mod my_invitations;
pub mod my_teams;
pub mod my_user;
pub mod my_user_skills;
pub mod plan;
pub mod response;
pub mod team_invitations;
pub mod teams;
pub mod users;
