//! A team and task management backend: users, sessions, teams, invitations,
//! activities, skills and backup codes, persisted through parameterized SQL
//! statements built from typed column lists.

pub mod activity;
pub mod api;
pub mod authentication;
pub mod backup_code;
pub mod backup_codes;
pub mod capability;
pub mod ids;
pub mod invitation;
pub mod passwords;
pub mod query;
pub mod resource;
pub mod rows;
pub mod session;
pub mod strings;
pub mod team;
pub mod team_role;
pub mod team_user;
pub mod token;
pub mod user;
pub mod user_skill;
pub mod values;
