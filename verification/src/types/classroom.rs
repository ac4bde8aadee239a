//! Data types of the classroom API.

use vstd::prelude::*;

verus! {

#[derive(Debug, Clone)]
pub struct Course {
    pub id: Option<String>,
    pub name: Option<String>,
    pub section: Option<String>,
    pub description_heading: Option<String>,
    pub description: Option<String>,
    pub room: Option<String>,
    pub owner_id: Option<String>,
    pub course_state: Option<String>,
    pub alternate_link: Option<String>,
    pub creation_time: Option<String>,
    pub update_time: Option<String>,
    pub enrollment_code: Option<String>,
    pub guardians_enabled: bool,
    pub course_group_email: Option<String>,
    pub teacher_group_email: Option<String>,
}

#[derive(Debug, Clone)]
pub struct Student {
    pub course_id: Option<String>,
    pub user_id: Option<String>,
    pub profile: Option<UserProfile>,
    pub student_work_folder: Option<DriveFolder>,
}

#[derive(Debug, Clone)]
pub struct Teacher {
    pub course_id: Option<String>,
    pub user_id: Option<String>,
    pub profile: Option<UserProfile>,
}

#[derive(Debug, Clone)]
pub struct UserProfile {
    pub id: Option<String>,
    pub name: Option<UserName>,
    pub email_address: Option<String>,
    pub photo_url: Option<String>,
    pub verified_teacher: bool,
}

#[derive(Debug, Clone)]
pub struct UserName {
    pub given_name: Option<String>,
    pub family_name: Option<String>,
    pub full_name: Option<String>,
}

#[derive(Debug, Clone)]
pub struct DriveFolder {
    pub id: Option<String>,
    pub title: Option<String>,
    pub alternate_link: Option<String>,
}

#[derive(Debug, Clone)]
pub struct Announcement {
    pub course_id: Option<String>,
    pub id: Option<String>,
    pub text: Option<String>,
    pub state: Option<String>,
    pub alternate_link: Option<String>,
    pub creation_time: Option<String>,
    pub update_time: Option<String>,
    pub creator_user_id: Option<String>,
}

#[derive(Debug, Clone)]
pub struct Topic {
    pub course_id: Option<String>,
    pub topic_id: Option<String>,
    pub name: Option<String>,
    pub update_time: Option<String>,
}

#[derive(Debug, Clone)]
pub struct Invitation {
    pub id: Option<String>,
    pub user_id: Option<String>,
    pub course_id: Option<String>,
    pub role: Option<String>,
}

#[derive(Debug, Clone)]
pub struct Guardian {
    pub student_id: Option<String>,
    pub guardian_id: Option<String>,
    pub guardian_profile: Option<UserProfile>,
    pub invited_email_address: Option<String>,
    pub creation_time: Option<String>,
}

} // verus!
