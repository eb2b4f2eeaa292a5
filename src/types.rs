//! Plain records of the sync endpoint's response.
//!
//! These carry the data as the rest of the library reads it; turning the
//! wire format into these values is done outside the library.
use vstd::prelude::*;

verus! {

/// A record kind that the library does not read yet: it holds nothing.
#[derive(Clone, Debug, PartialEq, Eq)]
pub struct NotYetUsedStruct {}

/// A label record; its contents are not read yet.
#[derive(Clone, Debug, PartialEq, Eq)]
pub struct LabelStruct {}

/// A task.
#[derive(Clone, Debug, PartialEq, Eq)]
pub struct ItemStruct {
    /// The id of the task.
    pub id: u64,
    /// The owner of the task.
    pub user_id: u64,
    /// The project that the task resides in.
    pub project_id: u64,
    /// The parent id of the task.
    pub parent_id: Option<u64>,
    /// The text of the task.
    pub content: String,
    /// The due date in free-form text (empty when not set).
    pub date_string: String,
    /// The language of `date_string`.
    pub date_lang: String,
    /// The due date in UTC, when set.
    pub due_date_utc: Option<String>,
    /// The priority, from 1 (natural) to 4 (very urgent).
    pub priority: u8,
    /// The nesting depth, 1 being the top level.
    pub indent: u8,
    /// The rank of the task inside its own project; smallest first.
    pub item_order: u64,
    /// The rank of the task inside the Today / Next 7 days views.
    pub day_order: i64,
    /// Whether the task's sub-tasks are collapsed.
    pub collapsed: u8,
    /// The ids of the task's labels.
    pub labels: Vec<u64>,
    /// The user who assigned the task (shared projects only).
    pub assigned_by_uid: Option<u64>,
    /// The user responsible for the task (shared projects only).
    pub responsible_uid: Option<u64>,
    /// Whether the task is completed.
    pub checked: u8,
    /// Whether the completed task was moved to history.
    pub in_history: u8,
    /// Whether the task is deleted.
    pub is_deleted: u8,
    /// Whether the task is archived.
    pub is_archived: u8,
    /// A special id for shared tasks.
    pub sync_id: Option<u64>,
    /// When the task was created.
    pub date_added: Option<String>,
}

/// Feature flags of a user account.
#[derive(Clone, Debug, PartialEq, Eq)]
pub struct UserFeaturesStruct {
    pub karma_disabled: bool,
    pub restriction: u8,
    pub karma_vacation: bool,
    pub beta: u8,
    pub has_push_reminders: bool,
    pub dateist_inline_disabled: bool,
}

/// The time zone of a user account.
#[derive(Clone, Debug, PartialEq, Eq)]
pub struct TimeZoneStruct {
    /// Hours difference from GMT.
    pub hours: i8,
    /// Minutes difference from GMT.
    pub minutes: i8,
    /// Time difference from GMT as a string.
    pub gmt_string: String,
    /// Whether daylight saving time applies.
    pub is_dst: u8,
    /// The time zone's name.
    pub timezone: String,
}

/// A user account.
#[derive(Clone, Debug, PartialEq, Eq)]
pub struct UserStruct {
    pub avatar_small: String,
    pub avatar_medium: String,
    pub avatar_big: String,
    pub avatar_s640: String,
    pub start_page: String,
    pub features: UserFeaturesStruct,
    pub completed_today: u32,
    pub is_premium: bool,
    /// Oldest dates first (0) or last (1).
    pub sort_order: u8,
    pub full_name: String,
    /// Default time in minutes for automatic reminders.
    pub auto_reminder: u32,
    pub join_date: Option<String>,
    pub id: u64,
    /// The weekday that postponed tasks move to (1 is Monday).
    pub next_week: u8,
    pub completed_count: u64,
    pub daily_goal: u32,
    pub theme: u8,
    pub email: String,
    /// First day of the week (1 is Monday).
    pub start_day: u8,
    pub tz_info: TimeZoneStruct,
    /// DD-MM-YYYY (0) or MM-DD-YYYY (1).
    pub date_format: u8,
    pub inbox_project: u64,
    /// 24h (0) or 12h (1) clock.
    pub time_format: u8,
    pub image_id: String,
    pub karma_trend: String,
    pub business_account_id: Option<u64>,
    pub mobile_number: Option<String>,
    pub mobile_host: Option<String>,
    pub premium_until: Option<String>,
    pub token: String,
    pub karma: u64,
    pub is_biz_admin: bool,
    pub default_reminder: Option<String>,
}

/// A saved filter.
#[derive(Clone, Debug, PartialEq, Eq)]
pub struct FilterStruct {
    pub item_order: u8,
    pub name: String,
    pub query: String,
    pub color: u8,
    pub is_deleted: u8,
    pub id: u64,
}

/// A reminder attached to a task.
#[derive(Clone, Debug, PartialEq, Eq)]
pub struct ReminderStruct {
    pub item_id: u64,
    pub name: String,
    pub service: String,
    pub date_string: String,
    pub date_lang: String,
    pub is_deleted: u8,
    pub id: u64,
}

/// A project.
#[derive(Clone, Debug, PartialEq, Eq)]
pub struct ProjectStruct {
    /// The name of the project.
    pub name: String,
    /// The id of the parent project.
    pub parent_id: Option<u64>,
    /// The color id of the project.
    pub color: u8,
    /// Whether the project's sub-projects are collapsed.
    pub collapsed: u8,
    /// Whether this is the inbox project.
    pub inbox_project: Option<bool>,
    /// Whether the project has more notes.
    pub has_more_notes: Option<bool>,
    /// The rank of the project; one ordering shared by all projects.
    pub item_order: u8,
    /// The nesting depth, 1 being the top level.
    pub indent: u8,
    /// The id of the project.
    pub id: u64,
    /// Whether the project is deleted.
    pub is_deleted: u8,
    /// Whether the project is archived.
    pub is_archived: u8,
}

/// One synchronised data set. A collection that is `None` was not requested
/// or not present in this sync.
#[derive(Clone, Debug, PartialEq, Eq)]
pub struct SyncStruct {
    pub collaborators: Option<Vec<NotYetUsedStruct>>,
    pub collaborator_states: Option<Vec<NotYetUsedStruct>>,
    pub day_orders: Option<NotYetUsedStruct>,
    pub filters: Option<Vec<FilterStruct>>,
    /// Whether this is a full (not incremental) sync.
    pub full_sync: bool,
    pub items: Option<Vec<ItemStruct>>,
    pub labels: Option<Vec<LabelStruct>>,
    pub live_notifications: Option<Vec<NotYetUsedStruct>>,
    pub live_notifications_last_read_id: Option<u64>,
    pub notes: Option<Vec<NotYetUsedStruct>>,
    pub projects: Option<Vec<ProjectStruct>>,
    pub reminders: Option<Vec<ReminderStruct>>,
    /// The token for a later incremental sync.
    pub sync_token: String,
    pub user: Option<UserStruct>,
}

} // verus!
