//! Notifications, settings of the system, log entries and updates.

use crate::ident::{fresh_id, is_random_uuid_text};
use crate::strings::owned;
use crate::time::Timestamp;
use std::collections::HashMap;
use vstd::prelude::*;

verus! {

/// The machine and the version of the application.
#[derive(Clone, Debug, PartialEq, Eq)]
pub struct SystemInfo {
    pub platform: String,
    pub arch: String,
    pub version: String,
}

/// A message for the user.
#[derive(Clone, Debug, PartialEq, Eq)]
pub struct NotificationData {
    pub id: String,
    pub title: String,
    pub body: String,
    pub notification_type: NotificationType,
    pub actions: Vec<NotificationAction>,
    pub timestamp: Timestamp,
    pub read: bool,
}

/// What a notification is about.
#[derive(Clone, Copy, Debug, PartialEq, Eq, Structural)]
pub enum NotificationType {
    Info,
    Warning,
    Error,
    Success,
    Update,
    Backup,
}

/// Something the user can do about a notification.
#[derive(Clone, Debug, PartialEq, Eq)]
pub struct NotificationAction {
    pub id: String,
    pub label: String,
    pub action_type: ActionType,
}

/// What an action does.
#[derive(Clone, Debug, PartialEq, Eq)]
pub enum ActionType {
    Dismiss,
    OpenDocument,
    OpenProject,
    OpenSettings,
    RunBackup,
    Update,
    Custom(String),
}

/// How the application behaves on this system.
#[derive(Clone, Debug, PartialEq, Eq)]
pub struct SystemSettings {
    pub theme: String,
    pub language: String,
    pub notifications_enabled: bool,
    pub auto_update: bool,
    pub telemetry_enabled: bool,
    pub crash_reporting: bool,
    pub debug_mode: bool,
    pub log_level: LogLevel,
}

/// How much is logged.
#[derive(Clone, Copy, Debug, PartialEq, Eq, Structural)]
pub enum LogLevel {
    Error,
    Warn,
    Info,
    Debug,
    Trace,
}

/// One line of the log.
#[derive(Clone, Debug, PartialEq)]
pub struct LogEntry {
    pub id: String,
    pub level: LogLevel,
    pub message: String,
    pub module: Option<String>,
    pub timestamp: Timestamp,
    pub metadata: HashMap<String, serde_json::Value>,
}

/// Whether a newer version can be had.
#[derive(Clone, Debug, PartialEq, Eq)]
pub struct UpdateInfo {
    pub current_version: String,
    pub latest_version: String,
    pub update_available: bool,
    pub release_notes: Option<String>,
    pub download_url: Option<String>,
    pub update_size: Option<u64>,
    pub is_critical: bool,
}

/// The identifier of the action that dismisses a notification.
pub const DISMISS_ID: &'static str = "dismiss";

/// The label of the action that dismisses a notification.
pub const DISMISS_LABEL: &'static str = "关闭";

impl SystemSettings {
    /// The settings of a new installation.
    pub open spec fn is_default(self) -> bool {
        &&& self.theme@ == "auto"@
        &&& self.language@ == "zh-CN"@
        &&& self.notifications_enabled
        &&& self.auto_update
        &&& !self.telemetry_enabled
        &&& self.crash_reporting
        &&& !self.debug_mode
        &&& self.log_level == LogLevel::Info
    }
}

impl Default for SystemSettings {
    /// The settings of a new installation.
    fn default() -> (settings: SystemSettings)
        ensures
            settings.is_default(),
    {
        SystemSettings {
            theme: owned("auto"),
            language: owned("zh-CN"),
            notifications_enabled: true,
            auto_update: true,
            telemetry_enabled: false,
            crash_reporting: true,
            debug_mode: false,
            log_level: LogLevel::Info,
        }
    }
}

impl NotificationAction {
    /// Tells whether `self` is the action that dismisses a notification.
    pub open spec fn is_dismiss(self) -> bool {
        &&& self.id@ == DISMISS_ID@
        &&& self.label@ == DISMISS_LABEL@
        &&& self.action_type == ActionType::Dismiss
    }
}

impl NotificationData {
    /// Tells whether `self` is the unread notification with the given
    /// title, body and kind, made under the identifier `id` at `now`,
    /// which can only be dismissed.
    pub open spec fn is_fresh(
        self,
        title: String,
        body: String,
        notification_type: NotificationType,
        id: String,
        now: Timestamp,
    ) -> bool {
        &&& self.id == id
        &&& self.title == title
        &&& self.body == body
        &&& self.notification_type == notification_type
        &&& self.actions@.len() == 1
        &&& self.actions@[0].is_dismiss()
        &&& self.timestamp == now
        &&& !self.read
    }

    /// Makes an unread notification with the given identity.
    pub fn with_identity(
        title: String,
        body: String,
        notification_type: NotificationType,
        id: String,
        now: Timestamp,
    ) -> (n: NotificationData)
        ensures
            n.is_fresh(title, body, notification_type, id, now),
    {
        let mut actions: Vec<NotificationAction> = Vec::new();
        actions.push(
            NotificationAction {
                id: owned(DISMISS_ID),
                label: owned(DISMISS_LABEL),
                action_type: ActionType::Dismiss,
            },
        );
        NotificationData { id, title, body, notification_type, actions, timestamp: now, read: false }
    }

    /// Makes an unread notification under a fresh identifier, stamped with
    /// the current instant.
    pub fn new(title: String, body: String, notification_type: NotificationType) -> (n:
        NotificationData)
        ensures
            n.is_fresh(title, body, notification_type, n.id, n.timestamp),
            is_random_uuid_text(n.id@),
    {
        let now = Timestamp::now();
        NotificationData::with_identity(title, body, notification_type, fresh_id(), now)
    }

    /// The notification with `action` after the actions it has.
    pub fn with_action(self, action: NotificationAction) -> (n: NotificationData)
        ensures
            n.actions@ == self.actions@.push(action),
            n.id == self.id,
            n.title == self.title,
            n.body == self.body,
            n.notification_type == self.notification_type,
            n.timestamp == self.timestamp,
            n.read == self.read,
    {
        let mut n = self;
        n.actions.push(action);
        n
    }

    /// Marks the notification as read.
    pub fn mark_as_read(&mut self)
        ensures
            *final(self) == (NotificationData { read: true, ..*old(self) }),
    {
        self.read = true;
    }
}

} // verus!
