//! The desktop capability port: the notification value the core builds,
//! the capability set a platform binding advertises, the error taxonomy
//! it reports, and the interface every binding implements. The bindings
//! themselves perform platform calls and live outside the library.

use vstd::prelude::*;
use vstd::string::*;

verus! {

/// How a notification icon is given to a binding. Raw bytes may need a
/// temporary-file fallback on backends without raw-icon support.
#[derive(Debug, Clone)]
pub enum Icon {
    Path(String),
    Resource(String),
    Raw(Vec<u8>),
}

#[derive(Debug, Clone, Copy, PartialEq, Eq, Structural)]
pub enum Urgency {
    Low,
    Normal,
    Critical,
}

/// A named action surfaced as a user-actionable button where supported.
#[derive(Debug, Clone, PartialEq)]
pub struct Action {
    pub id: String,
    pub title: String,
}

/// Errors a platform binding reports to its callers.
#[derive(Debug)]
pub enum DesktopApiError {
    /// The operation has no meaning on this platform.
    Unsupported,
    /// An underlying file or process error, as text.
    Io(String),
    /// The platform notification or wallpaper mechanism itself failed.
    Backend(String),
    /// The input was rejected before the platform call was attempted.
    InvalidNotification(String),
}

impl DesktopApiError {
    /// A short description, for logs and secondary notifications.
    pub fn message(&self) -> (r: String)
        ensures
            match self {
                DesktopApiError::Unsupported => r@ == "operation not supported on this platform"@,
                DesktopApiError::Io(e) => r@ == "io error: "@ + e@,
                DesktopApiError::Backend(m) => r@ == "backend error: "@ + m@,
                DesktopApiError::InvalidNotification(m) => r@ == "invalid notification: "@ + m@,
            },
    {
        match self {
            DesktopApiError::Unsupported => String::from_str(
                "operation not supported on this platform",
            ),
            DesktopApiError::Io(e) => {
                let mut out = String::from_str("io error: ");
                out.append(e.as_str());
                out
            },
            DesktopApiError::Backend(m) => {
                let mut out = String::from_str("backend error: ");
                out.append(m.as_str());
                out
            },
            DesktopApiError::InvalidNotification(m) => {
                let mut out = String::from_str("invalid notification: ");
                out.append(m.as_str());
                out
            },
        }
    }
}

/// What a platform binding actually supports, so callers can degrade
/// gracefully.
#[derive(Debug, Clone, Copy)]
pub struct DesktopCapabilities {
    pub notifications: bool,
    pub actions: bool,
    pub set_wallpaper: bool,
    pub raw_icon_bytes: bool,
    pub open_file: bool,
}

/// A structured notification: title, optional body and icon, urgency,
/// optional timeout in milliseconds, and zero or more named actions.
#[derive(Debug, Clone)]
pub struct Notification {
    pub title: String,
    pub body: Option<String>,
    pub icon: Option<Icon>,
    pub urgency: Urgency,
    pub timeout_millis: Option<u64>,
    pub actions: Vec<Action>,
}

impl Notification {
    /// Start building a notification with the given title; everything
    /// else empty, at normal urgency.
    pub fn builder(title: String) -> (b: NotificationBuilder)
        ensures
            b.title == title,
            b.body is None,
            b.icon is None,
            b.urgency == Urgency::Normal,
            b.timeout_millis is None,
            b.actions@ =~= Seq::<Action>::empty(),
    {
        NotificationBuilder {
            title,
            body: None,
            icon: None,
            urgency: Urgency::Normal,
            timeout_millis: None,
            actions: Vec::new(),
        }
    }
}

#[derive(Debug)]
pub struct NotificationBuilder {
    pub title: String,
    pub body: Option<String>,
    pub icon: Option<Icon>,
    pub urgency: Urgency,
    pub timeout_millis: Option<u64>,
    pub actions: Vec<Action>,
}

impl NotificationBuilder {
    pub fn body(self, body: String) -> (r: Self)
        ensures
            r == (NotificationBuilder { body: Some(body), ..self }),
    {
        NotificationBuilder { body: Some(body), ..self }
    }

    pub fn icon(self, icon: Icon) -> (r: Self)
        ensures
            r == (NotificationBuilder { icon: Some(icon), ..self }),
    {
        NotificationBuilder { icon: Some(icon), ..self }
    }

    pub fn urgency(self, urgency: Urgency) -> (r: Self)
        ensures
            r == (NotificationBuilder { urgency, ..self }),
    {
        NotificationBuilder { urgency, ..self }
    }

    /// Set the timeout, in milliseconds.
    pub fn timeout(self, timeout_millis: u64) -> (r: Self)
        ensures
            r == (NotificationBuilder { timeout_millis: Some(timeout_millis), ..self }),
    {
        NotificationBuilder { timeout_millis: Some(timeout_millis), ..self }
    }

    /// Add one named action button.
    pub fn action(self, id: String, title: String) -> (r: Self)
        ensures
            r.actions@ == self.actions@.push((Action { id, title })),
            r.title == self.title,
            r.body == self.body,
            r.icon == self.icon,
            r.urgency == self.urgency,
            r.timeout_millis == self.timeout_millis,
    {
        let mut actions = self.actions;
        actions.push(Action { id, title });
        NotificationBuilder { actions, ..self }
    }

    pub fn build(self) -> (n: Notification)
        ensures
            n.title == self.title,
            n.body == self.body,
            n.icon == self.icon,
            n.urgency == self.urgency,
            n.timeout_millis == self.timeout_millis,
            n.actions == self.actions,
    {
        Notification {
            title: self.title,
            body: self.body,
            icon: self.icon,
            urgency: self.urgency,
            timeout_millis: self.timeout_millis,
            actions: self.actions,
        }
    }
}

/// The capability set every platform binding exposes. The bindings make
/// platform calls, so they live outside the library and implement this
/// interface there.
pub trait DesktopApi {
    /// Apply the image at the given path as the desktop background.
    fn change_background(&self, image: &str) -> Result<(), DesktopApiError>;

    /// What this binding actually supports.
    fn capabilities(&self) -> DesktopCapabilities;

    /// Show a notification, surfacing its actions where supported.
    fn send_notification(&self, notification: &Notification) -> Result<(), DesktopApiError>;

    /// Open a file with the platform's default application.
    fn open_file(&self, file: &str) -> Result<(), DesktopApiError>;
}

} // verus!
