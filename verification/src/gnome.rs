//! The GNOME binding's identity and advertised capabilities. The binding
//! itself drives the desktop bus and settings, which happens outside the
//! library.

use crate::desktop::DesktopCapabilities;
use vstd::prelude::*;

verus! {

/// The GNOME desktop binding: notifications with actions, wallpaper via
/// the desktop settings, raw icons via a temporary file, and file
/// opening through the default handler.
pub struct GnomeDesktopApi {}

impl GnomeDesktopApi {
    pub fn new() -> (r: Self) {
        GnomeDesktopApi {  }
    }

    /// GNOME supports the full capability set.
    pub fn capabilities(&self) -> (c: DesktopCapabilities)
        ensures
            c.notifications,
            c.actions,
            c.set_wallpaper,
            c.raw_icon_bytes,
            c.open_file,
    {
        DesktopCapabilities {
            notifications: true,
            actions: true,
            set_wallpaper: true,
            raw_icon_bytes: true,
            open_file: true,
        }
    }
}

} // verus!
