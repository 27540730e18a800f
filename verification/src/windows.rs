//! The Windows binding's identity and advertised capabilities. The
//! binding itself calls the system parameters and toast interfaces,
//! which happens outside the library.

use crate::desktop::DesktopCapabilities;
use vstd::prelude::*;

verus! {

/// The Windows desktop binding: toast notifications without action
/// buttons or raw icon bytes, wallpaper via system parameters, and file
/// opening through the shell.
pub struct WindowsDesktopApi {}

impl WindowsDesktopApi {
    pub fn new() -> (r: Self) {
        WindowsDesktopApi {  }
    }

    /// Windows toasts carry no action buttons and take no raw icon
    /// bytes; everything else is supported.
    pub fn capabilities(&self) -> (c: DesktopCapabilities)
        ensures
            c.notifications,
            !c.actions,
            c.set_wallpaper,
            !c.raw_icon_bytes,
            c.open_file,
    {
        DesktopCapabilities {
            notifications: true,
            actions: false,
            set_wallpaper: true,
            raw_icon_bytes: false,
            open_file: true,
        }
    }
}

impl Default for WindowsDesktopApi {
    fn default() -> (r: Self) {
        WindowsDesktopApi {  }
    }
}

} // verus!
