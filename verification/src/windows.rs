//! Payloads for the Windows family of windowing systems.
//!
//! Every native pointer is carried as a pointer-sized integer. The value `0`
//! is the sentinel for "not available": a field holding it names nothing.

use vstd::prelude::*;

verus! {

/// Raw display handle for Windows.
///
/// Windows has no display connection separate from its windows, so this
/// payload carries no identifier at all. It can be used with either Windows
/// window backend.
#[non_exhaustive]
#[derive(Debug, Clone, Copy, Eq, Hash)]
pub struct WindowsDisplayHandle {}

/// Raw window handle for Win32.
#[non_exhaustive]
#[derive(Debug, Clone, Copy, Eq, Hash)]
pub struct Win32WindowHandle {
    /// A Win32 `HWND` handle, or `0` when absent.
    pub hwnd: usize,
    /// The `HINSTANCE` associated with this type's `HWND`, or `0` when absent.
    pub hinstance: usize,
}

/// Raw window handle for WinRT.
#[non_exhaustive]
#[derive(Debug, Clone, Copy, Eq, Hash)]
pub struct WinRTWindowHandle {
    /// A WinRT `CoreWindow` handle, or `0` when absent.
    pub core_window: usize,
}

impl WindowsDisplayHandle {
    /// The one value of this payload.
    pub fn empty() -> (handle: Self)
        ensures
            handle == (WindowsDisplayHandle {  }),
    {
        WindowsDisplayHandle {  }
    }
}

impl Win32WindowHandle {
    /// A payload in which every field is absent.
    ///
    /// Fill in the fields that the platform provides by assignment.
    pub fn empty() -> (handle: Self)
        ensures
            handle.hwnd == 0,
            handle.hinstance == 0,
    {
        Win32WindowHandle { hwnd: 0, hinstance: 0 }
    }
}

impl WinRTWindowHandle {
    /// A payload in which every field is absent.
    ///
    /// Fill in the fields that the platform provides by assignment.
    pub fn empty() -> (handle: Self)
        ensures
            handle.core_window == 0,
    {
        WinRTWindowHandle { core_window: 0 }
    }
}

impl PartialEq for WindowsDisplayHandle {
    /// Any two values are equal: there is no field to tell them apart.
    fn eq(&self, other: &Self) -> (equal: bool) {
        true
    }
}

impl vstd::std_specs::cmp::PartialEqSpecImpl for WindowsDisplayHandle {
    open spec fn obeys_eq_spec() -> bool {
        true
    }

    open spec fn eq_spec(&self, other: &Self) -> bool {
        true
    }
}

impl PartialEq for Win32WindowHandle {
    /// Two payloads are equal when they agree in both fields.
    fn eq(&self, other: &Self) -> (equal: bool) {
        self.hwnd == other.hwnd && self.hinstance == other.hinstance
    }
}

impl vstd::std_specs::cmp::PartialEqSpecImpl for Win32WindowHandle {
    open spec fn obeys_eq_spec() -> bool {
        true
    }

    open spec fn eq_spec(&self, other: &Self) -> bool {
        self.hwnd == other.hwnd && self.hinstance == other.hinstance
    }
}

impl PartialEq for WinRTWindowHandle {
    /// Two payloads are equal when they agree in their one field.
    fn eq(&self, other: &Self) -> (equal: bool) {
        self.core_window == other.core_window
    }
}

impl vstd::std_specs::cmp::PartialEqSpecImpl for WinRTWindowHandle {
    open spec fn obeys_eq_spec() -> bool {
        true
    }

    open spec fn eq_spec(&self, other: &Self) -> bool {
        self.core_window == other.core_window
    }
}

} // verus!
