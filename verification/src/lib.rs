//! Interoperability for native window and display handles.
//!
//! A windowing library implements [`HasRawWindowHandle`] and
//! [`HasRawDisplayHandle`] for its window type; a rendering library accepts any
//! implementer and reads the [`RawWindowHandle`] or [`RawDisplayHandle`] it
//! hands out. Neither library has to know the other's types.
//!
//! Nothing here creates, validates or destroys a native object: a handle is a
//! name for something that somebody else owns.

use vstd::prelude::*;

pub mod laws;
pub mod windows;

pub use windows::{Win32WindowHandle, WinRTWindowHandle, WindowsDisplayHandle};

verus! {

/// Window that wraps around a raw window handle.
///
/// # Safety
///
/// Users can assume that every field other than `0` is a valid handle, and it
/// is up to the implementer of this trait to uphold that.
///
/// Implementers should still make a best-effort attempt to fill in all
/// available fields. If an implementation doesn't, and a downstream user needs
/// the field, it should try to derive the field from other fields the
/// implementer *does* provide via whatever methods the platform provides.
///
/// The exact handles returned by `raw_window_handle` must remain consistent
/// between multiple calls to `raw_window_handle` as long as not indicated
/// otherwise by platform specific events. Such an event happens outside the
/// program and leaves no trace in the implementer's value, so the method
/// carries no postcondition: what it returns is the implementer's word.
pub trait HasRawWindowHandle {
    /// Returns a snapshot of the handle that this value names. It cannot fail
    /// and changes nothing.
    fn raw_window_handle(&self) -> RawWindowHandle;
}

impl<'a, T: HasRawWindowHandle + ?Sized> HasRawWindowHandle for &'a T {
    /// Forwards to the referent: the handle is one that the referent's own
    /// `raw_window_handle` returns for it.
    fn raw_window_handle(&self) -> (handle: RawWindowHandle)
        ensures
            call_ensures(T::raw_window_handle, (*self,), handle),
    {
        (**self).raw_window_handle()
    }
}

/// A window handle for a particular windowing system.
///
/// Each variant contains a struct with the fields of that windowing system
/// (e.g. [`Win32WindowHandle`] holds an `HWND`).
///
/// # Variant Availability
///
/// All variants are present on all targets, but see the "Availability Hints"
/// section on each variant for some hints on where this variant might be
/// expected.
///
/// These hints are not normative: a [`HasRawWindowHandle`] implementer is
/// allowed to return something unexpected, such as a handle of a windowing
/// system that runs on the machine through a compatibility layer.
///
/// More variants may be added later, so a `match` over this type written
/// elsewhere needs a fallback arm, which should report the platform as
/// unsupported.
#[non_exhaustive]
#[derive(Debug, Clone, Copy, Eq, Hash)]
pub enum RawWindowHandle {
    /// A raw window handle for Win32.
    ///
    /// ## Availability Hints
    /// This variant is used on Windows systems.
    Win32(Win32WindowHandle),
    /// A raw window handle for WinRT.
    ///
    /// ## Availability Hints
    /// This variant is used on Windows systems.
    WinRT(WinRTWindowHandle),
}

/// Display that wraps around a raw display handle.
///
/// # Safety
///
/// Users can assume that every field other than `0` is a valid handle, and it
/// is up to the implementer of this trait to uphold that.
///
/// Implementers should still make a best-effort attempt to fill in all
/// available fields. If an implementation doesn't, and a downstream user needs
/// the field, it should try to derive the field from other fields the
/// implementer *does* provide via whatever methods the platform provides.
///
/// The exact handles returned by `raw_display_handle` must remain consistent
/// between multiple calls to `raw_display_handle` as long as not indicated
/// otherwise by platform specific events. Such an event happens outside the
/// program and leaves no trace in the implementer's value, so the method
/// carries no postcondition: what it returns is the implementer's word.
pub trait HasRawDisplayHandle {
    /// Returns a snapshot of the handle that this value names. It cannot fail
    /// and changes nothing.
    fn raw_display_handle(&self) -> RawDisplayHandle;
}

impl<'a, T: HasRawDisplayHandle + ?Sized> HasRawDisplayHandle for &'a T {
    /// Forwards to the referent: the handle is one that the referent's own
    /// `raw_display_handle` returns for it.
    fn raw_display_handle(&self) -> (handle: RawDisplayHandle)
        ensures
            call_ensures(T::raw_display_handle, (*self,), handle),
    {
        (**self).raw_display_handle()
    }
}

/// A display server handle for a particular windowing system.
///
/// The display usually represents a connection to some display server, but it
/// is not necessarily tied to a particular window. Some APIs can use the
/// display handle without ever creating a window handle (e.g. offscreen
/// rendering, headless event handling).
///
/// Each variant contains a struct with the fields of that windowing system.
/// Not all windowing systems have a separate display handle, and the variants
/// of those contain empty structs.
///
/// # Variant Availability
///
/// The "Availability Hints" on the variants are not normative: a
/// [`HasRawDisplayHandle`] implementer is allowed to return something
/// unexpected.
///
/// More variants may be added later, so a `match` over this type written
/// elsewhere needs a fallback arm, which should report the platform as
/// unsupported.
#[non_exhaustive]
#[derive(Debug, Clone, Copy, Eq, Hash)]
pub enum RawDisplayHandle {
    /// A raw display handle for Windows.
    ///
    /// ## Availability Hints
    /// This variant is used on Windows systems.
    Windows(WindowsDisplayHandle),
}

impl PartialEq for RawWindowHandle {
    /// Two handles are equal when they carry the same tag and equal payloads.
    fn eq(&self, other: &Self) -> (equal: bool) {
        match (self, other) {
            (RawWindowHandle::Win32(ours), RawWindowHandle::Win32(theirs)) => ours == theirs,
            (RawWindowHandle::WinRT(ours), RawWindowHandle::WinRT(theirs)) => ours == theirs,
            _ => false,
        }
    }
}

impl vstd::std_specs::cmp::PartialEqSpecImpl for RawWindowHandle {
    open spec fn obeys_eq_spec() -> bool {
        true
    }

    open spec fn eq_spec(&self, other: &Self) -> bool {
        match (*self, *other) {
            (RawWindowHandle::Win32(ours), RawWindowHandle::Win32(theirs)) => ours
                == theirs,
            (RawWindowHandle::WinRT(ours), RawWindowHandle::WinRT(theirs)) => ours
                == theirs,
            _ => false,
        }
    }
}

impl PartialEq for RawDisplayHandle {
    /// Two handles are equal when they carry the same tag and equal payloads.
    fn eq(&self, other: &Self) -> (equal: bool) {
        match (self, other) {
            (RawDisplayHandle::Windows(ours), RawDisplayHandle::Windows(theirs)) => ours == theirs,
        }
    }
}

impl vstd::std_specs::cmp::PartialEqSpecImpl for RawDisplayHandle {
    open spec fn obeys_eq_spec() -> bool {
        true
    }

    open spec fn eq_spec(&self, other: &Self) -> bool {
        match (*self, *other) {
            (RawDisplayHandle::Windows(ours), RawDisplayHandle::Windows(theirs)) => ours
                == theirs,
        }
    }
}

impl vstd::std_specs::convert::FromSpecImpl<WindowsDisplayHandle> for RawDisplayHandle {
    open spec fn obeys_from_spec() -> bool {
        true
    }

    open spec fn from_spec(value: WindowsDisplayHandle) -> Self {
        RawDisplayHandle::Windows(value)
    }
}

impl From<WindowsDisplayHandle> for RawDisplayHandle {
    /// Wraps the payload under the `Windows` tag.
    fn from(value: WindowsDisplayHandle) -> (handle: Self)
        ensures
            handle == RawDisplayHandle::Windows(value),
    {
        RawDisplayHandle::Windows(value)
    }
}

impl vstd::std_specs::convert::FromSpecImpl<Win32WindowHandle> for RawWindowHandle {
    open spec fn obeys_from_spec() -> bool {
        true
    }

    open spec fn from_spec(value: Win32WindowHandle) -> Self {
        RawWindowHandle::Win32(value)
    }
}

impl From<Win32WindowHandle> for RawWindowHandle {
    /// Wraps the payload under the `Win32` tag.
    fn from(value: Win32WindowHandle) -> (handle: Self)
        ensures
            handle == RawWindowHandle::Win32(value),
    {
        RawWindowHandle::Win32(value)
    }
}

impl vstd::std_specs::convert::FromSpecImpl<WinRTWindowHandle> for RawWindowHandle {
    open spec fn obeys_from_spec() -> bool {
        true
    }

    open spec fn from_spec(value: WinRTWindowHandle) -> Self {
        RawWindowHandle::WinRT(value)
    }
}

impl From<WinRTWindowHandle> for RawWindowHandle {
    /// Wraps the payload under the `WinRT` tag.
    fn from(value: WinRTWindowHandle) -> (handle: Self)
        ensures
            handle == RawWindowHandle::WinRT(value),
    {
        RawWindowHandle::WinRT(value)
    }
}

} // verus!
