//! What holds of every handle: how the conversions, `==` and the forwarding
//! through references behave, whatever the values.

use vstd::prelude::*;
use vstd::std_specs::cmp::PartialEqSpec;
use vstd::std_specs::convert::FromSpec;
use crate::windows::{Win32WindowHandle, WinRTWindowHandle, WindowsDisplayHandle};
use crate::{HasRawDisplayHandle, HasRawWindowHandle, RawDisplayHandle, RawWindowHandle};

verus! {

/// Wrapping a Win32 payload and matching the handle on its tag gives the
/// payload back, field for field; the other tag does not match.
pub proof fn lemma_win32_round_trip(payload: Win32WindowHandle)
    ensures
        RawWindowHandle::from_spec(payload) matches RawWindowHandle::Win32(back) && back == payload
            && back.hwnd == payload.hwnd && back.hinstance == payload.hinstance,
        !(RawWindowHandle::from_spec(payload) is WinRT),
{
}

/// Wrapping a WinRT payload and matching the handle on its tag gives the
/// payload back, field for field; the other tag does not match.
pub proof fn lemma_winrt_round_trip(payload: WinRTWindowHandle)
    ensures
        RawWindowHandle::from_spec(payload) matches RawWindowHandle::WinRT(back) && back == payload
            && back.core_window == payload.core_window,
        !(RawWindowHandle::from_spec(payload) is Win32),
{
}

/// Wrapping a Windows display payload and matching the handle on its tag
/// gives the payload back.
pub proof fn lemma_windows_display_round_trip(payload: WindowsDisplayHandle)
    ensures
        RawDisplayHandle::from_spec(payload) matches RawDisplayHandle::Windows(back) && back
            == payload,
{
}

/// The conversion of a Win32 payload loses nothing: two payloads give the
/// same handle only if they agree in every field.
pub proof fn lemma_win32_conversion_injective(a: Win32WindowHandle, b: Win32WindowHandle)
    ensures
        RawWindowHandle::from_spec(a) == RawWindowHandle::from_spec(b) <==> a.hwnd == b.hwnd
            && a.hinstance == b.hinstance,
{
}

/// The conversion of a WinRT payload loses nothing: two payloads give the
/// same handle only if they agree in their field.
pub proof fn lemma_winrt_conversion_injective(a: WinRTWindowHandle, b: WinRTWindowHandle)
    ensures
        RawWindowHandle::from_spec(a) == RawWindowHandle::from_spec(b) <==> a.core_window
            == b.core_window,
{
}

/// Payloads of different platforms never give the same handle, whatever their
/// fields hold.
pub proof fn lemma_conversions_keep_platforms_apart(a: Win32WindowHandle, b: WinRTWindowHandle)
    ensures
        RawWindowHandle::from_spec(a) != RawWindowHandle::from_spec(b),
        !RawWindowHandle::from_spec(a).eq_spec(&RawWindowHandle::from_spec(b)),
{
}

/// `==` on window handles compares the tag and then every field of the
/// payload, and so it holds exactly of identical values.
pub proof fn lemma_window_handle_eq_is_structural(a: RawWindowHandle, b: RawWindowHandle)
    ensures
        a.eq_spec(&b) <==> match (a, b) {
            (RawWindowHandle::Win32(x), RawWindowHandle::Win32(y)) => x.hwnd == y.hwnd
                && x.hinstance == y.hinstance,
            (RawWindowHandle::WinRT(x), RawWindowHandle::WinRT(y)) => x.core_window
                == y.core_window,
            _ => false,
        },
        a.eq_spec(&b) <==> a == b,
{
}

/// `==` on window handles is reflexive.
pub proof fn lemma_window_handle_eq_reflexive(a: RawWindowHandle)
    ensures
        a.eq_spec(&a),
{
}

/// `==` on window handles is symmetric.
pub proof fn lemma_window_handle_eq_symmetric(a: RawWindowHandle, b: RawWindowHandle)
    ensures
        a.eq_spec(&b) <==> b.eq_spec(&a),
{
}

/// `==` on window handles is transitive.
pub proof fn lemma_window_handle_eq_transitive(
    a: RawWindowHandle,
    b: RawWindowHandle,
    c: RawWindowHandle,
)
    requires
        a.eq_spec(&b),
        b.eq_spec(&c),
    ensures
        a.eq_spec(&c),
{
}

/// `==` on display handles compares the tag and then the payload, and so it
/// holds exactly of identical values.
pub proof fn lemma_display_handle_eq_is_structural(a: RawDisplayHandle, b: RawDisplayHandle)
    ensures
        a.eq_spec(&b) <==> match (a, b) {
            (RawDisplayHandle::Windows(x), RawDisplayHandle::Windows(y)) => x == y,
        },
        a.eq_spec(&b) <==> a == b,
{
}

/// `==` on display handles is reflexive.
pub proof fn lemma_display_handle_eq_reflexive(a: RawDisplayHandle)
    ensures
        a.eq_spec(&a),
{
}

/// `==` on display handles is symmetric.
pub proof fn lemma_display_handle_eq_symmetric(a: RawDisplayHandle, b: RawDisplayHandle)
    ensures
        a.eq_spec(&b) <==> b.eq_spec(&a),
{
}

/// `==` on display handles is transitive.
pub proof fn lemma_display_handle_eq_transitive(
    a: RawDisplayHandle,
    b: RawDisplayHandle,
    c: RawDisplayHandle,
)
    requires
        a.eq_spec(&b),
        b.eq_spec(&c),
    ensures
        a.eq_spec(&c),
{
}

/// On every type of this library `==` in compiled code decides identity of
/// the values, so each can serve as a key where vstd asks for that.
pub proof fn lemma_handles_obey_concrete_eq()
    ensures
        vstd::laws_eq::obeys_concrete_eq::<RawWindowHandle>(),
        vstd::laws_eq::obeys_concrete_eq::<RawDisplayHandle>(),
        vstd::laws_eq::obeys_concrete_eq::<Win32WindowHandle>(),
        vstd::laws_eq::obeys_concrete_eq::<WinRTWindowHandle>(),
        vstd::laws_eq::obeys_concrete_eq::<WindowsDisplayHandle>(),
{
    reveal(vstd::laws_eq::obeys_concrete_eq);
}

/// What a reference to a window returns as its handle is a handle that the
/// window itself returns, also through two or more references.
pub proof fn lemma_window_handle_through_reference<T: HasRawWindowHandle + ?Sized>(
    window: &T,
    handle: RawWindowHandle,
)
    ensures
        call_ensures(<&T as HasRawWindowHandle>::raw_window_handle, (&window,), handle)
            ==> call_ensures(T::raw_window_handle, (window,), handle),
        call_ensures(<&&T as HasRawWindowHandle>::raw_window_handle, (&&window,), handle)
            ==> call_ensures(T::raw_window_handle, (window,), handle),
{
}

/// What a reference to a display returns as its handle is a handle that the
/// display itself returns, also through two or more references.
pub proof fn lemma_display_handle_through_reference<T: HasRawDisplayHandle + ?Sized>(
    display: &T,
    handle: RawDisplayHandle,
)
    ensures
        call_ensures(<&T as HasRawDisplayHandle>::raw_display_handle, (&display,), handle)
            ==> call_ensures(T::raw_display_handle, (display,), handle),
        call_ensures(<&&T as HasRawDisplayHandle>::raw_display_handle, (&&display,), handle)
            ==> call_ensures(T::raw_display_handle, (display,), handle),
{
}

} // verus!
