//! What the form fields of the window accept: ports and player limits
//! typed as text.
use crate::number::{parse_nonzero, parse_nonzero_chars, IntErrorKind};
use crate::text::chars_of;
use vstd::prelude::*;

verus! {

/// The local port a joining tunnel listens on.
#[derive(Clone, Copy, Debug, PartialEq, Eq, Structural)]
pub enum LocalPort {
    /// The operating system picks a free port.
    Auto,
    /// The given non-zero port.
    Fixed(u16),
}

/// A non-zero port typed as text.
pub open spec fn port_from_text(s: Seq<char>) -> Result<u16, IntErrorKind> {
    match parse_nonzero(s, u16::MAX as nat) {
        Ok(v) => Ok(v as u16),
        Err(e) => Err(e),
    }
}

/// The port of the local Minecraft server, typed by hand.
pub fn parse_host_port(value: &str) -> (r: Result<u16, IntErrorKind>)
    ensures
        r == port_from_text(value@),
{
    let s = chars_of(value);
    match parse_nonzero_chars(&s, 65535) {
        Ok(v) => Ok(v as u16),
        Err(e) => Err(e),
    }
}

/// An optional positive limit: empty text means no limit.
pub fn parse_optional_u32(value: &str) -> (r: Result<Option<u32>, IntErrorKind>)
    ensures
        value@.len() == 0 ==> r == Ok::<Option<u32>, IntErrorKind>(None),
        value@.len() > 0 ==> r == match parse_nonzero(value@, u32::MAX as nat) {
            Ok(v) => Ok(Some(v as u32)),
            Err(e) => Err(e),
        },
{
    let s = chars_of(value);
    if s.len() == 0 {
        Ok(None)
    } else {
        match parse_nonzero_chars(&s, 4294967295) {
            Ok(v) => Ok(Some(v as u32)),
            Err(e) => Err(e),
        }
    }
}

/// The local port of a joining tunnel: chosen by the system when `auto`
/// is set (the text is then not read), else the port typed as text.
pub fn parse_local_port(auto: bool, value: &str) -> (r: Result<LocalPort, IntErrorKind>)
    ensures
        auto ==> r == Ok::<LocalPort, IntErrorKind>(LocalPort::Auto),
        !auto ==> r == match port_from_text(value@) {
            Ok(p) => Ok(LocalPort::Fixed(p)),
            Err(e) => Err(e),
        },
{
    if auto {
        Ok(LocalPort::Auto)
    } else {
        match parse_host_port(value) {
            Ok(p) => Ok(LocalPort::Fixed(p)),
            Err(e) => Err(e),
        }
    }
}

/// Whether a request to close the window only hides it into the tray: the
/// user asked to close it, did not ask to quit, prefers hiding, and a tray
/// is there to bring it back.
pub fn should_hide_on_close(
    close_requested: bool,
    exit_requested: bool,
    close_action: crate::settings::CloseAction,
    tray_available: bool,
) -> (r: bool)
    ensures
        r == (close_requested && !exit_requested && close_action
            == crate::settings::CloseAction::HideToTray && tray_available),
{
    close_requested && !exit_requested && close_action == crate::settings::CloseAction::HideToTray
        && tray_available
}

} // verus!
