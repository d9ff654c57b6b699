//! The window-message vocabulary of the binding layer: the decoded message
//! kinds the event loop dispatches on, and the exact packing between them
//! and the native `(message, wparam, lparam)` triple.

use vstd::prelude::*;

verus! {

/// The native message code for window destruction.
pub const WM_DESTROY: u32 = 0x0002;

/// The native message code for a window size change.
pub const WM_SIZE: u32 = 0x0005;

/// The native message code for a paint request.
pub const WM_PAINT: u32 = 0x000F;

/// A decoded window message: the few kinds the event loop cares about, and
/// everything else verbatim.
#[derive(Clone, Copy, Debug, PartialEq, Eq, Structural)]
pub enum MessageKind {
    Destroy,
    Paint,
    Size { width: i32, height: i32 },
    Other { msg: u32, wparam: usize, lparam: isize },
}

impl MessageKind {
    /// Decode a native message triple. A size message carries the client
    /// area's width in the low 16 bits of `lparam` and its height in the
    /// next 16 bits.
    pub fn from_raw(msg: u32, wparam: usize, lparam: isize) -> (k: MessageKind)
        ensures
            k == MessageKind::spec_from_raw(msg, wparam, lparam),
    {
        if msg == WM_DESTROY {
            MessageKind::Destroy
        } else if msg == WM_PAINT {
            MessageKind::Paint
        } else if msg == WM_SIZE {
            #[verifier::truncate]
            let packed = lparam as u32;
            MessageKind::Size {
                width: (packed % 0x10000) as i32,
                height: ((packed / 0x10000) % 0x10000) as i32,
            }
        } else {
            MessageKind::Other { msg, wparam, lparam }
        }
    }

    /// What `from_raw` decodes: the low word of `lparam` is the width, the
    /// next word the height.
    pub open spec fn spec_from_raw(msg: u32, wparam: usize, lparam: isize) -> MessageKind {
        if msg == WM_DESTROY {
            MessageKind::Destroy
        } else if msg == WM_PAINT {
            MessageKind::Paint
        } else if msg == WM_SIZE {
            MessageKind::Size {
                width: ((lparam as u32) % 0x10000) as i32,
                height: (((lparam as u32) / 0x10000) % 0x10000) as i32,
            }
        } else {
            MessageKind::Other { msg, wparam, lparam }
        }
    }

    /// Encode back to the native triple. A size message packs width and
    /// height into the two low words of `lparam`; dimensions are taken
    /// modulo one word, as the native packing does.
    pub fn to_raw(self) -> (t: (u32, usize, isize))
        ensures
            t == self.spec_to_raw(),
    {
        match self {
            MessageKind::Destroy => (WM_DESTROY, 0, 0),
            MessageKind::Paint => (WM_PAINT, 0, 0),
            MessageKind::Size { width, height } => {
                #[verifier::truncate]
                let w = width as u16;
                #[verifier::truncate]
                let h = height as u16;
                (WM_SIZE, 0, ((h as u32) as usize * 0x10000 + (w as u32) as usize) as isize)
            },
            MessageKind::Other { msg, wparam, lparam } => (msg, wparam, lparam),
        }
    }

    pub open spec fn spec_to_raw(self) -> (u32, usize, isize) {
        match self {
            MessageKind::Destroy => (WM_DESTROY, 0usize, 0isize),
            MessageKind::Paint => (WM_PAINT, 0usize, 0isize),
            MessageKind::Size { width, height } => (
                WM_SIZE,
                0usize,
                ((height as u16) as usize * 0x10000 + ((width as u16) as usize)) as isize,
            ),
            MessageKind::Other { msg, wparam, lparam } => (msg, wparam, lparam),
        }
    }
}

} // verus!
