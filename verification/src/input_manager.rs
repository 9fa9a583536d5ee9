//! What the thread that owns the window tells the render thread: a few
//! flags and the window's size, each written and read on its own.

use std::sync::atomic::{AtomicBool, AtomicU32, Ordering};
use vstd::prelude::*;

verus! {

/// The signals from the window's thread to the render thread. Each field is
/// stored and loaded by itself, with relaxed ordering: a reader may see a
/// new width beside an old height, and sees each store in the end.
pub struct EventStates {
    pub exiting: AtomicBool,
    pub minimized: AtomicBool,
    pub width: AtomicU32,
    pub height: AtomicU32,
}

/// The signals as one reader found them at one moment.
#[derive(Clone, Copy, Debug, PartialEq, Eq, Structural)]
pub struct Observation {
    pub exiting: bool,
    pub minimized: bool,
    pub width: u32,
    pub height: u32,
}

/// What the window system reports, as far as the render core looks at it.
#[derive(Clone, Copy, Debug, PartialEq, Eq, Structural)]
pub enum WindowNotice {
    Resized { width: u32, height: u32 },
    CloseRequested,
    /// Any other event.
    Other,
}

/// What became of a notice.
#[derive(Clone, Copy, Debug, PartialEq, Eq, Structural)]
pub enum Disposition {
    /// The render core took it.
    Consumed,
    /// It is left, untouched, to the application.
    Forwarded,
}

/// A window of this size has no area to draw to: it counts as minimized.
pub open spec fn zero_sized(width: u32, height: u32) -> bool {
    width == 0 || height == 0
}

pub fn is_zero_sized(width: u32, height: u32) -> (r: bool)
    ensures
        r == zero_sized(width, height),
{
    width == 0 || height == 0
}

impl WindowNotice {
    /// The render core takes resizes and the request to close, nothing else.
    pub open spec fn disposition(self) -> Disposition {
        match self {
            WindowNotice::Resized { .. } | WindowNotice::CloseRequested => Disposition::Consumed,
            WindowNotice::Other => Disposition::Forwarded,
        }
    }
}

impl Observation {
    /// Whether the render loop has nothing to draw to.
    pub open spec fn idle(self) -> bool {
        self.minimized || zero_sized(self.width, self.height)
    }

    pub fn is_idle(&self) -> (r: bool)
        ensures
            r == self.idle(),
    {
        self.minimized || is_zero_sized(self.width, self.height)
    }
}

impl EventStates {
    /// Signals for a window of `width` by `height` that is not closing.
    pub fn new(width: u32, height: u32) -> EventStates {
        EventStates {
            exiting: AtomicBool::new(false),
            minimized: AtomicBool::new(is_zero_sized(width, height)),
            width: AtomicU32::new(width),
            height: AtomicU32::new(height),
        }
    }

    /// Tells the render thread to stop after the frame it is at.
    #[inline]
    pub fn close_requested(&self) {
        self.exiting.store(true, Ordering::Relaxed);
    }

    /// Tells the render thread the window's new size. A size without area
    /// marks the window as minimized.
    pub fn resized(&self, width: u32, height: u32) {
        self.width.store(width, Ordering::Relaxed);
        self.height.store(height, Ordering::Relaxed);
        self.minimized.store(is_zero_sized(width, height), Ordering::Relaxed);
    }

    /// Reads every signal once.
    pub fn observe(&self) -> Observation {
        Observation {
            exiting: self.exiting.load(Ordering::Relaxed),
            minimized: self.minimized.load(Ordering::Relaxed),
            width: self.width.load(Ordering::Relaxed),
            height: self.height.load(Ordering::Relaxed),
        }
    }

    /// Takes from the window system's events what the render core acts on:
    /// a resize is passed on to the render thread, and so is the request to
    /// close. Everything else is left to the application.
    pub fn window_event(&self, notice: WindowNotice) -> (r: Disposition)
        ensures
            r == notice.disposition(),
    {
        match notice {
            WindowNotice::Resized { width, height } => {
                self.resized(width, height);
                Disposition::Consumed
            },
            WindowNotice::CloseRequested => {
                self.close_requested();
                Disposition::Consumed
            },
            WindowNotice::Other => Disposition::Forwarded,
        }
    }
}

impl Default for EventStates {
    /// Signals for a window that has not reported a size yet.
    fn default() -> Self {
        EventStates::new(0, 0)
    }
}

} // verus!
