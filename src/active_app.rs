//! The focused-application snapshot: which application is in front, its
//! process, and the identity of the display its front-most window is on.
//! One writer replaces the whole snapshot on every activation; readers copy it
//! out whole.
use vstd::prelude::*;

use crate::error::XCapError;
use crate::geometry::{display_for, display_for_rect, DisplayRecord};
use crate::text::{dec_text, push_decimal, push_text};
use crate::window::{ImplWindow, WindowRecord};

verus! {

/// The focused application: name, process id and display identity.
pub struct ActiveAppInfo {
    pub name: String,
    pub pid: i32,
    pub display_serial: String,
}

/// The three fields of a snapshot as values.
pub open spec fn snapshot(info: ActiveAppInfo) -> (Seq<char>, i32, Seq<char>) {
    (info.name@, info.pid, info.display_serial@)
}

/// A display identity or application name that could not be found.
pub open spec fn unknown_text() -> Seq<char> {
    "Unknown"@
}

/// The name of the front-most application, "Unknown" when it has none.
pub fn app_name_or_unknown(name: Option<String>) -> (r: String)
    ensures
        match name {
            Some(n) => r == n,
            None => r@ == unknown_text(),
        },
{
    match name {
        Some(n) => n,
        None => {
            let mut r = String::new();
            push_text(&mut r, "Unknown");
            r
        },
    }
}

/// A resolved display identity, "Unknown" when resolution failed.
pub fn display_serial_or_unknown(serial: Result<String, XCapError>) -> (r: String)
    ensures
        match serial {
            Ok(s) => r == s,
            Err(_) => r@ == unknown_text(),
        },
{
    match serial {
        Ok(s) => s,
        Err(_) => {
            let mut r = String::new();
            push_text(&mut r, "Unknown");
            r
        },
    }
}

impl ActiveAppInfo {
    /// The snapshot taken when tracking starts.
    pub fn new(name: String, pid: i32, display_serial: String) -> (r: ActiveAppInfo)
        ensures
            snapshot(r) == (name@, pid, display_serial@),
    {
        ActiveAppInfo { name, pid, display_serial }
    }

    /// Replaces the whole snapshot.
    pub fn update(&mut self, name: String, pid: i32, display_serial: String)
        ensures
            snapshot(*final(self)) == (name@, pid, display_serial@),
    {
        self.name = name;
        self.pid = pid;
        self.display_serial = display_serial;
    }

    /// Handles an activation: when the front-most application could be read,
    /// the snapshot becomes it, with its display identity or "Unknown";
    /// otherwise the snapshot stays as it was.
    pub fn on_activation(&mut self, frontmost: Result<(String, i32), XCapError>, display_serial: Result<String, XCapError>)
        ensures
            snapshot(*final(self)) == activation_step(snapshot(*old(self)), (frontmost, display_serial)),
    {
        if let Ok((name, pid)) = frontmost {
            let serial = display_serial_or_unknown(display_serial);
            self.update(name, pid, serial);
        }
    }

    /// A copy of the whole snapshot.
    pub fn read(&self) -> (r: (String, i32, String))
        ensures
            (r.0@, r.1, r.2@) == snapshot(*self),
    {
        (self.name.clone(), self.pid, self.display_serial.clone())
    }
}

/// What one activation notification observed: the front-most application,
/// and the display identity resolved for it.
pub type Activation = (Result<(String, i32), XCapError>, Result<String, XCapError>);

/// The whole snapshot that activation `e` writes, when it read an application.
pub open spec fn activation_snapshot(e: Activation) -> (Seq<char>, i32, Seq<char>) {
    (e.0->Ok_0.0@, e.0->Ok_0.1, match e.1 {
        Ok(s) => s@,
        Err(_) => unknown_text(),
    })
}

/// The snapshot after activation `e` on snapshot `prior`.
pub open spec fn activation_step(prior: (Seq<char>, i32, Seq<char>), e: Activation) -> (Seq<char>, i32, Seq<char>) {
    if e.0 is Ok {
        activation_snapshot(e)
    } else {
        prior
    }
}

/// The snapshot after the activations `events`, in order, from `initial`.
pub open spec fn after_activations(initial: (Seq<char>, i32, Seq<char>), events: Seq<Activation>) -> (Seq<char>, i32, Seq<char>)
    decreases events.len(),
{
    if events.len() == 0 {
        initial
    } else {
        activation_step(after_activations(initial, events.drop_last()), events.last())
    }
}

/// Whatever activations came in, the snapshot is never a mix: it is either
/// the initial one or the whole snapshot that a single activation wrote, the
/// latest one that read an application.
pub proof fn lemma_snapshot_never_torn(initial: (Seq<char>, i32, Seq<char>), events: Seq<Activation>)
    ensures
        after_activations(initial, events) == initial || exists|i: int|
            0 <= i < events.len() && (#[trigger] events[i]).0 is Ok && after_activations(initial, events)
                == activation_snapshot(events[i]),
    decreases events.len(),
{
    if events.len() > 0 {
        let rest = events.drop_last();
        lemma_snapshot_never_torn(initial, rest);
        if events.last().0 is Ok {
            assert(events[events.len() - 1] == events.last());
        } else if after_activations(initial, rest) != initial {
            let i = choose|i: int|
                0 <= i < rest.len() && (#[trigger] rest[i]).0 is Ok && after_activations(initial, rest)
                    == activation_snapshot(rest[i]);
            assert(events[i] == rest[i]);
        }
    }
}

/// Index of the front-most window from `i` on that `pid` owns and whose bounds are known.
pub open spec fn first_window_of(windows: Seq<WindowRecord>, pid: i32, i: int) -> Option<int>
    decreases windows.len() - i,
{
    if i < 0 || i >= windows.len() {
        None
    } else if windows[i].owner_pid == Some(pid) && windows[i].bounds is Some {
        Some(i)
    } else {
        first_window_of(windows, pid, i + 1)
    }
}

/// The display of an application: the one its front-most window with known
/// bounds is placed on, else the main display.
pub open spec fn display_of_pid(windows: Seq<WindowRecord>, displays: Seq<DisplayRecord>, main: DisplayRecord, pid: i32) -> DisplayRecord {
    match first_window_of(windows, pid, 0) {
        Some(i) => display_for(displays, main, windows[i].bounds->Some_0),
        None => main,
    }
}

impl ImplWindow {
    /// The focused-application snapshot; a snapshot left inconsistent by a
    /// failed writer (`None`) is an error for this read.
    pub fn get_active_info(snapshot_state: Option<&ActiveAppInfo>) -> (r: Result<(String, i32, String), XCapError>)
        ensures
            match snapshot_state {
                Some(info) => r matches Ok(t) && (t.0@, t.1, t.2@) == snapshot(*info),
                None => r == Err::<(String, i32, String), XCapError>(XCapError::StatePoisoned),
            },
    {
        match snapshot_state {
            Some(info) => Ok(info.read()),
            None => Err(XCapError::StatePoisoned),
        }
    }

    /// The display that application `pid` is on.
    pub fn display_for_pid(pid: i32, windows: &[WindowRecord], displays: &[DisplayRecord], main: &DisplayRecord) -> (r: DisplayRecord)
        ensures
            r == display_of_pid(windows@, displays@, *main, pid),
    {
        let mut i: usize = 0;
        while i < windows.len()
            invariant
                i <= windows@.len(),
                first_window_of(windows@, pid, 0) == first_window_of(windows@, pid, i as int),
            decreases windows@.len() - i,
        {
            if windows[i].owner_pid == Some(pid) {
                if let Some(b) = windows[i].bounds {
                    return display_for_rect(displays, main, &b);
                }
            }
            i = i + 1;
        }
        *main
    }

    /// The identity reported for a display: its serial, else its identifier in decimal.
    pub fn display_serial_or_id(serial: Result<String, XCapError>, display_id: u32) -> (r: String)
        ensures
            match serial {
                Ok(s) => r == s,
                Err(_) => r@ == dec_text(display_id as nat),
            },
    {
        match serial {
            Ok(s) => s,
            Err(_) => {
                let mut r = String::new();
                push_decimal(&mut r, display_id as u64);
                assert(r@ =~= dec_text(display_id as nat));
                r
            },
        }
    }
}

} // verus!
