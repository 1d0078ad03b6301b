//! Windows as the window server lists them, front to back, and what the
//! library reads from one listed window.
use vstd::prelude::*;

use crate::error::XCapError;
use crate::geometry::{display_for, display_for_rect, DisplayRecord, Rect};

verus! {

/// One entry of the window list; a field is `None` where the entry lacks it.
pub struct WindowRecord {
    /// The window's number.
    pub number: Option<i32>,
    /// The window's title.
    pub name: Option<String>,
    /// The name of the application that owns the window.
    pub owner_name: Option<String>,
    /// The process that owns the window.
    pub owner_pid: Option<i32>,
    /// 0 when the window is not shared with other processes.
    pub sharing_state: Option<i32>,
    /// The window's bounds in global desktop coordinates.
    pub bounds: Option<Rect>,
    /// Whether the window is on screen.
    pub is_onscreen: Option<bool>,
}

/// The status indicator of the window server, which is never listed as a window.
pub open spec fn is_status_indicator(name: Seq<char>, owner: Seq<char>) -> bool {
    name == "StatusIndicator"@ && owner == "Window Server"@
}

/// The identifier of a listed window, or why the entry is not a capturable window.
pub open spec fn window_id_of(w: WindowRecord) -> Result<u32, XCapError> {
    match (w.name, w.owner_name) {
        (Some(name), Some(owner)) => if is_status_indicator(name@, owner@) {
            Err(XCapError::StatusIndicatorWindow)
        } else {
            match w.sharing_state {
                None => Err(XCapError::MissingWindowField),
                Some(0i32) => Err(XCapError::WindowNotShared),
                Some(_) => match w.number {
                    None => Err(XCapError::MissingWindowField),
                    Some(n) => Ok(n as u32),
                },
            }
        },
        _ => Err(XCapError::MissingWindowField),
    }
}

/// Index of the first entry from `i` on that is a window with identifier `id`.
pub open spec fn find_window(windows: Seq<WindowRecord>, id: u32, i: int) -> Option<int>
    decreases windows.len() - i,
{
    if i < 0 || i >= windows.len() {
        None
    } else if window_id_of(windows[i]) == Ok::<u32, XCapError>(id) {
        Some(i)
    } else {
        find_window(windows, id, i + 1)
    }
}

/// The identifiers of the listed windows, front to back.
pub open spec fn listed_ids(windows: Seq<WindowRecord>) -> Seq<u32>
    decreases windows.len(),
{
    if windows.len() == 0 {
        Seq::empty()
    } else {
        let rest = listed_ids(windows.drop_last());
        match window_id_of(windows.last()) {
            Ok(id) => rest.push(id),
            Err(_) => rest,
        }
    }
}

fn text_equals(s: &String, t: &str) -> (b: bool)
    ensures
        b == (s@ == t@),
{
    let u = String::from_str(t);
    *s == u
}

/// The identifier of a listed window, or why the entry is not one.
pub fn get_window_id(w: &WindowRecord) -> (r: Result<u32, XCapError>)
    ensures
        r == window_id_of(*w),
{
    let name = match &w.name {
        Some(n) => n,
        None => return Err(XCapError::MissingWindowField),
    };
    let owner = match &w.owner_name {
        Some(o) => o,
        None => return Err(XCapError::MissingWindowField),
    };
    if text_equals(name, "StatusIndicator") && text_equals(owner, "Window Server") {
        return Err(XCapError::StatusIndicatorWindow);
    }
    match w.sharing_state {
        None => Err(XCapError::MissingWindowField),
        Some(state) => {
            if state == 0 {
                Err(XCapError::WindowNotShared)
            } else {
                match w.number {
                    None => Err(XCapError::MissingWindowField),
                    Some(n) => Ok(n as u32),
                }
            }
        },
    }
}

/// The front-most entry that is the window `window_id`.
pub fn get_window_cf_dictionary(window_id: u32, windows: &[WindowRecord]) -> (r: Result<
    usize,
    XCapError,
>)
    ensures
        match find_window(windows@, window_id, 0) {
            Some(i) => r == Ok::<usize, XCapError>(i as usize),
            None => r == Err::<usize, XCapError>(XCapError::WindowNotFound),
        },
        r matches Ok(i) ==> i < windows@.len() && find_window(windows@, window_id, 0) == Some(i as int),
{
    let mut i: usize = 0;
    while i < windows.len()
        invariant
            i <= windows@.len(),
            find_window(windows@, window_id, 0) == find_window(windows@, window_id, i as int),
        decreases windows@.len() - i,
    {
        if let Ok(id) = get_window_id(&windows[i]) {
            if id == window_id {
                return Ok(i);
            }
        }
        i = i + 1;
    }
    Err(XCapError::WindowNotFound)
}

/// A window, by the identifier the window server gave it.
#[derive(Clone, Copy, Debug, PartialEq, Eq)]
pub struct ImplWindow {
    pub window_id: u32,
}

/// A display, by the identifier the display services gave it.
#[derive(Clone, Copy, Debug, PartialEq, Eq)]
pub struct ImplMonitor {
    pub cg_direct_display_id: u32,
}

impl ImplMonitor {
    pub fn new(cg_direct_display_id: u32) -> (r: ImplMonitor)
        ensures
            r.cg_direct_display_id == cg_direct_display_id,
    {
        ImplMonitor { cg_direct_display_id }
    }

    pub fn id(&self) -> (r: Result<u32, XCapError>)
        ensures
            r == Ok::<u32, XCapError>(self.cg_direct_display_id),
    {
        Ok(self.cg_direct_display_id)
    }
}

/// The entry of window `id` in the list, if it is listed.
pub open spec fn window_entry(windows: Seq<WindowRecord>, id: u32) -> Option<WindowRecord> {
    match find_window(windows, id, 0) {
        Some(i) => Some(windows[i]),
        None => None,
    }
}

/// A field read from the entry of a window: not found, field missing, or its value.
pub open spec fn field_of<T>(entry: Option<WindowRecord>, field: spec_fn(WindowRecord) -> Option<T>) -> Result<T, XCapError> {
    match entry {
        None => Err(XCapError::WindowNotFound),
        Some(w) => match field(w) {
            None => Err(XCapError::MissingWindowField),
            Some(v) => Ok(v),
        },
    }
}

/// The bounds of window `id`, or why they cannot be read.
pub open spec fn bounds_of(windows: Seq<WindowRecord>, id: u32) -> Result<Rect, XCapError> {
    field_of(window_entry(windows, id), |w: WindowRecord| w.bounds)
}

/// The display that window `id` is on.
pub open spec fn monitor_of(windows: Seq<WindowRecord>, displays: Seq<DisplayRecord>, main: DisplayRecord, id: u32) -> Result<DisplayRecord, XCapError> {
    match bounds_of(windows, id) {
        Ok(b) => Ok(display_for(displays, main, b)),
        Err(e) => Err(e),
    }
}

/// Whether window `id` covers at least the whole size of its display.
pub open spec fn maximized_of(windows: Seq<WindowRecord>, displays: Seq<DisplayRecord>, main: DisplayRecord, id: u32) -> Result<bool, XCapError> {
    match monitor_of(windows, displays, main, id) {
        Ok(d) => Ok(bounds_of(windows, id)->Ok_0.width >= d.bounds.width && bounds_of(windows, id)->Ok_0.height >= d.bounds.height),
        Err(e) => Err(e),
    }
}

impl ImplWindow {
    pub fn new(window_id: u32) -> (r: ImplWindow)
        ensures
            r.window_id == window_id,
    {
        ImplWindow { window_id }
    }

    /// Every listed window, front to back.
    pub fn all(windows: &[WindowRecord]) -> (r: Vec<ImplWindow>)
        ensures
            r@.len() == listed_ids(windows@).len(),
            forall|i: int| 0 <= i < r@.len() ==> #[trigger] r@[i].window_id == listed_ids(windows@)[i],
    {
        let mut r: Vec<ImplWindow> = Vec::new();
        let mut i: usize = 0;
        while i < windows.len()
            invariant
                i <= windows@.len(),
                r@.len() == listed_ids(windows@.subrange(0, i as int)).len(),
                forall|k: int| 0 <= k < r@.len() ==> #[trigger] r@[k].window_id == listed_ids(windows@.subrange(0, i as int))[k],
            decreases windows@.len() - i,
        {
            proof {
                assert(windows@.subrange(0, i + 1).drop_last() =~= windows@.subrange(0, i as int));
            }
            if let Ok(id) = get_window_id(&windows[i]) {
                r.push(ImplWindow::new(id));
            }
            i = i + 1;
        }
        proof {
            assert(windows@.subrange(0, windows@.len() as int) =~= windows@);
        }
        r
    }

    pub fn id(&self) -> (r: Result<u32, XCapError>)
        ensures
            r == Ok::<u32, XCapError>(self.window_id),
    {
        Ok(self.window_id)
    }

    /// The process that owns the window.
    pub fn pid(&self, windows: &[WindowRecord]) -> (r: Result<u32, XCapError>)
        ensures
            r == self.pid_spec(windows@),
    {
        let i = match get_window_cf_dictionary(self.window_id, windows) {
            Ok(i) => i,
            Err(e) => return Err(e),
        };
        match windows[i].owner_pid {
            Some(p) => Ok(p as u32),
            None => Err(XCapError::MissingWindowField),
        }
    }

    /// The name of the application that owns the window.
    pub fn app_name(&self, windows: &[WindowRecord]) -> (r: Result<String, XCapError>)
        ensures
            r == field_of(window_entry(windows@, self.window_id), |w: WindowRecord| w.owner_name),
    {
        let i = match get_window_cf_dictionary(self.window_id, windows) {
            Ok(i) => i,
            Err(e) => return Err(e),
        };
        match &windows[i].owner_name {
            Some(n) => Ok(n.clone()),
            None => Err(XCapError::MissingWindowField),
        }
    }

    /// The window's title.
    pub fn title(&self, windows: &[WindowRecord]) -> (r: Result<String, XCapError>)
        ensures
            r == field_of(window_entry(windows@, self.window_id), |w: WindowRecord| w.name),
    {
        let i = match get_window_cf_dictionary(self.window_id, windows) {
            Ok(i) => i,
            Err(e) => return Err(e),
        };
        match &windows[i].name {
            Some(n) => Ok(n.clone()),
            None => Err(XCapError::MissingWindowField),
        }
    }

    /// The window's bounds.
    pub fn bounds(&self, windows: &[WindowRecord]) -> (r: Result<Rect, XCapError>)
        ensures
            r == bounds_of(windows@, self.window_id),
    {
        let i = match get_window_cf_dictionary(self.window_id, windows) {
            Ok(i) => i,
            Err(e) => return Err(e),
        };
        match windows[i].bounds {
            Some(b) => Ok(b),
            None => Err(XCapError::MissingWindowField),
        }
    }

    pub fn x(&self, windows: &[WindowRecord]) -> (r: Result<i32, XCapError>)
        ensures
            match bounds_of(windows@, self.window_id) {
                Ok(b) => r == Ok::<i32, XCapError>(b.x),
                Err(e) => r == Err::<i32, XCapError>(e),
            },
    {
        let b = match self.bounds(windows) {
            Ok(b) => b,
            Err(e) => return Err(e),
        };
        Ok(b.x)
    }

    pub fn y(&self, windows: &[WindowRecord]) -> (r: Result<i32, XCapError>)
        ensures
            match bounds_of(windows@, self.window_id) {
                Ok(b) => r == Ok::<i32, XCapError>(b.y),
                Err(e) => r == Err::<i32, XCapError>(e),
            },
    {
        let b = match self.bounds(windows) {
            Ok(b) => b,
            Err(e) => return Err(e),
        };
        Ok(b.y)
    }

    pub fn width(&self, windows: &[WindowRecord]) -> (r: Result<u32, XCapError>)
        ensures
            match bounds_of(windows@, self.window_id) {
                Ok(b) => r == Ok::<u32, XCapError>(b.width),
                Err(e) => r == Err::<u32, XCapError>(e),
            },
    {
        let b = match self.bounds(windows) {
            Ok(b) => b,
            Err(e) => return Err(e),
        };
        Ok(b.width)
    }

    pub fn height(&self, windows: &[WindowRecord]) -> (r: Result<u32, XCapError>)
        ensures
            match bounds_of(windows@, self.window_id) {
                Ok(b) => r == Ok::<u32, XCapError>(b.height),
                Err(e) => r == Err::<u32, XCapError>(e),
            },
    {
        let b = match self.bounds(windows) {
            Ok(b) => b,
            Err(e) => return Err(e),
        };
        Ok(b.height)
    }

    fn current_display(&self, windows: &[WindowRecord], displays: &[DisplayRecord], main: &DisplayRecord) -> (r: Result<DisplayRecord, XCapError>)
        ensures
            r == monitor_of(windows@, displays@, *main, self.window_id),
    {
        let b = match self.bounds(windows) {
            Ok(b) => b,
            Err(e) => return Err(e),
        };
        Ok(display_for_rect(displays, main, &b))
    }

    /// The display the window is on: the first that holds its centre or
    /// overlaps it, else the main display.
    pub fn current_monitor(&self, windows: &[WindowRecord], displays: &[DisplayRecord], main: &DisplayRecord) -> (r: Result<ImplMonitor, XCapError>)
        ensures
            match monitor_of(windows@, displays@, *main, self.window_id) {
                Ok(d) => r == Ok::<ImplMonitor, XCapError>(ImplMonitor { cg_direct_display_id: d.id }),
                Err(e) => r == Err::<ImplMonitor, XCapError>(e),
            },
    {
        let d = match self.current_display(windows, displays, main) {
            Ok(d) => d,
            Err(e) => return Err(e),
        };
        Ok(ImplMonitor::new(d.id))
    }

    /// Whether the window is at least as wide and as high as its display.
    pub fn is_maximized(&self, windows: &[WindowRecord], displays: &[DisplayRecord], main: &DisplayRecord) -> (r: Result<bool, XCapError>)
        ensures
            r == maximized_of(windows@, displays@, *main, self.window_id),
    {
        let b = match self.bounds(windows) {
            Ok(b) => b,
            Err(e) => return Err(e),
        };
        let d = match self.current_display(windows, displays, main) {
            Ok(d) => d,
            Err(e) => return Err(e),
        };
        Ok(b.width >= d.bounds.width && b.height >= d.bounds.height)
    }

    /// Whether the window is off screen without being maximized.
    pub fn is_minimized(&self, windows: &[WindowRecord], displays: &[DisplayRecord], main: &DisplayRecord) -> (r: Result<bool, XCapError>)
        ensures
            match field_of(window_entry(windows@, self.window_id), |w: WindowRecord| w.is_onscreen) {
                Err(e) => r == Err::<bool, XCapError>(e),
                Ok(on) => match maximized_of(windows@, displays@, *main, self.window_id) {
                    Err(e) => r == Err::<bool, XCapError>(e),
                    Ok(m) => r == Ok::<bool, XCapError>(!on && !m),
                },
            },
    {
        let i = match get_window_cf_dictionary(self.window_id, windows) {
            Ok(i) => i,
            Err(e) => return Err(e),
        };
        let on = match windows[i].is_onscreen {
            Some(on) => on,
            None => return Err(XCapError::MissingWindowField),
        };
        let m = match self.is_maximized(windows, displays, main) {
            Ok(m) => m,
            Err(e) => return Err(e),
        };
        Ok(!on && !m)
    }

    /// Stacking depth: 0 for the back-most listed entry, counting up to the front.
    pub fn z(&self, windows: &[WindowRecord]) -> (r: i32)
        requires
            windows@.len() <= i32::MAX,
        ensures
            match find_window(windows@, self.window_id, 0) {
                Some(i) => r == windows@.len() - 1 - i,
                None => r == 0,
            },
    {
        match get_window_cf_dictionary(self.window_id, windows) {
            Ok(i) => (windows.len() - 1 - i) as i32,
            Err(_) => 0,
        }
    }

    /// Whether the window belongs to the front-most application.
    pub fn is_focused(&self, windows: &[WindowRecord], frontmost_pid: Option<i32>) -> (r: bool)
        ensures
            match frontmost_pid {
                None => !r,
                Some(f) => r == (f as u32 == match self.pid_spec(windows@) { Ok(p) => p, Err(_) => 0u32 }),
            },
    {
        match frontmost_pid {
            None => false,
            Some(f) => {
                let p = match self.pid(windows) {
                    Ok(p) => p,
                    Err(_) => 0,
                };
                f as u32 == p
            },
        }
    }

    pub open spec fn pid_spec(&self, windows: Seq<WindowRecord>) -> Result<u32, XCapError> {
        match field_of(window_entry(windows, self.window_id), |w: WindowRecord| w.owner_pid) {
            Ok(p) => Ok(p as u32),
            Err(e) => Err(e),
        }
    }
}

} // verus!
