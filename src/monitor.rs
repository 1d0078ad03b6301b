//! Monitors and the key that names one across sessions.
use vstd::prelude::*;

use crate::error::XCapError;
use crate::text::{dec_text, push_decimal, push_text};
use crate::window::ImplMonitor;

verus! {

/// A monitor of the desktop.
#[derive(Clone, Copy, Debug, PartialEq, Eq)]
pub struct Monitor {
    pub impl_monitor: ImplMonitor,
}

/// What identifies a monitor: its display identifier, and its serial and
/// UUID where they could be resolved.
pub struct MonitorIdentity {
    pub id: u32,
    pub serial: Option<String>,
    pub uuid: Option<String>,
}

/// The unique key of a monitor: its serial when resolved and not empty, else
/// its UUID when resolved, else its identifier in decimal.
pub open spec fn unique_key_text(m: MonitorIdentity) -> Seq<char> {
    match m.serial {
        Some(s) if s@.len() > 0 => s@,
        _ => match m.uuid {
            Some(u) => u@,
            None => dec_text(m.id as nat),
        },
    }
}

/// Monitor `m` answers to `key`: by a non-empty serial, by its UUID, or by
/// its identifier in decimal.
pub open spec fn answers_to(m: MonitorIdentity, key: Seq<char>) -> bool {
    ||| (m.serial matches Some(s) && s@.len() > 0 && s@ == key)
    ||| (m.uuid matches Some(u) && u@ == key)
    ||| dec_text(m.id as nat) == key
}

/// Index of the first monitor from `i` on that answers to `key`.
pub open spec fn first_answering(monitors: Seq<MonitorIdentity>, key: Seq<char>, i: int) -> Option<int>
    decreases monitors.len() - i,
{
    if i < 0 || i >= monitors.len() {
        None
    } else if answers_to(monitors[i], key) {
        Some(i)
    } else {
        first_answering(monitors, key, i + 1)
    }
}

fn decimal_text(v: u32) -> (r: String)
    ensures
        r@ == dec_text(v as nat),
{
    let mut r = String::new();
    push_decimal(&mut r, v as u64);
    assert(r@ =~= dec_text(v as nat));
    r
}

impl Monitor {
    pub fn new(impl_monitor: ImplMonitor) -> (r: Monitor)
        ensures
            r.impl_monitor == impl_monitor,
    {
        Monitor { impl_monitor }
    }

    /// The display identifier.
    pub fn id(&self) -> (r: Result<u32, XCapError>)
        ensures
            r == Ok::<u32, XCapError>(self.impl_monitor.cg_direct_display_id),
    {
        self.impl_monitor.id()
    }

    /// The key that names a monitor with identity `identity`.
    pub fn unique_key(identity: &MonitorIdentity) -> (r: String)
        ensures
            r@ == unique_key_text(*identity),
    {
        if let Some(s) = &identity.serial {
            if !s.as_str().is_empty() {
                return s.clone();
            }
        }
        match &identity.uuid {
            Some(u) => u.clone(),
            None => decimal_text(identity.id),
        }
    }

    /// The first monitor that answers to `unique_key`.
    pub fn from_unique_key(unique_key: &String, monitors: &[MonitorIdentity]) -> (r: Result<Monitor, XCapError>)
        ensures
            match first_answering(monitors@, unique_key@, 0) {
                Some(i) => r == Ok::<Monitor, XCapError>(Monitor { impl_monitor: ImplMonitor { cg_direct_display_id: monitors@[i].id } }),
                None => r == Err::<Monitor, XCapError>(XCapError::DisplayNotFound),
            },
    {
        let mut i: usize = 0;
        while i < monitors.len()
            invariant
                i <= monitors@.len(),
                first_answering(monitors@, unique_key@, 0) == first_answering(monitors@, unique_key@, i as int),
            decreases monitors@.len() - i,
        {
            let m = &monitors[i];
            let mut found = false;
            if let Some(s) = &m.serial {
                if !s.as_str().is_empty() && *s == *unique_key {
                    found = true;
                }
            }
            if let Some(u) = &m.uuid {
                if *u == *unique_key {
                    found = true;
                }
            }
            let id_text = decimal_text(m.id);
            if id_text == *unique_key {
                found = true;
            }
            if found {
                return Ok(Monitor::new(ImplMonitor::new(m.id)));
            }
            i = i + 1;
        }
        Err(XCapError::DisplayNotFound)
    }
}

impl ImplMonitor {
    /// The monitor's name: its localized name when the screen list has one,
    /// else "Unknown Monitor" and its identifier.
    pub fn name(&self, friendly_name: Option<String>) -> (r: String)
        ensures
            match friendly_name {
                Some(n) => r == n,
                None => r@ == "Unknown Monitor "@ + dec_text(self.cg_direct_display_id as nat),
            },
    {
        match friendly_name {
            Some(n) => n,
            None => {
                let mut r = String::new();
                push_text(&mut r, "Unknown Monitor ");
                push_decimal(&mut r, self.cg_direct_display_id as u64);
                r
            },
        }
    }
}

} // verus!
