//! Display identifier and serial from the WmiMonitorID records of Windows
//! Management Instrumentation, whose text properties are arrays of bytes.
use vstd::prelude::*;

use crate::error::XCapError;
use crate::text::{hex_text, push_char, push_hex, push_text};

verus! {

/// One WmiMonitorID record: its instance name, and its byte-array
/// properties (`None` where a property is not a byte array).
pub struct WmiMonitorId {
    /// The monitor's device instance followed by `_` and an index.
    pub instance_name: String,
    pub manufacturer_name: Option<Vec<u8>>,
    pub product_code_id: Option<Vec<u8>>,
    pub serial_number_id: Option<Vec<u8>>,
}

/// The non-zero bytes of `s`, each read as the character of that code.
pub open spec fn wmi_text(s: Seq<u8>) -> Seq<char>
    decreases s.len(),
{
    if s.len() == 0 {
        Seq::empty()
    } else if s.last() == 0 {
        wmi_text(s.drop_last())
    } else {
        wmi_text(s.drop_last()).push(s.last() as char)
    }
}

/// The text of a property: empty when it is not a byte array.
pub open spec fn property_text(value: Option<Vec<u8>>) -> Seq<char> {
    match value {
        Some(b) => wmi_text(b@),
        None => Seq::empty(),
    }
}

/// Reads a property as text: its non-zero bytes, in order.
pub fn get_string_property(value: &Option<Vec<u8>>) -> (r: String)
    ensures
        r@ == property_text(*value),
{
    let mut r = String::new();
    if let Some(bytes) = value {
        let mut i: usize = 0;
        while i < bytes.len()
            invariant
                i <= bytes@.len(),
                r@ == wmi_text(bytes@.subrange(0, i as int)),
            decreases bytes@.len() - i,
        {
            proof {
                assert(bytes@.subrange(0, i + 1).drop_last() =~= bytes@.subrange(0, i as int));
            }
            if bytes[i] != 0 {
                push_char(&mut r, bytes[i] as char);
            }
            i = i + 1;
        }
        proof {
            assert(bytes@.subrange(0, bytes@.len() as int) =~= bytes@);
        }
    } else {
        assert(r@ =~= Seq::<char>::empty());
    }
    r
}

/// The identifier that a record gives: manufacturer, product code and
/// serial, dash-separated.
pub open spec fn wmi_uuid_text(m: WmiMonitorId) -> Seq<char> {
    property_text(m.manufacturer_name) + seq!['-'] + property_text(m.product_code_id) + seq!['-']
        + property_text(m.serial_number_id)
}

/// A character as device paths compare it: ASCII letters in upper case, and
/// `#` as the `\\` that interface paths write it for.
pub open spec fn path_char(c: char) -> char {
    if c == '#' {
        '\\'
    } else if 'a' <= c && c <= 'z' {
        ((c as u32) - 32) as char
    } else {
        c
    }
}

pub open spec fn is_digit(c: char) -> bool {
    '0' <= c && c <= '9'
}

/// `inst` is a device instance (its first `n` characters), `_`, and a
/// decimal index.
pub open spec fn instance_split(inst: Seq<char>, n: int) -> bool {
    &&& 0 <= n
    &&& n + 1 < inst.len()
    &&& inst[n] == '_'
    &&& forall|i: int| n < i < inst.len() ==> is_digit(#[trigger] inst[i])
}

/// `path` is `\\?\` followed by the first `n` characters of `inst` (with `#`
/// for `\`, in any case), then `#{` and the interface class.
pub open spec fn path_matches(inst: Seq<char>, path: Seq<char>, n: int) -> bool {
    &&& path.len() >= n + 6
    &&& path[0] == '\\' && path[1] == '\\' && path[2] == '?' && path[3] == '\\'
    &&& path[n + 4] == '#' && path[n + 5] == '{'
    &&& forall|i: int| 0 <= i < n ==> path_char(#[trigger] inst[i]) == path_char(path[i + 4])
}

/// The record with instance name `inst` describes the monitor whose device
/// interface path is `path`.
pub open spec fn belongs_to(inst: Seq<char>, path: Seq<char>) -> bool {
    exists|n: int| instance_split(inst, n) && path_matches(inst, path, n)
}

fn path_char_exec(c: char) -> (r: char)
    ensures
        r == path_char(c),
{
    if c == '#' {
        '\\'
    } else if c >= 'a' && c <= 'z' {
        ((c as u8) - 32) as char
    } else {
        c
    }
}

fn is_digit_exec(c: char) -> (r: bool)
    ensures
        r == is_digit(c),
{
    c >= '0' && c <= '9'
}

/// Whether the record named `inst` describes the monitor with interface path `path`.
pub fn instance_belongs_to(inst: &str, path: &str) -> (r: bool)
    ensures
        r == belongs_to(inst@, path@),
{
    let ilen = inst.unicode_len();
    let mut k: usize = ilen;
    while k > 0 && is_digit_exec(inst.get_char(k - 1))
        invariant
            k <= ilen == inst@.len(),
            forall|i: int| k <= i < ilen ==> is_digit(#[trigger] inst@[i]),
        decreases k,
    {
        k = k - 1;
    }
    if k == ilen || k == 0 || inst.get_char(k - 1) != '_' {
        proof {
            assert forall|m: int| !instance_split(inst@, m) by {
                if instance_split(inst@, m) {
                    if k == ilen {
                        assert(is_digit(inst@[ilen - 1]));
                    } else if k == 0 {
                        assert(is_digit(inst@[m]));
                    } else if m < k - 1 {
                        assert(is_digit(inst@[k - 1]));
                    } else if m >= k {
                        assert(is_digit(inst@[m]));
                    }
                }
            }
        }
        return false;
    }
    let n = k - 1;
    proof {
        assert(instance_split(inst@, n as int));
        assert forall|m: int| instance_split(inst@, m) implies m == n by {
            if m < n {
                assert(is_digit(inst@[n as int]));
            } else if m > n {
                assert(is_digit(inst@[m]));
            }
        }
    }
    let plen = path.unicode_len();
    if plen < 6 || plen - 6 < n || path.get_char(0) != '\\' || path.get_char(1) != '\\' || path.get_char(2) != '?'
        || path.get_char(3) != '\\' || path.get_char(n + 4) != '#' || path.get_char(n + 5) != '{' {
        return false;
    }
    let mut i: usize = 0;
    while i < n
        invariant
            i <= n,
            n + 6 <= plen == path@.len(),
            n < ilen == inst@.len(),
            instance_split(inst@, n as int),
            forall|m: int| instance_split(inst@, m) ==> m == n,
            path@[0] == '\\' && path@[1] == '\\' && path@[2] == '?' && path@[3] == '\\',
            path@[n + 4] == '#' && path@[n + 5] == '{',
            forall|j: int| 0 <= j < i ==> path_char(#[trigger] inst@[j]) == path_char(path@[j + 4]),
        decreases n - i,
    {
        if path_char_exec(inst.get_char(i)) != path_char_exec(path.get_char(i + 4)) {
            return false;
        }
        i = i + 1;
    }
    proof {
        assert(path_matches(inst@, path@, n as int));
    }
    true
}

/// Index of the first record from `i` on that describes the monitor with
/// interface path `path`.
pub open spec fn find_record(monitors: Seq<WmiMonitorId>, path: Seq<char>, i: int) -> Option<int>
    decreases monitors.len() - i,
{
    if i < 0 || i >= monitors.len() {
        None
    } else if belongs_to(monitors[i].instance_name@, path) {
        Some(i)
    } else {
        find_record(monitors, path, i + 1)
    }
}

fn find_monitor_record(monitors: &[WmiMonitorId], monitor_path: &str) -> (r: Option<usize>)
    ensures
        match find_record(monitors@, monitor_path@, 0) {
            Some(i) => r == Some(i as usize),
            None => r is None,
        },
        r matches Some(k) ==> k < monitors@.len() && find_record(monitors@, monitor_path@, 0) == Some(k as int),
{
    let mut i: usize = 0;
    while i < monitors.len()
        invariant
            i <= monitors@.len(),
            find_record(monitors@, monitor_path@, 0) == find_record(monitors@, monitor_path@, i as int),
        decreases monitors@.len() - i,
    {
        if instance_belongs_to(monitors[i].instance_name.as_str(), monitor_path) {
            return Some(i);
        }
        i = i + 1;
    }
    None
}

/// The identifier that the record of the monitor with interface path
/// `monitor_path` gives; none when no record describes that monitor.
pub fn get_display_uuid_from_wmi(monitors: &[WmiMonitorId], monitor_path: &str) -> (r: Result<String, XCapError>)
    ensures
        match find_record(monitors@, monitor_path@, 0) {
            Some(i) => r matches Ok(s) && s@ == wmi_uuid_text(monitors@[i]),
            None => r == Err::<String, XCapError>(XCapError::UuidUnavailable),
        },
{
    let i = match find_monitor_record(monitors, monitor_path) {
        Some(i) => i,
        None => return Err(XCapError::UuidUnavailable),
    };
    let m = &monitors[i];
    let mut r = get_string_property(&m.manufacturer_name);
    push_char(&mut r, '-');
    let product = get_string_property(&m.product_code_id);
    push_text(&mut r, product.as_str());
    push_char(&mut r, '-');
    let serial = get_string_property(&m.serial_number_id);
    push_text(&mut r, serial.as_str());
    Ok(r)
}

/// The serial in the record of the monitor with interface path
/// `monitor_path`, when that record has a non-empty one.
pub fn get_display_serial_from_wmi(monitors: &[WmiMonitorId], monitor_path: &str) -> (r: Result<String, XCapError>)
    ensures
        match find_record(monitors@, monitor_path@, 0) {
            Some(i) => if property_text(monitors@[i].serial_number_id).len() > 0 {
                r matches Ok(s) && s@ == property_text(monitors@[i].serial_number_id)
            } else {
                r == Err::<String, XCapError>(XCapError::SerialUnavailable)
            },
            None => r == Err::<String, XCapError>(XCapError::SerialUnavailable),
        },
{
    let i = match find_monitor_record(monitors, monitor_path) {
        Some(i) => i,
        None => return Err(XCapError::SerialUnavailable),
    };
    let serial = get_string_property(&monitors[i].serial_number_id);
    if serial.as_str().is_empty() {
        return Err(XCapError::SerialUnavailable);
    }
    Ok(serial)
}

/// `s` holds two dashes in a row: a part of the identifier was empty.
pub open spec fn has_double_dash(s: Seq<char>) -> bool {
    exists|i: int| 0 <= i && i + 1 < s.len() && #[trigger] s[i] == '-' && s[i + 1] == '-'
}

fn contains_double_dash(s: &str) -> (r: bool)
    ensures
        r == has_double_dash(s@),
{
    let n = s.unicode_len();
    if n < 2 {
        return false;
    }
    let mut i: usize = 0;
    while i + 1 < n
        invariant
            n == s@.len(),
            n >= 2,
            i + 1 <= n,
            forall|k: int| 0 <= k < i ==> !(#[trigger] s@[k] == '-' && s@[k + 1] == '-'),
        decreases n - i,
    {
        if s.get_char(i) == '-' && s.get_char(i + 1) == '-' {
            return true;
        }
        i = i + 1;
    }
    false
}

/// The identifier of a monitor: the one from the management records when it
/// is complete (not empty, no empty part); else one made from the monitor
/// handle, which holds only for the current session.
pub fn get_display_uuid(from_wmi: Result<String, XCapError>, monitor_handle: usize) -> (r: String)
    ensures
        (from_wmi matches Ok(u) && u@.len() > 0 && !has_double_dash(u@)) ==> r == from_wmi->Ok_0,
        !(from_wmi matches Ok(u) && u@.len() > 0 && !has_double_dash(u@)) ==> r@ == "HMONITOR-"@
            + hex_text(monitor_handle as nat, 0),
{
    if let Ok(u) = from_wmi {
        if !u.as_str().is_empty() && !contains_double_dash(u.as_str()) {
            return u;
        }
    }
    let mut r = String::new();
    push_text(&mut r, "HMONITOR-");
    push_hex(&mut r, monitor_handle as u64, 0);
    r
}

/// The serial of a monitor: the one from the management records when not
/// empty; there is no other source.
pub fn get_display_serial_number(from_wmi: Result<String, XCapError>) -> (r: Result<
    String,
    XCapError,
>)
    ensures
        (from_wmi matches Ok(s) && s@.len() > 0) ==> r == from_wmi,
        !(from_wmi matches Ok(s) && s@.len() > 0) ==> r == Err::<String, XCapError>(
            XCapError::SerialUnavailable,
        ),
{
    if let Ok(s) = from_wmi {
        if !s.as_str().is_empty() {
            return Ok(s);
        }
    }
    Err(XCapError::SerialUnavailable)
}

} // verus!
