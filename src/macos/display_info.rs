//! Display identifier and serial from what macOS reports for a display.
use vstd::prelude::*;

use crate::error::XCapError;
use crate::text::{dec_text, hex_text, push_decimal, push_hex, push_text};

verus! {

/// The identifier of a display: the persistent UUID of the display services
/// when they give one, else the one in the I/O registry.
pub fn get_display_uuid(display_uuid: Option<String>, registry_uuid: Option<String>) -> (r: Result<
    String,
    XCapError,
>)
    ensures
        display_uuid is Some ==> r == Ok::<String, XCapError>(display_uuid->Some_0),
        display_uuid is None && registry_uuid is Some ==> r == Ok::<String, XCapError>(registry_uuid->Some_0),
        display_uuid is None && registry_uuid is None ==> r == Err::<String, XCapError>(
            XCapError::UuidUnavailable,
        ),
{
    match display_uuid {
        Some(u) => Ok(u),
        None => match registry_uuid {
            Some(u) => Ok(u),
            None => Err(XCapError::UuidUnavailable),
        },
    }
}

/// The text for a display known only by vendor and model numbers.
pub open spec fn vendor_model_text(vendor: u32, model: u32) -> Seq<char> {
    "Vendor:"@ + hex_text(vendor as nat, 4) + "-Model:"@ + hex_text(model as nat, 4)
}

/// Index of the first non-empty text in `texts`, if any.
pub open spec fn first_non_empty(texts: Seq<String>, i: int) -> Option<int>
    decreases texts.len() - i,
{
    if i < 0 || i >= texts.len() {
        None
    } else if texts[i]@.len() > 0 {
        Some(i)
    } else {
        first_non_empty(texts, i + 1)
    }
}

/// The serial of a display: its numeric serial when not zero; else vendor
/// and model when both are known; else the first non-empty serial among the
/// entries of its I/O registry information (`registry_serials`, in the order
/// of the keys looked up); else none.
pub fn get_display_serial_number(
    serial_number: u32,
    vendor: u32,
    model: u32,
    registry_serials: &[String],
) -> (r: Result<String, XCapError>)
    ensures
        serial_number != 0 ==> (r matches Ok(s) && s@ == dec_text(serial_number as nat)),
        serial_number == 0 && vendor != 0 && model != 0 ==> (r matches Ok(s) && s@
            == vendor_model_text(vendor, model)),
        serial_number == 0 && (vendor == 0 || model == 0) ==> match first_non_empty(
            registry_serials@,
            0,
        ) {
            Some(i) => r == Ok::<String, XCapError>(registry_serials@[i]),
            None => r == Err::<String, XCapError>(XCapError::SerialUnavailable),
        },
{
    if serial_number != 0 {
        let mut s = String::new();
        push_decimal(&mut s, serial_number as u64);
        assert(s@ =~= dec_text(serial_number as nat));
        return Ok(s);
    }
    if vendor != 0 && model != 0 {
        let mut s = String::new();
        push_text(&mut s, "Vendor:");
        push_hex(&mut s, vendor as u64, 4);
        push_text(&mut s, "-Model:");
        push_hex(&mut s, model as u64, 4);
        assert(s@ =~= vendor_model_text(vendor, model));
        return Ok(s);
    }
    let mut i: usize = 0;
    while i < registry_serials.len()
        invariant
            i <= registry_serials@.len(),
            serial_number == 0,
            vendor == 0 || model == 0,
            first_non_empty(registry_serials@, 0) == first_non_empty(registry_serials@, i as int),
        decreases registry_serials@.len() - i,
    {
        if !registry_serials[i].as_str().is_empty() {
            return Ok(registry_serials[i].clone());
        }
        i = i + 1;
    }
    Err(XCapError::SerialUnavailable)
}

} // verus!
