//! Display identifier and serial from what the X server reports for an output:
//! its descriptor property, its name and its resource id.
use vstd::prelude::*;

use crate::edid::{edid_serial, edid_serial_text, edid_uuid, edid_uuid_text, edid_valid, parse_edid};
use crate::error::XCapError;
use crate::text::{hex_text, push_char, push_hex, push_text};

verus! {

/// A descriptor was read and it parses.
pub open spec fn has_valid_edid(edid_data: Option<&[u8]>) -> bool {
    match edid_data {
        Some(d) => edid_valid(d@),
        None => false,
    }
}

} // verus!

verus! {

/// The identifier of an output: from its descriptor when one parses; else
/// from its name and resource id; else from its resource id alone.  The last
/// two change when the X server restarts.
pub fn get_display_uuid(edid_data: Option<&[u8]>, output_name: Option<&str>, output_id: u32) -> (r:
    String)
    ensures
        has_valid_edid(edid_data) ==> r@ == edid_uuid_text(edid_data->Some_0@),
        !has_valid_edid(edid_data) ==> match output_name {
            Some(name) => r@ == "OUTPUT-"@ + name@ + seq!['-'] + hex_text(output_id as nat, 0),
            None => r@ == "OUTPUT-"@ + hex_text(output_id as nat, 0),
        },
{
    if let Some(d) = edid_data {
        if let Ok(info) = parse_edid(d) {
            return edid_uuid(&info);
        }
    }
    let mut r = String::new();
    push_text(&mut r, "OUTPUT-");
    if let Some(name) = output_name {
        push_text(&mut r, name);
        push_char(&mut r, '-');
    }
    push_hex(&mut r, output_id as u64, 0);
    r
}

/// The serial of an output, from its descriptor alone: there is no other
/// source, so an output without a valid descriptor has none.
pub fn get_display_serial_number(edid_data: Option<&[u8]>) -> (r: Result<String, XCapError>)
    ensures
        has_valid_edid(edid_data) ==> (r matches Ok(s) && s@ == edid_serial_text(
            edid_data->Some_0@,
        )),
        !has_valid_edid(edid_data) ==> r == Err::<String, XCapError>(
            XCapError::SerialUnavailable,
        ),
{
    if let Some(d) = edid_data {
        if let Ok(info) = parse_edid(d) {
            return Ok(edid_serial(d, &info));
        }
    }
    Err(XCapError::SerialUnavailable)
}

} // verus!
