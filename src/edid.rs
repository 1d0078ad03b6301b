//! Reading display identity out of a 128-byte descriptor block (EDID).
use vstd::prelude::*;

use crate::error::XCapError;
use crate::text::{dec_text, hex_text, push_char, push_decimal, push_hex};

verus! {

/// What the fixed fields of a descriptor block say about a display.
pub struct EdidInfo {
    /// Three letters packed as 5-bit values into bytes 8 and 9.
    pub manufacturer_id: String,
    /// Little-endian bytes 10 and 11.
    pub product_code: u16,
    /// Little-endian bytes 12 to 15.
    pub serial_number: u32,
}

/// The fixed signature `00 FF FF FF FF FF FF 00` that opens every block.
pub open spec fn edid_header_ok(d: Seq<u8>) -> bool {
    &&& d[0] == 0x00
    &&& forall|i: int| 1 <= i < 7 ==> d[i] == 0xFF
    &&& d[7] == 0x00
}

/// Bytes 8 and 9 as one big-endian word.
pub open spec fn manufacturer_word(d: Seq<u8>) -> nat {
    (d[8] as nat) * 256 + (d[9] as nat)
}

/// A 5-bit letter code biased into upper-case ASCII (1 is `A`).
pub open spec fn manufacturer_letter(code: nat) -> char {
    (code + 64) as char
}

/// The three manufacturer letters, from the high bits down.
pub open spec fn manufacturer_text(d: Seq<u8>) -> Seq<char> {
    let w = manufacturer_word(d);
    seq![
        manufacturer_letter((w / 1024) % 32),
        manufacturer_letter((w / 32) % 32),
        manufacturer_letter(w % 32),
    ]
}

pub open spec fn product_code_of(d: Seq<u8>) -> nat {
    (d[10] as nat) + 256 * (d[11] as nat)
}

pub open spec fn serial_number_of(d: Seq<u8>) -> nat {
    (d[12] as nat) + 256 * (d[13] as nat) + 65536 * (d[14] as nat) + 16777216 * (d[15] as nat)
}

/// `info` holds exactly the fixed fields of block `d`.
pub open spec fn edid_info_matches(info: EdidInfo, d: Seq<u8>) -> bool {
    &&& info.manufacturer_id@ == manufacturer_text(d)
    &&& info.product_code as nat == product_code_of(d)
    &&& info.serial_number as nat == serial_number_of(d)
}

/// A block that the parser accepts.
pub open spec fn edid_valid(d: Seq<u8>) -> bool {
    d.len() >= 128 && edid_header_ok(d)
}

/// Parses the fixed fields of a descriptor block.
pub fn parse_edid(edid_data: &[u8]) -> (r: Result<EdidInfo, XCapError>)
    ensures
        edid_data@.len() < 128 <==> r == Err::<EdidInfo, XCapError>(XCapError::EdidTooShort),
        edid_data@.len() >= 128 && !edid_header_ok(edid_data@) <==> r == Err::<EdidInfo, XCapError>(
            XCapError::InvalidEdidHeader,
        ),
        r.is_ok() <==> edid_valid(edid_data@),
        r matches Ok(info) ==> edid_info_matches(info, edid_data@),
{
    if edid_data.len() < 128 {
        return Err(XCapError::EdidTooShort);
    }
    let mut i: usize = 1;
    let mut ff = true;
    while i < 7
        invariant
            1 <= i <= 7,
            edid_data@.len() >= 128,
            ff <==> forall|k: int| 1 <= k < i ==> edid_data@[k] == 0xFF,
        decreases 7 - i,
    {
        if edid_data[i] != 0xFF {
            ff = false;
        }
        i = i + 1;
    }
    if edid_data[0] != 0x00 || !ff || edid_data[7] != 0x00 {
        return Err(XCapError::InvalidEdidHeader);
    }
    let word: u16 = (edid_data[8] as u16) * 256 + edid_data[9] as u16;
    let mut manufacturer_id = String::new();
    push_char(&mut manufacturer_id, (((word / 1024) % 32 + 64) as u8) as char);
    push_char(&mut manufacturer_id, (((word / 32) % 32 + 64) as u8) as char);
    push_char(&mut manufacturer_id, ((word % 32 + 64) as u8) as char);
    let product_code: u16 = edid_data[10] as u16 + (edid_data[11] as u16) * 256;
    let serial_number: u32 = edid_data[12] as u32 + (edid_data[13] as u32) * 256 + (
    edid_data[14] as u32) * 65536 + (edid_data[15] as u32) * 16777216;
    proof {
        assert(manufacturer_id@ =~= manufacturer_text(edid_data@));
    }
    Ok(EdidInfo { manufacturer_id, product_code, serial_number })
}

/// A printable ASCII byte.
pub open spec fn printable(b: u8) -> bool {
    0x20 <= b <= 0x7E
}

/// The printable bytes of `s`, in order.
pub open spec fn printable_bytes(s: Seq<u8>) -> Seq<u8>
    decreases s.len(),
{
    if s.len() == 0 {
        Seq::empty()
    } else {
        let rest = printable_bytes(s.drop_last());
        if printable(s.last()) {
            rest.push(s.last())
        } else {
            rest
        }
    }
}

/// `s` without its leading spaces.
pub open spec fn trim_start(s: Seq<u8>) -> Seq<u8>
    decreases s.len(),
{
    if s.len() > 0 && s[0] == 0x20 {
        trim_start(s.drop_first())
    } else {
        s
    }
}

/// `s` without its trailing spaces.
pub open spec fn trim_end(s: Seq<u8>) -> Seq<u8>
    decreases s.len(),
{
    if s.len() > 0 && s.last() == 0x20 {
        trim_end(s.drop_last())
    } else {
        s
    }
}

/// ASCII bytes read as characters.
pub open spec fn ascii_chars(s: Seq<u8>) -> Seq<char> {
    Seq::new(s.len(), |i: int| s[i] as char)
}

/// Offset of the `i`-th of the four 18-byte descriptor blocks.
pub open spec fn block_offset(i: int) -> int {
    54 + 18 * i
}

/// Block `i` is tagged `00 00 00 FF`: it holds the serial as text.
pub open spec fn is_serial_block(d: Seq<u8>, i: int) -> bool {
    let o = block_offset(i);
    d[o] == 0 && d[o + 1] == 0 && d[o + 2] == 0 && d[o + 3] == 0xFF
}

/// The serial text of block `i`: its bytes 5 to 17, printable ones only, trimmed.
pub open spec fn block_serial_text(d: Seq<u8>, i: int) -> Seq<char> {
    let o = block_offset(i);
    ascii_chars(trim_end(trim_start(printable_bytes(d.subrange(o + 5, o + 18)))))
}

/// The first serial-tagged block from `i` on whose text is not empty.
pub open spec fn descriptor_serial_from(d: Seq<u8>, i: int) -> Option<Seq<char>>
    decreases 4 - i,
{
    if i >= 4 || i < 0 {
        None
    } else if is_serial_block(d, i) && block_serial_text(d, i).len() > 0 {
        Some(block_serial_text(d, i))
    } else {
        descriptor_serial_from(d, i + 1)
    }
}

/// The identifier that names a display by its descriptor:
/// manufacturer, product code (4 hex digits) and serial number (8 hex digits).
pub open spec fn edid_uuid_text(d: Seq<u8>) -> Seq<char> {
    manufacturer_text(d) + seq!['-'] + hex_text(product_code_of(d), 4) + seq!['-'] + hex_text(
        serial_number_of(d),
        8,
    )
}

/// The serial a valid block gives: the numeric serial when it is not zero,
/// else the first serial text of the descriptor blocks, else manufacturer and
/// product code.
pub open spec fn edid_serial_text(d: Seq<u8>) -> Seq<char> {
    if serial_number_of(d) != 0 {
        dec_text(serial_number_of(d))
    } else {
        match descriptor_serial_from(d, 0) {
            Some(t) => t,
            None => manufacturer_text(d) + seq!['-'] + hex_text(product_code_of(d), 4),
        }
    }
}

fn filter_printable(s: &[u8], from: usize, to: usize) -> (r: Vec<u8>)
    requires
        from <= to <= s@.len(),
    ensures
        r@ == printable_bytes(s@.subrange(from as int, to as int)),
{
    let mut out: Vec<u8> = Vec::new();
    let mut i: usize = from;
    assert(s@.subrange(from as int, from as int) =~= Seq::<u8>::empty());
    while i < to
        invariant
            from <= i <= to <= s@.len(),
            out@ == printable_bytes(s@.subrange(from as int, i as int)),
        decreases to - i,
    {
        proof {
            assert(s@.subrange(from as int, i + 1).drop_last() =~= s@.subrange(from as int, i as int));
        }
        if s[i] >= 0x20 && s[i] <= 0x7E {
            out.push(s[i]);
        }
        i = i + 1;
    }
    out
}

fn trimmed_text(s: &Vec<u8>) -> (r: Option<String>)
    ensures
        r matches Some(t) ==> t@ == ascii_chars(trim_end(trim_start(s@))) && t@.len() > 0,
        r is None ==> trim_end(trim_start(s@)).len() == 0,
{
    let n = s.len();
    let mut lo: usize = 0;
    assert(s@.subrange(0, n as int) =~= s@);
    while lo < n && s[lo] == 0x20
        invariant
            lo <= n == s@.len(),
            trim_start(s@) == trim_start(s@.subrange(lo as int, n as int)),
        decreases n - lo,
    {
        proof {
            assert(s@.subrange(lo as int, n as int).drop_first() =~= s@.subrange(lo + 1, n as int));
        }
        lo = lo + 1;
    }
    proof {
        assert(trim_start(s@) == s@.subrange(lo as int, n as int));
    }
    let mut hi: usize = n;
    while hi > lo && s[hi - 1] == 0x20
        invariant
            lo <= hi <= n == s@.len(),
            trim_end(s@.subrange(lo as int, n as int)) == trim_end(s@.subrange(lo as int, hi as int)),
        decreases hi,
    {
        proof {
            assert(s@.subrange(lo as int, hi as int).drop_last() =~= s@.subrange(lo as int, hi - 1));
        }
        hi = hi - 1;
    }
    if lo == hi {
        proof {
            assert(trim_end(s@.subrange(lo as int, hi as int)).len() == 0);
        }
        return None;
    }
    let mut r = String::new();
    let mut k: usize = lo;
    while k < hi
        invariant
            lo <= k <= hi <= n == s@.len(),
            r@ == ascii_chars(s@.subrange(lo as int, k as int)),
        decreases hi - k,
    {
        push_char(&mut r, s[k] as char);
        proof {
            assert(ascii_chars(s@.subrange(lo as int, k + 1)) =~= ascii_chars(
                s@.subrange(lo as int, k as int),
            ).push(s@[k as int] as char));
        }
        k = k + 1;
    }
    proof {
        assert(trim_end(s@.subrange(lo as int, hi as int)) == s@.subrange(lo as int, hi as int));
    }
    Some(r)
}

/// Scans the four descriptor blocks for the first serial-tagged one whose
/// printable, trimmed text is not empty.
pub fn descriptor_serial(edid_data: &[u8]) -> (r: Option<String>)
    requires
        edid_data@.len() >= 128,
    ensures
        r matches Some(s) ==> descriptor_serial_from(edid_data@, 0) == Some(s@),
        r is None ==> descriptor_serial_from(edid_data@, 0) is None,
{
    let mut i: usize = 0;
    while i < 4
        invariant
            i <= 4,
            edid_data@.len() >= 128,
            descriptor_serial_from(edid_data@, 0) == descriptor_serial_from(edid_data@, i as int),
        decreases 4 - i,
    {
        let offset = 54 + i * 18;
        if edid_data[offset] == 0 && edid_data[offset + 1] == 0 && edid_data[offset + 2] == 0
            && edid_data[offset + 3] == 0xFF {
            let bytes = filter_printable(edid_data, offset + 5, offset + 18);
            if let Some(text) = trimmed_text(&bytes) {
                return Some(text);
            }
        }
        i = i + 1;
    }
    None
}

} // verus!

verus! {

/// The identifier of a display whose descriptor parsed into `info`:
/// manufacturer, product code and numeric serial, dash-separated.
pub fn edid_uuid(info: &EdidInfo) -> (r: String)
    ensures
        r@ == info.manufacturer_id@ + seq!['-'] + hex_text(info.product_code as nat, 4) + seq!['-']
            + hex_text(info.serial_number as nat, 8),
{
    let mut r = info.manufacturer_id.clone();
    push_char(&mut r, '-');
    push_hex(&mut r, info.product_code as u64, 4);
    push_char(&mut r, '-');
    push_hex(&mut r, info.serial_number as u64, 8);
    r
}

/// The serial of a display whose valid descriptor `edid_data` parsed into `info`.
pub fn edid_serial(edid_data: &[u8], info: &EdidInfo) -> (r: String)
    requires
        edid_valid(edid_data@),
        edid_info_matches(*info, edid_data@),
    ensures
        r@ == edid_serial_text(edid_data@),
{
    if info.serial_number != 0 {
        let mut r = String::new();
        push_decimal(&mut r, info.serial_number as u64);
        proof {
            assert(r@ =~= dec_text(serial_number_of(edid_data@)));
        }
        return r;
    }
    match descriptor_serial(edid_data) {
        Some(text) => text,
        None => {
            let mut r = info.manufacturer_id.clone();
            push_char(&mut r, '-');
            push_hex(&mut r, info.product_code as u64, 4);
            r
        },
    }
}

} // verus!
