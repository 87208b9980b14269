//! Diagnostic lines, formatted and verified down to the characters.
//!
//! One line per discovered function, in the fixed shape
//! `bus.device.function: vendor vvvv, category (cc.ss.pp), header type hh`
//! with bus, device and function in decimal and the rest in lowercase
//! hexadecimal.

use vstd::prelude::*;
use crate::class_code::spec_device_type;
use crate::scan::FunctionReport;

verus! {

/// The one character a value below 16 prints as, as lowercase
/// hexadecimal (which below 10 is also its decimal digit).
pub open spec fn spec_digit(v: u8) -> Seq<char> {
    if v == 0x0 {
        "0"@
    } else if v == 0x1 {
        "1"@
    } else if v == 0x2 {
        "2"@
    } else if v == 0x3 {
        "3"@
    } else if v == 0x4 {
        "4"@
    } else if v == 0x5 {
        "5"@
    } else if v == 0x6 {
        "6"@
    } else if v == 0x7 {
        "7"@
    } else if v == 0x8 {
        "8"@
    } else if v == 0x9 {
        "9"@
    } else if v == 0xa {
        "a"@
    } else if v == 0xb {
        "b"@
    } else if v == 0xc {
        "c"@
    } else if v == 0xd {
        "d"@
    } else if v == 0xe {
        "e"@
    } else {
        "f"@
    }
}

/// A byte as two hexadecimal digits, zero-padded.
pub open spec fn spec_hex2(v: u8) -> Seq<char> {
    spec_digit(v / 16) + spec_digit(v % 16)
}

/// A 16-bit value as four hexadecimal digits, zero-padded.
pub open spec fn spec_hex4(v: u16) -> Seq<char> {
    spec_hex2((v >> 8) as u8) + spec_hex2((v & 0xff) as u8)
}

/// A byte in decimal, without padding.
pub open spec fn spec_dec_u8(v: u8) -> Seq<char> {
    if v < 10 {
        spec_digit(v)
    } else if v < 100 {
        spec_digit(v / 10) + spec_digit(v % 10)
    } else {
        spec_digit(v / 100) + spec_digit((v / 10) % 10) + spec_digit(v % 10)
    }
}

/// The diagnostic line of one discovered function.
pub open spec fn spec_report_line(r: FunctionReport) -> Seq<char> {
    spec_dec_u8(r.bus) + "."@ + spec_dec_u8(r.device) + "."@ + spec_dec_u8(r.function)
        + ": vendor "@ + spec_hex4(r.vendor_id) + ", "@ + spec_device_type(
        r.class_code.class_code,
        r.class_code.subclass,
    ) + " ("@ + spec_hex2(r.class_code.class_code) + "."@ + spec_hex2(r.class_code.subclass)
        + "."@ + spec_hex2(r.class_code.prog_if) + "), header type "@ + spec_hex2(r.header_type)
}

/// Relies on String::push_str: appends exactly the given characters to
/// the end of the string.
#[verifier::external_body]
fn push_str_part(s: &mut String, part: &str)
    ensures
        final(s)@ == old(s)@ + part@,
{
    s.push_str(part)
}

fn digit_str(v: u8) -> (r: &'static str)
    requires
        v < 16,
    ensures
        r@ == spec_digit(v),
{
    match v {
        0x0 => "0",
        0x1 => "1",
        0x2 => "2",
        0x3 => "3",
        0x4 => "4",
        0x5 => "5",
        0x6 => "6",
        0x7 => "7",
        0x8 => "8",
        0x9 => "9",
        0xa => "a",
        0xb => "b",
        0xc => "c",
        0xd => "d",
        0xe => "e",
        _ => "f",
    }
}

fn push_hex2(s: &mut String, v: u8)
    ensures
        final(s)@ == old(s)@ + spec_hex2(v),
{
    push_str_part(s, digit_str(v / 16));
    push_str_part(s, digit_str(v % 16));
    proof {
        assert(s@ =~= old(s)@ + spec_hex2(v));
    }
}

fn push_hex4(s: &mut String, v: u16)
    ensures
        final(s)@ == old(s)@ + spec_hex4(v),
{
    push_hex2(s, #[verifier::truncate] ((v >> 8) as u8));
    push_hex2(s, #[verifier::truncate] ((v & 0xff) as u8));
    proof {
        assert(s@ =~= old(s)@ + spec_hex4(v));
    }
}

fn push_dec_u8(s: &mut String, v: u8)
    ensures
        final(s)@ == old(s)@ + spec_dec_u8(v),
{
    if v < 10 {
        push_str_part(s, digit_str(v));
    } else if v < 100 {
        push_str_part(s, digit_str(v / 10));
        push_str_part(s, digit_str(v % 10));
        proof {
            assert(s@ =~= old(s)@ + spec_dec_u8(v));
        }
    } else {
        push_str_part(s, digit_str(v / 100));
        push_str_part(s, digit_str((v / 10) % 10));
        push_str_part(s, digit_str(v % 10));
        proof {
            assert(s@ =~= old(s)@ + spec_dec_u8(v));
        }
    }
}

/// Format one function's diagnostic line.
pub fn format_report_line(report: &FunctionReport) -> (r: String)
    ensures
        r@ == spec_report_line(*report),
{
    let mut line = String::new();
    push_dec_u8(&mut line, report.bus);
    push_str_part(&mut line, ".");
    push_dec_u8(&mut line, report.device);
    push_str_part(&mut line, ".");
    push_dec_u8(&mut line, report.function);
    push_str_part(&mut line, ": vendor ");
    push_hex4(&mut line, report.vendor_id);
    push_str_part(&mut line, ", ");
    push_str_part(&mut line, report.class_code.device_type_str());
    push_str_part(&mut line, " (");
    push_hex2(&mut line, report.class_code.class_code);
    push_str_part(&mut line, ".");
    push_hex2(&mut line, report.class_code.subclass);
    push_str_part(&mut line, ".");
    push_hex2(&mut line, report.class_code.prog_if);
    push_str_part(&mut line, "), header type ");
    push_hex2(&mut line, report.header_type);
    proof {
        assert(line@ =~= spec_report_line(*report));
    }
    line
}

} // verus!
