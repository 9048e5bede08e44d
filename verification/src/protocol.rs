//! Framing of the monitor's HID packets and parsing of its responses.
//!
//! A read request is `0x01 "58" command "\r"`, a write request is
//! `0x01 "5b" command value "\r"`, both zero-padded to 64 bytes.

use vstd::prelude::*;

use crate::error::{Error, Result};
use crate::text::{
    all_hex, ascii_bytes, ascii_lower, chars_of, chars_start_with, concat_chars, decode_lossy,
    has_prefix, hex_char, is_hex_char, lower_char, string_of, trim_bounds, trimmed, utf8_lossy,
};

verus! {

/// Report id that opens every packet.
pub const REPORT_ID: u8 = 0x01;

/// Size in bytes of one HID report exchanged with the monitor.
pub const PACKET_SIZE: usize = 64;

/// A command: five ASCII hexadecimal characters.
pub open spec fn valid_command(cmd: Seq<char>) -> bool {
    cmd.len() == 5 && all_hex(cmd)
}

/// A value that may be written: ASCII characters other than NUL.
pub open spec fn valid_value(v: Seq<char>) -> bool {
    forall|i: int| 0 <= i < v.len() ==> '\u{1}' <= #[trigger] v[i] && v[i] <= '\u{7f}'
}

/// A value short enough that its write request fits one packet.
pub open spec fn value_fits(v: Seq<char>) -> bool {
    v.len() + 9 <= PACKET_SIZE
}

/// `s` followed by zero bytes up to the packet size.
pub open spec fn zero_pad(s: Seq<u8>) -> Seq<u8> {
    s + Seq::new((PACKET_SIZE - s.len()) as nat, |i: int| 0u8)
}

/// The meaningful bytes of a read request for `cmd`.
pub open spec fn read_frame(cmd: Seq<char>) -> Seq<u8> {
    seq![REPORT_ID, 0x35u8, 0x38u8] + ascii_bytes(cmd) + seq![0x0du8]
}

/// The meaningful bytes of a write request of `val` to `cmd`.
pub open spec fn write_frame(cmd: Seq<char>, val: Seq<char>) -> Seq<u8> {
    seq![REPORT_ID, 0x35u8, 0x62u8] + ascii_bytes(cmd) + ascii_bytes(val) + seq![0x0du8]
}

/// `b` is a request that the library sends: a read request for a valid
/// command, or a write request of a writable value to a valid command.
pub open spec fn is_request_packet(b: Seq<u8>) -> bool {
    ||| exists|c: Seq<char>| valid_command(c) && b == zero_pad(read_frame(c))
    ||| exists|c: Seq<char>, v: Seq<char>|
        valid_command(c) && valid_value(v) && value_fits(v) && b == zero_pad(write_frame(c, v))
}

/// The response without its leading report id, if it has one.
pub open spec fn strip_report_id(b: Seq<u8>) -> Seq<u8> {
    if b.len() > 0 && b[0] == REPORT_ID {
        b.drop_first()
    } else {
        b
    }
}

/// The bytes before the first NUL or carriage return.
pub open spec fn until_terminator(b: Seq<u8>) -> Seq<u8>
    decreases b.len(),
{
    if b.len() == 0 || b[0] == 0 || b[0] == 0x0d {
        Seq::empty()
    } else {
        seq![b[0]] + until_terminator(b.drop_first())
    }
}

/// The text that a response carries: its payload up to the first NUL or
/// carriage return, decoded as UTF-8 with replacements and trimmed.
pub open spec fn response_text(b: Seq<u8>) -> Seq<char> {
    trimmed(utf8_lossy(until_terminator(strip_report_id(b))))
}

/// The prefix with which a write is acknowledged.
pub open spec fn ack_prefix() -> Seq<char> {
    seq!['5', '6', '0', '0']
}

/// `t0 t1` followed by `cmd`.
pub open spec fn tagged(t0: char, t1: char, cmd: Seq<char>) -> Seq<char> {
    seq![t0, t1] + cmd
}

/// The response text starts with one of the shapes that carry a value
/// after the command: `5a`, `5A`, `5b` or `5B` followed by the command,
/// or the command alone.
pub open spec fn has_command_echo(cmd: Seq<char>, t: Seq<char>) -> bool {
    ||| has_prefix(t, tagged('5', 'a', cmd))
    ||| has_prefix(t, tagged('5', 'A', cmd))
    ||| has_prefix(t, tagged('5', 'b', cmd))
    ||| has_prefix(t, tagged('5', 'B', cmd))
    ||| has_prefix(t, cmd)
}

/// Number of bytes of the UTF-8 encoding of `c`.
pub open spec fn utf8_width(c: char) -> int {
    if (c as u32) < 0x80 {
        1
    } else if (c as u32) < 0x800 {
        2
    } else if (c as u32) < 0x10000 {
        3
    } else {
        4
    }
}

/// The UTF-8 encoding of `t` is longer than two bytes and its second byte
/// ends inside a character, so that the text cannot be cut after two bytes.
pub open spec fn cut_after_two_bytes_fails(t: Seq<char>) -> bool {
    t.len() >= 1 && (utf8_width(t[0]) >= 3 || (utf8_width(t[0]) == 1 && t.len() >= 2
        && utf8_width(t[1]) >= 2))
}

/// Reading the value out of `t` would cut the text inside a character:
/// no command echo matched and the text cannot be cut after two bytes.
pub open spec fn read_value_cut_fails(cmd: Seq<char>, t: Seq<char>) -> bool {
    !has_command_echo(cmd, t) && cut_after_two_bytes_fails(t)
}

/// The value that a response text to a read of `cmd` carries.
pub open spec fn read_value(cmd: Seq<char>, t: Seq<char>) -> Seq<char> {
    if has_prefix(t, tagged('5', 'a', cmd)) {
        t.skip(cmd.len() + 2int)
    } else if has_prefix(t, tagged('5', 'A', cmd)) {
        t.skip(cmd.len() + 2int)
    } else if has_prefix(t, tagged('5', 'b', cmd)) {
        t.skip(cmd.len() + 2int)
    } else if has_prefix(t, tagged('5', 'B', cmd)) {
        t.skip(cmd.len() + 2int)
    } else if has_prefix(t, cmd) {
        t.skip(cmd.len() as int)
    } else if t.len() >= 3 && t[0] == '5' && ascii_lower(t[1]) == 'a' {
        t.skip(2)
    } else {
        t
    }
}

/// Whether `command` is a valid command.
fn command_is_valid(command: &str) -> (r: bool)
    ensures
        r == valid_command(command@),
{
    let cs = chars_of(command);
    if cs.len() != 5 {
        return false;
    }
    let mut i: usize = 0;
    while i < 5
        invariant
            i <= 5,
            cs@.len() == 5,
            cs@ == command@,
            forall|k: int| 0 <= k < i ==> is_hex_char(#[trigger] cs@[k]),
        decreases 5 - i,
    {
        if !hex_char(cs[i]) {
            assert(!is_hex_char(command@[i as int]));
            return false;
        }
        i = i + 1;
    }
    true
}

/// The characters of `command`, or the error for an invalid command.
fn validate_command(command: &str) -> (res: Result<Vec<char>>)
    ensures
        match res {
            Ok(cs) => valid_command(command@) && cs@ == command@,
            Err(e) => !valid_command(command@) && (e matches Error::InvalidCommand(c) && c@
                == command@),
        },
{
    if command_is_valid(command) {
        Ok(chars_of(command))
    } else {
        Err(Error::InvalidCommand(command.to_owned()))
    }
}

/// The characters of `value`, or the error for a value that may not be written.
fn validate_value(value: &str) -> (res: Result<Vec<char>>)
    ensures
        match res {
            Ok(vs) => valid_value(value@) && vs@ == value@,
            Err(e) => !valid_value(value@) && (e matches Error::InvalidValue(v) && v@ == value@),
        },
{
    let vs = chars_of(value);
    let mut i: usize = 0;
    while i < vs.len()
        invariant
            i <= vs@.len(),
            vs@ == value@,
            forall|k: int| 0 <= k < i ==> '\u{1}' <= #[trigger] vs@[k] && vs@[k] <= '\u{7f}',
        decreases vs@.len() - i,
    {
        let c = vs[i];
        if !('\u{1}' <= c && c <= '\u{7f}') {
            return Err(Error::InvalidValue(value.to_owned()));
        }
        i = i + 1;
    }
    Ok(vs)
}

/// The read request for `command`.
pub fn build_read_packet(command: &str) -> (res: Result<[u8; PACKET_SIZE]>)
    ensures
        match res {
            Ok(p) => valid_command(command@) && p@ == zero_pad(read_frame(command@)),
            Err(e) => !valid_command(command@) && (e matches Error::InvalidCommand(c) && c@
                == command@),
        },
{
    let cs = validate_command(command)?;
    let mut packet = [0u8; PACKET_SIZE];
    packet[0] = REPORT_ID;
    packet[1] = 0x35;
    packet[2] = 0x38;
    let mut i: usize = 0;
    while i < 5
        invariant
            i <= 5,
            cs@.len() == 5,
            packet@.len() == PACKET_SIZE,
            packet@[0] == REPORT_ID,
            packet@[1] == 0x35,
            packet@[2] == 0x38,
            forall|k: int| 3 <= k < 3 + i ==> #[trigger] packet@[k] == cs@[k - 3] as u8,
            forall|k: int| 3 + i <= k < PACKET_SIZE ==> #[trigger] packet@[k] == 0,
        decreases 5 - i,
    {
        packet[3 + i] = cs[i] as u8;
        i = i + 1;
    }
    packet[8] = 0x0d;
    assert(packet@ =~= zero_pad(read_frame(command@)));
    Ok(packet)
}

/// The write request of `value` to `command`.
pub fn build_write_packet(command: &str, value: &str) -> (res: Result<[u8; PACKET_SIZE]>)
    ensures
        match res {
            Ok(p) => valid_command(command@) && valid_value(value@) && value_fits(value@) && p@
                == zero_pad(write_frame(command@, value@)),
            Err(e) => if !valid_command(command@) {
                e matches Error::InvalidCommand(c) && c@ == command@
            } else {
                !(valid_value(value@) && value_fits(value@)) && (e matches Error::InvalidValue(v)
                    && v@ == value@)
            },
        },
{
    let cs = validate_command(command)?;
    let vs = validate_value(value)?;
    if vs.len() > PACKET_SIZE - 9 {
        return Err(Error::InvalidValue(value.to_owned()));
    }
    let n = vs.len();
    let mut packet = [0u8; PACKET_SIZE];
    packet[0] = REPORT_ID;
    packet[1] = 0x35;
    packet[2] = 0x62;
    let mut i: usize = 0;
    while i < 5
        invariant
            i <= 5,
            cs@.len() == 5,
            packet@.len() == PACKET_SIZE,
            packet@[0] == REPORT_ID,
            packet@[1] == 0x35,
            packet@[2] == 0x62,
            forall|k: int| 3 <= k < 3 + i ==> #[trigger] packet@[k] == cs@[k - 3] as u8,
            forall|k: int| 3 + i <= k < PACKET_SIZE ==> #[trigger] packet@[k] == 0,
        decreases 5 - i,
    {
        packet[3 + i] = cs[i] as u8;
        i = i + 1;
    }
    let mut j: usize = 0;
    while j < n
        invariant
            j <= n,
            n == vs@.len(),
            n + 9 <= PACKET_SIZE,
            cs@.len() == 5,
            packet@.len() == PACKET_SIZE,
            packet@[0] == REPORT_ID,
            packet@[1] == 0x35,
            packet@[2] == 0x62,
            forall|k: int| 3 <= k < 8 ==> #[trigger] packet@[k] == cs@[k - 3] as u8,
            forall|k: int| 8 <= k < 8 + j ==> #[trigger] packet@[k] == vs@[k - 8] as u8,
            forall|k: int| 8 + j <= k < PACKET_SIZE ==> #[trigger] packet@[k] == 0,
        decreases n - j,
    {
        packet[8 + j] = vs[j] as u8;
        j = j + 1;
    }
    packet[8 + n] = 0x0d;
    assert(packet@ =~= zero_pad(write_frame(command@, value@)));
    Ok(packet)
}

pub(crate) proof fn lemma_until_terminator_take(b: Seq<u8>, i: int)
    requires
        0 <= i <= b.len(),
        forall|k: int| 0 <= k < i ==> #[trigger] b[k] != 0 && b[k] != 0x0d,
        i == b.len() || b[i] == 0 || b[i] == 0x0d,
    ensures
        until_terminator(b) == b.take(i),
    decreases i,
{
    if i == 0 {
        assert(b.take(0) =~= Seq::<u8>::empty());
    } else {
        let t = b.drop_first();
        assert forall|k: int| 0 <= k < i - 1 implies #[trigger] t[k] != 0 && t[k] != 0x0d by {
            assert(t[k] == b[k + 1]);
        }
        lemma_until_terminator_take(t, i - 1);
        assert(seq![b[0]] + t.take(i - 1) =~= b.take(i));
    }
}

/// The trimmed text of an already decoded response, or `EmptyResponse`
/// when nothing but whitespace is left.
pub fn finish_response_text(decoded: String) -> (res: Result<String>)
    ensures
        match res {
            Ok(t) => t@ == trimmed(decoded@) && t@.len() > 0,
            Err(e) => trimmed(decoded@).len() == 0 && e == Error::EmptyResponse,
        },
{
    let cs = chars_of(decoded.as_str());
    let (a, b) = trim_bounds(&cs);
    if a == b {
        return Err(Error::EmptyResponse);
    }
    Ok(string_of(&cs, a, b))
}

/// The text that a monitor response carries.
pub fn decode_response_text(bytes: &[u8]) -> (res: Result<String>)
    ensures
        match res {
            Ok(t) => t@ == response_text(bytes@) && t@.len() > 0,
            Err(e) => response_text(bytes@).len() == 0 && e == Error::EmptyResponse,
        },
{
    let start: usize = if bytes.len() > 0 && bytes[0] == REPORT_ID {
        1
    } else {
        0
    };
    let ghost payload = strip_report_id(bytes@);
    assert(payload =~= bytes@.skip(start as int));
    let mut end = start;
    while end < bytes.len()
        invariant
            start <= end <= bytes@.len(),
            forall|k: int| start <= k < end ==> #[trigger] bytes@[k] != 0 && bytes@[k] != 0x0d,
        ensures
            start <= end <= bytes@.len(),
            forall|k: int| start <= k < end ==> #[trigger] bytes@[k] != 0 && bytes@[k] != 0x0d,
            end == bytes@.len() || bytes@[end as int] == 0 || bytes@[end as int] == 0x0d,
        decreases bytes@.len() - end,
    {
        if bytes[end] == 0 || bytes[end] == 0x0d {
            break;
        }
        end = end + 1;
    }
    proof {
        assert forall|k: int| 0 <= k < end - start implies #[trigger] payload[k] != 0 && payload[k]
            != 0x0d by {
            assert(payload[k] == bytes@[k + start]);
        }
        if end < bytes@.len() {
            assert(payload[end - start] == bytes@[end as int]);
        }
        lemma_until_terminator_take(payload, end - start);
        assert(payload.take(end - start) =~= bytes@.subrange(start as int, end as int));
    }
    let text = vstd::slice::slice_subrange(bytes, start, end);
    let decoded = decode_lossy(text);
    finish_response_text(decoded)
}

/// The acknowledgement text of a response to a write.
pub fn parse_write_ack(bytes: &[u8]) -> (res: Result<String>)
    ensures
        match res {
            Ok(t) => t@ == response_text(bytes@) && t@.len() > 0 && has_prefix(t@, ack_prefix()),
            Err(e) => if response_text(bytes@).len() == 0 {
                e == Error::EmptyResponse
            } else {
                !has_prefix(response_text(bytes@), ack_prefix()) && (e matches Error::WriteRejected(
                    t,
                ) && t@ == response_text(bytes@))
            },
        },
{
    let text = decode_response_text(bytes)?;
    let cs = chars_of(text.as_str());
    let mut ack: Vec<char> = Vec::new();
    ack.push('5');
    ack.push('6');
    ack.push('0');
    ack.push('0');
    assert(ack@ =~= ack_prefix());
    if chars_start_with(&cs, &ack) {
        Ok(text)
    } else {
        Err(Error::WriteRejected(text))
    }
}

/// Number of UTF-8 bytes of `c`.
fn char_width(c: char) -> (r: usize)
    ensures
        r == utf8_width(c),
{
    let u = c as u32;
    if u < 0x80 {
        1
    } else if u < 0x800 {
        2
    } else if u < 0x10000 {
        3
    } else {
        4
    }
}

/// `t0 t1` followed by the characters `cmd`.
fn tagged_chars(t0: char, t1: char, cmd: &Vec<char>) -> (r: Vec<char>)
    ensures
        r@ == tagged(t0, t1, cmd@),
{
    let mut tag: Vec<char> = Vec::new();
    tag.push(t0);
    tag.push(t1);
    assert(tag@ =~= seq![t0, t1]);
    concat_chars(&tag, cmd)
}

/// Whether the text of a response to a read of `command` echoes the command.
fn echoes_command(cmd: &Vec<char>, t: &Vec<char>) -> (r: bool)
    ensures
        r == has_command_echo(cmd@, t@),
{
    chars_start_with(t, &tagged_chars('5', 'a', cmd)) || chars_start_with(
        t,
        &tagged_chars('5', 'A', cmd),
    ) || chars_start_with(t, &tagged_chars('5', 'b', cmd)) || chars_start_with(
        t,
        &tagged_chars('5', 'B', cmd),
    ) || chars_start_with(t, cmd)
}

/// Whether reading the value out of `text` would cut it inside a character.
pub fn read_value_would_cut_char(command: &str, text: &str) -> (r: bool)
    ensures
        r == read_value_cut_fails(command@, text@),
{
    let cmd = chars_of(command);
    let t = chars_of(text);
    if echoes_command(&cmd, &t) {
        return false;
    }
    if t.len() == 0 {
        return false;
    }
    let w0 = char_width(t[0]);
    w0 >= 3 || (w0 == 1 && t.len() >= 2 && char_width(t[1]) >= 2)
}

/// The value that the text of a response to a read of `command` carries.
pub fn read_value_from_text(command: &str, text: &str) -> (r: String)
    requires
        !read_value_cut_fails(command@, text@),
    ensures
        r@ == read_value(command@, text@),
{
    let cmd = chars_of(command);
    let t = chars_of(text);
    let n = t.len();
    let p = tagged_chars('5', 'a', &cmd);
    if chars_start_with(&t, &p) {
        assert(t@.subrange(p@.len() as int, n as int) =~= t@.skip(cmd@.len() + 2int));
        return string_of(&t, p.len(), n);
    }
    let p = tagged_chars('5', 'A', &cmd);
    if chars_start_with(&t, &p) {
        assert(t@.subrange(p@.len() as int, n as int) =~= t@.skip(cmd@.len() + 2int));
        return string_of(&t, p.len(), n);
    }
    let p = tagged_chars('5', 'b', &cmd);
    if chars_start_with(&t, &p) {
        assert(t@.subrange(p@.len() as int, n as int) =~= t@.skip(cmd@.len() + 2int));
        return string_of(&t, p.len(), n);
    }
    let p = tagged_chars('5', 'B', &cmd);
    if chars_start_with(&t, &p) {
        assert(t@.subrange(p@.len() as int, n as int) =~= t@.skip(cmd@.len() + 2int));
        return string_of(&t, p.len(), n);
    }
    if chars_start_with(&t, &cmd) {
        assert(t@.subrange(cmd@.len() as int, n as int) =~= t@.skip(cmd@.len() as int));
        return string_of(&t, cmd.len(), n);
    }
    if n >= 3 && t[0] == '5' && lower_char(t[1]) == 'a' {
        assert(t@.subrange(2, n as int) =~= t@.skip(2));
        return string_of(&t, 2, n);
    }
    assert(t@.subrange(0, n as int) =~= t@);
    string_of(&t, 0, n)
}

/// The value carried by the response `bytes` to a read of `command`.
///
/// Inputs on which the text would have to be cut inside a character are
/// excluded; `parse_read_response_checked` tests for them.
pub fn parse_read_response(command: &str, bytes: &[u8]) -> (res: Result<String>)
    requires
        valid_command(command@) && response_text(bytes@).len() > 0 ==> !read_value_cut_fails(
            command@,
            response_text(bytes@),
        ),
    ensures
        match res {
            Ok(v) => valid_command(command@) && response_text(bytes@).len() > 0 && v@
                == read_value(command@, response_text(bytes@)),
            Err(e) => if !valid_command(command@) {
                e matches Error::InvalidCommand(c) && c@ == command@
            } else {
                response_text(bytes@).len() == 0 && e == Error::EmptyResponse
            },
        },
{
    validate_command(command)?;
    let text = decode_response_text(bytes)?;
    Ok(read_value_from_text(command, text.as_str()))
}

/// `parse_read_response` where it is defined, and `None` on the responses
/// whose text it would have to cut inside a character.
pub fn parse_read_response_checked(command: &str, bytes: &[u8]) -> (res: Option<Result<String>>)
    ensures
        match res {
            None => valid_command(command@) && response_text(bytes@).len() > 0
                && read_value_cut_fails(command@, response_text(bytes@)),
            Some(Ok(v)) => valid_command(command@) && response_text(bytes@).len() > 0
                && !read_value_cut_fails(command@, response_text(bytes@)) && v@ == read_value(
                command@,
                response_text(bytes@),
            ),
            Some(Err(e)) => if !valid_command(command@) {
                e matches Error::InvalidCommand(c) && c@ == command@
            } else {
                response_text(bytes@).len() == 0 && e == Error::EmptyResponse
            },
        },
{
    if command_is_valid(command) {
        if let Ok(text) = decode_response_text(bytes) {
            if read_value_would_cut_char(command, text.as_str()) {
                return None;
            }
        }
    }
    Some(parse_read_response(command, bytes))
}

} // verus!
