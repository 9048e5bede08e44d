//! Properties that tie the setting table, the packet format and the
//! response parser together.

use vstd::prelude::*;

use crate::protocol::{
    ack_prefix, has_command_echo, lemma_until_terminator_take, read_value, read_value_cut_fails,
    strip_report_id, tagged, until_terminator, valid_command, valid_value, value_fits,
    write_frame, zero_pad, REPORT_ID,
};
use crate::settings::{
    decoded_value, encoded_value, input_code, is_raw_value, normalized_text, position_code,
    setting_named, InputSource, PipMode, PipPosition, PipSize, Setting,
};
use crate::text::{
    ascii_bytes, ascii_upper, has_prefix, is_hex_char, is_ws, trim_end, trim_start, trimmed,
    upper_text,
};
use vstd::utf8::{decode_utf8, encode_utf8, is_ascii_chars, valid_utf8};

verus! {

/// Every setting's command is a valid command, so reading or writing a
/// setting never fails on its command.
pub proof fn lemma_setting_commands_are_valid(s: Setting)
    ensures
        valid_command(s.command_text()),
{
    reveal_strlit("00600");
    reveal_strlit("00610");
    reveal_strlit("00620");
    reveal_strlit("00630");
    reveal_strlit("00640");
    reveal_strlit("00650");
    reveal_strlit("00660");
}

/// Lower-case ASCII letters, digits and underscores only, the shape of the
/// names and codes in the setting table.
pub open spec fn is_plain_name(s: Seq<char>) -> bool {
    &&& s.len() > 0
    &&& forall|i: int|
        0 <= i < s.len() ==> ('a' <= #[trigger] s[i] && s[i] <= 'z') || ('0' <= s[i] && s[i] <= '9')
            || s[i] == '_'
}

/// A text that neither starts nor ends with whitespace is its own trimmed form.
pub proof fn lemma_trim_keeps(s: Seq<char>)
    requires
        s.len() > 0,
        !is_ws(s[0]),
        !is_ws(s.last()),
    ensures
        trimmed(s) == s,
{
    assert(trim_start(s) == s);
    assert(trim_end(s) == s);
}

/// A plain name is its own trimmed and normalized form.
pub proof fn lemma_plain_name_is_normalized(s: Seq<char>)
    requires
        is_plain_name(s),
    ensures
        trimmed(s) == s,
        normalized_text(s) == s,
{
    assert(!is_ws(s[0]));
    assert(!is_ws(s.last()));
    lemma_trim_keeps(s);
    assert(normalized_text(s) =~= s);
}

/// Every setting's name and command parse back to the setting.
pub proof fn lemma_setting_names_parse_back(s: Setting)
    ensures
        setting_named(normalized_text(s.name_text())) == Some(s),
        setting_named(normalized_text(s.command_text())) == Some(s),
{
    lemma_setting_names_chars();
    lemma_plain_name_is_normalized(s.name_text());
    lemma_plain_name_is_normalized(s.command_text());
}

/// A code as the monitor reports it: three digits or upper-case letters
/// `A` to `F`.
pub open spec fn is_upper_code(r: Seq<char>) -> bool {
    &&& r.len() == 3
    &&& forall|i: int|
        0 <= i < 3 ==> ('0' <= #[trigger] r[i] && r[i] <= '9') || ('A' <= r[i] && r[i] <= 'F')
}

/// An upper-case code is a raw value and its own upper-cased form.
proof fn lemma_upper_code_is_raw(r: Seq<char>)
    requires
        is_upper_code(r),
    ensures
        is_raw_value(r),
        upper_text(r) == r,
        trimmed(r) == r,
{
    assert(is_hex_char(r[0]) && is_hex_char(r[1]) && is_hex_char(r[2]));
    assert(upper_text(r) =~= r);
    lemma_trim_keeps(r);
}

/// Every value that a setting accepts is sent as an upper-case code.
pub proof fn lemma_encoded_values_are_codes(s: Setting, v: Seq<char>)
    requires
        encoded_value(s, v) is Some,
    ensures
        is_upper_code(encoded_value(s, v)->0),
{
    lemma_codes_chars();
    if is_raw_value(v) {
        let u = upper_text(v);
        assert forall|i: int| 0 <= i < 3 implies ('0' <= #[trigger] u[i] && u[i] <= '9') || (
        'A' <= u[i] && u[i] <= 'F') by {
            assert(is_hex_char(v[i]));
            assert(u[i] == ascii_upper(v[i]));
        }
    }
}

/// Encoding is idempotent: a code that a setting accepts is sent as itself.
pub proof fn lemma_encoding_is_idempotent(s: Setting, v: Seq<char>)
    requires
        encoded_value(s, v) is Some,
    ensures
        encoded_value(s, encoded_value(s, v)->0) == encoded_value(s, v),
{
    lemma_encoded_values_are_codes(s, v);
    lemma_upper_code_is_raw(encoded_value(s, v)->0);
}

/// Whatever a setting accepts can be written to it: the setting's command
/// and the encoded value make a valid write request.
pub proof fn lemma_encoded_values_are_writable(s: Setting, v: Seq<char>)
    requires
        encoded_value(s, v) is Some,
    ensures
        valid_command(s.command_text()),
        valid_value(encoded_value(s, v)->0),
        value_fits(encoded_value(s, v)->0),
{
    lemma_setting_commands_are_valid(s);
    lemma_encoded_values_are_codes(s, v);
}

/// Reading a setting and writing back its decoded form restores the code
/// that was read: a code decodes to a name (or stays as it is), and that
/// name encodes to the code again.
pub proof fn lemma_decoded_values_encode_back(s: Setting, raw: Seq<char>)
    requires
        is_upper_code(raw),
    ensures
        encoded_value(s, decoded_value(s, raw)) == Some(raw),
{
    lemma_upper_code_is_raw(raw);
    lemma_codes_chars();
    lemma_mode_names_chars();
    lemma_input_names_chars();
    lemma_size_names_chars();
    lemma_position_names_chars();
    let d = decoded_value(s, raw);
    if d != raw {
        assert(is_plain_name(d));
        lemma_plain_name_is_normalized(d);
        if d.len() == 3 {
            assert(!is_hex_char(d[0]));
        }
        assert(!is_raw_value(d));
    }
}

/// Each mode's code reads back as the mode's name, and the name is written
/// as that code.
pub proof fn lemma_mode_codes_round_trip(m: PipMode)
    ensures
        decoded_value(Setting::PipMode, m.code_text()) == m.name_text(),
        encoded_value(Setting::PipMode, m.name_text()) == Some(m.code_text()),
{
    lemma_codes_chars();
    lemma_mode_names_chars();
    lemma_plain_name_is_normalized(m.code_text());
    lemma_plain_name_is_normalized(m.name_text());
    assert(!is_hex_char(m.name_text()[0]));
}

/// Each input's code reads back, from the PIP or the PBP input setting, as
/// the input's name, and the name is written as that code.
pub proof fn lemma_input_codes_round_trip(i: InputSource, s: Setting)
    requires
        s == Setting::PipInput || s == Setting::PbpInput,
    ensures
        decoded_value(s, i.code_text()) == i.name_text(),
        encoded_value(s, i.name_text()) == Some(i.code_text()),
{
    lemma_codes_chars();
    lemma_input_names_chars();
    lemma_plain_name_is_normalized(i.code_text());
    lemma_plain_name_is_normalized(i.name_text());
}

/// Each size's code reads back as the size's name, and the name is written
/// as that code.
pub proof fn lemma_size_codes_round_trip(z: PipSize)
    ensures
        decoded_value(Setting::PipSize, z.code_text()) == z.name_text(),
        encoded_value(Setting::PipSize, z.name_text()) == Some(z.code_text()),
{
    lemma_codes_chars();
    lemma_size_names_chars();
    lemma_plain_name_is_normalized(z.code_text());
    lemma_plain_name_is_normalized(z.name_text());
}

/// Each position's code reads back as the position's name, and the name is
/// written as that code.
pub proof fn lemma_position_codes_round_trip(p: PipPosition)
    ensures
        decoded_value(Setting::PipPosition, p.code_text()) == p.name_text(),
        encoded_value(Setting::PipPosition, p.name_text()) == Some(p.code_text()),
{
    lemma_codes_chars();
    lemma_position_names_chars();
    lemma_plain_name_is_normalized(p.code_text());
    lemma_plain_name_is_normalized(p.name_text());
}

/// The two words of `name` around its separator at `k`, run together.
pub open spec fn words_joined(name: Seq<char>, k: int) -> Seq<char> {
    name.take(k) + name.skip(k + 1)
}

/// The two words of `name` around its separator at `k`, in the other order
/// and separated by `sep`.
pub open spec fn words_swapped(name: Seq<char>, k: int, sep: char) -> Seq<char> {
    name.skip(k + 1) + seq![sep] + name.take(k)
}

/// In a plain name, a `-` in place of an `_` reads as the `_`.
proof fn lemma_dash_reads_as_underscore(s: Seq<char>, j: int)
    requires
        is_plain_name(s),
        0 <= j < s.len(),
        s[j] == '_',
    ensures
        normalized_text(s.update(j, '-')) == s,
{
    let t = s.update(j, '-');
    assert(!is_ws(t[0]));
    assert(!is_ws(t.last()));
    lemma_trim_keeps(t);
    assert(normalized_text(t) =~= s);
}

/// A position can be named by its two words in either order, joined by `_`
/// or `-` or run together: each spelling is written as the position's own
/// code, the code of its name (`top_right`, `top-right`, `right_top` and
/// `righttop` all name the top right corner).
pub proof fn lemma_position_aliases_encode_alike(p: PipPosition, k: int)
    requires
        0 <= k < p.name_text().len(),
        p.name_text()[k] == '_',
    ensures
        encoded_value(Setting::PipPosition, p.name_text()) == Some(p.code_text()),
        encoded_value(Setting::PipPosition, words_joined(p.name_text(), k)) == Some(p.code_text()),
        encoded_value(Setting::PipPosition, words_swapped(p.name_text(), k, '_')) == Some(
            p.code_text(),
        ),
        encoded_value(Setting::PipPosition, words_swapped(p.name_text(), k, '-')) == Some(
            p.code_text(),
        ),
{
    lemma_codes_chars();
    lemma_position_names_chars();
    lemma_position_codes_round_trip(p);
    let n = p.name_text();
    let joined = words_joined(n, k);
    let swapped = words_swapped(n, k, '_');
    match p {
        PipPosition::LeftTop => {
            assert(k == 4);
            assert(joined =~= "lefttop"@);
            assert(swapped =~= "top_left"@);
        },
        PipPosition::RightTop => {
            assert(k == 5);
            assert(joined =~= "righttop"@);
            assert(swapped =~= "top_right"@);
        },
        PipPosition::LeftBottom => {
            assert(k == 4);
            assert(joined =~= "leftbottom"@);
            assert(swapped =~= "bottom_left"@);
        },
        PipPosition::RightBottom => {
            assert(k == 5);
            assert(joined =~= "rightbottom"@);
            assert(swapped =~= "bottom_right"@);
        },
    }
    lemma_plain_name_is_normalized(joined);
    lemma_plain_name_is_normalized(swapped);
    let j = n.len() - k - 1;
    assert(words_swapped(n, k, '-') =~= swapped.update(j, '-'));
    lemma_dash_reads_as_underscore(swapped, j);
    assert(!is_raw_value(joined));
    assert(!is_raw_value(swapped));
    assert(!is_raw_value(words_swapped(n, k, '-')));
}

/// Every two-word position name can be said the other way round: swapping
/// its words around the `_` names the same corner.
pub proof fn lemma_position_word_order_is_free(n: Seq<char>, k: int)
    requires
        position_code(n) is Some,
        0 <= k < n.len(),
        n[k] == '_',
    ensures
        position_code(words_swapped(n, k, '_')) == position_code(n),
{
    lemma_position_names_chars();
    let s = words_swapped(n, k, '_');
    if n == "left_top"@ {
        assert(k == 4);
        assert(s =~= "top_left"@);
    } else if n == "top_left"@ {
        assert(k == 3);
        assert(s =~= "left_top"@);
    } else if n == "right_top"@ {
        assert(k == 5);
        assert(s =~= "top_right"@);
    } else if n == "top_right"@ {
        assert(k == 3);
        assert(s =~= "right_top"@);
    } else if n == "left_bottom"@ {
        assert(k == 4);
        assert(s =~= "bottom_left"@);
    } else if n == "bottom_left"@ {
        assert(k == 6);
        assert(s =~= "left_bottom"@);
    } else if n == "right_bottom"@ {
        assert(k == 5);
        assert(s =~= "bottom_right"@);
    } else if n == "bottom_right"@ {
        assert(k == 6);
        assert(s =~= "right_bottom"@);
    } else {
        assert(n == "lefttop"@ || n == "righttop"@ || n == "leftbottom"@ || n == "rightbottom"@);
        assert(n[k] != '_');
    }
}

/// The `_` inside an input name may be left out: `hdmi_1`, `display_port`,
/// `usb_c` and `type_c` name the same inputs as `hdmi1`, `displayport`,
/// `usbc` and `typec`.
pub proof fn lemma_input_underscore_is_optional(n: Seq<char>, k: int)
    requires
        input_code(n) is Some,
        0 <= k < n.len(),
        n[k] == '_',
    ensures
        input_code(words_joined(n, k)) == input_code(n),
{
    lemma_input_names_chars();
    let j = words_joined(n, k);
    if n == "hdmi_1"@ {
        assert(k == 4);
        assert(j =~= "hdmi1"@);
    } else if n == "hdmi_2"@ {
        assert(k == 4);
        assert(j =~= "hdmi2"@);
    } else if n == "display_port"@ {
        assert(k == 7);
        assert(j =~= "displayport"@);
    } else if n == "usb_c"@ {
        assert(k == 3);
        assert(j =~= "usbc"@);
    } else if n == "type_c"@ {
        assert(k == 4);
        assert(j =~= "typec"@);
    } else {
        assert(n == "hdmi1"@ || n == "hdmi2"@ || n == "dp"@ || n == "displayport"@ || n == "usbc"@
            || n == "typec"@);
        assert(n[k] != '_');
    }
}

/// The PIP and PBP inputs take the same values, written as the same codes.
pub proof fn lemma_input_settings_share_codes(v: Seq<char>)
    ensures
        encoded_value(Setting::PipInput, v) == encoded_value(Setting::PbpInput, v),
{
}

/// The `_` inside a setting's name may be left out: `pip_mode` and
/// `pipmode` name the same setting, and so on for every two-word name.
pub proof fn lemma_setting_underscore_is_optional(n: Seq<char>, k: int)
    requires
        setting_named(n) is Some,
        0 <= k < n.len(),
        n[k] == '_',
    ensures
        setting_named(words_joined(n, k)) == setting_named(n),
{
    lemma_setting_names_chars();
    let j = words_joined(n, k);
    if n == "pip_mode"@ {
        assert(k == 3);
        assert(j =~= "pipmode"@);
    } else if n == "pip_input"@ {
        assert(k == 3);
        assert(j =~= "pipinput"@);
    } else if n == "pbp_input"@ {
        assert(k == 3);
        assert(j =~= "pbpinput"@);
    } else if n == "pip_size"@ {
        assert(k == 3);
        assert(j =~= "pipsize"@);
    } else if n == "pip_position"@ {
        assert(k == 3);
        assert(j =~= "pipposition"@);
    } else if n == "display_switch"@ {
        assert(k == 7);
        assert(j =~= "displayswitch"@);
    } else if n == "audio_switch"@ {
        assert(k == 5);
        assert(j =~= "audioswitch"@);
    } else {
        assert(n[k] != '_');
    }
}

/// A value that can come back in a reply: written characters (ASCII, no
/// NUL), no carriage return, and no whitespace at its end.
pub open spec fn is_reply_value(v: Seq<char>) -> bool {
    &&& valid_value(v)
    &&& forall|i: int| 0 <= i < v.len() ==> #[trigger] v[i] != '\r'
    &&& (v.len() > 0 ==> !is_ws(v.last()))
}

/// The bytes of a reply `0x01 '5' t1 cmd value '\r'`.
pub open spec fn reply_frame(t1: char, cmd: Seq<char>, v: Seq<char>) -> Seq<u8> {
    seq![REPORT_ID] + ascii_bytes(tagged('5', t1, cmd) + v) + seq![0x0du8]
}

/// ASCII text is valid UTF-8 and decodes to itself.
proof fn lemma_ascii_text_decodes(s: Seq<char>)
    requires
        is_ascii_chars(s),
    ensures
        encode_utf8(s) == ascii_bytes(s),
        valid_utf8(ascii_bytes(s)),
        decode_utf8(ascii_bytes(s)) == s,
{
    vstd::utf8::is_ascii_chars_encode_utf8(s);
    assert(encode_utf8(s) =~= ascii_bytes(s));
    vstd::utf8::encode_utf8_valid_utf8(s);
    vstd::utf8::encode_utf8_decode_utf8(s);
}

/// The text of a reply that echoes the command and carries `v`, and `v`
/// is what reading the value out of that text gives.
proof fn lemma_echoed_text_reads_back(t1: char, cmd: Seq<char>, v: Seq<char>, rest: Seq<u8>)
    requires
        t1 == 'a' || t1 == 'A' || t1 == 'b' || t1 == 'B',
        valid_command(cmd),
        is_reply_value(v),
    ensures
        ({
            let payload = until_terminator(ascii_bytes(tagged('5', t1, cmd) + v) + seq![0x0du8] + rest);
            &&& payload == ascii_bytes(tagged('5', t1, cmd) + v)
            &&& valid_utf8(payload)
            &&& trimmed(decode_utf8(payload)) == tagged('5', t1, cmd) + v
        }),
        has_command_echo(cmd, tagged('5', t1, cmd) + v),
        !read_value_cut_fails(cmd, tagged('5', t1, cmd) + v),
        read_value(cmd, tagged('5', t1, cmd) + v) == v,
{
    let s = tagged('5', t1, cmd) + v;
    let b = ascii_bytes(s) + seq![0x0du8] + rest;
    assert forall|i: int| 0 <= i < s.len() implies '\0' <= #[trigger] s[i] && s[i] <= '\u{7f}' by {
        if i >= 2 + cmd.len() {
            assert(s[i] == v[i - 2 - cmd.len()]);
        } else if i >= 2 {
            assert(s[i] == cmd[i - 2]);
            assert(is_hex_char(cmd[i - 2]));
        }
    }
    assert forall|k: int| 0 <= k < s.len() implies #[trigger] b[k] != 0 && b[k] != 0x0d by {
        assert(b[k] == s[k] as u8);
        if k >= 2 + cmd.len() {
            assert(s[k] == v[k - 2 - cmd.len()]);
        } else if k >= 2 {
            assert(s[k] == cmd[k - 2]);
            assert(is_hex_char(cmd[k - 2]));
        }
    }
    assert(b[s.len() as int] == 0x0d);
    lemma_until_terminator_take(b, s.len() as int);
    assert(b.take(s.len() as int) =~= ascii_bytes(s));
    lemma_ascii_text_decodes(s);
    if v.len() > 0 {
        assert(s.last() == v.last());
    } else {
        assert(s.last() == cmd[4]);
        assert(is_hex_char(cmd[4]));
    }
    lemma_trim_keeps(s);
    let p = tagged('5', t1, cmd);
    assert(s.subrange(0, p.len() as int) =~= p);
    assert(s.skip(cmd.len() + 2int) =~= v);
    if t1 != 'a' {
        assert(s[1] != tagged('5', 'a', cmd)[1]);
    }
    if t1 != 'A' {
        assert(s[1] != tagged('5', 'A', cmd)[1]);
    }
    if t1 != 'b' {
        assert(s[1] != tagged('5', 'b', cmd)[1]);
    }
}

/// A reply `0x01 "5a" cmd value "\r"` (or with `5A`, `5b` or `5B`) is valid
/// UTF-8 up to its carriage return, its text is the echo and the value, and
/// the value is what reading the reply gives back.
pub proof fn lemma_read_reply_round_trip(t1: char, cmd: Seq<char>, v: Seq<char>)
    requires
        t1 == 'a' || t1 == 'A' || t1 == 'b' || t1 == 'B',
        valid_command(cmd),
        is_reply_value(v),
    ensures
        ({
            let payload = until_terminator(strip_report_id(reply_frame(t1, cmd, v)));
            &&& valid_utf8(payload)
            &&& trimmed(decode_utf8(payload)) == tagged('5', t1, cmd) + v
            &&& !read_value_cut_fails(cmd, tagged('5', t1, cmd) + v)
            &&& read_value(cmd, tagged('5', t1, cmd) + v) == v
        }),
{
    let frame = reply_frame(t1, cmd, v);
    let s = tagged('5', t1, cmd) + v;
    assert(strip_report_id(frame) =~= ascii_bytes(s) + seq![0x0du8] + Seq::<u8>::empty());
    lemma_echoed_text_reads_back(t1, cmd, v, Seq::<u8>::empty());
}

/// A write request, read back as if it were a reply, carries exactly the
/// value written: the request packet is valid UTF-8 up to its carriage
/// return, and reading the value out of its text gives the value.
pub proof fn lemma_write_request_reads_back(cmd: Seq<char>, v: Seq<char>)
    requires
        valid_command(cmd),
        is_reply_value(v),
        value_fits(v),
    ensures
        ({
            let payload = until_terminator(strip_report_id(zero_pad(write_frame(cmd, v))));
            &&& valid_utf8(payload)
            &&& trimmed(decode_utf8(payload)) == tagged('5', 'b', cmd) + v
            &&& !read_value_cut_fails(cmd, tagged('5', 'b', cmd) + v)
            &&& read_value(cmd, tagged('5', 'b', cmd) + v) == v
        }),
{
    let s = tagged('5', 'b', cmd) + v;
    let packet = zero_pad(write_frame(cmd, v));
    let rest = Seq::new((64 - write_frame(cmd, v).len()) as nat, |i: int| 0u8);
    assert(strip_report_id(packet) =~= ascii_bytes(s) + seq![0x0du8] + rest);
    lemma_echoed_text_reads_back('b', cmd, v, rest);
}

/// An acknowledgement `0x01 "5600" rest "\r"` is valid UTF-8 up to its
/// carriage return and its text starts with the acknowledgement prefix, so
/// a write that receives it succeeds.
pub proof fn lemma_ack_reply_accepted(x: Seq<char>)
    requires
        is_reply_value(x),
    ensures
        ({
            let payload = until_terminator(
                strip_report_id(seq![REPORT_ID] + ascii_bytes(ack_prefix() + x) + seq![0x0du8]),
            );
            &&& valid_utf8(payload)
            &&& trimmed(decode_utf8(payload)) == ack_prefix() + x
            &&& has_prefix(trimmed(decode_utf8(payload)), ack_prefix())
        }),
{
    let s = ack_prefix() + x;
    let b = ascii_bytes(s) + seq![0x0du8];
    assert(strip_report_id(seq![REPORT_ID] + ascii_bytes(s) + seq![0x0du8]) =~= b);
    assert forall|i: int| 0 <= i < s.len() implies '\0' <= #[trigger] s[i] && s[i] <= '\u{7f}' by {
        if i >= 4 {
            assert(s[i] == x[i - 4]);
        }
    }
    assert forall|k: int| 0 <= k < s.len() implies #[trigger] b[k] != 0 && b[k] != 0x0d by {
        assert(b[k] == s[k] as u8);
        if k >= 4 {
            assert(s[k] == x[k - 4]);
        }
    }
    lemma_until_terminator_take(b, s.len() as int);
    assert(b.take(s.len() as int) =~= ascii_bytes(s));
    lemma_ascii_text_decodes(s);
    if x.len() > 0 {
        assert(s.last() == x.last());
    }
    lemma_trim_keeps(s);
    assert(s.subrange(0, 4) =~= ack_prefix());
}

/// The characters of the value codes.
pub proof fn lemma_codes_chars()
    ensures
        "000"@ == seq!['0', '0', '0'],
        "001"@ == seq!['0', '0', '1'],
        "002"@ == seq!['0', '0', '2'],
        "003"@ == seq!['0', '0', '3'],
        "004"@ == seq!['0', '0', '4'],
{
    reveal_strlit("000");
    reveal_strlit("001");
    reveal_strlit("002");
    reveal_strlit("003");
    reveal_strlit("004");
    assert("000"@ =~= seq!['0', '0', '0']);
    assert("001"@ =~= seq!['0', '0', '1']);
    assert("002"@ =~= seq!['0', '0', '2']);
    assert("003"@ =~= seq!['0', '0', '3']);
    assert("004"@ =~= seq!['0', '0', '4']);
}

/// The characters of the mode names.
pub proof fn lemma_mode_names_chars()
    ensures
        "off"@ == seq!['o', 'f', 'f'],
        "none"@ == seq!['n', 'o', 'n', 'e'],
        "disable"@ == seq!['d', 'i', 's', 'a', 'b', 'l', 'e'],
        "disabled"@ == seq!['d', 'i', 's', 'a', 'b', 'l', 'e', 'd'],
        "pip"@ == seq!['p', 'i', 'p'],
        "pbp"@ == seq!['p', 'b', 'p'],
{
    reveal_strlit("off");
    reveal_strlit("none");
    reveal_strlit("disable");
    reveal_strlit("disabled");
    reveal_strlit("pip");
    reveal_strlit("pbp");
    assert("off"@ =~= seq!['o', 'f', 'f']);
    assert("none"@ =~= seq!['n', 'o', 'n', 'e']);
    assert("disable"@ =~= seq!['d', 'i', 's', 'a', 'b', 'l', 'e']);
    assert("disabled"@ =~= seq!['d', 'i', 's', 'a', 'b', 'l', 'e', 'd']);
    assert("pip"@ =~= seq!['p', 'i', 'p']);
    assert("pbp"@ =~= seq!['p', 'b', 'p']);
}

/// The characters of the input names.
pub proof fn lemma_input_names_chars()
    ensures
        "hdmi1"@ == seq!['h', 'd', 'm', 'i', '1'],
        "hdmi_1"@ == seq!['h', 'd', 'm', 'i', '_', '1'],
        "hdmi2"@ == seq!['h', 'd', 'm', 'i', '2'],
        "hdmi_2"@ == seq!['h', 'd', 'm', 'i', '_', '2'],
        "dp"@ == seq!['d', 'p'],
        "displayport"@ == seq!['d', 'i', 's', 'p', 'l', 'a', 'y', 'p', 'o', 'r', 't'],
        "display_port"@ == seq!['d', 'i', 's', 'p', 'l', 'a', 'y', '_', 'p', 'o', 'r', 't'],
        "usbc"@ == seq!['u', 's', 'b', 'c'],
        "usb_c"@ == seq!['u', 's', 'b', '_', 'c'],
        "typec"@ == seq!['t', 'y', 'p', 'e', 'c'],
        "type_c"@ == seq!['t', 'y', 'p', 'e', '_', 'c'],
{
    reveal_strlit("hdmi1");
    reveal_strlit("hdmi_1");
    reveal_strlit("hdmi2");
    reveal_strlit("hdmi_2");
    reveal_strlit("dp");
    reveal_strlit("displayport");
    reveal_strlit("display_port");
    reveal_strlit("usbc");
    reveal_strlit("usb_c");
    reveal_strlit("typec");
    reveal_strlit("type_c");
    assert("hdmi1"@ =~= seq!['h', 'd', 'm', 'i', '1']);
    assert("hdmi_1"@ =~= seq!['h', 'd', 'm', 'i', '_', '1']);
    assert("hdmi2"@ =~= seq!['h', 'd', 'm', 'i', '2']);
    assert("hdmi_2"@ =~= seq!['h', 'd', 'm', 'i', '_', '2']);
    assert("dp"@ =~= seq!['d', 'p']);
    assert("displayport"@ =~= seq!['d', 'i', 's', 'p', 'l', 'a', 'y', 'p', 'o', 'r', 't']);
    assert("display_port"@ =~= seq!['d', 'i', 's', 'p', 'l', 'a', 'y', '_', 'p', 'o', 'r', 't']);
    assert("usbc"@ =~= seq!['u', 's', 'b', 'c']);
    assert("usb_c"@ =~= seq!['u', 's', 'b', '_', 'c']);
    assert("typec"@ =~= seq!['t', 'y', 'p', 'e', 'c']);
    assert("type_c"@ =~= seq!['t', 'y', 'p', 'e', '_', 'c']);
}

/// The characters of the size names.
pub proof fn lemma_size_names_chars()
    ensures
        "small"@ == seq!['s', 'm', 'a', 'l', 'l'],
        "medium"@ == seq!['m', 'e', 'd', 'i', 'u', 'm'],
        "mid"@ == seq!['m', 'i', 'd'],
        "large"@ == seq!['l', 'a', 'r', 'g', 'e'],
{
    reveal_strlit("small");
    reveal_strlit("medium");
    reveal_strlit("mid");
    reveal_strlit("large");
    assert("small"@ =~= seq!['s', 'm', 'a', 'l', 'l']);
    assert("medium"@ =~= seq!['m', 'e', 'd', 'i', 'u', 'm']);
    assert("mid"@ =~= seq!['m', 'i', 'd']);
    assert("large"@ =~= seq!['l', 'a', 'r', 'g', 'e']);
}

/// The characters of the position names.
pub proof fn lemma_position_names_chars()
    ensures
        "lefttop"@ == seq!['l', 'e', 'f', 't', 't', 'o', 'p'],
        "left_top"@ == seq!['l', 'e', 'f', 't', '_', 't', 'o', 'p'],
        "top_left"@ == seq!['t', 'o', 'p', '_', 'l', 'e', 'f', 't'],
        "righttop"@ == seq!['r', 'i', 'g', 'h', 't', 't', 'o', 'p'],
        "right_top"@ == seq!['r', 'i', 'g', 'h', 't', '_', 't', 'o', 'p'],
        "top_right"@ == seq!['t', 'o', 'p', '_', 'r', 'i', 'g', 'h', 't'],
        "leftbottom"@ == seq!['l', 'e', 'f', 't', 'b', 'o', 't', 't', 'o', 'm'],
        "left_bottom"@ == seq!['l', 'e', 'f', 't', '_', 'b', 'o', 't', 't', 'o', 'm'],
        "bottom_left"@ == seq!['b', 'o', 't', 't', 'o', 'm', '_', 'l', 'e', 'f', 't'],
        "rightbottom"@ == seq!['r', 'i', 'g', 'h', 't', 'b', 'o', 't', 't', 'o', 'm'],
        "right_bottom"@ == seq!['r', 'i', 'g', 'h', 't', '_', 'b', 'o', 't', 't', 'o', 'm'],
        "bottom_right"@ == seq!['b', 'o', 't', 't', 'o', 'm', '_', 'r', 'i', 'g', 'h', 't'],
{
    reveal_strlit("lefttop");
    reveal_strlit("left_top");
    reveal_strlit("top_left");
    reveal_strlit("righttop");
    reveal_strlit("right_top");
    reveal_strlit("top_right");
    reveal_strlit("leftbottom");
    reveal_strlit("left_bottom");
    reveal_strlit("bottom_left");
    reveal_strlit("rightbottom");
    reveal_strlit("right_bottom");
    reveal_strlit("bottom_right");
    assert("lefttop"@ =~= seq!['l', 'e', 'f', 't', 't', 'o', 'p']);
    assert("left_top"@ =~= seq!['l', 'e', 'f', 't', '_', 't', 'o', 'p']);
    assert("top_left"@ =~= seq!['t', 'o', 'p', '_', 'l', 'e', 'f', 't']);
    assert("righttop"@ =~= seq!['r', 'i', 'g', 'h', 't', 't', 'o', 'p']);
    assert("right_top"@ =~= seq!['r', 'i', 'g', 'h', 't', '_', 't', 'o', 'p']);
    assert("top_right"@ =~= seq!['t', 'o', 'p', '_', 'r', 'i', 'g', 'h', 't']);
    assert("leftbottom"@ =~= seq!['l', 'e', 'f', 't', 'b', 'o', 't', 't', 'o', 'm']);
    assert("left_bottom"@ =~= seq!['l', 'e', 'f', 't', '_', 'b', 'o', 't', 't', 'o', 'm']);
    assert("bottom_left"@ =~= seq!['b', 'o', 't', 't', 'o', 'm', '_', 'l', 'e', 'f', 't']);
    assert("rightbottom"@ =~= seq!['r', 'i', 'g', 'h', 't', 'b', 'o', 't', 't', 'o', 'm']);
    assert("right_bottom"@ =~= seq!['r', 'i', 'g', 'h', 't', '_', 'b', 'o', 't', 't', 'o', 'm']);
    assert("bottom_right"@ =~= seq!['b', 'o', 't', 't', 'o', 'm', '_', 'r', 'i', 'g', 'h', 't']);
}

/// The characters of the switch trigger names.
pub proof fn lemma_switch_names_chars()
    ensures
        "1"@ == seq!['1'],
        "on"@ == seq!['o', 'n'],
        "true"@ == seq!['t', 'r', 'u', 'e'],
        "trigger"@ == seq!['t', 'r', 'i', 'g', 'g', 'e', 'r'],
        "swap"@ == seq!['s', 'w', 'a', 'p'],
{
    reveal_strlit("1");
    reveal_strlit("on");
    reveal_strlit("true");
    reveal_strlit("trigger");
    reveal_strlit("swap");
    assert("1"@ =~= seq!['1']);
    assert("on"@ =~= seq!['o', 'n']);
    assert("true"@ =~= seq!['t', 'r', 'u', 'e']);
    assert("trigger"@ =~= seq!['t', 'r', 'i', 'g', 'g', 'e', 'r']);
    assert("swap"@ =~= seq!['s', 'w', 'a', 'p']);
}

/// The characters of the setting names and commands.
pub proof fn lemma_setting_names_chars()
    ensures
        "pipmode"@ == seq!['p', 'i', 'p', 'm', 'o', 'd', 'e'],
        "pip_mode"@ == seq!['p', 'i', 'p', '_', 'm', 'o', 'd', 'e'],
        "mode"@ == seq!['m', 'o', 'd', 'e'],
        "00600"@ == seq!['0', '0', '6', '0', '0'],
        "pipinput"@ == seq!['p', 'i', 'p', 'i', 'n', 'p', 'u', 't'],
        "pip_input"@ == seq!['p', 'i', 'p', '_', 'i', 'n', 'p', 'u', 't'],
        "input"@ == seq!['i', 'n', 'p', 'u', 't'],
        "00610"@ == seq!['0', '0', '6', '1', '0'],
        "pbpinput"@ == seq!['p', 'b', 'p', 'i', 'n', 'p', 'u', 't'],
        "pbp_input"@ == seq!['p', 'b', 'p', '_', 'i', 'n', 'p', 'u', 't'],
        "00620"@ == seq!['0', '0', '6', '2', '0'],
        "pipsize"@ == seq!['p', 'i', 'p', 's', 'i', 'z', 'e'],
        "pip_size"@ == seq!['p', 'i', 'p', '_', 's', 'i', 'z', 'e'],
        "size"@ == seq!['s', 'i', 'z', 'e'],
        "00630"@ == seq!['0', '0', '6', '3', '0'],
        "pipposition"@ == seq!['p', 'i', 'p', 'p', 'o', 's', 'i', 't', 'i', 'o', 'n'],
        "pip_position"@ == seq!['p', 'i', 'p', '_', 'p', 'o', 's', 'i', 't', 'i', 'o', 'n'],
        "position"@ == seq!['p', 'o', 's', 'i', 't', 'i', 'o', 'n'],
        "00640"@ == seq!['0', '0', '6', '4', '0'],
        "displayswitch"@ == seq!['d', 'i', 's', 'p', 'l', 'a', 'y', 's', 'w', 'i', 't', 'c', 'h'],
        "display_switch"@ == seq!['d', 'i', 's', 'p', 'l', 'a', 'y', '_', 's', 'w', 'i', 't', 'c', 'h'],
        "swap"@ == seq!['s', 'w', 'a', 'p'],
        "00650"@ == seq!['0', '0', '6', '5', '0'],
        "audioswitch"@ == seq!['a', 'u', 'd', 'i', 'o', 's', 'w', 'i', 't', 'c', 'h'],
        "audio_switch"@ == seq!['a', 'u', 'd', 'i', 'o', '_', 's', 'w', 'i', 't', 'c', 'h'],
        "00660"@ == seq!['0', '0', '6', '6', '0'],
{
    reveal_strlit("pipmode");
    reveal_strlit("pip_mode");
    reveal_strlit("mode");
    reveal_strlit("00600");
    reveal_strlit("pipinput");
    reveal_strlit("pip_input");
    reveal_strlit("input");
    reveal_strlit("00610");
    reveal_strlit("pbpinput");
    reveal_strlit("pbp_input");
    reveal_strlit("00620");
    reveal_strlit("pipsize");
    reveal_strlit("pip_size");
    reveal_strlit("size");
    reveal_strlit("00630");
    reveal_strlit("pipposition");
    reveal_strlit("pip_position");
    reveal_strlit("position");
    reveal_strlit("00640");
    reveal_strlit("displayswitch");
    reveal_strlit("display_switch");
    reveal_strlit("swap");
    reveal_strlit("00650");
    reveal_strlit("audioswitch");
    reveal_strlit("audio_switch");
    reveal_strlit("00660");
    assert("pipmode"@ =~= seq!['p', 'i', 'p', 'm', 'o', 'd', 'e']);
    assert("pip_mode"@ =~= seq!['p', 'i', 'p', '_', 'm', 'o', 'd', 'e']);
    assert("mode"@ =~= seq!['m', 'o', 'd', 'e']);
    assert("00600"@ =~= seq!['0', '0', '6', '0', '0']);
    assert("pipinput"@ =~= seq!['p', 'i', 'p', 'i', 'n', 'p', 'u', 't']);
    assert("pip_input"@ =~= seq!['p', 'i', 'p', '_', 'i', 'n', 'p', 'u', 't']);
    assert("input"@ =~= seq!['i', 'n', 'p', 'u', 't']);
    assert("00610"@ =~= seq!['0', '0', '6', '1', '0']);
    assert("pbpinput"@ =~= seq!['p', 'b', 'p', 'i', 'n', 'p', 'u', 't']);
    assert("pbp_input"@ =~= seq!['p', 'b', 'p', '_', 'i', 'n', 'p', 'u', 't']);
    assert("00620"@ =~= seq!['0', '0', '6', '2', '0']);
    assert("pipsize"@ =~= seq!['p', 'i', 'p', 's', 'i', 'z', 'e']);
    assert("pip_size"@ =~= seq!['p', 'i', 'p', '_', 's', 'i', 'z', 'e']);
    assert("size"@ =~= seq!['s', 'i', 'z', 'e']);
    assert("00630"@ =~= seq!['0', '0', '6', '3', '0']);
    assert("pipposition"@ =~= seq!['p', 'i', 'p', 'p', 'o', 's', 'i', 't', 'i', 'o', 'n']);
    assert("pip_position"@ =~= seq!['p', 'i', 'p', '_', 'p', 'o', 's', 'i', 't', 'i', 'o', 'n']);
    assert("position"@ =~= seq!['p', 'o', 's', 'i', 't', 'i', 'o', 'n']);
    assert("00640"@ =~= seq!['0', '0', '6', '4', '0']);
    assert("displayswitch"@ =~= seq!['d', 'i', 's', 'p', 'l', 'a', 'y', 's', 'w', 'i', 't', 'c', 'h']);
    assert("display_switch"@ =~= seq!['d', 'i', 's', 'p', 'l', 'a', 'y', '_', 's', 'w', 'i', 't', 'c', 'h']);
    assert("swap"@ =~= seq!['s', 'w', 'a', 'p']);
    assert("00650"@ =~= seq!['0', '0', '6', '5', '0']);
    assert("audioswitch"@ =~= seq!['a', 'u', 'd', 'i', 'o', 's', 'w', 'i', 't', 'c', 'h']);
    assert("audio_switch"@ =~= seq!['a', 'u', 'd', 'i', 'o', '_', 's', 'w', 'i', 't', 'c', 'h']);
    assert("00660"@ =~= seq!['0', '0', '6', '6', '0']);
}

} // verus!
