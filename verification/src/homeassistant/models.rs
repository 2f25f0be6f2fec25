//! The discovery payload shapes and their JSON wire encoding.
//!
//! The discovery message published to Home Assistant is UTF-8 JSON. The
//! encoder here is the library's own: `spec_config_json` defines the exact
//! byte-for-byte wire form, and `ConfigMessage::to_json` is proved to
//! produce it.

use vstd::prelude::*;
use crate::date::Date;

verus! {

/// A state value as typed data: a countable amount, or an expiry rendered
/// from a date at a fixed UTC offset (in seconds).
#[derive(Clone, Copy, Debug)]
pub enum StateMessage {
    Amount(i64),
    Expiration { date: Date, offset_seconds: i32 },
}

/// The device block of a discovery payload: groups all sensors of this
/// integration under one Home Assistant device.
pub struct Device {
    pub identifiers: Vec<&'static str>,
    pub name: &'static str,
}

/// A Home Assistant MQTT discovery payload for one sensor entity.
pub struct ConfigMessage {
    pub name: String,
    pub device_class: Option<String>,
    pub state_topic: String,
    pub unique_id: String,
    pub object_id: String,
    pub device: Device,
}

/// The hexadecimal digit character for a value in 0..=15, lowercase.
pub open spec fn spec_hex_digit(d: int) -> char {
    if d < 10 {
        crate::render::spec_digit_char(d)
    } else if d == 10 {
        'a'
    } else if d == 11 {
        'b'
    } else if d == 12 {
        'c'
    } else if d == 13 {
        'd'
    } else if d == 14 {
        'e'
    } else {
        'f'
    }
}

/// The JSON escaping of one character inside a string literal: quote and
/// backslash get a backslash escape, control characters a `\u00XX` escape,
/// everything else stands as itself.
pub open spec fn spec_json_escape_char(c: char) -> Seq<char> {
    if c == '"' {
        seq!['\\', '"']
    } else if c == '\\' {
        seq!['\\', '\\']
    } else if (c as int) < 32 {
        seq!['\\', 'u', '0', '0', spec_hex_digit(c as int / 16), spec_hex_digit(c as int % 16)]
    } else {
        seq![c]
    }
}

/// The JSON escaping of a whole string body.
pub open spec fn spec_json_escape(s: Seq<char>) -> Seq<char>
    decreases s.len(),
{
    if s.len() == 0 {
        Seq::empty()
    } else {
        spec_json_escape(s.drop_last()) + spec_json_escape_char(s.last())
    }
}

fn hex_digit(d: u32) -> (r: char)
    requires
        d < 16,
    ensures
        r == spec_hex_digit(d as int),
{
    match d {
        0 => '0',
        1 => '1',
        2 => '2',
        3 => '3',
        4 => '4',
        5 => '5',
        6 => '6',
        7 => '7',
        8 => '8',
        9 => '9',
        10 => 'a',
        11 => 'b',
        12 => 'c',
        13 => 'd',
        14 => 'e',
        _ => 'f',
    }
}

/// Escapes a string body for inclusion inside a JSON string literal.
pub fn json_escape(s: &str) -> (r: String)
    ensures
        r@ == spec_json_escape(s@),
{
    let n = s.unicode_len();
    let mut out = String::new();
    let mut i: usize = 0;
    while i < n
        invariant
            n == s@.len(),
            i <= n,
            out@ == spec_json_escape(s@.take(i as int)),
        decreases n - i,
    {
        let c = s.get_char(i);
        if c == '"' {
            out.push('\\');
            out.push('"');
        } else if c == '\\' {
            out.push('\\');
            out.push('\\');
        } else if (c as u32) < 32 {
            let v = c as u32;
            out.push('\\');
            out.push('u');
            out.push('0');
            out.push('0');
            out.push(hex_digit(v / 16));
            out.push(hex_digit(v % 16));
        } else {
            out.push(c);
        }
        proof {
            assert(s@.take(i + 1).drop_last() =~= s@.take(i as int));
            assert(s@.take(i + 1).last() == s@[i as int]);
            assert(out@ =~= spec_json_escape(s@.take(i + 1)));
        }
        i = i + 1;
    }
    proof {
        assert(s@.take(n as int) =~= s@);
    }
    out
}

/// The JSON rendering of a list of strings, comma-separated, each quoted
/// and escaped; the brackets around it belong to the caller.
pub open spec fn spec_string_list_json(ss: Seq<&str>) -> Seq<char>
    decreases ss.len(),
{
    if ss.len() == 0 {
        Seq::empty()
    } else if ss.len() == 1 {
        "\""@ + spec_json_escape(ss[0]@) + "\""@
    } else {
        spec_string_list_json(ss.drop_last()) + ",\""@ + spec_json_escape(ss.last()@) + "\""@
    }
}

/// The JSON rendering of the `device_class` field's value: a quoted string,
/// or `null` where the product kind has no device class.
pub open spec fn spec_device_class_json(dc: Option<String>) -> Seq<char> {
    match dc {
        Some(c) => "\""@ + spec_json_escape(c@) + "\""@,
        None => "null"@,
    }
}

/// The exact wire form of a discovery payload: one JSON object with the
/// fields in fixed order.
pub open spec fn spec_config_json(m: ConfigMessage) -> Seq<char> {
    "{\"name\":\""@ + spec_json_escape(m.name@) + "\",\"device_class\":"@ + spec_device_class_json(
        m.device_class,
    ) + ",\"state_topic\":\""@ + spec_json_escape(m.state_topic@) + "\",\"unique_id\":\""@
        + spec_json_escape(m.unique_id@) + "\",\"object_id\":\""@ + spec_json_escape(m.object_id@)
        + "\",\"device\":{\"identifiers\":["@ + spec_string_list_json(m.device.identifiers@)
        + "],\"name\":\""@ + spec_json_escape(m.device.name@) + "\"}}"@
}

fn string_list_json(ids: &Vec<&'static str>) -> (r: String)
    ensures
        r@ == spec_string_list_json(ids@),
{
    let mut out = String::new();
    let mut i: usize = 0;
    while i < ids.len()
        invariant
            i <= ids@.len(),
            out@ == spec_string_list_json(ids@.take(i as int)),
        decreases ids@.len() - i,
    {
        if i > 0 {
            out.append(",\"");
        } else {
            out.append("\"");
        }
        let e = json_escape(ids[i]);
        out.append(e.as_str());
        out.append("\"");
        proof {
            assert(ids@.take(i + 1).drop_last() =~= ids@.take(i as int));
            assert(ids@.take(i + 1).last() == ids@[i as int]);
            assert(out@ =~= spec_string_list_json(ids@.take(i + 1)));
        }
        i = i + 1;
    }
    proof {
        assert(ids@.take(ids@.len() as int) =~= ids@);
    }
    out
}

impl ConfigMessage {
    /// Encodes the payload as its JSON wire form.
    pub fn to_json(&self) -> (r: String)
        ensures
            r@ == spec_config_json(*self),
    {
        let mut out = String::from_str("{\"name\":\"");
        let name = json_escape(self.name.as_str());
        out.append(name.as_str());
        out.append("\",\"device_class\":");
        match &self.device_class {
            Some(c) => {
                out.append("\"");
                let dc = json_escape(c.as_str());
                out.append(dc.as_str());
                out.append("\"");
            },
            None => {
                out.append("null");
            },
        }
        out.append(",\"state_topic\":\"");
        let st = json_escape(self.state_topic.as_str());
        out.append(st.as_str());
        out.append("\",\"unique_id\":\"");
        let uid = json_escape(self.unique_id.as_str());
        out.append(uid.as_str());
        out.append("\",\"object_id\":\"");
        let oid = json_escape(self.object_id.as_str());
        out.append(oid.as_str());
        out.append("\",\"device\":{\"identifiers\":[");
        let ids = string_list_json(&self.device.identifiers);
        out.append(ids.as_str());
        out.append("],\"name\":\"");
        let dn = json_escape(self.device.name);
        out.append(dn.as_str());
        out.append("\"}}");
        proof {
            assert(out@ =~= spec_config_json(*self));
        }
        out
    }
}

} // verus!
