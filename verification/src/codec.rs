use vstd::prelude::*;
use vstd::string::StringSliceAdditionalSpecFns;
use vstd::utf8::encode_utf8;
use crate::feeds::Feed;
use crate::feeds::FeedPayload;
use crate::feeds::FeedValue;
use crate::hardwares::Hardware;
use crate::hardwares::HardwarePayload;
use crate::nodes::Node;
use crate::nodes::NodePayload;
use crate::nodes::NodeWithFeed;
use crate::response::ApiResponse;
use crate::response::Data;
use crate::users::UserDTO;

verus! {

// The response codec: serializes an outcome (message plus payload variant)
// into a wire body, writing into a caller-owned buffer that is cleared, not
// reallocated, between uses. Serialization is total for the supported
// entity types.
pub open spec fn lit(s: &str) -> Seq<u8> {
    s.spec_bytes()
}

/// Lower-case hex digit of a nibble.
pub open spec fn spec_hex_digit(v: u8) -> u8 {
    if v < 10 {
        (0x30 + v) as u8
    } else {
        (0x57 + v) as u8
    }
}

/// JSON string escaping of one byte: quote and backslash get a backslash,
/// control bytes become `\u00XX`, and every other byte (including the bytes
/// of multi-byte UTF-8 sequences) passes through unchanged.
pub open spec fn esc_byte(b: u8) -> Seq<u8> {
    if b == 0x22 {
        seq![0x5cu8, 0x22u8]
    } else if b == 0x5c {
        seq![0x5cu8, 0x5cu8]
    } else if b < 0x20 {
        seq![0x5cu8, 0x75u8, 0x30u8, 0x30u8, spec_hex_digit(b / 16), spec_hex_digit(b % 16)]
    } else {
        seq![b]
    }
}

pub open spec fn esc_bytes(s: Seq<u8>) -> Seq<u8>
    decreases s.len(),
{
    if s.len() == 0 {
        Seq::empty()
    } else {
        esc_bytes(s.drop_last()) + esc_byte(s.last())
    }
}

/// A JSON string: quoted, escaped UTF-8.
pub open spec fn json_string(sb: Seq<u8>) -> Seq<u8> {
    seq![0x22u8] + esc_bytes(sb) + seq![0x22u8]
}

/// Decimal digits of a natural number, most significant first.
pub open spec fn dec_nat(n: nat) -> Seq<u8>
    decreases n,
{
    if n < 10 {
        seq![(0x30 + n) as u8]
    } else {
        dec_nat(n / 10) + seq![(0x30 + n % 10) as u8]
    }
}

/// Decimal representation of an integer, with a leading minus when negative.
pub open spec fn dec_int(n: int) -> Seq<u8> {
    if n < 0 {
        seq![0x2du8] + dec_nat((-n) as nat)
    } else {
        dec_nat(n as nat)
    }
}

fn hex_digit(v: u8) -> (r: u8)
    requires
        v < 16,
    ensures
        r == spec_hex_digit(v),
{
    if v < 10 {
        0x30 + v
    } else {
        0x57 + v
    }
}

/// Appends the escaped bytes of `s` to `out`.
fn write_escaped(s: &str, out: &mut Vec<u8>)
    ensures
        final(out)@ == old(out)@ + esc_bytes(s.spec_bytes()),
{
    let b = s.as_bytes();
    let n = b.len();
    let mut i: usize = 0;
    while i < n
        invariant
            n == b@.len(),
            b@ == s.spec_bytes(),
            0 <= i <= n,
            out@ == old(out)@ + esc_bytes(b@.take(i as int)),
        decreases n - i,
    {
        let c = b[i];
        proof {
            assert(b@.take(i as int + 1).drop_last() =~= b@.take(i as int));
            assert(b@.take(i as int + 1).last() == b@[i as int]);
        }
        if c == 0x22 {
            out.push(0x5c);
            out.push(0x22);
        } else if c == 0x5c {
            out.push(0x5c);
            out.push(0x5c);
        } else if c < 0x20 {
            out.push(0x5c);
            out.push(0x75);
            out.push(0x30);
            out.push(0x30);
            out.push(hex_digit(c / 16));
            out.push(hex_digit(c % 16));
        } else {
            out.push(c);
        }
        i = i + 1;
        proof {
            assert(out@ =~= old(out)@ + esc_bytes(b@.take(i as int)));
        }
    }
    proof {
        assert(b@.take(n as int) =~= b@);
    }
}

/// Appends `s` as a JSON string.
pub fn write_json_string(s: &str, out: &mut Vec<u8>)
    ensures
        final(out)@ == old(out)@ + json_string(s.spec_bytes()),
{
    out.push(0x22);
    write_escaped(s, out);
    out.push(0x22);
    proof {
        assert(out@ =~= old(out)@ + json_string(s.spec_bytes()));
    }
}

/// Appends the decimal digits of `n`.
pub fn write_u64(n: u64, out: &mut Vec<u8>)
    ensures
        final(out)@ == old(out)@ + dec_nat(n as nat),
    decreases n,
{
    if n < 10 {
        out.push(0x30 + (n as u8));
    } else {
        write_u64(n / 10, out);
        out.push(0x30 + ((n % 10) as u8));
        proof {
            assert(out@ =~= old(out)@ + dec_nat(n as nat));
        }
    }
}

/// Appends the decimal representation of `n`.
pub fn write_i64(n: i64, out: &mut Vec<u8>)
    ensures
        final(out)@ == old(out)@ + dec_int(n as int),
{
    if n < 0 {
        out.push(0x2d);
        let m: u64 = (-(n as i128)) as u64;
        write_u64(m, out);
        proof {
            assert(out@ =~= old(out)@ + dec_int(n as int));
        }
    } else {
        write_u64(n as u64, out);
    }
}

pub fn write_i32(n: i32, out: &mut Vec<u8>)
    ensures
        final(out)@ == old(out)@ + dec_int(n as int),
{
    write_i64(n as i64, out);
}

pub fn write_bool(b: bool, out: &mut Vec<u8>)
    ensures
        final(out)@ == old(out)@ + (if b {
            lit("true")
        } else {
            lit("false")
        }),
{
    if b {
        let s = "true";
        out.extend_from_slice(s.as_bytes());
    } else {
        let s = "false";
        out.extend_from_slice(s.as_bytes());
    }
}

/// A value the codec can render. Implemented once per supported entity;
/// serialization is verified against the `json` view.
pub trait JsonData {
    spec fn json(&self) -> Seq<u8>;

    fn write_json(&self, out: &mut Vec<u8>)
        ensures
            final(out)@ == old(out)@ + self.json(),
    ;
}

/// The first `i` items of `s`, rendered and joined by commas.
pub open spec fn json_join<T: JsonData>(s: Seq<T>, i: int) -> Seq<u8>
    decreases i,
{
    if i <= 0 {
        Seq::empty()
    } else if i == 1 {
        s[0].json()
    } else {
        json_join(s, i - 1) + lit(",") + s[i - 1].json()
    }
}

pub open spec fn json_array<T: JsonData>(s: Seq<T>) -> Seq<u8> {
    lit("[") + json_join(s, s.len() as int) + lit("]")
}

/// Appends the items as a JSON array.
pub fn write_json_array<T: JsonData>(items: &Vec<T>, out: &mut Vec<u8>)
    ensures
        final(out)@ == old(out)@ + json_array(items@),
{
    let s = "[";
    out.extend_from_slice(s.as_bytes());
    let n = items.len();
    let mut i: usize = 0;
    while i < n
        invariant
            n == items@.len(),
            0 <= i <= n,
            out@ == old(out)@ + lit("[") + json_join(items@, i as int),
        decreases n - i,
    {
        if i > 0 {
            let c = ",";
            out.extend_from_slice(c.as_bytes());
        }
        items[i].write_json(out);
        i = i + 1;
        proof {
            assert(out@ =~= old(out)@ + lit("[") + json_join(items@, i as int));
        }
    }
    let e = "]";
    out.extend_from_slice(e.as_bytes());
    proof {
        assert(out@ =~= old(out)@ + json_array(items@));
    }
}

impl JsonData for () {
    /// The unit payload renders as JSON `null`; it never stands in a
    /// populated `data` field.
    open spec fn json(&self) -> Seq<u8> {
        lit("null")
    }

    fn write_json(&self, out: &mut Vec<u8>)
        ensures
            final(out)@ == old(out)@ + self.json(),
    {
        let s = "null";
        out.extend_from_slice(s.as_bytes());
    }
}

impl JsonData for String {
    open spec fn json(&self) -> Seq<u8> {
        json_string(encode_utf8(self@))
    }

    fn write_json(&self, out: &mut Vec<u8>)
        ensures
            final(out)@ == old(out)@ + self.json(),
    {
        write_json_string(self.as_str(), out);
    }
}

impl JsonData for FeedValue {
    /// A feed value is emitted verbatim: it is a well-formed JSON number.
    open spec fn json(&self) -> Seq<u8> {
        encode_utf8(self.spec_text())
    }

    #[verifier::rlimit(60)]
    fn write_json(&self, out: &mut Vec<u8>)
        ensures
            final(out)@ == old(out)@ + self.json(),
    {
        out.extend_from_slice(self.as_str().as_bytes());
    }
}

impl JsonData for i32 {
    open spec fn json(&self) -> Seq<u8> {
        dec_int(*self as int)
    }

    fn write_json(&self, out: &mut Vec<u8>)
        ensures
            final(out)@ == old(out)@ + self.json(),
    {
        write_i32(*self, out);
    }
}

impl JsonData for UserDTO {
    open spec fn json(&self) -> Seq<u8> {
        lit("{\"id\":") + dec_int(self.id as int) + lit(",\"username\":") + json_string(
            encode_utf8(self.username@),
        ) + lit(",\"email\":") + json_string(encode_utf8(self.email@)) + lit(",\"status\":") + (
        if self.status {
            lit("true")
        } else {
            lit("false")
        }) + lit(",\"isadmin\":") + (if self.isadmin {
            lit("true")
        } else {
            lit("false")
        }) + lit("}")
    }

    #[verifier::rlimit(60)]
    fn write_json(&self, out: &mut Vec<u8>)
        ensures
            final(out)@ == old(out)@ + self.json(),
    {
        let a = "{\"id\":";
        out.extend_from_slice(a.as_bytes());
        write_i32(self.id, out);
        let b = ",\"username\":";
        out.extend_from_slice(b.as_bytes());
        write_json_string(self.username.as_str(), out);
        let c = ",\"email\":";
        out.extend_from_slice(c.as_bytes());
        write_json_string(self.email.as_str(), out);
        let d = ",\"status\":";
        out.extend_from_slice(d.as_bytes());
        write_bool(self.status, out);
        let e = ",\"isadmin\":";
        out.extend_from_slice(e.as_bytes());
        write_bool(self.isadmin, out);
        let f = "}";
        out.extend_from_slice(f.as_bytes());
        proof {
            assert(out@ =~= old(out)@ + self.json());
        }
    }
}

impl JsonData for Hardware {
    open spec fn json(&self) -> Seq<u8> {
        lit("{\"id\":") + dec_int(self.id as int) + lit(",\"name\":") + json_string(
            encode_utf8(self.name@),
        ) + lit(",\"type_\":") + json_string(encode_utf8(self.type_@)) + lit(",\"description\":")
            + json_string(encode_utf8(self.description@)) + lit("}")
    }

    #[verifier::rlimit(60)]
    fn write_json(&self, out: &mut Vec<u8>)
        ensures
            final(out)@ == old(out)@ + self.json(),
    {
        let a = "{\"id\":";
        out.extend_from_slice(a.as_bytes());
        write_i32(self.id, out);
        let b = ",\"name\":";
        out.extend_from_slice(b.as_bytes());
        write_json_string(self.name.as_str(), out);
        let c = ",\"type_\":";
        out.extend_from_slice(c.as_bytes());
        write_json_string(self.type_.as_str(), out);
        let d = ",\"description\":";
        out.extend_from_slice(d.as_bytes());
        write_json_string(self.description.as_str(), out);
        let e = "}";
        out.extend_from_slice(e.as_bytes());
        proof {
            assert(out@ =~= old(out)@ + self.json());
        }
    }
}

impl JsonData for HardwarePayload {
    open spec fn json(&self) -> Seq<u8> {
        lit("{\"name\":") + json_string(encode_utf8(self.name@)) + lit(",\"type_\":")
            + json_string(encode_utf8(self.type_@)) + lit(",\"description\":") + json_string(
            encode_utf8(self.description@),
        ) + lit("}")
    }

    #[verifier::rlimit(60)]
    fn write_json(&self, out: &mut Vec<u8>)
        ensures
            final(out)@ == old(out)@ + self.json(),
    {
        let a = "{\"name\":";
        out.extend_from_slice(a.as_bytes());
        write_json_string(self.name.as_str(), out);
        let b = ",\"type_\":";
        out.extend_from_slice(b.as_bytes());
        write_json_string(self.type_.as_str(), out);
        let c = ",\"description\":";
        out.extend_from_slice(c.as_bytes());
        write_json_string(self.description.as_str(), out);
        let d = "}";
        out.extend_from_slice(d.as_bytes());
        proof {
            assert(out@ =~= old(out)@ + self.json());
        }
    }
}

impl JsonData for FeedPayload {
    open spec fn json(&self) -> Seq<u8> {
        lit("{\"node_id\":") + dec_int(self.node_id as int) + lit(",\"value\":") + json_array(
            self.value@,
        ) + lit("}")
    }

    fn write_json(&self, out: &mut Vec<u8>)
        ensures
            final(out)@ == old(out)@ + self.json(),
    {
        let a = "{\"node_id\":";
        out.extend_from_slice(a.as_bytes());
        write_i32(self.node_id, out);
        let b = ",\"value\":";
        out.extend_from_slice(b.as_bytes());
        write_json_array(&self.value, out);
        let c = "}";
        out.extend_from_slice(c.as_bytes());
        proof {
            assert(out@ =~= old(out)@ + self.json());
        }
    }
}

impl JsonData for Feed {
    open spec fn json(&self) -> Seq<u8> {
        lit("{\"node_id\":") + dec_int(self.node_id as int) + lit(",\"time\":") + dec_int(
            self.time as int,
        ) + lit(",\"value\":") + json_array(self.value@) + lit("}")
    }

    #[verifier::rlimit(60)]
    fn write_json(&self, out: &mut Vec<u8>)
        ensures
            final(out)@ == old(out)@ + self.json(),
    {
        let a = "{\"node_id\":";
        out.extend_from_slice(a.as_bytes());
        write_i32(self.node_id, out);
        let b = ",\"time\":";
        out.extend_from_slice(b.as_bytes());
        write_i64(self.time, out);
        let c = ",\"value\":";
        out.extend_from_slice(c.as_bytes());
        write_json_array(&self.value, out);
        let d = "}";
        out.extend_from_slice(d.as_bytes());
        proof {
            assert(out@ =~= old(out)@ + self.json());
        }
    }
}

/// The identifying half of a node's rendering, through its location.
pub open spec fn node_json_head(n: &Node) -> Seq<u8> {
    lit("{\"id\":") + dec_int(n.id as int) + lit(",\"user_id\":") + dec_int(n.user_id as int)
        + lit(",\"hardware_id\":") + dec_int(n.hardware_id as int) + lit(",\"name\":")
        + json_string(encode_utf8(n.name@)) + lit(",\"location\":") + json_string(
        encode_utf8(n.location@),
    )
}

/// The sensor and visibility half of a node's rendering.
pub open spec fn node_json_tail(n: &Node) -> Seq<u8> {
    lit(",\"hardware_sensor_ids\":") + json_array(n.hardware_sensor_ids@) + lit(
        ",\"hardware_sensor_names\":",
    ) + json_array(n.hardware_sensor_names@) + lit(",\"ispublic\":") + (if n.ispublic {
        lit("true")
    } else {
        lit("false")
    }) + lit("}")
}

impl JsonData for Node {
    open spec fn json(&self) -> Seq<u8> {
        node_json_head(self) + node_json_tail(self)
    }

    #[verifier::rlimit(60)]
    fn write_json(&self, out: &mut Vec<u8>)
        ensures
            final(out)@ == old(out)@ + self.json(),
    {
        let a = "{\"id\":";
        out.extend_from_slice(a.as_bytes());
        write_i32(self.id, out);
        let b = ",\"user_id\":";
        out.extend_from_slice(b.as_bytes());
        write_i32(self.user_id, out);
        let c = ",\"hardware_id\":";
        out.extend_from_slice(c.as_bytes());
        write_i32(self.hardware_id, out);
        let d = ",\"name\":";
        out.extend_from_slice(d.as_bytes());
        write_json_string(self.name.as_str(), out);
        let e = ",\"location\":";
        out.extend_from_slice(e.as_bytes());
        write_json_string(self.location.as_str(), out);
        proof {
            assert(out@ =~= old(out)@ + node_json_head(self));
        }
        let ghost mid: Seq<u8> = out@;
        let f = ",\"hardware_sensor_ids\":";
        out.extend_from_slice(f.as_bytes());
        write_json_array(&self.hardware_sensor_ids, out);
        let g = ",\"hardware_sensor_names\":";
        out.extend_from_slice(g.as_bytes());
        write_json_array(&self.hardware_sensor_names, out);
        let h = ",\"ispublic\":";
        out.extend_from_slice(h.as_bytes());
        write_bool(self.ispublic, out);
        let k = "}";
        out.extend_from_slice(k.as_bytes());
        proof {
            assert(out@ =~= mid + node_json_tail(self));
            assert(out@ =~= old(out)@ + self.json());
        }
    }
}

impl JsonData for NodePayload {
    open spec fn json(&self) -> Seq<u8> {
        lit("{\"hardware_id\":") + dec_int(self.hardware_id as int) + lit(",\"name\":")
            + json_string(encode_utf8(self.name@)) + lit(",\"location\":") + json_string(
            encode_utf8(self.location@),
        ) + lit(",\"hardware_sensor_ids\":") + json_array(self.hardware_sensor_ids@) + lit(
            ",\"hardware_sensor_names\":",
        ) + json_array(self.hardware_sensor_names@) + lit(",\"ispublic\":") + (if self.ispublic {
            lit("true")
        } else {
            lit("false")
        }) + lit("}")
    }

    #[verifier::rlimit(60)]
    fn write_json(&self, out: &mut Vec<u8>)
        ensures
            final(out)@ == old(out)@ + self.json(),
    {
        let a = "{\"hardware_id\":";
        out.extend_from_slice(a.as_bytes());
        write_i32(self.hardware_id, out);
        let d = ",\"name\":";
        out.extend_from_slice(d.as_bytes());
        write_json_string(self.name.as_str(), out);
        let e = ",\"location\":";
        out.extend_from_slice(e.as_bytes());
        write_json_string(self.location.as_str(), out);
        let f = ",\"hardware_sensor_ids\":";
        out.extend_from_slice(f.as_bytes());
        write_json_array(&self.hardware_sensor_ids, out);
        let g = ",\"hardware_sensor_names\":";
        out.extend_from_slice(g.as_bytes());
        write_json_array(&self.hardware_sensor_names, out);
        let h = ",\"ispublic\":";
        out.extend_from_slice(h.as_bytes());
        write_bool(self.ispublic, out);
        let k = "}";
        out.extend_from_slice(k.as_bytes());
        proof {
            assert(out@ =~= old(out)@ + self.json());
        }
    }
}

impl JsonData for NodeWithFeed {
    open spec fn json(&self) -> Seq<u8> {
        lit("{\"node\":") + self.node.json() + lit(",\"feeds\":") + json_array(self.feeds@) + lit(
            "}",
        )
    }

    #[verifier::rlimit(60)]
    fn write_json(&self, out: &mut Vec<u8>)
        ensures
            final(out)@ == old(out)@ + self.json(),
    {
        let a = "{\"node\":";
        out.extend_from_slice(a.as_bytes());
        self.node.write_json(out);
        let b = ",\"feeds\":";
        out.extend_from_slice(b.as_bytes());
        write_json_array(&self.feeds, out);
        let c = "}";
        out.extend_from_slice(c.as_bytes());
        proof {
            assert(out@ =~= old(out)@ + self.json());
        }
    }
}

/// The payload variant: one record, a collection, or JSON `null`.
pub open spec fn json_data<T: JsonData>(d: &Data<T>) -> Seq<u8> {
    match d {
        Data::Single(t) => t.json(),
        Data::Multiple(v) => json_array(v@),
        Data::Empty => lit("null"),
    }
}

pub fn write_data<T: JsonData>(d: &Data<T>, out: &mut Vec<u8>)
    ensures
        final(out)@ == old(out)@ + json_data(d),
{
    match d {
        Data::Single(t) => t.write_json(out),
        Data::Multiple(v) => write_json_array(v, out),
        Data::Empty => {
            let s = "null";
            out.extend_from_slice(s.as_bytes());
        },
    }
}

/// The whole envelope: `{"message": ..., "data": ...}`.
pub open spec fn json_response<T: JsonData>(r: &ApiResponse<'_, T>) -> Seq<u8> {
    lit("{\"message\":") + json_string(r.message.spec_bytes()) + lit(",\"data\":") + json_data(
        &r.data,
    ) + lit("}")
}

/// Renders the envelope into the worker's reusable output buffer, which is
/// cleared (not reallocated) first, and passes the status through.
pub fn serialize_response<'a, T: JsonData>(
    response: &ApiResponse<'a, T>,
    status: u16,
    out: &mut Vec<u8>,
) -> (r: u16)
    ensures
        final(out)@ == json_response(response),
        r == status,
{
    out.clear();
    let a = "{\"message\":";
    out.extend_from_slice(a.as_bytes());
    write_json_string(response.message, out);
    let b = ",\"data\":";
    out.extend_from_slice(b.as_bytes());
    write_data(&response.data, out);
    let c = "}";
    out.extend_from_slice(c.as_bytes());
    proof {
        assert(out@ =~= json_response(response));
    }
    status
}

} // verus!
