use vstd::prelude::*;
use vstd::utf8::encode_utf8;

verus! {

// A feed reading is a vector of numbers. The gateway never computes with the
// numeric values: it only checks their shape and forwards their text between
// the wire and the store. A value is therefore held as its decimal text and
// admitted only when that text is a well-formed JSON number, so that the
// response codec can emit it verbatim.
/// States of the JSON-number recognizer.
#[derive(Clone, Copy, PartialEq, Eq, Structural)]
pub enum NumState {
    Start,
    Sign,
    IntZero,
    IntDigits,
    Dot,
    Frac,
    Exp,
    ExpSign,
    ExpDigits,
    Reject,
}

pub open spec fn spec_is_digit(b: u8) -> bool {
    0x30 <= b <= 0x39
}

/// One transition of the JSON-number grammar (RFC 8259 `number`).
pub open spec fn spec_num_step(st: NumState, b: u8) -> NumState {
    match st {
        NumState::Start => {
            if b == 0x2d {
                NumState::Sign
            } else if b == 0x30 {
                NumState::IntZero
            } else if 0x31 <= b <= 0x39 {
                NumState::IntDigits
            } else {
                NumState::Reject
            }
        },
        NumState::Sign => {
            if b == 0x30 {
                NumState::IntZero
            } else if 0x31 <= b <= 0x39 {
                NumState::IntDigits
            } else {
                NumState::Reject
            }
        },
        NumState::IntZero => {
            if b == 0x2e {
                NumState::Dot
            } else if b == 0x65 || b == 0x45 {
                NumState::Exp
            } else {
                NumState::Reject
            }
        },
        NumState::IntDigits => {
            if spec_is_digit(b) {
                NumState::IntDigits
            } else if b == 0x2e {
                NumState::Dot
            } else if b == 0x65 || b == 0x45 {
                NumState::Exp
            } else {
                NumState::Reject
            }
        },
        NumState::Dot => {
            if spec_is_digit(b) {
                NumState::Frac
            } else {
                NumState::Reject
            }
        },
        NumState::Frac => {
            if spec_is_digit(b) {
                NumState::Frac
            } else if b == 0x65 || b == 0x45 {
                NumState::Exp
            } else {
                NumState::Reject
            }
        },
        NumState::Exp => {
            if b == 0x2b || b == 0x2d {
                NumState::ExpSign
            } else if spec_is_digit(b) {
                NumState::ExpDigits
            } else {
                NumState::Reject
            }
        },
        NumState::ExpSign => {
            if spec_is_digit(b) {
                NumState::ExpDigits
            } else {
                NumState::Reject
            }
        },
        NumState::ExpDigits => {
            if spec_is_digit(b) {
                NumState::ExpDigits
            } else {
                NumState::Reject
            }
        },
        NumState::Reject => NumState::Reject,
    }
}

/// Runs the recognizer from state `st` over `s[i..]`.
pub open spec fn spec_num_run(st: NumState, s: Seq<u8>, i: int) -> NumState
    decreases s.len() - i,
{
    if i < 0 || i >= s.len() {
        st
    } else {
        spec_num_run(spec_num_step(st, s[i]), s, i + 1)
    }
}

pub open spec fn spec_num_accepting(st: NumState) -> bool {
    st == NumState::IntZero || st == NumState::IntDigits || st == NumState::Frac || st
        == NumState::ExpDigits
}

/// Whether `s` is a well-formed JSON number.
pub open spec fn is_json_number(s: Seq<u8>) -> bool {
    spec_num_accepting(spec_num_run(NumState::Start, s, 0))
}

fn num_step(st: NumState, b: u8) -> (r: NumState)
    ensures
        r == spec_num_step(st, b),
{
    match st {
        NumState::Start => {
            if b == 0x2d {
                NumState::Sign
            } else if b == 0x30 {
                NumState::IntZero
            } else if 0x31 <= b && b <= 0x39 {
                NumState::IntDigits
            } else {
                NumState::Reject
            }
        },
        NumState::Sign => {
            if b == 0x30 {
                NumState::IntZero
            } else if 0x31 <= b && b <= 0x39 {
                NumState::IntDigits
            } else {
                NumState::Reject
            }
        },
        NumState::IntZero => {
            if b == 0x2e {
                NumState::Dot
            } else if b == 0x65 || b == 0x45 {
                NumState::Exp
            } else {
                NumState::Reject
            }
        },
        NumState::IntDigits => {
            if 0x30 <= b && b <= 0x39 {
                NumState::IntDigits
            } else if b == 0x2e {
                NumState::Dot
            } else if b == 0x65 || b == 0x45 {
                NumState::Exp
            } else {
                NumState::Reject
            }
        },
        NumState::Dot => {
            if 0x30 <= b && b <= 0x39 {
                NumState::Frac
            } else {
                NumState::Reject
            }
        },
        NumState::Frac => {
            if 0x30 <= b && b <= 0x39 {
                NumState::Frac
            } else if b == 0x65 || b == 0x45 {
                NumState::Exp
            } else {
                NumState::Reject
            }
        },
        NumState::Exp => {
            if b == 0x2b || b == 0x2d {
                NumState::ExpSign
            } else if 0x30 <= b && b <= 0x39 {
                NumState::ExpDigits
            } else {
                NumState::Reject
            }
        },
        NumState::ExpSign => {
            if 0x30 <= b && b <= 0x39 {
                NumState::ExpDigits
            } else {
                NumState::Reject
            }
        },
        NumState::ExpDigits => {
            if 0x30 <= b && b <= 0x39 {
                NumState::ExpDigits
            } else {
                NumState::Reject
            }
        },
        NumState::Reject => NumState::Reject,
    }
}

/// Checks a byte slice against the JSON-number grammar.
pub fn check_json_number(s: &[u8]) -> (r: bool)
    ensures
        r == is_json_number(s@),
{
    let mut st = NumState::Start;
    let n = s.len();
    let mut i: usize = 0;
    while i < n
        invariant
            n == s@.len(),
            0 <= i <= n,
            spec_num_run(st, s@, i as int) == spec_num_run(NumState::Start, s@, 0),
        decreases n - i,
    {
        st = num_step(st, s[i]);
        i = i + 1;
    }
    match st {
        NumState::IntZero => true,
        NumState::IntDigits => true,
        NumState::Frac => true,
        NumState::ExpDigits => true,
        _ => false,
    }
}

/// One number of a feed reading, held as its JSON text.
pub struct FeedValue {
    text: String,
}

impl FeedValue {
    /// The well-formedness that every admitted value carries.
    #[verifier::type_invariant]
    pub closed spec fn wf(&self) -> bool {
        is_json_number(encode_utf8(self.text@))
    }

    pub closed spec fn spec_text(&self) -> Seq<char> {
        self.text@
    }

    /// Admits `text` exactly when it is a well-formed JSON number.
    pub fn new(text: String) -> (r: Option<FeedValue>)
        ensures
            r is Some <==> is_json_number(encode_utf8(text@)),
            r is Some ==> r->Some_0.spec_text() == text@,
    {
        if check_json_number(text.as_str().as_bytes()) {
            Some(FeedValue { text })
        } else {
            None
        }
    }

    /// The number's text; always a well-formed JSON number.
    pub fn as_str(&self) -> (r: &str)
        ensures
            r@ == self.spec_text(),
            is_json_number(encode_utf8(self.spec_text())),
    {
        proof {
            use_type_invariant(self);
        }
        self.text.as_str()
    }

}

/// A stored reading: a timestamped vector of values attributed to a node.
pub struct Feed {
    pub node_id: i32,
    pub time: i64,
    pub value: Vec<FeedValue>,
}

/// Body of POST /channel/ and of an MQTT publish to the ingestion topic.
pub struct FeedPayload {
    pub node_id: i32,
    pub value: Vec<FeedValue>,
}

} // verus!
