//! The failures of the operations on handles, and the texts that are handed
//! to the engine.

use vstd::prelude::*;
use vstd::string::{StringExecFns, StringSliceAdditionalSpecFns};

verus! {

/// Why an operation on a handle failed.
#[derive(Debug, Clone, Copy, PartialEq, Eq, Structural)]
pub enum Error {
    /// A text that was to be handed to the engine holds a zero byte, which
    /// would end it early; `position` is the place of the first one.
    InteriorNul { position: usize },
    /// The engine gave no configuration.
    JConfFailed,
    /// The engine gave no decoder.
    RecogFailed,
    /// The engine could not set up its audio input.
    AdinInitFailed,
    /// The engine could not open the input stream.
    StreamInput,
    /// The engine could not begin to capture from the input stream.
    StreamBegin,
    /// The engine ended the processing of a stream with this code.
    Process(i32),
}

/// The character of a decimal digit.
pub open spec fn digit_char(d: int) -> char {
    if d == 0 {
        '0'
    } else if d == 1 {
        '1'
    } else if d == 2 {
        '2'
    } else if d == 3 {
        '3'
    } else if d == 4 {
        '4'
    } else if d == 5 {
        '5'
    } else if d == 6 {
        '6'
    } else if d == 7 {
        '7'
    } else if d == 8 {
        '8'
    } else {
        '9'
    }
}

/// The decimal digits of a natural number, without leading zeros.
pub open spec fn decimal_digits(n: nat) -> Seq<char>
    decreases n,
{
    if n < 10 {
        seq![digit_char(n as int)]
    } else {
        decimal_digits(n / 10).push(digit_char((n % 10) as int))
    }
}

/// An integer in decimal, with a minus sign where it is negative.
pub open spec fn decimal(n: int) -> Seq<char> {
    if n < 0 {
        seq!['-'] + decimal_digits((-n) as nat)
    } else {
        decimal_digits(n as nat)
    }
}

fn digit_str(d: u64) -> (s: &'static str)
    requires
        d < 10,
    ensures
        s@ == seq![digit_char(d as int)],
{
    proof {
        reveal_strlit("0");
        reveal_strlit("1");
        reveal_strlit("2");
        reveal_strlit("3");
        reveal_strlit("4");
        reveal_strlit("5");
        reveal_strlit("6");
        reveal_strlit("7");
        reveal_strlit("8");
        reveal_strlit("9");
    }
    let s = if d == 0 {
        "0"
    } else if d == 1 {
        "1"
    } else if d == 2 {
        "2"
    } else if d == 3 {
        "3"
    } else if d == 4 {
        "4"
    } else if d == 5 {
        "5"
    } else if d == 6 {
        "6"
    } else if d == 7 {
        "7"
    } else if d == 8 {
        "8"
    } else {
        "9"
    };
    assert(s@ =~= seq![digit_char(d as int)]);
    s
}

fn push_digits(out: &mut String, n: u64)
    ensures
        final(out)@ == old(out)@ + decimal_digits(n as nat),
    decreases n,
{
    if n >= 10 {
        push_digits(out, n / 10);
    }
    out.append(digit_str(n % 10));
    assert(out@ =~= old(out)@ + decimal_digits(n as nat));
}

impl Error {
    /// The cause in words.
    pub open spec fn message_text(self) -> Seq<char> {
        match self {
            Error::InteriorNul { position } => "nul byte found in provided data at position: "@
                + decimal(position as int),
            Error::JConfFailed => "JConf failed"@,
            Error::RecogFailed => "Recog failed"@,
            Error::AdinInitFailed => "Failed to initialize input device"@,
            Error::StreamInput => "Error in input stream"@,
            Error::StreamBegin => "Failed to begin input stream"@,
            Error::Process(code) => decimal(code as int),
        }
    }

    /// The cause in words; for the code of a failed stream, the code in
    /// decimal.
    pub fn message(&self) -> (m: String)
        ensures
            m@ == self.message_text(),
    {
        match self {
            Error::InteriorNul { position } => {
                let mut m = String::from_str("nul byte found in provided data at position: ");
                push_digits(&mut m, *position as u64);
                m
            },
            Error::JConfFailed => String::from_str("JConf failed"),
            Error::RecogFailed => String::from_str("Recog failed"),
            Error::AdinInitFailed => String::from_str("Failed to initialize input device"),
            Error::StreamInput => String::from_str("Error in input stream"),
            Error::StreamBegin => String::from_str("Failed to begin input stream"),
            Error::Process(code) => {
                let code: i32 = *code;
                if code < 0 {
                    proof {
                        reveal_strlit("-");
                    }
                    let mut m = String::from_str("-");
                    push_digits(&mut m, (-(code as i64)) as u64);
                    m
                } else {
                    let mut m = String::new();
                    push_digits(&mut m, code as u64);
                    assert(m@ =~= decimal(code as int));
                    m
                }
            },
        }
    }
}

/// Whether no byte of `bytes` before `end` is zero.
pub open spec fn nul_free(bytes: Seq<u8>, end: int) -> bool {
    forall|j: int| 0 <= j < end ==> bytes[j] != 0
}

/// The bytes of `text` with a zero byte behind them, as the engine takes a
/// text. A text that holds a zero byte itself is refused, with the place of
/// the first one.
pub fn c_string(text: &str) -> (r: Result<Vec<u8>, Error>)
    ensures
        match r {
            Ok(v) => nul_free(text.spec_bytes(), text.spec_bytes().len() as int) && v@
                == text.spec_bytes().push(0u8),
            Err(Error::InteriorNul { position }) => {
                &&& position < text.spec_bytes().len()
                &&& text.spec_bytes()[position as int] == 0
                &&& nul_free(text.spec_bytes(), position as int)
            },
            Err(_) => false,
        },
{
    let bytes = text.as_bytes();
    let mut out: Vec<u8> = Vec::new();
    let mut i: usize = 0;
    while i < bytes.len()
        invariant
            bytes@ == text.spec_bytes(),
            i <= bytes@.len(),
            out@ == bytes@.subrange(0, i as int),
            nul_free(bytes@, i as int),
        decreases bytes@.len() - i,
    {
        if bytes[i] == 0 {
            return Err(Error::InteriorNul { position: i });
        }
        out.push(bytes[i]);
        assert(out@ =~= bytes@.subrange(0, i + 1));
        i += 1;
    }
    assert(bytes@.subrange(0, i as int) =~= bytes@);
    out.push(0);
    Ok(out)
}

} // verus!
