use vstd::prelude::*;
use vstd::string::StringExecFns;

verus! {

/// Tells whether an error arose while turning a value into its name
/// (serialization) or while rebuilding a value from a name
/// (deserialization).
#[derive(Clone, Copy, Debug, PartialEq, Eq, Structural)]
pub enum Direction {
    Serialization,
    Deserialization,
}

/// The human-readable name of a direction, as it appears in messages.
pub open spec fn direction_label(d: Direction) -> Seq<char> {
    match d {
        Direction::Serialization => "serialization"@,
        Direction::Deserialization => "deserialization"@,
    }
}

impl Direction {
    /// Render the direction for an error message.
    pub fn label(&self) -> (r: String)
        ensures
            r@ == direction_label(*self),
    {
        match self {
            Direction::Serialization => "serialization".to_owned(),
            Direction::Deserialization => "deserialization".to_owned(),
        }
    }
}

/// The taxonomy of everything that can go wrong in the codec.
#[derive(Clone, Debug, PartialEq, Eq)]
pub enum ErrorCode {
    /// A free-form message, required by the traversal framework's own
    /// error-construction contract.
    Message(String),
    /// A shape outside the name-only allow-list was handed to the codec;
    /// the string names the rejected shape.
    UnsupportedOperation(Direction, String),
    /// The input handed to a named-unit-type decode was not the declared
    /// name.
    InvalidType { unexpected: String, expected: String },
    /// The input handed to an enum decode was not an accepted variant name.
    InvalidVariantName { received: String, allowed: Vec<String> },
    /// A decode succeeded without consuming the whole input.
    TrailingCharacters,
}

/// The error type of the codec; it carries exactly one `ErrorCode`.
#[derive(Clone, Debug)]
pub struct Error {
    pub code: ErrorCode,
}

/// The candidate names of an unrecognized-variant-name message, rendered
/// as a quoted, comma-separated list.
pub open spec fn quoted_list(names: Seq<Seq<char>>) -> Seq<char>
    decreases names.len(),
{
    if names.len() == 0 {
        Seq::empty()
    } else if names.len() == 1 {
        "\""@ + names.last() + "\""@
    } else {
        quoted_list(names.drop_last()) + ", "@ + "\""@ + names.last() + "\""@
    }
}

/// The text a code renders to.
pub open spec fn error_code_message(c: ErrorCode) -> Seq<char> {
    match c {
        ErrorCode::Message(m) => m@,
        ErrorCode::UnsupportedOperation(d, t) => "unsupported operation: "@ + direction_label(d)
            + ": "@ + t@,
        ErrorCode::InvalidType { unexpected, expected } => "invalid type: "@ + unexpected@
            + ", expected "@ + expected@,
        ErrorCode::InvalidVariantName { received, allowed } => "invalid variant: "@ + received@
            + " is not a valid variant name (["@ + quoted_list(allowed.deep_view()) + "])"@,
        ErrorCode::TrailingCharacters => "trailing characters: input ends with trailing characters"@,
    }
}

/// Render `names` as the quoted, comma-separated candidate list of an
/// unrecognized-variant-name message.
fn quoted_names(names: &Vec<String>) -> (r: String)
    ensures
        r@ == quoted_list(names.deep_view()),
{
    let mut s = String::new();
    let n: usize = names.len();
    let mut i: usize = 0;
    while i < n
        invariant
            n == names@.len(),
            i <= n,
            s@ == quoted_list(names.deep_view().take(i as int)),
        decreases n - i,
    {
        if i > 0 {
            s.append(", ");
        }
        s.append("\"");
        s.append(names[i].as_str());
        s.append("\"");
        proof {
            let d = names.deep_view();
            assert(d.take(i as int + 1).drop_last() =~= d.take(i as int));
            assert(d.take(i as int + 1).last() == names@[i as int]@);
            assert(s@ =~= quoted_list(d.take(i as int + 1)));
        }
        i = i + 1;
    }
    proof {
        assert(names.deep_view().take(n as int) =~= names.deep_view());
    }
    s
}

impl ErrorCode {
    /// Render the code as the message a caller would report.
    pub fn message(&self) -> (r: String)
        ensures
            r@ == error_code_message(*self),
    {
        match self {
            ErrorCode::Message(msg) => msg.clone(),
            ErrorCode::UnsupportedOperation(d, t) => {
                let mut s = "unsupported operation: ".to_owned();
                let label = d.label();
                s.append(label.as_str());
                s.append(": ");
                s.append(t.as_str());
                s
            },
            ErrorCode::InvalidType { unexpected, expected } => {
                let mut s = "invalid type: ".to_owned();
                s.append(unexpected.as_str());
                s.append(", expected ");
                s.append(expected.as_str());
                s
            },
            ErrorCode::InvalidVariantName { received, allowed } => {
                let mut s = "invalid variant: ".to_owned();
                s.append(received.as_str());
                s.append(" is not a valid variant name ([");
                let list = quoted_names(allowed);
                s.append(list.as_str());
                s.append("])");
                s
            },
            ErrorCode::TrailingCharacters => {
                "trailing characters: input ends with trailing characters".to_owned()
            },
        }
    }
}

/// `e` reports that the shape named `op` is outside the allow-list for
/// direction `dir`.
pub open spec fn is_unsupported_op(e: Error, dir: Direction, op: Seq<char>) -> bool {
    e.code matches ErrorCode::UnsupportedOperation(d, t) && d == dir && t@ == op
}

/// `e` reports that the decoder saw `unexpected` where only the declared
/// name `expected` is accepted.
pub open spec fn is_invalid_type(e: Error, unexpected: Seq<char>, expected: Seq<char>) -> bool {
    e.code matches ErrorCode::InvalidType { unexpected: u, expected: x } && u@ == unexpected && x@
        == expected
}

/// `e` reports that `received` is not among the candidate variant names
/// `allowed`.
pub open spec fn is_invalid_variant_name(
    e: Error,
    received: Seq<char>,
    allowed: Seq<Seq<char>>,
) -> bool {
    e.code matches ErrorCode::InvalidVariantName { received: r, allowed: a } && r@ == received
        && a.deep_view() == allowed
}

/// `e` reports that a decode left part of the input unconsumed.
pub open spec fn is_trailing(e: Error) -> bool {
    e.code is TrailingCharacters
}

/// `e` carries the free-form message `msg`.
pub open spec fn is_message(e: Error, msg: Seq<char>) -> bool {
    e.code matches ErrorCode::Message(m) && m@ == msg
}

impl From<ErrorCode> for Error {
    fn from(code: ErrorCode) -> (r: Error) {
        Error { code }
    }
}

impl vstd::std_specs::convert::FromSpecImpl<ErrorCode> for Error {
    open spec fn obeys_from_spec() -> bool {
        true
    }

    open spec fn from_spec(code: ErrorCode) -> Error {
        Error { code }
    }
}

impl Error {
    /// Render the error as the message a caller would report.
    pub fn message(&self) -> (r: String)
        ensures
            r@ == error_code_message(self.code),
    {
        self.code.message()
    }

    /// Wrap a free-form message from the traversal framework.
    pub fn custom(msg: &str) -> (r: Error)
        ensures
            is_message(r, msg@),
    {
        Error { code: ErrorCode::Message(msg.to_owned()) }
    }

    /// The error for an enum decode whose input matched no acceptable
    /// variant name.
    pub fn unknown_variant(variant: &str, allowed: Vec<String>) -> (r: Error)
        ensures
            is_invalid_variant_name(r, variant@, allowed.deep_view()),
    {
        Error {
            code: ErrorCode::InvalidVariantName { received: variant.to_owned(), allowed },
        }
    }

    /// The error for a named-unit-type decode whose input was not the
    /// declared name.
    pub fn invalid_type(unexpected: &str, expected: &str) -> (r: Error)
        ensures
            is_invalid_type(r, unexpected@, expected@),
    {
        Error {
            code: ErrorCode::InvalidType {
                unexpected: unexpected.to_owned(),
                expected: expected.to_owned(),
            },
        }
    }
}

} // verus!
