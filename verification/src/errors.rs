//! The launcher's error taxonomy and its mapping to FFI error codes.
//!
//! Every failure the launcher can surface is one variant of [`LauncherError`].
//! A foreign caller receives only a signed integer, so the type carries a
//! total, injective conversion into a numeric window reserved for the
//! launcher, placed one stride below the windows of the subsystems it builds
//! on.  Failures wrapped from those subsystems keep their own codes verbatim.

use vstd::prelude::*;
use vstd::string::StringExecFns;

verus! {

/// The Debug form of a string: quoted and escaped.  It depends on the
/// characters alone; contracts carry the name through without assuming
/// anything about its value.
pub uninterp spec fn string_debug_of(text: Seq<char>) -> Seq<char>;

/// Relies on the Debug formatting of str, which writes the text quoted and
/// escaped — a function of the characters alone, and never empty (the two
/// quotes always appear).
#[verifier::external_body]
fn string_debug_text(text: &str) -> (debug_text: String)
    ensures
        debug_text@ == string_debug_of(text@),
        debug_text@.len() > 0,
{
    format!("{:?}", text)
}

/// Relies on the Debug formatting of std::io::Error for the payload's
/// diagnostic text; it always writes at least the error's kind, so the text
/// is never empty.
#[verifier::external_body]
fn io_error_debug_text(error: &std::io::Error) -> (text: String)
    ensures
        text@.len() > 0,
{
    format!("{:?}", error)
}

/// Relies on the derived Debug formatting of
/// rustc_serialize::json::ParserError for the payload's diagnostic text; it
/// always writes at least the variant's name, so the text is never empty.
#[verifier::external_body]
fn parser_error_debug_text(error: &rustc_serialize::json::ParserError) -> (text: String)
    ensures
        text@.len() > 0,
{
    format!("{:?}", error)
}

/// Relies on the derived Debug formatting of
/// rustc_serialize::json::EncoderError for the payload's diagnostic text; it
/// always writes at least the variant's name, so the text is never empty.
#[verifier::external_body]
fn encoder_error_debug_text(error: &rustc_serialize::json::EncoderError) -> (text: String)
    ensures
        text@.len() > 0,
{
    format!("{:?}", error)
}

/// A sequence is a prefix of itself followed by anything.
proof fn lemma_prefix_of_concat(head: Seq<char>, tail: Seq<char>)
    ensures
        head.is_prefix_of(head + tail),
{
    assert((head + tail).subrange(0, head.len() as int) =~= head);
}

/// A sequence is a prefix of itself followed by any two pieces.
proof fn lemma_prefix_of_concat2(head: Seq<char>, mid: Seq<char>, tail: Seq<char>)
    ensures
        head.is_prefix_of(head + mid + tail),
{
    assert((head + mid + tail).subrange(0, head.len() as int) =~= head);
}

/// A prefix of a prefix of a sequence is a prefix of that sequence.
proof fn lemma_prefix_transitive(x: Seq<char>, y: Seq<char>, whole: Seq<char>)
    requires
        x.is_prefix_of(y),
        y.is_prefix_of(whole),
    ensures
        x.is_prefix_of(whole),
{
    assert forall|i: int| 0 <= i < x.len() implies x[i] == whole.subrange(
        0,
        x.len() as int,
    )[i] by {
        assert(x[i] == y.subrange(0, x.len() as int)[i]);
        assert(y[i] == whole.subrange(0, y.len() as int)[i]);
    }
    assert(x =~= whole.subrange(0, x.len() as int));
}

/// Two prefixes of one sequence agree wherever both are defined.
proof fn lemma_common_prefixes_agree(whole: Seq<char>, x: Seq<char>, y: Seq<char>, i: int)
    requires
        x.is_prefix_of(whole),
        y.is_prefix_of(whole),
        0 <= i < x.len(),
        0 <= i < y.len(),
    ensures
        x[i] == y[i],
{
    assert(x[i] == whole.subrange(0, x.len() as int)[i]);
    assert(y[i] == whole.subrange(0, y.len() as int)[i]);
}

/// Sequences that disagree at one position are different.
proof fn lemma_differ_at(x: Seq<char>, y: Seq<char>, i: int)
    requires
        0 <= i < x.len(),
        0 <= i < y.len(),
        x[i] != y[i],
    ensures
        x != y,
{
    if x == y {
        assert(x[i] == y[i]);
    }
}

/// Number of codes each layer of the stack reserves below the layer above it.
pub const ERROR_RANGE_STRIDE: i32 = 500;

/// Base of the code window published by the client subsystem, the deepest
/// layer of the stack.
pub const CLIENT_ERROR_START_RANGE: i32 = -1;

/// Base of the code window reserved by the network file-system subsystem:
/// one stride below the client subsystem's window.
pub const NFS_ERROR_START_RANGE: i32 = CLIENT_ERROR_START_RANGE - ERROR_RANGE_STRIDE;

/// Base of the code window reserved by the name-service subsystem: one
/// stride below the file-system subsystem's window.
pub const DNS_ERROR_START_RANGE: i32 = NFS_ERROR_START_RANGE - ERROR_RANGE_STRIDE;

/// Intended for converting Launcher Errors into numeric codes for propagating
/// some error information across FFI boundaries and specially to C.  One
/// stride below the name-service subsystem's window, so the launcher's own
/// codes can never collide with the codes of the layers beneath it.
pub const LAUNCHER_ERROR_START_RANGE: i32 = DNS_ERROR_START_RANGE - ERROR_RANGE_STRIDE;

/// What the launcher reads of a failure reported by the client subsystem:
/// the code that subsystem publishes for it, and its diagnostic text.
pub struct CoreError {
    /// The code the client subsystem assigns to this failure.
    pub code: i32,
    /// The client subsystem's diagnostic text for this failure.
    pub description: String,
}

impl CoreError {
    /// The client subsystem's published code table stops fifteen entries
    /// below its base.
    pub open spec fn is_valid(self) -> bool {
        CLIENT_ERROR_START_RANGE - 15 <= self.code <= CLIENT_ERROR_START_RANGE
    }

    /// The client subsystem's own conversion of this failure to its code.
    pub fn error_code(&self) -> (code: i32)
        ensures
            code == self.code,
    {
        self.code
    }
}

/// What the launcher reads of a failure reported by the network file-system
/// subsystem: its published code and its diagnostic text.
pub struct NfsError {
    /// The code the file-system subsystem assigns to this failure.  The
    /// subsystem delegates wrapped client failures, so client codes appear
    /// here too.
    pub code: i32,
    /// The file-system subsystem's diagnostic text for this failure.
    pub description: String,
}

impl NfsError {
    /// The file-system subsystem's own entries stop nine below its base;
    /// delegated codes reach up into the client subsystem's window.
    pub open spec fn is_valid(self) -> bool {
        NFS_ERROR_START_RANGE - 9 <= self.code <= CLIENT_ERROR_START_RANGE
    }

    /// The file-system subsystem's own conversion of this failure to its code.
    pub fn error_code(&self) -> (code: i32)
        ensures
            code == self.code,
    {
        self.code
    }
}

/// What the launcher reads of a failure reported by the name-service
/// subsystem: its published code and its diagnostic text.
pub struct DnsError {
    /// The code the name-service subsystem assigns to this failure.  The
    /// subsystem delegates wrapped client and file-system failures, so their
    /// codes appear here too.
    pub code: i32,
    /// The name-service subsystem's diagnostic text for this failure.
    pub description: String,
}

impl DnsError {
    /// The name-service subsystem's own entries stop five below its base;
    /// delegated codes reach up into the windows of the layers above.
    pub open spec fn is_valid(self) -> bool {
        DNS_ERROR_START_RANGE - 5 <= self.code <= CLIENT_ERROR_START_RANGE
    }

    /// The name-service subsystem's own conversion of this failure to its code.
    pub fn error_code(&self) -> (code: i32)
        ensures
            code == self.code,
    {
        self.code
    }
}

/// The failure type of the structured-data parser, carried opaquely.
#[verifier::external_type_specification]
#[verifier::external_body]
pub struct ExParserError(rustc_serialize::json::ParserError);

/// The failure type of the structured-data encoder, carried opaquely.
#[verifier::external_type_specification]
#[verifier::external_body]
pub struct ExEncoderError(rustc_serialize::json::EncoderError);

/// The standard I/O failure type, carried opaquely.
#[verifier::external_type_specification]
#[verifier::external_body]
pub struct ExIoError(std::io::Error);

/// Launcher Errors
pub enum LauncherError {
    /// Error from the client subsystem.  Boxed to hold a pointer instead of a
    /// value so that this enum variant is not insanely bigger than others.
    CoreError(Box<CoreError>),
    /// Errors from the name-service subsystem
    DnsError(Box<DnsError>),
    /// Errors from the network file-system subsystem
    NfsError(Box<NfsError>),
    /// Ipc Listener could not be bound to an endpoint
    IpcListenerCouldNotBeBound,
    /// The Ipc Listener has errored out.  New apps will no longer be able to
    /// connect to Launcher
    IpcListenerAborted(std::io::Error),
    /// The Ipc Stream could not be cloned
    IpcStreamCloneError(std::io::Error),
    /// mpsc receiver has hung up
    ReceiverChannelDisconnected,
    /// IpcSession has been terminated due to either graceful shutdown or some
    /// error as indicated
    IpcSessionTerminated(Option<std::io::Error>),
    /// Could not read the payload size from stream
    FailedReadingStreamPayloadSize,
    /// Could not write the payload size to stream
    FailedWritingStreamPayloadSize,
    /// Could not parse payload as valid JSON
    JsonParseError(rustc_serialize::json::ParserError),
    /// JSON non-conforming to the expected request schema
    SpecificParseError(String),
    /// Unable to find/traverse directory or file path
    PathNotFound,
    /// Supplied path was invalid
    InvalidPath,
    /// Permission denied - e.g. permission to access SAFEDrive etc.
    PermissionDenied,
    /// Error encoding into Json String
    JsonEncodeError(rustc_serialize::json::EncoderError),
    /// Unexpected - Probably a Logic error
    Unexpected(String),
}

impl LauncherError {
    /// True of the variants that wrap another subsystem's complete failure.
    pub open spec fn is_wrapped(self) -> bool {
        self matches LauncherError::CoreError(_) || self matches LauncherError::DnsError(_)
            || self matches LauncherError::NfsError(_)
    }

    /// Declaration-order index of the variant; two values get the same index
    /// exactly when they are of the same variant.
    pub open spec fn variant_id(self) -> int {
        match self {
            LauncherError::CoreError(_) => 0,
            LauncherError::DnsError(_) => 1,
            LauncherError::NfsError(_) => 2,
            LauncherError::IpcListenerCouldNotBeBound => 3,
            LauncherError::IpcListenerAborted(_) => 4,
            LauncherError::IpcStreamCloneError(_) => 5,
            LauncherError::ReceiverChannelDisconnected => 6,
            LauncherError::IpcSessionTerminated(_) => 7,
            LauncherError::FailedReadingStreamPayloadSize => 8,
            LauncherError::FailedWritingStreamPayloadSize => 9,
            LauncherError::JsonParseError(_) => 10,
            LauncherError::SpecificParseError(_) => 11,
            LauncherError::PathNotFound => 12,
            LauncherError::InvalidPath => 13,
            LauncherError::PermissionDenied => 14,
            LauncherError::JsonEncodeError(_) => 15,
            LauncherError::Unexpected(_) => 16,
        }
    }

    /// A wrapped failure carries a code from its own subsystem's window.
    pub open spec fn is_valid(self) -> bool {
        match self {
            LauncherError::CoreError(error) => error.is_valid(),
            LauncherError::DnsError(error) => error.is_valid(),
            LauncherError::NfsError(error) => error.is_valid(),
            _ => true,
        }
    }

    /// The code each value maps to: wrapped failures surface their own
    /// subsystem's code verbatim; every other variant owns one fixed slot in
    /// the launcher's reserved window, assigned in declaration order.
    pub open spec fn code_spec(self) -> int {
        match self {
            LauncherError::CoreError(error) => error.code as int,
            LauncherError::DnsError(error) => error.code as int,
            LauncherError::NfsError(error) => error.code as int,
            LauncherError::IpcListenerCouldNotBeBound => LAUNCHER_ERROR_START_RANGE - 1,
            LauncherError::IpcListenerAborted(_) => LAUNCHER_ERROR_START_RANGE - 2,
            LauncherError::IpcStreamCloneError(_) => LAUNCHER_ERROR_START_RANGE - 3,
            LauncherError::ReceiverChannelDisconnected => LAUNCHER_ERROR_START_RANGE - 4,
            LauncherError::IpcSessionTerminated(_) => LAUNCHER_ERROR_START_RANGE - 5,
            LauncherError::FailedReadingStreamPayloadSize => LAUNCHER_ERROR_START_RANGE - 6,
            LauncherError::FailedWritingStreamPayloadSize => LAUNCHER_ERROR_START_RANGE - 7,
            LauncherError::JsonParseError(_) => LAUNCHER_ERROR_START_RANGE - 8,
            LauncherError::SpecificParseError(_) => LAUNCHER_ERROR_START_RANGE - 9,
            LauncherError::PathNotFound => LAUNCHER_ERROR_START_RANGE - 10,
            LauncherError::InvalidPath => LAUNCHER_ERROR_START_RANGE - 11,
            LauncherError::PermissionDenied => LAUNCHER_ERROR_START_RANGE - 12,
            LauncherError::JsonEncodeError(_) => LAUNCHER_ERROR_START_RANGE - 13,
            LauncherError::Unexpected(_) => LAUNCHER_ERROR_START_RANGE - 14,
        }
    }

    /// Convert a failure into the single signed code handed across the FFI
    /// boundary.  Total: every variant maps to exactly the code given by
    /// [`Self::code_spec`], and the conversion cannot fail.
    pub fn error_code(self) -> (code: i32)
        ensures
            code == self.code_spec(),
    {
        match self {
            LauncherError::CoreError(error) => error.error_code(),
            LauncherError::DnsError(error) => error.error_code(),
            LauncherError::NfsError(error) => error.error_code(),
            LauncherError::IpcListenerCouldNotBeBound => LAUNCHER_ERROR_START_RANGE - 1,
            LauncherError::IpcListenerAborted(_) => LAUNCHER_ERROR_START_RANGE - 2,
            LauncherError::IpcStreamCloneError(_) => LAUNCHER_ERROR_START_RANGE - 3,
            LauncherError::ReceiverChannelDisconnected => LAUNCHER_ERROR_START_RANGE - 4,
            LauncherError::IpcSessionTerminated(_) => LAUNCHER_ERROR_START_RANGE - 5,
            LauncherError::FailedReadingStreamPayloadSize => LAUNCHER_ERROR_START_RANGE - 6,
            LauncherError::FailedWritingStreamPayloadSize => LAUNCHER_ERROR_START_RANGE - 7,
            LauncherError::JsonParseError(_) => LAUNCHER_ERROR_START_RANGE - 8,
            LauncherError::SpecificParseError(_) => LAUNCHER_ERROR_START_RANGE - 9,
            LauncherError::PathNotFound => LAUNCHER_ERROR_START_RANGE - 10,
            LauncherError::InvalidPath => LAUNCHER_ERROR_START_RANGE - 11,
            LauncherError::PermissionDenied => LAUNCHER_ERROR_START_RANGE - 12,
            LauncherError::JsonEncodeError(_) => LAUNCHER_ERROR_START_RANGE - 13,
            LauncherError::Unexpected(_) => LAUNCHER_ERROR_START_RANGE - 14,
        }
    }

    /// Wrap a client-subsystem failure, moving it into heap storage.
    pub fn from_core_error(error: CoreError) -> (converted: LauncherError)
        ensures
            converted == LauncherError::CoreError(Box::new(error)),
    {
        LauncherError::CoreError(Box::new(error))
    }

    /// Wrap a name-service-subsystem failure, moving it into heap storage.
    pub fn from_dns_error(error: DnsError) -> (converted: LauncherError)
        ensures
            converted == LauncherError::DnsError(Box::new(error)),
    {
        LauncherError::DnsError(Box::new(error))
    }

    /// Wrap a file-system-subsystem failure, moving it into heap storage.
    pub fn from_nfs_error(error: NfsError) -> (converted: LauncherError)
        ensures
            converted == LauncherError::NfsError(Box::new(error)),
    {
        LauncherError::NfsError(Box::new(error))
    }

    /// Classify descriptive text, of any content, as an unexpected failure.
    pub fn from_description(error: &str) -> (converted: LauncherError)
        ensures
            converted matches LauncherError::Unexpected(text) && text@ == error@,
    {
        LauncherError::Unexpected(error.to_owned())
    }

    /// Classify a parser failure, of any content, as a parse error.
    pub fn from_parse_error(error: rustc_serialize::json::ParserError) -> (converted: LauncherError)
        ensures
            converted == LauncherError::JsonParseError(error),
    {
        LauncherError::JsonParseError(error)
    }

    /// The head of the variant's diagnostic text: its name, followed by a
    /// separator where a payload's own text is appended after it.
    pub open spec fn tag_spec(self) -> Seq<char> {
        match self {
            LauncherError::CoreError(_) => "LauncherError::CoreError -> "@,
            LauncherError::DnsError(_) => "LauncherError::DnsError -> "@,
            LauncherError::NfsError(_) => "LauncherError::NfsError -> "@,
            LauncherError::IpcListenerCouldNotBeBound => "LauncherError::IpcListenerCouldNotBeBound"@,
            LauncherError::IpcListenerAborted(_) => "LauncherError::IpcListenerAborted -> "@,
            LauncherError::IpcStreamCloneError(_) => "LauncherError::IpcStreamCloneError -> "@,
            LauncherError::ReceiverChannelDisconnected => "LauncherError::ReceiverChannelDisconnected"@,
            LauncherError::IpcSessionTerminated(_) => "LauncherError::IpcSessionTerminated -> "@,
            LauncherError::FailedReadingStreamPayloadSize => "LauncherError::FailedReadingStreamPayloadSize"@,
            LauncherError::FailedWritingStreamPayloadSize => "LauncherError::FailedWritingStreamPayloadSize"@,
            LauncherError::JsonParseError(_) => "LauncherError::JsonParseError -> "@,
            LauncherError::SpecificParseError(_) => "LauncherError::SpecificParseError -> "@,
            LauncherError::PathNotFound => "LauncherError::PathNotFound"@,
            LauncherError::InvalidPath => "LauncherError::InvalidPath"@,
            LauncherError::PermissionDenied => "LauncherError::PermissionDenied"@,
            LauncherError::JsonEncodeError(_) => "LauncherError::JsonEncodeError -> "@,
            LauncherError::Unexpected(_) => "LauncherError::Unexpected{"@,
        }
    }

    /// How each variant's diagnostic text is built from its tag.  Wrapped
    /// subsystem payloads contribute the diagnostic text this crate holds of
    /// them; string payloads appear in their Debug form, quoted and escaped;
    /// payloads carried opaquely contribute non-empty text this crate does
    /// not pin down, so only the tag in front of them is stated.
    pub open spec fn describes(self, text: Seq<char>) -> bool {
        match self {
            LauncherError::CoreError(error) => text == self.tag_spec() + error.description@,
            LauncherError::DnsError(error) => text == self.tag_spec() + error.description@,
            LauncherError::NfsError(error) => text == self.tag_spec() + error.description@,
            LauncherError::IpcListenerCouldNotBeBound => text == self.tag_spec(),
            LauncherError::IpcListenerAborted(_) => self.tag_spec().is_prefix_of(text)
                && self.tag_spec().len() < text.len(),
            LauncherError::IpcStreamCloneError(_) => self.tag_spec().is_prefix_of(text)
                && self.tag_spec().len() < text.len(),
            LauncherError::ReceiverChannelDisconnected => text == self.tag_spec(),
            LauncherError::IpcSessionTerminated(cause) => match cause {
                Option::Some(_) => ("LauncherError::IpcSessionTerminated -> Some("@).is_prefix_of(
                    text,
                ),
                Option::None => text == self.tag_spec() + "None"@,
            },
            LauncherError::FailedReadingStreamPayloadSize => text == self.tag_spec(),
            LauncherError::FailedWritingStreamPayloadSize => text == self.tag_spec(),
            LauncherError::JsonParseError(_) => self.tag_spec().is_prefix_of(text)
                && self.tag_spec().len() < text.len(),
            LauncherError::SpecificParseError(detail) => text == self.tag_spec()
                + string_debug_of(detail@),
            LauncherError::PathNotFound => text == self.tag_spec(),
            LauncherError::InvalidPath => text == self.tag_spec(),
            LauncherError::PermissionDenied => text == self.tag_spec(),
            LauncherError::JsonEncodeError(_) => self.tag_spec().is_prefix_of(text)
                && self.tag_spec().len() < text.len(),
            LauncherError::Unexpected(detail) => text == self.tag_spec() + string_debug_of(detail@)
                + "}"@,
        }
    }

    /// Diagnostic text for the failure: the variant's name and, where a
    /// payload is carried, the payload's own diagnostic text after it.
    pub fn description(&self) -> (text: String)
        ensures
            self.describes(text@),
    {
        match self {
            LauncherError::CoreError(error) => "LauncherError::CoreError -> ".to_owned().concat(
                error.description.as_str(),
            ),
            LauncherError::DnsError(error) => "LauncherError::DnsError -> ".to_owned().concat(
                error.description.as_str(),
            ),
            LauncherError::NfsError(error) => "LauncherError::NfsError -> ".to_owned().concat(
                error.description.as_str(),
            ),
            LauncherError::IpcListenerCouldNotBeBound => "LauncherError::IpcListenerCouldNotBeBound".to_owned(),
            LauncherError::IpcListenerAborted(error) => {
                let payload = io_error_debug_text(error);
                let text = "LauncherError::IpcListenerAborted -> ".to_owned().concat(payload.as_str());
                proof {
                    lemma_prefix_of_concat("LauncherError::IpcListenerAborted -> "@, payload@);
                }
                text
            },
            LauncherError::IpcStreamCloneError(error) => {
                let payload = io_error_debug_text(error);
                let text = "LauncherError::IpcStreamCloneError -> ".to_owned().concat(payload.as_str());
                proof {
                    lemma_prefix_of_concat("LauncherError::IpcStreamCloneError -> "@, payload@);
                }
                text
            },
            LauncherError::ReceiverChannelDisconnected => "LauncherError::ReceiverChannelDisconnected".to_owned(),
            LauncherError::IpcSessionTerminated(cause) => match cause {
                Option::Some(error) => {
                    let payload = io_error_debug_text(error);
                    let text = "LauncherError::IpcSessionTerminated -> Some(".to_owned().concat(
                        payload.as_str(),
                    ).concat(")");
                    proof {
                        lemma_prefix_of_concat2(
                            "LauncherError::IpcSessionTerminated -> Some("@,
                            payload@,
                            ")"@,
                        );
                    }
                    text
                },
                Option::None => "LauncherError::IpcSessionTerminated -> ".to_owned().concat("None"),
            },
            LauncherError::FailedReadingStreamPayloadSize => "LauncherError::FailedReadingStreamPayloadSize".to_owned(),
            LauncherError::FailedWritingStreamPayloadSize => "LauncherError::FailedWritingStreamPayloadSize".to_owned(),
            LauncherError::JsonParseError(error) => {
                let payload = parser_error_debug_text(error);
                let text = "LauncherError::JsonParseError -> ".to_owned().concat(payload.as_str());
                proof {
                    lemma_prefix_of_concat("LauncherError::JsonParseError -> "@, payload@);
                }
                text
            },
            LauncherError::SpecificParseError(detail) => "LauncherError::SpecificParseError -> ".to_owned().concat(
                string_debug_text(detail.as_str()).as_str(),
            ),
            LauncherError::PathNotFound => "LauncherError::PathNotFound".to_owned(),
            LauncherError::InvalidPath => "LauncherError::InvalidPath".to_owned(),
            LauncherError::PermissionDenied => "LauncherError::PermissionDenied".to_owned(),
            LauncherError::JsonEncodeError(error) => {
                let payload = encoder_error_debug_text(error);
                let text = "LauncherError::JsonEncodeError -> ".to_owned().concat(payload.as_str());
                proof {
                    lemma_prefix_of_concat("LauncherError::JsonEncodeError -> "@, payload@);
                }
                text
            },
            LauncherError::Unexpected(detail) => "LauncherError::Unexpected{".to_owned().concat(
                string_debug_text(detail.as_str()).as_str(),
            ).concat("}"),
        }
    }
}

/// Law: the mapping from the launcher's own variants into codes is
/// injective — two values of different non-wrapped variants never share a
/// code.
pub proof fn lemma_own_codes_injective(a: LauncherError, b: LauncherError)
    ensures
        !a.is_wrapped() && !b.is_wrapped() && a.variant_id() != b.variant_id() ==> a.code_spec()
            != b.code_spec(),
{
}

/// Law: the code of a non-wrapped variant depends on the variant alone — two
/// values of the same variant always map to the same code.
pub proof fn lemma_own_code_stable(a: LauncherError, b: LauncherError)
    ensures
        !a.is_wrapped() && a.variant_id() == b.variant_id() ==> a.code_spec() == b.code_spec(),
{
}

/// Law: a wrapped subsystem failure surfaces that subsystem's own code
/// verbatim — conversion delegates without translation.
pub proof fn lemma_wrapped_code_delegates(error: LauncherError)
    ensures
        error matches LauncherError::CoreError(cause) ==> error.code_spec() == cause.code,
        error matches LauncherError::DnsError(cause) ==> error.code_spec() == cause.code,
        error matches LauncherError::NfsError(cause) ==> error.code_spec() == cause.code,
{
}

/// Law: each layer's base stands exactly one stride below the base of the
/// layer it depends on, down to the launcher's own reserved window.
pub proof fn lemma_reserved_base_derivation()
    ensures
        LAUNCHER_ERROR_START_RANGE == DNS_ERROR_START_RANGE - ERROR_RANGE_STRIDE,
        DNS_ERROR_START_RANGE == NFS_ERROR_START_RANGE - ERROR_RANGE_STRIDE,
        NFS_ERROR_START_RANGE == CLIENT_ERROR_START_RANGE - ERROR_RANGE_STRIDE,
{
}

/// Law: every code the launcher assigns to one of its own variants lies
/// strictly inside the launcher's reserved window, below its base.
pub proof fn lemma_own_codes_in_reserved_window(error: LauncherError)
    ensures
        !error.is_wrapped() ==> LAUNCHER_ERROR_START_RANGE - 14 <= error.code_spec()
            <= LAUNCHER_ERROR_START_RANGE - 1,
{
}

/// Law: every code handed across the FFI boundary is strictly negative, so
/// it can never be mistaken for a success indication.
pub proof fn lemma_codes_negative(error: LauncherError)
    ensures
        error.is_valid() ==> error.code_spec() < 0,
{
}

/// Law: the layered windows are disjoint — a wrapped failure whose code lies
/// in its own subsystem's window never collides with a code of one of the
/// launcher's own variants.
pub proof fn lemma_layering_no_collision(a: LauncherError, b: LauncherError)
    ensures
        a.is_wrapped() && a.is_valid() && !b.is_wrapped() ==> a.code_spec() != b.code_spec(),
{
}

/// Law: every diagnostic text begins with the tag of the variant it was
/// produced for.
pub proof fn lemma_description_tagged(error: LauncherError, text: Seq<char>)
    requires
        error.describes(text),
    ensures
        error.tag_spec().is_prefix_of(text),
{
    match error {
        LauncherError::CoreError(cause) => {
            lemma_prefix_of_concat(error.tag_spec(), cause.description@);
        },
        LauncherError::DnsError(cause) => {
            lemma_prefix_of_concat(error.tag_spec(), cause.description@);
        },
        LauncherError::NfsError(cause) => {
            lemma_prefix_of_concat(error.tag_spec(), cause.description@);
        },
        LauncherError::IpcSessionTerminated(cause) => {
            if cause is None {
                lemma_prefix_of_concat(error.tag_spec(), "None"@);
            } else {
                reveal_strlit("LauncherError::IpcSessionTerminated -> ");
                reveal_strlit("LauncherError::IpcSessionTerminated -> Some(");
                assert(("LauncherError::IpcSessionTerminated -> "@).is_prefix_of(
                    "LauncherError::IpcSessionTerminated -> Some("@,
                )) by {
                    assert(("LauncherError::IpcSessionTerminated -> Some("@).subrange(
                        0,
                        "LauncherError::IpcSessionTerminated -> "@.len() as int,
                    ) =~= "LauncherError::IpcSessionTerminated -> "@);
                };
                lemma_prefix_transitive(
                    "LauncherError::IpcSessionTerminated -> "@,
                    "LauncherError::IpcSessionTerminated -> Some("@,
                    text,
                );
            }
        },
        LauncherError::SpecificParseError(detail) => {
            lemma_prefix_of_concat(error.tag_spec(), string_debug_of(detail@));
        },
        LauncherError::Unexpected(detail) => {
            lemma_prefix_of_concat2(error.tag_spec(), string_debug_of(detail@), "}"@);
        },
        _ => {
            assert(text.subrange(0, error.tag_spec().len() as int) =~= error.tag_spec());
        },
    }
}

/// Law: diagnostic text is never empty, whatever the variant and whatever
/// its payload — an optional payload left absent included.
pub proof fn lemma_description_nonempty(error: LauncherError, text: Seq<char>)
    requires
        error.describes(text),
    ensures
        text.len() > 0,
{
    lemma_description_tagged(error, text);
    reveal_strlit("LauncherError::CoreError -> ");
    reveal_strlit("LauncherError::DnsError -> ");
    reveal_strlit("LauncherError::NfsError -> ");
    reveal_strlit("LauncherError::IpcListenerCouldNotBeBound");
    reveal_strlit("LauncherError::IpcListenerAborted -> ");
    reveal_strlit("LauncherError::IpcStreamCloneError -> ");
    reveal_strlit("LauncherError::ReceiverChannelDisconnected");
    reveal_strlit("LauncherError::IpcSessionTerminated -> ");
    reveal_strlit("LauncherError::FailedReadingStreamPayloadSize");
    reveal_strlit("LauncherError::FailedWritingStreamPayloadSize");
    reveal_strlit("LauncherError::JsonParseError -> ");
    reveal_strlit("LauncherError::SpecificParseError -> ");
    reveal_strlit("LauncherError::PathNotFound");
    reveal_strlit("LauncherError::InvalidPath");
    reveal_strlit("LauncherError::PermissionDenied");
    reveal_strlit("LauncherError::JsonEncodeError -> ");
    reveal_strlit("LauncherError::Unexpected{");
}

/// Law: tags distinguish variants — two values of different variants carry
/// different tags, so tagged diagnostic text identifies its variant.
pub proof fn lemma_tags_distinct(a: LauncherError, b: LauncherError)
    ensures
        a.variant_id() != b.variant_id() ==> a.tag_spec() != b.tag_spec(),
{
    reveal_strlit("LauncherError::CoreError -> ");
    reveal_strlit("LauncherError::DnsError -> ");
    reveal_strlit("LauncherError::NfsError -> ");
    reveal_strlit("LauncherError::IpcListenerCouldNotBeBound");
    reveal_strlit("LauncherError::IpcListenerAborted -> ");
    reveal_strlit("LauncherError::IpcStreamCloneError -> ");
    reveal_strlit("LauncherError::ReceiverChannelDisconnected");
    reveal_strlit("LauncherError::IpcSessionTerminated -> ");
    reveal_strlit("LauncherError::FailedReadingStreamPayloadSize");
    reveal_strlit("LauncherError::FailedWritingStreamPayloadSize");
    reveal_strlit("LauncherError::JsonParseError -> ");
    reveal_strlit("LauncherError::SpecificParseError -> ");
    reveal_strlit("LauncherError::PathNotFound");
    reveal_strlit("LauncherError::InvalidPath");
    reveal_strlit("LauncherError::PermissionDenied");
    reveal_strlit("LauncherError::JsonEncodeError -> ");
    reveal_strlit("LauncherError::Unexpected{");
    assert("LauncherError::CoreError -> "@.len() == 28);
    assert("LauncherError::DnsError -> "@.len() == 27);
    assert("LauncherError::NfsError -> "@.len() == 27);
    assert("LauncherError::IpcListenerCouldNotBeBound"@.len() == 41);
    assert("LauncherError::IpcListenerAborted -> "@.len() == 37);
    assert("LauncherError::IpcStreamCloneError -> "@.len() == 38);
    assert("LauncherError::ReceiverChannelDisconnected"@.len() == 42);
    assert("LauncherError::IpcSessionTerminated -> "@.len() == 39);
    assert("LauncherError::FailedReadingStreamPayloadSize"@.len() == 45);
    assert("LauncherError::FailedWritingStreamPayloadSize"@.len() == 45);
    assert("LauncherError::JsonParseError -> "@.len() == 33);
    assert("LauncherError::SpecificParseError -> "@.len() == 37);
    assert("LauncherError::PathNotFound"@.len() == 27);
    assert("LauncherError::InvalidPath"@.len() == 26);
    assert("LauncherError::PermissionDenied"@.len() == 31);
    assert("LauncherError::JsonEncodeError -> "@.len() == 34);
    assert("LauncherError::Unexpected{"@.len() == 26);
    lemma_differ_at("LauncherError::DnsError -> "@, "LauncherError::NfsError -> "@, 15);
    lemma_differ_at("LauncherError::DnsError -> "@, "LauncherError::PathNotFound"@, 15);
    lemma_differ_at("LauncherError::NfsError -> "@, "LauncherError::PathNotFound"@, 15);
    lemma_differ_at(
        "LauncherError::IpcListenerAborted -> "@,
        "LauncherError::SpecificParseError -> "@,
        15,
    );
    lemma_differ_at(
        "LauncherError::FailedReadingStreamPayloadSize"@,
        "LauncherError::FailedWritingStreamPayloadSize"@,
        21,
    );
    lemma_differ_at("LauncherError::InvalidPath"@, "LauncherError::Unexpected{"@, 15);
}

/// Law: diagnostic text distinguishes variants — whatever the payloads, two
/// values of different variants never produce the same text.
pub proof fn lemma_description_distinguishes(
    a: LauncherError,
    b: LauncherError,
    text_a: Seq<char>,
    text_b: Seq<char>,
)
    requires
        a.describes(text_a),
        b.describes(text_b),
        a.variant_id() != b.variant_id(),
    ensures
        text_a != text_b,
{
    lemma_description_tagged(a, text_a);
    lemma_description_tagged(b, text_b);
    lemma_tags_distinct(a, b);
    if text_a == text_b {
        let x = a.tag_spec();
        let y = b.tag_spec();
        assert(y.is_prefix_of(text_a));
        reveal_strlit("LauncherError::CoreError -> ");
        reveal_strlit("LauncherError::DnsError -> ");
        reveal_strlit("LauncherError::NfsError -> ");
        reveal_strlit("LauncherError::IpcListenerCouldNotBeBound");
        reveal_strlit("LauncherError::IpcListenerAborted -> ");
        reveal_strlit("LauncherError::IpcStreamCloneError -> ");
        reveal_strlit("LauncherError::ReceiverChannelDisconnected");
        reveal_strlit("LauncherError::IpcSessionTerminated -> ");
        reveal_strlit("LauncherError::FailedReadingStreamPayloadSize");
        reveal_strlit("LauncherError::FailedWritingStreamPayloadSize");
        reveal_strlit("LauncherError::JsonParseError -> ");
        reveal_strlit("LauncherError::SpecificParseError -> ");
        reveal_strlit("LauncherError::PathNotFound");
        reveal_strlit("LauncherError::InvalidPath");
        reveal_strlit("LauncherError::PermissionDenied");
        reveal_strlit("LauncherError::JsonEncodeError -> ");
        reveal_strlit("LauncherError::Unexpected{");
        lemma_common_prefixes_agree(text_a, x, y, 15);
        lemma_common_prefixes_agree(text_a, x, y, 16);
        lemma_common_prefixes_agree(text_a, x, y, 18);
        lemma_common_prefixes_agree(text_a, x, y, 19);
        lemma_common_prefixes_agree(text_a, x, y, 21);
        if 26 < x.len() && 26 < y.len() {
            lemma_common_prefixes_agree(text_a, x, y, 26);
        }
    }
}

} // verus!
