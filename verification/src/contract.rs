//! What a contract is: it judges a Stream, and a factory loads it by the
//! descriptor a Location names.

pub mod export;

use vstd::prelude::*;

verus! {

/// Which Stream.
#[derive(Clone, Copy, Debug, PartialEq, Eq, Structural)]
pub struct StreamId(pub u64);

/// The bytes a contract judges.
#[derive(Debug)]
pub struct Stream {
    id: StreamId,
    bytes: Vec<u8>,
}

/// A Stream as specifications see it.
pub struct StreamView {
    pub id: StreamId,
    pub bytes: Seq<u8>,
}

impl View for Stream {
    type V = StreamView;

    closed spec fn view(&self) -> StreamView {
        StreamView { id: self.id, bytes: self.bytes@ }
    }
}

impl Stream {
    /// The Stream `id`, holding `bytes`.
    #[must_use]
    pub fn new(id: StreamId, bytes: Vec<u8>) -> (stream: Self)
        ensures
            stream@ == (StreamView { id, bytes: bytes@ }),
    {
        Stream { id, bytes }
    }

    /// Which Stream it is.
    #[must_use]
    pub fn id(&self) -> (id: StreamId)
        ensures
            id == self@.id,
    {
        self.id
    }

    /// The Stream's bytes.
    #[must_use]
    pub fn bytes(&self) -> (bytes: &[u8])
        ensures
            bytes@ == self@.bytes,
    {
        self.bytes.as_slice()
    }
}

/// A contract's name.
#[derive(Debug)]
pub struct ContractId(pub String);

/// What a contract says of itself.
#[derive(Debug)]
pub struct ContractDescriptor {
    /// The contract's name.
    pub id: ContractId,
    /// Its version.
    pub version: String,
    /// What the bytes it judges are.
    pub representation: String,
}

/// A descriptor as specifications see it.
pub struct ContractDescriptorView {
    pub id: Seq<char>,
    pub version: Seq<char>,
    pub representation: Seq<char>,
}

impl View for ContractDescriptor {
    type V = ContractDescriptorView;

    open spec fn view(&self) -> ContractDescriptorView {
        ContractDescriptorView {
            id: self.id.0@,
            version: self.version@,
            representation: self.representation@,
        }
    }
}

/// Why a contract could not be loaded, or could not judge at all.
#[derive(Debug)]
pub struct ContractError {
    /// The reason, in words.
    pub message: String,
}

impl ContractError {
    /// The error `message` gives the reason for.
    #[must_use]
    pub fn new(message: &str) -> (error: Self)
        ensures
            error.message@ == message@,
    {
        ContractError { message: message.to_string() }
    }
}

/// One thing a contract found wrong.
#[derive(Debug)]
pub struct ValidationIssue {
    /// What kind of thing.
    pub code: String,
    /// What is wrong, in words.
    pub message: String,
    /// Where, when the contract can say.
    pub path: Option<String>,
}

/// An issue as specifications see it.
pub struct IssueView {
    pub code: Seq<char>,
    pub message: Seq<char>,
    pub path: Option<Seq<char>>,
}

impl View for ValidationIssue {
    type V = IssueView;

    open spec fn view(&self) -> IssueView {
        IssueView {
            code: self.code@,
            message: self.message@,
            path: match self.path {
                Some(path) => Some(path@),
                None => None,
            },
        }
    }
}

impl ValidationIssue {
    /// An issue found at `path`.
    #[must_use]
    pub fn at(code: &str, message: &str, path: &str) -> (issue: Self)
        ensures
            issue@ == (IssueView { code: code@, message: message@, path: Some(path@) }),
    {
        ValidationIssue {
            code: code.to_string(),
            message: message.to_string(),
            path: Some(path.to_string()),
        }
    }
}

/// A contract's judgment of a Stream.
#[derive(Debug)]
pub struct ValidationResult {
    /// Whether the Stream keeps the contract.
    pub valid: bool,
    /// Everything found wrong.
    pub issues: Vec<ValidationIssue>,
}

impl ValidationResult {
    /// The judgment that found `issues`: valid when there are none.
    #[must_use]
    pub fn of(issues: Vec<ValidationIssue>) -> (result: Self)
        ensures
            result.issues@ == issues@,
            result.valid == (issues@.len() == 0),
    {
        ValidationResult { valid: issues.len() == 0, issues }
    }
}

/// A contract: what it is, and its judgment of a Stream.
pub trait Contract {
    /// What the contract says of itself.
    fn descriptor(&self) -> &ContractDescriptor;

    /// Whether a Stream looks like one of the contract's.
    ///
    /// # Errors
    /// The contract cannot tell.
    fn identify(&self, stream: &Stream) -> Result<bool, ContractError>;

    /// The contract's judgment of a Stream.
    ///
    /// # Errors
    /// The contract cannot judge the bytes at all.
    fn validate(&self, stream: &Stream) -> Result<ValidationResult, ContractError>;
}

/// A boxed contract is the contract in the box: a factory that loads contracts
/// of several kinds loads `Box<dyn Contract>`.
impl<C: Contract + ?Sized> Contract for Box<C> {
    fn descriptor(&self) -> (descriptor: &ContractDescriptor)
        ensures
            call_ensures(C::descriptor, (&**self,), descriptor),
    {
        (**self).descriptor()
    }

    fn identify(&self, stream: &Stream) -> (answer: Result<bool, ContractError>)
        ensures
            call_ensures(C::identify, (&**self, stream), answer),
    {
        (**self).identify(stream)
    }

    fn validate(&self, stream: &Stream) -> (judgment: Result<ValidationResult, ContractError>)
        ensures
            call_ensures(C::validate, (&**self, stream), judgment),
    {
        (**self).validate(stream)
    }
}

/// What loads a contract by the descriptor a Location names: a schema, a
/// pattern, a message type.
pub trait ContractFactory {
    /// The contracts the factory loads.
    type Loads: Contract;

    /// The technology the factory loads contracts of.
    fn technology(&self) -> &'static str;

    /// The contract `reference` names.
    ///
    /// # Errors
    /// The reference names no contract of this technology.
    fn load(&self, reference: &str) -> Result<Self::Loads, ContractError>;
}

/// A Stream is the one it was made as, and holds the bytes it was made of.
pub proof fn a_stream_holds_what_it_was_made_of(
    id: StreamId,
    bytes: Vec<u8>,
    stream: Stream,
    known: StreamId,
    held: &[u8],
)
    requires
        call_ensures(Stream::new, (id, bytes), stream),
        call_ensures(Stream::id, (&stream,), known),
        call_ensures(Stream::bytes, (&stream,), held),
    ensures
        known == id,
        held@ == bytes@,
{
}

/// An error gives the reason it was made with.
pub proof fn an_error_gives_its_reason(message: &str, error: ContractError)
    requires
        call_ensures(ContractError::new, (message,), error),
    ensures
        error.message@ == message@,
{
}

/// An issue found somewhere says what, in which words, and where.
pub proof fn an_issue_says_what_and_where(
    code: &str,
    message: &str,
    path: &str,
    issue: ValidationIssue,
)
    requires
        call_ensures(ValidationIssue::at, (code, message, path), issue),
    ensures
        issue.code@ == code@,
        issue.message@ == message@,
        issue.path matches Some(place) && place@ == path@,
{
}

/// A judgment made of issues holds them all, and is valid exactly when there
/// are none.
pub proof fn a_judgment_is_valid_without_issues(
    issues: Vec<ValidationIssue>,
    result: ValidationResult,
)
    requires
        call_ensures(ValidationResult::of, (issues,), result),
    ensures
        result.issues@ == issues@,
        result.valid <==> issues@.len() == 0,
{
}

/// A contract in a box answers only what the contract itself answers.
pub proof fn a_boxed_contract_answers_as_the_contract<C: Contract + ?Sized>(
    boxed: Box<C>,
    stream: &Stream,
    descriptor: &ContractDescriptor,
    identified: Result<bool, ContractError>,
    judgment: Result<ValidationResult, ContractError>,
)
    requires
        call_ensures(<Box<C> as Contract>::descriptor, (&boxed,), descriptor),
        call_ensures(<Box<C> as Contract>::identify, (&boxed, stream), identified),
        call_ensures(<Box<C> as Contract>::validate, (&boxed, stream), judgment),
    ensures
        call_ensures(C::descriptor, (&*boxed,), descriptor),
        call_ensures(C::identify, (&*boxed, stream), identified),
        call_ensures(C::validate, (&*boxed, stream), judgment),
{
}

} // verus!
