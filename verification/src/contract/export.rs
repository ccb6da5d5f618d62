//! A contract, loadable: what a host that opened the module may ask of it,
//! and what it is answered.
//!
//! What crosses the boundary: [`load`] takes the descriptor a Location names,
//! a schema, a pattern or a message type, as UTF-8 and asks the factory for a
//! contract. To validate, a host's pointers are looked at by [`begin`], its
//! reader is read to the end into a [`Reading`], and [`validate`] has the
//! contract judge what was read and answers every issue as a diagnostic.
//! [`implies`] answers the `descriptor` the Location bound, and the contract's
//! own `contract`, `version` and `representation`. A contract that cannot
//! judge the bytes at all answers [`Status::Malformed`] with its reason in
//! [`last_error`], and a panic is answered as [`Status::Panic`] by
//! [`guarded`], never unwound into the host.
//!
//! A pointer that may be null is an `Option` here: `None` is null, and what a
//! host is answered through a pointer is written through it.

pub mod calls;
pub mod laws;

use super::{
    Contract, ContractDescriptor, ContractDescriptorView, ContractError, ContractFactory,
    IssueView, Stream, StreamId, StreamView, ValidationIssue, ValidationResult,
};
use crate::text::{same, str_of, text_of, Str};
use vstd::prelude::*;
use vstd::utf8::*;

verus! {

/// The contract table's version this export implements.
pub const TRAIT_MAJOR: u32 = 1;

/// See [`TRAIT_MAJOR`].
pub const TRAIT_MINOR: u32 = 0;

/// How much of a Stream is asked of the host's reader at a time, in bytes.
pub const CHUNK: usize = 8192;

/// What a call is answered.
#[derive(Clone, Copy, Debug, PartialEq, Eq, Structural)]
pub enum Status {
    /// The call did what it is for.
    Success,
    /// A pointer is null that may not be, or text is not text.
    Invalid,
    /// The host speaks another version of the ABI.
    Unsupported,
    /// Nothing answers to the key.
    NotFound,
    /// The contract could not be loaded, or could not judge the bytes at all.
    Malformed,
    /// The Stream breaks the contract.
    Contract,
    /// The host's reader failed with a code no status can carry.
    Io,
    /// The host's reader failed with this code of its own.
    Host(i32),
    /// The contract panicked.
    Panic,
}

/// Who ships the module and its version, as the descriptor carries them.
#[derive(Clone, Copy, Debug)]
pub struct Identity {
    /// The provider's name, the second segment of its repositories' names.
    pub provider: &'static str,
    /// The standard the contract implements: `csv`, `edi-x12`, a provider's
    /// own.
    pub standard: &'static str,
    /// The module's own version.
    pub version: (u32, u32, u32),
}

/// What a module needs to know of its host.
#[derive(Clone, Copy, Debug)]
pub struct Host {
    /// The version of the ABI the host speaks.
    pub abi_version: u32,
}

/// What a module says of itself to its host.
#[derive(Clone, Copy, Debug)]
pub struct WireDescriptor {
    pub abi_version: u32,
    pub provider: Str<'static>,
    pub module: Str<'static>,
    pub standard: Str<'static>,
    pub trait_major: u32,
    pub trait_minor: u32,
    pub module_major: u32,
    pub module_minor: u32,
    pub module_patch: u32,
}

/// One thing found wrong with a Stream, as a host is told of it.
#[derive(Debug)]
pub struct Diagnostic {
    /// What kind of finding it is.
    pub code: Status,
    /// The issue's code and its message.
    pub message: String,
    /// Where it was found, empty when the contract cannot say.
    pub location: String,
    /// Where in the bytes: unknown.
    pub offset: u64,
}

/// A diagnostic as specifications see it.
pub struct DiagnosticView {
    pub code: Status,
    pub message: Seq<char>,
    pub location: Seq<char>,
    pub offset: u64,
}

impl View for Diagnostic {
    type V = DiagnosticView;

    open spec fn view(&self) -> DiagnosticView {
        DiagnosticView {
            code: self.code,
            message: self.message@,
            location: self.location@,
            offset: self.offset,
        }
    }
}

/// One module instance: the factory, and what the last call left for the host
/// to borrow.
pub struct State<F> {
    factory: F,
    diagnostics: Vec<Diagnostic>,
    error: String,
}

/// A module instance as specifications see it.
#[verifier::ext_equal]
pub struct StateView<F> {
    pub factory: F,
    pub diagnostics: Seq<DiagnosticView>,
    pub error: Seq<char>,
}

impl<F> View for State<F> {
    type V = StateView<F>;

    closed spec fn view(&self) -> StateView<F> {
        StateView {
            factory: self.factory,
            diagnostics: self.diagnostics@.map_values(|found: Diagnostic| found@),
            error: self.error@,
        }
    }
}

impl<F> State<F> {
    /// What the host was last told of a Stream that broke its contract.
    #[must_use]
    pub fn diagnostics(&self) -> (diagnostics: &Vec<Diagnostic>)
        ensures
            diagnostics@.map_values(|found: Diagnostic| found@) == self@.diagnostics,
    {
        &self.diagnostics
    }
}

/// One contract the factory loaded, as the host holds it, with the descriptor
/// the Location bound it by.
pub struct Loaded<C> {
    contract: C,
    descriptor: String,
}

/// A loaded contract as specifications see it.
pub struct LoadedView<C> {
    pub contract: C,
    pub descriptor: Seq<char>,
}

impl<C> View for Loaded<C> {
    type V = LoadedView<C>;

    closed spec fn view(&self) -> LoadedView<C> {
        LoadedView { contract: self.contract, descriptor: self.descriptor@ }
    }
}

/// A module as a host receives it.
pub struct Module<F> {
    /// What the module says of itself.
    pub descriptor: WireDescriptor,
    /// The instance every call is made on.
    pub state: State<F>,
}

/// What a new module says of itself.
pub open spec fn describes(
    descriptor: WireDescriptor,
    identity: Identity,
    abi_version: u32,
) -> bool {
    &&& descriptor.abi_version == abi_version
    &&& descriptor.provider.says() == Some(identity.provider@)
    &&& descriptor.module.says() == Some("contract"@)
    &&& descriptor.standard.says() == Some(identity.standard@)
    &&& descriptor.trait_major == TRAIT_MAJOR
    &&& descriptor.trait_minor == TRAIT_MINOR
    &&& descriptor.module_major == identity.version.0
    &&& descriptor.module_minor == identity.version.1
    &&& descriptor.module_patch == identity.version.2
}

/// The entry point: a module over `factory`, written through `out` for a
/// `host` that speaks `abi_version`.
///
/// A null pointer or a host that speaks another version is refused, and `out`
/// is left as it was.
pub fn create<F: ContractFactory>(
    host: Option<&Host>,
    out: Option<&mut Option<Module<F>>>,
    factory: F,
    identity: Identity,
    abi_version: u32,
) -> (status: Status)
    ensures
        status == (if host is None || out is None {
            Status::Invalid
        } else if host->0.abi_version != abi_version {
            Status::Unsupported
        } else {
            Status::Success
        }),
        out matches Some(slot) ==> if status == Status::Success {
            &&& *final(slot) matches Some(module)
            &&& describes(module.descriptor, identity, abi_version)
            &&& module.state@ == (StateView {
                factory,
                diagnostics: Seq::<DiagnosticView>::empty(),
                error: Seq::<char>::empty(),
            })
        } else {
            *final(slot) == *slot
        },
{
    match (host, out) {
        (Some(host), Some(slot)) => {
            if host.abi_version != abi_version {
                return Status::Unsupported;
            }
            let state = State { factory, diagnostics: Vec::new(), error: String::new() };
            assert(state@.diagnostics =~= Seq::<DiagnosticView>::empty());
            let (major, minor, patch) = identity.version;
            *slot = Some(
                Module {
                    descriptor: WireDescriptor {
                        abi_version,
                        provider: str_of(identity.provider),
                        module: str_of("contract"),
                        standard: str_of(identity.standard),
                        trait_major: TRAIT_MAJOR,
                        trait_minor: TRAIT_MINOR,
                        module_major: major,
                        module_minor: minor,
                        module_patch: patch,
                    },
                    state,
                },
            );
            Status::Success
        },
        _ => Status::Invalid,
    }
}

/// Configure the module: there is nothing to configure, and any text will do.
#[must_use]
pub fn configure(_toml: Str<'_>) -> (status: Status)
    ensures
        status == Status::Success,
{
    Status::Success
}

/// Start the module, or stop it: there is nothing to do for either.
#[must_use]
pub fn lifecycle() -> (status: Status)
    ensures
        status == Status::Success,
{
    Status::Success
}

/// What the host is told of one issue.
pub open spec fn told(issue: IssueView) -> DiagnosticView {
    DiagnosticView {
        code: Status::Contract,
        message: issue.code + ": "@ + issue.message,
        location: match issue.path {
            Some(path) => path,
            None => Seq::empty(),
        },
        offset: u64::MAX,
    }
}

/// What the host is told of every issue, in the order they were found.
pub open spec fn told_all(issues: Seq<ValidationIssue>) -> Seq<DiagnosticView> {
    issues.map_values(|issue: ValidationIssue| told(issue@))
}

/// The instance with another reason for its last failure.
pub open spec fn failing<F>(state: StateView<F>, reason: Seq<char>) -> StateView<F> {
    StateView { error: reason, ..state }
}

/// The instance `after` the factory answered the load of `reference`, with
/// what became of the slot the contract is handed out through.
pub open spec fn settled<F: ContractFactory>(
    before: StateView<F>,
    after: StateView<F>,
    reference: Seq<char>,
    answer: Result<F::Loads, ContractError>,
    held: Option<Loaded<F::Loads>>,
    holds: Option<Loaded<F::Loads>>,
    status: Status,
) -> bool {
    match answer {
        Ok(contract) => {
            &&& status == Status::Success
            &&& after == before
            &&& holds matches Some(loaded)
            &&& loaded@ == (LoadedView { contract, descriptor: reference })
        },
        Err(error) => {
            &&& status == Status::Malformed
            &&& after == failing(before, error.message@)
            &&& holds == held
        },
    }
}

/// Settle a load of `reference` by what the factory answered: a contract is
/// handed out, bound by the reference; a reason is kept for [`last_error`].
pub fn settle<F: ContractFactory>(
    state: &mut State<F>,
    reference: &str,
    answer: Result<F::Loads, ContractError>,
    out: &mut Option<Loaded<F::Loads>>,
) -> (status: Status)
    ensures
        settled(
            old(state)@,
            final(state)@,
            reference@,
            answer,
            *old(out),
            *final(out),
            status,
        ),
{
    match answer {
        Ok(contract) => {
            *out = Some(Loaded { contract, descriptor: reference.to_string() });
            Status::Success
        },
        Err(error) => {
            state.error = error.message;
            Status::Malformed
        },
    }
}

/// Load the contract `descriptor` names and hand it out through `out`.
///
/// A null pointer is refused and changes nothing; a descriptor that is not
/// UTF-8 is refused with that reason. Otherwise the factory is asked, once,
/// for what the descriptor says, and its answer is settled.
pub fn load<F: ContractFactory>(
    state: Option<&mut State<F>>,
    descriptor: Str<'_>,
    out: Option<&mut Option<Loaded<F::Loads>>>,
) -> (status: Status)
    ensures
        state is None || out is None ==> {
            &&& status == Status::Invalid
            &&& (state matches Some(state) ==> *final(state) == *state)
            &&& (out matches Some(out) ==> *final(out) == *out)
        },
        state matches Some(state) ==> (out matches Some(out) ==> match descriptor.says() {
            None => {
                &&& status == Status::Invalid
                &&& final(state)@ == failing(state@, "the descriptor is not UTF-8"@)
                &&& *final(out) == *out
            },
            Some(says) => exists|reference: &str, answer: Result<F::Loads, ContractError>|
                {
                    &&& reference@ == says
                    &&& #[trigger] call_ensures(
                        F::load,
                        (&state@.factory, reference),
                        answer,
                    )
                    &&& settled(
                        state@,
                        final(state)@,
                        says,
                        answer,
                        *out,
                        *final(out),
                        status,
                    )
                },
        }),
{
    match (state, out) {
        (Some(state), Some(out)) => {
            match text_of(descriptor) {
                None => {
                    state.error = "the descriptor is not UTF-8".to_string();
                    Status::Invalid
                },
                Some(reference) => {
                    let answer = state.factory.load(reference);
                    assert(call_ensures(F::load, (&state@.factory, reference), answer));
                    settle(state, reference, answer, out)
                },
            }
        },
        _ => Status::Invalid,
    }
}

/// What a host's reader offers.
#[derive(Clone, Copy, Debug)]
pub struct Reader {
    /// Whether it can be read from at all.
    pub read: bool,
}

/// What a host finds behind the pointer the diagnostics are lent through.
#[derive(Clone, Copy, Debug, PartialEq, Eq, Structural)]
pub enum Lent {
    /// What the host left there.
    Untouched,
    /// A null pointer.
    Nothing,
    /// The instance's diagnostics, until the next call on the instance.
    Diagnostics,
}

/// The whole Stream, as far as the host's reader has been read.
#[derive(Debug)]
pub struct Reading {
    bytes: Vec<u8>,
}

impl View for Reading {
    type V = Seq<u8>;

    closed spec fn view(&self) -> Seq<u8> {
        self.bytes@
    }
}

/// How far one read of the host's reader got.
#[derive(Clone, Copy, Debug, PartialEq, Eq, Structural)]
pub enum Progress {
    /// There may be more: read again.
    More,
    /// The Stream is at its end.
    End,
    /// The reader failed.
    Failed(Status),
}

/// What a read that failed with `got` is answered: the reader's own code where
/// a status can carry it.
pub open spec fn failure(got: i64) -> Status {
    if got >= i32::MIN {
        Status::Host(got as i32)
    } else {
        Status::Io
    }
}

/// How far a read that answered `got` got.
pub open spec fn progressed(got: i64) -> Progress {
    if got < 0 {
        Progress::Failed(failure(got))
    } else if got == 0 {
        Progress::End
    } else {
        Progress::More
    }
}

/// What has been read once a read answered `got` of the bytes of `chunk`.
pub open spec fn gathered(before: Seq<u8>, got: i64, chunk: Seq<u8>) -> Seq<u8> {
    if got > 0 {
        before + chunk.take(got as int)
    } else {
        before
    }
}

impl Reading {
    /// Take what one read of the host's reader answered: `got` of the bytes of
    /// `chunk`, none at the end of the Stream, a negative code on failure.
    pub fn take(&mut self, got: i64, chunk: &[u8]) -> (progress: Progress)
        requires
            got <= chunk@.len(),
        ensures
            progress == progressed(got),
            final(self)@ == gathered(old(self)@, got, chunk@),
    {
        if got < 0 {
            if got >= i32::MIN as i64 {
                return Progress::Failed(Status::Host(got as i32));
            }
            return Progress::Failed(Status::Io);
        }
        if got == 0 {
            return Progress::End;
        }
        let available: usize = chunk.len();
        assert(got <= available);
        let count: usize = got as usize;
        self.bytes.extend_from_slice(vstd::slice::slice_subrange(chunk, 0, count));
        assert(self@ =~= old(self)@ + chunk@.take(got as int));
        Progress::More
    }
}

/// Look at the pointers a host validates with: none may be null, and the
/// reader must be one that can be read. What the host borrowed before is taken
/// back, and a reading of the Stream begins.
pub fn begin<F: ContractFactory>(
    state: Option<&State<F>>,
    contract: Option<&Loaded<F::Loads>>,
    input: Option<&Reader>,
    out: Option<&mut Lent>,
    out_len: Option<&mut usize>,
) -> (begun: Result<Reading, Status>)
    ensures
        ({
            let given = state is Some && contract is Some && input is Some && out is Some
                && out_len is Some;
            &&& (begun matches Err(status) ==> status == Status::Invalid)
            &&& begun is Ok <==> given && input->0.read
            &&& (begun matches Ok(reading) ==> reading@ == Seq::<u8>::empty())
            &&& (out matches Some(out) ==> *final(out) == if given {
                Lent::Nothing
            } else {
                *out
            })
            &&& (out_len matches Some(out_len) ==> *final(out_len) == if given {
                0
            } else {
                *out_len
            })
        }),
{
    match (state, contract, input, out, out_len) {
        (Some(_), Some(_), Some(reader), Some(out), Some(out_len)) => {
            *out = Lent::Nothing;
            *out_len = 0;
            if !reader.read {
                return Err(Status::Invalid);
            }
            Ok(Reading { bytes: Vec::new() })
        },
        _ => Err(Status::Invalid),
    }
}

/// The instance `after` the contract gave its `judgment`, with what the host
/// finds behind the pointers the diagnostics are lent through.
pub open spec fn judged<F>(
    before: StateView<F>,
    after: StateView<F>,
    judgment: Result<ValidationResult, ContractError>,
    out: (Lent, usize),
    finds: (Lent, usize),
    status: Status,
) -> bool {
    match judgment {
        Ok(result) => if result.valid {
            &&& status == Status::Success
            &&& after == before
            &&& finds == out
        } else {
            &&& status == Status::Contract
            &&& after == (StateView { diagnostics: told_all(result.issues@), ..before })
            &&& finds.0 == Lent::Diagnostics
            &&& finds.1 == result.issues@.len()
        },
        Err(error) => {
            &&& status == Status::Malformed
            &&& after == failing(before, error.message@)
            &&& finds == out
        },
    }
}

/// What the host is told of one issue.
fn diagnose(issue: &ValidationIssue) -> (found: Diagnostic)
    ensures
        found@ == told(issue@),
{
    let message = issue.code.clone().concat(": ").concat(issue.message.as_str());
    let location = match &issue.path {
        Some(path) => path.clone(),
        None => String::new(),
    };
    Diagnostic { code: Status::Contract, message, location, offset: u64::MAX }
}

/// Answer a host by the contract's `judgment`: every issue becomes a
/// diagnostic, in order, lent through `out` and `out_len`; a reason the
/// contract could not judge is kept for [`last_error`].
pub fn judge<F>(
    state: &mut State<F>,
    judgment: Result<ValidationResult, ContractError>,
    out: &mut Lent,
    out_len: &mut usize,
) -> (status: Status)
    ensures
        judged(
            old(state)@,
            final(state)@,
            judgment,
            (*old(out), *old(out_len)),
            (*final(out), *final(out_len)),
            status,
        ),
{
    match judgment {
        Ok(result) => {
            if result.valid {
                return Status::Success;
            }
            let mut diagnostics: Vec<Diagnostic> = Vec::new();
            let mut at: usize = 0;
            while at < result.issues.len()
                invariant
                    at <= result.issues@.len(),
                    diagnostics@.len() == at,
                    forall|k: int|
                        0 <= k < at ==> (#[trigger] diagnostics@[k])@ == told(result.issues@[k]@),
                decreases result.issues@.len() - at,
            {
                diagnostics.push(diagnose(&result.issues[at]));
                at = at + 1;
            }
            *out = Lent::Diagnostics;
            *out_len = diagnostics.len();
            state.diagnostics = diagnostics;
            assert(state@.diagnostics =~= told_all(result.issues@));
            Status::Contract
        },
        Err(error) => {
            state.error = error.message;
            Status::Malformed
        },
    }
}

/// Have the contract judge the Stream that was read, and answer the host by
/// its judgment. The contract is asked once, of the Stream holding the bytes
/// read.
pub fn validate<F: ContractFactory>(
    state: &mut State<F>,
    contract: &Loaded<F::Loads>,
    reading: Reading,
    out: &mut Lent,
    out_len: &mut usize,
) -> (status: Status)
    ensures
        exists|stream: Stream, judgment: Result<ValidationResult, ContractError>|
            {
                &&& stream@ == (StreamView { id: StreamId(0), bytes: reading@ })
                &&& #[trigger] call_ensures(
                    <F::Loads as Contract>::validate,
                    (&contract@.contract, &stream),
                    judgment,
                )
                &&& judged(
                    old(state)@,
                    final(state)@,
                    judgment,
                    (*old(out), *old(out_len)),
                    (*final(out), *final(out_len)),
                    status,
                )
            },
{
    let stream = Stream::new(StreamId(0), reading.bytes);
    let judgment = contract.contract.validate(&stream);
    assert(call_ensures(
        <F::Loads as Contract>::validate,
        (&contract@.contract, &stream),
        judgment,
    ));
    judge(state, judgment, out, out_len)
}

/// What a contract bound by `bound` that says `descriptor` of itself implies
/// of `key`: what it was bound by, unless that is empty, its name, its version
/// or what its bytes are.
pub open spec fn implication(
    bound: Seq<char>,
    descriptor: ContractDescriptorView,
    key: Option<Seq<char>>,
) -> Result<Seq<char>, Status> {
    match key {
        None => Err(Status::Invalid),
        Some(key) => if key == "descriptor"@ && bound.len() > 0 {
            Ok(bound)
        } else if key == "contract"@ {
            Ok(descriptor.id)
        } else if key == "version"@ {
            Ok(descriptor.version)
        } else if key == "representation"@ {
            Ok(descriptor.representation)
        } else {
            Err(Status::NotFound)
        },
    }
}

/// What a contract bound by `bound` that says `descriptor` of itself implies
/// of `key`.
///
/// # Errors
/// The key is not text, or nothing answers to it.
pub fn implied<'a>(
    bound: &'a str,
    descriptor: &'a ContractDescriptor,
    key: Option<&str>,
) -> (answer: Result<&'a str, Status>)
    ensures
        match implication(bound@, descriptor@, crate::text::chars_of(key)) {
            Ok(implied) => answer matches Ok(text) && text@ == implied,
            Err(status) => answer == Err::<&'a str, Status>(status),
        },
{
    match key {
        None => Err(Status::Invalid),
        Some(key) => {
            if same(key, "descriptor") && !bound.is_empty() {
                Ok(bound)
            } else if same(key, "contract") {
                Ok(descriptor.id.0.as_str())
            } else if same(key, "version") {
                Ok(descriptor.version.as_str())
            } else if same(key, "representation") {
                Ok(descriptor.representation.as_str())
            } else {
                Err(Status::NotFound)
            }
        },
    }
}

/// Answer what a loaded contract implies of `key` through `out`.
///
/// A null pointer is refused. Otherwise the contract is asked, once, what it
/// says of itself; what is not answered leaves `out` as it was.
pub fn implies<'a, C: Contract>(
    contract: Option<&'a Loaded<C>>,
    key: Str<'_>,
    out: Option<&mut Str<'a>>,
) -> (status: Status)
    ensures
        contract is None || out is None ==> {
            &&& status == Status::Invalid
            &&& (out matches Some(out) ==> *final(out) == *out)
        },
        contract matches Some(contract) ==> (out matches Some(out) ==> exists|
            descriptor: &ContractDescriptor,
        |
            {
                &&& #[trigger] call_ensures(C::descriptor, (&contract@.contract,), descriptor)
                &&& match implication(contract@.descriptor, descriptor@, key.says()) {
                    Ok(implied) => {
                        &&& status == Status::Success
                        &&& final(out).says() == Some(implied)
                        &&& final(out).bytes() == encode_utf8(implied)
                    },
                    Err(refused) => {
                        &&& status == refused
                        &&& *final(out) == *out
                    },
                }
            }),
{
    match (contract, out) {
        (Some(contract), Some(out)) => {
            let descriptor = contract.contract.descriptor();
            assert(call_ensures(C::descriptor, (&contract@.contract,), descriptor));
            match implied(contract.descriptor.as_str(), descriptor, text_of(key)) {
                Ok(answer) => {
                    *out = str_of(answer);
                    Status::Success
                },
                Err(status) => status,
            }
        },
        _ => Status::Invalid,
    }
}

/// Why the last call that failed with a reason failed, empty where none did.
#[must_use]
pub fn last_error<'a, F>(state: Option<&'a State<F>>) -> (reason: Str<'a>)
    ensures
        reason.says() == Some(
            match state {
                Some(state) => state@.error,
                None => Seq::empty(),
            },
        ),
        reason.bytes() == encode_utf8(reason.says()->0),
{
    match state {
        Some(state) => str_of(state.error.as_str()),
        None => {
            assert(encode_utf8(Seq::empty()) =~= Seq::<u8>::empty());
            Str::empty()
        },
    }
}

/// What a host is answered for a call that came to its `end`, or that
/// panicked and has none.
#[must_use]
pub fn guarded(end: Option<Status>) -> (status: Status)
    ensures
        status == match end {
            Some(status) => status,
            None => Status::Panic,
        },
{
    match end {
        Some(status) => status,
        None => Status::Panic,
    }
}

} // verus!
