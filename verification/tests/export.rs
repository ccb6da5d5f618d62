use sdk::contract::export::{
    begin, configure, create, guarded, implied, judge, last_error, lifecycle, load, settle, validate,
    Host, Identity, Lent, Loaded, Module, Progress, Reader, Reading, State, Status, CHUNK,
    TRAIT_MAJOR, TRAIT_MINOR,
};
use sdk::contract::{
    Contract, ContractDescriptor, ContractError, ContractFactory, ContractId, Stream, StreamId,
    ValidationIssue, ValidationResult,
};
use sdk::text::Str;

const ABI: u32 = 1;

/// Text that must be UTF-8, loaded from an empty descriptor only.
struct Text(ContractDescriptor);

impl Contract for Text {
    fn descriptor(&self) -> &ContractDescriptor {
        &self.0
    }

    fn identify(&self, _stream: &Stream) -> Result<bool, ContractError> {
        Ok(true)
    }

    fn validate(&self, stream: &Stream) -> Result<ValidationResult, ContractError> {
        if stream.bytes().first() == Some(&0) {
            return Err(ContractError::new("a NUL first is not text of any kind"));
        }
        Ok(ValidationResult::of(
            match std::str::from_utf8(stream.bytes()) {
                Ok(_) => Vec::new(),
                Err(error) => vec![ValidationIssue::at(
                    "not-text",
                    "not UTF-8",
                    &format!("byte {}", error.valid_up_to()),
                )],
            },
        ))
    }
}

struct Factory;

impl ContractFactory for Factory {
    type Loads = Box<dyn Contract>;

    fn technology(&self) -> &'static str {
        "text"
    }

    fn load(&self, reference: &str) -> Result<Box<dyn Contract>, ContractError> {
        if !reference.is_empty() {
            return Err(ContractError::new(&format!("text takes no {reference}")));
        }
        Ok(Box::new(text()))
    }
}

/// Any text is bound by any descriptor.
struct Binds;

impl ContractFactory for Binds {
    type Loads = Text;

    fn technology(&self) -> &'static str {
        "text"
    }

    fn load(&self, _reference: &str) -> Result<Text, ContractError> {
        Ok(text())
    }
}

fn text() -> Text {
    Text(ContractDescriptor {
        id: ContractId("text".to_string()),
        version: "1".to_string(),
        representation: "text/plain".to_string(),
    })
}

fn identity() -> Identity {
    Identity {
        provider: "example",
        standard: "text",
        version: (0, 1, 0),
    }
}

fn made<F: ContractFactory>(factory: F) -> Module<F> {
    let mut module = None;
    let host = Host { abi_version: ABI };
    let status = create(Some(&host), Some(&mut module), factory, identity(), ABI);
    assert_eq!(status, Status::Success);
    module.expect("made")
}

fn bytes(text: Str<'_>) -> Vec<u8> {
    match text {
        Str::Null { .. } => Vec::new(),
        Str::Bytes(bytes) => bytes.to_vec(),
    }
}

type Judged = (Status, Vec<(Vec<u8>, Vec<u8>)>);

/// Validate `input`, handed over three bytes at a time: the status, and each
/// diagnostic as its message and location.
fn judged<F: ContractFactory>(
    state: &mut State<F>,
    contract: &Loaded<F::Loads>,
    input: &[u8],
) -> Judged {
    let (mut out, mut out_len) = (Lent::Untouched, 7usize);
    let reader = Reader { read: true };
    let mut reading = begin(
        Some(&*state),
        Some(contract),
        Some(&reader),
        Some(&mut out),
        Some(&mut out_len),
    )
    .expect("nothing is null");
    let mut chunk = [0u8; CHUNK];
    let mut at = 0;
    loop {
        let got = (input.len() - at).min(CHUNK).min(3);
        chunk[..got].copy_from_slice(&input[at..at + got]);
        at += got;
        match reading.take(i64::try_from(got).expect("small"), &chunk) {
            Progress::More => {}
            Progress::End => break,
            Progress::Failed(status) => panic!("the reader never fails: {status:?}"),
        }
    }
    assert_eq!(at, input.len(), "read to the end in short reads");
    let verdict = validate(state, contract, reading, &mut out, &mut out_len);
    let diagnostics = match out {
        Lent::Diagnostics => state
            .diagnostics()
            .iter()
            .map(|found| {
                assert_eq!(found.code, Status::Contract);
                assert_eq!(found.offset, u64::MAX);
                (
                    found.message.as_bytes().to_vec(),
                    found.location.as_bytes().to_vec(),
                )
            })
            .collect(),
        Lent::Nothing => Vec::new(),
        Lent::Untouched => panic!("taken back first"),
    };
    assert_eq!(diagnostics.len(), out_len);
    (verdict, diagnostics)
}

/// What `contract` implies of `key`.
fn asked<C: Contract>(contract: &Loaded<C>, key: &'static [u8]) -> (Status, Vec<u8>) {
    let mut implied = Str::empty();
    let status = sdk::contract::export::implies(Some(contract), Str::Bytes(key), Some(&mut implied));
    (status, bytes(implied))
}

#[test]
fn a_null_or_foreign_host_is_refused_and_out_left_untouched() {
    let mut module = None;
    let foreign = Host { abi_version: 99 };
    let refused = create(
        Some(&foreign),
        Some(&mut module),
        Factory,
        identity(),
        ABI,
    );
    assert_eq!(refused, Status::Unsupported);
    assert!(module.is_none());
    let refused = create(None, Some(&mut module), Factory, identity(), ABI);
    assert_eq!(refused, Status::Invalid);
    assert!(module.is_none());
    let host = Host { abi_version: ABI };
    let refused = create(Some(&host), None, Factory, identity(), ABI);
    assert_eq!(refused, Status::Invalid);
}

#[test]
fn a_rust_contract_is_driven_through_the_table_as_a_host_drives_it() {
    let module = made(Factory);
    assert_eq!(bytes(module.descriptor.provider), b"example");
    assert_eq!(bytes(module.descriptor.module), b"contract");
    assert_eq!(bytes(module.descriptor.standard), b"text");
    assert_eq!(module.descriptor.module_minor, 1);

    let mut state = module.state;
    let mut contract = None;
    let refused = load(Some(&mut state), Str::Bytes(b"x.xsd"), Some(&mut contract));
    assert_eq!(refused, Status::Malformed);
    assert!(contract.is_none());
    assert_eq!(bytes(last_error(Some(&state))), b"text takes no x.xsd");
    let loaded = load(Some(&mut state), Str::empty(), Some(&mut contract));
    assert_eq!(loaded, Status::Success);
    let contract = contract.expect("loaded");

    assert_eq!(
        judged(&mut state, &contract, b"xmip round-trip"),
        (Status::Success, Vec::new())
    );
    let (verdict, diagnostics) = judged(&mut state, &contract, &[b'o', b'k', 0xff]);
    assert_eq!(verdict, Status::Contract);
    assert_eq!(
        diagnostics,
        vec![(b"not-text: not UTF-8".to_vec(), b"byte 2".to_vec())]
    );
    assert_eq!(judged(&mut state, &contract, &[0, 1]).0, Status::Malformed);
    assert_eq!(
        bytes(last_error(Some(&state))),
        b"a NUL first is not text of any kind"
    );

    assert_eq!(
        asked(&contract, b"representation"),
        (Status::Success, b"text/plain".to_vec())
    );
    assert_eq!(asked(&contract, b"delimiters").0, Status::NotFound);
}

#[test]
fn a_module_says_whose_it_is_and_which_version() {
    let module = made(Factory);
    assert_eq!(module.descriptor.abi_version, ABI);
    assert_eq!(module.descriptor.trait_major, TRAIT_MAJOR);
    assert_eq!(module.descriptor.trait_minor, TRAIT_MINOR);
    assert_eq!((TRAIT_MAJOR, TRAIT_MINOR), (1, 0));
    assert_eq!(module.descriptor.module_major, 0);
    assert_eq!(module.descriptor.module_patch, 0);
    assert_eq!(bytes(last_error(Some(&module.state))), b"");
    assert!(module.state.diagnostics().is_empty());
}

#[test]
fn a_load_through_a_null_pointer_is_refused() {
    let mut state = made(Factory).state;
    let mut contract = None;
    let refused = load::<Factory>(None, Str::empty(), Some(&mut contract));
    assert_eq!(refused, Status::Invalid);
    assert!(contract.is_none());
    assert_eq!(load(Some(&mut state), Str::empty(), None), Status::Invalid);
    assert_eq!(bytes(last_error(Some(&state))), b"");
    assert_eq!(bytes(last_error::<Factory>(None)), b"");
}

#[test]
fn a_descriptor_that_is_not_text_is_refused_with_that_reason() {
    let mut state = made(Factory).state;
    let mut contract = None;
    for descriptor in [Str::Bytes(&[0xff]), Str::Null { len: 4 }] {
        let refused = load(Some(&mut state), descriptor, Some(&mut contract));
        assert_eq!(refused, Status::Invalid);
        assert!(contract.is_none());
        assert_eq!(
            bytes(last_error(Some(&state))),
            b"the descriptor is not UTF-8"
        );
    }
}

#[test]
fn a_load_is_settled_by_what_the_factory_answered() {
    let mut state = made(Binds).state;
    let mut contract = None;
    let error = Err(ContractError::new("no such schema"));
    let refused = settle(&mut state, "a", error, &mut contract);
    assert_eq!(refused, Status::Malformed);
    assert!(contract.is_none());
    let loaded = settle(&mut state, "b", Ok(text()), &mut contract);
    assert_eq!(loaded, Status::Success);
    assert_eq!(
        asked(&contract.expect("loaded"), b"descriptor"),
        (Status::Success, b"b".to_vec())
    );
    assert_eq!(
        bytes(last_error(Some(&state))),
        b"no such schema",
        "kept until the next reason"
    );
}

#[test]
fn what_a_location_bound_is_what_the_contract_implies() {
    let mut state = made(Binds).state;
    let mut contract = None;
    let bound = "sch\u{e9}ma.xsd".as_bytes();
    let loaded = load(Some(&mut state), Str::Bytes(bound), Some(&mut contract));
    assert_eq!(loaded, Status::Success);
    let contract = contract.expect("loaded");
    assert_eq!(
        asked(&contract, b"descriptor"),
        (Status::Success, bound.to_vec())
    );
    assert_eq!(
        asked(&contract, b"contract"),
        (Status::Success, b"text".to_vec())
    );
    assert_eq!(asked(&contract, b"version"), (Status::Success, b"1".to_vec()));
    assert_eq!(asked(&contract, b"").0, Status::NotFound);
    assert_eq!(asked(&contract, &[0xff]), (Status::Invalid, Vec::new()));
}

#[test]
fn a_contract_bound_by_nothing_implies_no_descriptor() {
    let descriptor = text().0;
    let nothing = implied("", &descriptor, Some("descriptor"));
    assert_eq!(nothing, Err(Status::NotFound));
    let bound = implied("x.xsd", &descriptor, Some("descriptor"));
    assert_eq!(bound, Ok("x.xsd"));
    assert_eq!(implied("", &descriptor, Some("contract")), Ok("text"));
    assert_eq!(implied("", &descriptor, None), Err(Status::Invalid));
}

#[test]
fn an_implication_through_a_null_pointer_is_refused() {
    let mut state = made(Binds).state;
    let mut contract = None;
    load(Some(&mut state), Str::empty(), Some(&mut contract));
    let contract = contract.expect("loaded");
    let mut answer = Str::Bytes(b"as it was");
    let refused = sdk::contract::export::implies::<Text>(None, Str::Bytes(b"version"), Some(&mut answer));
    assert_eq!(refused, Status::Invalid);
    assert_eq!(bytes(answer), b"as it was");
    let refused = sdk::contract::export::implies(Some(&contract), Str::Bytes(b"version"), None);
    assert_eq!(refused, Status::Invalid);
}

#[test]
fn a_validation_through_a_null_pointer_is_refused_and_out_left_untouched() {
    let mut state = made(Binds).state;
    let mut contract = None;
    load(Some(&mut state), Str::empty(), Some(&mut contract));
    let contract = contract.expect("loaded");
    let reader = Reader { read: true };
    for missing in 0..5 {
        let (mut out, mut out_len) = (Lent::Untouched, 7usize);
        let begun = begin(
            if missing == 0 { None } else { Some(&state) },
            if missing == 1 { None } else { Some(&contract) },
            if missing == 2 { None } else { Some(&reader) },
            if missing == 3 { None } else { Some(&mut out) },
            if missing == 4 { None } else { Some(&mut out_len) },
        );
        assert_eq!(begun.err(), Some(Status::Invalid));
        assert_eq!((out, out_len), (Lent::Untouched, 7));
    }
}

#[test]
fn a_reader_that_cannot_be_read_is_refused_once_out_is_taken_back() {
    let mut state = made(Binds).state;
    let mut contract = None;
    load(Some(&mut state), Str::empty(), Some(&mut contract));
    let contract = contract.expect("loaded");
    let (mut out, mut out_len) = (Lent::Diagnostics, 7usize);
    let begun = begin(
        Some(&state),
        Some(&contract),
        Some(&Reader { read: false }),
        Some(&mut out),
        Some(&mut out_len),
    );
    assert_eq!(begun.err(), Some(Status::Invalid));
    assert_eq!((out, out_len), (Lent::Nothing, 0));
}

/// A reading that has begun.
fn reading() -> Reading {
    let mut state = made(Binds).state;
    let mut contract = None;
    load(Some(&mut state), Str::empty(), Some(&mut contract));
    let contract = contract.expect("loaded");
    begin(
        Some(&state),
        Some(&contract),
        Some(&Reader { read: true }),
        Some(&mut Lent::Untouched),
        Some(&mut 0),
    )
    .expect("begun")
}

#[test]
fn a_reader_that_fails_is_answered_by_its_own_code_where_one_fits() {
    let mut reading = reading();
    assert_eq!(
        reading.take(-5, &[]),
        Progress::Failed(Status::Host(-5))
    );
    assert_eq!(
        reading.take(i64::from(i32::MIN), &[]),
        Progress::Failed(Status::Host(i32::MIN))
    );
    assert_eq!(
        reading.take(i64::from(i32::MIN) - 1, &[]),
        Progress::Failed(Status::Io)
    );
    assert_eq!(reading.take(i64::MIN, &[]), Progress::Failed(Status::Io));
    assert_eq!(reading.take(0, &[1, 2]), Progress::End);
    assert_eq!(reading.take(2, &[1, 2]), Progress::More);
}

/// What the contract is handed, in the words of a refusal.
struct Echo(ContractDescriptor);

impl Contract for Echo {
    fn descriptor(&self) -> &ContractDescriptor {
        &self.0
    }

    fn identify(&self, _stream: &Stream) -> Result<bool, ContractError> {
        Ok(true)
    }

    fn validate(&self, stream: &Stream) -> Result<ValidationResult, ContractError> {
        assert_eq!(stream.id(), StreamId(0));
        Err(ContractError::new(&format!("{:?}", stream.bytes())))
    }
}

struct Echoes;

impl ContractFactory for Echoes {
    type Loads = Echo;

    fn technology(&self) -> &'static str {
        "echo"
    }

    fn load(&self, _reference: &str) -> Result<Echo, ContractError> {
        Ok(Echo(text().0))
    }
}

#[test]
fn a_contract_is_handed_the_whole_stream_however_it_was_cut() {
    let mut state = made(Echoes).state;
    let mut contract = None;
    load(Some(&mut state), Str::empty(), Some(&mut contract));
    let contract = contract.expect("loaded");
    for cut in [1usize, 2, 5, 7] {
        let (mut out, mut out_len) = (Lent::Untouched, 7usize);
        let mut reading = begin(
            Some(&state),
            Some(&contract),
            Some(&Reader { read: true }),
            Some(&mut out),
            Some(&mut out_len),
        )
        .expect("begun");
        let whole = [1u8, 2, 3, 4, 5, 6, 7];
        for piece in whole.chunks(cut) {
            let mut chunk = [9u8; 16];
            chunk[..piece.len()].copy_from_slice(piece);
            let got = i64::try_from(piece.len()).expect("small");
            assert_eq!(reading.take(got, &chunk), Progress::More);
        }
        assert_eq!(reading.take(0, &[9; 16]), Progress::End);
        let status = validate(&mut state, &contract, reading, &mut out, &mut out_len);
        assert_eq!(status, Status::Malformed);
        assert_eq!((out, out_len), (Lent::Nothing, 0));
        assert_eq!(
            bytes(last_error(Some(&state))),
            format!("{whole:?}").as_bytes()
        );
    }
}

#[test]
fn every_issue_is_told_in_order_with_its_place_where_it_has_one() {
    let mut state = made(Binds).state;
    let (mut out, mut out_len) = (Lent::Nothing, 0usize);
    let issues = vec![
        ValidationIssue::at("first", "is wrong", "line 1"),
        ValidationIssue {
            code: "second".to_string(),
            message: "is wrong too".to_string(),
            path: None,
        },
    ];
    let judgment = Ok(ValidationResult::of(issues));
    let status = judge(&mut state, judgment, &mut out, &mut out_len);
    assert_eq!(status, Status::Contract);
    assert_eq!((out, out_len), (Lent::Diagnostics, 2));
    let told: Vec<(&str, &str)> = state
        .diagnostics()
        .iter()
        .map(|found| (found.message.as_str(), found.location.as_str()))
        .collect();
    assert_eq!(
        told,
        vec![("first: is wrong", "line 1"), ("second: is wrong too", "")]
    );
}

#[test]
fn validity_decides_and_not_the_number_of_issues() {
    let mut state = made(Binds).state;
    let (mut out, mut out_len) = (Lent::Nothing, 0usize);
    let passed = Ok(ValidationResult {
        valid: true,
        issues: vec![ValidationIssue::at("note", "is fine", "line 1")],
    });
    let status = judge(&mut state, passed, &mut out, &mut out_len);
    assert_eq!(status, Status::Success);
    assert_eq!((out, out_len), (Lent::Nothing, 0));
    let failed = Ok(ValidationResult {
        valid: false,
        issues: Vec::new(),
    });
    let status = judge(&mut state, failed, &mut out, &mut out_len);
    assert_eq!(status, Status::Contract);
    assert_eq!((out, out_len), (Lent::Diagnostics, 0));
}

#[test]
fn diagnostics_stay_until_another_stream_breaks_its_contract() {
    let mut state = made(Factory).state;
    let mut contract = None;
    load(Some(&mut state), Str::empty(), Some(&mut contract));
    let contract = contract.expect("loaded");
    assert_eq!(judged(&mut state, &contract, &[0xff]).0, Status::Contract);
    assert_eq!(judged(&mut state, &contract, b"ok").0, Status::Success);
    assert_eq!(judged(&mut state, &contract, &[0]).0, Status::Malformed);
    assert_eq!(state.diagnostics().len(), 1);
    assert_eq!(state.diagnostics()[0].location, "byte 0");
    assert_eq!(judged(&mut state, &contract, &[b'a', 0xff]).0, Status::Contract);
    assert_eq!(state.diagnostics()[0].location, "byte 1");
}

#[test]
fn a_panic_is_answered_and_every_other_end_passed_on() {
    assert_eq!(guarded(None), Status::Panic);
    assert_eq!(guarded(Some(Status::Success)), Status::Success);
    assert_eq!(guarded(Some(Status::Host(-7))), Status::Host(-7));
}

#[test]
fn a_judgment_is_valid_when_nothing_was_found() {
    assert!(ValidationResult::of(Vec::new()).valid);
    let issue = ValidationIssue::at("code", "message", "path");
    assert!(!ValidationResult::of(vec![issue]).valid);
}

#[test]
fn there_is_nothing_to_configure_start_or_stop() {
    assert_eq!(configure(Str::Bytes(b"key = 1")), Status::Success);
    assert_eq!(configure(Str::Null { len: 3 }), Status::Success);
    assert_eq!(lifecycle(), Status::Success);
}

#[test]
fn a_boxed_contract_is_the_contract_in_the_box() {
    let boxed: Box<dyn Contract> = Box::new(text());
    let stream = Stream::new(StreamId(4), vec![b'o', b'k']);
    assert_eq!(stream.id(), StreamId(4));
    assert_eq!(boxed.descriptor().version, "1");
    assert_eq!(boxed.identify(&stream).ok(), Some(true));
    assert!(boxed.validate(&stream).expect("judged").valid);
    let broken = Stream::new(StreamId(5), vec![0xff]);
    assert!(!boxed.validate(&broken).expect("judged").valid);
}
