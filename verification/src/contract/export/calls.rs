//! What each call of a host comes to, said of its arguments and its answer
//! alone, and how one call bears on the next.
//!
//! `call_ensures(f, (a, b), r)` is read "`f`, called with `a` and `b`,
//! answered `r`". What is behind a `&mut` is `old` before the call and `final`
//! after it; `None` is a null pointer.

use super::super::{
    Contract, ContractDescriptor, ContractError, ContractFactory, Stream, StreamId, ValidationResult,
};
use super::{
    begin, configure, create, guarded, implied, judge, last_error, lifecycle, load, settle,
    validate, Diagnostic, Host, Identity, Lent, Loaded, Module, Progress, Reader, Reading, State,
    Status,
};
use crate::text::Str;
use vstd::prelude::*;
use vstd::utf8::*;

verus! {

/// A host that speaks the module's own version of the ABI gets a module; any
/// other is refused as unsupported and finds what it left.
pub proof fn a_module_is_made_for_its_own_version<F: ContractFactory>(
    host: Host,
    slot: &mut Option<Module<F>>,
    factory: F,
    identity: Identity,
    abi_version: u32,
    status: Status,
)
    requires
        call_ensures(
            create::<F>,
            (Some(&host), Some(slot), factory, identity, abi_version),
            status,
        ),
    ensures
        host.abi_version == abi_version ==> status == Status::Success && *final(slot) is Some,
        host.abi_version != abi_version ==> status == Status::Unsupported && *final(slot) == *old(slot),
{
}

/// No module is made for a null host or through a null pointer, whichever
/// version is spoken, and nothing is written.
pub proof fn no_module_is_made_of_null<F: ContractFactory>(
    host: Option<&Host>,
    slot: &mut Option<Module<F>>,
    factory: F,
    identity: Identity,
    abi_version: u32,
    hostless: Status,
    slotless: Status,
)
    requires
        call_ensures(create::<F>, (None, Some(slot), factory, identity, abi_version), hostless),
        call_ensures(create::<F>, (host, None, factory, identity, abi_version), slotless),
    ensures
        hostless == Status::Invalid,
        *final(slot) == *old(slot),
        slotless == Status::Invalid,
{
}

/// A module presents itself by its identity: the provider and the standard
/// byte for byte, the version component for component, as a contract of the
/// table's version, for the ABI it was made for.
pub proof fn a_module_presents_its_identity<F: ContractFactory>(
    host: Host,
    slot: &mut Option<Module<F>>,
    factory: F,
    identity: Identity,
    abi_version: u32,
    status: Status,
)
    requires
        call_ensures(
            create::<F>,
            (Some(&host), Some(slot), factory, identity, abi_version),
            status,
        ),
        host.abi_version == abi_version,
    ensures
        ({
            let descriptor = final(slot)->0.descriptor;
            &&& (descriptor.module_major, descriptor.module_minor, descriptor.module_patch)
                == identity.version
            &&& descriptor.abi_version == abi_version
            &&& descriptor.trait_major == 1
            &&& descriptor.trait_minor == 0
            &&& descriptor.provider.bytes() == encode_utf8(identity.provider@)
            &&& descriptor.standard.bytes() == encode_utf8(identity.standard@)
            &&& descriptor.module.bytes() == encode_utf8("contract"@)
        }),
{
    let descriptor = final(slot)->0.descriptor;
    crate::text::text_read_is_lent_unchanged(descriptor.provider);
    crate::text::text_read_is_lent_unchanged(descriptor.standard);
    crate::text::text_read_is_lent_unchanged(descriptor.module);
}

/// A module just made is over the factory it was made with, has no reason to
/// give and lends no diagnostic.
pub proof fn a_module_starts_with_nothing_to_tell<F: ContractFactory>(
    host: Host,
    slot: &mut Option<Module<F>>,
    factory: F,
    identity: Identity,
    abi_version: u32,
    status: Status,
    reason: Str<'_>,
    found: &Vec<Diagnostic>,
)
    requires
        call_ensures(
            create::<F>,
            (Some(&host), Some(slot), factory, identity, abi_version),
            status,
        ),
        host.abi_version == abi_version,
        call_ensures(last_error::<F>, (Some(&final(slot)->0.state),), reason),
        call_ensures(State::<F>::diagnostics, (&final(slot)->0.state,), found),
    ensures
        final(slot)->0.state@.factory == factory,
        reason.bytes().len() == 0,
        found@.len() == 0,
{
    assert(encode_utf8(Seq::empty()) =~= Seq::<u8>::empty());
    assert(found@.map_values(|found: Diagnostic| found@).len() == found@.len());
}

/// Configuring, starting and stopping a module always succeed.
pub proof fn a_module_needs_no_care(toml: Str<'_>, configured: Status, cycled: Status)
    requires
        call_ensures(configure, (toml,), configured),
        call_ensures(lifecycle, (), cycled),
    ensures
        configured == Status::Success,
        cycled == Status::Success,
{
}

/// A contract the factory loaded is handed out, that very contract and bound
/// by that very reference, and the instance stays as it was.
pub proof fn a_loaded_contract_is_handed_out<F: ContractFactory>(
    state: &mut State<F>,
    reference: &str,
    contract: F::Loads,
    out: &mut Option<Loaded<F::Loads>>,
    status: Status,
)
    requires
        call_ensures(settle::<F>, (state, reference, Ok(contract), out), status),
    ensures
        status == Status::Success,
        *final(out) matches Some(loaded) && loaded@.contract == contract && loaded@.descriptor
            == reference@,
        final(state)@.factory == old(state)@.factory,
        final(state)@.diagnostics == old(state)@.diagnostics,
        final(state)@.error == old(state)@.error,
{
}

/// A contract the factory could not load is not handed out, and the factory's
/// reason, word for word, is what the last error then says.
pub proof fn a_load_that_fails_says_why<F: ContractFactory>(
    state: &mut State<F>,
    reference: &str,
    error: ContractError,
    out: &mut Option<Loaded<F::Loads>>,
    status: Status,
    reason: Str<'_>,
)
    requires
        call_ensures(settle::<F>, (state, reference, Err(error), out), status),
        call_ensures(last_error::<F>, (Some(&*final(state)),), reason),
    ensures
        status == Status::Malformed,
        *final(out) == *old(out),
        reason.bytes() == encode_utf8(error.message@),
        final(state)@.factory == old(state)@.factory,
        final(state)@.diagnostics == old(state)@.diagnostics,
{
}

/// A load through a null pointer is refused and changes nothing.
pub proof fn a_load_through_null_is_refused<F: ContractFactory>(
    state: &mut State<F>,
    descriptor: Str<'_>,
    out: &mut Option<Loaded<F::Loads>>,
    stateless: Status,
    outless: Status,
)
    requires
        call_ensures(load::<F>, (None, descriptor, Some(out)), stateless),
        call_ensures(load::<F>, (Some(state), descriptor, None), outless),
    ensures
        stateless == Status::Invalid,
        *final(out) == *old(out),
        outless == Status::Invalid,
        *final(state) == *old(state),
{
}

/// A descriptor that is not UTF-8, or is null and yet some bytes long, is
/// refused for that reason and nothing is handed out.
pub proof fn a_descriptor_that_is_not_text_is_refused<F: ContractFactory>(
    state: &mut State<F>,
    descriptor: Str<'_>,
    out: &mut Option<Loaded<F::Loads>>,
    status: Status,
    reason: Str<'_>,
)
    requires
        call_ensures(load::<F>, (Some(state), descriptor, Some(out)), status),
        match descriptor {
            Str::Null { len } => len > 0,
            Str::Bytes(bytes) => !valid_utf8(bytes@),
        },
        call_ensures(last_error::<F>, (Some(&*final(state)),), reason),
    ensures
        status == Status::Invalid,
        *final(out) == *old(out),
        reason.bytes() == encode_utf8("the descriptor is not UTF-8"@),
        final(state)@.factory == old(state)@.factory,
        final(state)@.diagnostics == old(state)@.diagnostics,
{
}

/// A descriptor that is text is what the instance's factory is asked for, and
/// its answer decides: its contract is handed out bound by that text, or its
/// reason is kept.
pub proof fn a_load_is_as_the_factory_answers<F: ContractFactory>(
    state: &mut State<F>,
    descriptor: Str<'_>,
    out: &mut Option<Loaded<F::Loads>>,
    status: Status,
)
    requires
        call_ensures(load::<F>, (Some(state), descriptor, Some(out)), status),
        descriptor matches Str::Bytes(bytes) && valid_utf8(bytes@),
    ensures
        exists|reference: &str, answer: Result<F::Loads, ContractError>|
            {
                &&& encode_utf8(reference@) == descriptor.bytes()
                &&& #[trigger] call_ensures(
                    F::load,
                    (&old(state)@.factory, reference),
                    answer,
                )
                &&& match answer {
                    Ok(contract) => {
                        &&& status == Status::Success
                        &&& *final(out) matches Some(loaded)
                        &&& loaded@.contract == contract
                        &&& loaded@.descriptor == reference@
                        &&& final(state)@.error == old(state)@.error
                    },
                    Err(error) => {
                        &&& status == Status::Malformed
                        &&& *final(out) == *old(out)
                        &&& final(state)@.error == error.message@
                    },
                }
            },
        final(state)@.factory == old(state)@.factory,
        final(state)@.diagnostics == old(state)@.diagnostics,
{
    crate::text::text_read_is_lent_unchanged(descriptor);
    let (reference, answer) = choose|reference: &str, answer: Result<F::Loads, ContractError>|
        {
            &&& reference@ == descriptor.says()->0
            &&& #[trigger] call_ensures(F::load, (&old(state)@.factory, reference), answer)
            &&& super::settled(
                old(state)@,
                final(state)@,
                descriptor.says()->0,
                answer,
                *old(out),
                *final(out),
                status,
            )
        };
    assert(call_ensures(F::load, (&old(state)@.factory, reference), answer));
}

/// What a Location bound a contract by is what that contract then implies of
/// `descriptor`, byte for byte.
pub proof fn what_is_loaded_by_is_what_is_implied<F: ContractFactory>(
    state: &mut State<F>,
    descriptor: Str<'_>,
    out: &mut Option<Loaded<F::Loads>>,
    loads: Status,
    contract: Loaded<F::Loads>,
    key: Str<'_>,
    answer: &mut Str<'_>,
    implies: Status,
)
    requires
        call_ensures(load::<F>, (Some(state), descriptor, Some(out)), loads),
        loads == Status::Success,
        *final(out) == Some(contract),
        call_ensures(
            super::implies::<F::Loads>,
            (Some(&contract), key, Some(answer)),
            implies,
        ),
        key.says() == Some("descriptor"@),
        descriptor.bytes().len() > 0,
    ensures
        implies == Status::Success,
        final(answer).bytes() == descriptor.bytes(),
{
    crate::text::text_read_is_lent_unchanged(descriptor);
    assert(contract@.descriptor == descriptor.says()->0);
    if contract@.descriptor.len() == 0 {
        assert(contract@.descriptor =~= Seq::<char>::empty());
        assert(encode_utf8(Seq::<char>::empty()) =~= Seq::<u8>::empty());
    }
}

/// A reading ends exactly where the reader answers zero and goes on exactly
/// where it hands something over. A negative answer is a failure, told by that
/// very code wherever a status can carry it.
pub proof fn a_reading_ends_only_at_the_end(
    reading: &mut Reading,
    got: i64,
    chunk: &[u8],
    progress: Progress,
)
    requires
        call_ensures(Reading::take, (reading, got, chunk), progress),
        got <= chunk@.len(),
    ensures
        progress == Progress::End <==> got == 0,
        progress == Progress::More <==> got > 0,
        progress is Failed <==> got < 0,
        i32::MIN <= got < 0 ==> (progress matches Progress::Failed(Status::Host(own)) && own
            == got),
        got < i32::MIN ==> progress == Progress::Failed(Status::Io),
        super::progressed(got) == Progress::End <==> got == 0,
{
}

/// A read adds the bytes it got, in order, behind those read before, and one
/// that got none adds none.
pub proof fn a_read_adds_what_it_got(
    reading: &mut Reading,
    got: i64,
    chunk: &[u8],
    progress: Progress,
)
    requires
        call_ensures(Reading::take, (reading, got, chunk), progress),
        got <= chunk@.len(),
    ensures
        final(reading)@.len() == old(reading)@.len() + if got > 0 {
            got as int
        } else {
            0
        },
        forall|k: int|
            0 <= k < old(reading)@.len() ==> #[trigger] final(reading)@[k] == old(reading)@[k],
        forall|k: int|
            0 <= k < got ==> #[trigger] chunk@[k] == final(reading)@[old(reading)@.len() + k],
{
}

/// A validation begins only where no pointer is null and the reader can be
/// read, and then with nothing read.
pub proof fn a_validation_begins_where_it_can<F: ContractFactory>(
    state: Option<&State<F>>,
    contract: Option<&Loaded<F::Loads>>,
    input: Option<&Reader>,
    out: &mut Lent,
    out_len: &mut usize,
    begun: Result<Reading, Status>,
)
    requires
        call_ensures(begin::<F>, (state, contract, input, Some(out), Some(out_len)), begun),
    ensures
        begun is Ok <==> state is Some && contract is Some && (input matches Some(reader)
            && reader.read),
        begun matches Ok(reading) ==> reading@.len() == 0,
        begun matches Err(status) ==> status == Status::Invalid,
        state is Some && contract is Some && input is Some ==> *final(out) == Lent::Nothing
            && *final(out_len) == 0,
        state is None || contract is None || input is None ==> *final(out) == *old(out)
            && *final(out_len) == *old(out_len),
{
}

/// A validation that has nowhere to answer is refused, and the one pointer
/// given is not written through.
pub proof fn a_validation_needs_somewhere_to_answer<F: ContractFactory>(
    state: Option<&State<F>>,
    contract: Option<&Loaded<F::Loads>>,
    input: Option<&Reader>,
    out: &mut Lent,
    out_len: &mut usize,
    lengthless: Result<Reading, Status>,
    outless: Result<Reading, Status>,
)
    requires
        call_ensures(begin::<F>, (state, contract, input, Some(out), None), lengthless),
        call_ensures(begin::<F>, (state, contract, input, None, Some(out_len)), outless),
    ensures
        lengthless matches Err(status) && status == Status::Invalid,
        outless matches Err(status) && status == Status::Invalid,
        *final(out) == *old(out),
        *final(out_len) == *old(out_len),
{
}

/// A Stream found invalid is answered as breaking its contract, and what is
/// lent is one diagnostic for each issue, in their order: its message is the
/// issue's code, a colon and a space, and the issue's message; its location is
/// the issue's path, however long, and nothing where there is none.
pub proof fn every_issue_is_told_with_its_words_and_place<F>(
    state: &mut State<F>,
    result: ValidationResult,
    out: &mut Lent,
    out_len: &mut usize,
    status: Status,
    found: &Vec<Diagnostic>,
)
    requires
        call_ensures(judge::<F>, (state, Ok(result), out, out_len), status),
        !result.valid,
        call_ensures(State::<F>::diagnostics, (&*final(state),), found),
    ensures
        status == Status::Contract,
        *final(out) == Lent::Diagnostics,
        *final(out_len) == result.issues@.len(),
        found@.len() == result.issues@.len(),
        forall|k: int|
            #![trigger found@[k]]
            0 <= k < found@.len() ==> {
                &&& found@[k].message@ == result.issues@[k].code@ + seq![':', ' ']
                    + result.issues@[k].message@
                &&& (result.issues@[k].path matches Some(path) ==> found@[k].location@ == path@)
                &&& (result.issues@[k].path is None ==> found@[k].location@.len() == 0)
                &&& (found@[k].location@.len() == 0 ==> (result.issues@[k].path matches Some(path)
                    ==> path@.len() == 0))
                &&& found@[k].offset == u64::MAX
                &&& found@[k].code == Status::Contract
            },
        final(state)@.error == old(state)@.error,
        final(state)@.factory == old(state)@.factory,
{
    reveal_strlit(": ");
    assert(": "@ =~= seq![':', ' ']);
    let views = found@.map_values(|found: Diagnostic| found@);
    let told = super::told_all(result.issues@);
    assert(final(state)@.diagnostics == told);
    assert(views == told);
    assert(views.len() == found@.len() && told.len() == result.issues@.len());
    assert forall|k: int| #![trigger found@[k]] 0 <= k < found@.len() implies {
        &&& found@[k].message@ == result.issues@[k].code@ + seq![':', ' ']
            + result.issues@[k].message@
        &&& (result.issues@[k].path matches Some(path) ==> found@[k].location@ == path@)
        &&& (result.issues@[k].path is None ==> found@[k].location@.len() == 0)
        &&& (found@[k].location@.len() == 0 ==> (result.issues@[k].path matches Some(path)
            ==> path@.len() == 0))
        &&& found@[k].offset == u64::MAX
        &&& found@[k].code == Status::Contract
    } by {
        assert(views[k] == found@[k]@);
        assert(told[k] == super::told(result.issues@[k]@));
    }
}

/// A Stream found valid is answered as a success, whatever was remarked on it,
/// and nothing is changed or lent.
pub proof fn a_valid_stream_changes_nothing<F>(
    state: &mut State<F>,
    result: ValidationResult,
    out: &mut Lent,
    out_len: &mut usize,
    status: Status,
)
    requires
        call_ensures(judge::<F>, (state, Ok(result), out, out_len), status),
        result.valid,
    ensures
        status == Status::Success,
        *final(out) == *old(out),
        *final(out_len) == *old(out_len),
        final(state)@.error == old(state)@.error,
        final(state)@.diagnostics == old(state)@.diagnostics,
        final(state)@.factory == old(state)@.factory,
{
}

/// A Stream that cannot be judged is answered as malformed, the contract's
/// reason, word for word, is what the last error then says, and nothing is
/// lent.
pub proof fn a_stream_that_cannot_be_judged_says_why<F>(
    state: &mut State<F>,
    error: ContractError,
    out: &mut Lent,
    out_len: &mut usize,
    status: Status,
    reason: Str<'_>,
)
    requires
        call_ensures(judge::<F>, (state, Err(error), out, out_len), status),
        call_ensures(last_error::<F>, (Some(&*final(state)),), reason),
    ensures
        status == Status::Malformed,
        reason.bytes() == encode_utf8(error.message@),
        *final(out) == *old(out),
        *final(out_len) == *old(out_len),
        final(state)@.diagnostics == old(state)@.diagnostics,
        final(state)@.factory == old(state)@.factory,
{
}

/// The loaded contract is what judges, it judges the bytes that were read and
/// no others, and its judgment decides what the host is answered.
pub proof fn a_verdict_is_as_the_contract_judges<F: ContractFactory>(
    state: &mut State<F>,
    contract: &Loaded<F::Loads>,
    reading: Reading,
    out: &mut Lent,
    out_len: &mut usize,
    status: Status,
)
    requires
        call_ensures(validate::<F>, (state, contract, reading, out, out_len), status),
    ensures
        exists|stream: Stream, judgment: Result<ValidationResult, ContractError>|
            {
                &&& stream@.bytes == reading@
                &&& stream@.id == StreamId(0)
                &&& #[trigger] call_ensures(
                    <F::Loads as Contract>::validate,
                    (&contract@.contract, &stream),
                    judgment,
                )
                &&& match judgment {
                    Ok(result) => if result.valid {
                        &&& status == Status::Success
                        &&& final(state)@ == old(state)@
                        &&& *final(out) == *old(out)
                        &&& *final(out_len) == *old(out_len)
                    } else {
                        &&& status == Status::Contract
                        &&& final(state)@.diagnostics.len() == result.issues@.len()
                        &&& forall|k: int|
                            #![trigger final(state)@.diagnostics[k]]
                            0 <= k < result.issues@.len() ==> {
                                let found = final(state)@.diagnostics[k];
                                let issue = result.issues@[k];
                                &&& found.code == Status::Contract
                                &&& found.message == issue.code@ + ": "@ + issue.message@
                                &&& found.location == (match issue.path {
                                    Some(path) => path@,
                                    None => Seq::empty(),
                                })
                                &&& found.offset == u64::MAX
                            }
                        &&& final(state)@.error == old(state)@.error
                        &&& *final(out) == Lent::Diagnostics
                        &&& *final(out_len) == result.issues@.len()
                    },
                    Err(error) => {
                        &&& status == Status::Malformed
                        &&& final(state)@.error == error.message@
                        &&& final(state)@.diagnostics == old(state)@.diagnostics
                        &&& *final(out) == *old(out)
                        &&& *final(out_len) == *old(out_len)
                    },
                }
            },
        final(state)@.factory == old(state)@.factory,
{
    let (stream, judgment) = choose|
        stream: Stream,
        judgment: Result<ValidationResult, ContractError>,
    |
        {
            &&& stream@ == (super::super::StreamView { id: StreamId(0), bytes: reading@ })
            &&& #[trigger] call_ensures(
                <F::Loads as Contract>::validate,
                (&contract@.contract, &stream),
                judgment,
            )
            &&& super::judged(
                old(state)@,
                final(state)@,
                judgment,
                (*old(out), *old(out_len)),
                (*final(out), *final(out_len)),
                status,
            )
        };
    assert(call_ensures(
        <F::Loads as Contract>::validate,
        (&contract@.contract, &stream),
        judgment,
    ));
}

/// The four keys are not one another.
proof fn lemma_keys_differ()
    ensures
        "descriptor"@ != "contract"@,
        "descriptor"@ != "version"@,
        "descriptor"@ != "representation"@,
        "contract"@ != "version"@,
        "contract"@ != "representation"@,
        "version"@ != "representation"@,
{
    reveal_strlit("descriptor");
    reveal_strlit("contract");
    reveal_strlit("version");
    reveal_strlit("representation");
    assert("descriptor"@[0] == 'd');
    assert("contract"@[0] == 'c');
    assert("version"@[0] == 'v');
    assert("representation"@[0] == 'r');
}

/// A contract answers to four keys and no other: to `descriptor` with what it
/// was bound by, unless that is nothing, and to `contract`, `version` and
/// `representation` with what it says of itself. A key that is no text is
/// refused.
pub proof fn a_contract_answers_to_its_keys<'a>(
    bound: &'a str,
    descriptor: &'a ContractDescriptor,
    key: Option<&str>,
    answer: Result<&'a str, Status>,
)
    requires
        call_ensures(implied, (bound, descriptor, key), answer),
    ensures
        key is None ==> answer == Err::<&'a str, _>(Status::Invalid),
        key matches Some(key) ==> {
            &&& (key@ == "descriptor"@ && bound@.len() > 0 ==> (answer matches Ok(text) && text@
                == bound@))
            &&& (key@ == "descriptor"@ && bound@.len() == 0 ==> answer == Err::<&'a str, _>(
                Status::NotFound,
            ))
            &&& (key@ == "contract"@ ==> (answer matches Ok(text) && text@ == descriptor.id.0@))
            &&& (key@ == "version"@ ==> (answer matches Ok(text) && text@ == descriptor.version@))
            &&& (key@ == "representation"@ ==> (answer matches Ok(text) && text@
                == descriptor.representation@))
            &&& (key@ != "descriptor"@ && key@ != "contract"@ && key@ != "version"@ && key@
                != "representation"@ ==> answer == Err::<&'a str, _>(Status::NotFound))
        },
{
    lemma_keys_differ();
}

/// What a host is answered of a key is what the contract says of itself or was
/// bound by, byte for byte; a host that is not answered finds what it left.
pub proof fn a_host_is_answered_what_the_contract_says<C: Contract>(
    contract: &Loaded<C>,
    key: Str<'_>,
    out: &mut Str<'_>,
    status: Status,
)
    requires
        call_ensures(super::implies::<C>, (Some(contract), key, Some(out)), status),
    ensures
        exists|descriptor: &ContractDescriptor|
            {
                &&& #[trigger] call_ensures(C::descriptor, (&contract@.contract,), descriptor)
                &&& (key.says() == Some("contract"@) ==> status == Status::Success && final(out).bytes() == encode_utf8(descriptor.id.0@))
                &&& (key.says() == Some("version"@) ==> status == Status::Success && final(out).bytes() == encode_utf8(descriptor.version@))
                &&& (key.says() == Some("representation"@) ==> status == Status::Success
                    && final(out).bytes() == encode_utf8(descriptor.representation@))
            },
        key.says() == Some("descriptor"@) && contract@.descriptor.len() > 0 ==> status
            == Status::Success && final(out).bytes() == encode_utf8(contract@.descriptor),
        key.says() == Some("descriptor"@) && contract@.descriptor.len() == 0 ==> status
            == Status::NotFound,
        key.says() is None ==> status == Status::Invalid,
        key.says() matches Some(says) ==> (says != "descriptor"@ && says != "contract"@ && says
            != "version"@ && says != "representation"@ ==> status == Status::NotFound),
        status == Status::Success || *final(out) == *old(out),
{
    lemma_keys_differ();
    let descriptor = choose|descriptor: &ContractDescriptor|
        {
            &&& #[trigger] call_ensures(C::descriptor, (&contract@.contract,), descriptor)
            &&& match super::implication(contract@.descriptor, descriptor@, key.says()) {
                Ok(implied) => {
                    &&& status == Status::Success
                    &&& final(out).says() == Some(implied)
                    &&& final(out).bytes() == encode_utf8(implied)
                },
                Err(refused) => {
                    &&& status == refused
                    &&& *final(out) == *old(out)
                },
            }
        };
    assert(call_ensures(C::descriptor, (&contract@.contract,), descriptor));
}

/// A question through a null pointer is refused and nothing is written.
pub proof fn a_question_through_null_is_refused<C: Contract>(
    contract: Option<&Loaded<C>>,
    key: Str<'_>,
    out: &mut Str<'_>,
    contractless: Status,
    outless: Status,
)
    requires
        call_ensures(super::implies::<C>, (None, key, Some(out)), contractless),
        call_ensures(super::implies::<C>, (contract, key, None), outless),
    ensures
        contractless == Status::Invalid,
        *final(out) == *old(out),
        outless == Status::Invalid,
{
}

/// A null instance has no reason to give.
pub proof fn nothing_has_no_reason<F>(reason: Str<'_>)
    requires
        call_ensures(last_error::<F>, (None::<&State<F>>,), reason),
    ensures
        reason.bytes().len() == 0,
{
    assert(encode_utf8(Seq::empty()) =~= Seq::<u8>::empty());
}

/// A call that panicked is answered as a panic, and any other as it ended.
pub proof fn only_a_panic_is_answered_as_one(end: Status, ended: Status, panicked: Status)
    requires
        call_ensures(guarded, (Some(end),), ended),
        call_ensures(guarded, (None,), panicked),
    ensures
        ended == end,
        panicked == Status::Panic,
{
}

} // verus!
