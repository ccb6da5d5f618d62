//! What holds of a loadable contract over more than one call.

use super::super::{
    ContractDescriptorView, ContractError, ContractFactory, ValidationIssue, ValidationResult,
};
use super::{Lent, Loaded, Progress, StateView, Status};
use crate::text::Str;
use vstd::prelude::*;
use vstd::utf8::*;

verus! {

/// What has been read after the first `count` of `reads`, each what it got and
/// the bytes it got it of.
pub open spec fn read_so_far(reads: Seq<(i64, Seq<u8>)>, count: nat) -> Seq<u8>
    decreases count,
{
    if count == 0 {
        Seq::empty()
    } else {
        super::gathered(
            read_so_far(reads, (count - 1) as nat),
            reads[count - 1].0,
            reads[count - 1].1,
        )
    }
}

/// `reads` hand `stream` over piece by piece, stopping at each of `cuts`, and
/// the last of them finds nothing left.
pub open spec fn hands_over(stream: Seq<u8>, cuts: Seq<int>, reads: Seq<(i64, Seq<u8>)>) -> bool {
    &&& cuts.len() == reads.len()
    &&& cuts.len() > 0
    &&& cuts[0] == 0
    &&& cuts.last() == stream.len()
    &&& forall|k: int|
        0 <= k < reads.len() - 1 ==> #[trigger] hands_over_piece(stream, cuts, reads, k)
    &&& reads.last().0 == 0
}

/// The read at `k` hands over at least one byte: those of `stream` from one
/// cut to the next.
pub open spec fn hands_over_piece(
    stream: Seq<u8>,
    cuts: Seq<int>,
    reads: Seq<(i64, Seq<u8>)>,
    k: int,
) -> bool {
    &&& 0 <= cuts[k] < cuts[k + 1] <= stream.len()
    &&& reads[k].0 == cuts[k + 1] - cuts[k]
    &&& reads[k].0 <= reads[k].1.len()
    &&& reads[k].1.take(reads[k].0 as int) == stream.subrange(cuts[k], cuts[k + 1])
}

proof fn lemma_read_to_a_cut(
    stream: Seq<u8>,
    cuts: Seq<int>,
    reads: Seq<(i64, Seq<u8>)>,
    count: nat,
)
    requires
        hands_over(stream, cuts, reads),
        count < reads.len(),
    ensures
        read_so_far(reads, count) == stream.take(cuts[count as int]),
    decreases count,
{
    if count == 0 {
        assert(stream.take(0) =~= Seq::empty());
    } else {
        let prior = count - 1;
        lemma_read_to_a_cut(stream, cuts, reads, prior as nat);
        assert(hands_over_piece(stream, cuts, reads, prior));
        assert(stream.take(cuts[prior]) + stream.subrange(cuts[prior], cuts[count as int])
            =~= stream.take(cuts[count as int]));
    }
}

/// A Stream is read whole however the host cuts it: the reading goes on while
/// bytes are handed over, however few at a time, ends where none are left, and
/// is the Stream.
pub proof fn a_stream_is_read_whole(
    stream: Seq<u8>,
    cuts: Seq<int>,
    reads: Seq<(i64, Seq<u8>)>,
)
    requires
        hands_over(stream, cuts, reads),
    ensures
        forall|k: int|
            0 <= k < reads.len() - 1 ==> super::progressed((#[trigger] reads[k]).0)
                == Progress::More,
        super::progressed(reads.last().0) == Progress::End,
        read_so_far(reads, reads.len()) == stream,
{
    let count = (reads.len() - 1) as nat;
    lemma_read_to_a_cut(stream, cuts, reads, count);
    assert(stream.take(stream.len() as int) =~= stream);
    assert(read_so_far(reads, count + 1) == super::gathered(
        read_so_far(reads, count),
        reads[count as int].0,
        reads[count as int].1,
    ));
    assert forall|k: int| 0 <= k < reads.len() - 1 implies super::progressed(
        (#[trigger] reads[k]).0,
    ) == Progress::More by {
        assert(hands_over_piece(stream, cuts, reads, k));
    }
}

/// What a Location bound a contract by is what the contract implies of
/// `descriptor`, byte for byte, unless it was bound by nothing: then nothing
/// answers.
pub proof fn what_was_bound_is_implied(descriptor: Str<'_>, says: ContractDescriptorView)
    requires
        descriptor.says() is Some,
    ensures
        ({
            let bound = descriptor.says()->0;
            let answer = super::implication(bound, says, Some("descriptor"@));
            &&& (bound.len() > 0 ==> answer == Ok::<_, Status>(bound))
            &&& (bound.len() == 0 ==> answer == Err::<Seq<char>, _>(Status::NotFound))
            &&& encode_utf8(bound) == descriptor.bytes()
        }),
{
    crate::text::text_read_is_lent_unchanged(descriptor);
    reveal_strlit("descriptor");
    reveal_strlit("contract");
    reveal_strlit("version");
    reveal_strlit("representation");
    assert("descriptor"@[0] != "contract"@[0]);
    assert("descriptor"@[0] != "version"@[0]);
    assert("descriptor"@[0] != "representation"@[0]);
}

/// A contract implies what it says of itself, whatever it was bound by.
pub proof fn what_a_contract_says_is_implied(bound: Seq<char>, says: ContractDescriptorView)
    ensures
        super::implication(bound, says, Some("contract"@)) == Ok::<_, Status>(says.id),
        super::implication(bound, says, Some("version"@)) == Ok::<_, Status>(says.version),
        super::implication(bound, says, Some("representation"@)) == Ok::<_, Status>(
            says.representation,
        ),
{
    reveal_strlit("descriptor");
    reveal_strlit("contract");
    reveal_strlit("version");
    reveal_strlit("representation");
    assert("contract"@[0] != "descriptor"@[0]);
    assert("version"@[0] != "descriptor"@[0]);
    assert("version"@[0] != "contract"@[0]);
    assert("representation"@[0] != "descriptor"@[0]);
    assert("representation"@[0] != "contract"@[0]);
    assert("representation"@[0] != "version"@[0]);
}

/// A load changes nothing but the reason it failed for, and that only when the
/// factory gave one; a contract is handed out exactly when it was loaded.
pub proof fn a_load_hands_out_or_gives_its_reason<F: ContractFactory>(
    before: StateView<F>,
    after: StateView<F>,
    reference: Seq<char>,
    answer: Result<F::Loads, ContractError>,
    held: Option<Loaded<F::Loads>>,
    holds: Option<Loaded<F::Loads>>,
    status: Status,
)
    requires
        super::settled(before, after, reference, answer, held, holds, status),
    ensures
        after.factory == before.factory,
        after.diagnostics == before.diagnostics,
        status == Status::Success || status == Status::Malformed,
        status == Status::Success <==> answer is Ok,
        status == Status::Success ==> after.error == before.error,
        status == Status::Success ==> (holds matches Some(loaded) && loaded@.contract
            == answer->Ok_0 && loaded@.descriptor == reference),
        status == Status::Malformed ==> after.error == answer->Err_0.message@ && holds == held,
{
}

/// A verdict tells a Stream that keeps the contract, one that breaks it and
/// one that cannot be judged apart: only the second lends diagnostics, one for
/// each issue and in their order, and only the third leaves a reason.
pub proof fn a_verdict_is_told_by_its_status<F>(
    before: StateView<F>,
    after: StateView<F>,
    judgment: Result<ValidationResult, ContractError>,
    out: (Lent, usize),
    finds: (Lent, usize),
    status: Status,
)
    requires
        super::judged(before, after, judgment, out, finds, status),
    ensures
        after.factory == before.factory,
        status == Status::Success <==> (judgment matches Ok(result) && result.valid),
        status == Status::Contract <==> (judgment matches Ok(result) && !result.valid),
        status == Status::Malformed <==> judgment is Err,
        status == Status::Success || status == Status::Contract || status == Status::Malformed,
        status != Status::Contract ==> finds == out && after.diagnostics == before.diagnostics,
        status != Status::Malformed ==> after.error == before.error,
        status == Status::Malformed ==> after.error == judgment->Err_0.message@,
        status == Status::Contract ==> {
            let issues = judgment->Ok_0.issues@;
            &&& finds.0 == Lent::Diagnostics
            &&& finds.1 == issues.len()
            &&& after.diagnostics.len() == issues.len()
            &&& forall|k: int|
                0 <= k < issues.len() ==> #[trigger] after.diagnostics[k] == super::told(issues[k]@)
        },
{
}

/// What a host is told of an issue is the issue's own: its code, a colon and a
/// space, and its message; its path, however long, as the location, which is
/// empty only where the issue has no path or an empty one.
pub proof fn an_issue_is_told_in_its_own_words(issue: ValidationIssue)
    ensures
        super::told(issue@).message == issue.code@ + ": "@ + issue.message@,
        issue.path matches Some(path) ==> super::told(issue@).location == path@,
        super::told(issue@).location.len() == 0 <==> (issue.path matches Some(path) ==> path@.len()
            == 0),
        super::told(issue@).code == Status::Contract,
        super::told(issue@).offset == u64::MAX,
{
}

/// A read that succeeds, one at the end and one that fails are told apart by
/// the sign of what the reader answered: only zero ends a reading, and a
/// failure is told by the reader's own code wherever a status can carry it.
pub proof fn only_zero_ends_a_reading(got: i64)
    ensures
        super::progressed(got) == Progress::End <==> got == 0,
        super::progressed(got) == Progress::More <==> got > 0,
        i32::MIN <= got < 0 ==> (super::progressed(got) matches Progress::Failed(
            Status::Host(own),
        ) && own == got),
        got < i32::MIN ==> super::progressed(got) == Progress::Failed(Status::Io),
{
}

/// A descriptor that describes an identity carries its version component for
/// component, and its provider and standard character for character.
pub proof fn a_description_carries_the_identity(
    descriptor: super::WireDescriptor,
    identity: super::Identity,
    abi_version: u32,
)
    requires
        super::describes(descriptor, identity, abi_version),
    ensures
        (descriptor.module_major, descriptor.module_minor, descriptor.module_patch)
            == identity.version,
        descriptor.provider.says() == Some(identity.provider@),
        descriptor.standard.says() == Some(identity.standard@),
        descriptor.module.says() == Some("contract"@),
        descriptor.abi_version == abi_version,
        descriptor.trait_major == 1,
        descriptor.trait_minor == 0,
{
}

/// A judgment made of the issues found passes exactly when there are none, and
/// otherwise tells of every one of them.
pub proof fn a_stream_passes_when_nothing_is_wrong<F>(
    before: StateView<F>,
    after: StateView<F>,
    issues: Seq<ValidationIssue>,
    result: ValidationResult,
    out: (Lent, usize),
    finds: (Lent, usize),
    status: Status,
)
    requires
        result.issues@ == issues,
        result.valid == (issues.len() == 0),
        super::judged(before, after, Ok(result), out, finds, status),
    ensures
        status == if issues.len() == 0 {
            Status::Success
        } else {
            Status::Contract
        },
        issues.len() > 0 ==> after.diagnostics == super::told_all(issues),
{
}

/// One call on an instance that came to an end.
pub enum Call<F: ContractFactory> {
    /// A load whose descriptor is not text.
    NotText,
    /// A load of `reference` the factory answered.
    Load { reference: Seq<char>, answer: Result<F::Loads, ContractError> },
    /// A validation the contract judged.
    Validate { judgment: Result<ValidationResult, ContractError> },
}

/// `after` is the instance `before` once `call` has been made on it.
pub open spec fn made<F: ContractFactory>(
    before: StateView<F>,
    after: StateView<F>,
    call: Call<F>,
) -> bool {
    match call {
        Call::NotText => after == super::failing(before, "the descriptor is not UTF-8"@),
        Call::Load { reference, answer } => exists|
            held: Option<Loaded<F::Loads>>,
            holds: Option<Loaded<F::Loads>>,
            status: Status,
        | #[trigger]
            super::settled(before, after, reference, answer, held, holds, status),
        Call::Validate { judgment } => exists|
            out: (Lent, usize),
            finds: (Lent, usize),
            status: Status,
        | #[trigger]
            super::judged(before, after, judgment, out, finds, status),
    }
}

/// `states` are the states an instance goes through while `calls` are made on
/// it one after another.
pub open spec fn driven<F: ContractFactory>(
    states: Seq<StateView<F>>,
    calls: Seq<Call<F>>,
) -> bool {
    &&& states.len() == calls.len() + 1
    &&& forall|step: int|
        0 <= step < calls.len() ==> made(states[step], states[step + 1], #[trigger] calls[step])
}

/// The reason a call failed for, when it failed for one.
pub open spec fn reason<F: ContractFactory>(call: Call<F>) -> Option<Seq<char>> {
    match call {
        Call::NotText => Some("the descriptor is not UTF-8"@),
        Call::Load { reference, answer } => match answer {
            Ok(_) => None,
            Err(error) => Some(error.message@),
        },
        Call::Validate { judgment } => match judgment {
            Ok(_) => None,
            Err(error) => Some(error.message@),
        },
    }
}

/// The last reason among the first `count` calls, or `first` where none gave
/// one.
pub open spec fn last_reason<F: ContractFactory>(
    first: Seq<char>,
    calls: Seq<Call<F>>,
    count: nat,
) -> Seq<char>
    decreases count,
{
    if count == 0 {
        first
    } else {
        match reason(calls[count - 1]) {
            Some(reason) => reason,
            None => last_reason(first, calls, (count - 1) as nat),
        }
    }
}

/// What the host was last told of a Stream that broke its contract, among the
/// first `count` calls, or `first` where none did.
pub open spec fn last_told<F: ContractFactory>(
    first: Seq<super::DiagnosticView>,
    calls: Seq<Call<F>>,
    count: nat,
) -> Seq<super::DiagnosticView>
    decreases count,
{
    if count == 0 {
        first
    } else {
        let earlier = last_told(first, calls, (count - 1) as nat);
        match calls[count - 1] {
            Call::Validate { judgment } => match judgment {
                Ok(result) => if result.valid {
                    earlier
                } else {
                    super::told_all(result.issues@)
                },
                Err(_) => earlier,
            },
            _ => earlier,
        }
    }
}

/// Whatever calls are made on an instance, its last error is the last reason a
/// call failed for, its diagnostics are those of the last Stream that broke
/// its contract, and its factory is the one it was made over.
pub proof fn an_instance_remembers_what_it_last_told<F: ContractFactory>(
    states: Seq<StateView<F>>,
    calls: Seq<Call<F>>,
    count: nat,
)
    requires
        driven(states, calls),
        count <= calls.len(),
    ensures
        states[count as int].factory == states[0].factory,
        states[count as int].error == last_reason(states[0].error, calls, count),
        states[count as int].diagnostics == last_told(states[0].diagnostics, calls, count),
    decreases count,
{
    if count > 0 {
        an_instance_remembers_what_it_last_told(states, calls, (count - 1) as nat);
        assert(made(states[count - 1], states[count as int], calls[count - 1]));
    }
}

} // verus!
