//! Remote dispatch: what crosses to other shards, how guest arguments are
//! serialised, and how what comes back settles the deferred result.

use crate::text::{joined, owned};
use vstd::prelude::*;

verus! {

/// A value in the form in which it travels between shards: raw bytes, or
/// JSON text.
#[derive(Debug, PartialEq, Eq)]
pub enum RemoteCallArgument {
    Binary(Vec<u8>),
    Text(String),
}

/// The mathematical value of a [`RemoteCallArgument`].
pub enum ArgumentModel {
    Binary(Seq<u8>),
    Text(Seq<char>),
}

impl View for RemoteCallArgument {
    type V = ArgumentModel;

    open spec fn view(&self) -> ArgumentModel {
        match self {
            RemoteCallArgument::Binary(bytes) => ArgumentModel::Binary(bytes@),
            RemoteCallArgument::Text(text) => ArgumentModel::Text(text@),
        }
    }
}

impl RemoteCallArgument {
    /// The JSON text that has to be parsed to get the value back; none for
    /// raw bytes.
    pub fn json(&self) -> (text: Option<&str>)
        ensures
            match text {
                Some(t) => self@ == ArgumentModel::Text(t@),
                None => self@ is Binary,
            },
    {
        match self {
            RemoteCallArgument::Binary(_) => None,
            RemoteCallArgument::Text(text) => Some(text.as_str()),
        }
    }
}

/// What is read of a guest value that is to cross to another shard: the
/// bytes of a binary buffer, or the JSON text of any other value, absent
/// when the value has no JSON form.
#[derive(Debug, PartialEq, Eq)]
pub enum GuestPayload {
    Buffer(Vec<u8>),
    Structured(Option<String>),
}

/// The mathematical value of a [`GuestPayload`].
pub enum PayloadModel {
    Buffer(Seq<u8>),
    Structured(Option<Seq<char>>),
}

impl View for GuestPayload {
    type V = PayloadModel;

    open spec fn view(&self) -> PayloadModel {
        match self {
            GuestPayload::Buffer(bytes) => PayloadModel::Buffer(bytes@),
            GuestPayload::Structured(json) => PayloadModel::Structured(
                match json {
                    Some(text) => Some(text@),
                    None => None,
                },
            ),
        }
    }
}

impl GuestPayload {
    /// Whether the value has a travelling form. Serialising the arguments
    /// of a call stops at the first that has none.
    pub fn travels(&self) -> (b: bool)
        ensures
            b == serialized(self@) is Some,
    {
        match self {
            GuestPayload::Structured(None) => false,
            _ => true,
        }
    }
}

/// The travelling form of a guest value: a buffer passes through as bytes,
/// any other value goes as its JSON text, and a value without JSON form has
/// none.
pub open spec fn serialized(payload: PayloadModel) -> Option<ArgumentModel> {
    match payload {
        PayloadModel::Buffer(bytes) => Some(ArgumentModel::Binary(bytes)),
        PayloadModel::Structured(Some(text)) => Some(ArgumentModel::Text(text)),
        PayloadModel::Structured(None) => None,
    }
}

/// Serialises one guest value for travel.
pub fn serialize_value(payload: GuestPayload) -> (r: Option<RemoteCallArgument>)
    ensures
        match r {
            Some(argument) => serialized(payload@) == Some(argument@),
            None => serialized(payload@) is None,
        },
{
    match payload {
        GuestPayload::Buffer(bytes) => Some(RemoteCallArgument::Binary(bytes)),
        GuestPayload::Structured(Some(text)) => Some(RemoteCallArgument::Text(text)),
        GuestPayload::Structured(None) => None,
    }
}

/// Why a remote call was not sent.
#[derive(Clone, Copy, Debug, PartialEq, Eq, Structural)]
pub enum DispatchError {
    /// An argument has no travelling form.
    Serialization,
    /// The registration was removed already.
    Unregistered,
}

impl DispatchError {
    /// The text of the exception that the guest sees.
    pub open spec fn message_model(self) -> Seq<char> {
        match self {
            DispatchError::Serialization => "Failed serializing arguments"@,
            DispatchError::Unregistered => "Function were unregistered"@,
        }
    }

    /// The text of the exception that the guest sees.
    pub fn message(&self) -> (text: String)
        ensures
            text@ == self.message_model(),
    {
        match self {
            DispatchError::Serialization => owned("Failed serializing arguments"),
            DispatchError::Unregistered => owned("Function were unregistered"),
        }
    }
}

/// The values of a sequence of payloads.
pub open spec fn payloads_model(payloads: Seq<GuestPayload>) -> Seq<PayloadModel> {
    Seq::new(payloads.len(), |i: int| payloads[i]@)
}

/// The values of a sequence of travelling values.
pub open spec fn arguments_model(arguments: Seq<RemoteCallArgument>) -> Seq<ArgumentModel> {
    Seq::new(arguments.len(), |i: int| arguments[i]@)
}

/// Whether every payload has a travelling form.
pub open spec fn all_serialize(payloads: Seq<PayloadModel>) -> bool {
    forall|i: int| 0 <= i < payloads.len() ==> serialized(#[trigger] payloads[i]) is Some
}

/// What a dispatch sends, or why it sends nothing: a payload without
/// travelling form refuses the call, then a registration that is gone does;
/// otherwise every argument goes in its travelling form, in order.
pub open spec fn dispatch_model(payloads: Seq<PayloadModel>, registration_alive: bool) -> Result<
    Seq<ArgumentModel>,
    DispatchError,
> {
    if !all_serialize(payloads) {
        Err(DispatchError::Serialization)
    } else if !registration_alive {
        Err(DispatchError::Unregistered)
    } else {
        Ok(Seq::new(payloads.len(), |i: int| serialized(payloads[i])->Some_0))
    }
}

/// Serialises the arguments of a remote call, in order. Fails as soon as
/// one of them has no travelling form.
pub fn serialize_arguments(payloads: Vec<GuestPayload>) -> (r: Result<
    Vec<RemoteCallArgument>,
    DispatchError,
>)
    ensures
        match r {
            Ok(arguments) => all_serialize(payloads_model(payloads@)) && arguments_model(
                arguments@,
            ) == Seq::new(
                payloads@.len(),
                |i: int| serialized(payloads_model(payloads@)[i])->Some_0,
            ),
            Err(e) => e == DispatchError::Serialization && !all_serialize(
                payloads_model(payloads@),
            ),
        },
{
    let ghost models = payloads_model(payloads@);
    let mut arguments: Vec<RemoteCallArgument> = Vec::new();
    for payload in it: payloads
        invariant
            it.seq() == payloads@,
            models == payloads_model(payloads@),
            arguments@.len() == it.index(),
            forall|i: int|
                0 <= i < it.index() ==> serialized(#[trigger] models[i]) == Some(arguments@[i]@),
    {
        let ghost k = it.index() as int;
        assert(payload == payloads[k]);
        assert(models[k] == payload@);
        match serialize_value(payload) {
            Some(argument) => {
                arguments.push(argument);
            },
            None => {
                return Err(DispatchError::Serialization);
            },
        }
    }
    assert(arguments_model(arguments@) =~= Seq::new(
        payloads@.len(),
        |i: int| serialized(payloads_model(payloads@)[i])->Some_0,
    ));
    Ok(arguments)
}

/// Decides a dispatch, to the shard of a key or to all shards, before
/// anything is sent: the arguments in their travelling form, or the refusal.
pub fn prepare_dispatch(payloads: Vec<GuestPayload>, registration_alive: bool) -> (r: Result<
    Vec<RemoteCallArgument>,
    DispatchError,
>)
    ensures
        match r {
            Ok(arguments) => dispatch_model(payloads_model(payloads@), registration_alive) == Ok::<
                Seq<ArgumentModel>,
                DispatchError,
            >(arguments_model(arguments@)),
            Err(e) => dispatch_model(payloads_model(payloads@), registration_alive) == Err::<
                Seq<ArgumentModel>,
                DispatchError,
            >(e),
        },
{
    let arguments = serialize_arguments(payloads)?;
    if !registration_alive {
        return Err(DispatchError::Unregistered);
    }
    Ok(arguments)
}

/// A travelling value brought back into the guest: the bytes of a buffer, a
/// value parsed from JSON text, or the text that did not parse.
#[derive(Debug, PartialEq, Eq)]
pub enum Decoded<G> {
    Buffer(Vec<u8>),
    Parsed(G),
    Malformed(String),
}

/// The mathematical value of a [`Decoded`].
pub enum DecodedModel<G> {
    Buffer(Seq<u8>),
    Parsed(G),
    Malformed(Seq<char>),
}

impl<G> View for Decoded<G> {
    type V = DecodedModel<G>;

    open spec fn view(&self) -> DecodedModel<G> {
        match self {
            Decoded::Buffer(bytes) => DecodedModel::Buffer(bytes@),
            Decoded::Parsed(value) => DecodedModel::Parsed(*value),
            Decoded::Malformed(text) => DecodedModel::Malformed(text@),
        }
    }
}

impl<G> Decoded<G> {
    /// Whether this is text that did not parse.
    pub fn is_malformed(&self) -> (b: bool)
        ensures
            b == self@ is Malformed,
    {
        match self {
            Decoded::Malformed(_) => true,
            _ => false,
        }
    }
}

/// A guest value that a deferred result resolves to.
#[derive(Debug, PartialEq, Eq)]
pub enum Resolved<G> {
    Buffer(Vec<u8>),
    Value(G),
}

/// The mathematical value of a [`Resolved`].
pub enum ResolvedModel<G> {
    Buffer(Seq<u8>),
    Value(G),
}

impl<G> View for Resolved<G> {
    type V = ResolvedModel<G>;

    open spec fn view(&self) -> ResolvedModel<G> {
        match self {
            Resolved::Buffer(bytes) => ResolvedModel::Buffer(bytes@),
            Resolved::Value(value) => ResolvedModel::Value(*value),
        }
    }
}

/// What a travelling value decodes to, given what the parser made of its
/// text: bytes stay bytes, and text is the parsed value or malformed.
pub open spec fn decoded<G>(argument: ArgumentModel, parsed: Option<G>) -> DecodedModel<G> {
    match argument {
        ArgumentModel::Binary(bytes) => DecodedModel::Buffer(bytes),
        ArgumentModel::Text(text) => match parsed {
            Some(value) => DecodedModel::Parsed(value),
            None => DecodedModel::Malformed(text),
        },
    }
}

/// Brings a travelling value back into the guest. `parsed` is what the
/// interpreter's JSON parser made of the value's text; it is not looked at
/// for raw bytes.
pub fn decode<G>(argument: RemoteCallArgument, parsed: Option<G>) -> (r: Decoded<G>)
    ensures
        r@ == decoded(argument@, parsed),
{
    match argument {
        RemoteCallArgument::Binary(bytes) => Decoded::Buffer(bytes),
        RemoteCallArgument::Text(text) => match parsed {
            Some(value) => Decoded::Parsed(value),
            None => Decoded::Malformed(text),
        },
    }
}

/// How a deferred result is settled.
#[derive(Debug, PartialEq, Eq)]
pub enum Settlement<G> {
    Resolve(Resolved<G>),
    Reject(String),
}

/// The mathematical value of a [`Settlement`].
pub enum SettlementModel<G> {
    Resolve(ResolvedModel<G>),
    Reject(Seq<char>),
}

impl<G> View for Settlement<G> {
    type V = SettlementModel<G>;

    open spec fn view(&self) -> SettlementModel<G> {
        match self {
            Settlement::Resolve(value) => SettlementModel::Resolve(value@),
            Settlement::Reject(reason) => SettlementModel::Reject(reason@),
        }
    }
}

/// How the answer of a targeted call settles its deferred result: a buffer
/// or a parsed value resolves it, text that does not parse rejects it, and so
/// does an error of the remote side, with its message.
pub open spec fn targeted_settlement<G>(answer: Result<DecodedModel<G>, Seq<char>>)
    -> SettlementModel<G> {
    match answer {
        Ok(DecodedModel::Buffer(bytes)) => SettlementModel::Resolve(ResolvedModel::Buffer(bytes)),
        Ok(DecodedModel::Parsed(value)) => SettlementModel::Resolve(ResolvedModel::Value(value)),
        Ok(DecodedModel::Malformed(_)) => SettlementModel::Reject(
            "Failed deserializing remote function result"@,
        ),
        Err(message) => SettlementModel::Reject(message),
    }
}

/// The value of the answer of a targeted call.
pub open spec fn answer_model<G>(answer: Result<Decoded<G>, String>) -> Result<
    DecodedModel<G>,
    Seq<char>,
> {
    match answer {
        Ok(value) => Ok(value@),
        Err(message) => Err(message@),
    }
}

/// Settles the deferred result of a targeted call from its answer.
pub fn settle_targeted<G>(answer: Result<Decoded<G>, String>) -> (r: Settlement<G>)
    ensures
        r@ == targeted_settlement(answer_model(answer)),
{
    match answer {
        Ok(Decoded::Buffer(bytes)) => Settlement::Resolve(Resolved::Buffer(bytes)),
        Ok(Decoded::Parsed(value)) => Settlement::Resolve(Resolved::Value(value)),
        Ok(Decoded::Malformed(_)) => Settlement::Reject(
            owned("Failed deserializing remote function result"),
        ),
        Err(message) => Settlement::Reject(message),
    }
}

/// The error that stands for a shard whose text did not parse.
pub open spec fn malformed_message(text: Seq<char>) -> Seq<char> {
    "Failed deserializing remote function result '"@ + text + "'"@
}

/// The results that the first `n` shards of a broadcast contribute, in order:
/// one for each answer that decoded.
pub open spec fn broadcast_results<G>(answers: Seq<DecodedModel<G>>, n: nat) -> Seq<
    ResolvedModel<G>,
>
    decreases n,
{
    if n == 0 || n > answers.len() {
        Seq::empty()
    } else {
        let earlier = broadcast_results(answers, (n - 1) as nat);
        match answers[n - 1] {
            DecodedModel::Buffer(bytes) => earlier.push(ResolvedModel::Buffer(bytes)),
            DecodedModel::Parsed(value) => earlier.push(ResolvedModel::Value(value)),
            DecodedModel::Malformed(_) => earlier,
        }
    }
}

/// The errors that the first `n` shards of a broadcast contribute, in order:
/// one for each answer whose text did not parse.
pub open spec fn broadcast_errors<G>(answers: Seq<DecodedModel<G>>, n: nat) -> Seq<Seq<char>>
    decreases n,
{
    if n == 0 || n > answers.len() {
        Seq::empty()
    } else {
        let earlier = broadcast_errors(answers, (n - 1) as nat);
        match answers[n - 1] {
            DecodedModel::Malformed(text) => earlier.push(malformed_message(text)),
            _ => earlier,
        }
    }
}

/// What a broadcast resolves to: the results and the errors of its shards.
#[derive(Debug, PartialEq, Eq)]
pub struct BroadcastReport<G> {
    pub results: Vec<Resolved<G>>,
    pub errors: Vec<String>,
}

/// The values of a sequence of decoded answers.
pub open spec fn answers_model<G>(answers: Seq<Decoded<G>>) -> Seq<DecodedModel<G>> {
    Seq::new(answers.len(), |i: int| answers[i]@)
}

/// The values of a sequence of resolved values.
pub open spec fn results_model<G>(results: Seq<Resolved<G>>) -> Seq<ResolvedModel<G>> {
    Seq::new(results.len(), |i: int| results[i]@)
}

/// The values of a sequence of messages.
pub open spec fn messages_model(messages: Seq<String>) -> Seq<Seq<char>> {
    Seq::new(messages.len(), |i: int| messages[i]@)
}

/// Settles the deferred result of a broadcast from the answers of all
/// shards and the errors that the host collected. The result is always
/// resolved, never rejected: an answer that did not decode is left out of
/// the results and adds an error behind those of the host.
pub fn settle_broadcast<G>(answers: Vec<Decoded<G>>, errors: Vec<String>) -> (report:
    BroadcastReport<G>)
    ensures
        results_model(report.results@) == broadcast_results(
            answers_model(answers@),
            answers@.len(),
        ),
        messages_model(report.errors@) == messages_model(errors@) + broadcast_errors(
            answers_model(answers@),
            answers@.len(),
        ),
{
    let ghost models = answers_model(answers@);
    let ghost given = messages_model(errors@);
    let mut results: Vec<Resolved<G>> = Vec::new();
    let mut errors = errors;
    assert(results_model(results@) =~= Seq::empty());
    assert(messages_model(errors@) =~= given + Seq::empty());
    for answer in it: answers
        invariant
            it.seq() == answers@,
            models == answers_model(answers@),
            results_model(results@) == broadcast_results(models, it.index() as nat),
            messages_model(errors@) == given + broadcast_errors(models, it.index() as nat),
    {
        let ghost k = it.index() as int;
        let ghost results_before = results_model(results@);
        let ghost errors_before = messages_model(errors@);
        assert(answer == answers[k]);
        assert(models[k] == answer@);
        match answer {
            Decoded::Buffer(bytes) => {
                results.push(Resolved::Buffer(bytes));
                assert(results_model(results@) =~= results_before.push(
                    ResolvedModel::Buffer(bytes@),
                ));
            },
            Decoded::Parsed(value) => {
                results.push(Resolved::Value(value));
                assert(results_model(results@) =~= results_before.push(
                    ResolvedModel::Value(value),
                ));
            },
            Decoded::Malformed(text) => {
                let mut message = joined(
                    "Failed deserializing remote function result '",
                    text.as_str(),
                );
                message.append("'");
                errors.push(message);
                assert(messages_model(errors@) =~= errors_before.push(malformed_message(text@)));
                assert(given + broadcast_errors(models, (k + 1) as nat) =~= (given
                    + broadcast_errors(models, k as nat)).push(malformed_message(text@)));
            },
        }
    }
    BroadcastReport { results, errors }
}

/// Every shard of a broadcast ends up in exactly one of the two lists: the
/// results and the errors contributed by the first `n` answers are `n`
/// together.
pub proof fn law_broadcast_partition<G>(answers: Seq<DecodedModel<G>>, n: nat)
    requires
        n <= answers.len(),
    ensures
        broadcast_results(answers, n).len() + broadcast_errors(answers, n).len() == n,
    decreases n,
{
    if n > 0 {
        law_broadcast_partition(answers, (n - 1) as nat);
    }
}

/// The errors contributed by the first `n` answers, when none of them is
/// malformed but perhaps the one at `k`.
pub proof fn lemma_errors_of_one_malformed<G>(answers: Seq<DecodedModel<G>>, k: int, n: nat)
    requires
        n <= answers.len(),
        0 <= k < answers.len(),
        answers[k] is Malformed,
        forall|i: int| 0 <= i < answers.len() && i != k ==> !(#[trigger] answers[i] is Malformed),
    ensures
        broadcast_errors(answers, n) == (if k < n {
            seq![malformed_message(answers[k]->Malformed_0)]
        } else {
            Seq::<Seq<char>>::empty()
        }),
    decreases n,
{
    if n > 0 {
        lemma_errors_of_one_malformed(answers, k, (n - 1) as nat);
        if k == n - 1 {
            assert(broadcast_errors(answers, n) =~= seq![
                malformed_message(answers[k]->Malformed_0),
            ]);
        } else {
            assert(!(answers[n - 1] is Malformed));
        }
    }
}

/// A broadcast in which the answer of exactly one shard is malformed text,
/// and the host reported no error, resolves to one result less than there
/// are shards and to exactly one error, the one of that shard.
pub proof fn law_one_malformed_shard<G>(answers: Seq<DecodedModel<G>>, k: int)
    requires
        0 <= k < answers.len(),
        answers[k] is Malformed,
        forall|i: int| 0 <= i < answers.len() && i != k ==> !(#[trigger] answers[i] is Malformed),
    ensures
        broadcast_results(answers, answers.len()).len() == answers.len() - 1,
        broadcast_errors(answers, answers.len()) == seq![
            malformed_message(answers[k]->Malformed_0),
        ],
{
    lemma_errors_of_one_malformed(answers, k, answers.len());
    law_broadcast_partition(answers, answers.len());
}

} // verus!
