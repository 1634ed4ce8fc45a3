//! Marshalling of host replies into guest values.

use crate::reply::{
    entries_model, fields_model, lemma_array_reply_view, lemma_array_value_view,
    lemma_mapping_reply_view, lemma_members_reply_view, lemma_members_value_view,
    lemma_object_value_view, payloads_model, replies_model, texts_model, values_model,
    GuestModel, GuestValue, HostReply, ReplyKind, ReplyModel,
};
use crate::text::{decode_text, owned};
use vstd::prelude::*;
use vstd::utf8::decode_utf8;
use vstd::utf8::decode_utf8_encode_utf8;
use vstd::utf8::encode_utf8;
use vstd::utf8::valid_utf8;

verus! {

/// Why a reply did not marshal: one exception that the guest is to see.
#[derive(Debug, PartialEq, Eq)]
pub enum MarshalError {
    /// The host replied with an error; its message, verbatim.
    Host(String),
    /// Bytes that had to be text are not valid UTF-8.
    InvalidText,
    /// A mapping key was asked for as raw bytes.
    BinaryMapKey,
    /// A set member was asked for as raw bytes.
    BinarySetMember,
}

/// The mathematical value of a [`MarshalError`].
pub enum FailureModel {
    Host(Seq<char>),
    InvalidText,
    BinaryMapKey,
    BinarySetMember,
}

impl View for MarshalError {
    type V = FailureModel;

    open spec fn view(&self) -> FailureModel {
        match self {
            MarshalError::Host(message) => FailureModel::Host(message@),
            MarshalError::InvalidText => FailureModel::InvalidText,
            MarshalError::BinaryMapKey => FailureModel::BinaryMapKey,
            MarshalError::BinarySetMember => FailureModel::BinarySetMember,
        }
    }
}

impl FailureModel {
    /// The text of the exception that the guest sees.
    pub open spec fn message(self) -> Seq<char> {
        match self {
            FailureModel::Host(message) => message,
            FailureModel::InvalidText => "Could not decode value as string"@,
            FailureModel::BinaryMapKey => "Binary map key is not supported"@,
            FailureModel::BinarySetMember => "Binary set element is not supported"@,
        }
    }
}

impl MarshalError {
    /// The text of the exception that the guest sees: the host's message
    /// verbatim for an error reply.
    pub fn message(&self) -> (text: String)
        ensures
            text@ == self@.message(),
    {
        match self {
            MarshalError::Host(message) => owned(message.as_str()),
            MarshalError::InvalidText => owned("Could not decode value as string"),
            MarshalError::BinaryMapKey => owned("Binary map key is not supported"),
            MarshalError::BinarySetMember => owned("Binary set element is not supported"),
        }
    }
}

/// The text at a position that must hold text: the decoded bytes, or the
/// failure `binary` when raw bytes were asked for, or `InvalidText`.
pub open spec fn required_text(bytes: Seq<u8>, decode_text: bool, binary: FailureModel) -> Result<
    Seq<char>,
    FailureModel,
> {
    if !decode_text {
        Err(binary)
    } else if valid_utf8(bytes) {
        Ok(decode_utf8(bytes))
    } else {
        Err(FailureModel::InvalidText)
    }
}

/// What a reply marshals to: the guest value, or the exceptions raised on the
/// way, in the order in which they are raised (never empty).
pub open spec fn marshal_model(reply: ReplyModel, decode_text: bool) -> Result<
    GuestModel,
    Seq<FailureModel>,
>
    decreases reply,
{
    match reply {
        ReplyModel::Status(s) => Ok(
            GuestModel::Text { text: s, kind: ReplyKind::Status, format: None },
        ),
        ReplyModel::Bulk(s) => Ok(
            GuestModel::Text { text: s, kind: ReplyKind::BulkString, format: None },
        ),
        ReplyModel::Error(message) => Err(seq![FailureModel::Host(message)]),
        ReplyModel::Integer(n) => Ok(GuestModel::Integer(n)),
        ReplyModel::Double(bits) => Ok(GuestModel::Double(bits)),
        ReplyModel::Array(items) => {
            let (values, raised) = marshal_items(items, items.len(), decode_text);
            if raised.len() == 0 {
                Ok(GuestModel::Array(values))
            } else {
                Err(raised)
            }
        },
        ReplyModel::Mapping(entries) => match marshal_entries(
            entries,
            entries.len(),
            decode_text,
        ) {
            Ok(fields) => Ok(GuestModel::Object(fields)),
            Err(raised) => Err(raised),
        },
        ReplyModel::Members(members) => match marshal_members(
            members,
            members.len(),
            decode_text,
        ) {
            Ok(texts) => Ok(GuestModel::Members(texts)),
            Err(failure) => Err(seq![failure]),
        },
        ReplyModel::Bool(b) => Ok(GuestModel::Bool(b)),
        ReplyModel::BigNumber(s) => Ok(
            GuestModel::Text { text: s, kind: ReplyKind::BigNumber, format: None },
        ),
        ReplyModel::Verbatim(format, text) => Ok(
            GuestModel::Text { text, kind: ReplyKind::Verbatim, format: Some(format) },
        ),
        ReplyModel::Null => Ok(GuestModel::Null),
        ReplyModel::Buffer(bytes) => if decode_text && valid_utf8(bytes) {
            Ok(
                GuestModel::Text {
                    text: decode_utf8(bytes),
                    kind: ReplyKind::BulkString,
                    format: None,
                },
            )
        } else {
            Ok(GuestModel::Buffer(bytes))
        },
    }
}

/// The first `n` elements of an array reply: the values of those that
/// marshal, and everything raised by those that do not. Every element is
/// visited, also after one has failed.
pub open spec fn marshal_items(items: Seq<ReplyModel>, n: nat, decode_text: bool) -> (
    Seq<GuestModel>,
    Seq<FailureModel>,
)
    decreases items, n,
{
    if n == 0 || n > items.len() {
        (Seq::empty(), Seq::empty())
    } else {
        let (values, raised) = marshal_items(items, (n - 1) as nat, decode_text);
        match marshal_model(items[n - 1], decode_text) {
            Ok(value) => (values.push(value), raised),
            Err(more) => (values, raised + more),
        }
    }
}

/// The first `n` entries of a mapping reply as object fields. The first
/// entry that fails, by its key or by its value, ends the walk.
pub open spec fn marshal_entries(
    entries: Seq<(Seq<u8>, ReplyModel)>,
    n: nat,
    decode_text: bool,
) -> Result<Seq<(Seq<char>, GuestModel)>, Seq<FailureModel>>
    decreases entries, n,
{
    if n == 0 || n > entries.len() {
        Ok(Seq::empty())
    } else {
        match marshal_entries(entries, (n - 1) as nat, decode_text) {
            Err(raised) => Err(raised),
            Ok(fields) => match required_text(
                entries[n - 1].0,
                decode_text,
                FailureModel::BinaryMapKey,
            ) {
                Err(failure) => Err(seq![failure]),
                Ok(key) => match marshal_model(entries[n - 1].1, decode_text) {
                    Err(raised) => Err(raised),
                    Ok(value) => Ok(fields.push((key, value))),
                },
            },
        }
    }
}

/// The first `n` members of a set reply as texts. The first member that
/// fails ends the walk.
pub open spec fn marshal_members(members: Seq<Seq<u8>>, n: nat, decode_text: bool) -> Result<
    Seq<Seq<char>>,
    FailureModel,
>
    decreases n,
{
    if n == 0 || n > members.len() {
        Ok(Seq::empty())
    } else {
        match marshal_members(members, (n - 1) as nat, decode_text) {
            Err(failure) => Err(failure),
            Ok(texts) => match required_text(
                members[n - 1],
                decode_text,
                FailureModel::BinarySetMember,
            ) {
                Err(failure) => Err(failure),
                Ok(text) => Ok(texts.push(text)),
            },
        }
    }
}

/// Whether a reply holds, at any depth, a mapping key or a set member that is
/// not valid UTF-8.
pub open spec fn holds_invalid_text(reply: ReplyModel) -> bool
    decreases reply,
{
    match reply {
        ReplyModel::Array(items) => exists|i: int|
            0 <= i < items.len() && holds_invalid_text(#[trigger] items[i]),
        ReplyModel::Mapping(entries) => exists|i: int|
            0 <= i < entries.len() && (!valid_utf8((#[trigger] entries[i]).0)
                || holds_invalid_text(entries[i].1)),
        ReplyModel::Members(members) => exists|i: int|
            0 <= i < members.len() && !valid_utf8(#[trigger] members[i]),
        _ => false,
    }
}

/// A reply that fails raises at least one exception.
pub proof fn lemma_failure_raises(reply: ReplyModel, decode_text: bool)
    ensures
        marshal_model(reply, decode_text) matches Err(raised) ==> raised.len() > 0,
    decreases reply,
{
    match reply {
        ReplyModel::Mapping(entries) => {
            lemma_entries_failure_raises(entries, entries.len(), decode_text);
        },
        _ => {},
    }
}

/// A prefix of a mapping reply that fails raises at least one exception.
pub proof fn lemma_entries_failure_raises(
    entries: Seq<(Seq<u8>, ReplyModel)>,
    n: nat,
    decode_text: bool,
)
    ensures
        marshal_entries(entries, n, decode_text) matches Err(raised) ==> raised.len() > 0,
    decreases entries, n,
{
    if n == 0 || n > entries.len() {
    } else {
        lemma_entries_failure_raises(entries, (n - 1) as nat, decode_text);
        lemma_failure_raises(entries[n - 1].1, decode_text);
    }
}

/// A failing element of an array reply leaves its exceptions in what the
/// array raises.
pub proof fn lemma_failing_item_raises(
    items: Seq<ReplyModel>,
    n: nat,
    i: int,
    decode_text: bool,
)
    requires
        0 <= i < n <= items.len(),
        marshal_model(items[i], decode_text) is Err,
    ensures
        marshal_items(items, n, decode_text).1.len() > 0,
    decreases n,
{
    if i == n - 1 {
        lemma_failure_raises(items[i], decode_text);
    } else {
        lemma_failing_item_raises(items, (n - 1) as nat, i, decode_text);
    }
}

/// A failing entry of a mapping reply makes the mapping fail.
pub proof fn lemma_failing_entry_fails(
    entries: Seq<(Seq<u8>, ReplyModel)>,
    n: nat,
    i: int,
    decode_text: bool,
)
    requires
        0 <= i < n <= entries.len(),
        required_text(entries[i].0, decode_text, FailureModel::BinaryMapKey) is Err
            || marshal_model(entries[i].1, decode_text) is Err,
    ensures
        marshal_entries(entries, n, decode_text) is Err,
    decreases n,
{
    if i < n - 1 {
        lemma_failing_entry_fails(entries, (n - 1) as nat, i, decode_text);
    }
}

/// A failing member of a set reply makes the set fail.
pub proof fn lemma_failing_member_fails(
    members: Seq<Seq<u8>>,
    n: nat,
    i: int,
    decode_text: bool,
)
    requires
        0 <= i < n <= members.len(),
        required_text(members[i], decode_text, FailureModel::BinarySetMember) is Err,
    ensures
        marshal_members(members, n, decode_text) is Err,
    decreases n,
{
    if i < n - 1 {
        lemma_failing_member_fails(members, (n - 1) as nat, i, decode_text);
    }
}

/// A reply that holds bytes that are not valid UTF-8 where text is mandatory,
/// as a mapping key or a set member at any depth, does not marshal, in either
/// decoding mode: the outcome is a failure and never a value.
pub proof fn law_invalid_text_fails(reply: ReplyModel, decode_text: bool)
    requires
        holds_invalid_text(reply),
    ensures
        marshal_model(reply, decode_text) is Err,
    decreases reply,
{
    match reply {
        ReplyModel::Array(items) => {
            let i = choose|i: int| 0 <= i < items.len() && holds_invalid_text(#[trigger] items[i]);
            law_invalid_text_fails(items[i], decode_text);
            lemma_failing_item_raises(items, items.len(), i, decode_text);
        },
        ReplyModel::Mapping(entries) => {
            let i = choose|i: int|
                0 <= i < entries.len() && (!valid_utf8((#[trigger] entries[i]).0)
                    || holds_invalid_text(entries[i].1));
            if valid_utf8(entries[i].0) {
                law_invalid_text_fails(entries[i].1, decode_text);
            }
            lemma_failing_entry_fails(entries, entries.len(), i, decode_text);
        },
        ReplyModel::Members(members) => {
            let i = choose|i: int| 0 <= i < members.len() && !valid_utf8(#[trigger] members[i]);
            lemma_failing_member_fails(members, members.len(), i, decode_text);
        },
        _ => {},
    }
}

/// A byte payload that is valid UTF-8, marshalled as text, becomes a string
/// whose content is those bytes decoded, so that encoding the content again
/// gives the bytes back.
pub proof fn law_text_round_trips(bytes: Seq<u8>)
    requires
        valid_utf8(bytes),
    ensures
        marshal_model(ReplyModel::Buffer(bytes), true) == Ok::<GuestModel, Seq<FailureModel>>(
            GuestModel::Text {
                text: decode_utf8(bytes),
                kind: ReplyKind::BulkString,
                format: None,
            },
        ),
        encode_utf8(decode_utf8(bytes)) == bytes,
{
    decode_utf8_encode_utf8(bytes);
}

/// A byte payload that is not asked for as text, or is not valid UTF-8,
/// stays a binary buffer with the same bytes: a payload never fails.
pub proof fn law_payload_stays_binary(bytes: Seq<u8>, decode_text: bool)
    requires
        !decode_text || !valid_utf8(bytes),
    ensures
        marshal_model(ReplyModel::Buffer(bytes), decode_text) == Ok::<
            GuestModel,
            Seq<FailureModel>,
        >(GuestModel::Buffer(bytes)),
{
}

/// Decoding tells valid byte strings apart: two different keys of a mapping,
/// or members of a set, do not become the same text.
pub proof fn law_distinct_texts(a: Seq<u8>, b: Seq<u8>)
    requires
        valid_utf8(a),
        valid_utf8(b),
        a != b,
    ensures
        decode_utf8(a) != decode_utf8(b),
{
    decode_utf8_encode_utf8(a);
    decode_utf8_encode_utf8(b);
}

/// An array reply whose elements all marshal becomes the array of their
/// values, in the same order.
pub proof fn law_array_of_values(items: Seq<ReplyModel>, decode_text: bool)
    requires
        forall|i: int| 0 <= i < items.len() ==> marshal_model(#[trigger] items[i], decode_text) is Ok,
    ensures
        marshal_model(ReplyModel::Array(items), decode_text) == Ok::<
            GuestModel,
            Seq<FailureModel>,
        >(
            GuestModel::Array(
                Seq::new(items.len(), |i: int| marshal_model(items[i], decode_text)->Ok_0),
            ),
        ),
{
    lemma_item_values(items, items.len(), decode_text);
}

/// The first `n` elements of an array reply, all of which marshal, give
/// their values one by one and raise nothing.
pub proof fn lemma_item_values(items: Seq<ReplyModel>, n: nat, decode_text: bool)
    requires
        n <= items.len(),
        forall|i: int| 0 <= i < items.len() ==> marshal_model(#[trigger] items[i], decode_text) is Ok,
    ensures
        marshal_items(items, n, decode_text) == (
            Seq::new(n, |i: int| marshal_model(items[i], decode_text)->Ok_0),
            Seq::<FailureModel>::empty(),
        ),
    decreases n,
{
    let value = |i: int| marshal_model(items[i], decode_text)->Ok_0;
    if n == 0 {
        assert(Seq::new(n, value) =~= Seq::empty());
    } else {
        lemma_item_values(items, (n - 1) as nat, decode_text);
        assert(marshal_model(items[n - 1], decode_text) is Ok);
        assert(Seq::new(n, value) =~= Seq::new((n - 1) as nat, value).push(value(n - 1)));
    }
}

/// The members of a set reply that are all valid UTF-8, marshalled as text,
/// become the set of their decoded texts, in the same order.
pub proof fn law_member_texts_round_trip(members: Seq<Seq<u8>>)
    requires
        forall|i: int| 0 <= i < members.len() ==> valid_utf8(#[trigger] members[i]),
    ensures
        marshal_model(ReplyModel::Members(members), true) == Ok::<
            GuestModel,
            Seq<FailureModel>,
        >(GuestModel::Members(Seq::new(members.len(), |i: int| decode_utf8(members[i])))),
{
    lemma_member_texts(members, members.len());
}

/// The first `n` members of a set reply, all valid UTF-8, decode one by one.
pub proof fn lemma_member_texts(members: Seq<Seq<u8>>, n: nat)
    requires
        n <= members.len(),
        forall|i: int| 0 <= i < members.len() ==> valid_utf8(#[trigger] members[i]),
    ensures
        marshal_members(members, n, true) == Ok::<Seq<Seq<char>>, FailureModel>(
            Seq::new(n, |i: int| decode_utf8(members[i])),
        ),
    decreases n,
{
    if n == 0 {
        assert(Seq::new(n, |i: int| decode_utf8(members[i])) =~= Seq::empty());
    } else {
        lemma_member_texts(members, (n - 1) as nat);
        assert(Seq::new(n, |i: int| decode_utf8(members[i])) =~= Seq::new(
            (n - 1) as nat,
            |i: int| decode_utf8(members[i]),
        ).push(decode_utf8(members[n - 1])));
    }
}

/// The entries of a mapping reply whose keys are all valid UTF-8 and whose
/// values all marshal, marshalled as text, become an object with one field
/// per entry, in the same order: the key decoded, and the value marshalled.
pub proof fn law_mapping_keys_round_trip(entries: Seq<(Seq<u8>, ReplyModel)>)
    requires
        forall|i: int|
            0 <= i < entries.len() ==> valid_utf8((#[trigger] entries[i]).0) && marshal_model(
                entries[i].1,
                true,
            ) is Ok,
    ensures
        marshal_model(ReplyModel::Mapping(entries), true) == Ok::<GuestModel, Seq<FailureModel>>(
            GuestModel::Object(
                Seq::new(
                    entries.len(),
                    |i: int| (decode_utf8(entries[i].0), marshal_model(entries[i].1, true)->Ok_0),
                ),
            ),
        ),
{
    lemma_entry_fields(entries, entries.len());
}

/// The first `n` entries of a mapping reply, all with valid keys and values
/// that marshal, become fields one by one.
pub proof fn lemma_entry_fields(entries: Seq<(Seq<u8>, ReplyModel)>, n: nat)
    requires
        n <= entries.len(),
        forall|i: int|
            0 <= i < entries.len() ==> valid_utf8((#[trigger] entries[i]).0) && marshal_model(
                entries[i].1,
                true,
            ) is Ok,
    ensures
        marshal_entries(entries, n, true) == Ok::<
            Seq<(Seq<char>, GuestModel)>,
            Seq<FailureModel>,
        >(
            Seq::new(
                n,
                |i: int| (decode_utf8(entries[i].0), marshal_model(entries[i].1, true)->Ok_0),
            ),
        ),
    decreases n,
{
    let fields = |i: int| (decode_utf8(entries[i].0), marshal_model(entries[i].1, true)->Ok_0);
    if n == 0 {
        assert(Seq::new(n, fields) =~= Seq::empty());
    } else {
        lemma_entry_fields(entries, (n - 1) as nat);
        assert(valid_utf8(entries[n - 1].0));
        assert(Seq::new(n, fields) =~= Seq::new((n - 1) as nat, fields).push(
            (decode_utf8(entries[n - 1].0), marshal_model(entries[n - 1].1, true)->Ok_0),
        ));
    }
}

/// The values of a sequence of marshalling errors.
pub open spec fn failures_model(errors: Seq<MarshalError>) -> Seq<FailureModel> {
    Seq::new(errors.len(), |i: int| errors[i]@)
}

/// The value of what [`marshal`] returns.
pub open spec fn outcome_model(outcome: Result<GuestValue, Vec<MarshalError>>) -> Result<
    GuestModel,
    Seq<FailureModel>,
> {
    match outcome {
        Ok(value) => Ok(value@),
        Err(raised) => Err(failures_model(raised@)),
    }
}

/// Decodes bytes at a position that must hold text.
fn text_required(bytes: Vec<u8>, decode: bool, binary: MarshalError) -> (r: Result<
    String,
    MarshalError,
>)
    ensures
        match r {
            Ok(text) => required_text(bytes@, decode, binary@) == Ok::<
                Seq<char>,
                FailureModel,
            >(text@),
            Err(failure) => required_text(bytes@, decode, binary@) == Err::<
                Seq<char>,
                FailureModel,
            >(failure@),
        },
{
    if !decode {
        Err(binary)
    } else {
        match decode_text(bytes) {
            Ok(text) => Ok(text),
            Err(_) => Err(MarshalError::InvalidText),
        }
    }
}

/// One raised exception, as a list.
fn raise(failure: MarshalError) -> (raised: Vec<MarshalError>)
    ensures
        failures_model(raised@) == seq![failure@],
{
    let mut raised: Vec<MarshalError> = Vec::new();
    raised.push(failure);
    assert(failures_model(raised@) =~= seq![failure@]);
    raised
}

/// Marshals the members of a set reply, in order, up to the first that fails.
fn marshal_set(members: Vec<Vec<u8>>, decode_text: bool) -> (r: Result<Vec<String>, MarshalError>)
    ensures
        match r {
            Ok(texts) => marshal_members(payloads_model(members@), members@.len(), decode_text)
                == Ok::<Seq<Seq<char>>, FailureModel>(texts_model(texts@)),
            Err(failure) => marshal_members(payloads_model(members@), members@.len(), decode_text)
                == Err::<Seq<Seq<char>>, FailureModel>(failure@),
        },
{
    let ghost models = payloads_model(members@);
    let mut texts: Vec<String> = Vec::new();
    assert(texts_model(texts@) =~= Seq::empty());
    for member in it: members
        invariant
            it.seq() == members@,
            models == payloads_model(members@),
            marshal_members(models, it.index() as nat, decode_text) == Ok::<
                Seq<Seq<char>>,
                FailureModel,
            >(texts_model(texts@)),
    {
        let ghost k = it.index() as int;
        let ghost texts_before = texts_model(texts@);
        assert(member == members[k]);
        assert(models[k] == member@);
        match text_required(member, decode_text, MarshalError::BinarySetMember) {
            Ok(text) => {
                texts.push(text);
                assert(texts_model(texts@) =~= texts_before.push(text@));
            },
            Err(failure) => {
                proof {
                    lemma_members_failure_stays(models, (k + 1) as nat, decode_text);
                }
                return Err(failure);
            },
        }
    }
    Ok(texts)
}

/// Marshals the entries of a mapping reply, in order, up to the first that
/// fails.
fn marshal_mapping(entries: Vec<(Vec<u8>, HostReply)>, decode_text: bool) -> (r: Result<
    Vec<(String, GuestValue)>,
    Vec<MarshalError>,
>)
    ensures
        match r {
            Ok(fields) => marshal_entries(entries_model(entries@), entries@.len(), decode_text)
                == Ok::<Seq<(Seq<char>, GuestModel)>, Seq<FailureModel>>(fields_model(fields@)),
            Err(raised) => marshal_entries(entries_model(entries@), entries@.len(), decode_text)
                == Err::<Seq<(Seq<char>, GuestModel)>, Seq<FailureModel>>(
                failures_model(raised@),
            ),
        },
    decreases entries,
{
    let ghost models = entries_model(entries@);
    let mut fields: Vec<(String, GuestValue)> = Vec::new();
    assert(fields_model(fields@) =~= Seq::empty());
    for entry in it: entries
        invariant
            it.seq() == entries@,
            models == entries_model(entries@),
            marshal_entries(models, it.index() as nat, decode_text) == Ok::<
                Seq<(Seq<char>, GuestModel)>,
                Seq<FailureModel>,
            >(fields_model(fields@)),
    {
        let ghost k = it.index() as int;
        let ghost fields_before = fields_model(fields@);
        assert(entry == entries[k]);
        assert(models[k] == (entry.0@, entry.1@));
        let (key, value) = entry;
        let name = match text_required(key, decode_text, MarshalError::BinaryMapKey) {
            Ok(name) => name,
            Err(failure) => {
                proof {
                    lemma_entries_failure_stays(models, (k + 1) as nat, decode_text);
                }
                return Err(raise(failure));
            },
        };
        match marshal(value, decode_text) {
            Ok(guest) => {
                fields.push((name, guest));
                assert(fields_model(fields@) =~= fields_before.push((name@, guest@)));
            },
            Err(raised) => {
                proof {
                    lemma_entries_failure_stays(models, (k + 1) as nat, decode_text);
                }
                return Err(raised);
            },
        }
    }
    Ok(fields)
}

/// Once a prefix of a set reply has failed, every longer prefix fails alike.
pub proof fn lemma_members_failure_stays(members: Seq<Seq<u8>>, n: nat, decode_text: bool)
    requires
        n <= members.len(),
        marshal_members(members, n, decode_text) is Err,
    ensures
        marshal_members(members, members.len(), decode_text) == marshal_members(
            members,
            n,
            decode_text,
        ),
    decreases members.len() - n,
{
    if n < members.len() {
        assert(marshal_members(members, n + 1, decode_text) == marshal_members(
            members,
            n,
            decode_text,
        ));
        lemma_members_failure_stays(members, n + 1, decode_text);
    }
}

/// Once a prefix of a mapping reply has failed, every longer prefix fails
/// alike.
pub proof fn lemma_entries_failure_stays(
    entries: Seq<(Seq<u8>, ReplyModel)>,
    n: nat,
    decode_text: bool,
)
    requires
        n <= entries.len(),
        marshal_entries(entries, n, decode_text) is Err,
    ensures
        marshal_entries(entries, entries.len(), decode_text) == marshal_entries(
            entries,
            n,
            decode_text,
        ),
    decreases entries.len() - n,
{
    if n < entries.len() {
        assert(marshal_entries(entries, n + 1, decode_text) == marshal_entries(
            entries,
            n,
            decode_text,
        ));
        lemma_entries_failure_stays(entries, n + 1, decode_text);
    }
}

/// Marshals every element of an array reply, in order.
fn marshal_array(items: Vec<HostReply>, decode_text: bool) -> (r: (
    Vec<GuestValue>,
    Vec<MarshalError>,
))
    ensures
        (values_model(r.0@), failures_model(r.1@)) == marshal_items(
            replies_model(items@),
            items@.len(),
            decode_text,
        ),
    decreases items,
{
    let ghost models = replies_model(items@);
    let mut values: Vec<GuestValue> = Vec::new();
    let mut raised: Vec<MarshalError> = Vec::new();
    assert(values_model(values@) =~= Seq::empty());
    assert(failures_model(raised@) =~= Seq::empty());
    for item in it: items
        invariant
            it.seq() == items@,
            models == replies_model(items@),
            (values_model(values@), failures_model(raised@)) == marshal_items(
                models,
                it.index() as nat,
                decode_text,
            ),
    {
        let ghost k = it.index() as int;
        let ghost values_before = values_model(values@);
        let ghost raised_before = failures_model(raised@);
        assert(item == items[k]);
        assert(models[k] == item@);
        match marshal(item, decode_text) {
            Ok(value) => {
                values.push(value);
                assert(values_model(values@) =~= values_before.push(value@));
            },
            Err(more) => {
                let ghost more_model = failures_model(more@);
                let mut more = more;
                raised.append(&mut more);
                assert(failures_model(raised@) =~= raised_before + more_model);
            },
        }
    }
    (values, raised)
}

/// Converts a host reply into the guest value that stands for it.
///
/// Returns the value, or the exceptions to raise in the guest, in order, when
/// the reply or anything inside it does not marshal; no part of a value is
/// handed out for a reply that failed.
pub fn marshal(reply: HostReply, decode_text: bool) -> (outcome: Result<
    GuestValue,
    Vec<MarshalError>,
>)
    ensures
        outcome_model(outcome) == marshal_model(reply@, decode_text),
        outcome matches Err(raised) ==> raised@.len() > 0,
    decreases reply,
{
    proof {
        lemma_failure_raises(reply@, decode_text);
    }
    match reply {
        HostReply::Status(s) => Ok(
            GuestValue::Text { text: s, kind: ReplyKind::Status, format: None },
        ),
        HostReply::Bulk(s) => Ok(
            GuestValue::Text { text: s, kind: ReplyKind::BulkString, format: None },
        ),
        HostReply::Error(message) => Err(raise(MarshalError::Host(message))),
        HostReply::Integer(n) => Ok(GuestValue::Integer(n)),
        HostReply::Double(bits) => Ok(GuestValue::Double(bits)),
        HostReply::Array(items) => {
            proof {
                lemma_array_reply_view(items);
                assert(items == reply->Array_0);
            }
            let (values, raised) = marshal_array(items, decode_text);
            if raised.len() == 0 {
                proof {
                    lemma_array_value_view(values);
                }
                Ok(GuestValue::Array(values))
            } else {
                Err(raised)
            }
        },
        HostReply::Mapping(entries) => {
            proof {
                lemma_mapping_reply_view(entries);
                assert(entries == reply->Mapping_0);
            }
            match marshal_mapping(entries, decode_text) {
                Ok(fields) => {
                    proof {
                        lemma_object_value_view(fields);
                    }
                    Ok(GuestValue::Object(fields))
                },
                Err(raised) => Err(raised),
            }
        },
        HostReply::Members(members) => {
            proof {
                lemma_members_reply_view(members);
            }
            match marshal_set(members, decode_text) {
                Ok(texts) => {
                    proof {
                        lemma_members_value_view(texts);
                    }
                    Ok(GuestValue::Members(texts))
                },
                Err(failure) => Err(raise(failure)),
            }
        },
        HostReply::Bool(b) => Ok(GuestValue::Bool(b)),
        HostReply::BigNumber(s) => Ok(
            GuestValue::Text { text: s, kind: ReplyKind::BigNumber, format: None },
        ),
        HostReply::Verbatim(format, text) => Ok(
            GuestValue::Text { text, kind: ReplyKind::Verbatim, format: Some(format) },
        ),
        HostReply::Null => Ok(GuestValue::Null),
        HostReply::Buffer(bytes) => {
            if decode_text {
                match crate::text::decode_text(bytes) {
                    Ok(text) => Ok(
                        GuestValue::Text { text, kind: ReplyKind::BulkString, format: None },
                    ),
                    Err(bytes) => Ok(GuestValue::Buffer(bytes)),
                }
            } else {
                Ok(GuestValue::Buffer(bytes))
            }
        },
    }
}

} // verus!
