//! Host replies and the guest values they marshal to.

use vstd::prelude::*;

verus! {

/// A reply of the host's command layer.
///
/// A floating-point reply is carried as the bits of its IEEE 754 double. The
/// entries of a mapping and the members of a set come in the order in which
/// the host hands them over.
#[derive(Debug, PartialEq, Eq)]
pub enum HostReply {
    Status(String),
    Bulk(String),
    Error(String),
    Integer(i64),
    Double(u64),
    Array(Vec<HostReply>),
    Mapping(Vec<(Vec<u8>, HostReply)>),
    Members(Vec<Vec<u8>>),
    Bool(bool),
    BigNumber(String),
    Verbatim(String, String),
    Null,
    Buffer(Vec<u8>),
}

/// The mathematical value of a [`HostReply`].
pub enum ReplyModel {
    Status(Seq<char>),
    Bulk(Seq<char>),
    Error(Seq<char>),
    Integer(i64),
    Double(u64),
    Array(Seq<ReplyModel>),
    Mapping(Seq<(Seq<u8>, ReplyModel)>),
    Members(Seq<Seq<u8>>),
    Bool(bool),
    BigNumber(Seq<char>),
    Verbatim(Seq<char>, Seq<char>),
    Null,
    Buffer(Seq<u8>),
}

impl View for HostReply {
    type V = ReplyModel;

    open spec fn view(&self) -> ReplyModel
        decreases self,
    {
        match self {
            HostReply::Status(s) => ReplyModel::Status(s@),
            HostReply::Bulk(s) => ReplyModel::Bulk(s@),
            HostReply::Error(s) => ReplyModel::Error(s@),
            HostReply::Integer(n) => ReplyModel::Integer(*n),
            HostReply::Double(bits) => ReplyModel::Double(*bits),
            HostReply::Array(items) => ReplyModel::Array(
                Seq::new(
                    items.len() as nat,
                    |i: int|
                        if 0 <= i < items.len() {
                            items[i]@
                        } else {
                            ReplyModel::Null
                        },
                ),
            ),
            HostReply::Mapping(entries) => ReplyModel::Mapping(
                Seq::new(
                    entries.len() as nat,
                    |i: int|
                        if 0 <= i < entries.len() {
                            (entries[i].0@, entries[i].1@)
                        } else {
                            (Seq::empty(), ReplyModel::Null)
                        },
                ),
            ),
            HostReply::Members(members) => ReplyModel::Members(
                Seq::new(members.len() as nat, |i: int| members[i]@),
            ),
            HostReply::Bool(b) => ReplyModel::Bool(*b),
            HostReply::BigNumber(s) => ReplyModel::BigNumber(s@),
            HostReply::Verbatim(format, text) => ReplyModel::Verbatim(format@, text@),
            HostReply::Null => ReplyModel::Null,
            HostReply::Buffer(bytes) => ReplyModel::Buffer(bytes@),
        }
    }
}

/// The reply subkind that a guest string object is tagged with.
#[derive(Clone, Copy, Debug, PartialEq, Eq, Structural)]
pub enum ReplyKind {
    Status,
    BulkString,
    BigNumber,
    Verbatim,
}

impl ReplyKind {
    /// The value of the attribute that tells guest code the reply subkind.
    pub open spec fn tag_model(self) -> Seq<char> {
        match self {
            ReplyKind::Status => "status"@,
            ReplyKind::BulkString => "bulk_string"@,
            ReplyKind::BigNumber => "big_number"@,
            ReplyKind::Verbatim => "verbatim"@,
        }
    }

    /// The value of the attribute that tells guest code the reply subkind.
    pub fn tag(&self) -> (tag: &'static str)
        ensures
            tag@ == self.tag_model(),
    {
        match self {
            ReplyKind::Status => "status",
            ReplyKind::BulkString => "bulk_string",
            ReplyKind::BigNumber => "big_number",
            ReplyKind::Verbatim => "verbatim",
        }
    }
}

/// The name of the attribute of a guest string object that holds its reply
/// subkind.
pub fn reply_type_attribute() -> (name: &'static str)
    ensures
        name@ == "__reply_type"@,
{
    "__reply_type"
}

/// The name of the attribute of a guest string object that holds the format
/// of a verbatim string.
pub fn format_attribute() -> (name: &'static str)
    ensures
        name@ == "__ext"@,
{
    "__ext"
}

/// A guest value, as the interpreter is asked to build it.
///
/// `Text` is a string object that carries its reply subkind and, for a
/// verbatim string, its format. The keys of an `Object` and the elements of a
/// `Members` value (a guest set) are plain strings.
#[derive(Debug, PartialEq, Eq)]
pub enum GuestValue {
    Text { text: String, kind: ReplyKind, format: Option<String> },
    Integer(i64),
    Double(u64),
    Array(Vec<GuestValue>),
    Object(Vec<(String, GuestValue)>),
    Members(Vec<String>),
    Bool(bool),
    Null,
    Buffer(Vec<u8>),
}

/// The mathematical value of a [`GuestValue`].
pub enum GuestModel {
    Text { text: Seq<char>, kind: ReplyKind, format: Option<Seq<char>> },
    Integer(i64),
    Double(u64),
    Array(Seq<GuestModel>),
    Object(Seq<(Seq<char>, GuestModel)>),
    Members(Seq<Seq<char>>),
    Bool(bool),
    Null,
    Buffer(Seq<u8>),
}

impl View for GuestValue {
    type V = GuestModel;

    open spec fn view(&self) -> GuestModel
        decreases self,
    {
        match self {
            GuestValue::Text { text, kind, format } => GuestModel::Text {
                text: text@,
                kind: *kind,
                format: match format {
                    Some(f) => Some(f@),
                    None => None,
                },
            },
            GuestValue::Integer(n) => GuestModel::Integer(*n),
            GuestValue::Double(bits) => GuestModel::Double(*bits),
            GuestValue::Array(items) => GuestModel::Array(
                Seq::new(
                    items.len() as nat,
                    |i: int|
                        if 0 <= i < items.len() {
                            items[i]@
                        } else {
                            GuestModel::Null
                        },
                ),
            ),
            GuestValue::Object(fields) => GuestModel::Object(
                Seq::new(
                    fields.len() as nat,
                    |i: int|
                        if 0 <= i < fields.len() {
                            (fields[i].0@, fields[i].1@)
                        } else {
                            (Seq::empty(), GuestModel::Null)
                        },
                ),
            ),
            GuestValue::Members(members) => GuestModel::Members(
                Seq::new(members.len() as nat, |i: int| members[i]@),
            ),
            GuestValue::Bool(b) => GuestModel::Bool(*b),
            GuestValue::Null => GuestModel::Null,
            GuestValue::Buffer(bytes) => GuestModel::Buffer(bytes@),
        }
    }
}

/// The values of a sequence of host replies.
pub open spec fn replies_model(replies: Seq<HostReply>) -> Seq<ReplyModel> {
    Seq::new(replies.len(), |i: int| replies[i]@)
}

/// The values of a sequence of mapping entries.
pub open spec fn entries_model(entries: Seq<(Vec<u8>, HostReply)>) -> Seq<(Seq<u8>, ReplyModel)> {
    Seq::new(entries.len(), |i: int| (entries[i].0@, entries[i].1@))
}

/// The values of a sequence of byte strings.
pub open spec fn payloads_model(payloads: Seq<Vec<u8>>) -> Seq<Seq<u8>> {
    Seq::new(payloads.len(), |i: int| payloads[i]@)
}

/// The values of a sequence of guest values.
pub open spec fn values_model(values: Seq<GuestValue>) -> Seq<GuestModel> {
    Seq::new(values.len(), |i: int| values[i]@)
}

/// The values of a sequence of object fields.
pub open spec fn fields_model(fields: Seq<(String, GuestValue)>) -> Seq<(Seq<char>, GuestModel)> {
    Seq::new(fields.len(), |i: int| (fields[i].0@, fields[i].1@))
}

/// The values of a sequence of strings.
pub open spec fn texts_model(texts: Seq<String>) -> Seq<Seq<char>> {
    Seq::new(texts.len(), |i: int| texts[i]@)
}

/// The value of an array reply is the array of its elements' values.
pub proof fn lemma_array_reply_view(items: Vec<HostReply>)
    ensures
        HostReply::Array(items)@ == ReplyModel::Array(replies_model(items@)),
{
    reveal_with_fuel(<HostReply as View>::view, 2);
    assert(HostReply::Array(items)@->Array_0 =~= replies_model(items@));
}

/// The value of a mapping reply is the sequence of its entries' values.
pub proof fn lemma_mapping_reply_view(entries: Vec<(Vec<u8>, HostReply)>)
    ensures
        HostReply::Mapping(entries)@ == ReplyModel::Mapping(entries_model(entries@)),
{
    reveal_with_fuel(<HostReply as View>::view, 2);
    assert(HostReply::Mapping(entries)@->Mapping_0 =~= entries_model(entries@));
}

/// The value of a set reply is the sequence of its members' bytes.
pub proof fn lemma_members_reply_view(members: Vec<Vec<u8>>)
    ensures
        HostReply::Members(members)@ == ReplyModel::Members(payloads_model(members@)),
{
    assert(HostReply::Members(members)@->Members_0 =~= payloads_model(members@));
}

/// The value of a guest array is the array of its elements' values.
pub proof fn lemma_array_value_view(items: Vec<GuestValue>)
    ensures
        GuestValue::Array(items)@ == GuestModel::Array(values_model(items@)),
{
    reveal_with_fuel(<GuestValue as View>::view, 2);
    assert(GuestValue::Array(items)@->Array_0 =~= values_model(items@));
}

/// The value of a guest object is the sequence of its fields' values.
pub proof fn lemma_object_value_view(fields: Vec<(String, GuestValue)>)
    ensures
        GuestValue::Object(fields)@ == GuestModel::Object(fields_model(fields@)),
{
    reveal_with_fuel(<GuestValue as View>::view, 2);
    assert(GuestValue::Object(fields)@->Object_0 =~= fields_model(fields@));
}

/// The value of a guest set is the sequence of its members' texts.
pub proof fn lemma_members_value_view(members: Vec<String>)
    ensures
        GuestValue::Members(members)@ == GuestModel::Members(texts_model(members@)),
{
    assert(GuestValue::Members(members)@->Members_0 =~= texts_model(members@));
}

} // verus!
