//! JSON values: the shape in which upstream replies arrive and in which
//! payloads leave.

use vstd::prelude::*;

use crate::text::str_eq;

verus! {

/// A JSON number, told apart the way a parser tells them apart. `Float`
/// holds the bits of the IEEE 754 double.
#[derive(Clone, Copy, Debug, PartialEq, Eq, Structural)]
pub enum JsonNumber {
    PosInt(u64),
    NegInt(i64),
    Float(u64),
}

/// A JSON value. Where a key occurs more than once among an object's
/// members, the last one counts.
#[derive(Debug, PartialEq)]
pub enum Json {
    Null,
    Bool(bool),
    Num(JsonNumber),
    Str(String),
    Arr(Vec<Json>),
    Obj(Vec<Member>),
}

/// One key of an object with its value.
#[derive(Debug, PartialEq)]
pub struct Member {
    pub key: String,
    pub value: Json,
}

/// What a [`Json`] value means: text as characters, an object as a map from
/// keys to values.
pub enum JsonView {
    Null,
    Bool(bool),
    Num(JsonNumber),
    Str(Seq<char>),
    Arr(Seq<JsonView>),
    Obj(Map<Seq<char>, JsonView>),
}

pub open spec fn json_view(j: Json) -> JsonView
    decreases j,
{
    match j {
        Json::Null => JsonView::Null,
        Json::Bool(b) => JsonView::Bool(b),
        Json::Num(n) => JsonView::Num(n),
        Json::Str(s) => JsonView::Str(s@),
        Json::Arr(items) => JsonView::Arr(items_view(items@)),
        Json::Obj(members) => JsonView::Obj(members_view(members@)),
    }
}

/// What the items of an array mean, in order.
pub open spec fn items_view(items: Seq<Json>) -> Seq<JsonView>
    decreases items,
{
    if items.len() == 0 {
        Seq::empty()
    } else {
        items_view(items.drop_last()).push(json_view(items.last()))
    }
}

/// What the members of an object mean: a later member replaces an earlier
/// one of the same key.
pub open spec fn members_view(members: Seq<Member>) -> Map<Seq<char>, JsonView>
    decreases members,
{
    if members.len() == 0 {
        Map::empty()
    } else {
        members_view(members.drop_last()).insert(
            members.last().key@,
            json_view(members.last().value),
        )
    }
}

impl View for Json {
    type V = JsonView;

    open spec fn view(&self) -> JsonView {
        json_view(*self)
    }
}

impl JsonView {
    /// The value under `key`: none where the key is absent or the value is
    /// no object.
    pub open spec fn get(self, key: Seq<char>) -> Option<JsonView> {
        match self {
            JsonView::Obj(members) => if members.dom().contains(key) {
                Some(members[key])
            } else {
                None
            },
            _ => None,
        }
    }

    pub open spec fn as_str(self) -> Option<Seq<char>> {
        match self {
            JsonView::Str(s) => Some(s),
            _ => None,
        }
    }

    /// The number, where it is an integer that is not negative.
    pub open spec fn as_u64(self) -> Option<u64> {
        match self {
            JsonView::Num(JsonNumber::PosInt(n)) => Some(n),
            _ => None,
        }
    }

    pub open spec fn as_bool(self) -> Option<bool> {
        match self {
            JsonView::Bool(b) => Some(b),
            _ => None,
        }
    }

    pub open spec fn as_array(self) -> Option<Seq<JsonView>> {
        match self {
            JsonView::Arr(items) => Some(items),
            _ => None,
        }
    }
}

/// Item by item, an array's meaning is the meaning of its items.
pub proof fn lemma_items_view(items: Seq<Json>)
    ensures
        items_view(items).len() == items.len(),
        forall|i: int|
            0 <= i < items.len() ==> #[trigger] items_view(items)[i] == json_view(items[i]),
    decreases items.len(),
{
    if items.len() > 0 {
        lemma_items_view(items.drop_last());
    }
}

proof fn lemma_items_push(items: Seq<Json>, item: Json)
    ensures
        items_view(items.push(item)) == items_view(items).push(json_view(item)),
{
    assert(items.push(item).drop_last() =~= items);
}

proof fn lemma_members_push(members: Seq<Member>, member: Member)
    ensures
        members_view(members.push(member)) == members_view(members).insert(
            member.key@,
            json_view(member.value),
        ),
{
    assert(members.push(member).drop_last() =~= members);
}

/// A key that no member has is absent.
proof fn lemma_members_absent(members: Seq<Member>, key: Seq<char>)
    requires
        forall|i: int| 0 <= i < members.len() ==> #[trigger] members[i].key@ != key,
    ensures
        !members_view(members).dom().contains(key),
    decreases members.len(),
{
    if members.len() > 0 {
        assert(members.last().key@ != key);
        assert forall|i: int| 0 <= i < members.len() - 1 implies #[trigger] members.drop_last()[i].key@
            != key by {
            assert(members[i].key@ != key);
        }
        lemma_members_absent(members.drop_last(), key);
    }
}

/// The last member of a key gives its value.
proof fn lemma_members_present(members: Seq<Member>, at: int)
    requires
        0 <= at < members.len(),
        forall|i: int| at < i < members.len() ==> #[trigger] members[i].key@ != members[at].key@,
    ensures
        members_view(members).dom().contains(members[at].key@),
        members_view(members)[members[at].key@] == json_view(members[at].value),
    decreases members.len(),
{
    if at < members.len() - 1 {
        assert(members.last().key@ != members[at].key@);
        assert forall|i: int|
            at < i < members.len() - 1 implies #[trigger] members.drop_last()[i].key@
            != members.drop_last()[at].key@ by {
            assert(members[i].key@ != members[at].key@);
        }
        lemma_members_present(members.drop_last(), at);
    }
}

/// To replace the last member of a key is to set that key.
proof fn lemma_members_update(members: Seq<Member>, at: int, member: Member)
    requires
        0 <= at < members.len(),
        members[at].key@ == member.key@,
        forall|i: int| at < i < members.len() ==> #[trigger] members[i].key@ != member.key@,
    ensures
        members_view(members.update(at, member)) == members_view(members).insert(
            member.key@,
            json_view(member.value),
        ),
    decreases members.len(),
{
    let updated = members.update(at, member);
    let front = members.drop_last();
    if at == members.len() - 1 {
        assert(updated.drop_last() =~= front);
        assert(members_view(updated) =~= members_view(members).insert(
            member.key@,
            json_view(member.value),
        ));
    } else {
        assert(updated.drop_last() =~= front.update(at, member));
        assert forall|i: int| at < i < front.len() implies #[trigger] front[i].key@
            != member.key@ by {
            assert(members[i].key@ != member.key@);
        }
        lemma_members_update(front, at, member);
        assert(members.last().key@ != member.key@);
        assert(members_view(updated) =~= members_view(members).insert(
            member.key@,
            json_view(member.value),
        ));
    }
}

/// Where the last member of `key` stands.
fn find_key(members: &Vec<Member>, key: &str) -> (at: Option<usize>)
    ensures
        match at {
            Some(i) => {
                &&& i < members@.len()
                &&& members@[i as int].key@ == key@
                &&& forall|k: int| i < k < members@.len() ==> #[trigger] members@[k].key@ != key@
            },
            None => forall|k: int| 0 <= k < members@.len() ==> #[trigger] members@[k].key@ != key@,
        },
{
    let mut i: usize = members.len();
    while i > 0
        invariant
            i <= members@.len(),
            forall|k: int| i <= k < members@.len() ==> #[trigger] members@[k].key@ != key@,
        decreases i,
    {
        i -= 1;
        if str_eq(members[i].key.as_str(), key) {
            return Some(i);
        }
    }
    None
}

/// Set `key` to `value` among the members.
pub fn put(members: &mut Vec<Member>, key: &str, value: Json)
    ensures
        members_view(final(members)@) == members_view(old(members)@).insert(key@, value@),
{
    let member = Member { key: key.to_owned(), value };
    match find_key(members, key) {
        Some(i) => {
            proof {
                lemma_members_update(members@, i as int, member);
            }
            members.set(i, member);
        },
        None => {
            proof {
                lemma_members_push(members@, member);
            }
            members.push(member);
        },
    }
}

/// Append an item to an array.
pub fn push_item(items: &mut Vec<Json>, item: Json)
    ensures
        items_view(final(items)@) == items_view(old(items)@).push(item@),
{
    proof {
        lemma_items_push(items@, item);
    }
    items.push(item);
}

impl Json {
    pub fn text(s: &str) -> (j: Json)
        ensures
            j@ == JsonView::Str(s@),
    {
        Json::Str(s.to_owned())
    }

    pub fn count(n: u64) -> (j: Json)
        ensures
            j@ == JsonView::Num(JsonNumber::PosInt(n)),
    {
        Json::Num(JsonNumber::PosInt(n))
    }

    /// The value under `key`, where this is an object that has the key.
    pub fn get(&self, key: &str) -> (value: Option<&Json>)
        ensures
            match value {
                Some(v) => self@.get(key@) == Some(v@),
                None => self@.get(key@) is None,
            },
    {
        match self {
            Json::Obj(members) => match find_key(members, key) {
                Some(i) => {
                    proof {
                        lemma_members_present(members@, i as int);
                    }
                    Some(&members[i].value)
                },
                None => {
                    proof {
                        lemma_members_absent(members@, key@);
                    }
                    None
                },
            },
            _ => None,
        }
    }

    pub fn as_str(&self) -> (s: Option<&str>)
        ensures
            match s {
                Some(t) => self@.as_str() == Some(t@),
                None => self@.as_str() is None,
            },
    {
        match self {
            Json::Str(s) => Some(s.as_str()),
            _ => None,
        }
    }

    pub fn as_u64(&self) -> (n: Option<u64>)
        ensures
            n == self@.as_u64(),
    {
        match self {
            Json::Num(JsonNumber::PosInt(n)) => Some(*n),
            _ => None,
        }
    }

    pub fn as_bool(&self) -> (b: Option<bool>)
        ensures
            b == self@.as_bool(),
    {
        match self {
            Json::Bool(b) => Some(*b),
            _ => None,
        }
    }

    pub fn as_array(&self) -> (items: Option<&Vec<Json>>)
        ensures
            match items {
                Some(v) => self@.as_array() == Some(items_view(v@)),
                None => self@.as_array() is None,
            },
    {
        match self {
            Json::Arr(items) => Some(items),
            _ => None,
        }
    }

    pub fn is_null(&self) -> (null: bool)
        ensures
            null == (self@ == JsonView::Null),
    {
        match self {
            Json::Null => true,
            _ => false,
        }
    }

    /// A value with the same meaning.
    pub fn copy(&self) -> (same: Json)
        ensures
            same@ == self@,
        decreases self,
    {
        match self {
            Json::Null => Json::Null,
            Json::Bool(b) => Json::Bool(*b),
            Json::Num(n) => Json::Num(*n),
            Json::Str(s) => Json::Str(s.clone()),
            Json::Arr(items) => {
                let mut out: Vec<Json> = Vec::new();
                let mut i: usize = 0;
                while i < items.len()
                    invariant
                        i <= items@.len(),
                        *self == Json::Arr(*items),
                        items_view(out@) == items_view(items@.take(i as int)),
                    decreases items@.len() - i,
                {
                    proof {
                        assert(decreases_to!(*self => self->Arr_0));
                        assert(decreases_to!(self->Arr_0 => self->Arr_0@));
                        assert(decreases_to!(items@ => items@[i as int]));
                    }
                    let item = items[i].copy();
                    push_item(&mut out, item);
                    assert(items@.take(i + 1).drop_last() =~= items@.take(i as int));
                    i += 1;
                }
                assert(items@.take(i as int) =~= items@);
                Json::Arr(out)
            },
            Json::Obj(members) => {
                let mut out: Vec<Member> = Vec::new();
                let mut i: usize = 0;
                while i < members.len()
                    invariant
                        i <= members@.len(),
                        *self == Json::Obj(*members),
                        members_view(out@) == members_view(members@.take(i as int)),
                    decreases members@.len() - i,
                {
                    proof {
                        assert(decreases_to!(*self => self->Obj_0));
                        assert(decreases_to!(self->Obj_0 => self->Obj_0@));
                        assert(decreases_to!(members@ => members@[i as int]));
                        assert(decreases_to!(members@[i as int] => members@[i as int].value));
                    }
                    let value = members[i].value.copy();
                    put(&mut out, members[i].key.as_str(), value);
                    assert(members@.take(i + 1).drop_last() =~= members@.take(i as int));
                    i += 1;
                }
                assert(members@.take(i as int) =~= members@);
                Json::Obj(out)
            },
        }
    }
}

impl Clone for Json {
    fn clone(&self) -> (same: Json)
        ensures
            same@ == self@,
    {
        self.copy()
    }
}

} // verus!
