//! How JSON is read: what a value means, and what is found in an object.

use vstd::prelude::*;

use crate::json::{self, Json, JsonNumber, JsonView, Member};

verus! {

/// What stands under `key`; null where nothing does.
pub open spec fn at(j: JsonView, key: Seq<char>) -> JsonView {
    match j {
        JsonView::Obj(members) => if members.dom().contains(key) {
            members[key]
        } else {
            JsonView::Null
        },
        _ => JsonView::Null,
    }
}

/// The text under `key`; empty where there is none.
pub open spec fn text_at(j: JsonView, key: Seq<char>) -> Seq<char> {
    match at(j, key) {
        JsonView::Str(s) => s,
        _ => Seq::empty(),
    }
}

/// The whole number under `key`; zero where there is none.
pub open spec fn count_at(j: JsonView, key: Seq<char>) -> u64 {
    match at(j, key) {
        JsonView::Num(JsonNumber::PosInt(n)) => n,
        _ => 0,
    }
}

/// The items of the array under `key`; none where there is no array.
pub open spec fn items_at(j: JsonView, key: Seq<char>) -> Seq<JsonView> {
    match at(j, key) {
        JsonView::Arr(items) => items,
        _ => Seq::empty(),
    }
}

/// The keys of an object; none where this is no object.
pub open spec fn keys_of(j: JsonView) -> Set<Seq<char>> {
    match j {
        JsonView::Obj(members) => members.dom(),
        _ => Set::empty(),
    }
}

/// A value means what it is; an array means its items in their order.
pub proof fn values_mean_what_they_are(b: bool, n: JsonNumber, s: String, items: Vec<Json>)
    ensures
        Json::Null@ == JsonView::Null,
        Json::Bool(b)@ == JsonView::Bool(b),
        Json::Num(n)@ == JsonView::Num(n),
        Json::Str(s)@ == JsonView::Str(s@),
        Json::Arr(items)@ is Arr,
        Json::Arr(items)@->Arr_0.len() == items@.len(),
        forall|i: int|
            0 <= i < items@.len() ==> #[trigger] Json::Arr(items)@->Arr_0[i] == items@[i]@,
{
    json::lemma_items_view(items@);
}

proof fn lemma_last_member_counts(members: Seq<Member>, i: int)
    requires
        0 <= i < members.len(),
        forall|k: int| i < k < members.len() ==> (#[trigger] members[k]).key@ != members[i].key@,
    ensures
        json::members_view(members).dom().contains(members[i].key@),
        json::members_view(members)[members[i].key@] == members[i].value@,
    decreases members.len(),
{
    let front = members.drop_last();
    if i < front.len() {
        assert forall|k: int| i < k < front.len() implies (#[trigger] front[k]).key@
            != front[i].key@ by {
            assert(front[k] == members[k]);
        }
        lemma_last_member_counts(front, i);
        assert(members[members.len() - 1].key@ != members[i].key@);
    }
}

proof fn lemma_absent_key(members: Seq<Member>, key: Seq<char>)
    requires
        forall|k: int| 0 <= k < members.len() ==> (#[trigger] members[k]).key@ != key,
    ensures
        !json::members_view(members).dom().contains(key),
    decreases members.len(),
{
    if members.len() > 0 {
        let front = members.drop_last();
        assert forall|k: int| 0 <= k < front.len() implies (#[trigger] front[k]).key@ != key by {
            assert(front[k] == members[k]);
        }
        lemma_absent_key(front, key);
        assert(members[members.len() - 1].key@ != key);
    }
}

/// To look a key up in an object gives the value of the last member that
/// has it.
pub proof fn lookup_finds_the_last_member(
    j: &Json,
    members: Vec<Member>,
    i: int,
    key: &str,
    found: Option<&Json>,
)
    requires
        *j == Json::Obj(members),
        0 <= i < members@.len(),
        members@[i].key@ == key@,
        forall|k: int| i < k < members@.len() ==> (#[trigger] members@[k]).key@ != key@,
        call_ensures(Json::get, (j, key), found),
    ensures
        found is Some,
        found->0@ == members@[i].value@,
{
    lemma_last_member_counts(members@, i);
}

/// To look up a key that no member has gives nothing; so does any value
/// that is no object.
pub proof fn lookup_misses_what_is_not_there(j: &Json, key: &str, found: Option<&Json>)
    requires
        match *j {
            Json::Obj(members) => forall|k: int|
                0 <= k < members@.len() ==> (#[trigger] members@[k]).key@ != key@,
            _ => true,
        },
        call_ensures(Json::get, (j, key), found),
    ensures
        found is None,
{
    if let Json::Obj(members) = *j {
        lemma_absent_key(members@, key@);
    }
}

/// Texts, whole numbers, truth values, arrays and null are read as such,
/// and nothing else is read as one of them.
pub proof fn readings_keep_the_kind(
    j: &Json,
    s: Option<&str>,
    n: Option<u64>,
    b: Option<bool>,
    items: Option<&Vec<Json>>,
    null: bool,
)
    requires
        call_ensures(Json::as_str, (j,), s),
        call_ensures(Json::as_u64, (j,), n),
        call_ensures(Json::as_bool, (j,), b),
        call_ensures(Json::as_array, (j,), items),
        call_ensures(Json::is_null, (j,), null),
    ensures
        s is Some <==> *j is Str,
        *j matches Json::Str(t) ==> s->0@ == t@,
        n is Some <==> (*j matches Json::Num(JsonNumber::PosInt(_))),
        *j matches Json::Num(JsonNumber::PosInt(m)) ==> n == Some(m),
        b is Some <==> *j is Bool,
        *j matches Json::Bool(c) ==> b == Some(c),
        items is Some <==> *j is Arr,
        null <==> *j is Null,
{
}

/// To put a value under a key makes it the one that is found there, and
/// changes nothing under the other keys.
pub proof fn a_put_value_is_found(
    members: &mut Vec<Member>,
    key: &str,
    value: Json,
    other: Seq<char>,
)
    requires
        call_ensures(json::put, (members, key, value), ()),
    ensures
        ({
            let before = Json::Obj(*old(members))@;
            let after = Json::Obj(*final(members))@;
            &&& at(after, key@) == value@
            &&& keys_of(after).contains(key@)
            &&& other != key@ ==> at(after, other) == at(before, other) && keys_of(after).contains(
                other,
            ) == keys_of(before).contains(other)
        }),
{
}

/// An item that is pushed comes last, after those that were there.
pub proof fn a_pushed_item_comes_last(items: &mut Vec<Json>, item: Json)
    requires
        call_ensures(json::push_item, (items, item), ()),
    ensures
        final(items)@.len() == old(items)@.len() + 1,
        final(items)@[old(items)@.len() as int]@ == item@,
        forall|i: int|
            0 <= i < old(items)@.len() ==> (#[trigger] final(items)@[i])@ == old(items)@[i]@,
{
    json::lemma_items_view(old(items)@);
    json::lemma_items_view(final(items)@);
    let before = json::items_view(old(items)@);
    let after = json::items_view(final(items)@);
    assert(after == before.push(item@));
    assert(after[before.len() as int] == item@);
    assert forall|i: int| 0 <= i < old(items)@.len() implies (#[trigger] final(items)@[i])@ == old(
        items,
    )@[i]@ by {
        assert(after[i] == before[i]);
    }
}

/// Texts and whole numbers are written as they are.
pub proof fn texts_and_numbers_are_written(s: &str, n: u64, text: Json, number: Json)
    requires
        call_ensures(Json::text, (s,), text),
        call_ensures(Json::count, (n,), number),
    ensures
        text@ == JsonView::Str(s@),
        number@ == JsonView::Num(JsonNumber::PosInt(n)),
{
}

/// A copy means the same.
pub proof fn copies_mean_the_same(j: &Json, same: Json)
    requires
        call_ensures(Json::copy, (j,), same),
    ensures
        same@ == j@,
{
}

} // verus!
