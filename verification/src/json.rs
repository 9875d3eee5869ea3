//! A JSON value as the protocol layers read it: plain data with a
//! mathematical view, so that every rule on a message can be stated exactly.

use crate::text::same_text;
use vstd::prelude::*;

verus! {

/// One member of a JSON object.
#[derive(Debug)]
pub struct Member {
    pub key: String,
    pub value: Json,
}

/// A JSON value. A number is kept as the text that denotes it; the members
/// of an object keep the order in which they were written.
#[derive(Debug)]
pub enum Json {
    Null,
    Bool(bool),
    Number(String),
    Text(String),
    Array(Vec<Json>),
    Object(Vec<Member>),
}

/// The mathematical value of a [`Json`].
pub enum JsonView {
    Null,
    Bool(bool),
    Number(Seq<char>),
    Text(Seq<char>),
    Array(Seq<JsonView>),
    Object(Seq<MemberView>),
}

/// The mathematical value of a [`Member`].
pub struct MemberView {
    pub key: Seq<char>,
    pub value: JsonView,
}

impl View for Json {
    type V = JsonView;

    open spec fn view(&self) -> JsonView
        decreases self,
    {
        match self {
            Json::Null => JsonView::Null,
            Json::Bool(b) => JsonView::Bool(*b),
            Json::Number(n) => JsonView::Number(n@),
            Json::Text(s) => JsonView::Text(s@),
            Json::Array(items) => JsonView::Array(
                Seq::new(
                    items@.len(),
                    |i: int|
                        if 0 <= i < items@.len() {
                            items@[i].view()
                        } else {
                            JsonView::Null
                        },
                ),
            ),
            Json::Object(ms) => JsonView::Object(
                Seq::new(
                    ms@.len(),
                    |i: int|
                        if 0 <= i < ms@.len() {
                            MemberView { key: ms@[i].key@, value: ms@[i].value.view() }
                        } else {
                            MemberView { key: Seq::empty(), value: JsonView::Null }
                        },
                ),
            ),
        }
    }
}

/// The values of a sequence of JSON values.
pub open spec fn items_view(items: Seq<Json>) -> Seq<JsonView> {
    Seq::new(items.len(), |i: int| items[i]@)
}

/// The keys and values of a sequence of members.
pub open spec fn members_view(ms: Seq<Member>) -> Seq<MemberView> {
    Seq::new(ms.len(), |i: int| MemberView { key: ms[i].key@, value: ms[i].value@ })
}

/// The view of an array is the views of its items.
pub proof fn array_view(items: Vec<Json>)
    ensures
        Json::Array(items)@ == JsonView::Array(items_view(items@)),
{
    assert(Json::Array(items)@->Array_0 =~= items_view(items@));
}

/// The view of an object is the keys and views of its members.
pub proof fn object_view(ms: Vec<Member>)
    ensures
        Json::Object(ms)@ == JsonView::Object(members_view(ms@)),
{
    let a = Json::Object(ms)@->Object_0;
    let b = members_view(ms@);
    assert(a.len() == b.len());
    assert forall|i: int| 0 <= i < a.len() implies a[i] == b[i] by {
        assert(a[i].key == ms@[i].key@);
        assert(a[i].value == ms@[i].value@);
        assert(b[i].key == ms@[i].key@);
        assert(b[i].value == ms@[i].value@);
    }
    assert(a =~= b);
}

/// The index of the first member at or after `start` whose key is `key`;
/// the length of `ms` when there is none.
pub open spec fn find_from(ms: Seq<MemberView>, key: Seq<char>, start: int) -> int
    decreases ms.len() - start,
{
    if start < 0 || start >= ms.len() {
        ms.len() as int
    } else if ms[start].key == key {
        start
    } else {
        find_from(ms, key, start + 1)
    }
}

/// The index of the first member whose key is `key`, or the length of `ms`.
pub open spec fn member_index(ms: Seq<MemberView>, key: Seq<char>) -> int {
    find_from(ms, key, 0)
}

/// The value under `key` in an object: that of the first member so named.
/// A value that is no object has no members.
pub open spec fn lookup(j: JsonView, key: Seq<char>) -> Option<JsonView> {
    match j {
        JsonView::Object(ms) => {
            let i = member_index(ms, key);
            if i < ms.len() {
                Some(ms[i].value)
            } else {
                None
            }
        },
        _ => None,
    }
}

/// The members of `ms` with `key` bound to `value`: the first member so
/// named is replaced where it stands, else a new member is added at the end.
pub open spec fn put(ms: Seq<MemberView>, key: Seq<char>, value: JsonView) -> Seq<MemberView> {
    let i = member_index(ms, key);
    if i < ms.len() {
        ms.update(i, MemberView { key, value })
    } else {
        ms.push(MemberView { key, value })
    }
}

/// The members of `j`, none if it is no object.
pub open spec fn members_of(j: JsonView) -> Seq<MemberView> {
    match j {
        JsonView::Object(ms) => ms,
        _ => Seq::empty(),
    }
}

/// `j` as an object in which `key` is bound to `value`. What is no object
/// counts as the empty object.
pub open spec fn with_member(j: JsonView, key: Seq<char>, value: JsonView) -> JsonView {
    JsonView::Object(put(members_of(j), key, value))
}

/// The first `n` members of `ms` that are not named `key`, in order.
pub open spec fn without_upto(ms: Seq<MemberView>, key: Seq<char>, n: int) -> Seq<MemberView>
    decreases n,
{
    if n <= 0 || n > ms.len() {
        Seq::empty()
    } else if ms[n - 1].key == key {
        without_upto(ms, key, n - 1)
    } else {
        without_upto(ms, key, n - 1).push(ms[n - 1])
    }
}

/// `j` without any member named `key`. What is no object is left as it is.
pub open spec fn without_member(j: JsonView, key: Seq<char>) -> JsonView {
    match j {
        JsonView::Object(ms) => JsonView::Object(without_upto(ms, key, ms.len() as int)),
        _ => j,
    }
}

/// The search for a key from `start` finds an index between `start` and the
/// end, names `key` where it finds one, and passes over no member so named.
pub proof fn find_from_is_first(ms: Seq<MemberView>, key: Seq<char>, start: int)
    requires
        0 <= start <= ms.len(),
    ensures
        start <= find_from(ms, key, start) <= ms.len(),
        find_from(ms, key, start) < ms.len() ==> ms[find_from(ms, key, start)].key == key,
        forall|k: int| start <= k < find_from(ms, key, start) ==> (#[trigger] ms[k]).key != key,
    decreases ms.len() - start,
{
    if start < ms.len() && ms[start].key != key {
        find_from_is_first(ms, key, start + 1);
    }
}

/// Where no member before `i` is named `key` and the one at `i` is, the
/// search from `start` ends at `i`.
pub proof fn find_from_hits(ms: Seq<MemberView>, key: Seq<char>, start: int, i: int)
    requires
        0 <= start <= i < ms.len(),
        ms[i].key == key,
        forall|k: int| start <= k < i ==> (#[trigger] ms[k]).key != key,
    ensures
        find_from(ms, key, start) == i,
    decreases i - start,
{
    if start < i {
        find_from_hits(ms, key, start + 1, i);
    }
}

/// Where no member from `start` on is named `key`, the search finds none.
pub proof fn find_from_misses(ms: Seq<MemberView>, key: Seq<char>, start: int)
    requires
        0 <= start <= ms.len(),
        forall|k: int| start <= k < ms.len() ==> (#[trigger] ms[k]).key != key,
    ensures
        find_from(ms, key, start) == ms.len(),
    decreases ms.len() - start,
{
    if start < ms.len() {
        find_from_misses(ms, key, start + 1);
    }
}

/// A key that was put is found, with the value it was given.
pub proof fn lookup_put_same(ms: Seq<MemberView>, key: Seq<char>, value: JsonView)
    ensures
        lookup(JsonView::Object(put(ms, key, value)), key) == Some(value),
{
    let i = member_index(ms, key);
    find_from_is_first(ms, key, 0);
    let after = put(ms, key, value);
    assert forall|k: int| 0 <= k < i implies (#[trigger] after[k]).key != key by {
        assert(after[k] == ms[k]);
    }
    find_from_hits(after, key, 0, i);
}

/// Putting one key leaves what is found under every other key as it was.
pub proof fn lookup_put_other(
    ms: Seq<MemberView>,
    key: Seq<char>,
    value: JsonView,
    other: Seq<char>,
)
    requires
        other != key,
    ensures
        lookup(JsonView::Object(put(ms, key, value)), other) == lookup(
            JsonView::Object(ms),
            other,
        ),
{
    let after = put(ms, key, value);
    let i = member_index(ms, key);
    let j = member_index(ms, other);
    find_from_is_first(ms, key, 0);
    find_from_is_first(ms, other, 0);
    if j < ms.len() {
        assert(i != j);
        assert(after[j] == ms[j]);
        assert forall|k: int| 0 <= k < j implies (#[trigger] after[k]).key != other by {
            if k == i {
            } else {
                assert(after[k] == ms[k]);
            }
        }
        find_from_hits(after, other, 0, j);
    } else {
        assert forall|k: int| 0 <= k < after.len() implies (#[trigger] after[k]).key != other by {
            if k == i || k >= ms.len() {
            } else {
                assert(after[k] == ms[k]);
            }
        }
        find_from_misses(after, other, 0);
    }
}

/// What is left once a key is taken out holds no member so named, and no
/// more members than there were.
pub proof fn without_upto_has_no_key(ms: Seq<MemberView>, key: Seq<char>, n: int)
    requires
        0 <= n <= ms.len(),
    ensures
        without_upto(ms, key, n).len() <= n,
        forall|k: int|
            0 <= k < without_upto(ms, key, n).len() ==> (#[trigger] without_upto(ms, key, n)[k]).key
                != key,
    decreases n,
{
    if n > 0 {
        without_upto_has_no_key(ms, key, n - 1);
    }
}

/// Once a key is taken out of an object nothing is found under it.
pub proof fn lookup_without_same(j: JsonView, key: Seq<char>)
    ensures
        lookup(without_member(j, key), key) is None,
{
    match j {
        JsonView::Object(ms) => {
            without_upto_has_no_key(ms, key, ms.len() as int);
            find_from_misses(without_upto(ms, key, ms.len() as int), key, 0);
        },
        _ => {},
    }
}

/// Taking a key out of the first `n` members leaves the first member under
/// any other key where a search of those `n` members finds it.
pub proof fn without_upto_keeps_other(
    ms: Seq<MemberView>,
    key: Seq<char>,
    other: Seq<char>,
    n: int,
)
    requires
        0 <= n <= ms.len(),
        other != key,
    ensures
        lookup(JsonView::Object(without_upto(ms, key, n)), other) == lookup(
            JsonView::Object(ms.take(n)),
            other,
        ),
    decreases n,
{
    let out = without_upto(ms, key, n);
    let cut = ms.take(n);
    if n == 0 {
        assert(out =~= Seq::empty());
        assert(cut =~= Seq::empty());
    } else {
        without_upto_keeps_other(ms, key, other, n - 1);
        let out1 = without_upto(ms, key, n - 1);
        let cut1 = ms.take(n - 1);
        assert(cut =~= cut1.push(ms[n - 1]));
        find_search_push(cut1, ms[n - 1], other);
        if ms[n - 1].key == key {
            assert(out == out1);
        } else {
            assert(out == out1.push(ms[n - 1]));
            find_search_push(out1, ms[n - 1], other);
        }
    }
}

/// A member added at the end is found only where the key was not found
/// before.
pub proof fn find_search_push(ms: Seq<MemberView>, m: MemberView, key: Seq<char>)
    ensures
        lookup(JsonView::Object(ms.push(m)), key) == if lookup(JsonView::Object(ms), key) is Some {
            lookup(JsonView::Object(ms), key)
        } else if m.key == key {
            Some(m.value)
        } else {
            None
        },
{
    let after = ms.push(m);
    let i = member_index(ms, key);
    find_from_is_first(ms, key, 0);
    if i < ms.len() {
        assert(after[i] == ms[i]);
        assert forall|k: int| 0 <= k < i implies (#[trigger] after[k]).key != key by {
            assert(after[k] == ms[k]);
        }
        find_from_hits(after, key, 0, i);
    } else if m.key == key {
        assert forall|k: int| 0 <= k < ms.len() implies (#[trigger] after[k]).key != key by {
            assert(after[k] == ms[k]);
        }
        assert(after[ms.len() as int] == m);
        find_from_hits(after, key, 0, ms.len() as int);
    } else {
        assert forall|k: int| 0 <= k < after.len() implies (#[trigger] after[k]).key != key by {
            if k < ms.len() {
                assert(after[k] == ms[k]);
            }
        }
        find_from_misses(after, key, 0);
    }
}

/// Taking one key out of an object leaves what is found under every other
/// key as it was.
pub proof fn lookup_without_other(j: JsonView, key: Seq<char>, other: Seq<char>)
    requires
        other != key,
    ensures
        lookup(without_member(j, key), other) == lookup(j, other),
{
    match j {
        JsonView::Object(ms) => {
            without_upto_keeps_other(ms, key, other, ms.len() as int);
            assert(ms.take(ms.len() as int) =~= ms);
        },
        _ => {},
    }
}

/// What is found in a value once `key` is bound in it: the new value under
/// `key`, and under every other key what was found before.
pub proof fn lookup_with_member(j: JsonView, key: Seq<char>, value: JsonView, other: Seq<char>)
    ensures
        lookup(with_member(j, key, value), other) == if other == key {
            Some(value)
        } else {
            lookup(j, other)
        },
{
    if other == key {
        lookup_put_same(members_of(j), key, value);
    } else {
        lookup_put_other(members_of(j), key, value, other);
        find_from_is_first(members_of(j), other, 0);
    }
}

impl Clone for Json {
    fn clone(&self) -> (r: Json)
        ensures
            r@ == self@,
        decreases self,
    {
        match self {
            Json::Null => Json::Null,
            Json::Bool(b) => Json::Bool(*b),
            Json::Number(n) => Json::Number(n.clone()),
            Json::Text(s) => Json::Text(s.clone()),
            Json::Array(items) => {
                let mut out: Vec<Json> = Vec::new();
                let mut i: usize = 0;
                while i < items.len()
                    invariant
                        i <= items.len(),
                        out.len() == i,
                        forall|k: int| 0 <= k < i ==> out@[k]@ == items@[k]@,
                        *self == Json::Array(*items),
                    decreases items.len() - i,
                {
                    proof {
                        assert(self->Array_0 == *items);
                        assert(decreases_to!(self => items));
                        assert(decreases_to!(items => items@));
                        assert(decreases_to!(items@ => items@[i as int]));
                    }
                    let item = &items[i];
                    out.push(item.clone());
                    i += 1;
                }
                proof {
                    array_view(out);
                    array_view(*items);
                    assert(items_view(out@) =~= items_view(items@));
                }
                Json::Array(out)
            },
            Json::Object(ms) => {
                let mut out: Vec<Member> = Vec::new();
                let mut i: usize = 0;
                while i < ms.len()
                    invariant
                        i <= ms.len(),
                        out.len() == i,
                        forall|k: int|
                            0 <= k < i ==> out@[k].key@ == ms@[k].key@ && out@[k].value@
                                == ms@[k].value@,
                        *self == Json::Object(*ms),
                    decreases ms.len() - i,
                {
                    proof {
                        assert(self->Object_0 == *ms);
                        assert(decreases_to!(self => ms));
                        assert(decreases_to!(ms => ms@));
                        assert(decreases_to!(ms@ => ms@[i as int]));
                        assert(decreases_to!(ms@[i as int] => ms@[i as int].value));
                    }
                    let m = &ms[i];
                    out.push(Member { key: m.key.clone(), value: m.value.clone() });
                    i += 1;
                }
                proof {
                    object_view(out);
                    object_view(*ms);
                    assert(members_view(out@) =~= members_view(ms@));
                }
                Json::Object(out)
            },
        }
    }
}

impl Json {
    /// A JSON string with the text of `s`.
    pub fn text(s: &str) -> (r: Json)
        ensures
            r@ == JsonView::Text(s@),
    {
        Json::Text(String::from_str(s))
    }

    /// The object without members.
    pub fn empty_object() -> (r: Json)
        ensures
            r@ == JsonView::Object(Seq::empty()),
    {
        let ms: Vec<Member> = Vec::new();
        proof {
            object_view(ms);
            assert(members_view(ms@) =~= Seq::empty());
        }
        Json::Object(ms)
    }

    /// The value under `key`, where this is an object that has such a member.
    pub fn get(&self, key: &str) -> (r: Option<&Json>)
        ensures
            match r {
                Some(v) => lookup(self@, key@) == Some(v@),
                None => lookup(self@, key@) is None,
            },
    {
        match self {
            Json::Object(ms) => {
                proof {
                    object_view(*ms);
                }
                let ghost mv = members_view(ms@);
                let mut i: usize = 0;
                while i < ms.len()
                    invariant
                        i <= ms.len(),
                        mv == members_view(ms@),
                        self@ == JsonView::Object(mv),
                        find_from(mv, key@, 0) == find_from(mv, key@, i as int),
                    decreases ms.len() - i,
                {
                    if same_text(ms[i].key.as_str(), key) {
                        return Some(&ms[i].value);
                    }
                    i += 1;
                }
                None
            },
            _ => None,
        }
    }

    /// Whether this is the JSON value `true`.
    pub fn is_true(&self) -> (r: bool)
        ensures
            r == (self@ == JsonView::Bool(true)),
    {
        match self {
            Json::Bool(b) => *b,
            _ => false,
        }
    }

    /// Whether this is the JSON value `null`.
    pub fn is_null(&self) -> (r: bool)
        ensures
            r == (self@ is Null),
    {
        match self {
            Json::Null => true,
            _ => false,
        }
    }

    /// Whether this is a JSON array.
    pub fn is_array(&self) -> (r: bool)
        ensures
            r == (self@ is Array),
    {
        match self {
            Json::Array(_) => true,
            _ => false,
        }
    }

    /// Whether this is a JSON object.
    pub fn is_object(&self) -> (r: bool)
        ensures
            r == (self@ is Object),
    {
        match self {
            Json::Object(_) => true,
            _ => false,
        }
    }

    /// The text of a JSON string.
    pub fn as_text(&self) -> (r: Option<&String>)
        ensures
            match r {
                Some(s) => self@ == JsonView::Text(s@),
                None => !(self@ is Text),
            },
    {
        match self {
            Json::Text(s) => Some(s),
            _ => None,
        }
    }

    /// This value as an object in which `key` is bound to `value`; what is
    /// no object counts as the empty object.
    pub fn set(self, key: &str, value: Json) -> (r: Json)
        ensures
            r@ == with_member(self@, key@, value@),
    {
        let mut ms: Vec<Member> = match self {
            Json::Object(ms) => {
                proof {
                    object_view(ms);
                }
                ms
            },
            _ => {
                let ms: Vec<Member> = Vec::new();
                proof {
                    assert(members_view(ms@) =~= Seq::empty());
                }
                ms
            },
        };
        assert(members_view(ms@) == members_of(self@));
        let ghost before = members_view(ms@);
        let mut i: usize = 0;
        while i < ms.len()
            invariant
                i <= ms.len(),
                before == members_view(ms@),
                before == members_of(self@),
                find_from(before, key@, 0) == find_from(before, key@, i as int),
            decreases ms.len() - i,
        {
            if same_text(ms[i].key.as_str(), key) {
                ms.set(i, Member { key: String::from_str(key), value });
                proof {
                    object_view(ms);
                    assert(members_view(ms@) =~= before.update(i as int, MemberView { key: key@, value: value@ }));
                }
                return Json::Object(ms);
            }
            i += 1;
        }
        ms.push(Member { key: String::from_str(key), value });
        proof {
            object_view(ms);
            assert(members_view(ms@) =~= before.push(MemberView { key: key@, value: value@ }));
        }
        Json::Object(ms)
    }

    /// This value without any member named `key`.
    pub fn remove(self, key: &str) -> (r: Json)
        ensures
            r@ == without_member(self@, key@),
    {
        match self {
            Json::Object(ms) => {
                proof {
                    object_view(ms);
                }
                let ghost before = members_view(ms@);
                let mut out: Vec<Member> = Vec::new();
                let mut ms = ms;
                let n = ms.len();
                let mut rest: Vec<Member> = Vec::new();
                // Members come off the end; `rest` collects them reversed.
                while ms.len() > 0
                    invariant
                        ms.len() <= n,
                        n == before.len(),
                        rest.len() == n - ms.len(),
                        members_view(ms@) =~= before.take(ms.len() as int),
                        forall|k: int|
                            0 <= k < rest.len() ==> (#[trigger] rest@[k]).key@ == before[n - 1
                                - k].key && rest@[k].value@ == before[n - 1 - k].value,
                    decreases ms.len(),
                {
                    let ghost len = ms.len() as int;
                    let m = ms.pop().unwrap();
                    proof {
                        assert(members_view(ms@) =~= before.take(len - 1));
                        assert(before.take(len)[len - 1] == before[len - 1]);
                    }
                    rest.push(m);
                }
                while rest.len() > 0
                    invariant
                        rest.len() <= n,
                        n == before.len(),
                        forall|k: int|
                            0 <= k < rest.len() ==> (#[trigger] rest@[k]).key@ == before[n - 1
                                - k].key && rest@[k].value@ == before[n - 1 - k].value,
                        members_view(out@) =~= without_upto(before, key@, n - rest.len()),
                    decreases rest.len(),
                {
                    let ghost at = n - rest.len();
                    let ghost last = rest.len() - 1;
                    let m = rest.pop().unwrap();
                    proof {
                        assert(m.key@ == before[at].key && m.value@ == before[at].value);
                    }
                    if !same_text(m.key.as_str(), key) {
                        out.push(m);
                        proof {
                            assert(members_view(out@) =~= without_upto(before, key@, at).push(
                                before[at],
                            ));
                        }
                    }
                }
                proof {
                    object_view(out);
                }
                Json::Object(out)
            },
            other => other,
        }
    }
}

} // verus!
