//! JSON values.

use crate::text::same_text;
use vstd::prelude::*;

verus! {

// ---------------------------------------------------------------------------
// The model
// ---------------------------------------------------------------------------

/// A JSON value as a mathematical value.
pub enum JsonView {
    Null,
    Bool(bool),
    /// A number written without fraction and exponent.
    Integer(int),
    /// Any other number, as it is written.
    Real(Seq<char>),
    Text(Seq<char>),
    Array(Seq<JsonView>),
    Object(Seq<(Seq<char>, JsonView)>),
}

/// The members of a JSON object, in order.
pub type Members = Seq<(Seq<char>, JsonView)>;

/// The value of the first member named `key`.
pub open spec fn lookup(members: Members, key: Seq<char>) -> Option<JsonView>
    decreases members.len(),
{
    if members.len() == 0 {
        None
    } else if members.first().0 == key {
        Some(members.first().1)
    } else {
        lookup(members.drop_first(), key)
    }
}

/// Whether no two members have the same name.
pub open spec fn distinct_keys(members: Members) -> bool {
    forall|i: int, j: int|
        0 <= i < j < members.len() ==> (#[trigger] members[i]).0 != (#[trigger] members[j]).0
}

/// The text of the member named `key`, when there is one and it is a string.
pub open spec fn text_at(members: Members, key: Seq<char>) -> Option<Seq<char>> {
    match lookup(members, key) {
        Some(value) => value.text(),
        None => None,
    }
}

/// The value of the member named `key`, when there is one and it is an integer
/// of 64 bits.
pub open spec fn integer_at(members: Members, key: Seq<char>) -> Option<i64> {
    match lookup(members, key) {
        Some(value) => value.integer(),
        None => None,
    }
}

impl JsonView {
    /// The value of the member named `key`; `None` on anything but an object.
    pub open spec fn member(self, key: Seq<char>) -> Option<JsonView> {
        match self {
            JsonView::Object(members) => lookup(members, key),
            _ => None,
        }
    }

    /// The text of a string.
    pub open spec fn text(self) -> Option<Seq<char>> {
        match self {
            JsonView::Text(s) => Some(s),
            _ => None,
        }
    }

    /// The value of an integer of 64 bits.
    pub open spec fn integer(self) -> Option<i64> {
        match self {
            JsonView::Integer(n) => if i64::MIN <= n <= i64::MAX {
                Some(n as i64)
            } else {
                None
            },
            _ => None,
        }
    }

    /// The text of the member named `key`, when there is one and it is a string.
    pub open spec fn text_member(self, key: Seq<char>) -> Option<Seq<char>> {
        match self.member(key) {
            Some(value) => value.text(),
            None => None,
        }
    }
}

// ---------------------------------------------------------------------------
// The values
// ---------------------------------------------------------------------------

/// A JSON number.
#[derive(Debug)]
pub enum Number {
    /// An integer that is not negative.
    Unsigned(u64),
    /// An integer of 64 bits with a sign.
    Signed(i64),
    /// Any other number, as it is written.
    Real(String),
}

/// A JSON value.
#[derive(Debug)]
pub enum Json {
    Null,
    Bool(bool),
    Number(Number),
    Text(String),
    Array(Vec<Json>),
    Object(JsonMap),
}

/// The members of a JSON object, in order. No name occurs twice.
#[derive(Debug)]
pub struct JsonMap {
    entries: Vec<(String, Json)>,
}

/// The mathematical value of `json`.
pub open spec fn json_view(json: Json) -> JsonView
    decreases json,
{
    match json {
        Json::Null => JsonView::Null,
        Json::Bool(b) => JsonView::Bool(b),
        Json::Number(Number::Unsigned(n)) => JsonView::Integer(n as int),
        Json::Number(Number::Signed(n)) => JsonView::Integer(n as int),
        Json::Number(Number::Real(s)) => JsonView::Real(s@),
        Json::Text(s) => JsonView::Text(s@),
        Json::Array(items) => JsonView::Array(
            Seq::new(
                items@.len(),
                |i: int|
                    if 0 <= i < items@.len() {
                        json_view(items@[i])
                    } else {
                        JsonView::Null
                    },
            ),
        ),
        Json::Object(map) => JsonView::Object(map_view(map)),
    }
}

/// The mathematical value of `map`.
pub closed spec fn map_view(map: JsonMap) -> Members
    decreases map,
{
    Seq::new(
        map.entries@.len(),
        |i: int|
            if 0 <= i < map.entries@.len() {
                (map.entries@[i].0@, json_view(map.entries@[i].1))
            } else {
                (Seq::empty(), JsonView::Null)
            },
    )
}

impl View for Json {
    type V = JsonView;

    open spec fn view(&self) -> JsonView {
        json_view(*self)
    }
}

impl View for JsonMap {
    type V = Members;

    open spec fn view(&self) -> Members {
        map_view(*self)
    }
}

/// The mathematical values of a list of JSON values.
pub open spec fn json_views(items: Seq<Json>) -> Seq<JsonView> {
    items.map_values(|item: Json| item@)
}

/// The mathematical values of a list of members.
pub open spec fn entries_view(entries: Seq<(String, Json)>) -> Members {
    entries.map_values(|entry: (String, Json)| (entry.0@, entry.1@))
}

/// The value of an array is made of its items.
pub proof fn lemma_array_view(items: Vec<Json>)
    ensures
        Json::Array(items)@ == JsonView::Array(json_views(items@)),
{
    assert(Json::Array(items)@->Array_0 =~= json_views(items@));
}

impl Json {
    /// A JSON string.
    pub fn text(s: &str) -> (r: Json)
        ensures
            r@ == JsonView::Text(s@),
    {
        Json::Text(s.to_owned())
    }

    /// A JSON object.
    pub fn object(map: JsonMap) -> (r: Json)
        ensures
            r@ == JsonView::Object(map@),
    {
        Json::Object(map)
    }

    /// The value of the member named `key`; `None` on anything but an object.
    pub fn get(&self, key: &str) -> (r: Option<&Json>)
        ensures
            match r {
                Some(value) => self@.member(key@) == Some(value@),
                None => self@.member(key@) is None,
            },
    {
        match self {
            Json::Object(map) => map.get(key),
            _ => None,
        }
    }

    /// The text of a string.
    pub fn as_str(&self) -> (r: Option<&str>)
        ensures
            match r {
                Some(s) => self@.text() == Some(s@),
                None => self@.text() is None,
            },
    {
        match self {
            Json::Text(s) => Some(s.as_str()),
            _ => None,
        }
    }

    /// The value of an integer that fits into 64 bits with a sign.
    pub fn as_i64(&self) -> (r: Option<i64>)
        ensures
            r == self@.integer(),
    {
        match self {
            Json::Number(Number::Unsigned(n)) => if *n <= i64::MAX as u64 {
                Some(*n as i64)
            } else {
                None
            },
            Json::Number(Number::Signed(n)) => Some(*n),
            _ => None,
        }
    }

    /// The text of the member named `key`, when there is one and it is a string.
    pub fn get_str(&self, key: &str) -> (r: Option<&str>)
        ensures
            match r {
                Some(s) => self@.text_member(key@) == Some(s@),
                None => self@.text_member(key@) is None,
            },
    {
        match self.get(key) {
            Some(value) => value.as_str(),
            None => None,
        }
    }
}

/// `members` with the value of the member `key` set to `value`: in place when
/// there is such a member, at the end otherwise.
pub open spec fn inserted(members: Members, key: Seq<char>, value: JsonView) -> Members
    decreases members.len(),
{
    if members.len() == 0 {
        seq![(key, value)]
    } else if members.first().0 == key {
        seq![(key, value)] + members.drop_first()
    } else {
        seq![members.first()] + inserted(members.drop_first(), key, value)
    }
}

/// A lookup passes over the members in front of the first one with that name.
proof fn lemma_lookup_skip(members: Members, key: Seq<char>, n: int)
    requires
        0 <= n <= members.len(),
        forall|i: int| 0 <= i < n ==> (#[trigger] members[i]).0 != key,
    ensures
        lookup(members, key) == lookup(members.skip(n), key),
    decreases n,
{
    if n == 0 {
        assert(members.skip(0) =~= members);
    } else {
        lemma_lookup_skip(members.drop_first(), key, n - 1);
        assert(members.drop_first().skip(n - 1) =~= members.skip(n));
    }
}

/// An insertion happens at the first member with that name.
proof fn lemma_inserted_at(members: Members, key: Seq<char>, value: JsonView, n: int)
    requires
        0 <= n <= members.len(),
        forall|i: int| 0 <= i < n ==> (#[trigger] members[i]).0 != key,
        n < members.len() ==> members[n].0 == key,
    ensures
        n < members.len() ==> inserted(members, key, value) == members.update(n, (key, value)),
        n == members.len() ==> inserted(members, key, value) == members.push((key, value)),
    decreases n,
{
    if n == 0 {
        if members.len() > 0 {
            assert(inserted(members, key, value) =~= members.update(0, (key, value)));
        } else {
            assert(inserted(members, key, value) =~= members.push((key, value)));
        }
    } else {
        lemma_inserted_at(members.drop_first(), key, value, n - 1);
        if n < members.len() {
            assert(inserted(members, key, value) =~= members.update(n, (key, value)));
        } else {
            assert(inserted(members, key, value) =~= members.push((key, value)));
        }
    }
}

/// The members that remain of `entries` when each is set in turn.
pub open spec fn collected(entries: Members) -> Members
    decreases entries.len(),
{
    if entries.len() == 0 {
        Members::empty()
    } else {
        inserted(collected(entries.drop_last()), entries.last().0, entries.last().1)
    }
}

/// A member of an object under construction.
pub fn member(key: &str, value: Json) -> (r: (String, Json))
    ensures
        r.0@ == key@,
        r.1@ == value@,
{
    (key.to_owned(), value)
}

/// The value of a map is made of its entries.
proof fn lemma_map_view(map: JsonMap)
    ensures
        map@ == entries_view(map.entries@),
{
    assert(map@ =~= entries_view(map.entries@));
}

impl JsonMap {
    /// An object without members.
    pub fn new() -> (r: JsonMap)
        ensures
            r@ == Members::empty(),
    {
        let r = JsonMap { entries: Vec::new() };
        assert(r@ =~= Members::empty());
        r
    }

    /// No name occurs twice.
    #[verifier::type_invariant]
    spec fn well_formed(&self) -> bool {
        distinct_keys(entries_view(self.entries@))
    }

    /// The object with the given members. Of members with the same name the last
    /// one counts, at the place of the first.
    pub fn collect(entries: Vec<(String, Json)>) -> (r: JsonMap)
        ensures
            r@ == collected(entries_view(entries@)),
    {
        let mut r = JsonMap::new();
        let ghost all = entries@;
        for entry in it: entries
            invariant
                it.seq() == all,
                r@ == collected(entries_view(all).take(it.index())),
        {
            proof {
                let seen = entries_view(all).take(it.index() + 1);
                assert(seen.drop_last() =~= entries_view(all).take(it.index()));
                assert(seen.last() == (entry.0@, entry.1@));
            }
            r.insert(entry.0.as_str(), entry.1);
        }
        assert(entries_view(all).take(all.len() as int) =~= entries_view(all));
        r
    }

    /// The members, in order; no name occurs twice among them.
    pub fn entries(&self) -> (r: &Vec<(String, Json)>)
        ensures
            entries_view(r@) == self@,
            distinct_keys(self@),
    {
        proof {
            use_type_invariant(self);
            lemma_map_view(*self);
        }
        &self.entries
    }

    /// The members, in order; no name occurs twice among them.
    pub fn into_entries(self) -> (r: Vec<(String, Json)>)
        ensures
            entries_view(r@) == self@,
            distinct_keys(self@),
    {
        proof {
            use_type_invariant(&self);
            lemma_map_view(self);
        }
        self.entries
    }

    /// The position of the first member named `key`, or the number of members.
    fn position(&self, key: &str) -> (n: usize)
        ensures
            n <= self@.len(),
            forall|i: int| 0 <= i < n ==> (#[trigger] self@[i]).0 != key@,
            n < self@.len() ==> self@[n as int].0 == key@,
    {
        proof {
            lemma_map_view(*self);
        }
        let mut n: usize = 0;
        while n < self.entries.len()
            invariant
                n <= self.entries@.len(),
                self@ == entries_view(self.entries@),
                forall|i: int| 0 <= i < n ==> (#[trigger] self@[i]).0 != key@,
            decreases self.entries@.len() - n,
        {
            if same_text(self.entries[n].0.as_str(), key) {
                return n;
            }
            n += 1;
        }
        n
    }

    /// The value of the member named `key`.
    pub fn get(&self, key: &str) -> (r: Option<&Json>)
        ensures
            match r {
                Some(value) => lookup(self@, key@) == Some(value@),
                None => lookup(self@, key@) is None,
            },
    {
        let n: usize = self.position(key);
        proof {
            lemma_map_view(*self);
            lemma_lookup_skip(self@, key@, n as int);
        }
        if n < self.entries.len() {
            Some(&self.entries[n].1)
        } else {
            None
        }
    }

    /// The text of the member named `key`, when there is one and it is a string.
    pub fn get_str(&self, key: &str) -> (r: Option<&str>)
        ensures
            match r {
                Some(s) => text_at(self@, key@) == Some(s@),
                None => text_at(self@, key@) is None,
            },
    {
        match self.get(key) {
            Some(value) => value.as_str(),
            None => None,
        }
    }

    /// The value of the member named `key`, when there is one and it is an
    /// integer of 64 bits.
    pub fn get_i64(&self, key: &str) -> (r: Option<i64>)
        ensures
            r == integer_at(self@, key@),
    {
        match self.get(key) {
            Some(value) => value.as_i64(),
            None => None,
        }
    }

    /// Sets the value of the member `key`.
    pub fn insert(&mut self, key: &str, value: Json)
        ensures
            final(self)@ == inserted(old(self)@, key@, value@),
    {
        let n: usize = self.position(key);
        let ghost before = self@;
        proof {
            use_type_invariant(&*self);
            lemma_map_view(*self);
            lemma_inserted_at(before, key@, value@, n as int);
            law_insert_then_lookup(before, key@, value@, key@);
        }
        let mut entries: Vec<(String, Json)> = Vec::new();
        std::mem::swap(&mut entries, &mut self.entries);
        if n < entries.len() {
            entries[n] = (key.to_owned(), value);
            assert(entries_view(entries@) =~= before.update(n as int, (key@, value@)));
        } else {
            entries.push((key.to_owned(), value));
            assert(entries_view(entries@) =~= before.push((key@, value@)));
        }
        self.entries = entries;
        proof {
            lemma_map_view(*self);
        }
    }
}

/// A copy of `json`.
fn copy_json(json: &Json) -> (r: Json)
    ensures
        r@ == json@,
    decreases json,
{
    match json {
        Json::Null => Json::Null,
        Json::Bool(b) => Json::Bool(*b),
        Json::Number(Number::Unsigned(n)) => Json::Number(Number::Unsigned(*n)),
        Json::Number(Number::Signed(n)) => Json::Number(Number::Signed(*n)),
        Json::Number(Number::Real(s)) => Json::Number(Number::Real(s.clone())),
        Json::Text(s) => Json::Text(s.clone()),
        Json::Array(items) => {
            let mut copies: Vec<Json> = Vec::new();
            let mut i: usize = 0;
            while i < items.len()
                invariant
                    *json == Json::Array(*items),
                    i <= items@.len(),
                    copies@.len() == i,
                    forall|j: int| 0 <= j < i ==> (#[trigger] copies@[j])@ == items@[j]@,
                decreases items@.len() - i,
            {
                let item = &items[i];
                assert(decreases_to!(*json => json->Array_0@[i as int]));
                copies.push(copy_json(item));
                i += 1;
            }
            proof {
                lemma_array_view(copies);
                lemma_array_view(*items);
                assert(json_views(copies@) =~= json_views(items@));
            }
            Json::Array(copies)
        },
        Json::Object(map) => Json::Object(copy_map(map)),
    }
}

/// A copy of `map`.
fn copy_map(map: &JsonMap) -> (r: JsonMap)
    ensures
        r@ == map@,
    decreases map,
{
    let mut entries: Vec<(String, Json)> = Vec::new();
    let mut i: usize = 0;
    while i < map.entries.len()
        invariant
            i <= map.entries@.len(),
            entries@.len() == i,
            forall|j: int|
                0 <= j < i ==> (#[trigger] entries@[j]).0@ == map.entries@[j].0@
                    && entries@[j].1@ == map.entries@[j].1@,
        decreases map.entries@.len() - i,
    {
        let entry = &map.entries[i];
        assert(decreases_to!(*map => map.entries@[i as int].1));
        let value = copy_json(&entry.1);
        entries.push((entry.0.clone(), value));
        i += 1;
    }
    proof {
        use_type_invariant(map);
        assert(entries_view(entries@) =~= entries_view(map.entries@));
    }
    let r = JsonMap { entries };
    proof {
        lemma_map_view(r);
        lemma_map_view(*map);
    }
    r
}

impl Clone for Json {
    fn clone(&self) -> (r: Json)
        ensures
            r@ == self@,
    {
        copy_json(self)
    }
}

impl Clone for JsonMap {
    fn clone(&self) -> (r: JsonMap)
        ensures
            r@ == self@,
    {
        copy_map(self)
    }
}

// ---------------------------------------------------------------------------
// Laws
// ---------------------------------------------------------------------------

/// A member that was set is read back, every other member is read as before,
/// and no name occurs twice unless one did before.
pub proof fn law_insert_then_lookup(
    members: Members,
    key: Seq<char>,
    value: JsonView,
    other: Seq<char>,
)
    ensures
        lookup(inserted(members, key, value), key) == Some(value),
        other != key ==> lookup(inserted(members, key, value), other) == lookup(members, other),
        distinct_keys(members) ==> distinct_keys(inserted(members, key, value)),
    decreases members.len(),
{
    let after = inserted(members, key, value);
    if members.len() == 0 {
        assert(lookup(after.drop_first(), other) is None);
    } else if members.first().0 == key {
        assert(after.drop_first() =~= members.drop_first());
        if distinct_keys(members) {
            assert forall|i: int, j: int| 0 <= i < j < after.len() implies (#[trigger] after[i]).0
                != (#[trigger] after[j]).0 by {
                assert(members[i].0 != members[j].0);
            }
        }
    } else {
        let rest = members.drop_first();
        law_insert_then_lookup(rest, key, value, other);
        assert(after.drop_first() =~= inserted(rest, key, value));
        if distinct_keys(members) {
            assert(distinct_keys(rest)) by {
                assert forall|i: int, j: int| 0 <= i < j < rest.len() implies (#[trigger] rest[i]).0
                    != (#[trigger] rest[j]).0 by {
                    assert(members[i + 1].0 != members[j + 1].0);
                }
            }
            lemma_inserted_names(rest, key, value);
            assert forall|i: int, j: int| 0 <= i < j < after.len() implies (#[trigger] after[i]).0
                != (#[trigger] after[j]).0 by {
                let tail = inserted(rest, key, value);
                assert(after[j] == tail[j - 1]);
                if i > 0 {
                    assert(after[i] == tail[i - 1]);
                } else if j - 1 < rest.len() {
                    assert(tail[j - 1].0 == rest[j - 1].0);
                    assert(members[0].0 != members[j].0);
                }
            }
        }
    }
}

/// No name occurs twice among collected members; each name is there that was
/// given, and no other.
pub proof fn law_collected_names(entries: Members, key: Seq<char>)
    ensures
        distinct_keys(collected(entries)),
        lookup(collected(entries), key) is Some <==> exists|i: int|
            0 <= i < entries.len() && (#[trigger] entries[i]).0 == key,
    decreases entries.len(),
{
    if entries.len() > 0 {
        let front = entries.drop_last();
        let last = entries.last();
        law_collected_names(front, key);
        law_insert_then_lookup(collected(front), last.0, last.1, key);
        if lookup(collected(front), key) is Some {
            let i = choose|i: int| 0 <= i < front.len() && (#[trigger] front[i]).0 == key;
            assert(entries[i].0 == key);
        }
        if last.0 == key {
            assert(entries[entries.len() - 1].0 == key);
        } else if exists|i: int| 0 <= i < entries.len() && (#[trigger] entries[i]).0 == key {
            let i = choose|i: int| 0 <= i < entries.len() && (#[trigger] entries[i]).0 == key;
            assert(front[i].0 == key);
        }
    }
}

/// Of several members with the same name the last one counts.
pub proof fn law_last_member_counts(entries: Members, i: int)
    requires
        0 <= i < entries.len(),
        forall|j: int| i < j < entries.len() ==> (#[trigger] entries[j]).0 != entries[i].0,
    ensures
        lookup(collected(entries), entries[i].0) == Some(entries[i].1),
    decreases entries.len(),
{
    let front = entries.drop_last();
    let last = entries.last();
    law_insert_then_lookup(collected(front), last.0, last.1, entries[i].0);
    if i < entries.len() - 1 {
        assert(entries[entries.len() - 1].0 != entries[i].0);
        assert forall|j: int| i < j < front.len() implies (#[trigger] front[j]).0 != front[i].0 by {
            assert(entries[j].0 != entries[i].0);
        }
        law_last_member_counts(front, i);
    }
}

/// Members with distinct names stay as they are.
pub proof fn law_distinct_members_stay(entries: Members)
    requires
        distinct_keys(entries),
    ensures
        collected(entries) == entries,
    decreases entries.len(),
{
    if entries.len() > 0 {
        let front = entries.drop_last();
        let last = entries.last();
        assert forall|i: int, j: int| 0 <= i < j < front.len() implies (#[trigger] front[i]).0 != (
        #[trigger] front[j]).0 by {
            assert(entries[i].0 != entries[j].0);
        }
        law_distinct_members_stay(front);
        assert forall|i: int| 0 <= i < front.len() implies (#[trigger] front[i]).0 != last.0 by {
            assert(entries[i].0 != entries[entries.len() - 1].0);
        }
        lemma_inserted_at(front, last.0, last.1, front.len() as int);
        assert(entries =~= front.push(last));
    }
}

/// A member at the end is found when there is none of its name in front.
pub proof fn lemma_lookup_push(
    members: Members,
    key: Seq<char>,
    value: JsonView,
    wanted: Seq<char>,
)
    ensures
        lookup(members.push((key, value)), wanted) == (if lookup(members, wanted) is Some {
            lookup(members, wanted)
        } else if wanted == key {
            Some(value)
        } else {
            None
        }),
    decreases members.len(),
{
    let all = members.push((key, value));
    if members.len() == 0 {
        assert(lookup(all.drop_first(), wanted) is None);
    } else {
        assert(all.drop_first() =~= members.drop_first().push((key, value)));
        lemma_lookup_push(members.drop_first(), key, value, wanted);
    }
}

/// An insertion keeps the names in front and adds at most `key` at the end.
proof fn lemma_inserted_names(members: Members, key: Seq<char>, value: JsonView)
    ensures
        inserted(members, key, value).len() >= members.len(),
        forall|i: int|
            0 <= i < members.len() ==> (#[trigger] inserted(members, key, value)[i]).0
                == members[i].0,
        forall|i: int|
            members.len() <= i < inserted(members, key, value).len() ==> (#[trigger] inserted(
                members,
                key,
                value,
            )[i]).0 == key,
    decreases members.len(),
{
    if members.len() > 0 && members.first().0 != key {
        lemma_inserted_names(members.drop_first(), key, value);
        let after = inserted(members, key, value);
        let tail = inserted(members.drop_first(), key, value);
        assert forall|i: int| 0 <= i < after.len() implies (#[trigger] after[i]).0 == (if i
            < members.len() {
            members[i].0
        } else {
            key
        }) by {
            if i > 0 {
                assert(after[i] == tail[i - 1]);
            }
        }
    }
}

/// A lookup finds the value of the first member with the name, and nothing
/// exactly when no member has it.
pub proof fn law_lookup_finds_the_first(members: Members, key: Seq<char>, i: int)
    ensures
        0 <= i < members.len() && members[i].0 == key && (forall|j: int|
            0 <= j < i ==> (#[trigger] members[j]).0 != key) ==> lookup(members, key) == Some(
            members[i].1,
        ),
        lookup(members, key) is None <==> forall|j: int|
            0 <= j < members.len() ==> (#[trigger] members[j]).0 != key,
    decreases members.len(),
{
    if members.len() > 0 {
        let rest = members.drop_first();
        law_lookup_finds_the_first(rest, key, i - 1);
        if forall|j: int| 0 <= j < rest.len() ==> (#[trigger] rest[j]).0 != key {
            assert forall|j: int| 1 <= j < members.len() implies (#[trigger] members[j]).0
                != key by {
                assert(rest[j - 1].0 != key);
            }
        } else {
            let k = choose|k: int| 0 <= k < rest.len() && !((#[trigger] rest[k]).0 != key);
            assert(members[k + 1].0 == key);
        }
        if 0 < i < members.len() && members[i].0 == key && (forall|j: int|
            0 <= j < i ==> (#[trigger] members[j]).0 != key) {
            assert(members[0].0 != key);
            assert forall|j: int| 0 <= j < i - 1 implies (#[trigger] rest[j]).0 != key by {
                assert(members[j + 1].0 != key);
            }
        }
    }
}

/// Only a string has a text, and only an integer that fits has a value; only an
/// object has members.
pub proof fn law_values_by_kind(value: JsonView, s: Seq<char>, n: i64, key: Seq<char>)
    ensures
        value.text() == Some(s) <==> value == JsonView::Text(s),
        value.integer() == Some(n) <==> value == JsonView::Integer(n as int),
        value matches JsonView::Object(members) ==> value.member(key) == lookup(members, key),
        !(value is Object) ==> value.member(key) is None,
{
}

/// The text or the integer of a member is there exactly when the member is a
/// string or an integer that fits.
pub proof fn law_members_by_kind(members: Members, key: Seq<char>, s: Seq<char>, n: i64)
    ensures
        text_at(members, key) == Some(s) <==> lookup(members, key) == Some(JsonView::Text(s)),
        integer_at(members, key) == Some(n) <==> lookup(members, key) == Some(
            JsonView::Integer(n as int),
        ),
        JsonView::Object(members).text_member(key) == Some(s) <==> lookup(members, key) == Some(
            JsonView::Text(s),
        ),
{
}

/// Only an object has text members.
pub proof fn law_text_members_are_those_of_objects(value: JsonView, key: Seq<char>)
    ensures
        value matches JsonView::Object(members) ==> value.text_member(key) == text_at(members, key),
        !(value is Object) ==> value.text_member(key) is None,
{
}

/// Setting a member replaces its value in place, or adds it at the end; every
/// other member stays where it is.
pub proof fn law_insert_keeps_the_places(members: Members, key: Seq<char>, value: JsonView, i: int)
    requires
        distinct_keys(members),
    ensures
        0 <= i < members.len() && members[i].0 != key ==> inserted(members, key, value)[i]
            == members[i],
        0 <= i < members.len() && members[i].0 == key ==> inserted(members, key, value)[i] == (
            key,
            value,
        ) && inserted(members, key, value).len() == members.len(),
        lookup(members, key) is None ==> inserted(members, key, value) == members.push(
            (key, value),
        ),
{
    if exists|n: int| 0 <= n < members.len() && (#[trigger] members[n]).0 == key {
        let n = choose|n: int| 0 <= n < members.len() && (#[trigger] members[n]).0 == key;
        assert forall|j: int| 0 <= j < n implies (#[trigger] members[j]).0 != key by {
            assert(members[j].0 != members[n].0);
        }
        lemma_inserted_at(members, key, value, n);
        law_lookup_finds_the_first(members, key, n);
        if 0 <= i < members.len() && members[i].0 == key {
            if i < n {
                assert(members[i].0 != members[n].0);
            } else if i > n {
                assert(members[n].0 != members[i].0);
            }
        }
    } else {
        lemma_inserted_at(members, key, value, members.len() as int);
    }
}

/// A JSON value stands for what it is written as.
pub proof fn law_json_values(b: bool, n: u64, m: i64, s: String, map: JsonMap)
    ensures
        Json::Null@ == JsonView::Null,
        Json::Bool(b)@ == JsonView::Bool(b),
        Json::Number(Number::Unsigned(n))@ == JsonView::Integer(n as int),
        Json::Number(Number::Signed(m))@ == JsonView::Integer(m as int),
        Json::Number(Number::Real(s))@ == JsonView::Real(s@),
        Json::Text(s)@ == JsonView::Text(s@),
        Json::Object(map)@ == JsonView::Object(map@),
{
}

/// An array stands for its items, one by one.
pub proof fn law_json_arrays(items: Vec<Json>, i: int)
    ensures
        Json::Array(items)@ matches JsonView::Array(values) && values.len() == items@.len() && (0
            <= i < items@.len() ==> values[i] == items@[i]@),
{
    lemma_array_view(items);
}

/// Entries are read one by one, name and value.
pub proof fn law_entries(entries: Seq<(String, Json)>, i: int)
    ensures
        entries_view(entries).len() == entries.len(),
        0 <= i < entries.len() ==> entries_view(entries)[i] == (entries[i].0@, entries[i].1@),
{
}

} // verus!
