//! JSON values, and the canonical form in which they are signed.
//!
//! A value is canonical when, at every depth, the keys of its objects stand
//! in ascending order and none of them is `signature`. Arrays keep the
//! order of their items.

use vstd::prelude::*;

verus! {

/// A JSON value. A number is a whole number of 64 bits, or else is kept as
/// the text that stands for it in JSON.
#[derive(Debug, PartialEq, Eq)]
pub enum JsonValue {
    Null,
    Bool(bool),
    Number(i64),
    /// A number that is no whole number of 64 bits, as its JSON text.
    Real(String),
    Text(String),
    Array(Vec<JsonValue>),
    /// The members of an object, in the order in which they are written.
    Object(Vec<(String, JsonValue)>),
}

/// The mathematical value that a [`JsonValue`] stands for.
pub ghost enum Json {
    Null,
    Bool(bool),
    Number(i64),
    Real(Seq<char>),
    Text(Seq<char>),
    Array(Seq<Json>),
    Object(Seq<(Seq<char>, Json)>),
}

/// The key that canonicalisation removes.
pub open spec fn signature_key() -> Seq<char> {
    "signature"@
}

/// `a` comes before `b` in the order of strings: character by character,
/// by code point, a proper prefix before what it is a prefix of.
pub open spec fn key_lt(a: Seq<char>, b: Seq<char>) -> bool
    decreases a.len(),
{
    if b.len() == 0 {
        false
    } else if a.len() == 0 {
        true
    } else if a[0] != b[0] {
        (a[0] as u32) < (b[0] as u32)
    } else {
        key_lt(a.skip(1), b.skip(1))
    }
}

/// No member of `s` stands behind one with a greater key.
pub open spec fn sorted_by_key(s: Seq<(Seq<char>, Json)>) -> bool {
    forall|i: int, j: int| 0 <= i < j < s.len() ==> !key_lt(#[trigger] s[j].0, #[trigger] s[i].0)
}

/// `s`, which is sorted, with `e` put behind the last member whose key is
/// not greater than that of `e`.
pub open spec fn insert_by_key(e: (Seq<char>, Json), s: Seq<(Seq<char>, Json)>) -> Seq<
    (Seq<char>, Json),
>
    decreases s.len(),
{
    if s.len() == 0 {
        seq![e]
    } else if key_lt(e.0, s[0].0) {
        seq![e] + s
    } else {
        seq![s[0]] + insert_by_key(e, s.skip(1))
    }
}

/// The members of `s` in ascending order of their keys, members with equal
/// keys in the order in which they stand in `s`.
pub open spec fn sort_by_key(s: Seq<(Seq<char>, Json)>) -> Seq<(Seq<char>, Json)>
    decreases s.len(),
{
    if s.len() == 0 {
        s
    } else {
        insert_by_key(s.last(), sort_by_key(s.drop_last()))
    }
}

/// The canonical form of `v`.
pub open spec fn canonical(v: Json) -> Json
    decreases v,
{
    match v {
        Json::Object(members) => Json::Object(
            sort_by_key(canonical_members(members, members.len())),
        ),
        Json::Array(items) => Json::Array(canonical_items(items, items.len())),
        other => other,
    }
}

/// The first `n` items of an array, each in canonical form.
pub open spec fn canonical_items(items: Seq<Json>, n: nat) -> Seq<Json>
    decreases items, n,
{
    if n == 0 || n > items.len() {
        Seq::empty()
    } else {
        canonical_items(items, (n - 1) as nat).push(canonical(items[n - 1]))
    }
}

/// The first `n` members of an object without those named `signature`, each
/// value in canonical form.
pub open spec fn canonical_members(members: Seq<(Seq<char>, Json)>, n: nat) -> Seq<
    (Seq<char>, Json),
>
    decreases members, n,
{
    if n == 0 || n > members.len() {
        Seq::empty()
    } else {
        let rest = canonical_members(members, (n - 1) as nat);
        let member = members[n - 1];
        if member.0 == signature_key() {
            rest
        } else {
            rest.push((member.0, canonical(member.1)))
        }
    }
}

/// The members of an object as mathematical values.
pub open spec fn members_view(members: Seq<(String, JsonValue)>) -> Seq<(Seq<char>, Json)> {
    Seq::new(members.len(), |i: int| (members[i].0@, json_view(members[i].1)))
}

/// The mathematical value of `v`.
pub open spec fn json_view(v: JsonValue) -> Json
    decreases v,
{
    match v {
        JsonValue::Null => Json::Null,
        JsonValue::Bool(b) => Json::Bool(b),
        JsonValue::Number(n) => Json::Number(n),
        JsonValue::Real(t) => Json::Real(t@),
        JsonValue::Text(s) => Json::Text(s@),
        JsonValue::Array(items) => Json::Array(
            Seq::new(
                items@.len(),
                |i: int|
                    if 0 <= i < items@.len() {
                        json_view(items@[i])
                    } else {
                        Json::Null
                    },
            ),
        ),
        JsonValue::Object(members) => Json::Object(
            Seq::new(
                members@.len(),
                |i: int|
                    if 0 <= i < members@.len() {
                        (members@[i].0@, json_view(members@[i].1))
                    } else {
                        (Seq::empty(), Json::Null)
                    },
            ),
        ),
    }
}

impl View for JsonValue {
    type V = Json;

    open spec fn view(&self) -> Json {
        json_view(*self)
    }
}

impl Clone for JsonValue {
    fn clone(&self) -> (r: JsonValue)
        ensures
            r@ == self@,
    {
        self.duplicate()
    }
}


/// The order of strings has no cycle of two.
pub proof fn lemma_key_lt_asymmetric(a: Seq<char>, b: Seq<char>)
    requires
        key_lt(a, b),
    ensures
        !key_lt(b, a),
    decreases a.len(),
{
    if a.len() > 0 && b.len() > 0 && a[0] == b[0] {
        lemma_key_lt_asymmetric(a.skip(1), b.skip(1));
    }
}

/// The order of strings is transitive.
pub proof fn lemma_key_lt_transitive(a: Seq<char>, b: Seq<char>, c: Seq<char>)
    requires
        key_lt(a, b),
        key_lt(b, c),
    ensures
        key_lt(a, c),
    decreases a.len(),
{
    if a.len() > 0 && b.len() > 0 && c.len() > 0 && a[0] == b[0] && b[0] == c[0] {
        lemma_key_lt_transitive(a.skip(1), b.skip(1), c.skip(1));
    }
}

/// Where `insert_by_key` puts a member: behind every member that is not
/// greater, before the first that is.
pub proof fn lemma_insert_at(e: (Seq<char>, Json), s: Seq<(Seq<char>, Json)>, p: int)
    requires
        0 <= p <= s.len(),
        forall|j: int| 0 <= j < p ==> !key_lt(e.0, #[trigger] s[j].0),
        p < s.len() ==> key_lt(e.0, s[p].0),
    ensures
        insert_by_key(e, s) == s.insert(p, e),
    decreases p,
{
    if p == 0 {
        if s.len() == 0 {
            assert(s.insert(0, e) =~= seq![e]);
        } else {
            assert(seq![e] + s =~= s.insert(0, e));
        }
    } else {
        let t = s.skip(1);
        assert forall|j: int| 0 <= j < p - 1 implies !key_lt(e.0, #[trigger] t[j].0) by {
            assert(t[j] == s[j + 1]);
        }
        lemma_insert_at(e, t, p - 1);
        assert(seq![s[0]] + t.insert(p - 1, e) =~= s.insert(p, e));
    }
}

/// The place at which `insert_by_key` puts `e` into `s`.
pub open spec fn insert_position(e: (Seq<char>, Json), s: Seq<(Seq<char>, Json)>) -> int
    decreases s.len(),
{
    if s.len() == 0 || key_lt(e.0, s[0].0) {
        0
    } else {
        1 + insert_position(e, s.skip(1))
    }
}

/// `insert_by_key` puts the member at `insert_position` and moves nothing
/// else.
pub proof fn lemma_insert_position(e: (Seq<char>, Json), s: Seq<(Seq<char>, Json)>)
    ensures
        0 <= insert_position(e, s) <= s.len(),
        forall|j: int| 0 <= j < insert_position(e, s) ==> !key_lt(e.0, #[trigger] s[j].0),
        insert_position(e, s) < s.len() ==> key_lt(e.0, s[insert_position(e, s)].0),
        insert_by_key(e, s) == s.insert(insert_position(e, s), e),
    decreases s.len(),
{
    if s.len() == 0 || key_lt(e.0, s[0].0) {
    } else {
        let t = s.skip(1);
        lemma_insert_position(e, t);
        let p = insert_position(e, s);
        assert forall|j: int| 0 <= j < p implies !key_lt(e.0, #[trigger] s[j].0) by {
            if j > 0 {
                assert(s[j] == t[j - 1]);
            }
        }
        if p < s.len() {
            assert(s[p] == t[p - 1]);
        }
    }
    lemma_insert_at(e, s, insert_position(e, s));
}

/// Inserting into a sorted sequence leaves it sorted.
pub proof fn lemma_insert_keeps_sorted(e: (Seq<char>, Json), s: Seq<(Seq<char>, Json)>)
    requires
        sorted_by_key(s),
    ensures
        sorted_by_key(insert_by_key(e, s)),
{
    lemma_insert_position(e, s);
    let p = insert_position(e, s);
    let r = s.insert(p, e);
    assert forall|i: int, j: int| 0 <= i < j < r.len() implies !key_lt(
        #[trigger] r[j].0,
        #[trigger] r[i].0,
    ) by {
        if j == p {
            assert(r[i] == s[i]);
        } else if i == p {
            assert(r[j] == s[j - 1]);
            if key_lt(r[j].0, e.0) {
                lemma_key_lt_transitive(r[j].0, e.0, s[p].0);
                lemma_key_lt_asymmetric(e.0, s[p].0);
                if j - 1 > p {
                    assert(!key_lt(s[j - 1].0, s[p].0));
                }
            }
        } else {
            let i0 = if i < p { i } else { i - 1 };
            let j0 = if j < p { j } else { j - 1 };
            assert(r[i] == s[i0]);
            assert(r[j] == s[j0]);
            assert(!key_lt(s[j0].0, s[i0].0));
        }
    }
}

/// What `sort_by_key` gives is sorted.
pub proof fn lemma_sort_sorts(s: Seq<(Seq<char>, Json)>)
    ensures
        sorted_by_key(sort_by_key(s)),
        sort_by_key(s).len() == s.len(),
    decreases s.len(),
{
    if s.len() > 0 {
        lemma_sort_sorts(s.drop_last());
        lemma_insert_keeps_sorted(s.last(), sort_by_key(s.drop_last()));
        lemma_insert_position(s.last(), sort_by_key(s.drop_last()));
    }
}

/// Sorting changes nothing in a sequence that is sorted.
pub proof fn lemma_sort_of_sorted(s: Seq<(Seq<char>, Json)>)
    requires
        sorted_by_key(s),
    ensures
        sort_by_key(s) == s,
    decreases s.len(),
{
    if s.len() > 0 {
        let init = s.drop_last();
        assert forall|i: int, j: int| 0 <= i < j < init.len() implies !key_lt(
            #[trigger] init[j].0,
            #[trigger] init[i].0,
        ) by {
            assert(init[i] == s[i] && init[j] == s[j]);
        }
        lemma_sort_of_sorted(init);
        assert forall|j: int| 0 <= j < init.len() implies !key_lt(
            s.last().0,
            #[trigger] init[j].0,
        ) by {
            assert(init[j] == s[j]);
            assert(!key_lt(s[s.len() - 1].0, s[j].0));
        }
        lemma_insert_at(s.last(), init, init.len() as int);
        assert(init.insert(init.len() as int, s.last()) =~= s);
    }
}

/// Every member that sorting hands out is one that went in.
pub proof fn lemma_sort_members(s: Seq<(Seq<char>, Json)>)
    ensures
        forall|i: int|
            0 <= i < sort_by_key(s).len() ==> s.contains(#[trigger] sort_by_key(s)[i]),
    decreases s.len(),
{
    if s.len() > 0 {
        let init = s.drop_last();
        let t = sort_by_key(init);
        lemma_sort_members(init);
        lemma_insert_position(s.last(), t);
        let p = insert_position(s.last(), t);
        let r = sort_by_key(s);
        assert forall|i: int| 0 <= i < r.len() implies s.contains(#[trigger] r[i]) by {
            if i == p {
                assert(s[s.len() - 1] == r[i]);
            } else {
                let i0 = if i < p { i } else { i - 1 };
                assert(r[i] == t[i0]);
                assert(init.contains(t[i0]));
                let k = choose|k: int| 0 <= k < init.len() && init[k] == t[i0];
                assert(s[k] == r[i]);
            }
        }
    }
}

/// A member that canonicalisation leaves as it is: not named `signature`,
/// its value in canonical form.
pub open spec fn is_settled(e: (Seq<char>, Json)) -> bool {
    e.0 != signature_key() && canonical(e.1) == e.1
}

/// Canonicalising members that are all settled hands them back.
pub proof fn lemma_settled_members(members: Seq<(Seq<char>, Json)>, n: nat)
    requires
        n <= members.len(),
        forall|i: int| 0 <= i < members.len() ==> is_settled(#[trigger] members[i]),
    ensures
        canonical_members(members, n) == members.take(n as int),
    decreases n,
{
    if n == 0 {
        assert(members.take(0) =~= Seq::empty());
    } else {
        lemma_settled_members(members, (n - 1) as nat);
        assert(is_settled(members[n - 1]));
        assert(members.take(n - 1).push(members[n - 1]) =~= members.take(n as int));
    }
}

/// Canonicalisation hands out settled members only.
pub proof fn lemma_members_settle(members: Seq<(Seq<char>, Json)>, n: nat)
    requires
        n <= members.len(),
    ensures
        forall|i: int|
            0 <= i < canonical_members(members, n).len() ==> is_settled(
                #[trigger] canonical_members(members, n)[i],
            ),
    decreases members, n,
{
    if n > 0 {
        lemma_members_settle(members, (n - 1) as nat);
        let rest = canonical_members(members, (n - 1) as nat);
        let all = canonical_members(members, n);
        if members[n - 1].0 != signature_key() {
            lemma_canonical_idempotent(members[n - 1].1);
            assert(all == rest.push((members[n - 1].0, canonical(members[n - 1].1))));
        } else {
            assert(all == rest);
        }
        assert forall|i: int| 0 <= i < all.len() implies is_settled(#[trigger] all[i]) by {
            if i < rest.len() {
                assert(all[i] == rest[i]);
            }
        }
    }
}

/// The canonical items of an array are the canonical forms of its items,
/// one for one.
pub proof fn lemma_canonical_items(items: Seq<Json>, n: nat)
    requires
        n <= items.len(),
    ensures
        canonical_items(items, n).len() == n,
        forall|i: int| 0 <= i < n ==> #[trigger] canonical_items(items, n)[i] == canonical(items[i]),
    decreases n,
{
    if n > 0 {
        lemma_canonical_items(items, (n - 1) as nat);
    }
}

/// Canonicalising twice gives what canonicalising once gives.
pub proof fn lemma_canonical_idempotent(v: Json)
    ensures
        canonical(canonical(v)) == canonical(v),
    decreases v,
{
    match v {
        Json::Object(members) => {
            let picked = canonical_members(members, members.len());
            let c = sort_by_key(picked);
            lemma_members_settle(members, members.len());
            lemma_sort_members(picked);
            lemma_sort_sorts(picked);
            assert forall|i: int| 0 <= i < c.len() implies is_settled(#[trigger] c[i]) by {
                assert(picked.contains(c[i]));
            }
            lemma_settled_members(c, c.len());
            assert(c.take(c.len() as int) =~= c);
            lemma_sort_of_sorted(c);
        },
        Json::Array(items) => {
            let c = canonical_items(items, items.len());
            lemma_canonical_items(items, items.len());
            lemma_canonical_items(c, c.len());
            assert forall|i: int| 0 <= i < c.len() implies canonical_items(c, c.len())[i]
                == c[i] by {
                lemma_canonical_idempotent(items[i]);
            }
            assert(canonical_items(c, c.len()) =~= c);
        },
        _ => {},
    }
}

/// Canonicalisation looks at a member only when it reaches it.
pub proof fn lemma_members_prefix(a: Seq<(Seq<char>, Json)>, b: Seq<(Seq<char>, Json)>, n: nat)
    requires
        n <= a.len(),
        n <= b.len(),
        forall|i: int| 0 <= i < n ==> a[i] == b[i],
    ensures
        canonical_members(a, n) == canonical_members(b, n),
    decreases n,
{
    if n > 0 {
        lemma_members_prefix(a, b, (n - 1) as nat);
    }
}

/// A member named `signature`, put anywhere among the members of an object,
/// does not show in what canonicalisation picks.
pub proof fn lemma_members_skip_signature(
    members: Seq<(Seq<char>, Json)>,
    at: int,
    value: Json,
    n: nat,
)
    requires
        0 <= at <= members.len(),
        at < n <= members.len() + 1,
    ensures
        canonical_members(members.insert(at, (signature_key(), value)), n) == canonical_members(
            members,
            (n - 1) as nat,
        ),
    decreases n,
{
    let with = members.insert(at, (signature_key(), value));
    if n == at + 1 {
        lemma_members_prefix(with, members, at as nat);
    } else {
        lemma_members_skip_signature(members, at, value, (n - 1) as nat);
        assert(with[n - 1] == members[n - 2]);
    }
}

/// The canonical form of an object does not change when a member named
/// `signature` is put anywhere among its members, or taken away again.
pub proof fn lemma_signature_transparent(members: Seq<(Seq<char>, Json)>, at: int, value: Json)
    requires
        0 <= at <= members.len(),
    ensures
        canonical(Json::Object(members.insert(at, (signature_key(), value)))) == canonical(
            Json::Object(members),
        ),
{
    lemma_members_skip_signature(members, at, value, members.len() + 1);
}


/// The JSON text of a string: the string between quotation marks, with
/// each character that JSON does not take as it is written as an escape.
pub uninterp spec fn json_string_text(s: Seq<char>) -> Seq<char>;

/// The character of a decimal digit.
pub open spec fn digit_char(d: int) -> char {
    if d == 0 {
        '0'
    } else if d == 1 {
        '1'
    } else if d == 2 {
        '2'
    } else if d == 3 {
        '3'
    } else if d == 4 {
        '4'
    } else if d == 5 {
        '5'
    } else if d == 6 {
        '6'
    } else if d == 7 {
        '7'
    } else if d == 8 {
        '8'
    } else {
        '9'
    }
}

/// The decimal digits of a natural number, without leading zeros.
pub open spec fn natural_text(n: nat) -> Seq<char>
    decreases n,
{
    if n < 10 {
        seq![digit_char(n as int)]
    } else {
        natural_text(n / 10).push(digit_char((n % 10) as int))
    }
}

/// The decimal text of a whole number: its digits, behind a minus sign
/// where it is negative.
pub open spec fn decimal_text(n: int) -> Seq<char> {
    if n < 0 {
        seq!['-'] + natural_text((-n) as nat)
    } else {
        natural_text(n as nat)
    }
}

/// `serde_json::to_string` on a string, which cannot fail: the compact JSON
/// text of that string.
#[verifier::external_body]
fn quote_string(s: &str) -> (r: String)
    ensures
        r@ == json_string_text(s@),
{
    serde_json::to_string(s).unwrap_or_default()
}

/// `serde_json::to_string` on a 64-bit integer, which cannot fail: the
/// decimal text of that number.
#[verifier::external_body]
pub(crate) fn number_text(n: i64) -> (r: String)
    ensures
        r@ == decimal_text(n as int),
{
    serde_json::to_string(&n).unwrap_or_default()
}

/// The `<` of `str`, which orders strings lexicographically by their
/// bytes, and so by the code points of their characters.
#[verifier::external_body]
fn str_less(a: &str, b: &str) -> (r: bool)
    ensures
        r == key_lt(a@, b@),
{
    a < b
}

/// The compact JSON text of the first `n` of `items`, with commas between
/// them.
pub open spec fn items_text(items: Seq<Json>, n: nat) -> Seq<char>
    decreases items, n,
{
    if n == 0 || n > items.len() {
        Seq::empty()
    } else if n == 1 {
        json_text(items[0])
    } else {
        items_text(items, (n - 1) as nat) + ","@ + json_text(items[n - 1])
    }
}

/// The compact JSON text of the first `n` of an object's members, with
/// commas between them and a colon behind each key.
pub open spec fn members_text(members: Seq<(Seq<char>, Json)>, n: nat) -> Seq<char>
    decreases members, n,
{
    if n == 0 || n > members.len() {
        Seq::empty()
    } else if n == 1 {
        json_string_text(members[0].0) + ":"@ + json_text(members[0].1)
    } else {
        members_text(members, (n - 1) as nat) + ","@ + json_string_text(members[n - 1].0) + ":"@
            + json_text(members[n - 1].1)
    }
}

/// The compact JSON text of `v`: no white space, the members of an object
/// in the order in which they stand, a number that was kept as text as
/// that text.
pub open spec fn json_text(v: Json) -> Seq<char>
    decreases v,
{
    match v {
        Json::Null => "null"@,
        Json::Bool(b) => if b {
            "true"@
        } else {
            "false"@
        },
        Json::Number(n) => decimal_text(n as int),
        Json::Real(t) => t,
        Json::Text(s) => json_string_text(s),
        Json::Array(items) => "["@ + items_text(items, items.len()) + "]"@,
        Json::Object(members) => "{"@ + members_text(members, members.len()) + "}"@,
    }
}

/// Puts a member into members that are sorted by key, behind the last one
/// whose key is not greater.
fn insert_member(out: &mut Vec<(String, JsonValue)>, key: String, value: JsonValue)
    ensures
        members_view(final(out)@) == insert_by_key((key@, value@), members_view(old(out)@)),
{
    let ghost e = (key@, value@);
    let ghost s = members_view(out@);
    let mut p: usize = 0;
    while p < out.len() && !str_less(key.as_str(), out[p].0.as_str())
        invariant
            p <= out.len(),
            out@ == old(out)@,
            s == members_view(out@),
            e == (key@, value@),
            forall|j: int| 0 <= j < p ==> !key_lt(e.0, #[trigger] s[j].0),
        decreases out.len() - p,
    {
        p += 1;
    }
    proof {
        lemma_insert_at(e, s, p as int);
    }
    out.insert(p, (key, value));
    assert(members_view(out@) =~= s.insert(p as int, e));
}

impl JsonValue {
    /// A copy of this value.
    pub fn duplicate(&self) -> (r: JsonValue)
        ensures
            r@ == self@,
        decreases self,
    {
        match self {
            JsonValue::Null => JsonValue::Null,
            JsonValue::Bool(b) => JsonValue::Bool(*b),
            JsonValue::Number(n) => JsonValue::Number(*n),
            JsonValue::Real(t) => JsonValue::Real(t.clone()),
            JsonValue::Text(s) => JsonValue::Text(s.clone()),
            JsonValue::Array(items) => {
                let mut out: Vec<JsonValue> = Vec::new();
                let mut i: usize = 0;
                while i < items.len()
                    invariant
                        i <= items.len(),
                        out@.len() == i,
                        self is Array,
                        *items == self->Array_0,
                        forall|j: int| 0 <= j < i ==> (#[trigger] out@[j])@ == items@[j]@,
                    decreases items.len() - i,
                {
                    proof {
                        assert(decreases_to!(*items => items[i as int]));
                    }
                    out.push(items[i].duplicate());
                    i += 1;
                }
                let r = JsonValue::Array(out);
                assert(r@->Array_0 =~= self@->Array_0);
                r
            },
            JsonValue::Object(members) => {
                let mut out: Vec<(String, JsonValue)> = Vec::new();
                let mut i: usize = 0;
                while i < members.len()
                    invariant
                        i <= members.len(),
                        out@.len() == i,
                        self is Object,
                        *members == self->Object_0,
                        forall|j: int|
                            0 <= j < i ==> (#[trigger] out@[j]).0@ == members@[j].0@ && out@[j].1@
                                == members@[j].1@,
                    decreases members.len() - i,
                {
                    proof {
                        assert(decreases_to!(*members => members[i as int]));
                    }
                    out.push((members[i].0.clone(), members[i].1.duplicate()));
                    i += 1;
                }
                let r = JsonValue::Object(out);
                assert(r@->Object_0 =~= self@->Object_0);
                r
            },
        }
    }

    /// The canonical form of this value: in every object, at every depth,
    /// the members in ascending order of their keys and none named
    /// `signature`.
    pub fn canonicalize(&self) -> (r: JsonValue)
        ensures
            r@ == canonical(self@),
        decreases self,
    {
        match self {
            JsonValue::Object(members) => {
                let signature = String::from_str("signature");
                let ghost given = members_view(members@);
                let mut out: Vec<(String, JsonValue)> = Vec::new();
                let mut i: usize = 0;
                assert(members_view(out@) =~= Seq::empty());
                while i < members.len()
                    invariant
                        i <= members.len(),
                        self is Object,
                        *members == self->Object_0,
                        signature@ == signature_key(),
                        given == members_view(members@),
                        members_view(out@) == sort_by_key(canonical_members(given, i as nat)),
                    decreases members.len() - i,
                {
                    if members[i].0 != signature {
                        proof {
                            assert(decreases_to!(*members => members[i as int]));
                        }
                        let value = members[i].1.canonicalize();
                        insert_member(&mut out, members[i].0.clone(), value);
                        proof {
                            let before = canonical_members(given, i as nat);
                            let e = (members@[i as int].0@, canonical(members@[i as int].1@));
                            assert(before.push(e).drop_last() =~= before);
                        }
                    }
                    i += 1;
                }
                let r = JsonValue::Object(out);
                assert(self@->Object_0 =~= given);
                assert(r@->Object_0 =~= members_view(out@));
                r
            },
            JsonValue::Array(items) => {
                let ghost given = self@->Array_0;
                let mut out: Vec<JsonValue> = Vec::new();
                let mut i: usize = 0;
                while i < items.len()
                    invariant
                        i <= items.len(),
                        self is Array,
                        *items == self->Array_0,
                        given == self@->Array_0,
                        out@.len() == i,
                        forall|j: int| 0 <= j < i ==> (#[trigger] out@[j])@ == canonical(given[j]),
                    decreases items.len() - i,
                {
                    proof {
                        assert(decreases_to!(*items => items[i as int]));
                        assert(given[i as int] == items@[i as int]@);
                    }
                    out.push(items[i].canonicalize());
                    i += 1;
                }
                let r = JsonValue::Array(out);
                proof {
                    lemma_canonical_items(given, given.len());
                    assert(r@->Array_0 =~= canonical_items(given, given.len()));
                }
                r
            },
            _ => self.duplicate(),
        }
    }

    /// The compact JSON text of this value.
    pub fn to_json_text(&self) -> (r: String)
        ensures
            r@ == json_text(self@),
        decreases self,
    {
        match self {
            JsonValue::Null => String::from_str("null"),
            JsonValue::Bool(b) => if *b {
                String::from_str("true")
            } else {
                String::from_str("false")
            },
            JsonValue::Number(n) => number_text(*n),
            JsonValue::Real(t) => t.clone(),
            JsonValue::Text(s) => quote_string(s.as_str()),
            JsonValue::Array(items) => {
                let ghost given = self@->Array_0;
                let mut out = String::from_str("[");
                let mut i: usize = 0;
                assert("["@ + items_text(given, 0) =~= "["@);
                while i < items.len()
                    invariant
                        i <= items.len(),
                        self is Array,
                        *items == self->Array_0,
                        given == self@->Array_0,
                        out@ == "["@ + items_text(given, i as nat),
                    decreases items.len() - i,
                {
                    if i > 0 {
                        out.append(",");
                    }
                    proof {
                        assert(decreases_to!(*items => items[i as int]));
                    }
                    let item = items[i].to_json_text();
                    out.append(item.as_str());
                    proof {
                        assert(given[i as int] == items@[i as int]@);
                        assert(out@ =~= "["@ + items_text(given, (i + 1) as nat));
                    }
                    i += 1;
                }
                out.append("]");
                out
            },
            JsonValue::Object(members) => {
                let ghost given = self@->Object_0;
                let mut out = String::from_str("{");
                let mut i: usize = 0;
                assert("{"@ + members_text(given, 0) =~= "{"@);
                while i < members.len()
                    invariant
                        i <= members.len(),
                        self is Object,
                        *members == self->Object_0,
                        given == self@->Object_0,
                        out@ == "{"@ + members_text(given, i as nat),
                    decreases members.len() - i,
                {
                    if i > 0 {
                        out.append(",");
                    }
                    let key = quote_string(members[i].0.as_str());
                    out.append(key.as_str());
                    out.append(":");
                    proof {
                        assert(decreases_to!(*members => members[i as int]));
                    }
                    let value = members[i].1.to_json_text();
                    out.append(value.as_str());
                    proof {
                        assert(given[i as int] == (members@[i as int].0@, members@[i as int].1@));
                        assert(out@ =~= "{"@ + members_text(given, (i + 1) as nat));
                    }
                    i += 1;
                }
                out.append("}");
                out
            },
        }
    }
}


/// The value of the first of `members` that has the key `key`.
pub open spec fn lookup(members: Seq<(Seq<char>, Json)>, key: Seq<char>) -> Option<Json>
    decreases members.len(),
{
    if members.len() == 0 {
        None
    } else if members[0].0 == key {
        Some(members[0].1)
    } else {
        lookup(members.skip(1), key)
    }
}

/// `members` without those that have the key `key`.
pub open spec fn without_key(members: Seq<(Seq<char>, Json)>, key: Seq<char>) -> Seq<
    (Seq<char>, Json),
>
    decreases members.len(),
{
    if members.len() == 0 {
        members
    } else {
        let rest = without_key(members.drop_last(), key);
        if members.last().0 == key {
            rest
        } else {
            rest.push(members.last())
        }
    }
}

/// `members` with `key` set to `value`: what had that key is gone, and the
/// new member stands last.
pub open spec fn put_member(members: Seq<(Seq<char>, Json)>, key: Seq<char>, value: Json) -> Seq<
    (Seq<char>, Json),
> {
    without_key(members, key).push((key, value))
}

/// `v` with the member `key` set to `value`, where `v` is an object; any
/// other value as it is.
pub open spec fn with_member(v: Json, key: Seq<char>, value: Json) -> Json {
    match v {
        Json::Object(members) => Json::Object(put_member(members, key, value)),
        other => other,
    }
}

/// Nothing that `without_key` leaves has the key.
pub proof fn lemma_without_key(members: Seq<(Seq<char>, Json)>, key: Seq<char>)
    ensures
        forall|i: int|
            0 <= i < without_key(members, key).len() ==> (#[trigger] without_key(
                members,
                key,
            )[i]).0 != key,
    decreases members.len(),
{
    if members.len() > 0 {
        lemma_without_key(members.drop_last(), key);
        let rest = without_key(members.drop_last(), key);
        let all = without_key(members, key);
        assert forall|i: int| 0 <= i < all.len() implies (#[trigger] all[i]).0 != key by {
            if i < rest.len() {
                assert(all[i] == rest[i]);
            }
        }
    }
}

/// A member put behind members of other keys is the one found under its
/// key.
pub proof fn lemma_lookup_last(members: Seq<(Seq<char>, Json)>, key: Seq<char>, value: Json)
    requires
        forall|i: int| 0 <= i < members.len() ==> (#[trigger] members[i]).0 != key,
    ensures
        lookup(members.push((key, value)), key) == Some(value),
    decreases members.len(),
{
    let all = members.push((key, value));
    if members.len() > 0 {
        let rest = members.skip(1);
        assert forall|i: int| 0 <= i < rest.len() implies (#[trigger] rest[i]).0 != key by {
            assert(rest[i] == members[i + 1]);
        }
        lemma_lookup_last(rest, key, value);
        assert(all.skip(1) =~= rest.push((key, value)));
        assert(all[0] == members[0]);
    }
}

/// What canonicalisation picks from all members, in terms of what it picks
/// from all but the last.
pub proof fn lemma_members_unfold(members: Seq<(Seq<char>, Json)>)
    requires
        members.len() > 0,
    ensures
        canonical_members(members, members.len()) == (if members.last().0 == signature_key() {
            canonical_members(members.drop_last(), (members.len() - 1) as nat)
        } else {
            canonical_members(members.drop_last(), (members.len() - 1) as nat).push(
                (members.last().0, canonical(members.last().1)),
            )
        }),
{
    lemma_members_prefix(members, members.drop_last(), (members.len() - 1) as nat);
}

/// Taking the members named `signature` away beforehand does not change
/// what canonicalisation picks.
pub proof fn lemma_members_without_signature(members: Seq<(Seq<char>, Json)>)
    ensures
        canonical_members(
            without_key(members, signature_key()),
            without_key(members, signature_key()).len(),
        ) == canonical_members(members, members.len()),
    decreases members.len(),
{
    if members.len() > 0 {
        let init = members.drop_last();
        lemma_members_without_signature(init);
        lemma_members_unfold(members);
        if members.last().0 != signature_key() {
            let kept = without_key(members, signature_key());
            assert(kept.drop_last() =~= without_key(init, signature_key()));
            lemma_members_unfold(kept);
        }
    }
}

/// Setting the member `signature` of an object, to whatever value, does
/// not change the object's canonical form.
pub proof fn lemma_signature_set(members: Seq<(Seq<char>, Json)>, value: Json)
    ensures
        canonical(Json::Object(put_member(members, signature_key(), value))) == canonical(
            Json::Object(members),
        ),
{
    let kept = without_key(members, signature_key());
    lemma_members_without_signature(members);
    lemma_signature_transparent(kept, kept.len() as int, value);
    assert(kept.insert(kept.len() as int, (signature_key(), value)) =~= kept.push(
        (signature_key(), value),
    ));
}

/// `v` without the members named `signature`, at every depth; all else as
/// it stands.
pub open spec fn without_signatures(v: Json) -> Json
    decreases v,
{
    match v {
        Json::Object(members) => Json::Object(unsigned_members(members, members.len())),
        Json::Array(items) => Json::Array(unsigned_items(items, items.len())),
        other => other,
    }
}

/// The first `n` members of an object without those named `signature`,
/// each value without its signatures.
pub open spec fn unsigned_members(members: Seq<(Seq<char>, Json)>, n: nat) -> Seq<
    (Seq<char>, Json),
>
    decreases members, n,
{
    if n == 0 || n > members.len() {
        Seq::empty()
    } else {
        let rest = unsigned_members(members, (n - 1) as nat);
        let member = members[n - 1];
        if member.0 == signature_key() {
            rest
        } else {
            rest.push((member.0, without_signatures(member.1)))
        }
    }
}

/// The first `n` items of an array, each without its signatures.
pub open spec fn unsigned_items(items: Seq<Json>, n: nat) -> Seq<Json>
    decreases items, n,
{
    if n == 0 || n > items.len() {
        Seq::empty()
    } else {
        unsigned_items(items, (n - 1) as nat).push(without_signatures(items[n - 1]))
    }
}

/// The unsigned items of an array are its items without their signatures,
/// one for one.
pub proof fn lemma_unsigned_items(items: Seq<Json>, n: nat)
    requires
        n <= items.len(),
    ensures
        unsigned_items(items, n).len() == n,
        forall|i: int|
            0 <= i < n ==> #[trigger] unsigned_items(items, n)[i] == without_signatures(items[i]),
    decreases n,
{
    if n > 0 {
        lemma_unsigned_items(items, (n - 1) as nat);
    }
}

/// Taking the signatures away from the members beforehand does not change
/// what canonicalisation picks from them.
pub proof fn lemma_unsigned_members(members: Seq<(Seq<char>, Json)>, n: nat)
    requires
        n <= members.len(),
    ensures
        canonical_members(
            unsigned_members(members, n),
            unsigned_members(members, n).len(),
        ) == canonical_members(members, n),
    decreases members, n,
{
    if n > 0 {
        let rest = unsigned_members(members, (n - 1) as nat);
        let member = members[n - 1];
        lemma_unsigned_members(members, (n - 1) as nat);
        if member.0 != signature_key() {
            let all = unsigned_members(members, n);
            lemma_signatures_transparent(member.1);
            assert(all.drop_last() =~= rest);
            lemma_members_unfold(all);
        }
    }
}

/// The canonical form does not see a member named `signature`, at whatever
/// depth it stands: a value and the same value without its signatures have
/// one canonical form.
pub proof fn lemma_signatures_transparent(v: Json)
    ensures
        canonical(without_signatures(v)) == canonical(v),
    decreases v,
{
    match v {
        Json::Object(members) => {
            lemma_unsigned_members(members, members.len());
        },
        Json::Array(items) => {
            let bare = unsigned_items(items, items.len());
            lemma_unsigned_items(items, items.len());
            lemma_canonical_items(items, items.len());
            lemma_canonical_items(bare, bare.len());
            assert forall|i: int| 0 <= i < items.len() implies canonical_items(bare, bare.len())[i]
                == canonical_items(items, items.len())[i] by {
                lemma_signatures_transparent(items[i]);
            }
            assert(canonical_items(bare, bare.len()) =~= canonical_items(items, items.len()));
        },
        _ => {},
    }
}

/// Two values that differ only in members named `signature`, at whatever
/// depth, have one canonical form.
pub proof fn lemma_canonical_ignores_signatures(a: Json, b: Json)
    requires
        without_signatures(a) == without_signatures(b),
    ensures
        canonical(a) == canonical(b),
{
    lemma_signatures_transparent(a);
    lemma_signatures_transparent(b);
}

/// A member whose value is a string.
pub fn text_member(key: &str, value: &str) -> (r: (String, JsonValue))
    ensures
        r.0@ == key@,
        r.1@ == Json::Text(value@),
{
    (String::from_str(key), JsonValue::Text(String::from_str(value)))
}

impl JsonValue {
    /// The object of the given members.
    pub fn object(members: Vec<(String, JsonValue)>) -> (r: JsonValue)
        ensures
            r@ == Json::Object(members_view(members@)),
    {
        let r = JsonValue::Object(members);
        assert(r@->Object_0 =~= members_view(members@));
        r
    }

    /// The value of the first member named `key`, where this is an object
    /// that has one.
    pub fn get(&self, key: &str) -> (r: Option<&JsonValue>)
        ensures
            match self@ {
                Json::Object(members) => match r {
                    Some(v) => lookup(members, key@) == Some(v@),
                    None => lookup(members, key@).is_none(),
                },
                _ => r.is_none(),
            },
    {
        match self {
            JsonValue::Object(members) => {
                let ghost given = self@->Object_0;
                let wanted = String::from_str(key);
                let mut i: usize = 0;
                assert(given.skip(0) =~= given);
                while i < members.len()
                    invariant
                        i <= members.len(),
                        self is Object,
                        *members == self->Object_0,
                        given == self@->Object_0,
                        wanted@ == key@,
                        lookup(given, key@) == lookup(given.skip(i as int), key@),
                    decreases members.len() - i,
                {
                    assert(given.skip(i as int)[0] == (members@[i as int].0@, members@[i as int].1@));
                    if members[i].0 == wanted {
                        return Some(&members[i].1);
                    }
                    assert(given.skip(i as int).skip(1) =~= given.skip(i + 1));
                    i += 1;
                }
                None
            },
            _ => None,
        }
    }

    /// This value with the member `key` set to `value`, where this is an
    /// object: members that had the key are gone and the new one stands
    /// last. Any other value is handed back as it is.
    pub fn with(&self, key: &str, value: JsonValue) -> (r: JsonValue)
        ensures
            r@ == with_member(self@, key@, value@),
    {
        match self {
            JsonValue::Object(members) => {
                let ghost given = self@->Object_0;
                let wanted = String::from_str(key);
                let mut out: Vec<(String, JsonValue)> = Vec::new();
                let mut i: usize = 0;
                assert(given.take(0) =~= Seq::empty());
                assert(members_view(out@) =~= Seq::empty());
                while i < members.len()
                    invariant
                        i <= members.len(),
                        self is Object,
                        *members == self->Object_0,
                        given == self@->Object_0,
                        wanted@ == key@,
                        members_view(out@) == without_key(given.take(i as int), key@),
                    decreases members.len() - i,
                {
                    let ghost before = members_view(out@);
                    assert(given.take(i + 1).drop_last() =~= given.take(i as int));
                    assert(given.take(i + 1).last() == (
                        members@[i as int].0@,
                        members@[i as int].1@,
                    ));
                    if members[i].0 != wanted {
                        out.push((members[i].0.clone(), members[i].1.duplicate()));
                        assert(members_view(out@) =~= before.push(given[i as int]));
                    }
                    i += 1;
                }
                assert(given.take(i as int) =~= given);
                let ghost kept = members_view(out@);
                out.push((wanted, value));
                assert(members_view(out@) =~= kept.push((key@, value@)));
                JsonValue::object(out)
            },
            _ => self.duplicate(),
        }
    }
}


/// The members of `v`, where `v` is an object; none otherwise.
pub open spec fn members_of(v: Json) -> Seq<(Seq<char>, Json)> {
    match v {
        Json::Object(members) => members,
        _ => Seq::empty(),
    }
}

/// The string that `v` holds under `key`, where `v` is an object that
/// holds one there.
pub open spec fn text_at(v: Json, key: Seq<char>) -> Option<Seq<char>> {
    match lookup(members_of(v), key) {
        Some(Json::Text(s)) => Some(s),
        _ => None,
    }
}

/// The number that `v` holds under `key`, where `v` is an object that
/// holds one there.
pub open spec fn number_at(v: Json, key: Seq<char>) -> Option<i64> {
    match lookup(members_of(v), key) {
        Some(Json::Number(n)) => Some(n),
        _ => None,
    }
}

/// The truth value that `v` holds under `key`, where `v` is an object that
/// holds one there.
pub open spec fn bool_at(v: Json, key: Seq<char>) -> Option<bool> {
    match lookup(members_of(v), key) {
        Some(Json::Bool(b)) => Some(b),
        _ => None,
    }
}

/// What `v` holds under a `key` that may be left out: a string; nothing,
/// where the key is missing or holds `null`; and no reading at all where it
/// holds anything else.
pub open spec fn optional_text_at(v: Json, key: Seq<char>) -> Option<Option<Seq<char>>> {
    match lookup(members_of(v), key) {
        None => Some(None),
        Some(Json::Null) => Some(None),
        Some(Json::Text(s)) => Some(Some(s)),
        _ => None,
    }
}

impl JsonValue {
    /// The string under `key`, where this is an object that holds one
    /// there.
    pub fn get_text(&self, key: &str) -> (r: Option<String>)
        ensures
            match r {
                Some(s) => text_at(self@, key@) == Some(s@),
                None => text_at(self@, key@).is_none(),
            },
    {
        match self.get(key) {
            Some(JsonValue::Text(s)) => Some(s.clone()),
            _ => None,
        }
    }

    /// The number under `key`, where this is an object that holds one
    /// there.
    pub fn get_number(&self, key: &str) -> (r: Option<i64>)
        ensures
            r == number_at(self@, key@),
    {
        match self.get(key) {
            Some(JsonValue::Number(n)) => Some(*n),
            _ => None,
        }
    }

    /// The truth value under `key`, where this is an object that holds one
    /// there.
    pub fn get_bool(&self, key: &str) -> (r: Option<bool>)
        ensures
            r == bool_at(self@, key@),
    {
        match self.get(key) {
            Some(JsonValue::Bool(b)) => Some(*b),
            _ => None,
        }
    }

    /// What stands under a `key` that may be left out.
    pub fn get_optional_text(&self, key: &str) -> (r: Option<Option<String>>)
        ensures
            match r {
                Some(Some(s)) => optional_text_at(self@, key@) == Some(Some(s@)),
                Some(None) => optional_text_at(self@, key@) == Some(None::<Seq<char>>),
                None => optional_text_at(self@, key@).is_none(),
            },
    {
        match self.get(key) {
            None => Some(None),
            Some(JsonValue::Null) => Some(None),
            Some(JsonValue::Text(s)) => Some(Some(s.clone())),
            Some(_) => None,
        }
    }
}

} // verus!
