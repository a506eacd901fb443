//! The wire format of message batches: each batch is a JSON array of messages, each
//! message an object with one member named after its variant, each payload an object
//! whose members are in key order. Numbers are integers; coordinates travel as the bit
//! patterns that the entities hold.

use vstd::prelude::*;
use vstd::string::StringExecFns;

use crate::common::{
    AddButton, AddEnumStringRepr, AddRangedVar, AddVar, AddWidget2, AddWidget3, DeleteComponent,
    F32Bits, F64Bits, FromGuiLoopMessage, ImageRgba8, PlaceEntity3, ToGuiLoopMessage, UpdateButton,
    UpdateEnumStringRepr, UpdateRangedValue, UpdateScenePoseEntity3, UpdateValue,
};
use crate::entities::{
    Entity3, Faces, LineSegments3, Mesh3, MeshVertices, NamedEntity3, Pose, PositionColorVertices,
    PositionUvVertices, PositionUvVerticesAndTexture, Texture,
};

verus! {

/// A JSON value.
pub enum Json {
    /// `true` or `false`.
    Bool(bool),
    /// An integer.
    Num(i128),
    /// A string.
    Str(String),
    /// An array.
    Array(Vec<Json>),
    /// An object, its members in order.
    Object(Vec<(String, Json)>),
}

/// A JSON value with its strings as character sequences and its arrays and objects as
/// sequences.
pub enum JsonView {
    /// `true` or `false`.
    Bool(bool),
    /// An integer.
    Num(int),
    /// A string.
    Str(Seq<char>),
    /// An array.
    Array(Seq<JsonView>),
    /// An object, its members in order.
    Object(Seq<(Seq<char>, JsonView)>),
}

impl Json {
    /// The value, with its strings and vectors seen as sequences.
    pub open spec fn view(&self) -> JsonView
        decreases self,
    {
        match self {
            Json::Bool(b) => JsonView::Bool(*b),
            Json::Num(n) => JsonView::Num(*n as int),
            Json::Str(s) => JsonView::Str(s@),
            Json::Array(v) => JsonView::Array(
                Seq::new(
                    v.len() as nat,
                    |i: int|
                        if 0 <= i < v.len() {
                            v[i].view()
                        } else {
                            JsonView::Bool(false)
                        },
                ),
            ),
            Json::Object(v) => JsonView::Object(
                Seq::new(
                    v.len() as nat,
                    |i: int|
                        if 0 <= i < v.len() {
                            (v[i].0@, v[i].1.view())
                        } else {
                            (Seq::empty(), JsonView::Bool(false))
                        },
                ),
            ),
        }
    }
}

/// A number.
pub open spec fn num_json(x: int) -> JsonView {
    JsonView::Num(x)
}

/// An array of numbers.
pub open spec fn nums_json(v: Seq<int>) -> JsonView {
    JsonView::Array(Seq::new(v.len(), |i: int| JsonView::Num(v[i])))
}

pub open spec fn u32s(v: Seq<u32>) -> Seq<int> {
    v.map_values(|x: u32| x as int)
}

pub open spec fn i16s(v: Seq<i16>) -> Seq<int> {
    v.map_values(|x: i16| x as int)
}

pub open spec fn u8s(v: Seq<u8>) -> Seq<int> {
    v.map_values(|x: u8| x as int)
}

/// An object with one member.
pub open spec fn obj1(k0: Seq<char>, v0: JsonView) -> JsonView {
    JsonView::Object(seq![(k0, v0)])
}

/// An object with two members.
pub open spec fn obj2(k0: Seq<char>, v0: JsonView, k1: Seq<char>, v1: JsonView) -> JsonView {
    JsonView::Object(seq![(k0, v0), (k1, v1)])
}

/// An object with three members.
pub open spec fn obj3(k0: Seq<char>, v0: JsonView, k1: Seq<char>, v1: JsonView, k2: Seq<char>, v2: JsonView) -> JsonView {
    JsonView::Object(seq![(k0, v0), (k1, v1), (k2, v2)])
}

/// An object with four members.
pub open spec fn obj4(
    k0: Seq<char>,
    v0: JsonView,
    k1: Seq<char>,
    v1: JsonView,
    k2: Seq<char>,
    v2: JsonView,
    k3: Seq<char>,
    v3: JsonView,
) -> JsonView {
    JsonView::Object(seq![(k0, v0), (k1, v1), (k2, v2), (k3, v3)])
}

/// The member `idx` of an object of `n` members, if its key is `key`.
pub open spec fn member_of(j: JsonView, n: int, idx: int, key: Seq<char>) -> Option<JsonView> {
    match j {
        JsonView::Object(m) => if m.len() == n && 0 <= idx < n && m[idx].0 == key {
            Some(m[idx].1)
        } else {
            None
        },
        _ => None,
    }
}

/// Whether `j` is an array of `n` numbers each in `[lo, hi]` (any number of them if `n`
/// is `None`).
pub open spec fn nums_ok(j: JsonView, n: Option<usize>, lo: int, hi: int) -> bool {
    &&& j is Array
    &&& n is Some ==> j->Array_0.len() == n->0
    &&& forall|k: int| 0 <= k < j->Array_0.len() ==> (#[trigger] j->Array_0[k]) is Num && lo <= j->Array_0[k]->Num_0 <= hi
}

pub proof fn lemma_nums_ok(v: Seq<int>, lo: int, hi: int)
    requires
        forall|k: int| 0 <= k < v.len() ==> lo <= #[trigger] v[k] <= hi,
    ensures
        nums_ok(nums_json(v), None, lo, hi),
        v.len() <= usize::MAX ==> nums_ok(nums_json(v), Some(v.len() as usize), lo, hi),
{
}

/// A pose.
pub open spec fn pose_json(p: Pose) -> JsonView {
    obj2("rotation"@, nums_json(u32s(p.rotation@)), "translation"@, nums_json(u32s(p.translation@)))
}

fn mk_obj1(k0: &str, v0: Json) -> (r: Json)
    ensures
        r.view() == obj1(k0@, v0.view()),
{
    let mut m: Vec<(String, Json)> = Vec::new();
    m.push((String::from_str(k0), v0));
    let r = Json::Object(m);
    assert(r.view()->Object_0 =~= seq![(k0@, v0.view())]);
    r
}

fn mk_obj2(k0: &str, v0: Json, k1: &str, v1: Json) -> (r: Json)
    ensures
        r.view() == obj2(k0@, v0.view(), k1@, v1.view()),
{
    let mut m: Vec<(String, Json)> = Vec::new();
    m.push((String::from_str(k0), v0));
    m.push((String::from_str(k1), v1));
    let r = Json::Object(m);
    assert(r.view()->Object_0 =~= seq![(k0@, v0.view()), (k1@, v1.view())]);
    r
}

fn mk_obj3(k0: &str, v0: Json, k1: &str, v1: Json, k2: &str, v2: Json) -> (r: Json)
    ensures
        r.view() == obj3(k0@, v0.view(), k1@, v1.view(), k2@, v2.view()),
{
    let mut m: Vec<(String, Json)> = Vec::new();
    m.push((String::from_str(k0), v0));
    m.push((String::from_str(k1), v1));
    m.push((String::from_str(k2), v2));
    let r = Json::Object(m);
    assert(r.view()->Object_0 =~= seq![(k0@, v0.view()), (k1@, v1.view()), (k2@, v2.view())]);
    r
}

fn mk_obj4(k0: &str, v0: Json, k1: &str, v1: Json, k2: &str, v2: Json, k3: &str, v3: Json) -> (r: Json)
    ensures
        r.view() == obj4(k0@, v0.view(), k1@, v1.view(), k2@, v2.view(), k3@, v3.view()),
{
    let mut m: Vec<(String, Json)> = Vec::new();
    m.push((String::from_str(k0), v0));
    m.push((String::from_str(k1), v1));
    m.push((String::from_str(k2), v2));
    m.push((String::from_str(k3), v3));
    let r = Json::Object(m);
    assert(r.view()->Object_0 =~= seq![(k0@, v0.view()), (k1@, v1.view()), (k2@, v2.view()), (k3@, v3.view())]);
    r
}

/// The member `idx` of `j`, if `j` is an object of `n` members whose member `idx` has
/// key `key`.
fn member<'a>(j: &'a Json, n: usize, idx: usize, key: &str) -> (r: Option<&'a Json>)
    ensures
        r is Some <==> member_of(j.view(), n as int, idx as int, key@) is Some,
        r is Some ==> member_of(j.view(), n as int, idx as int, key@) == Some(r->0.view()),
{
    match j {
        Json::Object(m) => {
            if m.len() == n && idx < n && m[idx].0 == String::from_str(key) {
                Some(&m[idx].1)
            } else {
                None
            }
        },
        _ => None,
    }
}

fn num(x: i128) -> (r: Json)
    ensures
        r.view() == num_json(x as int),
{
    Json::Num(x)
}

/// The number that `j` is, if it lies in `[lo, hi]`.
fn number_in(j: &Json, lo: i128, hi: i128) -> (r: Option<i128>)
    ensures
        r is Some <==> (j.view() is Num && lo <= j.view()->Num_0 <= hi),
        r is Some ==> r->0 as int == j.view()->Num_0,
{
    match j {
        Json::Num(x) => if lo <= *x && *x <= hi {
            Some(*x)
        } else {
            None
        },
        _ => None,
    }
}

/// An array of numbers.
fn nums(v: &Vec<i128>) -> (r: Json)
    ensures
        r.view() == nums_json(v@.map_values(|x: i128| x as int)),
{
    let mut out: Vec<Json> = Vec::new();
    let mut i: usize = 0;
    while i < v.len()
        invariant
            0 <= i <= v@.len(),
            out@.len() == i,
            forall|k: int| 0 <= k < i ==> (#[trigger] out@[k]).view() == JsonView::Num(v@[k] as int),
        decreases v@.len() - i,
    {
        out.push(Json::Num(v[i]));
        i = i + 1;
    }
    let r = Json::Array(out);
    assert(r.view()->Array_0 =~= nums_json(v@.map_values(|x: i128| x as int))->Array_0);
    r
}

/// The numbers of `j`, if it is an array of `n` numbers each in `[lo, hi]` (any number
/// of them if `n` is `None`).
fn nums_in(j: &Json, n: Option<usize>, lo: i128, hi: i128) -> (r: Option<Vec<i128>>)
    ensures
        r is Some <==> nums_ok(j.view(), n, lo as int, hi as int),
        r is Some ==> nums_json(r->0@.map_values(|x: i128| x as int)) == j.view(),
        r is Some ==> n is Some ==> r->0@.len() == n->0,
        r is Some ==> forall|k: int| 0 <= k < r->0@.len() ==> lo <= #[trigger] r->0@[k] <= hi,
{
    match j {
        Json::Array(items) => {
            match n {
                Some(len) => if items.len() != len {
                    return None;
                },
                None => {},
            }
            let mut out: Vec<i128> = Vec::new();
            let mut i: usize = 0;
            assert forall|k: int| 0 <= k < items@.len() implies j.view()->Array_0[k] == (#[trigger] items@[k]).view() by {
            }
            while i < items.len()
                invariant
                    0 <= i <= items@.len(),
                    out@.len() == i,
                    j.view() is Array,
                    j.view()->Array_0.len() == items@.len(),
                    forall|k: int| 0 <= k < items@.len() ==> j.view()->Array_0[k] == (#[trigger] items@[k]).view(),
                    forall|k: int| 0 <= k < i ==> (#[trigger] items@[k]).view() == JsonView::Num(out@[k] as int),
                    forall|k: int| 0 <= k < i ==> lo <= #[trigger] out@[k] <= hi,
                decreases items@.len() - i,
            {
                match number_in(&items[i], lo, hi) {
                    Some(x) => {
                        out.push(x);
                    },
                    None => {
                        return None;
                    },
                }
                i = i + 1;
            }
            assert(nums_json(out@.map_values(|x: i128| x as int))->Array_0 =~= j.view()->Array_0);
            Some(out)
        },
        _ => None,
    }
}

fn u32_nums(v: &[u32]) -> (r: Vec<i128>)
    ensures
        r@.map_values(|x: i128| x as int) == u32s(v@),
{
    let mut out: Vec<i128> = Vec::new();
    let mut i: usize = 0;
    while i < v.len()
        invariant
            0 <= i <= v@.len(),
            out@.len() == i,
            forall|k: int| 0 <= k < i ==> (#[trigger] out@[k]) == v@[k] as i128,
        decreases v@.len() - i,
    {
        out.push(v[i] as i128);
        i = i + 1;
    }
    assert(out@.map_values(|x: i128| x as int) =~= u32s(v@));
    out
}

/// The pose as JSON.
pub fn pose_to_json(p: &Pose) -> (r: Json)
    ensures
        r.view() == pose_json(*p),
{
    mk_obj2("rotation", nums(&u32_nums(p.rotation.as_slice())), "translation", nums(&u32_nums(p.translation.as_slice())))
}

/// The pose that `j` encodes, if any.
pub fn pose_from_json(j: &Json) -> (r: Option<Pose>)
    ensures
        r is Some <==> exists|p: Pose| pose_json(p) == j.view(),
        r is Some ==> pose_json(r->0) == j.view(),
{
    let hi = u32::MAX as i128;
    let ghost complete = exists|p: Pose| pose_json(p) == j.view();
    proof {
        if complete {
            let p = choose|p: Pose| pose_json(p) == j.view();
            lemma_nums_ok(u32s(p.rotation@), 0, hi as int);
            lemma_nums_ok(u32s(p.translation@), 0, hi as int);
        }
    }
    let rot = match member(j, 2, 0, "rotation") {
        Some(x) => match nums_in(x, Some(4), 0, hi) {
            Some(v) => v,
            None => {
                return None;
            },
        },
        None => {
            return None;
        },
    };
    let tr = match member(j, 2, 1, "translation") {
        Some(x) => match nums_in(x, Some(3), 0, hi) {
            Some(v) => v,
            None => {
                return None;
            },
        },
        None => {
            return None;
        },
    };
    let p = Pose {
        rotation: [rot[0] as u32, rot[1] as u32, rot[2] as u32, rot[3] as u32],
        translation: [tr[0] as u32, tr[1] as u32, tr[2] as u32],
    };
    assert(p.rotation@ =~= seq![rot@[0] as u32, rot@[1] as u32, rot@[2] as u32, rot@[3] as u32]);
    assert(p.translation@ =~= seq![tr@[0] as u32, tr@[1] as u32, tr@[2] as u32]);
    assert(u32s(p.rotation@) =~= rot@.map_values(|x: i128| x as int));
    assert(u32s(p.translation@) =~= tr@.map_values(|x: i128| x as int));
    assert(j.view()->Object_0 =~= pose_json(p)->Object_0);
    Some(p)
}

fn u32_row<const N: usize>(v: &Vec<i128>) -> (r: [u32; N])
    requires
        v@.len() == N,
        forall|k: int| 0 <= k < v@.len() ==> 0 <= #[trigger] v@[k] <= u32::MAX,
    ensures
        u32s(r@) == v@.map_values(|x: i128| x as int),
{
    let mut a = [0u32; N];
    let mut i: usize = 0;
    while i < N
        invariant
            0 <= i <= N,
            v@.len() == N,
            forall|k: int| 0 <= k < v@.len() ==> 0 <= #[trigger] v@[k] <= u32::MAX,
            forall|k: int| 0 <= k < i ==> a@[k] as int == #[trigger] v@[k] as int,
        decreases N - i,
    {
        a.set(i, v[i] as u32);
        i = i + 1;
    }
    assert(u32s(a@) =~= v@.map_values(|x: i128| x as int));
    a
}

/// A string.
fn str_to_json(s: &String) -> (r: Json)
    ensures
        r.view() == JsonView::Str(s@),
{
    Json::Str(s.clone())
}

/// The string that `j` is, if any.
fn str_from_json(j: &Json) -> (r: Option<String>)
    ensures
        r is Some <==> j.view() is Str,
        r is Some ==> j.view() == JsonView::Str(r->0@),
{
    match j {
        Json::Str(s) => Some(s.clone()),
        _ => None,
    }
}

/// An array of strings.
pub open spec fn strs_json(v: Seq<String>) -> JsonView {
    JsonView::Array(Seq::new(v.len(), |i: int| JsonView::Str(v[i]@)))
}

fn strs_to_json(v: &Vec<String>) -> (r: Json)
    ensures
        r.view() == strs_json(v@),
{
    let mut out: Vec<Json> = Vec::new();
    let mut i: usize = 0;
    while i < v.len()
        invariant
            0 <= i <= v@.len(),
            out@.len() == i,
            forall|k: int| 0 <= k < i ==> (#[trigger] out@[k]).view() == JsonView::Str(v@[k]@),
        decreases v@.len() - i,
    {
        out.push(str_to_json(&v[i]));
        i = i + 1;
    }
    let r = Json::Array(out);
    assert(r.view()->Array_0 =~= strs_json(v@)->Array_0);
    r
}

fn strs_from_json(j: &Json) -> (r: Option<Vec<String>>)
    ensures
        r is Some <==> exists|v: Seq<String>| #[trigger] strs_json(v) == j.view(),
        r is Some ==> strs_json(r->0@) == j.view(),
{
    let ghost complete = exists|v: Seq<String>| #[trigger] strs_json(v) == j.view();
    match j {
        Json::Array(items) => {
            let mut out: Vec<String> = Vec::new();
            let mut i: usize = 0;
            assert forall|k: int| 0 <= k < items@.len() implies j.view()->Array_0[k] == (#[trigger] items@[k]).view() by {
            }
            while i < items.len()
                invariant
                    0 <= i <= items@.len(),
                    out@.len() == i,
                    j.view() is Array,
                    j.view()->Array_0.len() == items@.len(),
                    forall|k: int| 0 <= k < items@.len() ==> j.view()->Array_0[k] == (#[trigger] items@[k]).view(),
                    forall|k: int| 0 <= k < i ==> (#[trigger] items@[k]).view() == JsonView::Str(out@[k]@),
                    complete == exists|v: Seq<String>| #[trigger] strs_json(v) == j.view(),
                decreases items@.len() - i,
            {
                match str_from_json(&items[i]) {
                    Some(x) => {
                        out.push(x);
                    },
                    None => {
                        proof {
                            if complete {
                                let v = choose|v: Seq<String>| #[trigger] strs_json(v) == j.view();
                                assert(strs_json(v)->Array_0[i as int] == JsonView::Str(v[i as int]@));
                            }
                        }
                        return None;
                    },
                }
                i = i + 1;
            }
            assert(strs_json(out@)->Array_0 =~= j.view()->Array_0);
            Some(out)
        },
        _ => None,
    }
}

/// An array of bytes.
pub open spec fn bytes_json(v: Seq<u8>) -> JsonView {
    nums_json(u8s(v))
}

fn bytes_to_json(v: &Vec<u8>) -> (r: Json)
    ensures
        r.view() == bytes_json(v@),
{
    let mut out: Vec<i128> = Vec::new();
    let mut i: usize = 0;
    while i < v.len()
        invariant
            0 <= i <= v@.len(),
            out@.len() == i,
            forall|k: int| 0 <= k < i ==> (#[trigger] out@[k]) == v@[k] as i128,
        decreases v@.len() - i,
    {
        out.push(v[i] as i128);
        i = i + 1;
    }
    assert(out@.map_values(|x: i128| x as int) =~= u8s(v@));
    nums(&out)
}

fn bytes_from_json(j: &Json) -> (r: Option<Vec<u8>>)
    ensures
        r is Some <==> exists|v: Seq<u8>| #[trigger] bytes_json(v) == j.view(),
        r is Some ==> bytes_json(r->0@) == j.view(),
{
    let ghost complete = exists|v: Seq<u8>| #[trigger] bytes_json(v) == j.view();
    proof {
        if complete {
            let v = choose|v: Seq<u8>| #[trigger] bytes_json(v) == j.view();
            lemma_nums_ok(u8s(v), 0, 255);
        }
    }
    let v = match nums_in(j, None, 0, 255) {
        Some(v) => v,
        None => {
            return None;
        },
    };
    let mut out: Vec<u8> = Vec::new();
    let mut i: usize = 0;
    while i < v.len()
        invariant
            0 <= i <= v@.len(),
            out@.len() == i,
            forall|k: int| 0 <= k < v@.len() ==> 0 <= #[trigger] v@[k] <= 255,
            forall|k: int| 0 <= k < i ==> (#[trigger] out@[k]) as int == v@[k] as int,
        decreases v@.len() - i,
    {
        out.push(v[i] as u8);
        i = i + 1;
    }
    assert(u8s(out@) =~= v@.map_values(|x: i128| x as int));
    Some(out)
}

/// An array of arrays of numbers.
pub open spec fn rows_json(v: Seq<Seq<int>>) -> JsonView {
    JsonView::Array(Seq::new(v.len(), |i: int| nums_json(v[i])))
}

pub open spec fn u32_rows<const N: usize>(v: Seq<[u32; N]>) -> Seq<Seq<int>> {
    v.map_values(|a: [u32; N]| u32s(a@))
}

pub open spec fn i16_rows<const N: usize>(v: Seq<[i16; N]>) -> Seq<Seq<int>> {
    v.map_values(|a: [i16; N]| i16s(a@))
}

fn i16_nums(v: &[i16]) -> (r: Vec<i128>)
    ensures
        r@.map_values(|x: i128| x as int) == i16s(v@),
{
    let mut out: Vec<i128> = Vec::new();
    let mut i: usize = 0;
    while i < v.len()
        invariant
            0 <= i <= v@.len(),
            out@.len() == i,
            forall|k: int| 0 <= k < i ==> (#[trigger] out@[k]) == v@[k] as i128,
        decreases v@.len() - i,
    {
        out.push(v[i] as i128);
        i = i + 1;
    }
    assert(out@.map_values(|x: i128| x as int) =~= i16s(v@));
    out
}

fn i16_row<const N: usize>(v: &Vec<i128>) -> (r: [i16; N])
    requires
        v@.len() == N,
        forall|k: int| 0 <= k < v@.len() ==> i16::MIN <= #[trigger] v@[k] <= i16::MAX,
    ensures
        i16s(r@) == v@.map_values(|x: i128| x as int),
{
    let mut a = [0i16; N];
    let mut i: usize = 0;
    while i < N
        invariant
            0 <= i <= N,
            v@.len() == N,
            forall|k: int| 0 <= k < v@.len() ==> i16::MIN <= #[trigger] v@[k] <= i16::MAX,
            forall|k: int| 0 <= k < i ==> a@[k] as int == #[trigger] v@[k] as int,
        decreases N - i,
    {
        a.set(i, v[i] as i16);
        i = i + 1;
    }
    assert(i16s(a@) =~= v@.map_values(|x: i128| x as int));
    a
}

fn u32_rows_to_json<const N: usize>(v: &Vec<[u32; N]>) -> (r: Json)
    ensures
        r.view() == rows_json(u32_rows(v@)),
{
    let mut out: Vec<Json> = Vec::new();
    let mut i: usize = 0;
    while i < v.len()
        invariant
            0 <= i <= v@.len(),
            out@.len() == i,
            forall|k: int| 0 <= k < i ==> (#[trigger] out@[k]).view() == nums_json(u32s(v@[k]@)),
        decreases v@.len() - i,
    {
        out.push(nums(&u32_nums(v[i].as_slice())));
        i = i + 1;
    }
    let r = Json::Array(out);
    assert(r.view()->Array_0 =~= rows_json(u32_rows(v@))->Array_0);
    r
}

fn i16_rows_to_json<const N: usize>(v: &Vec<[i16; N]>) -> (r: Json)
    ensures
        r.view() == rows_json(i16_rows(v@)),
{
    let mut out: Vec<Json> = Vec::new();
    let mut i: usize = 0;
    while i < v.len()
        invariant
            0 <= i <= v@.len(),
            out@.len() == i,
            forall|k: int| 0 <= k < i ==> (#[trigger] out@[k]).view() == nums_json(i16s(v@[k]@)),
        decreases v@.len() - i,
    {
        out.push(nums(&i16_nums(v[i].as_slice())));
        i = i + 1;
    }
    let r = Json::Array(out);
    assert(r.view()->Array_0 =~= rows_json(i16_rows(v@))->Array_0);
    r
}

fn u32_rows_from_json<const N: usize>(j: &Json) -> (r: Option<Vec<[u32; N]>>)
    ensures
        r is Some <==> exists|v: Seq<[u32; N]>| #[trigger] rows_json(u32_rows(v)) == j.view(),
        r is Some ==> rows_json(u32_rows(r->0@)) == j.view(),
{
    let ghost complete = exists|v: Seq<[u32; N]>| #[trigger] rows_json(u32_rows(v)) == j.view();
    match j {
        Json::Array(items) => {
            let mut out: Vec<[u32; N]> = Vec::new();
            let mut i: usize = 0;
            assert forall|k: int| 0 <= k < items@.len() implies j.view()->Array_0[k] == (#[trigger] items@[k]).view() by {
            }
            while i < items.len()
                invariant
                    0 <= i <= items@.len(),
                    out@.len() == i,
                    j.view() is Array,
                    j.view()->Array_0.len() == items@.len(),
                    forall|k: int| 0 <= k < items@.len() ==> j.view()->Array_0[k] == (#[trigger] items@[k]).view(),
                    forall|k: int| 0 <= k < i ==> (#[trigger] items@[k]).view() == nums_json(u32s(out@[k]@)),
                    complete == exists|v: Seq<[u32; N]>| #[trigger] rows_json(u32_rows(v)) == j.view(),
                decreases items@.len() - i,
            {
                proof {
                    if complete {
                        let v = choose|v: Seq<[u32; N]>| #[trigger] rows_json(u32_rows(v)) == j.view();
                        assert(items@[i as int].view() == nums_json(u32s(v[i as int]@)));
                        lemma_nums_ok(u32s(v[i as int]@), 0, u32::MAX as int);
                    }
                }
                match nums_in(&items[i], Some(N), 0, u32::MAX as i128) {
                    Some(x) => {
                        out.push(u32_row(&x));
                    },
                    None => {
                        return None;
                    },
                }
                i = i + 1;
            }
            assert(rows_json(u32_rows(out@))->Array_0 =~= j.view()->Array_0);
            Some(out)
        },
        _ => None,
    }
}

fn i16_rows_from_json<const N: usize>(j: &Json) -> (r: Option<Vec<[i16; N]>>)
    ensures
        r is Some <==> exists|v: Seq<[i16; N]>| #[trigger] rows_json(i16_rows(v)) == j.view(),
        r is Some ==> rows_json(i16_rows(r->0@)) == j.view(),
{
    let ghost complete = exists|v: Seq<[i16; N]>| #[trigger] rows_json(i16_rows(v)) == j.view();
    match j {
        Json::Array(items) => {
            let mut out: Vec<[i16; N]> = Vec::new();
            let mut i: usize = 0;
            assert forall|k: int| 0 <= k < items@.len() implies j.view()->Array_0[k] == (#[trigger] items@[k]).view() by {
            }
            while i < items.len()
                invariant
                    0 <= i <= items@.len(),
                    out@.len() == i,
                    j.view() is Array,
                    j.view()->Array_0.len() == items@.len(),
                    forall|k: int| 0 <= k < items@.len() ==> j.view()->Array_0[k] == (#[trigger] items@[k]).view(),
                    forall|k: int| 0 <= k < i ==> (#[trigger] items@[k]).view() == nums_json(i16s(out@[k]@)),
                    complete == exists|v: Seq<[i16; N]>| #[trigger] rows_json(i16_rows(v)) == j.view(),
                decreases items@.len() - i,
            {
                proof {
                    if complete {
                        let v = choose|v: Seq<[i16; N]>| #[trigger] rows_json(i16_rows(v)) == j.view();
                        assert(items@[i as int].view() == nums_json(i16s(v[i as int]@)));
                        lemma_nums_ok(i16s(v[i as int]@), i16::MIN as int, i16::MAX as int);
                    }
                }
                match nums_in(&items[i], Some(N), i16::MIN as i128, i16::MAX as i128) {
                    Some(x) => {
                        out.push(i16_row(&x));
                    },
                    None => {
                        return None;
                    },
                }
                i = i + 1;
            }
            assert(rows_json(i16_rows(out@))->Array_0 =~= j.view()->Array_0);
            Some(out)
        },
        _ => None,
    }
}

/// An image.
pub open spec fn image_json(i: ImageRgba8) -> JsonView {
    obj3("bytes"@, bytes_json(i.bytes@), "height"@, JsonView::Num(i.height as int), "width"@, JsonView::Num(i.width as int))
}

/// Colored vertices.
pub open spec fn color_vertices_json(v: PositionColorVertices) -> JsonView {
    obj1("vertices"@, rows_json(u32_rows(v.vertices@)))
}

/// Textured vertices.
pub open spec fn uv_vertices_json(v: PositionUvVertices) -> JsonView {
    obj1("vertices"@, rows_json(u32_rows(v.vertices@)))
}

/// A texture.
pub open spec fn texture_json(t: Texture) -> JsonView {
    JsonView::Object(Seq::empty())
}

/// Textured vertices with their texture.
pub open spec fn uv_and_texture_json(v: PositionUvVerticesAndTexture) -> JsonView {
    obj2("texture"@, texture_json(v.texture), "vertices"@, uv_vertices_json(v.vertices))
}

/// The vertices of a mesh.
pub open spec fn mesh_vertices_json(m: MeshVertices) -> JsonView {
    match m {
        MeshVertices::PositionColor(v) => obj1("PositionColor"@, color_vertices_json(v)),
        MeshVertices::PositionUvAndTexture(v) => obj1("PositionUvAndTexture"@, uv_and_texture_json(v)),
    }
}

/// Triangle faces.
pub open spec fn faces_json(f: Faces) -> JsonView {
    obj1("indices"@, rows_json(i16_rows(f.indices@)))
}

/// A mesh.
pub open spec fn mesh_json(m: Mesh3) -> JsonView {
    obj2("faces"@, faces_json(m.faces), "vertices"@, mesh_vertices_json(m.vertices))
}

/// Line segments.
pub open spec fn segments_json(s: LineSegments3) -> JsonView {
    obj2("indices"@, rows_json(i16_rows(s.indices@)), "vertices"@, color_vertices_json(s.vertices))
}

/// An entity.
pub open spec fn entity_json(e: Entity3) -> JsonView {
    match e {
        Entity3::Mesh(m) => obj1("Mesh"@, mesh_json(m)),
        Entity3::LineSegments(s) => obj1("LineSegments"@, segments_json(s)),
    }
}

/// A named entity with its pose.
pub open spec fn named_entity_json(n: NamedEntity3) -> JsonView {
    obj3("entity"@, entity_json(n.entity), "label"@, JsonView::Str(n.label@), "scene_pose_entity"@, pose_json(n.scene_pose_entity))
}

fn image_to_json(i: &ImageRgba8) -> (r: Json)
    ensures
        r.view() == image_json(*i),
{
    mk_obj3("bytes", bytes_to_json(&i.bytes), "height", num(i.height as i128), "width", num(i.width as i128))
}

fn image_from_json(j: &Json) -> (r: Option<ImageRgba8>)
    ensures
        r is Some <==> exists|x: ImageRgba8| #[trigger] image_json(x) == j.view(),
        r is Some ==> image_json(r->0) == j.view(),
{
    let bytes = match member(j, 3, 0, "bytes") {
        Some(x) => match bytes_from_json(x) {
            Some(v) => v,
            None => {
                return None;
            },
        },
        None => {
            return None;
        },
    };
    let height = match member(j, 3, 1, "height") {
        Some(x) => match number_in(x, 0, u32::MAX as i128) {
            Some(v) => v as u32,
            None => {
                return None;
            },
        },
        None => {
            return None;
        },
    };
    let width = match member(j, 3, 2, "width") {
        Some(x) => match number_in(x, 0, u32::MAX as i128) {
            Some(v) => v as u32,
            None => {
                return None;
            },
        },
        None => {
            return None;
        },
    };
    let r = ImageRgba8 { bytes, width, height };
    assert(j.view()->Object_0 =~= image_json(r)->Object_0);
    Some(r)
}

fn color_vertices_to_json(v: &PositionColorVertices) -> (r: Json)
    ensures
        r.view() == color_vertices_json(*v),
{
    mk_obj1("vertices", u32_rows_to_json(&v.vertices))
}

fn color_vertices_from_json(j: &Json) -> (r: Option<PositionColorVertices>)
    ensures
        r is Some <==> exists|x: PositionColorVertices| #[trigger] color_vertices_json(x) == j.view(),
        r is Some ==> color_vertices_json(r->0) == j.view(),
{
    let vertices = match member(j, 1, 0, "vertices") {
        Some(x) => match u32_rows_from_json::<7>(x) {
            Some(v) => v,
            None => {
                return None;
            },
        },
        None => {
            return None;
        },
    };
    let r = PositionColorVertices { vertices };
    assert(j.view()->Object_0 =~= color_vertices_json(r)->Object_0);
    Some(r)
}

fn uv_vertices_to_json(v: &PositionUvVertices) -> (r: Json)
    ensures
        r.view() == uv_vertices_json(*v),
{
    mk_obj1("vertices", u32_rows_to_json(&v.vertices))
}

fn uv_vertices_from_json(j: &Json) -> (r: Option<PositionUvVertices>)
    ensures
        r is Some <==> exists|x: PositionUvVertices| #[trigger] uv_vertices_json(x) == j.view(),
        r is Some ==> uv_vertices_json(r->0) == j.view(),
{
    let vertices = match member(j, 1, 0, "vertices") {
        Some(x) => match u32_rows_from_json::<5>(x) {
            Some(v) => v,
            None => {
                return None;
            },
        },
        None => {
            return None;
        },
    };
    let r = PositionUvVertices { vertices };
    assert(j.view()->Object_0 =~= uv_vertices_json(r)->Object_0);
    Some(r)
}

fn uv_and_texture_to_json(v: &PositionUvVerticesAndTexture) -> (r: Json)
    ensures
        r.view() == uv_and_texture_json(*v),
{
    let t = Json::Object(Vec::new());
    assert(t.view()->Object_0 =~= Seq::<(Seq<char>, JsonView)>::empty());
    mk_obj2("texture", t, "vertices", uv_vertices_to_json(&v.vertices))
}

fn uv_and_texture_from_json(j: &Json) -> (r: Option<PositionUvVerticesAndTexture>)
    ensures
        r is Some <==> exists|x: PositionUvVerticesAndTexture| #[trigger] uv_and_texture_json(x) == j.view(),
        r is Some ==> uv_and_texture_json(r->0) == j.view(),
{
    match member(j, 2, 0, "texture") {
        Some(t) => match t {
            Json::Object(m) => {
                if m.len() != 0 {
                    assert(t.view()->Object_0.len() == m@.len());
                    return None;
                }
            },
            _ => {
                return None;
            },
        },
        None => {
            return None;
        },
    }
    let vertices = match member(j, 2, 1, "vertices") {
        Some(x) => match uv_vertices_from_json(x) {
            Some(v) => v,
            None => {
                return None;
            },
        },
        None => {
            return None;
        },
    };
    let r = PositionUvVerticesAndTexture { vertices, texture: Texture {} };
    assert(j.view()->Object_0[0].1->Object_0 =~= Seq::<(Seq<char>, JsonView)>::empty());
    assert(j.view()->Object_0 =~= uv_and_texture_json(r)->Object_0);
    Some(r)
}

fn faces_to_json(f: &Faces) -> (r: Json)
    ensures
        r.view() == faces_json(*f),
{
    mk_obj1("indices", i16_rows_to_json(&f.indices))
}

fn faces_from_json(j: &Json) -> (r: Option<Faces>)
    ensures
        r is Some <==> exists|x: Faces| #[trigger] faces_json(x) == j.view(),
        r is Some ==> faces_json(r->0) == j.view(),
{
    let indices = match member(j, 1, 0, "indices") {
        Some(x) => match i16_rows_from_json::<3>(x) {
            Some(v) => v,
            None => {
                return None;
            },
        },
        None => {
            return None;
        },
    };
    let r = Faces { indices };
    assert(j.view()->Object_0 =~= faces_json(r)->Object_0);
    Some(r)
}

fn mesh_vertices_to_json(m: &MeshVertices) -> (r: Json)
    ensures
        r.view() == mesh_vertices_json(*m),
{
    match m {
        MeshVertices::PositionColor(v) => mk_obj1("PositionColor", color_vertices_to_json(v)),
        MeshVertices::PositionUvAndTexture(v) => mk_obj1("PositionUvAndTexture", uv_and_texture_to_json(v)),
    }
}

fn mesh_vertices_from_json(j: &Json) -> (r: Option<MeshVertices>)
    ensures
        r is Some <==> exists|x: MeshVertices| #[trigger] mesh_vertices_json(x) == j.view(),
        r is Some ==> mesh_vertices_json(r->0) == j.view(),
{
    let ghost w = choose|x: MeshVertices| #[trigger] mesh_vertices_json(x) == j.view();
    proof {
        reveal_strlit("PositionColor");
        reveal_strlit("PositionUvAndTexture");
    }
    let r = match member(j, 1, 0, "PositionColor") {
        Some(x) => match color_vertices_from_json(x) {
            Some(v) => MeshVertices::PositionColor(v),
            None => {
                proof {
                    if exists|x: MeshVertices| #[trigger] mesh_vertices_json(x) == j.view() {
                        assert("PositionColor"@.len() != "PositionUvAndTexture"@.len());
                        match w {
                            MeshVertices::PositionColor(v) => {
                                assert(color_vertices_json(v) == x.view());
                            },
                            MeshVertices::PositionUvAndTexture(_) => {},
                        }
                    }
                }
                return None;
            },
        },
        None => match member(j, 1, 0, "PositionUvAndTexture") {
            Some(x) => match uv_and_texture_from_json(x) {
                Some(v) => MeshVertices::PositionUvAndTexture(v),
                None => {
                    return None;
                },
            },
            None => {
                return None;
            },
        },
    };
    assert(j.view()->Object_0 =~= mesh_vertices_json(r)->Object_0);
    Some(r)
}

fn mesh_to_json(m: &Mesh3) -> (r: Json)
    ensures
        r.view() == mesh_json(*m),
{
    mk_obj2("faces", faces_to_json(&m.faces), "vertices", mesh_vertices_to_json(&m.vertices))
}

fn mesh_from_json(j: &Json) -> (r: Option<Mesh3>)
    ensures
        r is Some <==> exists|x: Mesh3| #[trigger] mesh_json(x) == j.view(),
        r is Some ==> mesh_json(r->0) == j.view(),
{
    let faces = match member(j, 2, 0, "faces") {
        Some(x) => match faces_from_json(x) {
            Some(v) => v,
            None => {
                return None;
            },
        },
        None => {
            return None;
        },
    };
    let vertices = match member(j, 2, 1, "vertices") {
        Some(x) => match mesh_vertices_from_json(x) {
            Some(v) => v,
            None => {
                return None;
            },
        },
        None => {
            return None;
        },
    };
    let r = Mesh3 { vertices, faces };
    assert(j.view()->Object_0 =~= mesh_json(r)->Object_0);
    Some(r)
}

fn segments_to_json(s: &LineSegments3) -> (r: Json)
    ensures
        r.view() == segments_json(*s),
{
    mk_obj2("indices", i16_rows_to_json(&s.indices), "vertices", color_vertices_to_json(&s.vertices))
}

fn segments_from_json(j: &Json) -> (r: Option<LineSegments3>)
    ensures
        r is Some <==> exists|x: LineSegments3| #[trigger] segments_json(x) == j.view(),
        r is Some ==> segments_json(r->0) == j.view(),
{
    let indices = match member(j, 2, 0, "indices") {
        Some(x) => match i16_rows_from_json::<2>(x) {
            Some(v) => v,
            None => {
                return None;
            },
        },
        None => {
            return None;
        },
    };
    let vertices = match member(j, 2, 1, "vertices") {
        Some(x) => match color_vertices_from_json(x) {
            Some(v) => v,
            None => {
                return None;
            },
        },
        None => {
            return None;
        },
    };
    let r = LineSegments3 { vertices, indices };
    assert(j.view()->Object_0 =~= segments_json(r)->Object_0);
    Some(r)
}

fn entity_to_json(e: &Entity3) -> (r: Json)
    ensures
        r.view() == entity_json(*e),
{
    match e {
        Entity3::Mesh(m) => mk_obj1("Mesh", mesh_to_json(m)),
        Entity3::LineSegments(s) => mk_obj1("LineSegments", segments_to_json(s)),
    }
}

fn entity_from_json(j: &Json) -> (r: Option<Entity3>)
    ensures
        r is Some <==> exists|x: Entity3| #[trigger] entity_json(x) == j.view(),
        r is Some ==> entity_json(r->0) == j.view(),
{
    let ghost w = choose|x: Entity3| #[trigger] entity_json(x) == j.view();
    proof {
        reveal_strlit("Mesh");
        reveal_strlit("LineSegments");
    }
    let r = match member(j, 1, 0, "Mesh") {
        Some(x) => match mesh_from_json(x) {
            Some(v) => Entity3::Mesh(v),
            None => {
                proof {
                    if exists|x: Entity3| #[trigger] entity_json(x) == j.view() {
                        assert("Mesh"@.len() != "LineSegments"@.len());
                        match w {
                            Entity3::Mesh(v) => {
                                assert(mesh_json(v) == x.view());
                            },
                            Entity3::LineSegments(_) => {},
                        }
                    }
                }
                return None;
            },
        },
        None => match member(j, 1, 0, "LineSegments") {
            Some(x) => match segments_from_json(x) {
                Some(v) => Entity3::LineSegments(v),
                None => {
                    return None;
                },
            },
            None => {
                return None;
            },
        },
    };
    assert(j.view()->Object_0 =~= entity_json(r)->Object_0);
    Some(r)
}

fn named_entity_to_json(n: &NamedEntity3) -> (r: Json)
    ensures
        r.view() == named_entity_json(*n),
{
    mk_obj3(
        "entity",
        entity_to_json(&n.entity),
        "label",
        str_to_json(&n.label),
        "scene_pose_entity",
        pose_to_json(&n.scene_pose_entity),
    )
}

fn named_entity_from_json(j: &Json) -> (r: Option<NamedEntity3>)
    ensures
        r is Some <==> exists|x: NamedEntity3| #[trigger] named_entity_json(x) == j.view(),
        r is Some ==> named_entity_json(r->0) == j.view(),
{
    let entity = match member(j, 3, 0, "entity") {
        Some(x) => match entity_from_json(x) {
            Some(v) => v,
            None => {
                return None;
            },
        },
        None => {
            return None;
        },
    };
    let label = match member(j, 3, 1, "label") {
        Some(x) => match str_from_json(x) {
            Some(v) => v,
            None => {
                return None;
            },
        },
        None => {
            return None;
        },
    };
    let scene_pose_entity = match member(j, 3, 2, "scene_pose_entity") {
        Some(x) => match pose_from_json(x) {
            Some(v) => v,
            None => {
                return None;
            },
        },
        None => {
            return None;
        },
    };
    let r = NamedEntity3 { label, entity, scene_pose_entity };
    assert(j.view()->Object_0 =~= named_entity_json(r)->Object_0);
    Some(r)
}

/// Two numbers.
fn pair(a: i128, b: i128) -> (r: Vec<i128>)
    ensures
        r@.map_values(|x: i128| x as int) == seq![a as int, b as int],
{
    let mut v: Vec<i128> = Vec::new();
    v.push(a);
    v.push(b);
    assert(v@.map_values(|x: i128| x as int) =~= seq![a as int, b as int]);
    v
}

fn bool_to_json(b: bool) -> (r: Json)
    ensures
        r.view() == JsonView::Bool(b),
{
    Json::Bool(b)
}

/// The boolean that `j` is, if any.
fn bool_from_json(j: &Json) -> (r: Option<bool>)
    ensures
        r is Some <==> j.view() is Bool,
        r is Some ==> j.view() == JsonView::Bool(r->0),
{
    match j {
        Json::Bool(b) => Some(*b),
        _ => None,
    }
}

pub open spec fn add_enum_json(x: AddEnumStringRepr) -> JsonView {
    obj3("label"@, JsonView::Str(x.label@), "value"@, JsonView::Str(x.value@), "values"@, strs_json(x.values@))
}

fn add_enum_to_json(x: &AddEnumStringRepr) -> (r: Json)
    ensures
        r.view() == add_enum_json(*x),
{
    mk_obj3("label", str_to_json(&x.label), "value", str_to_json(&x.value), "values", strs_to_json(&x.values))
}

fn add_enum_from_json(j: &Json) -> (r: Option<AddEnumStringRepr>)
    ensures
        r is Some <==> exists|x: AddEnumStringRepr| #[trigger] add_enum_json(x) == j.view(),
        r is Some ==> add_enum_json(r->0) == j.view(),
{
    let f_label = match member(j, 3, 0, "label") {
        Some(m) => match str_from_json(m) {
            Some(v) => v,
            None => {
                return None;
            },
        },
        None => {
            return None;
        },
    };
    let f_value = match member(j, 3, 1, "value") {
        Some(m) => match str_from_json(m) {
            Some(v) => v,
            None => {
                return None;
            },
        },
        None => {
            return None;
        },
    };
    let f_values = match member(j, 3, 2, "values") {
        Some(m) => match strs_from_json(m) {
            Some(v) => v,
            None => {
                return None;
            },
        },
        None => {
            return None;
        },
    };
    let r = AddEnumStringRepr { label: f_label, value: f_value, values: f_values };
    assert(j.view()->Object_0 =~= add_enum_json(r)->Object_0);
    Some(r)
}

pub open spec fn add_button_json(x: AddButton) -> JsonView {
    obj1("label"@, JsonView::Str(x.label@))
}

fn add_button_to_json(x: &AddButton) -> (r: Json)
    ensures
        r.view() == add_button_json(*x),
{
    mk_obj1("label", str_to_json(&x.label))
}

fn add_button_from_json(j: &Json) -> (r: Option<AddButton>)
    ensures
        r is Some <==> exists|x: AddButton| #[trigger] add_button_json(x) == j.view(),
        r is Some ==> add_button_json(r->0) == j.view(),
{
    let f_label = match member(j, 1, 0, "label") {
        Some(m) => match str_from_json(m) {
            Some(v) => v,
            None => {
                return None;
            },
        },
        None => {
            return None;
        },
    };
    let r = AddButton { label: f_label };
    assert(j.view()->Object_0 =~= add_button_json(r)->Object_0);
    Some(r)
}

pub open spec fn add_var_bool_json(x: AddVar<bool>) -> JsonView {
    obj2("label"@, JsonView::Str(x.label@), "value"@, JsonView::Bool(x.value))
}

fn add_var_bool_to_json(x: &AddVar<bool>) -> (r: Json)
    ensures
        r.view() == add_var_bool_json(*x),
{
    mk_obj2("label", str_to_json(&x.label), "value", bool_to_json(x.value))
}

fn add_var_bool_from_json(j: &Json) -> (r: Option<AddVar<bool>>)
    ensures
        r is Some <==> exists|x: AddVar<bool>| #[trigger] add_var_bool_json(x) == j.view(),
        r is Some ==> add_var_bool_json(r->0) == j.view(),
{
    let f_label = match member(j, 2, 0, "label") {
        Some(m) => match str_from_json(m) {
            Some(v) => v,
            None => {
                return None;
            },
        },
        None => {
            return None;
        },
    };
    let f_value = match member(j, 2, 1, "value") {
        Some(m) => match bool_from_json(m) {
            Some(v) => v,
            None => {
                return None;
            },
        },
        None => {
            return None;
        },
    };
    let r = AddVar { label: f_label, value: f_value };
    assert(j.view()->Object_0 =~= add_var_bool_json(r)->Object_0);
    Some(r)
}

pub open spec fn add_var_usize_json(x: AddVar<usize>) -> JsonView {
    obj2("label"@, JsonView::Str(x.label@), "value"@, JsonView::Num(x.value as int))
}

fn add_var_usize_to_json(x: &AddVar<usize>) -> (r: Json)
    ensures
        r.view() == add_var_usize_json(*x),
{
    mk_obj2("label", str_to_json(&x.label), "value", num(x.value as i128))
}

fn add_var_usize_from_json(j: &Json) -> (r: Option<AddVar<usize>>)
    ensures
        r is Some <==> exists|x: AddVar<usize>| #[trigger] add_var_usize_json(x) == j.view(),
        r is Some ==> add_var_usize_json(r->0) == j.view(),
{
    let f_label = match member(j, 2, 0, "label") {
        Some(m) => match str_from_json(m) {
            Some(v) => v,
            None => {
                return None;
            },
        },
        None => {
            return None;
        },
    };
    let f_value = match member(j, 2, 1, "value") {
        Some(m) => match number_in(m, 0, usize::MAX as i128) {
            Some(v) => v as usize,
            None => {
                return None;
            },
        },
        None => {
            return None;
        },
    };
    let r = AddVar { label: f_label, value: f_value };
    assert(j.view()->Object_0 =~= add_var_usize_json(r)->Object_0);
    Some(r)
}

pub open spec fn add_var_i32_json(x: AddVar<i32>) -> JsonView {
    obj2("label"@, JsonView::Str(x.label@), "value"@, JsonView::Num(x.value as int))
}

fn add_var_i32_to_json(x: &AddVar<i32>) -> (r: Json)
    ensures
        r.view() == add_var_i32_json(*x),
{
    mk_obj2("label", str_to_json(&x.label), "value", num(x.value as i128))
}

fn add_var_i32_from_json(j: &Json) -> (r: Option<AddVar<i32>>)
    ensures
        r is Some <==> exists|x: AddVar<i32>| #[trigger] add_var_i32_json(x) == j.view(),
        r is Some ==> add_var_i32_json(r->0) == j.view(),
{
    let f_label = match member(j, 2, 0, "label") {
        Some(m) => match str_from_json(m) {
            Some(v) => v,
            None => {
                return None;
            },
        },
        None => {
            return None;
        },
    };
    let f_value = match member(j, 2, 1, "value") {
        Some(m) => match number_in(m, i32::MIN as i128, i32::MAX as i128) {
            Some(v) => v as i32,
            None => {
                return None;
            },
        },
        None => {
            return None;
        },
    };
    let r = AddVar { label: f_label, value: f_value };
    assert(j.view()->Object_0 =~= add_var_i32_json(r)->Object_0);
    Some(r)
}

pub open spec fn add_var_i64_json(x: AddVar<i64>) -> JsonView {
    obj2("label"@, JsonView::Str(x.label@), "value"@, JsonView::Num(x.value as int))
}

fn add_var_i64_to_json(x: &AddVar<i64>) -> (r: Json)
    ensures
        r.view() == add_var_i64_json(*x),
{
    mk_obj2("label", str_to_json(&x.label), "value", num(x.value as i128))
}

fn add_var_i64_from_json(j: &Json) -> (r: Option<AddVar<i64>>)
    ensures
        r is Some <==> exists|x: AddVar<i64>| #[trigger] add_var_i64_json(x) == j.view(),
        r is Some ==> add_var_i64_json(r->0) == j.view(),
{
    let f_label = match member(j, 2, 0, "label") {
        Some(m) => match str_from_json(m) {
            Some(v) => v,
            None => {
                return None;
            },
        },
        None => {
            return None;
        },
    };
    let f_value = match member(j, 2, 1, "value") {
        Some(m) => match number_in(m, i64::MIN as i128, i64::MAX as i128) {
            Some(v) => v as i64,
            None => {
                return None;
            },
        },
        None => {
            return None;
        },
    };
    let r = AddVar { label: f_label, value: f_value };
    assert(j.view()->Object_0 =~= add_var_i64_json(r)->Object_0);
    Some(r)
}

pub open spec fn add_ranged_usize_json(x: AddRangedVar<usize>) -> JsonView {
    obj3("label"@, JsonView::Str(x.label@), "min_max"@, nums_json(seq![x.min as int, x.max as int]), "value"@, JsonView::Num(x.value as int))
}

fn add_ranged_usize_to_json(x: &AddRangedVar<usize>) -> (r: Json)
    ensures
        r.view() == add_ranged_usize_json(*x),
{
    mk_obj3("label", str_to_json(&x.label), "min_max", nums(&pair(x.min as i128, x.max as i128)), "value", num(x.value as i128))
}

fn add_ranged_usize_from_json(j: &Json) -> (r: Option<AddRangedVar<usize>>)
    ensures
        r is Some <==> exists|x: AddRangedVar<usize>| #[trigger] add_ranged_usize_json(x) == j.view(),
        r is Some ==> add_ranged_usize_json(r->0) == j.view(),
{
    let f_label = match member(j, 3, 0, "label") {
        Some(m) => match str_from_json(m) {
            Some(v) => v,
            None => {
                return None;
            },
        },
        None => {
            return None;
        },
    };
    proof {
        if exists|x: AddRangedVar<usize>| #[trigger] add_ranged_usize_json(x) == j.view() {
            let x = choose|x: AddRangedVar<usize>| #[trigger] add_ranged_usize_json(x) == j.view();
            lemma_nums_ok(seq![x.min as int, x.max as int], 0 as int, usize::MAX as i128 as int);
        }
    }
    let (f_min, f_max) = match member(j, 3, 1, "min_max") {
        Some(m) => match nums_in(m, Some(2), 0, usize::MAX as i128) {
            Some(v) => {
                let lo = v[0] as usize;
                let hi = v[1] as usize;
                assert(v@.map_values(|y: i128| y as int) =~= seq![lo as int, hi as int]);
                (lo, hi)
            },
            None => {
                return None;
            },
        },
        None => {
            return None;
        },
    };
    let f_value = match member(j, 3, 2, "value") {
        Some(m) => match number_in(m, 0, usize::MAX as i128) {
            Some(v) => v as usize,
            None => {
                return None;
            },
        },
        None => {
            return None;
        },
    };
    let r = AddRangedVar { label: f_label, min: f_min, max: f_max, value: f_value };
    assert(j.view()->Object_0 =~= add_ranged_usize_json(r)->Object_0);
    Some(r)
}

pub open spec fn add_ranged_i32_json(x: AddRangedVar<i32>) -> JsonView {
    obj3("label"@, JsonView::Str(x.label@), "min_max"@, nums_json(seq![x.min as int, x.max as int]), "value"@, JsonView::Num(x.value as int))
}

fn add_ranged_i32_to_json(x: &AddRangedVar<i32>) -> (r: Json)
    ensures
        r.view() == add_ranged_i32_json(*x),
{
    mk_obj3("label", str_to_json(&x.label), "min_max", nums(&pair(x.min as i128, x.max as i128)), "value", num(x.value as i128))
}

fn add_ranged_i32_from_json(j: &Json) -> (r: Option<AddRangedVar<i32>>)
    ensures
        r is Some <==> exists|x: AddRangedVar<i32>| #[trigger] add_ranged_i32_json(x) == j.view(),
        r is Some ==> add_ranged_i32_json(r->0) == j.view(),
{
    let f_label = match member(j, 3, 0, "label") {
        Some(m) => match str_from_json(m) {
            Some(v) => v,
            None => {
                return None;
            },
        },
        None => {
            return None;
        },
    };
    proof {
        if exists|x: AddRangedVar<i32>| #[trigger] add_ranged_i32_json(x) == j.view() {
            let x = choose|x: AddRangedVar<i32>| #[trigger] add_ranged_i32_json(x) == j.view();
            lemma_nums_ok(seq![x.min as int, x.max as int], i32::MIN as i128 as int, i32::MAX as i128 as int);
        }
    }
    let (f_min, f_max) = match member(j, 3, 1, "min_max") {
        Some(m) => match nums_in(m, Some(2), i32::MIN as i128, i32::MAX as i128) {
            Some(v) => {
                let lo = v[0] as i32;
                let hi = v[1] as i32;
                assert(v@.map_values(|y: i128| y as int) =~= seq![lo as int, hi as int]);
                (lo, hi)
            },
            None => {
                return None;
            },
        },
        None => {
            return None;
        },
    };
    let f_value = match member(j, 3, 2, "value") {
        Some(m) => match number_in(m, i32::MIN as i128, i32::MAX as i128) {
            Some(v) => v as i32,
            None => {
                return None;
            },
        },
        None => {
            return None;
        },
    };
    let r = AddRangedVar { label: f_label, min: f_min, max: f_max, value: f_value };
    assert(j.view()->Object_0 =~= add_ranged_i32_json(r)->Object_0);
    Some(r)
}

pub open spec fn add_ranged_i64_json(x: AddRangedVar<i64>) -> JsonView {
    obj3("label"@, JsonView::Str(x.label@), "min_max"@, nums_json(seq![x.min as int, x.max as int]), "value"@, JsonView::Num(x.value as int))
}

fn add_ranged_i64_to_json(x: &AddRangedVar<i64>) -> (r: Json)
    ensures
        r.view() == add_ranged_i64_json(*x),
{
    mk_obj3("label", str_to_json(&x.label), "min_max", nums(&pair(x.min as i128, x.max as i128)), "value", num(x.value as i128))
}

fn add_ranged_i64_from_json(j: &Json) -> (r: Option<AddRangedVar<i64>>)
    ensures
        r is Some <==> exists|x: AddRangedVar<i64>| #[trigger] add_ranged_i64_json(x) == j.view(),
        r is Some ==> add_ranged_i64_json(r->0) == j.view(),
{
    let f_label = match member(j, 3, 0, "label") {
        Some(m) => match str_from_json(m) {
            Some(v) => v,
            None => {
                return None;
            },
        },
        None => {
            return None;
        },
    };
    proof {
        if exists|x: AddRangedVar<i64>| #[trigger] add_ranged_i64_json(x) == j.view() {
            let x = choose|x: AddRangedVar<i64>| #[trigger] add_ranged_i64_json(x) == j.view();
            lemma_nums_ok(seq![x.min as int, x.max as int], i64::MIN as i128 as int, i64::MAX as i128 as int);
        }
    }
    let (f_min, f_max) = match member(j, 3, 1, "min_max") {
        Some(m) => match nums_in(m, Some(2), i64::MIN as i128, i64::MAX as i128) {
            Some(v) => {
                let lo = v[0] as i64;
                let hi = v[1] as i64;
                assert(v@.map_values(|y: i128| y as int) =~= seq![lo as int, hi as int]);
                (lo, hi)
            },
            None => {
                return None;
            },
        },
        None => {
            return None;
        },
    };
    let f_value = match member(j, 3, 2, "value") {
        Some(m) => match number_in(m, i64::MIN as i128, i64::MAX as i128) {
            Some(v) => v as i64,
            None => {
                return None;
            },
        },
        None => {
            return None;
        },
    };
    let r = AddRangedVar { label: f_label, min: f_min, max: f_max, value: f_value };
    assert(j.view()->Object_0 =~= add_ranged_i64_json(r)->Object_0);
    Some(r)
}

pub open spec fn add_var_f32_json(x: AddVar<F32Bits>) -> JsonView {
    obj2("label"@, JsonView::Str(x.label@), "value"@, JsonView::Num(x.value.0 as int))
}

fn add_var_f32_to_json(x: &AddVar<F32Bits>) -> (r: Json)
    ensures
        r.view() == add_var_f32_json(*x),
{
    mk_obj2("label", str_to_json(&x.label), "value", num(x.value.0 as i128))
}

fn add_var_f32_from_json(j: &Json) -> (r: Option<AddVar<F32Bits>>)
    ensures
        r is Some <==> exists|x: AddVar<F32Bits>| #[trigger] add_var_f32_json(x) == j.view(),
        r is Some ==> add_var_f32_json(r->0) == j.view(),
{
    let f_label = match member(j, 2, 0, "label") {
        Some(m) => match str_from_json(m) {
            Some(v) => v,
            None => {
                return None;
            },
        },
        None => {
            return None;
        },
    };
    let f_value = match member(j, 2, 1, "value") {
        Some(m) => match number_in(m, 0, u32::MAX as i128) {
            Some(v) => F32Bits(v as u32),
            None => {
                return None;
            },
        },
        None => {
            return None;
        },
    };
    let r = AddVar { label: f_label, value: f_value };
    assert(j.view()->Object_0 =~= add_var_f32_json(r)->Object_0);
    Some(r)
}

pub open spec fn add_var_f64_json(x: AddVar<F64Bits>) -> JsonView {
    obj2("label"@, JsonView::Str(x.label@), "value"@, JsonView::Num(x.value.0 as int))
}

fn add_var_f64_to_json(x: &AddVar<F64Bits>) -> (r: Json)
    ensures
        r.view() == add_var_f64_json(*x),
{
    mk_obj2("label", str_to_json(&x.label), "value", num(x.value.0 as i128))
}

fn add_var_f64_from_json(j: &Json) -> (r: Option<AddVar<F64Bits>>)
    ensures
        r is Some <==> exists|x: AddVar<F64Bits>| #[trigger] add_var_f64_json(x) == j.view(),
        r is Some ==> add_var_f64_json(r->0) == j.view(),
{
    let f_label = match member(j, 2, 0, "label") {
        Some(m) => match str_from_json(m) {
            Some(v) => v,
            None => {
                return None;
            },
        },
        None => {
            return None;
        },
    };
    let f_value = match member(j, 2, 1, "value") {
        Some(m) => match number_in(m, 0, u64::MAX as i128) {
            Some(v) => F64Bits(v as u64),
            None => {
                return None;
            },
        },
        None => {
            return None;
        },
    };
    let r = AddVar { label: f_label, value: f_value };
    assert(j.view()->Object_0 =~= add_var_f64_json(r)->Object_0);
    Some(r)
}

pub open spec fn add_ranged_f32_json(x: AddRangedVar<F32Bits>) -> JsonView {
    obj3("label"@, JsonView::Str(x.label@), "min_max"@, nums_json(seq![x.min.0 as int, x.max.0 as int]), "value"@, JsonView::Num(x.value.0 as int))
}

fn add_ranged_f32_to_json(x: &AddRangedVar<F32Bits>) -> (r: Json)
    ensures
        r.view() == add_ranged_f32_json(*x),
{
    mk_obj3("label", str_to_json(&x.label), "min_max", nums(&pair(x.min.0 as i128, x.max.0 as i128)), "value", num(x.value.0 as i128))
}

fn add_ranged_f32_from_json(j: &Json) -> (r: Option<AddRangedVar<F32Bits>>)
    ensures
        r is Some <==> exists|x: AddRangedVar<F32Bits>| #[trigger] add_ranged_f32_json(x) == j.view(),
        r is Some ==> add_ranged_f32_json(r->0) == j.view(),
{
    let f_label = match member(j, 3, 0, "label") {
        Some(m) => match str_from_json(m) {
            Some(v) => v,
            None => {
                return None;
            },
        },
        None => {
            return None;
        },
    };
    proof {
        if exists|x: AddRangedVar<F32Bits>| #[trigger] add_ranged_f32_json(x) == j.view() {
            let x = choose|x: AddRangedVar<F32Bits>| #[trigger] add_ranged_f32_json(x) == j.view();
            lemma_nums_ok(seq![x.min.0 as int, x.max.0 as int], 0 as int, u32::MAX as i128 as int);
        }
    }
    let (f_min, f_max) = match member(j, 3, 1, "min_max") {
        Some(m) => match nums_in(m, Some(2), 0, u32::MAX as i128) {
            Some(v) => {
                let lo = F32Bits(v[0] as u32);
                let hi = F32Bits(v[1] as u32);
                assert(v@.map_values(|y: i128| y as int) =~= seq![lo.0 as int, hi.0 as int]);
                (lo, hi)
            },
            None => {
                return None;
            },
        },
        None => {
            return None;
        },
    };
    let f_value = match member(j, 3, 2, "value") {
        Some(m) => match number_in(m, 0, u32::MAX as i128) {
            Some(v) => F32Bits(v as u32),
            None => {
                return None;
            },
        },
        None => {
            return None;
        },
    };
    let r = AddRangedVar { label: f_label, min: f_min, max: f_max, value: f_value };
    assert(j.view()->Object_0 =~= add_ranged_f32_json(r)->Object_0);
    Some(r)
}

pub open spec fn add_ranged_f64_json(x: AddRangedVar<F64Bits>) -> JsonView {
    obj3("label"@, JsonView::Str(x.label@), "min_max"@, nums_json(seq![x.min.0 as int, x.max.0 as int]), "value"@, JsonView::Num(x.value.0 as int))
}

fn add_ranged_f64_to_json(x: &AddRangedVar<F64Bits>) -> (r: Json)
    ensures
        r.view() == add_ranged_f64_json(*x),
{
    mk_obj3("label", str_to_json(&x.label), "min_max", nums(&pair(x.min.0 as i128, x.max.0 as i128)), "value", num(x.value.0 as i128))
}

fn add_ranged_f64_from_json(j: &Json) -> (r: Option<AddRangedVar<F64Bits>>)
    ensures
        r is Some <==> exists|x: AddRangedVar<F64Bits>| #[trigger] add_ranged_f64_json(x) == j.view(),
        r is Some ==> add_ranged_f64_json(r->0) == j.view(),
{
    let f_label = match member(j, 3, 0, "label") {
        Some(m) => match str_from_json(m) {
            Some(v) => v,
            None => {
                return None;
            },
        },
        None => {
            return None;
        },
    };
    proof {
        if exists|x: AddRangedVar<F64Bits>| #[trigger] add_ranged_f64_json(x) == j.view() {
            let x = choose|x: AddRangedVar<F64Bits>| #[trigger] add_ranged_f64_json(x) == j.view();
            lemma_nums_ok(seq![x.min.0 as int, x.max.0 as int], 0 as int, u64::MAX as i128 as int);
        }
    }
    let (f_min, f_max) = match member(j, 3, 1, "min_max") {
        Some(m) => match nums_in(m, Some(2), 0, u64::MAX as i128) {
            Some(v) => {
                let lo = F64Bits(v[0] as u64);
                let hi = F64Bits(v[1] as u64);
                assert(v@.map_values(|y: i128| y as int) =~= seq![lo.0 as int, hi.0 as int]);
                (lo, hi)
            },
            None => {
                return None;
            },
        },
        None => {
            return None;
        },
    };
    let f_value = match member(j, 3, 2, "value") {
        Some(m) => match number_in(m, 0, u64::MAX as i128) {
            Some(v) => F64Bits(v as u64),
            None => {
                return None;
            },
        },
        None => {
            return None;
        },
    };
    let r = AddRangedVar { label: f_label, min: f_min, max: f_max, value: f_value };
    assert(j.view()->Object_0 =~= add_ranged_f64_json(r)->Object_0);
    Some(r)
}

pub open spec fn add_widget2_json(x: AddWidget2) -> JsonView {
    obj2("image"@, image_json(x.image), "label"@, JsonView::Str(x.label@))
}

fn add_widget2_to_json(x: &AddWidget2) -> (r: Json)
    ensures
        r.view() == add_widget2_json(*x),
{
    mk_obj2("image", image_to_json(&x.image), "label", str_to_json(&x.label))
}

fn add_widget2_from_json(j: &Json) -> (r: Option<AddWidget2>)
    ensures
        r is Some <==> exists|x: AddWidget2| #[trigger] add_widget2_json(x) == j.view(),
        r is Some ==> add_widget2_json(r->0) == j.view(),
{
    let f_image = match member(j, 2, 0, "image") {
        Some(m) => match image_from_json(m) {
            Some(v) => v,
            None => {
                return None;
            },
        },
        None => {
            return None;
        },
    };
    let f_label = match member(j, 2, 1, "label") {
        Some(m) => match str_from_json(m) {
            Some(v) => v,
            None => {
                return None;
            },
        },
        None => {
            return None;
        },
    };
    let r = AddWidget2 { image: f_image, label: f_label };
    assert(j.view()->Object_0 =~= add_widget2_json(r)->Object_0);
    Some(r)
}

pub open spec fn add_widget3_json(x: AddWidget3) -> JsonView {
    obj1("label"@, JsonView::Str(x.label@))
}

fn add_widget3_to_json(x: &AddWidget3) -> (r: Json)
    ensures
        r.view() == add_widget3_json(*x),
{
    mk_obj1("label", str_to_json(&x.label))
}

fn add_widget3_from_json(j: &Json) -> (r: Option<AddWidget3>)
    ensures
        r is Some <==> exists|x: AddWidget3| #[trigger] add_widget3_json(x) == j.view(),
        r is Some ==> add_widget3_json(r->0) == j.view(),
{
    let f_label = match member(j, 1, 0, "label") {
        Some(m) => match str_from_json(m) {
            Some(v) => v,
            None => {
                return None;
            },
        },
        None => {
            return None;
        },
    };
    let r = AddWidget3 { label: f_label };
    assert(j.view()->Object_0 =~= add_widget3_json(r)->Object_0);
    Some(r)
}

pub open spec fn place_entity_json(x: PlaceEntity3) -> JsonView {
    obj2("named_entity"@, named_entity_json(x.named_entity), "widget_label"@, JsonView::Str(x.widget_label@))
}

fn place_entity_to_json(x: &PlaceEntity3) -> (r: Json)
    ensures
        r.view() == place_entity_json(*x),
{
    mk_obj2("named_entity", named_entity_to_json(&x.named_entity), "widget_label", str_to_json(&x.widget_label))
}

fn place_entity_from_json(j: &Json) -> (r: Option<PlaceEntity3>)
    ensures
        r is Some <==> exists|x: PlaceEntity3| #[trigger] place_entity_json(x) == j.view(),
        r is Some ==> place_entity_json(r->0) == j.view(),
{
    let f_named_entity = match member(j, 2, 0, "named_entity") {
        Some(m) => match named_entity_from_json(m) {
            Some(v) => v,
            None => {
                return None;
            },
        },
        None => {
            return None;
        },
    };
    let f_widget_label = match member(j, 2, 1, "widget_label") {
        Some(m) => match str_from_json(m) {
            Some(v) => v,
            None => {
                return None;
            },
        },
        None => {
            return None;
        },
    };
    let r = PlaceEntity3 { named_entity: f_named_entity, widget_label: f_widget_label };
    assert(j.view()->Object_0 =~= place_entity_json(r)->Object_0);
    Some(r)
}

pub open spec fn delete_component_json(x: DeleteComponent) -> JsonView {
    obj1("label"@, JsonView::Str(x.label@))
}

fn delete_component_to_json(x: &DeleteComponent) -> (r: Json)
    ensures
        r.view() == delete_component_json(*x),
{
    mk_obj1("label", str_to_json(&x.label))
}

fn delete_component_from_json(j: &Json) -> (r: Option<DeleteComponent>)
    ensures
        r is Some <==> exists|x: DeleteComponent| #[trigger] delete_component_json(x) == j.view(),
        r is Some ==> delete_component_json(r->0) == j.view(),
{
    let f_label = match member(j, 1, 0, "label") {
        Some(m) => match str_from_json(m) {
            Some(v) => v,
            None => {
                return None;
            },
        },
        None => {
            return None;
        },
    };
    let r = DeleteComponent { label: f_label };
    assert(j.view()->Object_0 =~= delete_component_json(r)->Object_0);
    Some(r)
}

pub open spec fn update_pose_json(x: UpdateScenePoseEntity3) -> JsonView {
    obj3("entity_label"@, JsonView::Str(x.entity_label@), "scene_pose_entity"@, pose_json(x.scene_pose_entity), "widget_label"@, JsonView::Str(x.widget_label@))
}

fn update_pose_to_json(x: &UpdateScenePoseEntity3) -> (r: Json)
    ensures
        r.view() == update_pose_json(*x),
{
    mk_obj3("entity_label", str_to_json(&x.entity_label), "scene_pose_entity", pose_to_json(&x.scene_pose_entity), "widget_label", str_to_json(&x.widget_label))
}

fn update_pose_from_json(j: &Json) -> (r: Option<UpdateScenePoseEntity3>)
    ensures
        r is Some <==> exists|x: UpdateScenePoseEntity3| #[trigger] update_pose_json(x) == j.view(),
        r is Some ==> update_pose_json(r->0) == j.view(),
{
    let f_entity_label = match member(j, 3, 0, "entity_label") {
        Some(m) => match str_from_json(m) {
            Some(v) => v,
            None => {
                return None;
            },
        },
        None => {
            return None;
        },
    };
    let f_scene_pose_entity = match member(j, 3, 1, "scene_pose_entity") {
        Some(m) => match pose_from_json(m) {
            Some(v) => v,
            None => {
                return None;
            },
        },
        None => {
            return None;
        },
    };
    let f_widget_label = match member(j, 3, 2, "widget_label") {
        Some(m) => match str_from_json(m) {
            Some(v) => v,
            None => {
                return None;
            },
        },
        None => {
            return None;
        },
    };
    let r = UpdateScenePoseEntity3 { entity_label: f_entity_label, scene_pose_entity: f_scene_pose_entity, widget_label: f_widget_label };
    assert(j.view()->Object_0 =~= update_pose_json(r)->Object_0);
    Some(r)
}

pub open spec fn update_enum_json(x: UpdateEnumStringRepr) -> JsonView {
    obj2("label"@, JsonView::Str(x.label@), "value"@, JsonView::Str(x.value@))
}

fn update_enum_to_json(x: &UpdateEnumStringRepr) -> (r: Json)
    ensures
        r.view() == update_enum_json(*x),
{
    mk_obj2("label", str_to_json(&x.label), "value", str_to_json(&x.value))
}

fn update_enum_from_json(j: &Json) -> (r: Option<UpdateEnumStringRepr>)
    ensures
        r is Some <==> exists|x: UpdateEnumStringRepr| #[trigger] update_enum_json(x) == j.view(),
        r is Some ==> update_enum_json(r->0) == j.view(),
{
    let f_label = match member(j, 2, 0, "label") {
        Some(m) => match str_from_json(m) {
            Some(v) => v,
            None => {
                return None;
            },
        },
        None => {
            return None;
        },
    };
    let f_value = match member(j, 2, 1, "value") {
        Some(m) => match str_from_json(m) {
            Some(v) => v,
            None => {
                return None;
            },
        },
        None => {
            return None;
        },
    };
    let r = UpdateEnumStringRepr { label: f_label, value: f_value };
    assert(j.view()->Object_0 =~= update_enum_json(r)->Object_0);
    Some(r)
}

pub open spec fn update_bool_json(x: UpdateValue<bool>) -> JsonView {
    obj2("label"@, JsonView::Str(x.label@), "value"@, JsonView::Bool(x.value))
}

fn update_bool_to_json(x: &UpdateValue<bool>) -> (r: Json)
    ensures
        r.view() == update_bool_json(*x),
{
    mk_obj2("label", str_to_json(&x.label), "value", bool_to_json(x.value))
}

fn update_bool_from_json(j: &Json) -> (r: Option<UpdateValue<bool>>)
    ensures
        r is Some <==> exists|x: UpdateValue<bool>| #[trigger] update_bool_json(x) == j.view(),
        r is Some ==> update_bool_json(r->0) == j.view(),
{
    let f_label = match member(j, 2, 0, "label") {
        Some(m) => match str_from_json(m) {
            Some(v) => v,
            None => {
                return None;
            },
        },
        None => {
            return None;
        },
    };
    let f_value = match member(j, 2, 1, "value") {
        Some(m) => match bool_from_json(m) {
            Some(v) => v,
            None => {
                return None;
            },
        },
        None => {
            return None;
        },
    };
    let r = UpdateValue { label: f_label, value: f_value };
    assert(j.view()->Object_0 =~= update_bool_json(r)->Object_0);
    Some(r)
}

pub open spec fn update_ranged_usize_json(x: UpdateRangedValue<usize>) -> JsonView {
    obj2("label"@, JsonView::Str(x.label@), "value"@, JsonView::Num(x.value as int))
}

fn update_ranged_usize_to_json(x: &UpdateRangedValue<usize>) -> (r: Json)
    ensures
        r.view() == update_ranged_usize_json(*x),
{
    mk_obj2("label", str_to_json(&x.label), "value", num(x.value as i128))
}

fn update_ranged_usize_from_json(j: &Json) -> (r: Option<UpdateRangedValue<usize>>)
    ensures
        r is Some <==> exists|x: UpdateRangedValue<usize>| #[trigger] update_ranged_usize_json(x) == j.view(),
        r is Some ==> update_ranged_usize_json(r->0) == j.view(),
{
    let f_label = match member(j, 2, 0, "label") {
        Some(m) => match str_from_json(m) {
            Some(v) => v,
            None => {
                return None;
            },
        },
        None => {
            return None;
        },
    };
    let f_value = match member(j, 2, 1, "value") {
        Some(m) => match number_in(m, 0, usize::MAX as i128) {
            Some(v) => v as usize,
            None => {
                return None;
            },
        },
        None => {
            return None;
        },
    };
    let r = UpdateRangedValue { label: f_label, value: f_value };
    assert(j.view()->Object_0 =~= update_ranged_usize_json(r)->Object_0);
    Some(r)
}

pub open spec fn update_ranged_i32_json(x: UpdateRangedValue<i32>) -> JsonView {
    obj2("label"@, JsonView::Str(x.label@), "value"@, JsonView::Num(x.value as int))
}

fn update_ranged_i32_to_json(x: &UpdateRangedValue<i32>) -> (r: Json)
    ensures
        r.view() == update_ranged_i32_json(*x),
{
    mk_obj2("label", str_to_json(&x.label), "value", num(x.value as i128))
}

fn update_ranged_i32_from_json(j: &Json) -> (r: Option<UpdateRangedValue<i32>>)
    ensures
        r is Some <==> exists|x: UpdateRangedValue<i32>| #[trigger] update_ranged_i32_json(x) == j.view(),
        r is Some ==> update_ranged_i32_json(r->0) == j.view(),
{
    let f_label = match member(j, 2, 0, "label") {
        Some(m) => match str_from_json(m) {
            Some(v) => v,
            None => {
                return None;
            },
        },
        None => {
            return None;
        },
    };
    let f_value = match member(j, 2, 1, "value") {
        Some(m) => match number_in(m, i32::MIN as i128, i32::MAX as i128) {
            Some(v) => v as i32,
            None => {
                return None;
            },
        },
        None => {
            return None;
        },
    };
    let r = UpdateRangedValue { label: f_label, value: f_value };
    assert(j.view()->Object_0 =~= update_ranged_i32_json(r)->Object_0);
    Some(r)
}

pub open spec fn update_ranged_i64_json(x: UpdateRangedValue<i64>) -> JsonView {
    obj2("label"@, JsonView::Str(x.label@), "value"@, JsonView::Num(x.value as int))
}

fn update_ranged_i64_to_json(x: &UpdateRangedValue<i64>) -> (r: Json)
    ensures
        r.view() == update_ranged_i64_json(*x),
{
    mk_obj2("label", str_to_json(&x.label), "value", num(x.value as i128))
}

fn update_ranged_i64_from_json(j: &Json) -> (r: Option<UpdateRangedValue<i64>>)
    ensures
        r is Some <==> exists|x: UpdateRangedValue<i64>| #[trigger] update_ranged_i64_json(x) == j.view(),
        r is Some ==> update_ranged_i64_json(r->0) == j.view(),
{
    let f_label = match member(j, 2, 0, "label") {
        Some(m) => match str_from_json(m) {
            Some(v) => v,
            None => {
                return None;
            },
        },
        None => {
            return None;
        },
    };
    let f_value = match member(j, 2, 1, "value") {
        Some(m) => match number_in(m, i64::MIN as i128, i64::MAX as i128) {
            Some(v) => v as i64,
            None => {
                return None;
            },
        },
        None => {
            return None;
        },
    };
    let r = UpdateRangedValue { label: f_label, value: f_value };
    assert(j.view()->Object_0 =~= update_ranged_i64_json(r)->Object_0);
    Some(r)
}

pub open spec fn update_ranged_f32_json(x: UpdateRangedValue<F32Bits>) -> JsonView {
    obj2("label"@, JsonView::Str(x.label@), "value"@, JsonView::Num(x.value.0 as int))
}

fn update_ranged_f32_to_json(x: &UpdateRangedValue<F32Bits>) -> (r: Json)
    ensures
        r.view() == update_ranged_f32_json(*x),
{
    mk_obj2("label", str_to_json(&x.label), "value", num(x.value.0 as i128))
}

fn update_ranged_f32_from_json(j: &Json) -> (r: Option<UpdateRangedValue<F32Bits>>)
    ensures
        r is Some <==> exists|x: UpdateRangedValue<F32Bits>| #[trigger] update_ranged_f32_json(x) == j.view(),
        r is Some ==> update_ranged_f32_json(r->0) == j.view(),
{
    let f_label = match member(j, 2, 0, "label") {
        Some(m) => match str_from_json(m) {
            Some(v) => v,
            None => {
                return None;
            },
        },
        None => {
            return None;
        },
    };
    let f_value = match member(j, 2, 1, "value") {
        Some(m) => match number_in(m, 0, u32::MAX as i128) {
            Some(v) => F32Bits(v as u32),
            None => {
                return None;
            },
        },
        None => {
            return None;
        },
    };
    let r = UpdateRangedValue { label: f_label, value: f_value };
    assert(j.view()->Object_0 =~= update_ranged_f32_json(r)->Object_0);
    Some(r)
}

pub open spec fn update_ranged_f64_json(x: UpdateRangedValue<F64Bits>) -> JsonView {
    obj2("label"@, JsonView::Str(x.label@), "value"@, JsonView::Num(x.value.0 as int))
}

fn update_ranged_f64_to_json(x: &UpdateRangedValue<F64Bits>) -> (r: Json)
    ensures
        r.view() == update_ranged_f64_json(*x),
{
    mk_obj2("label", str_to_json(&x.label), "value", num(x.value.0 as i128))
}

fn update_ranged_f64_from_json(j: &Json) -> (r: Option<UpdateRangedValue<F64Bits>>)
    ensures
        r is Some <==> exists|x: UpdateRangedValue<F64Bits>| #[trigger] update_ranged_f64_json(x) == j.view(),
        r is Some ==> update_ranged_f64_json(r->0) == j.view(),
{
    let f_label = match member(j, 2, 0, "label") {
        Some(m) => match str_from_json(m) {
            Some(v) => v,
            None => {
                return None;
            },
        },
        None => {
            return None;
        },
    };
    let f_value = match member(j, 2, 1, "value") {
        Some(m) => match number_in(m, 0, u64::MAX as i128) {
            Some(v) => F64Bits(v as u64),
            None => {
                return None;
            },
        },
        None => {
            return None;
        },
    };
    let r = UpdateRangedValue { label: f_label, value: f_value };
    assert(j.view()->Object_0 =~= update_ranged_f64_json(r)->Object_0);
    Some(r)
}

pub open spec fn update_button_json(x: UpdateButton) -> JsonView {
    obj1("label"@, JsonView::Str(x.label@))
}

fn update_button_to_json(x: &UpdateButton) -> (r: Json)
    ensures
        r.view() == update_button_json(*x),
{
    mk_obj1("label", str_to_json(&x.label))
}

fn update_button_from_json(j: &Json) -> (r: Option<UpdateButton>)
    ensures
        r is Some <==> exists|x: UpdateButton| #[trigger] update_button_json(x) == j.view(),
        r is Some ==> update_button_json(r->0) == j.view(),
{
    let f_label = match member(j, 1, 0, "label") {
        Some(m) => match str_from_json(m) {
            Some(v) => v,
            None => {
                return None;
            },
        },
        None => {
            return None;
        },
    };
    let r = UpdateButton { label: f_label };
    assert(j.view()->Object_0 =~= update_button_json(r)->Object_0);
    Some(r)
}

/// A message for the presentation side, tagged with its variant's name.
pub open spec fn to_gui_json(m: ToGuiLoopMessage) -> JsonView {
    match m {
        ToGuiLoopMessage::AddEnumStringRepr(a) => obj1("AddEnumStringRepr"@, add_enum_json(a)),
        ToGuiLoopMessage::AddButton(a) => obj1("AddButton"@, add_button_json(a)),
        ToGuiLoopMessage::AddVarBool(a) => obj1("AddVarBool"@, add_var_bool_json(a)),
        ToGuiLoopMessage::AddVarUSize(a) => obj1("AddVarUSize"@, add_var_usize_json(a)),
        ToGuiLoopMessage::AddVarI32(a) => obj1("AddVarI32"@, add_var_i32_json(a)),
        ToGuiLoopMessage::AddVarI64(a) => obj1("AddVarI64"@, add_var_i64_json(a)),
        ToGuiLoopMessage::AddRangedVarUSize(a) => obj1("AddRangedVarUSize"@, add_ranged_usize_json(a)),
        ToGuiLoopMessage::AddRangedVarI32(a) => obj1("AddRangedVarI32"@, add_ranged_i32_json(a)),
        ToGuiLoopMessage::AddRangedVarI64(a) => obj1("AddRangedVarI64"@, add_ranged_i64_json(a)),
        ToGuiLoopMessage::AddVarF32(a) => obj1("AddVarF32"@, add_var_f32_json(a)),
        ToGuiLoopMessage::AddVarF64(a) => obj1("AddVarF64"@, add_var_f64_json(a)),
        ToGuiLoopMessage::AddRangedVarF32(a) => obj1("AddRangedVarF32"@, add_ranged_f32_json(a)),
        ToGuiLoopMessage::AddRangedVarF64(a) => obj1("AddRangedVarF64"@, add_ranged_f64_json(a)),
        ToGuiLoopMessage::AddWidget2(a) => obj1("AddWidget2"@, add_widget2_json(a)),
        ToGuiLoopMessage::AddWidget3(a) => obj1("AddWidget3"@, add_widget3_json(a)),
        ToGuiLoopMessage::PlaceEntity3(a) => obj1("PlaceEntity3"@, place_entity_json(a)),
        ToGuiLoopMessage::DeleteComponent(a) => obj1("DeleteComponent"@, delete_component_json(a)),
        ToGuiLoopMessage::UpdateScenePoseEntity3(a) => obj1("UpdateScenePoseEntity3"@, update_pose_json(a)),
    }
}

/// The message as JSON, tagged with its variant's name.
pub fn to_gui_to_json(m: &ToGuiLoopMessage) -> (r: Json)
    ensures
        r.view() == to_gui_json(*m),
{
    match m {
        ToGuiLoopMessage::AddEnumStringRepr(a) => mk_obj1("AddEnumStringRepr", add_enum_to_json(a)),
        ToGuiLoopMessage::AddButton(a) => mk_obj1("AddButton", add_button_to_json(a)),
        ToGuiLoopMessage::AddVarBool(a) => mk_obj1("AddVarBool", add_var_bool_to_json(a)),
        ToGuiLoopMessage::AddVarUSize(a) => mk_obj1("AddVarUSize", add_var_usize_to_json(a)),
        ToGuiLoopMessage::AddVarI32(a) => mk_obj1("AddVarI32", add_var_i32_to_json(a)),
        ToGuiLoopMessage::AddVarI64(a) => mk_obj1("AddVarI64", add_var_i64_to_json(a)),
        ToGuiLoopMessage::AddRangedVarUSize(a) => mk_obj1("AddRangedVarUSize", add_ranged_usize_to_json(a)),
        ToGuiLoopMessage::AddRangedVarI32(a) => mk_obj1("AddRangedVarI32", add_ranged_i32_to_json(a)),
        ToGuiLoopMessage::AddRangedVarI64(a) => mk_obj1("AddRangedVarI64", add_ranged_i64_to_json(a)),
        ToGuiLoopMessage::AddVarF32(a) => mk_obj1("AddVarF32", add_var_f32_to_json(a)),
        ToGuiLoopMessage::AddVarF64(a) => mk_obj1("AddVarF64", add_var_f64_to_json(a)),
        ToGuiLoopMessage::AddRangedVarF32(a) => mk_obj1("AddRangedVarF32", add_ranged_f32_to_json(a)),
        ToGuiLoopMessage::AddRangedVarF64(a) => mk_obj1("AddRangedVarF64", add_ranged_f64_to_json(a)),
        ToGuiLoopMessage::AddWidget2(a) => mk_obj1("AddWidget2", add_widget2_to_json(a)),
        ToGuiLoopMessage::AddWidget3(a) => mk_obj1("AddWidget3", add_widget3_to_json(a)),
        ToGuiLoopMessage::PlaceEntity3(a) => mk_obj1("PlaceEntity3", place_entity_to_json(a)),
        ToGuiLoopMessage::DeleteComponent(a) => mk_obj1("DeleteComponent", delete_component_to_json(a)),
        ToGuiLoopMessage::UpdateScenePoseEntity3(a) => mk_obj1("UpdateScenePoseEntity3", update_pose_to_json(a)),
    }
}

/// The message that `j` encodes, if any.
pub fn to_gui_from_json(j: &Json) -> (r: Option<ToGuiLoopMessage>)
    ensures
        r is Some <==> exists|x: ToGuiLoopMessage| #[trigger] to_gui_json(x) == j.view(),
        r is Some ==> to_gui_json(r->0) == j.view(),
{
    let ghost complete = exists|x: ToGuiLoopMessage| #[trigger] to_gui_json(x) == j.view();
    let ghost w = choose|x: ToGuiLoopMessage| #[trigger] to_gui_json(x) == j.view();
    let attempt = match member(j, 1, 0, "AddEnumStringRepr") {
        Some(x) => add_enum_from_json(x),
        None => None,
    };
    match attempt {
        Some(a) => {
            let r = ToGuiLoopMessage::AddEnumStringRepr(a);
            assert(j.view()->Object_0 =~= to_gui_json(r)->Object_0);
            return Some(r);
        },
        None => {},
    }
    assert(!(complete && w is AddEnumStringRepr)) by {
        if complete && w is AddEnumStringRepr {
            assert(add_enum_json(w->AddEnumStringRepr_0) == member_of(j.view(), 1, 0, "AddEnumStringRepr"@)->0);
        }
    }
    let attempt = match member(j, 1, 0, "AddButton") {
        Some(x) => add_button_from_json(x),
        None => None,
    };
    match attempt {
        Some(a) => {
            let r = ToGuiLoopMessage::AddButton(a);
            assert(j.view()->Object_0 =~= to_gui_json(r)->Object_0);
            return Some(r);
        },
        None => {},
    }
    assert(!(complete && w is AddButton)) by {
        if complete && w is AddButton {
            assert(add_button_json(w->AddButton_0) == member_of(j.view(), 1, 0, "AddButton"@)->0);
        }
    }
    let attempt = match member(j, 1, 0, "AddVarBool") {
        Some(x) => add_var_bool_from_json(x),
        None => None,
    };
    match attempt {
        Some(a) => {
            let r = ToGuiLoopMessage::AddVarBool(a);
            assert(j.view()->Object_0 =~= to_gui_json(r)->Object_0);
            return Some(r);
        },
        None => {},
    }
    assert(!(complete && w is AddVarBool)) by {
        if complete && w is AddVarBool {
            assert(add_var_bool_json(w->AddVarBool_0) == member_of(j.view(), 1, 0, "AddVarBool"@)->0);
        }
    }
    let attempt = match member(j, 1, 0, "AddVarUSize") {
        Some(x) => add_var_usize_from_json(x),
        None => None,
    };
    match attempt {
        Some(a) => {
            let r = ToGuiLoopMessage::AddVarUSize(a);
            assert(j.view()->Object_0 =~= to_gui_json(r)->Object_0);
            return Some(r);
        },
        None => {},
    }
    assert(!(complete && w is AddVarUSize)) by {
        if complete && w is AddVarUSize {
            assert(add_var_usize_json(w->AddVarUSize_0) == member_of(j.view(), 1, 0, "AddVarUSize"@)->0);
        }
    }
    let attempt = match member(j, 1, 0, "AddVarI32") {
        Some(x) => add_var_i32_from_json(x),
        None => None,
    };
    match attempt {
        Some(a) => {
            let r = ToGuiLoopMessage::AddVarI32(a);
            assert(j.view()->Object_0 =~= to_gui_json(r)->Object_0);
            return Some(r);
        },
        None => {},
    }
    assert(!(complete && w is AddVarI32)) by {
        if complete && w is AddVarI32 {
            assert(add_var_i32_json(w->AddVarI32_0) == member_of(j.view(), 1, 0, "AddVarI32"@)->0);
        }
    }
    let attempt = match member(j, 1, 0, "AddVarI64") {
        Some(x) => add_var_i64_from_json(x),
        None => None,
    };
    match attempt {
        Some(a) => {
            let r = ToGuiLoopMessage::AddVarI64(a);
            assert(j.view()->Object_0 =~= to_gui_json(r)->Object_0);
            return Some(r);
        },
        None => {},
    }
    assert(!(complete && w is AddVarI64)) by {
        if complete && w is AddVarI64 {
            assert(add_var_i64_json(w->AddVarI64_0) == member_of(j.view(), 1, 0, "AddVarI64"@)->0);
        }
    }
    let attempt = match member(j, 1, 0, "AddRangedVarUSize") {
        Some(x) => add_ranged_usize_from_json(x),
        None => None,
    };
    match attempt {
        Some(a) => {
            let r = ToGuiLoopMessage::AddRangedVarUSize(a);
            assert(j.view()->Object_0 =~= to_gui_json(r)->Object_0);
            return Some(r);
        },
        None => {},
    }
    assert(!(complete && w is AddRangedVarUSize)) by {
        if complete && w is AddRangedVarUSize {
            assert(add_ranged_usize_json(w->AddRangedVarUSize_0) == member_of(j.view(), 1, 0, "AddRangedVarUSize"@)->0);
        }
    }
    let attempt = match member(j, 1, 0, "AddRangedVarI32") {
        Some(x) => add_ranged_i32_from_json(x),
        None => None,
    };
    match attempt {
        Some(a) => {
            let r = ToGuiLoopMessage::AddRangedVarI32(a);
            assert(j.view()->Object_0 =~= to_gui_json(r)->Object_0);
            return Some(r);
        },
        None => {},
    }
    assert(!(complete && w is AddRangedVarI32)) by {
        if complete && w is AddRangedVarI32 {
            assert(add_ranged_i32_json(w->AddRangedVarI32_0) == member_of(j.view(), 1, 0, "AddRangedVarI32"@)->0);
        }
    }
    let attempt = match member(j, 1, 0, "AddRangedVarI64") {
        Some(x) => add_ranged_i64_from_json(x),
        None => None,
    };
    match attempt {
        Some(a) => {
            let r = ToGuiLoopMessage::AddRangedVarI64(a);
            assert(j.view()->Object_0 =~= to_gui_json(r)->Object_0);
            return Some(r);
        },
        None => {},
    }
    assert(!(complete && w is AddRangedVarI64)) by {
        if complete && w is AddRangedVarI64 {
            assert(add_ranged_i64_json(w->AddRangedVarI64_0) == member_of(j.view(), 1, 0, "AddRangedVarI64"@)->0);
        }
    }
    let attempt = match member(j, 1, 0, "AddVarF32") {
        Some(x) => add_var_f32_from_json(x),
        None => None,
    };
    match attempt {
        Some(a) => {
            let r = ToGuiLoopMessage::AddVarF32(a);
            assert(j.view()->Object_0 =~= to_gui_json(r)->Object_0);
            return Some(r);
        },
        None => {},
    }
    assert(!(complete && w is AddVarF32)) by {
        if complete && w is AddVarF32 {
            assert(add_var_f32_json(w->AddVarF32_0) == member_of(j.view(), 1, 0, "AddVarF32"@)->0);
        }
    }
    let attempt = match member(j, 1, 0, "AddVarF64") {
        Some(x) => add_var_f64_from_json(x),
        None => None,
    };
    match attempt {
        Some(a) => {
            let r = ToGuiLoopMessage::AddVarF64(a);
            assert(j.view()->Object_0 =~= to_gui_json(r)->Object_0);
            return Some(r);
        },
        None => {},
    }
    assert(!(complete && w is AddVarF64)) by {
        if complete && w is AddVarF64 {
            assert(add_var_f64_json(w->AddVarF64_0) == member_of(j.view(), 1, 0, "AddVarF64"@)->0);
        }
    }
    let attempt = match member(j, 1, 0, "AddRangedVarF32") {
        Some(x) => add_ranged_f32_from_json(x),
        None => None,
    };
    match attempt {
        Some(a) => {
            let r = ToGuiLoopMessage::AddRangedVarF32(a);
            assert(j.view()->Object_0 =~= to_gui_json(r)->Object_0);
            return Some(r);
        },
        None => {},
    }
    assert(!(complete && w is AddRangedVarF32)) by {
        if complete && w is AddRangedVarF32 {
            assert(add_ranged_f32_json(w->AddRangedVarF32_0) == member_of(j.view(), 1, 0, "AddRangedVarF32"@)->0);
        }
    }
    let attempt = match member(j, 1, 0, "AddRangedVarF64") {
        Some(x) => add_ranged_f64_from_json(x),
        None => None,
    };
    match attempt {
        Some(a) => {
            let r = ToGuiLoopMessage::AddRangedVarF64(a);
            assert(j.view()->Object_0 =~= to_gui_json(r)->Object_0);
            return Some(r);
        },
        None => {},
    }
    assert(!(complete && w is AddRangedVarF64)) by {
        if complete && w is AddRangedVarF64 {
            assert(add_ranged_f64_json(w->AddRangedVarF64_0) == member_of(j.view(), 1, 0, "AddRangedVarF64"@)->0);
        }
    }
    let attempt = match member(j, 1, 0, "AddWidget2") {
        Some(x) => add_widget2_from_json(x),
        None => None,
    };
    match attempt {
        Some(a) => {
            let r = ToGuiLoopMessage::AddWidget2(a);
            assert(j.view()->Object_0 =~= to_gui_json(r)->Object_0);
            return Some(r);
        },
        None => {},
    }
    assert(!(complete && w is AddWidget2)) by {
        if complete && w is AddWidget2 {
            assert(add_widget2_json(w->AddWidget2_0) == member_of(j.view(), 1, 0, "AddWidget2"@)->0);
        }
    }
    let attempt = match member(j, 1, 0, "AddWidget3") {
        Some(x) => add_widget3_from_json(x),
        None => None,
    };
    match attempt {
        Some(a) => {
            let r = ToGuiLoopMessage::AddWidget3(a);
            assert(j.view()->Object_0 =~= to_gui_json(r)->Object_0);
            return Some(r);
        },
        None => {},
    }
    assert(!(complete && w is AddWidget3)) by {
        if complete && w is AddWidget3 {
            assert(add_widget3_json(w->AddWidget3_0) == member_of(j.view(), 1, 0, "AddWidget3"@)->0);
        }
    }
    let attempt = match member(j, 1, 0, "PlaceEntity3") {
        Some(x) => place_entity_from_json(x),
        None => None,
    };
    match attempt {
        Some(a) => {
            let r = ToGuiLoopMessage::PlaceEntity3(a);
            assert(j.view()->Object_0 =~= to_gui_json(r)->Object_0);
            return Some(r);
        },
        None => {},
    }
    assert(!(complete && w is PlaceEntity3)) by {
        if complete && w is PlaceEntity3 {
            assert(place_entity_json(w->PlaceEntity3_0) == member_of(j.view(), 1, 0, "PlaceEntity3"@)->0);
        }
    }
    let attempt = match member(j, 1, 0, "DeleteComponent") {
        Some(x) => delete_component_from_json(x),
        None => None,
    };
    match attempt {
        Some(a) => {
            let r = ToGuiLoopMessage::DeleteComponent(a);
            assert(j.view()->Object_0 =~= to_gui_json(r)->Object_0);
            return Some(r);
        },
        None => {},
    }
    assert(!(complete && w is DeleteComponent)) by {
        if complete && w is DeleteComponent {
            assert(delete_component_json(w->DeleteComponent_0) == member_of(j.view(), 1, 0, "DeleteComponent"@)->0);
        }
    }
    let attempt = match member(j, 1, 0, "UpdateScenePoseEntity3") {
        Some(x) => update_pose_from_json(x),
        None => None,
    };
    match attempt {
        Some(a) => {
            let r = ToGuiLoopMessage::UpdateScenePoseEntity3(a);
            assert(j.view()->Object_0 =~= to_gui_json(r)->Object_0);
            return Some(r);
        },
        None => {},
    }
    assert(!(complete && w is UpdateScenePoseEntity3)) by {
        if complete && w is UpdateScenePoseEntity3 {
            assert(update_pose_json(w->UpdateScenePoseEntity3_0) == member_of(j.view(), 1, 0, "UpdateScenePoseEntity3"@)->0);
        }
    }
    None
}

/// A message for the control side, tagged with its variant's name.
pub open spec fn from_gui_json(m: FromGuiLoopMessage) -> JsonView {
    match m {
        FromGuiLoopMessage::UpdateEnumStringRepr(a) => obj1("UpdateEnumStringRepr"@, update_enum_json(a)),
        FromGuiLoopMessage::UpdateValueBool(a) => obj1("UpdateValueBool"@, update_bool_json(a)),
        FromGuiLoopMessage::UpdateRangedValueUSize(a) => obj1("UpdateRangedValueUSize"@, update_ranged_usize_json(a)),
        FromGuiLoopMessage::UpdateRangedValueI32(a) => obj1("UpdateRangedValueI32"@, update_ranged_i32_json(a)),
        FromGuiLoopMessage::UpdateRangedValueI64(a) => obj1("UpdateRangedValueI64"@, update_ranged_i64_json(a)),
        FromGuiLoopMessage::UpdateRangedValueF32(a) => obj1("UpdateRangedValueF32"@, update_ranged_f32_json(a)),
        FromGuiLoopMessage::UpdateRangedValueF64(a) => obj1("UpdateRangedValueF64"@, update_ranged_f64_json(a)),
        FromGuiLoopMessage::UpdateButton(a) => obj1("UpdateButton"@, update_button_json(a)),
    }
}

/// The message as JSON, tagged with its variant's name.
pub fn from_gui_to_json(m: &FromGuiLoopMessage) -> (r: Json)
    ensures
        r.view() == from_gui_json(*m),
{
    match m {
        FromGuiLoopMessage::UpdateEnumStringRepr(a) => mk_obj1("UpdateEnumStringRepr", update_enum_to_json(a)),
        FromGuiLoopMessage::UpdateValueBool(a) => mk_obj1("UpdateValueBool", update_bool_to_json(a)),
        FromGuiLoopMessage::UpdateRangedValueUSize(a) => mk_obj1("UpdateRangedValueUSize", update_ranged_usize_to_json(a)),
        FromGuiLoopMessage::UpdateRangedValueI32(a) => mk_obj1("UpdateRangedValueI32", update_ranged_i32_to_json(a)),
        FromGuiLoopMessage::UpdateRangedValueI64(a) => mk_obj1("UpdateRangedValueI64", update_ranged_i64_to_json(a)),
        FromGuiLoopMessage::UpdateRangedValueF32(a) => mk_obj1("UpdateRangedValueF32", update_ranged_f32_to_json(a)),
        FromGuiLoopMessage::UpdateRangedValueF64(a) => mk_obj1("UpdateRangedValueF64", update_ranged_f64_to_json(a)),
        FromGuiLoopMessage::UpdateButton(a) => mk_obj1("UpdateButton", update_button_to_json(a)),
    }
}

/// The message that `j` encodes, if any.
pub fn from_gui_from_json(j: &Json) -> (r: Option<FromGuiLoopMessage>)
    ensures
        r is Some <==> exists|x: FromGuiLoopMessage| #[trigger] from_gui_json(x) == j.view(),
        r is Some ==> from_gui_json(r->0) == j.view(),
{
    let ghost complete = exists|x: FromGuiLoopMessage| #[trigger] from_gui_json(x) == j.view();
    let ghost w = choose|x: FromGuiLoopMessage| #[trigger] from_gui_json(x) == j.view();
    let attempt = match member(j, 1, 0, "UpdateEnumStringRepr") {
        Some(x) => update_enum_from_json(x),
        None => None,
    };
    match attempt {
        Some(a) => {
            let r = FromGuiLoopMessage::UpdateEnumStringRepr(a);
            assert(j.view()->Object_0 =~= from_gui_json(r)->Object_0);
            return Some(r);
        },
        None => {},
    }
    assert(!(complete && w is UpdateEnumStringRepr)) by {
        if complete && w is UpdateEnumStringRepr {
            assert(update_enum_json(w->UpdateEnumStringRepr_0) == member_of(j.view(), 1, 0, "UpdateEnumStringRepr"@)->0);
        }
    }
    let attempt = match member(j, 1, 0, "UpdateValueBool") {
        Some(x) => update_bool_from_json(x),
        None => None,
    };
    match attempt {
        Some(a) => {
            let r = FromGuiLoopMessage::UpdateValueBool(a);
            assert(j.view()->Object_0 =~= from_gui_json(r)->Object_0);
            return Some(r);
        },
        None => {},
    }
    assert(!(complete && w is UpdateValueBool)) by {
        if complete && w is UpdateValueBool {
            assert(update_bool_json(w->UpdateValueBool_0) == member_of(j.view(), 1, 0, "UpdateValueBool"@)->0);
        }
    }
    let attempt = match member(j, 1, 0, "UpdateRangedValueUSize") {
        Some(x) => update_ranged_usize_from_json(x),
        None => None,
    };
    match attempt {
        Some(a) => {
            let r = FromGuiLoopMessage::UpdateRangedValueUSize(a);
            assert(j.view()->Object_0 =~= from_gui_json(r)->Object_0);
            return Some(r);
        },
        None => {},
    }
    assert(!(complete && w is UpdateRangedValueUSize)) by {
        if complete && w is UpdateRangedValueUSize {
            assert(update_ranged_usize_json(w->UpdateRangedValueUSize_0) == member_of(j.view(), 1, 0, "UpdateRangedValueUSize"@)->0);
        }
    }
    let attempt = match member(j, 1, 0, "UpdateRangedValueI32") {
        Some(x) => update_ranged_i32_from_json(x),
        None => None,
    };
    match attempt {
        Some(a) => {
            let r = FromGuiLoopMessage::UpdateRangedValueI32(a);
            assert(j.view()->Object_0 =~= from_gui_json(r)->Object_0);
            return Some(r);
        },
        None => {},
    }
    assert(!(complete && w is UpdateRangedValueI32)) by {
        if complete && w is UpdateRangedValueI32 {
            assert(update_ranged_i32_json(w->UpdateRangedValueI32_0) == member_of(j.view(), 1, 0, "UpdateRangedValueI32"@)->0);
        }
    }
    let attempt = match member(j, 1, 0, "UpdateRangedValueI64") {
        Some(x) => update_ranged_i64_from_json(x),
        None => None,
    };
    match attempt {
        Some(a) => {
            let r = FromGuiLoopMessage::UpdateRangedValueI64(a);
            assert(j.view()->Object_0 =~= from_gui_json(r)->Object_0);
            return Some(r);
        },
        None => {},
    }
    assert(!(complete && w is UpdateRangedValueI64)) by {
        if complete && w is UpdateRangedValueI64 {
            assert(update_ranged_i64_json(w->UpdateRangedValueI64_0) == member_of(j.view(), 1, 0, "UpdateRangedValueI64"@)->0);
        }
    }
    let attempt = match member(j, 1, 0, "UpdateRangedValueF32") {
        Some(x) => update_ranged_f32_from_json(x),
        None => None,
    };
    match attempt {
        Some(a) => {
            let r = FromGuiLoopMessage::UpdateRangedValueF32(a);
            assert(j.view()->Object_0 =~= from_gui_json(r)->Object_0);
            return Some(r);
        },
        None => {},
    }
    assert(!(complete && w is UpdateRangedValueF32)) by {
        if complete && w is UpdateRangedValueF32 {
            assert(update_ranged_f32_json(w->UpdateRangedValueF32_0) == member_of(j.view(), 1, 0, "UpdateRangedValueF32"@)->0);
        }
    }
    let attempt = match member(j, 1, 0, "UpdateRangedValueF64") {
        Some(x) => update_ranged_f64_from_json(x),
        None => None,
    };
    match attempt {
        Some(a) => {
            let r = FromGuiLoopMessage::UpdateRangedValueF64(a);
            assert(j.view()->Object_0 =~= from_gui_json(r)->Object_0);
            return Some(r);
        },
        None => {},
    }
    assert(!(complete && w is UpdateRangedValueF64)) by {
        if complete && w is UpdateRangedValueF64 {
            assert(update_ranged_f64_json(w->UpdateRangedValueF64_0) == member_of(j.view(), 1, 0, "UpdateRangedValueF64"@)->0);
        }
    }
    let attempt = match member(j, 1, 0, "UpdateButton") {
        Some(x) => update_button_from_json(x),
        None => None,
    };
    match attempt {
        Some(a) => {
            let r = FromGuiLoopMessage::UpdateButton(a);
            assert(j.view()->Object_0 =~= from_gui_json(r)->Object_0);
            return Some(r);
        },
        None => {},
    }
    assert(!(complete && w is UpdateButton)) by {
        if complete && w is UpdateButton {
            assert(update_button_json(w->UpdateButton_0) == member_of(j.view(), 1, 0, "UpdateButton"@)->0);
        }
    }
    None
}

/// A batch for the presentation side, oldest message first.
pub open spec fn to_gui_batch_json(ms: Seq<ToGuiLoopMessage>) -> JsonView {
    JsonView::Array(Seq::new(ms.len(), |i: int| to_gui_json(ms[i])))
}

/// The batch as a JSON array, oldest message first.
pub fn encode_to_gui(ms: &Vec<ToGuiLoopMessage>) -> (r: Json)
    ensures
        r.view() == to_gui_batch_json(ms@),
{
    let mut out: Vec<Json> = Vec::new();
    let mut i: usize = 0;
    while i < ms.len()
        invariant
            0 <= i <= ms@.len(),
            out@.len() == i,
            forall|k: int| 0 <= k < i ==> (#[trigger] out@[k]).view() == to_gui_json(ms@[k]),
        decreases ms@.len() - i,
    {
        out.push(to_gui_to_json(&ms[i]));
        i = i + 1;
    }
    let r = Json::Array(out);
    assert(r.view()->Array_0 =~= to_gui_batch_json(ms@)->Array_0);
    r
}

/// The batch that `j` encodes, if any: exactly the encodings of batches are accepted.
pub fn decode_to_gui(j: &Json) -> (r: Option<Vec<ToGuiLoopMessage>>)
    ensures
        r is Some <==> exists|ms: Seq<ToGuiLoopMessage>| #[trigger] to_gui_batch_json(ms) == j.view(),
        r is Some ==> to_gui_batch_json(r->0@) == j.view(),
{
    let ghost complete = exists|ms: Seq<ToGuiLoopMessage>| #[trigger] to_gui_batch_json(ms) == j.view();
    let ghost w = choose|ms: Seq<ToGuiLoopMessage>| #[trigger] to_gui_batch_json(ms) == j.view();
    match j {
        Json::Array(items) => {
            let mut out: Vec<ToGuiLoopMessage> = Vec::new();
            let mut i: usize = 0;
            assert forall|k: int| 0 <= k < items@.len() implies j.view()->Array_0[k] == (#[trigger] items@[k]).view() by {
            }
            while i < items.len()
                invariant
                    0 <= i <= items@.len(),
                    out@.len() == i,
                    j.view() is Array,
                    j.view()->Array_0.len() == items@.len(),
                    forall|k: int| 0 <= k < items@.len() ==> j.view()->Array_0[k] == (#[trigger] items@[k]).view(),
                    forall|k: int| 0 <= k < i ==> (#[trigger] items@[k]).view() == to_gui_json(out@[k]),
                    complete == exists|ms: Seq<ToGuiLoopMessage>| #[trigger] to_gui_batch_json(ms) == j.view(),
                    complete ==> to_gui_batch_json(w) == j.view(),
                decreases items@.len() - i,
            {
                match to_gui_from_json(&items[i]) {
                    Some(m) => {
                        out.push(m);
                    },
                    None => {
                        proof {
                            if complete {
                                assert(to_gui_json(w[i as int]) == items@[i as int].view());
                            }
                        }
                        return None;
                    },
                }
                i = i + 1;
            }
            assert(to_gui_batch_json(out@)->Array_0 =~= j.view()->Array_0);
            Some(out)
        },
        _ => None,
    }
}

/// A batch read back from its own JSON form: decoding accepts it, and whatever it yields
/// has that same JSON form and is, message by message, the same message: same variant,
/// same labels, numbers, strings, vertices and poses, in the same order.
pub proof fn lemma_to_gui_round_trip(ms: Seq<ToGuiLoopMessage>, back: Seq<ToGuiLoopMessage>)
    requires
        to_gui_batch_json(back) == to_gui_batch_json(ms),
    ensures
        exists|x: Seq<ToGuiLoopMessage>| #[trigger] to_gui_batch_json(x) == to_gui_batch_json(ms),
        back.len() == ms.len(),
        forall|i: int| 0 <= i < ms.len() ==> #[trigger] to_gui_json(back[i]) == to_gui_json(ms[i]),
        forall|i: int| 0 <= i < ms.len() ==> #[trigger] to_gui_same(back[i], ms[i]),
{
    assert(to_gui_batch_json(back)->Array_0.len() == back.len());
    assert forall|i: int| 0 <= i < ms.len() implies #[trigger] to_gui_json(back[i]) == to_gui_json(ms[i]) by {
        assert(to_gui_batch_json(back)->Array_0[i] == to_gui_json(back[i]));
        assert(to_gui_batch_json(ms)->Array_0[i] == to_gui_json(ms[i]));
    }
    assert forall|i: int| 0 <= i < ms.len() implies #[trigger] to_gui_same(back[i], ms[i]) by {
        assert(to_gui_json(back[i]) == to_gui_json(ms[i]));
        lemma_to_gui_injective(back[i], ms[i]);
    }
}

/// A batch for the control side, oldest message first.
pub open spec fn from_gui_batch_json(ms: Seq<FromGuiLoopMessage>) -> JsonView {
    JsonView::Array(Seq::new(ms.len(), |i: int| from_gui_json(ms[i])))
}

/// The batch as a JSON array, oldest message first.
pub fn encode_from_gui(ms: &Vec<FromGuiLoopMessage>) -> (r: Json)
    ensures
        r.view() == from_gui_batch_json(ms@),
{
    let mut out: Vec<Json> = Vec::new();
    let mut i: usize = 0;
    while i < ms.len()
        invariant
            0 <= i <= ms@.len(),
            out@.len() == i,
            forall|k: int| 0 <= k < i ==> (#[trigger] out@[k]).view() == from_gui_json(ms@[k]),
        decreases ms@.len() - i,
    {
        out.push(from_gui_to_json(&ms[i]));
        i = i + 1;
    }
    let r = Json::Array(out);
    assert(r.view()->Array_0 =~= from_gui_batch_json(ms@)->Array_0);
    r
}

/// The batch that `j` encodes, if any: exactly the encodings of batches are accepted.
pub fn decode_from_gui(j: &Json) -> (r: Option<Vec<FromGuiLoopMessage>>)
    ensures
        r is Some <==> exists|ms: Seq<FromGuiLoopMessage>| #[trigger] from_gui_batch_json(ms) == j.view(),
        r is Some ==> from_gui_batch_json(r->0@) == j.view(),
{
    let ghost complete = exists|ms: Seq<FromGuiLoopMessage>| #[trigger] from_gui_batch_json(ms) == j.view();
    let ghost w = choose|ms: Seq<FromGuiLoopMessage>| #[trigger] from_gui_batch_json(ms) == j.view();
    match j {
        Json::Array(items) => {
            let mut out: Vec<FromGuiLoopMessage> = Vec::new();
            let mut i: usize = 0;
            assert forall|k: int| 0 <= k < items@.len() implies j.view()->Array_0[k] == (#[trigger] items@[k]).view() by {
            }
            while i < items.len()
                invariant
                    0 <= i <= items@.len(),
                    out@.len() == i,
                    j.view() is Array,
                    j.view()->Array_0.len() == items@.len(),
                    forall|k: int| 0 <= k < items@.len() ==> j.view()->Array_0[k] == (#[trigger] items@[k]).view(),
                    forall|k: int| 0 <= k < i ==> (#[trigger] items@[k]).view() == from_gui_json(out@[k]),
                    complete == exists|ms: Seq<FromGuiLoopMessage>| #[trigger] from_gui_batch_json(ms) == j.view(),
                    complete ==> from_gui_batch_json(w) == j.view(),
                decreases items@.len() - i,
            {
                match from_gui_from_json(&items[i]) {
                    Some(m) => {
                        out.push(m);
                    },
                    None => {
                        proof {
                            if complete {
                                assert(from_gui_json(w[i as int]) == items@[i as int].view());
                            }
                        }
                        return None;
                    },
                }
                i = i + 1;
            }
            assert(from_gui_batch_json(out@)->Array_0 =~= j.view()->Array_0);
            Some(out)
        },
        _ => None,
    }
}

/// A batch read back from its own JSON form: decoding accepts it, and whatever it yields
/// has that same JSON form and is, message by message, the same message: same variant,
/// same labels, numbers, strings, vertices and poses, in the same order.
pub proof fn lemma_from_gui_round_trip(ms: Seq<FromGuiLoopMessage>, back: Seq<FromGuiLoopMessage>)
    requires
        from_gui_batch_json(back) == from_gui_batch_json(ms),
    ensures
        exists|x: Seq<FromGuiLoopMessage>| #[trigger] from_gui_batch_json(x) == from_gui_batch_json(ms),
        back.len() == ms.len(),
        forall|i: int| 0 <= i < ms.len() ==> #[trigger] from_gui_json(back[i]) == from_gui_json(ms[i]),
        forall|i: int| 0 <= i < ms.len() ==> #[trigger] from_gui_same(back[i], ms[i]),
{
    assert(from_gui_batch_json(back)->Array_0.len() == back.len());
    assert forall|i: int| 0 <= i < ms.len() implies #[trigger] from_gui_json(back[i]) == from_gui_json(ms[i]) by {
        assert(from_gui_batch_json(back)->Array_0[i] == from_gui_json(back[i]));
        assert(from_gui_batch_json(ms)->Array_0[i] == from_gui_json(ms[i]));
    }
    assert forall|i: int| 0 <= i < ms.len() implies #[trigger] from_gui_same(back[i], ms[i]) by {
        assert(from_gui_json(back[i]) == from_gui_json(ms[i]));
        lemma_from_gui_injective(back[i], ms[i]);
    }
}


/// Two number arrays with the same JSON form hold the same numbers.
pub proof fn lemma_nums_injective(a: Seq<int>, b: Seq<int>)
    requires
        nums_json(a) == nums_json(b),
    ensures
        a == b,
{
    assert(nums_json(a)->Array_0.len() == a.len());
    assert(nums_json(b)->Array_0.len() == b.len());
    assert forall|i: int| 0 <= i < a.len() implies a[i] == b[i] by {
        assert(nums_json(a)->Array_0[i] == JsonView::Num(a[i]));
        assert(nums_json(b)->Array_0[i] == JsonView::Num(b[i]));
    }
    assert(a =~= b);
}

/// Two arrays of number arrays with the same JSON form hold the same numbers.
pub proof fn lemma_rows_injective(a: Seq<Seq<int>>, b: Seq<Seq<int>>)
    requires
        rows_json(a) == rows_json(b),
    ensures
        a == b,
{
    assert(rows_json(a)->Array_0.len() == a.len());
    assert(rows_json(b)->Array_0.len() == b.len());
    assert forall|i: int| 0 <= i < a.len() implies a[i] == b[i] by {
        assert(rows_json(a)->Array_0[i] == nums_json(a[i]));
        assert(rows_json(b)->Array_0[i] == nums_json(b[i]));
        lemma_nums_injective(a[i], b[i]);
    }
    assert(a =~= b);
}

/// The characters of each string.
pub open spec fn texts(v: Seq<String>) -> Seq<Seq<char>> {
    v.map_values(|x: String| x@)
}

/// Two string arrays with the same JSON form hold the same strings.
pub proof fn lemma_strs_injective(a: Seq<String>, b: Seq<String>)
    requires
        strs_json(a) == strs_json(b),
    ensures
        texts(a) == texts(b),
{
    assert(strs_json(a)->Array_0.len() == a.len());
    assert(strs_json(b)->Array_0.len() == b.len());
    assert forall|i: int| 0 <= i < a.len() implies texts(a)[i] == texts(b)[i] by {
        assert(strs_json(a)->Array_0[i] == JsonView::Str(a[i]@));
        assert(strs_json(b)->Array_0[i] == JsonView::Str(b[i]@));
    }
    assert(texts(a) =~= texts(b));
}

proof fn lemma_u32s_injective(a: Seq<u32>, b: Seq<u32>)
    requires
        u32s(a) == u32s(b),
    ensures
        a == b,
{
    assert(u32s(a).len() == a.len() && u32s(b).len() == b.len());
    assert forall|i: int| 0 <= i < a.len() implies a[i] == b[i] by {
        assert(u32s(a)[i] == u32s(b)[i]);
        assert(u32s(a)[i] == a[i] as int && u32s(b)[i] == b[i] as int);
    }
    assert(a =~= b);
}

proof fn lemma_u8s_injective(a: Seq<u8>, b: Seq<u8>)
    requires
        u8s(a) == u8s(b),
    ensures
        a == b,
{
    assert(u8s(a).len() == a.len() && u8s(b).len() == b.len());
    assert forall|i: int| 0 <= i < a.len() implies a[i] == b[i] by {
        assert(u8s(a)[i] == u8s(b)[i]);
        assert(u8s(a)[i] == a[i] as int && u8s(b)[i] == b[i] as int);
    }
    assert(a =~= b);
}

/// Field by field, as sequences of numbers.
pub open spec fn pose_same(a: Pose, b: Pose) -> bool {
    a.rotation@ == b.rotation@ && a.translation@ == b.translation@
}

pub proof fn lemma_pose_injective(a: Pose, b: Pose)
    requires
        pose_json(a) == pose_json(b),
    ensures
        pose_same(a, b),
{
    assert(pose_json(a)->Object_0[0].1 == pose_json(b)->Object_0[0].1);
    assert(pose_json(a)->Object_0[1].1 == pose_json(b)->Object_0[1].1);
    lemma_nums_injective(u32s(a.rotation@), u32s(b.rotation@));
    lemma_nums_injective(u32s(a.translation@), u32s(b.translation@));
    lemma_u32s_injective(a.rotation@, b.rotation@);
    lemma_u32s_injective(a.translation@, b.translation@);
}

/// Field by field.
pub open spec fn image_same(a: ImageRgba8, b: ImageRgba8) -> bool {
    a.bytes@ == b.bytes@ && a.width == b.width && a.height == b.height
}

pub proof fn lemma_image_injective(a: ImageRgba8, b: ImageRgba8)
    requires
        image_json(a) == image_json(b),
    ensures
        image_same(a, b),
{
    assert(image_json(a)->Object_0[0].1 == image_json(b)->Object_0[0].1);
    assert(image_json(a)->Object_0[1].1 == image_json(b)->Object_0[1].1);
    assert(image_json(a)->Object_0[2].1 == image_json(b)->Object_0[2].1);
    lemma_nums_injective(u8s(a.bytes@), u8s(b.bytes@));
    lemma_u8s_injective(a.bytes@, b.bytes@);
}

/// Same variant, and the same numbers in every vertex and face.
pub open spec fn entity_same(a: Entity3, b: Entity3) -> bool {
    match (a, b) {
        (Entity3::Mesh(x), Entity3::Mesh(y)) => {
            &&& i16_rows(x.faces.indices@) == i16_rows(y.faces.indices@)
            &&& match (x.vertices, y.vertices) {
                (MeshVertices::PositionColor(p), MeshVertices::PositionColor(q)) => u32_rows(p.vertices@)
                    == u32_rows(q.vertices@),
                (MeshVertices::PositionUvAndTexture(p), MeshVertices::PositionUvAndTexture(q)) => u32_rows(
                    p.vertices.vertices@,
                ) == u32_rows(q.vertices.vertices@),
                _ => false,
            }
        },
        (Entity3::LineSegments(x), Entity3::LineSegments(y)) => {
            &&& i16_rows(x.indices@) == i16_rows(y.indices@)
            &&& u32_rows(x.vertices.vertices@) == u32_rows(y.vertices.vertices@)
        },
        _ => false,
    }
}

pub proof fn lemma_entity_injective(a: Entity3, b: Entity3)
    requires
        entity_json(a) == entity_json(b),
    ensures
        entity_same(a, b),
{
    reveal_strlit("Mesh");
    reveal_strlit("LineSegments");
    reveal_strlit("PositionColor");
    reveal_strlit("PositionUvAndTexture");
    assert(entity_json(a)->Object_0[0] == entity_json(b)->Object_0[0]);
    assert("Mesh"@.len() != "LineSegments"@.len());
    assert("PositionColor"@.len() != "PositionUvAndTexture"@.len());
    match (a, b) {
        (Entity3::Mesh(x), Entity3::Mesh(y)) => {
            assert(mesh_json(x) == mesh_json(y));
            assert(mesh_json(x)->Object_0[0].1 == mesh_json(y)->Object_0[0].1);
            assert(mesh_json(x)->Object_0[1].1 == mesh_json(y)->Object_0[1].1);
            assert(faces_json(x.faces)->Object_0[0].1 == faces_json(y.faces)->Object_0[0].1);
            lemma_rows_injective(i16_rows(x.faces.indices@), i16_rows(y.faces.indices@));
            let (mx, my) = (mesh_vertices_json(x.vertices), mesh_vertices_json(y.vertices));
            assert(mx->Object_0[0] == my->Object_0[0]);
            match (x.vertices, y.vertices) {
                (MeshVertices::PositionColor(p), MeshVertices::PositionColor(q)) => {
                    assert(color_vertices_json(p)->Object_0[0].1 == color_vertices_json(q)->Object_0[0].1);
                    lemma_rows_injective(u32_rows(p.vertices@), u32_rows(q.vertices@));
                },
                (MeshVertices::PositionUvAndTexture(p), MeshVertices::PositionUvAndTexture(q)) => {
                    assert(uv_and_texture_json(p)->Object_0[1].1 == uv_and_texture_json(q)->Object_0[1].1);
                    assert(uv_vertices_json(p.vertices)->Object_0[0].1 == uv_vertices_json(q.vertices)->Object_0[0].1);
                    lemma_rows_injective(u32_rows(p.vertices.vertices@), u32_rows(q.vertices.vertices@));
                },
                (MeshVertices::PositionColor(_), _) => {
                    assert(mx->Object_0[0].0 == "PositionColor"@);
                    assert(my->Object_0[0].0 == "PositionUvAndTexture"@);
                },
                _ => {
                    assert(mx->Object_0[0].0 == "PositionUvAndTexture"@);
                    assert(my->Object_0[0].0 == "PositionColor"@);
                },
            }
        },
        (Entity3::LineSegments(x), Entity3::LineSegments(y)) => {
            assert(segments_json(x) == segments_json(y));
            assert(segments_json(x)->Object_0[0].1 == segments_json(y)->Object_0[0].1);
            assert(segments_json(x)->Object_0[1].1 == segments_json(y)->Object_0[1].1);
            assert(color_vertices_json(x.vertices)->Object_0[0].1 == color_vertices_json(y.vertices)->Object_0[0].1);
            lemma_rows_injective(i16_rows(x.indices@), i16_rows(y.indices@));
            lemma_rows_injective(u32_rows(x.vertices.vertices@), u32_rows(y.vertices.vertices@));
        },
        (Entity3::Mesh(_), _) => {
            assert(entity_json(a)->Object_0[0].0 == "Mesh"@);
            assert(entity_json(b)->Object_0[0].0 == "LineSegments"@);
        },
        _ => {
            assert(entity_json(a)->Object_0[0].0 == "LineSegments"@);
            assert(entity_json(b)->Object_0[0].0 == "Mesh"@);
        },
    }
}

/// Field by field.
pub open spec fn named_entity_same(a: NamedEntity3, b: NamedEntity3) -> bool {
    a.label@ == b.label@ && entity_same(a.entity, b.entity) && pose_same(a.scene_pose_entity, b.scene_pose_entity)
}

pub proof fn lemma_named_entity_injective(a: NamedEntity3, b: NamedEntity3)
    requires
        named_entity_json(a) == named_entity_json(b),
    ensures
        named_entity_same(a, b),
{
    assert(named_entity_json(a)->Object_0[0].1 == named_entity_json(b)->Object_0[0].1);
    assert(named_entity_json(a)->Object_0[1].1 == named_entity_json(b)->Object_0[1].1);
    assert(named_entity_json(a)->Object_0[2].1 == named_entity_json(b)->Object_0[2].1);
    lemma_entity_injective(a.entity, b.entity);
    lemma_pose_injective(a.scene_pose_entity, b.scene_pose_entity);
}

/// What tells the variant names apart: their length and two of their last characters.
pub open spec fn tag_fingerprint(t: Seq<char>) -> (int, char, char) {
    (t.len() as int, t[t.len() - 1], t[t.len() - 3])
}

proof fn lemma_obj1_member(k: Seq<char>, v: JsonView)
    ensures
        obj1(k, v)->Object_0.len() == 1,
        obj1(k, v)->Object_0[0] == (k, v),
{
    assert(seq![(k, v)][0] == (k, v));
}

/// Field by field.
pub open spec fn add_enum_same(a: AddEnumStringRepr, b: AddEnumStringRepr) -> bool {
    (a.label@ == b.label@) && (a.value@ == b.value@) && (texts(a.values@) == texts(b.values@))
}

pub proof fn lemma_add_enum_injective(a: AddEnumStringRepr, b: AddEnumStringRepr)
    requires
        add_enum_json(a) == add_enum_json(b),
    ensures
        add_enum_same(a, b),
{
    assert(add_enum_json(a)->Object_0[0].1 == add_enum_json(b)->Object_0[0].1);
        assert(add_enum_json(a)->Object_0[1].1 == add_enum_json(b)->Object_0[1].1);
        assert(add_enum_json(a)->Object_0[2].1 == add_enum_json(b)->Object_0[2].1);
        lemma_strs_injective(a.values@, b.values@);
}

/// Field by field.
pub open spec fn add_button_same(a: AddButton, b: AddButton) -> bool {
    (a.label@ == b.label@)
}

pub proof fn lemma_add_button_injective(a: AddButton, b: AddButton)
    requires
        add_button_json(a) == add_button_json(b),
    ensures
        add_button_same(a, b),
{
    lemma_obj1_member("label"@, JsonView::Str(a.label@));
        lemma_obj1_member("label"@, JsonView::Str(b.label@));
        assert(add_button_json(a)->Object_0[0].1 == add_button_json(b)->Object_0[0].1);
}

/// Field by field.
pub open spec fn add_var_bool_same(a: AddVar<bool>, b: AddVar<bool>) -> bool {
    (a.label@ == b.label@) && (a.value == b.value)
}

pub proof fn lemma_add_var_bool_injective(a: AddVar<bool>, b: AddVar<bool>)
    requires
        add_var_bool_json(a) == add_var_bool_json(b),
    ensures
        add_var_bool_same(a, b),
{
    assert(add_var_bool_json(a)->Object_0[0].1 == add_var_bool_json(b)->Object_0[0].1);
        assert(add_var_bool_json(a)->Object_0[1].1 == add_var_bool_json(b)->Object_0[1].1);
}

/// Field by field.
pub open spec fn add_var_usize_same(a: AddVar<usize>, b: AddVar<usize>) -> bool {
    (a.label@ == b.label@) && (a.value == b.value)
}

pub proof fn lemma_add_var_usize_injective(a: AddVar<usize>, b: AddVar<usize>)
    requires
        add_var_usize_json(a) == add_var_usize_json(b),
    ensures
        add_var_usize_same(a, b),
{
    assert(add_var_usize_json(a)->Object_0[0].1 == add_var_usize_json(b)->Object_0[0].1);
        assert(add_var_usize_json(a)->Object_0[1].1 == add_var_usize_json(b)->Object_0[1].1);
}

/// Field by field.
pub open spec fn add_var_i32_same(a: AddVar<i32>, b: AddVar<i32>) -> bool {
    (a.label@ == b.label@) && (a.value == b.value)
}

pub proof fn lemma_add_var_i32_injective(a: AddVar<i32>, b: AddVar<i32>)
    requires
        add_var_i32_json(a) == add_var_i32_json(b),
    ensures
        add_var_i32_same(a, b),
{
    assert(add_var_i32_json(a)->Object_0[0].1 == add_var_i32_json(b)->Object_0[0].1);
        assert(add_var_i32_json(a)->Object_0[1].1 == add_var_i32_json(b)->Object_0[1].1);
}

/// Field by field.
pub open spec fn add_var_i64_same(a: AddVar<i64>, b: AddVar<i64>) -> bool {
    (a.label@ == b.label@) && (a.value == b.value)
}

pub proof fn lemma_add_var_i64_injective(a: AddVar<i64>, b: AddVar<i64>)
    requires
        add_var_i64_json(a) == add_var_i64_json(b),
    ensures
        add_var_i64_same(a, b),
{
    assert(add_var_i64_json(a)->Object_0[0].1 == add_var_i64_json(b)->Object_0[0].1);
        assert(add_var_i64_json(a)->Object_0[1].1 == add_var_i64_json(b)->Object_0[1].1);
}

/// Field by field.
pub open spec fn add_ranged_usize_same(a: AddRangedVar<usize>, b: AddRangedVar<usize>) -> bool {
    (a.label@ == b.label@) && (a.min == b.min && a.max == b.max) && (a.value == b.value)
}

pub proof fn lemma_add_ranged_usize_injective(a: AddRangedVar<usize>, b: AddRangedVar<usize>)
    requires
        add_ranged_usize_json(a) == add_ranged_usize_json(b),
    ensures
        add_ranged_usize_same(a, b),
{
    assert(add_ranged_usize_json(a)->Object_0[0].1 == add_ranged_usize_json(b)->Object_0[0].1);
        assert(add_ranged_usize_json(a)->Object_0[1].1 == add_ranged_usize_json(b)->Object_0[1].1);
        lemma_nums_injective(seq![a.min as int, a.max as int], seq![b.min as int, b.max as int]);
        assert(seq![a.min as int, a.max as int][0] == seq![b.min as int, b.max as int][0] && seq![a.min as int, a.max as int][1] == seq![b.min as int, b.max as int][1]);
        assert(add_ranged_usize_json(a)->Object_0[2].1 == add_ranged_usize_json(b)->Object_0[2].1);
}

/// Field by field.
pub open spec fn add_ranged_i32_same(a: AddRangedVar<i32>, b: AddRangedVar<i32>) -> bool {
    (a.label@ == b.label@) && (a.min == b.min && a.max == b.max) && (a.value == b.value)
}

pub proof fn lemma_add_ranged_i32_injective(a: AddRangedVar<i32>, b: AddRangedVar<i32>)
    requires
        add_ranged_i32_json(a) == add_ranged_i32_json(b),
    ensures
        add_ranged_i32_same(a, b),
{
    assert(add_ranged_i32_json(a)->Object_0[0].1 == add_ranged_i32_json(b)->Object_0[0].1);
        assert(add_ranged_i32_json(a)->Object_0[1].1 == add_ranged_i32_json(b)->Object_0[1].1);
        lemma_nums_injective(seq![a.min as int, a.max as int], seq![b.min as int, b.max as int]);
        assert(seq![a.min as int, a.max as int][0] == seq![b.min as int, b.max as int][0] && seq![a.min as int, a.max as int][1] == seq![b.min as int, b.max as int][1]);
        assert(add_ranged_i32_json(a)->Object_0[2].1 == add_ranged_i32_json(b)->Object_0[2].1);
}

/// Field by field.
pub open spec fn add_ranged_i64_same(a: AddRangedVar<i64>, b: AddRangedVar<i64>) -> bool {
    (a.label@ == b.label@) && (a.min == b.min && a.max == b.max) && (a.value == b.value)
}

pub proof fn lemma_add_ranged_i64_injective(a: AddRangedVar<i64>, b: AddRangedVar<i64>)
    requires
        add_ranged_i64_json(a) == add_ranged_i64_json(b),
    ensures
        add_ranged_i64_same(a, b),
{
    assert(add_ranged_i64_json(a)->Object_0[0].1 == add_ranged_i64_json(b)->Object_0[0].1);
        assert(add_ranged_i64_json(a)->Object_0[1].1 == add_ranged_i64_json(b)->Object_0[1].1);
        lemma_nums_injective(seq![a.min as int, a.max as int], seq![b.min as int, b.max as int]);
        assert(seq![a.min as int, a.max as int][0] == seq![b.min as int, b.max as int][0] && seq![a.min as int, a.max as int][1] == seq![b.min as int, b.max as int][1]);
        assert(add_ranged_i64_json(a)->Object_0[2].1 == add_ranged_i64_json(b)->Object_0[2].1);
}

/// Field by field.
pub open spec fn add_var_f32_same(a: AddVar<F32Bits>, b: AddVar<F32Bits>) -> bool {
    (a.label@ == b.label@) && (a.value == b.value)
}

pub proof fn lemma_add_var_f32_injective(a: AddVar<F32Bits>, b: AddVar<F32Bits>)
    requires
        add_var_f32_json(a) == add_var_f32_json(b),
    ensures
        add_var_f32_same(a, b),
{
    assert(add_var_f32_json(a)->Object_0[0].1 == add_var_f32_json(b)->Object_0[0].1);
        assert(add_var_f32_json(a)->Object_0[1].1 == add_var_f32_json(b)->Object_0[1].1);
}

/// Field by field.
pub open spec fn add_var_f64_same(a: AddVar<F64Bits>, b: AddVar<F64Bits>) -> bool {
    (a.label@ == b.label@) && (a.value == b.value)
}

pub proof fn lemma_add_var_f64_injective(a: AddVar<F64Bits>, b: AddVar<F64Bits>)
    requires
        add_var_f64_json(a) == add_var_f64_json(b),
    ensures
        add_var_f64_same(a, b),
{
    assert(add_var_f64_json(a)->Object_0[0].1 == add_var_f64_json(b)->Object_0[0].1);
        assert(add_var_f64_json(a)->Object_0[1].1 == add_var_f64_json(b)->Object_0[1].1);
}

/// Field by field.
pub open spec fn add_ranged_f32_same(a: AddRangedVar<F32Bits>, b: AddRangedVar<F32Bits>) -> bool {
    (a.label@ == b.label@) && (a.min == b.min && a.max == b.max) && (a.value == b.value)
}

pub proof fn lemma_add_ranged_f32_injective(a: AddRangedVar<F32Bits>, b: AddRangedVar<F32Bits>)
    requires
        add_ranged_f32_json(a) == add_ranged_f32_json(b),
    ensures
        add_ranged_f32_same(a, b),
{
    assert(add_ranged_f32_json(a)->Object_0[0].1 == add_ranged_f32_json(b)->Object_0[0].1);
        assert(add_ranged_f32_json(a)->Object_0[1].1 == add_ranged_f32_json(b)->Object_0[1].1);
        lemma_nums_injective(seq![a.min.0 as int, a.max.0 as int], seq![b.min.0 as int, b.max.0 as int]);
        assert(seq![a.min.0 as int, a.max.0 as int][0] == seq![b.min.0 as int, b.max.0 as int][0] && seq![a.min.0 as int, a.max.0 as int][1] == seq![b.min.0 as int, b.max.0 as int][1]);
        assert(add_ranged_f32_json(a)->Object_0[2].1 == add_ranged_f32_json(b)->Object_0[2].1);
}

/// Field by field.
pub open spec fn add_ranged_f64_same(a: AddRangedVar<F64Bits>, b: AddRangedVar<F64Bits>) -> bool {
    (a.label@ == b.label@) && (a.min == b.min && a.max == b.max) && (a.value == b.value)
}

pub proof fn lemma_add_ranged_f64_injective(a: AddRangedVar<F64Bits>, b: AddRangedVar<F64Bits>)
    requires
        add_ranged_f64_json(a) == add_ranged_f64_json(b),
    ensures
        add_ranged_f64_same(a, b),
{
    assert(add_ranged_f64_json(a)->Object_0[0].1 == add_ranged_f64_json(b)->Object_0[0].1);
        assert(add_ranged_f64_json(a)->Object_0[1].1 == add_ranged_f64_json(b)->Object_0[1].1);
        lemma_nums_injective(seq![a.min.0 as int, a.max.0 as int], seq![b.min.0 as int, b.max.0 as int]);
        assert(seq![a.min.0 as int, a.max.0 as int][0] == seq![b.min.0 as int, b.max.0 as int][0] && seq![a.min.0 as int, a.max.0 as int][1] == seq![b.min.0 as int, b.max.0 as int][1]);
        assert(add_ranged_f64_json(a)->Object_0[2].1 == add_ranged_f64_json(b)->Object_0[2].1);
}

/// Field by field.
pub open spec fn add_widget2_same(a: AddWidget2, b: AddWidget2) -> bool {
    (image_same(a.image, b.image)) && (a.label@ == b.label@)
}

pub proof fn lemma_add_widget2_injective(a: AddWidget2, b: AddWidget2)
    requires
        add_widget2_json(a) == add_widget2_json(b),
    ensures
        add_widget2_same(a, b),
{
    assert(add_widget2_json(a)->Object_0[0].1 == add_widget2_json(b)->Object_0[0].1);
        lemma_image_injective(a.image, b.image);
        assert(add_widget2_json(a)->Object_0[1].1 == add_widget2_json(b)->Object_0[1].1);
}

/// Field by field.
pub open spec fn add_widget3_same(a: AddWidget3, b: AddWidget3) -> bool {
    (a.label@ == b.label@)
}

pub proof fn lemma_add_widget3_injective(a: AddWidget3, b: AddWidget3)
    requires
        add_widget3_json(a) == add_widget3_json(b),
    ensures
        add_widget3_same(a, b),
{
    lemma_obj1_member("label"@, JsonView::Str(a.label@));
        lemma_obj1_member("label"@, JsonView::Str(b.label@));
        assert(add_widget3_json(a)->Object_0[0].1 == add_widget3_json(b)->Object_0[0].1);
}

/// Field by field.
pub open spec fn place_entity_same(a: PlaceEntity3, b: PlaceEntity3) -> bool {
    (named_entity_same(a.named_entity, b.named_entity)) && (a.widget_label@ == b.widget_label@)
}

pub proof fn lemma_place_entity_injective(a: PlaceEntity3, b: PlaceEntity3)
    requires
        place_entity_json(a) == place_entity_json(b),
    ensures
        place_entity_same(a, b),
{
    assert(place_entity_json(a)->Object_0[0].1 == place_entity_json(b)->Object_0[0].1);
        lemma_named_entity_injective(a.named_entity, b.named_entity);
        assert(place_entity_json(a)->Object_0[1].1 == place_entity_json(b)->Object_0[1].1);
}

/// Field by field.
pub open spec fn delete_component_same(a: DeleteComponent, b: DeleteComponent) -> bool {
    (a.label@ == b.label@)
}

pub proof fn lemma_delete_component_injective(a: DeleteComponent, b: DeleteComponent)
    requires
        delete_component_json(a) == delete_component_json(b),
    ensures
        delete_component_same(a, b),
{
    lemma_obj1_member("label"@, JsonView::Str(a.label@));
        lemma_obj1_member("label"@, JsonView::Str(b.label@));
        assert(delete_component_json(a)->Object_0[0].1 == delete_component_json(b)->Object_0[0].1);
}

/// Field by field.
pub open spec fn update_pose_same(a: UpdateScenePoseEntity3, b: UpdateScenePoseEntity3) -> bool {
    (a.entity_label@ == b.entity_label@) && (pose_same(a.scene_pose_entity, b.scene_pose_entity)) && (a.widget_label@ == b.widget_label@)
}

pub proof fn lemma_update_pose_injective(a: UpdateScenePoseEntity3, b: UpdateScenePoseEntity3)
    requires
        update_pose_json(a) == update_pose_json(b),
    ensures
        update_pose_same(a, b),
{
    assert(update_pose_json(a)->Object_0[0].1 == update_pose_json(b)->Object_0[0].1);
        assert(update_pose_json(a)->Object_0[1].1 == update_pose_json(b)->Object_0[1].1);
        lemma_pose_injective(a.scene_pose_entity, b.scene_pose_entity);
        assert(update_pose_json(a)->Object_0[2].1 == update_pose_json(b)->Object_0[2].1);
}

/// Field by field.
pub open spec fn update_enum_same(a: UpdateEnumStringRepr, b: UpdateEnumStringRepr) -> bool {
    (a.label@ == b.label@) && (a.value@ == b.value@)
}

pub proof fn lemma_update_enum_injective(a: UpdateEnumStringRepr, b: UpdateEnumStringRepr)
    requires
        update_enum_json(a) == update_enum_json(b),
    ensures
        update_enum_same(a, b),
{
    assert(update_enum_json(a)->Object_0[0].1 == update_enum_json(b)->Object_0[0].1);
        assert(update_enum_json(a)->Object_0[1].1 == update_enum_json(b)->Object_0[1].1);
}

/// Field by field.
pub open spec fn update_bool_same(a: UpdateValue<bool>, b: UpdateValue<bool>) -> bool {
    (a.label@ == b.label@) && (a.value == b.value)
}

pub proof fn lemma_update_bool_injective(a: UpdateValue<bool>, b: UpdateValue<bool>)
    requires
        update_bool_json(a) == update_bool_json(b),
    ensures
        update_bool_same(a, b),
{
    assert(update_bool_json(a)->Object_0[0].1 == update_bool_json(b)->Object_0[0].1);
        assert(update_bool_json(a)->Object_0[1].1 == update_bool_json(b)->Object_0[1].1);
}

/// Field by field.
pub open spec fn update_ranged_usize_same(a: UpdateRangedValue<usize>, b: UpdateRangedValue<usize>) -> bool {
    (a.label@ == b.label@) && (a.value == b.value)
}

pub proof fn lemma_update_ranged_usize_injective(a: UpdateRangedValue<usize>, b: UpdateRangedValue<usize>)
    requires
        update_ranged_usize_json(a) == update_ranged_usize_json(b),
    ensures
        update_ranged_usize_same(a, b),
{
    assert(update_ranged_usize_json(a)->Object_0[0].1 == update_ranged_usize_json(b)->Object_0[0].1);
        assert(update_ranged_usize_json(a)->Object_0[1].1 == update_ranged_usize_json(b)->Object_0[1].1);
}

/// Field by field.
pub open spec fn update_ranged_i32_same(a: UpdateRangedValue<i32>, b: UpdateRangedValue<i32>) -> bool {
    (a.label@ == b.label@) && (a.value == b.value)
}

pub proof fn lemma_update_ranged_i32_injective(a: UpdateRangedValue<i32>, b: UpdateRangedValue<i32>)
    requires
        update_ranged_i32_json(a) == update_ranged_i32_json(b),
    ensures
        update_ranged_i32_same(a, b),
{
    assert(update_ranged_i32_json(a)->Object_0[0].1 == update_ranged_i32_json(b)->Object_0[0].1);
        assert(update_ranged_i32_json(a)->Object_0[1].1 == update_ranged_i32_json(b)->Object_0[1].1);
}

/// Field by field.
pub open spec fn update_ranged_i64_same(a: UpdateRangedValue<i64>, b: UpdateRangedValue<i64>) -> bool {
    (a.label@ == b.label@) && (a.value == b.value)
}

pub proof fn lemma_update_ranged_i64_injective(a: UpdateRangedValue<i64>, b: UpdateRangedValue<i64>)
    requires
        update_ranged_i64_json(a) == update_ranged_i64_json(b),
    ensures
        update_ranged_i64_same(a, b),
{
    assert(update_ranged_i64_json(a)->Object_0[0].1 == update_ranged_i64_json(b)->Object_0[0].1);
        assert(update_ranged_i64_json(a)->Object_0[1].1 == update_ranged_i64_json(b)->Object_0[1].1);
}

/// Field by field.
pub open spec fn update_ranged_f32_same(a: UpdateRangedValue<F32Bits>, b: UpdateRangedValue<F32Bits>) -> bool {
    (a.label@ == b.label@) && (a.value == b.value)
}

pub proof fn lemma_update_ranged_f32_injective(a: UpdateRangedValue<F32Bits>, b: UpdateRangedValue<F32Bits>)
    requires
        update_ranged_f32_json(a) == update_ranged_f32_json(b),
    ensures
        update_ranged_f32_same(a, b),
{
    assert(update_ranged_f32_json(a)->Object_0[0].1 == update_ranged_f32_json(b)->Object_0[0].1);
        assert(update_ranged_f32_json(a)->Object_0[1].1 == update_ranged_f32_json(b)->Object_0[1].1);
}

/// Field by field.
pub open spec fn update_ranged_f64_same(a: UpdateRangedValue<F64Bits>, b: UpdateRangedValue<F64Bits>) -> bool {
    (a.label@ == b.label@) && (a.value == b.value)
}

pub proof fn lemma_update_ranged_f64_injective(a: UpdateRangedValue<F64Bits>, b: UpdateRangedValue<F64Bits>)
    requires
        update_ranged_f64_json(a) == update_ranged_f64_json(b),
    ensures
        update_ranged_f64_same(a, b),
{
    assert(update_ranged_f64_json(a)->Object_0[0].1 == update_ranged_f64_json(b)->Object_0[0].1);
        assert(update_ranged_f64_json(a)->Object_0[1].1 == update_ranged_f64_json(b)->Object_0[1].1);
}

/// Field by field.
pub open spec fn update_button_same(a: UpdateButton, b: UpdateButton) -> bool {
    (a.label@ == b.label@)
}

pub proof fn lemma_update_button_injective(a: UpdateButton, b: UpdateButton)
    requires
        update_button_json(a) == update_button_json(b),
    ensures
        update_button_same(a, b),
{
    lemma_obj1_member("label"@, JsonView::Str(a.label@));
        lemma_obj1_member("label"@, JsonView::Str(b.label@));
        assert(update_button_json(a)->Object_0[0].1 == update_button_json(b)->Object_0[0].1);
}

/// The name that tags a message's JSON form.
pub open spec fn to_gui_tag(m: ToGuiLoopMessage) -> Seq<char> {
    match m {
        ToGuiLoopMessage::AddEnumStringRepr(_) => "AddEnumStringRepr"@,
        ToGuiLoopMessage::AddButton(_) => "AddButton"@,
        ToGuiLoopMessage::AddVarBool(_) => "AddVarBool"@,
        ToGuiLoopMessage::AddVarUSize(_) => "AddVarUSize"@,
        ToGuiLoopMessage::AddVarI32(_) => "AddVarI32"@,
        ToGuiLoopMessage::AddVarI64(_) => "AddVarI64"@,
        ToGuiLoopMessage::AddRangedVarUSize(_) => "AddRangedVarUSize"@,
        ToGuiLoopMessage::AddRangedVarI32(_) => "AddRangedVarI32"@,
        ToGuiLoopMessage::AddRangedVarI64(_) => "AddRangedVarI64"@,
        ToGuiLoopMessage::AddVarF32(_) => "AddVarF32"@,
        ToGuiLoopMessage::AddVarF64(_) => "AddVarF64"@,
        ToGuiLoopMessage::AddRangedVarF32(_) => "AddRangedVarF32"@,
        ToGuiLoopMessage::AddRangedVarF64(_) => "AddRangedVarF64"@,
        ToGuiLoopMessage::AddWidget2(_) => "AddWidget2"@,
        ToGuiLoopMessage::AddWidget3(_) => "AddWidget3"@,
        ToGuiLoopMessage::PlaceEntity3(_) => "PlaceEntity3"@,
        ToGuiLoopMessage::DeleteComponent(_) => "DeleteComponent"@,
        ToGuiLoopMessage::UpdateScenePoseEntity3(_) => "UpdateScenePoseEntity3"@,
    }
}

/// The position of a message's variant in the enum.
pub open spec fn to_gui_index(m: ToGuiLoopMessage) -> int {
    match m {
        ToGuiLoopMessage::AddEnumStringRepr(_) => 0,
        ToGuiLoopMessage::AddButton(_) => 1,
        ToGuiLoopMessage::AddVarBool(_) => 2,
        ToGuiLoopMessage::AddVarUSize(_) => 3,
        ToGuiLoopMessage::AddVarI32(_) => 4,
        ToGuiLoopMessage::AddVarI64(_) => 5,
        ToGuiLoopMessage::AddRangedVarUSize(_) => 6,
        ToGuiLoopMessage::AddRangedVarI32(_) => 7,
        ToGuiLoopMessage::AddRangedVarI64(_) => 8,
        ToGuiLoopMessage::AddVarF32(_) => 9,
        ToGuiLoopMessage::AddVarF64(_) => 10,
        ToGuiLoopMessage::AddRangedVarF32(_) => 11,
        ToGuiLoopMessage::AddRangedVarF64(_) => 12,
        ToGuiLoopMessage::AddWidget2(_) => 13,
        ToGuiLoopMessage::AddWidget3(_) => 14,
        ToGuiLoopMessage::PlaceEntity3(_) => 15,
        ToGuiLoopMessage::DeleteComponent(_) => 16,
        ToGuiLoopMessage::UpdateScenePoseEntity3(_) => 17,
    }
}

/// The fingerprint of the tag of each variant, by position.
pub open spec fn to_gui_fingerprints(i: int) -> (int, char, char) {
    if i == 0 {
        (17, 'r', 'e')
    } else     if i == 1 {
        (9, 'n', 't')
    } else     if i == 2 {
        (10, 'l', 'o')
    } else     if i == 3 {
        (11, 'e', 'i')
    } else     if i == 4 {
        (9, '2', 'I')
    } else     if i == 5 {
        (9, '4', 'I')
    } else     if i == 6 {
        (17, 'e', 'i')
    } else     if i == 7 {
        (15, '2', 'I')
    } else     if i == 8 {
        (15, '4', 'I')
    } else     if i == 9 {
        (9, '2', 'F')
    } else     if i == 10 {
        (9, '4', 'F')
    } else     if i == 11 {
        (15, '2', 'F')
    } else     if i == 12 {
        (15, '4', 'F')
    } else     if i == 13 {
        (10, '2', 'e')
    } else     if i == 14 {
        (10, '3', 'e')
    } else     if i == 15 {
        (12, '3', 't')
    } else     if i == 16 {
        (15, 't', 'e')
    } else     if i == 17 {
        (22, '3', 't')
    } else {
        (0, ' ', ' ')
    }
}

proof fn lemma_to_gui_fingerprint(m: ToGuiLoopMessage)
    ensures
        tag_fingerprint(to_gui_tag(m)) == to_gui_fingerprints(to_gui_index(m)),
{
    reveal_strlit("AddEnumStringRepr");
    reveal_strlit("AddButton");
    reveal_strlit("AddVarBool");
    reveal_strlit("AddVarUSize");
    reveal_strlit("AddVarI32");
    reveal_strlit("AddVarI64");
    reveal_strlit("AddRangedVarUSize");
    reveal_strlit("AddRangedVarI32");
    reveal_strlit("AddRangedVarI64");
    reveal_strlit("AddVarF32");
    reveal_strlit("AddVarF64");
    reveal_strlit("AddRangedVarF32");
    reveal_strlit("AddRangedVarF64");
    reveal_strlit("AddWidget2");
    reveal_strlit("AddWidget3");
    reveal_strlit("PlaceEntity3");
    reveal_strlit("DeleteComponent");
    reveal_strlit("UpdateScenePoseEntity3");
}

/// Same variant, and field by field the same.
pub open spec fn to_gui_same(a: ToGuiLoopMessage, b: ToGuiLoopMessage) -> bool {
    match (a, b) {
        (ToGuiLoopMessage::AddEnumStringRepr(x), ToGuiLoopMessage::AddEnumStringRepr(y)) => add_enum_same(x, y),
        (ToGuiLoopMessage::AddButton(x), ToGuiLoopMessage::AddButton(y)) => add_button_same(x, y),
        (ToGuiLoopMessage::AddVarBool(x), ToGuiLoopMessage::AddVarBool(y)) => add_var_bool_same(x, y),
        (ToGuiLoopMessage::AddVarUSize(x), ToGuiLoopMessage::AddVarUSize(y)) => add_var_usize_same(x, y),
        (ToGuiLoopMessage::AddVarI32(x), ToGuiLoopMessage::AddVarI32(y)) => add_var_i32_same(x, y),
        (ToGuiLoopMessage::AddVarI64(x), ToGuiLoopMessage::AddVarI64(y)) => add_var_i64_same(x, y),
        (ToGuiLoopMessage::AddRangedVarUSize(x), ToGuiLoopMessage::AddRangedVarUSize(y)) => add_ranged_usize_same(x, y),
        (ToGuiLoopMessage::AddRangedVarI32(x), ToGuiLoopMessage::AddRangedVarI32(y)) => add_ranged_i32_same(x, y),
        (ToGuiLoopMessage::AddRangedVarI64(x), ToGuiLoopMessage::AddRangedVarI64(y)) => add_ranged_i64_same(x, y),
        (ToGuiLoopMessage::AddVarF32(x), ToGuiLoopMessage::AddVarF32(y)) => add_var_f32_same(x, y),
        (ToGuiLoopMessage::AddVarF64(x), ToGuiLoopMessage::AddVarF64(y)) => add_var_f64_same(x, y),
        (ToGuiLoopMessage::AddRangedVarF32(x), ToGuiLoopMessage::AddRangedVarF32(y)) => add_ranged_f32_same(x, y),
        (ToGuiLoopMessage::AddRangedVarF64(x), ToGuiLoopMessage::AddRangedVarF64(y)) => add_ranged_f64_same(x, y),
        (ToGuiLoopMessage::AddWidget2(x), ToGuiLoopMessage::AddWidget2(y)) => add_widget2_same(x, y),
        (ToGuiLoopMessage::AddWidget3(x), ToGuiLoopMessage::AddWidget3(y)) => add_widget3_same(x, y),
        (ToGuiLoopMessage::PlaceEntity3(x), ToGuiLoopMessage::PlaceEntity3(y)) => place_entity_same(x, y),
        (ToGuiLoopMessage::DeleteComponent(x), ToGuiLoopMessage::DeleteComponent(y)) => delete_component_same(x, y),
        (ToGuiLoopMessage::UpdateScenePoseEntity3(x), ToGuiLoopMessage::UpdateScenePoseEntity3(y)) => update_pose_same(x, y),
        _ => false,
    }
}

/// Two messages with the same JSON form are the same message, field by field.
pub proof fn lemma_to_gui_injective(a: ToGuiLoopMessage, b: ToGuiLoopMessage)
    requires
        to_gui_json(a) == to_gui_json(b),
    ensures
        to_gui_same(a, b),
{
    assert(to_gui_json(a)->Object_0[0] == to_gui_json(b)->Object_0[0]);
    assert(to_gui_json(a)->Object_0[0].0 == to_gui_tag(a));
    assert(to_gui_json(b)->Object_0[0].0 == to_gui_tag(b));
    lemma_to_gui_fingerprint(a);
    lemma_to_gui_fingerprint(b);
    assert(to_gui_index(a) == to_gui_index(b));
    match (a, b) {
        (ToGuiLoopMessage::AddEnumStringRepr(x), ToGuiLoopMessage::AddEnumStringRepr(y)) => {
            assert(add_enum_json(x) == add_enum_json(y));
            lemma_add_enum_injective(x, y);
        },
        (ToGuiLoopMessage::AddButton(x), ToGuiLoopMessage::AddButton(y)) => {
            assert(add_button_json(x) == add_button_json(y));
            lemma_add_button_injective(x, y);
        },
        (ToGuiLoopMessage::AddVarBool(x), ToGuiLoopMessage::AddVarBool(y)) => {
            assert(add_var_bool_json(x) == add_var_bool_json(y));
            lemma_add_var_bool_injective(x, y);
        },
        (ToGuiLoopMessage::AddVarUSize(x), ToGuiLoopMessage::AddVarUSize(y)) => {
            assert(add_var_usize_json(x) == add_var_usize_json(y));
            lemma_add_var_usize_injective(x, y);
        },
        (ToGuiLoopMessage::AddVarI32(x), ToGuiLoopMessage::AddVarI32(y)) => {
            assert(add_var_i32_json(x) == add_var_i32_json(y));
            lemma_add_var_i32_injective(x, y);
        },
        (ToGuiLoopMessage::AddVarI64(x), ToGuiLoopMessage::AddVarI64(y)) => {
            assert(add_var_i64_json(x) == add_var_i64_json(y));
            lemma_add_var_i64_injective(x, y);
        },
        (ToGuiLoopMessage::AddRangedVarUSize(x), ToGuiLoopMessage::AddRangedVarUSize(y)) => {
            assert(add_ranged_usize_json(x) == add_ranged_usize_json(y));
            lemma_add_ranged_usize_injective(x, y);
        },
        (ToGuiLoopMessage::AddRangedVarI32(x), ToGuiLoopMessage::AddRangedVarI32(y)) => {
            assert(add_ranged_i32_json(x) == add_ranged_i32_json(y));
            lemma_add_ranged_i32_injective(x, y);
        },
        (ToGuiLoopMessage::AddRangedVarI64(x), ToGuiLoopMessage::AddRangedVarI64(y)) => {
            assert(add_ranged_i64_json(x) == add_ranged_i64_json(y));
            lemma_add_ranged_i64_injective(x, y);
        },
        (ToGuiLoopMessage::AddVarF32(x), ToGuiLoopMessage::AddVarF32(y)) => {
            assert(add_var_f32_json(x) == add_var_f32_json(y));
            lemma_add_var_f32_injective(x, y);
        },
        (ToGuiLoopMessage::AddVarF64(x), ToGuiLoopMessage::AddVarF64(y)) => {
            assert(add_var_f64_json(x) == add_var_f64_json(y));
            lemma_add_var_f64_injective(x, y);
        },
        (ToGuiLoopMessage::AddRangedVarF32(x), ToGuiLoopMessage::AddRangedVarF32(y)) => {
            assert(add_ranged_f32_json(x) == add_ranged_f32_json(y));
            lemma_add_ranged_f32_injective(x, y);
        },
        (ToGuiLoopMessage::AddRangedVarF64(x), ToGuiLoopMessage::AddRangedVarF64(y)) => {
            assert(add_ranged_f64_json(x) == add_ranged_f64_json(y));
            lemma_add_ranged_f64_injective(x, y);
        },
        (ToGuiLoopMessage::AddWidget2(x), ToGuiLoopMessage::AddWidget2(y)) => {
            assert(add_widget2_json(x) == add_widget2_json(y));
            lemma_add_widget2_injective(x, y);
        },
        (ToGuiLoopMessage::AddWidget3(x), ToGuiLoopMessage::AddWidget3(y)) => {
            assert(add_widget3_json(x) == add_widget3_json(y));
            lemma_add_widget3_injective(x, y);
        },
        (ToGuiLoopMessage::PlaceEntity3(x), ToGuiLoopMessage::PlaceEntity3(y)) => {
            assert(place_entity_json(x) == place_entity_json(y));
            lemma_place_entity_injective(x, y);
        },
        (ToGuiLoopMessage::DeleteComponent(x), ToGuiLoopMessage::DeleteComponent(y)) => {
            assert(delete_component_json(x) == delete_component_json(y));
            lemma_delete_component_injective(x, y);
        },
        (ToGuiLoopMessage::UpdateScenePoseEntity3(x), ToGuiLoopMessage::UpdateScenePoseEntity3(y)) => {
            assert(update_pose_json(x) == update_pose_json(y));
            lemma_update_pose_injective(x, y);
        },
        _ => {},
    }
}

/// The name that tags a message's JSON form.
pub open spec fn from_gui_tag(m: FromGuiLoopMessage) -> Seq<char> {
    match m {
        FromGuiLoopMessage::UpdateEnumStringRepr(_) => "UpdateEnumStringRepr"@,
        FromGuiLoopMessage::UpdateValueBool(_) => "UpdateValueBool"@,
        FromGuiLoopMessage::UpdateRangedValueUSize(_) => "UpdateRangedValueUSize"@,
        FromGuiLoopMessage::UpdateRangedValueI32(_) => "UpdateRangedValueI32"@,
        FromGuiLoopMessage::UpdateRangedValueI64(_) => "UpdateRangedValueI64"@,
        FromGuiLoopMessage::UpdateRangedValueF32(_) => "UpdateRangedValueF32"@,
        FromGuiLoopMessage::UpdateRangedValueF64(_) => "UpdateRangedValueF64"@,
        FromGuiLoopMessage::UpdateButton(_) => "UpdateButton"@,
    }
}

/// The position of a message's variant in the enum.
pub open spec fn from_gui_index(m: FromGuiLoopMessage) -> int {
    match m {
        FromGuiLoopMessage::UpdateEnumStringRepr(_) => 0,
        FromGuiLoopMessage::UpdateValueBool(_) => 1,
        FromGuiLoopMessage::UpdateRangedValueUSize(_) => 2,
        FromGuiLoopMessage::UpdateRangedValueI32(_) => 3,
        FromGuiLoopMessage::UpdateRangedValueI64(_) => 4,
        FromGuiLoopMessage::UpdateRangedValueF32(_) => 5,
        FromGuiLoopMessage::UpdateRangedValueF64(_) => 6,
        FromGuiLoopMessage::UpdateButton(_) => 7,
    }
}

/// The fingerprint of the tag of each variant, by position.
pub open spec fn from_gui_fingerprints(i: int) -> (int, char, char) {
    if i == 0 {
        (20, 'r', 'e')
    } else     if i == 1 {
        (15, 'l', 'o')
    } else     if i == 2 {
        (22, 'e', 'i')
    } else     if i == 3 {
        (20, '2', 'I')
    } else     if i == 4 {
        (20, '4', 'I')
    } else     if i == 5 {
        (20, '2', 'F')
    } else     if i == 6 {
        (20, '4', 'F')
    } else     if i == 7 {
        (12, 'n', 't')
    } else {
        (0, ' ', ' ')
    }
}

proof fn lemma_from_gui_fingerprint(m: FromGuiLoopMessage)
    ensures
        tag_fingerprint(from_gui_tag(m)) == from_gui_fingerprints(from_gui_index(m)),
{
    reveal_strlit("UpdateEnumStringRepr");
    reveal_strlit("UpdateValueBool");
    reveal_strlit("UpdateRangedValueUSize");
    reveal_strlit("UpdateRangedValueI32");
    reveal_strlit("UpdateRangedValueI64");
    reveal_strlit("UpdateRangedValueF32");
    reveal_strlit("UpdateRangedValueF64");
    reveal_strlit("UpdateButton");
}

/// Same variant, and field by field the same.
pub open spec fn from_gui_same(a: FromGuiLoopMessage, b: FromGuiLoopMessage) -> bool {
    match (a, b) {
        (FromGuiLoopMessage::UpdateEnumStringRepr(x), FromGuiLoopMessage::UpdateEnumStringRepr(y)) => update_enum_same(x, y),
        (FromGuiLoopMessage::UpdateValueBool(x), FromGuiLoopMessage::UpdateValueBool(y)) => update_bool_same(x, y),
        (FromGuiLoopMessage::UpdateRangedValueUSize(x), FromGuiLoopMessage::UpdateRangedValueUSize(y)) => update_ranged_usize_same(x, y),
        (FromGuiLoopMessage::UpdateRangedValueI32(x), FromGuiLoopMessage::UpdateRangedValueI32(y)) => update_ranged_i32_same(x, y),
        (FromGuiLoopMessage::UpdateRangedValueI64(x), FromGuiLoopMessage::UpdateRangedValueI64(y)) => update_ranged_i64_same(x, y),
        (FromGuiLoopMessage::UpdateRangedValueF32(x), FromGuiLoopMessage::UpdateRangedValueF32(y)) => update_ranged_f32_same(x, y),
        (FromGuiLoopMessage::UpdateRangedValueF64(x), FromGuiLoopMessage::UpdateRangedValueF64(y)) => update_ranged_f64_same(x, y),
        (FromGuiLoopMessage::UpdateButton(x), FromGuiLoopMessage::UpdateButton(y)) => update_button_same(x, y),
        _ => false,
    }
}

/// Two messages with the same JSON form are the same message, field by field.
pub proof fn lemma_from_gui_injective(a: FromGuiLoopMessage, b: FromGuiLoopMessage)
    requires
        from_gui_json(a) == from_gui_json(b),
    ensures
        from_gui_same(a, b),
{
    assert(from_gui_json(a)->Object_0[0] == from_gui_json(b)->Object_0[0]);
    assert(from_gui_json(a)->Object_0[0].0 == from_gui_tag(a));
    assert(from_gui_json(b)->Object_0[0].0 == from_gui_tag(b));
    lemma_from_gui_fingerprint(a);
    lemma_from_gui_fingerprint(b);
    assert(from_gui_index(a) == from_gui_index(b));
    match (a, b) {
        (FromGuiLoopMessage::UpdateEnumStringRepr(x), FromGuiLoopMessage::UpdateEnumStringRepr(y)) => {
            assert(update_enum_json(x) == update_enum_json(y));
            lemma_update_enum_injective(x, y);
        },
        (FromGuiLoopMessage::UpdateValueBool(x), FromGuiLoopMessage::UpdateValueBool(y)) => {
            assert(update_bool_json(x) == update_bool_json(y));
            lemma_update_bool_injective(x, y);
        },
        (FromGuiLoopMessage::UpdateRangedValueUSize(x), FromGuiLoopMessage::UpdateRangedValueUSize(y)) => {
            assert(update_ranged_usize_json(x) == update_ranged_usize_json(y));
            lemma_update_ranged_usize_injective(x, y);
        },
        (FromGuiLoopMessage::UpdateRangedValueI32(x), FromGuiLoopMessage::UpdateRangedValueI32(y)) => {
            assert(update_ranged_i32_json(x) == update_ranged_i32_json(y));
            lemma_update_ranged_i32_injective(x, y);
        },
        (FromGuiLoopMessage::UpdateRangedValueI64(x), FromGuiLoopMessage::UpdateRangedValueI64(y)) => {
            assert(update_ranged_i64_json(x) == update_ranged_i64_json(y));
            lemma_update_ranged_i64_injective(x, y);
        },
        (FromGuiLoopMessage::UpdateRangedValueF32(x), FromGuiLoopMessage::UpdateRangedValueF32(y)) => {
            assert(update_ranged_f32_json(x) == update_ranged_f32_json(y));
            lemma_update_ranged_f32_injective(x, y);
        },
        (FromGuiLoopMessage::UpdateRangedValueF64(x), FromGuiLoopMessage::UpdateRangedValueF64(y)) => {
            assert(update_ranged_f64_json(x) == update_ranged_f64_json(y));
            lemma_update_ranged_f64_injective(x, y);
        },
        (FromGuiLoopMessage::UpdateButton(x), FromGuiLoopMessage::UpdateButton(y)) => {
            assert(update_button_json(x) == update_button_json(y));
            lemma_update_button_injective(x, y);
        },
        _ => {},
    }
}
} // verus!
