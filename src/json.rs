//! A plain JSON value tree, and lookups of object fields by key.
use vstd::prelude::*;

verus! {

/// A JSON value. Objects keep their entries in order; a lookup finds the
/// first entry with the key.
#[derive(Debug, PartialEq, Eq)]
pub enum Json {
    Null,
    Bool(bool),
    Num(u64),
    /// A number that is negative, fractional or too large for `Num`.
    OtherNum,
    Str(String),
    Arr(Vec<Json>),
    Obj(Vec<(String, Json)>),
}

/// The value of the first entry of `obj` whose key is `key`.
pub open spec fn field(obj: Seq<(String, Json)>, key: Seq<char>) -> Option<Json>
    decreases obj.len(),
{
    if obj.len() == 0 {
        None
    } else if obj[0].0@ == key {
        Some(obj[0].1)
    } else {
        field(obj.drop_first(), key)
    }
}

/// `j` is a string with the characters `s`.
pub open spec fn is_str(j: Json, s: Seq<char>) -> bool {
    match j {
        Json::Str(t) => t@ == s,
        _ => false,
    }
}

/// `e` is the entry `key: "text"`.
pub open spec fn entry_str(e: (String, Json), key: Seq<char>, text: Seq<char>) -> bool {
    e.0@ == key && is_str(e.1, text)
}

/// `obj` holds no entry under `key`.
pub open spec fn lacks(obj: Seq<(String, Json)>, key: Seq<char>) -> bool {
    forall|i: int| 0 <= i < obj.len() ==> #[trigger] obj[i].0@ != key
}

/// Looking a key up in `a + b` finds it in `a` where `a` holds it, and in
/// `b` where `a` does not.
pub proof fn lemma_field_append(a: Seq<(String, Json)>, b: Seq<(String, Json)>, key: Seq<char>)
    ensures
        field(a, key) is Some ==> field(a + b, key) == field(a, key),
        lacks(a, key) ==> field(a + b, key) == field(b, key),
    decreases a.len(),
{
    if a.len() > 0 {
        assert((a + b).drop_first() =~= a.drop_first() + b);
        lemma_field_append(a.drop_first(), b, key);
        if lacks(a, key) {
            assert forall|i: int| 0 <= i < a.drop_first().len() implies #[trigger] a.drop_first()[i].0@
                != key by {
                assert(a.drop_first()[i] == a[i + 1]);
            }
            assert(a[0].0@ != key);
        }
    } else {
        assert(a + b =~= b);
    }
}

/// The strings of `j`, where `j` is an array of strings.
pub open spec fn strs_of(j: Json) -> Option<Seq<Seq<char>>> {
    match j {
        Json::Arr(v) => if forall|i: int| 0 <= i < v.len() ==> #[trigger] v@[i] is Str {
            Some(Seq::new(v.len() as nat, |i: int| v@[i]->Str_0@))
        } else {
            None
        },
        _ => None,
    }
}

/// The numbers of `j`, where `j` is an array of numbers.
pub open spec fn nums_of(j: Json) -> Option<Seq<u64>> {
    match j {
        Json::Arr(v) => if forall|i: int| 0 <= i < v.len() ==> #[trigger] v@[i] is Num {
            Some(Seq::new(v.len() as nat, |i: int| v@[i]->Num_0))
        } else {
            None
        },
        _ => None,
    }
}

/// An array of the given strings.
pub fn strs_to_json(ss: &Vec<String>) -> (r: Json)
    ensures
        strs_of(r) == Some(ss@.map_values(|s: String| s@)),
{
    let mut v: Vec<Json> = Vec::new();
    let mut i: usize = 0;
    while i < ss.len()
        invariant
            0 <= i <= ss.len(),
            v.len() == i,
            forall|k: int| 0 <= k < i ==> is_str(#[trigger] v@[k], ss@[k]@),
        decreases ss.len() - i,
    {
        v.push(Json::Str(ss[i].clone()));
        i = i + 1;
    }
    let r = Json::Arr(v);
    assert forall|k: int| 0 <= k < v.len() implies #[trigger] v@[k] is Str by {
        assert(is_str(v@[k], ss@[k]@));
    }
    assert(strs_of(r)->Some_0 =~= ss@.map_values(|s: String| s@));
    r
}

/// The strings of `j`, where `j` is an array of strings.
pub fn json_to_strs(j: &Json) -> (r: Option<Vec<String>>)
    ensures
        match r {
            Some(ss) => strs_of(*j) == Some(ss@.map_values(|s: String| s@)),
            None => strs_of(*j) is None,
        },
{
    match j {
        Json::Arr(v) => {
            let mut out: Vec<String> = Vec::new();
            let mut i: usize = 0;
            while i < v.len()
                invariant
                    0 <= i <= v.len(),
                    out.len() == i,
                    *j == Json::Arr(*v),
                    forall|k: int| 0 <= k < i ==> is_str(#[trigger] v@[k], out@[k]@),
                decreases v.len() - i,
            {
                match &v[i] {
                    Json::Str(s) => out.push(s.clone()),
                    _ => {
                        assert(!(v@[i as int] is Str));
                        return None;
                    },
                }
                i = i + 1;
            }
            assert forall|k: int| 0 <= k < v.len() implies #[trigger] v@[k] is Str by {
                assert(is_str(v@[k], out@[k]@));
            }
            assert(strs_of(*j)->Some_0 =~= out@.map_values(|s: String| s@));
            Some(out)
        },
        _ => None,
    }
}

/// An array of the given numbers.
pub fn nums_to_json(ns: &Vec<u64>) -> (r: Json)
    ensures
        nums_of(r) == Some(ns@),
{
    let mut v: Vec<Json> = Vec::new();
    let mut i: usize = 0;
    while i < ns.len()
        invariant
            0 <= i <= ns.len(),
            v.len() == i,
            forall|k: int| 0 <= k < i ==> #[trigger] v@[k] == Json::Num(ns@[k]),
        decreases ns.len() - i,
    {
        v.push(Json::Num(ns[i]));
        i = i + 1;
    }
    let r = Json::Arr(v);
    assert(nums_of(r)->Some_0 =~= ns@);
    r
}

/// The numbers of `j`, where `j` is an array of numbers.
pub fn json_to_nums(j: &Json) -> (r: Option<Vec<u64>>)
    ensures
        match r {
            Some(ns) => nums_of(*j) == Some(ns@),
            None => nums_of(*j) is None,
        },
{
    match j {
        Json::Arr(v) => {
            let mut out: Vec<u64> = Vec::new();
            let mut i: usize = 0;
            while i < v.len()
                invariant
                    0 <= i <= v.len(),
                    out.len() == i,
                    *j == Json::Arr(*v),
                    forall|k: int| 0 <= k < i ==> #[trigger] v@[k] == Json::Num(out@[k]),
                decreases v.len() - i,
            {
                match &v[i] {
                    Json::Num(n) => out.push(*n),
                    _ => {
                        assert(!(v@[i as int] is Num));
                        return None;
                    },
                }
                i = i + 1;
            }
            assert(nums_of(*j)->Some_0 =~= out@);
            Some(out)
        },
        _ => None,
    }
}

/// The view of a table of string lists.
pub open spec fn table_view(t: Seq<(String, Vec<String>)>) -> Seq<(Seq<char>, Seq<Seq<char>>)> {
    t.map_values(|e: (String, Vec<String>)| (e.0@, e.1@.map_values(|s: String| s@)))
}

/// No two entries of `t` share a key.
pub open spec fn distinct_keys<V>(t: Seq<(Seq<char>, V)>) -> bool {
    forall|i: int, j: int| 0 <= i < j < t.len() ==> #[trigger] t[i].0 != #[trigger] t[j].0
}

/// The entries of `j`, where `j` is an object with distinct keys whose
/// values are arrays of strings.
pub open spec fn table_of(j: Json) -> Option<Seq<(Seq<char>, Seq<Seq<char>>)>> {
    match j {
        Json::Obj(o) => if (forall|i: int| 0 <= i < o.len() ==> (#[trigger] strs_of(o@[i].1)) is Some)
            && (forall|i: int, k: int| 0 <= i < k < o.len() ==> #[trigger] o@[i].0@ != #[trigger] o@[k].0@) {
            Some(Seq::new(o.len() as nat, |i: int| (o@[i].0@, strs_of(o@[i].1)->Some_0)))
        } else {
            None
        },
        _ => None,
    }
}

/// An object of the given string lists.
pub fn table_to_json(t: &Vec<(String, Vec<String>)>) -> (r: Json)
    requires
        distinct_keys(table_view(t@)),
    ensures
        table_of(r) == Some(table_view(t@)),
{
    let mut o: Vec<(String, Json)> = Vec::new();
    let mut i: usize = 0;
    while i < t.len()
        invariant
            0 <= i <= t.len(),
            o.len() == i,
            forall|k: int|
                0 <= k < i ==> (#[trigger] o@[k]).0@ == t@[k].0@ && strs_of(o@[k].1) == Some(
                    t@[k].1@.map_values(|s: String| s@),
                ),
        decreases t.len() - i,
    {
        o.push((t[i].0.clone(), strs_to_json(&t[i].1)));
        i = i + 1;
    }
    let r = Json::Obj(o);
    assert forall|k: int| 0 <= k < o.len() implies (#[trigger] strs_of(o@[k].1)) is Some by {
        assert(o@[k].0@ == t@[k].0@);
    }
    assert forall|a: int, b: int| 0 <= a < b < o.len() implies #[trigger] o@[a].0@ != #[trigger] o@[b].0@ by {
        assert(o@[a].0@ == t@[a].0@);
        assert(o@[b].0@ == t@[b].0@);
        assert(table_view(t@)[a].0 != table_view(t@)[b].0);
    }
    assert(table_of(r)->Some_0 =~= table_view(t@)) by {
        assert forall|k: int| 0 <= k < o.len() implies #[trigger] table_of(r)->Some_0[k] == table_view(t@)[k] by {
            assert(o@[k].0@ == t@[k].0@);
        }
    }
    r
}

/// The string lists of `j`, where `j` is an object of arrays of strings.
pub fn json_to_table(j: &Json) -> (r: Option<Vec<(String, Vec<String>)>>)
    ensures
        match r {
            Some(t) => table_of(*j) == Some(table_view(t@)),
            None => table_of(*j) is None,
        },
{
    match j {
        Json::Obj(o) => {
            let mut out: Vec<(String, Vec<String>)> = Vec::new();
            let mut i: usize = 0;
            while i < o.len()
                invariant
                    0 <= i <= o.len(),
                    out.len() == i,
                    *j == Json::Obj(*o),
                    forall|k: int|
                        0 <= k < i ==> (#[trigger] out@[k]).0@ == o@[k].0@ && strs_of(o@[k].1)
                            == Some(out@[k].1@.map_values(|s: String| s@)),
                decreases o.len() - i,
            {
                match json_to_strs(&o[i].1) {
                    Some(ss) => out.push((o[i].0.clone(), ss)),
                    None => {
                        return None;
                    },
                }
                i = i + 1;
            }
            assert forall|k: int| 0 <= k < o.len() implies (#[trigger] strs_of(o@[k].1)) is Some by {
                assert(out@[k].0@ == o@[k].0@);
            }
            let mut a: usize = 0;
            while a < out.len()
                invariant
                    0 <= a <= out.len(),
                    out.len() == o.len(),
                    *j == Json::Obj(*o),
                    forall|k: int| 0 <= k < out.len() ==> (#[trigger] out@[k]).0@ == o@[k].0@,
                    forall|x: int, y: int| 0 <= x < a && x < y < o.len() ==> #[trigger] o@[x].0@ != #[trigger] o@[y].0@,
                decreases out.len() - a,
            {
                let mut b: usize = a + 1;
                while b < out.len()
                    invariant
                        0 <= a < b <= out.len() || (a < out.len() && b == out.len()),
                        a < out.len(),
                        out.len() == o.len(),
                        *j == Json::Obj(*o),
                        forall|k: int| 0 <= k < out.len() ==> (#[trigger] out@[k]).0@ == o@[k].0@,
                        forall|x: int, y: int| 0 <= x < a && x < y < o.len() ==> #[trigger] o@[x].0@ != #[trigger] o@[y].0@,
                        forall|y: int| a < y < b ==> o@[a as int].0@ != #[trigger] o@[y].0@,
                    decreases out.len() - b,
                {
                    assert(out@[a as int].0@ == o@[a as int].0@);
                    assert(out@[b as int].0@ == o@[b as int].0@);
                    if out[a].0 == out[b].0 {
                        return None;
                    }
                    b = b + 1;
                }
                assert forall|x: int, y: int| 0 <= x < a + 1 && x < y < o.len() implies #[trigger] o@[x].0@ != #[trigger] o@[y].0@ by {
                    if x == a {
                        assert(a < y < b);
                    }
                }
                a = a + 1;
            }
            assert(table_of(*j)->Some_0 =~= table_view(out@)) by {
                assert forall|k: int| 0 <= k < o.len() implies #[trigger] table_of(*j)->Some_0[k] == table_view(out@)[k] by {
                    assert(out@[k].0@ == o@[k].0@);
                }
            }
            Some(out)
        },
        _ => None,
    }
}

/// A key string holding the characters of `s`.
pub fn key(s: &str) -> (r: String)
    ensures
        r@ == s@,
{
    s.to_owned()
}

/// Whether `s` holds exactly the characters of `lit`.
pub fn is_text(s: &String, lit: &str) -> (r: bool)
    ensures
        r == (s@ == lit@),
{
    let k = lit.to_owned();
    *s == k
}

/// The value of the first entry of `obj` under `key`.
pub fn get<'a>(obj: &'a Vec<(String, Json)>, key: &str) -> (r: Option<&'a Json>)
    ensures
        match r {
            Some(v) => field(obj@, key@) == Some(*v),
            None => field(obj@, key@) is None,
        },
{
    let wanted = key.to_owned();
    assert(wanted@ == key@);
    let mut i: usize = 0;
    assert(obj@.subrange(0, obj.len() as int) =~= obj@);
    while i < obj.len()
        invariant
            0 <= i <= obj.len(),
            wanted@ == key@,
            field(obj@, key@) == field(obj@.subrange(i as int, obj.len() as int), key@),
        decreases obj.len() - i,
    {
        let ghost rest = obj@.subrange(i as int, obj.len() as int);
        assert(rest.drop_first() =~= obj@.subrange(i + 1, obj.len() as int));
        assert(rest[0] == obj@[i as int]);
        let same = obj[i].0 == wanted;
        if same {
            return Some(&obj[i].1);
        }
        i = i + 1;
    }
    None
}

} // verus!
