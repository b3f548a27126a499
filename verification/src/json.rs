//! Explicit schema validation for the identity provider's JSON responses.
//!
//! The provider's documented bodies are small objects whose member values
//! are strings or nested objects of the same shape, so that is exactly the
//! grammar accepted here: an object with string keys, string or object
//! values, the usual whitespace, and the single-character string escapes.
//! Anything else — numbers, arrays, booleans, `\u` escapes, trailing
//! commas — is treated as malformed, which the flow reports as a provider
//! error.  The grammar is given by total specification functions; the
//! executable parser is proved to return exactly what they describe.

use vstd::prelude::*;

verus! {

/// JSON insignificant whitespace.
pub open spec fn is_ws_char(c: char) -> bool {
    c == ' ' || c == '\n' || c == '\r' || c == '\t'
}

/// First position at or after `i` holding a non-whitespace character (or
/// the end of the text).
pub open spec fn spec_skip_ws(s: Seq<char>, i: int) -> int
    decreases s.len() - i,
{
    if 0 <= i && i < s.len() && is_ws_char(s[i]) {
        spec_skip_ws(s, i + 1)
    } else {
        i
    }
}

/// The character that a single-character escape sequence stands for.
pub open spec fn spec_escape(c: char) -> Option<char> {
    if c == '"' {
        Some('"')
    } else if c == '\\' {
        Some('\\')
    } else if c == '/' {
        Some('/')
    } else if c == 'n' {
        Some('\n')
    } else if c == 't' {
        Some('\t')
    } else if c == 'r' {
        Some('\r')
    } else {
        None
    }
}

/// Parses the remainder of a string literal, starting just after the
/// opening quote.  Returns the decoded content and the position just
/// after the closing quote.
pub open spec fn spec_parse_string_rest(s: Seq<char>, i: int) -> Option<(Seq<char>, int)>
    decreases s.len() - i,
{
    if i < 0 || i >= s.len() {
        None
    } else if s[i] == '"' {
        Some((Seq::empty(), i + 1))
    } else if s[i] == '\\' {
        if i + 1 < s.len() {
            match spec_escape(s[i + 1]) {
                Some(c) => match spec_parse_string_rest(s, i + 2) {
                    Some((t, j)) => Some((seq![c] + t, j)),
                    None => None,
                },
                None => None,
            }
        } else {
            None
        }
    } else {
        match spec_parse_string_rest(s, i + 1) {
            Some((t, j)) => Some((seq![s[i]] + t, j)),
            None => None,
        }
    }
}

/// The mathematical shape of an accepted JSON value: a string or an
/// object given as its member list in source order.
pub enum Json {
    Str(Seq<char>),
    Obj(Seq<(Seq<char>, Json)>),
}

/// Parses one value (string or object) starting exactly at `i`.  `fuel`
/// bounds the recursion; the document parser supplies the text length,
/// which the nesting of any parsable text never reaches.
pub open spec fn spec_parse_value(s: Seq<char>, i: int, fuel: nat) -> Option<(Json, int)>
    decreases fuel,
{
    if fuel == 0 {
        None
    } else if i < 0 || i >= s.len() {
        None
    } else if s[i] == '"' {
        match spec_parse_string_rest(s, i + 1) {
            Some((t, j)) => Some((Json::Str(t), j)),
            None => None,
        }
    } else if s[i] == '{' {
        match spec_parse_members(s, spec_skip_ws(s, i + 1), (fuel - 1) as nat) {
            Some((m, j)) => Some((Json::Obj(m), j)),
            None => None,
        }
    } else {
        None
    }
}

/// Parses the member list of an object, starting at the closing brace or
/// at the quote of the first key.  Returns the members and the position
/// just after the closing brace.
pub open spec fn spec_parse_members(s: Seq<char>, i: int, fuel: nat) -> Option<
    (Seq<(Seq<char>, Json)>, int),
>
    decreases fuel,
{
    if fuel == 0 {
        None
    } else if i < 0 || i >= s.len() {
        None
    } else if s[i] == '}' {
        Some((Seq::empty(), i + 1))
    } else if s[i] == '"' {
        match spec_parse_string_rest(s, i + 1) {
            Some((k, j)) => {
                let j2 = spec_skip_ws(s, j);
                if j2 < s.len() && s[j2] == ':' {
                    let j3 = spec_skip_ws(s, j2 + 1);
                    match spec_parse_value(s, j3, (fuel - 1) as nat) {
                        Some((v, j4)) => {
                            let j5 = spec_skip_ws(s, j4);
                            if j5 < s.len() && s[j5] == ',' {
                                let j6 = spec_skip_ws(s, j5 + 1);
                                if j6 < s.len() && s[j6] == '"' {
                                    match spec_parse_members(s, j6, (fuel - 1) as nat) {
                                        Some((m, j7)) => Some((seq![(k, v)] + m, j7)),
                                        None => None,
                                    }
                                } else {
                                    None
                                }
                            } else if j5 < s.len() && s[j5] == '}' {
                                Some((seq![(k, v)], j5 + 1))
                            } else {
                                None
                            }
                        },
                        None => None,
                    }
                } else {
                    None
                }
            },
            None => None,
        }
    } else {
        None
    }
}

/// The first member of `m` whose key is `key`, if any.
pub open spec fn spec_lookup(m: Seq<(Seq<char>, Json)>, key: Seq<char>) -> Option<Json>
    decreases m.len(),
{
    if m.len() == 0 {
        None
    } else if m[0].0 == key {
        Some(m[0].1)
    } else {
        spec_lookup(m.subrange(1, m.len() as int), key)
    }
}

/// An accepted JSON value as the executable parser returns it.
pub enum JsonValue {
    Str(String),
    Obj(Vec<(String, JsonValue)>),
}

/// The mathematical value that a parsed value stands for.
pub open spec fn jv_model(v: JsonValue) -> Json
    decreases v,
{
    match v {
        JsonValue::Str(s) => Json::Str(s@),
        JsonValue::Obj(ms) => Json::Obj(
            Seq::new(
                ms@.len(),
                |k: int|
                    if 0 <= k < ms@.len() {
                        (ms@[k].0@, jv_model(ms@[k].1))
                    } else {
                        (Seq::empty(), Json::Str(Seq::empty()))
                    },
            ),
        ),
    }
}

/// The mathematical member list that a parsed member vector stands for.
pub open spec fn members_model(ms: Seq<(String, JsonValue)>) -> Seq<(Seq<char>, Json)> {
    Seq::new(
        ms.len(),
        |k: int|
            if 0 <= k < ms.len() {
                (ms[k].0@, jv_model(ms[k].1))
            } else {
                (Seq::empty(), Json::Str(Seq::empty()))
            },
    )
}

/// The model of a parsed object is the object of the model of its
/// members.
pub proof fn lemma_obj_model(v: JsonValue)
    requires
        v is Obj,
    ensures
        jv_model(v) == Json::Obj(members_model(v->Obj_0@)),
{
    let ms = v->Obj_0;
    assert(jv_model(v)->Obj_0 =~= members_model(ms@));
    assert(jv_model(v) == Json::Obj(members_model(ms@)));
}

/// A whole response body: optional whitespace, one object, optional
/// whitespace, end of text.  Returns the object's members.
pub open spec fn spec_parse_document(s: Seq<char>) -> Option<Seq<(Seq<char>, Json)>> {
    let i = spec_skip_ws(s, 0);
    match spec_parse_value(s, i, s.len()) {
        Some((v, j)) => match v {
            Json::Obj(m) => if spec_skip_ws(s, j) == s.len() {
                Some(m)
            } else {
                None
            },
            Json::Str(t) => None,
        },
        None => None,
    }
}

/// First position at or after `i` holding a non-whitespace character.
fn skip_ws(s: &str, i: usize) -> (r: usize)
    requires
        i <= s@.len(),
    ensures
        r == spec_skip_ws(s@, i as int),
        i <= r <= s@.len(),
    decreases s@.len() - i,
{
    let n = s.unicode_len();
    if i < n {
        let c = s.get_char(i);
        if c == ' ' || c == '\n' || c == '\r' || c == '\t' {
            return skip_ws(s, i + 1);
        }
    }
    i
}

/// The one-character string that a single-character escape decodes to.
fn escape_str(c: char) -> (r: Option<&'static str>)
    ensures
        match r {
            Some(lit) => spec_escape(c) matches Some(e) && lit@ == seq![e],
            None => spec_escape(c) is None,
        },
{
    if c == '"' {
        proof {
            reveal_strlit("\"");
            assert("\""@ =~= seq!['"']);
        }
        Some("\"")
    } else if c == '\\' {
        proof {
            reveal_strlit("\\");
            assert("\\"@ =~= seq!['\\']);
        }
        Some("\\")
    } else if c == '/' {
        proof {
            reveal_strlit("/");
            assert("/"@ =~= seq!['/']);
        }
        Some("/")
    } else if c == 'n' {
        proof {
            reveal_strlit("\n");
            assert("\n"@ =~= seq!['\n']);
        }
        Some("\n")
    } else if c == 't' {
        proof {
            reveal_strlit("\t");
            assert("\t"@ =~= seq!['\t']);
        }
        Some("\t")
    } else if c == 'r' {
        proof {
            reveal_strlit("\r");
            assert("\r"@ =~= seq!['\r']);
        }
        Some("\r")
    } else {
        None
    }
}

/// Parses the remainder of a string literal, starting just after the
/// opening quote; returns the decoded content and the position after the
/// closing quote.
fn parse_string_rest(s: &str, i: usize) -> (r: Option<(String, usize)>)
    requires
        i <= s@.len(),
    ensures
        match r {
            Some(p) => spec_parse_string_rest(s@, i as int) == Some((p.0@, p.1 as int)) && i < p.1
                <= s@.len(),
            None => spec_parse_string_rest(s@, i as int) is None,
        },
    decreases s@.len() - i,
{
    let n = s.unicode_len();
    if i >= n {
        return None;
    }
    let c = s.get_char(i);
    if c == '"' {
        Some((String::new(), i + 1))
    } else if c == '\\' {
        if i + 1 < n {
            let e = s.get_char(i + 1);
            match escape_str(e) {
                Some(lit) => match parse_string_rest(s, i + 2) {
                    Some((t, j)) => {
                        let mut out = lit.to_owned();
                        out.append(t.as_str());
                        Some((out, j))
                    },
                    None => None,
                },
                None => None,
            }
        } else {
            None
        }
    } else {
        match parse_string_rest(s, i + 1) {
            Some((t, j)) => {
                let one = s.substring_char(i, i + 1);
                let mut out = one.to_owned();
                out.append(t.as_str());
                proof {
                    assert(out@ =~= seq![s@[i as int]] + t@);
                }
                Some((out, j))
            },
            None => None,
        }
    }
}

/// Parses one value (string or object) starting exactly at `i`.
fn parse_value(s: &str, i: usize, fuel: usize) -> (r: Option<(JsonValue, usize)>)
    requires
        i <= s@.len(),
    ensures
        match r {
            Some(p) => spec_parse_value(s@, i as int, fuel as nat) == Some(
                (jv_model(p.0), p.1 as int),
            ) && i < p.1 <= s@.len(),
            None => spec_parse_value(s@, i as int, fuel as nat) is None,
        },
    decreases fuel,
{
    if fuel == 0 {
        return None;
    }
    let n = s.unicode_len();
    if i >= n {
        return None;
    }
    let c = s.get_char(i);
    if c == '"' {
        match parse_string_rest(s, i + 1) {
            Some((t, j)) => Some((JsonValue::Str(t), j)),
            None => None,
        }
    } else if c == '{' {
        let j1 = skip_ws(s, i + 1);
        match parse_members(s, j1, fuel - 1) {
            Some((mv, j)) => {
                let r = JsonValue::Obj(mv);
                proof {
                    lemma_obj_model(r);
                }
                Some((r, j))
            },
            None => None,
        }
    } else {
        None
    }
}

/// Parses an object's member list, starting at the closing brace or at
/// the quote of the first key.
fn parse_members(s: &str, i: usize, fuel: usize) -> (r: Option<(Vec<(String, JsonValue)>, usize)>)
    requires
        i <= s@.len(),
    ensures
        match r {
            Some(p) => spec_parse_members(s@, i as int, fuel as nat) == Some(
                (members_model(p.0@), p.1 as int),
            ) && i < p.1 <= s@.len(),
            None => spec_parse_members(s@, i as int, fuel as nat) is None,
        },
    decreases fuel,
{
    if fuel == 0 {
        return None;
    }
    let n = s.unicode_len();
    if i >= n {
        return None;
    }
    let c = s.get_char(i);
    if c == '}' {
        let mv: Vec<(String, JsonValue)> = Vec::new();
        proof {
            assert(members_model(mv@) =~= Seq::<(Seq<char>, Json)>::empty());
        }
        Some((mv, i + 1))
    } else if c == '"' {
        match parse_string_rest(s, i + 1) {
            Some((k, j)) => {
                let j2 = skip_ws(s, j);
                if j2 < n && s.get_char(j2) == ':' {
                    let j3 = skip_ws(s, j2 + 1);
                    match parse_value(s, j3, fuel - 1) {
                        Some((v, j4)) => {
                            let j5 = skip_ws(s, j4);
                            let ghost gk = k@;
                            let ghost gv = jv_model(v);
                            if j5 < n && s.get_char(j5) == ',' {
                                let j6 = skip_ws(s, j5 + 1);
                                if j6 < n && s.get_char(j6) == '"' {
                                    match parse_members(s, j6, fuel - 1) {
                                        Some((mrest, j7)) => {
                                            let ghost gm = mrest@;
                                            let ghost gp = (k, v);
                                            let mut mv = mrest;
                                            mv.insert(0, (k, v));
                                            proof {
                                                assert(mv@ == gm.insert(0, gp));
                                                mrest_insert_model(gm, gp);
                                            }
                                            Some((mv, j7))
                                        },
                                        None => None,
                                    }
                                } else {
                                    None
                                }
                            } else if j5 < n && s.get_char(j5) == '}' {
                                let mut mv: Vec<(String, JsonValue)> = Vec::new();
                                mv.push((k, v));
                                proof {
                                    assert(members_model(mv@) =~= seq![(gk, gv)]);
                                }
                                Some((mv, j5 + 1))
                            } else {
                                None
                            }
                        },
                        None => None,
                    }
                } else {
                    None
                }
            },
            None => None,
        }
    } else {
        None
    }
}

/// Inserting a pair at the front of a member vector puts the pair's
/// model in front of the vector's model.
proof fn mrest_insert_model(gm: Seq<(String, JsonValue)>, p: (String, JsonValue))
    ensures
        members_model(gm.insert(0, p)) == seq![(p.0@, jv_model(p.1))] + members_model(gm),
{
    gm.insert_ensures(0, p);
    let lhs = members_model(gm.insert(0, p));
    let rhs = seq![(p.0@, jv_model(p.1))] + members_model(gm);
    assert forall|t: int| 0 <= t < lhs.len() implies lhs[t] == rhs[t] by {
        if t > 0 {
            assert(gm.insert(0, p)[t] == gm[t - 1]);
        }
    }
    assert(lhs =~= rhs);
}

/// Parses a whole response body: one object, surrounded by optional
/// whitespace.  Returns its members exactly when the text matches the
/// accepted grammar.
pub fn parse_document(s: &str) -> (r: Option<Vec<(String, JsonValue)>>)
    ensures
        match r {
            Some(mv) => spec_parse_document(s@) == Some(members_model(mv@)),
            None => spec_parse_document(s@) is None,
        },
{
    let n = s.unicode_len();
    let i = skip_ws(s, 0);
    match parse_value(s, i, n) {
        Some((v, j)) => match v {
            JsonValue::Obj(mv) => {
                let j2 = skip_ws(s, j);
                if j2 == n {
                    proof {
                        lemma_obj_model(JsonValue::Obj(mv));
                    }
                    Some(mv)
                } else {
                    None
                }
            },
            JsonValue::Str(_) => None,
        },
        None => None,
    }
}

/// The value of the first member with the given key, if any.
pub fn lookup<'a>(ms: &'a Vec<(String, JsonValue)>, key: &String) -> (r: Option<&'a JsonValue>)
    ensures
        match r {
            Some(v) => spec_lookup(members_model(ms@), key@) == Some(jv_model(*v)),
            None => spec_lookup(members_model(ms@), key@) is None,
        },
{
    let ghost whole = members_model(ms@);
    proof {
        assert(whole.subrange(0, whole.len() as int) =~= whole);
    }
    let n = ms.len();
    for i in 0..n
        invariant
            n == ms.len(),
            whole == members_model(ms@),
            spec_lookup(whole, key@) == spec_lookup(
                whole.subrange(i as int, whole.len() as int),
                key@,
            ),
    {
        let p = &ms[i];
        proof {
            assert(whole.subrange(i as int, whole.len() as int)[0] == whole[i as int]);
        }
        if p.0 == *key {
            return Some(&p.1);
        }
        proof {
            assert(whole.subrange(i as int, whole.len() as int).subrange(
                1,
                whole.len() - i,
            ) =~= whole.subrange(i + 1, whole.len() as int));
        }
    }
    proof {
        assert(whole.subrange(n as int, whole.len() as int) =~= Seq::<
            (Seq<char>, Json),
        >::empty());
    }
    None
}

/// The string content of the first member with the given key, if that
/// member exists and its value is a string.
pub fn get_string(ms: &Vec<(String, JsonValue)>, key: &String) -> (r: Option<String>)
    ensures
        match r {
            Some(x) => spec_lookup(members_model(ms@), key@) == Some(Json::Str(x@)),
            None => !(spec_lookup(members_model(ms@), key@) matches Some(Json::Str(t))),
        },
{
    match lookup(ms, key) {
        Some(v) => match v {
            JsonValue::Str(x) => Some(x.clone()),
            JsonValue::Obj(_) => None,
        },
        None => None,
    }
}

/// The member vector of the first member with the given key, if that
/// member exists and its value is an object.
pub fn get_object<'a>(ms: &'a Vec<(String, JsonValue)>, key: &String) -> (r: Option<
    &'a Vec<(String, JsonValue)>,
>)
    ensures
        match r {
            Some(mv) => spec_lookup(members_model(ms@), key@) == Some(
                Json::Obj(members_model(mv@)),
            ),
            None => !(spec_lookup(members_model(ms@), key@) matches Some(Json::Obj(m))),
        },
{
    match lookup(ms, key) {
        Some(v) => match v {
            JsonValue::Obj(mv) => {
                proof {
                    lemma_obj_model(*v);
                }
                Some(mv)
            },
            JsonValue::Str(_) => None,
        },
        None => None,
    }
}

} // verus!
