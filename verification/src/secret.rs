//! Resolving the sudo password from a decrypted secret store: the store's
//! JSON document, modelled as a plain tree, is walked along a `/`-separated
//! key path; a string, number or boolean leaf ends the walk and its rendering
//! is the password.

use vstd::prelude::*;

use crate::strutil::spec_split;
use crate::strutil::split_char;

verus! {

/// A JSON value as the secret walk sees it. Numbers are kept in their textual
/// rendering: the walk only ever stringifies them.
pub enum Json {
    Null,
    Bool(bool),
    Number(String),
    Str(String),
    Array(Vec<Json>),
    Object(Vec<JsonMember>),
}

/// One key-value pair of a JSON object, in document order.
pub struct JsonMember {
    pub key: String,
    pub value: Json,
}

/// Failures of the secret-store path: decryption, decoding, and the key walk.
#[derive(Debug)]
pub enum SopsError {
    SopsFailedDecryption(String, String),
    SopsFileNotFound(String),
    SopsCannotConvert(String),
    SerdeDeserialize(String),
    SerdeUnexpectedType(String),
    SopsKeyNotFound(String),
}

/// The first member of `ms` named `k`, if any.
pub open spec fn obj_lookup(ms: Seq<JsonMember>, k: Seq<char>) -> Option<Json>
    decreases ms.len(),
{
    if ms.len() == 0 {
        None
    } else if ms[0].key@ == k {
        Some(ms[0].value)
    } else {
        obj_lookup(ms.drop_first(), k)
    }
}

/// Whether the walk ends at this value with a password.
pub open spec fn is_leaf(j: Json) -> bool {
    j is Str || j is Bool || j is Number
}

/// The password a leaf resolves to: the string itself, the textual form of a
/// boolean, or the number's rendering.
pub open spec fn leaf_string(j: Json) -> Seq<char> {
    match j {
        Json::Str(s) => s@,
        Json::Bool(b) => if b {
            "true"@
        } else {
            "false"@
        },
        Json::Number(n) => n@,
        _ => Seq::<char>::empty(),
    }
}

/// How the key walk ends.
pub ghost enum WalkOutcome {
    /// A leaf was reached (or the segments ran out inside objects, resolving
    /// to the empty password).
    Found(Seq<char>),
    /// A segment was not a key of the current object.
    KeyMissing(Seq<char>),
    /// A segment led to an array or null, which the walk cannot enter.
    UnexpectedType,
}

/// Walks the remaining key segments through an object: at each segment a leaf
/// ends the walk, an object is entered, and anything else is refused.
pub open spec fn walk(ms: Seq<JsonMember>, segs: Seq<Seq<char>>) -> WalkOutcome
    decreases segs.len(),
{
    if segs.len() == 0 {
        WalkOutcome::Found(Seq::<char>::empty())
    } else {
        match obj_lookup(ms, segs[0]) {
            None => WalkOutcome::KeyMissing(segs[0]),
            Some(v) => if is_leaf(v) {
                WalkOutcome::Found(leaf_string(v))
            } else {
                match v {
                    Json::Object(inner) => walk(inner@, segs.drop_first()),
                    _ => WalkOutcome::UnexpectedType,
                }
            },
        }
    }
}

/// The outcome of resolving `key` in the document `root`.
pub open spec fn resolve_outcome(root: Seq<JsonMember>, key: Seq<char>) -> WalkOutcome {
    walk(root, spec_split(key, '/'))
}

fn lookup_member<'a>(ms: &'a Vec<JsonMember>, key: &str) -> (r: Option<&'a Json>)
    ensures
        match r {
            Some(v) => obj_lookup(ms@, key@) == Some(*v),
            None => obj_lookup(ms@, key@) is None,
        },
{
    let mut j: usize = 0;
    proof {
        assert(ms@.skip(0) =~= ms@);
    }
    while j < ms.len()
        invariant
            j <= ms.len(),
            obj_lookup(ms@, key@) == obj_lookup(ms@.skip(j as int), key@),
        decreases ms.len() - j,
    {
        proof {
            assert(ms@.skip(j as int)[0] == ms@[j as int]);
            assert(ms@.skip(j as int).drop_first() =~= ms@.skip(j + 1 as int));
        }
        if ms[j].key.as_str().eq(key) {
            return Some(&ms[j].value);
        }
        j = j + 1;
    }
    None
}

/// Resolves the sudo password: cuts `key` at `/` and walks the segments
/// through the document. A missing key or a segment that leads into an array
/// or null fails; a leaf's rendering is the password; segments that end
/// inside objects resolve to the empty password.
pub fn resolve_secret_password(root: &Vec<JsonMember>, key: &str) -> (r: Result<String, SopsError>)
    ensures
        match r {
            Ok(password) => resolve_outcome(root@, key@) == WalkOutcome::Found(password@),
            Err(e) => match e {
                SopsError::SopsKeyNotFound(m) => resolve_outcome(root@, key@) matches
                    WalkOutcome::KeyMissing(k) && m@ == "Did not find "@ + k + " in Map"@,
                SopsError::SerdeUnexpectedType(m) => resolve_outcome(root@, key@)
                    == WalkOutcome::UnexpectedType,
                _ => false,
            },
        },
{
    let segments = split_char(key, '/');
    let mut current: &Vec<JsonMember> = root;
    let mut i: usize = 0;
    let ghost segs = segments.deep_view();
    proof {
        assert(segs.skip(0) =~= segs);
    }
    while i < segments.len()
        invariant
            i <= segments.len(),
            segs == segments.deep_view(),
            resolve_outcome(root@, key@) == walk(current@, segs.skip(i as int)),
        decreases segments.len() - i,
    {
        proof {
            assert(segs.skip(i as int)[0] == segs[i as int]);
            assert(segs[i as int] == segments[i as int]@);
            assert(segs.skip(i as int).drop_first() =~= segs.skip(i + 1 as int));
        }
        match lookup_member(current, segments[i].as_str()) {
            None => {
                let mut m = "Did not find ".to_owned();
                m.append(segments[i].as_str());
                m.append(" in Map");
                proof {
                    assert(m@ =~= "Did not find "@ + segs[i as int] + " in Map"@);
                }
                return Err(SopsError::SopsKeyNotFound(m));
            },
            Some(v) => match v {
                Json::Str(s) => {
                    return Ok(s.clone());
                },
                Json::Bool(b) => {
                    let r = if *b {
                        "true".to_owned()
                    } else {
                        "false".to_owned()
                    };
                    return Ok(r);
                },
                Json::Number(n) => {
                    return Ok(n.clone());
                },
                Json::Object(inner) => {
                    current = inner;
                },
                _ => {
                    return Err(
                        SopsError::SerdeUnexpectedType(
                            "We dont handle Arrays, Bools, None, Numbers".to_owned(),
                        ),
                    );
                },
            },
        }
        i = i + 1;
    }
    proof {
        assert(segs.skip(segments.len() as int) =~= Seq::<Seq<char>>::empty());
    }
    Ok(String::new())
}

} // verus!
