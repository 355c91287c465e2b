//! Local paths derived from object keys.
//!
//! A key is a sequence of characters in which `/` separates segments. Nothing
//! here looks at the filesystem or at the store.

use vstd::prelude::*;

verus! {

/// The character that separates the segments of a key or of a path.
pub open spec fn is_separator(c: char) -> bool {
    c == '/'
}

/// The position of the last separator in `s`, or `-1` where it has none.
pub open spec fn last_separator(s: Seq<char>) -> int
    decreases s.len(),
{
    if s.len() == 0 {
        -1
    } else if is_separator(s.last()) {
        s.len() - 1
    } else {
        last_separator(s.drop_last())
    }
}

/// What follows the last separator of `key`; the whole key where it has none.
pub open spec fn final_segment(key: Seq<char>) -> Seq<char> {
    key.subrange(last_separator(key) + 1, key.len() as int)
}

/// `name` placed inside `base`: one separator stands between them, unless
/// `base` is empty or already ends in one.
pub open spec fn join_under(base: Seq<char>, name: Seq<char>) -> Seq<char> {
    if base.len() == 0 {
        name
    } else if is_separator(base.last()) {
        base + name
    } else {
        base.push('/') + name
    }
}

/// The local path of the object `key` in a directory-mode batch.
pub open spec fn directory_path(key: Seq<char>, base: Seq<char>) -> Seq<char> {
    join_under(base, final_segment(key))
}

/// `last_separator` is the greatest position that holds a separator.
pub proof fn lemma_last_separator(s: Seq<char>)
    ensures
        -1 <= last_separator(s) < s.len(),
        last_separator(s) >= 0 ==> is_separator(s[last_separator(s)]),
        forall|i: int| last_separator(s) < i < s.len() ==> !is_separator(#[trigger] s[i]),
    decreases s.len(),
{
    if s.len() > 0 && !is_separator(s.last()) {
        let head = s.drop_last();
        lemma_last_separator(head);
        assert forall|i: int| last_separator(s) < i < s.len() implies !is_separator(
            #[trigger] s[i],
        ) by {
            if i < head.len() {
                assert(s[i] == head[i]);
            }
        }
    }
}

/// The final segment holds no separator, it ends the key, and it is the whole
/// key exactly when the key holds no separator.
pub proof fn lemma_final_segment(key: Seq<char>)
    ensures
        forall|i: int|
            0 <= i < final_segment(key).len() ==> !is_separator(#[trigger] final_segment(key)[i]),
        final_segment(key).len() <= key.len(),
        key.subrange(key.len() - final_segment(key).len(), key.len() as int) == final_segment(key),
        final_segment(key).len() < key.len() ==> is_separator(
            key[key.len() - final_segment(key).len() - 1],
        ),
        (forall|i: int| 0 <= i < key.len() ==> !is_separator(#[trigger] key[i])) ==> final_segment(
            key,
        ) == key,
{
    lemma_last_separator(key);
    let cut = last_separator(key);
    if forall|i: int| 0 <= i < key.len() ==> !is_separator(#[trigger] key[i]) {
        assert(cut == -1);
        assert(final_segment(key) =~= key);
    }
}

/// The final segment of `key`, as a string of its own.
pub fn final_segment_of(key: &str) -> (segment: String)
    ensures
        segment@ == final_segment(key@),
{
    let len = key.unicode_len();
    let mut start: usize = 0;
    let mut i: usize = 0;
    while i < len
        invariant
            len == key@.len(),
            0 <= i <= len,
            start == last_separator(key@.subrange(0, i as int)) + 1,
        decreases len - i,
    {
        let c = key.get_char(i);
        proof {
            let before = key@.subrange(0, i as int);
            let now = key@.subrange(0, i + 1);
            assert(now.drop_last() =~= before);
            assert(now.last() == c);
        }
        if c == '/' {
            start = i + 1;
        }
        i = i + 1;
    }
    proof {
        assert(key@.subrange(0, len as int) =~= key@);
        lemma_last_separator(key@);
    }
    String::from_str(key.substring_char(start, len))
}

/// `name` placed inside `base`.
pub fn join(base: &str, name: &str) -> (path: String)
    ensures
        path@ == join_under(base@, name@),
{
    let len = base.unicode_len();
    let mut path = String::from_str(base);
    if len > 0 && base.get_char(len - 1) != '/' {
        proof {
            reveal_strlit("/");
        }
        path.append("/");
        assert(path@ =~= base@.push('/'));
    }
    path.append(name);
    proof {
        if len == 0 {
            assert(path@ =~= name@);
        }
    }
    path
}

/// The local path for `object_key` in a directory-mode batch: the key's final
/// segment inside `base_directory`.
pub fn resolve_for_directory(object_key: &str, base_directory: &str) -> (local_path: String)
    ensures
        local_path@ == directory_path(object_key@, base_directory@),
{
    let segment = final_segment_of(object_key);
    join(base_directory, segment.as_str())
}

} // verus!
