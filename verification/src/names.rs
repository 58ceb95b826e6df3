//! The naming convention of map files: a file is a map when its extension is
//! `json` and its name ends in `.map.json`.

use vstd::prelude::*;

verus! {

/// The extension of a map file, without the dot.
pub const MAP_EXTENSION: &'static str = "json";

/// The ending that marks a file as a map.
pub const MAP_SUFFIX: &'static str = ".map.json";

/// The characters of `MAP_EXTENSION`.
pub open spec fn map_extension() -> Seq<char> {
    seq!['j', 's', 'o', 'n']
}

/// The characters of `MAP_SUFFIX`.
pub open spec fn map_suffix() -> Seq<char> {
    seq!['.', 'm', 'a', 'p', '.', 'j', 's', 'o', 'n']
}

/// The index of the last dot of `name`, or -1 where it has none.
pub open spec fn last_dot(name: Seq<char>) -> int
    decreases name.len(),
{
    if name.len() == 0 {
        -1
    } else if name.last() == '.' {
        name.len() - 1
    } else {
        last_dot(name.drop_last())
    }
}

/// The extension of a file name: what follows its last dot. A name without
/// a dot has none, nor has one whose only dot is its first character, nor
/// has the name `..`.
pub open spec fn extension(name: Seq<char>) -> Option<Seq<char>> {
    let dot = last_dot(name);
    if dot <= 0 || name == seq!['.', '.'] {
        None
    } else {
        Some(name.subrange(dot + 1, name.len() as int))
    }
}

/// Whether a file of this name is a map: both conditions of the convention.
pub open spec fn is_map_name(name: Seq<char>) -> bool {
    extension(name) == Some(map_extension()) && map_suffix().is_suffix_of(name)
}

/// What `last_dot` finds: a dot with no dot after it, or that there is none.
pub proof fn lemma_last_dot(name: Seq<char>)
    ensures
        -1 <= last_dot(name) < name.len(),
        last_dot(name) >= 0 ==> name[last_dot(name)] == '.',
        forall|i: int| last_dot(name) < i < name.len() ==> name[i] != '.',
    decreases name.len(),
{
    if name.len() > 0 && name.last() != '.' {
        let head = name.drop_last();
        lemma_last_dot(head);
        assert forall|i: int| last_dot(name) < i < name.len() implies name[i] != '.' by {
            if i < head.len() {
                assert(head[i] == name[i]);
            }
        }
    }
}

/// The last dot is where a dot stands that no dot follows.
pub proof fn lemma_last_dot_at(name: Seq<char>, dot: int)
    requires
        0 <= dot < name.len(),
        name[dot] == '.',
        forall|i: int| dot < i < name.len() ==> name[i] != '.',
    ensures
        last_dot(name) == dot,
{
    lemma_last_dot(name);
}

/// The second condition of the convention implies the first: a name that
/// ends in `.map.json` has the extension `json`. So a file is a map exactly
/// when its name ends in `.map.json`.
pub proof fn lemma_map_suffix_decides(name: Seq<char>)
    ensures
        map_suffix().is_suffix_of(name) ==> extension(name) == Some(map_extension()),
        is_map_name(name) == map_suffix().is_suffix_of(name),
{
    if map_suffix().is_suffix_of(name) {
        let start = name.len() - 9;
        let tail = name.subrange(start, name.len() as int);
        assert(tail == map_suffix());
        assert forall|k: int| 0 <= k < 9 implies name[start + k] == map_suffix()[k] by {
            assert(tail[k] == name[start + k]);
        }
        assert(name[start + 4] == '.');
        assert forall|i: int| start + 4 < i < name.len() implies name[i] != '.' by {
            let k = i - start;
            assert(name[start + k] == map_suffix()[k]);
        }
        lemma_last_dot_at(name, start + 4);
        assert(name.subrange(start + 5, name.len() as int) =~= map_extension()) by {
            assert forall|k: int| 0 <= k < 4 implies name[start + 5 + k] == map_extension()[k] by {
                assert(name[start + (5 + k)] == map_suffix()[5 + k]);
            }
        }
        assert(name.len() != 2);
    }
}

/// The characters of a string, one by one.
fn chars_of(text: &str) -> (chars: Vec<char>)
    ensures
        chars@ == text@,
{
    let mut chars: Vec<char> = Vec::new();
    for c in it: text.chars()
        invariant
            it.seq() == text@,
            chars@ == it.seq().subrange(0, it.index() as int),
    {
        chars.push(c);
    }
    chars
}

fn ends_with(name: &Vec<char>, suffix: &Vec<char>) -> (found: bool)
    ensures
        found == suffix@.is_suffix_of(name@),
{
    if suffix.len() > name.len() {
        return false;
    }
    let start: usize = name.len() - suffix.len();
    let ghost tail = name@.subrange(start as int, name.len() as int);
    for k in 0..suffix.len()
        invariant
            start + suffix.len() == name.len(),
            tail == name@.subrange(start as int, name.len() as int),
            forall|j: int| 0 <= j < k ==> name[start + j] == suffix[j],
    {
        if name[start + k] != suffix[k] {
            assert(tail[k as int] != suffix@[k as int]);
            return false;
        }
    }
    assert(suffix@ =~= tail);
    true
}

fn find_last_dot(name: &Vec<char>) -> (dot: Option<usize>)
    ensures
        match dot {
            Some(at) => at == last_dot(name@),
            None => last_dot(name@) == -1,
        },
{
    let mut end: usize = name.len();
    assert(name@.subrange(0, end as int) =~= name@);
    while end > 0
        invariant
            end <= name.len(),
            last_dot(name@) == last_dot(name@.subrange(0, end as int)),
        decreases end,
    {
        let ghost head = name@.subrange(0, end as int);
        assert(head.last() == name[end - 1]);
        assert(head.drop_last() =~= name@.subrange(0, end - 1));
        if name[end - 1] == '.' {
            return Some(end - 1);
        }
        end = end - 1;
    }
    assert(name@.subrange(0, 0).len() == 0);
    None
}

fn extension_is(name: &Vec<char>, wanted: &Vec<char>) -> (found: bool)
    ensures
        found == (extension(name@) == Some(wanted@)),
{
    match find_last_dot(name) {
        None => false,
        Some(dot) => {
            if dot == 0 || (name.len() == 2 && name[0] == '.' && name[1] == '.') {
                proof {
                    if dot != 0 {
                        assert(name@ =~= seq!['.', '.']);
                    }
                }
                return false;
            }
            proof {
                lemma_last_dot(name@);
                if name@ == seq!['.', '.'] {
                    assert(seq!['.', '.'][0] == '.');
                    assert(seq!['.', '.'][1] == '.');
                    assert(seq!['.', '.'].len() == 2);
                }
            }
            let after: usize = dot + 1;
            if name.len() - after != wanted.len() {
                return false;
            }
            let ghost ext = name@.subrange(after as int, name.len() as int);
            for k in 0..wanted.len()
                invariant
                    after + wanted.len() == name.len(),
                    ext == name@.subrange(after as int, name.len() as int),
                    extension(name@) == Some(ext),
                    forall|j: int| 0 <= j < k ==> name[after + j] == wanted[j],
            {
                if name[after + k] != wanted[k] {
                    assert(ext[k as int] != wanted@[k as int]);
                    return false;
                }
            }
            assert(ext =~= wanted@);
            true
        },
    }
}

/// Whether `name` ends in `suffix`.
pub fn has_suffix(name: &str, suffix: &str) -> (found: bool)
    ensures
        found == suffix@.is_suffix_of(name@),
{
    ends_with(&chars_of(name), &chars_of(suffix))
}

/// Whether the extension of the file name `name` is exactly `wanted`.
pub fn has_extension(name: &str, wanted: &str) -> (found: bool)
    ensures
        found == (extension(name@) == Some(wanted@)),
{
    extension_is(&chars_of(name), &chars_of(wanted))
}

/// Whether a file of this name is a map. Both conditions of the convention
/// are tested.
pub fn is_map_file(name: &str) -> (is_map: bool)
    ensures
        is_map == is_map_name(name@),
        is_map == map_suffix().is_suffix_of(name@),
{
    proof {
        reveal_strlit("json");
        reveal_strlit(".map.json");
        assert(MAP_EXTENSION@ =~= map_extension());
        assert(MAP_SUFFIX@ =~= map_suffix());
        lemma_map_suffix_decides(name@);
    }
    let chars = chars_of(name);
    extension_is(&chars, &chars_of(MAP_EXTENSION)) && ends_with(&chars, &chars_of(MAP_SUFFIX))
}

} // verus!
