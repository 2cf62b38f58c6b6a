//! Unix paths as text: the final component of a path, and a name put under a
//! directory.

use vstd::prelude::*;
use vstd::string::StrSliceExecFns;
use vstd::string::StringExecFns;

use crate::text::text_of;

verus! {

/// Where the last component of `path` begins: just after its last separator,
/// or at 0 if it has none.
pub open spec fn last_component_start(path: Seq<char>) -> int
    decreases path.len(),
{
    if path.len() == 0 || path.last() == '/' {
        path.len() as int
    } else {
        last_component_start(path.drop_last())
    }
}

/// The base filename of `path`: its final component, where trailing
/// separators and trailing `.` components do not count. There is none if
/// nothing is left, as for the empty path and for `/`, or if that component
/// is `..`.
pub open spec fn base_name(path: Seq<char>) -> Option<Seq<char>>
    decreases path.len(),
{
    if path.len() == 0 {
        None
    } else if path.last() == '/' {
        base_name(path.drop_last())
    } else {
        let component = path.subrange(last_component_start(path), path.len() as int);
        if component == seq!['.'] {
            base_name(path.drop_last())
        } else if component == seq!['.', '.'] {
            None
        } else {
            Some(component)
        }
    }
}

/// `name` put under the directory `dir`: a separator comes between the two
/// unless `dir` is empty or already ends in one. A `name` that starts at the
/// root stands for itself.
pub open spec fn joined(dir: Seq<char>, name: Seq<char>) -> Seq<char> {
    if name.len() > 0 && name[0] == '/' {
        name
    } else if dir.len() == 0 || dir.last() == '/' {
        dir + name
    } else {
        dir + seq!['/'] + name
    }
}

/// Whether `name` can be a base filename: it is not empty, holds no
/// separator, and is neither `.` nor `..`.
pub open spec fn is_plain_name(name: Seq<char>) -> bool {
    &&& name.len() > 0
    &&& !name.contains('/')
    &&& name != seq!['.']
    &&& name != seq!['.', '.']
}

/// A base filename is a plain name.
pub proof fn law_base_name_is_plain(path: Seq<char>)
    ensures
        base_name(path) matches Some(name) ==> is_plain_name(name),
    decreases path.len(),
{
    if path.len() == 0 {
    } else if path.last() == '/' {
        law_base_name_is_plain(path.drop_last());
    } else {
        let start = last_component_start(path);
        let component = path.subrange(start, path.len() as int);
        lemma_last_component(path);
        if component == seq!['.'] {
            law_base_name_is_plain(path.drop_last());
        }
    }
}

/// A plain name put under a directory is the base filename of the result,
/// and the result begins with the directory.
pub proof fn law_joined_keeps_name(dir: Seq<char>, name: Seq<char>)
    requires
        is_plain_name(name),
    ensures
        base_name(joined(dir, name)) == Some(name),
        dir.is_prefix_of(joined(dir, name)),
{
    let path = joined(dir, name);
    assert(name[0] != '/') by {
        if name[0] == '/' {
            assert(name.contains('/'));
        }
    }
    let front = if dir.len() == 0 || dir.last() == '/' {
        dir
    } else {
        dir + seq!['/']
    };
    assert(path =~= front + name);
    lemma_component_after(front, name);
    assert(path.last() == name.last());
    assert(name.last() != '/') by {
        if name.last() == '/' {
            assert(name.contains('/'));
        }
    }
    assert(path.subrange(front.len() as int, path.len() as int) =~= name);
    assert(dir =~= path.subrange(0, dir.len() as int));
}

/// After a front that is empty or ends in a separator, text without a
/// separator is one component.
proof fn lemma_component_after(front: Seq<char>, name: Seq<char>)
    requires
        front.len() == 0 || front.last() == '/',
        !name.contains('/'),
    ensures
        last_component_start(front + name) == front.len(),
    decreases name.len(),
{
    let path = front + name;
    if name.len() == 0 {
        assert(path =~= front);
    } else {
        assert(path.last() == name.last());
        assert(name.last() != '/') by {
            if name.last() == '/' {
                assert(name.contains('/'));
            }
        }
        assert(path.drop_last() =~= front + name.drop_last());
        assert(!name.drop_last().contains('/')) by {
            if name.drop_last().contains('/') {
                let i = choose|i: int|
                    0 <= i < name.drop_last().len() && name.drop_last()[i] == '/';
                assert(name[i] == '/');
                assert(name.contains('/'));
            }
        }
        lemma_component_after(front, name.drop_last());
    }
}

/// The last component of a path that does not end in a separator is not
/// empty, holds no separator, and follows a separator or starts the path.
proof fn lemma_last_component(path: Seq<char>)
    requires
        path.len() > 0,
        path.last() != '/',
    ensures
        0 <= last_component_start(path) < path.len(),
        forall|k: int| last_component_start(path) <= k < path.len() ==> path[k] != '/',
        last_component_start(path) > 0 ==> path[last_component_start(path) - 1] == '/',
        !path.subrange(last_component_start(path), path.len() as int).contains('/'),
    decreases path.len(),
{
    let shorter = path.drop_last();
    let start = last_component_start(path);
    assert(start == last_component_start(shorter));
    if shorter.len() > 0 && shorter.last() != '/' {
        lemma_last_component(shorter);
        assert forall|k: int| start <= k < path.len() implies path[k] != '/' by {
            if k < shorter.len() {
                assert(shorter[k] == path[k]);
            }
        }
    } else {
        assert(start == shorter.len());
    }
    let component = path.subrange(start, path.len() as int);
    assert forall|i: int| 0 <= i < component.len() implies component[i] != '/' by {
        assert(component[i] == path[start + i]);
    }
}

/// The base filename of `path`, as `std::path::Path::file_name` finds it on
/// Unix.
pub fn file_name(path: &str) -> (name: Option<String>)
    ensures
        text_of(name) == base_name(path@),
{
    let mut end: usize = path.unicode_len();
    assert(path@.take(end as int) =~= path@);
    while end > 0
        invariant
            end <= path@.len(),
            base_name(path@) == base_name(path@.take(end as int)),
        decreases end,
    {
        let ghost prefix = path@.take(end as int);
        assert(prefix.drop_last() =~= path@.take(end - 1));
        if path.get_char(end - 1) == '/' {
            end = end - 1;
        } else {
            let mut start: usize = end - 1;
            while start > 0 && path.get_char(start - 1) != '/'
                invariant
                    start < end <= path@.len(),
                    prefix == path@.take(end as int),
                    last_component_start(prefix) == last_component_start(
                        path@.take(start as int),
                    ),
                decreases start,
            {
                assert(path@.take(start as int).drop_last() =~= path@.take(start - 1));
                start = start - 1;
            }
            assert(last_component_start(prefix) == start);
            let ghost component = prefix.subrange(start as int, end as int);
            assert(component =~= path@.subrange(start as int, end as int));
            if end - start == 1 && path.get_char(start) == '.' {
                assert(component =~= seq!['.']);
                end = end - 1;
            } else if end - start == 2 && path.get_char(start) == '.' && path.get_char(start + 1)
                == '.' {
                assert(component =~= seq!['.', '.']);
                return None;
            } else {
                assert(component != seq!['.']) by {
                    if component == seq!['.'] {
                        assert(component.len() == 1 && component[0] == '.');
                    }
                }
                assert(component != seq!['.', '.']) by {
                    if component == seq!['.', '.'] {
                        assert(component.len() == 2 && component[0] == '.' && component[1] == '.');
                    }
                }
                return Some(String::from_str(path.substring_char(start, end)));
            }
        }
    }
    None
}

/// `name` put under the directory `dir`, as `std::path::Path::join` does on
/// Unix.
pub fn join(dir: &str, name: &str) -> (path: String)
    ensures
        path@ == joined(dir@, name@),
{
    let dir_len = dir.unicode_len();
    if name.unicode_len() > 0 && name.get_char(0) == '/' {
        String::from_str(name)
    } else if dir_len == 0 || dir.get_char(dir_len - 1) == '/' {
        let mut path = String::from_str(dir);
        path.append(name);
        path
    } else {
        let mut path = String::from_str(dir);
        proof {
            reveal_strlit("/");
        }
        path.append("/");
        path.append(name);
        assert(path@ =~= dir@ + seq!['/'] + name@);
        path
    }
}

} // verus!
