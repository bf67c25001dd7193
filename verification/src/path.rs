//! Slash-separated paths, as text.
//!
//! An extension runs as a WASI component, so `/` is the only separator, and every path it
//! handles is built from text.

use vstd::prelude::*;

verus! {

/// What `name` denotes when it is taken relative to `base`.
pub open spec fn joined(base: Seq<char>, name: Seq<char>) -> Seq<char> {
    if name.len() > 0 && name[0] == '/' {
        name
    } else if base.len() == 0 || base.last() == '/' {
        base + name
    } else {
        base + seq!['/'] + name
    }
}

/// Where the text after the last `/` of `path` starts.
pub open spec fn last_component_start(path: Seq<char>) -> nat
    decreases path.len(),
{
    if path.len() == 0 || path.last() == '/' {
        path.len()
    } else {
        last_component_start(path.drop_last())
    }
}

/// The final component of `path`: empty components and `.` do not count, and there is none
/// when the path is empty, is the root, or ends in `..`.
pub open spec fn final_component(path: Seq<char>) -> Option<Seq<char>>
    decreases path.len(),
    via final_component_decreases
{
    let start = last_component_start(path);
    let component = path.skip(start as int);
    if component == seq!['.', '.'] {
        None
    } else if component.len() > 0 && component != seq!['.'] {
        Some(component)
    } else if start == 0 {
        None
    } else {
        final_component(path.take(start - 1))
    }
}

#[via_fn]
proof fn final_component_decreases(path: Seq<char>) {
    lemma_last_component_start(path);
}

/// The last component has no `/` in it, and a `/` precedes it unless it starts the path.
proof fn lemma_last_component_start(path: Seq<char>)
    ensures
        last_component_start(path) <= path.len(),
        last_component_start(path) > 0 ==> path[last_component_start(path) - 1] == '/',
        forall|i: int| last_component_start(path) <= i < path.len() ==> path[i] != '/',
    decreases path.len(),
{
    if path.len() > 0 && path.last() != '/' {
        lemma_last_component_start(path.drop_last());
        assert forall|i: int| last_component_start(path) <= i < path.len() implies path[i]
            != '/' by {
            if i < path.len() - 1 {
                assert(path.drop_last()[i] == path[i]);
            }
        }
    }
}

/// A start with those properties is the only one.
proof fn lemma_last_component_start_unique(path: Seq<char>, start: int)
    requires
        0 <= start <= path.len(),
        start > 0 ==> path[start - 1] == '/',
        forall|i: int| start <= i < path.len() ==> path[i] != '/',
    ensures
        last_component_start(path) == start,
{
    lemma_last_component_start(path);
}

/// Joins two paths as `std::path::Path::join` does.
pub fn join(base: &str, name: &str) -> (res: String)
    ensures
        res@ == joined(base@, name@),
{
    if name.unicode_len() > 0 && name.get_char(0) == '/' {
        return name.to_string();
    }
    let n: usize = base.unicode_len();
    if n == 0 || base.get_char(n - 1) == '/' {
        base.to_string().concat(name)
    } else {
        proof {
            reveal_strlit("/");
            assert("/"@ =~= seq!['/']);
        }
        base.to_string().concat("/").concat(name)
    }
}

/// The final component of a path, as `std::path::Path::file_name` finds it.
pub fn file_name(path: &str) -> (res: Option<String>)
    ensures
        res is Some <==> final_component(path@) is Some,
        res matches Some(name) ==> final_component(path@) == Some(name@),
{
    let mut end: usize = path.unicode_len();
    assert(path@.take(end as int) =~= path@);
    loop
        invariant
            end <= path@.len(),
            final_component(path@.take(end as int)) == final_component(path@),
        decreases end,
    {
        let ghost rest = path@.take(end as int);
        let mut start: usize = end;
        while start > 0 && path.get_char(start - 1) != '/'
            invariant
                start <= end <= path@.len(),
                rest == path@.take(end as int),
                forall|i: int| start <= i < end ==> rest[i] != '/',
            decreases start,
        {
            start = start - 1;
        }
        proof {
            lemma_last_component_start_unique(rest, start as int);
            assert(rest.skip(start as int) =~= path@.subrange(start as int, end as int));
        }
        let component = path.substring_char(start, end);
        let n: usize = end - start;
        if n == 2 && component.get_char(0) == '.' && component.get_char(1) == '.' {
            assert(component@ =~= seq!['.', '.']);
            return None;
        }
        assert(component@ != seq!['.', '.']) by {
            if component@ == seq!['.', '.'] {
                assert(component@[0] == '.' && component@[1] == '.');
            }
        }
        let is_dot = n == 1 && component.get_char(0) == '.';
        assert(is_dot <==> component@ == seq!['.']) by {
            if is_dot {
                assert(component@ =~= seq!['.']);
            }
        }
        if n > 0 && !is_dot {
            return Some(component.to_string());
        }
        if start == 0 {
            return None;
        }
        assert(rest.take(start - 1) =~= path@.take(start - 1));
        end = start - 1;
    }
}

/// A path without `/` that is neither empty, `.` nor `..` is its own final component.
pub proof fn law_single_component_is_final(path: Seq<char>)
    requires
        path.len() > 0,
        !path.contains('/'),
        path != seq!['.'],
        path != seq!['.', '.'],
    ensures
        final_component(path) == Some(path),
{
    assert forall|i: int| 0 <= i < path.len() implies path[i] != '/' by {
        assert(path.contains(path[i]));
    }
    lemma_last_component_start_unique(path, 0);
    assert(path.skip(0) =~= path);
}

/// Joining puts exactly one `/` between the two paths, unless there is one already or the first is
/// empty; an absolute second path stands alone.
pub proof fn law_join(base: Seq<char>, name: Seq<char>)
    ensures
        "/"@.is_prefix_of(name) ==> joined(base, name) == name,
        !"/"@.is_prefix_of(name) && base.len() == 0 ==> joined(base, name) == name,
        !"/"@.is_prefix_of(name) && base.len() > 0 && base[base.len() - 1] == '/' ==> joined(
            base,
            name,
        ) == base + name,
        !"/"@.is_prefix_of(name) && base.len() > 0 && base[base.len() - 1] != '/' ==> joined(
            base,
            name,
        ) == base + "/"@ + name,
{
    reveal_strlit("/");
    assert("/"@ =~= seq!['/']);
    if name.len() > 0 && name[0] == '/' {
        assert("/"@ =~= name.subrange(0, 1));
    }
    if "/"@.is_prefix_of(name) {
        assert(name[0] == name.subrange(0, 1)[0]);
    }
    if base.len() == 0 {
        assert(base + name =~= name);
    }
}

/// Separators and `.` at the end of a path do not change its final component; after `..` there is
/// none; and anything else after a separator, or alone, is the final component itself. Every path
/// is of one of these forms.
pub proof fn law_final_component(path: Seq<char>, name: Seq<char>)
    requires
        !name.contains('/'),
    ensures
        final_component(Seq::<char>::empty()) is None,
        final_component("."@) is None,
        final_component(".."@) is None,
        final_component(path + "/"@) == final_component(path),
        final_component(path + "/."@) == final_component(path),
        final_component(path + "/.."@) is None,
        name.len() > 0 && name != "."@ && name != ".."@ ==> final_component(path + "/"@ + name)
            == Some(name),
        name.len() > 0 && name != "."@ && name != ".."@ ==> final_component(name) == Some(name),
{
    reveal_strlit("/");
    reveal_strlit(".");
    reveal_strlit("..");
    reveal_strlit("/.");
    reveal_strlit("/..");
    let none = Seq::<char>::empty();
    assert("/"@ =~= seq!['/']);
    assert("."@ =~= seq!['.']);
    assert(".."@ =~= seq!['.', '.']);
    lemma_single_component(none);
    lemma_single_component("."@);
    lemma_single_component(".."@);
    lemma_single_component(name);
    lemma_added_component(path, none);
    lemma_added_component(path, "."@);
    lemma_added_component(path, ".."@);
    lemma_added_component(path, name);
    assert(path + "/"@ =~= path + seq!['/'] + none);
    assert(path + "/."@ =~= path + seq!['/'] + "."@);
    assert(path + "/.."@ =~= path + seq!['/'] + ".."@);
    assert(path + "/"@ + name =~= path + seq!['/'] + name);
}

proof fn lemma_single_component(name: Seq<char>)
    requires
        !name.contains('/'),
    ensures
        final_component(name) == (if name.len() == 0 || name == seq!['.'] || name == seq![
            '.',
            '.',
        ] {
            None
        } else {
            Some(name)
        }),
{
    assert forall|i: int| 0 <= i < name.len() implies name[i] != '/' by {
        assert(name.contains(name[i]));
    }
    lemma_last_component_start_unique(name, 0);
    assert(name.skip(0) =~= name);
}

proof fn lemma_added_component(path: Seq<char>, name: Seq<char>)
    requires
        !name.contains('/'),
    ensures
        final_component(path + seq!['/'] + name) == (if name == seq!['.', '.'] {
            None
        } else if name.len() == 0 || name == seq!['.'] {
            final_component(path)
        } else {
            Some(name)
        }),
{
    let all = path + seq!['/'] + name;
    let start = path.len() + 1;
    assert forall|i: int| start <= i < all.len() implies all[i] != '/' by {
        assert(all[i] == name[i - start]);
        assert(name.contains(name[i - start]));
    }
    lemma_last_component_start_unique(all, start as int);
    assert(all.skip(start as int) =~= name);
    assert(all.take(start - 1) =~= path);
}

} // verus!
