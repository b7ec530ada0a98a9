//! Paths as text, with `/` between their components.

use crate::text::{copy, opt_text, same};
use vstd::prelude::*;
use vstd::string::*;

verus! {

/// What follows the last slash of a path.
pub open spec fn after_slash(path: Seq<char>) -> Seq<char>
    decreases path.len(),
{
    if path.len() == 0 || path.last() == '/' {
        Seq::empty()
    } else {
        after_slash(path.drop_last()).push(path.last())
    }
}

/// The last component of a path: the last piece between slashes that is neither
/// empty nor `.`. Where that is `..`, or where there is none, the path names
/// nothing.
pub open spec fn last_component(path: Seq<char>) -> Option<Seq<char>>
    decreases path.len(),
{
    let piece = after_slash(path);
    if path.len() == 0 {
        None
    } else if piece.len() == 0 || piece == "."@ {
        last_component(path.drop_last())
    } else if piece == ".."@ {
        None
    } else {
        Some(piece)
    }
}

/// What stands behind a slash, with no slash in it, follows the last slash.
proof fn piece_follows(path: Seq<char>, start: int)
    requires
        0 <= start <= path.len(),
        start == 0 || path[start - 1] == '/',
        forall|i: int| start <= i < path.len() ==> path[i] != '/',
    ensures
        after_slash(path) == path.skip(start),
    decreases path.len(),
{
    if start < path.len() {
        let shorter = path.drop_last();
        piece_follows(shorter, start);
        assert(path.skip(start) =~= shorter.skip(start).push(path.last()));
    } else {
        assert(path.skip(start) =~= Seq::empty());
    }
}

/// The last component of a path.
pub fn file_name(path: &str) -> (r: Option<String>)
    ensures
        opt_text(r) == last_component(path@),
{
    let mut end: usize = path.unicode_len();
    assert(path@.take(end as int) =~= path@);
    while end > 0
        invariant
            end <= path@.len(),
            last_component(path@) == last_component(path@.take(end as int)),
        decreases end,
    {
        let ghost left = path@.take(end as int);
        let mut start: usize = end;
        while start > 0 && path.get_char(start - 1) != '/'
            invariant
                start <= end <= path@.len(),
                forall|i: int| start <= i < end ==> path@[i] != '/',
            decreases start,
        {
            start = start - 1;
        }
        let piece: &str = path.substring_char(start, end);
        proof {
            piece_follows(left, start as int);
            assert(left.skip(start as int) =~= piece@);
        }
        if start < end && !same(piece, ".") {
            if same(piece, "..") {
                return None;
            }
            return Some(copy(piece));
        }
        assert(left.drop_last() =~= path@.take(end - 1));
        end = end - 1;
    }
    None
}

/// A slash at the end of a path, or a component `.` behind one, does not matter.
/// A component that is neither empty, nor `.`, nor `..` is the last one if it
/// ends the path, and behind `..` there is none.
pub proof fn the_last_component_ends_the_path(dir: Seq<char>, name: Seq<char>)
    requires
        forall|i: int| 0 <= i < name.len() ==> (#[trigger] name[i]) != '/',
    ensures
        last_component(dir + seq!['/']) == last_component(dir),
        last_component(dir + seq!['/', '.']) == last_component(dir),
        last_component(dir + seq!['/', '.', '.']) is None,
        name.len() > 0 && name != seq!['.'] && name != seq!['.', '.'] ==> last_component(
            dir + seq!['/'] + name,
        ) == Some(name) && last_component(name) == Some(name),
        last_component(Seq::empty()) is None,
{
    reveal_strlit(".");
    reveal_strlit("..");
    assert("."@ =~= seq!['.']);
    assert(".."@ =~= seq!['.', '.']);
    let slashed = dir + seq!['/'];
    let n = dir.len() as int + 1;
    piece_follows(slashed, n);
    assert(slashed.skip(n) =~= Seq::empty());
    assert(slashed.drop_last() =~= dir);
    let one = dir + seq!['/', '.'];
    piece_follows(one, n);
    assert(one.skip(n) =~= seq!['.']);
    assert(one.drop_last() =~= slashed);
    let two = dir + seq!['/', '.', '.'];
    piece_follows(two, n);
    assert(two.skip(n) =~= seq!['.', '.']);
    let named = slashed + name;
    piece_follows(named, n);
    assert(named.skip(n) =~= name);
    piece_follows(name, 0);
    assert(name.skip(0) =~= name);
}

} // verus!
