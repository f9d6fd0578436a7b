use crate::pattern::{pattern_pieces, split};
use vstd::prelude::*;
use vstd::string::*;

verus! {

/// The regular expression that parts the segments of a module path: two colons.
pub open spec fn module_separator() -> Seq<char> {
    seq![':', ':']
}

/// The segment that names a module itself: the last piece of its path, or the whole path
/// where it has not been cut into pieces.
pub open spec fn leaf_of(pieces: Option<Seq<Seq<char>>>, path: Seq<char>) -> Seq<char> {
    match pieces {
        Some(found) => if found.len() > 0 {
            found.last()
        } else {
            path
        },
        None => path,
    }
}

/// Picks the last of the pieces that `path` was cut into, and `path` itself where there is
/// none.
pub fn last_piece(pieces: Option<Vec<String>>, path: &str) -> (r: String)
    ensures
        r@ == leaf_of(
            match pieces {
                Some(found) => Some(found.deep_view()),
                None => None,
            },
            path@,
        ),
{
    match pieces {
        Some(found) => {
            if found.len() > 0 {
                assert(found.deep_view().last() == found@[found@.len() - 1]@);
                found[found.len() - 1].clone()
            } else {
                String::from_str(path)
            }
        },
        None => String::from_str(path),
    }
}

/// The name under which a log line shows the module it comes from: the last segment of the
/// module's path.
pub fn module_leaf(path: &str) -> (r: String)
    ensures
        r@ == leaf_of(pattern_pieces(module_separator(), path@), path@),
{
    proof {
        reveal_strlit("::");
        assert("::"@ =~= module_separator());
    }
    let pieces = split("::", path);
    last_piece(pieces, path)
}

} // verus!
