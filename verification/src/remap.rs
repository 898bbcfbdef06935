use vstd::prelude::*;
use vstd::slice::slice_to_vec;

verus! {

/// The byte that separates path components.
pub const PATH_SEP: u8 = 47;

/// Whether `path` lies under `base`: it is `base` itself, or continues past
/// `base` at a component boundary. Paths are taken verbatim as byte strings;
/// bases are expected without a trailing separator.
pub open spec fn path_under_base(path: Seq<u8>, base: Seq<u8>) -> bool {
    ||| path == base
    ||| {
        &&& base.len() < path.len()
        &&& path.take(base.len() as int) == base
        &&& path[base.len() as int] == PATH_SEP
    }
}

/// Remapping: a path under `old_base` has that prefix replaced by
/// `new_base`; any other path is returned unchanged. Remapping is used only
/// to locate a moved file — the recorded path is kept for reporting.
pub open spec fn remap_spec(path: Seq<u8>, old_base: Seq<u8>, new_base: Seq<u8>) -> Seq<u8> {
    if path == old_base {
        new_base
    } else if path_under_base(path, old_base) {
        new_base + path.skip(old_base.len() as int)
    } else {
        path
    }
}

/// Remap `path` from `old_base` to `new_base`: a path under `old_base` keeps
/// its suffix and changes its prefix; a path outside `old_base` comes back
/// unchanged.
pub fn remap_path(path: &Vec<u8>, old_base: &Vec<u8>, new_base: &Vec<u8>) -> (r: Vec<u8>)
    ensures
        r@ == remap_spec(path@, old_base@, new_base@),
        !path_under_base(path@, old_base@) ==> r@ == path@,
        path@ == old_base@ ==> r@ == new_base@,
        path_under_base(path@, old_base@) && path@ != old_base@ ==> r@ == new_base@
            + path@.skip(old_base@.len() as int),
{
    let ob = old_base.len();
    let n = path.len();
    if ob > n {
        proof {
            assert(!path_under_base(path@, old_base@));
        }
        return slice_to_vec(path.as_slice());
    }
    let mut j: usize = 0;
    while j < ob
        invariant
            ob == old_base@.len(),
            n == path@.len(),
            ob <= n,
            j <= ob,
            forall|k: int| 0 <= k < j ==> path@[k] == old_base@[k],
        decreases ob - j,
    {
        if path[j] != old_base[j] {
            proof {
                assert(path@.take(ob as int)[j as int] != old_base@[j as int]);
                assert(path@ != old_base@);
                assert(!path_under_base(path@, old_base@));
            }
            return slice_to_vec(path.as_slice());
        }
        j += 1;
    }
    proof {
        assert(path@.take(ob as int) =~= old_base@);
    }
    if n == ob {
        proof {
            assert(path@ =~= old_base@);
        }
        return slice_to_vec(new_base.as_slice());
    }
    if path[ob] == PATH_SEP {
        let mut r = slice_to_vec(new_base.as_slice());
        let mut tail = slice_to_vec(slice_subrange_from(path, ob));
        r.append(&mut tail);
        proof {
            assert(path@ != old_base@);
            assert(path_under_base(path@, old_base@));
            assert(r@ =~= new_base@ + path@.skip(ob as int));
        }
        r
    } else {
        proof {
            assert(path@ != old_base@);
            assert(!path_under_base(path@, old_base@));
        }
        slice_to_vec(path.as_slice())
    }
}

/// The suffix of `path` from position `from` on.
fn slice_subrange_from(path: &Vec<u8>, from: usize) -> (r: &[u8])
    requires
        from <= path@.len(),
    ensures
        r@ == path@.skip(from as int),
{
    let r = vstd::slice::slice_subrange(path.as_slice(), from, path.len());
    proof {
        assert(r@ =~= path@.skip(from as int));
    }
    r
}

} // verus!
