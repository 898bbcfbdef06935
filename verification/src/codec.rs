use vstd::prelude::*;
use vstd::slice::{slice_subrange, slice_to_vec};

verus! {

/// The ASCII space byte that separates the two fields of a record line.
pub const SPACE: u8 = 32;

/// Whether a double space starts at position `i` of `line`.
pub open spec fn is_sep_at(line: Seq<u8>, i: int) -> bool {
    &&& 0 <= i
    &&& i + 2 <= line.len()
    &&& line[i] == SPACE
    &&& line[i + 1] == SPACE
}

/// Whether `line` contains a double space anywhere.
pub open spec fn has_sep(line: Seq<u8>) -> bool {
    exists|i: int| is_sep_at(line, i)
}

/// The position of the first double space at or after `from`, if any.
pub open spec fn find_sep(line: Seq<u8>, from: int) -> Option<int>
    decreases line.len() - from,
{
    if from + 2 <= line.len() {
        if line[from] == SPACE && line[from + 1] == SPACE {
            Some(from)
        } else {
            find_sep(line, from + 1)
        }
    } else {
        None
    }
}

/// Parsing a record line: the digest is everything before the first double
/// space, the path everything after it. A line without a double space is
/// malformed. Paths containing single spaces survive; a path containing a
/// double space before the intended separator is inherently ambiguous under
/// this format, and the split at the first double space is kept as is.
pub open spec fn parse_spec(line: Seq<u8>) -> Option<(Seq<u8>, Seq<u8>)> {
    match find_sep(line, 0) {
        Some(i) => Some((line.take(i), line.skip(i + 2))),
        None => None,
    }
}

/// Formatting a record line: digest, two spaces, path.
pub open spec fn format_spec(digest: Seq<u8>, path: Seq<u8>) -> Seq<u8> {
    digest + seq![SPACE, SPACE] + path
}

/// What `find_sep` finds is the first separator: a hit is a separator with
/// none before it (at or after `from`), and a miss means there is none at
/// all at or after `from`.
pub proof fn lemma_find_sep_first(line: Seq<u8>, from: int)
    requires
        0 <= from,
    ensures
        match find_sep(line, from) {
            Some(k) => {
                &&& from <= k
                &&& is_sep_at(line, k)
                &&& forall|j: int| from <= j < k ==> !is_sep_at(line, j)
            },
            None => forall|j: int| from <= j ==> !is_sep_at(line, j),
        },
    decreases line.len() - from,
{
    if from + 2 <= line.len() {
        if line[from] == SPACE && line[from + 1] == SPACE {
        } else {
            lemma_find_sep_first(line, from + 1);
        }
    } else {
        assert forall|j: int| from <= j implies !is_sep_at(line, j) by {
            assert(j + 2 > line.len());
        }
    }
}

/// Split a line `"<digest>  <path>"` into `(digest, path)` at its first
/// double space; a line without one is malformed and yields `None`.
pub fn split_line(line: &Vec<u8>) -> (r: Option<(Vec<u8>, Vec<u8>)>)
    ensures
        match r {
            Some((digest, path)) => parse_spec(line@) == Some((digest@, path@)),
            None => parse_spec(line@) is None,
        },
        r is Some <==> has_sep(line@),
{
    let n = line.len();
    if n < 2 {
        proof {
            lemma_find_sep_first(line@, 0);
            assert(find_sep(line@, 0) is None);
            assert forall|j: int| !is_sep_at(line@, j) by {}
            assert(!has_sep(line@));
        }
        return None;
    }
    let mut i: usize = 0;
    while i < n - 1
        invariant
            2 <= n,
            n == line@.len(),
            i <= n - 1,
            find_sep(line@, 0) == find_sep(line@, i as int),
        decreases n - i,
    {
        if line[i] == SPACE && line[i + 1] == SPACE {
            assert(find_sep(line@, i as int) == Some(i as int));
            let digest = slice_to_vec(slice_subrange(line.as_slice(), 0, i));
            let path = slice_to_vec(slice_subrange(line.as_slice(), i + 2, n));
            proof {
                assert(is_sep_at(line@, i as int));
                assert(digest@ =~= line@.take(i as int));
                assert(path@ =~= line@.skip(i as int + 2));
            }
            return Some((digest, path));
        }
        proof {
            assert(find_sep(line@, i as int) == find_sep(line@, i as int + 1));
        }
        i += 1;
    }
    proof {
        assert(find_sep(line@, i as int) is None);
        lemma_find_sep_first(line@, 0);
        assert forall|j: int| !is_sep_at(line@, j) by {}
        assert(!has_sep(line@));
    }
    None
}

/// Format one record line: digest, two spaces, path.
pub fn format_line(digest: &Vec<u8>, path: &Vec<u8>) -> (line: Vec<u8>)
    ensures
        line@ == format_spec(digest@, path@),
{
    let mut line = slice_to_vec(digest.as_slice());
    line.push(SPACE);
    line.push(SPACE);
    let mut tail = slice_to_vec(path.as_slice());
    line.append(&mut tail);
    assert(line@ =~= format_spec(digest@, path@));
    line
}

/// Round trip: a line formatted from a digest that contains no space parses
/// back to exactly that digest and path.
pub proof fn lemma_format_parse(digest: Seq<u8>, path: Seq<u8>)
    requires
        forall|k: int| 0 <= k < digest.len() ==> digest[k] != SPACE,
    ensures
        parse_spec(format_spec(digest, path)) == Some((digest, path)),
{
    let line = format_spec(digest, path);
    lemma_find_sep_stops_at(line, digest, 0);
    assert(find_sep(line, 0) == Some(digest.len() as int));
    assert(line.take(digest.len() as int) =~= digest);
    assert(line.skip(digest.len() as int + 2) =~= path);
}

/// Scanning a formatted line from anywhere inside the digest finds the
/// separator exactly at the end of the digest.
proof fn lemma_find_sep_stops_at(line: Seq<u8>, digest: Seq<u8>, from: int)
    requires
        0 <= from <= digest.len(),
        digest.len() + 2 <= line.len(),
        forall|k: int| 0 <= k < digest.len() ==> line[k] == digest[k],
        forall|k: int| 0 <= k < digest.len() ==> digest[k] != SPACE,
        line[digest.len() as int] == SPACE,
        line[digest.len() as int + 1] == SPACE,
    ensures
        find_sep(line, from) == Some(digest.len() as int),
    decreases digest.len() - from,
{
    if from < digest.len() {
        lemma_find_sep_stops_at(line, digest, from + 1);
    }
}

} // verus!
