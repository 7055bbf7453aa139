use vstd::prelude::*;

use crate::text::chars_of;
use crate::text::slice_of;

verus! {

/// Both kinds of path separator count, so that Windows and Unix paths compare alike.
pub open spec fn is_sep(c: char) -> bool {
    c == '/' || c == '\\'
}

pub open spec fn same_path_char(a: char, b: char) -> bool {
    a == b || (is_sep(a) && is_sep(b))
}

/// `p` without trailing separators.
pub open spec fn drop_trailing_seps(p: Seq<char>) -> Seq<char>
    decreases p.len(),
{
    if p.len() > 0 && is_sep(p.last()) {
        drop_trailing_seps(p.drop_last())
    } else {
        p
    }
}

/// `p` without leading separators.
pub open spec fn drop_leading_seps(p: Seq<char>) -> Seq<char>
    decreases p.len(),
{
    if p.len() > 0 && is_sep(p[0]) {
        drop_leading_seps(p.drop_first())
    } else {
        p
    }
}

/// `entry` lies under the folder `base`: it starts with `base`, compared with
/// either separator, and the match ends at a path component boundary.
pub open spec fn under_base(base: Seq<char>, entry: Seq<char>) -> bool {
    &&& 0 < base.len() <= entry.len()
    &&& forall|i: int| 0 <= i < base.len() ==> same_path_char(#[trigger] base[i], entry[i])
    &&& (entry.len() == base.len() || is_sep(entry[base.len() as int]))
}

/// `entry` relative to the folder `root` when it lies under it; otherwise `entry` itself.
pub open spec fn relative_to(root: Seq<char>, entry: Seq<char>) -> Seq<char> {
    let base = drop_trailing_seps(root);
    if under_base(base, entry) {
        drop_leading_seps(entry.skip(base.len() as int))
    } else {
        entry
    }
}

fn is_sep_char(c: char) -> (r: bool)
    ensures
        r == is_sep(c),
{
    c == '/' || c == '\\'
}

/// `entry` with the folder `root` taken off its front, when it lies under that folder.
pub fn strip_root(root: &str, entry: &str) -> (r: String)
    ensures
        r@ == relative_to(root@, entry@),
{
    let rs = chars_of(root);
    let es = chars_of(entry);
    let mut n: usize = rs.len();
    assert(root@.take(rs.len() as int) =~= root@);
    while n > 0 && is_sep_char(rs[n - 1])
        invariant
            rs@ == root@,
            n <= rs.len(),
            drop_trailing_seps(root@) == drop_trailing_seps(root@.take(n as int)),
        decreases n,
    {
        assert(root@.take(n as int).drop_last() =~= root@.take(n - 1));
        n = n - 1;
    }
    let ghost base = root@.take(n as int);
    assert(drop_trailing_seps(root@) == base) by {
        if n > 0 {
            assert(base.last() == rs@[n - 1]);
        }
    }
    if n == 0 || n > es.len() {
        return String::from_str(entry);
    }
    let mut i: usize = 0;
    while i < n
        invariant
            rs@ == root@,
            es@ == entry@,
            n <= rs.len(),
            n <= es.len(),
            base == root@.take(n as int),
            drop_trailing_seps(root@) == base,
            i <= n,
            forall|j: int| 0 <= j < i ==> same_path_char(#[trigger] base[j], entry@[j]),
        decreases n - i,
    {
        if !(rs[i] == es[i] || (is_sep_char(rs[i]) && is_sep_char(es[i]))) {
            assert(!same_path_char(base[i as int], entry@[i as int]));
            assert(!under_base(base, entry@));
            return String::from_str(entry);
        }
        i = i + 1;
    }
    if n < es.len() && !is_sep_char(es[n]) {
        return String::from_str(entry);
    }
    assert(under_base(base, entry@));
    let mut k: usize = n;
    assert(entry@.skip(n as int) =~= entry@.subrange(n as int, es.len() as int));
    while k < es.len() && is_sep_char(es[k])
        invariant
            es@ == entry@,
            n <= k <= es.len(),
            drop_leading_seps(entry@.skip(n as int)) == drop_leading_seps(
                entry@.subrange(k as int, es.len() as int),
            ),
        decreases es.len() - k,
    {
        assert(entry@.subrange(k as int, es.len() as int).drop_first() =~= entry@.subrange(
            k + 1,
            es.len() as int,
        ));
        k = k + 1;
    }
    let ghost rest = entry@.subrange(k as int, es.len() as int);
    assert(drop_leading_seps(rest) == rest) by {
        if k < es.len() {
            assert(rest[0] == es@[k as int]);
        }
    }
    slice_of(entry, k, es.len())
}

} // verus!
