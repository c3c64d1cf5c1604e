//! A byte-string model of file-system paths.
//!
//! Paths are sequences of bytes in which `/` separates components, read
//! as the standard library reads them: trailing separators are ignored,
//! a final `.` component stands for the directory itself and is skipped,
//! and a path that terminates in `..` has a parent but no file name.  A
//! `.` starts an extension only when it is not the first byte of the
//! file name.  The operations mirror what output planning needs:
//! splitting a source path into parent and file name, joining a
//! directory with a file name, and forcing the artifact extension `.spv`
//! onto a name.

use vstd::prelude::*;

verus! {

/// The byte value of `/`, the path separator.
pub const SLASH: u8 = 47;

/// The byte value of `.`, which introduces an extension.
pub const DOT: u8 = 46;

/// The index of the last `/` in `s`, or `-1` when `s` has none.
pub open spec fn last_slash_spec(s: Seq<u8>) -> int
    decreases s.len(),
{
    if s.len() == 0 {
        -1
    } else if s[s.len() - 1] == SLASH {
        s.len() - 1
    } else {
        last_slash_spec(s.drop_last())
    }
}

/// The index of the last `.` in `s` that is not at index 0, or `-1` when
/// there is no such `.`; a leading dot alone does not open an extension.
pub open spec fn last_dot_spec(s: Seq<u8>) -> int
    decreases s.len(),
{
    if s.len() <= 1 {
        -1
    } else if s[s.len() - 1] == DOT {
        s.len() - 1
    } else {
        last_dot_spec(s.drop_last())
    }
}

/// The suffix `.spv`, the fixed artifact extension.
pub open spec fn spv_suffix_spec() -> Seq<u8> {
    seq![DOT, 115u8, 112u8, 118u8]
}

/// `s` with its extension, if any, replaced by `.spv`.
pub open spec fn with_spv_spec(s: Seq<u8>) -> Seq<u8> {
    if last_dot_spec(s) >= 1 {
        s.take(last_dot_spec(s)) + spv_suffix_spec()
    } else {
        s + spv_suffix_spec()
    }
}

/// `dir` and `name` joined with a single separator: an empty `dir` adds
/// nothing, and a `dir` that already ends with `/` gets no second one.
pub open spec fn join_spec(dir: Seq<u8>, name: Seq<u8>) -> Seq<u8> {
    if dir.len() == 0 {
        name
    } else if dir[dir.len() - 1] == SLASH {
        dir + name
    } else {
        dir + seq![SLASH] + name
    }
}

/// `s` without its trailing run of separators.
pub open spec fn trim_slashes_spec(s: Seq<u8>) -> Seq<u8>
    decreases s.len(),
{
    if s.len() > 0 && s[s.len() - 1] == SLASH {
        trim_slashes_spec(s.drop_last())
    } else {
        s
    }
}

/// `s` with trailing separator runs and trailing `.` components removed,
/// as the standard library skips them when it looks for the final
/// component: `foo/`, `foo/.` and `foo/.//` all normalize to `foo`.  A
/// lone `.`, and any final `..`, are kept: they are real components.
pub open spec fn norm_back_spec(s: Seq<u8>) -> Seq<u8>
    decreases s.len(),
{
    if s.len() == 0 {
        s
    } else if s[s.len() - 1] == SLASH {
        norm_back_spec(s.drop_last())
    } else if s.len() >= 2 && s[s.len() - 1] == DOT && s[s.len() - 2] == SLASH {
        norm_back_spec(s.drop_last())
    } else {
        s
    }
}

/// The file-name component of `s`: the final component once trailing
/// separators and `.` components are skipped.  There is none when
/// nothing remains (the empty path, a root `/`, a lone `.`), and none
/// when the path terminates in `..`.
pub open spec fn file_name_spec(s: Seq<u8>) -> Option<Seq<u8>> {
    let n = norm_back_spec(s);
    let c = n.skip(last_slash_spec(n) + 1);
    if n.len() == 0 || c == seq![DOT] || c == seq![DOT, DOT] {
        None
    } else {
        Some(c)
    }
}

/// The path without its final component (trailing separators and `.`
/// components skipped first): the bytes before the component's last
/// separator, themselves stripped of trailing separators — the root `/`
/// when only separators precede, the empty path when nothing does.  The
/// empty path and a bare root have no parent.
pub open spec fn parent_spec(s: Seq<u8>) -> Option<Seq<u8>> {
    let n = norm_back_spec(s);
    if n.len() == 0 {
        None
    } else if last_slash_spec(n) == -1 {
        Some(Seq::<u8>::empty())
    } else {
        let p = trim_slashes_spec(n.take(last_slash_spec(n)));
        if p.len() == 0 {
            Some(seq![SLASH])
        } else {
            Some(p)
        }
    }
}

/// The last `/` lies before the end of the sequence and is a `/`.
proof fn lemma_last_slash_bounds(s: Seq<u8>)
    ensures
        -1 <= last_slash_spec(s) < s.len(),
        last_slash_spec(s) >= 0 ==> s[last_slash_spec(s)] == SLASH,
    decreases s.len(),
{
    if s.len() > 0 && s[s.len() - 1] != SLASH {
        lemma_last_slash_bounds(s.drop_last());
        if last_slash_spec(s) >= 0 {
            assert(s.drop_last()[last_slash_spec(s)] == s[last_slash_spec(s)]);
        }
    }
}

/// The last extension dot lies at an index of at least 1, before the end.
proof fn lemma_last_dot_bounds(s: Seq<u8>)
    ensures
        last_dot_spec(s) == -1 || 1 <= last_dot_spec(s) < s.len(),
    decreases s.len(),
{
    if s.len() > 1 && s[s.len() - 1] != DOT {
        lemma_last_dot_bounds(s.drop_last());
    }
}

/// Appends all of `src` onto `dst`.
fn append_bytes(dst: &mut Vec<u8>, src: &Vec<u8>)
    ensures
        final(dst)@ == old(dst)@ + src@,
{
    let ghost dst0 = dst@;
    let mut j: usize = 0;
    proof {
        assert(dst0 + src@.take(0) =~= dst0);
    }
    while j < src.len()
        invariant
            j <= src.len(),
            dst@ == dst0 + src@.take(j as int),
        decreases src@.len() - j,
    {
        dst.push(src[j]);
        proof {
            assert((dst0 + src@.take(j as int)).push(src@[j as int]) =~= dst0 + src@.take(
                j as int + 1,
            ));
        }
        j = j + 1;
    }
    proof {
        assert(src@.take(src@.len() as int) =~= src@);
    }
}

/// The bytes of `src` from `from` (inclusive) to `to` (exclusive), as a
/// fresh vector.
fn copy_range(src: &Vec<u8>, from: usize, to: usize) -> (r: Vec<u8>)
    requires
        from <= to <= src@.len(),
    ensures
        r@ == src@.subrange(from as int, to as int),
{
    let mut r: Vec<u8> = Vec::new();
    let mut j: usize = from;
    while j < to
        invariant
            from <= j <= to <= src@.len(),
            r@ == src@.subrange(from as int, j as int),
        decreases to - j,
    {
        r.push(src[j]);
        proof {
            assert(src@.subrange(from as int, j as int).push(src@[j as int]) =~= src@.subrange(
                from as int,
                j as int + 1,
            ));
        }
        j = j + 1;
    }
    proof {
        assert(r@ =~= src@.subrange(from as int, to as int));
    }
    r
}

/// A fresh vector with the same bytes as `src`.
pub fn clone_bytes(src: &Vec<u8>) -> (r: Vec<u8>)
    ensures
        r@ == src@,
{
    let r = copy_range(src, 0, src.len());
    proof {
        assert(src@.subrange(0, src@.len() as int) =~= src@);
    }
    r
}

/// How far the normal form of `path` reaches: the normal form is the
/// prefix of that length.
fn norm_back_len(path: &Vec<u8>) -> (n: usize)
    ensures
        n <= path@.len(),
        norm_back_spec(path@) == path@.take(n as int),
        n > 0 ==> path@[n as int - 1] != SLASH,
        n > 0 ==> !(n >= 2 && path@[n as int - 1] == DOT && path@[n as int - 2] == SLASH),
{
    let mut n: usize = path.len();
    proof {
        assert(path@.take(path@.len() as int) =~= path@);
    }
    while n > 0 && (path[n - 1] == SLASH || (n >= 2 && path[n - 1] == DOT && path[n - 2] == SLASH))
        invariant
            n <= path@.len(),
            norm_back_spec(path@) == norm_back_spec(path@.take(n as int)),
        decreases n,
    {
        proof {
            assert(path@.take(n as int).drop_last() =~= path@.take(n as int - 1));
        }
        n = n - 1;
    }
    n
}

/// The index just past the last `/` among the first `end` bytes of
/// `path`: `0` when there is none.
fn last_slash_end_upto(path: &Vec<u8>, end: usize) -> (i: usize)
    requires
        end <= path@.len(),
    ensures
        i <= end,
        i as int == last_slash_spec(path@.take(end as int)) + 1,
{
    let mut i: usize = end;
    proof {
        assert(path@.take(end as int).take(end as int) =~= path@.take(end as int));
    }
    while i > 0 && path[i - 1] != SLASH
        invariant
            i <= end <= path@.len(),
            last_slash_spec(path@.take(end as int)) == last_slash_spec(
                path@.take(end as int).take(i as int),
            ),
        decreases i,
    {
        proof {
            assert(path@.take(end as int).take(i as int).drop_last() =~= path@.take(
                end as int,
            ).take(i as int - 1));
        }
        i = i - 1;
    }
    i
}

/// Joins a directory path and a file name with a single separator.
pub fn join(dir: &Vec<u8>, name: &Vec<u8>) -> (r: Vec<u8>)
    ensures
        r@ == join_spec(dir@, name@),
{
    let mut r: Vec<u8> = Vec::new();
    append_bytes(&mut r, dir);
    if dir.len() > 0 && dir[dir.len() - 1] != SLASH {
        r.push(SLASH);
    }
    append_bytes(&mut r, name);
    proof {
        assert(r@ =~= join_spec(dir@, name@));
    }
    r
}

/// Replaces the extension of `name`, if any, by `.spv`; a name without an
/// extension just gains `.spv`.
pub fn with_spv_extension(name: &Vec<u8>) -> (r: Vec<u8>)
    ensures
        r@ == with_spv_spec(name@),
{
    proof {
        lemma_last_dot_bounds(name@);
        assert(name@.take(name@.len() as int) =~= name@);
    }
    let mut i: usize = name.len();
    while i > 1 && name[i - 1] != DOT
        invariant
            i <= name@.len(),
            last_dot_spec(name@) == last_dot_spec(name@.take(i as int)),
        decreases i,
    {
        proof {
            assert(name@.take(i as int).drop_last() =~= name@.take(i as int - 1));
        }
        i = i - 1;
    }
    let stem_end: usize = if i > 1 {
        i - 1
    } else {
        name.len()
    };
    proof {
        if i > 1 {
            assert(last_dot_spec(name@) == i - 1);
        } else {
            assert(last_dot_spec(name@) == -1);
        }
        assert(name@.subrange(0, stem_end as int) =~= (if last_dot_spec(name@) >= 1 {
            name@.take(last_dot_spec(name@))
        } else {
            name@
        }));
    }
    let mut r = copy_range(name, 0, stem_end);
    r.push(DOT);
    r.push(115);
    r.push(112);
    r.push(118);
    proof {
        assert(r@ =~= with_spv_spec(name@));
    }
    r
}

/// The file-name component of `path`, or `None` when nothing remains
/// after trailing separators and `.` components, or when the path
/// terminates in `..`.
pub fn file_name_of(path: &Vec<u8>) -> (r: Option<Vec<u8>>)
    ensures
        r is Some <==> file_name_spec(path@) is Some,
        r is Some ==> r.unwrap()@ == file_name_spec(path@).unwrap(),
{
    let n = norm_back_len(path);
    if n == 0 {
        return None;
    }
    proof {
        lemma_last_slash_bounds(path@.take(n as int));
    }
    let start = last_slash_end_upto(path, n);
    let c = copy_range(path, start, n);
    proof {
        assert(path@.subrange(start as int, n as int) =~= norm_back_spec(path@).skip(
            last_slash_spec(norm_back_spec(path@)) + 1,
        ));
    }
    let is_cur_dir = c.len() == 1 && c[0] == DOT;
    let is_parent_dir = c.len() == 2 && c[0] == DOT && c[1] == DOT;
    proof {
        if is_cur_dir {
            assert(c@ =~= seq![DOT]);
        }
        if is_parent_dir {
            assert(c@ =~= seq![DOT, DOT]);
        }
        assert(seq![DOT].len() == 1 && seq![DOT, DOT].len() == 2);
        assert(seq![DOT][0] == DOT && seq![DOT, DOT][0] == DOT && seq![DOT, DOT][1] == DOT);
    }
    if is_cur_dir || is_parent_dir {
        None
    } else {
        Some(c)
    }
}

/// The parent of `path`, or `None` when the path is empty or nothing but
/// a root remains after trailing separators and `.` components.
pub fn parent_of(path: &Vec<u8>) -> (r: Option<Vec<u8>>)
    ensures
        r is Some <==> parent_spec(path@) is Some,
        r is Some ==> r.unwrap()@ == parent_spec(path@).unwrap(),
{
    let n = norm_back_len(path);
    if n == 0 {
        return None;
    }
    proof {
        lemma_last_slash_bounds(path@.take(n as int));
    }
    let end = last_slash_end_upto(path, n);
    if end == 0 {
        let parent: Vec<u8> = Vec::new();
        Some(parent)
    } else {
        let j = end - 1;
        proof {
            assert(norm_back_spec(path@).take(j as int) =~= path@.take(j as int));
            assert(path@.take(j as int).take(j as int) =~= path@.take(j as int));
        }
        let mut m: usize = j;
        while m > 0 && path[m - 1] == SLASH
            invariant
                m <= j <= path@.len(),
                trim_slashes_spec(path@.take(j as int)) == trim_slashes_spec(
                    path@.take(m as int),
                ),
            decreases m,
        {
            proof {
                assert(path@.take(m as int).drop_last() =~= path@.take(m as int - 1));
            }
            m = m - 1;
        }
        if m == 0 {
            let mut parent: Vec<u8> = Vec::new();
            parent.push(SLASH);
            proof {
                assert(parent@ =~= seq![SLASH]);
            }
            Some(parent)
        } else {
            let parent = copy_range(path, 0, m);
            proof {
                assert(path@.subrange(0, m as int) =~= path@.take(m as int));
            }
            Some(parent)
        }
    }
}

} // verus!
