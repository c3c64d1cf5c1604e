//! Sanitization of entry-point names.
//!
//! In multi-module builds each artifact is named after its fully qualified
//! entry point, such as `pkg::vertex_main`.  Such a name is made
//! file-system safe by replacing every occurrence of the namespace
//! separator `::` with a single underscore.

use vstd::prelude::*;

verus! {

/// The byte value of `:`; two in a row form the namespace separator.
pub const COLON: u8 = 58;

/// The byte value of `_`, which replaces each namespace separator.
pub const UNDERSCORE: u8 = 95;

/// The sanitized form of a name: every occurrence of `::`, scanned left to
/// right without overlap, becomes one `_`; all other bytes are kept.
pub open spec fn sanitize_spec(s: Seq<u8>) -> Seq<u8>
    decreases s.len(),
{
    if s.len() >= 2 && s[0] == COLON && s[1] == COLON {
        seq![UNDERSCORE] + sanitize_spec(s.skip(2))
    } else if s.len() >= 1 {
        seq![s[0]] + sanitize_spec(s.skip(1))
    } else {
        Seq::<u8>::empty()
    }
}

/// Replaces every occurrence of the namespace separator `::` in `name`
/// with a single underscore.
pub fn sanitize_entry_point(name: &Vec<u8>) -> (r: Vec<u8>)
    ensures
        r@ == sanitize_spec(name@),
{
    let mut out: Vec<u8> = Vec::new();
    let mut i: usize = 0;
    proof {
        assert(name@.skip(0) =~= name@);
        assert(out@ + sanitize_spec(name@) =~= sanitize_spec(name@));
    }
    while i < name.len()
        invariant
            i <= name.len(),
            sanitize_spec(name@) == out@ + sanitize_spec(name@.skip(i as int)),
        decreases name@.len() - i,
    {
        if i + 1 < name.len() && name[i] == COLON && name[i + 1] == COLON {
            proof {
                assert(name@.skip(i as int).skip(2) =~= name@.skip(i as int + 2));
                assert(sanitize_spec(name@.skip(i as int)) == seq![UNDERSCORE] + sanitize_spec(
                    name@.skip(i as int + 2),
                ));
            }
            out.push(UNDERSCORE);
            i = i + 2;
            assert(out@ + sanitize_spec(name@.skip(i as int)) == sanitize_spec(name@));
        } else {
            proof {
                assert(name@.skip(i as int).skip(1) =~= name@.skip(i as int + 1));
                assert(sanitize_spec(name@.skip(i as int)) == seq![name@[i as int]]
                    + sanitize_spec(name@.skip(i as int + 1)));
            }
            out.push(name[i]);
            i = i + 1;
            assert(out@ + sanitize_spec(name@.skip(i as int)) == sanitize_spec(name@));
        }
    }
    proof {
        assert(name@.skip(name@.len() as int) =~= Seq::<u8>::empty());
    }
    out
}

/// A sanitized name is never empty when the input is not, and it keeps
/// the input's first byte unless that byte opened a separator; in
/// particular a name that does not start with `:` keeps its first byte.
proof fn lemma_sanitize_head(s: Seq<u8>)
    requires
        s.len() > 0,
    ensures
        sanitize_spec(s).len() > 0,
        s[0] != COLON ==> sanitize_spec(s)[0] == s[0],
        sanitize_spec(s)[0] == COLON ==> s[0] == COLON,
{
}

/// After sanitization, no two adjacent bytes are both `:`: the namespace
/// separator does not occur in a sanitized name.
pub proof fn lemma_sanitize_no_separator(s: Seq<u8>)
    ensures
        forall|k: int|
            0 <= k && k + 1 < sanitize_spec(s).len() ==> !(#[trigger] sanitize_spec(s)[k]
                == COLON && sanitize_spec(s)[k + 1] == COLON),
    decreases s.len(),
{
    if s.len() >= 2 && s[0] == COLON && s[1] == COLON {
        lemma_sanitize_no_separator(s.skip(2));
        let r = sanitize_spec(s);
        let rr = sanitize_spec(s.skip(2));
        assert forall|k: int| 0 <= k && k + 1 < r.len() implies !(#[trigger] r[k] == COLON
            && r[k + 1] == COLON) by {
            if k >= 1 {
                assert(r[k] == rr[k - 1]);
                assert(r[k + 1] == rr[k]);
            }
        }
    } else if s.len() >= 1 {
        lemma_sanitize_no_separator(s.skip(1));
        let r = sanitize_spec(s);
        let rr = sanitize_spec(s.skip(1));
        assert forall|k: int| 0 <= k && k + 1 < r.len() implies !(#[trigger] r[k] == COLON
            && r[k + 1] == COLON) by {
            if k >= 1 {
                assert(r[k] == rr[k - 1]);
                assert(r[k + 1] == rr[k]);
            } else {
                assert(r[0] == s[0]);
                assert(r[1] == rr[0]);
                if s[0] == COLON && rr[0] == COLON {
                    assert(s.len() >= 2 && s[1] != COLON);
                    assert(s.skip(1).len() > 0);
                    assert(s.skip(1)[0] == s[1]);
                    lemma_sanitize_head(s.skip(1));
                }
            }
        }
    }
}

/// A name in which the separator does not occur is left unchanged by
/// sanitization.
pub proof fn lemma_sanitize_identity(s: Seq<u8>)
    requires
        forall|k: int| 0 <= k && k + 1 < s.len() ==> !(#[trigger] s[k] == COLON && s[k + 1] == COLON),
    ensures
        sanitize_spec(s) == s,
    decreases s.len(),
{
    if s.len() == 0 {
        assert(sanitize_spec(s) =~= s);
    } else {
        assert(!(s.len() >= 2 && s[0] == COLON && s[1] == COLON));
        assert forall|k: int| 0 <= k && k + 1 < s.skip(1).len() implies !(#[trigger] s.skip(1)[k]
            == COLON && s.skip(1)[k + 1] == COLON) by {
            assert(s.skip(1)[k] == s[k + 1]);
            assert(s.skip(1)[k + 1] == s[k + 2]);
        }
        lemma_sanitize_identity(s.skip(1));
        assert(sanitize_spec(s) =~= s);
    }
}

/// Sanitization is idempotent: applying it twice gives the same name as
/// applying it once.
pub proof fn lemma_sanitize_idempotent(s: Seq<u8>)
    ensures
        sanitize_spec(sanitize_spec(s)) == sanitize_spec(s),
{
    lemma_sanitize_no_separator(s);
    lemma_sanitize_identity(sanitize_spec(s));
}

} // verus!
