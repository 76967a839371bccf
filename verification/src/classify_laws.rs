//! Laws of the line classifier, proved once and for all lines.

use vstd::prelude::*;
use vstd::utf8::valid_utf8;
use vstd::utf8::decode_utf8;

use crate::classify::attr_name;
use crate::classify::attr_prefix;
use crate::classify::attr_sep_at;
use crate::classify::attr_sep_index;
use crate::classify::attr_store_path;
use crate::classify::classify_bytes;
use crate::classify::classify_text;
use crate::classify::copied_prefix;
use crate::classify::copied_sep_at;
use crate::classify::copied_sep_index;
use crate::classify::copied_source;
use crate::classify::eval_prefix;
use crate::classify::framed_body;
use crate::classify::is_attr_line;
use crate::classify::is_copied_line;
use crate::classify::is_eval_line;
use crate::classify::is_framed;
use crate::classify::is_read_line;
use crate::classify::last_attr_sep;
use crate::classify::last_copied_sep;
use crate::classify::read_prefix;
use crate::classify::sep;
use crate::classify::store_prefix;
use crate::classify::TextClass;
use crate::events::EventV;
use crate::errors::InternalErrorV;

verus! {

proof fn lemma_last_copied_sep_exact(s: Seq<char>, b: int, j: int)
    requires
        copied_sep_at(s, b),
        b <= j,
        forall|t: int| b < t <= j ==> !copied_sep_at(s, t),
    ensures
        last_copied_sep(s, j) == b,
    decreases j - b,
{
    if j > b {
        lemma_last_copied_sep_exact(s, b, j - 1);
    }
}

proof fn lemma_last_attr_sep_exact(s: Seq<char>, b: int, j: int)
    requires
        attr_sep_at(s, b),
        b <= j,
        forall|t: int| b < t <= j ==> !attr_sep_at(s, t),
    ensures
        last_attr_sep(s, j) == b,
    decreases j - b,
{
    if j > b {
        lemma_last_attr_sep_exact(s, b, j - 1);
    }
}

/// Law: every text line `evaluating file '<p>'` classifies as a source-path
/// event carrying exactly `<p>`.
pub proof fn lemma_classify_eval_line(p: Seq<char>)
    ensures
        classify_text(eval_prefix() + p + seq!['\'']) == TextClass::Source(p),
{
    let s = eval_prefix() + p + seq!['\''];
    assert(s.subrange(0, eval_prefix().len() as int) =~= eval_prefix());
    assert(s.last() == '\'');
    assert(is_eval_line(s));
    assert(framed_body(s, eval_prefix()) =~= p);
}

/// Law: every text line `trace: read: '<p>'` classifies as a source-path
/// event carrying exactly `<p>`.
pub proof fn lemma_classify_read_line(p: Seq<char>)
    ensures
        classify_text(read_prefix() + p + seq!['\'']) == TextClass::Source(p),
{
    let s = read_prefix() + p + seq!['\''];
    reveal_strlit("evaluating file '");
    reveal_strlit("copied source '");
    reveal_strlit("trace: read: '");
    assert(s[0] == 't');
    assert(!is_framed(s, eval_prefix())) by {
        if is_framed(s, eval_prefix()) {
            assert(s.subrange(0, eval_prefix().len() as int)[0] == 'e');
        }
    }
    assert(!is_framed(s, copied_prefix())) by {
        if is_framed(s, copied_prefix()) {
            assert(s.subrange(0, copied_prefix().len() as int)[0] == 'c');
        }
    }
    assert(s.subrange(0, read_prefix().len() as int) =~= read_prefix());
    assert(s.last() == '\'');
    assert(is_read_line(s));
    assert(framed_body(s, read_prefix()) =~= p);
}

/// Law: every text line `copied source '<p>' -> '<q>'` whose trailing part
/// `<q>` holds no quote classifies as a source-path event carrying exactly
/// `<p>`.
#[verifier::rlimit(100)]
pub proof fn lemma_classify_copied_line(p: Seq<char>, q: Seq<char>)
    requires
        forall|k: int| 0 <= k < q.len() ==> q[k] != '\'',
    ensures
        classify_text(copied_prefix() + p + sep() + q + seq!['\'']) == TextClass::Source(p),
{
    let s = copied_prefix() + p + sep() + q + seq!['\''];
    let plen = copied_prefix().len() as int;
    let b = plen + p.len() as int;
    let n = s.len() as int;
    reveal_strlit("evaluating file '");
    reveal_strlit("copied source '");
    reveal_strlit("' -> '");
    assert(s[0] == 'c');
    assert(!is_framed(s, eval_prefix())) by {
        if is_framed(s, eval_prefix()) {
            assert(s.subrange(0, eval_prefix().len() as int)[0] == 'e');
        }
    }
    assert(s.subrange(0, plen) =~= copied_prefix());
    assert(s.last() == '\'');
    assert(copied_sep_at(s, b)) by {
        assert(s.subrange(b, b + sep().len()) =~= sep());
    }
    assert(is_copied_line(s));
    assert(forall|t: int| b < t <= n - 1 - sep().len() ==> !copied_sep_at(s, t)) by {
        assert forall|t: int| b < t <= n - 1 - sep().len() implies !copied_sep_at(s, t) by {
            if copied_sep_at(s, t) {
                assert(s.subrange(t, t + sep().len())[0] == '\'');
                assert(s[t] == '\'');
                if t < b + 5 {
                    assert(s[t] == sep()[t - b]);
                } else if t == b + 5 {
                    assert(s.subrange(t, t + sep().len())[5] == '\'');
                    assert(s[t + 5] == '\'');
                    assert(s[b + 10] == q[4]);
                } else {
                    assert(s[t] == q[t - b - 6]);
                }
            }
        }
    }
    lemma_last_copied_sep_exact(s, b, n - 1 - sep().len());
    assert(copied_sep_index(s) == b);
    assert(copied_source(s) =~= p);
}

/// Law: every attribute trace line `trace: attribute: 'primary' ->
/// '<store-path>'` whose store path starts with `/nix/store/` and holds no
/// quote classifies as the primary-output event carrying the store path
/// verbatim, with no normalization.
#[verifier::rlimit(100)]
pub proof fn lemma_classify_attr_primary(sp: Seq<char>)
    requires
        sp.len() >= store_prefix().len(),
        sp.subrange(0, store_prefix().len() as int) == store_prefix(),
        forall|k: int| 0 <= k < sp.len() ==> sp[k] != '\'',
    ensures
        classify_text(attr_prefix() + "primary"@ + sep() + sp + seq!['\'']) == TextClass::Primary(
            sp,
        ),
{
    let name = "primary"@;
    let s = attr_prefix() + name + sep() + sp + seq!['\''];
    reveal_strlit("evaluating file '");
    reveal_strlit("copied source '");
    reveal_strlit("trace: read: '");
    reveal_strlit("trace: attribute: '");
    reveal_strlit("' -> '");
    reveal_strlit("/nix/store/");
    reveal_strlit("primary");
    let plen = attr_prefix().len() as int;
    let b = plen + name.len() as int;
    let n = s.len() as int;
    assert(s[0] == 't');
    assert(s[7] == 'a');
    assert(!is_framed(s, eval_prefix())) by {
        if is_framed(s, eval_prefix()) {
            assert(s.subrange(0, eval_prefix().len() as int)[0] == 'e');
        }
    }
    assert(!is_framed(s, copied_prefix())) by {
        if is_framed(s, copied_prefix()) {
            assert(s.subrange(0, copied_prefix().len() as int)[0] == 'c');
        }
    }
    assert(!is_framed(s, read_prefix())) by {
        if is_framed(s, read_prefix()) {
            assert(s.subrange(0, read_prefix().len() as int)[7] == 'r');
        }
    }
    assert(s.subrange(0, plen) =~= attr_prefix());
    assert(s.last() == '\'');
    assert(attr_sep_at(s, b)) by {
        assert(s.subrange(b, b + sep().len()) =~= sep());
        assert(s.subrange(b + sep().len(), b + sep().len() + store_prefix().len()) =~= sp.subrange(
            0,
            store_prefix().len() as int,
        ));
    }
    assert(is_attr_line(s));
    let hi = n - 1 - store_prefix().len() - sep().len();
    assert(forall|t: int| b < t <= hi ==> !attr_sep_at(s, t)) by {
        assert forall|t: int| b < t <= hi implies !attr_sep_at(s, t) by {
            if attr_sep_at(s, t) {
                assert(s.subrange(t, t + sep().len())[0] == '\'');
                assert(s[t] == '\'');
                if t < b + 5 {
                    assert(s[t] == sep()[t - b]);
                } else if t == b + 5 {
                    assert(s.subrange(t, t + sep().len())[5] == '\'');
                    assert(s[t + 5] == '\'');
                    assert(s[b + 10] == sp[4]);
                } else {
                    assert(s[t] == sp[t - b - 6]);
                }
            }
        }
    }
    lemma_last_attr_sep_exact(s, b, hi);
    assert(attr_sep_index(s) == b);
    assert(attr_name(s) =~= name);
    assert(attr_store_path(s) =~= sp);
}

/// Law: a text line matching no pattern classifies as an opaque-text event,
/// and the opaque event of a raw line keeps the original bytes unchanged,
/// so reconstructing the stream from opaque events reproduces it exactly.
pub proof fn lemma_classify_opaque_round_trip(bytes: Seq<u8>)
    requires
        valid_utf8(bytes),
        classify_text(decode_utf8(bytes)) is Other,
    ensures
        classify_bytes(bytes) == Ok::<EventV, InternalErrorV>(EventV::Text(bytes)),
{
}

/// Law: a byte sequence that is not valid text classifies as an opaque-text
/// event wrapping the original bytes without loss.
pub proof fn lemma_classify_invalid_text(bytes: Seq<u8>)
    requires
        !valid_utf8(bytes),
    ensures
        classify_bytes(bytes) == Ok::<EventV, InternalErrorV>(EventV::Text(bytes)),
{
}

} // verus!
