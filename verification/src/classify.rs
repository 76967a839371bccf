//! The line classifier: one raw diagnostic line in, one `LogDatum` out.
//!
//! A line that is not valid text is kept opaque, unchanged. A text line is
//! held, in order, against four patterns; the first match wins, and a line
//! matching none of them is kept opaque too:
//!
//!   1. `evaluating file '<path>'`
//!   2. `copied source '<path>' -> '<ignored>'`
//!   3. `trace: read: '<path>'`
//!   4. `trace: attribute: '<name>' -> '<store-path>'`
//!
//! A quoted capture extends to the last position at which the rest of the
//! pattern still matches, so a path may itself contain quotes. The attribute
//! names `primary` and `primary_gc_rooted` name the two build outputs; any
//! other name means the instrumentation script and this library have drifted
//! apart, which is fatal.

use vstd::prelude::*;
use vstd::string::StringSliceAdditionalSpecFns;
use vstd::string::StrSliceExecFns;
use vstd::utf8::valid_utf8;
use vstd::utf8::decode_utf8;
use vstd::utf8::encode_utf8_decode_utf8;

use crate::errors::InternalError;
use crate::errors::InternalErrorV;
use crate::events::EventV;
use crate::events::LogDatum;

verus! {

pub open spec fn eval_prefix() -> Seq<char> {
    "evaluating file '"@
}

pub open spec fn copied_prefix() -> Seq<char> {
    "copied source '"@
}

pub open spec fn read_prefix() -> Seq<char> {
    "trace: read: '"@
}

pub open spec fn attr_prefix() -> Seq<char> {
    "trace: attribute: '"@
}

/// The separator between a quoted capture and the quoted rest of a line.
pub open spec fn sep() -> Seq<char> {
    "' -> '"@
}

/// Every store path an attribute trace line may carry starts with this.
pub open spec fn store_prefix() -> Seq<char> {
    "/nix/store/"@
}

/// `s` is `prefix`, then any (possibly empty) capture, then a closing quote.
pub open spec fn is_framed(s: Seq<char>, prefix: Seq<char>) -> bool {
    &&& s.len() > prefix.len()
    &&& s.subrange(0, prefix.len() as int) == prefix
    &&& s.last() == '\''
}

/// The capture of a framed line: everything between the prefix and the
/// closing quote.
pub open spec fn framed_body(s: Seq<char>, prefix: Seq<char>) -> Seq<char> {
    s.subrange(prefix.len() as int, s.len() - 1)
}

/// The separator may stand at `i` in a copied-source line: past the prefix,
/// and leaving room for the closing quote.
pub open spec fn copied_sep_at(s: Seq<char>, i: int) -> bool {
    &&& copied_prefix().len() <= i
    &&& i + sep().len() <= s.len() - 1
    &&& s.subrange(i, i + sep().len()) == sep()
}

/// The separator may stand at `i` in an attribute line: past the prefix,
/// followed by a store path and leaving room for the closing quote.
pub open spec fn attr_sep_at(s: Seq<char>, i: int) -> bool {
    &&& attr_prefix().len() <= i
    &&& i + sep().len() + store_prefix().len() <= s.len() - 1
    &&& s.subrange(i, i + sep().len()) == sep()
    &&& s.subrange(i + sep().len(), i + sep().len() + store_prefix().len()) == store_prefix()
}

/// The largest `i <= j` at which the copied-source separator stands, or -1.
pub open spec fn last_copied_sep(s: Seq<char>, j: int) -> int
    decreases j + 1,
{
    if j < 0 {
        -1
    } else if copied_sep_at(s, j) {
        j
    } else {
        last_copied_sep(s, j - 1)
    }
}

/// The largest `i <= j` at which the attribute separator stands, or -1.
pub open spec fn last_attr_sep(s: Seq<char>, j: int) -> int
    decreases j + 1,
{
    if j < 0 {
        -1
    } else if attr_sep_at(s, j) {
        j
    } else {
        last_attr_sep(s, j - 1)
    }
}

pub open spec fn is_eval_line(s: Seq<char>) -> bool {
    is_framed(s, eval_prefix())
}

pub open spec fn is_read_line(s: Seq<char>) -> bool {
    is_framed(s, read_prefix())
}

pub open spec fn is_copied_line(s: Seq<char>) -> bool {
    &&& is_framed(s, copied_prefix())
    &&& exists|i: int| copied_sep_at(s, i)
}

/// Where the capture of a copied-source line ends: the capture is greedy, so
/// it runs to the last position at which the separator still fits.
pub open spec fn copied_sep_index(s: Seq<char>) -> int {
    last_copied_sep(s, s.len() - 1 - sep().len())
}

pub open spec fn copied_source(s: Seq<char>) -> Seq<char> {
    s.subrange(copied_prefix().len() as int, copied_sep_index(s))
}

pub open spec fn is_attr_line(s: Seq<char>) -> bool {
    &&& is_framed(s, attr_prefix())
    &&& exists|i: int| attr_sep_at(s, i)
}

pub open spec fn attr_sep_index(s: Seq<char>) -> int {
    last_attr_sep(s, s.len() - 1 - store_prefix().len() - sep().len())
}

/// The attribute name of an attribute trace line (a greedy capture).
pub open spec fn attr_name(s: Seq<char>) -> Seq<char> {
    s.subrange(attr_prefix().len() as int, attr_sep_index(s))
}

/// The store path of an attribute trace line, verbatim.
pub open spec fn attr_store_path(s: Seq<char>) -> Seq<char> {
    s.subrange(attr_sep_index(s) + sep().len(), s.len() - 1)
}

/// What classification makes of one line of text.
pub enum TextClass {
    Source(Seq<char>),
    Primary(Seq<char>),
    PrimaryGcRooted(Seq<char>),
    UnknownAttribute(Seq<char>, Seq<char>),
    Other,
}

/// Classification of a decoded text line: the patterns in order, first
/// match wins, no match is opaque.
pub open spec fn classify_text(s: Seq<char>) -> TextClass {
    if is_eval_line(s) {
        TextClass::Source(framed_body(s, eval_prefix()))
    } else if is_copied_line(s) {
        TextClass::Source(copied_source(s))
    } else if is_read_line(s) {
        TextClass::Source(framed_body(s, read_prefix()))
    } else if is_attr_line(s) {
        if attr_name(s) == "primary"@ {
            TextClass::Primary(attr_store_path(s))
        } else if attr_name(s) == "primary_gc_rooted"@ {
            TextClass::PrimaryGcRooted(attr_store_path(s))
        } else {
            TextClass::UnknownAttribute(attr_name(s), attr_store_path(s))
        }
    } else {
        TextClass::Other
    }
}

/// Classification of one raw line: bytes that are not valid text stay
/// opaque and unchanged, text goes through `classify_text`, and an opaque
/// outcome keeps the original bytes.
pub open spec fn classify_bytes(bytes: Seq<u8>) -> Result<EventV, InternalErrorV> {
    if !valid_utf8(bytes) {
        Ok(EventV::Text(bytes))
    } else {
        match classify_text(decode_utf8(bytes)) {
            TextClass::Source(p) => Ok(EventV::Source(p)),
            TextClass::Primary(p) => Ok(EventV::Primary(p)),
            TextClass::PrimaryGcRooted(p) => Ok(EventV::PrimaryGcRooted(p)),
            TextClass::UnknownAttribute(a, p) => Err(InternalErrorV::UnknownAttribute(a, p)),
            TextClass::Other => Ok(EventV::Text(bytes)),
        }
    }
}

/// Relies on std::str::from_utf8: it returns `Ok` exactly when the bytes
/// are valid UTF-8, and then the returned string slice is those very bytes
/// read as UTF-8.
#[verifier::external_body]
fn utf8_str(line: &Vec<u8>) -> (r: Option<&str>)
    ensures
        match r {
            Some(s) => valid_utf8(line@) && s.spec_bytes() == line@,
            None => !valid_utf8(line@),
        },
{
    std::str::from_utf8(line.as_slice()).ok()
}

/// Whether `p` stands in `s` at position `i`.
fn matches_at(s: &str, i: usize, p: &str) -> (r: bool)
    requires
        i <= s@.len(),
    ensures
        r == (i + p@.len() <= s@.len() && s@.subrange(i as int, i + p@.len()) == p@),
{
    let n = s.unicode_len();
    let m = p.unicode_len();
    if m > n - i {
        return false;
    }
    let mut k: usize = 0;
    while k < m
        invariant
            0 <= k <= m,
            m == p@.len(),
            i + m <= n == s@.len(),
            forall|t: int| 0 <= t < k ==> s@[i + t] == p@[t],
        decreases m - k,
    {
        if s.get_char(i + k) != p.get_char(k) {
            assert(s@.subrange(i as int, i + p@.len())[k as int] != p@[k as int]);
            return false;
        }
        k = k + 1;
    }
    assert(s@.subrange(i as int, i + p@.len()) =~= p@);
    true
}

/// Whether the views of two string slices are equal.
fn str_eq(a: &str, b: &str) -> (r: bool)
    ensures
        r == (a@ == b@),
{
    let n = a.unicode_len();
    if n != b.unicode_len() {
        return false;
    }
    let mut k: usize = 0;
    while k < n
        invariant
            0 <= k <= n,
            n == a@.len() == b@.len(),
            forall|t: int| 0 <= t < k ==> a@[t] == b@[t],
        decreases n - k,
    {
        if a.get_char(k) != b.get_char(k) {
            return false;
        }
        k = k + 1;
    }
    assert(a@ =~= b@);
    true
}

/// The framed capture of `line` under `prefix`, if `line` is framed by it.
fn try_framed<'a>(line: &'a str, prefix: &str) -> (r: Option<&'a str>)
    ensures
        match r {
            Some(b) => is_framed(line@, prefix@) && b@ == framed_body(line@, prefix@),
            None => !is_framed(line@, prefix@),
        },
{
    let n = line.unicode_len();
    let p = prefix.unicode_len();
    if n <= p {
        return None;
    }
    if !matches_at(line, 0, prefix) {
        return None;
    }
    if line.get_char(n - 1) != '\'' {
        return None;
    }
    Some(line.substring_char(p, n - 1))
}

proof fn lemma_last_copied_sep(s: Seq<char>, j: int)
    ensures
        last_copied_sep(s, j) >= -1,
        last_copied_sep(s, j) == -1 ==> forall|i: int| i <= j ==> !copied_sep_at(s, i),
        last_copied_sep(s, j) >= 0 ==> {
            &&& copied_sep_at(s, last_copied_sep(s, j))
            &&& last_copied_sep(s, j) <= j
            &&& forall|i: int| last_copied_sep(s, j) < i <= j ==> !copied_sep_at(s, i)
        },
    decreases j + 1,
{
    if j >= 0 && !copied_sep_at(s, j) {
        lemma_last_copied_sep(s, j - 1);
    }
}

proof fn lemma_last_attr_sep(s: Seq<char>, j: int)
    ensures
        last_attr_sep(s, j) >= -1,
        last_attr_sep(s, j) == -1 ==> forall|i: int| i <= j ==> !attr_sep_at(s, i),
        last_attr_sep(s, j) >= 0 ==> {
            &&& attr_sep_at(s, last_attr_sep(s, j))
            &&& last_attr_sep(s, j) <= j
            &&& forall|i: int| last_attr_sep(s, j) < i <= j ==> !attr_sep_at(s, i)
        },
    decreases j + 1,
{
    if j >= 0 && !attr_sep_at(s, j) {
        lemma_last_attr_sep(s, j - 1);
    }
}

/// The position of the greedy copied-source separator of `line`, if any.
fn find_copied_sep(line: &str) -> (r: Option<usize>)
    ensures
        match r {
            Some(i) => copied_sep_index(line@) == i && copied_sep_at(line@, i as int),
            None => {
                &&& copied_sep_index(line@) == -1
                &&& !(exists|i: int| copied_sep_at(line@, i))
            },
        },
{
    let n = line.unicode_len();
    let plen = "copied source '".unicode_len();
    let slen = "' -> '".unicode_len();
    proof {
        reveal_strlit("copied source '");
        reveal_strlit("' -> '");
        assert(plen == 15 && slen == 6);
    }
    if n < plen + slen + 1 {
        proof {
            assert(forall|i: int| !copied_sep_at(line@, i));
            lemma_last_copied_sep(line@, line@.len() - 1 - sep().len());
            assert(copied_sep_index(line@) == -1);
        }
        return None;
    }
    let mut j: usize = n - 1 - slen;
    loop
        invariant
            plen == copied_prefix().len(),
            slen == sep().len(),
            n == line@.len(),
            plen <= j <= n - 1 - slen,
            last_copied_sep(line@, n - 1 - sep().len()) == last_copied_sep(line@, j as int),
        decreases j,
    {
        if matches_at(line, j, "' -> '") {
            proof {
                assert(copied_sep_at(line@, j as int));
                assert(last_copied_sep(line@, j as int) == j);
            }
            return Some(j);
        }
        assert(!copied_sep_at(line@, j as int));
        assert(last_copied_sep(line@, j as int) == last_copied_sep(line@, j - 1));
        if j == plen {
            proof {
                assert(forall|i: int| i <= j - 1 ==> !copied_sep_at(line@, i));
                lemma_last_copied_sep(line@, j - 1);
                assert(last_copied_sep(line@, j - 1) == -1);
                lemma_last_copied_sep(line@, line@.len() - 1 - sep().len());
                assert(forall|i: int| !copied_sep_at(line@, i));
            }
            return None;
        }
        j = j - 1;
    }
}

/// The position of the greedy attribute separator of `line`, if any.
fn find_attr_sep(line: &str) -> (r: Option<usize>)
    ensures
        match r {
            Some(i) => attr_sep_index(line@) == i && attr_sep_at(line@, i as int),
            None => {
                &&& attr_sep_index(line@) == -1
                &&& !(exists|i: int| attr_sep_at(line@, i))
            },
        },
{
    let n = line.unicode_len();
    let plen = "trace: attribute: '".unicode_len();
    let slen = "' -> '".unicode_len();
    let stlen = "/nix/store/".unicode_len();
    proof {
        reveal_strlit("trace: attribute: '");
        reveal_strlit("' -> '");
        reveal_strlit("/nix/store/");
        assert(plen == 19 && slen == 6 && stlen == 11);
    }
    if n < plen + slen + stlen + 1 {
        proof {
            assert(forall|i: int| !attr_sep_at(line@, i));
            lemma_last_attr_sep(line@, line@.len() - 1 - store_prefix().len() - sep().len());
            assert(attr_sep_index(line@) == -1);
        }
        return None;
    }
    let mut j: usize = n - 1 - slen - stlen;
    loop
        invariant
            plen == attr_prefix().len(),
            slen == sep().len(),
            stlen == store_prefix().len(),
            n == line@.len(),
            plen <= j <= n - 1 - slen - stlen,
            last_attr_sep(line@, n - 1 - store_prefix().len() - sep().len()) == last_attr_sep(
                line@,
                j as int,
            ),
        decreases j,
    {
        if matches_at(line, j, "' -> '") && matches_at(line, j + slen, "/nix/store/") {
            proof {
                assert(attr_sep_at(line@, j as int));
                assert(last_attr_sep(line@, j as int) == j);
            }
            return Some(j);
        }
        assert(!attr_sep_at(line@, j as int));
        assert(last_attr_sep(line@, j as int) == last_attr_sep(line@, j - 1));
        if j == plen {
            proof {
                assert(forall|i: int| i <= j - 1 ==> !attr_sep_at(line@, i));
                lemma_last_attr_sep(line@, j - 1);
                assert(last_attr_sep(line@, j - 1) == -1);
                lemma_last_attr_sep(line@, line@.len() - 1 - store_prefix().len() - sep().len());
                assert(forall|i: int| !attr_sep_at(line@, i));
            }
            return None;
        }
        j = j - 1;
    }
}

/// Examines one raw diagnostic line and classifies it into a `LogDatum`,
/// or reports the fatal unknown-attribute violation.
///
/// Bytes that are not valid text, and text matching no pattern, come back
/// opaque and unchanged; a recognized pattern yields its capture verbatim.
pub fn parse_evaluation_line(line: &Vec<u8>) -> (r: Result<LogDatum, InternalError>)
    ensures
        match r {
            Ok(d) => classify_bytes(line@) == Ok::<EventV, InternalErrorV>(d@),
            Err(e) => classify_bytes(line@) == Err::<EventV, InternalErrorV>(e@),
        },
{
    let text = match utf8_str(line) {
        None => {
            return Ok(LogDatum::Text(line.clone()));
        },
        Some(t) => t,
    };
    proof {
        encode_utf8_decode_utf8(text@);
        assert(decode_utf8(line@) == text@);
    }
    if let Some(b) = try_framed(text, "evaluating file '") {
        return Ok(LogDatum::Source(b.to_owned()));
    }
    let copied_framed = try_framed(text, "copied source '");
    let copied_sep = find_copied_sep(text);
    if copied_framed.is_some() && copied_sep.is_some() {
        let i = copied_sep.unwrap();
        let plen = "copied source '".unicode_len();
        let src = text.substring_char(plen, i);
        assert(src@ == copied_source(text@));
        return Ok(LogDatum::Source(src.to_owned()));
    }
    assert(!is_copied_line(text@));
    if let Some(b) = try_framed(text, "trace: read: '") {
        return Ok(LogDatum::Source(b.to_owned()));
    }
    let attr_framed = try_framed(text, "trace: attribute: '");
    let attr_sep = find_attr_sep(text);
    if attr_framed.is_some() && attr_sep.is_some() {
        let i = attr_sep.unwrap();
        let plen = "trace: attribute: '".unicode_len();
        let slen = "' -> '".unicode_len();
        let n = text.unicode_len();
        let name = text.substring_char(plen, i);
        let path = text.substring_char(i + slen, n - 1);
        assert(name@ == attr_name(text@));
        assert(path@ == attr_store_path(text@));
        if str_eq(name, "primary") {
            return Ok(LogDatum::Primary(path.to_owned()));
        }
        if str_eq(name, "primary_gc_rooted") {
            return Ok(LogDatum::PrimaryGcRooted(path.to_owned()));
        }
        return Err(InternalError::UnknownAttribute {
            attribute: name.to_owned(),
            store_path: path.to_owned(),
        });
    }
    assert(!is_attr_line(text@));
    Ok(LogDatum::Text(line.clone()))
}

/// Classification of a whole stream of lines: the events in order, or the
/// first violation in line order.
pub open spec fn classify_stream(lines: Seq<Seq<u8>>) -> Result<Seq<EventV>, InternalErrorV>
    decreases lines.len(),
{
    if lines.len() == 0 {
        Ok(Seq::empty())
    } else {
        match classify_bytes(lines.first()) {
            Err(e) => Err(e),
            Ok(ev) => match classify_stream(lines.drop_first()) {
                Err(e) => Err(e),
                Ok(rest) => Ok(seq![ev] + rest),
            },
        }
    }
}

/// Classifies every line of a diagnostic stream, in order, stopping at the
/// first violation.
pub fn classify_lines(lines: &Vec<Vec<u8>>) -> (r: Result<Vec<LogDatum>, InternalError>)
    ensures
        match r {
            Ok(evs) => classify_stream(lines.deep_view()) == Ok::<Seq<EventV>, InternalErrorV>(
                evs.deep_view(),
            ),
            Err(e) => classify_stream(lines.deep_view()) == Err::<Seq<EventV>, InternalErrorV>(e@),
        },
{
    let ghost all = lines.deep_view();
    let mut out: Vec<LogDatum> = Vec::new();
    let mut i: usize = 0;
    assert(all.skip(0) =~= all);
    assert(out.deep_view() =~= Seq::<EventV>::empty());
    while i < lines.len()
        invariant
            i <= lines@.len(),
            all == lines.deep_view(),
            classify_stream(all) == (match classify_stream(all.skip(i as int)) {
                Ok(rest) => Ok::<Seq<EventV>, InternalErrorV>(out.deep_view() + rest),
                Err(e) => Err(e),
            }),
        decreases lines@.len() - i,
    {
        let ghost rest = all.skip(i as int);
        proof {
            assert(rest.first() == lines@[i as int].deep_view());
            assert(lines@[i as int].deep_view() =~= lines@[i as int]@);
            assert(rest.drop_first() =~= all.skip(i + 1));
        }
        let ghost old_out = out.deep_view();
        match parse_evaluation_line(&lines[i]) {
            Ok(d) => {
                let ghost dd = d@;
                out.push(d);
                proof {
                    assert(classify_bytes(rest.first()) == Ok::<EventV, InternalErrorV>(dd));
                    assert(out.deep_view() =~~= old_out.push(dd));
                    match classify_stream(all.skip(i + 1)) {
                        Ok(r2) => {
                            assert(classify_stream(rest) == Ok::<Seq<EventV>, InternalErrorV>(
                                seq![dd] + r2,
                            ));
                            assert(old_out + (seq![dd] + r2) =~= out.deep_view() + r2);
                        },
                        Err(e2) => {
                            assert(classify_stream(rest) == Err::<Seq<EventV>, InternalErrorV>(e2));
                        },
                    }
                }
            },
            Err(e) => {
                proof {
                    assert(classify_bytes(rest.first()) == Err::<EventV, InternalErrorV>(e@));
                    assert(classify_stream(rest) == Err::<Seq<EventV>, InternalErrorV>(e@));
                }
                return Err(e);
            },
        }
        i = i + 1;
    }
    proof {
        assert(all.skip(i as int) =~= Seq::<Seq<u8>>::empty());
        assert(out.deep_view() + Seq::<EventV>::empty() =~= out.deep_view());
    }
    Ok(out)
}

} // verus!
