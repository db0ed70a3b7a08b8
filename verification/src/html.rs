//! Finding the player information that a video's page embeds between
//! `window.__playinfo__=` and the next `</script>`.
use vstd::prelude::*;
use crate::errors::ExtractError;
use vstd::string::StringSliceAdditionalSpecFns;
use vstd::utf8::*;

verus! {

/// The bytes of `window.__playinfo__=`.
pub open spec fn start_mark() -> Seq<u8> {
    seq![
        119u8, 105u8, 110u8, 100u8, 111u8, 119u8, 46u8, 95u8, 95u8, 112u8, 108u8, 97u8, 121u8,
        105u8, 110u8, 102u8, 111u8, 95u8, 95u8, 61u8,
    ]
}

/// The bytes of `</script>`.
pub open spec fn end_mark() -> Seq<u8> {
    seq![60u8, 47u8, 115u8, 99u8, 114u8, 105u8, 112u8, 116u8, 62u8]
}

/// Whether `mark` stands in `h` at position `i`.
pub open spec fn mark_at(h: Seq<u8>, i: int, mark: Seq<u8>) -> bool {
    0 <= i && i + mark.len() <= h.len() && h.subrange(i, i + mark.len()) == mark
}

/// The first position at or after `from` where `mark` stands in `h`.
pub open spec fn find_mark(h: Seq<u8>, mark: Seq<u8>, from: int) -> Option<int>
    decreases h.len() - from,
{
    if from < 0 || from >= h.len() {
        None
    } else if mark_at(h, from, mark) {
        Some(from)
    } else {
        find_mark(h, mark, from + 1)
    }
}

/// The `n`-th embedded block at or after `from`: where its start mark
/// stands and where the end mark after it stands. The search for the next
/// block goes on after that end mark.
pub open spec fn nth_block(h: Seq<u8>, n: nat, from: int) -> Option<(int, int)>
    decreases n,
{
    if n == 0 {
        None
    } else {
        match find_mark(h, start_mark(), from) {
            None => None,
            Some(s) => match find_mark(h, end_mark(), s) {
                None => None,
                Some(e) => if n == 1 {
                    Some((s, e))
                } else {
                    nth_block(h, (n - 1) as nat, e + end_mark().len())
                },
            },
        }
    }
}

/// The positions of every byte equal to `needle` in `h`, in increasing
/// order.
pub open spec fn all_positions(positions: Seq<usize>, h: Seq<u8>, needle: u8) -> bool {
    &&& forall|k: int| 0 <= k < positions.len() ==> #[trigger] positions[k] < h.len()
    &&& forall|k: int| 0 <= k < positions.len() ==> h[#[trigger] positions[k] as int] == needle
    &&& forall|k1: int, k2: int|
        0 <= k1 < k2 < positions.len() ==> #[trigger] positions[k1] < #[trigger] positions[k2]
    &&& forall|i: int|
        0 <= i < h.len() && h[i] == needle ==> exists|k: int|
            0 <= k < positions.len() && #[trigger] positions[k] == i
}

/// `memchr::memchr_iter`: every position of `needle` in `haystack`, which
/// the crate documents as all occurrences, and yields front to back.
#[verifier::external_body]
fn byte_positions(needle: u8, haystack: &[u8]) -> (res: Vec<usize>)
    ensures
        all_positions(res@, haystack@, needle),
{
    memchr::memchr_iter(needle, haystack).collect()
}

fn start_mark_bytes() -> (res: Vec<u8>)
    ensures
        res@ == start_mark(),
{
    let v = vec![
        119u8, 105u8, 110u8, 100u8, 111u8, 119u8, 46u8, 95u8, 95u8, 112u8, 108u8, 97u8, 121u8,
        105u8, 110u8, 102u8, 111u8, 95u8, 95u8, 61u8,
    ];
    assert(v@ =~= start_mark());
    v
}

fn end_mark_bytes() -> (res: Vec<u8>)
    ensures
        res@ == end_mark(),
{
    let v = vec![60u8, 47u8, 115u8, 99u8, 114u8, 105u8, 112u8, 116u8, 62u8];
    assert(v@ =~= end_mark());
    v
}

/// Whether `mark` stands in `h` at `i`.
fn mark_matches(h: &[u8], i: usize, mark: &[u8]) -> (res: bool)
    ensures
        res == mark_at(h@, i as int, mark@),
{
    if i > h.len() || mark.len() > h.len() - i {
        return false;
    }
    let hl = h.len();
    let mut k: usize = 0;
    while k < mark.len()
        invariant
            hl == h@.len(),
            i + mark@.len() <= h@.len(),
            k <= mark@.len(),
            forall|j: int| 0 <= j < k ==> h@[i + j] == mark@[j],
        decreases mark@.len() - k,
    {
        if h[i + k] != mark[k] {
            assert(h@.subrange(i as int, i + mark@.len())[k as int] != mark@[k as int]);
            return false;
        }
        k = k + 1;
    }
    assert(h@.subrange(i as int, i + mark@.len()) =~= mark@);
    true
}

proof fn lemma_find_mark(h: Seq<u8>, mark: Seq<u8>, from: int, x: int)
    requires
        0 <= from <= x <= h.len(),
        forall|i: int| from <= i < x ==> !mark_at(h, i, mark),
    ensures
        x < h.len() && mark_at(h, x, mark) ==> find_mark(h, mark, from) == Some(x),
        x == h.len() ==> find_mark(h, mark, from) is None,
    decreases x - from,
{
    if from < x {
        lemma_find_mark(h, mark, from + 1, x);
    }
}

/// The first position at or after `from` where `mark` stands in `h`.
fn find_mark_from(h: &[u8], from: usize, mark: &[u8]) -> (res: Option<usize>)
    requires
        mark@.len() > 0,
        from <= h@.len(),
    ensures
        match res {
            Some(i) => find_mark(h@, mark@, from as int) == Some(i as int),
            None => find_mark(h@, mark@, from as int) is None,
        },
{
    let n = h.len();
    let sub = &h[from..n];
    let positions = byte_positions(mark[0], sub);
    let m = positions.len();
    proof {
        assert forall|i: int| from <= i < n && mark_at(h@, i, mark@) implies exists|j: int|
            0 <= j < m && #[trigger] positions@[j] == i - from by {
            assert(h@.subrange(i, i + mark@.len())[0] == mark@[0]);
            assert(sub@[i - from] == h@[i]);
        }
    }
    let mut k: usize = 0;
    while k < m
        invariant
            n == h@.len(),
            from <= n,
            mark@.len() > 0,
            sub@ == h@.subrange(from as int, n as int),
            m == positions@.len(),
            all_positions(positions@, sub@, mark@[0]),
            k <= m,
            forall|i: int|
                from <= i < n && mark_at(h@, i, mark@) ==> exists|j: int|
                    k <= j < m && #[trigger] positions@[j] == i - from,
        decreases m - k,
    {
        let i = from + positions[k];
        if mark_matches(h, i, mark) {
            proof {
                assert forall|x: int| from <= x < i implies !mark_at(h@, x, mark@) by {
                    if mark_at(h@, x, mark@) {
                        let j = choose|j: int| k <= j < m && #[trigger] positions@[j] == x - from;
                        if j > k {
                            assert(positions@[k as int] < positions@[j]);
                        }
                    }
                }
                lemma_find_mark(h@, mark@, from as int, i as int);
            }
            return Some(i);
        }
        proof {
            assert forall|x: int| from <= x < n && mark_at(h@, x, mark@) implies exists|j: int|
                k + 1 <= j < m && #[trigger] positions@[j] == x - from by {
                let j = choose|j: int| k <= j < m && #[trigger] positions@[j] == x - from;
                assert(j != k);
            }
        }
        k = k + 1;
    }
    proof {
        assert forall|x: int| from <= x < n implies !mark_at(h@, x, mark@) by {
            if mark_at(h@, x, mark@) {
                let j = choose|j: int| k <= j < m && #[trigger] positions@[j] == x - from;
            }
        }
        lemma_find_mark(h@, mark@, from as int, n as int);
    }
    None
}

/// What [`match_json_nth`] gives: the start and end marks of the `n`-th
/// embedded block, or `FailedToParse` where there is no such block (or `n`
/// is 0).
pub open spec fn match_json_nth_ok(h: Seq<u8>, n: nat) -> Option<(int, int)> {
    nth_block(h, n, 0)
}

/// Where the `n`-th (counting from 1) embedded block starts and ends: the
/// position of its `window.__playinfo__=` and of the first `</script>` at
/// or after it. Blocks are searched one after the other, each after the end
/// mark of the one before.
pub fn match_json_nth(html_bytes: &[u8], n: usize) -> (res: Result<(usize, usize), ExtractError>)
    ensures
        match res {
            Ok((s, e)) => match_json_nth_ok(html_bytes@, n as nat) == Some((s as int, e as int)),
            Err(err) => match_json_nth_ok(html_bytes@, n as nat) is None && err
                is FailedToParse,
        },
{
    if n == 0 {
        return Err(ExtractError::FailedToParse);
    }
    let start = start_mark_bytes();
    let end = end_mark_bytes();
    let len = html_bytes.len();
    let mut current_pos: usize = 0;
    let mut match_count: usize = 0;
    while match_count < n
        invariant
            len == html_bytes@.len(),
            start@ == start_mark(),
            end@ == end_mark(),
            0 < n,
            match_count < n,
            current_pos <= len,
            nth_block(html_bytes@, n as nat, 0) == nth_block(
                html_bytes@,
                (n - match_count) as nat,
                current_pos as int,
            ),
        decreases n - match_count,
    {
        let start_pos = match find_mark_from(html_bytes, current_pos, start.as_slice()) {
            None => return Err(ExtractError::FailedToParse),
            Some(p) => p,
        };
        assert(mark_at(html_bytes@, start_pos as int, start@)) by {
            lemma_find_mark_found(html_bytes@, start@, current_pos as int);
        }
        let end_pos = match find_mark_from(html_bytes, start_pos, end.as_slice()) {
            None => return Err(ExtractError::FailedToParse),
            Some(p) => p,
        };
        assert(mark_at(html_bytes@, end_pos as int, end@)) by {
            lemma_find_mark_found(html_bytes@, end@, start_pos as int);
        }
        match_count = match_count + 1;
        if match_count == n {
            return Ok((start_pos, end_pos));
        }
        current_pos = end_pos + 9;
    }
    Err(ExtractError::FailedToParse)
}

/// A position that [`find_mark`] gives holds the mark, inside `h`.
pub proof fn lemma_find_mark_found(h: Seq<u8>, mark: Seq<u8>, from: int)
    ensures
        find_mark(h, mark, from) matches Some(i) ==> from <= i && mark_at(h, i, mark),
    decreases h.len() - from,
{
    if 0 <= from < h.len() && !mark_at(h, from, mark) {
        lemma_find_mark_found(h, mark, from + 1);
    }
}

proof fn lemma_end_after_start(h: Seq<u8>, s: int, e: int)
    requires
        mark_at(h, s, start_mark()),
        mark_at(h, e, end_mark()),
        s <= e,
    ensures
        s + start_mark().len() <= e,
{
    if e < s + start_mark().len() {
        assert(h.subrange(s, s + start_mark().len())[e - s] == h[e]);
        assert(h.subrange(e, e + end_mark().len())[0] == h[e]);
    }
}

/// Where a block is found, its start mark and its end mark stand at the
/// positions given, and the end mark comes after the whole start mark: the
/// embedded text lies between them.
pub proof fn law_block_marks(h: Seq<u8>, n: nat, from: int)
    ensures
        nth_block(h, n, from) matches Some((s, e)) ==> {
            &&& mark_at(h, s, start_mark())
            &&& mark_at(h, e, end_mark())
            &&& s + start_mark().len() <= e
        },
    decreases n,
{
    if n > 0 {
        lemma_find_mark_found(h, start_mark(), from);
        if let Some(s) = find_mark(h, start_mark(), from) {
            lemma_find_mark_found(h, end_mark(), s);
            if let Some(e) = find_mark(h, end_mark(), s) {
                if n == 1 {
                    lemma_end_after_start(h, s, e);
                } else {
                    law_block_marks(h, (n - 1) as nat, e + end_mark().len());
                }
            }
        }
    }
}

/// The player information that a page's bytes embed: the bytes between the
/// end of the first `window.__playinfo__=` and the first `</script>` after
/// it; none where the page holds no such block.
pub open spec fn play_info_bytes(h: Seq<u8>) -> Seq<u8> {
    match match_json_nth_ok(h, 1) {
        Some((s, e)) => h.subrange(s + start_mark().len(), e),
        None => Seq::empty(),
    }
}

/// On a page `p + window.__playinfo__= + j + </script> + q`, where the start
/// mark written after `p` is the first in the page and no end mark comes
/// before the one written after `j`, the player information is exactly
/// `j`, whatever `q` holds.
pub proof fn law_play_info_between_marks(p: Seq<u8>, j: Seq<u8>, q: Seq<u8>)
    requires
        forall|i: int|
            0 <= i < p.len() ==> !mark_at(
                p + start_mark() + j + end_mark() + q,
                i,
                start_mark(),
            ),
        forall|i: int|
            p.len() <= i < p.len() + start_mark().len() + j.len() ==> !mark_at(
                p + start_mark() + j + end_mark() + q,
                i,
                end_mark(),
            ),
    ensures
        play_info_bytes(p + start_mark() + j + end_mark() + q) == j,
{
    let h = p + start_mark() + j + end_mark() + q;
    let s = p.len() as int;
    let e = s + start_mark().len() + j.len();
    assert(h.subrange(s, s + start_mark().len()) =~= start_mark());
    assert(h.subrange(e, e + end_mark().len()) =~= end_mark());
    lemma_find_mark(h, start_mark(), 0, s);
    lemma_find_mark(h, end_mark(), s, e);
    reveal_with_fuel(nth_block, 2);
    assert(h.subrange(s + start_mark().len(), e) =~= j);
}

/// In valid UTF-8, a one-byte character at a character boundary is followed
/// by another boundary.
proof fn lemma_boundary_after_ascii(bytes: Seq<u8>, i: int)
    requires
        valid_utf8(bytes),
        0 <= i < bytes.len(),
        is_char_boundary(bytes, i),
        is_leading_byte_width_1(bytes[i]),
    ensures
        is_char_boundary(bytes, i + 1),
    decreases bytes.len(),
{
    reveal_with_fuel(is_char_boundary, 2);
    let first = length_of_first_scalar(bytes);
    let rest = pop_first_scalar(bytes);
    if i > 0 {
        assert(rest.len() == bytes.len() - first);
        assert(rest[i - first] == bytes[i]);
        lemma_boundary_after_ascii(rest, i - first);
    }
}

/// Takes a video's page and gives back the player information embedded in
/// it: the text between the end of the first `window.__playinfo__=` and the
/// first `</script>` after it. An empty page is refused.
pub fn extract_play_info_from_html(html: &str) -> (res: Result<String, ExtractError>)
    requires
        html@.len() == 0 || match_json_nth_ok(html.spec_bytes(), 1) is Some,
    ensures
        html@.len() == 0 ==> (res matches Err(e) && e is EmptyHTMLResponse),
        html@.len() != 0 ==> (res matches Ok(s) && encode_utf8(s@) == play_info_bytes(
            html.spec_bytes(),
        )),
{
    if html.is_empty() {
        return Err(ExtractError::EmptyHTMLResponse);
    }
    let html_bytes = html.as_bytes();
    let (start_pos, end_pos) = match match_json_nth(html_bytes, 1) {
        Ok(found) => found,
        Err(e) => return Err(e),
    };
    let ghost h = html.spec_bytes();
    proof {
        encode_utf8_valid_utf8(html@);
        law_block_marks(h, 1, 0);
        assert(h[start_pos + 19] == h.subrange(start_pos as int, start_pos + 20)[19]);
        assert(h[end_pos as int] == h.subrange(end_pos as int, end_pos + 9)[0]);
        is_char_boundary_iff_not_is_continuation_byte(h, start_pos + 19);
        lemma_boundary_after_ascii(h, start_pos + 19);
    }
    let json_start = start_pos + 20;
    let (_, rest) = html.split_at(json_start);
    let ghost r = rest.spec_bytes();
    proof {
        encode_utf8_valid_utf8(rest@);
        assert(r[end_pos - json_start] == h[end_pos as int]);
        is_char_boundary_iff_not_is_continuation_byte(r, end_pos - json_start);
    }
    let (json_part, _) = rest.split_at(end_pos - json_start);
    proof {
        assert(json_part.spec_bytes() =~= h.subrange(json_start as int, end_pos as int));
    }
    Ok(json_part.to_owned())
}

} // verus!
