//! Feed-specific clean-up of realtime route identifiers.
use vstd::prelude::*;
use vstd::string::*;
use vstd::utf8::*;

verus! {

/// Whether `pattern` occurs in `text` as a contiguous run of characters.
pub open spec fn contains_chars(text: Seq<char>, pattern: Seq<char>) -> bool {
    exists|i: int| 0 <= i <= text.len() - pattern.len() && #[trigger] text.subrange(i, i + pattern.len()) == pattern
}

/// The route identifier that realtime feed `feed_id` uses for `route_id` in static data:
/// Pace (`f-dp3-pace~rt`) appends `-367` unless the identifier already contains it;
/// Foothill Transit (`f-foothilltransit~rt`) drops the first two characters of an identifier
/// whose UTF-8 encoding is 5 bytes long; every other feed keeps the identifier.
pub open spec fn route_id_transformed(feed_id: Seq<char>, route_id: Seq<char>) -> Seq<char> {
    if feed_id == "f-dp3-pace~rt"@ {
        if !contains_chars(route_id, "-367"@) {
            route_id + "-367"@
        } else {
            route_id
        }
    } else if feed_id == "f-foothilltransit~rt"@ {
        if encode_utf8(route_id).len() == 5 {
            route_id.skip(2)
        } else {
            route_id
        }
    } else {
        route_id
    }
}

/// The UTF-8 encoding of a character takes one to four bytes.
proof fn lemma_scalar_width(c: char)
    ensures
        1 <= encode_scalar(c as u32).len() <= 4,
{
}

/// The UTF-8 encoding of a character sequence is its first character's followed by the rest's.
proof fn lemma_utf8_first(s: Seq<char>)
    requires
        s.len() > 0,
    ensures
        encode_utf8(s).len() == encode_scalar(s[0] as u32).len() + encode_utf8(s.drop_first()).len(),
{
}

/// A character sequence takes at least one and at most four bytes per character in UTF-8.
proof fn lemma_utf8_len_bounds(s: Seq<char>)
    ensures
        s.len() <= encode_utf8(s).len() <= 4 * s.len(),
    decreases s.len(),
{
    if s.len() > 0 {
        lemma_scalar_width(s[0]);
        lemma_utf8_first(s);
        lemma_utf8_len_bounds(s.drop_first());
    }
}

/// Whether `pattern` occurs in `text`.
fn str_contains(text: &str, pattern: &str) -> (b: bool)
    ensures
        b == contains_chars(text@, pattern@),
{
    let n = text.unicode_len();
    let m = pattern.unicode_len();
    if m > n {
        assert(!contains_chars(text@, pattern@));
        return false;
    }
    let mut i: usize = 0;
    while i <= n - m
        invariant
            n == text@.len(),
            m == pattern@.len(),
            m <= n,
            i <= n - m + 1,
            forall|k: int| 0 <= k < i ==> #[trigger] text@.subrange(k, k + m) != pattern@,
        decreases n - m + 1 - i,
    {
        let mut j: usize = 0;
        let mut same = true;
        while j < m
            invariant
                n == text@.len(),
                m == pattern@.len(),
                i + m <= n,
                j <= m,
                same == (forall|k: int| 0 <= k < j ==> text@[i + k] == pattern@[k]),
            decreases m - j,
        {
            if text.get_char(i + j) != pattern.get_char(j) {
                same = false;
            }
            j = j + 1;
        }
        if same {
            assert(text@.subrange(i as int, i + m) =~= pattern@);
            return true;
        }
        assert(text@.subrange(i as int, i + m) != pattern@) by {
            let k = choose|k: int| 0 <= k < m && text@[i + k] != pattern@[k];
            assert(text@.subrange(i as int, i + m)[k] == text@[i + k]);
        }
        i = i + 1;
    }
    false
}

/// The route identifier that realtime feed `feed_id` uses for `route_id` in static data.
pub fn route_id_transform(feed_id: &str, route_id: String) -> (r: String)
    ensures
        r@ == route_id_transformed(feed_id@, route_id@),
{
    let ghost original = route_id@;
    let feed = feed_id.to_owned();
    if feed == "f-dp3-pace~rt".to_owned() {
        if !str_contains(route_id.as_str(), "-367") {
            let mut out = route_id;
            out.append("-367");
            assert(out@ == original + "-367"@);
            out
        } else {
            route_id
        }
    } else if feed == "f-foothilltransit~rt".to_owned() {
        if route_id.as_str().as_bytes().len() == 5 {
            proof {
                lemma_utf8_len_bounds(route_id@);
            }
            let n = route_id.as_str().unicode_len();
            let tail = route_id.as_str().substring_char(2, n).to_owned();
            assert(tail@ =~= route_id@.skip(2));
            tail
        } else {
            route_id
        }
    } else {
        route_id
    }
}

/// Applying the transform of a feed twice gives what applying it once gives.
pub proof fn lemma_route_id_transform_idempotent(feed_id: Seq<char>, route_id: Seq<char>)
    ensures
        route_id_transformed(feed_id, route_id_transformed(feed_id, route_id))
            == route_id_transformed(feed_id, route_id),
{
    let once = route_id_transformed(feed_id, route_id);
    if feed_id == "f-dp3-pace~rt"@ {
        if !contains_chars(route_id, "-367"@) {
            assert(once.subrange(route_id.len() as int, (route_id.len() + "-367"@.len()) as int) =~= "-367"@);
            assert(contains_chars(once, "-367"@));
        }
    } else if feed_id == "f-foothilltransit~rt"@ {
        if encode_utf8(route_id).len() == 5 {
            lemma_utf8_len_bounds(route_id);
            lemma_utf8_first(route_id);
            lemma_utf8_first(route_id.drop_first());
            lemma_scalar_width(route_id[0]);
            lemma_scalar_width(route_id.drop_first()[0]);
            assert(route_id.drop_first().drop_first() =~= route_id.skip(2));
            assert(encode_utf8(once).len() <= 3);
        }
    }
}

} // verus!
