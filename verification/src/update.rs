//! Version bookkeeping: deciding whether the update feed's version is newer
//! than the running one, and assembling the information shown to the user.
//!
//! A version string is an optional `v` prefix followed by dot-separated
//! numeric components; components that fail to parse count as zero, and when
//! every shared component agrees, a remote version with more components
//! counts as newer.

use vstd::prelude::*;

verus! {

/// `s` with every leading `'v'` removed.
pub open spec fn strip_v(s: Seq<char>) -> Seq<char>
    decreases s.len(),
{
    if s.len() > 0 && s[0] == 'v' {
        strip_v(s.skip(1))
    } else {
        s
    }
}

/// `s` split on `'.'`; the empty string has one empty component, and every
/// dot separates two (possibly empty) components.
pub open spec fn split_dots(s: Seq<char>) -> Seq<Seq<char>>
    decreases s.len(),
{
    if s.len() == 0 {
        seq![Seq::<char>::empty()]
    } else if s[0] == '.' {
        seq![Seq::<char>::empty()] + split_dots(s.skip(1))
    } else {
        let rest = split_dots(s.skip(1));
        seq![seq![s[0]] + rest[0]] + rest.skip(1)
    }
}

/// The value of a digit string read in decimal; garbage on non-digits, which
/// [`parse_u32_or_zero`] rules out before using it.
pub open spec fn digits_val(s: Seq<char>) -> int
    decreases s.len(),
{
    if s.len() == 0 {
        0
    } else {
        digits_val(s.drop_last()) * 10 + (s.last() as int - 48)
    }
}

/// Every character of `s` is an ASCII decimal digit.
pub open spec fn all_digits(s: Seq<char>) -> bool {
    forall|i: int| 0 <= i < s.len() ==> 48 <= #[trigger] s[i] as int <= 57
}

/// The digits of `s`, after an optional leading `'+'`.
pub open spec fn after_sign(s: Seq<char>) -> Seq<char> {
    if s.len() > 0 && s[0] == '+' {
        s.skip(1)
    } else {
        s
    }
}

/// What `str::parse::<u32>` makes of a version component, with failures
/// mapped to zero: an optional `'+'`, then at least one digit, with a value
/// that fits, parses to its decimal value; anything else counts as zero.
pub open spec fn parse_u32_or_zero(s: Seq<char>) -> int {
    if after_sign(s).len() > 0 && all_digits(after_sign(s)) && digits_val(after_sign(s))
        <= u32::MAX {
        digits_val(after_sign(s))
    } else {
        0
    }
}

/// Lexicographic comparison of the numeric components from index `i` on:
/// true when the remote components are strictly newer.
pub open spec fn newer_from(cur: Seq<Seq<char>>, rem: Seq<Seq<char>>, i: int) -> bool
    decreases cur.len() + rem.len() - i,
{
    if i < 0 || i >= cur.len() || i >= rem.len() {
        rem.len() > cur.len()
    } else if parse_u32_or_zero(rem[i]) > parse_u32_or_zero(cur[i]) {
        true
    } else if parse_u32_or_zero(rem[i]) < parse_u32_or_zero(cur[i]) {
        false
    } else {
        newer_from(cur, rem, i + 1)
    }
}

/// The remote version is strictly newer than the current one.
pub open spec fn spec_compare_versions(current: Seq<char>, remote: Seq<char>) -> bool {
    newer_from(split_dots(strip_v(current)), split_dots(strip_v(remote)), 0)
}

/// Stripping the leading `'v'` run of length `k` is skipping it.
proof fn lemma_strip_v_skip(s: Seq<char>, k: int)
    requires
        0 <= k <= s.len(),
        forall|j: int| 0 <= j < k ==> s[j] == 'v',
        k == s.len() || s[k] != 'v',
    ensures
        strip_v(s) == s.skip(k),
    decreases k,
{
    if k == 0 {
        assert(s.skip(0) =~= s);
    } else {
        assert(s[0] == 'v');
        lemma_strip_v_skip(s.skip(1), k - 1);
        assert(s.skip(1).skip(k - 1) =~= s.skip(k));
    }
}

/// Splitting at the first dot: with no dot in sight the string is one
/// component; with the first dot at `k`, the part before it is the first
/// component and the rest splits on its own.
proof fn lemma_split_first_dot(s: Seq<char>, k: int)
    requires
        0 <= k <= s.len(),
        forall|j: int| 0 <= j < k ==> s[j] != '.',
        k == s.len() || s[k] == '.',
    ensures
        k == s.len() ==> split_dots(s) == seq![s],
        k < s.len() ==> split_dots(s) == seq![s.subrange(0, k)] + split_dots(s.skip(k + 1)),
    decreases k,
{
    if k == 0 {
        if s.len() == 0 {
            assert(s =~= Seq::<char>::empty());
            assert(split_dots(s) =~= seq![s]);
        } else if s[0] == '.' {
            assert(s.subrange(0, 0) =~= Seq::<char>::empty());
            assert(split_dots(s) =~= seq![s.subrange(0, 0)] + split_dots(s.skip(1)));
        }
    } else {
        lemma_split_first_dot(s.skip(1), k - 1);
        let rest = split_dots(s.skip(1));
        if k == s.len() {
            assert(rest == seq![s.skip(1)]);
            assert(seq![s[0]] + rest[0] =~= s);
            assert(rest.skip(1) =~= Seq::<Seq<char>>::empty());
            assert(split_dots(s) =~= seq![s]);
        } else {
            assert(rest == seq![s.skip(1).subrange(0, k - 1)] + split_dots(s.skip(1).skip(k)));
            assert(seq![s[0]] + rest[0] =~= s.subrange(0, k));
            assert(s.skip(1).skip(k) =~= s.skip(k + 1));
            assert(rest.skip(1) =~= split_dots(s.skip(k + 1)));
            assert(split_dots(s) =~= seq![s.subrange(0, k)] + split_dots(s.skip(k + 1)));
        }
    }
}

/// A digit prefix never exceeds the whole digit string in value.
proof fn lemma_digits_val_prefix(s: Seq<char>, k: int)
    requires
        0 <= k <= s.len(),
        all_digits(s),
    ensures
        0 <= digits_val(s.subrange(0, k)) <= digits_val(s),
    decreases s.len() - k,
{
    if k == s.len() {
        assert(s.subrange(0, k) =~= s);
        lemma_digits_val_nonneg(s);
    } else {
        lemma_digits_val_prefix(s, k + 1);
        let p = s.subrange(0, k + 1);
        assert(p.drop_last() =~= s.subrange(0, k));
        assert(p.last() == s[k]);
        lemma_digits_val_nonneg(s.subrange(0, k));
    }
}

/// Digit strings have non-negative values.
proof fn lemma_digits_val_nonneg(s: Seq<char>)
    requires
        all_digits(s),
    ensures
        digits_val(s) >= 0,
    decreases s.len(),
{
    if s.len() > 0 {
        assert(all_digits(s.drop_last())) by {
            assert(forall|i: int|
                0 <= i < s.len() - 1 ==> #[trigger] s.drop_last()[i] as int == s[i] as int);
        }
        lemma_digits_val_nonneg(s.drop_last());
    }
}

/// Strips every leading `'v'`.
fn strip_v_exec(s: &str) -> (r: &str)
    ensures
        r@ == strip_v(s@),
{
    let n: usize = s.unicode_len();
    let mut k: usize = 0;
    while k < n
        invariant
            0 <= k <= n,
            n == s@.len(),
            forall|j: int| 0 <= j < k ==> s@[j] == 'v',
        decreases n - k,
    {
        if s.get_char(k) != 'v' {
            proof {
                lemma_strip_v_skip(s@, k as int);
            }
            return s.substring_char(k, n);
        }
        k = k + 1;
    }
    proof {
        lemma_strip_v_skip(s@, n as int);
    }
    s.substring_char(n, n)
}

/// Splits on `'.'` into owned components.
fn split_dots_exec(s: &str) -> (parts: Vec<String>)
    ensures
        parts@.len() == split_dots(s@).len(),
        forall|i: int| 0 <= i < parts@.len() ==> #[trigger] parts@[i]@ == split_dots(s@)[i],
{
    let n: usize = s.unicode_len();
    let mut parts: Vec<String> = Vec::new();
    let mut start: usize = 0;
    let mut i: usize = 0;
    proof {
        assert(s@.skip(0) =~= s@);
        assert(parts@.map_values(|p: String| p@) =~= Seq::<Seq<char>>::empty());
        assert(parts@.map_values(|p: String| p@) + split_dots(s@) =~= split_dots(s@));
    }
    while i < n
        invariant
            0 <= start <= i <= n,
            n == s@.len(),
            forall|j: int| start <= j < i ==> s@[j] != '.',
            split_dots(s@) == parts@.map_values(|p: String| p@) + split_dots(s@.skip(start as int)),
            parts@.len() == split_dots(s@).len() - split_dots(s@.skip(start as int)).len(),
        decreases n - i,
    {
        if s.get_char(i) == '.' {
            let part = String::from_str(s.substring_char(start, i));
            let ghost pre = parts@;
            parts.push(part);
            proof {
                lemma_split_first_dot(s@.skip(start as int), i - start);
                assert(s@.skip(start as int).subrange(0, i - start) =~= s@.subrange(
                    start as int,
                    i as int,
                ));
                assert(s@.skip(start as int).skip(i - start + 1) =~= s@.skip(i + 1));
                assert(parts@.map_values(|p: String| p@) =~= pre.map_values(|p: String| p@)
                    + seq![s@.subrange(start as int, i as int)]);
                assert(split_dots(s@) =~= parts@.map_values(|p: String| p@) + split_dots(
                    s@.skip(i + 1),
                ));
            }
            start = i + 1;
        }
        i = i + 1;
    }
    let part = String::from_str(s.substring_char(start, n));
    let ghost pre = parts@;
    parts.push(part);
    proof {
        lemma_split_first_dot(s@.skip(start as int), n - start);
        assert(s@.skip(start as int) =~= s@.subrange(start as int, n as int));
        assert(parts@.map_values(|p: String| p@) =~= pre.map_values(|p: String| p@) + seq![
            s@.subrange(start as int, n as int),
        ]);
        assert(split_dots(s@) =~= parts@.map_values(|p: String| p@));
        assert forall|i2: int| 0 <= i2 < parts@.len() implies #[trigger] parts@[i2]@ == split_dots(
            s@,
        )[i2] by {
            assert(parts@.map_values(|p: String| p@)[i2] == parts@[i2]@);
        }
    }
    parts
}

/// Reads a version component as `str::parse::<u32>` would, with every
/// failure collapsed to zero.
fn parse_u32_or_zero_exec(s: &str) -> (r: u32)
    ensures
        r as int == parse_u32_or_zero(s@),
{
    let n: usize = s.unicode_len();
    let start: usize = if n > 0 && s.get_char(0) == '+' {
        1
    } else {
        0
    };
    proof {
        if start == 1 {
            assert(after_sign(s@) == s@.skip(1));
        } else {
            assert(after_sign(s@) == s@);
        }
        assert(after_sign(s@) =~= s@.subrange(start as int, n as int));
    }
    if n == start {
        return 0;
    }
    let ghost t = after_sign(s@);
    let mut acc: u64 = 0;
    let mut i: usize = start;
    while i < n
        invariant
            start <= i <= n,
            n == s@.len(),
            t == after_sign(s@),
            t =~= s@.subrange(start as int, n as int),
            acc as int == digits_val(t.subrange(0, i - start)),
            acc <= u32::MAX,
            forall|j: int| 0 <= j < i - start ==> 48 <= #[trigger] t[j] as int <= 57,
        decreases n - i,
    {
        let c = s.get_char(i);
        let cv = c as u32;
        if cv < 48 || cv > 57 {
            proof {
                assert(t[i - start] as int == cv as int);
                assert(!all_digits(t));
            }
            return 0;
        }
        let ghost pre = t.subrange(0, i - start);
        proof {
            assert(t.subrange(0, i - start + 1).drop_last() =~= pre);
            assert(t.subrange(0, i - start + 1).last() == t[i - start]);
            assert(t[i - start] == s@[i as int]);
        }
        acc = acc * 10 + ((cv - 48) as u64);
        if acc > 0xFFFF_FFFF {
            proof {
                if all_digits(t) {
                    lemma_digits_val_prefix(t, i - start + 1);
                }
            }
            return 0;
        }
        i = i + 1;
    }
    proof {
        assert(t.subrange(0, n - start) =~= t);
        assert(all_digits(t));
    }
    acc as u32
}

/// Decides whether `remote` names a strictly newer version than `current`:
/// both are stripped of a leading `v` run, split on dots, and compared
/// componentwise as numbers, unparsable components counting as zero; on a
/// tie, the version with more components is newer.
pub fn compare_versions(current: &str, remote: &str) -> (r: bool)
    ensures
        r == spec_compare_versions(current@, remote@),
{
    let c = strip_v_exec(current);
    let m = strip_v_exec(remote);
    let cparts = split_dots_exec(c);
    let mparts = split_dots_exec(m);
    let ghost cv = split_dots(strip_v(current@));
    let ghost mv = split_dots(strip_v(remote@));
    let mut i: usize = 0;
    while i < cparts.len() && i < mparts.len()
        invariant
            0 <= i <= cparts@.len(),
            0 <= i <= mparts@.len(),
            cv == split_dots(strip_v(current@)),
            mv == split_dots(strip_v(remote@)),
            cparts@.len() == cv.len(),
            mparts@.len() == mv.len(),
            forall|j: int| 0 <= j < cparts@.len() ==> #[trigger] cparts@[j]@ == cv[j],
            forall|j: int| 0 <= j < mparts@.len() ==> #[trigger] mparts@[j]@ == mv[j],
            newer_from(cv, mv, 0) == newer_from(cv, mv, i as int),
        decreases cparts@.len() - i,
    {
        let cp = parse_u32_or_zero_exec(cparts[i].as_str());
        let mp = parse_u32_or_zero_exec(mparts[i].as_str());
        proof {
            assert(cp as int == parse_u32_or_zero(cv[i as int]));
            assert(mp as int == parse_u32_or_zero(mv[i as int]));
        }
        if mp > cp {
            proof {
                assert(newer_from(cv, mv, i as int));
            }
            return true;
        }
        if mp < cp {
            proof {
                assert(!newer_from(cv, mv, i as int));
            }
            return false;
        }
        proof {
            assert(newer_from(cv, mv, i as int) == newer_from(cv, mv, i + 1));
        }
        i = i + 1;
    }
    proof {
        assert(newer_from(cv, mv, i as int) == (mv.len() > cv.len()));
    }
    mparts.len() > cparts.len()
}

/// Everything the user is shown about an available update.
#[derive(Debug)]
pub struct UpdateInfo {
    pub title: String,
    pub latest: String,
    pub msg: String,
}

/// The decision half of the update check: given the running version and the
/// version and notes the update feed reports, decides whether an update is
/// available and assembles what the user is shown.  The surrounding
/// application fetches the feed and hands the plain values in.  The title is
/// the panel's Chinese phrase for "a new version was found", written in its
/// escaped form so the source stays ASCII.
pub fn evaluate_update(current: &str, remote: &str, notes: &str) -> (r: Option<UpdateInfo>)
    ensures
        spec_compare_versions(current@, remote@) ==> (r matches Some(u) && u.title@
            == "\u{53d1}\u{73b0}\u{65b0}\u{7248}\u{672c}"@ && u.latest@ == remote@ && u.msg@
            == notes@),
        !spec_compare_versions(current@, remote@) ==> r is None,
{
    if compare_versions(current, remote) {
        Some(
            UpdateInfo {
                title: String::from_str("\u{53d1}\u{73b0}\u{65b0}\u{7248}\u{672c}"),
                latest: String::from_str(remote),
                msg: String::from_str(notes),
            },
        )
    } else {
        None
    }
}

} // verus!
