//! Release checks: reading version tags, comparing them, and deciding when a
//! cached answer is fresh enough to skip asking the release server.

use vstd::prelude::*;

use crate::text::{lowercase, to_lowercase};
use crate::strs::{
    str_eq, trim,
    chars_of, count_leading, lead_char, parse_u64, parse_u64_spec, string_of, trim_bounds,
    trim_spec,
};

verus! {

/// How long a cached answer stays fresh, in seconds.
pub const CACHE_TTL_SECS: u64 = 86400;

/// The outcome of a release check.
#[derive(Debug)]
pub struct ResultInfo {
    pub current: String,
    pub latest: String,
    pub update_available: bool,
    pub checked_at: u64,
    pub message: String,
}

/// The last release tag seen, and when it was fetched.
#[derive(Debug, Default)]
pub struct Cache {
    pub latest: String,
    pub checked_at: u64,
}

/// The number of leading characters of `s` that are neither `-` nor `+`.
pub open spec fn lead_core(s: Seq<char>) -> nat
    decreases s.len(),
{
    if s.len() > 0 && s[0] != '-' && s[0] != '+' {
        1 + lead_core(s.drop_first())
    } else {
        0
    }
}

/// A version tag without white space around it, without its leading `v`s, and without any
/// pre-release or build suffix (from the first `-` or `+` on).
pub open spec fn normalize_spec(v: Seq<char>) -> Seq<char> {
    let t = trim_spec(v);
    let u = t.skip(lead_char(t, 'v') as int);
    u.take(lead_core(u) as int)
}

/// The pieces of `s` between the dots, as `str::split('.')` gives them.
pub open spec fn split_dots(s: Seq<char>) -> Seq<Seq<char>>
    decreases s.len(),
{
    if s.len() == 0 {
        seq![Seq::empty()]
    } else {
        let r = split_dots(s.drop_last());
        if s.last() == '.' {
            r.push(Seq::empty())
        } else {
            r.update(r.len() - 1, r.last().push(s.last()))
        }
    }
}

/// The three numbers of a dotted version, or `None` when it has fewer than two pieces or one
/// of its first three pieces is not a number; a missing third number is zero.
pub open spec fn parse_semver_spec(v: Seq<char>) -> Option<Seq<u64>> {
    let parts = split_dots(v);
    if parts.len() < 2 {
        None
    } else if parse_u64_spec(parts[0]) is None || parse_u64_spec(parts[1]) is None || (
    parts.len() >= 3 && parse_u64_spec(parts[2]) is None) {
        None
    } else {
        Some(
            seq![
                parse_u64_spec(parts[0])->0,
                parse_u64_spec(parts[1])->0,
                if parts.len() >= 3 { parse_u64_spec(parts[2])->0 } else { 0 },
            ],
        )
    }
}

/// Whether version `a` is above version `b`, comparing the numbers in order.
pub open spec fn version_gt(a: Seq<u64>, b: Seq<u64>) -> bool {
    ||| a[0] > b[0]
    ||| a[0] == b[0] && a[1] > b[1]
    ||| a[0] == b[0] && a[1] == b[1] && a[2] > b[2]
}

/// Whether the release `latest` is newer than the running version `current`.
pub open spec fn is_newer_spec(latest: Seq<char>, current: Seq<char>) -> bool {
    let l = normalize_spec(latest);
    let c = normalize_spec(current);
    if l.len() == 0 || c.len() == 0 || c =~= seq!['d', 'e', 'v'] {
        false
    } else {
        match (parse_semver_spec(l), parse_semver_spec(c)) {
            (Some(a), Some(b)) => version_gt(a, b),
            _ => false,
        }
    }
}

/// The message shown when a newer release exists.
pub open spec fn update_message(latest: Seq<char>) -> Seq<char> {
    "Update available: "@ + latest + " (brew upgrade spotify-tui-rs)"@
}

/// Whether `r` is the outcome of comparing `latest` (fetched at `checked_at`) with `current`.
pub open spec fn result_for(r: ResultInfo, current: Seq<char>, latest: Seq<char>, checked_at: u64) -> bool {
    &&& r.current@ == current
    &&& r.latest@ == latest
    &&& r.checked_at == checked_at
    &&& r.update_available == is_newer_spec(latest, current)
    &&& r.message@ == if is_newer_spec(latest, current) {
        update_message(latest)
    } else {
        Seq::empty()
    }
}

proof fn lemma_lead_core(s: Seq<char>, i: int)
    requires
        0 <= i <= s.len(),
        forall|j: int| 0 <= j < i ==> #[trigger] s[j] != '-' && s[j] != '+',
        i == s.len() || s[i] == '-' || s[i] == '+',
    ensures
        lead_core(s) == i,
    decreases i,
{
    if i > 0 {
        let t = s.drop_first();
        assert forall|j: int| 0 <= j < i - 1 implies #[trigger] t[j] != '-' && t[j] != '+' by {
            assert(t[j] == s[j + 1]);
        }
        lemma_lead_core(t, i - 1);
    }
}

/// The normal form of a version tag (see `normalize_spec`), as characters.
pub fn normalize(v: &str) -> (r: Vec<char>)
    ensures
        r@ == normalize_spec(v@),
{
    let chars = chars_of(v);
    let (a, b) = trim_bounds(chars.as_slice());
    let t = string_of(chars.as_slice(), a, b);
    let tv = chars_of(t.as_str());
    let skip = count_leading(tv.as_slice(), 'v');
    let mut end = skip;
    while end < tv.len() && tv[end] != '-' && tv[end] != '+'
        invariant
            skip <= end <= tv@.len(),
            forall|j: int| skip <= j < end ==> #[trigger] tv@[j] != '-' && tv@[j] != '+',
        decreases tv.len() - end,
    {
        end += 1;
    }
    proof {
        let u = tv@.skip(skip as int);
        assert forall|j: int| 0 <= j < end - skip implies #[trigger] u[j] != '-' && u[j] != '+' by {
            assert(u[j] == tv@[j + skip]);
        }
        if end < tv@.len() {
            assert(u[end - skip] == tv@[end as int]);
        }
        lemma_lead_core(u, end - skip);
    }
    let mut out: Vec<char> = Vec::new();
    let mut i = skip;
    while i < end
        invariant
            skip <= i <= end <= tv@.len(),
            out@ == tv@.subrange(skip as int, i as int),
        decreases end - i,
    {
        out.push(tv[i]);
        i += 1;
        assert(out@ =~= tv@.subrange(skip as int, i as int));
    }
    assert(out@ =~= normalize_spec(v@));
    out
}

/// Splits `v` at every dot.
pub fn split_on_dots(v: &[char]) -> (parts: Vec<Vec<char>>)
    ensures
        parts@.len() == split_dots(v@).len(),
        forall|i: int| 0 <= i < parts@.len() ==> #[trigger] parts@[i]@ == split_dots(v@)[i],
{
    let mut done: Vec<Vec<char>> = Vec::new();
    let mut cur: Vec<char> = Vec::new();
    let mut i: usize = 0;
    while i < v.len()
        invariant
            i <= v@.len(),
            split_dots(v@.take(i as int)).len() == done@.len() + 1,
            forall|k: int| 0 <= k < done@.len() ==> #[trigger] done@[k]@ == split_dots(
                v@.take(i as int),
            )[k],
            cur@ == split_dots(v@.take(i as int)).last(),
        decreases v.len() - i,
    {
        let ghost prev = split_dots(v@.take(i as int));
        let ghost prev_done = done@;
        assert(v@.take(i + 1).drop_last() =~= v@.take(i as int));
        assert(v@.take(i + 1).last() == v@[i as int]);
        if v[i] == '.' {
            done.push(cur);
            cur = Vec::new();
            proof {
                let next = split_dots(v@.take(i + 1));
                assert(next == prev.push(Seq::empty()));
                assert forall|k: int| 0 <= k < done@.len() implies #[trigger] done@[k]@ == next[k] by {
                    if k < done@.len() - 1 {
                        assert(done@[k] == prev_done[k]);
                    }
                }
                assert(cur@ =~= next.last());
            }
        } else {
            cur.push(v[i]);
            proof {
                let next = split_dots(v@.take(i + 1));
                assert(next == prev.update(prev.len() - 1, prev.last().push(v@[i as int])));
                assert forall|k: int| 0 <= k < done@.len() implies #[trigger] done@[k]@ == next[k] by {
                    assert(next[k] == prev[k]);
                }
            }
        }
        i += 1;
    }
    done.push(cur);
    assert(v@.take(v@.len() as int) =~= v@);
    done
}

/// Reads the three numbers of a dotted version (see `parse_semver_spec`).
pub fn parse_semver(v: &[char]) -> (r: Option<[u64; 3]>)
    ensures
        match r {
            Some(a) => parse_semver_spec(v@) == Some(a@),
            None => parse_semver_spec(v@) is None,
        },
{
    let parts = split_on_dots(v);
    if parts.len() < 2 {
        return None;
    }
    let a = match parse_u64(parts[0].as_slice()) {
        Some(x) => x,
        None => return None,
    };
    let b = match parse_u64(parts[1].as_slice()) {
        Some(x) => x,
        None => return None,
    };
    let c = if parts.len() >= 3 {
        match parse_u64(parts[2].as_slice()) {
            Some(x) => x,
            None => return None,
        }
    } else {
        0
    };
    let out = [a, b, c];
    assert(out@ =~= parse_semver_spec(v@)->0);
    Some(out)
}

fn is_dev(v: &[char]) -> (r: bool)
    ensures
        r == (v@ =~= seq!['d', 'e', 'v']),
{
    v.len() == 3 && v[0] == 'd' && v[1] == 'e' && v[2] == 'v'
}

/// Whether the release tag `latest` names a newer version than `current`.
pub fn is_newer(latest: &str, current: &str) -> (r: bool)
    ensures
        r == is_newer_spec(latest@, current@),
{
    let l = normalize(latest);
    let c = normalize(current);
    if l.len() == 0 || c.len() == 0 {
        return false;
    }
    if is_dev(c.as_slice()) {
        return false;
    }
    let lv = parse_semver(l.as_slice());
    let cv = parse_semver(c.as_slice());
    match (lv, cv) {
        (Some(a), Some(b)) => {
            if a[0] > b[0] {
                return true;
            }
            if a[0] < b[0] {
                return false;
            }
            if a[1] > b[1] {
                return true;
            }
            if a[1] < b[1] {
                return false;
            }
            a[2] > b[2]
        },
        _ => false,
    }
}

/// The outcome of comparing the release `latest`, fetched at `checked_at`, with `current`.
pub fn build_result(current: &str, latest: &str, checked_at: u64) -> (r: ResultInfo)
    ensures
        result_for(r, current@, latest@, checked_at),
{
    let newer = is_newer(latest, current);
    let mut message = String::new();
    if newer {
        let head = "Update available: ";
        let tail = " (brew upgrade spotify-tui-rs)";
        message.append(head);
        message.append(latest);
        message.append(tail);
    }
    ResultInfo {
        current: String::from_str(current),
        latest: String::from_str(latest),
        update_available: newer,
        checked_at,
        message,
    }
}

/// Whether a cached answer taken at `checked_at` is still fresh at `now`.
pub open spec fn cache_fresh(now: u64, checked_at: u64) -> bool {
    (if now >= checked_at { now - checked_at } else { 0int }) < CACHE_TTL_SECS
}

/// Answers a release check from the cache when that is allowed: not forced, a cached tag, and
/// a cache younger than a day. `None` means that the release server must be asked.
pub fn check(current_version: &str, force: bool, now: u64, cached: Option<Cache>) -> (r: Option<
    ResultInfo,
>)
    ensures
        match cached {
            Some(c) if !force && c.latest@.len() > 0 && cache_fresh(now, c.checked_at) => r matches Some(
                res,
            ) && result_for(res, current_version@, c.latest@, c.checked_at),
            _ => r is None,
        },
{
    if force {
        return None;
    }
    match cached {
        Some(c) => {
            if c.latest.as_str().unicode_len() > 0 && now.saturating_sub(c.checked_at)
                < CACHE_TTL_SECS {
                Some(build_result(current_version, c.latest.as_str(), c.checked_at))
            } else {
                None
            }
        },
        None => None,
    }
}

/// The outcome of a check that asked the release server at `now`, and the cache entry to keep.
pub fn fresh_result(current_version: &str, latest: &str, now: u64) -> (r: (ResultInfo, Cache))
    ensures
        result_for(r.0, current_version@, latest@, now),
        r.1.latest@ == latest@,
        r.1.checked_at == now,
{
    let res = build_result(current_version, latest, now);
    (res, Cache { latest: String::from_str(latest), checked_at: now })
}

/// No version is newer than itself.
pub proof fn lemma_is_newer_irreflexive(v: Seq<char>)
    ensures
        !is_newer_spec(v, v),
{
}

/// Of two versions, at most one is newer than the other.
pub proof fn lemma_is_newer_asymmetric(a: Seq<char>, b: Seq<char>)
    ensures
        is_newer_spec(a, b) ==> !is_newer_spec(b, a),
{
}

/// A release is newer exactly when its numbers, read as (major, minor, patch), are above the
/// running version's in that order: a higher major wins, then a higher minor, then a higher
/// patch, whatever the later numbers are.
pub proof fn law_newer_compares_in_order(latest: Seq<char>, current: Seq<char>, a: Seq<u64>, b: Seq<u64>)
    requires
        parse_semver_spec(normalize_spec(latest)) == Some(a),
        parse_semver_spec(normalize_spec(current)) == Some(b),
    ensures
        is_newer_spec(latest, current) <==> (a[0] > b[0] || (a[0] == b[0] && a[1] > b[1]) || (a[0]
            == b[0] && a[1] == b[1] && a[2] > b[2])),
        a[0] > b[0] ==> is_newer_spec(latest, current),
        a[0] < b[0] ==> !is_newer_spec(latest, current),
        a[0] == b[0] && a[1] > b[1] ==> is_newer_spec(latest, current),
        a[0] == b[0] && a[1] < b[1] ==> !is_newer_spec(latest, current),
{
    let c = normalize_spec(current);
    let l = normalize_spec(latest);
    if c =~= seq!['d', 'e', 'v'] {
        let c1 = c.drop_last().drop_last();
        let c2 = c.drop_last();
        assert(c1.drop_last() =~= Seq::<char>::empty());
        assert(split_dots(c1.drop_last()) == seq![Seq::<char>::empty()]);
        assert(c1.last() == 'd');
        assert(split_dots(c1).len() == 1);
        assert(c2.drop_last() == c1);
        assert(c2.last() == 'e');
        assert(split_dots(c2).len() == 1);
        assert(c.drop_last() == c2);
        assert(c.last() == 'v');
        assert(split_dots(c).len() == 1);
    }
    if l.len() == 0 {
        assert(split_dots(l) == seq![Seq::<char>::empty()]);
    }
    if c.len() == 0 {
        assert(split_dots(c) == seq![Seq::<char>::empty()]);
    }
}

/// A tag that does not read as a version is never newer, nor is anything newer than one.
pub proof fn law_unreadable_is_not_newer(latest: Seq<char>, current: Seq<char>)
    requires
        parse_semver_spec(normalize_spec(latest)) is None || parse_semver_spec(
            normalize_spec(current),
        ) is None,
    ensures
        !is_newer_spec(latest, current),
{
}

/// Being newer is transitive.
pub proof fn lemma_is_newer_transitive(a: Seq<char>, b: Seq<char>, c: Seq<char>)
    requires
        is_newer_spec(a, b),
        is_newer_spec(b, c),
    ensures
        is_newer_spec(a, c),
{
}

/// Whether release checks are on for the setting `setting` (the value of the variable that
/// turns them off, when it is set): on when it is unset, empty, `0`, `false` or `no`, ignoring
/// case and surrounding white space.
pub open spec fn update_checks_enabled_spec(setting: Option<Seq<char>>) -> bool {
    let t = lowercase(
        trim_spec(
            match setting {
                Some(s) => s,
                None => Seq::empty(),
            },
        ),
    );
    t.len() == 0 || t == "0"@ || t == "false"@ || t == "no"@
}

/// Whether release checks are on for the setting `setting`.
pub fn update_checks_enabled(setting: Option<String>) -> (r: bool)
    ensures
        r == update_checks_enabled_spec(setting.deep_view()),
{
    let ghost given = setting.deep_view();
    let raw = match setting {
        Some(s) => s,
        None => String::new(),
    };
    assert(raw@ == match given {
        Some(s) => s,
        None => Seq::<char>::empty(),
    });
    let t = trim(raw.as_str());
    let l = to_lowercase(t.as_str());
    let v = l.as_str();
    v.unicode_len() == 0 || str_eq(v, "0") || str_eq(v, "false") || str_eq(v, "no")
}

} // verus!
