//! Finding the adapter's entry in the kill-switch utility's device listing.
//!
//! The listing has one `<id> <device-name>` row per line. A row is trimmed of
//! surrounding whitespace and split at its first space; the id of the first row
//! whose device name equals the adapter's name is the one to block or unblock.
use vstd::prelude::*;

verus! {

/// The characters `char::is_whitespace` accepts (Unicode `White_Space`).
pub open spec fn is_space_char(c: char) -> bool {
    let u = c as u32;
    (0x09 <= u && u <= 0x0d) || u == 0x20 || u == 0x85 || u == 0xa0 || u == 0x1680 || (0x2000 <= u
        && u <= 0x200a) || u == 0x2028 || u == 0x2029 || u == 0x202f || u == 0x205f || u == 0x3000
}

fn is_space(c: char) -> (r: bool)
    ensures
        r == is_space_char(c),
{
    let u = c as u32;
    (0x09 <= u && u <= 0x0d) || u == 0x20 || u == 0x85 || u == 0xa0 || u == 0x1680 || (0x2000 <= u
        && u <= 0x200a) || u == 0x2028 || u == 0x2029 || u == 0x202f || u == 0x205f || u == 0x3000
}

/// First index in `[i, e)` that holds no whitespace, or `e`.
pub open spec fn skip_space(s: Seq<char>, i: int, e: int) -> int
    decreases e - i,
{
    if i >= e {
        e
    } else if is_space_char(s[i]) {
        skip_space(s, i + 1, e)
    } else {
        i
    }
}

/// End of `[b, e)` once trailing whitespace is cut off.
pub open spec fn cut_space(s: Seq<char>, b: int, e: int) -> int
    decreases e - b,
{
    if e <= b {
        b
    } else if is_space_char(s[e - 1]) {
        cut_space(s, b, e - 1)
    } else {
        e
    }
}

/// First index in `[i, e)` that holds a space, or `e`.
pub open spec fn first_space(s: Seq<char>, i: int, e: int) -> int
    decreases e - i,
{
    if i >= e {
        e
    } else if s[i] == ' ' {
        i
    } else {
        first_space(s, i + 1, e)
    }
}

/// The id of the row `s[a..e]` when its device name is `name`.
pub open spec fn row_id(s: Seq<char>, a: int, e: int, name: Seq<char>) -> Option<Seq<char>> {
    let b = skip_space(s, a, e);
    let t = cut_space(s, b, e);
    let p = first_space(s, b, t);
    if p < t && s.subrange(p + 1, t) == name {
        Some(s.subrange(b, p))
    } else {
        None
    }
}

/// The id of the first matching row, scanning from index `i` within the row
/// that starts at `start`.
pub open spec fn listing_id_from(s: Seq<char>, start: int, i: int, name: Seq<char>) -> Option<
    Seq<char>,
>
    decreases s.len() - i,
{
    if i >= s.len() {
        row_id(s, start, s.len() as int, name)
    } else if s[i] == '\n' {
        match row_id(s, start, i, name) {
            Some(id) => Some(id),
            None => listing_id_from(s, i + 1, i + 1, name),
        }
    } else {
        listing_id_from(s, start, i + 1, name)
    }
}

/// The id of the first row of `listing` whose device name is `name`.
pub open spec fn listing_id(listing: Seq<char>, name: Seq<char>) -> Option<Seq<char>> {
    listing_id_from(listing, 0, 0, name)
}

fn text_equals_range(s: &str, from: usize, to: usize, name: &str) -> (r: bool)
    requires
        from <= to <= s@.len(),
    ensures
        r == (s@.subrange(from as int, to as int) == name@),
{
    let n = name.unicode_len();
    if to - from != n {
        return false;
    }
    let mut k: usize = 0;
    while k < n
        invariant
            n == name@.len(),
            to - from == n,
            from <= to <= s@.len(),
            k <= n,
            forall|j: int| 0 <= j < k ==> s@[from + j] == name@[j],
        decreases n - k,
    {
        if s.get_char(from + k) != name.get_char(k) {
            assert(s@.subrange(from as int, to as int)[k as int] != name@[k as int]);
            return false;
        }
        k = k + 1;
    }
    assert(s@.subrange(from as int, to as int) =~= name@);
    true
}

fn row_id_exec(s: &str, a: usize, e: usize, name: &str) -> (r: Option<String>)
    requires
        a <= e <= s@.len(),
    ensures
        r matches Some(id) ==> row_id(s@, a as int, e as int, name@) == Some(id@),
        r is None ==> row_id(s@, a as int, e as int, name@) is None,
{
    let mut b = a;
    while b < e && is_space(s.get_char(b))
        invariant
            a <= b <= e <= s@.len(),
            skip_space(s@, a as int, e as int) == skip_space(s@, b as int, e as int),
        decreases e - b,
    {
        b = b + 1;
    }
    let mut t = e;
    while t > b && is_space(s.get_char(t - 1))
        invariant
            b <= t <= e <= s@.len(),
            cut_space(s@, b as int, e as int) == cut_space(s@, b as int, t as int),
        decreases t - b,
    {
        t = t - 1;
    }
    let mut p = b;
    while p < t && s.get_char(p) != ' '
        invariant
            b <= p <= t <= s@.len(),
            first_space(s@, b as int, t as int) == first_space(s@, p as int, t as int),
        decreases t - p,
    {
        p = p + 1;
    }
    if p < t && text_equals_range(s, p + 1, t, name) {
        Some(String::from_str(s.substring_char(b, p)))
    } else {
        None
    }
}

/// The id of the first row of the kill-switch listing whose device name is
/// `adapter_name`, or `None` when no row matches.
pub fn killswitch_id(listing: &str, adapter_name: &str) -> (r: Option<String>)
    ensures
        r is None <==> listing_id(listing@, adapter_name@) is None,
        r matches Some(id) ==> listing_id(listing@, adapter_name@) == Some(id@),
{
    let n = listing.unicode_len();
    let mut start: usize = 0;
    let mut i: usize = 0;
    while i < n
        invariant
            n == listing@.len(),
            start <= i <= n,
            listing_id(listing@, adapter_name@) == listing_id_from(
                listing@,
                start as int,
                i as int,
                adapter_name@,
            ),
        decreases n - i,
    {
        if listing.get_char(i) == '\n' {
            let found = row_id_exec(listing, start, i, adapter_name);
            if found.is_some() {
                return found;
            }
            start = i + 1;
        }
        i = i + 1;
    }
    row_id_exec(listing, start, n, adapter_name)
}

/// The argument of the kill-switch utility that blocks (`true`) or unblocks a device.
pub fn killswitch_verb(block: bool) -> (r: &'static str)
    ensures
        block ==> r@ == "block"@,
        !block ==> r@ == "unblock"@,
{
    if block {
        "block"
    } else {
        "unblock"
    }
}

} // verus!
