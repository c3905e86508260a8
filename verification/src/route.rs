//! The route model: the two navigable application states, derived purely from
//! the current navigation path. `/` is the home (list) view; `/todo/{id}`,
//! with `{id}` a signed decimal integer, is the detail view for that id. A
//! path that fits neither pattern matches no route at all.

use vstd::prelude::*;
use vstd::string::StrSliceExecFns;

verus! {

/// The parsed representation of the current navigation path.
#[derive(Clone, Copy, Debug, PartialEq)]
pub enum AppRoute {
    Detail(i32),
    Home,
}

/// A decimal digit.
pub open spec fn spec_is_digit(c: char) -> bool {
    48 <= c as int && c as int <= 57
}

/// The numeric value of a decimal digit.
pub open spec fn spec_digit_value(c: char) -> int {
    c as int - 48
}

/// Every character of `s` is a decimal digit.
pub open spec fn spec_all_digits(s: Seq<char>) -> bool {
    forall|i: int| 0 <= i < s.len() ==> spec_is_digit(#[trigger] s[i])
}

/// The value of `s` read as a base-10 numeral (most significant digit first).
pub open spec fn spec_digits_value(s: Seq<char>) -> int
    decreases s.len(),
{
    if s.len() == 0 {
        0
    } else {
        spec_digits_value(s.drop_last()) * 10 + spec_digit_value(s.last())
    }
}

/// What a digit run denotes once the sign is applied, bounded to `i32`:
/// at least one digit, digits only, and the signed value in range.
pub open spec fn spec_parse_digits(digits: Seq<char>, negative: bool) -> Option<i32> {
    if digits.len() > 0 && spec_all_digits(digits) {
        if negative {
            if spec_digits_value(digits) <= 2147483648 {
                Some((-spec_digits_value(digits)) as i32)
            } else {
                None
            }
        } else {
            if spec_digits_value(digits) <= 2147483647 {
                Some(spec_digits_value(digits) as i32)
            } else {
                None
            }
        }
    } else {
        None
    }
}

/// A signed decimal integer as `str::parse::<i32>` accepts it: an optional
/// `+` or `-` sign, then one or more digits, the value within `i32`'s range.
pub open spec fn spec_parse_i32(s: Seq<char>) -> Option<i32> {
    if s.len() > 0 && (s[0] == '-' || s[0] == '+') {
        spec_parse_digits(s.subrange(1, s.len() as int), s[0] == '-')
    } else {
        spec_parse_digits(s, false)
    }
}

/// The path begins with the literal prefix `/todo/`.
pub open spec fn spec_has_todo_prefix(path: Seq<char>) -> bool {
    path.len() >= 6 && path[0] == '/' && path[1] == 't' && path[2] == 'o' && path[3] == 'd'
        && path[4] == 'o' && path[5] == '/'
}

/// The route denoted by a navigation path: `/` is home, `/todo/{id}` with a
/// well-formed integer segment is the detail view for `{id}`, and every other
/// path matches no route.
pub open spec fn spec_parse_route(path: Seq<char>) -> Option<AppRoute> {
    if path.len() == 1 && path[0] == '/' {
        Some(AppRoute::Home)
    } else if spec_has_todo_prefix(path) {
        match spec_parse_i32(path.skip(6)) {
            Some(id) => Some(AppRoute::Detail(id)),
            None => None,
        }
    } else {
        None
    }
}

/// A run of digits denotes a non-negative value.
proof fn lemma_digits_value_nonneg(s: Seq<char>)
    requires
        spec_all_digits(s),
    ensures
        spec_digits_value(s) >= 0,
    decreases s.len(),
{
    if s.len() > 0 {
        assert(spec_all_digits(s.drop_last()));
        lemma_digits_value_nonneg(s.drop_last());
    }
}

/// Extending a digit run to the right never shrinks its value.
proof fn lemma_digits_value_prefix(s: Seq<char>, i: int)
    requires
        spec_all_digits(s),
        0 <= i <= s.len(),
    ensures
        spec_digits_value(s) >= spec_digits_value(s.subrange(0, i)),
    decreases s.len() - i,
{
    if i == s.len() {
        assert(s.subrange(0, i) =~= s);
    } else {
        let p = s.subrange(0, i + 1);
        assert(p.drop_last() =~= s.subrange(0, i));
        assert(spec_all_digits(s.subrange(0, i)));
        lemma_digits_value_nonneg(s.subrange(0, i));
        assert(spec_digits_value(p) >= spec_digits_value(s.subrange(0, i)));
        lemma_digits_value_prefix(s, i + 1);
    }
}

/// Parses a signed decimal `i32` from the characters of `s` at and after
/// position `start`, exactly as the route model's integer segment demands.
#[verifier::loop_isolation(false)]
fn parse_i32_tail(s: &str, start: usize) -> (r: Option<i32>)
    requires
        start <= s@.len(),
    ensures
        r == spec_parse_i32(s@.skip(start as int)),
{
    let ghost t = s@.skip(start as int);
    let n: usize = s.unicode_len();
    if start == n {
        return None;
    }
    let c0: char = s.get_char(start);
    proof {
        assert(t[0] == s@[start as int]);
    }
    let has_sign: bool = c0 == '-' || c0 == '+';
    let negative: bool = c0 == '-';
    let d0: usize = if has_sign {
        start + 1
    } else {
        start
    };
    let ghost digs = s@.subrange(d0 as int, n as int);
    proof {
        if has_sign {
            assert(digs =~= t.subrange(1, t.len() as int));
        } else {
            assert(digs =~= t);
        }
    }
    if d0 == n {
        return None;
    }
    let mut i: usize = d0;
    let mut acc: u64 = 0;
    while i < n
        invariant
            d0 <= i <= n,
            n == s@.len(),
            digs == s@.subrange(d0 as int, n as int),
            spec_all_digits(s@.subrange(d0 as int, i as int)),
            acc == spec_digits_value(s@.subrange(d0 as int, i as int)),
            acc <= 2147483648,
        decreases n - i,
    {
        let c: char = s.get_char(i);
        let v: u32 = c as u32;
        proof {
            assert(c == s@[i as int]);
            assert(v == c as int);
        }
        if v < 48 || v > 57 {
            proof {
                assert(digs[i - d0] == s@[i as int]);
                assert(!spec_is_digit(digs[i - d0]));
                assert(!spec_all_digits(digs));
            }
            return None;
        }
        proof {
            let p = s@.subrange(d0 as int, i + 1);
            assert(p.drop_last() =~= s@.subrange(d0 as int, i as int));
            assert(p.last() == s@[i as int]);
        }
        let acc2: u64 = acc * 10 + ((v - 48) as u64);
        if acc2 > 2147483648 {
            proof {
                if spec_all_digits(digs) {
                    assert(acc2 == spec_digits_value(s@.subrange(d0 as int, i + 1)));
                    assert(s@.subrange(d0 as int, i + 1) =~= digs.subrange(0, i + 1 - d0));
                    lemma_digits_value_prefix(digs, i + 1 - d0);
                    assert(spec_digits_value(digs) > 2147483648);
                }
            }
            return None;
        }
        acc = acc2;
        i = i + 1;
    }
    proof {
        assert(s@.subrange(d0 as int, i as int) =~= digs);
    }
    if negative {
        if acc == 2147483648 {
            Some(i32::MIN)
        } else {
            Some(-(acc as i32))
        }
    } else {
        if acc > 2147483647 {
            None
        } else {
            Some(acc as i32)
        }
    }
}

/// Parses a complete string as a signed decimal `i32`.
pub fn parse_i32(s: &str) -> (r: Option<i32>)
    ensures
        r == spec_parse_i32(s@),
{
    let r = parse_i32_tail(s, 0);
    proof {
        assert(s@.skip(0) =~= s@);
    }
    r
}

/// Maps a navigation path to the route it denotes, or `None` when neither
/// pattern matches.
pub fn parse_route(path: &str) -> (r: Option<AppRoute>)
    ensures
        r == spec_parse_route(path@),
{
    let n: usize = path.unicode_len();
    if n == 1 && path.get_char(0) == '/' {
        return Some(AppRoute::Home);
    }
    if n >= 6 && path.get_char(0) == '/' && path.get_char(1) == 't' && path.get_char(2) == 'o'
        && path.get_char(3) == 'd' && path.get_char(4) == 'o' && path.get_char(5) == '/' {
        match parse_i32_tail(path, 6) {
            Some(id) => Some(AppRoute::Detail(id)),
            None => None,
        }
    } else {
        None
    }
}

/// The route mapping is a pure function of the path alone: the home route is
/// produced exactly for the root path and carries nothing, and a detail route
/// carries exactly the integer that the path's trailing segment denotes.
pub proof fn lemma_route_mapping(path: Seq<char>)
    ensures
        spec_parse_route(path) == Some(AppRoute::Home) <==> (path.len() == 1 && path[0] == '/'),
        spec_has_todo_prefix(path) ==> spec_parse_route(path) == (match spec_parse_i32(
            path.skip(6),
        ) {
            Some(id) => Some(AppRoute::Detail(id)),
            None => None,
        }),
        !(path.len() == 1 && path[0] == '/') && !spec_has_todo_prefix(path)
            ==> spec_parse_route(path) is None,
{
}

} // verus!
