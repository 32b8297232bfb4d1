//! The users offered for login, read from the text of `/etc/passwd`.

use vstd::prelude::*;

use crate::text::{chars_of, ends_with, ends_with_chars, string_from_chars, string_views};

verus! {

// ── Splitting ───────────────────────────────────────────────────

/// A line without the carriage return that ended it.
pub open spec fn strip_cr(line: Seq<char>) -> Seq<char> {
    if line.len() > 0 && line.last() == '\r' {
        line.drop_last()
    } else {
        line
    }
}

/// Reading `s` from the left: the lines completed by a line feed so far
/// (their carriage return stripped), and the text after the last line feed.
pub open spec fn line_scan(s: Seq<char>) -> (Seq<Seq<char>>, Seq<char>)
    decreases s.len(),
{
    if s.len() == 0 {
        (Seq::empty(), Seq::empty())
    } else {
        let (done, cur) = line_scan(s.drop_last());
        if s.last() == '\n' {
            (done.push(strip_cr(cur)), Seq::empty())
        } else {
            (done, cur.push(s.last()))
        }
    }
}

/// The lines of `s` as `str::lines` yields them: split at line feeds, a
/// carriage return before a line feed dropped, and no empty line after a
/// final line feed.
pub open spec fn lines(s: Seq<char>) -> Seq<Seq<char>> {
    let (done, cur) = line_scan(s);
    if cur.len() == 0 {
        done
    } else {
        done.push(cur)
    }
}

/// Reading `s` from the left: the fields closed by a colon so far, and the
/// field being read.
pub open spec fn field_scan(s: Seq<char>) -> (Seq<Seq<char>>, Seq<char>)
    decreases s.len(),
{
    if s.len() == 0 {
        (Seq::empty(), Seq::empty())
    } else {
        let (done, cur) = field_scan(s.drop_last());
        if s.last() == ':' {
            (done.push(cur), Seq::empty())
        } else {
            (done, cur.push(s.last()))
        }
    }
}

/// The fields of `s` as `str::split(':')` yields them: one more than there
/// are colons.
pub open spec fn split_fields(s: Seq<char>) -> Seq<Seq<char>> {
    let (done, cur) = field_scan(s);
    done.push(cur)
}

// ── Numbers ─────────────────────────────────────────────────────

pub open spec fn is_digit(c: char) -> bool {
    '0' <= c && c <= '9'
}

pub open spec fn digit_value(c: char) -> nat {
    (c as u32 - '0' as u32) as nat
}

/// The number that a string of decimal digits denotes.
pub open spec fn digits_value(d: Seq<char>) -> nat
    decreases d.len(),
{
    if d.len() == 0 {
        0
    } else {
        digits_value(d.drop_last()) * 10 + digit_value(d.last())
    }
}

/// The digits after an optional leading plus sign.
pub open spec fn unsigned_digits(s: Seq<char>) -> Seq<char> {
    if s.len() > 0 && s[0] == '+' {
        s.drop_first()
    } else {
        s
    }
}

/// What `str::parse::<u32>` gives: the value of an optional `+` followed by
/// at least one decimal digit and nothing else, if it fits in a `u32`.
pub open spec fn parse_u32(s: Seq<char>) -> Option<u32> {
    let d = unsigned_digits(s);
    if d.len() == 0 || !(forall|i: int| 0 <= i < d.len() ==> is_digit(#[trigger] d[i]))
        || digits_value(d) > u32::MAX {
        None
    } else {
        Some(digits_value(d) as u32)
    }
}

// ── Users ───────────────────────────────────────────────────────

/// The user that a line of `/etc/passwd` names, if it is a real one: at
/// least seven fields, a UID of at least 1000 that is not 65534 (nobody),
/// and a shell that does not end in `/nologin` or `/false`.
pub open spec fn user_of_line(line: Seq<char>) -> Option<Seq<char>> {
    let f = split_fields(line);
    if f.len() < 7 {
        None
    } else {
        match parse_u32(f[2]) {
            Some(uid) => if uid >= 1000 && uid != 65534 && !ends_with(f[6], "/nologin"@)
                && !ends_with(f[6], "/false"@) {
                Some(f[0])
            } else {
                None
            },
            None => None,
        }
    }
}

/// The real users that the text of `/etc/passwd` lists, in file order.
pub open spec fn passwd_users(content: Seq<char>) -> Seq<Seq<char>> {
    lines(content).filter_map(|l: Seq<char>| user_of_line(l))
}

/// A longer run of digits denotes at least as much as its prefix.
proof fn digits_value_prefix(d: Seq<char>, k: int)
    requires
        0 <= k <= d.len(),
    ensures
        digits_value(d.take(k)) <= digits_value(d),
    decreases d.len(),
{
    if k < d.len() {
        digits_value_prefix(d.drop_last(), k);
        assert(d.drop_last().take(k) =~= d.take(k));
    } else {
        assert(d.take(k) =~= d);
    }
}

/// `str::parse::<u32>` on these characters.
fn parse_uid(s: &Vec<char>) -> (r: Option<u32>)
    ensures
        r == parse_u32(s@),
{
    let ghost d = unsigned_digits(s@);
    let mut i: usize = 0;
    if s.len() > 0 && s[0] == '+' {
        i = 1;
    }
    let start = i;
    assert(d =~= s@.subrange(start as int, s@.len() as int));
    if start == s.len() {
        return None;
    }
    let mut acc: u64 = 0;
    while i < s.len()
        invariant
            start <= i <= s@.len(),
            start < s@.len(),
            d == s@.subrange(start as int, s@.len() as int),
            d == unsigned_digits(s@),
            forall|j: int| 0 <= j < i - start ==> is_digit(#[trigger] d[j]),
            acc == digits_value(d.take(i - start)),
            acc <= u32::MAX,
        decreases s@.len() - i,
    {
        let c = s[i];
        assert(d[i - start] == s@[i as int]);
        if !('0' <= c && c <= '9') {
            assert(!is_digit(d[i - start]));
            return None;
        }
        let v = (c as u32 - '0' as u32) as u64;
        proof {
            assert(d.take(i - start + 1).drop_last() =~= d.take(i - start));
            assert(d.take(i - start + 1).last() == c);
        }
        assert(v == digit_value(c));
        assert(digits_value(d.take(i - start + 1)) == acc * 10 + v);
        acc = acc * 10 + v;
        i = i + 1;
        if acc > 0xFFFF_FFFF {
            proof {
                digits_value_prefix(d, i - start);
                assert(digits_value(d) > u32::MAX);
            }
            return None;
        }
    }
    assert(d.take(i - start) =~= d);
    Some(acc as u32)
}

/// The fields of one line, split at colons.
fn split_colon(line: &Vec<char>) -> (r: Vec<Vec<char>>)
    ensures
        r@.map_values(|f: Vec<char>| f@) == split_fields(line@),
{
    let mut done: Vec<Vec<char>> = Vec::new();
    let mut cur: Vec<char> = Vec::new();
    let mut i: usize = 0;
    while i < line.len()
        invariant
            i <= line@.len(),
            done@.map_values(|f: Vec<char>| f@) == field_scan(line@.take(i as int)).0,
            cur@ == field_scan(line@.take(i as int)).1,
        decreases line@.len() - i,
    {
        let c = line[i];
        proof {
            assert(line@.take(i + 1).drop_last() =~= line@.take(i as int));
            assert(line@.take(i + 1).last() == c);
        }
        if c == ':' {
            let field = cur;
            cur = Vec::new();
            let ghost before = done@;
            done.push(field);
            assert(done@.map_values(|f: Vec<char>| f@) =~= before.map_values(|f: Vec<char>| f@).push(
                field@,
            ));
        } else {
            cur.push(c);
        }
        i = i + 1;
    }
    assert(line@.take(i as int) =~= line@);
    let ghost before = done@;
    done.push(cur);
    assert(done@.map_values(|f: Vec<char>| f@) =~= before.map_values(|f: Vec<char>| f@).push(
        cur@,
    ));
    done
}

/// The user that one line of `/etc/passwd` names, if it is a real one.
fn user_from_line(line: &Vec<char>) -> (r: Option<String>)
    ensures
        r matches Some(u) ==> user_of_line(line@) == Some(u@),
        r is None ==> user_of_line(line@) is None,
{
    let fields = split_colon(line);
    let ghost fv = fields@.map_values(|f: Vec<char>| f@);
    if fields.len() < 7 {
        return None;
    }
    assert(fv[2] == fields@[2]@);
    assert(fv[6] == fields@[6]@);
    assert(fv[0] == fields@[0]@);
    let uid = match parse_uid(&fields[2]) {
        Some(u) => u,
        None => {
            return None;
        },
    };
    if uid >= 1000 && uid != 65534 && !ends_with_chars(&fields[6], "/nologin")
        && !ends_with_chars(&fields[6], "/false") {
        let name = string_from_chars(&fields[0], fields[0].len());
        assert(fields@[0]@.take(fields@[0]@.len() as int) =~= fields@[0]@);
        Some(name)
    } else {
        None
    }
}

/// The characters of a line with its carriage return stripped.
fn strip_carriage_return(cur: Vec<char>) -> (r: Vec<char>)
    ensures
        r@ == strip_cr(cur@),
{
    let mut cur = cur;
    if cur.len() > 0 && cur[cur.len() - 1] == '\r' {
        cur.pop();
    }
    cur
}

/// The real users (UID >= 1000, not nobody, with a login shell) that the
/// text of `/etc/passwd` lists, in file order.
pub fn list_real_users(content: &str) -> (r: Vec<String>)
    ensures
        string_views(r@) == passwd_users(content@),
{
    let s = chars_of(content);
    let ghost f = |l: Seq<char>| user_of_line(l);
    let mut users: Vec<String> = Vec::new();
    let mut cur: Vec<char> = Vec::new();
    let mut i: usize = 0;
    while i < s.len()
        invariant
            s@ == content@,
            f == (|l: Seq<char>| user_of_line(l)),
            i <= s@.len(),
            string_views(users@) == line_scan(s@.take(i as int)).0.filter_map(f),
            cur@ == line_scan(s@.take(i as int)).1,
        decreases s@.len() - i,
    {
        let c = s[i];
        let ghost done = line_scan(s@.take(i as int)).0;
        proof {
            assert(s@.take(i + 1).drop_last() =~= s@.take(i as int));
            assert(s@.take(i + 1).last() == c);
        }
        if c == '\n' {
            let line = strip_carriage_return(cur);
            cur = Vec::new();
            let found = user_from_line(&line);
            proof {
                assert(done.push(line@).drop_last() =~= done);
            }
            match found {
                Some(u) => {
                    let ghost before = users@;
                    users.push(u);
                    assert(string_views(users@) =~= string_views(before).push(u@));
                },
                None => {},
            }
        } else {
            cur.push(c);
        }
        i = i + 1;
    }
    assert(s@.take(i as int) =~= s@);
    let ghost done = line_scan(s@).0;
    if cur.len() > 0 {
        let found = user_from_line(&cur);
        proof {
            assert(done.push(cur@).drop_last() =~= done);
        }
        match found {
            Some(u) => {
                let ghost before = users@;
                users.push(u);
                assert(string_views(users@) =~= string_views(before).push(u@));
            },
            None => {},
        }
    }
    users
}

} // verus!
