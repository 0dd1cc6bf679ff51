//! Command recognition: which of the guild commands an inbound message
//! carries, and the payload parsing of the administrative commands.

use vstd::prelude::*;
use vstd::string::StringSliceAdditionalSpecFns;
use crate::text;

verus! {

/// A command any guild member may give.
#[derive(Clone, Copy, Debug, PartialEq, Eq, Structural)]
pub enum UserCommand {
    JoinGuild,
    Status,
    Leveling,
}

/// A command reserved to administrators.
#[derive(Clone, Copy, Debug, PartialEq, Eq, Structural)]
pub enum AdminCommand {
    AddMonster,
    Spawn,
}

/// Recognize the commands a message carries: the first matching member
/// command (a `.guild join` prefix, then `.status`, then `.leveling`
/// anywhere), and, for an administrator, the first matching administrative
/// command (`.add monster`, then `.spawn`, anywhere).
pub fn parse_commands(message: &[u8], is_admin: bool) -> (r: (
    Option<UserCommand>,
    Option<AdminCommand>,
))
    ensures
        r.0 == (if ".guild join".spec_bytes().len() <= message@.len() && text::is_match_at(
            message@,
            ".guild join".spec_bytes(),
            0,
        ) {
            Some(UserCommand::JoinGuild)
        } else if text::contains_seq(message@, ".status".spec_bytes()) {
            Some(UserCommand::Status)
        } else if text::contains_seq(message@, ".leveling".spec_bytes()) {
            Some(UserCommand::Leveling)
        } else {
            None::<UserCommand>
        }),
        r.1 == (if !is_admin {
            None::<AdminCommand>
        } else if text::contains_seq(message@, ".add monster".spec_bytes()) {
            Some(AdminCommand::AddMonster)
        } else if text::contains_seq(message@, ".spawn".spec_bytes()) {
            Some(AdminCommand::Spawn)
        } else {
            None::<AdminCommand>
        }),
{
    let member = if text::starts_with_bytes(message, ".guild join".as_bytes()) {
        Some(UserCommand::JoinGuild)
    } else if text::contains_bytes(message, ".status".as_bytes()) {
        Some(UserCommand::Status)
    } else if text::contains_bytes(message, ".leveling".as_bytes()) {
        Some(UserCommand::Leveling)
    } else {
        None
    };
    let admin = if !is_admin {
        None
    } else if text::contains_bytes(message, ".add monster".as_bytes()) {
        Some(AdminCommand::AddMonster)
    } else if text::contains_bytes(message, ".spawn".as_bytes()) {
        Some(AdminCommand::Spawn)
    } else {
        None
    };
    (member, admin)
}

/// Whether `pubkey` is one of the administrators' keys.
pub fn is_admin_key(admin_pubkeys: &Vec<String>, pubkey: &String) -> (r: bool)
    ensures
        r == exists|i: int| 0 <= i < admin_pubkeys@.len() && admin_pubkeys@[i]@ == pubkey@,
{
    let mut i: usize = 0;
    while i < admin_pubkeys.len()
        invariant
            i <= admin_pubkeys@.len(),
            forall|k: int| 0 <= k < i ==> admin_pubkeys@[k]@ != pubkey@,
        decreases admin_pubkeys@.len() - i,
    {
        if admin_pubkeys[i] == *pubkey {
            return true;
        }
        i = i + 1;
    }
    false
}

/// The index of the first newline in `s`, or its length if there is none.
pub open spec fn find_nl(s: Seq<u8>) -> int
    decreases s.len(),
{
    if s.len() == 0 {
        0
    } else if s[0] == 10 {
        0
    } else {
        1 + find_nl(s.subrange(1, s.len() as int))
    }
}

pub proof fn lemma_find_nl_range(s: Seq<u8>)
    ensures
        0 <= find_nl(s) <= s.len(),
    decreases s.len(),
{
    if s.len() > 0 && s[0] != 10 {
        lemma_find_nl_range(s.subrange(1, s.len() as int));
    }
}

/// `find_nl` is pinned by a scan: no newline before `k`, one at `k` or the end.
pub proof fn lemma_find_nl_at(s: Seq<u8>, k: int)
    requires
        0 <= k <= s.len(),
        forall|u: int| 0 <= u < k ==> s[u] != 10,
        k == s.len() || s[k] == 10,
    ensures
        find_nl(s) == k,
    decreases s.len(),
{
    if s.len() == 0 {
    } else if s[0] == 10 {
        assert(k == 0);
    } else {
        assert(k >= 1);
        let sub = s.subrange(1, s.len() as int);
        assert forall|u: int| 0 <= u < k - 1 implies sub[u] != 10 by {
            assert(sub[u] == s[u + 1]);
        }
        if k < s.len() {
            assert(sub[k - 1] == s[k]);
        }
        lemma_find_nl_at(sub, k - 1);
    }
}

/// A line with any trailing carriage return removed.
pub open spec fn strip_cr(s: Seq<u8>) -> Seq<u8> {
    if s.len() > 0 && s[s.len() - 1] == 13 {
        s.drop_last()
    } else {
        s
    }
}

/// The lines of `s`, split at newlines, each without its trailing carriage
/// return, and with no empty final line after a trailing newline.
pub open spec fn lines_of(s: Seq<u8>) -> Seq<Seq<u8>>
    decreases s.len(),
    via lines_of_decreases
{
    if s.len() == 0 {
        Seq::empty()
    } else {
        let i = find_nl(s);
        if i == s.len() {
            seq![strip_cr(s)]
        } else {
            seq![strip_cr(s.subrange(0, i))] + lines_of(s.subrange(i + 1, s.len() as int))
        }
    }
}

#[via_fn]
proof fn lines_of_decreases(s: Seq<u8>) {
    lemma_find_nl_range(s);
}

/// Split a message into its lines, as `lines_of` describes them.
pub fn split_lines(s: &[u8]) -> (r: Vec<Vec<u8>>)
    ensures
        r@.map_values(|l: Vec<u8>| l@) == lines_of(s@),
{
    let len = s.len();
    let mut r: Vec<Vec<u8>> = Vec::new();
    let mut pos: usize = 0;
    proof {
        assert(s@.subrange(0, len as int) =~= s@);
        assert(r@.map_values(|l: Vec<u8>| l@) =~= Seq::<Seq<u8>>::empty());
    }
    while pos < len
        invariant
            len == s@.len(),
            pos <= len,
            r@.map_values(|l: Vec<u8>| l@) + lines_of(s@.subrange(pos as int, len as int))
                =~= lines_of(s@),
        decreases len - pos,
    {
        let mut j: usize = pos;
        while j < len && s[j] != 10
            invariant
                len == s@.len(),
                pos <= j <= len,
                forall|t: int| pos <= t < j ==> s@[t] != 10,
            decreases len - j,
        {
            j = j + 1;
        }
        let mut end: usize = j;
        if end > pos && s[end - 1] == 13 {
            end = end - 1;
        }
        let line: Vec<u8> = vstd::slice::slice_to_vec(vstd::slice::slice_subrange(s, pos, end));
        proof {
            let suffix = s@.subrange(pos as int, len as int);
            assert forall|u: int| 0 <= u < j - pos implies suffix[u] != 10 by {
                assert(suffix[u] == s@[pos + u]);
            }
            if j < len {
                assert(suffix[j - pos] == s@[j as int]);
            }
            lemma_find_nl_at(suffix, j - pos);
            let seg = suffix.subrange(0, j - pos);
            assert(seg =~= s@.subrange(pos as int, j as int));
            if end < j {
                assert(seg[seg.len() - 1] == s@[j - 1]);
                assert(strip_cr(seg) =~= s@.subrange(pos as int, end as int));
            } else {
                assert(strip_cr(seg) =~= s@.subrange(pos as int, end as int));
            }
            if j == len {
                assert(seg =~= suffix);
                assert(lines_of(suffix) =~= seq![strip_cr(suffix)]);
            } else {
                assert(suffix.subrange(j - pos + 1, suffix.len() as int) =~= s@.subrange(
                    j + 1,
                    len as int,
                ));
            }
        }
        r.push(line);
        let old_pos: Ghost<usize> = Ghost(pos);
        if j < len {
            pos = j + 1;
        } else {
            pos = len;
        }
        proof {
            let f = |l: Vec<u8>| l@;
            assert(r@.map_values(f) =~= r@.map_values(f).subrange(0, r@.len() - 1).push(line@));
            assert(r@.map_values(f).subrange(0, r@.len() - 1) =~= r@.subrange(
                0,
                r@.len() - 1,
            ).map_values(f));
            assert(r@.subrange(0, r@.len() - 1).map_values(f)
                + lines_of(s@.subrange(old_pos@ as int, len as int)) =~= lines_of(s@));
            assert(r@.map_values(f) + lines_of(s@.subrange(pos as int, len as int)) =~= lines_of(
                s@,
            ));
        }
    }
    proof {
        assert(s@.subrange(pos as int, len as int) =~= Seq::<u8>::empty());
        assert(lines_of(Seq::<u8>::empty()) =~= Seq::<Seq<u8>>::empty());
        assert(r@.map_values(|l: Vec<u8>| l@) =~= lines_of(s@));
    }
    r
}

/// An ASCII decimal digit.
pub open spec fn is_digit(b: u8) -> bool {
    48 <= b <= 57
}

pub open spec fn all_digits(s: Seq<u8>) -> bool {
    forall|i: int| 0 <= i < s.len() ==> is_digit(s[i])
}

/// The number a sequence of decimal digits denotes.
pub open spec fn digits_value(s: Seq<u8>) -> int
    decreases s.len(),
{
    if s.len() == 0 {
        0
    } else {
        digits_value(s.drop_last()) * 10 + (s.last() - 48)
    }
}

/// The digits of a decimal integer, after its optional sign.
pub open spec fn int_digits(s: Seq<u8>) -> Seq<u8> {
    if s.len() > 0 && (s[0] == 43 || s[0] == 45) {
        s.subrange(1, s.len() as int)
    } else {
        s
    }
}

/// The sign a decimal integer carries.
pub open spec fn int_sign(s: Seq<u8>) -> int {
    if s.len() > 0 && s[0] == 45 {
        -1
    } else {
        1
    }
}

/// `s` is a decimal integer that denotes `v`, and `v` fits in an `i32`.
pub open spec fn parses_as_i32(s: Seq<u8>, v: int) -> bool {
    &&& int_digits(s).len() > 0
    &&& all_digits(int_digits(s))
    &&& v == int_sign(s) * digits_value(int_digits(s))
    &&& i32::MIN <= v <= i32::MAX
}

proof fn lemma_digits_value_nonneg(s: Seq<u8>)
    requires
        all_digits(s),
    ensures
        0 <= digits_value(s),
    decreases s.len(),
{
    if s.len() > 0 {
        assert(all_digits(s.drop_last()));
        lemma_digits_value_nonneg(s.drop_last());
    }
}

/// A prefix of a digit string never denotes more than the whole.
proof fn lemma_digits_value_prefix(s: Seq<u8>, k: int)
    requires
        all_digits(s),
        0 <= k <= s.len(),
    ensures
        digits_value(s.subrange(0, k)) <= digits_value(s),
    decreases s.len() - k,
{
    if k < s.len() {
        lemma_digits_value_prefix(s, k + 1);
        let a = s.subrange(0, k);
        let b = s.subrange(0, k + 1);
        assert(b.drop_last() =~= a);
        assert(all_digits(a));
        lemma_digits_value_nonneg(a);
    } else {
        assert(s.subrange(0, k) =~= s);
    }
}

/// Parse a decimal `i32`: an optional sign, then only digits, denoting a
/// value in range; anything else is rejected.
pub fn parse_i32(s: &[u8]) -> (r: Option<i32>)
    ensures
        r matches Some(v) ==> parses_as_i32(s@, v as int),
        r is None ==> !(exists|v: int| parses_as_i32(s@, v)),
{
    let len = s.len();
    if len == 0 {
        return None;
    }
    let negative = s[0] == 45;
    let start: usize = if s[0] == 45 || s[0] == 43 {
        1
    } else {
        0
    };
    if start == len {
        return None;
    }
    let ghost ds = int_digits(s@);
    let mut acc: i64 = 0;
    let mut i: usize = start;
    while i < len
        invariant
            len == s@.len(),
            start <= i <= len,
            start == (if s@[0] == 45 || s@[0] == 43 { 1int } else { 0int }),
            ds == int_digits(s@),
            ds =~= s@.subrange(start as int, len as int),
            all_digits(ds.subrange(0, i - start)),
            acc == digits_value(ds.subrange(0, i - start)),
            0 <= acc <= 0x8000_0000,
        decreases len - i,
    {
        let b = s[i];
        if b < 48 || b > 57 {
            proof {
                assert(ds[i - start] == s@[i as int]);
                assert(!all_digits(ds));
            }
            return None;
        }
        proof {
            let k = i - start;
            assert(ds.subrange(0, k + 1).drop_last() =~= ds.subrange(0, k));
            assert(ds.subrange(0, k + 1).last() == s@[i as int]);
            assert(all_digits(ds.subrange(0, k + 1)));
        }
        acc = acc * 10 + ((b - 48) as i64);
        i = i + 1;
        if acc > 0x8000_0000 {
            proof {
                let k = i - start;
                if all_digits(ds) {
                    lemma_digits_value_prefix(ds, k as int);
                    lemma_digits_value_nonneg(ds);
                }
            }
            return None;
        }
    }
    proof {
        assert(ds.subrange(0, len - start) =~= ds);
    }
    if negative {
        proof {
            assert(int_sign(s@) == -1);
        }
        if acc > 0x8000_0000 {
            return None;
        }
        Some((-acc) as i32)
    } else {
        if acc > 0x7FFF_FFFF {
            proof {
                assert(int_sign(s@) == 1);
            }
            return None;
        }
        Some(acc as i32)
    }
}

} // verus!
