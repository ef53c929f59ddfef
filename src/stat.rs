//! Reading a process's start-time token out of its kernel status record
//! (`/proc/<pid>/stat`).

use vstd::prelude::*;

use crate::text::{is_whitespace, is_whitespace_char};

verus! {

/// Position of the start time among the fields that follow the command name
/// (the record's 22nd field, counting the process id as the first).
pub const START_TIME_FIELD: usize = 19;

/// Why a status record yielded no start time.
#[derive(Debug, Clone, Copy, PartialEq, Eq, Structural)]
pub enum StatError {
    /// The record holds no `)` closing the command name.
    Malformed,
    /// Nothing follows the command name and its one-byte separator (or
    /// the separator is not one byte).
    MissingFields,
    /// Fewer fields than the start time's position follow the command name.
    MissingStartTime,
    /// The start-time field is not an unsigned 64-bit decimal number.
    InvalidStartTime,
}

/// Index of the last `)` in `s`.
pub open spec fn last_close_paren(s: Seq<char>) -> Option<int>
    decreases s.len(),
{
    if s.len() == 0 {
        None
    } else if s.last() == ')' {
        Some(s.len() - 1)
    } else {
        last_close_paren(s.drop_last())
    }
}

/// The maximal runs of non-whitespace characters of `s`, in order, where `cur`
/// is a run already begun before `s`.
pub open spec fn fields_from(s: Seq<char>, cur: Seq<char>) -> Seq<Seq<char>>
    decreases s.len(),
{
    if s.len() == 0 {
        if cur.len() == 0 {
            seq![]
        } else {
            seq![cur]
        }
    } else if is_whitespace(s[0]) {
        if cur.len() == 0 {
            fields_from(s.drop_first(), seq![])
        } else {
            seq![cur] + fields_from(s.drop_first(), seq![])
        }
    } else {
        fields_from(s.drop_first(), cur.push(s[0]))
    }
}

/// The whitespace-separated fields of `s`.
pub open spec fn fields(s: Seq<char>) -> Seq<Seq<char>> {
    fields_from(s, seq![])
}

pub open spec fn is_digit(c: char) -> bool {
    '0' <= c && c <= '9'
}

pub open spec fn all_digits(d: Seq<char>) -> bool {
    forall|i: int| 0 <= i < d.len() ==> is_digit(#[trigger] d[i])
}

/// The number that the decimal digits `d` spell.
pub open spec fn digits_value(d: Seq<char>) -> int
    decreases d.len(),
{
    if d.len() == 0 {
        0
    } else {
        digits_value(d.drop_last()) * 10 + ((d.last() as u32) as int - ('0' as u32) as int)
    }
}

/// What parsing `t` as a `u64` gives: an optional `+`, then one or more
/// decimal digits whose value fits in 64 bits.
pub open spec fn parse_u64(t: Seq<char>) -> Option<u64> {
    let d = if t.len() > 0 && t[0] == '+' {
        t.drop_first()
    } else {
        t
    };
    if d.len() > 0 && all_digits(d) && digits_value(d) <= u64::MAX {
        Some(digits_value(d) as u64)
    } else {
        None
    }
}

/// The start-time token of a status record. The command name is enclosed in
/// parentheses and may itself hold spaces and parentheses, so the fields are
/// counted from the character after the last `)` and its separator. The
/// separator is skipped as one byte of the record's UTF-8 text: when it is
/// not a one-byte (ASCII) character, the fields do not start on a character
/// boundary and the record counts as having none.
pub open spec fn start_time_of_record(stat: Seq<char>) -> Result<u64, StatError> {
    match last_close_paren(stat) {
        None => Err(StatError::Malformed),
        Some(p) => if p + 2 > stat.len() || (stat[p + 1] as u32) >= 0x80 {
            Err(StatError::MissingFields)
        } else {
            let f = fields(stat.skip(p + 2));
            if f.len() <= START_TIME_FIELD {
                Err(StatError::MissingStartTime)
            } else {
                match parse_u64(f[START_TIME_FIELD as int]) {
                    Some(v) => Ok(v),
                    None => Err(StatError::InvalidStartTime),
                }
            }
        },
    }
}

fn rfind_close_paren(s: &str) -> (r: Option<usize>)
    ensures
        match r {
            Some(p) => last_close_paren(s@) == Some(p as int),
            None => last_close_paren(s@) is None,
        },
{
    let mut i = s.unicode_len();
    assert(s@.take(i as int) =~= s@);
    while i > 0
        invariant
            i <= s@.len(),
            last_close_paren(s@) == last_close_paren(s@.take(i as int)),
        decreases i,
    {
        assert(s@.take(i as int).drop_last() =~= s@.take(i - 1));
        if s.get_char(i - 1) == ')' {
            return Some(i - 1);
        }
        i = i - 1;
    }
    None
}

proof fn lemma_digits_value_nonneg(d: Seq<char>)
    requires
        all_digits(d),
    ensures
        digits_value(d) >= 0,
    decreases d.len(),
{
    if d.len() > 0 {
        assert(is_digit(d[d.len() - 1]));
        lemma_digits_value_nonneg(d.drop_last());
    }
}

proof fn lemma_digits_prefix_le(d: Seq<char>, k: int)
    requires
        all_digits(d),
        0 <= k <= d.len(),
    ensures
        digits_value(d.take(k)) <= digits_value(d),
    decreases d.len(),
{
    if k == d.len() {
        assert(d.take(k) =~= d);
    } else {
        assert(is_digit(d[d.len() - 1]));
        assert(d.drop_last().take(k) =~= d.take(k));
        lemma_digits_prefix_le(d.drop_last(), k);
        lemma_digits_value_nonneg(d.drop_last());
    }
}

/// Parses `t` as an unsigned 64-bit decimal number.
pub fn parse_u64_chars(t: &Vec<char>) -> (r: Option<u64>)
    ensures
        r == parse_u64(t@),
{
    let n = t.len();
    let start: usize = if n > 0 && t[0] == '+' {
        1
    } else {
        0
    };
    let ghost d = if t@.len() > 0 && t@[0] == '+' {
        t@.drop_first()
    } else {
        t@
    };
    assert(d =~= t@.subrange(start as int, n as int));
    if start == n {
        return None;
    }
    let mut value: u64 = 0;
    let mut j = start;
    assert(t@.subrange(start as int, j as int) =~= seq![]);
    while j < n
        invariant
            start <= j <= n,
            n == t@.len(),
            d =~= t@.subrange(start as int, n as int),
            d == (if t@.len() > 0 && t@[0] == '+' {
                t@.drop_first()
            } else {
                t@
            }),
            all_digits(t@.subrange(start as int, j as int)),
            value as int == digits_value(t@.subrange(start as int, j as int)),
        decreases n - j,
    {
        let c = t[j];
        let ghost prefix = t@.subrange(start as int, j + 1);
        assert(prefix.drop_last() =~= t@.subrange(start as int, j as int));
        assert(prefix =~= d.take(j + 1 - start));
        assert(d[j - start] == c);
        assert(prefix.last() == c);
        if !('0' <= c && c <= '9') {
            assert(!all_digits(d));
            return None;
        }
        assert(all_digits(prefix)) by {
            assert forall|i: int| 0 <= i < prefix.len() implies is_digit(#[trigger] prefix[i]) by {
                if i < prefix.len() - 1 {
                    assert(prefix[i] == t@.subrange(start as int, j as int)[i]);
                }
            }
        }
        let digit = (c as u32 - '0' as u32) as u64;
        match value.checked_mul(10) {
            Some(m) => match m.checked_add(digit) {
                Some(v) => {
                    value = v;
                },
                None => {
                    proof {
                        assert(digits_value(prefix) > u64::MAX);
                        if all_digits(d) {
                            lemma_digits_prefix_le(d, j + 1 - start);
                        }
                    }
                    return None;
                },
            },
            None => {
                proof {
                    lemma_digits_value_nonneg(t@.subrange(start as int, j as int));
                    if all_digits(d) {
                        lemma_digits_prefix_le(d, j + 1 - start);
                    }
                }
                return None;
            },
        }
        j = j + 1;
    }
    Some(value)
}

/// Extracts the start-time token from the text of a process status record.
pub fn parse_start_time_ticks_from_stat(stat_line: &str) -> (r: Result<u64, StatError>)
    ensures
        r == start_time_of_record(stat_line@),
{
    let s = stat_line;
    let n = s.unicode_len();
    let p = match rfind_close_paren(s) {
        Some(p) => p,
        None => return Err(StatError::Malformed),
    };
    if p >= n || n - p < 2 || (s.get_char(p + 1) as u32) >= 0x80 {
        return Err(StatError::MissingFields);
    }
    let rest_start = p + 2;
    let ghost rest = s@.skip(rest_start as int);
    let mut i = rest_start;
    let mut cur: Vec<char> = Vec::new();
    let mut target: Vec<char> = Vec::new();
    let mut count: usize = 0;
    let ghost mut done: Seq<Seq<char>> = seq![];
    assert(s@.skip(i as int) =~= rest);
    while i < n
        invariant
            rest_start <= i <= n,
            n == s@.len(),
            rest == s@.skip(rest_start as int),
            fields(rest) == done + fields_from(s@.skip(i as int), cur@),
            count == done.len(),
            count + cur@.len() <= i,
            count > START_TIME_FIELD ==> target@ == done[START_TIME_FIELD as int],
        decreases n - i,
    {
        let c = s.get_char(i);
        let ghost t = s@.skip(i as int);
        assert(t[0] == c);
        assert(t.drop_first() =~= s@.skip(i + 1));
        if is_whitespace_char(c) {
            if cur.len() == 0 {
                assert(cur@ =~= seq![]);
                assert(fields_from(t, cur@) == fields_from(t.drop_first(), seq![]));
            }
            if cur.len() > 0 {
                assert(fields_from(t, cur@) == seq![cur@] + fields_from(t.drop_first(), seq![]));
                proof {
                    assert(done + (seq![cur@] + fields_from(t.drop_first(), seq![])) =~= done.push(
                        cur@,
                    ) + fields_from(t.drop_first(), seq![]));
                    done = done.push(cur@);
                }
                if count == START_TIME_FIELD {
                    target = cur;
                }
                count = count + 1;
                cur = Vec::new();
                assert(cur@ =~= seq![]);
            }
        } else {
            assert(fields_from(t, cur@) == fields_from(t.drop_first(), cur@.push(c)));
            cur.push(c);
        }
        i = i + 1;
    }
    assert(s@.skip(i as int) =~= seq![]);
    if cur.len() > 0 {
        proof {
            assert(done + seq![cur@] =~= done.push(cur@));
            done = done.push(cur@);
        }
        if count == START_TIME_FIELD {
            target = cur;
        }
        count = count + 1;
    } else {
        assert(done + seq![] =~= done);
    }
    if count <= START_TIME_FIELD {
        return Err(StatError::MissingStartTime);
    }
    match parse_u64_chars(&target) {
        Some(v) => Ok(v),
        None => Err(StatError::InvalidStartTime),
    }
}

proof fn lemma_last_close_paren_before_suffix(a: Seq<char>, b: Seq<char>)
    requires
        a.len() > 0,
        a.last() == ')',
        !b.contains(')'),
    ensures
        last_close_paren(a + b) == Some(a.len() - 1),
    decreases b.len(),
{
    if b.len() == 0 {
        assert(a + b =~= a);
    } else {
        assert((a + b).drop_last() =~= a + b.drop_last());
        assert((a + b).last() == b[b.len() - 1]);
        assert(!b.drop_last().contains(')')) by {
            if b.drop_last().contains(')') {
                let i = choose|i: int| 0 <= i < b.drop_last().len() && b.drop_last()[i] == ')';
                assert(b[i] == ')');
            }
        }
        lemma_last_close_paren_before_suffix(a, b.drop_last());
    }
}

/// Whatever the command name holds, parentheses and spaces included, the
/// start time is read from the fields that follow its closing parenthesis:
/// for a record `<pid> (<name>) <fields>` whose fields hold no `)`, the
/// result is that of the fields alone.
pub proof fn lemma_command_name_cannot_shift_fields(
    pid: Seq<char>,
    name: Seq<char>,
    fields_text: Seq<char>,
)
    requires
        !fields_text.contains(')'),
    ensures
        start_time_of_record(pid + seq![' ', '('] + name + seq![')', ' '] + fields_text) == {
            let f = fields(fields_text);
            if f.len() <= START_TIME_FIELD {
                Err::<u64, StatError>(StatError::MissingStartTime)
            } else {
                match parse_u64(f[START_TIME_FIELD as int]) {
                    Some(v) => Ok(v),
                    None => Err(StatError::InvalidStartTime),
                }
            }
        },
{
    let head = pid + seq![' ', '('] + name + seq![')'];
    let record = pid + seq![' ', '('] + name + seq![')', ' '] + fields_text;
    let tail = seq![' '] + fields_text;
    assert(record =~= head + tail);
    assert(!tail.contains(')')) by {
        if tail.contains(')') {
            let i = choose|i: int| 0 <= i < tail.len() && tail[i] == ')';
            assert(i > 0);
            assert(fields_text[i - 1] == ')');
        }
    }
    lemma_last_close_paren_before_suffix(head, tail);
    assert(record.skip(head.len() as int + 1) =~= fields_text);
}

} // verus!
