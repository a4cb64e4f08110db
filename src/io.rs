//! Cumulative I/O counters of a process, read from the lines of `/proc/<pid>/io`.
//!
//! Each line holds a field name and a value separated by whitespace (any
//! character of Unicode's `White_Space`, as `char::is_whitespace` has it). The lines
//! named `syscr:`, `syscw:`, `read_bytes:` and `write_bytes:` set one counter
//! each, a later line overriding an earlier one; other lines, and lines with
//! fewer than two words, are skipped. A value of a named line that is not a
//! decimal `u64` (an optional `+`, then digits) stops the reading with an error.

use vstd::prelude::*;

verus! {

/// Cumulative I/O counters of a process.
#[derive(Clone, Copy, Debug, PartialEq, Eq, Structural)]
pub struct IOStats {
    /// Read operations performed (Linux and Windows).
    pub read_count: u64,
    /// Write operations performed (Linux and Windows).
    pub write_count: u64,
    /// Bytes read.
    pub read_bytes: u64,
    /// Bytes written.
    pub write_bytes: u64,
}

pub open spec fn zero_stats() -> IOStats {
    IOStats { read_count: 0, write_count: 0, read_bytes: 0, write_bytes: 0 }
}

impl Default for IOStats {
    fn default() -> (r: IOStats)
        ensures
            r == zero_stats(),
    {
        IOStats { read_count: 0, write_count: 0, read_bytes: 0, write_bytes: 0 }
    }
}

/// A value of a counter that is not a number: the code of an `IOStatsError` for
/// it. An operating-system failure is given the `std::io::ErrorKind` as its code,
/// which is never negative, so the two cannot be confused.
pub const PARSE_ERROR_CODE: i32 = -1;

/// An error while reading I/O counters: `PARSE_ERROR_CODE` for a value that is
/// not a number, or an operating-system error kind, with a message.
#[derive(Clone, Debug)]
pub struct IOStatsError {
    pub code: i32,
    pub msg: String,
}

/// Why a word could not be read as a `u64`.
#[derive(Clone, Copy, Debug, PartialEq, Eq, Structural)]
pub enum NumberError {
    /// The word holds something other than an optional `+` and one or more digits.
    InvalidDigit,
    /// The digits name a number larger than `u64::MAX`.
    TooLarge,
}

/// The counter that a line sets.
#[derive(Clone, Copy, Debug, PartialEq, Eq, Structural)]
pub enum IoField {
    ReadCount,
    WriteCount,
    ReadBytes,
    WriteBytes,
}

/// Unicode's `White_Space` characters.
pub open spec fn is_space(c: char) -> bool {
    ('\u{9}' <= c && c <= '\u{d}') || c == ' ' || c == '\u{85}' || c == '\u{a0}' || c
        == '\u{1680}' || ('\u{2000}' <= c && c <= '\u{200a}') || c == '\u{2028}' || c
        == '\u{2029}' || c == '\u{202f}' || c == '\u{205f}' || c == '\u{3000}'
}

pub open spec fn is_digit(c: char) -> bool {
    '0' <= c && c <= '9'
}

/// The first index from `i` on that holds no whitespace, or the length.
pub open spec fn skip_spaces(s: Seq<char>, i: int) -> int
    decreases s.len() - i,
{
    if i >= s.len() || !is_space(s[i]) {
        i
    } else {
        skip_spaces(s, i + 1)
    }
}

/// The first index from `i` on that holds whitespace, or the length.
pub open spec fn token_end(s: Seq<char>, i: int) -> int
    decreases s.len() - i,
{
    if i >= s.len() || is_space(s[i]) {
        i
    } else {
        token_end(s, i + 1)
    }
}

pub open spec fn name_start(line: Seq<char>) -> int {
    skip_spaces(line, 0)
}

pub open spec fn name_end(line: Seq<char>) -> int {
    token_end(line, name_start(line))
}

pub open spec fn value_start(line: Seq<char>) -> int {
    skip_spaces(line, name_end(line))
}

pub open spec fn value_end(line: Seq<char>) -> int {
    token_end(line, value_start(line))
}

pub open spec fn field_name(f: IoField) -> Seq<char> {
    match f {
        IoField::ReadCount => seq!['s', 'y', 's', 'c', 'r', ':'],
        IoField::WriteCount => seq!['s', 'y', 's', 'c', 'w', ':'],
        IoField::ReadBytes => seq!['r', 'e', 'a', 'd', '_', 'b', 'y', 't', 'e', 's', ':'],
        IoField::WriteBytes => seq!['w', 'r', 'i', 't', 'e', '_', 'b', 'y', 't', 'e', 's', ':'],
    }
}

/// The counter that a field name denotes: `syscr:`, `syscw:`, `read_bytes:` or
/// `write_bytes:`.
pub open spec fn field_of(name: Seq<char>) -> Option<IoField> {
    if name == field_name(IoField::ReadCount) {
        Some(IoField::ReadCount)
    } else if name == field_name(IoField::WriteCount) {
        Some(IoField::WriteCount)
    } else if name == field_name(IoField::ReadBytes) {
        Some(IoField::ReadBytes)
    } else if name == field_name(IoField::WriteBytes) {
        Some(IoField::WriteBytes)
    } else {
        None
    }
}

/// The number that a sequence of decimal digits denotes.
pub open spec fn digits_value(d: Seq<char>) -> int
    decreases d.len(),
{
    if d.len() == 0 {
        0
    } else {
        digits_value(d.drop_last()) * 10 + (d.last() as u32 - '0' as u32)
    }
}

pub open spec fn all_digits(d: Seq<char>) -> bool {
    forall|i: int| 0 <= i < d.len() ==> is_digit(#[trigger] d[i])
}

/// A word without its leading `+`, if it has one.
pub open spec fn unsigned_part(t: Seq<char>) -> Seq<char> {
    if t.len() > 0 && t[0] == '+' {
        t.subrange(1, t.len() as int)
    } else {
        t
    }
}

/// A word read as a decimal `u64`.
pub open spec fn parse_u64(t: Seq<char>) -> Result<u64, NumberError> {
    let d = unsigned_part(t);
    if d.len() == 0 || !all_digits(d) {
        Err(NumberError::InvalidDigit)
    } else if digits_value(d) > u64::MAX {
        Err(NumberError::TooLarge)
    } else {
        Ok(digits_value(d) as u64)
    }
}

pub open spec fn with_field(stats: IOStats, f: IoField, v: u64) -> IOStats {
    match f {
        IoField::ReadCount => IOStats { read_count: v, ..stats },
        IoField::WriteCount => IOStats { write_count: v, ..stats },
        IoField::ReadBytes => IOStats { read_bytes: v, ..stats },
        IoField::WriteBytes => IOStats { write_bytes: v, ..stats },
    }
}

/// The counters after one line.
pub open spec fn apply_line(stats: IOStats, line: Seq<char>) -> Result<IOStats, NumberError> {
    if value_start(line) >= line.len() {
        Ok(stats)
    } else {
        match field_of(line.subrange(name_start(line), name_end(line))) {
            None => Ok(stats),
            Some(f) => match parse_u64(line.subrange(value_start(line), value_end(line))) {
                Ok(v) => Ok(with_field(stats, f, v)),
                Err(e) => Err(e),
            },
        }
    }
}

/// The counters after all lines, from zero, or the error of the first line that
/// fails.
pub open spec fn apply_lines(lines: Seq<Seq<char>>) -> Result<IOStats, NumberError>
    decreases lines.len(),
{
    if lines.len() == 0 {
        Ok(zero_stats())
    } else {
        match apply_lines(lines.drop_last()) {
            Ok(stats) => apply_line(stats, lines.last()),
            Err(e) => Err(e),
        }
    }
}

pub open spec fn number_error_message(e: NumberError) -> Seq<char> {
    match e {
        NumberError::InvalidDigit => "invalid digit found in string"@,
        NumberError::TooLarge => "number too large to fit in target type"@,
    }
}

pub open spec fn lines_view(lines: Seq<Vec<char>>) -> Seq<Seq<char>> {
    lines.map_values(|l: Vec<char>| l@)
}

impl NumberError {
    /// A description of the error.
    pub fn message(&self) -> (r: String)
        ensures
            r@ == number_error_message(*self),
    {
        match self {
            NumberError::InvalidDigit => "invalid digit found in string".to_owned(),
            NumberError::TooLarge => "number too large to fit in target type".to_owned(),
        }
    }
}

fn is_space_char(c: char) -> (r: bool)
    ensures
        r == is_space(c),
{
    ('\u{9}' <= c && c <= '\u{d}') || c == ' ' || c == '\u{85}' || c == '\u{a0}' || c
        == '\u{1680}' || ('\u{2000}' <= c && c <= '\u{200a}') || c == '\u{2028}' || c
        == '\u{2029}' || c == '\u{202f}' || c == '\u{205f}' || c == '\u{3000}'
}

fn skip_spaces_from(s: &[char], i: usize) -> (r: usize)
    requires
        i <= s@.len(),
    ensures
        r == skip_spaces(s@, i as int),
        i <= r <= s@.len(),
{
    let mut j = i;
    while j < s.len() && is_space_char(s[j])
        invariant
            i <= j <= s@.len(),
            skip_spaces(s@, j as int) == skip_spaces(s@, i as int),
        decreases s@.len() - j,
    {
        j = j + 1;
    }
    j
}

fn token_end_from(s: &[char], i: usize) -> (r: usize)
    requires
        i <= s@.len(),
    ensures
        r == token_end(s@, i as int),
        i <= r <= s@.len(),
{
    let mut j = i;
    while j < s.len() && !is_space_char(s[j])
        invariant
            i <= j <= s@.len(),
            token_end(s@, j as int) == token_end(s@, i as int),
        decreases s@.len() - j,
    {
        j = j + 1;
    }
    j
}

fn field_name_bytes(f: IoField) -> (r: Vec<char>)
    ensures
        r@ == field_name(f),
{
    let r = match f {
        IoField::ReadCount => vec!['s', 'y', 's', 'c', 'r', ':'],
        IoField::WriteCount => vec!['s', 'y', 's', 'c', 'w', ':'],
        IoField::ReadBytes => vec!['r', 'e', 'a', 'd', '_', 'b', 'y', 't', 'e', 's', ':'],
        IoField::WriteBytes => vec!['w', 'r', 'i', 't', 'e', '_', 'b', 'y', 't', 'e', 's', ':'],
    };
    proof {
        assert(r@ =~= field_name(f));
    }
    r
}

/// Whether `s[a..b]` is the name of field `f`.
fn names_field(s: &[char], a: usize, b: usize, f: IoField) -> (r: bool)
    requires
        a <= b <= s@.len(),
    ensures
        r == (s@.subrange(a as int, b as int) == field_name(f)),
{
    let name = field_name_bytes(f);
    if b - a != name.len() {
        proof {
            assert(s@.subrange(a as int, b as int).len() != field_name(f).len());
        }
        return false;
    }
    let mut k: usize = 0;
    while k < name.len()
        invariant
            b - a == name@.len(),
            a <= b <= s@.len(),
            name@ == field_name(f),
            0 <= k <= name@.len(),
            forall|j: int| 0 <= j < k ==> s@[a + j] == name@[j],
        decreases name@.len() - k,
    {
        if s[a + k] != name[k] {
            proof {
                assert(s@.subrange(a as int, b as int)[k as int] != field_name(f)[k as int]);
            }
            return false;
        }
        k = k + 1;
    }
    proof {
        assert(s@.subrange(a as int, b as int) =~= field_name(f));
    }
    true
}

/// The counter that `s[a..b]` names, if any.
fn field_at(s: &[char], a: usize, b: usize) -> (r: Option<IoField>)
    requires
        a <= b <= s@.len(),
    ensures
        r == field_of(s@.subrange(a as int, b as int)),
{
    if names_field(s, a, b, IoField::ReadCount) {
        Some(IoField::ReadCount)
    } else if names_field(s, a, b, IoField::WriteCount) {
        Some(IoField::WriteCount)
    } else if names_field(s, a, b, IoField::ReadBytes) {
        Some(IoField::ReadBytes)
    } else if names_field(s, a, b, IoField::WriteBytes) {
        Some(IoField::WriteBytes)
    } else {
        None
    }
}

proof fn lemma_digits_value_grows(d: Seq<char>, i: int, j: int)
    requires
        0 <= i <= j <= d.len(),
        all_digits(d),
    ensures
        digits_value(d.subrange(0, i)) <= digits_value(d.subrange(0, j)),
        digits_value(d.subrange(0, j)) >= 0,
    decreases j,
{
    if j > 0 {
        let p = d.subrange(0, j);
        assert(p.drop_last() =~= d.subrange(0, j - 1));
        assert(is_digit(d[j - 1]));
        if i < j {
            lemma_digits_value_grows(d, i, j - 1);
        } else {
            lemma_digits_value_grows(d, j - 1, j - 1);
        }
    }
}

/// `s[a..b]` read as a decimal `u64`.
fn parse_number(s: &[char], a: usize, b: usize) -> (r: Result<u64, NumberError>)
    requires
        a <= b <= s@.len(),
    ensures
        r == parse_u64(s@.subrange(a as int, b as int)),
{
    let ghost t = s@.subrange(a as int, b as int);
    let start: usize = if a < b && s[a] == '+' {
        a + 1
    } else {
        a
    };
    let ghost d = s@.subrange(start as int, b as int);
    proof {
        assert(unsigned_part(t) =~= d);
    }
    if start == b {
        return Err(NumberError::InvalidDigit);
    }
    let mut i = start;
    while i < b
        invariant
            a <= start <= i <= b <= s@.len(),
            t == s@.subrange(a as int, b as int),
            d == s@.subrange(start as int, b as int),
            unsigned_part(t) == d,
            d.len() > 0,
            forall|k: int| start <= k < i ==> is_digit(#[trigger] s@[k]),
        decreases b - i,
    {
        if !('0' <= s[i] && s[i] <= '9') {
            proof {
                assert(!is_digit(d[i - start]));
            }
            return Err(NumberError::InvalidDigit);
        }
        i = i + 1;
    }
    proof {
        assert forall|k: int| 0 <= k < d.len() implies is_digit(#[trigger] d[k]) by {
            assert(is_digit(s@[start + k]));
        }
    }
    let mut acc: u64 = 0;
    let mut i = start;
    while i < b
        invariant
            a <= start <= i <= b <= s@.len(),
            t == s@.subrange(a as int, b as int),
            d == s@.subrange(start as int, b as int),
            unsigned_part(t) == d,
            d.len() > 0,
            all_digits(d),
            acc == digits_value(d.subrange(0, i - start)),
        decreases b - i,
    {
        proof {
            assert(is_digit(d[i - start]));
        }
        let digit = (s[i] as u32 - '0' as u32) as u64;
        proof {
            let p = d.subrange(0, i - start + 1);
            assert(p.drop_last() =~= d.subrange(0, i - start));
            assert(p.last() == s@[i as int]);
            assert(is_digit(d[i - start]));
            assert(digits_value(p) == acc * 10 + digit);
            lemma_digits_value_grows(d, (i - start + 1) as int, d.len() as int);
            assert(d.subrange(0, d.len() as int) =~= d);
        }
        match acc.checked_mul(10) {
            None => {
                return Err(NumberError::TooLarge);
            },
            Some(m) => match m.checked_add(digit) {
                None => {
                    return Err(NumberError::TooLarge);
                },
                Some(v) => {
                    acc = v;
                },
            },
        }
        i = i + 1;
    }
    proof {
        assert(d.subrange(0, d.len() as int) =~= d);
    }
    Ok(acc)
}

/// Applies one line to the counters.
pub fn apply_io_line(stats: &mut IOStats, line: &[char]) -> (r: Result<(), NumberError>)
    ensures
        match apply_line(*old(stats), line@) {
            Ok(next) => r is Ok && *final(stats) == next,
            Err(e) => r == Err::<(), NumberError>(e) && *final(stats) == *old(stats),
        },
{
    let a = skip_spaces_from(line, 0);
    let b = token_end_from(line, a);
    let c = skip_spaces_from(line, b);
    let d = token_end_from(line, c);
    if c >= line.len() {
        return Ok(());
    }
    match field_at(line, a, b) {
        None => Ok(()),
        Some(f) => match parse_number(line, c, d) {
            Ok(v) => {
                match f {
                    IoField::ReadCount => stats.read_count = v,
                    IoField::WriteCount => stats.write_count = v,
                    IoField::ReadBytes => stats.read_bytes = v,
                    IoField::WriteBytes => stats.write_bytes = v,
                }
                Ok(())
            },
            Err(e) => Err(e),
        },
    }
}

proof fn lemma_error_persists(lines: Seq<Seq<char>>, k: int, e: NumberError)
    requires
        0 <= k <= lines.len(),
        apply_lines(lines.take(k)) == Err::<IOStats, NumberError>(e),
    ensures
        apply_lines(lines) == Err::<IOStats, NumberError>(e),
    decreases lines.len() - k,
{
    if k < lines.len() {
        assert(lines.take(k + 1).drop_last() =~= lines.take(k));
        lemma_error_persists(lines, k + 1, e);
    } else {
        assert(lines.take(k) =~= lines);
    }
}

/// The I/O counters of a process from the lines of its `/proc/<pid>/io`, or the
/// error of the first line whose value is not a number (code `PARSE_ERROR_CODE`).
pub fn get_process_io_stats(lines: &Vec<Vec<char>>) -> (r: Result<IOStats, IOStatsError>)
    ensures
        match apply_lines(lines_view(lines@)) {
            Ok(stats) => r is Ok && r->Ok_0 == stats,
            Err(e) => {
                &&& r is Err
                &&& r->Err_0.code == PARSE_ERROR_CODE
                &&& r->Err_0.msg@ == number_error_message(e)
            },
        },
{
    let ghost all = lines_view(lines@);
    let mut stats = IOStats::default();
    let mut i: usize = 0;
    proof {
        assert(all.take(0) =~= Seq::<Seq<char>>::empty());
    }
    while i < lines.len()
        invariant
            0 <= i <= lines@.len(),
            all == lines_view(lines@),
            apply_lines(all.take(i as int)) == Ok::<IOStats, NumberError>(stats),
        decreases lines@.len() - i,
    {
        proof {
            assert(all.take(i + 1).drop_last() =~= all.take(i as int));
            assert(all.take(i + 1).last() == lines@[i as int]@);
        }
        match apply_io_line(&mut stats, lines[i].as_slice()) {
            Ok(()) => {},
            Err(e) => {
                proof {
                    lemma_error_persists(all, i + 1, e);
                }
                return Err(IOStatsError { code: PARSE_ERROR_CODE, msg: e.message() });
            },
        }
        i = i + 1;
    }
    proof {
        assert(all.take(i as int) =~= all);
    }
    Ok(stats)
}

} // verus!
