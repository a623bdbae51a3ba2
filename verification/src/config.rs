//! Mode selection and the small parsers around it: which of the four modes
//! the command-line options pick, which monitor indices a draw applies to,
//! and which file extensions count as images for cycle mode.

use vstd::prelude::*;
use vstd::string::StrSliceExecFns;

use crate::pixel::Color;

verus! {

/// The options the command line hands the library, as plain values.
pub struct Args {
    pub plain: Option<String>,
    pub image: Option<String>,
    pub generated: Option<String>,
    pub cycle: Option<String>,
    pub monitors: Option<String>,
    pub interval: Option<u64>,
}

/// What to draw: a constant color, one image, a generated image, or a
/// directory of images cycled at an interval in seconds.
#[derive(Debug)]
pub enum Mode {
    Plain,
    Image(String),
    Generated(String),
    Cycle(String, u64),
}

/// The cycle interval used when none is given: one hour.
pub const DEFAULT_CYCLE_INTERVAL_SECS: u64 = 60 * 60;

/// Picks the mode the options select, trying plain, image, cycle and
/// generated in that order; with no option set there is no mode.
pub fn determine_mode(args: &Args) -> (r: Result<Mode, String>)
    ensures
        match r {
            Ok(m) => match m {
                Mode::Plain => args.plain is Some,
                Mode::Image(p) => args.plain is None && (args.image matches Some(q) && p@ == q@),
                Mode::Cycle(p, interval) => {
                    &&& args.plain is None
                    &&& args.image is None
                    &&& (args.cycle matches Some(q) && p@ == q@)
                    &&& interval == (match args.interval {
                        Some(i) => i,
                        None => DEFAULT_CYCLE_INTERVAL_SECS,
                    })
                },
                Mode::Generated(p) => {
                    &&& args.plain is None
                    &&& args.image is None
                    &&& args.cycle is None
                    &&& (args.generated matches Some(q) && p@ == q@)
                },
            },
            Err(e) => {
                &&& args.plain is None
                &&& args.image is None
                &&& args.cycle is None
                &&& args.generated is None
                &&& e@ == "no mode found"@
            },
        },
{
    if args.plain.is_some() {
        return Ok(Mode::Plain);
    }
    if let Some(p) = &args.image {
        return Ok(Mode::Image(p.clone()));
    }
    if let Some(p) = &args.cycle {
        let interval: u64 = match args.interval {
            Some(i) => i,
            None => DEFAULT_CYCLE_INTERVAL_SECS,
        };
        return Ok(Mode::Cycle(p.clone(), interval));
    }
    if let Some(p) = &args.generated {
        return Ok(Mode::Generated(p.clone()));
    }
    Err("no mode found".to_owned())
}

/// A decimal digit.
pub open spec fn is_digit(c: char) -> bool {
    48 <= c as u32 && c as u32 <= 57
}

/// The value of one decimal digit.
pub open spec fn digit_val(c: char) -> int {
    c as u32 - 48
}

/// A non-empty string of decimal digits.
pub open spec fn is_numeral(s: Seq<char>) -> bool {
    s.len() > 0 && forall|i: int| 0 <= i < s.len() ==> is_digit(s[i])
}

/// The value of a digit string, most significant digit first.
pub open spec fn numeral_val(s: Seq<char>) -> int
    decreases s.len(),
{
    if s.len() == 0 {
        0
    } else {
        10 * numeral_val(s.drop_last()) + digit_val(s.last())
    }
}

/// The comma-separated fields of a string: the empty string is one empty
/// field, a comma ends the current field and opens an empty one, and any
/// other character extends the current field.
pub open spec fn split_commas(s: Seq<char>) -> Seq<Seq<char>>
    decreases s.len(),
{
    if s.len() == 0 {
        seq![Seq::<char>::empty()]
    } else if s.last() == ',' {
        split_commas(s.drop_last()).push(Seq::<char>::empty())
    } else {
        let prev = split_commas(s.drop_last());
        prev.update(prev.len() - 1, prev.last().push(s.last()))
    }
}

/// The digits of a monitor field: one leading plus sign, if present, is
/// not part of the number, as std's unsigned parsing has it.
pub open spec fn field_digits(f: Seq<char>) -> Seq<char> {
    if f.len() > 0 && f[0] == '+' {
        f.subrange(1, f.len() as int)
    } else {
        f
    }
}

/// A field parses as a monitor index when, past an optional leading plus
/// sign, it is a numeral whose value fits the index type.
pub open spec fn field_ok(f: Seq<char>) -> bool {
    is_numeral(field_digits(f)) && numeral_val(field_digits(f)) <= usize::MAX as int
}

/// The views of a sequence of character vectors.
pub open spec fn views_of(fields: Seq<Vec<char>>) -> Seq<Seq<char>> {
    fields.map_values(|f: Vec<char>| f@)
}

/// Why a monitor list was rejected.
#[derive(Clone, Copy, Debug, PartialEq, Eq, Structural)]
pub enum MonitorsError {
    /// Some comma-separated field is not a number that fits an index.
    NotANumber,
}

proof fn lemma_numeral_nonneg(s: Seq<char>)
    requires
        forall|i: int| 0 <= i < s.len() ==> is_digit(s[i]),
    ensures
        numeral_val(s) >= 0,
    decreases s.len(),
{
    if s.len() > 0 {
        assert(forall|i: int| 0 <= i < s.drop_last().len() ==> is_digit(s.drop_last()[i]));
        lemma_numeral_nonneg(s.drop_last());
    }
}

/// A numeral's value never shrinks when more digits follow.
proof fn lemma_numeral_prefix_le(s: Seq<char>, m: int)
    requires
        0 <= m <= s.len(),
        forall|i: int| 0 <= i < s.len() ==> is_digit(s[i]),
    ensures
        numeral_val(s.subrange(0, m)) <= numeral_val(s),
    decreases s.len() - m,
{
    if m < s.len() {
        let t = s.subrange(0, m + 1);
        assert(t.drop_last() =~= s.subrange(0, m));
        assert(forall|i: int| 0 <= i < t.len() ==> is_digit(t[i]));
        lemma_numeral_nonneg(s.subrange(0, m));
        lemma_numeral_prefix_le(s, m + 1);
    } else {
        assert(s.subrange(0, m) =~= s);
    }
}

/// Parses a non-empty digit string; anything else, or a value past the
/// index type, is rejected.
fn parse_digits(f: &Vec<char>) -> (r: Option<usize>)
    ensures
        match r {
            Some(v) => is_numeral(f@) && numeral_val(f@) <= usize::MAX as int && v as int
                == numeral_val(f@),
            None => !(is_numeral(f@) && numeral_val(f@) <= usize::MAX as int),
        },
{
    let n = f.len();
    if n == 0 {
        return None;
    }
    let mut acc: usize = 0;
    let mut j: usize = 0;
    while j < n
        invariant
            j <= n,
            n == f@.len(),
            forall|k: int| 0 <= k < j ==> is_digit(f@[k]),
            acc as int == numeral_val(f@.subrange(0, j as int)),
        decreases n - j,
    {
        let u = f[j] as u32;
        if u < 48 || u > 57 {
            return None;
        }
        let d = (u - 48) as usize;
        proof {
            assert(f@.subrange(0, (j + 1) as int).drop_last() =~= f@.subrange(0, j as int));
        }
        let next = match acc.checked_mul(10) {
            Some(x) => x.checked_add(d),
            None => None,
        };
        match next {
            Some(x) => {
                acc = x;
            },
            None => {
                proof {
                    if is_numeral(f@) {
                        lemma_numeral_prefix_le(f@, j + 1);
                    }
                }
                return None;
            },
        }
        j = j + 1;
    }
    proof {
        assert(f@.subrange(0, n as int) =~= f@);
    }
    Some(acc)
}

/// Parses one field as a monitor index: an optional leading plus sign,
/// then digits; anything else is rejected.
fn parse_field(f: &Vec<char>) -> (r: Option<usize>)
    ensures
        match r {
            Some(v) => field_ok(f@) && v as int == numeral_val(field_digits(f@)),
            None => !field_ok(f@),
        },
{
    let n = f.len();
    let start: usize = if n > 0 && f[0] == '+' {
        1
    } else {
        0
    };
    let mut digits: Vec<char> = Vec::new();
    let mut j: usize = start;
    while j < n
        invariant
            start <= j <= n,
            n == f@.len(),
            digits@ == f@.subrange(start as int, j as int),
        decreases n - j,
    {
        digits.push(f[j]);
        proof {
            assert(digits@ =~= f@.subrange(start as int, (j + 1) as int));
        }
        j = j + 1;
    }
    proof {
        assert(digits@ =~= field_digits(f@));
    }
    parse_digits(&digits)
}

/// Splits a string into its comma-separated fields, kept as character
/// vectors.
fn split_fields(s: &str) -> (fields: Vec<Vec<char>>)
    ensures
        views_of(fields@) == split_commas(s@),
{
    let n = s.unicode_len();
    let mut done: Vec<Vec<char>> = Vec::new();
    let mut cur: Vec<char> = Vec::new();
    let mut i: usize = 0;
    while i < n
        invariant
            i <= n,
            n == s@.len(),
            views_of(done@).push(cur@) == split_commas(s@.subrange(0, i as int)),
        decreases n - i,
    {
        let c = s.get_char(i);
        proof {
            assert(s@.subrange(0, (i + 1) as int).drop_last() =~= s@.subrange(0, i as int));
        }
        if c == ',' {
            let ghost old_done = done@;
            let ghost old_cur = cur@;
            done.push(cur);
            cur = Vec::new();
            proof {
                assert(views_of(done@) =~= views_of(old_done).push(old_cur));
                assert(views_of(done@).push(cur@) =~= split_commas(
                    s@.subrange(0, (i + 1) as int),
                ));
            }
        } else {
            let ghost old_cur = cur@;
            cur.push(c);
            proof {
                let prev = split_commas(s@.subrange(0, i as int));
                assert(prev.last() == old_cur);
                assert(views_of(done@).push(cur@) =~= prev.update(
                    prev.len() - 1,
                    old_cur.push(s@[i as int]),
                ));
            }
        }
        i = i + 1;
    }
    proof {
        assert(s@.subrange(0, n as int) =~= s@);
    }
    let ghost old_done = done@;
    done.push(cur);
    proof {
        assert(views_of(done@) =~= views_of(old_done).push(cur@));
    }
    done
}

/// Parses the monitor list: with no list given, the first output alone;
/// otherwise every comma-separated field as an output index. Any field
/// that is not a fitting numeral, past an optional leading plus sign,
/// rejects the whole list.
#[verifier::loop_isolation(false)]
pub fn parse_monitors(args: &Args) -> (r: Result<Vec<usize>, MonitorsError>)
    ensures
        match &args.monitors {
            None => r matches Ok(v) && v@ == seq![0usize],
            Some(m) => {
                let fields = split_commas(m@);
                match r {
                    Ok(v) => {
                        &&& v@.len() == fields.len()
                        &&& forall|k: int|
                            0 <= k < fields.len() ==> field_ok(#[trigger] fields[k]) && v@[k]
                                as int == numeral_val(field_digits(fields[k]))
                    },
                    Err(_) => exists|k: int|
                        0 <= k < fields.len() && !field_ok(#[trigger] fields[k]),
                }
            },
        },
{
    if args.monitors.is_none() {
        let mut v: Vec<usize> = Vec::new();
        v.push(0);
        proof {
            assert(v@ =~= seq![0usize]);
        }
        return Ok(v);
    }
    let m = args.monitors.as_ref().unwrap();
    let fields = split_fields(m.as_str());
    let mut out: Vec<usize> = Vec::new();
    let mut k: usize = 0;
    let n = fields.len();
    while k < n
        invariant
            k <= n,
            n == fields@.len(),
            views_of(fields@) == split_commas(m@),
            out@.len() == k,
            forall|t: int|
                0 <= t < k ==> field_ok(#[trigger] split_commas(m@)[t]) && out@[t] as int
                    == numeral_val(field_digits(split_commas(m@)[t])),
        decreases n - k,
    {
        match parse_field(&fields[k]) {
            Some(v) => out.push(v),
            None => {
                proof {
                    assert(views_of(fields@)[k as int] == fields@[k as int]@);
                    assert(!field_ok(split_commas(m@)[k as int]));
                }
                return Err(MonitorsError::NotANumber);
            },
        }
        k = k + 1;
    }
    Ok(out)
}

/// A hexadecimal digit, either case.
pub open spec fn is_hex_digit(c: char) -> bool {
    ||| 48 <= c as u32 && c as u32 <= 57
    ||| 97 <= c as u32 && c as u32 <= 102
    ||| 65 <= c as u32 && c as u32 <= 70
}

/// The value of one hexadecimal digit.
pub open spec fn hex_val(c: char) -> int {
    if 48 <= c as u32 && c as u32 <= 57 {
        c as u32 - 48
    } else if 97 <= c as u32 && c as u32 <= 102 {
        c as u32 - 87
    } else {
        c as u32 - 55
    }
}

/// The value of the `i`-th two-digit group of a hex string.
pub open spec fn hex_byte(s: Seq<char>, i: int) -> int {
    16 * hex_val(s[2 * i]) + hex_val(s[2 * i + 1])
}

/// Every character is a hexadecimal digit.
pub open spec fn all_hex(s: Seq<char>) -> bool {
    forall|i: int| 0 <= i < s.len() ==> is_hex_digit(s[i])
}

fn hex_digit(c: char) -> (r: Option<u8>)
    ensures
        match r {
            Some(v) => is_hex_digit(c) && v as int == hex_val(c),
            None => !is_hex_digit(c),
        },
{
    let u = c as u32;
    if 48 <= u && u <= 57 {
        Some((u - 48) as u8)
    } else if 97 <= u && u <= 102 {
        Some((u - 87) as u8)
    } else if 65 <= u && u <= 70 {
        Some((u - 55) as u8)
    } else {
        None
    }
}

/// Parses a color given as hex digits: `rrggbb` is an opaque color,
/// `aarrggbb` carries its own alpha; anything else is no color.
#[verifier::loop_isolation(false)]
pub fn parse_hex_color(s: &str) -> (r: Option<Color>)
    ensures
        match r {
            Some(c) => {
                &&& all_hex(s@)
                &&& (s@.len() == 6 || s@.len() == 8)
                &&& if s@.len() == 6 {
                    &&& c.a == 0xFFu8
                    &&& c.r as int == hex_byte(s@, 0)
                    &&& c.g as int == hex_byte(s@, 1)
                    &&& c.b as int == hex_byte(s@, 2)
                } else {
                    &&& c.a as int == hex_byte(s@, 0)
                    &&& c.r as int == hex_byte(s@, 1)
                    &&& c.g as int == hex_byte(s@, 2)
                    &&& c.b as int == hex_byte(s@, 3)
                }
            },
            None => !(all_hex(s@) && (s@.len() == 6 || s@.len() == 8)),
        },
{
    let n = s.unicode_len();
    if n != 6 && n != 8 {
        return None;
    }
    let mut nibbles: Vec<u8> = Vec::new();
    let mut i: usize = 0;
    while i < n
        invariant
            i <= n,
            nibbles@.len() == i,
            forall|j: int|
                0 <= j < i ==> is_hex_digit(#[trigger] s@[j]) && nibbles@[j] as int == hex_val(
                    s@[j],
                ),
        decreases n - i,
    {
        let c = s.get_char(i);
        match hex_digit(c) {
            Some(v) => {
                let ghost old_n = nibbles@;
                nibbles.push(v);
                proof {
                    assert forall|j: int|
                        0 <= j < i + 1 implies is_hex_digit(s@[j]) && (nibbles@[j]) as int
                        == hex_val(s@[j]) by {
                        if j < i {
                            assert(nibbles@[j] == old_n[j]);
                        } else {
                            assert(nibbles@[j] == v);
                        }
                    }
                }
            },
            None => {
                return None;
            },
        }
        i = i + 1;
    }
    proof {
        assert forall|j: int| 0 <= j < n as int implies #[trigger] nibbles@[j] < 16 by {
            assert(is_hex_digit(s@[j]));
        }
    }
    let b0 = nibbles[0] * 16 + nibbles[1];
    let b1 = nibbles[2] * 16 + nibbles[3];
    let b2 = nibbles[4] * 16 + nibbles[5];
    if n == 6 {
        Some(Color { a: 0xFF, r: b0, g: b1, b: b2 })
    } else {
        let b3 = nibbles[6] * 16 + nibbles[7];
        Some(Color { a: b0, r: b1, g: b2, b: b3 })
    }
}

/// The code a character compares by when ASCII letters are folded to lower
/// case.
pub open spec fn lower_code(c: char) -> u32 {
    if 65 <= c as u32 && c as u32 <= 90 {
        (c as u32 + 32) as u32
    } else {
        c as u32
    }
}

/// Two strings are equal once ASCII letters are folded to lower case.
pub open spec fn matches_ci(s: Seq<char>, t: Seq<char>) -> bool {
    s.len() == t.len() && forall|i: int| 0 <= i < s.len() ==> lower_code(s[i]) == lower_code(t[i])
}

/// The extensions cycle mode picks up from a directory.
pub open spec fn spec_is_image_ext(e: Seq<char>) -> bool {
    ||| matches_ci(e, "jpg"@)
    ||| matches_ci(e, "jpeg"@)
    ||| matches_ci(e, "png"@)
    ||| matches_ci(e, "webp"@)
    ||| matches_ci(e, "gif"@)
    ||| matches_ci(e, "bmp"@)
}

/// Compares two strings, folding ASCII letters to lower case.
fn eq_ignore_ascii_case(a: &str, b: &str) -> (r: bool)
    ensures
        r == matches_ci(a@, b@),
{
    let n = a.unicode_len();
    if n != b.unicode_len() {
        return false;
    }
    let mut i: usize = 0;
    while i < n
        invariant
            i <= n,
            n == a@.len(),
            n == b@.len(),
            forall|j: int| 0 <= j < i ==> lower_code(a@[j]) == lower_code(b@[j]),
        decreases n - i,
    {
        let ca = a.get_char(i) as u32;
        let cb = b.get_char(i) as u32;
        let la = if 65 <= ca && ca <= 90 {
            ca + 32
        } else {
            ca
        };
        let lb = if 65 <= cb && cb <= 90 {
            cb + 32
        } else {
            cb
        };
        if la != lb {
            return false;
        }
        i = i + 1;
    }
    true
}

/// Whether a file extension names an image format cycle mode accepts,
/// whatever its letter case.
pub fn is_image_extension(ext: &str) -> (r: bool)
    ensures
        r == spec_is_image_ext(ext@),
{
    if eq_ignore_ascii_case(ext, "jpg") {
        return true;
    }
    if eq_ignore_ascii_case(ext, "jpeg") {
        return true;
    }
    if eq_ignore_ascii_case(ext, "png") {
        return true;
    }
    if eq_ignore_ascii_case(ext, "webp") {
        return true;
    }
    if eq_ignore_ascii_case(ext, "gif") {
        return true;
    }
    eq_ignore_ascii_case(ext, "bmp")
}

} // verus!
