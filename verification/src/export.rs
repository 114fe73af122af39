//! Frame-export path derivation: the per-run output directory name (a UTC
//! timestamp under the project's `out` directory) and the zero-padded,
//! capped per-frame file path.

use vstd::prelude::*;
use vstd::string::StringExecFns;

verus! {

/// Number of frames for which an export path is handed out.
pub const FRAME_CAP: u64 = 1000;

/// The decimal digit character for `d` in [0, 9].
pub open spec fn digit_char(d: int) -> char {
    if d == 0 {
        '0'
    } else if d == 1 {
        '1'
    } else if d == 2 {
        '2'
    } else if d == 3 {
        '3'
    } else if d == 4 {
        '4'
    } else if d == 5 {
        '5'
    } else if d == 6 {
        '6'
    } else if d == 7 {
        '7'
    } else if d == 8 {
        '8'
    } else {
        '9'
    }
}

/// `v` in [0, 99] written as exactly two decimal digits.
pub open spec fn spec_two_digits(v: int) -> Seq<char> {
    seq![digit_char(v / 10), digit_char(v % 10)]
}

/// `v` in [0, 9999] written as exactly four decimal digits.
pub open spec fn spec_four_digits(v: int) -> Seq<char> {
    seq![
        digit_char(v / 1000),
        digit_char((v / 100) % 10),
        digit_char((v / 10) % 10),
        digit_char(v % 10),
    ]
}

/// A frame index in [0, 999] written as exactly three decimal digits.
pub open spec fn spec_frame_digits(i: int) -> Seq<char> {
    seq![digit_char(i / 100), digit_char((i / 10) % 10), digit_char(i % 10)]
}

/// The file name of a frame: three zero-padded digits and the image
/// extension.
pub open spec fn spec_frame_name(i: int) -> Seq<char> {
    spec_frame_digits(i) + seq!['.', 'p', 'n', 'g']
}

/// The output directory timestamp: year-month-day_hour:minute:second, every
/// field zero-padded to fixed width.
pub open spec fn spec_timestamp(y: int, mo: int, d: int, h: int, mi: int, s: int) -> Seq<char> {
    spec_four_digits(y) + seq!['-'] + spec_two_digits(mo) + seq!['-'] + spec_two_digits(d)
        + seq!['_'] + spec_two_digits(h) + seq![':'] + spec_two_digits(mi) + seq![':']
        + spec_two_digits(s)
}

/// The single decimal digit `d` as a string.
fn digit_str(d: u64) -> (r: &'static str)
    requires
        d < 10,
    ensures
        r@ == seq![digit_char(d as int)],
{
    proof {
        reveal_strlit("0");
        reveal_strlit("1");
        reveal_strlit("2");
        reveal_strlit("3");
        reveal_strlit("4");
        reveal_strlit("5");
        reveal_strlit("6");
        reveal_strlit("7");
        reveal_strlit("8");
        reveal_strlit("9");
    }
    match d {
        0 => "0",
        1 => "1",
        2 => "2",
        3 => "3",
        4 => "4",
        5 => "5",
        6 => "6",
        7 => "7",
        8 => "8",
        _ => "9",
    }
}

/// Appends `v` in [0, 99] to `out` as exactly two decimal digits.
fn push_two_digits(out: &mut String, v: u64)
    requires
        v < 100,
    ensures
        final(out)@ == old(out)@ + spec_two_digits(v as int),
{
    proof {
        vstd::arithmetic::div_mod::lemma_div_is_ordered(v as int, 99, 10);
        vstd::arithmetic::div_mod::lemma_div_pos_is_pos(v as int, 10);
        vstd::arithmetic::div_mod::lemma_mod_division_less_than_divisor(v as int, 10);
    }
    out.append(digit_str(v / 10));
    out.append(digit_str(v % 10));
    proof {
        assert(final(out)@ =~= old(out)@ + spec_two_digits(v as int));
    }
}

/// Appends `v` in [0, 9999] to `out` as exactly four decimal digits.
fn push_four_digits(out: &mut String, v: u64)
    requires
        v < 10000,
    ensures
        final(out)@ == old(out)@ + spec_four_digits(v as int),
{
    proof {
        vstd::arithmetic::div_mod::lemma_div_is_ordered(v as int, 9999, 1000);
        vstd::arithmetic::div_mod::lemma_div_pos_is_pos(v as int, 1000);
        vstd::arithmetic::div_mod::lemma_div_pos_is_pos(v as int, 100);
        vstd::arithmetic::div_mod::lemma_div_pos_is_pos(v as int, 10);
        vstd::arithmetic::div_mod::lemma_mod_division_less_than_divisor((v as int) / 100, 10);
        vstd::arithmetic::div_mod::lemma_mod_division_less_than_divisor((v as int) / 10, 10);
        vstd::arithmetic::div_mod::lemma_mod_division_less_than_divisor(v as int, 10);
    }
    out.append(digit_str(v / 1000));
    out.append(digit_str((v / 100) % 10));
    out.append(digit_str((v / 10) % 10));
    out.append(digit_str(v % 10));
    proof {
        assert(final(out)@ =~= old(out)@ + spec_four_digits(v as int));
    }
}

/// Whether an export path is still handed out for this frame index: only
/// the first `FRAME_CAP` frames are captured.
pub fn should_capture(nth: u64) -> (r: bool)
    ensures
        r == (nth < 1000),
{
    nth < FRAME_CAP
}

/// The file name of frame `i`: the index zero-padded to three digits, with
/// the fixed image extension.
pub fn frame_name(i: u64) -> (r: String)
    requires
        i < 1000,
    ensures
        r@ == spec_frame_name(i as int),
{
    proof {
        vstd::arithmetic::div_mod::lemma_div_is_ordered(i as int, 999, 100);
        vstd::arithmetic::div_mod::lemma_div_pos_is_pos(i as int, 100);
        vstd::arithmetic::div_mod::lemma_div_pos_is_pos(i as int, 10);
        vstd::arithmetic::div_mod::lemma_mod_division_less_than_divisor((i as int) / 10, 10);
        vstd::arithmetic::div_mod::lemma_mod_division_less_than_divisor(i as int, 10);
        reveal_strlit(".png");
    }
    let mut out = String::new();
    out.append(digit_str(i / 100));
    out.append(digit_str((i / 10) % 10));
    out.append(digit_str(i % 10));
    out.append(".png");
    proof {
        assert(out@ =~= spec_frame_name(i as int));
    }
    out
}

/// The full export path of frame `i` under `root`:
/// `root/<i zero-padded to 3 digits>.png`.
pub fn frame_path(root: &str, i: u64) -> (r: String)
    requires
        i < 1000,
    ensures
        r@ == root@ + seq!['/'] + spec_frame_name(i as int),
{
    proof {
        reveal_strlit("/");
    }
    let mut out = String::from_str(root);
    out.append("/");
    let name = frame_name(i);
    let out2 = out.concat(name.as_str());
    proof {
        assert(out2@ =~= root@ + seq!['/'] + spec_frame_name(i as int));
    }
    out2
}

/// The export decision and path for one rendered frame: a path for the
/// first `FRAME_CAP` frame indices, nothing afterwards.
pub fn capture_request(root: &str, nth: u64) -> (r: Option<String>)
    ensures
        nth < 1000 ==> (r matches Some(p) && p@ == root@ + seq!['/'] + spec_frame_name(nth as int)),
        nth >= 1000 ==> r is None,
{
    if should_capture(nth) {
        Some(frame_path(root, nth))
    } else {
        None
    }
}

/// The timestamp `y-mo-d_h:mi:s`, each field zero-padded (year to four
/// digits, the rest to two).
pub fn format_timestamp(y: u64, mo: u64, d: u64, h: u64, mi: u64, s: u64) -> (r: String)
    requires
        y < 10000,
        mo < 100,
        d < 100,
        h < 100,
        mi < 100,
        s < 100,
    ensures
        r@ == spec_timestamp(y as int, mo as int, d as int, h as int, mi as int, s as int),
{
    proof {
        reveal_strlit("-");
        reveal_strlit("_");
        reveal_strlit(":");
    }
    let mut out = String::new();
    push_four_digits(&mut out, y);
    out.append("-");
    push_two_digits(&mut out, mo);
    out.append("-");
    push_two_digits(&mut out, d);
    out.append("_");
    push_two_digits(&mut out, h);
    out.append(":");
    push_two_digits(&mut out, mi);
    out.append(":");
    push_two_digits(&mut out, s);
    proof {
        assert(out@ =~= spec_timestamp(y as int, mo as int, d as int, h as int, mi as int, s as int));
    }
    out
}

/// Relies on chrono's `From<std::time::SystemTime>` conversion to a UTC
/// datetime — total even for clocks set before the epoch — and on the
/// `Datelike` and `Timelike` getters, whose documented ranges the ensures
/// states. The year carries no promise.
#[verifier::external_body]
fn now_utc_parts() -> (r: (i64, u64, u64, u64, u64, u64))
    ensures
        1 <= r.1 <= 12,
        1 <= r.2 <= 31,
        r.3 <= 23,
        r.4 <= 59,
        r.5 <= 59,
{
    let now = chrono::DateTime::<chrono::Utc>::from(std::time::SystemTime::now());
    (
        chrono::Datelike::year(&now) as i64,
        chrono::Datelike::month(&now) as u64,
        chrono::Datelike::day(&now) as u64,
        chrono::Timelike::hour(&now) as u64,
        chrono::Timelike::minute(&now) as u64,
        chrono::Timelike::second(&now) as u64,
    )
}

/// The per-run output root for the given clock reading: the project path,
/// then `out`, then the timestamp directory. Rejected only when the year
/// does not fit four digits.
pub fn output_root(project: &str, y: i64, mo: u64, d: u64, h: u64, mi: u64, s: u64) -> (r: Option<
    String,
>)
    requires
        1 <= mo <= 12,
        1 <= d <= 31,
        h <= 23,
        mi <= 59,
        s <= 59,
    ensures
        (r is Some) <==> (0 <= y <= 9999),
        r matches Some(p) ==> p@ == project@ + seq!['/', 'o', 'u', 't', '/'] + spec_timestamp(
            y as int,
            mo as int,
            d as int,
            h as int,
            mi as int,
            s as int,
        ),
{
    if y < 0 || y > 9999 {
        return None;
    }
    proof {
        reveal_strlit("/out/");
    }
    let stamp = format_timestamp(y as u64, mo, d, h, mi, s);
    let mut out = String::from_str(project);
    out.append("/out/");
    let out2 = out.concat(stamp.as_str());
    proof {
        assert(out2@ =~= project@ + seq!['/', 'o', 'u', 't', '/'] + spec_timestamp(
            y as int,
            mo as int,
            d as int,
            h as int,
            mi as int,
            s as int,
        ));
    }
    Some(out2)
}

/// The per-run output root taken from the UTC clock now: always 24
/// characters past the project path (`/out/` and the 19-character
/// timestamp), absent only if the clock reports a year outside four
/// digits.
pub fn output_root_now(project: &str) -> (r: Option<String>)
    ensures
        r matches Some(p) ==> p@.len() == project@.len() + 24,
        r matches Some(p) ==> exists|y: int, mo: int, d: int, h: int, mi: int, s: int|
            0 <= y <= 9999 && 1 <= mo <= 12 && 1 <= d <= 31 && 0 <= h <= 23 && 0 <= mi <= 59
                && 0 <= s <= 59 && p@ == project@ + seq!['/', 'o', 'u', 't', '/']
                + #[trigger] spec_timestamp(y, mo, d, h, mi, s),
{
    let (y, mo, d, h, mi, s) = now_utc_parts();
    let r = output_root(project, y, mo, d, h, mi, s);
    r
}

} // verus!
