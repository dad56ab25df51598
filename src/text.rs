//! Text renderings: decimal numbers, byte sizes, Unix permission strings
//! and parent paths.
use vstd::prelude::*;
use vstd::string::*;

verus! {

/// The decimal text of one digit.
pub open spec fn digit_text(d: nat) -> Seq<char> {
    if d == 0 {
        "0"@
    } else if d == 1 {
        "1"@
    } else if d == 2 {
        "2"@
    } else if d == 3 {
        "3"@
    } else if d == 4 {
        "4"@
    } else if d == 5 {
        "5"@
    } else if d == 6 {
        "6"@
    } else if d == 7 {
        "7"@
    } else if d == 8 {
        "8"@
    } else {
        "9"@
    }
}

/// The decimal text of a number, without leading zeros.
pub open spec fn decimal(n: nat) -> Seq<char>
    decreases n,
{
    if n < 10 {
        digit_text(n)
    } else {
        decimal(n / 10) + digit_text(n % 10)
    }
}

fn digit_str(d: u8) -> (r: &'static str)
    requires
        d < 10,
    ensures
        r@ == digit_text(d as nat),
{
    if d == 0 {
        "0"
    } else if d == 1 {
        "1"
    } else if d == 2 {
        "2"
    } else if d == 3 {
        "3"
    } else if d == 4 {
        "4"
    } else if d == 5 {
        "5"
    } else if d == 6 {
        "6"
    } else if d == 7 {
        "7"
    } else if d == 8 {
        "8"
    } else {
        "9"
    }
}

/// The decimal text of a byte value.
pub fn decimal_u8(n: u8) -> (r: String)
    ensures
        r@ == decimal(n as nat),
{
    if n < 10 {
        String::from_str(digit_str(n))
    } else if n < 100 {
        let mut r = String::from_str(digit_str(n / 10));
        r.append(digit_str(n % 10));
        proof {
            assert(decimal((n / 10) as nat) == digit_text((n / 10) as nat));
        }
        r
    } else {
        let mut r = String::from_str(digit_str(n / 100));
        r.append(digit_str((n / 10) % 10));
        r.append(digit_str(n % 10));
        proof {
            let t = (n / 10) as nat;
            assert(t / 10 == (n / 100) as nat);
            assert(t % 10 == ((n / 10) % 10) as nat);
            assert(decimal(t / 10) == digit_text(t / 10));
            assert(decimal(t) == decimal(t / 10) + digit_text(t % 10));
        }
        r
    }
}


/// The decimal text of a number.
pub fn decimal_u128(n: u128) -> (r: String)
    ensures
        r@ == decimal(n as nat),
    decreases n,
{
    if n < 10 {
        String::from_str(digit_str(n as u8))
    } else {
        let mut r = decimal_u128(n / 10);
        r.append(digit_str((n % 10) as u8));
        r
    }
}

/// Units of byte sizes, by powers of 1024.
pub open spec fn unit_name(k: nat) -> Seq<char> {
    if k == 0 {
        "B"@
    } else if k == 1 {
        "KB"@
    } else if k == 2 {
        "MB"@
    } else if k == 3 {
        "GB"@
    } else {
        "TB"@
    }
}

fn unit_str(k: usize) -> (r: &'static str)
    requires
        k <= 4,
    ensures
        r@ == unit_name(k as nat),
{
    if k == 0 {
        "B"
    } else if k == 1 {
        "KB"
    } else if k == 2 {
        "MB"
    } else if k == 3 {
        "GB"
    } else {
        "TB"
    }
}

/// The unit a size is shown in: the largest power of 1024 not above it,
/// up to terabytes.
pub open spec fn unit_of(bytes: nat) -> nat
    decreases bytes,
{
    if bytes < 1024 {
        0
    } else {
        let k = unit_of(bytes / 1024);
        if k < 4 {
            k + 1
        } else {
            4
        }
    }
}

/// 1024 to the power `k`.
pub open spec fn pow1024(k: nat) -> nat
    decreases k,
{
    if k == 0 {
        1
    } else {
        1024 * pow1024((k - 1) as nat)
    }
}

/// `n / d` rounded to the nearest integer, ties to even.
pub open spec fn div_round_even(n: nat, d: nat) -> nat
    recommends
        d > 0,
{
    let q = n / d;
    let r = n % d;
    if 2 * r > d || (2 * r == d && q % 2 == 1) {
        q + 1
    } else {
        q
    }
}

/// Two decimal digits.
pub open spec fn two_digits(n: nat) -> Seq<char> {
    digit_text(n / 10) + digit_text(n % 10)
}

/// A byte count as text: plain bytes below one kilobyte, otherwise the
/// size in the largest fitting unit up to terabytes, with two decimals,
/// rounded to nearest with ties to even.
pub open spec fn bytes_text(bytes: nat) -> Seq<char> {
    let k = unit_of(bytes);
    if k == 0 {
        decimal(bytes) + " B"@
    } else {
        let h = div_round_even(bytes * 100, pow1024(k));
        decimal(h / 100) + "."@ + two_digits(h % 100) + " "@ + unit_name(k)
    }
}

proof fn lemma_unit_step(b: nat)
    requires
        b >= 1024,
    ensures
        unit_of(b) == if unit_of(b / 1024) < 4 { unit_of(b / 1024) + 1 } else { 4 },
{
}

/// Formats a byte count for display.
pub fn format_bytes(bytes: u64) -> (r: String)
    ensures
        r@ == bytes_text(bytes as nat),
{
    let mut scaled: u64 = bytes;
    let mut unit: usize = 0;
    let mut divisor: u128 = 1;
    while scaled >= 1024 && unit < 4
        invariant
            unit <= 4,
            divisor == pow1024(unit as nat),
            scaled as nat == bytes as nat / pow1024(unit as nat),
            unit_of(bytes as nat) == if unit_of(scaled as nat) + unit < 4 {
                unit_of(scaled as nat) + unit
            } else {
                4
            },
            unit == 0 ==> divisor == 1,
            unit == 1 ==> divisor == 1024,
            unit == 2 ==> divisor == 1048576,
            unit == 3 ==> divisor == 1073741824,
            unit == 4 ==> divisor == 1099511627776,
        decreases 4 - unit,
    {
        proof {
            lemma_unit_step(scaled as nat);
            vstd::arithmetic::div_mod::lemma_div_denominator(
                bytes as int,
                pow1024(unit as nat) as int,
                1024,
            );
            assert(pow1024((unit + 1) as nat) == 1024 * pow1024(unit as nat));
        }
        scaled = scaled / 1024;
        divisor = divisor * 1024;
        unit = unit + 1;
    }
    proof {
        if unit < 4 {
            assert(scaled < 1024);
            assert(unit_of(scaled as nat) == 0);
        }
    }
    if unit == 0 {
        let mut r = decimal_u128(bytes as u128);
        r.append(" B");
        return r;
    }
    let n: u128 = bytes as u128 * 100;
    let q = n / divisor;
    let rem = n % divisor;
    let h = if 2 * rem > divisor || (2 * rem == divisor && q % 2 == 1) {
        q + 1
    } else {
        q
    };
    let mut r = decimal_u128(h / 100);
    r.append(".");
    r.append(digit_str(((h % 100) / 10) as u8));
    r.append(digit_str((h % 10) as u8));
    r.append(" ");
    r.append(unit_str(unit));
    proof {
        assert((h % 100) / 10 == (h as nat % 100) / 10);
        assert(h % 10 == (h as nat % 100) % 10) by (nonlinear_arith);
    }
    r
}

/// The permission character for one mode bit.
pub open spec fn bit_char(mode: u32, bit: u32, c: char) -> char {
    if mode & bit != 0 {
        c
    } else {
        '-'
    }
}

/// The nine `rwx` characters of a mode, owner first.
pub open spec fn rwx(mode: u32) -> Seq<char> {
    seq![
        bit_char(mode, 0o400, 'r'),
        bit_char(mode, 0o200, 'w'),
        bit_char(mode, 0o100, 'x'),
        bit_char(mode, 0o040, 'r'),
        bit_char(mode, 0o020, 'w'),
        bit_char(mode, 0o010, 'x'),
        bit_char(mode, 0o004, 'r'),
        bit_char(mode, 0o002, 'w'),
        bit_char(mode, 0o001, 'x'),
    ]
}

/// The type character of a mode's file-type bits.
pub open spec fn type_char(mode: u32) -> char {
    let t = mode & 0o170000;
    if t == 0o040000 {
        'd'
    } else if t == 0o120000 {
        'l'
    } else if t == 0o100000 {
        '-'
    } else if t == 0o060000 {
        'b'
    } else if t == 0o020000 {
        'c'
    } else if t == 0o010000 {
        'p'
    } else if t == 0o140000 {
        's'
    } else {
        '?'
    }
}

fn char_str(c: char) -> (r: &'static str)
    requires
        c == 'r' || c == 'w' || c == 'x' || c == '-' || c == 'd' || c == 'l' || c == 'b' || c
            == 'c' || c == 'p' || c == 's' || c == '?',
    ensures
        r@ == seq![c],
{
    proof {
        reveal_strlit("r");
        reveal_strlit("w");
        reveal_strlit("x");
        reveal_strlit("-");
        reveal_strlit("d");
        reveal_strlit("l");
        reveal_strlit("b");
        reveal_strlit("c");
        reveal_strlit("p");
        reveal_strlit("s");
        reveal_strlit("?");
    }
    if c == 'r' {
        "r"
    } else if c == 'w' {
        "w"
    } else if c == 'x' {
        "x"
    } else if c == '-' {
        "-"
    } else if c == 'd' {
        "d"
    } else if c == 'l' {
        "l"
    } else if c == 'b' {
        "b"
    } else if c == 'c' {
        "c"
    } else if c == 'p' {
        "p"
    } else if c == 's' {
        "s"
    } else {
        "?"
    }
}

/// Appends the nine `rwx` characters of a mode.
fn append_rwx(s: &mut String, mode: u32)
    ensures
        final(s)@ == old(s)@ + rwx(mode),
{
    let bits: [u32; 9] = [0o400, 0o200, 0o100, 0o040, 0o020, 0o010, 0o004, 0o002, 0o001];
    let letters: [char; 9] = ['r', 'w', 'x', 'r', 'w', 'x', 'r', 'w', 'x'];
    let mut i: usize = 0;
    while i < 9
        invariant
            i <= 9,
            bits@ == seq![0o400u32, 0o200, 0o100, 0o040, 0o020, 0o010, 0o004, 0o002, 0o001],
            letters@ == seq!['r', 'w', 'x', 'r', 'w', 'x', 'r', 'w', 'x'],
            s@ == old(s)@ + rwx(mode).take(i as int),
        decreases 9 - i,
    {
        let c = if mode & bits[i] != 0 {
            letters[i]
        } else {
            '-'
        };
        s.append(char_str(c));
        proof {
            assert(rwx(mode).take(i as int + 1) == rwx(mode).take(i as int).push(c));
        }
        i = i + 1;
    }
    proof {
        assert(rwx(mode).take(9) == rwx(mode));
    }
}

/// A listing's permission string: `d` for a directory or `-`, then the
/// nine `rwx` characters.
pub fn format_permissions(mode: u32, is_dir: bool) -> (r: String)
    ensures
        r@ == seq![if is_dir { 'd' } else { '-' }] + rwx(mode),
{
    let mut s = String::from_str(char_str(if is_dir { 'd' } else { '-' }));
    append_rwx(&mut s, mode);
    s
}

/// A full mode string: the file-type character, then the nine `rwx`
/// characters.
pub fn format_mode(mode: u32) -> (r: String)
    ensures
        r@ == seq![type_char(mode)] + rwx(mode),
{
    let t = mode & 0o170000;
    let c = if t == 0o040000 {
        'd'
    } else if t == 0o120000 {
        'l'
    } else if t == 0o100000 {
        '-'
    } else if t == 0o060000 {
        'b'
    } else if t == 0o020000 {
        'c'
    } else if t == 0o010000 {
        'p'
    } else if t == 0o140000 {
        's'
    } else {
        '?'
    };
    let mut s = String::from_str(char_str(c));
    append_rwx(&mut s, mode);
    s
}

/// What `std::path::Path::parent` gives for a path, as text.
pub uninterp spec fn path_parent(p: Seq<char>) -> Option<Seq<char>>;

/// Relies on `Path::parent`: the parent depends on the path's text alone;
/// converted back with `to_string_lossy`, which keeps the text of a path
/// that came from a `str`.
#[verifier::external_body]
fn parent_of(path: &str) -> (r: Option<String>)
    ensures
        match (r, path_parent(path@)) {
            (Some(s), Some(p)) => s@ == p,
            (None, None) => true,
            _ => false,
        },
{
    std::path::Path::new(path).parent().map(|p| p.to_string_lossy().to_string())
}

/// The parent directory of a remote path; `/` where the path has none.
pub fn get_parent_path(path: &str) -> (r: String)
    ensures
        r@ == match path_parent(path@) {
            Some(p) => p,
            None => "/"@,
        },
{
    match parent_of(path) {
        Some(p) => p,
        None => String::from_str("/"),
    }
}

} // verus!
