use vstd::prelude::*;

verus! {

/// The whole YAML configuration file.
#[derive(Debug)]
pub struct Config {
    pub components: Vec<Component>,
    pub canbus_config: Vec<CanbusConfigEntry>,
}

/// A UI element named in the configuration (a label, say).
#[derive(Debug)]
pub struct Component {
    pub comp_type: String,
    pub key: String,
    pub text: Option<String>,
    pub unit: Option<String>,
}

/// Where one value sits in the frames of a CAN identifier.
#[derive(Debug)]
pub struct CanbusConfigEntry {
    pub key: String,
    pub id: u32,
    pub index: u8,
    pub len: u8,
    pub endian: u8,
    pub data_type: String,
}

/// The value of a digit character in bases up to sixteen (either case for
/// the letters); 99 for a character that is no such digit.
pub open spec fn digit_value(c: char) -> nat {
    let v = c as u32;
    if 48 <= v <= 57 {
        (v - 48) as nat
    } else if 97 <= v <= 102 {
        (v - 87) as nat
    } else if 65 <= v <= 70 {
        (v - 55) as nat
    } else {
        99
    }
}

/// Every character of `s` is a digit in base `radix`.
pub open spec fn all_digits(s: Seq<char>, radix: nat) -> bool {
    forall|i: int| 0 <= i < s.len() ==> #[trigger] digit_value(s[i]) < radix
}

/// The number that the digits `s` write in base `radix`, most significant first.
pub open spec fn digits_value(s: Seq<char>, radix: nat) -> nat
    decreases s.len(),
{
    if s.len() == 0 {
        0
    } else {
        digits_value(s.drop_last(), radix) * radix + digit_value(s.last())
    }
}

/// An unsigned number in base `radix`: an optional `+`, then one or more
/// digits, of a value that fits in 32 bits.
pub open spec fn parse_u32(s: Seq<char>, radix: nat) -> Option<u32> {
    let body = if s.len() > 0 && s[0] == '+' {
        s.drop_first()
    } else {
        s
    };
    if body.len() > 0 && all_digits(body, radix) && digits_value(body, radix) <= u32::MAX {
        Some(digits_value(body, radix) as u32)
    } else {
        None
    }
}

/// A number written in hexadecimal after `0x`, or else in decimal.
pub open spec fn hex_or_decimal(s: Seq<char>) -> Option<u32> {
    if s.len() >= 2 && s[0] == '0' && s[1] == 'x' {
        parse_u32(s.subrange(2, s.len() as int), 16)
    } else {
        parse_u32(s, 10)
    }
}

fn digit_of(c: char) -> (r: u32)
    ensures
        r == digit_value(c),
{
    let v = c as u32;
    if 48 <= v && v <= 57 {
        v - 48
    } else if 97 <= v && v <= 102 {
        v - 87
    } else if 65 <= v && v <= 70 {
        v - 55
    } else {
        99
    }
}

proof fn lemma_digits_grow(s: Seq<char>, radix: nat, i: int, j: int)
    requires
        radix >= 1,
        0 <= i <= j <= s.len(),
    ensures
        digits_value(s.take(i), radix) <= digits_value(s.take(j), radix),
    decreases j - i,
{
    if i < j {
        lemma_digits_grow(s, radix, i, j - 1);
        assert(s.take(j).drop_last() =~= s.take(j - 1));
        let v = digits_value(s.take(j - 1), radix);
        assert(v * radix >= v) by (nonlinear_arith)
            requires
                radix >= 1,
        ;
    }
}

/// Reads the number that `s` writes from character `start` on, in base `radix`.
fn parse_from(s: &str, start: usize, radix: u32) -> (r: Option<u32>)
    requires
        start <= s@.len(),
        radix == 10 || radix == 16,
    ensures
        r == parse_u32(s@.subrange(start as int, s@.len() as int), radix as nat),
{
    let n = s.unicode_len();
    let ghost t = s@.subrange(start as int, n as int);
    let mut i: usize = start;
    if i < n && s.get_char(i) == '+' {
        i = i + 1;
    }
    let b = i;
    let ghost body = s@.subrange(b as int, n as int);
    assert(body =~= (if t.len() > 0 && t[0] == '+' { t.drop_first() } else { t }));
    if b >= n {
        return None;
    }
    let mut acc: u64 = 0;
    while i < n
        invariant
            b <= i <= n,
            n == s@.len(),
            body == s@.subrange(b as int, n as int),
            start <= n,
            t == s@.subrange(start as int, n as int),
            body == (if t.len() > 0 && t[0] == '+' { t.drop_first() } else { t }),
            radix == 10 || radix == 16,
            all_digits(body.take(i - b), radix as nat),
            acc == digits_value(body.take(i - b), radix as nat),
            acc <= u32::MAX,
        decreases n - i,
    {
        let d = digit_of(s.get_char(i));
        assert(body[i - b] == s@[i as int]);
        if d >= radix {
            assert(!all_digits(body, radix as nat)) by {
                assert(digit_value(body[i - b]) >= radix);
            }
            assert(t == s@.subrange(start as int, s@.len() as int));
            assert(parse_u32(t, radix as nat) is None);
            return None;
        }
        let ghost k = i - b;
        assert(body.take(k + 1).drop_last() =~= body.take(k));
        assert(body.take(k + 1).last() == body[k]);
        assert(acc * (radix as u64) <= u32::MAX * 16) by (nonlinear_arith)
            requires
                acc <= u32::MAX,
                radix <= 16,
        ;
        acc = acc * (radix as u64) + (d as u64);
        i = i + 1;
        assert(all_digits(body.take(i - b), radix as nat)) by {
            assert forall|j: int| 0 <= j < body.take(i - b).len() implies #[trigger] digit_value(
                body.take(i - b)[j],
            ) < radix as nat by {
                if j < k {
                    assert(body.take(i - b)[j] == body.take(k)[j]);
                }
            }
        }
        assert(acc == digits_value(body.take(i - b), radix as nat));
        if acc > 0xFFFF_FFFF {
            proof {
                lemma_digits_grow(body, radix as nat, i - b, body.len() as int);
                assert(body.take(body.len() as int) =~= body);
            }
            assert(t == s@.subrange(start as int, s@.len() as int));
            assert(parse_u32(t, radix as nat) is None);
            return None;
        }
    }
    assert(body.take(i - b) =~= body);
    Some(acc as u32)
}

/// Reads a configuration number: hexadecimal after a `0x` prefix, decimal
/// otherwise; `None` when the text is no such number or does not fit in 32 bits.
pub fn parse_hex_or_decimal(value: &str) -> (r: Option<u32>)
    ensures
        r == hex_or_decimal(value@),
{
    let n = value.unicode_len();
    if n >= 2 && value.get_char(0) == '0' && value.get_char(1) == 'x' {
        parse_from(value, 2, 16)
    } else {
        let r = parse_from(value, 0, 10);
        assert(value@.subrange(0, n as int) =~= value@);
        r
    }
}

} // verus!
