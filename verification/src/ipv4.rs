//! IPv4 addresses and their dotted-quad text form.
//!
//! The text form is the canonical one: four decimal numbers from 0 to 255,
//! joined by dots, none of them with a leading zero. [`Ipv4Addr::parse`]
//! accepts exactly the texts that [`Ipv4Addr::dotted_quad`] describes.

use vstd::prelude::*;
use vstd::string::StringExecFns;

verus! {

/// An IPv4 address `a.b.c.d`, held as its four octets.
#[derive(Clone, Copy, Debug, PartialEq, Eq, Hash, Structural)]
pub struct Ipv4Addr {
    pub a: u8,
    pub b: u8,
    pub c: u8,
    pub d: u8,
}

/// Whether `c` is one of the ten decimal digits.
pub open spec fn is_digit(c: char) -> bool {
    '0' <= c <= '9'
}

/// The character that stands for the digit `d`, for `d` from 0 to 9.
pub open spec fn digit(d: u8) -> char {
    (d + 48) as u8 as char
}

/// The decimal text of an octet, without leading zeros.
pub open spec fn octet_text(n: u8) -> Seq<char> {
    if n < 10 {
        seq![digit(n)]
    } else if n < 100 {
        seq![digit(n / 10), digit(n % 10)]
    } else {
        seq![digit(n / 100), digit(n / 10 % 10), digit(n % 10)]
    }
}

impl Ipv4Addr {
    /// The text form of the address: its four octets in decimal, joined by
    /// dots.
    pub open spec fn dotted_quad(self) -> Seq<char> {
        octet_text(self.a) + seq!['.'] + octet_text(self.b) + seq!['.'] + octet_text(self.c)
            + seq!['.'] + octet_text(self.d)
    }

    /// The address that `text` is the text form of, if it is one.
    pub open spec fn parsed(text: Seq<char>) -> Option<Ipv4Addr> {
        if exists|ip: Ipv4Addr| text == ip.dotted_quad() {
            Some(choose|ip: Ipv4Addr| text == ip.dotted_quad())
        } else {
            None
        }
    }

    /// The address `a.b.c.d`.
    pub fn new(a: u8, b: u8, c: u8, d: u8) -> (ip: Ipv4Addr)
        ensures
            ip == (Ipv4Addr { a, b, c, d }),
    {
        Ipv4Addr { a, b, c, d }
    }

    /// The four octets, first to last.
    pub fn octets(&self) -> (o: [u8; 4])
        ensures
            o@ == seq![self.a, self.b, self.c, self.d],
    {
        [self.a, self.b, self.c, self.d]
    }

    /// Reads an address from its text form. Nothing but the canonical form is
    /// accepted: no surrounding whitespace, no leading zeros, no octet above
    /// 255, no missing or additional part.
    pub fn parse(text: &str) -> (r: Option<Ipv4Addr>)
        ensures
            r == Ipv4Addr::parsed(text@),
            r matches Some(ip) ==> text@ == ip.dotted_quad(),
            r is None ==> forall|ip: Ipv4Addr| text@ != #[trigger] ip.dotted_quad(),
    {
        let r = scan_text(text);
        proof {
            match r {
                Some(ip) => {
                    lemma_scan_sound(text@);
                    Ipv4Addr::lemma_parsed_dotted_quad(ip);
                },
                None => {
                    assert forall|ip: Ipv4Addr| text@ != #[trigger] ip.dotted_quad() by {
                        lemma_scan_complete(ip);
                    }
                },
            }
        }
        r
    }

    /// Writes the address in its text form.
    pub fn to_text(&self) -> (text: String)
        ensures
            text@ == self.dotted_quad(),
    {
        let mut text = String::new();
        push_octet(&mut text, self.a);
        text.append(".");
        push_octet(&mut text, self.b);
        text.append(".");
        push_octet(&mut text, self.c);
        text.append(".");
        push_octet(&mut text, self.d);
        proof {
            reveal_strlit(".");
            assert(text@ =~= self.dotted_quad());
        }
        text
    }
}

impl Ipv4Addr {
    /// Two addresses with the same text form are the same address.
    pub proof fn lemma_dotted_quad_injective(x: Ipv4Addr, y: Ipv4Addr)
        requires
            x.dotted_quad() == y.dotted_quad(),
        ensures
            x == y,
    {
        lemma_scan_complete(x);
        lemma_scan_complete(y);
    }

    /// Reading the text form of an address gives the address back.
    pub proof fn lemma_parsed_dotted_quad(ip: Ipv4Addr)
        ensures
            Ipv4Addr::parsed(ip.dotted_quad()) == Some(ip),
    {
        let found = choose|other: Ipv4Addr| ip.dotted_quad() == other.dotted_quad();
        Ipv4Addr::lemma_dotted_quad_injective(ip, found);
    }

    /// A text is read as an address exactly when it is that address's text
    /// form.
    pub proof fn lemma_parsed_iff_dotted_quad(text: Seq<char>, ip: Ipv4Addr)
        ensures
            Ipv4Addr::parsed(text) == Some(ip) <==> text == ip.dotted_quad(),
    {
        if text == ip.dotted_quad() {
            Ipv4Addr::lemma_parsed_dotted_quad(ip);
        }
    }

    /// The text form of an address is between 7 and 15 characters long.
    pub proof fn lemma_dotted_quad_len(ip: Ipv4Addr)
        ensures
            7 <= ip.dotted_quad().len() <= 15,
    {
    }
}

/// The value of the digit at position `i` of `s`, if there is a digit there.
spec fn digit_at(s: Seq<char>, i: int) -> Option<int> {
    if 0 <= i < s.len() && is_digit(s[i]) {
        Some(s[i] as int - 48)
    } else {
        None
    }
}

/// Whether position `i` of `s` holds a dot.
spec fn dot_at(s: Seq<char>, i: int) -> bool {
    0 <= i < s.len() && s[i] == '.'
}

/// Reads the longest run of digits that starts at position `i` of `s` as an
/// octet: the octet's value and the position behind the run. There is none
/// where the run is empty or longer than three digits, starts with a zero
/// that is not the whole run, or stands for more than 255.
spec fn octet_at(s: Seq<char>, i: int) -> Option<(u8, int)> {
    match digit_at(s, i) {
        None => None,
        Some(d0) => match digit_at(s, i + 1) {
            None => Some((d0 as u8, i + 1)),
            Some(d1) => if d0 == 0 {
                None
            } else {
                match digit_at(s, i + 2) {
                    None => Some(((d0 * 10 + d1) as u8, i + 2)),
                    Some(d2) => if digit_at(s, i + 3) is Some || d0 * 100 + d1 * 10 + d2 > 255 {
                        None
                    } else {
                        Some(((d0 * 100 + d1 * 10 + d2) as u8, i + 3))
                    },
                }
            },
        },
    }
}

/// Reads `s` from left to right as four octets with a dot between each two.
spec fn scan(s: Seq<char>) -> Option<Ipv4Addr> {
    match octet_at(s, 0) {
        Some((a, i)) if dot_at(s, i) => match octet_at(s, i + 1) {
            Some((b, j)) if dot_at(s, j) => match octet_at(s, j + 1) {
                Some((c, k)) if dot_at(s, k) => match octet_at(s, k + 1) {
                    Some((d, end)) if end == s.len() => Some(Ipv4Addr { a, b, c, d }),
                    _ => None,
                },
                _ => None,
            },
            _ => None,
        },
        _ => None,
    }
}

/// The decimal digit at position `i` of `text`, if there is one.
fn read_digit(text: &str, len: usize, i: usize) -> (r: Option<u8>)
    requires
        len == text@.len(),
    ensures
        match r {
            Some(d) => digit_at(text@, i as int) == Some(d as int),
            None => digit_at(text@, i as int) is None,
        },
{
    if i >= len {
        return None;
    }
    let c = text.get_char(i);
    if c >= '0' && c <= '9' {
        Some((c as u32 - 48) as u8)
    } else {
        None
    }
}

/// Whether position `i` of `text` holds a dot.
fn read_dot(text: &str, len: usize, i: usize) -> (r: bool)
    requires
        len == text@.len(),
    ensures
        r == dot_at(text@, i as int),
{
    i < len && text.get_char(i) == '.'
}

/// The octet whose digits start at position `start` of `text`, with the
/// position behind them.
fn read_octet(text: &str, len: usize, start: usize) -> (r: Option<(u8, usize)>)
    requires
        len == text@.len(),
        start <= len,
    ensures
        match r {
            Some((n, end)) => octet_at(text@, start as int) == Some((n, end as int)) && end <= len,
            None => octet_at(text@, start as int) is None,
        },
{
    let d0 = match read_digit(text, len, start) {
        Some(d) => d,
        None => {
            return None;
        },
    };
    let d1 = match read_digit(text, len, start + 1) {
        Some(d) => d,
        None => {
            return Some((d0, start + 1));
        },
    };
    if d0 == 0 {
        return None;
    }
    let d2 = match read_digit(text, len, start + 2) {
        Some(d) => d,
        None => {
            return Some((d0 * 10 + d1, start + 2));
        },
    };
    if read_digit(text, len, start + 3).is_some() {
        return None;
    }
    let n: u16 = d0 as u16 * 100 + d1 as u16 * 10 + d2 as u16;
    if n > 255 {
        None
    } else {
        Some((n as u8, start + 3))
    }
}

/// Reads `text` from left to right as four octets with a dot between each
/// two.
fn scan_text(text: &str) -> (r: Option<Ipv4Addr>)
    ensures
        r == scan(text@),
{
    let len = text.unicode_len();
    let (a, i) = match read_octet(text, len, 0) {
        Some(found) => found,
        None => {
            return None;
        },
    };
    if !read_dot(text, len, i) {
        return None;
    }
    let (b, j) = match read_octet(text, len, i + 1) {
        Some(found) => found,
        None => {
            return None;
        },
    };
    if !read_dot(text, len, j) {
        return None;
    }
    let (c, k) = match read_octet(text, len, j + 1) {
        Some(found) => found,
        None => {
            return None;
        },
    };
    if !read_dot(text, len, k) {
        return None;
    }
    let (d, end) = match read_octet(text, len, k + 1) {
        Some(found) => found,
        None => {
            return None;
        },
    };
    if end == len {
        Some(Ipv4Addr { a, b, c, d })
    } else {
        None
    }
}

/// The one-character text of the digit `d`.
fn digit_text(d: u8) -> (text: &'static str)
    requires
        d <= 9,
    ensures
        text@ == seq![digit(d)],
{
    proof {
        reveal_strlit("0");
        reveal_strlit("1");
        reveal_strlit("2");
        reveal_strlit("3");
        reveal_strlit("4");
        reveal_strlit("5");
        reveal_strlit("6");
        reveal_strlit("7");
        reveal_strlit("8");
        reveal_strlit("9");
    }
    let text = match d {
        0 => "0",
        1 => "1",
        2 => "2",
        3 => "3",
        4 => "4",
        5 => "5",
        6 => "6",
        7 => "7",
        8 => "8",
        _ => "9",
    };
    assert(text@ =~= seq![digit(d)]);
    text
}

/// Appends the decimal text of `n` to `text`.
fn push_octet(text: &mut String, n: u8)
    ensures
        final(text)@ == old(text)@ + octet_text(n),
{
    if n >= 100 {
        text.append(digit_text(n / 100));
    }
    if n >= 10 {
        text.append(digit_text(n / 10 % 10));
    }
    text.append(digit_text(n % 10));
    assert(text@ =~= old(text)@ + octet_text(n));
}

/// What `octet_at` reads is the text of the octet it returns.
proof fn lemma_octet_at_sound(s: Seq<char>, i: int)
    requires
        octet_at(s, i) is Some,
    ensures
        ({
            let (n, end) = octet_at(s, i).unwrap();
            &&& 0 <= i < end <= s.len()
            &&& s.subrange(i, end) == octet_text(n)
        }),
{
    let (n, end) = octet_at(s, i).unwrap();
    assert(s.subrange(i, end) =~= octet_text(n));
}

/// Where the text of `n` stands at position `i` of `s` and no digit follows
/// it, `octet_at` reads `n`.
proof fn lemma_octet_at_complete(s: Seq<char>, i: int, n: u8)
    requires
        0 <= i,
        i + octet_text(n).len() <= s.len(),
        s.subrange(i, i + octet_text(n).len()) == octet_text(n),
        digit_at(s, i + octet_text(n).len()) is None,
    ensures
        octet_at(s, i) == Some((n, i + octet_text(n).len())),
{
    let t = octet_text(n);
    let part = s.subrange(i, i + t.len());
    assert(part[0] == s[i]);
    if n >= 10 {
        assert(part[1] == s[i + 1]);
    }
    if n >= 100 {
        assert(part[2] == s[i + 2]);
    }
}

/// A text is the sum of its part before position `i` and its part from `i`
/// to `j`, up to `j`.
proof fn lemma_subrange_join(s: Seq<char>, i: int, j: int)
    requires
        0 <= i <= j <= s.len(),
    ensures
        s.subrange(0, j) == s.subrange(0, i) + s.subrange(i, j),
{
    assert(s.subrange(0, j) =~= s.subrange(0, i) + s.subrange(i, j));
}

/// `scan` reads nothing but dotted quads.
proof fn lemma_scan_sound(s: Seq<char>)
    requires
        scan(s) is Some,
    ensures
        s == scan(s).unwrap().dotted_quad(),
{
    let (a, i) = octet_at(s, 0).unwrap();
    let (b, j) = octet_at(s, i + 1).unwrap();
    let (c, k) = octet_at(s, j + 1).unwrap();
    let (d, end) = octet_at(s, k + 1).unwrap();
    lemma_octet_at_sound(s, 0);
    lemma_octet_at_sound(s, i + 1);
    lemma_octet_at_sound(s, j + 1);
    lemma_octet_at_sound(s, k + 1);
    assert(s.subrange(i, i + 1) =~= seq!['.']);
    assert(s.subrange(j, j + 1) =~= seq!['.']);
    assert(s.subrange(k, k + 1) =~= seq!['.']);
    lemma_subrange_join(s, i, i + 1);
    lemma_subrange_join(s, i + 1, j);
    lemma_subrange_join(s, j, j + 1);
    lemma_subrange_join(s, j + 1, k);
    lemma_subrange_join(s, k, k + 1);
    lemma_subrange_join(s, k + 1, end);
    assert(s.subrange(0, end) =~= s);
}

/// `scan` reads every dotted quad, as the address that it is the text of.
proof fn lemma_scan_complete(ip: Ipv4Addr)
    ensures
        scan(ip.dotted_quad()) == Some(ip),
{
    let s = ip.dotted_quad();
    let ta = octet_text(ip.a);
    let tb = octet_text(ip.b);
    let tc = octet_text(ip.c);
    let td = octet_text(ip.d);
    let i = ta.len() as int;
    let j = i + 1 + tb.len();
    let k = j + 1 + tc.len();
    let end = k + 1 + td.len();
    assert(s.len() == end);
    assert(s.subrange(0, i) =~= ta);
    assert(s[i] == '.');
    assert(s.subrange(i + 1, j) =~= tb);
    assert(s[j] == '.');
    assert(s.subrange(j + 1, k) =~= tc);
    assert(s[k] == '.');
    assert(s.subrange(k + 1, end) =~= td);
    lemma_octet_at_complete(s, 0, ip.a);
    lemma_octet_at_complete(s, i + 1, ip.b);
    lemma_octet_at_complete(s, j + 1, ip.c);
    lemma_octet_at_complete(s, k + 1, ip.d);
}

} // verus!
