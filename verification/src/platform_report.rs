use vstd::prelude::*;

use crate::text::{
    chars_of, eq_ignore_ascii_case, find_char, find_from, lemma_find_from_bounds, trim,
    trim_bounds,
};

verus! {

/// The key naming the network name in a wireless-interface report.
pub open spec fn ssid_key() -> Seq<char> {
    seq!['S', 'S', 'I', 'D']
}

/// The key naming the access point's hardware address in the same report.
pub open spec fn bssid_key() -> Seq<char> {
    seq!['B', 'S', 'S', 'I', 'D']
}

/// The network name one report line announces: a `key : value` line whose
/// trimmed key is `SSID` in any ASCII case (not `BSSID`) and whose trimmed
/// value is not empty.
pub open spec fn line_ssid(line: Seq<char>) -> Option<Seq<char>> {
    let colon = find_from(line, ':', 0);
    if colon >= line.len() {
        None
    } else {
        let key = trim(line.subrange(0, colon));
        let value = trim(line.subrange(colon + 1, line.len() as int));
        if eq_ignore_ascii_case(key, ssid_key()) && !eq_ignore_ascii_case(key, bssid_key())
            && value.len() > 0 {
            Some(value)
        } else {
            None
        }
    }
}

/// The first network name announced by the lines of `text` from index `start` on.
pub open spec fn ssid_from(text: Seq<char>, start: int) -> Option<Seq<char>>
    decreases text.len() - start,
    when 0 <= start <= text.len()
{
    let end = find_from(text, '\n', start);
    proof {
        lemma_find_from_bounds(text, '\n', start);
    }
    match line_ssid(text.subrange(start, end)) {
        Some(v) => Some(v),
        None => if end >= text.len() {
            None
        } else {
            ssid_from(text, end + 1)
        },
    }
}

/// A network name read from a report is never blank: it is non-empty and
/// already trimmed.
pub proof fn lemma_report_name_is_not_blank(text: Seq<char>, start: int)
    requires
        0 <= start <= text.len(),
    ensures
        ssid_from(text, start) matches Some(name) ==> name.len() > 0 && trim(name) == name,
    decreases text.len() - start,
{
    let end = find_from(text, '\n', start);
    lemma_find_from_bounds(text, '\n', start);
    let line = text.subrange(start, end);
    let colon = find_from(line, ':', 0);
    if colon < line.len() {
        crate::text::lemma_trim_idempotent(line.subrange(colon + 1, line.len() as int));
    }
    if line_ssid(line) is None && end < text.len() {
        lemma_report_name_is_not_blank(text, end + 1);
    }
}

proof fn lemma_find_from_shift(s: Seq<char>, c: char, lo: int, k: int)
    requires
        0 <= lo <= s.len(),
        0 <= k <= s.len() - lo,
    ensures
        lo + find_from(s.subrange(lo, s.len() as int), c, k) == find_from(s, c, lo + k),
    decreases s.len() - lo - k,
{
    let t = s.subrange(lo, s.len() as int);
    if k < t.len() {
        assert(t[k] == s[lo + k]);
        if t[k] != c {
            lemma_find_from_shift(s, c, lo, k + 1);
        }
    }
}

fn ascii_lower_code(c: char) -> (u: u32)
    ensures
        u == crate::text::ascii_lower(c),
{
    let u = c as u32;
    if 0x41 <= u && u <= 0x5A {
        u + 0x20
    } else {
        u
    }
}

/// Whether `s[a..b]` equals `word` up to ASCII case.
fn range_eq_ignore_ascii_case(s: &Vec<char>, a: usize, b: usize, word: &Vec<char>) -> (r: bool)
    requires
        a <= b <= s@.len(),
    ensures
        r == eq_ignore_ascii_case(s@.subrange(a as int, b as int), word@),
{
    let ghost t = s@.subrange(a as int, b as int);
    if b - a != word.len() {
        return false;
    }
    let mut i: usize = 0;
    while i < word.len()
        invariant
            a <= b <= s@.len(),
            b - a == word@.len(),
            t == s@.subrange(a as int, b as int),
            i <= word@.len(),
            forall|j: int| 0 <= j < i ==> crate::text::ascii_lower(t[j]) == crate::text::ascii_lower(
                word@[j],
            ),
        decreases word@.len() - i,
    {
        if ascii_lower_code(s[a + i]) != ascii_lower_code(word[i]) {
            assert(t[i as int] == s@[a + i]);
            return false;
        }
        assert(t[i as int] == s@[a + i]);
        i = i + 1;
    }
    true
}

/// The bounds of the network name announced by line `s[lo..hi]`, if any.
fn line_ssid_bounds(s: &Vec<char>, lo: usize, hi: usize) -> (r: Option<(usize, usize)>)
    requires
        lo <= hi <= s@.len(),
    ensures
        match line_ssid(s@.subrange(lo as int, hi as int)) {
            Some(v) => r matches Some(p) && p.0 <= p.1 <= s@.len() && s@.subrange(
                p.0 as int,
                p.1 as int,
            ) == v,
            None => r is None,
        },
{
    let ghost line = s@.subrange(lo as int, hi as int);
    let colon = find_char(s, ':', lo, hi);
    if colon >= hi {
        return None;
    }
    proof {
        assert(line.subrange(0, colon - lo) =~= s@.subrange(lo as int, colon as int));
        assert(line.subrange(colon - lo + 1, line.len() as int) =~= s@.subrange(
            colon + 1,
            hi as int,
        ));
    }
    let (ka, kb) = trim_bounds(s, lo, colon);
    let ssid = vec!['S', 'S', 'I', 'D'];
    let bssid = vec!['B', 'S', 'S', 'I', 'D'];
    proof {
        assert(ssid@ =~= ssid_key());
        assert(bssid@ =~= bssid_key());
    }
    if !range_eq_ignore_ascii_case(s, ka, kb, &ssid) || range_eq_ignore_ascii_case(
        s,
        ka,
        kb,
        &bssid,
    ) {
        return None;
    }
    let (va, vb) = trim_bounds(s, colon + 1, hi);
    if va == vb {
        None
    } else {
        Some((va, vb))
    }
}

/// Extracts the connected network name from the text of a wireless-interface
/// report (`netsh wlan show interfaces`): the value of the first `SSID` line,
/// ignoring `BSSID` lines and empty values.
pub fn parse_netsh_wifi_ssid(output: &str) -> (r: Option<String>)
    ensures
        match ssid_from(output@, 0) {
            Some(v) => r matches Some(name) && name@ == v,
            None => r is None,
        },
{
    let chars = chars_of(output);
    let n = chars.len();
    let mut start: usize = 0;
    loop
        invariant
            start <= n,
            n == chars@.len(),
            chars@ == output@,
            ssid_from(output@, 0) == ssid_from(output@, start as int),
        decreases n - start,
    {
        let end = find_char(&chars, '\n', start, n);
        proof {
            assert(chars@.subrange(start as int, n as int) =~= chars@.subrange(
                start as int,
                chars@.len() as int,
            ));
            lemma_find_from_shift(chars@, '\n', start as int, 0);
            lemma_find_from_bounds(chars@, '\n', start as int);
            assert(end == find_from(output@, '\n', start as int));
        }
        match line_ssid_bounds(&chars, start, end) {
            Some((a, b)) => {
                let name = output.substring_char(a, b);
                return Some(String::from_str(name));
            },
            None => {},
        }
        if end >= n {
            return None;
        }
        start = end + 1;
    }
}

/// The connected network's name as reported, unless it is blank.
pub fn connected_network_name(name: String) -> (r: Option<String>)
    ensures
        trim(name@).len() == 0 ==> r is None,
        trim(name@).len() > 0 ==> r == Some(name),
{
    let chars = chars_of(name.as_str());
    let (a, b) = trim_bounds(&chars, 0, chars.len());
    proof {
        assert(chars@.subrange(0, chars@.len() as int) =~= name@);
    }
    if a == b {
        None
    } else {
        Some(name)
    }
}

} // verus!
