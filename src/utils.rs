//! Display helpers: file extensions and icons, sizes, truncation.

use vstd::prelude::*;
use vstd::string::{StrSliceExecFns, StringSliceAdditionalSpecFns};
use vstd::utf8::{encode_utf8, decode_utf8, is_char_boundary};
use crate::text::{chars_of, lower_of, lowercase, same_text, push_text, string_of, push_char, push_decimal, decimal, digit_char};

verus! {

/// Two clicks on the same row within this many milliseconds open it.
pub const DOUBLE_CLICK_DURATION: u64 = 400;

/// Where a path text ends once separators and `.` pieces at its end are
/// left out.
pub open spec fn name_end(t: Seq<char>) -> int
    decreases t.len(),
{
    if t.len() > 0 && t.last() == '/' {
        name_end(t.drop_last())
    } else if t.len() >= 2 && t.last() == '.' && t[t.len() - 2] == '/' {
        name_end(t.drop_last())
    } else {
        t.len() as int
    }
}

/// Where the last occurrence of `c` in `s` stands; -1 when there is none.
pub open spec fn last_index(s: Seq<char>, c: char) -> int
    decreases s.len(),
{
    if s.len() == 0 {
        -1
    } else if s.last() == c {
        s.len() - 1
    } else {
        last_index(s.drop_last(), c)
    }
}

/// The final component of a path text, as `Path::file_name` finds it.
pub open spec fn file_name_of(t: Seq<char>) -> Option<Seq<char>> {
    let u = t.subrange(0, name_end(t));
    let name = u.subrange(last_index(u, '/') + 1, u.len() as int);
    if name.len() == 0 || name == seq!['.'] || name == seq!['.', '.'] {
        None
    } else {
        Some(name)
    }
}

/// The extension of a path text, as `Path::extension` finds it: what
/// follows the last `.` of the file name, unless that `.` starts the name.
pub open spec fn extension_of(t: Seq<char>) -> Option<Seq<char>> {
    match file_name_of(t) {
        None => None,
        Some(n) => {
            let d = last_index(n, '.');
            if d <= 0 {
                None
            } else {
                Some(n.subrange(d + 1, n.len() as int))
            }
        },
    }
}

proof fn lemma_name_end_bounds(t: Seq<char>)
    ensures
        0 <= name_end(t) <= t.len(),
    decreases t.len(),
{
    if t.len() > 0 {
        lemma_name_end_bounds(t.drop_last());
    }
}

proof fn lemma_last_index_bounds(s: Seq<char>, c: char)
    ensures
        -1 <= last_index(s, c) < s.len(),
        last_index(s, c) >= 0 ==> s[last_index(s, c)] == c,
        forall|k: int| last_index(s, c) < k < s.len() ==> s[k] != c,
    decreases s.len(),
{
    if s.len() > 0 && s.last() != c {
        lemma_last_index_bounds(s.drop_last(), c);
        assert forall|k: int| last_index(s, c) < k < s.len() implies s[k] != c by {
            if k < s.len() - 1 {
                assert(s.drop_last()[k] == s[k]);
            }
        }
    }
}

/// The last occurrence of `c` in `s[..end]`, searching backwards.
fn find_last(s: &Vec<char>, end: usize, c: char) -> (r: Option<usize>)
    requires
        end <= s@.len(),
    ensures
        match r {
            Some(i) => last_index(s@.subrange(0, end as int), c) == i && i < end,
            None => last_index(s@.subrange(0, end as int), c) == -1,
        },
{
    let mut k: usize = end;
    while k > 0
        invariant
            k <= end <= s@.len(),
            last_index(s@.subrange(0, end as int), c) == last_index(s@.subrange(0, k as int), c),
        decreases k,
    {
        let ghost sub = s@.subrange(0, k as int);
        assert(sub.drop_last() == s@.subrange(0, k - 1));
        if s[k - 1] == c {
            return Some(k - 1);
        }
        k = k - 1;
    }
    None
}

/// Where the final component of a path text starts and ends.
fn name_bounds(t: &Vec<char>) -> (r: (usize, usize))
    ensures
        r.1 == name_end(t@),
        r.0 == last_index(t@.subrange(0, r.1 as int), '/') + 1,
        r.0 <= r.1 <= t@.len(),
{
    let mut e: usize = t.len();
    assert(t@.subrange(0, e as int) == t@);
    while e > 0 && (t[e - 1] == '/' || (e >= 2 && t[e - 1] == '.' && t[e - 2] == '/'))
        invariant
            e <= t@.len(),
            name_end(t@) == name_end(t@.subrange(0, e as int)),
        decreases e,
    {
        assert(t@.subrange(0, e as int).drop_last() == t@.subrange(0, e - 1));
        e = e - 1;
    }
    assert(name_end(t@.subrange(0, e as int)) == e);
    proof {
        lemma_last_index_bounds(t@.subrange(0, e as int), '/');
    }
    let start: usize = match find_last(t, e, '/') {
        Some(i) => i + 1,
        None => 0,
    };
    (start, e)
}

/// Whether `t[start..end]` is a file name: not empty, `.` or `..`.
fn is_file_name(t: &Vec<char>, start: usize, end: usize) -> (r: bool)
    requires
        start <= end <= t@.len(),
    ensures
        r == !(t@.subrange(start as int, end as int).len() == 0
            || t@.subrange(start as int, end as int) == seq!['.']
            || t@.subrange(start as int, end as int) == seq!['.', '.']),
{
    let ghost name = t@.subrange(start as int, end as int);
    let n = end - start;
    if n == 0 {
        return false;
    }
    assert(name[0] == t@[start as int]);
    if n == 1 {
        if t[start] == '.' {
            assert(name =~= seq!['.']);
            return false;
        }
        assert(name != seq!['.']);
        assert(name != seq!['.', '.']) by {
            assert(name.len() == 1);
        }
        return true;
    }
    assert(name != seq!['.']) by {
        assert(name.len() != 1);
    }
    if n == 2 {
        assert(name[1] == t@[start + 1]);
        if t[start] == '.' && t[start + 1] == '.' {
            assert(name =~= seq!['.', '.']);
            return false;
        }
        return true;
    }
    assert(name != seq!['.', '.']) by {
        assert(name.len() != 2);
    }
    true
}

/// The extension of a file name or path (`extension_of`).
pub fn get_file_extension(filename: &str) -> (r: Option<&str>)
    ensures
        match r {
            Some(e) => extension_of(filename@) == Some(e@),
            None => extension_of(filename@) is None,
        },
{
    let t = chars_of(filename);
    let (start, e) = name_bounds(&t);
    let ghost u = t@.subrange(0, e as int);
    let ghost name = u.subrange(start as int, e as int);
    assert(name =~= t@.subrange(start as int, e as int));
    if !is_file_name(&t, start, e) {
        return None;
    }
    assert(file_name_of(filename@) == Some(name));
    let mut k: usize = e;
    while k > start && t[k - 1] != '.'
        invariant
            start <= k <= e,
            e <= t@.len(),
            name == t@.subrange(start as int, e as int),
            last_index(name, '.') == last_index(t@.subrange(start as int, k as int), '.'),
        decreases k,
    {
        assert(t@.subrange(start as int, k as int).drop_last() == t@.subrange(start as int, k - 1));
        k = k - 1;
    }
    if k <= start + 1 {
        proof {
            if k == start + 1 {
                assert(t@.subrange(start as int, k as int).last() == '.');
            }
        }
        return None;
    }
    proof {
        assert(t@.subrange(start as int, k as int).last() == '.');
        assert(name.subrange((k - start) as int, name.len() as int) == t@.subrange(k as int, e as int));
    }
    Some(filename.substring_char(k, e))
}

/// The icon for a lower-case extension.
pub open spec fn icon_for_extension_spec(e: Seq<char>) -> Seq<char> {
    if e == "txt"@ || e == "md"@ {
        "📄"@
    } else if e == "json"@ || e == "yaml"@ || e == "toml"@ || e == "xml"@ {
        "⚙️"@
    } else if e == "rs"@ || e == "py"@ || e == "c"@ || e == "cc"@ || e == "cpp"@ || e == "go"@ || e == "ts"@
        || e == "js"@ || e == "tsx"@ || e == "jsx"@ || e == "m"@ || e == "java"@ || e == "h"@ || e == "hpp"@ {
        "💻"@
    } else if e == "html"@ || e == "css"@ || e == "scss"@ || e == "sass"@ {
        "🌐"@
    } else if e == "sh"@ || e == "bash"@ || e == "zsh"@ || e == "bat"@ || e == "cmd"@ {
        "⚡️"@
    } else if e == "jpg"@ || e == "png"@ || e == "jpeg"@ || e == "gif"@ || e == "bmp"@ || e == "svg"@ || e == "ico"@
        || e == "tiff"@ || e == "heic"@ || e == "webp"@ {
        "🌄"@
    } else if e == "mp3"@ || e == "wav"@ || e == "ogg"@ || e == "aac"@ {
        "🎵"@
    } else if e == "mp4"@ || e == "avi"@ || e == "mov"@ || e == "mkv"@ || e == "wmv"@ || e == "webm"@ || e == "flv"@ {
        "🎬"@
    } else if e == "zip"@ || e == "tar"@ || e == "gz"@ || e == "7z"@ || e == "rar"@ {
        "📦"@
    } else if e == "doc"@ || e == "docx"@ {
        "📘"@
    } else if e == "pdf"@ {
        "📕"@
    } else if e == "xslx"@ || e == "xls"@ || e == "ods"@ || e == "csv"@ {
        "📗"@
    } else if e == "ppt"@ || e == "pptx"@ {
        "📙"@
    } else if e == "exe"@ || e == "msi"@ || e == "app"@ {
        "⚡️"@
    } else {
        "📄"@
    }
}

/// The icon of an entry: a folder for directories, else by the lower-case
/// extension of its name, a page when there is none.
pub open spec fn file_icon_spec(filename: Seq<char>, is_dir: bool) -> Seq<char> {
    if is_dir {
        "📁"@
    } else {
        match extension_of(filename) {
            Some(e) => icon_for_extension_spec(lower_of(e)),
            None => "📄"@,
        }
    }
}

/// The icon for an extension already in lower case.
pub fn icon_for_extension(e: &str) -> (r: &'static str)
    ensures
        r@ == icon_for_extension_spec(e@),
{
    if same_text(e, "txt") || same_text(e, "md") {
        "📄"
    } else if same_text(e, "json") || same_text(e, "yaml") || same_text(e, "toml") || same_text(e, "xml") {
        "⚙️"
    } else if same_text(e, "rs") || same_text(e, "py") || same_text(e, "c") || same_text(e, "cc") || same_text(e, "cpp")
        || same_text(e, "go") || same_text(e, "ts") || same_text(e, "js") || same_text(e, "tsx") || same_text(e, "jsx")
        || same_text(e, "m") || same_text(e, "java") || same_text(e, "h") || same_text(e, "hpp") {
        "💻"
    } else if same_text(e, "html") || same_text(e, "css") || same_text(e, "scss") || same_text(e, "sass") {
        "🌐"
    } else if same_text(e, "sh") || same_text(e, "bash") || same_text(e, "zsh") || same_text(e, "bat") || same_text(e, "cmd") {
        "⚡️"
    } else if same_text(e, "jpg") || same_text(e, "png") || same_text(e, "jpeg") || same_text(e, "gif") || same_text(e, "bmp")
        || same_text(e, "svg") || same_text(e, "ico") || same_text(e, "tiff") || same_text(e, "heic") || same_text(e, "webp") {
        "🌄"
    } else if same_text(e, "mp3") || same_text(e, "wav") || same_text(e, "ogg") || same_text(e, "aac") {
        "🎵"
    } else if same_text(e, "mp4") || same_text(e, "avi") || same_text(e, "mov") || same_text(e, "mkv") || same_text(e, "wmv")
        || same_text(e, "webm") || same_text(e, "flv") {
        "🎬"
    } else if same_text(e, "zip") || same_text(e, "tar") || same_text(e, "gz") || same_text(e, "7z") || same_text(e, "rar") {
        "📦"
    } else if same_text(e, "doc") || same_text(e, "docx") {
        "📘"
    } else if same_text(e, "pdf") {
        "📕"
    } else if same_text(e, "xslx") || same_text(e, "xls") || same_text(e, "ods") || same_text(e, "csv") {
        "📗"
    } else if same_text(e, "ppt") || same_text(e, "pptx") {
        "📙"
    } else if same_text(e, "exe") || same_text(e, "msi") || same_text(e, "app") {
        "⚡️"
    } else {
        "📄"
    }
}

/// The icon of an entry (`file_icon_spec`).
pub fn get_file_icon(filename: &str, is_dir: bool) -> (r: &'static str)
    ensures
        r@ == file_icon_spec(filename@, is_dir),
{
    if is_dir {
        return "📁";
    }
    match get_file_extension(filename) {
        Some(ext) => {
            let lower = lowercase(ext);
            icon_for_extension(lower.as_str())
        },
        None => "📄",
    }
}

/// A text cut to at most `max_width` bytes of UTF-8: kept whole when it
/// fits, else its first `max_width - 3` bytes followed by `...`, or `...`
/// alone when there is no room for more.
pub open spec fn truncate_spec(s: Seq<char>, max_width: usize) -> Seq<char> {
    let b = encode_utf8(s);
    if b.len() <= max_width {
        s
    } else if max_width <= 3 {
        "..."@
    } else {
        decode_utf8(b.subrange(0, max_width - 3)) + "..."@
    }
}

/// Cuts a text to at most `max_width` bytes (`truncate_spec`). The cut
/// must fall between two characters.
pub fn truncate_string(s: &str, max_width: usize) -> (r: String)
    requires
        encode_utf8(s@).len() > max_width > 3 ==> is_char_boundary(encode_utf8(s@), max_width - 3),
    ensures
        r@ == truncate_spec(s@, max_width),
{
    let n = s.as_bytes().len();
    assert(n == encode_utf8(s@).len());
    if n <= max_width {
        string_of(s)
    } else if max_width <= 3 {
        string_of("...")
    } else {
        assert(s.spec_bytes() == encode_utf8(s@));
        let (head, _tail) = s.split_at(max_width - 3);
        proof {
            vstd::utf8::encode_utf8_decode_utf8(head@);
            assert(head.spec_bytes() == encode_utf8(head@));
            assert(head@ == decode_utf8(encode_utf8(s@).subrange(0, max_width - 3)));
        }
        let mut r = string_of(head);
        push_text(&mut r, "...");
        assert(r@ == head@ + "..."@);
        r
    }
}

/// `2^k`
pub open spec fn pow2(k: nat) -> nat
    decreases k,
{
    if k == 0 {
        1
    } else {
        2 * pow2((k - 1) as nat)
    }
}

/// `1024^k`
pub open spec fn pow1024(k: nat) -> nat
    decreases k,
{
    if k == 0 {
        1
    } else {
        1024 * pow1024((k - 1) as nat)
    }
}

/// How many low bits of `n` do not fit in a 53-bit significand.
pub open spec fn dropped_bits(n: nat) -> nat
    decreases n,
{
    if n < 0x20_0000_0000_0000 {
        0
    } else {
        1 + dropped_bits(n / 2)
    }
}

/// `n / d` rounded to the nearest integer, ties to the even one.
pub open spec fn div_round_even(n: nat, d: nat) -> nat
    recommends
        d > 0,
{
    let q = n / d;
    let r = n % d;
    if 2 * r > d || (2 * r == d && q % 2 == 1) {
        q + 1
    } else {
        q
    }
}

/// The value of `n` as a double: rounded to 53 significant bits, ties to
/// even.
pub open spec fn as_double(n: nat) -> nat {
    let m = pow2(dropped_bits(n));
    div_round_even(n, m) * m
}

/// The unit a value is shown in: how many times 1024 fits, at most 4.
pub open spec fn unit_index(v: nat) -> nat {
    if v >= pow1024(4) {
        4
    } else if v >= pow1024(3) {
        3
    } else if v >= pow1024(2) {
        2
    } else if v >= pow1024(1) {
        1
    } else {
        0
    }
}

pub open spec fn unit_name(k: nat) -> Seq<char> {
    if k == 0 {
        "B"@
    } else if k == 1 {
        "KB"@
    } else if k == 2 {
        "MB"@
    } else if k == 3 {
        "GB"@
    } else {
        "TB"@
    }
}

/// A byte count for people: below 1024 as a whole number of bytes; above,
/// in the largest unit up to TB that keeps the number at 1 or more, with
/// one decimal, rounded to even. Counts too large for a double are first
/// rounded as a double does.
pub open spec fn format_size_spec(size: u64) -> Seq<char> {
    if size == 0 {
        "0 B"@
    } else {
        let v = as_double(size as nat);
        let k = unit_index(v);
        if k == 0 {
            decimal(size as nat) + " B"@
        } else {
            let t = div_round_even(v * 10, pow1024(k));
            decimal(t / 10) + seq!['.', digit_char(t % 10)] + " "@ + unit_name(k)
        }
    }
}

proof fn lemma_pow_values()
    ensures
        pow1024(1) == 1024,
        pow1024(2) == 1024 * 1024,
        pow1024(3) == 1024 * 1024 * 1024,
        pow1024(4) == 1024 * 1024 * 1024 * 1024,
{
    reveal_with_fuel(pow1024, 5);
}

/// The value of `n as f64` (`as_double`), exactly.
fn double_value(n: u64) -> (r: u128)
    ensures
        r == as_double(n as nat),
        r <= 0x2_0000_0000_0000_0000u128,
{
    let mut k: u64 = n;
    let mut m: u64 = 1;
    let ghost mut s: nat = 0;
    assert(n as nat / 1 == n as nat);
    while k >= 0x20_0000_0000_0000
        invariant
            m >= 1,
            m as nat == pow2(s),
            k as nat == (n as nat) / (m as nat),
            dropped_bits(n as nat) == s + dropped_bits(k as nat),
            m <= 0x1000,
        decreases k,
    {
        proof {
            vstd::arithmetic::div_mod::lemma_div_denominator(n as int, m as int, 2);
            vstd::arithmetic::div_mod::lemma_fundamental_div_mod(n as int, m as int);
            assert((m as int) * (k as int) <= n as int) by {
                vstd::arithmetic::div_mod::lemma_mod_bound(n as int, m as int);
            }
            assert((m as int) * 0x20_0000_0000_0000 <= (m as int) * (k as int)) by (nonlinear_arith)
                requires
                    k >= 0x20_0000_0000_0000,
                    m >= 1,
            ;
            assert(m * 2 <= 0x1000);
            assert(pow2(s + 1) == 2 * pow2(s));
        }
        k = k / 2;
        m = m * 2;
        proof {
            s = s + 1;
        }
    }
    assert(dropped_bits(k as nat) == 0);
    let q: u64 = n / m;
    let r: u64 = n % m;
    let q2: u128 = if 2 * (r as u128) > m as u128 || (2 * (r as u128) == m as u128 && q % 2 == 1) {
        q as u128 + 1
    } else {
        q as u128
    };
    proof {
        vstd::arithmetic::div_mod::lemma_fundamental_div_mod(n as int, m as int);
    }
    assert((q as int) * (m as int) <= n as int);
    assert(q2 * (m as u128) <= (q as int) * (m as int) + m) by (nonlinear_arith)
        requires
            q2 <= q + 1,
    ;
    q2 * (m as u128)
}

/// A byte count for people (`format_size_spec`): `0 B`, `512 B`, `1.5 KB`.
pub fn format_size(size: u64) -> (r: String)
    ensures
        r@ == format_size_spec(size),
{
    if size == 0 {
        return string_of("0 B");
    }
    proof {
        lemma_pow_values();
    }
    let v = double_value(size);
    let k: u32 = if v >= 1024 * 1024 * 1024 * 1024 {
        4
    } else if v >= 1024 * 1024 * 1024 {
        3
    } else if v >= 1024 * 1024 {
        2
    } else if v >= 1024 {
        1
    } else {
        0
    };
    if k == 0 {
        assert(v < 1024);
        let mut s = String::new();
        push_decimal(&mut s, size);
        push_text(&mut s, " B");
        return s;
    }
    let d: u128 = if k == 1 {
        1024
    } else if k == 2 {
        1024 * 1024
    } else if k == 3 {
        1024 * 1024 * 1024
    } else {
        1024 * 1024 * 1024 * 1024
    };
    assert(d == pow1024(k as nat));
    let num: u128 = v * 10;
    let q: u128 = num / d;
    let rem: u128 = num % d;
    let t: u128 = if 2 * rem > d || (2 * rem == d && q % 2 == 1) {
        q + 1
    } else {
        q
    };
    proof {
        vstd::arithmetic::div_mod::lemma_fundamental_div_mod(num as int, d as int);
        vstd::arithmetic::div_mod::lemma_mod_bound(num as int, d as int);
    }
    assert((q as int) * 1024 <= (q as int) * (d as int)) by (nonlinear_arith)
        requires
            d >= 1024,
    ;
    assert(q * 1024 <= num);
    assert(t / 10 <= 0xffff_ffff_ffff_ffff);
    let mut s = String::new();
    push_decimal(&mut s, (t / 10) as u64);
    push_char(&mut s, '.');
    let last: u64 = (t % 10) as u64;
    push_char(&mut s, crate::text::digit(last));
    push_char(&mut s, ' ');
    let unit = if k == 1 {
        "KB"
    } else if k == 2 {
        "MB"
    } else if k == 3 {
        "GB"
    } else {
        "TB"
    };
    push_text(&mut s, unit);
    proof {
        reveal_strlit(" ");
        assert(" "@ =~= seq![' ']);
    }
    assert(s@ =~= format_size_spec(size));
    s
}

} // verus!
