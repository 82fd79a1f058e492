//! The kernel version that the cache key depends on.
//!
//! Per-buffer DMA-BUF inodes only exist from Linux 5.3. Before that every
//! DMA-BUF shares one anonymous inode, so the cache key would collapse to a
//! single value and alias distinct buffers.
use vstd::prelude::*;
use vstd::string::{StrSliceExecFns, StringExecFns};

verus! {

/// The major number of the first kernel with per-buffer inodes.
pub const MIN_MAJOR: u32 = 5;

/// The minor number of the first kernel with per-buffer inodes.
pub const MIN_MINOR: u32 = 3;

/// Whether a character has the Unicode property `White_Space`.
pub open spec fn is_whitespace(c: char) -> bool {
    let n = c as int;
    ||| 0x9 <= n <= 0xd
    ||| n == 0x20
    ||| n == 0x85
    ||| n == 0xa0
    ||| n == 0x1680
    ||| 0x2000 <= n <= 0x200a
    ||| n == 0x2028
    ||| n == 0x2029
    ||| n == 0x202f
    ||| n == 0x205f
    ||| n == 0x3000
}

/// `s` without leading whitespace.
pub open spec fn trim_start(s: Seq<char>) -> Seq<char>
    decreases s.len(),
{
    if s.len() > 0 && is_whitespace(s.first()) {
        trim_start(s.drop_first())
    } else {
        s
    }
}

/// `s` without trailing whitespace.
pub open spec fn trim_end(s: Seq<char>) -> Seq<char>
    decreases s.len(),
{
    if s.len() > 0 && is_whitespace(s.last()) {
        trim_end(s.drop_last())
    } else {
        s
    }
}

/// `s` without leading and trailing whitespace.
pub open spec fn trimmed(s: Seq<char>) -> Seq<char> {
    trim_end(trim_start(s))
}

/// Where the first field of a dotted text ends: at its first dot, or at its
/// end.
pub open spec fn field_end(s: Seq<char>) -> int
    decreases s.len(),
{
    if s.len() == 0 || s.first() == '.' {
        0
    } else {
        1 + field_end(s.drop_first())
    }
}

/// The first field of a dotted text.
pub open spec fn first_field(s: Seq<char>) -> Seq<char> {
    s.take(field_end(s))
}

/// What follows the first dot of a dotted text, if it has one.
pub open spec fn after_first_field(s: Seq<char>) -> Option<Seq<char>> {
    if field_end(s) < s.len() {
        Some(s.skip(field_end(s) + 1))
    } else {
        None
    }
}

/// Whether `c` is one of the ten decimal digits.
pub open spec fn is_digit(c: char) -> bool {
    '0' <= c <= '9'
}

/// The number that a row of decimal digits stands for.
pub open spec fn digits_value(s: Seq<char>) -> int
    decreases s.len(),
{
    if s.len() == 0 {
        0
    } else {
        digits_value(s.drop_last()) * 10 + (s.last() as int - '0' as int)
    }
}

/// The digits of a number: what follows its plus sign, if it has one.
pub open spec fn without_plus(s: Seq<char>) -> Seq<char> {
    if s.len() > 0 && s.first() == '+' {
        s.drop_first()
    } else {
        s
    }
}

/// The number that a text stands for: digits, at least one, after an optional
/// plus sign. It has to fit 32 bits.
pub open spec fn number(s: Seq<char>) -> Option<u32> {
    let d = without_plus(s);
    if d.len() > 0 && (forall|i: int| 0 <= i < d.len() ==> is_digit(#[trigger] d[i]))
        && digits_value(d) <= u32::MAX {
        Some(digits_value(d) as u32)
    } else {
        None
    }
}

/// The major and minor number of a kernel release. A release without a minor
/// number counts as its `.0`; one with a number that does not parse has no
/// version.
pub open spec fn version(release: Seq<char>) -> Option<(u32, u32)> {
    let text = trimmed(release);
    match (number(first_field(text)), after_first_field(text)) {
        (Some(major), None) => Some((major, 0u32)),
        (Some(major), Some(rest)) => match number(first_field(rest)) {
            Some(minor) => Some((major, minor)),
            None => None,
        },
        (None, _) => None,
    }
}

/// Whether a kernel release is known to predate per-buffer DMA-BUF inodes.
/// Fails open: a release without a version, or with the major number 0, is not
/// held to predate them.
pub open spec fn predates_inodes(release: Seq<char>) -> bool {
    match version(release) {
        Some((major, minor)) => major != 0 && (major < MIN_MAJOR || (major == MIN_MAJOR && minor
            < MIN_MINOR)),
        None => false,
    }
}

/// The warning about a kernel release that predates per-buffer inodes.
pub open spec fn inode_warning(release: Seq<char>) -> Seq<char> {
    "kernel "@ + trimmed(release)
        + " predates Linux 5.3, where DMA-BUFs share a single inode: the zero-copy import cache keys collide across buffers and may serve the wrong frame (corruption or device-lost). Upgrade to Linux 5.3+ for DMA-BUF capture."@
}

/// A release that has no readable version is left un-warned, and so is every
/// release from 5.3 on.
pub proof fn law_no_false_alarm(release: Seq<char>)
    ensures
        version(release) is None ==> !predates_inodes(release),
        version(release) matches Some((major, minor)) ==> (major > 5 || (major == 5 && minor >= 3)
            ==> !predates_inodes(release)),
{
}

/// A release with a readable version is warned about exactly when that version
/// comes before 5.3, but for the major number 0.
pub proof fn law_old_kernels_are_warned_about(release: Seq<char>)
    ensures
        version(release) matches Some((major, minor)) ==> (predates_inodes(release) <==> (1 <= major
            <= 4 || (major == 5 && minor <= 2))),
        version(release) is None ==> !predates_inodes(release),
{
}

/// Which characters are whitespace.
pub proof fn law_whitespace(c: char)
    ensures
        is_whitespace(c) <==> seq![
            0x9int,
            0xa,
            0xb,
            0xc,
            0xd,
            0x20,
            0x85,
            0xa0,
            0x1680,
            0x2000,
            0x2001,
            0x2002,
            0x2003,
            0x2004,
            0x2005,
            0x2006,
            0x2007,
            0x2008,
            0x2009,
            0x200a,
            0x2028,
            0x2029,
            0x202f,
            0x205f,
            0x3000,
        ].contains(c as int),
{
}

/// Whether `s` is all whitespace.
pub open spec fn all_whitespace(s: Seq<char>) -> bool {
    forall|i: int| 0 <= i < s.len() ==> is_whitespace(#[trigger] s[i])
}

/// Whether `s` neither begins nor ends with whitespace.
pub open spec fn bare(s: Seq<char>) -> bool {
    s.len() > 0 ==> !is_whitespace(s.first()) && !is_whitespace(s.last())
}

/// Whitespace in front goes.
proof fn lemma_trim_start(lead: Seq<char>, text: Seq<char>)
    requires
        all_whitespace(lead),
    ensures
        trim_start(lead + text) == trim_start(text),
    decreases lead.len(),
{
    if lead.len() > 0 {
        assert((lead + text).drop_first() =~= lead.drop_first() + text);
        lemma_trim_start(lead.drop_first(), text);
    }
}

/// Whitespace behind goes.
proof fn lemma_trim_end(text: Seq<char>, trail: Seq<char>)
    requires
        all_whitespace(trail),
    ensures
        trim_end(text + trail) == trim_end(text),
    decreases trail.len(),
{
    if trail.len() > 0 {
        assert((text + trail).drop_last() =~= text + trail.drop_last());
        lemma_trim_end(text, trail.drop_last());
    }
}

/// Trimming takes off exactly the whitespace around a text.
pub proof fn law_trim(lead: Seq<char>, text: Seq<char>, trail: Seq<char>)
    requires
        all_whitespace(lead),
        bare(text),
        all_whitespace(trail),
    ensures
        trimmed(lead + text + trail) == text,
{
    assert(lead + text + trail =~= lead + (text + trail));
    lemma_trim_start(lead, text + trail);
    if text.len() > 0 {
        lemma_trim_end(text, trail);
    } else {
        lemma_trim_start(trail, Seq::empty());
    }
}

/// Whether `s` holds no dot.
pub open spec fn dotless(s: Seq<char>) -> bool {
    forall|i: int| 0 <= i < s.len() ==> #[trigger] s[i] != '.'
}

/// Whether `s` is empty or begins with a dot.
pub open spec fn next_field(s: Seq<char>) -> bool {
    s.len() > 0 ==> s.first() == '.'
}

/// A field ends at the first dot.
proof fn lemma_field_end(field: Seq<char>, rest: Seq<char>)
    requires
        dotless(field),
        next_field(rest),
    ensures
        field_end(field + rest) == field.len(),
    decreases field.len(),
{
    if field.len() > 0 {
        assert((field + rest).drop_first() =~= field.drop_first() + rest);
        lemma_field_end(field.drop_first(), rest);
    }
}

/// The version of a release is read off its first two fields, which dots
/// separate: it has one if and only if both of them are numbers. What follows
/// them does not matter.
pub proof fn law_version_is_read_off_two_fields(
    release: Seq<char>,
    major: Seq<char>,
    minor: Seq<char>,
    rest: Seq<char>,
)
    requires
        trimmed(release) == major + seq!['.'] + minor + rest,
        dotless(major),
        dotless(minor),
        next_field(rest),
    ensures
        version(release) is Some <==> number(major) is Some && number(minor) is Some,
        version(release) matches Some((a, b)) ==> number(major) == Some(a) && number(minor) == Some(
            b,
        ),
{
    let text = trimmed(release);
    let tail = seq!['.'] + minor + rest;
    assert(text =~= major + tail);
    lemma_field_end(major, tail);
    assert(text.take(major.len() as int) =~= major);
    assert(text.skip(major.len() as int + 1) =~= minor + rest);
    lemma_field_end(minor, rest);
    assert((minor + rest).take(minor.len() as int) =~= minor);
}

/// A release of one field counts as its `.0`.
pub proof fn law_missing_minor_counts_as_zero(release: Seq<char>)
    requires
        dotless(trimmed(release)),
    ensures
        version(release) is Some <==> number(trimmed(release)) is Some,
        version(release) matches Some((major, minor)) ==> number(trimmed(release)) == Some(major)
            && minor == 0,
{
    let text = trimmed(release);
    lemma_field_end(text, Seq::empty());
    assert(text.take(text.len() as int) =~= text);
}

/// Numbers are decimal: a digit alone stands for itself, with or without a plus
/// sign, and a digit more makes ten times the number and the digit, unless that
/// is too large.
pub proof fn law_numbers_are_decimal(s: Seq<char>, c: char, d: u32)
    requires
        d < 10,
        c as int == 48 + d,
    ensures
        number(seq![c]) == Some(d),
        number(seq!['+', c]) == Some(d),
        number(s) matches Some(n) ==> number(s.push(c)) == (if n * 10 + d <= 0xffff_ffff {
            Some((n * 10 + d) as u32)
        } else {
            None
        }),
        number(s) is None && s.len() > 0 && s != seq!['+'] ==> number(s.push(c)) is None,
{
    reveal_with_fuel(digits_value, 2);
    if s.len() > 0 {
        let x = without_plus(s);
        let y = without_plus(s.push(c));
        assert(y =~= x.push(c));
        assert(y.drop_last() =~= x);
        if forall|i: int| 0 <= i < x.len() ==> is_digit(#[trigger] x[i]) {
            lemma_prefix_value(x, x.len() as int);
        }
        if x.len() == 0 {
            assert(s =~= seq!['+']);
        }
    }
}

/// Nothing else is a number: neither nothing, nor a sign alone, nor a text with
/// anything but digits after the first character.
pub proof fn law_nothing_else_is_a_number(s: Seq<char>, i: int)
    ensures
        number(Seq::empty()) is None,
        number(seq!['+']) is None,
        0 <= i < s.len() && !(48 <= s[i] as int <= 57) && !(i == 0 && s[0] == '+') ==> number(
            s,
        ) is None,
{
    if 0 < i < s.len() && s.first() == '+' {
        assert(without_plus(s)[i - 1] == s[i]);
    }
}

/// The decimal text of a number is read as that number.
pub proof fn law_decimal_text_is_read_back(n: u32)
    ensures
        number(crate::text::decimal(n as int)) == Some(n),
        forall|i: int|
            0 <= i < crate::text::decimal(n as int).len() ==> 48 <= (
            #[trigger] crate::text::decimal(n as int)[i]) as int <= 57,
    decreases n,
{
    let tens: u32 = n / 10;
    let ones: u32 = n % 10;
    let text = crate::text::decimal(n as int);
    let c = text.last();
    crate::text::law_decimal_is_positional(tens as int, ones as int);
    if tens > 0 {
        law_decimal_text_is_read_back(tens);
        law_numbers_are_decimal(text.drop_last(), c, ones);
    } else {
        law_numbers_are_decimal(text, c, ones);
    }
}

/// A kernel that calls itself by its major and minor number, whatever comes
/// after them and whatever whitespace is around, is warned about by that name if
/// and only if it comes before 5.3.
pub proof fn law_kernels_are_judged_by_their_version(
    lead: Seq<char>,
    major: u32,
    minor: u32,
    rest: Seq<char>,
    trail: Seq<char>,
)
    requires
        all_whitespace(lead),
        all_whitespace(trail),
        next_field(rest),
        bare(rest),
    ensures
        ({
            let name = crate::text::decimal(major as int) + seq!['.'] + crate::text::decimal(
                minor as int,
            ) + rest;
            let release = lead + name + trail;
            &&& version(release) == Some((major, minor))
            &&& predates_inodes(release) <==> 0 < major && (major < 5 || (major == 5 && minor < 3))
            &&& inode_warning(release) == "kernel "@ + name
                + " predates Linux 5.3, where DMA-BUFs share a single inode: the zero-copy import cache keys collide across buffers and may serve the wrong frame (corruption or device-lost). Upgrade to Linux 5.3+ for DMA-BUF capture."@
        }),
{
    let a = crate::text::decimal(major as int);
    let b = crate::text::decimal(minor as int);
    let name = a + seq!['.'] + b + rest;
    law_decimal_text_is_read_back(major);
    law_decimal_text_is_read_back(minor);
    law_nothing_else_is_a_number(a, 0);
    law_nothing_else_is_a_number(b, 0);
    law_trim(lead, name, trail);
    law_version_is_read_off_two_fields(lead + name + trail, a, b, rest);
}

/// The warning names the release without the whitespace around it, and says what
/// is wrong with it.
pub proof fn law_warning_names_the_release(lead: Seq<char>, text: Seq<char>, trail: Seq<char>)
    requires
        all_whitespace(lead),
        bare(text),
        all_whitespace(trail),
    ensures
        inode_warning(lead + text + trail) == "kernel "@ + text
            + " predates Linux 5.3, where DMA-BUFs share a single inode: the zero-copy import cache keys collide across buffers and may serve the wrong frame (corruption or device-lost). Upgrade to Linux 5.3+ for DMA-BUF capture."@,
{
    law_trim(lead, text, trail);
}

/// The value of a row of digits is at least that of any of its prefixes.
proof fn lemma_prefix_value(d: Seq<char>, i: int)
    requires
        0 <= i <= d.len(),
        forall|j: int| 0 <= j < d.len() ==> is_digit(#[trigger] d[j]),
    ensures
        0 <= digits_value(d.take(i)) <= digits_value(d),
    decreases d.len(),
{
    if i < d.len() {
        let init = d.drop_last();
        lemma_prefix_value(init, i);
        assert(init.take(i) =~= d.take(i));
    } else {
        assert(d.take(i) =~= d);
        if d.len() > 0 {
            let init = d.drop_last();
            lemma_prefix_value(init, init.len() as int);
        }
    }
}

/// The characters of a text.
fn chars_of(s: &str) -> (chars: Vec<char>)
    ensures
        chars@ == s@,
{
    let mut chars: Vec<char> = Vec::new();
    for c in it: s.chars()
        invariant
            it.seq() == s@,
            chars@ == s@.take(it.index()),
    {
        chars.push(c);
    }
    chars
}

/// Whether a character has the Unicode property `White_Space`.
fn whitespace(c: char) -> (yes: bool)
    ensures
        yes == is_whitespace(c),
{
    let n: u32 = c as u32;
    (0x9 <= n && n <= 0xd) || n == 0x20 || n == 0x85 || n == 0xa0 || n == 0x1680 || (0x2000 <= n
        && n <= 0x200a) || n == 0x2028 || n == 0x2029 || n == 0x202f || n == 0x205f || n == 0x3000
}

/// A text without leading and trailing whitespace.
pub fn trim(s: &str) -> (text: &str)
    ensures
        text@ == trimmed(s@),
{
    let chars = chars_of(s);
    let mut start: usize = 0;
    assert(chars@.skip(0) =~= chars@);
    while start < chars.len() && whitespace(chars[start])
        invariant
            start <= chars.len(),
            trim_start(chars@) == trim_start(chars@.skip(start as int)),
        decreases chars.len() - start,
    {
        assert(chars@.skip(start as int).drop_first() =~= chars@.skip(start + 1));
        start = start + 1;
    }
    let mut end: usize = chars.len();
    while start < end && whitespace(chars[end - 1])
        invariant
            start <= end <= chars.len(),
            trim_end(trim_start(chars@)) == trim_end(chars@.subrange(start as int, end as int)),
        decreases end,
    {
        assert(chars@.subrange(start as int, end as int).drop_last() =~= chars@.subrange(
            start as int,
            end - 1,
        ));
        end = end - 1;
    }
    s.substring_char(start, end)
}

/// Where the first field of `chars` that begins at `start` ends.
fn find_dot(chars: &Vec<char>, start: usize) -> (end: usize)
    requires
        start <= chars@.len(),
    ensures
        start <= end <= chars@.len(),
        end == start + field_end(chars@.skip(start as int)),
{
    let mut end: usize = start;
    while end < chars.len() && chars[end] != '.'
        invariant
            start <= end <= chars.len(),
            end + field_end(chars@.skip(end as int)) == start + field_end(
                chars@.skip(start as int),
            ),
        decreases chars.len() - end,
    {
        assert(chars@.skip(end as int).drop_first() =~= chars@.skip(end + 1));
        end = end + 1;
    }
    end
}

/// The number that the characters from `start` to `end` stand for.
fn parse_number(chars: &Vec<char>, start: usize, end: usize) -> (n: Option<u32>)
    requires
        start <= end <= chars@.len(),
    ensures
        n == number(chars@.subrange(start as int, end as int)),
{
    let ghost text = chars@.subrange(start as int, end as int);
    let ghost d = without_plus(text);
    let mut first: usize = start;
    if start < end && chars[start] == '+' {
        first = start + 1;
    }
    if first == end {
        return None;
    }
    let mut value: u64 = 0;
    let mut i: usize = first;
    while i < end
        invariant
            first <= i <= end <= chars.len(),
            text == chars@.subrange(start as int, end as int),
            d == chars@.subrange(first as int, end as int),
            d == without_plus(text),
            value == digits_value(d.take(i - first)),
            value <= u32::MAX,
            forall|j: int| 0 <= j < i - first ==> is_digit(#[trigger] d[j]),
        decreases end - i,
    {
        let c = chars[i];
        assert(d[i - first] == c);
        if c < '0' || c > '9' {
            return None;
        }
        assert(d.take(i - first + 1).drop_last() =~= d.take(i - first));
        value = value * 10 + (c as u64 - '0' as u64);
        if value > 0xffff_ffff {
            proof {
                if forall|j: int| 0 <= j < d.len() ==> is_digit(#[trigger] d[j]) {
                    lemma_prefix_value(d, i - first + 1);
                }
            }
            return None;
        }
        i = i + 1;
    }
    assert(d.take(i - first) =~= d);
    Some(value as u32)
}

/// The major and minor number of a kernel release.
pub fn parse_version(release: &str) -> (parsed: Option<(u32, u32)>)
    ensures
        parsed == version(release@),
{
    let text = trim(release);
    let chars = chars_of(text);
    assert(chars@.skip(0) =~= chars@);
    let dot: usize = find_dot(&chars, 0);
    match parse_number(&chars, 0, dot) {
        None => None,
        Some(major) => if dot < chars.len() {
            let end: usize = find_dot(&chars, dot + 1);
            let ghost rest = chars@.skip(dot + 1);
            assert(chars@.subrange(dot + 1, end as int) =~= first_field(rest));
            match parse_number(&chars, dot + 1, end) {
                None => None,
                Some(minor) => Some((major, minor)),
            }
        } else {
            Some((major, 0))
        },
    }
}

/// The warning that a kernel calls for if it predates per-buffer DMA-BUF
/// inodes. On such a kernel the import cache's key collides across distinct
/// buffers and may serve the wrong image, which the cache cannot detect later.
/// An unparseable release is left un-warned rather than producing a false
/// alarm.
pub fn warn_if_dmabuf_inodes_unsupported(release: &str) -> (warning: Option<String>)
    ensures
        warning is Some <==> predates_inodes(release@),
        warning matches Some(text) ==> text@ == inode_warning(release@),
{
    match parse_version(release) {
        Some((major, minor)) => if major != 0 && (major < MIN_MAJOR || (major == MIN_MAJOR && minor
            < MIN_MINOR)) {
            let mut text = "kernel ".to_string();
            text.append(trim(release));
            text.append(
                " predates Linux 5.3, where DMA-BUFs share a single inode: the zero-copy import cache keys collide across buffers and may serve the wrong frame (corruption or device-lost). Upgrade to Linux 5.3+ for DMA-BUF capture.",
            );
            Some(text)
        } else {
            None
        },
        None => None,
    }
}

} // verus!
