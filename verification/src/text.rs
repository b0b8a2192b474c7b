//! Text building blocks shared by every operator-facing message: decimal and
//! hexadecimal rendering, searching, trimming, padding and joining.

use vstd::prelude::*;
use vstd::string::*;

verus! {

// ---------------------------------------------------------------------------
// Comparison and search
// ---------------------------------------------------------------------------

/// Whether `word` stands in `s` at position `i`.
pub open spec fn stands_at(s: Seq<char>, word: Seq<char>, i: int) -> bool {
    &&& 0 <= i
    &&& i + word.len() <= s.len()
    &&& s.subrange(i, i + word.len()) == word
}

/// Whether `word` occurs anywhere in `s`.
pub open spec fn mentions(s: Seq<char>, word: Seq<char>) -> bool {
    exists|i: int| #[trigger] stands_at(s, word, i)
}

/// Whether `s` begins with `prefix`.
pub open spec fn begins_with(s: Seq<char>, prefix: Seq<char>) -> bool {
    prefix.len() <= s.len() && s.subrange(0, prefix.len() as int) == prefix
}

/// Whether two strings hold the same characters.
pub fn same(a: &str, b: &str) -> (r: bool)
    ensures
        r == (a@ == b@),
{
    a.to_owned() == b.to_owned()
}

/// The characters of `s`, in order.
pub fn chars_of(s: &str) -> (r: Vec<char>)
    ensures
        r@ == s@,
{
    let n: usize = s.unicode_len();
    let mut out: Vec<char> = Vec::new();
    let mut i: usize = 0;
    while i < n
        invariant
            n == s@.len(),
            i <= n,
            out@ == s@.subrange(0, i as int),
        decreases n - i,
    {
        out.push(s.get_char(i));
        assert(s@.subrange(0, i + 1) == s@.subrange(0, i as int).push(s@[i as int]));
        i = i + 1;
    }
    assert(s@.subrange(0, n as int) == s@);
    out
}

/// Whether `word` stands in `s` at position `at`, over characters.
fn word_at(s: &Vec<char>, word: &Vec<char>, at: usize) -> (r: bool)
    requires
        at <= s@.len(),
    ensures
        r == stands_at(s@, word@, at as int),
{
    let n: usize = s.len();
    if word.len() > n - at {
        return false;
    }
    let mut k: usize = 0;
    while k < word.len()
        invariant
            n == s@.len(),
            at + word@.len() <= n,
            k <= word@.len(),
            forall|j: int| 0 <= j < k ==> s@[at + j] == word@[j],
        decreases word@.len() - k,
    {
        if s[at + k] != word[k] {
            assert(s@.subrange(at as int, at + word@.len())[k as int] != word@[k as int]);
            return false;
        }
        k = k + 1;
    }
    assert(s@.subrange(at as int, at + word@.len()) =~= word@);
    true
}

/// Whether `message` begins with `prefix`.
pub fn starts_with(message: &str, prefix: &str) -> (r: bool)
    ensures
        r == begins_with(message@, prefix@),
{
    word_at(&chars_of(message), &chars_of(prefix), 0)
}

// ---------------------------------------------------------------------------
// Numbers
// ---------------------------------------------------------------------------

/// One hexadecimal digit (the first ten are the decimal ones).
pub open spec fn digit(d: nat) -> Seq<char> {
    if d == 0 {
        "0"@
    } else if d == 1 {
        "1"@
    } else if d == 2 {
        "2"@
    } else if d == 3 {
        "3"@
    } else if d == 4 {
        "4"@
    } else if d == 5 {
        "5"@
    } else if d == 6 {
        "6"@
    } else if d == 7 {
        "7"@
    } else if d == 8 {
        "8"@
    } else if d == 9 {
        "9"@
    } else if d == 10 {
        "a"@
    } else if d == 11 {
        "b"@
    } else if d == 12 {
        "c"@
    } else if d == 13 {
        "d"@
    } else if d == 14 {
        "e"@
    } else {
        "f"@
    }
}

/// The digit `d` as text.
fn digit_text(d: u8) -> (r: &'static str)
    requires
        d < 16,
    ensures
        r@ == digit(d as nat),
{
    match d {
        0 => "0",
        1 => "1",
        2 => "2",
        3 => "3",
        4 => "4",
        5 => "5",
        6 => "6",
        7 => "7",
        8 => "8",
        9 => "9",
        10 => "a",
        11 => "b",
        12 => "c",
        13 => "d",
        14 => "e",
        _ => "f",
    }
}

/// `n` in decimal, most significant digit first, without leading zeros.
pub open spec fn decimal(n: nat) -> Seq<char>
    decreases n,
{
    if n < 10 {
        digit(n)
    } else {
        decimal(n / 10) + digit(n % 10)
    }
}

/// `n` in decimal.
pub fn decimal_text(n: u64) -> (r: String)
    ensures
        r@ == decimal(n as nat),
    decreases n,
{
    if n < 10 {
        digit_text(n as u8).to_owned()
    } else {
        let head = decimal_text(n / 10);
        head.concat(digit_text((n % 10) as u8))
    }
}

/// `n` in decimal, with a leading minus sign when it is negative.
pub open spec fn signed_decimal(n: int) -> Seq<char> {
    if n < 0 {
        "-"@ + decimal((-n) as nat)
    } else {
        decimal(n as nat)
    }
}

/// `n` in decimal, with a leading minus sign when it is negative.
pub fn signed_text(n: i64) -> (r: String)
    ensures
        r@ == signed_decimal(n as int),
{
    if n >= 0 {
        decimal_text(n as u64)
    } else {
        let below: i64 = -(n + 1);
        let magnitude: u64 = below as u64 + 1;
        "-".to_owned().concat(decimal_text(magnitude).as_str())
    }
}

/// Lowercase hexadecimal, two digits a byte.
pub open spec fn hex_of(bytes: Seq<u8>) -> Seq<char>
    decreases bytes.len(),
{
    if bytes.len() == 0 {
        Seq::empty()
    } else {
        hex_of(bytes.drop_last()) + digit((bytes.last() / 16) as nat) + digit(
            (bytes.last() % 16) as nat,
        )
    }
}

/// Lowercase hexadecimal of raw identity bytes, for operator-facing messages.
pub fn hex(bytes: &[u8]) -> (r: String)
    ensures
        r@ == hex_of(bytes@),
{
    let mut out = String::new();
    let mut i: usize = 0;
    while i < bytes.len()
        invariant
            i <= bytes@.len(),
            out@ == hex_of(bytes@.subrange(0, i as int)),
        decreases bytes@.len() - i,
    {
        let b: u8 = bytes[i];
        out.append(digit_text(b / 16));
        out.append(digit_text(b % 16));
        assert(bytes@.subrange(0, i + 1).drop_last() == bytes@.subrange(0, i as int));
        i = i + 1;
    }
    assert(bytes@.subrange(0, i as int) == bytes@);
    out
}

proof fn digits_are_no_slashes(d: nat)
    requires
        d < 16,
    ensures
        digit(d).len() == 1,
        digit(d)[0] != '/',
{
    reveal_strlit("0");
    reveal_strlit("1");
    reveal_strlit("2");
    reveal_strlit("3");
    reveal_strlit("4");
    reveal_strlit("5");
    reveal_strlit("6");
    reveal_strlit("7");
    reveal_strlit("8");
    reveal_strlit("9");
    reveal_strlit("a");
    reveal_strlit("b");
    reveal_strlit("c");
    reveal_strlit("d");
    reveal_strlit("e");
    reveal_strlit("f");
}

/// The hexadecimal of some bytes begins with a digit, never with a slash.
pub proof fn hex_begins_with_a_digit(bytes: Seq<u8>)
    requires
        bytes.len() > 0,
    ensures
        hex_of(bytes).len() > 0,
        hex_of(bytes)[0] != '/',
    decreases bytes.len(),
{
    let high = (bytes.last() / 16) as nat;
    let low = (bytes.last() % 16) as nat;
    digits_are_no_slashes(high);
    digits_are_no_slashes(low);
    let before = hex_of(bytes.drop_last());
    if bytes.len() > 1 {
        hex_begins_with_a_digit(bytes.drop_last());
        assert(hex_of(bytes)[0] == before[0]);
    } else {
        assert(before.len() == 0);
        assert(hex_of(bytes)[0] == digit(high)[0]);
    }
}

// ---------------------------------------------------------------------------
// Whitespace, lines and separators
// ---------------------------------------------------------------------------

/// The characters with the Unicode `White_Space` property.
pub open spec fn white(c: char) -> bool {
    let n = c as u32;
    ||| 0x9 <= n <= 0xd
    ||| n == 0x20
    ||| n == 0x85
    ||| n == 0xa0
    ||| n == 0x1680
    ||| 0x2000 <= n <= 0x200a
    ||| n == 0x2028
    ||| n == 0x2029
    ||| n == 0x202f
    ||| n == 0x205f
    ||| n == 0x3000
}

/// Whether a character is whitespace.
pub fn is_white(c: char) -> (r: bool)
    ensures
        r == white(c),
{
    let n: u32 = c as u32;
    (0x9 <= n && n <= 0xd) || n == 0x20 || n == 0x85 || n == 0xa0 || n == 0x1680 || (0x2000 <= n
        && n <= 0x200a) || n == 0x2028 || n == 0x2029 || n == 0x202f || n == 0x205f || n == 0x3000
}

/// Whether `s` holds nothing but whitespace.
pub open spec fn blank(s: Seq<char>) -> bool {
    forall|i: int| 0 <= i < s.len() ==> white(#[trigger] s[i])
}

/// `s` without its leading whitespace.
pub open spec fn trimmed_front(s: Seq<char>) -> Seq<char>
    decreases s.len(),
{
    if s.len() > 0 && white(s[0]) {
        trimmed_front(s.subrange(1, s.len() as int))
    } else {
        s
    }
}

/// `s` without its trailing whitespace.
pub open spec fn trimmed_back(s: Seq<char>) -> Seq<char>
    decreases s.len(),
{
    if s.len() > 0 && white(s.last()) {
        trimmed_back(s.drop_last())
    } else {
        s
    }
}

/// `s` without leading and trailing whitespace.
pub open spec fn trimmed(s: Seq<char>) -> Seq<char> {
    trimmed_back(trimmed_front(s))
}

/// Trimming leaves nothing exactly when there was nothing but whitespace.
pub proof fn trimmed_empty_iff_blank(s: Seq<char>)
    ensures
        trimmed(s).len() == 0 <==> blank(s),
{
    front_of_blank(s);
    let f = trimmed_front(s);
    if blank(s) {
        assert(trimmed_back(f) == f);
    } else {
        // The front stops at a character that is not whitespace, so the back does too.
        back_keeps_head(f);
    }
}

proof fn front_of_blank(s: Seq<char>)
    ensures
        blank(s) ==> trimmed_front(s).len() == 0,
        !blank(s) ==> trimmed_front(s).len() > 0 && !white(trimmed_front(s)[0]),
    decreases s.len(),
{
    if s.len() > 0 && white(s[0]) {
        let rest = s.subrange(1, s.len() as int);
        front_of_blank(rest);
        assert(blank(s) <==> blank(rest)) by {
            if blank(rest) {
                assert forall|i: int| 0 <= i < s.len() implies white(#[trigger] s[i]) by {
                    if i > 0 {
                        assert(rest[i - 1] == s[i]);
                    }
                }
            }
            if blank(s) {
                assert forall|i: int| 0 <= i < rest.len() implies white(#[trigger] rest[i]) by {
                    assert(rest[i] == s[i + 1]);
                }
            }
        }
    }
}

proof fn back_keeps_head(s: Seq<char>)
    requires
        s.len() > 0,
        !white(s[0]),
    ensures
        trimmed_back(s).len() > 0,
    decreases s.len(),
{
    if white(s.last()) {
        back_keeps_head(s.drop_last());
    }
}

/// `s` without leading and trailing whitespace.
pub fn trim(s: &str) -> (r: &str)
    ensures
        r@ == trimmed(s@),
{
    let cs = chars_of(s);
    let n: usize = cs.len();
    let mut from: usize = 0;
    assert(s@.subrange(0, n as int) == s@);
    while from < n && is_white(cs[from])
        invariant
            cs@ == s@,
            n == s@.len(),
            from <= n,
            trimmed_front(s@) == trimmed_front(s@.subrange(from as int, n as int)),
        decreases n - from,
    {
        let ghost rest = s@.subrange(from as int, n as int);
        assert(rest.subrange(1, rest.len() as int) == s@.subrange(from + 1, n as int));
        from = from + 1;
    }
    let ghost front = s@.subrange(from as int, n as int);
    assert(trimmed_front(s@) == front);
    let mut to: usize = n;
    while to > from && is_white(cs[to - 1])
        invariant
            cs@ == s@,
            n == s@.len(),
            from <= to <= n,
            trimmed_back(front) == trimmed_back(s@.subrange(from as int, to as int)),
        decreases to - from,
    {
        assert(s@.subrange(from as int, to as int).drop_last() == s@.subrange(
            from as int,
            to - 1,
        ));
        to = to - 1;
    }
    s.substring_char(from, to)
}

/// The position of the first `c` in `s`, or the length when there is none.
pub open spec fn first_position(s: Seq<char>, c: char) -> int
    decreases s.len(),
{
    if s.len() == 0 || s[0] == c {
        0
    } else {
        1 + first_position(s.subrange(1, s.len() as int), c)
    }
}

/// The first `c` is where it stands with none before it.
pub proof fn first_position_found(s: Seq<char>, c: char, at: int)
    requires
        0 <= at < s.len(),
        s[at] == c,
        forall|j: int| 0 <= j < at ==> s[j] != c,
    ensures
        first_position(s, c) == at,
    decreases s.len(),
{
    if at > 0 {
        let rest = s.subrange(1, s.len() as int);
        assert forall|j: int| 0 <= j < at - 1 implies rest[j] != c by {
            assert(s[j + 1] != c);
        }
        first_position_found(rest, c, at - 1);
    }
}

/// What stands before the first line break, a trailing carriage return
/// left out.
pub open spec fn first_line_of(s: Seq<char>) -> Seq<char> {
    let line = s.subrange(0, first_position(s, '\n'));
    if line.len() < s.len() && line.len() > 0 && line.last() == '\r' {
        line.drop_last()
    } else {
        line
    }
}

/// The first line of `s`.
pub fn first_line(s: &str) -> (r: &str)
    ensures
        r@ == first_line_of(s@),
{
    let cs = chars_of(s);
    let n: usize = cs.len();
    let mut end: usize = 0;
    assert(s@.subrange(0, n as int) == s@);
    while end < n && cs[end] != '\n'
        invariant
            cs@ == s@,
            n == s@.len(),
            end <= n,
            first_position(s@, '\n') == end + first_position(
                s@.subrange(end as int, n as int),
                '\n',
            ),
        decreases n - end,
    {
        let ghost rest = s@.subrange(end as int, n as int);
        assert(rest.subrange(1, rest.len() as int) == s@.subrange(end + 1, n as int));
        end = end + 1;
    }
    let ghost line = s@.subrange(0, end as int);
    if end < n && end > 0 && cs[end - 1] == '\r' {
        assert(line.drop_last() == s@.subrange(0, end - 1));
        s.substring_char(0, end - 1)
    } else {
        s.substring_char(0, end)
    }
}

/// The position of the last `c` in `s`, or -1 when there is none.
pub open spec fn last_position(s: Seq<char>, c: char) -> int
    decreases s.len(),
{
    if s.len() == 0 {
        -1
    } else if s.last() == c {
        s.len() - 1
    } else {
        last_position(s.drop_last(), c)
    }
}

/// The host half of `host:port`: what stands before the last colon, or the
/// whole text when there is none.
pub open spec fn host_of(target: Seq<char>) -> Seq<char> {
    let at = last_position(target, ':');
    if at < 0 {
        target
    } else {
        target.subrange(0, at)
    }
}

/// The host half of `host:port`.
pub fn host_part(target: &str) -> (r: &str)
    ensures
        r@ == host_of(target@),
{
    let cs = chars_of(target);
    let n: usize = cs.len();
    let mut end: usize = n;
    assert(target@.subrange(0, n as int) == target@);
    while end > 0
        invariant
            cs@ == target@,
            n == target@.len(),
            end <= n,
            last_position(target@, ':') == last_position(target@.subrange(0, end as int), ':'),
        decreases end,
    {
        let ghost head = target@.subrange(0, end as int);
        if cs[end - 1] == ':' {
            assert(head.last() == ':');
            return target.substring_char(0, end - 1);
        }
        assert(head.drop_last() == target@.subrange(0, end - 1));
        end = end - 1;
    }
    target.substring_char(0, n)
}

/// `n` spaces.
pub open spec fn spaces(n: nat) -> Seq<char> {
    Seq::new(n, |i: int| ' ')
}

/// `s` followed by as many spaces as it takes to fill `width` columns.
pub open spec fn padded(s: Seq<char>, width: nat) -> Seq<char> {
    if s.len() < width {
        s + spaces((width - s.len()) as nat)
    } else {
        s
    }
}

/// `s` padded on the right to `width` columns.
pub fn pad_right(s: String, width: usize) -> (r: String)
    ensures
        r@ == padded(s@, width as nat),
{
    let n: usize = s.as_str().unicode_len();
    let ghost start = s@;
    let mut out = s;
    let mut i: usize = n;
    proof {
        reveal_strlit(" ");
        assert(start + spaces(0) == start);
    }
    while i < width
        invariant
            n == start.len(),
            n <= i,
            i <= width || i == n,
            out@ == start + spaces((i - n) as nat),
            " "@ == seq![' '],
        decreases width - i,
    {
        out.append(" ");
        assert(spaces((i - n) as nat) + seq![' '] == spaces((i + 1 - n) as nat));
        assert(start + spaces((i - n) as nat) + seq![' '] == start + spaces((i + 1 - n) as nat));
        i = i + 1;
    }
    out
}

/// The views of a list of strings.
pub open spec fn views(parts: Seq<String>) -> Seq<Seq<char>> {
    parts.map_values(|s: String| s@)
}

/// The parts in order with `sep` between neighbours.
pub open spec fn joined(parts: Seq<Seq<char>>, sep: Seq<char>) -> Seq<char>
    decreases parts.len(),
{
    if parts.len() == 0 {
        Seq::empty()
    } else if parts.len() == 1 {
        parts[0]
    } else {
        joined(parts.drop_last(), sep) + sep + parts.last()
    }
}

/// The parts in order with `sep` between neighbours.
pub fn join(parts: &Vec<String>, sep: &str) -> (r: String)
    ensures
        r@ == joined(views(parts@), sep@),
{
    let mut out = String::new();
    let mut i: usize = 0;
    while i < parts.len()
        invariant
            i <= parts@.len(),
            out@ == joined(views(parts@).subrange(0, i as int), sep@),
        decreases parts@.len() - i,
    {
        let ghost next = views(parts@).subrange(0, i + 1);
        assert(next.drop_last() == views(parts@).subrange(0, i as int));
        if i > 0 {
            out.append(sep);
        }
        out.append(parts[i].as_str());
        if i == 0 {
            assert(Seq::<char>::empty() + next[0] == next[0]);
        }
        i = i + 1;
    }
    assert(views(parts@).subrange(0, i as int) == views(parts@));
    out
}

/// A copy of a list of strings.
pub fn copy_all(parts: &Vec<String>) -> (r: Vec<String>)
    ensures
        r@ == parts@,
{
    let mut out: Vec<String> = Vec::new();
    let mut i: usize = 0;
    while i < parts.len()
        invariant
            i <= parts@.len(),
            out@ == parts@.subrange(0, i as int),
        decreases parts@.len() - i,
    {
        out.push(parts[i].clone());
        assert(parts@.subrange(0, i + 1) == parts@.subrange(0, i as int).push(parts@[i as int]));
        i = i + 1;
    }
    assert(parts@.subrange(0, i as int) == parts@);
    out
}

/// Whether `text` is one of the listed strings.
pub fn listed(parts: &Vec<String>, text: &str) -> (r: bool)
    ensures
        r == views(parts@).contains(text@),
{
    let mut i: usize = 0;
    while i < parts.len()
        invariant
            i <= parts@.len(),
            forall|j: int| 0 <= j < i ==> (#[trigger] parts@[j])@ != text@,
        decreases parts@.len() - i,
    {
        if same(parts[i].as_str(), text) {
            assert(views(parts@)[i as int] == text@);
            return true;
        }
        i = i + 1;
    }
    assert forall|j: int| 0 <= j < views(parts@).len() implies views(parts@)[j] != text@ by {
        assert(parts@[j]@ != text@);
    }
    false
}

/// Whether two byte strings are the same.
pub fn same_bytes(a: &[u8], b: &[u8]) -> (r: bool)
    ensures
        r == (a@ == b@),
{
    if a.len() != b.len() {
        return false;
    }
    let mut i: usize = 0;
    while i < a.len()
        invariant
            a@.len() == b@.len(),
            i <= a@.len(),
            forall|j: int| 0 <= j < i ==> a@[j] == b@[j],
        decreases a@.len() - i,
    {
        if a[i] != b[i] {
            return false;
        }
        i = i + 1;
    }
    assert(a@ =~= b@);
    true
}

// ---------------------------------------------------------------------------
// Quoted forms
// ---------------------------------------------------------------------------

/// How std's `Debug` writes a string: in double quotes, with escapes.
pub uninterp spec fn debug_quoted(s: Seq<char>) -> Seq<char>;

/// Formats a string with std's `Debug`. Claimed: the text is a function of the
/// string.
#[verifier::external_body]
pub(crate) fn quoted(s: &str) -> (r: String)
    ensures
        r@ == debug_quoted(s@),
{
    format!("{s:?}")
}

/// How an optional string is written: its quoted form in `Some`, or `None`.
pub open spec fn optional_quoted(s: Option<Seq<char>>) -> Seq<char> {
    match s {
        Some(s) => "Some("@ + debug_quoted(s) + ")"@,
        None => "None"@,
    }
}

/// How an optional string is written.
pub fn quoted_option(s: &Option<String>) -> (r: String)
    ensures
        r@ == optional_quoted(
            match s {
                Some(s) => Some(s@),
                None => None,
            },
        ),
{
    match s {
        Some(s) => "Some(".to_owned().concat(quoted(s.as_str()).as_str()).concat(")"),
        None => "None".to_owned(),
    }
}

/// How an optional number is written: in `Some`, or `None`.
pub open spec fn optional_decimal(n: Option<u64>) -> Seq<char> {
    match n {
        Some(n) => "Some("@ + decimal(n as nat) + ")"@,
        None => "None"@,
    }
}

/// How an optional number is written.
pub fn decimal_option(n: Option<u64>) -> (r: String)
    ensures
        r@ == optional_decimal(n),
{
    match n {
        Some(n) => "Some(".to_owned().concat(decimal_text(n).as_str()).concat(")"),
        None => "None".to_owned(),
    }
}

// ---------------------------------------------------------------------------
// Numbers
// ---------------------------------------------------------------------------

/// Whether every character is a decimal digit.
pub open spec fn all_digits(s: Seq<char>) -> bool {
    forall|i: int| 0 <= i < s.len() ==> '0' <= #[trigger] s[i] <= '9'
}

/// The number that decimal digits write.
pub open spec fn digits_value(s: Seq<char>) -> nat
    decreases s.len(),
{
    if s.len() == 0 {
        0
    } else {
        (10 * digits_value(s.drop_last()) + (s.last() as int - '0' as int)) as nat
    }
}

/// The number a text writes: decimal digits, after at most one plus sign, that
/// fit 64 bits.
pub open spec fn number_of(s: Seq<char>) -> Option<u64> {
    let digits = if s.len() > 0 && s[0] == '+' {
        s.subrange(1, s.len() as int)
    } else {
        s
    };
    if digits.len() > 0 && all_digits(digits) && digits_value(digits) <= u64::MAX {
        Some(digits_value(digits) as u64)
    } else {
        None
    }
}

proof fn digits_grow(s: Seq<char>, i: int)
    requires
        0 <= i <= s.len(),
        all_digits(s),
    ensures
        digits_value(s.subrange(0, i)) <= digits_value(s),
    decreases s.len(),
{
    if i == s.len() {
        assert(s.subrange(0, i) =~= s);
    } else {
        assert(s.drop_last().subrange(0, i) =~= s.subrange(0, i));
        digits_grow(s.drop_last(), i);
    }
}

/// The number a text writes.
pub fn number(s: &str) -> (r: Option<u64>)
    ensures
        r == number_of(s@),
{
    let n: usize = s.unicode_len();
    let from: usize = if n > 0 && s.get_char(0) == '+' {
        1
    } else {
        0
    };
    let ghost digits = s@.subrange(from as int, n as int);
    assert(s@.subrange(0, n as int) =~= s@);
    if from == n {
        return None;
    }
    let mut value: u64 = 0;
    let mut i: usize = from;
    while i < n
        invariant
            n == s@.len(),
            from <= i <= n,
            digits == s@.subrange(from as int, n as int),
            number_of(s@) == (if digits.len() > 0 && all_digits(digits) && digits_value(digits)
                <= u64::MAX {
                Some(digits_value(digits) as u64)
            } else {
                None
            }),
            all_digits(digits.subrange(0, i - from)),
            value == digits_value(digits.subrange(0, i - from)),
        decreases n - i,
    {
        let c: char = s.get_char(i);
        assert(digits[i - from] == c);
        if !('0' <= c && c <= '9') {
            return None;
        }
        let d: u64 = c as u64 - '0' as u64;
        let ghost now = digits.subrange(0, i + 1 - from);
        assert(now.drop_last() =~= digits.subrange(0, i - from));
        assert forall|k: int| 0 <= k < now.len() implies '0' <= #[trigger] now[k] <= '9' by {
            if k < i - from {
                assert(digits.subrange(0, i - from)[k] == now[k]);
            }
        }
        if value > 1_844_674_407_370_955_161 || (value == 1_844_674_407_370_955_161 && d > 5) {
            proof {
                if all_digits(digits) {
                    digits_grow(digits, i + 1 - from);
                }
            }
            return None;
        }
        value = value * 10 + d;
        i = i + 1;
    }
    assert(digits.subrange(0, n - from) =~= digits);
    Some(value)
}

// ---------------------------------------------------------------------------
// Bytes as text
// ---------------------------------------------------------------------------

/// What the error of `String::from_utf8` says of bytes that are not
/// well-formed UTF-8.
pub uninterp spec fn utf8_complaint(bytes: Seq<u8>) -> Seq<char>;

/// `String::from_utf8`: the text these bytes encode, and for bytes that are not
/// well-formed UTF-8 the message of its error. Claimed of the message: it is a
/// function of the bytes.
#[verifier::external_body]
pub(crate) fn decoded(bytes: Vec<u8>) -> (r: Result<String, String>)
    ensures
        r is Ok <==> vstd::utf8::valid_utf8(bytes@),
        r matches Ok(s) ==> s@ == vstd::utf8::decode_utf8(bytes@),
        r matches Err(e) ==> e@ == utf8_complaint(bytes@),
{
    String::from_utf8(bytes).map_err(|e| e.to_string())
}

// ---------------------------------------------------------------------------
// What the forms say
// ---------------------------------------------------------------------------

/// A text begins with another exactly when that is a prefix of it.
pub proof fn beginning_is_a_prefix(s: Seq<char>, prefix: Seq<char>)
    ensures
        begins_with(s, prefix) <==> prefix.is_prefix_of(s),
        begins_with(s, prefix) <==> prefix.len() <= s.len() && forall|i: int|
            0 <= i < prefix.len() ==> s[i] == #[trigger] prefix[i],
{
    if prefix.len() <= s.len() {
        let head = s.subrange(0, prefix.len() as int);
        if forall|i: int| 0 <= i < prefix.len() ==> s[i] == #[trigger] prefix[i] {
            assert(head =~= prefix);
        }
        if head == prefix {
            assert forall|i: int| 0 <= i < prefix.len() implies s[i] == #[trigger] prefix[i] by {
                assert(head[i] == s[i]);
            }
        }
    }
}

/// Beginnings are compared character by character.
pub proof fn a_prefix_is_found(message: &str, prefix: &str, r: bool)
    requires
        call_ensures(starts_with, (message, prefix), r),
    ensures
        r <==> prefix@.len() <= message@.len() && forall|i: int|
            0 <= i < prefix@.len() ==> message@[i] == #[trigger] prefix@[i],
{
    beginning_is_a_prefix(message@, prefix@);
}

/// A text mentions a word exactly when the word's characters stand in it, one
/// after another.
pub proof fn a_mention_is_a_run_of_characters(s: Seq<char>, word: Seq<char>, at: int)
    ensures
        stands_at(s, word, at) <==> 0 <= at && at + word.len() <= s.len() && forall|k: int|
            0 <= k < word.len() ==> s[at + k] == #[trigger] word[k],
        stands_at(s, word, at) ==> mentions(s, word),
{
    if 0 <= at && at + word.len() <= s.len() {
        let part = s.subrange(at, at + word.len());
        if forall|k: int| 0 <= k < word.len() ==> s[at + k] == #[trigger] word[k] {
            assert(part =~= word);
        }
        if part == word {
            assert forall|k: int| 0 <= k < word.len() implies s[at + k] == #[trigger] word[k] by {
                assert(part[k] == s[at + k]);
            }
        }
    }
}

/// Texts are the same when they hold the same characters, and bytes when they
/// are the same bytes.
pub proof fn sameness_is_equality(a: &str, b: &str, x: &[u8], y: &[u8], r: bool, q: bool)
    requires
        call_ensures(same, (a, b), r),
        call_ensures(same_bytes, (x, y), q),
    ensures
        r <==> a@ == b@,
        q <==> x@ == y@,
{
}

/// A text is listed exactly when some entry is it.
pub proof fn a_listed_text_is_an_entry(parts: Vec<String>, text: &str, r: bool)
    requires
        call_ensures(listed, (&parts, text), r),
    ensures
        r <==> exists|i: int| 0 <= i < parts@.len() && (#[trigger] parts@[i])@ == text@,
{
    let all = views(parts@);
    if all.contains(text@) {
        let i = choose|i: int| 0 <= i < all.len() && all[i] == text@;
        assert(parts@[i]@ == text@);
    }
    if exists|i: int| 0 <= i < parts@.len() && (#[trigger] parts@[i])@ == text@ {
        let i = choose|i: int| 0 <= i < parts@.len() && (#[trigger] parts@[i])@ == text@;
        assert(all[i] == text@);
    }
}

/// A digit is one character: `0` to `9`, and past them `a` to `f`.
pub proof fn a_digit_is_its_character(d: nat)
    requires
        d < 16,
    ensures
        digit(d).len() == 1,
        d < 10 ==> digit(d)[0] as int == '0' as int + d,
        d >= 10 ==> digit(d)[0] as int == 'a' as int + (d - 10),
{
    reveal_strlit("0");
    reveal_strlit("1");
    reveal_strlit("2");
    reveal_strlit("3");
    reveal_strlit("4");
    reveal_strlit("5");
    reveal_strlit("6");
    reveal_strlit("7");
    reveal_strlit("8");
    reveal_strlit("9");
    reveal_strlit("a");
    reveal_strlit("b");
    reveal_strlit("c");
    reveal_strlit("d");
    reveal_strlit("e");
    reveal_strlit("f");
}

/// Hexadecimal spells each byte with two digits, the high one first.
pub proof fn hex_spells_each_byte(bytes: Seq<u8>, i: int)
    requires
        0 <= i < bytes.len(),
    ensures
        hex_of(bytes).len() == 2 * bytes.len(),
        hex_of(bytes)[2 * i] == digit((bytes[i] / 16) as nat)[0],
        hex_of(bytes)[2 * i + 1] == digit((bytes[i] % 16) as nat)[0],
    decreases bytes.len(),
{
    let rest = bytes.drop_last();
    hex_length(rest);
    a_digit_is_its_character((bytes.last() / 16) as nat);
    a_digit_is_its_character((bytes.last() % 16) as nat);
    if i < rest.len() {
        hex_spells_each_byte(rest, i);
        assert(rest[i] == bytes[i]);
    }
}

proof fn hex_length(bytes: Seq<u8>)
    ensures
        hex_of(bytes).len() == 2 * bytes.len(),
    decreases bytes.len(),
{
    if bytes.len() > 0 {
        hex_length(bytes.drop_last());
        a_digit_is_its_character((bytes.last() / 16) as nat);
        a_digit_is_its_character((bytes.last() % 16) as nat);
    }
}

/// Two byte strings have the same hexadecimal only when they are the same.
pub proof fn hex_tells_bytes_apart(a: Seq<u8>, b: Seq<u8>)
    ensures
        hex_of(a) == hex_of(b) <==> a == b,
{
    if hex_of(a) == hex_of(b) {
        hex_length(a);
        hex_length(b);
        assert forall|i: int| 0 <= i < a.len() implies a[i] == b[i] by {
            hex_spells_each_byte(a, i);
            hex_spells_each_byte(b, i);
            a_digit_is_its_character((a[i] / 16) as nat);
            a_digit_is_its_character((a[i] % 16) as nat);
            a_digit_is_its_character((b[i] / 16) as nat);
            a_digit_is_its_character((b[i] % 16) as nat);
        }
        assert(a =~= b);
    }
}

/// A decimal is made of digits, ends in the number's last one, spells the
/// number, and has no zero in front.
pub proof fn a_decimal_reads_back(n: nat)
    ensures
        decimal(n).len() > 0,
        all_digits(decimal(n)),
        digits_value(decimal(n)) == n,
        decimal(n).last() as int == '0' as int + n % 10,
        n >= 10 ==> decimal(n).drop_last() == decimal(n / 10),
        n > 0 ==> decimal(n)[0] != '0',
    decreases n,
{
    a_digit_is_its_character(n % 10);
    if n < 10 {
        let d = digit(n);
        assert(d.drop_last() =~= Seq::<char>::empty());
        assert(digits_value(d) == (10 * digits_value(d.drop_last()) + (d.last() as int
            - '0' as int)) as nat);
    } else {
        a_decimal_reads_back(n / 10);
        let head = decimal(n / 10);
        assert(decimal(n).drop_last() =~= head);
        assert forall|i: int| 0 <= i < decimal(n).len() implies '0' <= #[trigger] decimal(n)[i]
            <= '9' by {
            if i < head.len() {
                assert(decimal(n)[i] == head[i]);
            }
        }
    }
}

/// Writing a number and reading it gives it back.
pub proof fn written_numbers_read_back(n: u64, written: String, text: &str, r: Option<u64>)
    requires
        call_ensures(decimal_text, (n,), written),
        call_ensures(number, (text,), r),
        text@ == written@,
    ensures
        r == Some(n),
{
    a_decimal_reads_back(n as nat);
    assert(text@[0] != '+') by {
        assert('0' <= text@[0] <= '9');
    }
}

/// A negative number is written as its magnitude after a minus sign.
pub proof fn a_sign_marks_the_negative(n: i64, r: String)
    requires
        call_ensures(signed_text, (n,), r),
    ensures
        n >= 0 ==> r@ == decimal(n as nat),
        n < 0 ==> r@ == seq!['-'] + decimal((0 - n) as nat),
{
    reveal_strlit("-");
    assert("-"@ =~= seq!['-']);
}

/// A text is a number exactly when it is digits, with at most a plus sign in
/// front, and not too large; nothing else is taken for one.
pub proof fn only_digits_are_a_number(s: &str, r: Option<u64>)
    requires
        call_ensures(number, (s,), r),
    ensures
        r is Some ==> s@.len() > 0 && (s@[0] == '+' || '0' <= s@[0] <= '9') && forall|i: int|
            1 <= i < s@.len() ==> '0' <= #[trigger] s@[i] <= '9',
        r is Some && s@[0] == '+' ==> s@.len() > 1 && digits_value(
            s@.subrange(1, s@.len() as int),
        ) == r->0,
        r is Some && s@[0] != '+' ==> digits_value(s@) == r->0,
        s@.len() > 0 && all_digits(s@) ==> (r is Some <==> digits_value(s@)
            <= 18_446_744_073_709_551_615),
{
    if r is Some {
        assert forall|i: int| 1 <= i < s@.len() implies '0' <= #[trigger] s@[i] <= '9' by {
            if s@[0] == '+' {
                assert(s@.subrange(1, s@.len() as int)[i - 1] == s@[i]);
            }
        }
        if s@[0] != '+' {
            assert('0' <= s@[0] <= '9');
        }
    }
    if s@.len() > 0 && all_digits(s@) {
        assert('0' <= s@[0] <= '9');
    }
}

/// Whitespace is the twenty-five characters that carry the Unicode property.
pub proof fn whitespace_is_unicodes(c: char, r: bool)
    requires
        call_ensures(is_white, (c,), r),
    ensures
        c == ' ' || 0x9 <= c as u32 <= 0xd ==> r,
        c as u32 <= 0x8 || 0xe <= c as u32 <= 0x1f || 0x7f <= c as u32 <= 0x84 ==> !r,
        0x21 <= c as u32 <= 0x7e ==> !r,
        r ==> c as u32 <= 0x20 || c as u32 == 0x85 || c as u32 == 0xa0 || c as u32 >= 0x1680,
        c as u32 == 0x85 || c as u32 == 0xa0 || c as u32 == 0x1680 || c as u32 == 0x2028 || c as u32
            == 0x2029 || c as u32 == 0x202f || c as u32 == 0x205f || c as u32 == 0x3000 ==> r,
        0x2000 <= c as u32 <= 0x200a ==> r,
        c as u32 > 0x3000 ==> !r,
        r == white(c),
{
}

proof fn front_is_cut(s: Seq<char>) -> (at: int)
    ensures
        0 <= at <= s.len(),
        trimmed_front(s) == s.subrange(at, s.len() as int),
        forall|i: int| 0 <= i < at ==> white(#[trigger] s[i]),
        at < s.len() ==> !white(s[at]),
    decreases s.len(),
{
    if s.len() > 0 && white(s[0]) {
        let rest = s.subrange(1, s.len() as int);
        let k = front_is_cut(rest);
        assert(rest.subrange(k, rest.len() as int) =~= s.subrange(k + 1, s.len() as int));
        assert forall|i: int| 0 <= i < k + 1 implies white(#[trigger] s[i]) by {
            if i > 0 {
                assert(rest[i - 1] == s[i]);
            }
        }
        k + 1
    } else {
        assert(s.subrange(0, s.len() as int) =~= s);
        0
    }
}

proof fn back_is_cut(s: Seq<char>) -> (at: int)
    ensures
        0 <= at <= s.len(),
        trimmed_back(s) == s.subrange(0, at),
        forall|i: int| at <= i < s.len() ==> white(#[trigger] s[i]),
        at > 0 ==> !white(s[at - 1]),
    decreases s.len(),
{
    if s.len() > 0 && white(s.last()) {
        let rest = s.drop_last();
        let k = back_is_cut(rest);
        assert(rest.subrange(0, k) =~= s.subrange(0, k));
        assert forall|i: int| k <= i < s.len() implies white(#[trigger] s[i]) by {
            if i < rest.len() {
                assert(rest[i] == s[i]);
            }
        }
        k
    } else {
        assert(s.subrange(0, s.len() as int) =~= s);
        s.len() as int
    }
}

/// Trimming cuts whitespace from both ends and nothing else: what is left is a
/// stretch of the text that neither begins nor ends with whitespace, and
/// everything outside it is whitespace.
pub proof fn trimming_cuts_whitespace_only(s: &str, r: &str) -> (cut: (int, int))
    requires
        call_ensures(trim, (s,), r),
    ensures
        0 <= cut.0 <= cut.1 <= s@.len(),
        r@ == s@.subrange(cut.0, cut.1),
        forall|i: int| 0 <= i < cut.0 || cut.1 <= i < s@.len() ==> white(#[trigger] s@[i]),
        r@.len() > 0 ==> !white(r@[0]) && !white(r@.last()),
{
    let from = front_is_cut(s@);
    let front = s@.subrange(from, s@.len() as int);
    let to = back_is_cut(front);
    assert(front.subrange(0, to) =~= s@.subrange(from, from + to));
    assert forall|i: int| 0 <= i < from || from + to <= i < s@.len() implies white(
        #[trigger] s@[i],
    ) by {
        if i >= from + to {
            assert(front[i - from] == s@[i]);
        }
    }
    (from, from + to)
}

proof fn first_position_is_first(s: Seq<char>, c: char)
    ensures
        0 <= first_position(s, c) <= s.len(),
        first_position(s, c) < s.len() ==> s[first_position(s, c)] == c,
        forall|j: int| 0 <= j < first_position(s, c) ==> #[trigger] s[j] != c,
    decreases s.len(),
{
    if s.len() > 0 && s[0] != c {
        let rest = s.subrange(1, s.len() as int);
        first_position_is_first(rest, c);
        assert forall|j: int| 0 <= j < first_position(s, c) implies #[trigger] s[j] != c by {
            if j > 0 {
                assert(rest[j - 1] == s[j]);
            }
        }
    }
}

/// The first line ends at the first line break: it is everything before it but
/// for a carriage return right there, and the whole text where there is none.
pub proof fn the_first_line_ends_at_the_break(s: &str, at: int, r: &str)
    requires
        call_ensures(first_line, (s,), r),
    ensures
        (forall|j: int| 0 <= j < s@.len() ==> #[trigger] s@[j] != '\n') ==> r@ == s@,
        0 <= at < s@.len() && s@[at] == '\n' && (forall|j: int|
            0 <= j < at ==> #[trigger] s@[j] != '\n') && (at == 0 || s@[at - 1] != '\r') ==> r@
            == s@.subrange(0, at),
        0 < at < s@.len() && s@[at] == '\n' && (forall|j: int|
            0 <= j < at ==> #[trigger] s@[j] != '\n') && s@[at - 1] == '\r' ==> r@ == s@.subrange(
            0,
            at - 1,
        ),
{
    first_position_is_first(s@, '\n');
    let p = first_position(s@, '\n');
    if p == s@.len() {
        assert(s@.subrange(0, p) =~= s@);
    } else {
        if 0 <= at < s@.len() && s@[at] == '\n' && (forall|j: int|
            0 <= j < at ==> #[trigger] s@[j] != '\n') {
            assert(p == at);
            if at > 0 {
                assert(s@.subrange(0, at).last() == s@[at - 1]);
                assert(s@.subrange(0, at).drop_last() =~= s@.subrange(0, at - 1));
            }
        }
    }
}

proof fn last_position_is_last(s: Seq<char>, c: char)
    ensures
        -1 <= last_position(s, c) < s.len(),
        last_position(s, c) >= 0 ==> s[last_position(s, c)] == c,
        forall|j: int| last_position(s, c) < j < s.len() ==> #[trigger] s[j] != c,
    decreases s.len(),
{
    if s.len() > 0 && s.last() != c {
        let rest = s.drop_last();
        last_position_is_last(rest, c);
        assert forall|j: int| last_position(s, c) < j < s.len() implies #[trigger] s[j] != c by {
            if j < rest.len() {
                assert(rest[j] == s[j]);
            }
        }
    }
}

/// The host is everything before the last colon, and the whole text where
/// there is no colon.
pub proof fn the_host_ends_at_the_last_colon(target: &str, at: int, r: &str)
    requires
        call_ensures(host_part, (target,), r),
    ensures
        (forall|j: int| 0 <= j < target@.len() ==> #[trigger] target@[j] != ':') ==> r@ == target@,
        0 <= at < target@.len() && target@[at] == ':' && (forall|j: int|
            at < j < target@.len() ==> #[trigger] target@[j] != ':') ==> r@ == target@.subrange(
            0,
            at,
        ),
{
    last_position_is_last(target@, ':');
}

/// Padding fills up with spaces to the width, and never cuts.
pub proof fn padding_fills_with_spaces(s: String, width: usize, r: String)
    requires
        call_ensures(pad_right, (s, width), r),
    ensures
        s@.is_prefix_of(r@),
        s@.len() >= width ==> r@ == s@,
        s@.len() < width ==> r@.len() == width,
        forall|i: int| s@.len() <= i < r@.len() ==> #[trigger] r@[i] == ' ',
{
}

/// A joined list is its parts in order, with the separator between neighbours
/// and nowhere else.
pub proof fn joining_goes_between(parts: Seq<Seq<char>>, last: Seq<char>, sep: Seq<char>)
    ensures
        joined(Seq::<Seq<char>>::empty(), sep).len() == 0,
        joined(seq![last], sep) == last,
        parts.len() > 0 ==> joined(parts.push(last), sep) == joined(parts, sep) + sep + last,
{
    assert(parts.push(last).drop_last() =~= parts);
}

/// Joining and copying lists change nothing of their entries.
pub proof fn lists_are_joined_as_they_are(parts: Vec<String>, sep: &str, r: String, q: Vec<String>)
    requires
        call_ensures(join, (&parts, sep), r),
        call_ensures(copy_all, (&parts,), q),
    ensures
        parts@.len() == 1 ==> r@ == parts@[0]@,
        parts@.len() == 2 ==> r@ == parts@[0]@ + sep@ + parts@[1]@,
        q@ == parts@,
{
    let all = views(parts@);
    if parts@.len() == 2 {
        assert(all.drop_last().len() == 1);
        assert(joined(all.drop_last(), sep@) == all[0]);
    }
}

} // verus!
