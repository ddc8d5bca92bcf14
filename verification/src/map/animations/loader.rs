use vstd::prelude::*;

verus! {

/// Number of tile values.
pub const MAX_TILE_VALUE: usize = 1024;

/// Next tile value of each tile value (`MAX_TILE_VALUE` entries).
pub type TileAnimatorSequences = Vec<u16>;

/// Is the character white space (the Unicode `White_Space` property, as
/// `char::is_whitespace` and `str::trim` use it)?
pub open spec fn is_white_space(c: char) -> bool {
    ||| '\u{9}' <= c <= '\u{d}'
    ||| c == ' '
    ||| c == '\u{85}'
    ||| c == '\u{a0}'
    ||| c == '\u{1680}'
    ||| '\u{2000}' <= c <= '\u{200a}'
    ||| c == '\u{2028}'
    ||| c == '\u{2029}'
    ||| c == '\u{202f}'
    ||| c == '\u{205f}'
    ||| c == '\u{3000}'
}

/// The text without its leading white space.
pub open spec fn trim_start(s: Seq<char>) -> Seq<char>
    decreases s.len(),
{
    if s.len() > 0 && is_white_space(s[0]) {
        trim_start(s.drop_first())
    } else {
        s
    }
}

/// The text without its trailing white space.
pub open spec fn trim_end(s: Seq<char>) -> Seq<char>
    decreases s.len(),
{
    if s.len() > 0 && is_white_space(s.last()) {
        trim_end(s.drop_last())
    } else {
        s
    }
}

/// The text without its leading and trailing white space.
pub open spec fn trim(s: Seq<char>) -> Seq<char> {
    trim_end(trim_start(s))
}

/// Index of the first `#` of the text (its length when there is none).
pub open spec fn comment_start(s: Seq<char>) -> int
    decreases s.len(),
{
    if s.len() == 0 {
        0
    } else if s[0] == '#' {
        0
    } else {
        1 + comment_start(s.drop_first())
    }
}

/// Index of the first `->` of the text, if any.
pub open spec fn arrow_index(s: Seq<char>) -> Option<int>
    decreases s.len(),
{
    if s.len() < 2 {
        None
    } else if s[0] == '-' && s[1] == '>' {
        Some(0)
    } else {
        match arrow_index(s.drop_first()) {
            Some(i) => Some(i + 1),
            None => None,
        }
    }
}

/// The pieces of the text between the `->` separators, as `str::split` gives them.
pub open spec fn split_arrows(s: Seq<char>) -> Seq<Seq<char>>
    decreases s.len(),
{
    match arrow_index(s) {
        Some(i) => if 0 <= i && i + 2 <= s.len() {
            seq![s.take(i)] + split_arrows(s.skip(i + 2))
        } else {
            seq![s]
        },
        None => seq![s],
    }
}

/// Value of a digit in the given radix.
pub open spec fn digit_value(c: char, radix: int) -> Option<int> {
    let v: int = if '0' <= c <= '9' {
        c as int - '0' as int
    } else if 'a' <= c <= 'z' {
        c as int - 'a' as int + 10
    } else if 'A' <= c <= 'Z' {
        c as int - 'A' as int + 10
    } else {
        99
    };
    if v < radix {
        Some(v)
    } else {
        None
    }
}

/// Value of a sequence of digits (`None` when one is not a digit).
pub open spec fn digits_value(s: Seq<char>, radix: int) -> Option<int>
    decreases s.len(),
{
    if s.len() == 0 {
        Some(0)
    } else {
        match (digits_value(s.drop_last(), radix), digit_value(s.last(), radix)) {
            (Some(v), Some(d)) => Some(v * radix + d),
            _ => None,
        }
    }
}

/// Unsigned 16-bit number written in the radix, with an optional `+` sign,
/// as `u16::from_str_radix` reads it.
pub open spec fn parse_unsigned(s: Seq<char>, radix: int) -> Option<u16> {
    let digits = if s.len() > 0 && s[0] == '+' {
        s.drop_first()
    } else {
        s
    };
    if digits.len() == 0 {
        None
    } else {
        match digits_value(digits, radix) {
            Some(v) => if v <= 0xffff {
                Some(v as u16)
            } else {
                None
            },
            None => None,
        }
    }
}

/// The text without its leading `x`s.
pub open spec fn without_leading_x(s: Seq<char>) -> Seq<char>
    decreases s.len(),
{
    if s.len() > 0 && s[0] == 'x' {
        without_leading_x(s.drop_first())
    } else {
        s
    }
}

/// Tile value of a sequence item: hexadecimal when it holds an `x` or `X`
/// (after its leading `x`s), decimal otherwise; `None` when it cannot be
/// read or is not a tile value.
pub open spec fn sequence_value(raw: Seq<char>) -> Option<u16> {
    let parsed = if raw.contains('x') || raw.contains('X') {
        parse_unsigned(without_leading_x(raw), 16)
    } else {
        parse_unsigned(raw, 10)
    };
    match parsed {
        Some(v) => if v < MAX_TILE_VALUE {
            Some(v)
        } else {
            None
        },
        None => None,
    }
}

/// Tile values of the pieces of a line; `None` when one cannot be read.
pub open spec fn piece_values(pieces: Seq<Seq<char>>) -> Option<Seq<u16>>
    decreases pieces.len(),
{
    if pieces.len() == 0 {
        Some(Seq::empty())
    } else {
        match (piece_values(pieces.drop_last()), sequence_value(trim(pieces.last()))) {
            (Some(values), Some(v)) => Some(values.push(v)),
            _ => None,
        }
    }
}

/// The content of a line: its text before any `#`, trimmed.
pub open spec fn line_content(line: Seq<char>) -> Seq<char> {
    trim(line.take(comment_start(line)))
}

/// The sequences of the lines, with their line numbers (from 1): one per
/// line with content; `None` when a value cannot be read.
pub open spec fn parsed_lines(lines: Seq<Seq<char>>) -> Option<Seq<(usize, Seq<u16>)>>
    decreases lines.len(),
{
    if lines.len() == 0 {
        Some(Seq::empty())
    } else {
        match parsed_lines(lines.drop_last()) {
            None => None,
            Some(previous) => {
                let content = line_content(lines.last());
                if content.len() == 0 {
                    Some(previous)
                } else {
                    match piece_values(split_arrows(content)) {
                        Some(values) => Some(previous.push((lines.len() as usize, values))),
                        None => None,
                    }
                }
            },
        }
    }
}

/// Number of keys of the successor table: every 16-bit value.
pub const SUCCESSOR_TABLE_SIZE: usize = 0x10000;

/// Linking a tile value to the next one in a sequence: the link is recorded
/// when the value has no successor yet; a different successor already
/// recorded is a contradiction (`None`).
pub open spec fn link(next: Seq<Option<u16>>, previous: u16, value: u16) -> Option<Seq<Option<u16>>> {
    if next[previous as int] is None {
        Some(next.update(previous as int, Some(value)))
    } else if next[previous as int] != Some(value) {
        None
    } else {
        Some(next)
    }
}

/// Linking the consecutive values of a sequence, from the first `n` values.
pub open spec fn link_values(next: Seq<Option<u16>>, values: Seq<u16>, n: int) -> Option<
    Seq<Option<u16>>,
>
    decreases n,
{
    if n <= 1 {
        Some(next)
    } else {
        match link_values(next, values, n - 1) {
            Some(t) => link(t, values[n - 2], values[n - 1]),
            None => None,
        }
    }
}

/// Linking the sequences of the first `n` lines.
pub open spec fn link_lines(lines: Seq<(usize, Seq<u16>)>, n: int) -> Option<Seq<Option<u16>>>
    decreases n,
{
    if n <= 0 {
        Some(Seq::new(SUCCESSOR_TABLE_SIZE as nat, |i: int| None::<u16>))
    } else {
        match link_lines(lines, n - 1) {
            Some(t) => link_values(t, lines[n - 1].1, lines[n - 1].1.len() as int),
            None => None,
        }
    }
}

/// Next value of each tile value: its successor, or itself when it has none.
pub open spec fn sequences_of(next: Seq<Option<u16>>) -> Seq<u16> {
    Seq::new(
        MAX_TILE_VALUE as nat,
        |i: int|
            match next[i] {
                Some(v) => v,
                None => i as u16,
            },
    )
}

/// Once a link fails, linking more values fails too.
proof fn lemma_link_values_stuck(next: Seq<Option<u16>>, values: Seq<u16>, k: int, n: int)
    requires
        1 <= k <= n,
        link_values(next, values, k) is None,
    ensures
        link_values(next, values, n) is None,
    decreases n - k,
{
    if k < n {
        lemma_link_values_stuck(next, values, k, n - 1);
    }
}

/// Once a line fails, linking more lines fails too.
proof fn lemma_link_lines_stuck(lines: Seq<(usize, Seq<u16>)>, k: int, n: int)
    requires
        1 <= k <= n,
        link_lines(lines, k) is None,
    ensures
        link_lines(lines, n) is None,
    decreases n - k,
{
    if k < n {
        lemma_link_lines_stuck(lines, k, n - 1);
    }
}

/// Build the next-value table of the sequences of the lines.
pub fn load_sequences(parsed_lines: Vec<(usize, Vec<u16>)>) -> (r: Result<TileAnimatorSequences, String>)
    ensures
        ({
            let lines = parsed_lines@.map_values(|l: (usize, Vec<u16>)| (l.0, l.1@));
            match link_lines(lines, lines.len() as int) {
                Some(next) => r matches Ok(s) && s@ == sequences_of(next),
                None => r is Err,
            }
        }),
{
    let ghost lines = parsed_lines@.map_values(|l: (usize, Vec<u16>)| (l.0, l.1@));
    let mut next: Vec<Option<u16>> = Vec::new();
    let mut k: usize = 0;
    while k < SUCCESSOR_TABLE_SIZE
        invariant
            k <= SUCCESSOR_TABLE_SIZE,
            next@ == Seq::new(k as nat, |i: int| None::<u16>),
        decreases SUCCESSOR_TABLE_SIZE - k,
    {
        next.push(None);
        k = k + 1;
    }
    let mut line_index: usize = 0;
    while line_index < parsed_lines.len()
        invariant
            line_index <= parsed_lines@.len(),
            lines == parsed_lines@.map_values(|l: (usize, Vec<u16>)| (l.0, l.1@)),
            link_lines(lines, line_index as int) == Some(next@),
            next@.len() == SUCCESSOR_TABLE_SIZE,
        decreases parsed_lines@.len() - line_index,
    {
        let values = &parsed_lines[line_index].1;
        let ghost start = next@;
        let mut i: usize = 1;
        while i < values.len()
            invariant
                1 <= i,
                i <= values@.len() || i == 1,
                lines == parsed_lines@.map_values(|l: (usize, Vec<u16>)| (l.0, l.1@)),
                line_index < parsed_lines@.len(),
                values@ == lines[line_index as int].1,
                link_lines(lines, line_index as int) == Some(start),
                link_values(start, values@, i as int) == Some(next@),
                next@.len() == SUCCESSOR_TABLE_SIZE,
            decreases values@.len() - i,
        {
            let previous_value = values[i - 1];
            let tile_value = values[i];
            if next[previous_value as usize].is_none() {
                next.set(previous_value as usize, Some(tile_value));
            } else if next[previous_value as usize] != Some(tile_value) {
                proof {
                    lemma_link_values_stuck(start, values@, i + 1, values@.len() as int);
                    lemma_link_lines_stuck(lines, line_index + 1, lines.len() as int);
                }
                return Err(
                    String::from_str(
                        "map.animations.loader::load_sequences: impossible sequence, two 'next' tiles for one tile value",
                    ),
                );
            }
            i = i + 1;
        }
        proof {
            assert(lines[line_index as int].1 == values@);
            if values@.len() == 0 {
                assert(link_values(start, values@, 0) == Some(start));
                assert(link_values(start, values@, 1) == Some(start));
            }
            assert(link_lines(lines, line_index + 1) == link_values(start, values@, values@.len() as int));
        }
        line_index = line_index + 1;
    }
    let mut sequences: Vec<u16> = Vec::new();
    let mut sequence_index: usize = 0;
    while sequence_index < MAX_TILE_VALUE
        invariant
            sequence_index <= MAX_TILE_VALUE,
            next@.len() == SUCCESSOR_TABLE_SIZE,
            sequences@ == sequences_of(next@).take(sequence_index as int),
        decreases MAX_TILE_VALUE - sequence_index,
    {
        let value = match next[sequence_index] {
            Some(tile_value) => tile_value,
            None => sequence_index as u16,
        };
        sequences.push(value);
        proof {
            assert(sequences@ =~= sequences_of(next@).take(sequence_index + 1));
        }
        sequence_index = sequence_index + 1;
    }
    proof {
        assert(sequences@ =~= sequences_of(next@));
    }
    Ok(sequences)
}

/// Is the character white space?
pub(crate) fn is_white_space_char(c: char) -> (r: bool)
    ensures
        r == is_white_space(c),
{
    ('\u{9}' <= c && c <= '\u{d}') || c == ' ' || c == '\u{85}' || c == '\u{a0}' || c == '\u{1680}'
        || ('\u{2000}' <= c && c <= '\u{200a}') || c == '\u{2028}' || c == '\u{2029}' || c
        == '\u{202f}' || c == '\u{205f}' || c == '\u{3000}'
}

/// The characters `from..to` of the text.
fn sub_chars(s: &Vec<char>, from: usize, to: usize) -> (r: Vec<char>)
    requires
        from <= to <= s@.len(),
    ensures
        r@ == s@.subrange(from as int, to as int),
{
    let mut r: Vec<char> = Vec::new();
    let mut i = from;
    while i < to
        invariant
            from <= i <= to <= s@.len(),
            r@ == s@.subrange(from as int, i as int),
        decreases to - i,
    {
        r.push(s[i]);
        assert(r@ =~= s@.subrange(from as int, i + 1));
        i = i + 1;
    }
    r
}

/// The text without its leading and trailing white space.
fn trim_chars(s: &Vec<char>) -> (r: Vec<char>)
    ensures
        r@ == trim(s@),
{
    let n = s.len();
    let mut i: usize = 0;
    assert(s@.skip(0) =~= s@);
    while i < n && is_white_space_char(s[i])
        invariant
            i <= n == s@.len(),
            trim_start(s@) == trim_start(s@.skip(i as int)),
        decreases n - i,
    {
        assert(s@.skip(i as int).drop_first() =~= s@.skip(i + 1));
        i = i + 1;
    }
    assert(trim_start(s@.skip(i as int)) == s@.skip(i as int));
    let mut j: usize = n;
    while j > i && is_white_space_char(s[j - 1])
        invariant
            i <= j <= n == s@.len(),
            trim_start(s@) == s@.skip(i as int),
            trim_end(s@.skip(i as int)) == trim_end(s@.subrange(i as int, j as int)),
        decreases j - i,
    {
        assert(s@.subrange(i as int, j as int).drop_last() =~= s@.subrange(i as int, j - 1));
        j = j - 1;
    }
    assert(s@.skip(i as int) =~= s@.subrange(i as int, n as int));
    sub_chars(s, i, j)
}

/// Index of the first `#` of the text (its length when there is none).
fn find_comment_start(s: &Vec<char>) -> (r: usize)
    ensures
        r == comment_start(s@),
        r <= s@.len(),
{
    let mut i: usize = 0;
    assert(s@.skip(0) =~= s@);
    while i < s.len() && s[i] != '#'
        invariant
            i <= s@.len(),
            comment_start(s@) == i + comment_start(s@.skip(i as int)),
        decreases s@.len() - i,
    {
        assert(s@.skip(i as int).drop_first() =~= s@.skip(i + 1));
        i = i + 1;
    }
    i
}

/// Arrow positions found so far are none: the first arrow of the rest from
/// `start` is the first arrow from `i`, shifted.
proof fn lemma_arrow_shift(s: Seq<char>, i: int)
    requires
        0 <= i < s.len(),
        !(i + 1 < s.len() && s[i] == '-' && s[i + 1] == '>'),
    ensures
        arrow_index(s.skip(i)) == match arrow_index(s.skip(i + 1)) {
            Some(k) => Some(k + 1),
            None => if s.skip(i).len() < 2 {
                None::<int>
            } else {
                None::<int>
            },
        },
{
    assert(s.skip(i).drop_first() =~= s.skip(i + 1));
}

/// The pieces of the text between the `->` separators.
fn split_arrow_pieces(s: &Vec<char>) -> (r: Vec<Vec<char>>)
    ensures
        r@.map_values(|p: Vec<char>| p@) == split_arrows(s@),
{
    let mut pieces: Vec<Vec<char>> = Vec::new();
    let mut start: usize = 0;
    let mut i: usize = 0;
    assert(s@.skip(0) =~= s@);
    assert(pieces@.map_values(|p: Vec<char>| p@) + split_arrows(s@) =~= split_arrows(s@));
    while i < s.len()
        invariant
            start <= i <= s@.len(),
            split_arrows(s@) == pieces@.map_values(|p: Vec<char>| p@) + split_arrows(s@.skip(start as int)),
            match arrow_index(s@.skip(i as int)) {
                Some(k) => arrow_index(s@.skip(start as int)) == Some(k + (i - start)),
                None => arrow_index(s@.skip(start as int)) is None,
            },
        decreases s@.len() - i,
    {
        if i + 1 < s.len() && s[i] == '-' && s[i + 1] == '>' {
            let piece = sub_chars(s, start, i);
            proof {
                let rest = s@.skip(start as int);
                assert(arrow_index(s@.skip(i as int)) == Some(0int));
                assert(rest.take(i - start) =~= s@.subrange(start as int, i as int));
                assert(rest.skip(i - start + 2) =~= s@.skip(i + 2));
                assert(split_arrows(rest) == seq![rest.take(i - start)] + split_arrows(rest.skip(i - start + 2)));
            }
            let ghost before = pieces@.map_values(|p: Vec<char>| p@);
            pieces.push(piece);
            proof {
                assert(pieces@.map_values(|p: Vec<char>| p@) =~= before.push(s@.subrange(start as int, i as int)));
                assert(split_arrows(s@) =~= pieces@.map_values(|p: Vec<char>| p@) + split_arrows(s@.skip(i + 2)));
            }
            start = i + 2;
            i = i + 2;
        } else {
            proof {
                lemma_arrow_shift(s@, i as int);
            }
            i = i + 1;
        }
    }
    let last = sub_chars(s, start, s.len());
    proof {
        assert(s@.skip(start as int) =~= s@.subrange(start as int, s@.len() as int));
        assert(arrow_index(s@.skip(i as int)) is None);
        assert(split_arrows(s@.skip(start as int)) == seq![s@.skip(start as int)]);
    }
    let ghost before = pieces@.map_values(|p: Vec<char>| p@);
    pieces.push(last);
    proof {
        assert(pieces@.map_values(|p: Vec<char>| p@) =~= before.push(s@.skip(start as int)));
    }
    pieces
}

/// Does the text hold the character?
fn contains_char(s: &Vec<char>, c: char) -> (r: bool)
    ensures
        r == s@.contains(c),
{
    let mut i: usize = 0;
    while i < s.len()
        invariant
            i <= s@.len(),
            forall|k: int| 0 <= k < i ==> s@[k] != c,
        decreases s@.len() - i,
    {
        if s[i] == c {
            return true;
        }
        i = i + 1;
    }
    false
}

/// The text without its leading `x`s.
fn strip_leading_x(s: &Vec<char>) -> (r: Vec<char>)
    ensures
        r@ == without_leading_x(s@),
{
    let mut i: usize = 0;
    assert(s@.skip(0) =~= s@);
    while i < s.len() && s[i] == 'x'
        invariant
            i <= s@.len(),
            without_leading_x(s@) == without_leading_x(s@.skip(i as int)),
        decreases s@.len() - i,
    {
        assert(s@.skip(i as int).drop_first() =~= s@.skip(i + 1));
        i = i + 1;
    }
    assert(s@.skip(i as int) =~= s@.subrange(i as int, s@.len() as int));
    sub_chars(s, i, s.len())
}

/// Value of the digit in the radix.
fn digit_of(c: char, radix: u32) -> (r: Option<u32>)
    requires
        radix <= 36,
    ensures
        r matches Some(d) ==> digit_value(c, radix as int) == Some(d as int) && d < radix,
        r is None ==> digit_value(c, radix as int) is None,
{
    let v: u32 = if '0' <= c && c <= '9' {
        (c as u32) - ('0' as u32)
    } else if 'a' <= c && c <= 'z' {
        (c as u32) - ('a' as u32) + 10
    } else if 'A' <= c && c <= 'Z' {
        (c as u32) - ('A' as u32) + 10
    } else {
        99
    };
    if v < radix {
        Some(v)
    } else {
        None
    }
}

/// The value of a prefix of digits is at most that of the whole.
proof fn lemma_digits_grow(s: Seq<char>, radix: int, k: int)
    requires
        1 <= radix,
        0 <= k <= s.len(),
        digits_value(s, radix) is Some,
    ensures
        digits_value(s.take(k), radix) is Some,
        digits_value(s.take(k), radix).unwrap() <= digits_value(s, radix).unwrap(),
    decreases s.len() - k,
{
    if k < s.len() {
        assert(s.drop_last().len() == s.len() - 1);
        lemma_digits_grow(s.drop_last(), radix, k);
        lemma_digits_nonnegative(s.drop_last(), radix);
        assert(s.drop_last().take(k) =~= s.take(k));
        let v = digits_value(s.drop_last(), radix).unwrap();
        let d = digit_value(s.last(), radix).unwrap();
        assert(v <= v * radix + d) by (nonlinear_arith)
            requires
                v >= 0,
                d >= 0,
                radix >= 1,
        ;
    } else {
        assert(s.take(k) =~= s);
    }
}

/// The digits value is never negative.
proof fn lemma_digits_nonnegative(s: Seq<char>, radix: int)
    requires
        1 <= radix,
    ensures
        digits_value(s, radix) matches Some(v) ==> v >= 0,
    decreases s.len(),
{
    if s.len() > 0 {
        lemma_digits_nonnegative(s.drop_last(), radix);
        if let (Some(v), Some(d)) = (digits_value(s.drop_last(), radix), digit_value(s.last(), radix)) {
            assert(v * radix + d >= 0) by (nonlinear_arith)
                requires
                    v >= 0,
                    d >= 0,
                    radix >= 1,
            ;
        }
    }
}

/// Unsigned 16-bit number written in the radix, with an optional `+` sign.
fn parse_radix(s: &Vec<char>, radix: u32) -> (r: Option<u16>)
    requires
        2 <= radix <= 16,
    ensures
        r == parse_unsigned(s@, radix as int),
{
    let start: usize = if s.len() > 0 && s[0] == '+' {
        1
    } else {
        0
    };
    let ghost digits = if s@.len() > 0 && s@[0] == '+' {
        s@.drop_first()
    } else {
        s@
    };
    assert(digits =~= s@.skip(start as int));
    if start == s.len() {
        return None;
    }
    let mut value: u32 = 0;
    let mut i = start;
    assert(digits.take(0) =~= Seq::<char>::empty());
    while i < s.len()
        invariant
            start <= i <= s@.len(),
            2 <= radix <= 16,
            digits == s@.skip(start as int),
            digits == (if s@.len() > 0 && s@[0] == '+' {
                s@.drop_first()
            } else {
                s@
            }),
            digits.len() > 0,
            digits_value(digits.take(i - start), radix as int) == Some(value as int),
            value <= 0xffff,
        decreases s@.len() - i,
    {
        proof {
            assert(digits.take(i - start + 1).drop_last() =~= digits.take(i - start));
            assert(digits.take(i - start + 1).last() == s@[i as int]);
        }
        let d = match digit_of(s[i], radix) {
            Some(d) => d,
            None => {
                proof {
                    lemma_none_stays(digits, radix as int, i - start + 1);
                }
                return None;
            },
        };
        assert(value * radix + d <= 0x10000f) by (nonlinear_arith)
            requires
                value <= 0xffff,
                radix <= 16,
                d < radix,
        ;
        let next = value * radix + d;
        if next > 0xffff {
            proof {
                assert(digits_value(digits.take(i - start + 1), radix as int) == Some(next as int));
                if digits_value(digits, radix as int) is Some {
                    lemma_digits_grow(digits, radix as int, i - start + 1);
                }
            }
            return None;
        }
        value = next;
        i = i + 1;
    }
    assert(digits.take(i - start) =~= digits);
    Some(value as u16)
}

/// A prefix without a value makes the whole without a value.
proof fn lemma_none_stays(s: Seq<char>, radix: int, k: int)
    requires
        1 <= radix,
        0 <= k <= s.len(),
        digits_value(s.take(k), radix) is None,
    ensures
        digits_value(s, radix) is None,
{
    if digits_value(s, radix) is Some {
        lemma_digits_grow(s, radix, k);
    }
}

/// Read a tile value of a sequence: hexadecimal when it holds an `x` or `X`
/// (after its leading `x`s), decimal otherwise.
fn decode_sequence_value(raw: &Vec<char>) -> (r: Result<u16, String>)
    ensures
        sequence_value(raw@) matches Some(v) ==> r == Ok::<u16, String>(v),
        sequence_value(raw@) is None ==> r is Err,
{
    let hexadecimal = contains_char(raw, 'x') || contains_char(raw, 'X');
    // parsing
    let parsed = if hexadecimal {
        parse_radix(&strip_leading_x(raw), 16)
    } else {
        parse_radix(raw, 10)
    };
    match parsed {
        None => Err(
            String::from_str(
                "map.animations.loader::decode_sequence_value: cannot parse as unsigned integer",
            ),
        ),
        // sanity check
        Some(value) => if value as usize >= MAX_TILE_VALUE {
            Err(String::from_str("map.animations.loader::decode_sequence_value: value is too big"))
        } else {
            Ok(value)
        },
    }
}

/// Once a piece cannot be read, the line cannot be read.
proof fn lemma_piece_values_stuck(pieces: Seq<Seq<char>>, k: int)
    requires
        0 <= k <= pieces.len(),
        piece_values(pieces.take(k)) is None,
    ensures
        piece_values(pieces) is None,
    decreases pieces.len() - k,
{
    if k < pieces.len() {
        assert(pieces.drop_last().take(k) =~= pieces.take(k));
        lemma_piece_values_stuck(pieces.drop_last(), k);
    } else {
        assert(pieces.take(k) =~= pieces);
    }
}

/// Once a line cannot be read, the lines cannot be read.
proof fn lemma_parsed_lines_stuck(lines: Seq<Seq<char>>, k: int)
    requires
        0 <= k <= lines.len(),
        parsed_lines(lines.take(k)) is None,
    ensures
        parsed_lines(lines) is None,
    decreases lines.len() - k,
{
    if k < lines.len() {
        assert(lines.drop_last().take(k) =~= lines.take(k));
        lemma_parsed_lines_stuck(lines.drop_last(), k);
    } else {
        assert(lines.take(k) =~= lines);
    }
}

/// Tile values of the `->`-separated pieces of a line's content.
fn load_values(content: &Vec<char>) -> (r: Result<Vec<u16>, String>)
    ensures
        piece_values(split_arrows(content@)) matches Some(v) ==> r matches Ok(values) && values@ == v,
        piece_values(split_arrows(content@)) is None ==> r is Err,
{
    let pieces = split_arrow_pieces(content);
    let ghost views = pieces@.map_values(|p: Vec<char>| p@);
    let mut values: Vec<u16> = Vec::new();
    let mut k: usize = 0;
    assert(views.take(0) =~= Seq::<Seq<char>>::empty());
    while k < pieces.len()
        invariant
            k <= pieces@.len(),
            views == pieces@.map_values(|p: Vec<char>| p@),
            views == split_arrows(content@),
            piece_values(views.take(k as int)) == Some(values@),
        decreases pieces@.len() - k,
    {
        let piece = trim_chars(&pieces[k]);
        proof {
            assert(views.take(k + 1).drop_last() =~= views.take(k as int));
            assert(views.take(k + 1).last() == pieces@[k as int]@);
        }
        let value = match decode_sequence_value(&piece) {
            Ok(v) => v,
            Err(e) => {
                proof {
                    lemma_piece_values_stuck(views, k + 1);
                }
                return Err(e);
            },
        };
        values.push(value);
        k = k + 1;
    }
    assert(views.take(k as int) =~= views);
    Ok(values)
}

/// Read the sequences of the lines: the text of each line after any `#` is
/// a comment; a line with content lists tile values separated by `->`.
pub fn load_lines(lines: &Vec<String>) -> (r: Result<Vec<(usize, Vec<u16>)>, String>)
    ensures
        ({
            let texts = lines@.map_values(|l: String| l@);
            &&& parsed_lines(texts) matches Some(p) ==> r matches Ok(parsed) && parsed@.map_values(
                |l: (usize, Vec<u16>)| (l.0, l.1@),
            ) == p
            &&& parsed_lines(texts) is None ==> r is Err
        }),
{
    let ghost texts = lines@.map_values(|l: String| l@);
    let mut parsed_lines_found: Vec<(usize, Vec<u16>)> = Vec::new();
    let mut line_number: usize = 0;
    assert(texts.take(0) =~= Seq::<Seq<char>>::empty());
    while line_number < lines.len()
        invariant
            line_number <= lines@.len(),
            texts == lines@.map_values(|l: String| l@),
            parsed_lines(texts.take(line_number as int)) == Some(
                parsed_lines_found@.map_values(|l: (usize, Vec<u16>)| (l.0, l.1@)),
            ),
        decreases lines@.len() - line_number,
    {
        let chars = chars_of(lines[line_number].as_str());
        let cut = find_comment_start(&chars);
        let before = sub_chars(&chars, 0, cut);
        let content = trim_chars(&before);
        proof {
            let t = texts.take(line_number + 1);
            assert(t.drop_last() =~= texts.take(line_number as int));
            assert(t.last() == chars@);
            assert(chars@.subrange(0, cut as int) =~= chars@.take(cut as int));
        }
        line_number = line_number + 1;
        if content.len() > 0 {
            let values = match load_values(&content) {
                Ok(v) => v,
                Err(e) => {
                    proof {
                        lemma_parsed_lines_stuck(texts, line_number as int);
                    }
                    return Err(e);
                },
            };
            let ghost before_push = parsed_lines_found@.map_values(|l: (usize, Vec<u16>)| (l.0, l.1@));
            parsed_lines_found.push((line_number, values));
            proof {
                assert(parsed_lines_found@.map_values(|l: (usize, Vec<u16>)| (l.0, l.1@)) =~= before_push.push(
                    (line_number, values@),
                ));
            }
        }
    }
    assert(texts.take(line_number as int) =~= texts);
    Ok(parsed_lines_found)
}

/// The characters of the text.
pub fn chars_of(s: &str) -> (r: Vec<char>)
    ensures
        r@ == s@,
{
    let mut r: Vec<char> = Vec::new();
    for c in it: s.chars()
        invariant
            r@ == it.seq().take(it.index() as int),
            it.seq() == s@,
    {
        r.push(c);
    }
    r
}

} // verus!
