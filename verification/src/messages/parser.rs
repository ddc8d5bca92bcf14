use vstd::prelude::*;
use vstd::string::{StrSliceExecFns, StringExecFns};

use crate::city::meta::{decimal, decimal_text};
use crate::map::animations::loader::{is_white_space_char, trim, trim_end, trim_start};

verus! {

/// Lines of a messages resource, kept in order.
pub type ParsedMessagesResource = Vec<String>;

/// The line with its leading and trailing white space removed.
fn trim_line(line: &String) -> (r: String)
    ensures
        r@ == trim(line@),
{
    let s = line.as_str();
    let n = s.unicode_len();
    let mut i: usize = 0;
    assert(s@.skip(0) =~= s@);
    while i < n && is_white_space_char(s.get_char(i))
        invariant
            i <= n == s@.len(),
            s@ == line@,
            trim_start(s@) == trim_start(s@.skip(i as int)),
        decreases n - i,
    {
        assert(s@.skip(i as int).drop_first() =~= s@.skip(i + 1));
        i = i + 1;
    }
    assert(trim_start(s@.skip(i as int)) == s@.skip(i as int));
    let mut j: usize = n;
    while j > i && is_white_space_char(s.get_char(j - 1))
        invariant
            i <= j <= n == s@.len(),
            s@ == line@,
            trim_start(s@) == s@.skip(i as int),
            trim_end(s@.skip(i as int)) == trim_end(s@.subrange(i as int, j as int)),
        decreases j - i,
    {
        assert(s@.subrange(i as int, j as int).drop_last() =~= s@.subrange(i as int, j - 1));
        j = j - 1;
    }
    assert(s@.skip(i as int) =~= s@.subrange(i as int, n as int));
    String::from_str(s.substring_char(i, j))
}

/// Is the trimmed line a message (neither empty nor a lone `x`)?
pub open spec fn is_message(text: Seq<char>) -> bool {
    trim(text).len() != 0 && trim(text) != seq!['x']
}

/// Messages of the lines: each non-empty line other than `x`, trimmed.
pub open spec fn kept_messages(lines: Seq<String>) -> Seq<Seq<char>>
    decreases lines.len(),
{
    if lines.len() == 0 {
        Seq::empty()
    } else {
        let previous = kept_messages(lines.drop_last());
        if is_message(lines.last()@) {
            previous.push(trim(lines.last()@))
        } else {
            previous
        }
    }
}

/// Read the messages of a resource, which must hold `messages_count` of them.
pub fn parse_messages_resource(messages_count: usize, lines: Vec<String>) -> (r: Result<
    ParsedMessagesResource,
    String,
>)
    ensures
        match r {
            Ok(parsed) => kept_messages(lines@).len() == messages_count && parsed@.map_values(
                |s: String| s@,
            ) == kept_messages(lines@),
            Err(message) => kept_messages(lines@).len() != messages_count && message@ == "expected "@
                + decimal(messages_count as nat) + " message items, found "@ + decimal(
                kept_messages(lines@).len(),
            ),
        },
{
    let mut parsed: ParsedMessagesResource = Vec::new();
    let x_line = String::from_str("x");
    proof {
        reveal_strlit("x");
    }
    let mut i: usize = 0;
    while i < lines.len()
        invariant
            i <= lines@.len(),
            x_line@ == seq!['x'],
            parsed@.map_values(|s: String| s@) == kept_messages(lines@.take(i as int)),
        decreases lines@.len() - i,
    {
        let trimmed_line = trim_line(&lines[i]);
        proof {
            assert(lines@.take(i + 1).drop_last() =~= lines@.take(i as int));
        }
        if !(trimmed_line.as_str().is_empty() || trimmed_line == x_line) {
            parsed.push(trimmed_line);
        }
        proof {
            assert(parsed@.map_values(|s: String| s@) =~= kept_messages(lines@.take(i + 1)));
        }
        i = i + 1;
    }
    proof {
        assert(lines@.take(lines@.len() as int) =~= lines@);
    }
    if parsed.len() == messages_count {
        Ok(parsed)
    } else {
        let mut message = String::from_str("expected ");
        message.append(decimal_text(messages_count).as_str());
        message.append(" message items, found ");
        message.append(decimal_text(parsed.len()).as_str());
        Err(message)
    }
}

} // verus!
