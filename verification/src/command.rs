//! The commands that a node takes from its operator, one per line of text.

use vstd::prelude::*;
use vstd::string::StrSliceExecFns;
use vstd::string::StringExecFns;

verus! {

/// What a line of text asks of the node.
#[derive(Debug, PartialEq, Eq)]
pub enum Command {
    /// Append a block. The text that follows the keyword is carried along,
    /// without the white space around it.
    AddBlock(String),
    /// List the peers that are known.
    ListPeers,
    /// List the blocks of the local chain.
    ListBlockchain,
    /// Anything else.
    Unknown,
}

/// The keyword that asks for a block: `Add Block`.
pub open spec fn add_block_keyword() -> Seq<char> {
    seq!['A', 'd', 'd', ' ', 'B', 'l', 'o', 'c', 'k']
}

/// The keyword that asks for the peers: `List Peers`.
pub open spec fn list_peers_keyword() -> Seq<char> {
    seq!['L', 'i', 's', 't', ' ', 'P', 'e', 'e', 'r', 's']
}

/// The keyword that asks for the chain: `List Blockchain`.
pub open spec fn list_blockchain_keyword() -> Seq<char> {
    seq!['L', 'i', 's', 't', ' ', 'B', 'l', 'o', 'c', 'k', 'c', 'h', 'a', 'i', 'n']
}

/// `c` is white space: one of the characters that Unicode marks as
/// White_Space.
pub open spec fn is_white_space(c: char) -> bool {
    let code = c as int;
    ||| 0x09 <= code <= 0x0d
    ||| code == 0x20
    ||| code == 0x85
    ||| code == 0xa0
    ||| code == 0x1680
    ||| 0x2000 <= code <= 0x200a
    ||| code == 0x2028
    ||| code == 0x2029
    ||| code == 0x202f
    ||| code == 0x205f
    ||| code == 0x3000
}

/// `text` without the white space at its start.
pub open spec fn trimmed_start(text: Seq<char>) -> Seq<char>
    decreases text.len(),
{
    if text.len() > 0 && is_white_space(text.first()) {
        trimmed_start(text.drop_first())
    } else {
        text
    }
}

/// `text` without the white space at its end.
pub open spec fn trimmed_end(text: Seq<char>) -> Seq<char>
    decreases text.len(),
{
    if text.len() > 0 && is_white_space(text.last()) {
        trimmed_end(text.drop_last())
    } else {
        text
    }
}

/// `text` without the white space at its two ends.
pub open spec fn trimmed(text: Seq<char>) -> Seq<char> {
    trimmed_end(trimmed_start(text))
}

/// Where the white space at the start of `text` ends.
proof fn lemma_trimmed_start(text: Seq<char>) -> (start: int)
    ensures
        0 <= start <= text.len(),
        trimmed_start(text) == text.skip(start),
        forall|i: int| 0 <= i < start ==> is_white_space(#[trigger] text[i]),
        start < text.len() ==> !is_white_space(text[start]),
    decreases text.len(),
{
    if text.len() > 0 && is_white_space(text.first()) {
        let rest = text.drop_first();
        let start = lemma_trimmed_start(rest);
        assert(rest.skip(start) =~= text.skip(start + 1));
        assert forall|i: int| 0 <= i < start + 1 implies is_white_space(#[trigger] text[i]) by {
            if i > 0 {
                assert(text[i] == rest[i - 1]);
            }
        }
        start + 1
    } else {
        assert(text.skip(0) =~= text);
        0
    }
}

/// Where the white space at the end of `text` begins.
proof fn lemma_trimmed_end(text: Seq<char>) -> (end: int)
    ensures
        0 <= end <= text.len(),
        trimmed_end(text) == text.take(end),
        forall|i: int| end <= i < text.len() ==> is_white_space(#[trigger] text[i]),
        0 < end ==> !is_white_space(text[end - 1]),
    decreases text.len(),
{
    if text.len() > 0 && is_white_space(text.last()) {
        let rest = text.drop_last();
        let end = lemma_trimmed_end(rest);
        assert(rest.take(end) =~= text.take(end));
        assert forall|i: int| end <= i < text.len() implies is_white_space(#[trigger] text[i]) by {
            if i < rest.len() {
                assert(text[i] == rest[i]);
            }
        }
        end
    } else {
        assert(text.take(text.len() as int) =~= text);
        text.len() as int
    }
}

/// Trimming cuts white space and nothing else: what is left is the stretch
/// of `text` between two positions, all before it and all behind it is white
/// space, and it neither begins nor ends with white space.
pub proof fn law_trimming_cuts_white_space_only(text: Seq<char>) -> (cut: (int, int))
    ensures
        0 <= cut.0 <= cut.1 <= text.len(),
        trimmed(text) == text.subrange(cut.0, cut.1),
        forall|i: int| 0 <= i < cut.0 ==> is_white_space(#[trigger] text[i]),
        forall|i: int| cut.1 <= i < text.len() ==> is_white_space(#[trigger] text[i]),
        cut.0 < cut.1 ==> !is_white_space(text[cut.0]) && !is_white_space(text[cut.1 - 1]),
{
    let start = lemma_trimmed_start(text);
    let rest = text.skip(start);
    let kept = lemma_trimmed_end(rest);
    let end = start + kept;
    assert(rest.take(kept) =~= text.subrange(start, end));
    assert forall|i: int| end <= i < text.len() implies is_white_space(#[trigger] text[i]) by {
        assert(text[i] == rest[i - start]);
    }
    if start < end {
        assert(rest[kept - 1] == text[end - 1]);
    }
    (start, end)
}

/// Whether `c` is white space.
pub fn white_space(c: char) -> (white: bool)
    ensures
        white == is_white_space(c),
{
    let code: u32 = c as u32;
    (0x09 <= code && code <= 0x0d) || code == 0x20 || code == 0x85 || code == 0xa0 || code
        == 0x1680 || (0x2000 <= code && code <= 0x200a) || code == 0x2028 || code == 0x2029
        || code == 0x202f || code == 0x205f || code == 0x3000
}

/// Cuts the white space from the two ends of `text`.
pub fn trim(text: &str) -> (rest: &str)
    ensures
        rest@ == trimmed(text@),
{
    let len = text.unicode_len();
    let mut start: usize = 0;
    proof {
        assert(text@.skip(0) =~= text@);
    }
    while start < len && white_space(text.get_char(start))
        invariant
            start <= len,
            len == text@.len(),
            trimmed_start(text@) == trimmed_start(text@.skip(start as int)),
        decreases len - start,
    {
        proof {
            assert(text@.skip(start as int).drop_first() =~= text@.skip(start + 1));
        }
        start = start + 1;
    }
    let mut end: usize = len;
    proof {
        assert(text@.subrange(start as int, len as int) =~= text@.skip(start as int));
    }
    while end > start && white_space(text.get_char(end - 1))
        invariant
            start <= end <= len,
            len == text@.len(),
            trimmed_end(text@.skip(start as int)) == trimmed_end(
                text@.subrange(start as int, end as int),
            ),
        decreases end,
    {
        proof {
            assert(text@.subrange(start as int, end as int).drop_last() =~= text@.subrange(
                start as int,
                end - 1,
            ));
        }
        end = end - 1;
    }
    text.substring_char(start, end)
}

/// The text that follows the keyword for appending a block, trimmed.
pub open spec fn payload_of(line: Seq<char>) -> Seq<char> {
    trimmed(line.skip(add_block_keyword().len() as int))
}

/// Whether `text` begins with `keyword`.
fn begins_with(text: &str, keyword: &str) -> (begins: bool)
    ensures
        begins == keyword@.is_prefix_of(text@),
{
    let len = keyword.unicode_len();
    if text.unicode_len() < len {
        return false;
    }
    let mut i: usize = 0;
    while i < len
        invariant
            i <= len,
            len == keyword@.len(),
            len <= text@.len(),
            forall|j: int| 0 <= j < i ==> text@[j] == keyword@[j],
        decreases len - i,
    {
        if text.get_char(i) != keyword.get_char(i) {
            return false;
        }
        i = i + 1;
    }
    true
}

/// Reads one line of text as a command. The keywords are tried in the order
/// `Add Block`, `List Peers`, `List Blockchain`, each at the very start of
/// the line.
pub fn parse_command(line: &str) -> (command: Command)
    ensures
        match command {
            Command::AddBlock(payload) => {
                &&& add_block_keyword().is_prefix_of(line@)
                &&& payload@ == payload_of(line@)
            },
            Command::ListPeers => {
                &&& !add_block_keyword().is_prefix_of(line@)
                &&& list_peers_keyword().is_prefix_of(line@)
            },
            Command::ListBlockchain => {
                &&& !add_block_keyword().is_prefix_of(line@)
                &&& !list_peers_keyword().is_prefix_of(line@)
                &&& list_blockchain_keyword().is_prefix_of(line@)
            },
            Command::Unknown => {
                &&& !add_block_keyword().is_prefix_of(line@)
                &&& !list_peers_keyword().is_prefix_of(line@)
                &&& !list_blockchain_keyword().is_prefix_of(line@)
            },
        },
{
    proof {
        reveal_strlit("Add Block");
        reveal_strlit("List Peers");
        reveal_strlit("List Blockchain");
        assert("Add Block"@ =~= add_block_keyword());
        assert("List Peers"@ =~= list_peers_keyword());
        assert("List Blockchain"@ =~= list_blockchain_keyword());
    }
    if begins_with(line, "Add Block") {
        let rest = line.substring_char(9, line.unicode_len());
        Command::AddBlock(String::from_str(trim(rest)))
    } else if begins_with(line, "List Peers") {
        Command::ListPeers
    } else if begins_with(line, "List Blockchain") {
        Command::ListBlockchain
    } else {
        Command::Unknown
    }
}

/// What a line of text asks of the block inspector.
#[derive(Clone, Copy, Debug, PartialEq, Eq, Structural)]
pub enum Inspection {
    /// Leave the inspector.
    Exit,
    /// Show the block at this position, which the chain has.
    Show(usize),
    /// Neither the word `exit` nor the position of a block.
    Invalid,
}

/// The value of the decimal digit `c`; `None` where `c` is no digit.
pub open spec fn digit_of(c: char) -> Option<nat> {
    if '0' as int <= c as int <= '9' as int {
        Some((c as int - '0' as int) as nat)
    } else {
        None
    }
}

/// Every character of `text` is a decimal digit.
pub open spec fn all_digits(text: Seq<char>) -> bool {
    forall|i: int| 0 <= i < text.len() ==> digit_of(#[trigger] text[i]) is Some
}

/// The number that the decimal digits `digits` write.
pub open spec fn decimal_value(digits: Seq<char>) -> nat
    decreases digits.len(),
{
    if digits.len() == 0 {
        0
    } else {
        decimal_value(digits.drop_last()) * 10 + digit_of(digits.last())->0
    }
}

/// `text` without the plus sign that may stand in front of a number.
pub open spec fn unsigned_part(text: Seq<char>) -> Seq<char> {
    if text.len() > 0 && text[0] == '+' {
        text.skip(1)
    } else {
        text
    }
}

/// The position that `text` writes: decimal digits, at least one, with or
/// without a plus sign in front, whose value fits a `usize`. Anything else
/// writes none.
pub open spec fn index_of(text: Seq<char>) -> Option<usize> {
    let digits = unsigned_part(text);
    if digits.len() > 0 && all_digits(digits) && decimal_value(digits) <= usize::MAX {
        Some(decimal_value(digits) as usize)
    } else {
        None
    }
}

/// The number written by the first `k` digits is no greater than the number
/// written by all of them.
proof fn lemma_value_grows(digits: Seq<char>, k: int)
    requires
        0 <= k <= digits.len(),
    ensures
        decimal_value(digits.take(k)) <= decimal_value(digits),
    decreases digits.len(),
{
    if k == digits.len() {
        assert(digits.take(k) =~= digits);
    } else {
        lemma_value_grows(digits.drop_last(), k);
        assert(digits.drop_last().take(k) =~= digits.take(k));
    }
}

/// The value of one decimal digit.
fn digit(c: char) -> (value: Option<usize>)
    ensures
        match value {
            Some(d) => digit_of(c) == Some(d as nat),
            None => digit_of(c) is None,
        },
{
    let code: u32 = c as u32;
    if 48 <= code && code <= 57 {
        Some((code - 48) as usize)
    } else {
        None
    }
}

/// Reads `text` as a position.
pub fn parse_index(text: &str) -> (index: Option<usize>)
    ensures
        index == index_of(text@),
{
    let len = text.unicode_len();
    let start: usize = if len > 0 && text.get_char(0) == '+' {
        1
    } else {
        0
    };
    if start == len {
        return None;
    }
    let ghost digits = unsigned_part(text@);
    let mut value: usize = 0;
    let mut i: usize = start;
    while i < len
        invariant
            start <= i <= len,
            len == text@.len(),
            digits == text@.skip(start as int),
            digits == unsigned_part(text@),
            all_digits(digits.take(i - start)),
            value == decimal_value(digits.take(i - start)),
        decreases len - i,
    {
        let ghost read = digits.take(i - start + 1);
        proof {
            assert(read.drop_last() =~= digits.take(i - start));
            lemma_value_grows(digits, i - start + 1);
        }
        let d = match digit(text.get_char(i)) {
            Some(d) => d,
            None => {
                return None;
            },
        };
        let tens = match value.checked_mul(10) {
            Some(tens) => tens,
            None => {
                return None;
            },
        };
        value = match tens.checked_add(d) {
            Some(sum) => sum,
            None => {
                return None;
            },
        };
        i = i + 1;
    }
    proof {
        assert(digits.take(i - start) =~= digits);
    }
    Some(value)
}

/// `word` is `exit`, in capitals or small letters.
pub open spec fn is_exit_word(word: Seq<char>) -> bool {
    &&& word.len() == 4
    &&& (word[0] == 'e' || word[0] == 'E')
    &&& (word[1] == 'x' || word[1] == 'X')
    &&& (word[2] == 'i' || word[2] == 'I')
    &&& (word[3] == 't' || word[3] == 'T')
}

/// What a position, if one was read, selects in a chain of `len` blocks.
pub open spec fn selection_of(index: Option<usize>, len: nat) -> Inspection {
    match index {
        Some(i) => if i < len {
            Inspection::Show(i)
        } else {
            Inspection::Invalid
        },
        None => Inspection::Invalid,
    }
}

/// What `word` asks of the inspector of a chain of `len` blocks.
pub open spec fn inspection_of(word: Seq<char>, len: nat) -> Inspection {
    if is_exit_word(word) {
        Inspection::Exit
    } else {
        selection_of(index_of(word), len)
    }
}

/// Whether `word` is `exit`, in capitals or small letters.
fn is_exit(word: &str) -> (exit: bool)
    ensures
        exit == is_exit_word(word@),
{
    if word.unicode_len() != 4 {
        return false;
    }
    let e = word.get_char(0);
    let x = word.get_char(1);
    let i = word.get_char(2);
    let t = word.get_char(3);
    (e == 'e' || e == 'E') && (x == 'x' || x == 'X') && (i == 'i' || i == 'I')
        && (t == 't' || t == 'T')
}

/// Selects the block at `index` in a chain of `len` blocks, if there is one.
pub fn select_block(index: Option<usize>, len: usize) -> (inspection: Inspection)
    ensures
        inspection == selection_of(index, len as nat),
{
    match index {
        Some(i) => if i < len {
            Inspection::Show(i)
        } else {
            Inspection::Invalid
        },
        None => Inspection::Invalid,
    }
}

/// Reads `word` as a request to the inspector of a chain of `len` blocks:
/// `exit` leaves, the position of a block shows it.
pub fn inspect(word: &str, len: usize) -> (inspection: Inspection)
    ensures
        inspection == inspection_of(word@, len as nat),
{
    if is_exit(word) {
        Inspection::Exit
    } else {
        select_block(parse_index(word), len)
    }
}

/// Reads one line of text as a request to the inspector of a chain of `len`
/// blocks. White space around the request does not count.
pub fn parse_inspection(line: &str, len: usize) -> (inspection: Inspection)
    ensures
        inspection == inspection_of(trimmed(line@), len as nat),
{
    inspect(trim(line), len)
}

} // verus!
