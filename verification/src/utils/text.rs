//! Texts: numbers in base ten, prefixes, the search for a character, and
//! words quoted for a shell.

use vstd::prelude::*;
use vstd::string::*;

verus! {

/// The character that writes the digit `d` in base ten.
pub open spec fn digit_char(d: int) -> char {
    if d == 0 {
        '0'
    } else if d == 1 {
        '1'
    } else if d == 2 {
        '2'
    } else if d == 3 {
        '3'
    } else if d == 4 {
        '4'
    } else if d == 5 {
        '5'
    } else if d == 6 {
        '6'
    } else if d == 7 {
        '7'
    } else if d == 8 {
        '8'
    } else {
        '9'
    }
}

/// The digits of `n` in base ten, most significant first, without leading zeros.
pub open spec fn decimal_text(n: nat) -> Seq<char>
    decreases n,
{
    if n < 10 {
        seq![digit_char(n as int)]
    } else {
        decimal_text(n / 10) + seq![digit_char((n % 10) as int)]
    }
}

fn digit_str(d: u64) -> (r: &'static str)
    requires
        d < 10,
    ensures
        r@ == seq![digit_char(d as int)],
{
    proof {
        reveal_strlit("0");
        reveal_strlit("1");
        reveal_strlit("2");
        reveal_strlit("3");
        reveal_strlit("4");
        reveal_strlit("5");
        reveal_strlit("6");
        reveal_strlit("7");
        reveal_strlit("8");
        reveal_strlit("9");
    }
    let r: &'static str = if d == 0 {
        "0"
    } else if d == 1 {
        "1"
    } else if d == 2 {
        "2"
    } else if d == 3 {
        "3"
    } else if d == 4 {
        "4"
    } else if d == 5 {
        "5"
    } else if d == 6 {
        "6"
    } else if d == 7 {
        "7"
    } else if d == 8 {
        "8"
    } else {
        "9"
    };
    assert(r@ =~= seq![digit_char(d as int)]);
    r
}

/// Writes `n` in base ten.
pub fn decimal(n: u64) -> (r: String)
    ensures
        r@ == decimal_text(n as nat),
    decreases n,
{
    if n < 10 {
        String::from_str(digit_str(n))
    } else {
        let mut r: String = decimal(n / 10);
        r.append(digit_str(n % 10));
        r
    }
}

/// The characters of `text`, in order.
pub fn chars_of(text: &str) -> (r: Vec<char>)
    ensures
        r@ == text@,
{
    broadcast use vstd::string::group_string_axioms;

    let mut r: Vec<char> = Vec::new();
    for c in it: text.chars()
        invariant
            it.seq() == text@,
            r@ == it.seq().take(it.index() as int),
    {
        r.push(c);
    }
    r
}

/// The texts of `strings`, in order.
pub open spec fn texts(strings: Seq<String>) -> Seq<Seq<char>> {
    Seq::new(strings.len(), |i: int| strings[i]@)
}

/// The text of an optional string, if there is one.
pub open spec fn optional_text(value: Option<String>) -> Option<Seq<char>> {
    match value {
        Some(text) => Some(text@),
        None => None,
    }
}

/// `text` begins with `lead`.
pub open spec fn begins_with(text: Seq<char>, lead: Seq<char>) -> bool {
    lead.len() <= text.len() && text.take(lead.len() as int) == lead
}

/// The index of the first `mark` in `text`, if there is one.
pub open spec fn first_index_of(text: Seq<char>, mark: char) -> Option<int>
    decreases text.len(),
{
    if text.len() == 0 {
        None
    } else if text.first() == mark {
        Some(0)
    } else {
        match first_index_of(text.drop_first(), mark) {
            Some(at) => Some(at + 1),
            None => None,
        }
    }
}

/// `first_index_of` finds a `mark` with no `mark` before it, and finds none
/// only where there is none.
pub proof fn lemma_first_index_of(text: Seq<char>, mark: char)
    ensures
        match first_index_of(text, mark) {
            Some(at) => 0 <= at < text.len() && text[at] == mark && forall|j: int|
                0 <= j < at ==> text[j] != mark,
            None => forall|j: int| 0 <= j < text.len() ==> text[j] != mark,
        },
    decreases text.len(),
{
    if text.len() > 0 && text.first() != mark {
        let rest = text.drop_first();
        lemma_first_index_of(rest, mark);
        assert forall|j: int| 0 <= j < rest.len() implies #[trigger] rest[j] == text[j + 1] by {}
        match first_index_of(rest, mark) {
            Some(at) => {
                assert forall|j: int| 0 <= j < at + 1 implies text[j] != mark by {
                    if j > 0 {
                        assert(rest[j - 1] != mark);
                    }
                }
            },
            None => {
                assert forall|j: int| 0 <= j < text.len() implies text[j] != mark by {
                    if j > 0 {
                        assert(rest[j - 1] != mark);
                    }
                }
            },
        }
    }
}

/// A `mark` with no `mark` before it is the one that `first_index_of` finds.
pub proof fn lemma_first_index_at(text: Seq<char>, mark: char, at: int)
    requires
        0 <= at < text.len(),
        text[at] == mark,
        forall|j: int| 0 <= j < at ==> text[j] != mark,
    ensures
        first_index_of(text, mark) == Some(at),
{
    lemma_first_index_of(text, mark);
}

/// The index of the last `mark` in `text`, if there is one.
pub open spec fn last_index_of(text: Seq<char>, mark: char) -> Option<int>
    decreases text.len(),
{
    if text.len() == 0 {
        None
    } else if text.last() == mark {
        Some(text.len() - 1)
    } else {
        last_index_of(text.drop_last(), mark)
    }
}

/// `last_index_of` finds a `mark` with no `mark` behind it, and finds none
/// only where there is none.
pub proof fn lemma_last_index_of(text: Seq<char>, mark: char)
    ensures
        match last_index_of(text, mark) {
            Some(at) => 0 <= at < text.len() && text[at] == mark && forall|j: int|
                at < j < text.len() ==> text[j] != mark,
            None => forall|j: int| 0 <= j < text.len() ==> text[j] != mark,
        },
    decreases text.len(),
{
    if text.len() > 0 && text.last() != mark {
        let before = text.drop_last();
        lemma_last_index_of(before, mark);
        assert forall|j: int| 0 <= j < before.len() implies #[trigger] text[j] == before[j] by {}
        match last_index_of(before, mark) {
            Some(at) => {
                assert forall|j: int| at < j < text.len() implies text[j] != mark by {
                    if j < before.len() {
                        assert(before[j] != mark);
                    }
                }
            },
            None => {
                assert forall|j: int| 0 <= j < text.len() implies text[j] != mark by {
                    if j < before.len() {
                        assert(before[j] != mark);
                    }
                }
            },
        }
    }
}

/// A `mark` with no `mark` behind it is the one that `last_index_of` finds.
pub proof fn lemma_last_index_at(text: Seq<char>, mark: char, at: int)
    requires
        0 <= at < text.len(),
        text[at] == mark,
        forall|j: int| at < j < text.len() ==> text[j] != mark,
    ensures
        last_index_of(text, mark) == Some(at),
{
    lemma_last_index_of(text, mark);
}

/// Tells whether `text` begins with `lead`.
pub fn starts_with(text: &Vec<char>, lead: &Vec<char>) -> (r: bool)
    ensures
        r == begins_with(text@, lead@),
{
    if lead.len() > text.len() {
        return false;
    }
    let mut i: usize = 0;
    while i < lead.len()
        invariant
            i <= lead.len() <= text.len(),
            text@.take(i as int) == lead@.take(i as int),
        decreases lead.len() - i,
    {
        if text[i] != lead[i] {
            proof {
                assert(text@.take(lead.len() as int)[i as int] != lead@[i as int]);
            }
            return false;
        }
        proof {
            assert(text@.take(i + 1) =~= text@.take(i as int).push(text@[i as int]));
            assert(lead@.take(i + 1) =~= lead@.take(i as int).push(lead@[i as int]));
        }
        i += 1;
    }
    proof {
        assert(lead@.take(i as int) =~= lead@);
    }
    true
}

/// Finds the first `mark` in `text` from index `from` on, and gives its index
/// counted from `from`.
pub fn find_first(text: &Vec<char>, from: usize, mark: char) -> (r: Option<usize>)
    requires
        from <= text.len(),
    ensures
        match r {
            Some(at) => first_index_of(text@.skip(from as int), mark) == Some(at as int),
            None => first_index_of(text@.skip(from as int), mark) is None,
        },
{
    let ghost rest = text@.skip(from as int);
    let mut i: usize = from;
    while i < text.len()
        invariant
            from <= i <= text.len(),
            rest == text@.skip(from as int),
            forall|j: int| 0 <= j < i - from ==> rest[j] != mark,
        decreases text.len() - i,
    {
        if text[i] == mark {
            proof {
                lemma_first_index_at(rest, mark, i - from);
            }
            return Some(i - from);
        }
        i += 1;
    }
    proof {
        lemma_first_index_of(rest, mark);
    }
    None
}

/// Finds the last `mark` in `text` from index `from` on, and gives its index
/// counted from `from`.
pub fn find_last(text: &Vec<char>, from: usize, mark: char) -> (r: Option<usize>)
    requires
        from <= text.len(),
    ensures
        match r {
            Some(at) => last_index_of(text@.skip(from as int), mark) == Some(at as int),
            None => last_index_of(text@.skip(from as int), mark) is None,
        },
{
    let ghost rest = text@.skip(from as int);
    let mut i: usize = text.len();
    proof {
        assert(rest.take(i - from) =~= rest);
    }
    while i > from
        invariant
            from <= i <= text.len(),
            rest == text@.skip(from as int),
            last_index_of(rest, mark) == last_index_of(rest.take(i - from), mark),
        decreases i,
    {
        proof {
            assert(rest.take(i - from).last() == text@[i - 1]);
            assert(rest.take(i - from).drop_last() =~= rest.take(i - 1 - from));
        }
        if text[i - 1] == mark {
            return Some(i - 1 - from);
        }
        i -= 1;
    }
    None
}

/// What stands for one character between single quotes: the character
/// itself, but for a single quote the four characters `'\''`, which close
/// the quotes, write a quote and open them again.
pub open spec fn quote_piece(c: char) -> Seq<char> {
    if c == '\'' {
        "'\\''"@
    } else {
        seq![c]
    }
}

/// The characters of `text`, each as it stands between single quotes.
pub open spec fn quote_escaped(text: Seq<char>) -> Seq<char>
    decreases text.len(),
{
    if text.len() == 0 {
        Seq::empty()
    } else {
        quote_piece(text.first()) + quote_escaped(text.drop_first())
    }
}

/// `text` as one word of a shell command line: between single quotes, with
/// its own single quotes written as `'\''`.
pub open spec fn shell_quoted_text(text: Seq<char>) -> Seq<char> {
    "'"@ + quote_escaped(text) + "'"@
}

/// What a shell reads from `word` outside quotes, as far as quoted words go:
/// a single quote opens a quoted run, a backslash gives the character behind
/// it, and the end of the word ends the reading. Any other character is not
/// read.
pub open spec fn shell_reads(word: Seq<char>) -> Option<Seq<char>>
    decreases word.len(), 1int,
{
    if word.len() == 0 {
        Some(Seq::empty())
    } else if word.first() == '\'' {
        shell_reads_quoted(word.drop_first())
    } else if word.first() == '\\' && word.len() >= 2 {
        match shell_reads(word.skip(2)) {
            Some(rest) => Some(seq![word[1]] + rest),
            None => None,
        }
    } else {
        None
    }
}

/// What a shell reads from `word` inside single quotes: every character as
/// it stands, up to the single quote that closes the run. A run that is not
/// closed is not read.
pub open spec fn shell_reads_quoted(word: Seq<char>) -> Option<Seq<char>>
    decreases word.len(), 0int,
{
    if word.len() == 0 {
        None
    } else if word.first() == '\'' {
        shell_reads(word.drop_first())
    } else {
        match shell_reads_quoted(word.drop_first()) {
            Some(rest) => Some(seq![word.first()] + rest),
            None => None,
        }
    }
}

/// One more character at the end of a text adds its piece at the end.
pub proof fn lemma_quote_escaped_push(text: Seq<char>, c: char)
    ensures
        quote_escaped(text.push(c)) == quote_escaped(text) + quote_piece(c),
    decreases text.len(),
{
    if text.len() == 0 {
        let one = text.push(c);
        assert(one.first() == c);
        assert(one.drop_first() =~= Seq::<char>::empty());
        assert(quote_escaped(Seq::<char>::empty()) =~= Seq::<char>::empty());
        assert(quote_escaped(one) =~= quote_piece(c));
        assert(quote_escaped(text) + quote_piece(c) =~= quote_piece(c));
    } else {
        lemma_quote_escaped_push(text.drop_first(), c);
        assert(text.push(c).drop_first() =~= text.drop_first().push(c));
        assert(quote_escaped(text.push(c)) =~= quote_escaped(text) + quote_piece(c));
    }
}

/// Inside single quotes a shell reads the escaped text back, and then goes
/// on behind the closing quote.
proof fn lemma_shell_reads_escaped(text: Seq<char>)
    ensures
        shell_reads_quoted(quote_escaped(text) + "'"@) == Some(text),
    decreases text.len(),
{
    reveal_strlit("'");
    reveal_strlit("'\\''");
    let word = quote_escaped(text) + "'"@;
    if text.len() == 0 {
        assert(word =~= "'"@);
        assert(word.drop_first() =~= Seq::<char>::empty());
        assert(shell_reads(word.drop_first()) == Some(Seq::<char>::empty()));
    } else {
        let rest = text.drop_first();
        let tail = quote_escaped(rest) + "'"@;
        lemma_shell_reads_escaped(rest);
        if text.first() == '\'' {
            assert(word =~= "'\\''"@ + tail);
            let after_close = word.drop_first();
            assert(after_close.first() == '\\');
            assert(after_close[1] == '\'');
            assert(after_close.skip(2) =~= "'"@ + tail);
            let reopened = after_close.skip(2);
            assert(reopened.first() == '\'');
            assert(reopened.drop_first() =~= tail);
            assert(shell_reads(reopened) == Some(rest));
            assert(shell_reads(after_close) == Some(seq!['\''] + rest));
            assert(seq!['\''] + rest =~= text);
        } else {
            assert(word =~= seq![text.first()] + tail);
            assert(word.drop_first() =~= tail);
            assert(seq![text.first()] + rest =~= text);
        }
    }
}

/// A shell reads a quoted text back unchanged, whatever characters it
/// holds.
pub proof fn law_shell_reads_quoted_text_back(text: Seq<char>)
    ensures
        shell_reads(shell_quoted_text(text)) == Some(text),
{
    reveal_strlit("'");
    lemma_shell_reads_escaped(text);
    let word = shell_quoted_text(text);
    assert(word.first() == '\'');
    assert(word.drop_first() =~= quote_escaped(text) + "'"@);
}

/// Writes `text` as one word of a shell command line.
pub fn shell_quoted(text: &str) -> (r: String)
    ensures
        r@ == shell_quoted_text(text@),
{
    let chars: Vec<char> = chars_of(text);
    let mut r: String = String::from_str("'");
    let mut i: usize = 0;
    while i < chars.len()
        invariant
            i <= chars.len(),
            chars@ == text@,
            r@ == "'"@ + quote_escaped(text@.take(i as int)),
        decreases chars.len() - i,
    {
        proof {
            lemma_quote_escaped_push(text@.take(i as int), text@[i as int]);
            assert(text@.take(i + 1) =~= text@.take(i as int).push(text@[i as int]));
            assert(text@.subrange(i as int, i + 1) =~= seq![text@[i as int]]);
        }
        if chars[i] == '\'' {
            r.append("'\\''");
        } else {
            r.append(text.substring_char(i, i + 1));
        }
        i += 1;
    }
    proof {
        assert(text@.take(i as int) =~= text@);
    }
    r.append("'");
    r
}

} // verus!
