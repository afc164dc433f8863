//! Small operations on text that the rest of the library is built from.
use vstd::prelude::*;
use vstd::string::*;

verus! {

/// The decimal digits of `n`, most significant first.
pub open spec fn decimal(n: nat) -> Seq<char>
    decreases n,
{
    if n < 10 {
        seq![digit(n)]
    } else {
        decimal(n / 10).push(digit(n % 10))
    }
}

/// The character that writes a value below ten.
pub open spec fn digit(d: nat) -> char {
    if d == 0 {
        '0'
    } else if d == 1 {
        '1'
    } else if d == 2 {
        '2'
    } else if d == 3 {
        '3'
    } else if d == 4 {
        '4'
    } else if d == 5 {
        '5'
    } else if d == 6 {
        '6'
    } else if d == 7 {
        '7'
    } else if d == 8 {
        '8'
    } else {
        '9'
    }
}

fn digit_text(d: usize) -> (text: &'static str)
    requires
        d < 10,
    ensures
        text@ == seq![digit(d as nat)],
{
    let text = if d == 0 {
        "0"
    } else if d == 1 {
        "1"
    } else if d == 2 {
        "2"
    } else if d == 3 {
        "3"
    } else if d == 4 {
        "4"
    } else if d == 5 {
        "5"
    } else if d == 6 {
        "6"
    } else if d == 7 {
        "7"
    } else if d == 8 {
        "8"
    } else {
        "9"
    };
    proof {
        reveal_strlit("0");
        reveal_strlit("1");
        reveal_strlit("2");
        reveal_strlit("3");
        reveal_strlit("4");
        reveal_strlit("5");
        reveal_strlit("6");
        reveal_strlit("7");
        reveal_strlit("8");
        reveal_strlit("9");
        assert(text@ =~= seq![digit(d as nat)]);
    }
    text
}

/// Writes `n` in decimal.
pub fn decimal_text(n: usize) -> (text: String)
    ensures
        text@ == decimal(n as nat),
    decreases n,
{
    if n < 10 {
        digit_text(n).to_string()
    } else {
        let mut text = decimal_text(n / 10);
        text.append(digit_text(n % 10));
        assert(text@ =~= decimal(n as nat));
        text
    }
}

/// The two texts, one after the other.
pub fn join(first: &str, second: &str) -> (text: String)
    ensures
        text@ == first@ + second@,
{
    let mut text = String::from_str(first);
    text.append(second);
    text
}

/// Whether the two texts hold the same characters.
pub fn same_text(first: &str, second: &str) -> (same: bool)
    ensures
        same == (first@ == second@),
{
    let a = first.to_string();
    let b = second.to_string();
    a == b
}

/// The characters of a text, one by one.
pub fn chars_of(text: &str) -> (chars: Vec<char>)
    ensures
        chars@ == text@,
{
    let mut chars: Vec<char> = Vec::new();
    for c in it: text.chars()
        invariant
            it.seq() == text@,
            chars@ == text@.take(it.index()),
    {
        chars.push(c);
        assert(text@.take(it.index() + 1) =~= text@.take(it.index()).push(c));
    }
    assert(text@.take(text@.len() as int) =~= text@);
    chars
}

/// `String::push` of std: puts one character behind the text.
#[verifier::external_body]
fn push_char(text: &mut String, c: char)
    ensures
        final(text)@ == old(text)@.push(c),
{
    text.push(c)
}

/// The text that is made of the given characters.
pub fn text_of(chars: &Vec<char>) -> (text: String)
    ensures
        text@ == chars@,
{
    let mut text = String::new();
    let mut i: usize = 0;
    while i < chars.len()
        invariant
            i <= chars.len(),
            text@ == chars@.take(i as int),
        decreases chars.len() - i,
    {
        push_char(&mut text, chars[i]);
        assert(chars@.take(i + 1) =~= chars@.take(i as int).push(chars@[i as int]));
        i += 1;
    }
    assert(chars@.take(chars@.len() as int) =~= chars@);
    text
}

/// What the texts hold, in order.
pub open spec fn texts(items: Seq<String>) -> Seq<Seq<char>> {
    Seq::new(items.len(), |i: int| items[i]@)
}

/// A second sequence of the same texts.
pub fn copy_texts(items: &Vec<String>) -> (copy: Vec<String>)
    ensures
        texts(copy@) == texts(items@),
{
    let mut copy: Vec<String> = Vec::new();
    let mut i: usize = 0;
    while i < items.len()
        invariant
            i <= items.len(),
            copy@.len() == i,
            forall|j: int| 0 <= j < i ==> (#[trigger] copy@[j])@ == items@[j]@,
        decreases items.len() - i,
    {
        copy.push(items[i].clone());
        i += 1;
    }
    assert(texts(copy@) =~= texts(items@));
    copy
}

/// How one character stands inside a quoted string: a quotation mark and a
/// backslash each behind a backslash, any other character as it is.
pub open spec fn escape(c: char) -> Seq<char> {
    if c == '"' {
        seq!['\\', '"']
    } else if c == '\\' {
        seq!['\\', '\\']
    } else {
        seq![c]
    }
}

/// Every character of the text as it stands inside a quoted string.
pub open spec fn escaped(text: Seq<char>) -> Seq<char>
    decreases text.len(),
{
    if text.len() == 0 {
        Seq::empty()
    } else {
        escaped(text.drop_last()) + escape(text.last())
    }
}

/// The text as a quoted string: between quotation marks, with the quotation
/// marks and backslashes inside it escaped.
pub open spec fn quoted(text: Seq<char>) -> Seq<char> {
    seq!['"'] + escaped(text) + seq!['"']
}

/// Writes a text as a quoted string.
pub fn quote(text: &str) -> (out: String)
    ensures
        out@ == quoted(text@),
{
    let chars = chars_of(text);
    let mut out = String::new();
    push_char(&mut out, '"');
    let mut i: usize = 0;
    assert(chars@.take(0) =~= Seq::empty());
    assert(out@ =~= seq!['"'] + escaped(chars@.take(0)));
    while i < chars.len()
        invariant
            i <= chars.len(),
            out@ == seq!['"'] + escaped(chars@.take(i as int)),
        decreases chars.len() - i,
    {
        let c = chars[i];
        let ghost before = out@;
        if c == '"' || c == '\\' {
            push_char(&mut out, '\\');
        }
        push_char(&mut out, c);
        proof {
            let prefix = chars@.take(i + 1);
            assert(prefix.drop_last() =~= chars@.take(i as int));
            assert(prefix.last() == c);
            assert(out@ =~= before + escape(c));
            assert(out@ =~= seq!['"'] + escaped(prefix));
        }
        i += 1;
    }
    assert(chars@.take(chars@.len() as int) =~= chars@);
    push_char(&mut out, '"');
    assert(out@ =~= quoted(text@));
    out
}

/// The position of the first `stop` in the text, or the length of the text
/// where it holds none.
pub open spec fn first_index(text: Seq<char>, stop: char) -> int
    decreases text.len(),
{
    if text.len() == 0 || text[0] == stop {
        0
    } else {
        1 + first_index(text.drop_first(), stop)
    }
}

/// `first_index` is the one position before which no `stop` stands and at
/// which the text ends or a `stop` stands.
pub proof fn lemma_first_index(text: Seq<char>, stop: char, at: int)
    requires
        0 <= at <= text.len(),
        forall|j: int| 0 <= j < at ==> text[j] != stop,
        at == text.len() || text[at] == stop,
    ensures
        first_index(text, stop) == at,
    decreases text.len(),
{
    if at > 0 {
        let rest = text.drop_first();
        assert forall|j: int| 0 <= j < at - 1 implies rest[j] != stop by {
            assert(rest[j] == text[j + 1]);
        }
        lemma_first_index(rest, stop, at - 1);
    }
}

/// The part of the text before its first `stop`; all of it where it holds
/// none.
pub open spec fn before(text: Seq<char>, stop: char) -> Seq<char> {
    text.take(first_index(text, stop))
}

/// Cuts a text off at its first `stop`.
pub fn cut_before(text: &str, stop: char) -> (head: String)
    ensures
        head@ == before(text@, stop),
{
    let chars = chars_of(text);
    let mut head = String::new();
    let mut i: usize = 0;
    assert(chars@.take(0) =~= Seq::empty());
    while i < chars.len() && chars[i] != stop
        invariant
            i <= chars.len(),
            head@ == chars@.take(i as int),
            forall|j: int| 0 <= j < i ==> chars@[j] != stop,
        decreases chars.len() - i,
    {
        push_char(&mut head, chars[i]);
        assert(chars@.take(i + 1) =~= chars@.take(i as int).push(chars@[i as int]));
        i += 1;
    }
    proof {
        lemma_first_index(chars@, stop, i as int);
    }
    head
}

/// The text with every occurrence of `pattern` exchanged for `with`. The
/// occurrences are looked for from the left, each behind the one before it,
/// so that no two of them overlap. An empty pattern occurs nowhere.
pub open spec fn replaced(text: Seq<char>, pattern: Seq<char>, with: Seq<char>) -> Seq<char>
    decreases text.len(),
{
    if pattern.len() == 0 || text.len() < pattern.len() {
        text
    } else if text.take(pattern.len() as int) == pattern {
        with + replaced(text.skip(pattern.len() as int), pattern, with)
    } else {
        seq![text[0]] + replaced(text.skip(1), pattern, with)
    }
}

fn stands_at(text: &Vec<char>, at: usize, pattern: &Vec<char>) -> (stands: bool)
    requires
        at + pattern.len() <= text.len(),
    ensures
        stands == (text@.subrange(at as int, at + pattern.len()) == pattern@),
{
    let mut i: usize = 0;
    while i < pattern.len()
        invariant
            i <= pattern.len(),
            at + pattern.len() <= text.len(),
            forall|j: int| 0 <= j < i ==> text@[at + j] == pattern@[j],
        decreases pattern.len() - i,
    {
        if text[at + i] != pattern[i] {
            assert(text@.subrange(at as int, at + pattern.len())[i as int] != pattern@[i as int]);
            return false;
        }
        i += 1;
    }
    assert(text@.subrange(at as int, at + pattern.len()) =~= pattern@);
    true
}

/// Exchanges every occurrence of `pattern` in `text` for `with`.
pub(crate) fn replace_all(text: &str, pattern: &str, with: &str) -> (out: String)
    requires
        pattern@.len() > 0,
    ensures
        out@ == replaced(text@, pattern@, with@),
{
    let source = chars_of(text);
    let sought = chars_of(pattern);
    let put = chars_of(with);
    let mut out: Vec<char> = Vec::new();
    let mut i: usize = 0;
    assert(source@.skip(0) =~= source@);
    assert(out@ + replaced(source@, sought@, put@) =~= replaced(source@, sought@, put@));
    while i < source.len()
        invariant
            i <= source.len(),
            sought@.len() > 0,
            replaced(source@, sought@, put@) == out@ + replaced(
                source@.skip(i as int),
                sought@,
                put@,
            ),
        decreases source.len() - i,
    {
        let ghost rest = source@.skip(i as int);
        let ghost before = out@;
        if source.len() - i >= sought.len() && stands_at(&source, i, &sought) {
            let mut j: usize = 0;
            while j < put.len()
                invariant
                    j <= put.len(),
                    out@ == before + put@.take(j as int),
                decreases put.len() - j,
            {
                out.push(put[j]);
                assert(put@.take(j + 1) =~= put@.take(j as int).push(put@[j as int]));
                j += 1;
            }
            proof {
                assert(put@.take(put@.len() as int) =~= put@);
                assert(rest.take(sought@.len() as int) =~= source@.subrange(
                    i as int,
                    i + sought@.len(),
                ));
                assert(rest.skip(sought@.len() as int) =~= source@.skip(i + sought@.len()));
                assert(before + (put@ + replaced(source@.skip(i + sought@.len()), sought@, put@))
                    =~= (before + put@) + replaced(source@.skip(i + sought@.len()), sought@, put@));
            }
            i += sought.len();
        } else {
            out.push(source[i]);
            proof {
                assert(rest[0] == source@[i as int]);
                assert(rest.skip(1) =~= source@.skip(i + 1));
                if rest.len() >= sought@.len() {
                    assert(rest.take(sought@.len() as int) =~= source@.subrange(
                        i as int,
                        i + sought@.len(),
                    ));
                } else {
                    lemma_replaced_short(rest.skip(1), sought@, put@);
                    assert(rest =~= seq![rest[0]] + rest.skip(1));
                }
                assert(before + (seq![rest[0]] + replaced(rest.skip(1), sought@, put@)) =~= (
                    before.push(rest[0])
                ) + replaced(rest.skip(1), sought@, put@));
            }
            i += 1;
        }
    }
    assert(source@.skip(i as int) =~= Seq::empty());
    assert(out@ + Seq::<char>::empty() =~= out@);
    text_of(&out)
}

/// A text that is shorter than the pattern holds no occurrence of it.
pub proof fn lemma_replaced_short(text: Seq<char>, pattern: Seq<char>, with: Seq<char>)
    requires
        text.len() < pattern.len(),
    ensures
        replaced(text, pattern, with) == text,
{
}

} // verus!
