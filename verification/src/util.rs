//! Lists of names, and the wording of messages.

use vstd::prelude::*;
use vstd::string::StringExecFns;
use crate::text::str_eq;

verus! {

/// The texts of a vector of strings.
pub open spec fn texts(items: Seq<String>) -> Seq<Seq<char>> {
    Seq::new(items.len(), |i: int| items[i]@)
}

/// The texts of a vector that has grown by one string.
pub proof fn lemma_texts_push(items: Seq<String>, last: String)
    ensures
        texts(items.push(last)) == texts(items).push(last@),
{
    assert(texts(items.push(last)) =~= texts(items).push(last@));
}

/// The items of a list joined by `separator`.
pub open spec fn joined(items: Seq<Seq<char>>, separator: Seq<char>) -> Seq<char>
    decreases items.len(),
{
    if items.len() == 0 {
        Seq::empty()
    } else if items.len() == 1 {
        items[0]
    } else {
        joined(items.drop_last(), separator) + separator + items.last()
    }
}

/// A bulleted list: a line break and `* ` before the first item and
/// between any two.
pub open spec fn bullet_list(items: Seq<Seq<char>>) -> Seq<char> {
    "\n* "@ + joined(items, "\n* "@)
}

/// Whether `piece` stands somewhere in `text`, in one piece.
pub open spec fn occurs(text: Seq<char>, piece: Seq<char>) -> bool {
    exists|at: int| occurs_at(text, piece, at)
}

/// Whether `piece` stands in `text` at the position `at`.
pub open spec fn occurs_at(text: Seq<char>, piece: Seq<char>, at: int) -> bool {
    0 <= at && at + piece.len() <= text.len() && text.subrange(at, at + piece.len()) == piece
}

/// What stands in a text still stands in it when more text is put before
/// and after it.
pub proof fn lemma_occurs_within(
    before: Seq<char>,
    text: Seq<char>,
    after: Seq<char>,
    piece: Seq<char>,
)
    requires
        occurs(text, piece),
    ensures
        occurs(before + text + after, piece),
{
    let at = choose|at: int| occurs_at(text, piece, at);
    let whole = before + text + after;
    assert(whole.subrange(before.len() + at, before.len() + at + piece.len()) =~= text.subrange(
        at,
        at + piece.len(),
    ));
    assert(occurs_at(whole, piece, before.len() + at));
}

/// A bulleted list names every one of its items, each after a bullet of
/// its own.
pub proof fn lemma_bullet_list_names_every_item(items: Seq<Seq<char>>, i: int)
    requires
        0 <= i < items.len(),
    ensures
        occurs(bullet_list(items), "\n* "@ + items[i]),
    decreases items.len(),
{
    let bullet = "\n* "@;
    let piece = bullet + items[i];
    let list = bullet_list(items);
    if items.len() == 1 {
        assert(list =~= piece);
        assert(list.subrange(0, piece.len() as int) =~= piece);
        assert(occurs_at(list, piece, 0));
    } else {
        let front = items.drop_last();
        assert(list =~= bullet_list(front) + bullet + items.last());
        if i == items.len() - 1 {
            let at = bullet_list(front).len() as int;
            assert(list.subrange(at, at + piece.len()) =~= piece);
            assert(occurs_at(list, piece, at));
        } else {
            lemma_bullet_list_names_every_item(front, i);
            assert(front[i] == items[i]);
            lemma_occurs_within(Seq::empty(), bullet_list(front), bullet + items.last(), piece);
            assert(Seq::<char>::empty() + bullet_list(front) + (bullet + items.last()) =~= list);
        }
    }
}

/// Joins `items` with `separator` between any two of them.
pub fn join(items: &Vec<String>, separator: &str) -> (r: String)
    ensures
        r@ == joined(texts(items@), separator@),
{
    let mut r = String::new();
    let mut i: usize = 0;
    while i < items.len()
        invariant
            i <= items.len(),
            r@ == joined(texts(items@).take(i as int), separator@),
        decreases items.len() - i,
    {
        proof {
            let all = texts(items@);
            let next = all.take(i + 1);
            assert(next.drop_last() =~= all.take(i as int));
            assert(next.last() == items@[i as int]@);
            if i > 0 {
                assert(joined(next, separator@) == joined(next.drop_last(), separator@)
                    + separator@ + next.last());
            } else {
                assert(joined(next, separator@) == next[0]);
                assert(joined(all.take(0), separator@) =~= Seq::<char>::empty());
            }
        }
        if i > 0 {
            r.append(separator);
        }
        r.append(items[i].as_str());
        assert(r@ =~= joined(texts(items@).take(i + 1), separator@));
        i += 1;
    }
    assert(texts(items@).take(items.len() as int) =~= texts(items@));
    r
}

/// Renders `items` as a bulleted list, one item to a line.
pub fn format_list(items: &Vec<String>) -> (r: String)
    ensures
        r@ == bullet_list(texts(items@)),
{
    let body = join(items, "\n* ");
    String::from_str("\n* ").concat(body.as_str())
}

/// The text of a multi-line message: without its trailing white space,
/// after a line break if more than one line is left, else after a space.
pub open spec fn multiline(text: Seq<char>) -> Seq<char> {
    let body = crate::text::trimmed_end(text);
    if crate::text::has_char(body, '\n') {
        "\n"@ + body
    } else {
        " "@ + body
    }
}

/// Lays out `text` for the end of a log line: on the same line if it is a
/// single line, below it otherwise.
pub fn format_multiline(text: &str) -> (r: String)
    ensures
        r@ == multiline(text@),
{
    let body = text.trim_end();
    let chars = crate::text::to_chars(body);
    let at: usize = crate::text::find_from(&chars, '\n', 0);
    proof {
        crate::text::lemma_first_at(chars@, '\n', 0);
    }
    if at < chars.len() {
        String::from_str("\n").concat(body)
    } else {
        String::from_str(" ").concat(body)
    }
}

/// A copy of a list of strings.
pub fn copy_list(items: &Vec<String>) -> (r: Vec<String>)
    ensures
        texts(r@) == texts(items@),
{
    let mut r: Vec<String> = Vec::new();
    let mut i: usize = 0;
    while i < items.len()
        invariant
            i <= items.len(),
            texts(r@) == texts(items@).take(i as int),
        decreases items.len() - i,
    {
        proof {
            lemma_texts_push(r@, items@[i as int]);
        }
        r.push(items[i].clone());
        assert(texts(r@) =~= texts(items@).take(i + 1));
        i += 1;
    }
    assert(texts(items@).take(items.len() as int) =~= texts(items@));
    r
}

/// Whether `name` is among `names`.
pub open spec fn is_among(names: Seq<Seq<char>>, name: Seq<char>) -> bool {
    exists|i: int| 0 <= i < names.len() && names[i] == name
}

/// Whether `name` is one of `names`.
pub fn contains(names: &Vec<String>, name: &str) -> (r: bool)
    ensures
        r == is_among(texts(names@), name@),
{
    let mut i: usize = 0;
    while i < names.len()
        invariant
            i <= names.len(),
            forall|k: int| 0 <= k < i ==> texts(names@)[k] != name@,
        decreases names.len() - i,
    {
        if str_eq(names[i].as_str(), name) {
            assert(texts(names@)[i as int] == name@);
            return true;
        }
        i += 1;
    }
    false
}

/// The names of a list without repetitions: each name where it comes
/// first.
pub open spec fn without_repeats(names: Seq<Seq<char>>) -> Seq<Seq<char>>
    decreases names.len(),
{
    if names.len() == 0 {
        Seq::empty()
    } else if is_among(without_repeats(names.drop_last()), names.last()) {
        without_repeats(names.drop_last())
    } else {
        without_repeats(names.drop_last()).push(names.last())
    }
}

/// The names as they were given, each only once.
pub fn unique(names: &Vec<String>) -> (r: Vec<String>)
    ensures
        texts(r@) == without_repeats(texts(names@)),
{
    let ghost all = texts(names@);
    let mut found: Vec<String> = Vec::new();
    let mut i: usize = 0;
    while i < names.len()
        invariant
            i <= names.len(),
            all == texts(names@),
            texts(found@) == without_repeats(all.take(i as int)),
        decreases names.len() - i,
    {
        proof {
            assert(all.take(i + 1).drop_last() =~= all.take(i as int));
            assert(all.take(i + 1).last() == names@[i as int]@);
        }
        if !contains(&found, names[i].as_str()) {
            proof {
                lemma_texts_push(found@, names@[i as int]);
            }
            found.push(names[i].clone());
        }
        i += 1;
    }
    assert(all.take(names.len() as int) =~= all);
    found
}

/// The items that are not among `known`, in their order.
pub open spec fn unknown_among(known: Seq<Seq<char>>, names: Seq<Seq<char>>) -> Seq<Seq<char>>
    decreases names.len(),
{
    if names.len() == 0 {
        Seq::empty()
    } else if is_among(known, names.last()) {
        unknown_among(known, names.drop_last())
    } else {
        unknown_among(known, names.drop_last()).push(names.last())
    }
}

/// The names that are not among `known`, in the order in which they were
/// given.
pub fn unknown_names(known: &Vec<String>, names: &Vec<String>) -> (r: Vec<String>)
    ensures
        texts(r@) == unknown_among(texts(known@), texts(names@)),
{
    let ghost all = texts(names@);
    let mut found: Vec<String> = Vec::new();
    let mut i: usize = 0;
    while i < names.len()
        invariant
            i <= names.len(),
            all == texts(names@),
            texts(found@) == unknown_among(texts(known@), all.take(i as int)),
        decreases names.len() - i,
    {
        proof {
            assert(all.take(i + 1).drop_last() =~= all.take(i as int));
            assert(all.take(i + 1).last() == names@[i as int]@);
        }
        if !contains(known, names[i].as_str()) {
            proof {
                lemma_texts_push(found@, names@[i as int]);
            }
            found.push(names[i].clone());
        }
        i += 1;
    }
    assert(all.take(names.len() as int) =~= all);
    found
}

/// What an answer to a yes-or-no question says, if it says either: `y`
/// or `yes`, `n` or `no`, with any white space around it.
pub open spec fn answer_of(answer: Seq<char>) -> Option<bool> {
    let word = crate::text::trimmed(answer);
    if word == "y"@ || word == "yes"@ {
        Some(true)
    } else if word == "n"@ || word == "no"@ {
        Some(false)
    } else {
        None
    }
}

/// Reads the answer to a yes-or-no question. Anything that is neither has
/// the question asked again.
pub fn parse_answer(answer: &str) -> (r: Option<bool>)
    ensures
        r == answer_of(answer@),
{
    let word = answer.trim();
    if str_eq(word, "y") || str_eq(word, "yes") {
        Some(true)
    } else if str_eq(word, "n") || str_eq(word, "no") {
        Some(false)
    } else {
        None
    }
}

/// An error message as a sentence: with a full stop, unless it has one or
/// runs over several lines.
pub open spec fn sentence_of(message: Seq<char>) -> Seq<char> {
    if crate::text::has_char(message, '\n') || (message.len() > 0 && message.last() == '.') {
        message
    } else {
        message + "."@
    }
}

/// Ends an error message with a full stop where it wants one.
pub fn sentence(message: &str) -> (r: String)
    ensures
        r@ == sentence_of(message@),
{
    let chars = crate::text::to_chars(message);
    let at: usize = crate::text::find_from(&chars, '\n', 0);
    proof {
        crate::text::lemma_first_at(chars@, '\n', 0);
    }
    if at < chars.len() || (chars.len() > 0 && chars[chars.len() - 1] == '.') {
        String::from_str(message)
    } else {
        String::from_str(message).concat(".")
    }
}

} // verus!
