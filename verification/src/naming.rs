//! Snake-case names, as used for the files that a page is saved under.

use vstd::prelude::*;

verus! {

/// Whether `char::is_uppercase` holds of a character: whether it has the
/// Unicode property `Uppercase`.
pub uninterp spec fn unicode_uppercase(c: char) -> bool;

/// The characters that `char::to_lowercase` yields for a character: its
/// lowercase mapping, which may be longer than one character.
pub uninterp spec fn unicode_lowercase(c: char) -> Seq<char>;

/// Calls `char::is_uppercase`.
///
/// Trusted: the answer is the one named [`unicode_uppercase`].
#[verifier::external_body]
fn is_uppercase(c: char) -> (upper: bool)
    ensures
        upper == unicode_uppercase(c),
{
    c.is_uppercase()
}

/// Calls `char::to_lowercase` and collects what it yields.
///
/// Trusted: the text is the mapping named [`unicode_lowercase`].
#[verifier::external_body]
fn to_lowercase(c: char) -> (lower: String)
    ensures
        lower@ == unicode_lowercase(c),
{
    c.to_lowercase().collect()
}

/// Calls `str::chars` and collects what it yields.
///
/// Trusted: the list holds the characters of the text, in order.
#[verifier::external_body]
fn characters(text: &str) -> (list: Vec<char>)
    ensures
        list@ == text@,
{
    text.chars().collect()
}

/// Calls `String::push`.
///
/// Trusted: the character is appended at the end.
#[verifier::external_body]
fn push_char(text: &mut String, c: char)
    ensures
        final(text)@ == old(text)@.push(c),
{
    text.push(c)
}

/// Is the character in the ASCII range?
pub open spec fn is_ascii_char(c: char) -> bool {
    (c as u32) < 128
}

/// What one character contributes to a snake-case name. An uppercase
/// character becomes lowercase, after an underscore unless it opens the
/// name: an ASCII one by the distance of 32 between the two cases, any other
/// by its Unicode mapping. Every other character stays as it is.
pub open spec fn snake_piece(c: char, opens: bool) -> Seq<char> {
    if unicode_uppercase(c) {
        let lower = if is_ascii_char(c) {
            seq![((c as u8) + 32) as char]
        } else {
            unicode_lowercase(c)
        };
        if opens {
            lower
        } else {
            seq!['_'] + lower
        }
    } else {
        seq![c]
    }
}

/// The snake-case form of a name: the pieces of its characters, in order.
pub open spec fn snake_case(name: Seq<char>) -> Seq<char>
    decreases name.len(),
{
    if name.len() == 0 {
        Seq::empty()
    } else {
        snake_case(name.drop_last()) + snake_piece(name.last(), name.len() == 1)
    }
}

fn in_ascii(c: char) -> (ascii: bool)
    ensures
        ascii == is_ascii_char(c),
{
    (c as u32) < 128
}

fn shifted(c: char) -> (lower: char)
    requires
        is_ascii_char(c),
    ensures
        lower == ((c as u8) + 32) as char,
{
    ((c as u8) + 32) as char
}

/// Texts that have a snake-case form.
pub trait ToSnakeCase {
    /// The characters of the text.
    spec fn characters(&self) -> Seq<char>;

    /// The text in snake case.
    fn to_snake_case(&self) -> (name: String)
        ensures
            name@ == snake_case(self.characters()),
    ;
}

impl ToSnakeCase for str {
    open spec fn characters(&self) -> Seq<char> {
        self@
    }

    fn to_snake_case(&self) -> (name: String) {
        let list = characters(self);
        let mut name = String::new();
        let mut i: usize = 0;
        assert(list@.take(0) == Seq::<char>::empty());
        while i < list.len()
            invariant
                i <= list.len(),
                list@ == self@,
                name@ == snake_case(list@.take(i as int)),
            decreases list.len() - i,
        {
            let c = list[i];
            let ghost prefix = list@.take(i as int + 1);
            assert(prefix.drop_last() == list@.take(i as int));
            assert(prefix.last() == c);
            if is_uppercase(c) {
                if i > 0 {
                    push_char(&mut name, '_');
                }
                if in_ascii(c) {
                    push_char(&mut name, shifted(c));
                } else {
                    let lower = to_lowercase(c);
                    name.append(lower.as_str());
                }
            } else {
                push_char(&mut name, c);
            }
            assert(name@ == snake_case(prefix));
            i += 1;
        }
        assert(list@.take(list.len() as int) == list@);
        name
    }
}

} // verus!
