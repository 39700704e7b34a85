//! A one-line text input with a cursor.

use vstd::prelude::*;
use vstd::string::StrSliceExecFns;
use vstd::utf8::encode_scalar;
use vstd::utf8::encode_utf8;
use vstd::utf8::is_char_boundary;
use vstd::utf8::pop_first_scalar;
use vstd::utf8::valid_utf8;

verus! {

/// A text input as contracts see it. The cursor counts characters, not bytes.
pub ghost struct TextAreaView {
    pub content: Seq<char>,
    pub cursor: nat,
    pub title: Seq<char>,
}

impl TextAreaView {
    /// `index`, or the end of the text where `index` lies beyond it.
    pub open spec fn clamp_cursor(self, index: nat) -> nat {
        if index < self.content.len() {
            index
        } else {
            self.content.len()
        }
    }

    /// The cursor one character to the left, if there is one.
    pub open spec fn moved_left(self) -> TextAreaView {
        let target = if self.cursor > 0 {
            (self.cursor - 1) as nat
        } else {
            0
        };
        TextAreaView { cursor: self.clamp_cursor(target), ..self }
    }

    /// The cursor one character to the right, never beyond the end of the
    /// text.
    pub open spec fn moved_right(self) -> TextAreaView {
        let target = if self.cursor < usize::MAX {
            self.cursor + 1
        } else {
            self.cursor
        };
        TextAreaView { cursor: self.clamp_cursor(target), ..self }
    }

    /// The cursor at the start.
    pub open spec fn reset(self) -> TextAreaView {
        TextAreaView { cursor: 0, ..self }
    }

    /// The number of bytes that the characters before the cursor take.
    pub open spec fn byte_index(self) -> nat {
        encode_utf8(self.content.take(self.clamp_cursor(self.cursor) as int)).len()
    }

    /// `chr` put in at the cursor, and the cursor moved behind it.
    pub open spec fn entered(self, chr: char) -> TextAreaView {
        TextAreaView {
            content: self.content.insert(self.clamp_cursor(self.cursor) as int, chr),
            ..self
        }.moved_right()
    }

    /// The character before the cursor taken out, and the cursor moved to
    /// where it stood. With the cursor at the start nothing happens.
    pub open spec fn deleted(self) -> TextAreaView {
        if self.cursor == 0 {
            self
        } else if self.cursor <= self.content.len() {
            TextAreaView { content: self.content.remove(self.cursor - 1), ..self }.moved_left()
        } else {
            self.moved_left()
        }
    }

    /// No text, and the cursor at the start.
    pub open spec fn cleared(self) -> TextAreaView {
        TextAreaView { content: Seq::empty(), cursor: 0, ..self }
    }
}

/// A titled text input: its text and the cursor's place in it, counted in
/// characters.
pub struct TextArea {
    pub content: String,
    pub character_index: usize,
    pub title: String,
}

impl View for TextArea {
    type V = TextAreaView;

    open spec fn view(&self) -> TextAreaView {
        TextAreaView {
            content: self.content@,
            cursor: self.character_index as nat,
            title: self.title@,
        }
    }
}

/// `char::len_utf8`: the number of bytes of the character's UTF-8 encoding.
#[verifier::external_body]
fn len_utf8(chr: char) -> (len: usize)
    ensures
        len == encode_scalar(chr as u32).len(),
{
    chr.len_utf8()
}

/// `String::insert`: puts the character's UTF-8 bytes in at byte `idx`, which
/// has to lie on a character boundary of the string.
#[verifier::external_body]
fn string_insert(text: &mut String, idx: usize, chr: char)
    requires
        is_char_boundary(encode_utf8(old(text)@), idx as int),
    ensures
        encode_utf8(final(text)@) == encode_utf8(old(text)@).subrange(0, idx as int)
            + encode_scalar(chr as u32) + encode_utf8(old(text)@).subrange(
            idx as int,
            encode_utf8(old(text)@).len() as int,
        ),
{
    text.insert(idx, chr)
}

/// `String::push`: appends the character.
#[verifier::external_body]
fn string_push(text: &mut String, chr: char)
    ensures
        final(text)@ == old(text)@.push(chr),
{
    text.push(chr)
}

/// A text of one character is encoded as that character is.
proof fn lemma_encode_utf8_single(chr: char)
    ensures
        encode_utf8(seq![chr]) == encode_scalar(chr as u32),
{
    reveal_with_fuel(encode_utf8, 2);
}

/// The encoding of two texts in a row is the two encodings in a row.
proof fn lemma_encode_utf8_concat(first: Seq<char>, second: Seq<char>)
    ensures
        encode_utf8(first + second) == encode_utf8(first) + encode_utf8(second),
    decreases first.len(),
{
    if first.len() > 0 {
        lemma_encode_utf8_concat(first.drop_first(), second);
        assert((first + second).drop_first() =~= first.drop_first() + second);
    }
}

/// The encoding of a text splits, at the bytes of its first `count`
/// characters, into the encodings of the two parts.
proof fn lemma_encode_utf8_split(text: Seq<char>, count: int)
    requires
        0 <= count <= text.len(),
    ensures
        encode_utf8(text) == encode_utf8(text.take(count)) + encode_utf8(text.skip(count)),
        encode_utf8(text).subrange(0, encode_utf8(text.take(count)).len() as int) == encode_utf8(
            text.take(count),
        ),
        encode_utf8(text).subrange(
            encode_utf8(text.take(count)).len() as int,
            encode_utf8(text).len() as int,
        ) == encode_utf8(text.skip(count)),
{
    assert(text =~= text.take(count) + text.skip(count));
    lemma_encode_utf8_concat(text.take(count), text.skip(count));
}

/// The bytes of the first `count` characters end on a character boundary.
proof fn lemma_prefix_ends_on_char_boundary(text: Seq<char>, count: int)
    requires
        0 <= count <= text.len(),
    ensures
        is_char_boundary(encode_utf8(text), encode_utf8(text.take(count)).len() as int),
    decreases count,
{
    let bytes = encode_utf8(text);
    vstd::utf8::encode_utf8_valid_utf8(text);
    if count > 0 {
        // The boundary in the whole text lies one character further than
        // the boundary in the text without its first character.
        let rest = text.drop_first();
        vstd::utf8::encode_utf8_first_scalar(text);
        assert(pop_first_scalar(bytes) =~= encode_utf8(rest));
        assert(text.take(count).drop_first() =~= rest.take(count - 1));
        lemma_encode_utf8_split(text, count);
        lemma_prefix_ends_on_char_boundary(rest, count - 1);
    }
}

/// Two texts with the same encoding are the same text.
proof fn lemma_encode_utf8_injective(first: Seq<char>, second: Seq<char>)
    requires
        encode_utf8(first) == encode_utf8(second),
    ensures
        first == second,
{
    vstd::utf8::encode_utf8_decode_utf8(first);
    vstd::utf8::encode_utf8_decode_utf8(second);
}

impl TextArea {
    /// An empty input under the given title.
    pub fn new(title: String) -> (area: TextArea)
        ensures
            area@ == (TextAreaView { content: Seq::empty(), cursor: 0, title: title@ }),
    {
        TextArea { content: String::new(), character_index: 0, title }
    }

    /// `index`, or the end of the text where `index` lies beyond it.
    pub fn clamp_cursor(&self, index: usize) -> (clamped: usize)
        ensures
            clamped == self@.clamp_cursor(index as nat),
    {
        let count: usize = self.content.as_str().unicode_len();
        if index < count {
            index
        } else {
            count
        }
    }

    /// Moves the cursor one character to the left, if there is one.
    pub fn move_cursor_left(&mut self)
        ensures
            final(self)@ == old(self)@.moved_left(),
    {
        self.character_index = self.clamp_cursor(self.character_index.saturating_sub(1));
    }

    /// Moves the cursor one character to the right, never beyond the end of
    /// the text.
    pub fn move_cursor_right(&mut self)
        ensures
            final(self)@ == old(self)@.moved_right(),
    {
        self.character_index = self.clamp_cursor(self.character_index.saturating_add(1));
    }

    /// Puts the cursor at the start.
    pub fn reset_cursor(&mut self)
        ensures
            final(self)@ == old(self)@.reset(),
    {
        self.character_index = 0;
    }

    /// The byte at which the character under the cursor starts; the length of
    /// the text in bytes where the cursor stands at or beyond its end.
    pub fn byte_index(&self) -> (index: usize)
        ensures
            index == self@.byte_index(),
            valid_utf8(encode_utf8(self@.content)),
            is_char_boundary(encode_utf8(self@.content), index as int),
    {
        let text = self.content.as_str();
        let bytes = text.as_bytes();
        let total: usize = bytes.len();
        let stop: usize = self.clamp_cursor(self.character_index);
        let ghost chars = self.content@;
        let mut index: usize = 0;
        let mut position: usize = 0;
        while position < stop
            invariant
                chars == self.content@,
                text@ == chars,
                bytes@ == encode_utf8(chars),
                bytes@.len() == total,
                position <= stop <= chars.len(),
                index == encode_utf8(chars.take(position as int)).len(),
            decreases stop - position,
        {
            let chr = text.get_char(position);
            let len: usize = len_utf8(chr);
            proof {
                let next = position + 1;
                assert(chars.take(next) =~= chars.take(position as int) + seq![chr]);
                lemma_encode_utf8_concat(chars.take(position as int), seq![chr]);
                lemma_encode_utf8_single(chr);
                lemma_encode_utf8_split(chars, next);
            }
            index = index + len;
            position = position + 1;
        }
        proof {
            vstd::utf8::encode_utf8_valid_utf8(chars);
            lemma_prefix_ends_on_char_boundary(chars, stop as int);
        }
        index
    }

    /// Puts `chr` in at the cursor and moves the cursor behind it.
    pub fn enter_char(&mut self, chr: char)
        ensures
            final(self)@ == old(self)@.entered(chr),
    {
        let index: usize = self.byte_index();
        let ghost chars = self.content@;
        let ghost place = self@.clamp_cursor(self@.cursor) as int;
        string_insert(&mut self.content, index, chr);
        proof {
            let head = chars.take(place);
            let tail = chars.skip(place);
            lemma_encode_utf8_split(chars, place);
            lemma_encode_utf8_single(chr);
            lemma_encode_utf8_concat(head, seq![chr]);
            lemma_encode_utf8_concat(head + seq![chr], tail);
            assert(chars.insert(place, chr) =~= head + seq![chr] + tail);
            lemma_encode_utf8_injective(self.content@, chars.insert(place, chr));
        }
        self.move_cursor_right();
    }

    /// Takes out the character before the cursor and moves the cursor to
    /// where it stood. With the cursor at the start nothing happens.
    pub fn delete_current_char(&mut self)
        ensures
            final(self)@ == old(self)@.deleted(),
    {
        if self.character_index == 0 {
            return ;
        }
        let left_from_current_index: usize = self.character_index - 1;
        let count: usize = self.content.as_str().unicode_len();
        let ghost chars = self.content@;
        let mut kept = String::new();
        let mut position: usize = 0;
        while position < count
            invariant
                chars == self.content@,
                count == chars.len(),
                position <= count,
                left_from_current_index >= position ==> kept@ == chars.take(position as int),
                left_from_current_index < position ==> kept@ == chars.remove(
                    left_from_current_index as int,
                ).take(position - 1),
            decreases count - position,
        {
            let chr = self.content.as_str().get_char(position);
            if position != left_from_current_index {
                string_push(&mut kept, chr);
            }
            position = position + 1;
        }
        proof {
            if left_from_current_index < count {
                let removed = chars.remove(left_from_current_index as int);
                assert(removed.take(count - 1) =~= removed);
            } else {
                assert(chars.take(count as int) =~= chars);
            }
        }
        self.content = kept;
        self.move_cursor_left();
    }

    /// Empties the input and puts the cursor at the start.
    pub fn clear_input(&mut self)
        ensures
            final(self)@ == old(self)@.cleared(),
    {
        self.content = String::new();
        self.reset_cursor();
    }
}

} // verus!
