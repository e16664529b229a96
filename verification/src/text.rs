use vstd::prelude::*;
use vstd::utf8::encode_scalar;
use vstd::utf8::encode_utf8;

verus! {

/// `String::push` appends one character and changes nothing else.
pub assume_specification[ String::push ](s: &mut String, c: char)
    ensures
        final(s)@ == old(s)@.push(c),
;

/// `String::push_str` appends all characters of `other`, in order.
pub assume_specification[ String::push_str ](s: &mut String, other: &str)
    ensures
        final(s)@ == old(s)@ + other@,
;

/// Two string slices are equal when they hold the same characters.
pub assume_specification[ <str as PartialEq>::eq ](a: &str, b: &str) -> (same: bool)
    ensures
        same == (a@ == b@),
;

/// `char::len_utf8` is the number of bytes that the character takes in
/// UTF-8.
pub assume_specification[ char::len_utf8 ](c: char) -> (n: usize)
    ensures
        n == encode_scalar(c as u32).len(),
        1 <= n <= 4,
;

/// How many characters at the start of `s` take no more than `budget`
/// bytes in UTF-8, all together.
pub open spec fn fitting_prefix(s: Seq<char>, budget: int) -> nat
    decreases s.len(),
{
    if s.len() == 0 || encode_scalar(s[0] as u32).len() > budget {
        0
    } else {
        1 + fitting_prefix(s.drop_first(), budget - encode_scalar(s[0] as u32).len())
    }
}

/// `s` cut down for display in `max_length` bytes: `s` itself where its
/// UTF-8 form is that short, else the characters at its start that fit in
/// one byte less, followed by three dots.
pub open spec fn truncated(s: Seq<char>, max_length: nat) -> Seq<char> {
    if encode_utf8(s).len() <= max_length {
        s
    } else {
        s.take(fitting_prefix(s, max_length - 1) as int) + "..."@
    }
}

/// Every character takes at least one byte in UTF-8.
proof fn lemma_scalar_takes_a_byte(c: char)
    ensures
        encode_scalar(c as u32).len() >= 1,
{
    vstd::utf8::char_is_scalar(c);
}

/// How the count goes on at the character `i` of `s`.
proof fn lemma_fitting_prefix_step(s: Seq<char>, i: int, budget: int)
    requires
        0 <= i < s.len(),
    ensures
        fitting_prefix(s.skip(i), budget) == if encode_scalar(s[i] as u32).len() > budget {
            0
        } else {
            1 + fitting_prefix(s.skip(i + 1), budget - encode_scalar(s[i] as u32).len())
        },
{
    assert(s.skip(i)[0] == s[i]);
    assert(s.skip(i).drop_first() =~= s.skip(i + 1));
}

/// Truncates a string and adds an ellipsis if its UTF-8 form is longer
/// than `max_length` bytes. No character is cut in two: the part kept is
/// as long as fits in `max_length - 1` bytes.
pub fn truncate_string(s: &str, max_length: usize) -> (result: String)
    ensures
        result@ == truncated(s@, max_length as nat),
        encode_utf8(s@).len() <= max_length ==> result@ == s@,
{
    if s.as_bytes().len() <= max_length {
        return s.to_owned();
    }
    let mut result = String::new();
    let mut room: usize = if max_length == 0 {
        0
    } else {
        max_length - 1
    };
    let ghost budget: int = max_length - 1;
    let mut open = max_length > 0;
    proof {
        assert(s@.skip(0) =~= s@);
        assert(s@.take(0) =~= Seq::<char>::empty());
        if !open {
            assert(fitting_prefix(s@, budget) == 0) by {
                if s@.len() > 0 {
                    lemma_scalar_takes_a_byte(s@[0]);
                }
            }
        }
    }
    for c in it: s.chars()
        invariant
            it.seq() == s@,
            open ==> 0 <= room <= budget && result@ == s@.take(it.index() as int)
                && fitting_prefix(s@, budget) == it.index() + fitting_prefix(
                s@.skip(it.index() as int),
                room as int,
            ),
            !open ==> result@ == s@.take(fitting_prefix(s@, budget) as int),
    {
        if open {
            proof {
                lemma_fitting_prefix_step(s@, it.index() as int, room as int);
            }
            let n = c.len_utf8();
            if n <= room {
                result.push(c);
                room = room - n;
                proof {
                    assert(s@.take(it.index() + 1) =~= s@.take(it.index() as int).push(c));
                }
            } else {
                open = false;
            }
        }
    }
    proof {
        if open {
            assert(s@.skip(s@.len() as int) =~= Seq::<char>::empty());
        }
    }
    result.push_str("...");
    result
}

/// What stands for `c` in Pango markup: the five characters that markup
/// reads as its own are written as entities.
pub open spec fn escaped_char(c: char) -> Seq<char> {
    if c == '&' {
        "&amp;"@
    } else if c == '<' {
        "&lt;"@
    } else if c == '>' {
        "&gt;"@
    } else if c == '\'' {
        "&apos;"@
    } else if c == '"' {
        "&quot;"@
    } else {
        seq![c]
    }
}

/// `s` with each character written as `escaped_char` gives it.
pub open spec fn escaped(s: Seq<char>) -> Seq<char>
    decreases s.len(),
{
    if s.len() == 0 {
        Seq::empty()
    } else {
        escaped(s.drop_last()) + escaped_char(s.last())
    }
}

/// Escapes a text so that it can stand in Pango markup.
pub fn escape_gtk_markup(input: &str) -> (result: String)
    ensures
        result@ == escaped(input@),
{
    let mut result = String::new();
    for c in it: input.chars()
        invariant
            it.seq() == input@,
            result@ == escaped(input@.take(it.index() as int)),
    {
        proof {
            assert(input@.take(it.index() + 1).drop_last() =~= input@.take(it.index() as int));
        }
        if c == '&' {
            result.push_str("&amp;");
        } else if c == '<' {
            result.push_str("&lt;");
        } else if c == '>' {
            result.push_str("&gt;");
        } else if c == '\'' {
            result.push_str("&apos;");
        } else if c == '"' {
            result.push_str("&quot;");
        } else {
            result.push(c);
        }
    }
    proof {
        assert(input@.take(input@.len() as int) =~= input@);
    }
    result
}

/// The texts of `parts` in order, with `separator` between each two.
pub open spec fn joined(parts: Seq<Seq<char>>, separator: Seq<char>) -> Seq<char>
    decreases parts.len(),
{
    if parts.len() == 0 {
        Seq::empty()
    } else if parts.len() == 1 {
        parts[0]
    } else {
        joined(parts.drop_last(), separator) + separator + parts.last()
    }
}

/// Joins the texts with the separator between each two.
pub fn join(parts: &Vec<String>, separator: &str) -> (result: String)
    ensures
        result@ == joined(parts.deep_view(), separator@),
{
    let mut result = String::new();
    let mut i: usize = 0;
    while i < parts.len()
        invariant
            i <= parts.len(),
            result@ == joined(parts.deep_view().take(i as int), separator@),
        decreases parts.len() - i,
    {
        proof {
            let all = parts.deep_view();
            assert(all.take(i + 1).drop_last() =~= all.take(i as int));
            assert(all.take(i + 1).last() == parts[i as int]@);
            if i == 0 {
                assert(result@ + parts[0]@ =~= parts[0]@);
            }
        }
        if i > 0 {
            result.push_str(separator);
        }
        result.push_str(parts[i].as_str());
        i = i + 1;
    }
    proof {
        assert(parts.deep_view().take(parts.len() as int) =~= parts.deep_view());
    }
    result
}

/// Whether two texts hold the same characters.
pub fn same_text(a: &str, b: &str) -> (same: bool)
    ensures
        same == (a@ == b@),
{
    a.eq(b)
}

} // verus!
