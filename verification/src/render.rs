//! The text of a report line.
//!
//! A line is the file path, the scope segments and the function name, joined
//! by colons, then a space and the complexity in decimal. With an empty scope
//! the scope segment is empty, so two colons stand before the name.

use crate::report::{ItemComplexity, ItemView};
use vstd::prelude::*;
use vstd::seq_lib::lemma_concat_associative;

verus! {

/// `String::push` appends one character.
pub assume_specification[ String::push ](text: &mut String, ch: char)
    ensures
        final(text)@ == old(text)@.push(ch),
;

/// `String::push_str` appends a string slice.
pub assume_specification[ String::push_str ](text: &mut String, string: &str)
    ensures
        final(text)@ == old(text)@ + string@,
;

/// The character for a decimal digit.
pub open spec fn digit(d: nat) -> char
    recommends
        d < 10,
{
    seq!['0', '1', '2', '3', '4', '5', '6', '7', '8', '9'][d as int]
}

/// A number in decimal, without sign or leading zeros.
pub open spec fn decimal(n: nat) -> Seq<char>
    decreases n,
{
    if n < 10 {
        seq![digit(n)]
    } else {
        decimal(n / 10).push(digit(n % 10))
    }
}

/// The first `n` parts, with a colon between each two.
pub open spec fn joined_upto(parts: Seq<Seq<char>>, n: nat) -> Seq<char>
    decreases n,
{
    if n == 0 || n > parts.len() {
        Seq::empty()
    } else if n == 1 {
        parts[0]
    } else {
        joined_upto(parts, (n - 1) as nat).push(':') + parts[n - 1]
    }
}

/// The parts with a colon between each two.
pub open spec fn joined(parts: Seq<Seq<char>>) -> Seq<char> {
    joined_upto(parts, parts.len())
}

/// The report line for an item found in the file at `path`.
pub open spec fn line_text(path: Seq<char>, item: ItemView) -> Seq<char> {
    (path.push(':') + joined(item.scope)).push(':') + item.name + seq![' '] + decimal(
        item.complexity,
    )
}

fn digit_char(d: usize) -> (c: char)
    requires
        d < 10,
    ensures
        c == digit(d as nat),
{
    match d {
        0 => '0',
        1 => '1',
        2 => '2',
        3 => '3',
        4 => '4',
        5 => '5',
        6 => '6',
        7 => '7',
        8 => '8',
        _ => '9',
    }
}

/// Appends a number in decimal.
fn push_decimal(text: &mut String, n: usize)
    ensures
        final(text)@ == old(text)@ + decimal(n as nat),
    decreases n,
{
    let ghost before = text@;
    if n >= 10 {
        push_decimal(text, n / 10);
    }
    text.push(digit_char(n % 10));
    proof {
        if n >= 10 {
            let head = decimal((n / 10) as nat);
            assert((before + head).push(digit((n % 10) as nat)) =~= before + head.push(
                digit((n % 10) as nat),
            ));
        } else {
            assert(before.push(digit(n as nat)) =~= before + seq![digit(n as nat)]);
        }
    }
}

/// Appends the parts with a colon between each two.
fn push_joined(text: &mut String, parts: &Vec<String>)
    ensures
        final(text)@ == old(text)@ + joined(parts.deep_view()),
{
    let ghost before = text@;
    let ghost names = parts.deep_view();
    let mut i: usize = 0;
    proof {
        assert(before + joined_upto(names, 0) =~= before);
    }
    while i < parts.len()
        invariant
            i <= parts.len(),
            names == parts.deep_view(),
            text@ == before + joined_upto(names, i as nat),
        decreases parts.len() - i,
    {
        let ghost so_far = joined_upto(names, i as nat);
        proof {
            assert(names[i as int] == parts@[i as int]@);
        }
        if i > 0 {
            text.push(':');
            proof {
                assert((before + so_far).push(':') =~= before + so_far.push(':'));
                lemma_concat_associative(before, so_far.push(':'), names[i as int]);
            }
        } else {
            proof {
                assert(so_far =~= Seq::<char>::empty());
                assert(before + so_far =~= before);
            }
        }
        text.push_str(parts[i].as_str());
        i = i + 1;
    }
}

impl ItemComplexity {
    /// The report line for this item, found in the file at `path`.
    pub fn line(&self, path: &str) -> (line: String)
        ensures
            line@ == line_text(path@, self@),
    {
        let mut line: String = String::new();
        line.push_str(path);
        proof {
            assert(Seq::<char>::empty() + path@ =~= path@);
        }
        line.push(':');
        push_joined(&mut line, &self.scope);
        line.push(':');
        line.push_str(self.name.as_str());
        line.push(' ');
        let ghost head = line@;
        push_decimal(&mut line, self.complexity);
        proof {
            let named = (path@.push(':') + joined(self@.scope)).push(':') + self@.name;
            assert(head =~= named + seq![' ']);
        }
        line
    }
}

} // verus!
