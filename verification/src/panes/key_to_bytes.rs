//! The bytes a terminal program receives for a key press.
use vstd::prelude::*;
use vstd::utf8::encode_utf8;
use crate::keymap::{Key, KeyCode};
use crate::text::string_of;

verus! {

/// `char::to_ascii_lowercase`.
pub open spec fn ascii_lower(c: char) -> char {
    if 'A' <= c && c <= 'Z' {
        ((c as u32) + 32) as char
    } else {
        c
    }
}

/// The escape sequence of a function key (empty beyond F12).
pub open spec fn f_key_bytes(n: u8) -> Seq<u8> {
    if n == 1 {
        seq![0x1bu8, 0x4f, 0x50]
    } else if n == 2 {
        seq![0x1bu8, 0x4f, 0x51]
    } else if n == 3 {
        seq![0x1bu8, 0x4f, 0x52]
    } else if n == 4 {
        seq![0x1bu8, 0x4f, 0x53]
    } else if n == 5 {
        seq![0x1bu8, 0x5b, 0x31, 0x35, 0x7e]
    } else if n == 6 {
        seq![0x1bu8, 0x5b, 0x31, 0x37, 0x7e]
    } else if n == 7 {
        seq![0x1bu8, 0x5b, 0x31, 0x38, 0x7e]
    } else if n == 8 {
        seq![0x1bu8, 0x5b, 0x31, 0x39, 0x7e]
    } else if n == 9 {
        seq![0x1bu8, 0x5b, 0x32, 0x30, 0x7e]
    } else if n == 10 {
        seq![0x1bu8, 0x5b, 0x32, 0x31, 0x7e]
    } else if n == 11 {
        seq![0x1bu8, 0x5b, 0x32, 0x33, 0x7e]
    } else if n == 12 {
        seq![0x1bu8, 0x5b, 0x32, 0x34, 0x7e]
    } else {
        Seq::empty()
    }
}

/// The bytes of a key before the Alt prefix: Ctrl+letter sends the
/// letter's position in the alphabet, Ctrl+Space sends NUL, other
/// characters their UTF-8 encoding; named keys send their VT sequences.
pub open spec fn encode_inner_spec(key: Key) -> Seq<u8> {
    match key.code {
        KeyCode::Char(c) => {
            let lower = ascii_lower(c);
            if key.modifiers.control && 'a' <= lower && lower <= 'z' {
                seq![(lower as u32 - 96) as u8]
            } else if key.modifiers.control && c == ' ' {
                seq![0u8]
            } else {
                encode_utf8(seq![c])
            }
        },
        KeyCode::Enter => seq![0x0du8],
        KeyCode::Backspace => seq![0x7fu8],
        KeyCode::Tab => seq![0x09u8],
        KeyCode::Esc => seq![0x1bu8],
        KeyCode::Up => seq![0x1bu8, 0x5b, 0x41],
        KeyCode::Down => seq![0x1bu8, 0x5b, 0x42],
        KeyCode::Right => seq![0x1bu8, 0x5b, 0x43],
        KeyCode::Left => seq![0x1bu8, 0x5b, 0x44],
        KeyCode::Home => seq![0x1bu8, 0x5b, 0x48],
        KeyCode::End => seq![0x1bu8, 0x5b, 0x46],
        KeyCode::PageUp => seq![0x1bu8, 0x5b, 0x35, 0x7e],
        KeyCode::PageDown => seq![0x1bu8, 0x5b, 0x36, 0x7e],
        KeyCode::Delete => seq![0x1bu8, 0x5b, 0x33, 0x7e],
        KeyCode::Insert => seq![0x1bu8, 0x5b, 0x32, 0x7e],
        KeyCode::F(n) => f_key_bytes(n),
        KeyCode::Other => Seq::empty(),
    }
}

/// The bytes of a key: with Alt held, ESC precedes a non-empty encoding.
pub open spec fn encode_spec(key: Key) -> Seq<u8> {
    let b = encode_inner_spec(key);
    if key.modifiers.alt && b.len() > 0 {
        seq![0x1bu8] + b
    } else {
        b
    }
}

fn encode_inner(key: Key) -> (r: Vec<u8>)
    ensures
        r@ == encode_inner_spec(key),
{
    let ctrl = key.modifiers.control;
    match key.code {
        KeyCode::Char(c) => {
            if ctrl {
                let lower = if 'A' <= c && c <= 'Z' { ((c as u32) + 32) as u8 as char } else { c };
                assert(lower == ascii_lower(c));
                if 'a' <= lower && lower <= 'z' {
                    let b: u8 = ((lower as u32) - 96) as u8;
                    return vec![b];
                }
                if c == ' ' {
                    return vec![0u8];
                }
            }
            let mut one: Vec<char> = Vec::new();
            one.push(c);
            let s = string_of(&one);
            let b = vstd::slice::slice_to_vec(s.as_str().as_bytes());
            b
        },
        KeyCode::Enter => vec![0x0du8],
        KeyCode::Backspace => vec![0x7fu8],
        KeyCode::Tab => vec![0x09u8],
        KeyCode::Esc => vec![0x1bu8],
        KeyCode::Up => vec![0x1bu8, 0x5b, 0x41],
        KeyCode::Down => vec![0x1bu8, 0x5b, 0x42],
        KeyCode::Right => vec![0x1bu8, 0x5b, 0x43],
        KeyCode::Left => vec![0x1bu8, 0x5b, 0x44],
        KeyCode::Home => vec![0x1bu8, 0x5b, 0x48],
        KeyCode::End => vec![0x1bu8, 0x5b, 0x46],
        KeyCode::PageUp => vec![0x1bu8, 0x5b, 0x35, 0x7e],
        KeyCode::PageDown => vec![0x1bu8, 0x5b, 0x36, 0x7e],
        KeyCode::Delete => vec![0x1bu8, 0x5b, 0x33, 0x7e],
        KeyCode::Insert => vec![0x1bu8, 0x5b, 0x32, 0x7e],
        KeyCode::F(n) => {
            if n == 1 {
                vec![0x1bu8, 0x4f, 0x50]
            } else if n == 2 {
                vec![0x1bu8, 0x4f, 0x51]
            } else if n == 3 {
                vec![0x1bu8, 0x4f, 0x52]
            } else if n == 4 {
                vec![0x1bu8, 0x4f, 0x53]
            } else if n == 5 {
                vec![0x1bu8, 0x5b, 0x31, 0x35, 0x7e]
            } else if n == 6 {
                vec![0x1bu8, 0x5b, 0x31, 0x37, 0x7e]
            } else if n == 7 {
                vec![0x1bu8, 0x5b, 0x31, 0x38, 0x7e]
            } else if n == 8 {
                vec![0x1bu8, 0x5b, 0x31, 0x39, 0x7e]
            } else if n == 9 {
                vec![0x1bu8, 0x5b, 0x32, 0x30, 0x7e]
            } else if n == 10 {
                vec![0x1bu8, 0x5b, 0x32, 0x31, 0x7e]
            } else if n == 11 {
                vec![0x1bu8, 0x5b, 0x32, 0x33, 0x7e]
            } else if n == 12 {
                vec![0x1bu8, 0x5b, 0x32, 0x34, 0x7e]
            } else {
                Vec::new()
            }
        },
        KeyCode::Other => Vec::new(),
    }
}

/// The bytes written to a terminal program for `key`.
pub fn encode(key: Key) -> (r: Vec<u8>)
    ensures
        r@ == encode_spec(key),
{
    let alt = key.modifiers.alt;
    let b = encode_inner(key);
    if alt && b.len() > 0 {
        let mut out: Vec<u8> = Vec::new();
        out.push(0x1b);
        let mut i: usize = 0;
        while i < b.len()
            invariant
                i <= b@.len(),
                out@ == seq![0x1bu8] + b@.take(i as int),
            decreases b@.len() - i,
        {
            out.push(b[i]);
            i = i + 1;
            assert(out@ =~= seq![0x1bu8] + b@.take(i as int));
        }
        assert(b@.take(b@.len() as int) =~= b@);
        out
    } else {
        b
    }
}

} // verus!
