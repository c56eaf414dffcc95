//! `send-keys`: key names and literal text turned into the bytes a
//! terminal would send.
use vstd::prelude::*;

use vstd::string::StringSliceAdditionalSpecFns;
use crate::text::{chars_of, extend_bytes, str_eq, str_starts_with, views};

verus! {

/// The byte that Ctrl and `c` give, for a letter `c` of either case.
pub open spec fn control_byte_spec(c: char) -> Option<u8> {
    if 'a' <= c && c <= 'z' {
        Some((c as u32 - 'a' as u32 + 1) as u8)
    } else if 'A' <= c && c <= 'Z' {
        Some((c as u32 - 'A' as u32 + 1) as u8)
    } else {
        None
    }
}

/// `C-x` for a letter `x` gives its control byte; anything else is sent
/// as its UTF-8 bytes.
pub open spec fn literal_or_control_spec(key: Seq<char>) -> Seq<u8> {
    if vstd::utf8::encode_utf8(key).len() == 3 && "C-"@.is_prefix_of(key) && key.len() > 2
        && control_byte_spec(key[2]) is Some {
        seq![control_byte_spec(key[2]).unwrap()]
    } else {
        vstd::utf8::encode_utf8(key)
    }
}

/// The bytes of one key name or piece of text.
pub open spec fn key_bytes(key: Seq<char>) -> Seq<u8> {
    if key == "Enter"@ || key == "C-m"@ {
        seq![13u8]
    } else if key == "C-j"@ {
        seq![10u8]
    } else if key == "Tab"@ || key == "C-i"@ {
        seq![9u8]
    } else if key == "Space"@ {
        seq![32u8]
    } else if key == "Escape"@ || key == "Esc"@ {
        seq![27u8]
    } else if key == "Backspace"@ || key == "BSpace"@ {
        seq![127u8]
    } else if key == "Delete"@ || key == "DC"@ {
        seq![27u8, 91u8, 51u8, 126u8]
    } else if key == "Up"@ {
        seq![27u8, 91u8, 65u8]
    } else if key == "Down"@ {
        seq![27u8, 91u8, 66u8]
    } else if key == "Right"@ {
        seq![27u8, 91u8, 67u8]
    } else if key == "Left"@ {
        seq![27u8, 91u8, 68u8]
    } else {
        literal_or_control_spec(key)
    }
}

/// The bytes of a list of keys, one after the other.
pub open spec fn keys_bytes(keys: Seq<Seq<char>>) -> Seq<u8>
    decreases keys.len(),
{
    if keys.len() == 0 {
        Seq::empty()
    } else {
        keys_bytes(keys.drop_last()) + key_bytes(keys.last())
    }
}

/// The control byte of a letter.
pub fn control_byte(ch: char) -> (r: Option<u8>)
    ensures
        r == control_byte_spec(ch),
{
    if 'a' <= ch && ch <= 'z' {
        Some((ch as u32 - 'a' as u32 + 1) as u8)
    } else if 'A' <= ch && ch <= 'Z' {
        Some((ch as u32 - 'A' as u32 + 1) as u8)
    } else {
        None
    }
}

/// Appends a control byte for `C-x`, or else the text itself.
pub fn encode_literal_or_control_key(key: &str, bytes: &mut Vec<u8>)
    ensures
        final(bytes)@ == old(bytes)@ + literal_or_control_spec(key@),
{
    let raw = key.as_bytes();
    if raw.len() == 3 && str_starts_with(key, "C-") {
        let cs = chars_of(key);
        if cs.len() > 2 {
            match control_byte(cs[2]) {
                Some(b) => {
                    bytes.push(b);
                    return;
                },
                None => {},
            }
        }
    }
    extend_bytes(bytes, raw);
}

fn push_all(bytes: &mut Vec<u8>, tail: &[u8])
    ensures
        final(bytes)@ == old(bytes)@ + tail@,
{
    extend_bytes(bytes, tail);
}

/// Appends the bytes of one key.
pub fn encode_key(key: &str, bytes: &mut Vec<u8>)
    ensures
        final(bytes)@ == old(bytes)@ + key_bytes(key@),
{
    if str_eq(key, "Enter") || str_eq(key, "C-m") {
        bytes.push(13u8);
    } else if str_eq(key, "C-j") {
        bytes.push(10u8);
    } else if str_eq(key, "Tab") || str_eq(key, "C-i") {
        bytes.push(9u8);
    } else if str_eq(key, "Space") {
        bytes.push(32u8);
    } else if str_eq(key, "Escape") || str_eq(key, "Esc") {
        bytes.push(27u8);
    } else if str_eq(key, "Backspace") || str_eq(key, "BSpace") {
        bytes.push(127u8);
    } else if str_eq(key, "Delete") || str_eq(key, "DC") {
        let seqb: [u8; 4] = [27u8, 91u8, 51u8, 126u8];
        push_all(bytes, &seqb);
        assert(seqb@ =~= seq![27u8, 91u8, 51u8, 126u8]);
    } else if str_eq(key, "Up") {
        let seqb: [u8; 3] = [27u8, 91u8, 65u8];
        push_all(bytes, &seqb);
        assert(seqb@ =~= seq![27u8, 91u8, 65u8]);
    } else if str_eq(key, "Down") {
        let seqb: [u8; 3] = [27u8, 91u8, 66u8];
        push_all(bytes, &seqb);
        assert(seqb@ =~= seq![27u8, 91u8, 66u8]);
    } else if str_eq(key, "Right") {
        let seqb: [u8; 3] = [27u8, 91u8, 67u8];
        push_all(bytes, &seqb);
        assert(seqb@ =~= seq![27u8, 91u8, 67u8]);
    } else if str_eq(key, "Left") {
        let seqb: [u8; 3] = [27u8, 91u8, 68u8];
        push_all(bytes, &seqb);
        assert(seqb@ =~= seq![27u8, 91u8, 68u8]);
    } else {
        encode_literal_or_control_key(key, bytes);
    }
}

/// The bytes of a list of keys.
pub fn encode_send_keys(keys: &[String]) -> (r: Vec<u8>)
    ensures
        r@ == keys_bytes(views(keys@)),
{
    let ghost vs = views(keys@);
    let mut bytes: Vec<u8> = Vec::new();
    let mut i: usize = 0;
    assert(vs.take(0) =~= Seq::<Seq<char>>::empty());
    while i < keys.len()
        invariant
            i <= keys.len(),
            vs == views(keys@),
            bytes@ == keys_bytes(vs.take(i as int)),
        decreases keys.len() - i,
    {
        encode_key(keys[i].as_str(), &mut bytes);
        assert(vs.take(i + 1).drop_last() =~= vs.take(i as int));
        i += 1;
    }
    assert(vs.take(keys.len() as int) =~= vs);
    bytes
}

} // verus!
