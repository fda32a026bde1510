//! The text assembler's line parser: one human-readable mnemonic line to
//! one operation.
//!
//! A line is words separated by blanks: a mnemonic, then the operands the
//! mnemonic asks for — register names, and constants written in decimal or
//! with a `0x` prefix in hex.  Words beyond those are ignored.  A line
//! whose mnemonic or operands cannot be read yields no operation.

use crate::registers::{get_register_by_name, spec_register_code};
use crate::tokens::{AddToken, ClearToken, CmdToken, CopyToken, DebugToken, DivToken, ExitToken,
    GotoToken, JeToken, JgToken, JlToken, LabelToken, LoadToken, LshToken, ModToken, MulToken,
    Operation, PauseToken, RshToken, SendToken, SetToken, SubToken, WriteToken};
use vstd::prelude::*;
use vstd::utf8::is_ascii_chars;

verus! {

/// Whether a character separates the words of an instruction line.
pub open spec fn spec_is_separator(c: char) -> bool {
    c == ' ' || c == '\t' || c == '\r'
}

/// The position right after the word that starts at `i`: the first
/// separator at or after `i`, or the end of the line.
pub open spec fn spec_word_end(line: Seq<char>, i: int) -> int
    decreases line.len() - i,
{
    if i < 0 || i >= line.len() || spec_is_separator(line[i]) {
        i
    } else {
        spec_word_end(line, i + 1)
    }
}

/// A word ends between its start and the end of the line.
proof fn lemma_word_end_bounds(line: Seq<char>, i: int)
    requires
        0 <= i <= line.len(),
    ensures
        i <= spec_word_end(line, i) <= line.len(),
    decreases line.len() - i,
{
    if i < line.len() && !spec_is_separator(line[i]) {
        lemma_word_end_bounds(line, i + 1);
    }
}

/// The words of a line from position `i` on, in order.
pub open spec fn spec_words_from(line: Seq<char>, i: int) -> Seq<Seq<char>>
    decreases line.len() - i,
    via spec_words_from_decreases
{
    if i < 0 || i >= line.len() {
        Seq::empty()
    } else if spec_is_separator(line[i]) {
        spec_words_from(line, i + 1)
    } else {
        seq![line.subrange(i, spec_word_end(line, i))] + spec_words_from(
            line,
            spec_word_end(line, i),
        )
    }
}

#[via_fn]
proof fn spec_words_from_decreases(line: Seq<char>, i: int) {
    if 0 <= i < line.len() && !spec_is_separator(line[i]) {
        lemma_word_end_bounds(line, i + 1);
    }
}

/// Whether a character is a decimal digit.
pub open spec fn spec_is_dec_digit(c: char) -> bool {
    48 <= c as u32 <= 57
}

/// The value of a decimal digit.
pub open spec fn spec_dec_digit_val(c: char) -> int {
    c as u32 - 48
}

/// Whether a character is a hex digit, either case.
pub open spec fn spec_is_hex_digit(c: char) -> bool {
    (48 <= c as u32 <= 57) || (97 <= c as u32 <= 102) || (65 <= c as u32 <= 70)
}

/// The value of a hex digit.
pub open spec fn spec_hex_digit_val(c: char) -> int {
    if 48 <= c as u32 <= 57 {
        c as u32 - 48
    } else if 97 <= c as u32 <= 102 {
        c as u32 - 87
    } else {
        c as u32 - 55
    }
}

/// Every character is a decimal digit.
pub open spec fn spec_all_dec_digits(s: Seq<char>) -> bool {
    forall|i: int| 0 <= i < s.len() ==> spec_is_dec_digit(#[trigger] s[i])
}

/// Every character is a hex digit.
pub open spec fn spec_all_hex_digits(s: Seq<char>) -> bool {
    forall|i: int| 0 <= i < s.len() ==> spec_is_hex_digit(#[trigger] s[i])
}

/// The number a run of decimal digits denotes.
pub open spec fn spec_dec_val(s: Seq<char>) -> int
    decreases s.len(),
{
    if s.len() == 0 {
        0
    } else {
        spec_dec_val(s.drop_last()) * 10 + spec_dec_digit_val(s.last())
    }
}

/// The number a run of hex digits denotes.
pub open spec fn spec_hex_val(s: Seq<char>) -> int
    decreases s.len(),
{
    if s.len() == 0 {
        0
    } else {
        spec_hex_val(s.drop_last()) * 16 + spec_hex_digit_val(s.last())
    }
}

/// The constant with every leading `0x` removed.
pub open spec fn spec_strip_hex_prefix(s: Seq<char>) -> Seq<char>
    decreases s.len(),
{
    if s.len() >= 2 && s[0] == '0' && s[1] == 'x' {
        spec_strip_hex_prefix(s.skip(2))
    } else {
        s
    }
}

/// The value of a decimal constant: at least one digit, nothing else, and
/// within the 32-bit range.
pub open spec fn spec_parse_dec(s: Seq<char>) -> Option<u32> {
    if s.len() > 0 && spec_all_dec_digits(s) && spec_dec_val(s) <= u32::MAX {
        Some(spec_dec_val(s) as u32)
    } else {
        None
    }
}

/// The value of a `0x`-prefixed hex constant: after the prefix at least
/// one hex digit and nothing else, denoting at most the largest signed
/// 64-bit number; the value is its low 32 bits.
pub open spec fn spec_parse_hex(s: Seq<char>) -> Option<u32> {
    let body = spec_strip_hex_prefix(s);
    if body.len() > 0 && spec_all_hex_digits(body) && spec_hex_val(body) <= i64::MAX {
        Some((spec_hex_val(body) % 0x1_0000_0000) as u32)
    } else {
        None
    }
}

/// The value a constant word denotes: hex when it starts with `0x`, else
/// decimal.
pub open spec fn spec_parse_value(s: Seq<char>) -> Option<u32> {
    if s.len() >= 2 && s[0] == '0' && s[1] == 'x' {
        spec_parse_hex(s)
    } else {
        spec_parse_dec(s)
    }
}

/// A run of decimal digits denotes a number that is not negative.
proof fn lemma_dec_val_nonneg(s: Seq<char>)
    requires
        spec_all_dec_digits(s),
    ensures
        spec_dec_val(s) >= 0,
    decreases s.len(),
{
    if s.len() > 0 {
        assert forall|i: int| 0 <= i < s.drop_last().len() implies spec_is_dec_digit(
            #[trigger] s.drop_last()[i],
        ) by {
            assert(s.drop_last()[i] == s[i]);
        }
        lemma_dec_val_nonneg(s.drop_last());
    }
}

/// A prefix of a run of decimal digits denotes at most the whole run's
/// number.
proof fn lemma_dec_val_prefix(s: Seq<char>, k: int)
    requires
        spec_all_dec_digits(s),
        0 <= k <= s.len(),
    ensures
        spec_dec_val(s.take(k)) <= spec_dec_val(s),
    decreases s.len() - k,
{
    if k == s.len() {
        assert(s.take(k) =~= s);
    } else {
        lemma_dec_val_prefix(s, k + 1);
        assert(s.take(k + 1).drop_last() =~= s.take(k));
        assert forall|i: int| 0 <= i < s.take(k).len() implies spec_is_dec_digit(
            #[trigger] s.take(k)[i],
        ) by {
            assert(s.take(k)[i] == s[i]);
        }
        lemma_dec_val_nonneg(s.take(k));
        assert(spec_dec_val(s.take(k + 1)) == spec_dec_val(s.take(k)) * 10 + spec_dec_digit_val(
            s[k],
        ));
    }
}

/// A run of hex digits denotes a number that is not negative.
proof fn lemma_hex_val_nonneg(s: Seq<char>)
    requires
        spec_all_hex_digits(s),
    ensures
        spec_hex_val(s) >= 0,
    decreases s.len(),
{
    if s.len() > 0 {
        assert forall|i: int| 0 <= i < s.drop_last().len() implies spec_is_hex_digit(
            #[trigger] s.drop_last()[i],
        ) by {
            assert(s.drop_last()[i] == s[i]);
        }
        lemma_hex_val_nonneg(s.drop_last());
    }
}

/// A prefix of a run of hex digits denotes at most the whole run's number.
proof fn lemma_hex_val_prefix(s: Seq<char>, k: int)
    requires
        spec_all_hex_digits(s),
        0 <= k <= s.len(),
    ensures
        spec_hex_val(s.take(k)) <= spec_hex_val(s),
    decreases s.len() - k,
{
    if k == s.len() {
        assert(s.take(k) =~= s);
    } else {
        lemma_hex_val_prefix(s, k + 1);
        assert(s.take(k + 1).drop_last() =~= s.take(k));
        assert forall|i: int| 0 <= i < s.take(k).len() implies spec_is_hex_digit(
            #[trigger] s.take(k)[i],
        ) by {
            assert(s.take(k)[i] == s[i]);
        }
        lemma_hex_val_nonneg(s.take(k));
        assert(spec_hex_val(s.take(k + 1)) == spec_hex_val(s.take(k)) * 16 + spec_hex_digit_val(
            s[k],
        ));
    }
}

/// Parses a constant: a value with a `0x` prefix as hex, anything else as
/// a plain base-10 number.
pub fn parse_value(value: &str) -> (r: Option<u32>)
    ensures
        r == spec_parse_value(value@),
{
    let len = value.unicode_len();
    if len >= 2 && value.get_char(0) == '0' && value.get_char(1) == 'x' {
        parse_hex_value(value)
    } else {
        parse_dec_value(value)
    }
}

/// Parses a plain base-10 constant.
fn parse_dec_value(value: &str) -> (r: Option<u32>)
    ensures
        r == spec_parse_dec(value@),
{
    let len = value.unicode_len();
    if len == 0 {
        return None;
    }
    let mut acc: u32 = 0;
    let mut j: usize = 0;
    while j < len
        invariant
            j <= len,
            len == value@.len(),
            spec_all_dec_digits(value@.take(j as int)),
            acc == spec_dec_val(value@.take(j as int)),
        decreases len - j,
    {
        let c = value.get_char(j);
        let cv = c as u32;
        if cv < 48 || cv > 57 {
            assert(!spec_all_dec_digits(value@));
            return None;
        }
        let d = cv - 48;
        let next = acc as u64 * 10 + d as u64;
        proof {
            assert(value@.take(j + 1).drop_last() =~= value@.take(j as int));
            assert(value@.take(j + 1).last() == value@[j as int]);
            assert forall|i: int| 0 <= i < value@.take(j + 1).len() implies spec_is_dec_digit(
                #[trigger] value@.take(j + 1)[i],
            ) by {
                assert(value@.take(j + 1)[i] == value@[i]);
                if i < j {
                    assert(value@.take(j as int)[i] == value@[i]);
                }
            }
        }
        if next > u32::MAX as u64 {
            proof {
                if spec_all_dec_digits(value@) {
                    lemma_dec_val_prefix(value@, j + 1);
                }
            }
            return None;
        }
        acc = next as u32;
        j = j + 1;
    }
    proof {
        assert(value@.take(len as int) =~= value@);
    }
    Some(acc)
}

/// Parses a `0x`-prefixed hex constant, stripping every leading `0x`; the
/// low 32 bits of its value.
fn parse_hex_value(value: &str) -> (r: Option<u32>)
    ensures
        r == spec_parse_hex(value@),
{
    let len = value.unicode_len();
    let mut start: usize = 0;
    proof {
        assert(value@.skip(0) =~= value@);
    }
    while len - start >= 2 && value.get_char(start) == '0' && value.get_char(start + 1) == 'x'
        invariant
            start <= len,
            len == value@.len(),
            spec_strip_hex_prefix(value@) == spec_strip_hex_prefix(value@.skip(start as int)),
        decreases len - start,
    {
        proof {
            assert(value@.skip(start as int)[0] == value@[start as int]);
            assert(value@.skip(start as int)[1] == value@[start as int + 1]);
            assert(value@.skip(start as int).skip(2) =~= value@.skip(start as int + 2));
        }
        start = start + 2;
    }
    let ghost body = spec_strip_hex_prefix(value@);
    proof {
        let tail = value@.skip(start as int);
        if tail.len() >= 2 {
            assert(tail[0] == value@[start as int]);
            assert(tail[1] == value@[start as int + 1]);
        }
        assert(body == tail);
    }
    if start == len {
        return None;
    }
    let mut acc: u64 = 0;
    let mut j: usize = start;
    while j < len
        invariant
            start <= j <= len,
            len == value@.len(),
            body == spec_strip_hex_prefix(value@),
            body == value@.skip(start as int),
            body.len() == len - start,
            spec_all_hex_digits(body.take(j - start)),
            acc == spec_hex_val(body.take(j - start)),
            acc <= i64::MAX as u64,
        decreases len - j,
    {
        let c = value.get_char(j);
        let cv = c as u32;
        let d: u64 = if cv >= 48 && cv <= 57 {
            (cv - 48) as u64
        } else if cv >= 97 && cv <= 102 {
            (cv - 87) as u64
        } else if cv >= 65 && cv <= 70 {
            (cv - 55) as u64
        } else {
            assert(body[j - start] == value@[j as int]);
            assert(!spec_all_hex_digits(body));
            return None;
        };
        let next = acc as u128 * 16 + d as u128;
        proof {
            assert(body[j - start] == value@[j as int]);
            assert(body.take(j - start + 1).drop_last() =~= body.take(j - start));
            assert(body.take(j - start + 1).last() == body[j - start]);
            assert forall|i: int| 0 <= i < body.take(j - start + 1).len() implies
                spec_is_hex_digit(#[trigger] body.take(j - start + 1)[i]) by {
                assert(body.take(j - start + 1)[i] == body[i]);
                if i < j - start {
                    assert(body.take(j - start)[i] == body[i]);
                }
            }
        }
        if next > i64::MAX as u128 {
            proof {
                if spec_all_hex_digits(body) {
                    lemma_hex_val_prefix(body, j - start + 1);
                }
            }
            return None;
        }
        acc = next as u64;
        j = j + 1;
    }
    proof {
        assert(body.take((len - start) as int) =~= body);
    }
    Some((acc % 0x1_0000_0000) as u32)
}

/// The operation a mnemonic line denotes, or `None` when the line is no
/// instruction.  Lines are ASCII; words past the operands a mnemonic needs
/// are ignored.
pub open spec fn spec_get_token(line: Seq<char>) -> Option<Operation> {
    if !is_ascii_chars(line) {
        None
    } else {
        let ws = spec_words_from(line, 0);
        if ws.len() == 0 {
            None
        } else if ws[0] == seq!['e', 'x', 'i', 't'] {
            if ws.len() >= 2 && spec_register_code(ws[1]) is Some {
                Some(Operation::Exit(ExitToken { register: spec_register_code(ws[1])->Some_0 }))
            } else {
                None
            }
        } else if ws[0] == seq!['s', 'e', 't'] {
            if ws.len() >= 3 && spec_parse_value(ws[1]) is Some && spec_register_code(ws[2])
                is Some {
                Some(
                    Operation::SetImm(
                        SetToken {
                            value: (spec_parse_value(ws[1])->Some_0 % 256) as u8,
                            register: spec_register_code(ws[2])->Some_0,
                        },
                    ),
                )
            } else {
                None
            }
        } else if ws[0] == seq!['c', 'o', 'p', 'y'] {
            if ws.len() >= 3 && spec_register_code(ws[1]) is Some && spec_register_code(ws[2])
                is Some {
                Some(
                    Operation::Copy(
                        CopyToken {
                            register_1: spec_register_code(ws[1])->Some_0,
                            register_2: spec_register_code(ws[2])->Some_0,
                        },
                    ),
                )
            } else {
                None
            }
        } else if ws[0] == seq!['l', 'o', 'a', 'd'] {
            Some(Operation::Load(LoadToken))
        } else if ws[0] == seq!['c', 'l', 'e', 'a', 'r'] {
            if ws.len() >= 2 && spec_register_code(ws[1]) is Some {
                Some(
                    Operation::Clear(ClearToken { register: spec_register_code(ws[1])->Some_0 }),
                )
            } else {
                None
            }
        } else if ws[0] == seq!['w', 'r', 'i', 't', 'e'] {
            Some(Operation::Write(WriteToken))
        } else if ws[0] == seq!['l', 'a', 'b', 'e', 'l'] {
            if ws.len() >= 2 && spec_parse_value(ws[1]) is Some {
                Some(Operation::Label(LabelToken { value: spec_parse_value(ws[1])->Some_0 }))
            } else {
                None
            }
        } else if ws[0] == seq!['g', 'o', 't', 'o'] {
            Some(Operation::Goto(GotoToken))
        } else if ws[0] == seq!['d', 'e', 'b', 'u', 'g'] {
            Some(Operation::Debug(DebugToken))
        } else if ws[0] == seq!['a', 'd', 'd'] {
            Some(Operation::Add(AddToken))
        } else if ws[0] == seq!['s', 'u', 'b'] {
            Some(Operation::Sub(SubToken))
        } else if ws[0] == seq!['m', 'u', 'l'] {
            Some(Operation::Mul(MulToken))
        } else if ws[0] == seq!['d', 'i', 'v'] {
            Some(Operation::Div(DivToken))
        } else if ws[0] == seq!['m', 'o', 'd'] {
            Some(Operation::Mod(ModToken))
        } else if ws[0] == seq!['l', 's', 'h'] {
            Some(Operation::Lsh(LshToken))
        } else if ws[0] == seq!['r', 's', 'h'] {
            Some(Operation::Rsh(RshToken))
        } else if ws[0] == seq!['j', 'g'] {
            Some(Operation::Jg(JgToken))
        } else if ws[0] == seq!['j', 'l'] {
            Some(Operation::Jl(JlToken))
        } else if ws[0] == seq!['j', 'e'] {
            Some(Operation::Je(JeToken))
        } else if ws[0] == seq!['p', 'a', 'u', 's', 'e'] {
            Some(Operation::Pause(PauseToken))
        } else if ws[0] == seq!['c', 'm', 'd'] {
            Some(Operation::Cmd(CmdToken))
        } else if ws[0] == seq!['s', 'e', 'n', 'd'] {
            Some(Operation::Send(SendToken))
        } else {
            None
        }
    }
}

/// Whether the character at a position separates words.
fn separator_at(line: &str, i: usize) -> (r: bool)
    requires
        (i as int) < line@.len(),
    ensures
        r == spec_is_separator(line@[i as int]),
{
    let c = line.get_char(i);
    c == ' ' || c == '\t' || c == '\r'
}

/// The bounds of the first word at or after `from`, or `None` when only
/// separators remain.
fn next_word(line: &str, from: usize) -> (r: Option<(usize, usize)>)
    requires
        from as int <= line@.len(),
    ensures
        match r {
            Some(bounds) => from <= bounds.0 && bounds.0 < bounds.1 && bounds.1 <= line@.len()
                && spec_words_from(line@, from as int) == seq![
                line@.subrange(bounds.0 as int, bounds.1 as int),
            ] + spec_words_from(line@, bounds.1 as int),
            None => spec_words_from(line@, from as int) == Seq::<Seq<char>>::empty(),
        },
{
    let len = line.unicode_len();
    let mut i = from;
    while i < len && separator_at(line, i)
        invariant
            from <= i <= len,
            len == line@.len(),
            spec_words_from(line@, from as int) == spec_words_from(line@, i as int),
        decreases len - i,
    {
        i = i + 1;
    }
    if i == len {
        return None;
    }
    let word_start = i;
    let mut e = i;
    while e < len && !separator_at(line, e)
        invariant
            word_start <= e <= len,
            len == line@.len(),
            spec_word_end(line@, word_start as int) == spec_word_end(line@, e as int),
        decreases len - e,
    {
        e = e + 1;
    }
    Some((word_start, e))
}

/// Parses a mnemonic line into the operation it denotes.
pub fn get_token(line: &str) -> (r: Option<Operation>)
    ensures
        r == spec_get_token(line@),
{
    if !line.is_ascii() {
        return None;
    }
    let (w0s, w0e) = match next_word(line, 0) {
        Some(bounds) => bounds,
        None => {
            return None;
        },
    };
    let ghost ws = spec_words_from(line@, 0);
    let m = line.substring_ascii(w0s, w0e);
    assert(m@ == ws[0]);
    let mlen = w0e - w0s;
    if mlen == 2 {
        let c0 = m.get_char(0);
        let c1 = m.get_char(1);
        if c0 == 'j' && c1 == 'g' {
            assert(ws[0] =~= seq!['j', 'g']);
            Some(Operation::Jg(JgToken))
        } else if c0 == 'j' && c1 == 'l' {
            assert(ws[0] =~= seq!['j', 'l']);
            Some(Operation::Jl(JlToken))
        } else if c0 == 'j' && c1 == 'e' {
            assert(ws[0] =~= seq!['j', 'e']);
            Some(Operation::Je(JeToken))
        } else {
            None
        }
    } else if mlen == 3 {
        let c0 = m.get_char(0);
        let c1 = m.get_char(1);
        let c2 = m.get_char(2);
        if c0 == 's' && c1 == 'e' && c2 == 't' {
            assert(ws[0] =~= seq!['s', 'e', 't']);
            let (w1s, w1e) = match next_word(line, w0e) {
                Some(bounds) => bounds,
                None => {
                    return None;
                },
            };
            let (w2s, w2e) = match next_word(line, w1e) {
                Some(bounds) => bounds,
                None => {
                    return None;
                },
            };
            assert(ws[1] == line@.subrange(w1s as int, w1e as int));
            assert(ws[2] == line@.subrange(w2s as int, w2e as int));
            let value = match parse_value(line.substring_ascii(w1s, w1e)) {
                Some(v) => v,
                None => {
                    return None;
                },
            };
            let register = match get_register_by_name(line.substring_ascii(w2s, w2e)) {
                Some(c) => c,
                None => {
                    return None;
                },
            };
            Some(Operation::SetImm(SetToken { value: (value % 256) as u8, register }))
        } else if c0 == 'a' && c1 == 'd' && c2 == 'd' {
            assert(ws[0] =~= seq!['a', 'd', 'd']);
            Some(Operation::Add(AddToken))
        } else if c0 == 's' && c1 == 'u' && c2 == 'b' {
            assert(ws[0] =~= seq!['s', 'u', 'b']);
            Some(Operation::Sub(SubToken))
        } else if c0 == 'm' && c1 == 'u' && c2 == 'l' {
            assert(ws[0] =~= seq!['m', 'u', 'l']);
            Some(Operation::Mul(MulToken))
        } else if c0 == 'd' && c1 == 'i' && c2 == 'v' {
            assert(ws[0] =~= seq!['d', 'i', 'v']);
            Some(Operation::Div(DivToken))
        } else if c0 == 'm' && c1 == 'o' && c2 == 'd' {
            assert(ws[0] =~= seq!['m', 'o', 'd']);
            Some(Operation::Mod(ModToken))
        } else if c0 == 'l' && c1 == 's' && c2 == 'h' {
            assert(ws[0] =~= seq!['l', 's', 'h']);
            Some(Operation::Lsh(LshToken))
        } else if c0 == 'r' && c1 == 's' && c2 == 'h' {
            assert(ws[0] =~= seq!['r', 's', 'h']);
            Some(Operation::Rsh(RshToken))
        } else if c0 == 'c' && c1 == 'm' && c2 == 'd' {
            assert(ws[0] =~= seq!['c', 'm', 'd']);
            Some(Operation::Cmd(CmdToken))
        } else {
            None
        }
    } else if mlen == 4 {
        let c0 = m.get_char(0);
        let c1 = m.get_char(1);
        let c2 = m.get_char(2);
        let c3 = m.get_char(3);
        if c0 == 'e' && c1 == 'x' && c2 == 'i' && c3 == 't' {
            assert(ws[0] =~= seq!['e', 'x', 'i', 't']);
            let (w1s, w1e) = match next_word(line, w0e) {
                Some(bounds) => bounds,
                None => {
                    return None;
                },
            };
            assert(ws[1] == line@.subrange(w1s as int, w1e as int));
            let register = match get_register_by_name(line.substring_ascii(w1s, w1e)) {
                Some(c) => c,
                None => {
                    return None;
                },
            };
            Some(Operation::Exit(ExitToken { register }))
        } else if c0 == 'c' && c1 == 'o' && c2 == 'p' && c3 == 'y' {
            assert(ws[0] =~= seq!['c', 'o', 'p', 'y']);
            let (w1s, w1e) = match next_word(line, w0e) {
                Some(bounds) => bounds,
                None => {
                    return None;
                },
            };
            let (w2s, w2e) = match next_word(line, w1e) {
                Some(bounds) => bounds,
                None => {
                    return None;
                },
            };
            assert(ws[1] == line@.subrange(w1s as int, w1e as int));
            assert(ws[2] == line@.subrange(w2s as int, w2e as int));
            let register_1 = match get_register_by_name(line.substring_ascii(w1s, w1e)) {
                Some(c) => c,
                None => {
                    return None;
                },
            };
            let register_2 = match get_register_by_name(line.substring_ascii(w2s, w2e)) {
                Some(c) => c,
                None => {
                    return None;
                },
            };
            Some(Operation::Copy(CopyToken { register_1, register_2 }))
        } else if c0 == 'l' && c1 == 'o' && c2 == 'a' && c3 == 'd' {
            assert(ws[0] =~= seq!['l', 'o', 'a', 'd']);
            Some(Operation::Load(LoadToken))
        } else if c0 == 'g' && c1 == 'o' && c2 == 't' && c3 == 'o' {
            assert(ws[0] =~= seq!['g', 'o', 't', 'o']);
            Some(Operation::Goto(GotoToken))
        } else if c0 == 's' && c1 == 'e' && c2 == 'n' && c3 == 'd' {
            assert(ws[0] =~= seq!['s', 'e', 'n', 'd']);
            Some(Operation::Send(SendToken))
        } else {
            None
        }
    } else if mlen == 5 {
        let c0 = m.get_char(0);
        let c1 = m.get_char(1);
        let c2 = m.get_char(2);
        let c3 = m.get_char(3);
        let c4 = m.get_char(4);
        if c0 == 'c' && c1 == 'l' && c2 == 'e' && c3 == 'a' && c4 == 'r' {
            assert(ws[0] =~= seq!['c', 'l', 'e', 'a', 'r']);
            let (w1s, w1e) = match next_word(line, w0e) {
                Some(bounds) => bounds,
                None => {
                    return None;
                },
            };
            assert(ws[1] == line@.subrange(w1s as int, w1e as int));
            let register = match get_register_by_name(line.substring_ascii(w1s, w1e)) {
                Some(c) => c,
                None => {
                    return None;
                },
            };
            Some(Operation::Clear(ClearToken { register }))
        } else if c0 == 'w' && c1 == 'r' && c2 == 'i' && c3 == 't' && c4 == 'e' {
            assert(ws[0] =~= seq!['w', 'r', 'i', 't', 'e']);
            Some(Operation::Write(WriteToken))
        } else if c0 == 'l' && c1 == 'a' && c2 == 'b' && c3 == 'e' && c4 == 'l' {
            assert(ws[0] =~= seq!['l', 'a', 'b', 'e', 'l']);
            let (w1s, w1e) = match next_word(line, w0e) {
                Some(bounds) => bounds,
                None => {
                    return None;
                },
            };
            assert(ws[1] == line@.subrange(w1s as int, w1e as int));
            let value = match parse_value(line.substring_ascii(w1s, w1e)) {
                Some(v) => v,
                None => {
                    return None;
                },
            };
            Some(Operation::Label(LabelToken { value }))
        } else if c0 == 'd' && c1 == 'e' && c2 == 'b' && c3 == 'u' && c4 == 'g' {
            assert(ws[0] =~= seq!['d', 'e', 'b', 'u', 'g']);
            Some(Operation::Debug(DebugToken))
        } else if c0 == 'p' && c1 == 'a' && c2 == 'u' && c3 == 's' && c4 == 'e' {
            assert(ws[0] =~= seq!['p', 'a', 'u', 's', 'e']);
            Some(Operation::Pause(PauseToken))
        } else {
            None
        }
    } else {
        None
    }
}

} // verus!
