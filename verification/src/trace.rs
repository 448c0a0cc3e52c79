//! A plain-text trace of the instructions queued in a frame, for reading what
//! was emitted where no backend is at hand.

use crate::instruction::{Instruction, InstructionModifier, InstructionTable, Program};
use crate::text::{decimal, decimal_text};
use vstd::prelude::*;
use vstd::slice::slice_subrange;

verus! {

/// The text of the hexadecimal digit `d`, in capitals.
pub open spec fn hex_digit_text(d: int) -> Seq<char> {
    if d < 10 {
        crate::text::digit_text(d)
    } else if d == 10 {
        "A"@
    } else if d == 11 {
        "B"@
    } else if d == 12 {
        "C"@
    } else if d == 13 {
        "D"@
    } else if d == 14 {
        "E"@
    } else {
        "F"@
    }
}

/// `n` in decimal digits, with zeros in front up to four digits.
pub open spec fn four_digit_text(n: nat) -> Seq<char> {
    if n < 10 {
        "000"@ + decimal_text(n)
    } else if n < 100 {
        "00"@ + decimal_text(n)
    } else if n < 1000 {
        "0"@ + decimal_text(n)
    } else {
        decimal_text(n)
    }
}

/// `acc`, and after it the first `n` of `bytes`, each as two hexadecimal
/// digits, a comma and a space between one and the next.
pub open spec fn with_bytes(acc: Seq<char>, bytes: Seq<u8>, n: int) -> Seq<char>
    decreases n,
{
    if n <= 0 {
        acc
    } else if n == 1 {
        acc + hex_digit_text(bytes[0] as int / 16) + hex_digit_text(bytes[0] as int % 16)
    } else {
        with_bytes(acc, bytes, n - 1) + ", "@ + hex_digit_text(bytes[n - 1] as int / 16)
            + hex_digit_text(bytes[n - 1] as int % 16)
    }
}

/// `acc`, and after it the kind of a placement: `SI`, or `SIM` with the
/// number of rows in brackets.
pub open spec fn with_modifier(acc: Seq<char>, modifier: InstructionModifier) -> Seq<char> {
    match modifier {
        InstructionModifier::SI => acc + "SI"@,
        InstructionModifier::SIM(n) => acc + "SIM("@ + decimal_text(n as nat) + ")"@,
    }
}

/// `acc`, and after it the entry of instruction number `i`: number and kind,
/// target, colour, offset and length in the store, and the bytes pointed
/// at.
pub open spec fn with_instruction(acc: Seq<char>, p: Program, i: int) -> Seq<char> {
    let ins = p.inst[i];
    let head = with_modifier(acc + four_digit_text(i as nat) + ": Instruction "@, ins.modifier)
        + "\n      goto "@ + decimal_text(ins.target.0 as nat) + " "@ + decimal_text(
        ins.target.1 as nat,
    ) + "\n      attr "@ + decimal_text(ins.color as nat) + "\n      byte "@ + decimal_text(
        ins.offset as nat,
    ) + " "@ + decimal_text(ins.length as nat) + "\n      bytes: ["@;
    with_bytes(head, p.span(ins), ins.length as int) + "]\n"@
}

/// What a trace starts with: a title, the size of the store, the number of
/// instructions, and an empty line.
pub open spec fn trace_head(p: Program) -> Seq<char> {
    "=== Instruction dump ===\nblob size: "@ + decimal_text(p.blob.len()) + " bytes\ninstruction count: "@
        + decimal_text(p.inst.len()) + "\n\n"@
}

/// The trace of the first `n` instructions.
pub open spec fn trace_text(p: Program, n: int) -> Seq<char>
    decreases n,
{
    if n <= 0 {
        trace_head(p)
    } else {
        with_instruction(trace_text(p, n - 1), p, n - 1)
    }
}

/// The text of one hexadecimal digit.
fn hex_digit(d: u8) -> (r: &'static str)
    requires
        d < 16,
    ensures
        r@ == hex_digit_text(d as int),
{
    if d == 0 {
        "0"
    } else if d == 1 {
        "1"
    } else if d == 2 {
        "2"
    } else if d == 3 {
        "3"
    } else if d == 4 {
        "4"
    } else if d == 5 {
        "5"
    } else if d == 6 {
        "6"
    } else if d == 7 {
        "7"
    } else if d == 8 {
        "8"
    } else if d == 9 {
        "9"
    } else if d == 10 {
        "A"
    } else if d == 11 {
        "B"
    } else if d == 12 {
        "C"
    } else if d == 13 {
        "D"
    } else if d == 14 {
        "E"
    } else {
        "F"
    }
}

/// Appends `n` with four digits at least.
fn push_four_digits(text: &mut String, n: usize)
    ensures
        final(text)@ == old(text)@ + four_digit_text(n as nat),
{
    if n < 10 {
        text.append("000");
    } else if n < 100 {
        text.append("00");
    } else if n < 1000 {
        text.append("0");
    }
    text.append(decimal(n as u64).as_str());
    assert(text@ =~= old(text)@ + four_digit_text(n as nat));
}

/// Appends `bytes` in hexadecimal.
fn push_bytes(text: &mut String, bytes: &[u8])
    ensures
        final(text)@ == with_bytes(old(text)@, bytes@, bytes@.len() as int),
{
    let mut k: usize = 0;
    while k < bytes.len()
        invariant
            k <= bytes@.len(),
            text@ == with_bytes(old(text)@, bytes@, k as int),
        decreases bytes.len() - k,
    {
        if k > 0 {
            text.append(", ");
        }
        let b: u8 = bytes[k];
        text.append(hex_digit(b / 16));
        text.append(hex_digit(b % 16));
        k += 1;
    }
}

/// Appends the entry of instruction number `i`.
fn push_instruction(text: &mut String, i: usize, ins: &Instruction, bytes: &[u8])
    ensures
        final(text)@ == with_bytes(
            with_modifier(old(text)@ + four_digit_text(i as nat) + ": Instruction "@, ins.modifier)
                + "\n      goto "@ + decimal_text(ins.target.0 as nat) + " "@ + decimal_text(
                ins.target.1 as nat,
            ) + "\n      attr "@ + decimal_text(ins.color as nat) + "\n      byte "@
                + decimal_text(ins.offset as nat) + " "@ + decimal_text(ins.length as nat)
                + "\n      bytes: ["@,
            bytes@,
            bytes@.len() as int,
        ) + "]\n"@,
{
    push_four_digits(text, i);
    text.append(": Instruction ");
    match ins.modifier {
        InstructionModifier::SI => {
            text.append("SI");
        },
        InstructionModifier::SIM(n) => {
            text.append("SIM(");
            text.append(decimal(n as u64).as_str());
            text.append(")");
        },
    }
    text.append("\n      goto ");
    text.append(decimal(ins.target.0 as u64).as_str());
    text.append(" ");
    text.append(decimal(ins.target.1 as u64).as_str());
    text.append("\n      attr ");
    text.append(decimal(ins.color as u64).as_str());
    text.append("\n      byte ");
    text.append(decimal(ins.offset as u64).as_str());
    text.append(" ");
    text.append(decimal(ins.length as u64).as_str());
    text.append("\n      bytes: [");
    push_bytes(text, bytes);
    text.append("]\n");
}

/// The trace of everything queued in `table`: a head, then one entry for
/// each instruction, in the order queued.
pub fn dump(table: &InstructionTable) -> (r: String)
    requires
        table@.wf(),
    ensures
        r@ == trace_text(table@, table@.inst.len() as int),
{
    let blob = table.bytes();
    let inst = table.instructions();
    let mut text = "=== Instruction dump ===\nblob size: ".to_owned();
    text.append(decimal(blob.len() as u64).as_str());
    text.append(" bytes\ninstruction count: ");
    text.append(decimal(inst.len() as u64).as_str());
    text.append("\n\n");
    let mut i: usize = 0;
    while i < inst.len()
        invariant
            i <= inst@.len(),
            table@.wf(),
            inst@ == table@.inst,
            blob@ == table@.blob,
            text@ == trace_text(table@, i as int),
        decreases inst.len() - i,
    {
        let ins: Instruction = inst[i];
        assert(table@.instruction_wf(table@.inst[i as int]));
        let bytes = slice_subrange(blob.as_slice(), ins.offset, ins.offset + ins.length);
        push_instruction(&mut text, i, &ins, bytes);
        i += 1;
    }
    text
}

} // verus!
