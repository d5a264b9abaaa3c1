//! The register snapshot taken when a fault is recognised, and its text
//! form.
use vstd::prelude::*;
use vstd::string::*;

verus! {

/// The character for a hexadecimal digit `d`, below 16.
pub open spec fn hex_digit(d: u32) -> char {
    match d {
        0 => '0',
        1 => '1',
        2 => '2',
        3 => '3',
        4 => '4',
        5 => '5',
        6 => '6',
        7 => '7',
        8 => '8',
        9 => '9',
        10 => 'a',
        11 => 'b',
        12 => 'c',
        13 => 'd',
        14 => 'e',
        _ => 'f',
    }
}

/// Digit `i` of `v`, counted from the most significant of its eight.
pub open spec fn nibble(v: u32, i: int) -> u32 {
    (v >> ((28 - 4 * i) as u32)) & 0xf
}

/// `v` in eight lower-case hexadecimal digits, zero-padded.
pub open spec fn hex8(v: u32) -> Seq<char> {
    Seq::new(8, |i: int| hex_digit(nibble(v, i)))
}

fn digit_text(d: u32) -> (r: &'static str)
    requires
        d < 16,
    ensures
        r@ == seq![hex_digit(d)],
{
    match d {
        0 => {
            proof {
                reveal_strlit("0");
            }
            "0"
        },
        1 => {
            proof {
                reveal_strlit("1");
            }
            "1"
        },
        2 => {
            proof {
                reveal_strlit("2");
            }
            "2"
        },
        3 => {
            proof {
                reveal_strlit("3");
            }
            "3"
        },
        4 => {
            proof {
                reveal_strlit("4");
            }
            "4"
        },
        5 => {
            proof {
                reveal_strlit("5");
            }
            "5"
        },
        6 => {
            proof {
                reveal_strlit("6");
            }
            "6"
        },
        7 => {
            proof {
                reveal_strlit("7");
            }
            "7"
        },
        8 => {
            proof {
                reveal_strlit("8");
            }
            "8"
        },
        9 => {
            proof {
                reveal_strlit("9");
            }
            "9"
        },
        10 => {
            proof {
                reveal_strlit("a");
            }
            "a"
        },
        11 => {
            proof {
                reveal_strlit("b");
            }
            "b"
        },
        12 => {
            proof {
                reveal_strlit("c");
            }
            "c"
        },
        13 => {
            proof {
                reveal_strlit("d");
            }
            "d"
        },
        14 => {
            proof {
                reveal_strlit("e");
            }
            "e"
        },
        _ => {
            proof {
                reveal_strlit("f");
            }
            "f"
        },
    }
}

/// Appends `v` to `out` in eight hexadecimal digits.
pub fn push_hex8(out: &mut String, v: u32)
    ensures
        final(out)@ == old(out)@ + hex8(v),
{
    let ghost start = out@;
    let mut i: u32 = 0;
    while i < 8
        invariant
            i <= 8,
            out@ == start + hex8(v).take(i as int),
        decreases 8 - i,
    {
        let shift: u32 = 28 - 4 * i;
        let d = (v >> shift) & 0xf;
        assert((v >> shift) & 0xf < 16) by (bit_vector);
        out.append(digit_text(d));
        assert(hex8(v).take(i + 1) =~= hex8(v).take(i as int).push(hex_digit(d)));
        i = i + 1;
    }
    assert(hex8(v).take(8) =~= hex8(v));
}

/// The registers of the interrupted code, as saved on entry to the fault
/// handler: program counter and status, the sixteen address registers, the
/// special registers (shift amount, exception cause and address, loop
/// control, thread pointer, compare, boolean, accumulator and multiplier
/// registers) and the floating-point bank.
#[allow(missing_docs, non_snake_case)]
#[derive(Clone, Copy, Default, PartialEq, Eq, Structural)]
pub struct Context {
    pub PC: u32,
    pub PS: u32,
    pub A0: u32,
    pub A1: u32,
    pub A2: u32,
    pub A3: u32,
    pub A4: u32,
    pub A5: u32,
    pub A6: u32,
    pub A7: u32,
    pub A8: u32,
    pub A9: u32,
    pub A10: u32,
    pub A11: u32,
    pub A12: u32,
    pub A13: u32,
    pub A14: u32,
    pub A15: u32,
    pub SAR: u32,
    pub EXCCAUSE: u32,
    pub EXCVADDR: u32,
    pub LBEG: u32,
    pub LEND: u32,
    pub LCOUNT: u32,
    pub THREADPTR: u32,
    pub SCOMPARE1: u32,
    pub BR: u32,
    pub ACCLO: u32,
    pub ACCHI: u32,
    pub M0: u32,
    pub M1: u32,
    pub M2: u32,
    pub M3: u32,
    pub F64R_LO: u32,
    pub F64R_HI: u32,
    pub F64S: u32,
    pub FCR: u32,
    pub FSR: u32,
    pub F0: u32,
    pub F1: u32,
    pub F2: u32,
    pub F3: u32,
    pub F4: u32,
    pub F5: u32,
    pub F6: u32,
    pub F7: u32,
    pub F8: u32,
    pub F9: u32,
    pub F10: u32,
    pub F11: u32,
    pub F12: u32,
    pub F13: u32,
    pub F14: u32,
    pub F15: u32,
}

/// The text of a snapshot: one line per group of registers, each value in
/// eight hexadecimal digits.
pub open spec fn render_text(c: Context) -> Seq<char> {
    "Context\nPC=0x"@
        + hex8(c.PC)
        + "       PS=0x"@
        + hex8(c.PS)
        + "\nA0=0x"@
        + hex8(c.A0)
        + "       A1=0x"@
        + hex8(c.A1)
        + "       A2=0x"@
        + hex8(c.A2)
        + "       A3=0x"@
        + hex8(c.A3)
        + "       A4=0x"@
        + hex8(c.A4)
        + "\nA5=0x"@
        + hex8(c.A5)
        + "       A6=0x"@
        + hex8(c.A6)
        + "       A7=0x"@
        + hex8(c.A7)
        + "       A8=0x"@
        + hex8(c.A8)
        + "       A9=0x"@
        + hex8(c.A9)
        + "\nA10=0x"@
        + hex8(c.A10)
        + "      A11=0x"@
        + hex8(c.A11)
        + "      A12=0x"@
        + hex8(c.A12)
        + "      A13=0x"@
        + hex8(c.A13)
        + "      A14=0x"@
        + hex8(c.A14)
        + "\nA15=0x"@
        + hex8(c.A15)
        + "\nSAR="@
        + hex8(c.SAR)
        + "\nEXCCAUSE=0x"@
        + hex8(c.EXCCAUSE)
        + " EXCVADDR=0x"@
        + hex8(c.EXCVADDR)
        + "\nLBEG=0x"@
        + hex8(c.LBEG)
        + "     LEND=0x"@
        + hex8(c.LEND)
        + "     LCOUNT=0x"@
        + hex8(c.LCOUNT)
        + "\nTHREADPTR=0x"@
        + hex8(c.THREADPTR)
        + "\nSCOMPARE1=0x"@
        + hex8(c.SCOMPARE1)
        + "\nBR=0x"@
        + hex8(c.BR)
        + "\nACCLO=0x"@
        + hex8(c.ACCLO)
        + "    ACCHI=0x"@
        + hex8(c.ACCHI)
        + "\nM0=0x"@
        + hex8(c.M0)
        + "       M1=0x"@
        + hex8(c.M1)
        + "       M2=0x"@
        + hex8(c.M2)
        + "       M3=0x"@
        + hex8(c.M3)
        + "\nF64R_LO=0x"@
        + hex8(c.F64R_LO)
        + "  F64R_HI=0x"@
        + hex8(c.F64R_HI)
        + "  F64S=0x"@
        + hex8(c.F64S)
        + "\nFCR=0x"@
        + hex8(c.FCR)
        + "      FSR=0x"@
        + hex8(c.FSR)
        + "\nF0=0x"@
        + hex8(c.F0)
        + "       F1=0x"@
        + hex8(c.F1)
        + "       F2=0x"@
        + hex8(c.F2)
        + "       F3=0x"@
        + hex8(c.F3)
        + "       F4=0x"@
        + hex8(c.F4)
        + "\nF5=0x"@
        + hex8(c.F5)
        + "       F6=0x"@
        + hex8(c.F6)
        + "       F7=0x"@
        + hex8(c.F7)
        + "       F8=0x"@
        + hex8(c.F8)
        + "       F9=0x"@
        + hex8(c.F9)
        + "\nF10=0x"@
        + hex8(c.F10)
        + "      F11=0x"@
        + hex8(c.F11)
        + "      F12=0x"@
        + hex8(c.F12)
        + "      F13=0x"@
        + hex8(c.F13)
        + "      F14=0x"@
        + hex8(c.F14)
        + "\nF15=0x"@
        + hex8(c.F15)
        + "\n"@
}

impl Context {
    /// The snapshot as text, in a layout that depends on the values alone.
    pub fn render(&self) -> (r: String)
        ensures
            r@ == render_text(*self),
    {
        let mut out = String::from_str("Context\nPC=0x");
        push_hex8(&mut out, self.PC);
        out.append("       PS=0x");
        push_hex8(&mut out, self.PS);
        out.append("\nA0=0x");
        push_hex8(&mut out, self.A0);
        out.append("       A1=0x");
        push_hex8(&mut out, self.A1);
        out.append("       A2=0x");
        push_hex8(&mut out, self.A2);
        out.append("       A3=0x");
        push_hex8(&mut out, self.A3);
        out.append("       A4=0x");
        push_hex8(&mut out, self.A4);
        out.append("\nA5=0x");
        push_hex8(&mut out, self.A5);
        out.append("       A6=0x");
        push_hex8(&mut out, self.A6);
        out.append("       A7=0x");
        push_hex8(&mut out, self.A7);
        out.append("       A8=0x");
        push_hex8(&mut out, self.A8);
        out.append("       A9=0x");
        push_hex8(&mut out, self.A9);
        out.append("\nA10=0x");
        push_hex8(&mut out, self.A10);
        out.append("      A11=0x");
        push_hex8(&mut out, self.A11);
        out.append("      A12=0x");
        push_hex8(&mut out, self.A12);
        out.append("      A13=0x");
        push_hex8(&mut out, self.A13);
        out.append("      A14=0x");
        push_hex8(&mut out, self.A14);
        out.append("\nA15=0x");
        push_hex8(&mut out, self.A15);
        out.append("\nSAR=");
        push_hex8(&mut out, self.SAR);
        out.append("\nEXCCAUSE=0x");
        push_hex8(&mut out, self.EXCCAUSE);
        out.append(" EXCVADDR=0x");
        push_hex8(&mut out, self.EXCVADDR);
        out.append("\nLBEG=0x");
        push_hex8(&mut out, self.LBEG);
        out.append("     LEND=0x");
        push_hex8(&mut out, self.LEND);
        out.append("     LCOUNT=0x");
        push_hex8(&mut out, self.LCOUNT);
        out.append("\nTHREADPTR=0x");
        push_hex8(&mut out, self.THREADPTR);
        out.append("\nSCOMPARE1=0x");
        push_hex8(&mut out, self.SCOMPARE1);
        out.append("\nBR=0x");
        push_hex8(&mut out, self.BR);
        out.append("\nACCLO=0x");
        push_hex8(&mut out, self.ACCLO);
        out.append("    ACCHI=0x");
        push_hex8(&mut out, self.ACCHI);
        out.append("\nM0=0x");
        push_hex8(&mut out, self.M0);
        out.append("       M1=0x");
        push_hex8(&mut out, self.M1);
        out.append("       M2=0x");
        push_hex8(&mut out, self.M2);
        out.append("       M3=0x");
        push_hex8(&mut out, self.M3);
        out.append("\nF64R_LO=0x");
        push_hex8(&mut out, self.F64R_LO);
        out.append("  F64R_HI=0x");
        push_hex8(&mut out, self.F64R_HI);
        out.append("  F64S=0x");
        push_hex8(&mut out, self.F64S);
        out.append("\nFCR=0x");
        push_hex8(&mut out, self.FCR);
        out.append("      FSR=0x");
        push_hex8(&mut out, self.FSR);
        out.append("\nF0=0x");
        push_hex8(&mut out, self.F0);
        out.append("       F1=0x");
        push_hex8(&mut out, self.F1);
        out.append("       F2=0x");
        push_hex8(&mut out, self.F2);
        out.append("       F3=0x");
        push_hex8(&mut out, self.F3);
        out.append("       F4=0x");
        push_hex8(&mut out, self.F4);
        out.append("\nF5=0x");
        push_hex8(&mut out, self.F5);
        out.append("       F6=0x");
        push_hex8(&mut out, self.F6);
        out.append("       F7=0x");
        push_hex8(&mut out, self.F7);
        out.append("       F8=0x");
        push_hex8(&mut out, self.F8);
        out.append("       F9=0x");
        push_hex8(&mut out, self.F9);
        out.append("\nF10=0x");
        push_hex8(&mut out, self.F10);
        out.append("      F11=0x");
        push_hex8(&mut out, self.F11);
        out.append("      F12=0x");
        push_hex8(&mut out, self.F12);
        out.append("      F13=0x");
        push_hex8(&mut out, self.F13);
        out.append("      F14=0x");
        push_hex8(&mut out, self.F14);
        out.append("\nF15=0x");
        push_hex8(&mut out, self.F15);
        out.append("\n");
        out
    }
}

/// Equal snapshots render to the same text.
pub proof fn lemma_render_deterministic(a: Context, b: Context)
    requires
        a == b,
    ensures
        render_text(a) == render_text(b),
{
}

} // verus!
