//! How deeply the records of a build's output are nested.
//!
//! A record is one line of JSON. The reader that decodes the lines descends
//! once for each array or object that is open, without a limit of its own,
//! so the depth is measured before any line is handed to it.

use vstd::prelude::*;

verus! {

/// The deepest nesting that is handed to the reader.
pub const NESTING_LIMIT: usize = 127;

/// What is known after a part of the output was looked at.
pub struct Scan {
    /// How many arrays and objects are open in the current line.
    pub depth: nat,
    /// Whether the current place is inside a string.
    pub quoted: bool,
    /// Whether the current place follows a backslash inside a string.
    pub escaped: bool,
    /// The greatest depth met so far, in any line.
    pub deepest: nat,
}

/// The state before anything was looked at.
pub open spec fn start() -> Scan {
    Scan { depth: 0, quoted: false, escaped: false, deepest: 0 }
}

/// The state after one more byte. A line break ends the line, and with it
/// whatever was open. Inside a string only its end and a backslash matter;
/// outside, `[` and `{` open and `]` and `}` close.
pub open spec fn step(scan: Scan, byte: u8) -> Scan {
    if byte == 0x0a {
        Scan { depth: 0, quoted: false, escaped: false, deepest: scan.deepest }
    } else if scan.quoted {
        if scan.escaped {
            Scan { escaped: false, ..scan }
        } else if byte == 0x5c {
            Scan { escaped: true, ..scan }
        } else if byte == 0x22 {
            Scan { quoted: false, ..scan }
        } else {
            scan
        }
    } else if byte == 0x22 {
        Scan { quoted: true, ..scan }
    } else if byte == 0x5b || byte == 0x7b {
        Scan {
            depth: scan.depth + 1,
            deepest: if scan.depth + 1 > scan.deepest {
                scan.depth + 1
            } else {
                scan.deepest
            },
            ..scan
        }
    } else if byte == 0x5d || byte == 0x7d {
        Scan {
            depth: if scan.depth > 0 {
                (scan.depth - 1) as nat
            } else {
                0
            },
            ..scan
        }
    } else {
        scan
    }
}

/// The state after all of `bytes`.
pub open spec fn scanned(bytes: Seq<u8>) -> Scan
    decreases bytes.len(),
{
    if bytes.len() == 0 {
        start()
    } else {
        step(scanned(bytes.drop_last()), bytes.last())
    }
}

/// The greatest number of arrays and objects that are open at once in any
/// line of `bytes`.
pub open spec fn deepest_nesting(bytes: Seq<u8>) -> nat {
    scanned(bytes).deepest
}

/// Measures the nesting of the lines of `bytes`.
pub fn measure_nesting(bytes: &[u8]) -> (deepest: usize)
    ensures
        deepest == deepest_nesting(bytes@),
{
    let mut depth: usize = 0;
    let mut deepest: usize = 0;
    let mut quoted = false;
    let mut escaped = false;
    let mut at: usize = 0;
    assert(bytes@.take(0) =~= Seq::<u8>::empty());
    while at < bytes.len()
        invariant
            at <= bytes.len(),
            depth <= deepest <= at,
            scanned(bytes@.take(at as int)) == (Scan {
                depth: depth as nat,
                quoted,
                escaped,
                deepest: deepest as nat,
            }),
        decreases bytes.len() - at,
    {
        let byte = bytes[at];
        proof {
            assert(bytes@.take(at + 1).drop_last() =~= bytes@.take(at as int));
            assert(bytes@.take(at + 1).last() == byte);
        }
        if byte == 0x0a {
            depth = 0;
            quoted = false;
            escaped = false;
        } else if quoted {
            if escaped {
                escaped = false;
            } else if byte == 0x5c {
                escaped = true;
            } else if byte == 0x22 {
                quoted = false;
            }
        } else if byte == 0x22 {
            quoted = true;
        } else if byte == 0x5b || byte == 0x7b {
            depth += 1;
            if depth > deepest {
                deepest = depth;
            }
        } else if byte == 0x5d || byte == 0x7d {
            if depth > 0 {
                depth -= 1;
            }
        }
        at += 1;
    }
    assert(bytes@.take(at as int) =~= bytes@);
    deepest
}

} // verus!
