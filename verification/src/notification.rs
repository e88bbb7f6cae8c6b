//! System messages embedded in game notifications.
//!
//! The backend can smuggle a message for the in-game terminal into an
//! ordinary notification: one line of the notification text starts with
//! a marker, and the rest of that line is the message document. This
//! module finds that payload; turning it into a `SystemTerminalMessage`
//! value, and handing it to the game, is the shell's work.

use vstd::prelude::*;

verus! {

/// A system message the backend embeds for the in-game terminal.
#[derive(Debug)]
pub struct SystemTerminalMessage {
    /// Title displayed on the terminal.
    pub title: String,
    /// Message displayed on the terminal.
    pub message: String,
    /// Image shown at the top of the terminal; empty for the default.
    pub image: String,
    /// Where the message appears.
    pub ty: u8,
    /// Tracking id, usable to replace an earlier message.
    pub tracking_id: i32,
    /// Ordering priority of the message.
    pub priority: i32,
}

/// "[SYSTEM_TERMINAL]" in ASCII: the marker opening an embedded system
/// message line.
pub open spec fn spec_terminal_marker() -> Seq<u8> {
    seq![
        0x5Bu8, 0x53u8, 0x59u8, 0x53u8, 0x54u8, 0x45u8, 0x4Du8, 0x5Fu8, 0x54u8, 0x45u8,
        0x52u8, 0x4Du8, 0x49u8, 0x4Eu8, 0x41u8, 0x4Cu8, 0x5Du8,
    ]
}

/// The marker opening an embedded system message line, as bytes.
pub fn terminal_marker() -> (r: Vec<u8>)
    ensures
        r@ == spec_terminal_marker(),
{
    let mut r: Vec<u8> = Vec::new();
    r.push(0x5B); // [
    r.push(0x53); // S
    r.push(0x59); // Y
    r.push(0x53); // S
    r.push(0x54); // T
    r.push(0x45); // E
    r.push(0x4D); // M
    r.push(0x5F); // _
    r.push(0x54); // T
    r.push(0x45); // E
    r.push(0x52); // R
    r.push(0x4D); // M
    r.push(0x49); // I
    r.push(0x4E); // N
    r.push(0x41); // A
    r.push(0x4C); // L
    r.push(0x5D); // ]
    assert(r@ =~= spec_terminal_marker());
    r
}

/// A line without its trailing carriage return, so texts with either
/// line ending read the same.
pub open spec fn spec_trim_cr(line: Seq<u8>) -> Seq<u8> {
    if line.len() > 0 && line[line.len() - 1] == 0x0D {
        line.take(line.len() - 1)
    } else {
        line
    }
}

/// The payload of one line: what follows the marker, when the trimmed
/// line starts with it.
pub open spec fn spec_line_payload(line: Seq<u8>) -> Option<Seq<u8>> {
    let t = spec_trim_cr(line);
    if t.len() >= 17 && t.take(17) == spec_terminal_marker() {
        Some(t.skip(17))
    } else {
        None
    }
}

/// Scans the text byte by byte, with the current line accumulated in
/// `cur`, for the first marked line's payload.
pub open spec fn spec_scan_lines(rest: Seq<u8>, cur: Seq<u8>) -> Option<Seq<u8>>
    decreases rest.len(),
{
    if rest.len() == 0 {
        spec_line_payload(cur)
    } else if rest[0] == 0x0A {
        match spec_line_payload(cur) {
            Some(p) => Some(p),
            None => spec_scan_lines(rest.skip(1), Seq::empty()),
        }
    } else {
        spec_scan_lines(rest.skip(1), cur.push(rest[0]))
    }
}

/// The embedded payload of a notification text: the remainder of its
/// first line that starts with the marker, or nothing.
pub open spec fn spec_terminal_payload(text: Seq<u8>) -> Option<Seq<u8>> {
    spec_scan_lines(text, Seq::empty())
}

/// Tests one finished line, returning its payload when it is marked.
fn line_payload(line: &Vec<u8>) -> (r: Option<Vec<u8>>)
    ensures
        match r {
            Some(p) => spec_line_payload(line@) == Some(p@),
            None => spec_line_payload(line@) is None,
        },
{
    let mut eff: usize = line.len();
    if eff > 0 && line[eff - 1] == 0x0D {
        eff = eff - 1;
    }
    assert(spec_trim_cr(line@) =~= line@.take(eff as int));
    if eff < 17 {
        return None;
    }
    let marker = terminal_marker();
    let mut k: usize = 0;
    while k < 17
        invariant
            k <= 17,
            17 <= eff <= line@.len(),
            marker@ == spec_terminal_marker(),
            spec_trim_cr(line@) == line@.take(eff as int),
            forall|t: int| 0 <= t < k ==> line@[t] == spec_terminal_marker()[t],
        decreases 17 - k,
    {
        if line[k] != marker[k] {
            proof {
                let t = spec_trim_cr(line@);
                assert(t.take(17)[k as int] == line@[k as int]);
            }
            return None;
        }
        k = k + 1;
    }
    assert(spec_trim_cr(line@).take(17) =~= spec_terminal_marker());
    let mut payload: Vec<u8> = Vec::new();
    let mut i: usize = 17;
    while i < eff
        invariant
            17 <= i <= eff <= line@.len(),
            payload@ == line@.subrange(17, i as int),
        decreases eff - i,
    {
        payload.push(line[i]);
        i = i + 1;
        assert(payload@ =~= line@.subrange(17, i as int));
    }
    assert(payload@ =~= spec_trim_cr(line@).skip(17));
    Some(payload)
}

/// Finds the embedded system-message payload of a notification text:
/// the rest of the first line starting with the marker, with a trailing
/// carriage return stripped; nothing when no line is marked.
pub fn extract_system_terminal_payload(text: &Vec<u8>) -> (r: Option<Vec<u8>>)
    ensures
        match r {
            Some(p) => spec_terminal_payload(text@) == Some(p@),
            None => spec_terminal_payload(text@) is None,
        },
{
    let mut cur: Vec<u8> = Vec::new();
    let mut i: usize = 0;
    proof {
        assert(text@.skip(0) =~= text@);
    }
    while i < text.len()
        invariant
            i <= text.len(),
            spec_scan_lines(text@, Seq::empty()) == spec_scan_lines(text@.skip(i as int), cur@),
        decreases text.len() - i,
    {
        let ghost rest = text@.skip(i as int);
        assert(rest[0] == text@[i as int]);
        let b = text[i];
        if b == 0x0A {
            match line_payload(&cur) {
                Some(p) => {
                    return Some(p);
                },
                None => {
                    cur = Vec::new();
                },
            }
        } else {
            cur.push(b);
        }
        i = i + 1;
        assert(text@.skip(i as int) =~= rest.skip(1));
    }
    assert(text@.skip(i as int) =~= Seq::<u8>::empty());
    line_payload(&cur)
}

} // verus!
