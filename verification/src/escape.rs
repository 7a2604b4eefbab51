//! The raw bytes the board writes around its frames: base64 for `OSC 52`,
//! palette redefinitions, effect sequences, cursor shapes and hyperlinks,
//! plus the reading of a `DECRQM` reply, the command line and exit codes.

use vstd::prelude::*;

use crate::model::{EffectView, Effect, Mode, Quit};
use crate::text::{decimal, push_decimal};

verus! {

/// The base64 digit for a six-bit value.
pub open spec fn b64_digit(v: nat) -> char {
    if v < 26 {
        (65 + v) as char
    } else if v < 52 {
        (97 + (v - 26)) as char
    } else if v < 62 {
        (48 + (v - 52)) as char
    } else if v == 62 {
        '+'
    } else {
        '/'
    }
}

/// The four characters that encode one chunk of one to three bytes; a
/// short chunk is padded with `=`.
pub open spec fn b64_chunk(c: Seq<u8>) -> Seq<char> {
    let b1: nat = if c.len() > 1 {
        c[1] as nat
    } else {
        0
    };
    let b2: nat = if c.len() > 2 {
        c[2] as nat
    } else {
        0
    };
    let n: nat = (c[0] as nat) * 65536 + b1 * 256 + b2;
    seq![
        b64_digit((n / 262144) % 64),
        b64_digit((n / 4096) % 64),
        if c.len() >= 2 {
            b64_digit((n / 64) % 64)
        } else {
            '='
        },
        if c.len() >= 3 {
            b64_digit(n % 64)
        } else {
            '='
        },
    ]
}

/// Standard base64 (RFC 4648 alphabet, with padding).
pub open spec fn base64_spec(input: Seq<u8>) -> Seq<char>
    decreases input.len(),
{
    if input.len() == 0 {
        Seq::empty()
    } else {
        let k = if input.len() < 3 {
            input.len() as int
        } else {
            3
        };
        b64_chunk(input.take(k)) + base64_spec(input.skip(k))
    }
}

/// Whether `c` is one of the 64 base64 digits (`A`–`Z`, `a`–`z`, `0`–`9`,
/// `+`, `/`).
pub open spec fn is_b64_digit_char(c: char) -> bool {
    let n = c as u32;
    (65 <= n <= 90) || (97 <= n <= 122) || (48 <= n <= 57) || n == 43 || n == 47
}

/// The six-bit value of a base64 digit (0 for anything else, `=` among it).
pub open spec fn b64_value(c: char) -> nat {
    let n = c as u32;
    if 65 <= n <= 90 {
        (n - 65) as nat
    } else if 97 <= n <= 122 {
        (n - 97 + 26) as nat
    } else if 48 <= n <= 57 {
        (n - 48 + 52) as nat
    } else if n == 43 {
        62
    } else if n == 47 {
        63
    } else {
        0
    }
}

/// The bytes of one group of four characters: three, or fewer where the
/// group ends in `=` padding.
pub open spec fn b64_decode_quad(q: Seq<char>) -> Seq<u8> {
    let n: nat = b64_value(q[0]) * 262144 + b64_value(q[1]) * 4096 + b64_value(q[2]) * 64
        + b64_value(q[3]);
    let bytes = seq![(n / 65536 % 256) as u8, (n / 256 % 256) as u8, (n % 256) as u8];
    if q[2] == '=' {
        bytes.take(1)
    } else if q[3] == '=' {
        bytes.take(2)
    } else {
        bytes
    }
}

/// Standard padded base64 decoding (RFC 4648), group by group.
pub open spec fn base64_decode_spec(s: Seq<char>) -> Seq<u8>
    decreases s.len(),
{
    if s.len() < 4 {
        Seq::empty()
    } else {
        b64_decode_quad(s.take(4)) + base64_decode_spec(s.skip(4))
    }
}

/// The base64 digit for `v`, which is below 64.
fn b64_digit_exec(v: u32) -> (r: char)
    requires
        v < 64,
    ensures
        r == b64_digit(v as nat),
{
    if v < 26 {
        (65 + v as u8) as char
    } else if v < 52 {
        (97 + (v - 26) as u8) as char
    } else if v < 62 {
        (48 + (v - 52) as u8) as char
    } else if v == 62 {
        '+'
    } else {
        '/'
    }
}

/// Minimal base64 for `OSC 52`, which takes its payload encoded.
pub fn base64(input: &[u8]) -> (r: String)
    ensures
        r@ == base64_spec(input@),
{
    let mut out = String::new();
    let len = input.len();
    let mut i: usize = 0;
    assert(input@.skip(0) =~= input@);
    while i < len
        invariant
            len == input@.len(),
            i <= len,
            base64_spec(input@) == out@ + base64_spec(input@.skip(i as int)),
        decreases len - i,
    {
        let rest = len - i;
        let k: usize = if rest < 3 {
            rest
        } else {
            3
        };
        let b0 = input[i] as u32;
        let b1: u32 = if k > 1 {
            input[i + 1] as u32
        } else {
            0
        };
        let b2: u32 = if k > 2 {
            input[i + 2] as u32
        } else {
            0
        };
        let n: u32 = b0 * 65536 + b1 * 256 + b2;
        let ghost tail = input@.skip(i as int);
        let ghost chunk = tail.take(k as int);
        assert(chunk[0] == input@[i as int]);
        assert(k > 1 ==> chunk[1] == input@[i + 1]);
        assert(k > 2 ==> chunk[2] == input@[i + 2]);
        let c0 = b64_digit_exec((n / 262144) % 64);
        let c1 = b64_digit_exec((n / 4096) % 64);
        let c2 = if k >= 2 {
            b64_digit_exec((n / 64) % 64)
        } else {
            '='
        };
        let c3 = if k >= 3 {
            b64_digit_exec(n % 64)
        } else {
            '='
        };
        let ghost before = out@;
        crate::text::push_char(&mut out, c0);
        crate::text::push_char(&mut out, c1);
        crate::text::push_char(&mut out, c2);
        crate::text::push_char(&mut out, c3);
        proof {
            assert(b64_chunk(chunk) =~= seq![c0, c1, c2, c3]);
            assert(tail.skip(k as int) =~= input@.skip(i + k));
            assert(out@ =~= before + b64_chunk(chunk));
        }
        i = i + k;
    }
    out
}

/// One `OSC 4` entry: palette slot `slot` becomes `rgb`.
pub open spec fn palette_entry(slot: nat, rgb: Seq<char>) -> Seq<char> {
    "\x1b]4;"@ + decimal(slot) + ";rgb:"@ + rgb + "\x1b\\"@
}

/// The high-contrast palette for slots 1-6, or the `OSC 104` reset.
pub open spec fn palette_spec(high_contrast: bool) -> Seq<char> {
    if high_contrast {
        palette_entry(1, "ff/00/40"@) + palette_entry(2, "00/ff/80"@) + palette_entry(
            3,
            "ff/ff/00"@,
        ) + palette_entry(4, "00/c0/ff"@) + palette_entry(5, "ff/00/ff"@) + palette_entry(
            6,
            "00/ff/ff"@,
        )
    } else {
        "\x1b]104\x1b\\"@
    }
}

fn push_palette_entry(out: &mut String, slot: u64, rgb: &str)
    ensures
        final(out)@ == old(out)@ + palette_entry(slot as nat, rgb@),
{
    out.append("\x1b]4;");
    push_decimal(out, slot);
    out.append(";rgb:");
    out.append(rgb);
    out.append("\x1b\\");
    assert(final(out)@ =~= old(out)@ + palette_entry(slot as nat, rgb@));
}

/// `OSC 4` palette redefinition, or the reset form.
pub fn palette_sequences(high_contrast: bool) -> (r: String)
    ensures
        r@ == palette_spec(high_contrast),
{
    // Slots 1-6 are the ones the UI actually paints with.
    let mut out = String::new();
    if high_contrast {
        push_palette_entry(&mut out, 1, "ff/00/40");
        push_palette_entry(&mut out, 2, "00/ff/80");
        push_palette_entry(&mut out, 3, "ff/ff/00");
        push_palette_entry(&mut out, 4, "00/c0/ff");
        push_palette_entry(&mut out, 5, "ff/00/ff");
        push_palette_entry(&mut out, 6, "00/ff/ff");
        assert(out@ =~= palette_spec(true));
    } else {
        // OSC 104 resets palette entries to their defaults.
        out.append("\x1b]104\x1b\\");
        assert(out@ =~= palette_spec(false));
    }
    out
}

/// The bytes an effect is written as.
pub open spec fn effect_spec(e: EffectView) -> Seq<char> {
    match e {
        EffectView::Bell => "\x07"@,
        EffectView::Copy(text) => "\x1b]52;c;"@ + base64_spec(vstd::utf8::encode_utf8(text))
            + "\x1b\\"@,
        EffectView::Title(title) => "\x1b]2;"@ + title + "\x07"@,
        EffectView::Palette(on) => palette_spec(on),
    }
}

/// The escape sequence for one effect: `BEL`, an `OSC 52` clipboard write
/// of the UTF-8 bytes in base64, an `OSC 2` title, or an `OSC 4` palette.
pub fn effect_sequence(effect: &Effect) -> (r: String)
    ensures
        r@ == effect_spec(effect@),
{
    match effect {
        Effect::Bell => String::from_str("\x07"),
        Effect::Copy(text) => {
            let mut out = String::from_str("\x1b]52;c;");
            let encoded = base64(text.as_str().as_bytes());
            out.append(encoded.as_str());
            out.append("\x1b\\");
            out
        },
        Effect::Title(title) => {
            let mut out = String::from_str("\x1b]2;");
            out.append(title.as_str());
            out.append("\x07");
            out
        },
        Effect::Palette(on) => palette_sequences(*on),
    }
}

/// `DECSCUSR`: a bar while typing a filter, a block otherwise.
pub fn cursor_shape_sequence(mode: &Mode) -> (r: &'static str)
    ensures
        r@ == if mode@ is Filter {
            "\x1b[5 q"@
        } else {
            "\x1b[2 q"@
        },
{
    match mode {
        Mode::Filter { .. } => "\x1b[5 q",
        _ => "\x1b[2 q",
    }
}

/// `CUP`: move the cursor to column `x`, row `y` (both counted from zero).
pub fn cursor_to_sequence(x: u16, y: u16) -> (r: String)
    ensures
        r@ == "\x1b["@ + decimal(y as nat + 1) + ";"@ + decimal(x as nat + 1) + "H"@,
{
    let mut out = String::from_str("\x1b[");
    push_decimal(&mut out, y as u64 + 1);
    out.append(";");
    push_decimal(&mut out, x as u64 + 1);
    out.append("H");
    out
}

/// `OSC 8`: `label` as a hyperlink to `url`.
pub fn hyperlink_sequence(label: &str, url: &str) -> (r: String)
    ensures
        r@ == "\x1b]8;;"@ + url@ + "\x1b\\"@ + label@ + "\x1b]8;;\x1b\\"@,
{
    let mut out = String::from_str("\x1b]8;;");
    out.append(url);
    out.append("\x1b\\");
    out.append(label);
    out.append("\x1b]8;;\x1b\\");
    out
}

/// Whether `$y` (the end of a `DECRQM` report) starts at byte `i`.
pub open spec fn report_end_at(s: Seq<u8>, i: int) -> bool {
    0 <= i && i + 1 < s.len() && s[i] == 0x24 && s[i + 1] == 0x79
}

/// Whether the report ending at the `$y` at byte `e` is `CSI ? 2026 ; s $ y`
/// with the state `s` one of 1, 2 or 3 — the states in which the mode
/// exists (0 is "not recognized", 4 "permanently reset").
pub open spec fn mode_2026_present(s: Seq<u8>, e: int) -> bool {
    &&& e >= 9
    &&& s.subrange(e - 9, e - 1) == seq![0x1bu8, 0x5bu8, 0x3fu8, 0x32u8, 0x30u8, 0x32u8, 0x36u8, 0x3bu8]
    &&& 0x31 <= s[e - 1] <= 0x33
}

/// Whether the reply to `CSI ? 2026 $ p` says synchronized output exists:
/// the first `$y` in the reply ends a report for mode 2026 whose state is
/// 1, 2 or 3. Bytes before the report (other replies, stray input) do not
/// matter.
pub open spec fn sync_supported_spec(s: Seq<u8>) -> bool {
    exists|e: int|
        #[trigger] report_end_at(s, e) && (forall|k: int| 0 <= k < e ==> !report_end_at(s, k))
            && mode_2026_present(s, e)
}

/// Reads the terminal's answer to the `DECRQM` probe for mode 2026.
pub fn sync_reply_supported(reply: &[u8]) -> (r: bool)
    ensures
        r == sync_supported_spec(reply@),
{
    let len = reply.len();
    let mut i: usize = 0;
    while i < len && i + 1 < len
        invariant
            len == reply@.len(),
            forall|k: int| 0 <= k < i ==> !report_end_at(reply@, k),
        decreases len - i,
    {
        if reply[i] == 0x24 && reply[i + 1] == 0x79 {
            let present = i >= 9 && reply[i - 9] == 0x1b && reply[i - 8] == 0x5b && reply[i - 7]
                == 0x3f && reply[i - 6] == 0x32 && reply[i - 5] == 0x30 && reply[i - 4] == 0x32
                && reply[i - 3] == 0x36 && reply[i - 2] == 0x3b && 0x31 <= reply[i - 1]
                && reply[i - 1] <= 0x33;
            proof {
                assert(report_end_at(reply@, i as int));
                if i >= 9 {
                    let want = seq![0x1bu8, 0x5bu8, 0x3fu8, 0x32u8, 0x30u8, 0x32u8, 0x36u8, 0x3bu8];
                    let got = reply@.subrange(i - 9, i - 1);
                    if present {
                        assert(got =~= want);
                    } else if got == want {
                        assert(got[0] == want[0] && got[1] == want[1] && got[2] == want[2]
                            && got[3] == want[3] && got[4] == want[4] && got[5] == want[5]
                            && got[6] == want[6] && got[7] == want[7]);
                    }
                }
                assert forall|e: int| #[trigger]
                    report_end_at(reply@, e) && (forall|k: int|
                        0 <= k < e ==> !report_end_at(reply@, k)) implies e == i by {
                    if e > i {
                        assert(report_end_at(reply@, i as int));
                    }
                }
            }
            return present;
        }
        i = i + 1;
    }
    proof {
        assert forall|e: int| #[trigger] report_end_at(reply@, e) implies false by {
            if e >= i {
            }
        }
    }
    false
}

/// What the terminal is left with on exit: the palette reset, then the
/// default cursor shape (`DECSCUSR 0`).
pub fn restore_sequence() -> (r: String)
    ensures
        r@ == palette_spec(false) + "\x1b[0 q"@,
{
    let mut out = palette_sequences(false);
    out.append("\x1b[0 q");
    out
}

/// The process exit code for a way of stopping, following the shell's
/// convention of 128 + signal number: 0 for `q`, 130 for Ctrl-C (SIGINT),
/// 143 for SIGTERM.
pub fn exit_code(quit: Quit) -> (r: u8)
    ensures
        r == match quit {
            Quit::Normal => 0u8,
            Quit::Interrupted => 130u8,
            Quit::Terminated => 143u8,
        },
{
    match quit {
        Quit::Normal => 0,
        Quit::Interrupted => 130,
        Quit::Terminated => 143,
    }
}

/// The command-line switches.
#[derive(Debug, Clone, Copy, PartialEq, Eq, Structural)]
pub struct Args {
    /// Ask the terminal (via `DECRQM`) whether it supports synchronized
    /// output, and bracket repaints only if it says yes.
    pub probe_sync: bool,
    /// Emit a batch of capability probes at startup and report how many
    /// were answered.
    pub probe_caps: bool,
}

/// Whether one of the arguments is exactly `flag`.
pub open spec fn has_flag(args: Seq<Seq<char>>, flag: Seq<char>) -> bool {
    exists|i: int| 0 <= i < args.len() && #[trigger] args[i] == flag
}

impl Args {
    /// Whether repaints are bracketed in DEC 2026 synchronized updates:
    /// always, unless asked to probe first, and then as the terminal's
    /// answer says.
    pub fn synchronized(self, probe_answer: bool) -> (r: bool)
        ensures
            r == (!self.probe_sync || probe_answer),
    {
        !self.probe_sync || probe_answer
    }

    /// Reads the switches from the arguments after the program name;
    /// anything unrecognized is ignored.
    pub fn parse(args: &Vec<String>) -> (r: Args)
        ensures
            r.probe_sync == has_flag(args@.map_values(|a: String| a@), "--probe-sync"@),
            r.probe_caps == has_flag(args@.map_values(|a: String| a@), "--probe-caps"@),
    {
        let sync_flag = String::from_str("--probe-sync");
        let caps_flag = String::from_str("--probe-caps");
        let ghost views = args@.map_values(|a: String| a@);
        let mut probe_sync = false;
        let mut probe_caps = false;
        for i in 0..args.len()
            invariant
                views == args@.map_values(|a: String| a@),
                sync_flag@ == "--probe-sync"@,
                caps_flag@ == "--probe-caps"@,
                probe_sync == exists|k: int| 0 <= k < i && #[trigger] views[k] == "--probe-sync"@,
                probe_caps == exists|k: int| 0 <= k < i && #[trigger] views[k] == "--probe-caps"@,
        {
            assert(views[i as int] == args@[i as int]@);
            if args[i] == sync_flag {
                probe_sync = true;
            }
            if args[i] == caps_flag {
                probe_caps = true;
            }
        }
        Args { probe_sync, probe_caps }
    }
}

} // verus!
