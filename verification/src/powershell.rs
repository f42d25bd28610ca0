//! The PowerShell command lines that speak text, play a sound file and
//! sound a beep on Windows.

use crate::numbers::{decimal, push_decimal, push_signed_decimal, signed_decimal};
use vstd::prelude::*;

verus! {

/// `s` made safe inside a single-quoted PowerShell string: every `'` is
/// doubled.
pub open spec fn quoted(s: Seq<char>) -> Seq<char>
    decreases s.len(),
{
    if s.len() == 0 {
        Seq::<char>::empty()
    } else {
        quoted(s.drop_last()) + (if s.last() == '\'' {
            seq!['\'', '\'']
        } else {
            seq![s.last()]
        })
    }
}

/// What PowerShell reads from the inside of a single-quoted string: each
/// `''` stands for one `'`.
pub open spec fn unquoted(t: Seq<char>) -> Seq<char>
    decreases t.len(),
{
    if t.len() == 0 {
        Seq::<char>::empty()
    } else if t.len() >= 2 && t[0] == '\'' && t[1] == '\'' {
        seq!['\''] + unquoted(t.skip(2))
    } else {
        seq![t[0]] + unquoted(t.skip(1))
    }
}

proof fn quoted_single(c: char)
    ensures
        quoted(seq![c]) == (if c == '\'' {
            seq!['\'', '\'']
        } else {
            seq![c]
        }),
{
    let one = seq![c];
    assert(one.drop_last() =~= Seq::<char>::empty());
    assert(quoted(one.drop_last()) =~= Seq::<char>::empty());
    assert(one.last() == c);
    assert(quoted(one) =~= (if c == '\'' {
        seq!['\'', '\'']
    } else {
        seq![c]
    }));
}

proof fn quoted_concat(a: Seq<char>, b: Seq<char>)
    ensures
        quoted(a + b) == quoted(a) + quoted(b),
    decreases b.len(),
{
    if b.len() == 0 {
        assert(a + b =~= a);
        assert(quoted(a) + quoted(b) =~= quoted(a));
    } else {
        quoted_concat(a, b.drop_last());
        assert((a + b).drop_last() =~= a + b.drop_last());
        assert((a + b).last() == b.last());
        assert(quoted(a + b) =~= quoted(a) + quoted(b));
    }
}

/// PowerShell reads back exactly the text that was put in quotes: a spoken
/// text or a sound file's path reaches it unchanged.
pub proof fn quoting_reads_back(s: Seq<char>)
    ensures
        unquoted(quoted(s)) == s,
    decreases s.len(),
{
    if s.len() > 0 {
        let rest = s.skip(1);
        quoting_reads_back(rest);
        assert(s =~= seq![s[0]] + rest);
        quoted_concat(seq![s[0]], rest);
        quoted_single(s[0]);
        let t = quoted(s);
        if s[0] == '\'' {
            assert(quoted(seq![s[0]]) =~= seq!['\'', '\'']);
            assert(t.skip(2) =~= quoted(rest));
            assert(unquoted(t) =~= s);
        } else {
            assert(quoted(seq![s[0]]) =~= seq![s[0]]);
            assert(t.skip(1) =~= quoted(rest));
            assert(unquoted(t) =~= s);
        }
    }
}

/// Doubles every `'` in `text`, as `text.replace('\'', "''")` does.
pub fn escape_single_quotes(text: &str) -> (r: String)
    ensures
        r@ == quoted(text@),
{
    let n = text.unicode_len();
    let ghost s = text@;
    let mut out = String::new();
    let mut last: usize = 0;
    let mut i: usize = 0;
    while i < n
        invariant
            n as nat == s.len(),
            s == text@,
            last <= i <= n,
            out@ + s.subrange(last as int, i as int) == quoted(s.take(i as int)),
        decreases n - i,
    {
        let c = text.get_char(i);
        let ghost before = s.take(i as int);
        proof {
            assert(s.take(i + 1).drop_last() =~= before);
            assert(s.take(i + 1).last() == c);
        }
        if c == '\'' {
            let run = text.substring_char(last, i);
            proof {
                reveal_strlit("''");
            }
            out.append(run);
            out.append("''");
            proof {
                assert(s.subrange((i + 1) as int, (i + 1) as int) =~= Seq::<char>::empty());
                assert(out@ + s.subrange((i + 1) as int, (i + 1) as int) =~= quoted(s.take(i + 1)));
            }
            last = i + 1;
        } else {
            proof {
                assert(s.subrange(last as int, (i + 1) as int) =~= s.subrange(last as int, i as int).push(c));
                assert(out@ + s.subrange(last as int, (i + 1) as int) =~= quoted(s.take(i + 1)));
            }
        }
        i = i + 1;
    }
    let rest = text.substring_char(last, n);
    out.append(rest);
    proof {
        assert(s.take(n as int) =~= s);
    }
    out
}

/// The command that makes Windows' speech synthesizer say `text` at the
/// given volume and rate.
pub open spec fn speech_command(text: Seq<char>, volume: nat, rate: int) -> Seq<char> {
    "Add-Type -AssemblyName System.Speech; $s = New-Object System.Speech.Synthesis.SpeechSynthesizer; $s.Volume="@
        + decimal(volume) + "; $s.Rate="@ + signed_decimal(rate) + "; $s.Speak('"@ + quoted(text)
        + "')"@
}

/// Builds the command that makes Windows' speech synthesizer say `text`.
pub fn speech_script(text: &str, volume: u16, rate: i32) -> (r: String)
    ensures
        r@ == speech_command(text@, volume as nat, rate as int),
{
    let mut s =
        "Add-Type -AssemblyName System.Speech; $s = New-Object System.Speech.Synthesis.SpeechSynthesizer; $s.Volume=".to_owned();
    push_decimal(&mut s, volume as u64);
    s.append("; $s.Rate=");
    push_signed_decimal(&mut s, rate as i64);
    s.append("; $s.Speak('");
    let escaped = escape_single_quotes(text);
    s.append(escaped.as_str());
    s.append("')");
    s
}

/// The command that plays the sound file at `path` through Windows' media
/// player.
pub open spec fn media_command(path: Seq<char>) -> Seq<char> {
    "Add-Type -AssemblyName PresentationCore; $m = New-Object System.Windows.Media.MediaPlayer; $m.Open([uri]::new('"@
        + quoted(path) + "')); $m.Play(); Start-Sleep -Milliseconds 500"@
}

/// Builds the command that plays the sound file at `path`.
pub fn play_wav_script(path: &str) -> (r: String)
    ensures
        r@ == media_command(path@),
{
    let mut s =
        "Add-Type -AssemblyName PresentationCore; $m = New-Object System.Windows.Media.MediaPlayer; $m.Open([uri]::new('".to_owned();
    let escaped = escape_single_quotes(path);
    s.append(escaped.as_str());
    s.append("')); $m.Play(); Start-Sleep -Milliseconds 500");
    s
}

/// The command that sounds the console beep.
pub open spec fn beep_command(freq: nat, duration_ms: nat) -> Seq<char> {
    "[console]::Beep("@ + decimal(freq) + ","@ + decimal(duration_ms) + ")"@
}

/// Builds the command that sounds the console beep at `freq` Hz for
/// `duration_ms` milliseconds.
pub fn beep_script(freq: u32, duration_ms: u32) -> (r: String)
    ensures
        r@ == beep_command(freq as nat, duration_ms as nat),
{
    let mut s = "[console]::Beep(".to_owned();
    push_decimal(&mut s, freq as u64);
    s.append(",");
    push_decimal(&mut s, duration_ms as u64);
    s.append(")");
    s
}

} // verus!
