use pet_desktop::numbers::{decimal_text, parse_i32, zero_padded_text};
use pet_desktop::powershell::{beep_script, escape_single_quotes, play_wav_script, speech_script};
use pet_desktop::strings::{is_blank, same_text, white_space};
use pet_desktop::tts::{hourly_text, task_added_text, task_completed_text, task_due_soon_text, TtsManager};

#[test]
fn decimal_text_matches_display() {
    for n in [0i64, 7, 10, 42, 100, 2024, -1, -305, i64::MAX, i64::MIN] {
        assert_eq!(decimal_text(n), n.to_string());
    }
}

#[test]
fn zero_padding_matches_format() {
    assert_eq!(zero_padded_text(5, 2), format!("{:0>2}", 5));
    assert_eq!(zero_padded_text(12, 2), "12");
    assert_eq!(zero_padded_text(123, 2), "123");
    assert_eq!(zero_padded_text(2024, 4), "2024");
    assert_eq!(zero_padded_text(7, 4), "0007");
    assert_eq!(zero_padded_text(-5, 4), format!("{:0>4}", -5));
    assert_eq!(zero_padded_text(-5, 4), "00-5");
}

#[test]
fn parse_i32_matches_std() {
    for s in ["0", "7", "+7", "-7", "007", "2147483647", "-2147483648", "2147483648", "-2147483649",
              "", "+", "-", "12a", " 1", "1 ", "99999999999999999999", "--1", "+-1", "٣"] {
        assert_eq!(parse_i32(s), s.parse::<i32>().ok(), "input {:?}", s);
    }
}

#[test]
fn hourly_text_by_hour() {
    assert_eq!(hourly_text(5), "早安，新的一天开始啦!");
    assert_eq!(hourly_text(8), "早安，新的一天开始啦!");
    assert_eq!(hourly_text(9), "9点了，加油哦!");
    assert_eq!(hourly_text(10), "10点了，加油哦!");
    assert_eq!(hourly_text(12), "中午啦，该吃饭了!");
    assert_eq!(hourly_text(15), "15点了，记得休息一下~");
    assert_eq!(hourly_text(19), "19点了，晚上好!");
    assert_eq!(hourly_text(22), "很晚了，注意休息哦!");
    assert_eq!(hourly_text(0), "0点了");
    assert_eq!(hourly_text(4), "4点了");
    assert_eq!(hourly_text(24), "24点了");
}

#[test]
fn task_texts() {
    assert_eq!(task_added_text("写作业"), "收到新任务: 写作业，我会提醒你的");
    assert_eq!(task_due_soon_text("写作业"), "写作业 还有一个小时截止哦");
    assert_eq!(task_completed_text("写作业"), "好棒! 写作业 已经完成啦!");
}

#[test]
fn engine_manager_gates_speech() {
    let mut m = TtsManager::new(true);
    assert_eq!(m.speak("hi"), Some("hi".to_string()));
    m.set_enabled(false);
    assert_eq!(m.speak("hi"), None);
    let m = TtsManager::new(false);
    assert_eq!(m.speak("hi"), None);
}

#[test]
fn quotes_are_doubled() {
    assert_eq!(escape_single_quotes("it's"), "it''s");
    assert_eq!(escape_single_quotes("''"), "''''");
    assert_eq!(escape_single_quotes("none"), "none");
    assert_eq!(escape_single_quotes(""), "");
    assert_eq!(escape_single_quotes("猫's 'x'"), "猫''s ''x''");
}

#[test]
fn speech_command_text() {
    assert_eq!(
        speech_script("I'm here", 80, -3),
        "Add-Type -AssemblyName System.Speech; $s = New-Object System.Speech.Synthesis.SpeechSynthesizer; $s.Volume=80; $s.Rate=-3; $s.Speak('I''m here')"
    );
}

#[test]
fn media_and_beep_commands() {
    assert_eq!(
        play_wav_script("C:\\a'b.wav"),
        "Add-Type -AssemblyName PresentationCore; $m = New-Object System.Windows.Media.MediaPlayer; $m.Open([uri]::new('C:\\a''b.wav')); $m.Play(); Start-Sleep -Milliseconds 500"
    );
    assert_eq!(beep_script(440, 200), "[console]::Beep(440,200)");
}

#[test]
fn text_comparison_and_blanks() {
    assert!(same_text("abc", "abc"));
    assert!(!same_text("abc", "abd"));
    assert!(!same_text("abc", "ab"));
    assert!(is_blank(""));
    assert!(is_blank(" \t\n\u{3000}"));
    assert!(!is_blank("  a "));
    for c in ['\u{9}', '\u{b}', ' ', '\u{85}', '\u{a0}', '\u{1680}', '\u{2000}', '\u{200a}', '\u{2028}',
              '\u{2029}', '\u{202f}', '\u{205f}', '\u{3000}', 'a', '\u{200b}', '\u{180e}', '\u{feff}', '0'] {
        assert_eq!(white_space(c), c.is_whitespace(), "char {:?}", c);
    }
}

#[test]
fn quoted_text_reads_back() {
    for s in ["it's", "''", "'a'b'", "no quotes", ""] {
        let q = escape_single_quotes(s);
        assert!(!q.replace("''", "").contains('\''));
        assert_eq!(q.replace("''", "'"), s);
    }
}

#[test]
fn decimal_reads_back_as_i32() {
    for n in [0i32, 1, -1, 42, -305, i32::MAX, i32::MIN] {
        assert_eq!(parse_i32(&decimal_text(n as i64)), Some(n));
    }
}
