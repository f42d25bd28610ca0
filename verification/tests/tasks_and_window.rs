use pet_desktop::commands::{
    get_pet_state, hour_reached, parse_state_name, pet_pet, play_sound, set_pet_state, speak_text, task_added,
    task_completed,
};
use pet_desktop::companion::{
    bubble_action, centered_position, click_message, greeting, hourly_check, load_setting, load_settings,
    save_settings, state_name, task_added_feedback, task_completed_feedback, toggle_mute, toggle_rest,
    BubbleAction, UiSettings,
};
use pet_desktop::state_machine::{PetState, PetStateMachine};
use pet_desktop::tasks::{
    completed_flag, due_label, due_text, format_due, is_overdue, task_filter, task_row, tasks_query, Setting, Task,
    TaskFilter,
};

fn sample_settings() -> UiSettings {
    UiSettings {
        auto_start: true,
        edge_snap: false,
        opacity: 65,
        hourly: true,
        hourly_start: 8,
        hourly_end: 21,
        voice: false,
        volume: 40,
    }
}

#[test]
fn filters_and_queries() {
    assert_eq!(task_filter("completed"), TaskFilter::Completed);
    assert_eq!(task_filter("pending"), TaskFilter::Pending);
    assert_eq!(task_filter("all"), TaskFilter::All);
    assert_eq!(task_filter("Pending"), TaskFilter::All);
    assert!(tasks_query("completed").contains("WHERE is_completed=1"));
    assert!(tasks_query("pending").contains("WHERE is_completed=0"));
    assert!(!tasks_query("anything").contains("WHERE"));
    assert!(tasks_query("anything").ends_with("ORDER BY due_time"));
    assert!(completed_flag(1));
    assert!(completed_flag(-3));
    assert!(!completed_flag(0));
}

#[test]
fn due_text_for_new_tasks() {
    assert_eq!(due_text(2025, "6", "9", "8", "5"), "2025-06-09 08:05:00");
    assert_eq!(due_text(2025, "x", "", "abc", "?"), "2025-06-12 12:00:00");
    assert_eq!(due_text(25, "12", "31", "23", "59"), "0025-12-31 23:59:00");
    assert_eq!(due_text(2025, "-1", "100", "7", "30"), "2025--1-100 07:30:00");
}

#[test]
fn due_labels() {
    assert_eq!(due_label(-1, 6, 12), "已过期");
    assert_eq!(due_label(0, 6, 12), "0分钟");
    assert_eq!(due_label(3599, 6, 12), "59分钟");
    assert_eq!(due_label(3600, 6, 12), "1小时");
    assert_eq!(due_label(86399, 6, 12), "23小时");
    assert_eq!(due_label(86400, 6, 12), "6/12");
}

#[test]
fn format_due_reads_the_clock() {
    assert_eq!(format_due("not a time"), "");
    assert_eq!(format_due("2000-01-01 00:00:00"), "已过期");
    assert_eq!(format_due("2999-06-12 08:30:00"), "6/12");
    assert!(!is_overdue("not a time"));
    assert!(is_overdue("2000-01-01 00:00:00"));
    assert!(!is_overdue("2999-06-12 08:30:00"));
}

#[test]
fn task_rows() {
    let mut t = Task {
        id: 3,
        title: "写作业".to_string(),
        description: String::new(),
        due_time: "2000-01-01 00:00:00".to_string(),
        remind_minutes: 15,
        is_completed: false,
        created_at: String::new(),
        updated_at: String::new(),
    };
    let row = task_row(&t);
    assert_eq!(row.id, 3);
    assert_eq!(row.title, "写作业");
    assert_eq!(row.due_label, "已过期");
    assert!(row.is_urgent);
    t.is_completed = true;
    let row = task_row(&t);
    assert!(row.is_completed);
    assert!(!row.is_urgent);
}

#[test]
fn state_names_and_codes() {
    assert_eq!(state_name(&PetState::Idle), "idle");
    assert_eq!(state_name(&PetState::Sleeping), "sleeping");
    assert_eq!(state_name(&PetState::Recover), "recover");
    assert_eq!(parse_state_name("SAD"), PetState::Sad);
    assert_eq!(parse_state_name("HAPPY"), PetState::Happy);
    assert_eq!(parse_state_name("sad"), PetState::Idle);
    assert_eq!(parse_state_name("???"), PetState::Idle);
}

#[test]
fn click_messages_rotate() {
    assert_eq!(click_message(0), "喵~");
    assert_eq!(click_message(8), "今天也要加油哦!");
    assert_eq!(click_message(6), "喵呜~");
    assert_eq!(click_message(7 * 1000 + 4), "摸摸头 >w<");
}

#[test]
fn rest_and_mute_toggles() {
    let mut pet = PetStateMachine::new();
    pet.set_state(PetState::Sad, 50, "x");
    let mut rest = false;
    assert_eq!(toggle_rest(&mut rest, &mut pet), "进入休息模式");
    assert!(rest);
    let info = pet.get_state();
    assert_eq!((info.state, info.sadness_level, info.message.as_str()), (PetState::Sleeping, 0, ""));
    assert_eq!(toggle_rest(&mut rest, &mut pet), "我回来了!");
    assert_eq!(pet.get_state().state, PetState::Idle);
    let mut muted = false;
    assert_eq!(toggle_mute(&mut muted), "已静音");
    assert_eq!(toggle_mute(&mut muted), "已取消静音");
    assert!(!muted);
}

#[test]
fn task_feedback() {
    let mut pet = PetStateMachine::new();
    let f = task_added_feedback(&mut pet, "买菜");
    assert_eq!(f.cat_state, "idle");
    assert_eq!(f.bubble, "收到新任务: 买菜");
    assert_eq!(f.speech, "收到新任务: 买菜，我会提醒你的");
    let f = task_completed_feedback(&mut pet, "买菜");
    assert_eq!(f.cat_state, "happy");
    assert_eq!(f.bubble, "好棒! 买菜 完成啦!");
    assert_eq!(f.speech, "好棒! 买菜 已经完成啦!");
}

#[test]
fn greetings() {
    assert_eq!(greeting(7), "早安! 新的一天开始啦");
    assert_eq!(greeting(12), "中午啦! 该吃饭了");
    assert_eq!(greeting(20), "晚上好~ 放松一下吧");
    assert_eq!(greeting(23), "深夜了，注意休息");
    assert_eq!(greeting(3), "整点了");
}

#[test]
fn hourly_check_rules() {
    let mut last = -1;
    assert!(hourly_check(5, 9, &mut last, None, None, None, None, false).is_none());
    assert_eq!(last, -1);
    let c = hourly_check(0, 9, &mut last, None, None, None, None, false).unwrap();
    assert_eq!(last, 9);
    assert_eq!(c.bubble, "上午好! 继续加油");
    assert_eq!(c.speech.as_deref(), Some("9点了，加油哦!"));
    assert!(hourly_check(0, 9, &mut last, None, None, None, None, false).is_none());
    assert!(hourly_check(0, 10, &mut last, Some("false"), None, None, None, false).is_none());
    assert!(hourly_check(0, 6, &mut last, None, None, None, None, false).is_none());
    assert!(hourly_check(0, 23, &mut last, None, None, None, None, false).is_none());
    let c = hourly_check(0, 23, &mut last, Some("true"), Some("5"), Some("bad"), Some("true"), true).is_none();
    assert!(c);
    let c = hourly_check(0, 6, &mut last, Some("true"), Some("5"), Some("bad"), Some("true"), true).unwrap();
    assert_eq!(last, 6);
    assert_eq!(c.bubble, "早安! 新的一天开始啦");
    assert!(c.speech.is_none());
    let c = hourly_check(0, 7, &mut last, None, None, None, Some("no"), false).unwrap();
    assert!(c.speech.is_none());
}

#[test]
fn bubble_rules() {
    assert_eq!(bubble_action(Some(100), "hi"), BubbleAction::Show);
    assert_eq!(bubble_action(Some(2999), ""), BubbleAction::Show);
    assert_eq!(bubble_action(Some(3000), "hi"), BubbleAction::Hide);
    assert_eq!(bubble_action(None, "hi"), BubbleAction::Hide);
    assert_eq!(bubble_action(None, ""), BubbleAction::Keep);
    assert_eq!(bubble_action(Some(5000), ""), BubbleAction::Keep);
}

#[test]
fn window_start_position() {
    assert_eq!(centered_position(0, 0, 1920, 1040), (882, 410));
    assert_eq!(centered_position(0, 0, 100, 100), (0, 0));
    assert_eq!(centered_position(0, 0, 157, 221), (0, 0));
    assert_eq!(centered_position(100, 50, 1380, 770), (562, 250));
}

#[test]
fn loading_settings() {
    let mut s = sample_settings();
    load_setting(&mut s, "edge_snap", "true");
    assert!(s.edge_snap);
    load_setting(&mut s, "pet_transparency", "oops");
    assert_eq!(s.opacity, 100);
    load_setting(&mut s, "tts_volume", "55");
    assert_eq!(s.volume, 55);
    load_setting(&mut s, "unknown", "1");
    load_setting(&mut s, "voice_enabled", "TRUE");
    assert!(!s.voice);
    let list = vec![
        Setting { key: "hourly_start_hour".to_string(), value: "6".to_string() },
        Setting { key: "hourly_end_hour".to_string(), value: "x".to_string() },
        Setting { key: "auto_start".to_string(), value: "false".to_string() },
    ];
    load_settings(&mut s, &list);
    assert_eq!(s.hourly_start, 6);
    assert_eq!(s.hourly_end, 22);
    assert!(!s.auto_start);
}

#[test]
fn saved_settings_load_back() {
    let s = sample_settings();
    let saved = save_settings(&s);
    let pairs: Vec<(String, String)> = saved.iter().map(|x| (x.key.clone(), x.value.clone())).collect();
    assert_eq!(
        pairs,
        vec![
            ("auto_start".to_string(), "true".to_string()),
            ("edge_snap".to_string(), "false".to_string()),
            ("pet_transparency".to_string(), "65".to_string()),
            ("hourly_enabled".to_string(), "true".to_string()),
            ("hourly_start_hour".to_string(), "8".to_string()),
            ("hourly_end_hour".to_string(), "21".to_string()),
            ("voice_enabled".to_string(), "false".to_string()),
            ("tts_volume".to_string(), "40".to_string()),
        ]
    );
    let mut other = UiSettings {
        auto_start: false,
        edge_snap: true,
        opacity: 1,
        hourly: false,
        hourly_start: 0,
        hourly_end: 0,
        voice: true,
        volume: -7,
    };
    load_settings(&mut other, &saved);
    assert_eq!(other, s);
}

#[test]
fn front_end_commands() {
    let mut pet = PetStateMachine::new();
    set_pet_state(&mut pet, "SAD", 30, "sigh");
    let info = get_pet_state(&pet);
    assert_eq!((info.state, info.sadness_level, info.message.as_str()), (PetState::Sad, 30, "sigh"));
    let info = pet_pet(&mut pet);
    assert_eq!(info.state, PetState::Recover);
    let (info, speech) = hour_reached(&mut pet, 12, true);
    assert_eq!(info.state, PetState::Idle);
    assert_eq!(info.sadness_level, 0);
    assert_eq!(
        speech.unwrap(),
        "Add-Type -AssemblyName System.Speech; $s = New-Object System.Speech.Synthesis.SpeechSynthesizer; $s.Volume=80; $s.Rate=0; $s.Speak('中午啦，该吃饭了!')"
    );
    assert!(task_added(&mut pet, "a", false).is_none());
    assert!(task_completed(&mut pet, "b's", true).unwrap().ends_with("$s.Speak('好棒! b''s 已经完成啦!')"));
    assert_eq!(get_pet_state(&pet).state, PetState::Happy);
    assert!(speak_text("x", 200, 3).unwrap().contains("$s.Volume=100; $s.Rate=3;"));
    assert!(play_sound("a.wav").unwrap().contains("[uri]::new('a.wav')"));
}

#[test]
fn every_state_code_reads_back() {
    let states = [
        ("IDLE", PetState::Idle),
        ("REMIND", PetState::Remind),
        ("WARNING", PetState::Warning),
        ("SAD", PetState::Sad),
        ("RECOVER", PetState::Recover),
        ("HAPPY", PetState::Happy),
        ("SLEEPING", PetState::Sleeping),
    ];
    for (code, state) in states {
        assert_eq!(parse_state_name(code), state);
    }
}
