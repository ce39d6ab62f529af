use aism::chat::{ChatTab, Message};
use aism::dashboard::{chart_x, record_sample, DashboardTab, CPU_HISTORY_LEN};
use aism::file_chat::{build_prompt, file_name_from_path, FileChatTab};
use aism::fine_tune::{accent_color, sub_tab_colors, submit_color, FineTuneTab, SubTab};
use aism::log::{EsLog, LogEntry};
use aism::navigation::{App, MainTab};

#[test]
fn chat_starts_empty() {
    let chat = ChatTab::new();
    assert!(chat.messages.is_empty());
    assert_eq!(chat.input_text, "");
}

#[test]
fn chat_send_appends_trimmed_user_message_and_logs_it() {
    let mut chat = ChatTab::new();
    chat.input_text = "  Как дела у пула?  ".to_string();
    let entry = chat.send_message().expect("non-blank input is sent");
    assert_eq!(chat.messages.len(), 1);
    assert!(chat.messages[0].is_user);
    assert_eq!(chat.messages[0].text, "Как дела у пула?");
    assert_eq!(chat.input_text, "");
    assert_eq!(entry.tab, "Chat");
    assert_eq!(entry.user_input, "Как дела у пула?");
    assert_eq!(entry.metadata, None);
}

#[test]
fn chat_blank_input_is_ignored() {
    let mut chat = ChatTab::new();
    chat.input_text = " \t ".to_string();
    assert!(chat.send_message().is_none());
    assert!(chat.messages.is_empty());
    assert_eq!(chat.input_text, " \t ");
}

#[test]
fn chat_second_send_without_typing_does_nothing() {
    let mut chat = ChatTab::new();
    chat.input_text = "first".to_string();
    assert!(chat.send_message().is_some());
    assert!(chat.send_message().is_none());
    assert_eq!(chat.messages.len(), 1);
}

#[test]
fn chat_keeps_earlier_messages_in_order() {
    let mut chat = ChatTab::new();
    for q in ["one", "two", "three"].iter() {
        chat.input_text = q.to_string();
        chat.send_message();
    }
    let texts: Vec<&str> = chat.messages.iter().map(|m| m.text.as_str()).collect();
    assert_eq!(texts, vec!["one", "two", "three"]);
}

#[test]
fn bubble_styles() {
    let user = Message { is_user: true, text: String::new() };
    let model = Message { is_user: false, text: String::new() };
    assert_eq!(user.bubble_style(), ("#3498db", "white", "flex-end"));
    assert_eq!(model.bubble_style(), ("#f1f0f0", "black", "flex-start"));
}

#[test]
fn file_name_from_fake_path() {
    assert_eq!(file_name_from_path("C:\\fakepath\\array.log"), "array.log");
    assert_eq!(file_name_from_path("array.log"), "array.log");
}

#[test]
fn attaching_a_file_keeps_name_and_note_and_logs() {
    let mut tab = FileChatTab::new();
    let entry = tab.on_file_change("C:\\fakepath\\raid.log").expect("path is not empty");
    assert_eq!(tab.file_name, "raid.log");
    assert_eq!(tab.file_content, "[Файл контекста: raid.log]");
    assert_eq!(entry.tab, "File Chat");
    assert_eq!(entry.user_input, "Прикреплен контекст файла: raid.log");
    assert_eq!(entry.metadata, None);
    assert!(!tab.loading);
}

#[test]
fn attaching_empty_path_changes_nothing() {
    let mut tab = FileChatTab::new();
    assert!(tab.on_file_change("").is_none());
    assert_eq!(tab.file_name, "");
    assert_eq!(tab.file_content, "");
}

#[test]
fn file_question_builds_request_log_and_prompt() {
    let mut tab = FileChatTab::new();
    tab.on_file_change("C:\\fakepath\\raid.log");
    tab.input_text = " Почему деградировал массив? ".to_string();
    let sub = tab.send_message().expect("question is sent");
    assert!(tab.loading);
    assert_eq!(tab.input_text, "");
    assert_eq!(tab.messages.len(), 1);
    assert!(tab.messages[0].is_user);
    assert_eq!(tab.messages[0].text, "Почему деградировал массив?");
    assert_eq!(sub.log.tab, "File Chat");
    assert_eq!(sub.log.user_input, "Почему деградировал массив?");
    assert_eq!(sub.log.metadata.as_deref(), Some("Файл: raid.log"));
    assert_eq!(sub.request.model, "deepseek-coder-v2");
    assert_eq!(sub.request.messages.len(), 1);
    assert_eq!(sub.request.messages[0].role, "user");
    assert_eq!(
        sub.request.messages[0].content,
        "Контекст: Пользователь прикрепил лог СХД 'raid.log'. Проанализируй его и ответь на вопрос: Почему деградировал массив?"
    );
    assert!(!sub.request.stream);
    assert_eq!(sub.request.file_name, "raid.log");
}

#[test]
fn file_question_without_file() {
    let mut tab = FileChatTab::new();
    tab.input_text = "status?".to_string();
    let sub = tab.send_message().expect("question is sent");
    assert_eq!(sub.request.messages[0].content, "status?");
    assert_eq!(sub.log.metadata.as_deref(), Some("Файл: "));
    assert_eq!(sub.request.file_name, "");
}

#[test]
fn file_question_blank_is_ignored() {
    let mut tab = FileChatTab::new();
    tab.input_text = "   ".to_string();
    assert!(tab.send_message().is_none());
    assert!(!tab.loading);
    assert!(tab.messages.is_empty());
    assert_eq!(tab.input_text, "   ");
}

#[test]
fn answer_is_appended_and_wait_ends() {
    let mut tab = FileChatTab::new();
    tab.input_text = "q".to_string();
    tab.send_message();
    tab.receive_reply(Some("answer".to_string()));
    assert!(!tab.loading);
    assert_eq!(tab.messages.len(), 2);
    assert!(!tab.messages[1].is_user);
    assert_eq!(tab.messages[1].text, "answer");
}

#[test]
fn failed_request_only_ends_wait() {
    let mut tab = FileChatTab::new();
    tab.input_text = "q".to_string();
    tab.send_message();
    tab.receive_reply(None);
    assert!(!tab.loading);
    assert_eq!(tab.messages.len(), 1);
}

#[test]
fn placeholder_and_label_follow_attached_file() {
    let mut tab = FileChatTab::new();
    assert_eq!(tab.input_placeholder(), "Задайте вопрос или прикрепите файл...");
    assert_eq!(tab.attached_label(), None);
    tab.on_file_change("x.log");
    assert_eq!(tab.input_placeholder(), "Задайте вопрос по контексту файла...");
    assert_eq!(tab.attached_label().as_deref(), Some("✓ x.log"));
}

#[test]
fn prompt_formula() {
    assert_eq!(build_prompt("", "q"), "q");
    assert_eq!(
        build_prompt("f", "q"),
        "Контекст: Пользователь прикрепил лог СХД 'f'. Проанализируй его и ответь на вопрос: q"
    );
}

#[test]
fn fine_tune_submit_error_example() {
    let mut tab = FineTuneTab::new();
    assert!(tab.is_error_selected());
    tab.log_field = "disk 3 offline".to_string();
    tab.desc_field = "raise alarm".to_string();
    let entry = tab.submit_training(true);
    assert_eq!(entry.tab, "Fine-Tuning");
    assert_eq!(entry.user_input, "disk 3 offline");
    assert_eq!(
        entry.metadata.as_deref(),
        Some("Action: Считать ошибкой, Desc: raise alarm")
    );
    assert_eq!(tab.log_field, "");
    assert_eq!(tab.desc_field, "");
    assert_eq!(tab.active_sub_tab, SubTab::IsError);
}

#[test]
fn fine_tune_submit_not_error_example() {
    let mut tab = FineTuneTab::new();
    tab.active_sub_tab = SubTab::IsNotError;
    assert!(!tab.is_error_selected());
    tab.log_field = "scrub finished".to_string();
    let entry = tab.submit_training(false);
    assert_eq!(
        entry.metadata.as_deref(),
        Some("Action: Не считать ошибкой, Desc: ")
    );
    let again = tab.submit_training(false);
    assert_eq!(again.user_input, "");
}

#[test]
fn fine_tune_colors() {
    assert_eq!(accent_color(SubTab::IsError), "#e74c3c");
    assert_eq!(accent_color(SubTab::IsNotError), "#2ecc71");
    assert_eq!(submit_color(true), "#e74c3c");
    assert_eq!(submit_color(false), "#2ecc71");
    assert_eq!(sub_tab_colors(SubTab::IsError, SubTab::IsError), ("#e74c3c", "#e74c3c"));
    assert_eq!(sub_tab_colors(SubTab::IsError, SubTab::IsNotError), ("transparent", "#718096"));
    assert_eq!(sub_tab_colors(SubTab::IsNotError, SubTab::IsNotError), ("#2ecc71", "#2ecc71"));
}

#[test]
fn navigation_highlights_only_the_chosen_tab() {
    let mut app = App::new();
    assert!(app.active_tab == MainTab::Chat);
    app.select_tab(MainTab::FineTune);
    assert!(app.active_tab == MainTab::FineTune);
    let all = [MainTab::Chat, MainTab::FileChat, MainTab::FineTune, MainTab::Dashboard];
    let lit: Vec<bool> = all.iter().map(|t| app.tab_background(*t) == "#3182ce").collect();
    assert_eq!(lit, vec![false, false, true, false]);
    assert_eq!(app.tab_background(MainTab::Chat), "transparent");
}

#[test]
fn dashboard_history_starts_full() {
    let tab = DashboardTab::new(0u32);
    assert_eq!(tab.cpu_history(), &vec![0u32; CPU_HISTORY_LEN]);
}

#[test]
fn dashboard_history_keeps_latest_ten() {
    let mut tab = DashboardTab::new(0u32);
    for load in 1..=13u32 {
        tab.record_cpu_load(load);
    }
    assert_eq!(tab.cpu_history(), &vec![4, 5, 6, 7, 8, 9, 10, 11, 12, 13]);
}

#[test]
fn dashboard_history_with_floats() {
    let mut tab = DashboardTab::new(0.0f32);
    tab.record_cpu_load(42.5);
    assert_eq!(tab.cpu_history().len(), 10);
    assert_eq!(tab.cpu_history()[9], 42.5);
    assert_eq!(tab.cpu_history()[0], 0.0);
}

#[test]
fn record_sample_grows_short_history() {
    let mut h = vec![1, 2];
    record_sample(&mut h, 3);
    assert_eq!(h, vec![1, 2, 3]);
}

#[test]
fn chart_positions() {
    assert_eq!(chart_x(0), 0);
    assert_eq!(chart_x(9), 99);
}

#[test]
fn log_entry_is_stamped() {
    let entry = LogEntry::new("Chat", "hi", Some("m".to_string()));
    let record = EsLog::stamped(entry, "2024-01-01T00:00:00+00:00".to_string());
    assert_eq!(record.timestamp, "2024-01-01T00:00:00+00:00");
    assert_eq!(record.tab, "Chat");
    assert_eq!(record.user_input, "hi");
    assert_eq!(record.metadata.as_deref(), Some("m"));
}

#[test]
fn storage_log_question_sends_prompt() {
    let mut tab = FileChatTab::new();
    tab.on_file_change("C:\\fakepath\\storage.log");
    tab.input_text = "disk errors?".to_string();
    let sub = tab.send_message().expect("question is sent");
    assert_eq!(sub.request.file_name, "storage.log");
    assert_eq!(
        sub.request.messages[0].content,
        "Контекст: Пользователь прикрепил лог СХД 'storage.log'. Проанализируй его и ответь на вопрос: disk errors?"
    );
    assert_eq!(sub.log.metadata.as_deref(), Some("Файл: storage.log"));
    assert_eq!(tab.messages[0].text, "disk errors?");
}

#[test]
fn response_body_answer_is_read() {
    let mut tab = FileChatTab::new();
    tab.input_text = "q".to_string();
    tab.send_message();
    tab.receive_response(Some(r#"{"message":{"role":"assistant","content":"all disks healthy"},"done":true}"#.to_string()));
    assert!(!tab.loading);
    assert_eq!(tab.messages.len(), 2);
    assert!(!tab.messages[1].is_user);
    assert_eq!(tab.messages[1].text, "all disks healthy");
}

#[test]
fn response_without_string_content_adds_nothing() {
    for body in [r#"{"message":{"content":5}}"#, r#"{"error":"x"}"#, "not json", ""].iter() {
        let mut tab = FileChatTab::new();
        tab.input_text = "q".to_string();
        tab.send_message();
        tab.receive_response(Some(body.to_string()));
        assert!(!tab.loading);
        assert_eq!(tab.messages.len(), 1, "body {:?}", body);
    }
    let mut tab = FileChatTab::new();
    tab.input_text = "q".to_string();
    tab.send_message();
    tab.receive_response(None);
    assert!(!tab.loading);
    assert_eq!(tab.messages.len(), 1);
}

#[test]
fn fine_tune_select_sub_tab_keeps_fields() {
    let mut tab = FineTuneTab::new();
    tab.log_field = "x".to_string();
    tab.select_sub_tab(SubTab::IsNotError);
    assert_eq!(tab.active_sub_tab, SubTab::IsNotError);
    assert_eq!(tab.log_field, "x");
    assert_eq!(submit_color(tab.is_error_selected()), "#2ecc71");
}
