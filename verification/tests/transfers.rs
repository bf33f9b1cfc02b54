use nexustui::transfer::{message_notification_command, Effect, FilePull, FileSend, PullStage, SendStage};

fn describe(effects: &[Effect]) -> Vec<String> {
    effects
        .iter()
        .map(|e| match e {
            Effect::Log(s) => format!("log {}", s),
            Effect::CheckExists(p) => format!("exists? {}", p),
            Effect::Run(c) => format!("run {} {}", c.program, c.args.join(" ")),
            Effect::Spawn(c) => format!("spawn {} {}", c.program, c.args.join(" ")),
        })
        .collect()
}

#[test]
fn sending_an_image_copies_scans_and_notifies() {
    let (mut s, first) = FileSend::new("/home/u/Pictures/Cat.JPG".to_string());
    assert_eq!(s.name, "Cat.JPG");
    assert!(s.media);
    assert_eq!(describe(&first), vec!["exists? /home/u/Pictures/Cat.JPG"]);
    assert_eq!(
        describe(&s.step(true)),
        vec![
            "log 📤 [TRANSFER]: Cat.JPG -> Download/NexusTUI/...",
            "run adb -s 192.168.1.50:5555 shell mkdir -p /sdcard/Download/NexusTUI/",
        ]
    );
    assert_eq!(
        describe(&s.step(false)),
        vec!["run adb -s 192.168.1.50:5555 push /home/u/Pictures/Cat.JPG /sdcard/Download/NexusTUI/"]
    );
    assert_eq!(
        describe(&s.step(true)),
        vec![
            "log ✅ [COMPLETED]: Cat.JPG -> Download/NexusTUI/",
            "spawn adb -s 192.168.1.50:5555 shell am broadcast -a android.intent.action.MEDIA_SCANNER_SCAN_FILE -d file:///sdcard/Download/NexusTUI/Cat.JPG",
            "spawn adb -s 192.168.1.50:5555 shell cmd notification post -t 📥 NexusTUI File Received file_tag Cat.JPG saved to your Download/NexusTUI folder!",
        ]
    );
    assert_eq!(s.stage, SendStage::Finished);
    assert!(s.step(true).is_empty());
}

#[test]
fn sending_a_document_is_not_scanned() {
    let (mut s, _) = FileSend::new("notes.txt".to_string());
    assert!(!s.media);
    s.step(true);
    s.step(true);
    let last = describe(&s.step(true));
    assert_eq!(last.len(), 2);
    assert!(last[1].contains("cmd notification post"));
}

#[test]
fn missing_or_failed_sends_are_logged() {
    let (mut s, _) = FileSend::new("/nope/x.png".to_string());
    assert_eq!(describe(&s.step(false)), vec!["log ❌ [FILE NOT FOUND]: /nope/x.png"]);
    let (mut s, _) = FileSend::new("/tmp/".to_string());
    assert_eq!(s.name, "tmp");
    let (mut s2, _) = FileSend::new("..".to_string());
    assert_eq!(s2.name, "file");
    s2.step(true);
    s2.step(true);
    assert_eq!(describe(&s2.step(false)), vec!["log ❌ [ERROR]: Failed to transfer file."]);
    s.step(true);
}

#[test]
fn pulling_falls_back_to_download_folder() {
    let (mut p, first) = FilePull::new("a.pdf".to_string());
    assert_eq!(
        describe(&first),
        vec![
            "log 📥 [PULLING]: Fetching a.pdf from phone...",
            "run adb -s 192.168.1.50:5555 pull /sdcard/Download/NexusTUI/a.pdf /home/senatorherscher/Downloads/",
        ]
    );
    assert_eq!(
        describe(&p.step(false)),
        vec!["run adb -s 192.168.1.50:5555 pull /sdcard/Download/a.pdf /home/senatorherscher/Downloads/"]
    );
    assert_eq!(describe(&p.step(false)), vec!["log ❌ [NOT FOUND]: a.pdf not found on phone."]);
    assert_eq!(p.stage, PullStage::Finished);
}

#[test]
fn pulling_from_inbox_succeeds_at_once() {
    let (mut p, _) = FilePull::new("b.jpg".to_string());
    assert_eq!(describe(&p.step(true)), vec!["log ✅ [RECEIVED]: b.jpg -> PC ~/Downloads/"]);
}

#[test]
fn chat_notification_arguments() {
    let c = message_notification_command("hello phone");
    assert_eq!(c.program, "adb");
    assert_eq!(
        c.args,
        vec!["-s", "192.168.1.50:5555", "shell", "cmd", "notification", "post", "-t", "⚡ NexusTUI Message", "msg_tag", "hello phone"]
    );
}
